//! The text form of an identity: its canonical bytes in multibase z-base-32.
use vstd::prelude::*;
use crate::canonical::{
    canonical, kind_tag, lemma_parse_canonical, parse_canonical,
    TAG_APP, TAG_CLIENT, TAG_NODE,
};
use crate::error::Error;
use crate::identity::{
    lemma_public_id_wf, AppPublicId, ClientPublicId, IdModel, NodePublicId, PublicId,
};

verus! {

/// The multibase z-base-32 text of a byte sequence, prefix included.
pub uninterp spec fn zbase32_text(b: Seq<u8>) -> Seq<char>;

/// What multibase decoding makes of a text: whether its prefix names
/// z-base-32, and the bytes, or nothing where the text does not decode.
pub uninterp spec fn multibase_decoded(s: Seq<char>) -> Option<(bool, Seq<u8>)>;

/// The model of what multibase decoding gave.
pub open spec fn decoded_model(d: Option<(bool, Vec<u8>)>) -> Option<(bool, Seq<u8>)> {
    match d {
        Some((z, v)) => Some((z, v@)),
        None => None,
    }
}

/// Relies on `multibase::encode` with `Base::Base32Z`: the z-base-32 text of
/// the bytes behind the prefix of that base.
#[verifier::external_body]
fn multibase_encode_zbase32(b: &[u8]) -> (r: String)
    ensures
        r@ == zbase32_text(b@),
{
    multibase::encode(multibase::Base::Base32Z, b)
}

/// Relies on `multibase::decode`: it reads the base from the prefix and
/// decodes the rest, and gives back the bytes that `multibase::encode` was given.
/// Its z-base-32 decoding is canonical: a text it accepts is the encoding of
/// the bytes it gives.
#[verifier::external_body]
fn multibase_decode(s: &str) -> (r: Option<(bool, Vec<u8>)>)
    ensures
        decoded_model(r) == multibase_decoded(s@),
        forall|b: Seq<u8>| #[trigger] zbase32_text(b) == s@ ==> decoded_model(r) == Some((true, b)),
        decoded_model(r) matches Some((true, b)) ==> s@ == zbase32_text(b),
{
    match multibase::decode(s) {
        Ok((multibase::Base::Base32Z, v)) => Some((true, v)),
        Ok((_, v)) => Some((false, v)),
        Err(_) => None,
    }
}

/// The identity that a text stands for, or why it stands for none.
pub open spec fn decode_spec(s: Seq<char>) -> Result<IdModel, Error> {
    match multibase_decoded(s) {
        Some((true, b)) => match parse_canonical(b) {
            Some(m) => Ok(m),
            None => Err(Error::Malformed),
        },
        _ => Err(Error::InvalidEncoding),
    }
}

/// The identity that a text stands for where it is of the kind with tag
/// `tag`; `VariantMismatch` where it is of another kind.
pub open spec fn decode_kind_spec(s: Seq<char>, tag: u8) -> Result<IdModel, Error> {
    match decode_spec(s) {
        Ok(m) => if kind_tag(m) == tag {
            Ok(m)
        } else {
            Err(Error::VariantMismatch)
        },
        Err(e) => Err(e),
    }
}

/// The model of a decoding result.
pub open spec fn result_model<T: View<V = IdModel>>(r: Result<T, Error>) -> Result<IdModel, Error> {
    match r {
        Ok(id) => Ok(id@),
        Err(e) => Err(e),
    }
}

impl PublicId {
    /// Returns the identity serialised and encoded in z-base-32.
    pub fn encode_to_zbase32(&self) -> (r: String)
        ensures
            r@ == zbase32_text(canonical(self@)),
    {
        let b = self.to_canonical_bytes();
        multibase_encode_zbase32(b.as_slice())
    }

    /// The identity that multibase decoding gave: `decoded` holds whether the
    /// base was z-base-32 and the bytes, or is `None` where decoding failed.
    pub fn from_decoded(decoded: Option<(bool, Vec<u8>)>) -> (r: Result<PublicId, Error>)
        ensures
            result_model(r) == match decoded {
                Some((true, b)) => match parse_canonical(b@) {
                    Some(m) => Ok(m),
                    None => Err(Error::Malformed),
                },
                _ => Err(Error::InvalidEncoding),
            },
            r matches Ok(id) ==> decoded_model(decoded) == Some((true, canonical(id@))),
    {
        match decoded {
            Some((true, b)) => PublicId::from_canonical_bytes(b.as_slice()),
            _ => Err(Error::InvalidEncoding),
        }
    }

    /// Creates an identity from its z-base-32 text. Text that is not
    /// multibase z-base-32 gives `InvalidEncoding`; bytes that are not the
    /// canonical form of an identity give `Malformed`. The text of any
    /// identity decodes to that identity, and only such texts decode.
    pub fn decode_from_zbase32(encoded: &str) -> (r: Result<PublicId, Error>)
        ensures
            result_model(r) == decode_spec(encoded@),
            forall|p: PublicId| #[trigger] zbase32_text(canonical(p@)) == encoded@
                ==> result_model(r) == Ok::<IdModel, Error>(p@),
            r matches Ok(p) ==> encoded@ == zbase32_text(canonical(p@)),
    {
        let decoded = multibase_decode(encoded);
        let r = PublicId::from_decoded(decoded);
        assert forall|p: PublicId| #[trigger] zbase32_text(canonical(p@)) == encoded@
            implies result_model(r) == Ok::<IdModel, Error>(p@) by {
            lemma_public_id_wf(p);
            lemma_parse_canonical(p@);
        }
        r
    }
}

impl NodePublicId {
    /// Returns the node identity serialised and encoded in z-base-32.
    pub fn encode_to_zbase32(&self) -> (r: String)
        ensures
            r@ == zbase32_text(canonical(self@)),
    {
        let b = self.to_canonical_bytes();
        multibase_encode_zbase32(b.as_slice())
    }

    /// Creates a node identity from its z-base-32 text. The text of an
    /// identity of another kind gives `VariantMismatch`.
    pub fn decode_from_zbase32(encoded: &str) -> (r: Result<NodePublicId, Error>)
        ensures
            result_model(r) == decode_kind_spec(encoded@, TAG_NODE),
            r matches Ok(id) ==> encoded@ == zbase32_text(canonical(id@)),
            forall|p: PublicId| #[trigger] zbase32_text(canonical(p@)) == encoded@
                ==> result_model(r) == if kind_tag(p@) == TAG_NODE {
                    Ok::<IdModel, Error>(p@)
                } else {
                    Err::<IdModel, Error>(Error::VariantMismatch)
                },
    {
        match PublicId::decode_from_zbase32(encoded) {
            Ok(PublicId::Node(id)) => Ok(id),
            Ok(_) => Err(Error::VariantMismatch),
            Err(e) => Err(e),
        }
    }
}

impl ClientPublicId {
    /// Returns the client identity serialised and encoded in z-base-32.
    pub fn encode_to_zbase32(&self) -> (r: String)
        ensures
            r@ == zbase32_text(canonical(self@)),
    {
        let b = self.to_canonical_bytes();
        multibase_encode_zbase32(b.as_slice())
    }

    /// Creates a client identity from its z-base-32 text. The text of an
    /// identity of another kind gives `VariantMismatch`.
    pub fn decode_from_zbase32(encoded: &str) -> (r: Result<ClientPublicId, Error>)
        ensures
            result_model(r) == decode_kind_spec(encoded@, TAG_CLIENT),
            r matches Ok(id) ==> encoded@ == zbase32_text(canonical(id@)),
            forall|p: PublicId| #[trigger] zbase32_text(canonical(p@)) == encoded@
                ==> result_model(r) == if kind_tag(p@) == TAG_CLIENT {
                    Ok::<IdModel, Error>(p@)
                } else {
                    Err::<IdModel, Error>(Error::VariantMismatch)
                },
    {
        match PublicId::decode_from_zbase32(encoded) {
            Ok(PublicId::Client(id)) => Ok(id),
            Ok(_) => Err(Error::VariantMismatch),
            Err(e) => Err(e),
        }
    }
}

impl AppPublicId {
    /// Returns the app identity serialised and encoded in z-base-32.
    pub fn encode_to_zbase32(&self) -> (r: String)
        ensures
            r@ == zbase32_text(canonical(self@)),
    {
        let b = self.to_canonical_bytes();
        multibase_encode_zbase32(b.as_slice())
    }

    /// Creates a app identity from its z-base-32 text. The text of an
    /// identity of another kind gives `VariantMismatch`.
    pub fn decode_from_zbase32(encoded: &str) -> (r: Result<AppPublicId, Error>)
        ensures
            result_model(r) == decode_kind_spec(encoded@, TAG_APP),
            r matches Ok(id) ==> encoded@ == zbase32_text(canonical(id@)),
            forall|p: PublicId| #[trigger] zbase32_text(canonical(p@)) == encoded@
                ==> result_model(r) == if kind_tag(p@) == TAG_APP {
                    Ok::<IdModel, Error>(p@)
                } else {
                    Err::<IdModel, Error>(Error::VariantMismatch)
                },
    {
        match PublicId::decode_from_zbase32(encoded) {
            Ok(PublicId::App(id)) => Ok(id),
            Ok(_) => Err(Error::VariantMismatch),
            Err(e) => Err(e),
        }
    }
}

} // verus!
