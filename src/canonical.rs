//! The canonical byte form of an identity.
//!
//! Layout: one tag byte (0 node, 1 client, 2 app), then the fields in order.
//! A node writes its 32-byte key, then 0 with no key share, or 1 followed by
//! its 48-byte public share and the 48-byte group key. A client writes its
//! 32-byte key. An app writes its 32-byte key and its owner's 32-byte address.
use vstd::prelude::*;
use crate::bytes::{append_bytes, take_array};
use crate::error::Error;
use crate::identity::{AppPublicId, BlsKeys, ClientPublicId, IdModel, NodePublicId, PublicId};
use crate::xor_name::XorName;

verus! {

/// Tag byte of a node identity.
pub const TAG_NODE: u8 = 0;

/// Tag byte of a client identity.
pub const TAG_CLIENT: u8 = 1;

/// Tag byte of an app identity.
pub const TAG_APP: u8 = 2;

/// Length of a node's canonical form without a key share.
pub const NODE_LEN: usize = 34;

/// Length of a node's canonical form with a key share.
pub const NODE_WITH_SHARE_LEN: usize = 130;

/// Length of a client's canonical form.
pub const CLIENT_LEN: usize = 33;

/// Length of an app's canonical form.
pub const APP_LEN: usize = 65;

/// The tag byte of an identity's kind.
pub open spec fn kind_tag(m: IdModel) -> u8 {
    match m {
        IdModel::Node { .. } => TAG_NODE,
        IdModel::Client { .. } => TAG_CLIENT,
        IdModel::App { .. } => TAG_APP,
    }
}

/// The canonical bytes of an identity.
pub open spec fn canonical(m: IdModel) -> Seq<u8> {
    match m {
        IdModel::Node { ed25519, bls } => seq![TAG_NODE] + ed25519 + match bls {
            None => seq![0u8],
            Some((share, group)) => seq![1u8] + share + group,
        },
        IdModel::Client { key } => seq![TAG_CLIENT] + key,
        IdModel::App { key, owner } => seq![TAG_APP] + key + owner,
    }
}

/// The identity whose canonical bytes are `b`, if there is one.
pub open spec fn parse_canonical(b: Seq<u8>) -> Option<IdModel> {
    if b.len() == CLIENT_LEN && b[0] == TAG_CLIENT {
        Some(IdModel::Client { key: b.subrange(1, 33) })
    } else if b.len() == APP_LEN && b[0] == TAG_APP {
        Some(IdModel::App { key: b.subrange(1, 33), owner: b.subrange(33, 65) })
    } else if b.len() == NODE_LEN && b[0] == TAG_NODE && b[33] == 0 {
        Some(IdModel::Node { ed25519: b.subrange(1, 33), bls: None })
    } else if b.len() == NODE_WITH_SHARE_LEN && b[0] == TAG_NODE && b[33] == 1 {
        Some(
            IdModel::Node {
                ed25519: b.subrange(1, 33),
                bls: Some((b.subrange(34, 82), b.subrange(82, 130))),
            },
        )
    } else {
        None
    }
}

/// Parsing the canonical bytes of a well-formed identity gives it back.
pub proof fn lemma_parse_canonical(m: IdModel)
    requires
        m.wf(),
    ensures
        parse_canonical(canonical(m)) == Some(m),
{
    let b = canonical(m);
    match m {
        IdModel::Node { ed25519, bls } => match bls {
            None => {
                assert(b.subrange(1, 33) =~= ed25519);
            },
            Some((share, group)) => {
                assert(b.subrange(1, 33) =~= ed25519);
                assert(b.subrange(34, 82) =~= share);
                assert(b.subrange(82, 130) =~= group);
            },
        },
        IdModel::Client { key } => {
            assert(b.subrange(1, 33) =~= key);
        },
        IdModel::App { key, owner } => {
            assert(b.subrange(1, 33) =~= key);
            assert(b.subrange(33, 65) =~= owner);
        },
    }
}

/// What parsing gives is well formed, and its canonical bytes are the input.
pub proof fn lemma_canonical_parse(b: Seq<u8>)
    ensures
        parse_canonical(b) matches Some(m) ==> m.wf() && canonical(m) == b,
{
    if let Some(m) = parse_canonical(b) {
        match m {
            IdModel::Node { ed25519, bls } => match bls {
                None => {
                    assert(canonical(m) =~= b);
                },
                Some((share, group)) => {
                    assert(canonical(m) =~= b);
                },
            },
            IdModel::Client { key } => {
                assert(canonical(m) =~= b);
            },
            IdModel::App { key, owner } => {
                assert(canonical(m) =~= b);
            },
        }
    }
}

/// Two well-formed identities with the same canonical bytes are the same.
pub proof fn lemma_canonical_injective(a: IdModel, b: IdModel)
    requires
        a.wf(),
        b.wf(),
    ensures
        canonical(a) == canonical(b) <==> a == b,
{
    lemma_parse_canonical(a);
    lemma_parse_canonical(b);
}

impl NodePublicId {
    /// The node's canonical bytes.
    pub fn to_canonical_bytes(&self) -> (r: Vec<u8>)
        ensures
            r@ == canonical(self@),
    {
        let mut r: Vec<u8> = Vec::new();
        r.push(TAG_NODE);
        append_bytes(&mut r, self.ed25519.as_slice());
        match &self.bls {
            None => {
                r.push(0u8);
            },
            Some(k) => {
                r.push(1u8);
                append_bytes(&mut r, k.public_share.as_slice());
                append_bytes(&mut r, k.group_key.as_slice());
            },
        }
        assert(r@ =~= canonical(self@));
        r
    }
}

impl ClientPublicId {
    /// The client's canonical bytes.
    pub fn to_canonical_bytes(&self) -> (r: Vec<u8>)
        ensures
            r@ == canonical(self@),
    {
        let mut r: Vec<u8> = Vec::new();
        r.push(TAG_CLIENT);
        append_bytes(&mut r, self.public_key.as_slice());
        assert(r@ =~= canonical(self@));
        r
    }
}

impl AppPublicId {
    /// The app's canonical bytes.
    pub fn to_canonical_bytes(&self) -> (r: Vec<u8>)
        ensures
            r@ == canonical(self@),
    {
        let mut r: Vec<u8> = Vec::new();
        r.push(TAG_APP);
        append_bytes(&mut r, self.public_key.as_slice());
        append_bytes(&mut r, self.owner.as_bytes());
        assert(r@ =~= canonical(self@));
        r
    }
}

impl PublicId {
    /// The identity's canonical bytes.
    pub fn to_canonical_bytes(&self) -> (r: Vec<u8>)
        ensures
            r@ == canonical(self@),
    {
        match self {
            PublicId::Node(id) => id.to_canonical_bytes(),
            PublicId::Client(id) => id.to_canonical_bytes(),
            PublicId::App(id) => id.to_canonical_bytes(),
        }
    }

    /// The identity whose canonical bytes are `b`; `Malformed` where there is none.
    pub fn from_canonical_bytes(b: &[u8]) -> (r: Result<PublicId, Error>)
        ensures
            match r {
                Ok(id) => parse_canonical(b@) == Some(id@) && id@.wf() && canonical(id@) == b@,
                Err(e) => e == Error::Malformed && parse_canonical(b@) is None,
            },
    {
        proof {
            lemma_canonical_parse(b@);
        }
        let n = b.len();
        if n == CLIENT_LEN && b[0] == TAG_CLIENT {
            Ok(PublicId::Client(ClientPublicId { public_key: take_array(b, 1) }))
        } else if n == APP_LEN && b[0] == TAG_APP {
            let owner = XorName { bytes: take_array(b, 33) };
            Ok(PublicId::App(AppPublicId { public_key: take_array(b, 1), owner }))
        } else if n == NODE_LEN && b[0] == TAG_NODE && b[33] == 0 {
            Ok(PublicId::Node(NodePublicId { ed25519: take_array(b, 1), bls: None }))
        } else if n == NODE_WITH_SHARE_LEN && b[0] == TAG_NODE && b[33] == 1 {
            let keys = BlsKeys {
                public_share: take_array(b, 34),
                group_key: take_array(b, 82),
            };
            Ok(PublicId::Node(NodePublicId { ed25519: take_array(b, 1), bls: Some(keys) }))
        } else {
            Err(Error::Malformed)
        }
    }
}

} // verus!
