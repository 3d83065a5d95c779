//! Public identities of nodes, clients and apps.
use vstd::prelude::*;
use threshold_crypto::{PublicKey, SecretKeyShare};
use crate::bytes::{BLS_KEY_LEN, KEY_LEN};
use crate::error::Error;
use crate::threshold::{public_key_bytes, public_share_bytes};
use crate::xor_name::{derive_address, XorName};

verus! {

/// What an identity is, as plain byte sequences.
pub enum IdModel {
    /// A node: its single-key public key and, once installed, its public
    /// key share and the group's public key.
    Node { ed25519: Seq<u8>, bls: Option<(Seq<u8>, Seq<u8>)> },
    /// A client: its single-key public key.
    Client { key: Seq<u8> },
    /// An app: its own public key and the address of the client that owns it.
    App { key: Seq<u8>, owner: Seq<u8> },
}

impl IdModel {
    /// Every key and address has its fixed length.
    pub open spec fn wf(self) -> bool {
        match self {
            IdModel::Node { ed25519, bls } => ed25519.len() == KEY_LEN && match bls {
                Some((share, group)) => share.len() == BLS_KEY_LEN && group.len() == BLS_KEY_LEN,
                None => true,
            },
            IdModel::Client { key } => key.len() == KEY_LEN,
            IdModel::App { key, owner } => key.len() == KEY_LEN && owner.len() == KEY_LEN,
        }
    }

    /// The network address: derived from the key for a node or a client,
    /// the owner's address for an app.
    pub open spec fn name(self) -> Seq<u8> {
        match self {
            IdModel::Node { ed25519, .. } => derive_address(ed25519),
            IdModel::Client { key } => derive_address(key),
            IdModel::App { owner, .. } => owner,
        }
    }
}

/// The public parts of a node's threshold key material.
#[derive(Clone, Copy, Debug, PartialEq, Eq, PartialOrd, Ord, Hash)]
pub struct BlsKeys {
    /// The node's public key share.
    pub public_share: [u8; 48],
    /// The signing group's public key.
    pub group_key: [u8; 48],
}

/// The public identity of a network node.
#[derive(Clone, Debug, PartialEq, Eq, PartialOrd, Ord, Hash)]
pub struct NodePublicId {
    /// The node's single-key public key.
    pub ed25519: [u8; 32],
    /// The threshold key material, once installed.
    pub bls: Option<BlsKeys>,
}

/// The public identity of a network client.
#[derive(Clone, Debug, PartialEq, Eq, PartialOrd, Ord, Hash)]
pub struct ClientPublicId {
    /// The client's single-key public key.
    pub public_key: [u8; 32],
}

/// The public identity of an app acting for a client.
#[derive(Clone, Debug, PartialEq, Eq, PartialOrd, Ord, Hash)]
pub struct AppPublicId {
    /// The app's own single-key public key.
    pub public_key: [u8; 32],
    /// The address of the owning client.
    pub owner: XorName,
}

/// The identity of a network node, client or app.
#[derive(Clone, Debug, PartialEq, Eq, PartialOrd, Ord, Hash)]
pub enum PublicId {
    /// The public identity of a network node.
    Node(NodePublicId),
    /// The public identity of a network client.
    Client(ClientPublicId),
    /// The public identity of a network app.
    App(AppPublicId),
}

impl View for NodePublicId {
    type V = IdModel;

    open spec fn view(&self) -> IdModel {
        IdModel::Node {
            ed25519: self.ed25519@,
            bls: match self.bls {
                Some(k) => Some((k.public_share@, k.group_key@)),
                None => None,
            },
        }
    }
}

impl View for ClientPublicId {
    type V = IdModel;

    open spec fn view(&self) -> IdModel {
        IdModel::Client { key: self.public_key@ }
    }
}

impl View for AppPublicId {
    type V = IdModel;

    open spec fn view(&self) -> IdModel {
        IdModel::App { key: self.public_key@, owner: self.owner@ }
    }
}

impl View for PublicId {
    type V = IdModel;

    open spec fn view(&self) -> IdModel {
        match self {
            PublicId::Node(id) => id@,
            PublicId::Client(id) => id@,
            PublicId::App(id) => id@,
        }
    }
}

impl NodePublicId {
    /// A node identity with the given public key and no threshold key share.
    pub fn new(ed25519: [u8; 32]) -> (r: NodePublicId)
        ensures
            r@ == (IdModel::Node { ed25519: ed25519@, bls: None }),
            r@.wf(),
    {
        NodePublicId { ed25519, bls: None }
    }

    /// The node's network address, derived from its public key.
    pub fn name(&self) -> (r: XorName)
        ensures
            r@ == self@.name(),
    {
        XorName::from_public_key(&self.ed25519)
    }

    /// Whether a threshold key share is installed.
    pub fn has_threshold_share(&self) -> (r: bool)
        ensures
            r == (self.bls is Some),
    {
        self.bls.is_some()
    }

    /// The installed public key share and group key, if any.
    pub fn threshold_keys(&self) -> (r: Option<&BlsKeys>)
        ensures
            r is Some == self.bls is Some,
            r matches Some(k) ==> self.bls == Some(*k),
    {
        self.bls.as_ref()
    }

    /// Stores a public key share and the group's public key. A node takes
    /// threshold keys once: a second call is refused and leaves the node as
    /// it was.
    pub fn set_threshold_keys(&mut self, share: [u8; 48], group: [u8; 48]) -> (r: Result<(), Error>)
        ensures
            old(self).bls is Some ==> r == Err::<(), Error>(Error::CapabilityAlreadyInstalled)
                && *final(self) == *old(self),
            old(self).bls is None ==> r is Ok && final(self)@ == (IdModel::Node {
                ed25519: old(self).ed25519@,
                bls: Some((share@, group@)),
            }),
            final(self)@.name() == old(self)@.name(),
    {
        if self.bls.is_some() {
            return Err(Error::CapabilityAlreadyInstalled);
        }
        self.bls = Some(BlsKeys { public_share: share, group_key: group });
        Ok(())
    }

    /// Installs a threshold key share: stores the public share that belongs
    /// to `secret` and the group's public key, as `set_threshold_keys` does.
    pub fn install_threshold_share(&mut self, secret: &SecretKeyShare, group: &PublicKey) -> (r: Result<(), Error>)
        ensures
            old(self).bls is Some ==> r == Err::<(), Error>(Error::CapabilityAlreadyInstalled)
                && *final(self) == *old(self),
            old(self).bls is None ==> (r is Ok && final(self).ed25519 == old(self).ed25519
                && final(self).bls is Some),
            final(self)@.name() == old(self)@.name(),
    {
        let share = public_share_bytes(secret);
        let group_key = public_key_bytes(group);
        self.set_threshold_keys(share, group_key)
    }
}

impl ClientPublicId {
    /// A client identity with the given public key.
    pub fn new(public_key: [u8; 32]) -> (r: ClientPublicId)
        ensures
            r@ == (IdModel::Client { key: public_key@ }),
            r@.wf(),
    {
        ClientPublicId { public_key }
    }

    /// The client's network address, derived from its public key.
    pub fn name(&self) -> (r: XorName)
        ensures
            r@ == self@.name(),
    {
        XorName::from_public_key(&self.public_key)
    }
}

impl AppPublicId {
    /// An app identity with its own public key, owned by `owner`.
    pub fn new(public_key: [u8; 32], owner: &ClientPublicId) -> (r: AppPublicId)
        ensures
            r@ == (IdModel::App { key: public_key@, owner: owner@.name() }),
            r@.name() == owner@.name(),
    {
        AppPublicId { public_key, owner: owner.name() }
    }

    /// The app's network address: that of its owner.
    pub fn owner_name(&self) -> (r: XorName)
        ensures
            r@ == self@.name(),
    {
        self.owner
    }
}

impl PublicId {
    /// Returns the entity's network address.
    pub fn name(&self) -> (r: XorName)
        ensures
            r@ == self@.name(),
    {
        match self {
            PublicId::Node(id) => id.name(),
            PublicId::Client(id) => id.name(),
            PublicId::App(id) => id.owner_name(),
        }
    }
}

/// An app's address is its owner's address, whatever the app's own key is.
pub proof fn lemma_app_name_is_owner_name(key: Seq<u8>, owner: IdModel)
    ensures
        (IdModel::App { key, owner: owner.name() }).name() == owner.name(),
{
}

/// Every identity is well formed: its keys and addresses have their fixed
/// lengths by their types.
pub proof fn lemma_public_id_wf(id: PublicId)
    ensures
        id@.wf(),
{
}

/// Identities with the same model are the same identity.
pub proof fn lemma_view_injective(a: PublicId, b: PublicId)
    ensures
        a@ == b@ <==> a == b,
{
    if a@ == b@ {
        match (a, b) {
            (PublicId::Node(x), PublicId::Node(y)) => {
                assert(x.ed25519 =~= y.ed25519);
                match (x.bls, y.bls) {
                    (Some(k), Some(l)) => {
                        assert(k.public_share =~= l.public_share);
                        assert(k.group_key =~= l.group_key);
                    },
                    _ => {},
                }
            },
            (PublicId::Client(x), PublicId::Client(y)) => {
                assert(x.public_key =~= y.public_key);
            },
            (PublicId::App(x), PublicId::App(y)) => {
                assert(x.public_key =~= y.public_key);
                assert(x.owner.bytes =~= y.owner.bytes);
            },
            _ => {},
        }
    }
}

} // verus!
