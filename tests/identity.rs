use safe_nd::error::Error;
use safe_nd::identity::{AppPublicId, ClientPublicId, NodePublicId, PublicId};
use safe_nd::xor_name::XorName;
use std::cmp::Ordering;
use std::collections::hash_map::DefaultHasher;
use std::hash::{Hash, Hasher};

fn random_key() -> [u8; 32] {
    rand::random::<[u8; 32]>()
}

fn node_with_share(rng: &mut rand::rngs::ThreadRng) -> NodePublicId {
    let mut id = NodePublicId::new(random_key());
    let set = threshold_crypto::SecretKeySet::random(1, rng);
    let group = set.public_keys().public_key();
    assert_eq!(id.install_threshold_share(&set.secret_key_share(0), &group), Ok(()));
    id
}

fn hash_of(id: &PublicId) -> u64 {
    let mut h = DefaultHasher::new();
    id.hash(&mut h);
    h.finish()
}

#[test]
fn zbase32_encode_decode_client_public_id() {
    let id = ClientPublicId::new(random_key());
    assert_eq!(
        ClientPublicId::decode_from_zbase32(&id.encode_to_zbase32()).unwrap(),
        id
    );

    let node_id = NodePublicId::new(random_key());
    assert!(match ClientPublicId::decode_from_zbase32(&node_id.encode_to_zbase32()) {
        Err(Error::VariantMismatch) => true,
        _ => false,
    });
    assert!(ClientPublicId::decode_from_zbase32("sdkjf832939fjs").is_err());
}

#[test]
fn zbase32_encode_decode_node_public_id() {
    let mut rng = rand::thread_rng();
    let id = node_with_share(&mut rng);
    assert_eq!(
        NodePublicId::decode_from_zbase32(&id.encode_to_zbase32()).unwrap(),
        id
    );
    assert!(NodePublicId::decode_from_zbase32("7djsk38").is_err());
}

#[test]
fn zbase32_encode_decode_app_public_id() {
    let owner = ClientPublicId::new(random_key());
    let id = AppPublicId::new(random_key(), &owner);
    assert_eq!(
        AppPublicId::decode_from_zbase32(&id.encode_to_zbase32()).unwrap(),
        id
    );
    assert!(AppPublicId::decode_from_zbase32("7od8fh2").is_err());
}

#[test]
fn zbase32_encode_decode_enum_public_id() {
    let id = PublicId::Client(ClientPublicId::new(random_key()));
    assert_eq!(id, PublicId::decode_from_zbase32(&id.encode_to_zbase32()).unwrap());
    assert!(PublicId::decode_from_zbase32("c419cxim9").is_err());
}

#[test]
fn round_trip_node_without_share() {
    let id = NodePublicId::new(random_key());
    assert_eq!(NodePublicId::decode_from_zbase32(&id.encode_to_zbase32()), Ok(id.clone()));
    let any = PublicId::Node(id);
    assert_eq!(PublicId::decode_from_zbase32(&any.encode_to_zbase32()), Ok(any.clone()));
}

#[test]
fn round_trip_enum_node_and_app() {
    let mut rng = rand::thread_rng();
    let node = PublicId::Node(node_with_share(&mut rng));
    assert_eq!(PublicId::decode_from_zbase32(&node.encode_to_zbase32()), Ok(node.clone()));
    let owner = ClientPublicId::new(random_key());
    let app = PublicId::App(AppPublicId::new(random_key(), &owner));
    assert_eq!(PublicId::decode_from_zbase32(&app.encode_to_zbase32()), Ok(app.clone()));
}

#[test]
fn cross_kind_decoding_is_refused() {
    let mut rng = rand::thread_rng();
    let client = ClientPublicId::new(random_key());
    let text = client.encode_to_zbase32();
    assert_eq!(NodePublicId::decode_from_zbase32(&text), Err(Error::VariantMismatch));
    assert_eq!(AppPublicId::decode_from_zbase32(&text), Err(Error::VariantMismatch));
    let node = node_with_share(&mut rng);
    assert_eq!(AppPublicId::decode_from_zbase32(&node.encode_to_zbase32()), Err(Error::VariantMismatch));
    let app = AppPublicId::new(random_key(), &client);
    assert_eq!(NodePublicId::decode_from_zbase32(&app.encode_to_zbase32()), Err(Error::VariantMismatch));
    assert_eq!(ClientPublicId::decode_from_zbase32(&app.encode_to_zbase32()), Err(Error::VariantMismatch));
}

#[test]
fn malformed_input_is_refused() {
    for text in ["sdkjf832939fjs", "7djsk38", "7od8fh2", "c419cxim9", "", "h!!", "hyryyy"] {
        match PublicId::decode_from_zbase32(text) {
            Err(Error::InvalidEncoding) | Err(Error::Malformed) => {}
            other => panic!("unexpected result for {:?}: {:?}", text, other),
        }
    }
}

#[test]
fn invalid_encoding_error() {
    assert_eq!(PublicId::decode_from_zbase32(""), Err(Error::InvalidEncoding));
    assert_eq!(PublicId::decode_from_zbase32("h!!"), Err(Error::InvalidEncoding));
    // A valid multibase text in another base.
    assert_eq!(PublicId::decode_from_zbase32("f01"), Err(Error::InvalidEncoding));
}

#[test]
fn malformed_error() {
    // "hbr" is the z-base-32 text of the single byte 9.
    assert_eq!(PublicId::decode_from_zbase32("hbr"), Err(Error::Malformed));
    assert_eq!(PublicId::from_canonical_bytes(&[1u8; 5]), Err(Error::Malformed));
    let mut node = vec![0u8; 34];
    node[33] = 2;
    assert_eq!(PublicId::from_canonical_bytes(&node), Err(Error::Malformed));
}

#[test]
fn exact_zbase32_text() {
    let id = ClientPublicId::new([0u8; 32]);
    assert_eq!(
        id.encode_to_zbase32(),
        "hyryyyyyyyyyyyyyyyyyyyyyyyyyyyyyyyyyyyyyyyyyyyyyyyyyyy"
    );
    let mut key = [0u8; 32];
    for (i, b) in key.iter_mut().enumerate() {
        *b = i as u8;
    }
    let id = PublicId::Client(ClientPublicId::new(key));
    let text = "hyryynyodyonocbaebrfysdypba8tyre1nckbkfozdyctwgahdwxb6";
    assert_eq!(id.encode_to_zbase32(), text);
    assert_eq!(PublicId::decode_from_zbase32(text), Ok(id));
}

#[test]
fn canonical_bytes_layout() {
    let key = [7u8; 32];
    let client = PublicId::Client(ClientPublicId::new(key));
    let mut expected = vec![1u8];
    expected.extend_from_slice(&key);
    assert_eq!(client.to_canonical_bytes(), expected);

    let node = PublicId::Node(NodePublicId::new(key));
    let mut expected = vec![0u8];
    expected.extend_from_slice(&key);
    expected.push(0);
    assert_eq!(node.to_canonical_bytes(), expected);

    let owner = ClientPublicId::new([3u8; 32]);
    let app = PublicId::App(AppPublicId::new(key, &owner));
    let bytes = app.to_canonical_bytes();
    assert_eq!(bytes.len(), 65);
    assert_eq!(bytes[0], 2);
    assert_eq!(&bytes[1..33], &key[..]);
    assert_eq!(&bytes[33..65], &[3u8; 32][..]);
    assert_eq!(PublicId::from_canonical_bytes(&bytes), Ok(app));
}

#[test]
fn node_with_share_layout() {
    let mut rng = rand::thread_rng();
    let node = node_with_share(&mut rng);
    let keys = node.bls.clone().unwrap();
    assert_eq!(keys.public_share.len(), 48);
    assert_eq!(keys.group_key.len(), 48);
    let bytes = node.to_canonical_bytes();
    assert_eq!(bytes.len(), 130);
    assert_eq!(bytes[33], 1);
    assert_eq!(&bytes[34..82], &keys.public_share[..]);
    assert_eq!(&bytes[82..130], &keys.group_key[..]);
}

#[test]
fn installed_share_matches_threshold_crypto() {
    let mut rng = rand::thread_rng();
    let set = threshold_crypto::SecretKeySet::random(1, &mut rng);
    let share = set.secret_key_share(3);
    let group = set.public_keys().public_key();
    let mut node = NodePublicId::new(random_key());
    assert_eq!(node.install_threshold_share(&share, &group), Ok(()));
    let keys = node.bls.unwrap();
    assert_eq!(keys.public_share, share.public_key_share().to_bytes());
    assert_eq!(keys.group_key, group.to_bytes());
}

#[test]
fn app_name_is_owner_name() {
    let owner = ClientPublicId::new(random_key());
    let app1 = AppPublicId::new(random_key(), &owner);
    let app2 = AppPublicId::new([0u8; 32], &owner);
    assert_eq!(app1.owner_name(), owner.name());
    assert_eq!(PublicId::App(app1).name(), PublicId::Client(owner.clone()).name());
    assert_eq!(PublicId::App(app2).name(), owner.name());
}

#[test]
fn name_is_derived_from_key() {
    let key = [5u8; 32];
    assert_eq!(ClientPublicId::new(key).name(), XorName::new(key));
    assert_eq!(NodePublicId::new(key).name(), XorName::new(key));
    assert_eq!(PublicId::Node(NodePublicId::new(key)).name().as_bytes(), &key[..]);
}

#[test]
fn name_unchanged_by_share_installation() {
    let mut rng = rand::thread_rng();
    let mut node = NodePublicId::new(random_key());
    let before = node.name();
    assert!(!node.has_threshold_share());
    let set = threshold_crypto::SecretKeySet::random(1, &mut rng);
    let group = set.public_keys().public_key();
    assert_eq!(node.install_threshold_share(&set.secret_key_share(0), &group), Ok(()));
    assert!(node.has_threshold_share());
    assert_eq!(node.name(), before);
}

#[test]
fn second_share_installation_is_refused() {
    let mut rng = rand::thread_rng();
    let mut node = node_with_share(&mut rng);
    let copy = node.clone();
    let set = threshold_crypto::SecretKeySet::random(1, &mut rng);
    let group = set.public_keys().public_key();
    assert_eq!(
        node.install_threshold_share(&set.secret_key_share(1), &group),
        Err(Error::CapabilityAlreadyInstalled)
    );
    assert_eq!(node, copy);
}

#[test]
fn order_is_total_across_kinds() {
    let mut rng = rand::thread_rng();
    let owner = ClientPublicId::new(random_key());
    let ids = vec![
        PublicId::Node(NodePublicId::new([9u8; 32])),
        PublicId::Node(node_with_share(&mut rng)),
        PublicId::Client(ClientPublicId::new([0u8; 32])),
        PublicId::Client(owner.clone()),
        PublicId::App(AppPublicId::new([1u8; 32], &owner)),
        PublicId::App(AppPublicId::new([2u8; 32], &owner)),
    ];
    for a in &ids {
        for b in &ids {
            let c = a.compare(b);
            assert_eq!(c, a.cmp(b));
            assert_eq!(c == Ordering::Equal, a == b);
            assert_eq!(c.reverse(), b.compare(a));
            if a == b {
                assert_eq!(hash_of(a), hash_of(b));
            }
        }
    }
    assert_eq!(ids[0].compare(&ids[2]), Ordering::Less);
    assert_eq!(ids[4].compare(&ids[3]), Ordering::Greater);
    assert_eq!(ids[4].compare(&ids[5]), Ordering::Less);
}

#[test]
fn equal_ids_hash_alike() {
    let a = PublicId::Client(ClientPublicId::new([4u8; 32]));
    let b = PublicId::decode_from_zbase32(&a.encode_to_zbase32()).unwrap();
    assert_eq!(a, b);
    assert_eq!(hash_of(&a), hash_of(&b));
}

#[test]
fn from_decoded_cases() {
    assert_eq!(PublicId::from_decoded(None), Err(Error::InvalidEncoding));
    let mut bytes = vec![1u8];
    bytes.extend_from_slice(&[6u8; 32]);
    assert_eq!(PublicId::from_decoded(Some((false, bytes.clone()))), Err(Error::InvalidEncoding));
    assert_eq!(
        PublicId::from_decoded(Some((true, bytes))),
        Ok(PublicId::Client(ClientPublicId::new([6u8; 32])))
    );
    assert_eq!(PublicId::from_decoded(Some((true, vec![2u8; 3]))), Err(Error::Malformed));
}

#[test]
fn error_descriptions() {
    assert_eq!(Error::InvalidEncoding.describe(), "invalid z-base-32 encoding");
    assert_eq!(Error::Malformed.describe(), "malformed identity bytes");
    assert_eq!(Error::VariantMismatch.describe(), "identity is of another kind");
    assert_eq!(
        Error::CapabilityAlreadyInstalled.describe(),
        "threshold key share already installed"
    );
}

#[test]
fn set_threshold_keys_stores_given_bytes() {
    let mut node = NodePublicId::new([8u8; 32]);
    assert_eq!(node.threshold_keys(), None);
    assert_eq!(node.set_threshold_keys([1u8; 48], [2u8; 48]), Ok(()));
    let keys = node.threshold_keys().unwrap();
    assert_eq!(keys.public_share, [1u8; 48]);
    assert_eq!(keys.group_key, [2u8; 48]);
    assert_eq!(
        node.set_threshold_keys([3u8; 48], [4u8; 48]),
        Err(Error::CapabilityAlreadyInstalled)
    );
    assert_eq!(node.threshold_keys().unwrap().public_share, [1u8; 48]);
    assert_eq!(node.name(), XorName::new([8u8; 32]));
}
