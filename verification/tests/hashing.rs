use ink_env::hash::Blake2x128;
use peer_name_service::hasher::{hash, hash_sub};
use peer_name_service::registry::PeerName;

fn registry() -> PeerName {
    PeerName::default([0xA0; 32], [0xB0; 32])
}

fn digest(bytes: &[u8]) -> [u8; 16] {
    let mut output = [0u8; 16];
    ink_env::hash_bytes::<Blake2x128>(bytes, &mut output);
    output
}

#[test]
fn node_of_alice_is_the_digest_of_its_prefixed_bytes() {
    let expected: [u8; 16] =
        [108, 163, 15, 25, 171, 185, 14, 71, 162, 121, 242, 201, 29, 25, 104, 80];
    assert_eq!(hash(&b"alice".to_vec()), expected);
    assert_eq!(registry().get_node(b"alice".to_vec()), expected);
    assert_eq!(expected, digest(&[20, b'a', b'l', b'i', b'c', b'e']));
}

#[test]
fn node_of_the_empty_name() {
    let expected: [u8; 16] =
        [112, 37, 224, 117, 213, 226, 246, 205, 227, 204, 5, 26, 49, 240, 118, 96];
    assert_eq!(hash(&Vec::new()), expected);
    assert_eq!(expected, digest(&[0]));
}

#[test]
fn subnode_of_us_under_shop() {
    let expected: [u8; 16] =
        [195, 35, 28, 0, 88, 52, 8, 227, 107, 118, 40, 139, 108, 249, 237, 56];
    assert_eq!(hash_sub(&b"shop".to_vec(), &b"us".to_vec()), expected);
    assert_eq!(registry().get_subnode(b"shop".to_vec(), b"us".to_vec()), expected);
    assert_eq!(expected, digest(&[16, b's', b'h', b'o', b'p', 8, b'u', b's']));
}

#[test]
fn name_of_64_bytes_has_a_two_byte_prefix() {
    let name = vec![b'x'; 64];
    let expected: [u8; 16] =
        [49, 254, 123, 185, 199, 191, 78, 148, 120, 143, 75, 29, 11, 255, 134, 31];
    assert_eq!(hash(&name), expected);
    let mut bytes = vec![1u8, 1u8];
    bytes.extend_from_slice(&name);
    assert_eq!(expected, digest(&bytes));
}

#[test]
fn name_of_63_bytes_has_a_one_byte_prefix() {
    let name = vec![b'x'; 63];
    let mut bytes = vec![252u8];
    bytes.extend_from_slice(&name);
    assert_eq!(hash(&name), digest(&bytes));
}

#[test]
fn name_of_16384_bytes_has_a_four_byte_prefix() {
    let name = vec![b'y'; 16384];
    let expected: [u8; 16] =
        [246, 96, 206, 76, 98, 39, 247, 168, 72, 179, 92, 20, 135, 43, 190, 91];
    assert_eq!(hash(&name), expected);
    let mut bytes = vec![2u8, 0u8, 1u8, 0u8];
    bytes.extend_from_slice(&name);
    assert_eq!(expected, digest(&bytes));
}

#[test]
fn name_of_16383_bytes_has_a_two_byte_prefix() {
    let name = vec![b'y'; 16383];
    let mut bytes = vec![0xFDu8, 0xFFu8];
    bytes.extend_from_slice(&name);
    assert_eq!(hash(&name), digest(&bytes));
}

#[test]
fn pair_of_long_names_is_digested_field_by_field() {
    let parent = vec![7u8; 100];
    let sub = vec![9u8; 70];
    let mut bytes = vec![0x91u8, 0x01u8];
    bytes.extend_from_slice(&parent);
    bytes.extend_from_slice(&[0x19u8, 0x01u8]);
    bytes.extend_from_slice(&sub);
    assert_eq!(hash_sub(&parent, &sub), digest(&bytes));
}

#[test]
fn hash_is_deterministic() {
    let names: [&[u8]; 5] = [b"", b"a", b"alice", b"shop", b"\x00\xff\x00"];
    for name in names {
        assert_eq!(hash(&name.to_vec()), hash(&name.to_vec()));
        assert_eq!(
            hash_sub(&name.to_vec(), &b"sub".to_vec()),
            hash_sub(&name.to_vec(), &b"sub".to_vec())
        );
    }
}

#[test]
fn distinct_names_have_distinct_nodes() {
    let names: [&[u8]; 8] = [b"", b"a", b"b", b"ab", b"ba", b"alice", b"alicf", b"\x00"];
    for (i, a) in names.iter().enumerate() {
        for (j, b) in names.iter().enumerate() {
            if i != j {
                assert_ne!(hash(&a.to_vec()), hash(&b.to_vec()));
            }
        }
    }
}

#[test]
fn subnode_differs_from_the_nodes_of_its_parts() {
    let parent = b"shop".to_vec();
    let sub = b"us".to_vec();
    let subnode = hash_sub(&parent, &sub);
    assert_ne!(subnode, hash(&parent));
    assert_ne!(subnode, hash(&sub));
    assert_ne!(subnode, hash_sub(&sub, &parent));
    assert_eq!(
        hash_sub(&sub, &parent),
        [205, 147, 116, 78, 170, 125, 151, 135, 83, 111, 186, 78, 225, 202, 21, 240]
    );
}

#[test]
fn subnode_is_not_the_node_of_the_joined_names() {
    let joined = b"shopus".to_vec();
    assert_ne!(hash_sub(&b"shop".to_vec(), &b"us".to_vec()), hash(&joined));
}

#[test]
fn moving_a_byte_between_parent_and_sub_changes_the_subnode() {
    let left = hash_sub(&b"ab".to_vec(), &b"c".to_vec());
    let right = hash_sub(&b"a".to_vec(), &b"bc".to_vec());
    assert_eq!(left, [42, 111, 131, 224, 28, 164, 97, 140, 186, 116, 166, 248, 23, 121, 4, 252]);
    assert_eq!(right, [214, 210, 89, 14, 214, 177, 195, 24, 172, 99, 203, 167, 178, 41, 186, 194]);
    assert_ne!(left, right);
}
