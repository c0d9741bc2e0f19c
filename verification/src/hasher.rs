//! Node identifiers: the 128-bit BLAKE2 digest of a name, or of a pair of
//! names, in its length-prefixed byte form.
use vstd::prelude::*;
use ink_env::hash::{Blake2x128, HashOutput};
use crate::types::Node;

verus! {

/// The longest name that can be given a length prefix.
pub const MAX_NAME_LEN: usize = 0xFFFF_FFFF;

/// The two low bytes of `value`, least significant first.
pub open spec fn le_bytes_2(value: nat) -> Seq<u8> {
    seq![(value % 256) as u8, ((value / 256) % 256) as u8]
}

/// The four low bytes of `value`, least significant first.
pub open spec fn le_bytes_4(value: nat) -> Seq<u8> {
    seq![
        (value % 256) as u8,
        ((value / 256) % 256) as u8,
        ((value / 65536) % 256) as u8,
        ((value / 16777216) % 256) as u8,
    ]
}

/// The compact form of a length: the two low bits of the first byte tell how
/// many bytes follow, the remaining bits hold the length itself.
pub open spec fn length_prefix(len: nat) -> Seq<u8> {
    if len < 64 {
        seq![(4 * len) as u8]
    } else if len < 16384 {
        le_bytes_2(4 * len + 1)
    } else if len < 1073741824 {
        le_bytes_4(4 * len + 2)
    } else {
        seq![3u8] + le_bytes_4(len)
    }
}

/// The bytes that are digested for a single name: its length, then the name.
pub open spec fn name_bytes(name: Seq<u8>) -> Seq<u8> {
    length_prefix(name.len()) + name
}

/// The bytes that are digested for a name under a parent: the parent in its
/// length-prefixed form, then the sub-name in its length-prefixed form.
pub open spec fn pair_bytes(parent: Seq<u8>, sub: Seq<u8>) -> Seq<u8> {
    name_bytes(parent) + name_bytes(sub)
}

/// The 128-bit BLAKE2b digest of a byte string.
pub uninterp spec fn blake2x128(input: Seq<u8>) -> Node;

/// The node of a top-level name.
pub open spec fn node_of(name: Seq<u8>) -> Node {
    blake2x128(name_bytes(name))
}

/// The node of `sub` under `parent`.
pub open spec fn subnode_of(parent: Seq<u8>, sub: Seq<u8>) -> Node {
    blake2x128(pair_bytes(parent, sub))
}

/// Calls `ink_env::hash_encoded` with the BLAKE2 128-bit hasher on a byte
/// vector. That function digests the SCALE encoding of its input, which for a
/// byte vector is the compact length followed by the bytes; the encoder
/// panics on more than `u32::MAX` items.
#[verifier::external_body]
fn hash_encoded_name(name: &Vec<u8>) -> (node: Node)
    requires
        name@.len() <= MAX_NAME_LEN,
    ensures
        node == blake2x128(name_bytes(name@)),
{
    let mut output = <Blake2x128 as HashOutput>::Type::default();
    ink_env::hash_encoded::<Blake2x128, _>(name, &mut output);
    output
}

/// Calls `ink_env::hash_encoded` with the BLAKE2 128-bit hasher on a pair of
/// byte vectors. The SCALE encoding of a tuple is the encoding of its first
/// field followed by that of its second.
#[verifier::external_body]
fn hash_encoded_pair(parent: &Vec<u8>, sub: &Vec<u8>) -> (node: Node)
    requires
        parent@.len() <= MAX_NAME_LEN,
        sub@.len() <= MAX_NAME_LEN,
    ensures
        node == blake2x128(pair_bytes(parent@, sub@)),
{
    let mut output = <Blake2x128 as HashOutput>::Type::default();
    ink_env::hash_encoded::<Blake2x128, _>(&(parent, sub), &mut output);
    output
}

/// The node of a top-level name.
pub fn hash(name: &Vec<u8>) -> (node: Node)
    requires
        name@.len() <= MAX_NAME_LEN,
    ensures
        node == node_of(name@),
{
    hash_encoded_name(name)
}

/// The node of `sub` under `parent`.
pub fn hash_sub(parent: &Vec<u8>, sub: &Vec<u8>) -> (node: Node)
    requires
        parent@.len() <= MAX_NAME_LEN,
        sub@.len() <= MAX_NAME_LEN,
    ensures
        node == subnode_of(parent@, sub@),
{
    hash_encoded_pair(parent, sub)
}

/// The length that a byte string begins with, read back from its prefix.
pub open spec fn leading_length(s: Seq<u8>) -> nat {
    let mode = s[0] as nat % 4;
    if mode == 0 {
        s[0] as nat / 4
    } else if mode == 1 {
        ((s[0] as nat + 256 * s[1] as nat) / 4) as nat
    } else if mode == 2 {
        ((s[0] as nat + 256 * s[1] as nat + 65536 * s[2] as nat + 16777216 * s[3] as nat)
            / 4) as nat
    } else {
        s[1] as nat + 256 * s[2] as nat + 65536 * s[3] as nat + 16777216 * s[4] as nat
    }
}

proof fn lemma_le_bytes_2(value: nat)
    requires
        value < 65536,
    ensures
        le_bytes_2(value).len() == 2,
        le_bytes_2(value)[0] as nat + 256 * le_bytes_2(value)[1] as nat == value,
        le_bytes_2(value)[0] as nat % 4 == value % 4,
{
}

proof fn lemma_le_bytes_4(value: nat)
    requires
        value < 4294967296,
    ensures
        le_bytes_4(value).len() == 4,
        le_bytes_4(value)[0] as nat + 256 * le_bytes_4(value)[1] as nat + 65536 * le_bytes_4(
            value,
        )[2] as nat + 16777216 * le_bytes_4(value)[3] as nat == value,
        le_bytes_4(value)[0] as nat % 4 == value % 4,
{
}

/// A byte string that begins with the prefix of `len` gives `len` back.
pub proof fn lemma_leading_length(len: nat, rest: Seq<u8>)
    requires
        len <= MAX_NAME_LEN,
    ensures
        leading_length(length_prefix(len) + rest) == len,
{
    let p = length_prefix(len);
    let s = p + rest;
    if len < 64 {
        assert(s[0] == p[0]);
    } else if len < 16384 {
        lemma_le_bytes_2(4 * len + 1);
        assert(s[0] == p[0] && s[1] == p[1]);
    } else if len < 1073741824 {
        lemma_le_bytes_4(4 * len + 2);
        assert(s[0] == p[0] && s[1] == p[1] && s[2] == p[2] && s[3] == p[3]);
    } else {
        lemma_le_bytes_4(len);
        assert(p[0] == 3u8);
        assert(p[1] == le_bytes_4(len)[0] && p[2] == le_bytes_4(len)[1] && p[3] == le_bytes_4(
            len,
        )[2] && p[4] == le_bytes_4(len)[3]);
        assert(s[0] == p[0] && s[1] == p[1] && s[2] == p[2] && s[3] == p[3] && s[4] == p[4]);
    }
}

/// No length prefix is the start of another: two byte strings that begin
/// with the prefixes of `a` and of `b` are equal only if `a == b` and what
/// follows the prefixes is equal.
pub proof fn lemma_length_prefix_unique(a: nat, b: nat, x: Seq<u8>, y: Seq<u8>)
    requires
        a <= MAX_NAME_LEN,
        b <= MAX_NAME_LEN,
        length_prefix(a) + x == length_prefix(b) + y,
    ensures
        a == b,
        x == y,
{
    lemma_leading_length(a, x);
    lemma_leading_length(b, y);
    let p = length_prefix(a);
    let s = p + x;
    assert(x =~= s.subrange(p.len() as int, s.len() as int));
    assert(y =~= s.subrange(p.len() as int, s.len() as int));
}

/// Two names are digested from the same bytes only if they are the same
/// name.
pub proof fn lemma_name_bytes_injective(a: Seq<u8>, b: Seq<u8>)
    requires
        a.len() <= MAX_NAME_LEN,
        b.len() <= MAX_NAME_LEN,
        name_bytes(a) == name_bytes(b),
    ensures
        a == b,
{
    lemma_length_prefix_unique(a.len(), b.len(), a, b);
}

/// The bytes digested for a pair are never the bytes digested for a single
/// name, whatever the three names are: the pair form and the single form
/// cannot be confused before hashing.
pub proof fn lemma_pair_bytes_differ_from_name_bytes(
    parent: Seq<u8>,
    sub: Seq<u8>,
    name: Seq<u8>,
)
    requires
        parent.len() <= MAX_NAME_LEN,
        sub.len() <= MAX_NAME_LEN,
        name.len() <= MAX_NAME_LEN,
    ensures
        pair_bytes(parent, sub) != name_bytes(name),
{
    if pair_bytes(parent, sub) == name_bytes(name) {
        let tail = parent + name_bytes(sub);
        assert(pair_bytes(parent, sub) =~= length_prefix(parent.len()) + tail);
        lemma_length_prefix_unique(parent.len(), name.len(), tail, name);
        assert(length_prefix(sub.len()).len() >= 1);
        assert(tail.len() > name.len());
    }
}

/// Two pairs are digested from the same bytes only if they are the same
/// pair: moving bytes from the end of the parent to the start of the
/// sub-name, or swapping the two, changes what is digested.
pub proof fn lemma_pair_bytes_injective(
    parent: Seq<u8>,
    sub: Seq<u8>,
    other_parent: Seq<u8>,
    other_sub: Seq<u8>,
)
    requires
        parent.len() <= MAX_NAME_LEN,
        sub.len() <= MAX_NAME_LEN,
        other_parent.len() <= MAX_NAME_LEN,
        other_sub.len() <= MAX_NAME_LEN,
        pair_bytes(parent, sub) == pair_bytes(other_parent, other_sub),
    ensures
        parent == other_parent,
        sub == other_sub,
{
    let tail = parent + name_bytes(sub);
    let other_tail = other_parent + name_bytes(other_sub);
    assert(pair_bytes(parent, sub) =~= length_prefix(parent.len()) + tail);
    assert(pair_bytes(other_parent, other_sub) =~= length_prefix(other_parent.len())
        + other_tail);
    lemma_length_prefix_unique(parent.len(), other_parent.len(), tail, other_tail);
    let n = parent.len() as int;
    assert(parent =~= tail.subrange(0, n));
    assert(other_parent =~= other_tail.subrange(0, n));
    assert(name_bytes(sub) =~= tail.subrange(n, tail.len() as int));
    assert(name_bytes(other_sub) =~= other_tail.subrange(n, other_tail.len() as int));
    lemma_name_bytes_injective(sub, other_sub);
}

} // verus!
