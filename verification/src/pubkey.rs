use vstd::prelude::*;

verus! {

/// A ledger address: 32 opaque bytes.
pub type Pubkey = [u8; 32];

/// Number of bytes in an address.
pub const PUBKEY_BYTES: usize = 32;

/// The address that stands for "no authority": all bytes zero.
pub open spec fn is_zero_key(key: Pubkey) -> bool {
    forall|i: int| 0 <= i < 32 ==> key[i] == 0u8
}

/// The address spelled by the 32 bytes of `s` that start at `at`.
pub open spec fn pubkey_at(s: Seq<u8>, at: int) -> Pubkey
    recommends
        0 <= at,
        at + 32 <= s.len(),
{
    [
        s[at],
        s[at + 1],
        s[at + 2],
        s[at + 3],
        s[at + 4],
        s[at + 5],
        s[at + 6],
        s[at + 7],
        s[at + 8],
        s[at + 9],
        s[at + 10],
        s[at + 11],
        s[at + 12],
        s[at + 13],
        s[at + 14],
        s[at + 15],
        s[at + 16],
        s[at + 17],
        s[at + 18],
        s[at + 19],
        s[at + 20],
        s[at + 21],
        s[at + 22],
        s[at + 23],
        s[at + 24],
        s[at + 25],
        s[at + 26],
        s[at + 27],
        s[at + 28],
        s[at + 29],
        s[at + 30],
        s[at + 31],
    ]
}

/// An address is spelled by its own bytes, wherever they stand.
pub proof fn lemma_pubkey_at(s: Seq<u8>, at: int, key: Pubkey)
    requires
        0 <= at,
        at + 32 <= s.len(),
        s.subrange(at, at + 32) == key@,
    ensures
        pubkey_at(s, at) == key,
{
    assert forall|i: int| 0 <= i < 32 implies pubkey_at(s, at)[i] == key[i] by {
        assert(s.subrange(at, at + 32)[i] == s[at + i]);
    }
    assert(pubkey_at(s, at) =~= key);
}

/// Compares two addresses byte by byte.
pub fn pubkey_eq(a: &Pubkey, b: &Pubkey) -> (equal: bool)
    ensures
        equal == (*a == *b),
{
    let mut i: usize = 0;
    while i < 32
        invariant
            i <= 32,
            forall|j: int| 0 <= j < i ==> a[j] == b[j],
        decreases 32 - i,
    {
        if a[i] != b[i] {
            return false;
        }
        i += 1;
    }
    assert(*a =~= *b);
    true
}

/// Tells whether every byte of the address is zero.
pub fn pubkey_is_zero(key: &Pubkey) -> (zero: bool)
    ensures
        zero == is_zero_key(*key),
{
    let mut i: usize = 0;
    while i < 32
        invariant
            i <= 32,
            forall|j: int| 0 <= j < i ==> key[j] == 0u8,
        decreases 32 - i,
    {
        if key[i] != 0 {
            return false;
        }
        i += 1;
    }
    true
}

/// Copies 32 bytes of `bytes`, starting at `offset`, into an address.
pub fn pubkey_from_slice(bytes: &[u8], offset: usize) -> (key: Pubkey)
    requires
        offset + 32 <= bytes@.len(),
    ensures
        key == pubkey_at(bytes@, offset as int),
{
    let mut key: Pubkey = [0u8; 32];
    let len: usize = bytes.len();
    let mut i: usize = 0;
    while i < 32
        invariant
            i <= 32,
            len == bytes@.len(),
            offset + 32 <= len,
            forall|j: int| 0 <= j < i ==> key[j] == bytes@[offset + j],
        decreases 32 - i,
    {
        key[i] = bytes[offset + i];
        i += 1;
    }
    assert(key@ =~= bytes@.subrange(offset as int, offset + 32));
    proof {
        lemma_pubkey_at(bytes@, offset as int, key);
    }
    key
}

} // verus!
