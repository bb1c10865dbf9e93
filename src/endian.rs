use vstd::prelude::*;

verus! {

/// First byte of the magic of an image in native (big-endian) order: `80 37 12 40`.
pub const NATIVE_FIRST: u8 = 0x80;

/// First byte of the magic of an image whose byte pairs are swapped: `37 80 40 12`.
pub const BYTE_SWAPPED_FIRST: u8 = 0x37;

/// First byte of the magic of an image stored end to end reversed: `40 12 37 80`.
pub const LITTLE_FIRST: u8 = 0x40;

/// The byte orderings in which cartridge dumps are found.
#[derive(Debug, Clone, Copy, PartialEq, Eq, Structural)]
pub enum Endian {
    Little,
    Native,
    ByteSwapped,
}

/// The ordering that a leading byte announces, if any.
pub open spec fn endian_of(b: u8) -> Option<Endian> {
    if b == NATIVE_FIRST {
        Some(Endian::Native)
    } else if b == BYTE_SWAPPED_FIRST {
        Some(Endian::ByteSwapped)
    } else if b == LITTLE_FIRST {
        Some(Endian::Little)
    } else {
        None
    }
}

/// `s` with the bytes of each pair `(0, 1), (2, 3), ...` exchanged; a last
/// byte without a partner stays where it is.
pub open spec fn swap_pairs(s: Seq<u8>) -> Seq<u8> {
    Seq::new(
        s.len(),
        |i: int|
            if i % 2 == 1 {
                s[i - 1]
            } else if i + 1 < s.len() {
                s[i + 1]
            } else {
                s[i]
            },
    )
}

/// The canonical form of an image `s` dumped in ordering `e`.
pub open spec fn normalized(s: Seq<u8>, e: Endian) -> Seq<u8> {
    match e {
        Endian::Native => s,
        Endian::ByteSwapped => swap_pairs(s),
        Endian::Little => s.reverse(),
    }
}

impl Endian {
    /// Classifies an image by its first byte.
    pub fn from_u8(val: u8) -> (r: Option<Endian>)
        ensures
            r == endian_of(val),
    {
        if val == NATIVE_FIRST {
            Some(Endian::Native)
        } else if val == BYTE_SWAPPED_FIRST {
            Some(Endian::ByteSwapped)
        } else if val == LITTLE_FIRST {
            Some(Endian::Little)
        } else {
            None
        }
    }
}

/// Exchanges the bytes of each adjacent pair, in place.
fn swap_byte_pairs(data: &mut Vec<u8>)
    ensures
        final(data)@ == swap_pairs(old(data)@),
{
    let ghost orig = data@;
    let n = data.len();
    let mut i: usize = 0;
    while n - i >= 2
        invariant
            data@.len() == n,
            orig.len() == n,
            i <= n,
            i % 2 == 0,
            forall|k: int| 0 <= k < i ==> data@[k] == swap_pairs(orig)[k],
            forall|k: int| i <= k < n ==> data@[k] == orig[k],
        decreases n - i,
    {
        let a = data[i];
        let b = data[i + 1];
        data.set(i, b);
        data.set(i + 1, a);
        i = i + 2;
    }
    assert(data@ =~= swap_pairs(orig));
}

/// Reverses the whole buffer, in place.
fn reverse_bytes(data: &mut Vec<u8>)
    ensures
        final(data)@ == old(data)@.reverse(),
{
    let ghost orig = data@;
    let n = data.len();
    let mut i: usize = 0;
    while i < n / 2
        invariant
            data@.len() == n,
            orig.len() == n,
            i <= n / 2,
            forall|k: int| 0 <= k < i ==> data@[k] == orig[n - 1 - k],
            forall|k: int| 0 <= k < i ==> data@[n - 1 - k] == orig[k],
            forall|k: int| i <= k < n - i ==> data@[k] == orig[k],
        decreases n / 2 - i,
    {
        let j = n - 1 - i;
        let a = data[i];
        let b = data[j];
        data.set(i, b);
        data.set(j, a);
        i = i + 1;
    }
    assert(data@ =~= orig.reverse());
}

/// Rewrites an image dumped in ordering `e` into canonical order, in place.
pub fn normalize(data: &mut Vec<u8>, e: Endian)
    ensures
        final(data)@ == normalized(old(data)@, e),
{
    match e {
        Endian::Native => {},
        Endian::ByteSwapped => swap_byte_pairs(data),
        Endian::Little => reverse_bytes(data),
    }
}

/// Normalizing an image that is already in native order leaves it as it is.
pub proof fn lemma_native_unchanged(s: Seq<u8>)
    ensures
        normalized(s, Endian::Native) == s,
{
}

/// Swapping byte pairs is its own inverse: doing it twice gives back the image.
pub proof fn lemma_byte_swap_self_inverse(s: Seq<u8>)
    ensures
        normalized(normalized(s, Endian::ByteSwapped), Endian::ByteSwapped) == s,
{
    let t = swap_pairs(s);
    assert forall|i: int| 0 <= i < s.len() implies #[trigger] swap_pairs(t)[i] == s[i] by {
        if i % 2 == 1 {
            assert(t[i - 1] == s[i]);
        } else if i + 1 < s.len() {
            assert(t[i + 1] == s[i]);
        }
    }
    assert(swap_pairs(t) =~= s);
}

/// Reversing is its own inverse: doing it twice gives back the image.
pub proof fn lemma_reverse_self_inverse(s: Seq<u8>)
    ensures
        normalized(normalized(s, Endian::Little), Endian::Little) == s,
{
    assert(s.reverse().reverse() =~= s);
}

} // verus!
