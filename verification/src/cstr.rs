//! Byte strings as C expects them: no NUL inside, one NUL at the end.

use vstd::prelude::*;
use vstd::slice::slice_to_vec;

verus! {

/// Whether a NUL byte occurs anywhere in `s`.
pub open spec fn has_nul(s: Seq<u8>) -> bool {
    exists|i: int| 0 <= i < s.len() && s[i] == 0
}

/// Whether `i` is the place of the first NUL byte of `s`.
pub open spec fn is_first_nul(s: Seq<u8>, i: int) -> bool {
    &&& 0 <= i < s.len()
    &&& s[i] == 0
    &&& !has_nul(s.take(i))
}

/// The number of bytes of `s` that come before its first NUL byte; all of
/// them, where `s` holds none.
pub open spec fn nul_position(s: Seq<u8>) -> int {
    if has_nul(s) {
        choose|i: int| is_first_nul(s, i)
    } else {
        s.len() as int
    }
}

/// The string that a C reader finds at the start of `s`: the bytes before the
/// first NUL byte.
pub open spec fn until_nul(s: Seq<u8>) -> Seq<u8> {
    s.take(nul_position(s))
}

/// Whether `s` is a C string: it ends in a NUL byte and holds no other.
pub open spec fn is_c_string(s: Seq<u8>) -> bool {
    &&& s.len() > 0
    &&& s.last() == 0
    &&& !has_nul(s.drop_last())
}

/// The byte strings that `slices` refers to, in order.
pub open spec fn texts(slices: &[&[u8]]) -> Seq<Seq<u8>> {
    Seq::new(slices@.len(), |i: int| slices@[i]@)
}

/// A first NUL byte is the only first NUL byte.
pub proof fn lemma_first_nul_unique(s: Seq<u8>, i: int, j: int)
    requires
        is_first_nul(s, i),
        is_first_nul(s, j),
    ensures
        i == j,
{
    if i < j {
        assert(s.take(j)[i] == 0);
    } else if j < i {
        assert(s.take(i)[j] == 0);
    }
}

/// `nul_position` is the place of the first NUL byte where there is one.
pub proof fn lemma_nul_position(s: Seq<u8>, i: int)
    requires
        is_first_nul(s, i),
    ensures
        nul_position(s) == i,
        until_nul(s) == s.take(i),
{
    assert(has_nul(s));
    lemma_first_nul_unique(s, i, nul_position(s));
}

/// What `until_nul` gives: the start of `s`, free of NUL bytes, and followed
/// in `s` by a NUL byte where `s` holds one.
pub proof fn lemma_until_nul(s: Seq<u8>)
    ensures
        0 <= nul_position(s) <= s.len(),
        until_nul(s).is_prefix_of(s),
        !has_nul(until_nul(s)),
        has_nul(s) ==> nul_position(s) < s.len() && s[nul_position(s)] == 0,
        !has_nul(s) ==> until_nul(s) == s,
{
    if has_nul(s) {
        let w = choose|i: int| 0 <= i < s.len() && s[i] == 0;
        lemma_first_nul_exists(s, w);
    } else {
        assert(s.take(s.len() as int) =~= s);
    }
}

/// A string with a NUL byte at `w` has a first NUL byte, at `w` or before.
pub proof fn lemma_first_nul_exists(s: Seq<u8>, w: int)
    requires
        0 <= w < s.len(),
        s[w] == 0,
    ensures
        exists|i: int| is_first_nul(s, i) && i <= w,
    decreases w,
{
    if has_nul(s.take(w)) {
        let v = choose|i: int| 0 <= i < s.take(w).len() && s.take(w)[i] == 0;
        lemma_first_nul_exists(s, v);
    } else {
        assert(is_first_nul(s, w));
    }
}

/// A start of `s` without a NUL byte, made longer by a byte that is not NUL,
/// is still without one.
pub proof fn lemma_no_nul_extends(s: Seq<u8>, i: int)
    requires
        0 <= i < s.len(),
        !has_nul(s.take(i)),
        s[i] != 0,
    ensures
        !has_nul(s.take(i + 1)),
{
    let longer = s.take(i + 1);
    assert forall|k: int| 0 <= k < longer.len() implies #[trigger] longer[k] != 0 by {
        if k < i {
            assert(s.take(i)[k] != 0);
        }
    }
}

/// Tells whether `bytes` holds a NUL byte.
pub fn contains_nul(bytes: &[u8]) -> (found: bool)
    ensures
        found == has_nul(bytes@),
{
    let mut i: usize = 0;
    while i < bytes.len()
        invariant
            i <= bytes.len(),
            !has_nul(bytes@.take(i as int)),
        decreases bytes.len() - i,
    {
        if bytes[i] == 0 {
            return true;
        }
        proof {
            lemma_no_nul_extends(bytes@, i as int);
        }
        i += 1;
    }
    proof {
        assert(bytes@.take(i as int) =~= bytes@);
    }
    false
}

/// An owned C string: bytes without a NUL among them, kept with the NUL byte
/// that ends them.
#[derive(Debug, PartialEq, Eq)]
pub struct NulTerminated {
    bytes: Vec<u8>,
}

impl View for NulTerminated {
    type V = Seq<u8>;

    /// The string's bytes, without the NUL byte that ends them.
    closed spec fn view(&self) -> Seq<u8> {
        self.bytes@.drop_last()
    }
}

impl NulTerminated {
    #[verifier::type_invariant]
    spec fn terminated(self) -> bool {
        is_c_string(self.bytes@)
    }

    /// Makes a C string of `bytes`, which hold no NUL byte.
    pub fn new(bytes: &[u8]) -> (s: Self)
        requires
            !has_nul(bytes@),
        ensures
            s@ == bytes@,
    {
        let mut owned = slice_to_vec(bytes);
        owned.push(0);
        proof {
            assert(owned@.drop_last() =~= bytes@);
        }
        NulTerminated { bytes: owned }
    }

    /// Copies the C string that starts `buffer`: the bytes before the first
    /// NUL byte, or all of `buffer` where it holds none.
    pub fn from_buffer(buffer: &[u8]) -> (s: Self)
        ensures
            s@ == until_nul(buffer@),
    {
        let mut owned: Vec<u8> = Vec::new();
        let mut i: usize = 0;
        while i < buffer.len() && buffer[i] != 0
            invariant
                i <= buffer.len(),
                owned@ == buffer@.take(i as int),
                !has_nul(owned@),
            decreases buffer.len() - i,
        {
            owned.push(buffer[i]);
            proof {
                assert(owned@ =~= buffer@.take(i + 1));
                lemma_no_nul_extends(buffer@, i as int);
            }
            i += 1;
        }
        proof {
            if i < buffer.len() {
                lemma_nul_position(buffer@, i as int);
            } else {
                assert(buffer@.take(i as int) =~= buffer@);
            }
        }
        owned.push(0);
        proof {
            assert(owned@.drop_last() =~= until_nul(buffer@));
        }
        NulTerminated { bytes: owned }
    }

    /// The string's bytes, without the NUL byte that ends them.
    pub fn as_bytes(&self) -> (bytes: &[u8])
        ensures
            bytes@ == self@,
            !has_nul(bytes@),
    {
        proof {
            use_type_invariant(self);
        }
        let n = self.bytes.len() - 1;
        vstd::slice::slice_subrange(self.bytes.as_slice(), 0, n)
    }

    /// The string's bytes and the NUL byte that ends them: what a C function
    /// reads through a pointer to the first of them.
    pub fn as_bytes_with_nul(&self) -> (bytes: &[u8])
        ensures
            bytes@ == self@.push(0),
            is_c_string(bytes@),
    {
        proof {
            use_type_invariant(self);
            assert(self.bytes@ =~= self.bytes@.drop_last().push(0));
        }
        self.bytes.as_slice()
    }
}

} // verus!
