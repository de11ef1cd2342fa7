//! The pool's title: a fixed-width, space-padded byte buffer, and the
//! trimming that turns it back into the bytes it was made from.

use vstd::prelude::*;
use vstd::slice::slice_subrange;

verus! {

/// Width of the stored title.
pub const TITLE_LEN: usize = 10;

/// The byte a short title is padded with.
pub const PAD: u8 = 0x20;

/// ASCII whitespace: space, tab, line feed, form feed and carriage return.
pub open spec fn is_ascii_whitespace(b: u8) -> bool {
    b == 0x20 || b == 0x09 || b == 0x0A || b == 0x0C || b == 0x0D
}

/// Number of whitespace bytes at the front of `s`.
pub open spec fn leading_whitespace(s: Seq<u8>) -> nat
    decreases s.len(),
{
    if s.len() > 0 && is_ascii_whitespace(s.first()) {
        1 + leading_whitespace(s.drop_first())
    } else {
        0
    }
}

/// Number of whitespace bytes at the back of `s`.
pub open spec fn trailing_whitespace(s: Seq<u8>) -> nat
    decreases s.len(),
{
    if s.len() > 0 && is_ascii_whitespace(s.last()) {
        1 + trailing_whitespace(s.drop_last())
    } else {
        0
    }
}

/// `s` without the whitespace at its front and at its back. Whitespace
/// between two other bytes stays.
pub open spec fn trimmed(s: Seq<u8>) -> Seq<u8> {
    if leading_whitespace(s) == s.len() {
        Seq::empty()
    } else {
        s.subrange(leading_whitespace(s) as int, s.len() - trailing_whitespace(s))
    }
}

/// The stored form of a title: its bytes, then spaces up to the full width.
pub open spec fn padded(t: Seq<u8>) -> Seq<u8>
    recommends
        t.len() <= TITLE_LEN,
{
    Seq::new(
        TITLE_LEN as nat,
        |i: int|
            if i < t.len() {
                t[i]
            } else {
                PAD
            },
    )
}

/// `leading_whitespace(s)` is the one index `n` up to which every byte is
/// whitespace and at which, if it lies inside `s`, a byte of another kind
/// stands.
pub proof fn lemma_leading(s: Seq<u8>, n: int)
    requires
        0 <= n <= s.len(),
        forall|i: int| 0 <= i < n ==> is_ascii_whitespace(#[trigger] s[i]),
        n < s.len() ==> !is_ascii_whitespace(s[n]),
    ensures
        leading_whitespace(s) == n,
    decreases s.len(),
{
    if n > 0 {
        let t = s.drop_first();
        assert(is_ascii_whitespace(s[0]));
        assert forall|i: int| 0 <= i < n - 1 implies is_ascii_whitespace(#[trigger] t[i]) by {
            assert(t[i] == s[i + 1]);
        }
        lemma_leading(t, n - 1);
    }
}

/// `trailing_whitespace(s)` is the one count `n` such that the last `n` bytes
/// are whitespace and the byte before them, if there is one, is not.
pub proof fn lemma_trailing(s: Seq<u8>, n: int)
    requires
        0 <= n <= s.len(),
        forall|i: int| s.len() - n <= i < s.len() ==> is_ascii_whitespace(#[trigger] s[i]),
        n < s.len() ==> !is_ascii_whitespace(s[s.len() - n - 1]),
    ensures
        trailing_whitespace(s) == n,
    decreases s.len(),
{
    if n > 0 {
        let t = s.drop_last();
        assert(is_ascii_whitespace(s[s.len() - 1]));
        assert forall|i: int| t.len() - (n - 1) <= i < t.len() implies is_ascii_whitespace(
            #[trigger] t[i],
        ) by {
            assert(t[i] == s[i]);
        }
        lemma_trailing(t, n - 1);
    }
}

/// Whether `b` is ASCII whitespace.
pub fn is_whitespace(b: u8) -> (r: bool)
    ensures
        r == is_ascii_whitespace(b),
{
    b == 0x20 || b == 0x09 || b == 0x0A || b == 0x0C || b == 0x0D
}

/// The part of `s` between its first and its last byte that is not
/// whitespace, both included; empty where `s` holds whitespace only.
pub fn trim_bytes(s: &[u8]) -> (r: &[u8])
    ensures
        r@ == trimmed(s@),
{
    let n: usize = s.len();
    let mut from: usize = 0;
    while from < n && is_whitespace(s[from])
        invariant
            from <= n,
            n == s@.len(),
            forall|i: int| 0 <= i < from ==> is_ascii_whitespace(#[trigger] s@[i]),
        decreases n - from,
    {
        from += 1;
    }
    proof {
        lemma_leading(s@, from as int);
    }
    if from == n {
        let r = slice_subrange(s, 0, 0);
        assert(r@ =~= Seq::<u8>::empty());
        return r;
    }
    let mut to: usize = n;
    while to > from + 1 && is_whitespace(s[to - 1])
        invariant
            from < to <= n,
            n == s@.len(),
            forall|i: int| to <= i < n ==> is_ascii_whitespace(#[trigger] s@[i]),
        decreases to,
    {
        to -= 1;
    }
    proof {
        assert(!is_ascii_whitespace(s@[to - 1]));
        lemma_trailing(s@, n - to);
    }
    slice_subrange(s, from, to)
}

/// Byte strings that can be trimmed of ASCII whitespace.
pub trait TrimAsciiWhitespace {
    /// The bytes that `self` stands for.
    spec fn bytes(&self) -> Seq<u8>;

    /// The bytes of `self` without the whitespace at both ends.
    fn trim_ascii_whitespace(&self) -> (r: &[u8])
        ensures
            r@ == trimmed(self.bytes()),
    ;
}

impl TrimAsciiWhitespace for [u8] {
    open spec fn bytes(&self) -> Seq<u8> {
        self@
    }

    fn trim_ascii_whitespace(&self) -> (r: &[u8]) {
        trim_bytes(self)
    }
}

impl TrimAsciiWhitespace for Vec<u8> {
    open spec fn bytes(&self) -> Seq<u8> {
        self@
    }

    fn trim_ascii_whitespace(&self) -> (r: &[u8]) {
        trim_bytes(self.as_slice())
    }
}

impl TrimAsciiWhitespace for [u8; 10] {
    open spec fn bytes(&self) -> Seq<u8> {
        self@
    }

    fn trim_ascii_whitespace(&self) -> (r: &[u8]) {
        trim_bytes(self.as_slice())
    }
}

} // verus!
