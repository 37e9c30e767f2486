//! Byte strings handed across the C boundary.
//!
//! A `CText` owns the bytes of a C string together with its terminating NUL,
//! so that a pointer to its buffer can be handed to C as `const char *`.
//! Its view is the content without the terminator, and the content never
//! holds a NUL byte.
use vstd::prelude::*;
use vstd::utf8::encode_utf8;

verus! {

/// No byte of `s` is NUL.
pub open spec fn has_no_nul(s: Seq<u8>) -> bool {
    forall|i: int| 0 <= i < s.len() ==> s[i] != 0u8
}

/// The content of a C string built from `s`, or `fallback` when `s` holds a NUL
/// (a C string cannot hold one).
pub open spec fn or_fallback(s: Seq<u8>, fallback: Seq<u8>) -> Seq<u8> {
    if has_no_nul(s) {
        s
    } else {
        fallback
    }
}

/// The content of a C string built from `s`, empty when `s` holds a NUL.
pub open spec fn or_empty(s: Seq<u8>) -> Seq<u8> {
    or_fallback(s, Seq::empty())
}

/// The UTF-8 bytes of a text.
pub open spec fn utf8_bytes(s: Seq<char>) -> Seq<u8> {
    encode_utf8(s)
}

/// The UTF-8 bytes of a text of ASCII characters other than NUL are those
/// characters, none of them NUL.
pub proof fn lemma_plain_ascii(s: Seq<char>)
    requires
        forall|i: int| 0 <= i < s.len() ==> '\u{1}' <= #[trigger] s[i] <= '\u{7f}',
    ensures
        has_no_nul(utf8_bytes(s)),
        or_empty(utf8_bytes(s)) == utf8_bytes(s),
        utf8_bytes(s).len() == s.len(),
{
    assert(vstd::utf8::is_ascii_chars(s));
    vstd::utf8::is_ascii_chars_encode_utf8(s);
    assert forall|i: int| 0 <= i < utf8_bytes(s).len() implies utf8_bytes(s)[i] != 0u8 by {
        assert(s[i] as u8 == utf8_bytes(s)[i]);
        assert('\u{1}' <= s[i]);
    }
}

/// An owned C string: content bytes followed by one NUL terminator.
pub struct CText {
    bytes: Vec<u8>,
}

impl CText {
    #[verifier::type_invariant]
    spec fn well_formed(&self) -> bool {
        &&& self.bytes@.len() >= 1
        &&& self.bytes@.last() == 0u8
        &&& has_no_nul(self.bytes@.drop_last())
    }
}

impl View for CText {
    type V = Seq<u8>;

    /// The content, without the terminator.
    closed spec fn view(&self) -> Seq<u8> {
        self.bytes@.drop_last()
    }
}

/// Appends the bytes of `b` to `out`.
pub fn append_bytes(out: &mut Vec<u8>, b: &[u8])
    ensures
        final(out)@ == old(out)@ + b@,
{
    let mut i: usize = 0;
    while i < b.len()
        invariant
            i <= b@.len(),
            out@ == old(out)@ + b@.take(i as int),
        decreases b@.len() - i,
    {
        out.push(b[i]);
        i = i + 1;
        assert(b@.take(i as int) == b@.take(i - 1 as int).push(b@[i - 1 as int]));
    }
    assert(b@.take(b@.len() as int) == b@);
}

impl CText {
    /// The empty C string.
    pub fn empty() -> (r: CText)
        ensures
            r@ == Seq::<u8>::empty(),
    {
        let mut bytes: Vec<u8> = Vec::new();
        bytes.push(0u8);
        let r = CText { bytes };
        assert(r@ =~= Seq::<u8>::empty());
        r
    }

    /// Whether `b` holds no NUL byte, that is whether it can be the content of a C string.
    pub fn fits(b: &[u8]) -> (r: bool)
        ensures
            r == has_no_nul(b@),
    {
        let mut i: usize = 0;
        while i < b.len()
            invariant
                i <= b@.len(),
                forall|j: int| 0 <= j < i ==> b@[j] != 0u8,
            decreases b@.len() - i,
        {
            if b[i] == 0u8 {
                return false;
            }
            i = i + 1;
        }
        true
    }

    /// Builds a C string from `b`, which must hold no NUL byte.
    fn from_clean(b: &[u8]) -> (r: CText)
        requires
            has_no_nul(b@),
        ensures
            r@ == b@,
    {
        let mut bytes: Vec<u8> = Vec::new();
        append_bytes(&mut bytes, b);
        bytes.push(0u8);
        assert(bytes@.drop_last() =~= b@);
        CText { bytes }
    }

    /// A C string with the content `b`; empty when `b` holds a NUL byte.
    pub fn from_bytes_or_empty(b: &[u8]) -> (r: CText)
        ensures
            r@ == or_empty(b@),
    {
        if CText::fits(b) {
            CText::from_clean(b)
        } else {
            CText::empty()
        }
    }

    /// A C string with the content `b`; a copy of `fallback` when `b` holds a NUL byte.
    pub fn from_bytes_or(b: &[u8], fallback: &CText) -> (r: CText)
        ensures
            r@ == or_fallback(b@, fallback@),
    {
        if CText::fits(b) {
            CText::from_clean(b)
        } else {
            fallback.duplicate()
        }
    }

    /// A C string with the UTF-8 bytes of `s`; empty when `s` holds a NUL character.
    pub fn from_str_or_empty(s: &str) -> (r: CText)
        ensures
            r@ == or_empty(utf8_bytes(s@)),
    {
        CText::from_bytes_or_empty(s.as_bytes())
    }

    /// A copy of this C string.
    pub fn duplicate(&self) -> (r: CText)
        ensures
            r@ == self@,
    {
        proof {
            use_type_invariant(self);
        }
        CText::from_clean(self.content())
    }

    /// The content bytes, without the terminator.
    pub fn content(&self) -> (r: &[u8])
        ensures
            r@ == self@,
            has_no_nul(r@),
    {
        proof {
            use_type_invariant(self);
        }
        vstd::slice::slice_subrange(self.bytes.as_slice(), 0, self.bytes.len() - 1)
    }

    /// The content bytes followed by the NUL terminator.
    pub fn with_nul(&self) -> (r: &[u8])
        ensures
            r@ == self@.push(0u8),
    {
        proof {
            use_type_invariant(self);
            assert(self.bytes@ =~= self.bytes@.drop_last().push(0u8));
        }
        self.bytes.as_slice()
    }

    /// The number of content bytes.
    pub fn len(&self) -> (r: usize)
        ensures
            r == self@.len(),
    {
        proof {
            use_type_invariant(self);
        }
        self.bytes.len() - 1
    }
}

/// Law: bytes without a NUL make a C string as they stand; bytes with one are
/// replaced by the fallback (by nothing for `or_empty`). Either way the content
/// holds no NUL when the fallback holds none.
pub proof fn law_c_string_content(s: Seq<u8>, fallback: Seq<u8>)
    ensures
        has_no_nul(s) ==> or_fallback(s, fallback) == s && or_empty(s) == s,
        (exists|i: int| 0 <= i < s.len() && s[i] == 0u8) ==> or_fallback(s, fallback) == fallback
            && or_empty(s) == Seq::<u8>::empty(),
        has_no_nul(fallback) ==> has_no_nul(or_fallback(s, fallback)),
        has_no_nul(or_empty(s)),
{
}

} // verus!
