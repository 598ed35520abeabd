//! A compact string value type for small, frequently-copied strings: strings
//! of at most 15 bytes (with no interior zero byte) are stored inline in a
//! fixed 16-byte value, and anything else falls back to a shared,
//! reference-counted heap buffer.
//!
//! The representation is decided once, at construction, and never changes;
//! every read goes through the same content-based contract whichever
//! representation is active.

pub mod inner;

use core::cmp::Ordering;
use vstd::prelude::*;
use vstd::std_specs::cmp::PartialEqSpec;
use vstd::string::StringSliceAdditionalSpecFns;
use vstd::utf8::{decode_utf8, decode_utf8_encode_utf8, encode_utf8, encode_utf8_decode_utf8,
    encode_utf8_valid_utf8, valid_utf8};
use inner::{fits_inline, Inline, Owned};

verus! {

/// The facade's two states: one of the representations is active, chosen at
/// construction and fixed for the value's lifetime.
pub enum NanoStringInner {
    Inline(Inline),
    Owned(Owned),
}

/// A read-only string value with a fixed 16-byte footprint. Content of at
/// most 15 bytes with no zero byte lives inline; everything else is held in
/// a shared heap buffer.
///
/// The view of a `NanoString` is its logical content, a `Seq<char>`;
/// `spec_bytes` gives the same content as its UTF-8 bytes. Equality is
/// defined over that content, never over the representation.
pub struct NanoString {
    inner: NanoStringInner,
}

impl View for NanoString {
    type V = Seq<char>;

    /// The logical string content, independent of the active representation.
    closed spec fn view(&self) -> Seq<char> {
        match self.inner {
            NanoStringInner::Inline(i) => decode_utf8(i@),
            NanoStringInner::Owned(o) => o@,
        }
    }
}

impl NanoString {
    /// The UTF-8 bytes of the logical content.
    pub closed spec fn spec_bytes(&self) -> Seq<u8> {
        match self.inner {
            NanoStringInner::Inline(i) => i@,
            NanoStringInner::Owned(o) => encode_utf8(o@),
        }
    }

    /// True when the inline representation is active.
    pub closed spec fn spec_is_inline(&self) -> bool {
        self.inner is Inline
    }

    /// True when the heap-backed representation is active.
    pub open spec fn is_owned(&self) -> bool {
        !self.spec_is_inline()
    }

    /// An inline content buffer always holds valid UTF-8; established at
    /// construction, relied on by every read.
    #[verifier::type_invariant]
    pub closed spec fn wf(self) -> bool {
        match self.inner {
            NanoStringInner::Inline(i) => i.wf(),
            NanoStringInner::Owned(_) => true,
        }
    }

    /// Reports which representation is active.
    #[verifier::when_used_as_spec(spec_is_inline)]
    pub fn is_inline(&self) -> (r: bool)
        ensures
            r == self.spec_is_inline(),
    {
        match &self.inner {
            NanoStringInner::Inline(_) => true,
            NanoStringInner::Owned(_) => false,
        }
    }

    /// The content as a byte slice.
    pub fn as_bytes(&self) -> (r: &[u8])
        ensures
            r@ == self.spec_bytes(),
    {
        match &self.inner {
            NanoStringInner::Inline(i) => i.as_bytes(),
            NanoStringInner::Owned(o) => o.as_str().as_bytes(),
        }
    }

    /// The content as a string slice. This never fails: the construction
    /// invariant guarantees the inline bytes are valid UTF-8.
    pub fn as_str(&self) -> (r: &str)
        ensures
            r@ == self@,
            r.spec_bytes() == self.spec_bytes(),
    {
        proof {
            use_type_invariant(self);
        }
        match &self.inner {
            NanoStringInner::Inline(i) => i.as_str(),
            NanoStringInner::Owned(o) => o.as_str(),
        }
    }

    /// The content length in bytes.
    pub fn len(&self) -> (r: usize)
        ensures
            r == self.spec_bytes().len(),
    {
        self.as_bytes().len()
    }

    /// A fresh empty value, stored inline.
    pub fn new(&self) -> (r: NanoString)
        ensures
            r@ == Seq::<char>::empty(),
            r.is_inline(),
    {
        NanoString { inner: NanoStringInner::Inline(Inline::new()) }
    }
}

impl From<&str> for NanoString {
    /// Classifies the input exactly once: content of at most 15 bytes with
    /// no zero byte is stored inline, anything else goes to the shared heap
    /// buffer. Construction never fails and the content is kept exactly.
    fn from(s: &str) -> (r: Self)
        ensures
            r@ == s@,
            r.spec_bytes() == s.spec_bytes(),
            r.is_inline() <==> fits_inline(s.spec_bytes()),
    {
        match Inline::try_from_str(s) {
            Some(i) => {
                proof {
                    broadcast use encode_utf8_decode_utf8;
                }
                NanoString { inner: NanoStringInner::Inline(i) }
            },
            None => NanoString { inner: NanoStringInner::Owned(Owned::from_str(s)) },
        }
    }
}

impl vstd::std_specs::convert::FromSpecImpl<&str> for NanoString {
    open spec fn obeys_from_spec() -> bool {
        false
    }

    open spec fn from_spec(t: &str) -> Self {
        arbitrary()
    }
}

impl Default for NanoString {
    /// The default value is the empty string, stored inline.
    fn default() -> (r: Self)
        ensures
            r@ == Seq::<char>::empty(),
            r.is_inline(),
    {
        proof {
            reveal_strlit("");
        }
        NanoString::from("")
    }
}

impl Clone for NanoString {
    /// Cloning keeps the value exactly: an inline value is copied by value,
    /// an owned value shares its buffer rather than duplicating it.
    fn clone(&self) -> (r: Self)
        ensures
            r == *self,
    {
        proof {
            use_type_invariant(self);
        }
        match &self.inner {
            NanoStringInner::Inline(i) => NanoString { inner: NanoStringInner::Inline(*i) },
            NanoStringInner::Owned(o) => NanoString { inner: NanoStringInner::Owned(o.clone()) },
        }
    }
}

/// True exactly when the two slices hold the same bytes.
fn bytes_eq(a: &[u8], b: &[u8]) -> (r: bool)
    ensures
        r == (a@ == b@),
{
    if a.len() != b.len() {
        return false;
    }
    let mut i: usize = 0;
    while i < a.len()
        invariant
            a@.len() == b@.len(),
            0 <= i <= a@.len(),
            forall|k: int| 0 <= k < i ==> a@[k] == b@[k],
        decreases a@.len() - i,
    {
        if a[i] != b[i] {
            return false;
        }
        i += 1;
    }
    proof {
        assert(a@ =~= b@);
    }
    true
}

impl PartialEq for NanoString {
    /// Equality over the content bytes, never over the representation: an
    /// inline value and an owned value with the same content compare equal.
    fn eq(&self, other: &Self) -> (r: bool)
        ensures
            r == (self.spec_bytes() == other.spec_bytes()),
    {
        bytes_eq(self.as_bytes(), other.as_bytes())
    }
}

impl Eq for NanoString {}

/// Three-way lexicographic comparison of byte strings: the order `<` puts on
/// `NanoString` values.
pub open spec fn lex_cmp_bytes(a: Seq<u8>, b: Seq<u8>) -> Ordering
    decreases a.len(),
{
    if a.len() == 0 && b.len() == 0 {
        Ordering::Equal
    } else if a.len() == 0 {
        Ordering::Less
    } else if b.len() == 0 {
        Ordering::Greater
    } else if a[0] < b[0] {
        Ordering::Less
    } else if a[0] > b[0] {
        Ordering::Greater
    } else {
        lex_cmp_bytes(a.drop_first(), b.drop_first())
    }
}

/// Lexicographic comparison of two byte slices.
fn lex_cmp(a: &[u8], b: &[u8]) -> (r: Ordering)
    ensures
        r == lex_cmp_bytes(a@, b@),
{
    let mut i: usize = 0;
    proof {
        assert(a@.skip(0) =~= a@);
        assert(b@.skip(0) =~= b@);
    }
    while i < a.len() && i < b.len()
        invariant
            0 <= i <= a@.len(),
            i <= b@.len(),
            lex_cmp_bytes(a@, b@) == lex_cmp_bytes(a@.skip(i as int), b@.skip(i as int)),
        decreases a@.len() - i,
    {
        if a[i] < b[i] {
            return Ordering::Less;
        }
        if a[i] > b[i] {
            return Ordering::Greater;
        }
        proof {
            assert(a@.skip(i as int).drop_first() =~= a@.skip(i as int + 1));
            assert(b@.skip(i as int).drop_first() =~= b@.skip(i as int + 1));
        }
        i += 1;
    }
    if a.len() < b.len() {
        Ordering::Less
    } else if a.len() > b.len() {
        Ordering::Greater
    } else {
        Ordering::Equal
    }
}

impl PartialOrd for NanoString {
    /// Ordering over the content bytes, lexicographically, never over the
    /// representation: the order agrees with the order of the contents as
    /// byte strings whatever the states of the two values.
    fn partial_cmp(&self, other: &Self) -> (r: Option<Ordering>)
        ensures
            r == Some(lex_cmp_bytes(self.spec_bytes(), other.spec_bytes())),
    {
        Some(lex_cmp(self.as_bytes(), other.as_bytes()))
    }
}

impl vstd::std_specs::cmp::PartialOrdSpecImpl for NanoString {
    open spec fn obeys_partial_cmp_spec() -> bool {
        true
    }

    open spec fn partial_cmp_spec(&self, other: &Self) -> Option<Ordering> {
        Some(lex_cmp_bytes(self.spec_bytes(), other.spec_bytes()))
    }
}

impl vstd::std_specs::cmp::PartialEqSpecImpl for NanoString {
    open spec fn obeys_eq_spec() -> bool {
        true
    }

    open spec fn eq_spec(&self, other: &Self) -> bool {
        self.spec_bytes() == other.spec_bytes()
    }
}

/// On a well-formed value the content bytes are exactly the UTF-8 encoding
/// of the content, and they are valid UTF-8.
pub proof fn lemma_spec_bytes_is_encoding(v: NanoString)
    requires
        v.wf(),
    ensures
        v.spec_bytes() == encode_utf8(v@),
        valid_utf8(v.spec_bytes()),
{
    broadcast use decode_utf8_encode_utf8;
    broadcast use encode_utf8_valid_utf8;
}

/// Round trip: a string of at most 15 bytes with no zero byte is stored in
/// the Inline state and reads back exactly as it was written.
///
/// The hypotheses are what `From::from` and `as_str` ensure of `v` and
/// `read`.
pub proof fn lemma_round_trip_inline(s: &str, v: NanoString, read: &str)
    requires
        fits_inline(s.spec_bytes()),
        v@ == s@,
        v.is_inline() <==> fits_inline(s.spec_bytes()),
        read@ == v@,
    ensures
        v.is_inline(),
        read@ == s@,
{
}

/// Fallback: a string longer than 15 bytes, or one containing a zero byte,
/// is stored in the Owned state and still reads back exactly as written.
///
/// The hypotheses are what `From::from` and `as_str` ensure of `v` and
/// `read`.
pub proof fn lemma_fallback_owned(s: &str, v: NanoString, read: &str)
    requires
        !fits_inline(s.spec_bytes()),
        v@ == s@,
        v.is_inline() <==> fits_inline(s.spec_bytes()),
        read@ == v@,
    ensures
        v.is_owned(),
        read@ == s@,
{
}

/// Content equality across representations: two well-formed values with the
/// same content have the same content bytes, so `==` holds of them whatever
/// their states.
pub proof fn lemma_content_equality(a: NanoString, b: NanoString)
    requires
        a.wf(),
        b.wf(),
        a@ == b@,
    ensures
        a.eq_spec(&b),
        a.spec_bytes() == b.spec_bytes(),
{
    lemma_spec_bytes_is_encoding(a);
    lemma_spec_bytes_is_encoding(b);
}

/// Idempotent reads: the results of `as_bytes`, `as_str` and `len` are
/// functions of the value alone, so repeated calls on the same value yield
/// identical results. The hypotheses are what two calls of each read ensure.
pub proof fn lemma_reads_idempotent(
    v: NanoString,
    bytes1: Seq<u8>,
    bytes2: Seq<u8>,
    chars1: Seq<char>,
    chars2: Seq<char>,
)
    requires
        bytes1 == v.spec_bytes(),
        bytes2 == v.spec_bytes(),
        chars1 == v@,
        chars2 == v@,
    ensures
        bytes1 == bytes2,
        chars1 == chars2,
        bytes1.len() == bytes2.len(),
{
}

/// Clone correctness: a clone (which `Clone::clone` ensures equals the
/// original) has the same content, the same content bytes and the same
/// state as the original.
pub proof fn lemma_clone_preserves(a: NanoString, c: NanoString)
    requires
        c == a,
    ensures
        c@ == a@,
        c.spec_bytes() == a.spec_bytes(),
        c.is_inline() == a.is_inline(),
{
}

} // verus!
