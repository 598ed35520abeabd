use vstd::prelude::*;
use vstd::slice::slice_subrange;
use vstd::string::StringSliceAdditionalSpecFns;
use vstd::utf8::{decode_utf8, encode_utf8_decode_utf8, encode_utf8_valid_utf8, valid_utf8};
use std::sync::Arc;

verus! {

broadcast use vstd::array::group_array_axioms;

/// Number of content bytes an [`Inline`] buffer can hold.
pub const INLINE_CAP: usize = 15;

/// Index of the first zero byte in `bytes`, or `bytes.len()` if there is none.
/// The inline buffer has no stored length field: its logical content ends at
/// the first zero byte.
pub open spec fn first_zero(bytes: Seq<u8>) -> int
    decreases bytes.len(),
{
    if bytes.len() == 0 {
        0
    } else if bytes[0] == 0 {
        0
    } else {
        1 + first_zero(bytes.drop_first())
    }
}

/// A position with a zero-free prefix, ending at a zero byte or at the end of
/// the sequence, is `first_zero`.
pub proof fn lemma_first_zero_is(bytes: Seq<u8>, n: int)
    requires
        0 <= n <= bytes.len(),
        forall|k: int| 0 <= k < n ==> bytes[k] != 0,
        n < bytes.len() ==> bytes[n] == 0,
    ensures
        first_zero(bytes) == n,
    decreases n,
{
    if n == 0 {
    } else {
        assert(bytes[0] != 0);
        assert forall|k: int| 0 <= k < n - 1 implies bytes.drop_first()[k] != 0 by {
            assert(bytes.drop_first()[k] == bytes[k + 1]);
        }
        if n - 1 < bytes.drop_first().len() {
            assert(bytes.drop_first()[n - 1] == bytes[n]);
        }
        lemma_first_zero_is(bytes.drop_first(), n - 1);
    }
}

/// True when a byte string can be stored inline: it fits in the buffer and
/// contains no zero byte, which is reserved as the implicit terminator.
pub open spec fn fits_inline(bytes: Seq<u8>) -> bool {
    &&& bytes.len() <= INLINE_CAP
    &&& forall|k: int| 0 <= k < bytes.len() ==> bytes[k] != 0
}

/// Fixed-capacity inline representation: the UTF-8 bytes of the content,
/// padded with zero bytes. The logical content is recovered as everything
/// before the first zero byte, so the content itself may not contain one.
#[derive(Clone, Copy)]
pub struct Inline {
    buf: [u8; 15],
}

impl View for Inline {
    type V = Seq<u8>;

    /// The content bytes: the prefix of the buffer before the first zero byte.
    closed spec fn view(&self) -> Seq<u8> {
        self.buf@.subrange(0, first_zero(self.buf@))
    }
}

impl Inline {
    /// The content is a valid UTF-8 encoding; every constructor establishes
    /// this, and `as_str` relies on it.
    pub open spec fn wf(&self) -> bool {
        valid_utf8(self@)
    }

    /// An empty inline string: an all-zero buffer.
    pub fn new() -> (r: Inline)
        ensures
            r@ == Seq::<u8>::empty(),
            r.wf(),
    {
        let r = Inline { buf: [0u8; 15] };
        proof {
            lemma_first_zero_is(r.buf@, 0);
            assert(r@ =~= Seq::<u8>::empty());
        }
        r
    }

    /// Succeeds exactly when `s` fits inline: at most 15 bytes, none of them
    /// zero. On success the content bytes are exactly the bytes of `s`.
    pub fn try_from_str(s: &str) -> (r: Option<Inline>)
        ensures
            r is Some <==> fits_inline(s.spec_bytes()),
            r matches Some(v) ==> v@ == s.spec_bytes() && v.wf(),
    {
        let bytes = s.as_bytes();
        let n = bytes.len();
        if n > INLINE_CAP {
            return None;
        }
        let mut i: usize = 0;
        while i < n
            invariant
                bytes@ == s.spec_bytes(),
                n == bytes@.len() <= INLINE_CAP,
                0 <= i <= n,
                forall|k: int| 0 <= k < i ==> bytes@[k] != 0,
            decreases n - i,
        {
            if bytes[i] == 0 {
                return None;
            }
            i += 1;
        }
        let mut buf = [0u8; 15];
        let mut j: usize = 0;
        while j < n
            invariant
                bytes@ == s.spec_bytes(),
                n == bytes@.len() <= INLINE_CAP,
                0 <= j <= n,
                forall|k: int| 0 <= k < j ==> buf@[k] == bytes@[k],
                forall|k: int| j <= k < 15 ==> buf@[k] == 0,
                forall|k: int| 0 <= k < n ==> bytes@[k] != 0,
            decreases n - j,
        {
            buf[j] = bytes[j];
            j += 1;
        }
        let r = Inline { buf };
        proof {
            lemma_first_zero_is(r.buf@, n as int);
            assert(r@ =~= bytes@);
            broadcast use encode_utf8_valid_utf8;
        }
        Some(r)
    }

    /// The content bytes: the slice up to, and not including, the first zero
    /// byte, or the whole buffer if no byte is zero.
    pub fn as_bytes(&self) -> (r: &[u8])
        ensures
            r@ == self@,
    {
        let mut i: usize = 0;
        while i < INLINE_CAP && self.buf[i] != 0
            invariant
                0 <= i <= INLINE_CAP,
                forall|k: int| 0 <= k < i ==> self.buf@[k] != 0,
            decreases INLINE_CAP - i,
        {
            i += 1;
        }
        proof {
            lemma_first_zero_is(self.buf@, i as int);
        }
        slice_subrange(self.buf.as_slice(), 0, i)
    }

    /// The content as a string slice. The construction invariant guarantees
    /// the content is valid UTF-8, so the conversion never fails.
    pub fn as_str(&self) -> (r: &str)
        requires
            self.wf(),
        ensures
            r@ == decode_utf8(self@),
            r.spec_bytes() == self@,
    {
        let r = utf8_to_str(self.as_bytes()).unwrap();
        proof {
            broadcast use encode_utf8_decode_utf8;
        }
        r
    }
}

/// Relies on `std::str::from_utf8`: it returns `Ok` exactly when the bytes
/// are a valid UTF-8 encoding, and the returned string slice views those
/// same bytes.
#[verifier::external_body]
fn utf8_to_str(bytes: &[u8]) -> (r: Option<&str>)
    ensures
        r is Some <==> valid_utf8(bytes@),
        r matches Some(s) ==> s.spec_bytes() == bytes@,
{
    std::str::from_utf8(bytes).ok()
}

/// Relies on `Arc::clone`: it returns a second handle to the same allocation,
/// sharing the string instead of copying it.
#[verifier::external_body]
fn clone_arc(a: &Arc<String>) -> (r: Arc<String>)
    ensures
        r == *a,
{
    Arc::clone(a)
}

/// Heap-backed fallback representation: an immutable, reference-counted
/// string buffer. Any string is accepted, including ones that are longer than
/// the inline capacity or contain zero bytes.
pub struct Owned(Arc<String>);

impl View for Owned {
    type V = Seq<char>;

    closed spec fn view(&self) -> Seq<char> {
        self.0@
    }
}

impl Owned {
    /// Always succeeds: copies `s` into a shared heap buffer.
    pub fn from_str(s: &str) -> (r: Owned)
        ensures
            r@ == s@,
    {
        Owned(Arc::new(s.to_owned()))
    }

    /// A view over the shared buffer.
    pub fn as_str(&self) -> (r: &str)
        ensures
            r@ == self@,
    {
        self.0.as_str()
    }
}

impl Clone for Owned {
    /// Cloning shares the buffer: the new value reads the same string.
    fn clone(&self) -> (r: Self)
        ensures
            r == *self,
    {
        Owned(clone_arc(&self.0))
    }
}

} // verus!
