use crate::error::{Error, Result};
use vstd::prelude::*;
use vstd::utf8::{decode_utf8, valid_utf8};

verus! {

/// True when no byte of `b` is NUL.
pub open spec fn nul_free(b: Seq<u8>) -> bool {
    forall|i: int| 0 <= i < b.len() ==> b[i] != 0
}

/// True when `b` is a C string: NUL-free text followed by one NUL terminator.
pub open spec fn is_c_string(b: Seq<u8>) -> bool {
    b.len() > 0 && b.last() == 0 && nul_free(b.drop_last())
}

/// Copies `bytes` into a NUL-terminated buffer for the native side. Text with
/// an interior NUL byte cannot be passed as a C string and fails with `Null`.
pub fn c_string(bytes: &[u8]) -> (r: Result<Vec<u8>>)
    ensures
        nul_free(bytes@) ==> (r matches Ok(v) && v@ == bytes@.push(0)),
        !nul_free(bytes@) ==> r == Err::<Vec<u8>, Error>(Error::Null),
{
    let mut out: Vec<u8> = Vec::new();
    let mut i: usize = 0;
    while i < bytes.len()
        invariant
            i <= bytes@.len(),
            out@ == bytes@.subrange(0, i as int),
            nul_free(out@),
        decreases bytes@.len() - i,
    {
        if bytes[i] == 0 {
            return Err(Error::Null);
        }
        out.push(bytes[i]);
        i += 1;
        assert(out@ == bytes@.subrange(0, i as int));
    }
    assert(out@ == bytes@);
    out.push(0);
    Ok(out)
}

/// Relies on `std::str::from_utf8`: it accepts exactly the valid UTF-8 byte
/// sequences, and the text it returns is the one they encode.
#[verifier::external_body]
fn utf8_text<'a>(b: &'a [u8]) -> (r: Option<&'a str>)
    ensures
        r is Some <==> valid_utf8(b@),
        r matches Some(s) ==> s@ == decode_utf8(b@),
{
    std::str::from_utf8(b).ok()
}

/// Reads text that the native side produced. Bytes that are not UTF-8 fail
/// with `InvalidUtf8` instead of reaching the caller as garbage.
pub fn decode_text<'a>(bytes: &'a [u8]) -> (r: Result<&'a str>)
    ensures
        r is Ok <==> valid_utf8(bytes@),
        r matches Ok(s) ==> s@ == decode_utf8(bytes@),
        r matches Err(e) ==> e == Error::InvalidUtf8,
{
    match utf8_text(bytes) {
        Some(s) => Ok(s),
        None => Err(Error::InvalidUtf8),
    }
}

/// Text that lives in memory of the native allocator, seen without copying.
///
/// `release` is the owner of that memory: whoever builds a `MpvStr` hands in a
/// value whose drop frees the memory through the native allocator. The view is
/// neither `Clone` nor `Copy`, so the memory has exactly one owner and is
/// released exactly once, when the view goes out of scope, or at once when
/// construction fails.
pub struct MpvStr<'a, G> {
    text: &'a str,
    release: G,
}

impl<'a, G> View for MpvStr<'a, G> {
    type V = Seq<char>;

    closed spec fn view(&self) -> Seq<char> {
        self.text@
    }
}

impl<'a, G> MpvStr<'a, G> {
    /// Takes ownership of a native allocation whose text is `bytes` (without
    /// its terminator). Fails with `InvalidUtf8` when the text is not UTF-8; the
    /// allocation is then released before the error is returned.
    pub fn new(bytes: &'a [u8], release: G) -> (r: Result<MpvStr<'a, G>>)
        ensures
            r is Ok <==> valid_utf8(bytes@),
            r matches Ok(m) ==> m@ == decode_utf8(bytes@),
            r matches Err(e) ==> e == Error::InvalidUtf8,
    {
        match decode_text(bytes) {
            Ok(text) => Ok(MpvStr { text, release }),
            Err(e) => Err(e),
        }
    }

    /// The text, borrowed for as long as the view lives.
    pub fn as_str(&self) -> (r: &str)
        ensures
            r@ == self@,
    {
        self.text
    }
}

} // verus!
