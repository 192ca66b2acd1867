use vstd::prelude::*;

verus! {

/// The native library's numeric code for a wire format.
pub type MpvFormat = u32;

/// Native code for a NUL-terminated UTF-8 string, passed as `char **`.
pub const MPV_FORMAT_STRING: MpvFormat = 1;

/// Native code for a flag, passed as a C `int` holding 0 or 1.
pub const MPV_FORMAT_FLAG: MpvFormat = 3;

/// Native code for a signed 64-bit integer.
pub const MPV_FORMAT_INT64: MpvFormat = 4;

/// Native code for an IEEE-754 double.
pub const MPV_FORMAT_DOUBLE: MpvFormat = 5;

/// The wire formats that values take when they cross the boundary.
#[derive(Debug, Clone, Copy, Hash, PartialEq, Eq, Structural)]
pub enum Format {
    String,
    Flag,
    Int64,
    Double,
}

/// The native code of each format.
pub open spec fn native_code(f: Format) -> MpvFormat {
    match f {
        Format::String => MPV_FORMAT_STRING,
        Format::Flag => MPV_FORMAT_FLAG,
        Format::Int64 => MPV_FORMAT_INT64,
        Format::Double => MPV_FORMAT_DOUBLE,
    }
}

impl Format {
    /// The native code under which values of this format are passed.
    pub fn as_mpv_format(&self) -> (r: MpvFormat)
        ensures
            r == native_code(*self),
    {
        match *self {
            Format::String => MPV_FORMAT_STRING,
            Format::Flag => MPV_FORMAT_FLAG,
            Format::Int64 => MPV_FORMAT_INT64,
            Format::Double => MPV_FORMAT_DOUBLE,
        }
    }
}

/// Every format has a native code, and no two formats share one: a code read
/// back names exactly one format.
pub proof fn lemma_native_code_injective(a: Format, b: Format)
    ensures
        native_code(a) == native_code(b) <==> a == b,
        native_code(a) != 0,
{
}

} // verus!
