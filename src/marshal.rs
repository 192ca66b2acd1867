use crate::error::{Error, Result};
use crate::format::{native_code, Format, MpvFormat};
use crate::text::{c_string, decode_text, is_c_string, nul_free};
use vstd::prelude::*;
use vstd::utf8::{decode_utf8, encode_utf8, valid_utf8};

verus! {

/// A value laid out as the native side reads or writes it.
///
/// The caller passes the address of the payload to the native call: for
/// `String`, the address of a pointer to the bytes, which are always a C string.
#[derive(Debug, Clone, PartialEq, Eq)]
pub enum NativeData {
    String(Vec<u8>),
    Flag(i32),
    Int64(i64),
    Double(u64),
}

/// What a `NativeData` holds, as mathematical values.
pub enum NativeValue {
    String(Seq<u8>),
    Flag(i32),
    Int64(i64),
    Double(u64),
}

impl NativeValue {
    /// The wire format of the value.
    pub open spec fn format(self) -> Format {
        match self {
            NativeValue::String(_) => Format::String,
            NativeValue::Flag(_) => Format::Flag,
            NativeValue::Int64(_) => Format::Int64,
            NativeValue::Double(_) => Format::Double,
        }
    }

    /// A string payload is a C string; the scalars need nothing.
    pub open spec fn wf(self) -> bool {
        self matches NativeValue::String(b) ==> is_c_string(b)
    }
}

impl View for NativeData {
    type V = NativeValue;

    open spec fn view(&self) -> NativeValue {
        match self {
            NativeData::String(b) => NativeValue::String(b@),
            NativeData::Flag(v) => NativeValue::Flag(*v),
            NativeData::Int64(v) => NativeValue::Int64(*v),
            NativeData::Double(v) => NativeValue::Double(*v),
        }
    }
}

impl NativeData {
    /// The wire format of the payload.
    pub fn format(&self) -> (r: Format)
        ensures
            r == self@.format(),
    {
        match self {
            NativeData::String(_) => Format::String,
            NativeData::Flag(_) => Format::Flag,
            NativeData::Int64(_) => Format::Int64,
            NativeData::Double(_) => Format::Double,
        }
    }
}

/// A result with its success value seen through `View`.
pub open spec fn view_result<T: View>(r: Result<T>) -> Result<T::V> {
    match r {
        Ok(v) => Ok(v@),
        Err(e) => Err(e),
    }
}

/// The bit pattern of an IEEE-754 double, as the native side stores it.
#[derive(Debug, Clone, Copy, PartialEq, Eq, Hash, Structural)]
pub struct DoubleBits(pub u64);

impl View for DoubleBits {
    type V = u64;

    open spec fn view(&self) -> u64 {
        self.0
    }
}

/// Types that can be read from the native side.
pub trait GetData: Sized + View {
    /// The wire format that values of the type are read in.
    spec fn format_spec() -> Format;

    /// What reading the native value `v` gives.
    spec fn read_spec(v: NativeValue) -> Result<Self::V>;

    /// The wire format to request from the native side.
    fn get_format() -> (r: Format)
        ensures
            r == Self::format_spec(),
    ;

    /// Reads a value that the native side filled in, in the format requested.
    fn from_native(data: NativeData) -> (r: Result<Self>)
        requires
            data@.format() == Self::format_spec(),
            data@.wf(),
        ensures
            view_result(r) == Self::read_spec(data@),
    ;
}

/// Types that can be written to the native side.
pub trait SetData: Sized + View {
    /// The wire format that values of the type are written in.
    spec fn format_spec() -> Format;

    /// How the value `v` is staged for the native side.
    spec fn staged(v: Self::V) -> Result<NativeValue>;

    /// The wire format to announce to the native side.
    fn get_format() -> (r: Format)
        ensures
            r == Self::format_spec(),
    ;

    /// Stages the value in the layout that the native side reads.
    fn to_native(self) -> (r: Result<NativeData>)
        ensures
            view_result(r) == Self::staged(self@),
            r matches Ok(d) ==> d@.format() == Self::format_spec() && d@.wf(),
    ;
}

/// A string staged for writing: its UTF-8 bytes and a terminator, or `Null`
/// when the bytes hold a NUL.
pub open spec fn staged_text(s: Seq<char>) -> Result<NativeValue> {
    if nul_free(encode_utf8(s)) {
        Ok(NativeValue::String(encode_utf8(s).push(0)))
    } else {
        Err(Error::Null)
    }
}

/// A native string read back: the text before the terminator, or
/// `InvalidUtf8` when it is not UTF-8.
pub open spec fn read_text(b: Seq<u8>) -> Result<Seq<char>> {
    if valid_utf8(b.drop_last()) {
        Ok(decode_utf8(b.drop_last()))
    } else {
        Err(Error::InvalidUtf8)
    }
}

fn stage_bytes(bytes: &[u8]) -> (r: Result<NativeData>)
    ensures
        nul_free(bytes@) ==> (r matches Ok(d) && d@ == NativeValue::String(bytes@.push(0))),
        !nul_free(bytes@) ==> r == Err::<NativeData, Error>(Error::Null),
{
    match c_string(bytes) {
        Ok(v) => Ok(NativeData::String(v)),
        Err(e) => Err(e),
    }
}

proof fn lemma_terminated_is_c_string(b: Seq<u8>)
    requires
        nul_free(b),
    ensures
        is_c_string(b.push(0)),
{
    assert(b.push(0).drop_last() == b);
}

impl GetData for i64 {
    open spec fn format_spec() -> Format {
        Format::Int64
    }

    open spec fn read_spec(v: NativeValue) -> Result<i64> {
        match v {
            NativeValue::Int64(x) => Ok(x),
            _ => Err(Error::Null),
        }
    }

    fn get_format() -> (r: Format) {
        Format::Int64
    }

    fn from_native(data: NativeData) -> (r: Result<i64>) {
        match data {
            NativeData::Int64(x) => Ok(x),
            _ => Err(Error::Null),
        }
    }
}

impl SetData for i64 {
    open spec fn format_spec() -> Format {
        Format::Int64
    }

    open spec fn staged(v: i64) -> Result<NativeValue> {
        Ok(NativeValue::Int64(v))
    }

    fn get_format() -> (r: Format) {
        Format::Int64
    }

    fn to_native(self) -> (r: Result<NativeData>) {
        Ok(NativeData::Int64(self))
    }
}

impl GetData for DoubleBits {
    open spec fn format_spec() -> Format {
        Format::Double
    }

    open spec fn read_spec(v: NativeValue) -> Result<u64> {
        match v {
            NativeValue::Double(x) => Ok(x),
            _ => Err(Error::Null),
        }
    }

    fn get_format() -> (r: Format) {
        Format::Double
    }

    fn from_native(data: NativeData) -> (r: Result<DoubleBits>) {
        match data {
            NativeData::Double(x) => Ok(DoubleBits(x)),
            _ => Err(Error::Null),
        }
    }
}

impl SetData for DoubleBits {
    open spec fn format_spec() -> Format {
        Format::Double
    }

    open spec fn staged(v: u64) -> Result<NativeValue> {
        Ok(NativeValue::Double(v))
    }

    fn get_format() -> (r: Format) {
        Format::Double
    }

    fn to_native(self) -> (r: Result<NativeData>) {
        Ok(NativeData::Double(self.0))
    }
}

/// The native flag is a C integer, wider than a host `bool`: any non-zero
/// value reads as `true`.
impl GetData for bool {
    open spec fn format_spec() -> Format {
        Format::Flag
    }

    open spec fn read_spec(v: NativeValue) -> Result<bool> {
        match v {
            NativeValue::Flag(x) => Ok(x != 0),
            _ => Err(Error::Null),
        }
    }

    fn get_format() -> (r: Format) {
        Format::Flag
    }

    fn from_native(data: NativeData) -> (r: Result<bool>) {
        match data {
            NativeData::Flag(x) => Ok(x != 0),
            _ => Err(Error::Null),
        }
    }
}

/// A `bool` is widened to the native C `int` before its address is handed out,
/// so that the native side never reads past the host's one byte.
impl SetData for bool {
    open spec fn format_spec() -> Format {
        Format::Flag
    }

    open spec fn staged(v: bool) -> Result<NativeValue> {
        Ok(NativeValue::Flag(if v { 1 } else { 0 }))
    }

    fn get_format() -> (r: Format) {
        Format::Flag
    }

    fn to_native(self) -> (r: Result<NativeData>) {
        let wide: i32 = if self { 1 } else { 0 };
        Ok(NativeData::Flag(wide))
    }
}

impl GetData for String {
    open spec fn format_spec() -> Format {
        Format::String
    }

    open spec fn read_spec(v: NativeValue) -> Result<Seq<char>> {
        match v {
            NativeValue::String(b) => read_text(b),
            _ => Err(Error::Null),
        }
    }

    fn get_format() -> (r: Format) {
        Format::String
    }

    fn from_native(data: NativeData) -> (r: Result<String>) {
        match data {
            NativeData::String(b) => {
                let n = b.len() - 1;
                let text = b.as_slice().split_at(n).0;
                assert(text@ == b@.drop_last());
                match decode_text(text) {
                    Ok(s) => Ok(s.to_owned()),
                    Err(e) => Err(e),
                }
            },
            _ => Err(Error::Null),
        }
    }
}

impl SetData for String {
    open spec fn format_spec() -> Format {
        Format::String
    }

    open spec fn staged(v: Seq<char>) -> Result<NativeValue> {
        staged_text(v)
    }

    fn get_format() -> (r: Format) {
        Format::String
    }

    fn to_native(self) -> (r: Result<NativeData>) {
        let r = stage_bytes(self.as_str().as_bytes());
        proof {
            if nul_free(encode_utf8(self@)) {
                lemma_terminated_is_c_string(encode_utf8(self@));
            }
        }
        r
    }
}

impl<'a> SetData for &'a str {
    open spec fn format_spec() -> Format {
        Format::String
    }

    open spec fn staged(v: Seq<char>) -> Result<NativeValue> {
        staged_text(v)
    }

    fn get_format() -> (r: Format) {
        Format::String
    }

    fn to_native(self) -> (r: Result<NativeData>) {
        let r = stage_bytes(self.as_bytes());
        proof {
            if nul_free(encode_utf8(self@)) {
                lemma_terminated_is_c_string(encode_utf8(self@));
            }
        }
        r
    }
}

/// One property write, ready for the native call: the name as a C string, the
/// native format code, and the staged value.
pub struct PropertyWrite {
    pub name: Vec<u8>,
    pub format: MpvFormat,
    pub data: NativeData,
}

/// One property read, ready for the native call: the name as a C string and
/// the native format code to request.
pub struct PropertyRead {
    pub name: Vec<u8>,
    pub format: MpvFormat,
}

/// Prepares the write of `data` to the property `name`. A name with a NUL
/// byte fails with `Null`, and so does a value that cannot be staged; no native
/// call is to be made then.
pub fn set_property_request<T: SetData>(name: &str, data: T) -> (r: Result<PropertyWrite>)
    ensures
        !nul_free(encode_utf8(name@)) ==> r == Err::<PropertyWrite, Error>(Error::Null),
        nul_free(encode_utf8(name@)) ==> match T::staged(data@) {
            Ok(v) => r matches Ok(w) && w.name@ == encode_utf8(name@).push(0) && w.format
                == native_code(T::format_spec()) && w.data@ == v && v.wf(),
            Err(e) => r == Err::<PropertyWrite, Error>(e),
        },
{
    let name = c_string(name.as_bytes())?;
    let format = T::get_format().as_mpv_format();
    let data = data.to_native()?;
    Ok(PropertyWrite { name, format, data })
}

/// Prepares the read of the property `name` as a `T`. A name with a NUL byte
/// fails with `Null`, and no native call is to be made then.
pub fn get_property_request<T: GetData>(name: &str) -> (r: Result<PropertyRead>)
    ensures
        !nul_free(encode_utf8(name@)) ==> r == Err::<PropertyRead, Error>(Error::Null),
        nul_free(encode_utf8(name@)) ==> (r matches Ok(q) && q.name@ == encode_utf8(name@).push(0)
            && q.format == native_code(T::format_spec())),
{
    let name = c_string(name.as_bytes())?;
    let format = T::get_format().as_mpv_format();
    Ok(PropertyRead { name, format })
}

/// Writing a 64-bit integer and reading it back gives the same integer.
pub proof fn lemma_int64_round_trip(x: i64)
    ensures
        <i64 as SetData>::staged(x) matches Ok(v) && <i64 as GetData>::read_spec(v) == Ok::<
            i64,
            Error,
        >(x),
{
}

/// Writing a double and reading it back gives the same bit pattern, NaN
/// payloads and signed zeros included.
pub proof fn lemma_double_round_trip(bits: u64)
    ensures
        <DoubleBits as SetData>::staged(bits) matches Ok(v) && <DoubleBits as GetData>::read_spec(
            v,
        ) == Ok::<u64, Error>(bits),
{
}

/// Writing a flag stages a full native C `int`, 1 for `true` and 0 for
/// `false`, and reading it back gives the same flag.
pub proof fn lemma_flag_round_trip(b: bool)
    ensures
        <bool as SetData>::staged(b) == Ok::<NativeValue, Error>(
            NativeValue::Flag(if b { 1i32 } else { 0i32 }),
        ),
        <bool as SetData>::staged(b) matches Ok(v) && <bool as GetData>::read_spec(v) == Ok::<
            bool,
            Error,
        >(b),
{
}

/// A string whose UTF-8 bytes hold no NUL is written as a C string and reads
/// back equal; one that holds a NUL is refused with `Null` before anything is
/// handed to the native side.
pub proof fn lemma_string_round_trip(s: Seq<char>)
    ensures
        nul_free(encode_utf8(s)) ==> (<String as SetData>::staged(s) matches Ok(v) && v.wf()
            && <String as GetData>::read_spec(v) == Ok::<Seq<char>, Error>(s)),
        !nul_free(encode_utf8(s)) ==> <String as SetData>::staged(s) == Err::<NativeValue, Error>(
            Error::Null,
        ),
{
    if nul_free(encode_utf8(s)) {
        let b = encode_utf8(s).push(0);
        assert(b.drop_last() == encode_utf8(s));
        lemma_terminated_is_c_string(encode_utf8(s));
        vstd::utf8::encode_utf8_valid_utf8(s);
        vstd::utf8::encode_utf8_decode_utf8(s);
    }
}

} // verus!
