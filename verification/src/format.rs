//! Typed values and the native values that carry them.
//!
//! The native library passes a property value behind a data pointer and says
//! by a format tag which member lies there. [`NativeValue`] is the image of
//! that memory, [`Format`] the typed value read from it by the tag, and
//! [`MpvFormat`] the same for a host type that is known beforehand.

use crate::error::DecodeError;
use crate::schema::MpvInternalFormat;
use crate::text::{c_string, c_string_of, decode_text, is_c_text, lemma_text_round_trip, pointee, text_of};
use vstd::prelude::*;

verus! {

/// What lies behind a native data pointer: the one member that is populated.
#[derive(Clone, Copy, Debug, PartialEq, Eq)]
pub enum NativeValue<'a> {
    /// The data pointer is null, or leads to a member that this crate does
    /// not read.
    Absent,
    /// A C `int` that holds a flag.
    Flag(i32),
    /// A signed integer of 64 bits.
    Int64(i64),
    /// The bits of a floating-point number of 64 bits.
    Double(u64),
    /// A `char *`: `None` where it is null, else the memory it leads to, which
    /// a zero byte ends.
    Text(Option<&'a [u8]>),
}

/// A native value with its text buffer taken as a sequence of bytes.
pub enum NativeView {
    Absent,
    Flag(i32),
    Int64(i64),
    Double(u64),
    Text(Option<Seq<u8>>),
}

impl<'a> View for NativeValue<'a> {
    type V = NativeView;

    open spec fn view(&self) -> NativeView {
        match *self {
            NativeValue::Absent => NativeView::Absent,
            NativeValue::Flag(i) => NativeView::Flag(i),
            NativeValue::Int64(i) => NativeView::Int64(i),
            NativeValue::Double(bits) => NativeView::Double(bits),
            NativeValue::Text(ptr) => NativeView::Text(pointee(ptr)),
        }
    }
}

/// A floating-point number of 64 bits, held by its bits.
#[derive(Clone, Copy, Debug, PartialEq, Eq, Hash, Structural)]
pub struct Double {
    /// The bits of the number in the IEEE 754 binary64 layout.
    pub bits: u64,
}

impl View for Double {
    type V = u64;

    open spec fn view(&self) -> u64 {
        self.bits
    }
}

impl Double {
    /// The number with the given bits.
    pub fn from_bits(bits: u64) -> (d: Double)
        ensures
            d@ == bits,
    {
        Double { bits }
    }

    /// The bits of the number.
    pub fn to_bits(self) -> (bits: u64)
        ensures
            bits == self@,
    {
        self.bits
    }
}

/// A typed property value.
#[derive(Clone, Copy, Debug, PartialEq, Eq)]
pub enum Format<'a> {
    /// A flag.
    Flag(bool),
    /// A text in its raw form.
    Str(&'a str),
    /// A floating-point number.
    Double(Double),
    /// A signed integer.
    Int(i64),
    /// A text prepared for a human reader. The native library gives such a
    /// text and never takes one.
    OsdStr(&'a str),
}

/// A typed property value with its text taken as a sequence of characters.
pub enum FormatView {
    Flag(bool),
    Str(Seq<char>),
    Double(u64),
    Int(i64),
    OsdStr(Seq<char>),
}

impl<'a> View for Format<'a> {
    type V = FormatView;

    open spec fn view(&self) -> FormatView {
        match *self {
            Format::Flag(b) => FormatView::Flag(b),
            Format::Str(s) => FormatView::Str(s@),
            Format::Double(d) => FormatView::Double(d@),
            Format::Int(i) => FormatView::Int(i),
            Format::OsdStr(s) => FormatView::OsdStr(s@),
        }
    }
}

impl FormatView {
    /// The tag of the member that carries this value. It depends on the kind
    /// of the value alone.
    pub open spec fn tag(self) -> MpvInternalFormat {
        match self {
            FormatView::Flag(_) => MpvInternalFormat::MPV_FORMAT_FLAG,
            FormatView::Str(_) => MpvInternalFormat::MPV_FORMAT_STRING,
            FormatView::Double(_) => MpvInternalFormat::MPV_FORMAT_DOUBLE,
            FormatView::Int(_) => MpvInternalFormat::MPV_FORMAT_INT64,
            FormatView::OsdStr(_) => MpvInternalFormat::MPV_FORMAT_OSD_STRING,
        }
    }
}

/// The flag that a C `int` holds: 0 is false, 1 is true, and nothing else is
/// a flag.
pub open spec fn flag_of(i: i32) -> Result<bool, DecodeError> {
    if i == 0 {
        Ok(false)
    } else if i == 1 {
        Ok(true)
    } else {
        Err(DecodeError::InvalidFlag)
    }
}

/// The typed value that `data` holds when `tag` announces it.
///
/// For the five tags that carry a typed value the member has to be the
/// announced one. Any other tag gives `Flag(false)` whatever lies there: a
/// lenient answer to members that this crate does not read.
pub open spec fn value_of(tag: MpvInternalFormat, data: NativeView) -> Result<
    FormatView,
    DecodeError,
> {
    match tag {
        MpvInternalFormat::MPV_FORMAT_FLAG => match data {
            NativeView::Flag(i) => match flag_of(i) {
                Ok(b) => Ok(FormatView::Flag(b)),
                Err(e) => Err(e),
            },
            NativeView::Absent => Err(DecodeError::NullPointer),
            _ => Err(DecodeError::WrongMember),
        },
        MpvInternalFormat::MPV_FORMAT_STRING => match data {
            NativeView::Text(ptr) => match text_of(ptr) {
                Ok(s) => Ok(FormatView::Str(s)),
                Err(e) => Err(e),
            },
            NativeView::Absent => Err(DecodeError::NullPointer),
            _ => Err(DecodeError::WrongMember),
        },
        MpvInternalFormat::MPV_FORMAT_OSD_STRING => match data {
            NativeView::Text(ptr) => match text_of(ptr) {
                Ok(s) => Ok(FormatView::OsdStr(s)),
                Err(e) => Err(e),
            },
            NativeView::Absent => Err(DecodeError::NullPointer),
            _ => Err(DecodeError::WrongMember),
        },
        MpvInternalFormat::MPV_FORMAT_DOUBLE => match data {
            NativeView::Double(bits) => Ok(FormatView::Double(bits)),
            NativeView::Absent => Err(DecodeError::NullPointer),
            _ => Err(DecodeError::WrongMember),
        },
        MpvInternalFormat::MPV_FORMAT_INT64 => match data {
            NativeView::Int64(i) => Ok(FormatView::Int(i)),
            NativeView::Absent => Err(DecodeError::NullPointer),
            _ => Err(DecodeError::WrongMember),
        },
        _ => Ok(FormatView::Flag(false)),
    }
}

/// What the outcome of a decoding says, with the value taken by its view.
pub open spec fn outcome_view<T: View>(r: Result<T, DecodeError>) -> Result<T::V, DecodeError> {
    match r {
        Ok(v) => Ok(v@),
        Err(e) => Err(e),
    }
}

/// Reads a flag from a C `int`.
pub fn decode_flag(i: i32) -> (flag: Result<bool, DecodeError>)
    ensures
        flag == flag_of(i),
{
    if i == 0 {
        Ok(false)
    } else if i == 1 {
        Ok(true)
    } else {
        Err(DecodeError::InvalidFlag)
    }
}

impl<'a> Format<'a> {
    /// The tag under which the native library takes this value.
    pub fn get_mpv_format(&self) -> (tag: MpvInternalFormat)
        ensures
            tag == self@.tag(),
    {
        match self {
            Format::Flag(_) => MpvInternalFormat::MPV_FORMAT_FLAG,
            Format::Str(_) => MpvInternalFormat::MPV_FORMAT_STRING,
            Format::Double(_) => MpvInternalFormat::MPV_FORMAT_DOUBLE,
            Format::Int(_) => MpvInternalFormat::MPV_FORMAT_INT64,
            Format::OsdStr(_) => MpvInternalFormat::MPV_FORMAT_OSD_STRING,
        }
    }

    /// Reads the typed value that lies behind a data pointer, by the tag that
    /// announces it. Text is borrowed from the native buffer, not copied.
    pub fn get_from_c_void(format: MpvInternalFormat, data: NativeValue<'a>) -> (value: Result<
        Format<'a>,
        DecodeError,
    >)
        ensures
            outcome_view(value) == value_of(format, data@),
    {
        match format {
            MpvInternalFormat::MPV_FORMAT_FLAG => match data {
                NativeValue::Flag(i) => match decode_flag(i) {
                    Ok(b) => Ok(Format::Flag(b)),
                    Err(e) => Err(e),
                },
                NativeValue::Absent => Err(DecodeError::NullPointer),
                _ => Err(DecodeError::WrongMember),
            },
            MpvInternalFormat::MPV_FORMAT_STRING => match data {
                NativeValue::Text(ptr) => match decode_text(ptr) {
                    Ok(s) => Ok(Format::Str(s)),
                    Err(e) => Err(e),
                },
                NativeValue::Absent => Err(DecodeError::NullPointer),
                _ => Err(DecodeError::WrongMember),
            },
            MpvInternalFormat::MPV_FORMAT_OSD_STRING => match data {
                NativeValue::Text(ptr) => match decode_text(ptr) {
                    Ok(s) => Ok(Format::OsdStr(s)),
                    Err(e) => Err(e),
                },
                NativeValue::Absent => Err(DecodeError::NullPointer),
                _ => Err(DecodeError::WrongMember),
            },
            MpvInternalFormat::MPV_FORMAT_DOUBLE => match data {
                NativeValue::Double(bits) => Ok(Format::Double(Double::from_bits(bits))),
                NativeValue::Absent => Err(DecodeError::NullPointer),
                _ => Err(DecodeError::WrongMember),
            },
            MpvInternalFormat::MPV_FORMAT_INT64 => match data {
                NativeValue::Int64(i) => Ok(Format::Int(i)),
                NativeValue::Absent => Err(DecodeError::NullPointer),
                _ => Err(DecodeError::WrongMember),
            },
            _ => Ok(Format::Flag(false)),
        }
    }
}

/// The tag of a typed value is that of its kind, whatever the value is.
pub proof fn lemma_tag_fidelity(flag: bool, text: Seq<char>, number: i64, bits: u64)
    ensures
        FormatView::Flag(flag).tag() == MpvInternalFormat::MPV_FORMAT_FLAG,
        FormatView::Str(text).tag() == MpvInternalFormat::MPV_FORMAT_STRING,
        FormatView::Int(number).tag() == MpvInternalFormat::MPV_FORMAT_INT64,
        FormatView::Double(bits).tag() == MpvInternalFormat::MPV_FORMAT_DOUBLE,
        FormatView::OsdStr(text).tag() == MpvInternalFormat::MPV_FORMAT_OSD_STRING,
        <bool as MpvFormat>::format_tag() == MpvInternalFormat::MPV_FORMAT_FLAG,
        <&str as MpvFormat>::format_tag() == MpvInternalFormat::MPV_FORMAT_STRING,
        <i64 as MpvFormat>::format_tag() == MpvInternalFormat::MPV_FORMAT_INT64,
        <Double as MpvFormat>::format_tag() == MpvInternalFormat::MPV_FORMAT_DOUBLE,
{
}

/// A host type that the native library can take and give as a property value.
pub trait MpvFormat<'a>: Sized + View {
    /// The tag of the member that carries a value of this type: one for the
    /// type, whatever the value.
    spec fn format_tag() -> MpvInternalFormat;

    /// Whether the value can be written as a native value.
    spec fn marshallable(&self) -> bool;

    /// The native value that carries this value.
    spec fn marshalled(&self) -> NativeView;

    /// The member that is handed to the native library to be filled.
    spec fn empty_slot() -> NativeValue<'a>;

    /// The value of this type that a filled member holds.
    spec fn unmarshalled(filled: NativeView) -> Result<Self::V, DecodeError>;

    /// The value as a typed property value.
    spec fn as_format(v: Self::V) -> FormatView;

    /// What was written as a native value is read back unchanged, by the
    /// type and by the type's tag alike.
    proof fn lemma_round_trip(&self)
        requires
            self.marshallable(),
        ensures
            Self::unmarshalled(self.marshalled()) == Ok::<Self::V, DecodeError>(self@),
            value_of(Self::format_tag(), self.marshalled()) == Ok::<FormatView, DecodeError>(
                Self::as_format(self@),
            ),
    ;

    /// Reading a member by the type and reading it by the type's tag agree.
    proof fn lemma_typed_is_tagged(filled: NativeView)
        ensures
            match Self::unmarshalled(filled) {
                Ok(v) => value_of(Self::format_tag(), filled) == Ok::<FormatView, DecodeError>(
                    Self::as_format(v),
                ),
                Err(e) => value_of(Self::format_tag(), filled) == Err::<FormatView, DecodeError>(e),
            },
    ;

    /// Writes the value as a native value and hands it to `f` for the time of
    /// that one call; what `f` returns is returned.
    fn call_as_c_void<R, F: FnOnce(&NativeValue) -> R>(&self, f: F) -> (r: R)
        requires
            self.marshallable(),
            forall|n: &NativeValue| n@ == self.marshalled() ==> #[trigger] call_requires(f, (n,)),
        ensures
            exists|n: &NativeValue| n@ == self.marshalled() && #[trigger] call_ensures(f, (n,), r),
    ;

    /// Hands an empty member to `f`, which returns it as the native library
    /// filled it, and reads the value of this type from it.
    fn get_from_c_void<F: FnOnce(NativeValue<'a>) -> NativeValue<'a>>(f: F) -> (value: Result<
        Self,
        DecodeError,
    >)
        requires
            call_requires(f, (Self::empty_slot(),)),
        ensures
            exists|filled: NativeValue<'a>| #[trigger]
                call_ensures(f, (Self::empty_slot(),), filled) && outcome_view(value)
                    == Self::unmarshalled(filled@),
    ;

    /// The tag under which the native library takes a value of this type.
    fn get_mpv_format() -> (tag: MpvInternalFormat)
        ensures
            tag == Self::format_tag(),
    ;
}

impl<'a> MpvFormat<'a> for Double {
    open spec fn format_tag() -> MpvInternalFormat {
        MpvInternalFormat::MPV_FORMAT_DOUBLE
    }

    open spec fn marshallable(&self) -> bool {
        true
    }

    open spec fn marshalled(&self) -> NativeView {
        NativeView::Double(self.bits)
    }

    open spec fn empty_slot() -> NativeValue<'a> {
        NativeValue::Double(0)
    }

    open spec fn unmarshalled(filled: NativeView) -> Result<u64, DecodeError> {
        match filled {
            NativeView::Double(bits) => Ok(bits),
            NativeView::Absent => Err(DecodeError::NullPointer),
            _ => Err(DecodeError::WrongMember),
        }
    }

    open spec fn as_format(v: u64) -> FormatView {
        FormatView::Double(v)
    }

    proof fn lemma_round_trip(&self) {
    }

    proof fn lemma_typed_is_tagged(filled: NativeView) {
    }

    fn call_as_c_void<R, F: FnOnce(&NativeValue) -> R>(&self, f: F) -> (r: R) {
        let native = NativeValue::Double(self.bits);
        f(&native)
    }

    fn get_from_c_void<F: FnOnce(NativeValue<'a>) -> NativeValue<'a>>(f: F) -> (value: Result<
        Double,
        DecodeError,
    >) {
        match f(NativeValue::Double(0)) {
            NativeValue::Double(bits) => Ok(Double::from_bits(bits)),
            NativeValue::Absent => Err(DecodeError::NullPointer),
            _ => Err(DecodeError::WrongMember),
        }
    }

    fn get_mpv_format() -> (tag: MpvInternalFormat) {
        MpvInternalFormat::MPV_FORMAT_DOUBLE
    }
}

impl<'a> MpvFormat<'a> for i64 {
    open spec fn format_tag() -> MpvInternalFormat {
        MpvInternalFormat::MPV_FORMAT_INT64
    }

    open spec fn marshallable(&self) -> bool {
        true
    }

    open spec fn marshalled(&self) -> NativeView {
        NativeView::Int64(*self)
    }

    open spec fn empty_slot() -> NativeValue<'a> {
        NativeValue::Int64(0)
    }

    open spec fn unmarshalled(filled: NativeView) -> Result<i64, DecodeError> {
        match filled {
            NativeView::Int64(i) => Ok(i),
            NativeView::Absent => Err(DecodeError::NullPointer),
            _ => Err(DecodeError::WrongMember),
        }
    }

    open spec fn as_format(v: i64) -> FormatView {
        FormatView::Int(v)
    }

    proof fn lemma_round_trip(&self) {
    }

    proof fn lemma_typed_is_tagged(filled: NativeView) {
    }

    fn call_as_c_void<R, F: FnOnce(&NativeValue) -> R>(&self, f: F) -> (r: R) {
        let native = NativeValue::Int64(*self);
        f(&native)
    }

    fn get_from_c_void<F: FnOnce(NativeValue<'a>) -> NativeValue<'a>>(f: F) -> (value: Result<
        i64,
        DecodeError,
    >) {
        match f(NativeValue::Int64(0)) {
            NativeValue::Int64(i) => Ok(i),
            NativeValue::Absent => Err(DecodeError::NullPointer),
            _ => Err(DecodeError::WrongMember),
        }
    }

    fn get_mpv_format() -> (tag: MpvInternalFormat) {
        MpvInternalFormat::MPV_FORMAT_INT64
    }
}

impl<'a> MpvFormat<'a> for bool {
    open spec fn format_tag() -> MpvInternalFormat {
        MpvInternalFormat::MPV_FORMAT_FLAG
    }

    open spec fn marshallable(&self) -> bool {
        true
    }

    /// A flag travels as a C `int` of 0 or 1, not as a byte.
    open spec fn marshalled(&self) -> NativeView {
        NativeView::Flag(
            if *self {
                1i32
            } else {
                0i32
            },
        )
    }

    open spec fn empty_slot() -> NativeValue<'a> {
        NativeValue::Flag(0)
    }

    open spec fn unmarshalled(filled: NativeView) -> Result<bool, DecodeError> {
        match filled {
            NativeView::Flag(i) => flag_of(i),
            NativeView::Absent => Err(DecodeError::NullPointer),
            _ => Err(DecodeError::WrongMember),
        }
    }

    open spec fn as_format(v: bool) -> FormatView {
        FormatView::Flag(v)
    }

    proof fn lemma_round_trip(&self) {
    }

    proof fn lemma_typed_is_tagged(filled: NativeView) {
    }

    fn call_as_c_void<R, F: FnOnce(&NativeValue) -> R>(&self, f: F) -> (r: R) {
        let native = NativeValue::Flag(
            if *self {
                1
            } else {
                0
            },
        );
        f(&native)
    }

    fn get_from_c_void<F: FnOnce(NativeValue<'a>) -> NativeValue<'a>>(f: F) -> (value: Result<
        bool,
        DecodeError,
    >) {
        match f(NativeValue::Flag(0)) {
            NativeValue::Flag(i) => decode_flag(i),
            NativeValue::Absent => Err(DecodeError::NullPointer),
            _ => Err(DecodeError::WrongMember),
        }
    }

    fn get_mpv_format() -> (tag: MpvInternalFormat) {
        MpvInternalFormat::MPV_FORMAT_FLAG
    }
}

impl<'a> MpvFormat<'a> for &'a str {
    open spec fn format_tag() -> MpvInternalFormat {
        MpvInternalFormat::MPV_FORMAT_STRING
    }

    /// A text with a zero byte in it cannot stand in a native buffer.
    open spec fn marshallable(&self) -> bool {
        is_c_text(self@)
    }

    open spec fn marshalled(&self) -> NativeView {
        NativeView::Text(Some(c_string_of(self@)))
    }

    open spec fn empty_slot() -> NativeValue<'a> {
        NativeValue::Text(None)
    }

    open spec fn unmarshalled(filled: NativeView) -> Result<Seq<char>, DecodeError> {
        match filled {
            NativeView::Text(ptr) => text_of(ptr),
            NativeView::Absent => Err(DecodeError::NullPointer),
            _ => Err(DecodeError::WrongMember),
        }
    }

    open spec fn as_format(v: Seq<char>) -> FormatView {
        FormatView::Str(v)
    }

    proof fn lemma_round_trip(&self) {
        lemma_text_round_trip(self@);
    }

    proof fn lemma_typed_is_tagged(filled: NativeView) {
    }

    fn call_as_c_void<R, F: FnOnce(&NativeValue) -> R>(&self, f: F) -> (r: R) {
        let buf = c_string(*self).unwrap();
        let native = NativeValue::Text(Some(buf.as_slice()));
        f(&native)
    }

    fn get_from_c_void<F: FnOnce(NativeValue<'a>) -> NativeValue<'a>>(f: F) -> (value: Result<
        &'a str,
        DecodeError,
    >) {
        match f(NativeValue::Text(None)) {
            NativeValue::Text(ptr) => decode_text(ptr),
            NativeValue::Absent => Err(DecodeError::NullPointer),
            _ => Err(DecodeError::WrongMember),
        }
    }

    fn get_mpv_format() -> (tag: MpvInternalFormat) {
        MpvInternalFormat::MPV_FORMAT_STRING
    }
}

} // verus!
