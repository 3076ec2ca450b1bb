//! What can go wrong, and how lengths are checked against the format.

use crate::config::{ConfigView, RtConfig};
use vstd::prelude::*;

verus! {

/// `std::io::Error`. Verus sees nothing inside.
#[verifier::external_type_specification]
#[verifier::external_body]
pub struct ExIoError(std::io::Error);

/// The field of a record that an error speaks of.
#[derive(PartialEq, Eq, Debug, Clone, Copy)]
pub enum InputKind {
    Scope,
    Key,
    Value,
}

/// Every failure of the codec and of the writer actor.
#[derive(Debug)]
#[allow(inconsistent_fields)]
pub enum Error {
    /// The underlying source or sink failed; a source that ends in the
    /// middle of an item fails so.
    Io(std::io::Error),
    /// The header does not start with the format's magic number.
    Version { existing: u32 },
    /// Two schemas that should agree do not. Nothing here raises it.
    Config { existing: RtConfig, current: RtConfig },
    /// A checkpoint carries another digest than the rows before it give.
    Hash { existing: crate::digest::Hash, calculated: crate::digest::Hash },
    /// A field does not have the width that the schema fixes for it.
    InputLength { config_len: u32, input_len: u32, which: InputKind },
    /// A row starts with a byte that is no row tag.
    RowType(u8),
    /// A length does not fit the format's 32-bit length field.
    TooLongSize { size: u64 },
    /// The writer has been closed.
    Closed,
    /// The actor that owned the writer is gone.
    AsyncFileClosed,
}

/// An error as plain values: the outside I/O error is reduced to its being
/// one, digests and schemas to their bytes.
#[allow(inconsistent_fields)]
pub enum ErrorView {
    Io,
    Version { existing: u32 },
    Config { existing: ConfigView, current: ConfigView },
    Hash { existing: Seq<u8>, calculated: Seq<u8> },
    InputLength { config_len: u32, input_len: u32, which: InputKind },
    RowType(u8),
    TooLongSize { size: u64 },
    Closed,
    AsyncFileClosed,
}

impl View for Error {
    type V = ErrorView;

    open spec fn view(&self) -> ErrorView {
        match self {
            Error::Io(_) => ErrorView::Io,
            Error::Version { existing } => ErrorView::Version { existing: *existing },
            Error::Config { existing, current } => ErrorView::Config {
                existing: existing@,
                current: current@,
            },
            Error::Hash { existing, calculated } => ErrorView::Hash {
                existing: existing@,
                calculated: calculated@,
            },
            Error::InputLength { config_len, input_len, which } => ErrorView::InputLength {
                config_len: *config_len,
                input_len: *input_len,
                which: *which,
            },
            Error::RowType(tag) => ErrorView::RowType(*tag),
            Error::TooLongSize { size } => ErrorView::TooLongSize { size: *size },
            Error::Closed => ErrorView::Closed,
            Error::AsyncFileClosed => ErrorView::AsyncFileClosed,
        }
    }
}

impl From<std::io::Error> for Error {
    /// An I/O failure as a failure of the codec.
    fn from(e: std::io::Error) -> (r: Error) {
        Error::Io(e)
    }
}

impl vstd::std_specs::convert::FromSpecImpl<std::io::Error> for Error {
    open spec fn obeys_from_spec() -> bool {
        true
    }

    open spec fn from_spec(e: std::io::Error) -> Error {
        Error::Io(e)
    }
}

/// A result with its value and its error as plain values.
pub open spec fn result_view<T: View>(r: Result<T, Error>) -> Result<T::V, ErrorView> {
    match r {
        Ok(v) => Ok(v@),
        Err(e) => Err(e@),
    }
}

/// What a length of `n` bytes is on the wire: `n` itself where 32 bits hold
/// it, else the refusal that names it.
pub open spec fn wire_len(n: nat) -> Result<u32, ErrorView> {
    if n <= u32::MAX {
        Ok(n as u32)
    } else {
        Err(ErrorView::TooLongSize { size: n as u64 })
    }
}

/// A length as the format's 32-bit length field holds it, or
/// `Error::TooLongSize` with the length where it does not fit.
pub fn usize_u32(n: usize) -> (r: Result<u32, Error>)
    ensures
        result_view(r) == wire_len(n as nat),
{
    if n <= 0xffff_ffff {
        Ok(n as u32)
    } else {
        Err(Error::TooLongSize { size: n as u64 })
    }
}

impl InputKind {
    /// The field's name in lower case: "scope", "key" or "value".
    pub fn name(&self) -> (name: &'static str)
        ensures
            name@ == match *self {
                InputKind::Scope => "scope"@,
                InputKind::Key => "key"@,
                InputKind::Value => "value"@,
            },
    {
        match self {
            InputKind::Scope => "scope",
            InputKind::Key => "key",
            InputKind::Value => "value",
        }
    }
}

} // verus!
