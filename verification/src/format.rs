//! The layout of a dump, byte by byte: what the writer appends for a header
//! and for each row, and how a reader finds the same items again.

use crate::config::{width_or_zero, Sizes};
use crate::error::{ErrorView, InputKind};
use crate::row::{KvView, TAG_END, TAG_HASH, TAG_KV};
use crate::wire::{be32, be32_at, lemma_be32_round_trip};
use vstd::prelude::*;

verus! {

/// The number that starts every dump.
pub const BS_IDENT: u32 = 0x42650000;

/// The header: magic number, length of the tag, the tag, the size flag, and
/// the three widths, each present whether or not its field is fixed-width.
pub open spec fn header_bytes(ident: Seq<u8>, sizes: Sizes) -> Seq<u8>
    recommends
        ident.len() <= u32::MAX,
{
    be32(BS_IDENT) + be32(ident.len() as u32) + ident + seq![sizes.flag_spec()] + be32(
        width_or_zero(sizes.scope),
    ) + be32(width_or_zero(sizes.key)) + be32(width_or_zero(sizes.value))
}

/// Why a field cannot be written under a width, if it cannot: its length
/// does not fit 32 bits, or it is not the fixed width.
pub open spec fn field_refusal(width: Option<u32>, data: Seq<u8>, which: InputKind) -> Option<
    ErrorView,
> {
    if data.len() > u32::MAX {
        Some(ErrorView::TooLongSize { size: data.len() as u64 })
    } else if width is Some && width->0 != data.len() {
        Some(
            ErrorView::InputLength {
                config_len: width->0,
                input_len: data.len() as u32,
                which,
            },
        )
    } else {
        None
    }
}

/// A field on the wire: the bytes alone where the width is fixed, else
/// their number in 32 bits and then the bytes.
pub open spec fn field_bytes(width: Option<u32>, data: Seq<u8>) -> Seq<u8>
    recommends
        data.len() <= u32::MAX,
{
    match width {
        Some(_) => data,
        None => be32(data.len() as u32) + data,
    }
}

/// Whether a record can be written under these sizes.
pub open spec fn kv_fits(sizes: Sizes, kv: KvView) -> bool {
    &&& field_refusal(sizes.scope, kv.scope, InputKind::Scope) is None
    &&& field_refusal(sizes.key, kv.key, InputKind::Key) is None
    &&& field_refusal(sizes.value, kv.value, InputKind::Value) is None
}

/// A key/value row: the tag 0, then scope, key and value.
pub open spec fn kv_row_bytes(sizes: Sizes, kv: KvView) -> Seq<u8>
    recommends
        kv_fits(sizes, kv),
{
    seq![TAG_KV] + field_bytes(sizes.scope, kv.scope) + field_bytes(sizes.key, kv.key)
        + field_bytes(sizes.value, kv.value)
}

/// A checkpoint row: the tag 1, then the digest.
pub open spec fn hash_row_bytes(digest: Seq<u8>) -> Seq<u8> {
    seq![TAG_HASH] + digest
}

/// The row that ends the stream: the tag 2 alone.
pub open spec fn end_row_bytes() -> Seq<u8> {
    seq![TAG_END]
}

/// The field at the front of `b` under a width: its bytes, and the number of
/// bytes of `b` that it takes. `None` where `b` ends before the field does.
pub open spec fn take_field(width: Option<u32>, b: Seq<u8>) -> Option<(Seq<u8>, int)> {
    match width {
        Some(w) => if w <= b.len() {
            Some((b.subrange(0, w as int), w as int))
        } else {
            None
        },
        None => if 4 <= b.len() && be32_at(b, 0) <= b.len() - 4 {
            Some((b.subrange(4, 4 + be32_at(b, 0)), 4 + be32_at(b, 0)))
        } else {
            None
        },
    }
}

/// What the front of a byte string is, read as a header.
pub enum HeaderParse {
    /// The bytes end before the header does.
    Short,
    /// The first four bytes are another number than the magic one.
    Version(u32),
    /// A header of `len` bytes with this tag and these sizes.
    Header { ident: Seq<u8>, sizes: Sizes, len: int },
}

/// Reads the front of `b` as a header. The magic number is judged as soon as
/// its four bytes are there; everything after it must be complete.
pub open spec fn parse_header(b: Seq<u8>) -> HeaderParse {
    if b.len() < 4 {
        HeaderParse::Short
    } else if be32_at(b, 0) != BS_IDENT {
        HeaderParse::Version(be32_at(b, 0))
    } else if b.len() < 8 || b.len() - 8 < be32_at(b, 4) + 13 {
        HeaderParse::Short
    } else {
        let n = be32_at(b, 4) as int;
        HeaderParse::Header {
            ident: b.subrange(8, 8 + n),
            sizes: Sizes::decode_spec(
                b[8 + n],
                be32_at(b, 9 + n),
                be32_at(b, 13 + n),
                be32_at(b, 17 + n),
            ),
            len: 21 + n,
        }
    }
}

/// Reading `be32(x)` back at any place of a byte string gives `x`.
pub proof fn lemma_be32_at(b: Seq<u8>, at: int, x: u32)
    requires
        0 <= at,
        at + 4 <= b.len(),
        b.subrange(at, at + 4) == be32(x),
    ensures
        be32_at(b, at) == x,
{
    lemma_be32_round_trip(x, Seq::empty());
}

/// A written field is read back whole, whatever follows it.
pub proof fn lemma_take_field(width: Option<u32>, data: Seq<u8>, which: InputKind, rest: Seq<u8>)
    requires
        field_refusal(width, data, which) is None,
    ensures
        take_field(width, field_bytes(width, data) + rest) == Some(
            (data, field_bytes(width, data).len() as int),
        ),
{
    if width is None {
        let b = field_bytes(width, data) + rest;
        let n = data.len() as u32;
        assert(b.subrange(0, 4) =~= be32(n));
        lemma_be32_at(b, 0, n);
        assert(b.subrange(4, 4 + n) =~= data);
    }
}

/// A written header is read back as it was written, whatever follows it:
/// the same tag, the same sizes, and its own length.
pub proof fn lemma_parse_header(ident: Seq<u8>, sizes: Sizes, rest: Seq<u8>)
    requires
        ident.len() <= u32::MAX,
    ensures
        parse_header(header_bytes(ident, sizes) + rest) == (HeaderParse::Header {
            ident,
            sizes,
            len: header_bytes(ident, sizes).len() as int,
        }),
        header_bytes(ident, sizes).len() == 21 + ident.len(),
{
    let b = header_bytes(ident, sizes) + rest;
    let n = ident.len() as int;
    assert(b.subrange(0, 4) =~= be32(BS_IDENT));
    lemma_be32_at(b, 0, BS_IDENT);
    assert(b.subrange(4, 8) =~= be32(ident.len() as u32));
    lemma_be32_at(b, 4, ident.len() as u32);
    assert(b.subrange(8, 8 + n) =~= ident);
    assert(b.subrange(9 + n, 13 + n) =~= be32(width_or_zero(sizes.scope)));
    lemma_be32_at(b, 9 + n, width_or_zero(sizes.scope));
    assert(b.subrange(13 + n, 17 + n) =~= be32(width_or_zero(sizes.key)));
    lemma_be32_at(b, 13 + n, width_or_zero(sizes.key));
    assert(b.subrange(17 + n, 21 + n) =~= be32(width_or_zero(sizes.value)));
    lemma_be32_at(b, 17 + n, width_or_zero(sizes.value));
    sizes.lemma_decode_flag();
}

} // verus!
