//! Whole streams: what a run of writer calls leaves in the buffer, what a
//! run of reads makes of such bytes, and the laws that tie the two.

use crate::config::Sizes;
use crate::digest::{blake3_digest, HASH_LEN};
use crate::error::{ErrorView, InputKind};
use crate::format::{
    end_row_bytes, field_bytes, field_refusal, hash_row_bytes, kv_fits, kv_row_bytes,
    lemma_take_field,
};
use crate::reader::ReaderModel;
use crate::row::{KvView, RowView, TAG_HASH, TAG_KV};
use crate::writer::{lemma_write_kv_fits, WriterModel};
use vstd::prelude::*;

verus! {

/// One thing that a writer is asked to append.
pub enum Entry {
    /// A record.
    KV(KvView),
    /// A checkpoint.
    Checkpoint,
}

/// Whether every record among the entries can be written under the sizes.
pub open spec fn entries_fit(sizes: Sizes, entries: Seq<Entry>) -> bool {
    forall|i: int|
        0 <= i < entries.len() ==> (#[trigger] entries[i] matches Entry::KV(kv) ==> kv_fits(
            sizes,
            kv,
        ))
}

/// The running digest's input after one entry, given its input before.
pub open spec fn entry_hashed(entry: Entry, hashed: Seq<u8>) -> Seq<u8> {
    match entry {
        Entry::KV(kv) => hashed + kv.hashed(),
        Entry::Checkpoint => Seq::empty(),
    }
}

/// The row that one entry is written as.
pub open spec fn entry_bytes(sizes: Sizes, entry: Entry, hashed: Seq<u8>) -> Seq<u8> {
    match entry {
        Entry::KV(kv) => kv_row_bytes(sizes, kv),
        Entry::Checkpoint => hash_row_bytes(blake3_digest(hashed)@),
    }
}

/// The row that one entry is read back as.
pub open spec fn entry_row(entry: Entry, hashed: Seq<u8>) -> RowView {
    match entry {
        Entry::KV(kv) => RowView::KV(kv),
        Entry::Checkpoint => RowView::Hash(blake3_digest(hashed)@),
    }
}

/// The running digest's input after all the entries.
pub open spec fn entries_hashed(entries: Seq<Entry>, hashed: Seq<u8>) -> Seq<u8>
    decreases entries.len(),
{
    if entries.len() == 0 {
        hashed
    } else {
        entries_hashed(entries.skip(1), entry_hashed(entries[0], hashed))
    }
}

/// The rows that the entries are written as, one after another.
pub open spec fn entries_bytes(sizes: Sizes, entries: Seq<Entry>, hashed: Seq<u8>) -> Seq<u8>
    decreases entries.len(),
{
    if entries.len() == 0 {
        Seq::empty()
    } else {
        entry_bytes(sizes, entries[0], hashed) + entries_bytes(
            sizes,
            entries.skip(1),
            entry_hashed(entries[0], hashed),
        )
    }
}

/// The rows that the entries are read back as, each a success.
pub open spec fn entries_rows(entries: Seq<Entry>, hashed: Seq<u8>) -> Seq<
    Result<RowView, ErrorView>,
>
    decreases entries.len(),
{
    if entries.len() == 0 {
        Seq::empty()
    } else {
        seq![Ok(entry_row(entries[0], hashed))] + entries_rows(
            entries.skip(1),
            entry_hashed(entries[0], hashed),
        )
    }
}

/// The writer after it has been asked for each entry in turn.
pub open spec fn written(m: WriterModel, entries: Seq<Entry>) -> WriterModel
    decreases entries.len(),
{
    if entries.len() == 0 {
        m
    } else {
        let first = match entries[0] {
            Entry::KV(kv) => m.write_kv(kv).0,
            Entry::Checkpoint => m.write_hash().0,
        };
        written(first, entries.skip(1))
    }
}

/// The reader after `n` reads, and what each of them gave.
pub open spec fn read_rows(r: ReaderModel, n: nat) -> (
    ReaderModel,
    Seq<Result<RowView, ErrorView>>,
)
    decreases n,
{
    if n == 0 {
        (r, Seq::empty())
    } else {
        let first = r.read_row();
        let others = read_rows(first.0, (n - 1) as nat);
        (others.0, seq![first.1] + others.1)
    }
}

/// Whether a reader's position lies within its input.
pub open spec fn in_bounds(r: ReaderModel) -> bool {
    0 <= r.pos <= r.input.len()
}

/// Entries that fit still fit without the first of them.
proof fn lemma_fit_skip(sizes: Sizes, entries: Seq<Entry>)
    requires
        entries.len() > 0,
        entries_fit(sizes, entries),
    ensures
        entries_fit(sizes, entries.skip(1)),
{
    let others = entries.skip(1);
    assert forall|i: int| 0 <= i < others.len() implies (#[trigger] others[i] matches Entry::KV(
        kv,
    ) ==> kv_fits(sizes, kv)) by {
        assert(others[i] == entries[i + 1]);
    }
}

/// A run of writer calls on an open writer, with records that fit, appends
/// exactly the rows of the entries and leaves the digest where they end.
pub proof fn lemma_written(m: WriterModel, entries: Seq<Entry>)
    requires
        !m.closed,
        entries_fit(m.config.sizes, entries),
    ensures
        written(m, entries) == (WriterModel {
            out: m.out + entries_bytes(m.config.sizes, entries, m.hashed),
            hashed: entries_hashed(entries, m.hashed),
            ..m
        }),
    decreases entries.len(),
{
    if entries.len() > 0 {
        let first = match entries[0] {
            Entry::KV(kv) => {
                lemma_write_kv_fits(m, kv);
                m.write_kv(kv).0
            },
            Entry::Checkpoint => m.write_hash().0,
        };
        let others = entries.skip(1);
        lemma_fit_skip(m.config.sizes, entries);
        lemma_written(first, others);
        assert(first.out + entries_bytes(m.config.sizes, others, first.hashed) =~= m.out
            + entries_bytes(m.config.sizes, entries, m.hashed));
    }
}

/// What follows a prefix of the unread bytes is what is unread once the
/// prefix has been consumed.
proof fn lemma_rest_after(r: ReaderModel, front: Seq<u8>, tail: Seq<u8>)
    requires
        in_bounds(r),
        r.rest() == front + tail,
    ensures
        in_bounds(r.advanced(front.len() as int)),
        r.advanced(front.len() as int).rest() == tail,
{
    assert((front + tail).subrange(front.len() as int, (front + tail).len() as int) =~= tail);
}

/// A field that was written is read back: the reader moves behind it and
/// the field goes into the digest.
proof fn lemma_get_field(
    r: ReaderModel,
    width: Option<u32>,
    data: Seq<u8>,
    which: InputKind,
    tail: Seq<u8>,
)
    requires
        in_bounds(r),
        field_refusal(width, data, which) is None,
        r.rest() == field_bytes(width, data) + tail,
    ensures
        r.get_field(width) == (
            r.advanced(field_bytes(width, data).len() as int).absorb(data),
            Some(data),
        ),
        in_bounds(r.get_field(width).0),
        r.get_field(width).0.rest() == tail,
{
    lemma_take_field(width, data, which, tail);
    lemma_rest_after(r, field_bytes(width, data), tail);
}

/// A key/value row that was written is read back as the same record.
pub proof fn lemma_read_kv_row(r: ReaderModel, kv: KvView, tail: Seq<u8>)
    requires
        in_bounds(r),
        kv_fits(r.config.sizes, kv),
        r.rest() == kv_row_bytes(r.config.sizes, kv) + tail,
    ensures
        r.read_row() == (
            r.advanced(kv_row_bytes(r.config.sizes, kv).len() as int).absorb(kv.hashed()).mark(
                false,
            ),
            Ok::<RowView, ErrorView>(RowView::KV(kv)),
        ),
        in_bounds(r.read_row().0),
        r.read_row().0.rest() == tail,
{
    let sizes = r.config.sizes;
    let scope = field_bytes(sizes.scope, kv.scope);
    let key = field_bytes(sizes.key, kv.key);
    let value = field_bytes(sizes.value, kv.value);
    assert(r.rest() =~= seq![TAG_KV] + (scope + (key + (value + tail))));
    lemma_rest_after(r, seq![TAG_KV], scope + (key + (value + tail)));
    let r0 = r.advanced(1);
    lemma_get_field(r0, sizes.scope, kv.scope, InputKind::Scope, key + (value + tail));
    let r1 = r0.get_field(sizes.scope).0;
    lemma_get_field(r1, sizes.key, kv.key, InputKind::Key, value + tail);
    let r2 = r1.get_field(sizes.key).0;
    lemma_get_field(r2, sizes.value, kv.value, InputKind::Value, tail);
    let r3 = r2.get_field(sizes.value).0;
    assert(r3.hashed =~= r.hashed + kv.hashed());
}

/// A checkpoint row is read against the running digest: a digest that
/// agrees is handed on and the running digest starts again; any other is
/// reported with both digests, and the running digest goes on.
pub proof fn lemma_read_hash_row(r: ReaderModel, digest: Seq<u8>, tail: Seq<u8>)
    requires
        in_bounds(r),
        digest.len() == HASH_LEN,
        r.rest() == hash_row_bytes(digest) + tail,
    ensures
        digest == blake3_digest(r.hashed)@ ==> r.read_row() == (
            ReaderModel {
                pos: r.pos + 1 + HASH_LEN,
                hashed: Seq::empty(),
                stopped: false,
                ..r
            },
            Ok::<RowView, ErrorView>(RowView::Hash(digest)),
        ),
        digest != blake3_digest(r.hashed)@ ==> r.read_row() == (
            ReaderModel { pos: r.pos + 1 + HASH_LEN, stopped: true, ..r },
            Err::<RowView, ErrorView>(
                ErrorView::Hash { existing: digest, calculated: blake3_digest(r.hashed)@ },
            ),
        ),
        in_bounds(r.read_row().0),
        r.read_row().0.rest() == tail,
{
    assert(r.rest() =~= seq![TAG_HASH] + (digest + tail));
    lemma_rest_after(r, seq![TAG_HASH], digest + tail);
    let r0 = r.advanced(1);
    assert(r0.rest().subrange(0, HASH_LEN as int) =~= digest);
    lemma_rest_after(r0, digest, tail);
}

/// The end row is read as the end, and stops the walk.
pub proof fn lemma_read_end_row(r: ReaderModel, tail: Seq<u8>)
    requires
        in_bounds(r),
        r.rest() == end_row_bytes() + tail,
    ensures
        r.read_row() == (r.advanced(1).mark(true), Ok::<RowView, ErrorView>(RowView::End)),
        in_bounds(r.read_row().0),
        r.read_row().0.rest() == tail,
{
    lemma_rest_after(r, end_row_bytes(), tail);
}

/// Reading `a + b` rows is reading `a` rows and then `b` more.
pub proof fn lemma_read_rows_split(r: ReaderModel, a: nat, b: nat)
    ensures
        read_rows(r, a + b) == (
            read_rows(read_rows(r, a).0, b).0,
            read_rows(r, a).1 + read_rows(read_rows(r, a).0, b).1,
        ),
    decreases a,
{
    if a > 0 {
        lemma_read_rows_split(r.read_row().0, (a - 1) as nat, b);
    }
}

/// Rows that were written are read back as they were written.
///
/// Where the unread bytes start with the rows of some entries, written from
/// the reader's own digest state, one read for each entry gives the
/// entries' rows, all of them successes, and leaves the reader behind them.
pub proof fn lemma_read_entries(r: ReaderModel, entries: Seq<Entry>, tail: Seq<u8>)
    requires
        in_bounds(r),
        entries_fit(r.config.sizes, entries),
        r.rest() == entries_bytes(r.config.sizes, entries, r.hashed) + tail,
    ensures
        read_rows(r, entries.len()).1 == entries_rows(entries, r.hashed),
        read_rows(r, entries.len()).0 == (ReaderModel {
            pos: r.pos + entries_bytes(r.config.sizes, entries, r.hashed).len(),
            hashed: entries_hashed(entries, r.hashed),
            stopped: if entries.len() == 0 {
                r.stopped
            } else {
                false
            },
            ..r
        }),
        in_bounds(read_rows(r, entries.len()).0),
        read_rows(r, entries.len()).0.rest() == tail,
    decreases entries.len(),
{
    let sizes = r.config.sizes;
    if entries.len() > 0 {
        let others = entries.skip(1);
        let row = entry_bytes(sizes, entries[0], r.hashed);
        let more = entries_bytes(sizes, others, entry_hashed(entries[0], r.hashed));
        assert(r.rest() =~= row + (more + tail));
        match entries[0] {
            Entry::KV(kv) => {
                lemma_read_kv_row(r, kv, more + tail);
            },
            Entry::Checkpoint => {
                lemma_read_hash_row(r, blake3_digest(r.hashed)@, more + tail);
            },
        }
        lemma_fit_skip(sizes, entries);
        lemma_read_entries(r.read_row().0, others, tail);
    }
}

/// Whatever a writer is asked for, it only appends: the bytes that it held
/// stay where they are. So the header, which a new writer holds from the
/// start, stays in front of every row.
pub proof fn lemma_written_extends(m: WriterModel, entries: Seq<Entry>)
    ensures
        written(m, entries).out.len() >= m.out.len(),
        written(m, entries).out.subrange(0, m.out.len() as int) == m.out,
        written(m, entries).config == m.config,
    decreases entries.len(),
{
    if entries.len() > 0 {
        let first = match entries[0] {
            Entry::KV(kv) => m.write_kv(kv).0,
            Entry::Checkpoint => m.write_hash().0,
        };
        lemma_written_extends(first, entries.skip(1));
    }
}

/// The rows of `a` followed by `b` are the rows of `a`, then the rows of `b`
/// written and read from where `a` leaves the digest.
pub proof fn lemma_entries_append(sizes: Sizes, a: Seq<Entry>, b: Seq<Entry>, hashed: Seq<u8>)
    ensures
        entries_hashed(a + b, hashed) == entries_hashed(b, entries_hashed(a, hashed)),
        entries_bytes(sizes, a + b, hashed) == entries_bytes(sizes, a, hashed) + entries_bytes(
            sizes,
            b,
            entries_hashed(a, hashed),
        ),
        entries_rows(a + b, hashed) == entries_rows(a, hashed) + entries_rows(
            b,
            entries_hashed(a, hashed),
        ),
    decreases a.len(),
{
    if a.len() > 0 {
        assert((a + b).skip(1) =~= a.skip(1) + b);
        lemma_entries_append(sizes, a.skip(1), b, entry_hashed(a[0], hashed));
    }
}

} // verus!
