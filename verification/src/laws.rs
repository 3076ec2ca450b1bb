//! What holds of every dump and of every run of the writer and the actor.

use crate::actor::{Barrier, ContextModel, RequestView};
use crate::config::{ConfigView, Sizes};
use crate::digest::{blake3_digest, HASH_LEN};
use crate::error::{ErrorView, InputKind};
use crate::format::{
    end_row_bytes, field_bytes, field_refusal, hash_row_bytes, header_bytes, kv_fits,
    kv_row_bytes, lemma_parse_header,
};
use crate::reader::ReaderModel;
use crate::row::{KvView, RowView, TAG_KV};
use crate::stream::{
    entries_bytes, entries_fit, entries_hashed, entries_rows, entry_hashed, in_bounds,
    lemma_entries_append, lemma_read_end_row, lemma_read_entries, lemma_read_hash_row,
    lemma_read_rows_split, lemma_written, read_rows, written, Entry,
};
use crate::writer::{lemma_write_kv_fits, WriterModel};
use vstd::prelude::*;

verus! {

/// Two reads in a row.
proof fn lemma_read_two(r: ReaderModel)
    ensures
        read_rows(r, 2) == (
            r.read_row().0.read_row().0,
            seq![r.read_row().1, r.read_row().0.read_row().1],
        ),
{
    reveal_with_fuel(read_rows, 3);
}

/// One read.
proof fn lemma_read_one(r: ReaderModel)
    ensures
        read_rows(r, 1) == (r.read_row().0, seq![r.read_row().1]),
{
    reveal_with_fuel(read_rows, 2);
}

/// What a new writer has appended once it was asked for the entries and
/// closed: the header, the entries' rows, the checkpoint over the records
/// since the last one, and the end row.
pub proof fn lemma_closed_stream(config: ConfigView, entries: Seq<Entry>)
    requires
        config.ident.len() <= u32::MAX,
        entries_fit(config.sizes, entries),
    ensures
        WriterModel::init(Seq::empty(), config) is Ok,
        written(WriterModel::init(Seq::empty(), config)->Ok_0, entries).close().0.out
            == header_bytes(config.ident, config.sizes) + (entries_bytes(
            config.sizes,
            entries,
            Seq::empty(),
        ) + (hash_row_bytes(blake3_digest(entries_hashed(entries, Seq::empty()))@)
            + end_row_bytes())),
{
    let opened = WriterModel::init(Seq::empty(), config)->Ok_0;
    lemma_written(opened, entries);
    lemma_close_ends_stream(written(opened, entries));
}

/// A reader that stands before the rows of some entries, the checkpoint
/// over them and the end row reads them all, and then nothing is left.
pub proof fn lemma_read_to_end(r: ReaderModel, entries: Seq<Entry>)
    requires
        in_bounds(r),
        entries_fit(r.config.sizes, entries),
        r.rest() == entries_bytes(r.config.sizes, entries, r.hashed) + (hash_row_bytes(
            blake3_digest(entries_hashed(entries, r.hashed))@,
        ) + end_row_bytes()),
    ensures
        read_rows(r, entries.len() + 2).1 == entries_rows(entries, r.hashed) + seq![
            Ok(RowView::Hash(blake3_digest(entries_hashed(entries, r.hashed))@)),
            Ok(RowView::End),
        ],
        read_rows(r, entries.len() + 2).0.pos == r.input.len(),
        read_rows(r, entries.len() + 2).0.stopped,
{
    let last = blake3_digest(entries_hashed(entries, r.hashed))@;
    lemma_read_entries(r, entries, hash_row_bytes(last) + end_row_bytes());
    let r1 = read_rows(r, entries.len()).0;
    lemma_read_hash_row(r1, last, end_row_bytes());
    lemma_read_end_row(r1.read_row().0, Seq::empty());
    lemma_read_rows_split(r, entries.len(), 2);
    lemma_read_two(r1);
}

/// Round trip. Whatever records and checkpoints a new writer is asked for,
/// once it is closed a new reader of its bytes finds the same schema, then
/// reads the same rows in the same order, then the checkpoint that closing
/// wrote, then the end row, and has then consumed every byte.
pub proof fn lemma_round_trip(config: ConfigView, entries: Seq<Entry>)
    requires
        config.ident.len() <= u32::MAX,
        entries_fit(config.sizes, entries),
    ensures
        ({
            let opened = WriterModel::init(Seq::empty(), config);
            let closed = written(opened->Ok_0, entries).close().0;
            let reader = ReaderModel::init(closed.out);
            let read = read_rows(reader->Ok_0, entries.len() + 2);
            &&& opened is Ok
            &&& reader is Ok
            &&& reader->Ok_0.config == config
            &&& read.1 == entries_rows(entries, Seq::empty()) + seq![
                Ok(RowView::Hash(blake3_digest(entries_hashed(entries, Seq::empty()))@)),
                Ok(RowView::End),
            ]
            &&& read.0.pos == closed.out.len()
            &&& read.0.stopped
        }),
{
    let nothing = Seq::<u8>::empty();
    let body = entries_bytes(config.sizes, entries, nothing) + (hash_row_bytes(
        blake3_digest(entries_hashed(entries, nothing))@,
    ) + end_row_bytes());
    lemma_closed_stream(config, entries);
    let out = written(WriterModel::init(nothing, config)->Ok_0, entries).close().0.out;
    lemma_parse_header(config.ident, config.sizes, body);
    let reader = ReaderModel::init(out)->Ok_0;
    assert(reader.rest() =~= body);
    lemma_read_to_end(reader, entries);
}

/// A checkpoint that carries another digest than the rows before it give is
/// never accepted: the rows before it are read as they are, and the read of
/// the checkpoint fails with the digest it carries and the digest of what
/// was read.
pub proof fn lemma_checkpoint_mismatch(
    r: ReaderModel,
    entries: Seq<Entry>,
    claimed: Seq<u8>,
    tail: Seq<u8>,
)
    requires
        in_bounds(r),
        entries_fit(r.config.sizes, entries),
        claimed.len() == HASH_LEN,
        r.rest() == entries_bytes(r.config.sizes, entries, r.hashed) + (hash_row_bytes(claimed)
            + tail),
        claimed != blake3_digest(entries_hashed(entries, r.hashed))@,
    ensures
        read_rows(r, entries.len() + 1).1 == entries_rows(entries, r.hashed) + seq![
            Err(
                ErrorView::Hash {
                    existing: claimed,
                    calculated: blake3_digest(entries_hashed(entries, r.hashed))@,
                },
            ),
        ],
        read_rows(r, entries.len() + 1).0.stopped,
{
    lemma_read_entries(r, entries, hash_row_bytes(claimed) + tail);
    let r1 = read_rows(r, entries.len()).0;
    lemma_read_hash_row(r1, claimed, tail);
    lemma_read_rows_split(r, entries.len(), 1);
    lemma_read_one(r1);
}

/// The record with one byte of its value replaced.
pub open spec fn with_value_byte(kv: KvView, at: int, byte: u8) -> KvView {
    KvView { value: kv.value.update(at, byte), ..kv }
}

/// Where in its row the value of a record starts.
pub open spec fn value_offset(sizes: Sizes, kv: KvView) -> int {
    1 + field_bytes(sizes.scope, kv.scope).len() + field_bytes(sizes.key, kv.key).len() + (
    if sizes.value is Some {
        0int
    } else {
        4int
    })
}

/// Whether every entry is a record.
pub open spec fn all_records(entries: Seq<Entry>) -> bool {
    forall|i: int| 0 <= i < entries.len() ==> #[trigger] entries[i] is KV
}

/// Replacing a byte of a record's value replaces that one byte of its row
/// and nothing else: the row keeps its length and its framing.
pub proof fn lemma_flipped_row(sizes: Sizes, kv: KvView, at: int, byte: u8)
    requires
        kv_fits(sizes, kv),
        0 <= at < kv.value.len(),
    ensures
        kv_fits(sizes, with_value_byte(kv, at, byte)),
        0 <= value_offset(sizes, kv) + at < kv_row_bytes(sizes, kv).len(),
        kv_row_bytes(sizes, with_value_byte(kv, at, byte)) == kv_row_bytes(sizes, kv).update(
            value_offset(sizes, kv) + at,
            byte,
        ),
{
}

/// The rows of records do not depend on the digest state they are written
/// from.
proof fn lemma_records_bytes(sizes: Sizes, entries: Seq<Entry>, h1: Seq<u8>, h2: Seq<u8>)
    requires
        all_records(entries),
    ensures
        entries_bytes(sizes, entries, h1) == entries_bytes(sizes, entries, h2),
    decreases entries.len(),
{
    if entries.len() > 0 {
        let others = entries.skip(1);
        lemma_records_bytes(
            sizes,
            others,
            entry_hashed(entries[0], h1),
            entry_hashed(entries[0], h2),
        );
    }
}

/// Entries that each fit, put one after another, fit.
proof fn lemma_fit_append(sizes: Sizes, a: Seq<Entry>, b: Seq<Entry>)
    requires
        entries_fit(sizes, a),
        entries_fit(sizes, b),
    ensures
        entries_fit(sizes, a + b),
{
}

/// The rows of one record are its row.
proof fn lemma_single_record(sizes: Sizes, kv: KvView, hashed: Seq<u8>)
    ensures
        entries_bytes(sizes, seq![Entry::KV(kv)], hashed) == kv_row_bytes(sizes, kv),
{
    reveal_with_fuel(entries_bytes, 2);
}

/// The rows of one checkpoint are its row.
proof fn lemma_single_checkpoint(sizes: Sizes, hashed: Seq<u8>)
    ensures
        entries_bytes(sizes, seq![Entry::Checkpoint], hashed) == hash_row_bytes(
            blake3_digest(hashed)@,
        ),
{
    reveal_with_fuel(entries_bytes, 2);
}

/// The rows of some entries, a record and further records, in pieces. The
/// last piece is the same whatever the record is.
proof fn lemma_pieces(sizes: Sizes, before: Seq<Entry>, kv: KvView, after: Seq<Entry>, h0: Seq<u8>)
    requires
        all_records(after),
    ensures
        entries_bytes(sizes, before + seq![Entry::KV(kv)] + after, h0) == entries_bytes(
            sizes,
            before,
            h0,
        ) + (kv_row_bytes(sizes, kv) + entries_bytes(sizes, after, Seq::empty())),
{
    let one = seq![Entry::KV(kv)];
    lemma_entries_append(sizes, before + one, after, h0);
    lemma_entries_append(sizes, before, one, h0);
    lemma_single_record(sizes, kv, entries_hashed(before, h0));
    lemma_records_bytes(sizes, after, entries_hashed(before + one, h0), Seq::empty());
}

/// Replacing one byte in the middle piece of a byte string.
proof fn lemma_update_middle(head: Seq<u8>, row: Seq<u8>, rest: Seq<u8>, at: int, byte: u8)
    requires
        0 <= at < row.len(),
    ensures
        (head + (row + rest)).update(head.len() + at, byte) == head + (row.update(at, byte)
            + rest),
{
}

/// Tamper detection. Take the rows of any entries, then a record, then any
/// further records, then the checkpoint over them, and replace one byte of
/// that record's value by another. A reader of the changed bytes reads every
/// row before the checkpoint, the changed record with its changed value, and
/// then fails at the checkpoint with a digest mismatch; it never accepts
/// it. This holds wherever BLAKE3 tells the changed bytes from the written
/// ones, as it does unless the two collide.
pub proof fn lemma_tamper_detected(
    r: ReaderModel,
    before: Seq<Entry>,
    kv: KvView,
    after: Seq<Entry>,
    at: int,
    byte: u8,
    tail: Seq<u8>,
)
    requires
        in_bounds(r),
        entries_fit(r.config.sizes, before),
        kv_fits(r.config.sizes, kv),
        entries_fit(r.config.sizes, after),
        all_records(after),
        0 <= at < kv.value.len(),
        byte != kv.value[at],
        r.rest() == (entries_bytes(
            r.config.sizes,
            before + seq![Entry::KV(kv)] + after + seq![Entry::Checkpoint],
            r.hashed,
        ) + tail).update(
            entries_bytes(r.config.sizes, before, r.hashed).len() + value_offset(
                r.config.sizes,
                kv,
            ) + at,
            byte,
        ),
        blake3_digest(entries_hashed(before + seq![Entry::KV(kv)] + after, r.hashed))
            != blake3_digest(
            entries_hashed(
                before + seq![Entry::KV(with_value_byte(kv, at, byte))] + after,
                r.hashed,
            ),
        ),
    ensures
        ({
            let written = before + seq![Entry::KV(kv)] + after;
            let changed = before + seq![Entry::KV(with_value_byte(kv, at, byte))] + after;
            read_rows(r, changed.len() + 1).1 == entries_rows(changed, r.hashed) + seq![
                Err(
                    ErrorView::Hash {
                        existing: blake3_digest(entries_hashed(written, r.hashed))@,
                        calculated: blake3_digest(entries_hashed(changed, r.hashed))@,
                    },
                ),
            ]
        }),
{
    let sizes = r.config.sizes;
    let h0 = r.hashed;
    let flipped = with_value_byte(kv, at, byte);
    let written = before + seq![Entry::KV(kv)] + after;
    let changed = before + seq![Entry::KV(flipped)] + after;
    let claimed = blake3_digest(entries_hashed(written, h0))@;
    let head = entries_bytes(sizes, before, h0);
    let row = kv_row_bytes(sizes, kv);
    let more = entries_bytes(sizes, after, Seq::empty());
    let end = hash_row_bytes(claimed) + tail;
    let place = value_offset(sizes, kv) + at;

    lemma_flipped_row(sizes, kv, at, byte);
    lemma_pieces(sizes, before, kv, after, h0);
    lemma_pieces(sizes, before, flipped, after, h0);
    lemma_entries_append(sizes, written, seq![Entry::Checkpoint], h0);
    lemma_single_checkpoint(sizes, entries_hashed(written, h0));
    // The written bytes are head, row, more, end; the changed ones differ in
    // the row alone, and so are the rows of the changed entries, then end.
    lemma_update_middle(head, row, more + end, place, byte);
    assert(r.rest() == entries_bytes(sizes, changed, h0) + end);
    lemma_fit_append(sizes, before, seq![Entry::KV(flipped)]);
    lemma_fit_append(sizes, before + seq![Entry::KV(flipped)], after);
    // Digests that differ as arrays differ as sequences of bytes.
    assert(claimed != blake3_digest(entries_hashed(changed, h0))@) by {
        let a = blake3_digest(entries_hashed(written, h0));
        let b = blake3_digest(entries_hashed(changed, h0));
        if a@ == b@ {
            assert(a == b);
        }
    }
    lemma_checkpoint_mismatch(r, changed, claimed, tail);
}

/// Fixed-width enforcement. A record whose key has another length than the
/// schema fixes is refused with both lengths and the name of the field. By
/// then its tag and its scope are in the stream and the scope is in the
/// digest; nothing of its key or of its value is.
pub proof fn lemma_key_width_enforced(m: WriterModel, kv: KvView)
    requires
        !m.closed,
        field_refusal(m.config.sizes.scope, kv.scope, InputKind::Scope) is None,
        m.config.sizes.key is Some,
        kv.key.len() <= u32::MAX,
        kv.key.len() != m.config.sizes.key->0,
    ensures
        m.write_kv(kv) == (
            m.emit(seq![TAG_KV] + field_bytes(m.config.sizes.scope, kv.scope)).absorb(kv.scope),
            Err::<(), ErrorView>(
                ErrorView::InputLength {
                    config_len: m.config.sizes.key->0,
                    input_len: kv.key.len() as u32,
                    which: InputKind::Key,
                },
            ),
        ),
{
    assert(m.write_kv(kv).0.out =~= m.out + (seq![TAG_KV] + field_bytes(
        m.config.sizes.scope,
        kv.scope,
    )));
}

/// Reading never goes back and never leaves the input: whatever the bytes
/// are, a read keeps the schema and the input, leaves the position within
/// the input and at or behind where it was, and a read that gives a row has
/// consumed at least its tag.
pub proof fn lemma_read_advances(r: ReaderModel)
    requires
        in_bounds(r),
    ensures
        ({
            let (after, row) = r.read_row();
            &&& after.config == r.config
            &&& after.input == r.input
            &&& in_bounds(after)
            &&& r.pos <= after.pos
            &&& row is Ok ==> r.pos < after.pos
        }),
{
}

/// The walk over the rows ends at the end row and after a failure: once
/// `next` has given nothing, or a failure, every further `next` gives
/// nothing and leaves the reader as it is.
pub proof fn lemma_walk_stops(r: ReaderModel)
    ensures
        ({
            let (after, row) = r.next();
            (row is None || row->0 is Err) ==> after.stopped && after.next() == (
                after,
                None::<Result<RowView, ErrorView>>,
            )
        }),
{
}

/// Idempotent close. Closing a closed writer succeeds and changes nothing,
/// so a second close appends no checkpoint and no end row.
pub proof fn lemma_close_twice(m: WriterModel)
    ensures
        m.close().0.closed,
        m.close().1 == Ok::<(), ErrorView>(()),
        m.close().0.close() == (m.close().0, Ok::<(), ErrorView>(())),
{
}

/// A closed writer refuses every record and every checkpoint with `Closed`
/// and is left exactly as it was.
pub proof fn lemma_closed_refuses(m: WriterModel, kv: KvView)
    requires
        m.closed,
    ensures
        m.write_kv(kv) == (m, Err::<(), ErrorView>(ErrorView::Closed)),
        m.write_hash() == (m, Err::<Seq<u8>, ErrorView>(ErrorView::Closed)),
{
}

/// What a closing writer appends ends the stream: the checkpoint over the
/// records since the last one, then the end row, and nothing after it.
pub proof fn lemma_close_ends_stream(m: WriterModel)
    requires
        !m.closed,
    ensures
        m.close().0.out == m.out + hash_row_bytes(blake3_digest(m.hashed)@) + end_row_bytes(),
{
}

/// Handing the buffer out changes nothing but the buffer. Whatever is asked
/// of the writer afterwards has the same outcome, appends the same bytes and
/// leaves the digest and the closed state the same as if the buffer had
/// been left alone; so the pieces handed out, put together, are the dump.
pub proof fn lemma_taken_then(m: WriterModel, kv: KvView)
    ensures
        m.taken().write_kv(kv).1 == m.write_kv(kv).1,
        m.taken().write_kv(kv).0 == (WriterModel {
            out: m.write_kv(kv).0.out.skip(m.out.len() as int),
            ..m.write_kv(kv).0
        }),
        m.taken().write_hash().1 == m.write_hash().1,
        m.taken().write_hash().0 == (WriterModel {
            out: m.write_hash().0.out.skip(m.out.len() as int),
            ..m.write_hash().0
        }),
        m.taken().close().1 == m.close().1,
        m.taken().close().0 == (WriterModel {
            out: m.close().0.out.skip(m.out.len() as int),
            ..m.close().0
        }),
{
    assert(m.taken().write_kv(kv).0.out =~= m.write_kv(kv).0.out.skip(m.out.len() as int));
    assert(m.taken().write_hash().0.out =~= m.write_hash().0.out.skip(m.out.len() as int));
    assert(m.taken().close().0.out =~= m.close().0.out.skip(m.out.len() as int));
}

/// No request takes back or changes what an earlier one appended: the bytes
/// after any request start with the bytes before it.
pub proof fn lemma_exec_appends(c: ContextModel, req: RequestView)
    ensures
        c.exec(req).0.writer.out.len() >= c.writer.out.len(),
        c.exec(req).0.writer.out.subrange(0, c.writer.out.len() as int) == c.writer.out,
{
}

/// Order of service. Two records served one after the other stand in the
/// dump in that order, each as one unbroken row, the second right behind
/// the first; and both requests succeed.
pub proof fn lemma_served_in_order(c: ContextModel, a: KvView, b: KvView)
    requires
        !c.writer.closed,
        kv_fits(c.writer.config.sizes, a),
        kv_fits(c.writer.config.sizes, b),
    ensures
        ({
            let first = c.exec(RequestView::KV(a));
            let second = first.0.exec(RequestView::KV(b));
            &&& first.1 is Ok
            &&& second.1 is Ok
            &&& second.0.writer.out == c.writer.out + kv_row_bytes(c.writer.config.sizes, a)
                + kv_row_bytes(c.writer.config.sizes, b)
        }),
{
    lemma_write_kv_fits(c.writer, a);
    lemma_write_kv_fits(c.exec(RequestView::KV(a)).0.writer, b);
}

/// The periodic sync. A record that is written is counted, and the barrier
/// is owed exactly when the count has reached the interval; a record that
/// is refused is not counted.
pub proof fn lemma_interval(c: ContextModel, kv: KvView)
    ensures
        ({
            let (after, r) = c.exec(RequestView::KV(kv));
            &&& r is Err ==> after.non_synced == c.non_synced
            &&& r is Ok ==> (r->Ok_0 == Barrier::Interval <==> after.non_synced
                >= c.sync_interval) && (r->Ok_0 == Barrier::Nothing <==> after.non_synced
                < c.sync_interval)
            &&& r is Ok && c.non_synced < u16::MAX ==> after.non_synced == c.non_synced + 1
        }),
{
}

} // verus!
