//! The reader: it walks the bytes of a dump row by row, and checks every
//! checkpoint against the records that it has read.

use crate::config::{ConfigView, RtConfig, Sizes};
use crate::digest::{
    blake3_digest, hasher_finalize, hasher_input, hasher_new, hasher_regular, hasher_reset,
    hasher_update, HASH_LEN,
};
use crate::error::{result_view, Error, ErrorView};
use crate::format::{parse_header, take_field, HeaderParse, BS_IDENT};
use crate::row::{KvView, Row, RowType, RowView, KV, TAG_END, TAG_HASH, TAG_KV};
use crate::source::Source;
use vstd::prelude::*;

verus! {

/// A reader as plain values.
pub struct ReaderModel {
    /// The schema that the header gave.
    pub config: ConfigView,
    /// All the bytes of the dump.
    pub input: Seq<u8>,
    /// How many of them have been consumed.
    pub pos: int,
    /// The bytes of the records read since the last checkpoint.
    pub hashed: Seq<u8>,
    /// Whether the last read met the end row or failed.
    pub stopped: bool,
}

impl ReaderModel {
    /// The bytes not yet consumed.
    pub open spec fn rest(self) -> Seq<u8> {
        self.input.subrange(self.pos, self.input.len() as int)
    }

    /// The reader after `n` more bytes have been consumed.
    pub open spec fn advanced(self, n: int) -> ReaderModel {
        ReaderModel { pos: self.pos + n, ..self }
    }

    /// The reader after the input ran out: everything is consumed.
    pub open spec fn drained(self) -> ReaderModel {
        ReaderModel { pos: self.input.len() as int, ..self }
    }

    /// The reader after `data` has gone into the running digest.
    pub open spec fn absorb(self, data: Seq<u8>) -> ReaderModel {
        ReaderModel { hashed: self.hashed + data, ..self }
    }

    /// The reader with its stop mark set to `stopped`.
    pub open spec fn mark(self, stopped: bool) -> ReaderModel {
        ReaderModel { stopped, ..self }
    }

    /// A new reader on `input`: the header is consumed at once. Input that
    /// ends inside the header fails as I/O; another magic number is refused
    /// with `Version`.
    pub open spec fn init(input: Seq<u8>) -> Result<ReaderModel, ErrorView> {
        match parse_header(input) {
            HeaderParse::Short => Err(ErrorView::Io),
            HeaderParse::Version(existing) => Err(ErrorView::Version { existing }),
            HeaderParse::Header { ident, sizes, len } => Ok(
                ReaderModel {
                    config: ConfigView { ident, sizes },
                    input,
                    pos: len,
                    hashed: Seq::empty(),
                    stopped: false,
                },
            ),
        }
    }

    /// Reading one field: its bytes are consumed and go into the digest.
    /// Where the input ends before the field does, all of it is consumed.
    pub open spec fn get_field(self, width: Option<u32>) -> (ReaderModel, Option<Seq<u8>>) {
        match take_field(width, self.rest()) {
            Some((data, n)) => (self.advanced(n).absorb(data), Some(data)),
            None => (self.drained(), None),
        }
    }

    /// Reading the fields of a key/value row, after its tag.
    pub open spec fn read_kv(self) -> (ReaderModel, Result<RowView, ErrorView>) {
        let scope = self.get_field(self.config.sizes.scope);
        if scope.1 is None {
            (scope.0, Err(ErrorView::Io))
        } else {
            let key = scope.0.get_field(self.config.sizes.key);
            if key.1 is None {
                (key.0, Err(ErrorView::Io))
            } else {
                let value = key.0.get_field(self.config.sizes.value);
                if value.1 is None {
                    (value.0, Err(ErrorView::Io))
                } else {
                    (
                        value.0,
                        Ok(
                            RowView::KV(
                                KvView {
                                    scope: scope.1->0,
                                    key: key.1->0,
                                    value: value.1->0,
                                },
                            ),
                        ),
                    )
                }
            }
        }
    }

    /// Reading the digest of a checkpoint row, after its tag. The digest is
    /// held against that of the records read since the last checkpoint: if
    /// they agree the running digest starts again from nothing, else the
    /// read fails with both digests and the running digest goes on.
    pub open spec fn read_hash(self) -> (ReaderModel, Result<RowView, ErrorView>) {
        if self.rest().len() < HASH_LEN {
            (self.drained(), Err(ErrorView::Io))
        } else {
            let existing = self.rest().subrange(0, HASH_LEN as int);
            let calculated = blake3_digest(self.hashed)@;
            let after = self.advanced(HASH_LEN as int);
            if existing == calculated {
                (ReaderModel { hashed: Seq::empty(), ..after }, Ok(RowView::Hash(calculated)))
            } else {
                (after, Err(ErrorView::Hash { existing, calculated }))
            }
        }
    }

    /// Reading one row, whatever the stop mark says: the tag, then what the
    /// tag announces. Any tag but 0, 1 and 2 is refused with `RowType`, the
    /// tag consumed. Input that ends inside the row fails as I/O, all of it
    /// consumed.
    pub open spec fn read_once(self) -> (ReaderModel, Result<RowView, ErrorView>) {
        if self.rest().len() == 0 {
            (self, Err(ErrorView::Io))
        } else {
            let tag = self.rest()[0];
            let tagged = self.advanced(1);
            if tag == TAG_KV {
                tagged.read_kv()
            } else if tag == TAG_HASH {
                tagged.read_hash()
            } else if tag == TAG_END {
                (tagged, Ok(RowView::End))
            } else {
                (tagged, Err(ErrorView::RowType(tag)))
            }
        }
    }

    /// Reading one row and keeping the stop mark: it is set by the end row
    /// and by a failure, and cleared by a record or a checkpoint.
    pub open spec fn read_row(self) -> (ReaderModel, Result<RowView, ErrorView>) {
        let (after, row) = self.read_once();
        (after.mark(!(row matches Ok(r) && r !is End)), row)
    }

    /// One step of walking the rows. A stopped reader gives nothing and
    /// stays as it is. Else one row is read: the end row gives nothing, a
    /// record or a checkpoint is handed on, and so is a failure, once.
    pub open spec fn next(self) -> (ReaderModel, Option<Result<RowView, ErrorView>>) {
        if self.stopped {
            (self, None)
        } else {
            let (after, row) = self.read_row();
            if row == Ok::<RowView, ErrorView>(RowView::End) {
                (after, None)
            } else {
                (after, Some(row))
            }
        }
    }
}

/// A reader of one dump, held in memory as a whole.
pub struct Reader {
    inner: Source,
    config: RtConfig,
    hasher: blake3::Hasher,
    stopped: bool,
}

/// Whether two digests hold the same bytes.
fn same_digest(a: &crate::digest::Hash, b: &crate::digest::Hash) -> (same: bool)
    ensures
        same == (a@ == b@),
{
    let mut i: usize = 0;
    while i < HASH_LEN
        invariant
            i <= HASH_LEN,
            forall|j: int| 0 <= j < i ==> a@[j] == b@[j],
        decreases HASH_LEN - i,
    {
        if a[i] != b[i] {
            return false;
        }
        i = i + 1;
    }
    assert(a@ =~= b@);
    true
}

/// Reads one field of a row from `inner` and feeds it to `hasher`.
fn read_field(inner: &mut Source, hasher: &mut blake3::Hasher, width: Option<u32>) -> (r: Result<
    Vec<u8>,
    Error,
>)
    requires
        old(inner).wf(),
        hasher_regular(*old(hasher)),
    ensures
        final(inner).wf(),
        final(inner).input() == old(inner).input(),
        hasher_regular(*final(hasher)),
        match take_field(width, old(inner).rest()) {
            Some((data, n)) => (r matches Ok(v) && v@ == data) && final(inner).pos() == old(
                inner,
            ).pos() + n && hasher_input(*final(hasher)) == hasher_input(*old(hasher)) + data,
            None => (r matches Err(e) && e@ == ErrorView::Io) && final(inner).pos() == old(
                inner,
            ).input().len() && hasher_input(*final(hasher)) == hasher_input(*old(hasher)),
        },
{
    proof {
        inner.lemma_in_bounds();
    }
    let len: u32 = match width {
        Some(len) => len,
        None => inner.read_u32()?,
    };
    let data: Vec<u8> = inner.read_bytes(len as usize)?;
    hasher_update(hasher, data.as_slice());
    Ok(data)
}

impl Reader {
    /// What every reader made by `init` satisfies, and every method keeps.
    pub closed spec fn wf(&self) -> bool {
        &&& hasher_regular(self.hasher)
        &&& self.inner.wf()
    }

    /// The reader as plain values.
    pub closed spec fn model(&self) -> ReaderModel {
        ReaderModel {
            config: self.config@,
            input: self.inner.input(),
            pos: self.inner.pos(),
            hashed: hasher_input(self.hasher),
            stopped: self.stopped,
        }
    }

    /// Reads the header: magic number, tag, size flag and the three widths.
    fn read_init(inner: &mut Source) -> (r: Result<RtConfig, Error>)
        requires
            old(inner).wf(),
            old(inner).pos() == 0,
        ensures
            final(inner).wf(),
            final(inner).input() == old(inner).input(),
            match parse_header(old(inner).input()) {
                HeaderParse::Short => r matches Err(e) && e@ == ErrorView::Io,
                HeaderParse::Version(existing) => r matches Err(e) && e@ == (ErrorView::Version {
                    existing,
                }),
                HeaderParse::Header { ident, sizes, len } => (r matches Ok(config) && config@ == (
                ConfigView { ident, sizes })) && final(inner).pos() == len,
            },
    {
        let ghost input = inner.input();
        let version: u32 = inner.read_u32()?;
        if version != BS_IDENT {
            return Err(Error::Version { existing: version });
        }
        let ident_len: u32 = inner.read_u32()?;
        let ident: Vec<u8> = inner.read_bytes(ident_len as usize)?;
        assert(ident@ =~= input.subrange(8, 8 + ident_len));
        let flag: u8 = inner.read_u8()?;
        let scope: u32 = inner.read_u32()?;
        let key: u32 = inner.read_u32()?;
        let value: u32 = inner.read_u32()?;
        Ok(RtConfig { ident, sizes: Sizes::decode(flag, scope, key, value) })
    }

    /// Makes a reader of the dump in `inner`, and consumes the header.
    pub fn init(inner: Vec<u8>) -> (r: Result<Reader, Error>)
        ensures
            match ReaderModel::init(inner@) {
                Ok(m) => r matches Ok(reader) && reader.wf() && reader.model() == m,
                Err(e) => r matches Err(x) && x@ == e,
            },
    {
        let mut inner: Source = Source::new(inner);
        let config: RtConfig = Reader::read_init(&mut inner)?;
        Ok(Reader { inner, config, hasher: hasher_new(), stopped: false })
    }

    /// The schema that the header gave.
    pub fn config(&self) -> (config: &RtConfig)
        ensures
            config@ == self.model().config,
    {
        &self.config
    }

    /// How many bytes of the dump have not been consumed.
    pub fn remaining(&self) -> (n: usize)
        requires
            self.wf(),
        ensures
            n == self.model().rest().len(),
    {
        self.inner.remaining()
    }

    /// Reads the next row, whether or not an earlier read met the end row or
    /// failed. See `ReaderModel::read_row` for every outcome.
    pub fn read_row(&mut self) -> (r: Result<Row, Error>)
        requires
            old(self).wf(),
        ensures
            final(self).wf(),
            final(self).model() == old(self).model().read_row().0,
            result_view(r) == old(self).model().read_row().1,
    {
        proof {
            self.inner.lemma_in_bounds();
        }
        self.stopped = true;
        match RowType::from_tag(self.inner.read_u8()?)? {
            RowType::KV => {
                let sizes: Sizes = self.config.sizes;
                let scope: Vec<u8> = read_field(&mut self.inner, &mut self.hasher, sizes.scope)?;
                let key: Vec<u8> = read_field(&mut self.inner, &mut self.hasher, sizes.key)?;
                let value: Vec<u8> = read_field(&mut self.inner, &mut self.hasher, sizes.value)?;
                self.stopped = false;
                Ok(Row::KV(KV { scope, key, value }))
            },
            RowType::Hash => {
                let existing: crate::digest::Hash = self.inner.read_hash()?;
                let calculated: crate::digest::Hash = hasher_finalize(&self.hasher);
                if !same_digest(&existing, &calculated) {
                    return Err(Error::Hash { existing, calculated });
                }
                hasher_reset(&mut self.hasher);
                self.stopped = false;
                Ok(Row::Hash(calculated))
            },
            RowType::End => Ok(Row::End),
        }
    }

    /// Walks the rows: `None` once the end row is read, and from then on;
    /// after a failure, which is handed on once, `None` as well, until
    /// `read_row` is called and reads a record or a checkpoint.
    pub fn next(&mut self) -> (r: Option<Result<Row, Error>>)
        requires
            old(self).wf(),
        ensures
            final(self).wf(),
            final(self).model() == old(self).model().next().0,
            match old(self).model().next().1 {
                Some(row) => r matches Some(x) && result_view(x) == row,
                None => r is None,
            },
    {
        if self.stopped {
            return None;
        }
        match self.read_row() {
            Ok(Row::End) => None,
            row => Some(row),
        }
    }
}

} // verus!
