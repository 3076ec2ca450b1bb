//! The writer: it appends a header and rows to a byte buffer that it owns,
//! and keeps the running digest of the records since the last checkpoint.

use crate::config::{Config, ConfigView, Sizes};
use crate::digest::{
    blake3_digest, hasher_finalize, hasher_input, hasher_new, hasher_regular, hasher_reset,
    hasher_update,
};
use crate::error::{result_view, usize_u32, Error, ErrorView, InputKind};
use crate::format::{
    end_row_bytes, field_bytes, field_refusal, hash_row_bytes, header_bytes, kv_fits,
    kv_row_bytes, BS_IDENT,
};
use crate::row::{KvView, KV, TAG_END, TAG_HASH, TAG_KV};
use crate::wire::put_u32;
use vstd::prelude::*;

verus! {

/// A writer as plain values.
pub struct WriterModel {
    /// The schema it was made with.
    pub config: ConfigView,
    /// The bytes appended so far and not yet taken out.
    pub out: Seq<u8>,
    /// The bytes of the records written since the last checkpoint.
    pub hashed: Seq<u8>,
    /// Whether the stream has been ended.
    pub closed: bool,
}

impl WriterModel {
    /// A new writer on a buffer that holds `before`: the header is appended
    /// at once. A tag too long for its length field is refused.
    pub open spec fn init(before: Seq<u8>, config: ConfigView) -> Result<WriterModel, ErrorView> {
        if config.ident.len() > u32::MAX {
            Err(ErrorView::TooLongSize { size: config.ident.len() as u64 })
        } else {
            Ok(
                WriterModel {
                    config,
                    out: before + header_bytes(config.ident, config.sizes),
                    hashed: Seq::empty(),
                    closed: false,
                },
            )
        }
    }

    /// The writer after `bytes` have been appended.
    pub open spec fn emit(self, bytes: Seq<u8>) -> WriterModel {
        WriterModel { out: self.out + bytes, ..self }
    }

    /// The writer after `data` has gone into the running digest.
    pub open spec fn absorb(self, data: Seq<u8>) -> WriterModel {
        WriterModel { hashed: self.hashed + data, ..self }
    }

    /// One field of a record: checked first; if it is refused nothing of it
    /// is written, else it is appended and goes into the digest.
    pub open spec fn put_field(self, width: Option<u32>, data: Seq<u8>, which: InputKind) -> (
        WriterModel,
        Result<(), ErrorView>,
    ) {
        match field_refusal(width, data, which) {
            Some(e) => (self, Err(e)),
            None => (self.emit(field_bytes(width, data)).absorb(data), Ok(())),
        }
    }

    /// Writing a record. A closed writer refuses and stays as it is. Else the
    /// tag is appended, then scope, key and value in turn; the first field
    /// that is refused ends the call, and what was appended before it stays.
    pub open spec fn write_kv(self, kv: KvView) -> (WriterModel, Result<(), ErrorView>) {
        if self.closed {
            (self, Err(ErrorView::Closed))
        } else {
            let tagged = self.emit(seq![TAG_KV]);
            let scope = tagged.put_field(self.config.sizes.scope, kv.scope, InputKind::Scope);
            if scope.1 is Err {
                scope
            } else {
                let key = scope.0.put_field(self.config.sizes.key, kv.key, InputKind::Key);
                if key.1 is Err {
                    key
                } else {
                    key.0.put_field(self.config.sizes.value, kv.value, InputKind::Value)
                }
            }
        }
    }

    /// Writing a checkpoint. A closed writer refuses. Else the digest of the
    /// records since the last checkpoint is appended as a row and returned,
    /// and the running digest starts again from nothing.
    pub open spec fn write_hash(self) -> (WriterModel, Result<Seq<u8>, ErrorView>) {
        if self.closed {
            (self, Err(ErrorView::Closed))
        } else {
            let digest = blake3_digest(self.hashed)@;
            (
                WriterModel {
                    out: self.out + hash_row_bytes(digest),
                    hashed: Seq::empty(),
                    ..self
                },
                Ok(digest),
            )
        }
    }

    /// Closing. A closed writer stays as it is. Else a last checkpoint and
    /// the end row are appended and the writer is closed. Both succeed.
    pub open spec fn close(self) -> (WriterModel, Result<(), ErrorView>) {
        if self.closed {
            (self, Ok(()))
        } else {
            let marked = self.write_hash().0;
            (WriterModel { out: marked.out + end_row_bytes(), closed: true, ..marked }, Ok(()))
        }
    }

    /// The writer after its buffer has been handed out.
    pub open spec fn taken(self) -> WriterModel {
        WriterModel { out: Seq::empty(), ..self }
    }
}

/// A writer of one dump. It owns the buffer that it appends to.
pub struct Writer<C: Config> {
    inner: Vec<u8>,
    config: C,
    hasher: blake3::Hasher,
    closed: bool,
}

/// Appends one field to `out` and feeds it to `hasher`, unless it is refused.
fn write_field(
    out: &mut Vec<u8>,
    hasher: &mut blake3::Hasher,
    width: Option<u32>,
    data: &Vec<u8>,
    which: InputKind,
) -> (r: Result<(), Error>)
    requires
        hasher_regular(*old(hasher)),
    ensures
        hasher_regular(*final(hasher)),
        result_view(r) == (match field_refusal(width, data@, which) {
            Some(e) => Err(e),
            None => Ok(()),
        }),
        r is Err ==> final(out)@ == old(out)@ && hasher_input(*final(hasher)) == hasher_input(
            *old(hasher),
        ),
        r is Ok ==> final(out)@ == old(out)@ + field_bytes(width, data@) && hasher_input(
            *final(hasher),
        ) == hasher_input(*old(hasher)) + data@,
{
    let input_len: u32 = usize_u32(data.len())?;
    match width {
        Some(config_len) => {
            if config_len != input_len {
                return Err(Error::InputLength { config_len, input_len, which });
            }
        },
        None => {
            put_u32(out, input_len);
        },
    }
    hasher_update(hasher, data.as_slice());
    out.extend_from_slice(data.as_slice());
    Ok(())
}

impl<C: Config> Writer<C> {
    /// What every writer made by `init` satisfies, and every method keeps:
    /// its hasher is the plain BLAKE3 one.
    pub closed spec fn wf(&self) -> bool {
        hasher_regular(self.hasher)
    }

    /// The writer as plain values.
    pub closed spec fn model(&self) -> WriterModel {
        WriterModel {
            config: ConfigView {
                ident: self.config.ident_spec(),
                sizes: self.config.sizes_spec(),
            },
            out: self.inner@,
            hashed: hasher_input(self.hasher),
            closed: self.closed,
        }
    }

    /// The schema's own value, which the writer keeps unchanged.
    pub closed spec fn config_spec(&self) -> C {
        self.config
    }

    /// Refuses with `Closed` once the stream has been ended.
    fn close_guard(&self) -> (r: Result<(), Error>)
        ensures
            result_view(r) == (if self.model().closed {
                Err::<(), ErrorView>(ErrorView::Closed)
            } else {
                Ok::<(), ErrorView>(())
            }),
    {
        if self.closed {
            return Err(Error::Closed);
        }
        Ok(())
    }

    /// Appends the header: magic number, tag with its length, size flag and
    /// the three widths. Nothing is appended where the tag is too long.
    fn write_init(&mut self) -> (r: Result<(), Error>)
        requires
            old(self).wf(),
        ensures
            final(self).wf(),
            final(self).config_spec() == old(self).config_spec(),
            match WriterModel::init(old(self).model().out, old(self).model().config) {
                Ok(m) => r is Ok && final(self).model() == (WriterModel {
                    out: m.out,
                    ..old(self).model()
                }),
                Err(e) => (r matches Err(x) && x@ == e) && final(self).model() == old(
                    self,
                ).model(),
            },
    {
        let ident_len: u32 = usize_u32(self.config.ident().len())?;
        let sizes: Sizes = *self.config.sizes();
        put_u32(&mut self.inner, BS_IDENT);
        put_u32(&mut self.inner, ident_len);
        self.inner.extend_from_slice(self.config.ident());
        self.inner.push(sizes.flag());
        put_u32(&mut self.inner, match sizes.scope { Some(w) => w, None => 0 });
        put_u32(&mut self.inner, match sizes.key { Some(w) => w, None => 0 });
        put_u32(&mut self.inner, match sizes.value { Some(w) => w, None => 0 });
        assert(self.inner@ =~= old(self).inner@ + header_bytes(
            self.config.ident_spec(),
            self.config.sizes_spec(),
        ));
        Ok(())
    }

    /// Appends the row that ends the stream.
    fn write_end(&mut self)
        requires
            old(self).wf(),
        ensures
            final(self).wf(),
            final(self).config_spec() == old(self).config_spec(),
            final(self).model() == old(self).model().emit(end_row_bytes()),
    {
        self.inner.push(TAG_END);
        assert(self.inner@ =~= old(self).inner@ + end_row_bytes());
    }

    /// Makes a writer that appends to `inner`, and appends the header. A tag
    /// longer than 32 bits can count is refused with `TooLongSize`.
    pub fn init(inner: Vec<u8>, config: C) -> (r: Result<Writer<C>, Error>)
        ensures
            match WriterModel::init(
                inner@,
                ConfigView { ident: config.ident_spec(), sizes: config.sizes_spec() },
            ) {
                Ok(m) => r matches Ok(w) && w.wf() && w.model() == m && w.config_spec()
                    == config,
                Err(e) => r matches Err(x) && x@ == e,
            },
    {
        let mut writer: Writer<C> = Writer { inner, config, hasher: hasher_new(), closed: false };
        writer.write_init()?;
        Ok(writer)
    }

    /// The schema that the writer was made with.
    pub fn config(&self) -> (config: &C)
        ensures
            *config == self.config_spec(),
            config.ident_spec() == self.model().config.ident,
            config.sizes_spec() == self.model().config.sizes,
    {
        &self.config
    }

    /// Whether the stream has been ended.
    pub fn is_closed(&self) -> (closed: bool)
        ensures
            closed == self.model().closed,
    {
        self.closed
    }

    /// The bytes appended so far and not yet taken out.
    pub fn output(&self) -> (out: &Vec<u8>)
        ensures
            out@ == self.model().out,
    {
        &self.inner
    }

    /// Hands out the bytes appended so far and goes on with an empty buffer.
    /// The running digest and the closed state are not touched.
    pub fn take_output(&mut self) -> (out: Vec<u8>)
        requires
            old(self).wf(),
        ensures
            final(self).wf(),
            out@ == old(self).model().out,
            final(self).model() == old(self).model().taken(),
            final(self).config_spec() == old(self).config_spec(),
    {
        let mut out: Vec<u8> = Vec::new();
        std::mem::swap(&mut self.inner, &mut out);
        out
    }

    /// Appends one record as a row. See `WriterModel::write_kv` for every
    /// outcome; in short: `Closed` on a closed writer, `TooLongSize` or
    /// `InputLength` for the first field that cannot be written, with the
    /// fields before it already appended.
    pub fn write_kv(&mut self, kv: KV) -> (r: Result<(), Error>)
        requires
            old(self).wf(),
        ensures
            final(self).wf(),
            final(self).model() == old(self).model().write_kv(kv@).0,
            result_view(r) == old(self).model().write_kv(kv@).1,
            final(self).config_spec() == old(self).config_spec(),
    {
        self.close_guard()?;
        let sizes: Sizes = *self.config.sizes();
        self.inner.push(TAG_KV);
        assert(self.inner@ =~= old(self).inner@ + seq![TAG_KV]);
        write_field(&mut self.inner, &mut self.hasher, sizes.scope, &kv.scope, InputKind::Scope)?;
        write_field(&mut self.inner, &mut self.hasher, sizes.key, &kv.key, InputKind::Key)?;
        write_field(&mut self.inner, &mut self.hasher, sizes.value, &kv.value, InputKind::Value)?;
        Ok(())
    }

    /// Appends a checkpoint row and returns the digest in it: that of all
    /// records since the last checkpoint. The running digest starts again.
    /// A closed writer refuses with `Closed`.
    pub fn write_hash(&mut self) -> (r: Result<crate::digest::Hash, Error>)
        requires
            old(self).wf(),
        ensures
            final(self).wf(),
            final(self).model() == old(self).model().write_hash().0,
            result_view(r) == old(self).model().write_hash().1,
            final(self).config_spec() == old(self).config_spec(),
    {
        self.close_guard()?;
        let digest: crate::digest::Hash = hasher_finalize(&self.hasher);
        self.inner.push(TAG_HASH);
        self.inner.extend_from_slice(digest.as_slice());
        hasher_reset(&mut self.hasher);
        assert(self.inner@ =~= old(self).inner@ + hash_row_bytes(digest@));
        Ok(digest)
    }

    /// Ends the stream: a last checkpoint, then the end row. A second call
    /// does nothing and succeeds.
    pub fn close(&mut self) -> (r: Result<(), Error>)
        requires
            old(self).wf(),
        ensures
            final(self).wf(),
            final(self).model() == old(self).model().close().0,
            result_view(r) == old(self).model().close().1,
            final(self).config_spec() == old(self).config_spec(),
    {
        if !self.closed {
            let _ = self.write_hash()?;
            self.write_end();
            self.closed = true;
        }
        Ok(())
    }
}

/// A record that fits the sizes is written as one whole row: the writer
/// appends exactly `kv_row_bytes` and the digest takes the three fields.
pub proof fn lemma_write_kv_fits(m: WriterModel, kv: KvView)
    requires
        !m.closed,
        kv_fits(m.config.sizes, kv),
    ensures
        m.write_kv(kv) == (
            m.emit(kv_row_bytes(m.config.sizes, kv)).absorb(kv.hashed()),
            Ok::<(), ErrorView>(()),
        ),
{
    let after = m.write_kv(kv).0;
    assert(after.out =~= m.out + kv_row_bytes(m.config.sizes, kv));
    assert(after.hashed =~= m.hashed + kv.hashed());
}

} // verus!
