//! The decisions of the writer actor: what each request does to the writer,
//! and which durability barrier the owner of the file owes afterwards.
//!
//! The actor itself, the one thread that owns the file, runs outside this
//! library. For each request it calls `Context::exec`, moves the bytes of
//! `take_output` into the file, performs the barrier, and replies.

use crate::channel::OneTx;
use crate::config::{Config, ConfigView};
use crate::error::{Error, ErrorView};
use crate::row::{KvView, KV};
use crate::writer::{Writer, WriterModel};
use vstd::prelude::*;

verus! {

/// What a caller can ask of the actor.
#[derive(PartialEq, Eq, Debug, Clone)]
pub enum Request {
    /// Append this record.
    KV(KV),
    /// Append a checkpoint.
    Hash,
    /// Make what was written durable.
    Sync,
    /// End the stream and stop.
    Close,
}

/// What travels on the request queue: a request, and where its reply goes.
pub type ReqPayload = (Request, OneTx<Result<(), Error>>);

/// A request as plain values.
pub enum RequestView {
    KV(KvView),
    Hash,
    Sync,
    Close,
}

impl View for Request {
    type V = RequestView;

    open spec fn view(&self) -> RequestView {
        match self {
            Request::KV(kv) => RequestView::KV(kv@),
            Request::Hash => RequestView::Hash,
            Request::Sync => RequestView::Sync,
            Request::Close => RequestView::Close,
        }
    }
}

/// The durability barrier that is owed once the bytes of a request are in
/// the file.
#[derive(PartialEq, Eq, Debug, Clone, Copy)]
pub enum Barrier {
    /// None is owed.
    Nothing,
    /// A data-only sync, because the count of unsynced records has reached
    /// the interval. Once it has succeeded the count starts again: tell the
    /// context with `synced`.
    Interval,
    /// A data-only sync, because one was asked for.
    Data,
    /// A full sync, because the stream has been ended.
    Full,
}

/// The actor's state as plain values.
pub struct ContextModel {
    /// The writer.
    pub writer: WriterModel,
    /// Records written since the last periodic sync; it stops at 65535.
    pub non_synced: u16,
    /// The count at which a periodic sync is owed.
    pub sync_interval: u16,
}

impl ContextModel {
    /// The state with another writer.
    pub open spec fn with_writer(self, writer: WriterModel) -> ContextModel {
        ContextModel { writer, ..self }
    }

    /// One more unsynced record; the count does not go beyond 65535.
    pub open spec fn counted(self) -> ContextModel {
        ContextModel {
            non_synced: if self.non_synced < u16::MAX {
                (self.non_synced + 1) as u16
            } else {
                self.non_synced
            },
            ..self
        }
    }

    /// What a request does.
    ///
    /// A record is written; if that succeeds it is counted, and a periodic
    /// sync is owed as soon as the count has reached the interval. A
    /// checkpoint is written and owes nothing. A sync request writes nothing
    /// and owes a data-only sync. A close request ends the stream and owes a
    /// full sync. A failure of the writer is the request's own failure and
    /// leaves the count as it was.
    pub open spec fn exec(self, req: RequestView) -> (ContextModel, Result<Barrier, ErrorView>) {
        match req {
            RequestView::KV(kv) => {
                let (writer, written) = self.writer.write_kv(kv);
                match written {
                    Ok(_) => {
                        let after = self.with_writer(writer).counted();
                        (
                            after,
                            Ok(
                                if after.non_synced >= after.sync_interval {
                                    Barrier::Interval
                                } else {
                                    Barrier::Nothing
                                },
                            ),
                        )
                    },
                    Err(e) => (self.with_writer(writer), Err(e)),
                }
            },
            RequestView::Hash => {
                let (writer, written) = self.writer.write_hash();
                match written {
                    Ok(_) => (self.with_writer(writer), Ok(Barrier::Nothing)),
                    Err(e) => (self.with_writer(writer), Err(e)),
                }
            },
            RequestView::Sync => (self, Ok(Barrier::Data)),
            RequestView::Close => (self.with_writer(self.writer.close().0), Ok(Barrier::Full)),
        }
    }

    /// The state after a periodic sync has succeeded: the count starts again.
    pub open spec fn synced(self) -> ContextModel {
        ContextModel { non_synced: 0, ..self }
    }
}

/// The state that the actor owns: the writer and the count of records that
/// no periodic sync has covered yet.
pub struct Context<C: Config> {
    writer: Writer<C>,
    non_synced: u16,
    sync_interval: u16,
}

impl<C: Config> Context<C> {
    /// What every context made by `init` satisfies, and every method keeps.
    pub closed spec fn wf(&self) -> bool {
        self.writer.wf()
    }

    /// The state as plain values.
    pub closed spec fn model(&self) -> ContextModel {
        ContextModel {
            writer: self.writer.model(),
            non_synced: self.non_synced,
            sync_interval: self.sync_interval,
        }
    }

    /// Makes the state of an actor for a new dump: a writer on an empty
    /// buffer, which holds the header at once, and a count of 0.
    pub fn init(config: C, sync_interval: u16) -> (r: Result<Context<C>, Error>)
        ensures
            match WriterModel::init(
                Seq::empty(),
                ConfigView { ident: config.ident_spec(), sizes: config.sizes_spec() },
            ) {
                Ok(writer) => r matches Ok(ctx) && ctx.wf() && ctx.model() == (ContextModel {
                    writer,
                    non_synced: 0,
                    sync_interval,
                }),
                Err(e) => r matches Err(x) && x@ == e,
            },
    {
        let writer: Writer<C> = Writer::init(Vec::new(), config)?;
        Ok(Context { writer, non_synced: 0, sync_interval })
    }

    /// Carries out one request on the writer and says which barrier is owed.
    /// See `ContextModel::exec`.
    pub fn exec(&mut self, req: Request) -> (r: Result<Barrier, Error>)
        requires
            old(self).wf(),
        ensures
            final(self).wf(),
            final(self).model() == old(self).model().exec(req@).0,
            match old(self).model().exec(req@).1 {
                Ok(barrier) => r matches Ok(b) && b == barrier,
                Err(e) => r matches Err(x) && x@ == e,
            },
    {
        match req {
            Request::KV(kv) => {
                self.writer.write_kv(kv)?;
                if self.non_synced < u16::MAX {
                    self.non_synced = self.non_synced + 1;
                }
                if self.non_synced >= self.sync_interval {
                    Ok(Barrier::Interval)
                } else {
                    Ok(Barrier::Nothing)
                }
            },
            Request::Hash => {
                let _ = self.writer.write_hash()?;
                Ok(Barrier::Nothing)
            },
            Request::Sync => Ok(Barrier::Data),
            Request::Close => {
                self.writer.close()?;
                Ok(Barrier::Full)
            },
        }
    }

    /// Notes that the periodic sync has succeeded: the count starts again.
    pub fn synced(&mut self)
        requires
            old(self).wf(),
        ensures
            final(self).wf(),
            final(self).model() == old(self).model().synced(),
    {
        self.non_synced = 0;
    }

    /// Hands out the bytes that the requests so far have appended and that
    /// were not handed out before.
    pub fn take_output(&mut self) -> (out: Vec<u8>)
        requires
            old(self).wf(),
        ensures
            final(self).wf(),
            out@ == old(self).model().writer.out,
            final(self).model() == old(self).model().with_writer(
                old(self).model().writer.taken(),
            ),
    {
        self.writer.take_output()
    }

    /// The writer.
    pub fn writer(&self) -> (writer: &Writer<C>)
        ensures
            writer.model() == self.model().writer,
            writer.wf() == self.wf(),
    {
        &self.writer
    }
}

impl Request {
    /// Whether the actor stops after this request: only `Close` is the last.
    pub fn is_last(&self) -> (last: bool)
        ensures
            last == (self@ is Close),
    {
        match self {
            Request::Close => true,
            _ => false,
        }
    }
}

/// What the actor serves next, given what its queue handed out: the request
/// that arrived, with the place for its reply; or, once every handle is gone
/// and the queue is empty, a `Close` that nobody waits for.
pub fn request_or_close(received: Option<ReqPayload>) -> (next: (
    Request,
    Option<OneTx<Result<(), Error>>>,
))
    ensures
        match received {
            Some((req, tx)) => next.0 == req && next.1 == Some(tx),
            None => next.0@ is Close && next.1 is None,
        },
{
    match received {
        Some((req, tx)) => (req, Some(tx)),
        None => (Request::Close, None),
    }
}

/// What a caller is told of its request: the actor's own reply where one
/// came, and `AsyncFileClosed` where the actor was gone, be it before it
/// took the request or before it replied.
pub fn reply_or_closed<R>(outcome: Result<Result<(), Error>, R>) -> (told: Result<(), Error>)
    ensures
        match outcome {
            Ok(reply) => told == reply,
            Err(_) => told matches Err(e) && e@ == ErrorView::AsyncFileClosed,
        },
{
    match outcome {
        Ok(reply) => reply,
        Err(_) => Err(Error::AsyncFileClosed),
    }
}

} // verus!
