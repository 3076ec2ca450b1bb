//! An append-only key/value dump format whose rows carry running BLAKE3
//! checkpoints, with an in-memory writer and reader for it, and the
//! decisions of the actor that lets many callers share one writer.

pub mod actor;
pub mod channel;
pub mod config;
pub mod digest;
pub mod error;
pub mod format;
pub mod laws;
pub mod reader;
pub mod row;
pub mod source;
pub mod stream;
pub mod wire;
pub mod writer;

pub use crate::actor::{
    reply_or_closed, request_or_close, Barrier, Context, ReqPayload, Request,
};
pub use crate::channel::{recv_req, send_res, OneTx, ReqRx};
pub use crate::config::{Config, RtConfig, Sizes};
pub use crate::digest::HASH_LEN;
pub use crate::error::{usize_u32, Error, InputKind};
pub use crate::format::BS_IDENT;
pub use crate::reader::Reader;
pub use crate::row::{Row, RowType, KV};
pub use crate::writer::Writer;
