//! The rows of a dump.

use crate::error::Error;
use vstd::prelude::*;
use vstd::slice::slice_to_vec;

verus! {

/// Tag byte of a key/value row.
pub const TAG_KV: u8 = 0;

/// Tag byte of a checkpoint row.
pub const TAG_HASH: u8 = 1;

/// Tag byte of the row that ends the stream.
pub const TAG_END: u8 = 2;

/// One record: three byte strings that the format does not interpret.
#[derive(PartialEq, Eq, Debug, Clone)]
pub struct KV {
    pub scope: Vec<u8>,
    pub key: Vec<u8>,
    pub value: Vec<u8>,
}

/// A record as three sequences of bytes.
pub struct KvView {
    pub scope: Seq<u8>,
    pub key: Seq<u8>,
    pub value: Seq<u8>,
}

impl KvView {
    /// What a record adds to the running digest: its three fields, in the
    /// order in which they are written.
    pub open spec fn hashed(self) -> Seq<u8> {
        self.scope + self.key + self.value
    }
}

impl View for KV {
    type V = KvView;

    open spec fn view(&self) -> KvView {
        KvView { scope: self.scope@, key: self.key@, value: self.value@ }
    }
}

impl KV {
    /// A record with copies of the three byte strings.
    pub fn new(scope: &[u8], key: &[u8], value: &[u8]) -> (kv: KV)
        ensures
            kv@ == (KvView { scope: scope@, key: key@, value: value@ }),
    {
        KV { scope: slice_to_vec(scope), key: slice_to_vec(key), value: slice_to_vec(value) }
    }
}

/// The kind of a row, which its first byte tells.
#[derive(PartialEq, Eq, Debug, Clone, Copy)]
pub enum RowType {
    KV,
    Hash,
    End,
}

impl RowType {
    /// The tag byte of each kind: 0, 1, 2.
    pub open spec fn tag_spec(self) -> u8 {
        match self {
            RowType::KV => 0,
            RowType::Hash => 1,
            RowType::End => 2,
        }
    }

    /// The byte that starts a row of this kind.
    pub fn tag(self) -> (tag: u8)
        ensures
            tag == self.tag_spec(),
    {
        match self {
            RowType::KV => TAG_KV,
            RowType::Hash => TAG_HASH,
            RowType::End => TAG_END,
        }
    }

    /// The kind that a tag byte stands for; any byte but 0, 1 and 2 is
    /// refused with `Error::RowType`.
    pub fn from_tag(tag: u8) -> (kind: Result<RowType, Error>)
        ensures
            tag <= 2 ==> (kind matches Ok(k) && k.tag_spec() == tag),
            tag > 2 ==> (kind matches Err(Error::RowType(b)) && b == tag),
    {
        if tag == TAG_KV {
            Ok(RowType::KV)
        } else if tag == TAG_HASH {
            Ok(RowType::Hash)
        } else if tag == TAG_END {
            Ok(RowType::End)
        } else {
            Err(Error::RowType(tag))
        }
    }
}

/// A decoded row.
#[derive(PartialEq, Eq, Debug, Clone)]
pub enum Row {
    /// A record.
    KV(KV),
    /// A checkpoint, with the digest it carries.
    Hash(crate::digest::Hash),
    /// The end of the stream.
    End,
}

/// A decoded row as plain values.
pub enum RowView {
    KV(KvView),
    Hash(Seq<u8>),
    End,
}

impl View for Row {
    type V = RowView;

    open spec fn view(&self) -> RowView {
        match self {
            Row::KV(kv) => RowView::KV(kv@),
            Row::Hash(digest) => RowView::Hash(digest@),
            Row::End => RowView::End,
        }
    }
}

} // verus!
