//! The schema of a dump: which fields have a fixed width, and a free tag.

use vstd::prelude::*;
use vstd::slice::slice_to_vec;

verus! {

/// Bit of the size flag that marks `scope` as fixed-width.
pub const FLAG_SCOPE: u8 = 1;

/// Bit of the size flag that marks `key` as fixed-width.
pub const FLAG_KEY: u8 = 2;

/// Bit of the size flag that marks `value` as fixed-width.
pub const FLAG_VALUE: u8 = 4;

/// Width of each field of a row: `Some(w)` is exactly `w` bytes with no
/// length in front, `None` is any length, written in front of the bytes.
#[derive(PartialEq, Eq, Debug, Clone, Copy)]
pub struct Sizes {
    pub scope: Option<u32>,
    pub key: Option<u32>,
    pub value: Option<u32>,
}

/// The width that the header stores for a field: its fixed width, or 0.
pub open spec fn width_or_zero(width: Option<u32>) -> u32 {
    match width {
        Some(w) => w,
        None => 0,
    }
}

impl Sizes {
    /// The flag byte as a number: 1 for a fixed scope, plus 2 for a fixed
    /// key, plus 4 for a fixed value.
    pub open spec fn flag_spec(self) -> u8 {
        ((if self.scope is Some { 1int } else { 0 }) + (if self.key is Some { 2int } else { 0 }) + (
        if self.value is Some { 4int } else { 0 })) as u8
    }

    /// The sizes that a flag byte and the three stored widths stand for: a
    /// field is fixed-width where its bit is set, and a width whose bit is
    /// clear is ignored. Bits above the third are ignored.
    pub open spec fn decode_spec(flag: u8, scope: u32, key: u32, value: u32) -> Sizes {
        Sizes {
            scope: if flag % 2 == 1 { Some(scope) } else { None },
            key: if flag / 2 % 2 == 1 { Some(key) } else { None },
            value: if flag / 4 % 2 == 1 { Some(value) } else { None },
        }
    }

    /// The flag byte: bit 0, 1 and 2 are set where scope, key and value are
    /// fixed-width.
    pub fn flag(&self) -> (flag: u8)
        ensures
            flag == self.flag_spec(),
            flag < 8,
    {
        let mut flag: u8 = 0;
        if self.scope.is_some() {
            flag = flag | FLAG_SCOPE;
            assert(0u8 | 1u8 == 1u8) by (bit_vector);
        }
        if self.key.is_some() {
            let before: u8 = flag;
            flag = flag | FLAG_KEY;
            assert(before < 2 ==> before | 2u8 == before + 2) by (bit_vector);
        }
        if self.value.is_some() {
            let before: u8 = flag;
            flag = flag | FLAG_VALUE;
            assert(before < 4 ==> before | 4u8 == before + 4) by (bit_vector);
        }
        flag
    }

    /// Rebuilds the sizes from a flag byte and the three widths of a header.
    pub fn decode(flag: u8, scope: u32, key: u32, value: u32) -> (sizes: Sizes)
        ensures
            sizes == Sizes::decode_spec(flag, scope, key, value),
    {
        assert(flag & 1 != 0 <==> flag % 2 == 1) by (bit_vector);
        assert(flag & 2 != 0 <==> flag / 2 % 2 == 1) by (bit_vector);
        assert(flag & 4 != 0 <==> flag / 4 % 2 == 1) by (bit_vector);
        Sizes {
            scope: if flag & FLAG_SCOPE != 0 { Some(scope) } else { None },
            key: if flag & FLAG_KEY != 0 { Some(key) } else { None },
            value: if flag & FLAG_VALUE != 0 { Some(value) } else { None },
        }
    }

    /// `decode` undoes `flag`: the flag byte and the stored widths of any
    /// sizes give the same sizes back.
    pub proof fn lemma_decode_flag(self)
        ensures
            Sizes::decode_spec(
                self.flag_spec(),
                width_or_zero(self.scope),
                width_or_zero(self.key),
                width_or_zero(self.value),
            ) == self,
    {
    }
}

/// What a schema is to the codec: its tag and its sizes, as plain values.
pub struct ConfigView {
    pub ident: Seq<u8>,
    pub sizes: Sizes,
}

/// A schema that a writer can be made with.
pub trait Config: Send + 'static {
    /// The tag, as a sequence of bytes.
    spec fn ident_spec(&self) -> Seq<u8>;

    /// The sizes.
    spec fn sizes_spec(&self) -> Sizes;

    /// The tag that names the schema. The codec stores it and hands it back;
    /// it reads nothing into it.
    fn ident<'a>(&'a self) -> (ident: &'a [u8])
        ensures
            ident@ == self.ident_spec(),
    ;

    /// The widths of the three fields.
    fn sizes<'a>(&'a self) -> (sizes: &'a Sizes)
        ensures
            *sizes == self.sizes_spec(),
    ;

    /// The same schema as an owned `RtConfig`.
    fn to_rt(&self) -> (rt: RtConfig)
        ensures
            rt.ident@ == self.ident_spec(),
            rt.sizes == self.sizes_spec(),
    {
        let ident: Vec<u8> = slice_to_vec(self.ident());
        let sizes: Sizes = *self.sizes();
        RtConfig { ident, sizes }
    }
}

/// A schema held as plain data: what a reader rebuilds from a header.
#[derive(PartialEq, Eq, Debug, Clone)]
pub struct RtConfig {
    pub ident: Vec<u8>,
    pub sizes: Sizes,
}

impl View for RtConfig {
    type V = ConfigView;

    open spec fn view(&self) -> ConfigView {
        ConfigView { ident: self.ident@, sizes: self.sizes }
    }
}

impl Config for RtConfig {
    open spec fn ident_spec(&self) -> Seq<u8> {
        self.ident@
    }

    open spec fn sizes_spec(&self) -> Sizes {
        self.sizes
    }

    fn ident<'a>(&'a self) -> (ident: &'a [u8]) {
        self.ident.as_slice()
    }

    fn sizes<'a>(&'a self) -> (sizes: &'a Sizes) {
        &self.sizes
    }

    fn to_rt(&self) -> (rt: RtConfig) {
        let ident: Vec<u8> = self.ident.clone();
        RtConfig { ident, sizes: self.sizes }
    }
}

} // verus!
