use kvdump::source::Source;
use kvdump::wire::{get_u32, put_u32};
use kvdump::{usize_u32, Config, Error, InputKind, Reader, Row, RowType, RtConfig, Sizes, Writer};
use kvdump::{BS_IDENT, HASH_LEN, KV};

fn sizes(scope: Option<u32>, key: Option<u32>, value: Option<u32>) -> Sizes {
    Sizes { scope, key, value }
}

fn schema(ident: &[u8], sizes: Sizes) -> RtConfig {
    RtConfig { ident: ident.to_vec(), sizes }
}

fn kv(scope: &[u8], key: &[u8], value: &[u8]) -> KV {
    KV { scope: scope.to_vec(), key: key.to_vec(), value: value.to_vec() }
}

fn digest_of(data: &[u8]) -> kvdump::digest::Hash {
    *blake3::hash(data).as_bytes()
}

#[test]
fn constants_of_the_format() {
    assert_eq!(BS_IDENT, 0x4265_0000);
    assert_eq!(HASH_LEN, 32);
    assert_eq!(HASH_LEN, blake3::OUT_LEN);
    assert_eq!(RowType::KV.tag(), 0);
    assert_eq!(RowType::Hash.tag(), 1);
    assert_eq!(RowType::End.tag(), 2);
}

#[test]
fn big_endian_numbers() {
    let mut out = vec![9u8];
    put_u32(&mut out, 0x0102_0304);
    put_u32(&mut out, u32::MAX);
    put_u32(&mut out, 0);
    assert_eq!(out, vec![9, 1, 2, 3, 4, 255, 255, 255, 255, 0, 0, 0, 0]);
    assert_eq!(get_u32(&out, 1), 0x0102_0304);
    assert_eq!(get_u32(&out, 5), u32::MAX);
    assert_eq!(get_u32(&out, 9), 0);
    assert_eq!(out[1..5], 0x0102_0304u32.to_be_bytes());
}

#[test]
fn flag_has_one_bit_for_each_fixed_field() {
    assert_eq!(sizes(None, None, None).flag(), 0);
    assert_eq!(sizes(Some(3), None, None).flag(), 1);
    assert_eq!(sizes(None, Some(3), None).flag(), 2);
    assert_eq!(sizes(Some(1), Some(0), None).flag(), 3);
    assert_eq!(sizes(None, None, Some(9)).flag(), 4);
    assert_eq!(sizes(Some(9), None, Some(9)).flag(), 5);
    assert_eq!(sizes(None, Some(9), Some(9)).flag(), 6);
    assert_eq!(sizes(Some(7), Some(8), Some(9)).flag(), 7);
}

#[test]
fn decode_undoes_flag() {
    let all = [None, Some(0u32), Some(5), Some(u32::MAX)];
    for scope in all {
        for key in all {
            for value in all {
                let s = sizes(scope, key, value);
                let back = Sizes::decode(
                    s.flag(),
                    scope.unwrap_or(0),
                    key.unwrap_or(0),
                    value.unwrap_or(0),
                );
                assert_eq!(back, s);
            }
        }
    }
}

#[test]
fn decode_ignores_widths_of_clear_bits_and_high_bits() {
    assert_eq!(Sizes::decode(0, 11, 12, 13), sizes(None, None, None));
    assert_eq!(Sizes::decode(2, 11, 12, 13), sizes(None, Some(12), None));
    assert_eq!(Sizes::decode(0xf8 | 5, 11, 12, 13), sizes(Some(11), None, Some(13)));
}

#[test]
fn rt_config_is_its_own_schema() {
    let config = schema(b"tag", sizes(Some(4), None, Some(2)));
    assert_eq!(config.ident(), b"tag");
    assert_eq!(config.sizes(), &sizes(Some(4), None, Some(2)));
    assert_eq!(config.to_rt(), config);
}

#[test]
fn lengths_up_to_32_bits_fit_the_wire() {
    assert!(matches!(usize_u32(0), Ok(0)));
    assert!(matches!(usize_u32(70_000), Ok(70_000)));
    assert!(matches!(usize_u32(0xffff_ffff), Ok(0xffff_ffff)));
}

#[test]
fn longer_lengths_are_refused() {
    if usize::BITS > 32 {
        let n = 0xffff_ffffusize + 1;
        assert!(matches!(usize_u32(n), Err(Error::TooLongSize { size: 0x1_0000_0000 })));
        assert!(matches!(usize_u32(usize::MAX), Err(Error::TooLongSize { size }) if size == usize::MAX as u64));
    }
}

#[test]
fn tags_of_rows() {
    assert!(matches!(RowType::from_tag(0), Ok(RowType::KV)));
    assert!(matches!(RowType::from_tag(1), Ok(RowType::Hash)));
    assert!(matches!(RowType::from_tag(2), Ok(RowType::End)));
    assert!(matches!(RowType::from_tag(3), Err(Error::RowType(3))));
    assert!(matches!(RowType::from_tag(255), Err(Error::RowType(255))));
}

#[test]
fn names_of_fields() {
    assert_eq!(InputKind::Scope.name(), "scope");
    assert_eq!(InputKind::Key.name(), "key");
    assert_eq!(InputKind::Value.name(), "value");
}

#[test]
fn stored_width_of_a_free_field_is_zero() {
    let writer = Writer::init(Vec::new(), schema(b"", sizes(None, Some(8), None))).unwrap();
    let out = writer.output();
    assert_eq!(out[9..13], [0, 0, 0, 0]);
    assert_eq!(out[13..17], [0, 0, 0, 8]);
    assert_eq!(out[17..21], [0, 0, 0, 0]);
}

#[test]
fn header_of_an_empty_schema() {
    let writer = Writer::init(Vec::new(), schema(b"", sizes(None, None, None))).unwrap();
    assert_eq!(
        writer.output().as_slice(),
        &[0x42, 0x65, 0, 0, 0, 0, 0, 0, 0, 0, 0, 0, 0, 0, 0, 0, 0, 0, 0, 0, 0][..]
    );
}

#[test]
fn header_holds_tag_flag_and_widths() {
    let writer =
        Writer::init(vec![0xaa], schema(b"kv", sizes(Some(4), None, Some(0x0102)))).unwrap();
    assert_eq!(
        writer.output().as_slice(),
        &[
            0xaa, // what the buffer held
            0x42, 0x65, 0, 0, // magic
            0, 0, 0, 2, b'k', b'v', // tag
            5,    // scope and value are fixed
            0, 0, 0, 4, // scope
            0, 0, 0, 0, // key
            0, 0, 1, 2, // value
        ][..]
    );
    assert!(!writer.is_closed());
    assert_eq!(writer.config(), &schema(b"kv", sizes(Some(4), None, Some(0x0102))));
}

#[test]
fn rows_of_a_small_dump() {
    let mut writer = Writer::init(Vec::new(), schema(b"", sizes(Some(2), None, None))).unwrap();
    let _ = writer.take_output();
    writer.write_kv(kv(b"ab", b"k", b"")).unwrap();
    assert_eq!(
        writer.output().as_slice(),
        &[0, b'a', b'b', 0, 0, 0, 1, b'k', 0, 0, 0, 0][..]
    );
    let _ = writer.take_output();
    let digest = writer.write_hash().unwrap();
    assert_eq!(digest, digest_of(b"abk"));
    let mut row = vec![1u8];
    row.extend_from_slice(&digest);
    assert_eq!(writer.output(), &row);
    let _ = writer.take_output();
    writer.close().unwrap();
    let mut end = vec![1u8];
    end.extend_from_slice(&digest_of(b""));
    end.push(2);
    assert_eq!(writer.output(), &end);
}

#[test]
fn take_output_empties_the_buffer_and_nothing_else() {
    let mut writer = Writer::init(Vec::new(), schema(b"x", sizes(None, None, None))).unwrap();
    writer.write_kv(kv(b"s", b"k", b"v")).unwrap();
    let first = writer.take_output();
    assert_eq!(first.len(), 22 + 1 + 3 * 5);
    assert!(writer.output().is_empty());
    assert!(!writer.is_closed());
    let digest = writer.write_hash().unwrap();
    assert_eq!(digest, digest_of(b"skv"));
}

#[test]
fn round_trip() {
    let config = schema(b"round", sizes(None, Some(3), None));
    let kv1 = kv(b"scope one", b"key", b"value one");
    let kv2 = kv(b"", b"abc", &[0u8; 300]);
    let mut writer = Writer::init(Vec::new(), config.clone()).unwrap();
    writer.write_kv(kv1.clone()).unwrap();
    writer.write_kv(kv2.clone()).unwrap();
    writer.close().unwrap();
    assert!(writer.is_closed());

    let mut reader = Reader::init(writer.take_output()).unwrap();
    assert_eq!(reader.config(), &config);
    assert_eq!(reader.read_row().unwrap(), Row::KV(kv1));
    assert_eq!(reader.read_row().unwrap(), Row::KV(kv2));
    let mut hashed = b"scope onekeyvalue oneabc".to_vec();
    hashed.extend_from_slice(&[0u8; 300]);
    assert_eq!(reader.read_row().unwrap(), Row::Hash(digest_of(&hashed)));
    assert_eq!(reader.read_row().unwrap(), Row::End);
    assert_eq!(reader.remaining(), 0);
}

#[test]
fn round_trip_with_every_field_fixed() {
    let config = schema(b"f", sizes(Some(1), Some(2), Some(0)));
    let mut writer = Writer::init(Vec::new(), config.clone()).unwrap();
    writer.write_kv(kv(b"s", b"kk", b"")).unwrap();
    writer.close().unwrap();
    let bytes = writer.take_output();
    assert_eq!(bytes[22..26], [0, b's', b'k', b'k']);
    let mut reader = Reader::init(bytes).unwrap();
    assert_eq!(reader.config(), &config);
    assert_eq!(reader.next().unwrap().unwrap(), Row::KV(kv(b"s", b"kk", b"")));
    assert_eq!(reader.next().unwrap().unwrap(), Row::Hash(digest_of(b"skk")));
    assert!(reader.next().is_none());
    assert_eq!(reader.remaining(), 0);
}

#[test]
fn checkpoint_starts_the_digest_again() {
    let mut writer = Writer::init(Vec::new(), schema(b"", sizes(None, None, None))).unwrap();
    writer.write_kv(kv(b"a", b"b", b"c")).unwrap();
    assert_eq!(writer.write_hash().unwrap(), digest_of(b"abc"));
    assert_eq!(writer.write_hash().unwrap(), digest_of(b""));
    writer.write_kv(kv(b"d", b"e", b"f")).unwrap();
    writer.write_kv(kv(b"g", b"", b"h")).unwrap();
    assert_eq!(writer.write_hash().unwrap(), digest_of(b"defgh"));
    writer.close().unwrap();

    let mut reader = Reader::init(writer.take_output()).unwrap();
    let mut rows = Vec::new();
    while let Some(row) = reader.next() {
        rows.push(row.unwrap());
    }
    assert_eq!(
        rows,
        vec![
            Row::KV(kv(b"a", b"b", b"c")),
            Row::Hash(digest_of(b"abc")),
            Row::Hash(digest_of(b"")),
            Row::KV(kv(b"d", b"e", b"f")),
            Row::KV(kv(b"g", b"", b"h")),
            Row::Hash(digest_of(b"defgh")),
            Row::Hash(digest_of(b"")),
        ]
    );
    assert_eq!(reader.remaining(), 0);
}

#[test]
fn digest_is_fed_in_pieces() {
    let mut writer = Writer::init(Vec::new(), schema(b"", sizes(None, None, None))).unwrap();
    let mut all = Vec::new();
    for i in 0..50u8 {
        let scope = vec![i; 100];
        let key = vec![i.wrapping_mul(3); 7];
        let value = vec![i.wrapping_add(1); 1000];
        all.extend_from_slice(&scope);
        all.extend_from_slice(&key);
        all.extend_from_slice(&value);
        writer.write_kv(KV { scope, key, value }).unwrap();
    }
    assert_eq!(writer.write_hash().unwrap(), digest_of(&all));
}

#[test]
fn fixed_width_is_enforced() {
    let mut writer = Writer::init(Vec::new(), schema(b"", sizes(None, Some(8), None))).unwrap();
    let _ = writer.take_output();
    let refused = writer.write_kv(kv(b"sc", b"7 bytes", b"value"));
    assert!(matches!(
        refused,
        Err(Error::InputLength { config_len: 8, input_len: 7, which: InputKind::Key })
    ));
    // The tag and the scope are in the stream, nothing of key and value.
    assert_eq!(writer.output().as_slice(), &[0, 0, 0, 0, 2, b's', b'c'][..]);
    // And the scope went into the digest.
    assert_eq!(writer.write_hash().unwrap(), digest_of(b"sc"));
}

#[test]
fn fixed_width_is_checked_field_by_field() {
    let config = schema(b"", sizes(Some(1), Some(2), Some(3)));
    let mut writer = Writer::init(Vec::new(), config.clone()).unwrap();
    let _ = writer.take_output();
    assert!(matches!(
        writer.write_kv(kv(b"", b"", b"")),
        Err(Error::InputLength { config_len: 1, input_len: 0, which: InputKind::Scope })
    ));
    assert_eq!(writer.take_output(), vec![0]);
    assert!(matches!(
        writer.write_kv(kv(b"s", b"kk", b"vvvv")),
        Err(Error::InputLength { config_len: 3, input_len: 4, which: InputKind::Value })
    ));
    assert_eq!(writer.take_output(), vec![0, b's', b'k', b'k']);
    assert!(writer.write_kv(kv(b"s", b"kk", b"vvv")).is_ok());
    assert_eq!(writer.take_output(), vec![0, b's', b'k', b'k', b'v', b'v', b'v']);
}

#[test]
fn close_is_idempotent() {
    let mut writer = Writer::init(Vec::new(), schema(b"i", sizes(None, None, None))).unwrap();
    writer.write_kv(kv(b"a", b"b", b"c")).unwrap();
    writer.close().unwrap();
    let once = writer.output().clone();
    assert_eq!(once[once.len() - 1], 2);
    assert_eq!(once[once.len() - 34], 1);
    writer.close().unwrap();
    assert_eq!(writer.output(), &once);
    assert!(writer.is_closed());
}

#[test]
fn closed_writer_refuses_and_writes_nothing() {
    let mut writer = Writer::init(Vec::new(), schema(b"", sizes(None, None, None))).unwrap();
    writer.close().unwrap();
    let closed = writer.output().clone();
    assert!(matches!(writer.write_kv(kv(b"a", b"b", b"c")), Err(Error::Closed)));
    assert!(matches!(writer.write_hash(), Err(Error::Closed)));
    assert_eq!(writer.output(), &closed);
}

#[test]
fn tampered_value_is_detected_at_the_checkpoint() {
    let mut writer = Writer::init(Vec::new(), schema(b"t", sizes(None, None, None))).unwrap();
    writer.write_kv(kv(b"scope", b"key", b"value")).unwrap();
    writer.write_kv(kv(b"s", b"k", b"v")).unwrap();
    writer.close().unwrap();
    let good = writer.take_output();
    // header 22, tag 1, scope 4 + 5, key 4 + 3, length of the value 4
    let first_value_byte = 22 + 1 + 9 + 7 + 4;
    assert_eq!(&good[first_value_byte..first_value_byte + 5], b"value");

    for at in first_value_byte..first_value_byte + 5 {
        let mut bad = good.clone();
        bad[at] ^= 0x01;
        let mut changed = b"value".to_vec();
        changed[at - first_value_byte] ^= 0x01;
        let mut reader = Reader::init(bad).unwrap();
        assert_eq!(reader.read_row().unwrap(), Row::KV(kv(b"scope", b"key", &changed)));
        assert_eq!(reader.read_row().unwrap(), Row::KV(kv(b"s", b"k", b"v")));
        let mut read = b"scopekey".to_vec();
        read.extend_from_slice(&changed);
        read.extend_from_slice(b"skv");
        match reader.read_row() {
            Err(Error::Hash { existing, calculated }) => {
                assert_eq!(existing, digest_of(b"scopekeyvalueskv"));
                assert_eq!(calculated, digest_of(&read));
            }
            other => panic!("the changed byte went unnoticed: {:?}", other),
        }
    }
}

#[test]
fn failed_checkpoint_keeps_the_running_digest() {
    let mut writer = Writer::init(Vec::new(), schema(b"", sizes(None, None, None))).unwrap();
    writer.write_kv(kv(b"a", b"", b"")).unwrap();
    let mut bytes = writer.take_output();
    bytes.push(1);
    bytes.extend_from_slice(&[0u8; 32]);
    bytes.push(1);
    bytes.extend_from_slice(&digest_of(b"a"));
    bytes.push(2);
    let mut reader = Reader::init(bytes).unwrap();
    assert_eq!(reader.read_row().unwrap(), Row::KV(kv(b"a", b"", b"")));
    assert!(matches!(
        reader.read_row(),
        Err(Error::Hash { existing, calculated }) if existing == [0u8; 32] && calculated == digest_of(b"a")
    ));
    // The read went past the bad checkpoint; the next one agrees.
    assert_eq!(reader.read_row().unwrap(), Row::Hash(digest_of(b"a")));
    assert_eq!(reader.read_row().unwrap(), Row::End);
    assert_eq!(reader.remaining(), 0);
}

#[test]
fn wrong_magic_is_refused() {
    let mut bytes = Writer::init(Vec::new(), schema(b"", sizes(None, None, None)))
        .unwrap()
        .take_output();
    bytes[3] = 1;
    assert!(matches!(Reader::init(bytes), Err(Error::Version { existing: 0x4265_0001 })));
    // The magic number is judged before anything else is asked for.
    assert!(matches!(Reader::init(vec![1, 2, 3, 4]), Err(Error::Version { existing: 0x0102_0304 })));
}

#[test]
fn short_header_fails_as_io() {
    let full = Writer::init(Vec::new(), schema(b"abc", sizes(Some(1), None, None)))
        .unwrap()
        .take_output();
    assert_eq!(full.len(), 24);
    for cut in 0..full.len() {
        match Reader::init(full[..cut].to_vec()) {
            Err(Error::Io(e)) => assert_eq!(e.kind(), std::io::ErrorKind::UnexpectedEof),
            other => panic!("a header of {} bytes gave {:?}", cut, other.map(|_| ())),
        }
    }
    assert!(Reader::init(full).is_ok());
}

#[test]
fn unknown_row_tag_is_refused() {
    let mut bytes = Writer::init(Vec::new(), schema(b"", sizes(None, None, None)))
        .unwrap()
        .take_output();
    bytes.extend_from_slice(&[9, 2]);
    let mut reader = Reader::init(bytes).unwrap();
    assert!(matches!(reader.read_row(), Err(Error::RowType(9))));
    // Only the tag was consumed.
    assert_eq!(reader.remaining(), 1);
    assert_eq!(reader.read_row().unwrap(), Row::End);
}

#[test]
fn short_row_fails_as_io_and_drains_the_input() {
    let mut writer = Writer::init(Vec::new(), schema(b"", sizes(Some(2), None, None))).unwrap();
    let header = writer.take_output();
    writer.write_kv(kv(b"sc", b"key", b"value")).unwrap();
    let row = writer.take_output();
    for cut in 0..row.len() {
        let mut bytes = header.clone();
        bytes.extend_from_slice(&row[..cut]);
        let mut reader = Reader::init(bytes).unwrap();
        match reader.read_row() {
            Err(Error::Io(e)) => assert_eq!(e.kind(), std::io::ErrorKind::UnexpectedEof),
            other => panic!("a row of {} bytes gave {:?}", cut, other),
        }
        assert_eq!(reader.remaining(), 0);
    }
}

#[test]
fn short_checkpoint_fails_as_io() {
    let mut bytes = Writer::init(Vec::new(), schema(b"", sizes(None, None, None)))
        .unwrap()
        .take_output();
    bytes.push(1);
    bytes.extend_from_slice(&digest_of(b"")[..31]);
    let mut reader = Reader::init(bytes).unwrap();
    assert!(matches!(reader.read_row(), Err(Error::Io(_))));
    assert_eq!(reader.remaining(), 0);
}

#[test]
fn length_beyond_the_input_fails_as_io() {
    let mut bytes = Writer::init(Vec::new(), schema(b"", sizes(None, None, None)))
        .unwrap()
        .take_output();
    bytes.extend_from_slice(&[0, 0xff, 0xff, 0xff, 0xff, 1, 2, 3]);
    let mut reader = Reader::init(bytes).unwrap();
    assert!(matches!(reader.read_row(), Err(Error::Io(_))));
    assert_eq!(reader.remaining(), 0);
}

#[test]
fn walk_stops_at_the_end_row() {
    let mut writer = Writer::init(Vec::new(), schema(b"", sizes(None, None, None))).unwrap();
    writer.close().unwrap();
    let mut bytes = writer.take_output();
    bytes.extend_from_slice(&[0, 0, 0, 0, 0, 0, 0, 0, 0, 0, 0, 0, 0]);
    let mut reader = Reader::init(bytes).unwrap();
    assert_eq!(reader.next().unwrap().unwrap(), Row::Hash(digest_of(b"")));
    assert!(reader.next().is_none());
    assert!(reader.next().is_none());
    assert_eq!(reader.remaining(), 13);
    // Reading on is the caller's own step.
    assert_eq!(reader.read_row().unwrap(), Row::KV(kv(b"", b"", b"")));
    assert_eq!(reader.remaining(), 0);
}

#[test]
fn walk_hands_on_a_failure_once() {
    let mut bytes = Writer::init(Vec::new(), schema(b"", sizes(None, None, None)))
        .unwrap()
        .take_output();
    bytes.extend_from_slice(&[7, 0, 0, 0, 0, 1, b'a', 0, 0, 0, 0, 0, 0, 0, 0, 2]);
    let mut reader = Reader::init(bytes).unwrap();
    assert!(matches!(reader.next(), Some(Err(Error::RowType(7)))));
    assert!(reader.next().is_none());
    assert!(reader.next().is_none());
    assert_eq!(reader.remaining(), 15);
    // After the caller has read on, the walk goes on as well.
    assert_eq!(reader.read_row().unwrap(), Row::KV(kv(b"a", b"", b"")));
    assert!(reader.next().is_none());
    assert_eq!(reader.remaining(), 0);
}

#[test]
fn header_stores_all_three_widths() {
    let writer = Writer::init(Vec::new(), schema(b"", sizes(Some(7), Some(8), Some(9)))).unwrap();
    assert_eq!(writer.output()[8], 7);
    assert_eq!(writer.output()[9..21], [0, 0, 0, 7, 0, 0, 0, 8, 0, 0, 0, 9]);
}

#[test]
fn record_from_slices() {
    assert_eq!(KV::new(b"a", b"", b"cd"), kv(b"a", b"", b"cd"));
}

#[test]
fn source_is_consumed_from_the_front() {
    let mut bytes = vec![7u8, 0, 0, 1, 2, b'a', b'b'];
    bytes.extend_from_slice(&[5u8; 32]);
    bytes.push(9);
    let mut source = Source::new(bytes);
    assert_eq!(source.remaining(), 40);
    assert_eq!(source.read_u8().unwrap(), 7);
    assert_eq!(source.read_u32().unwrap(), 0x0000_0102);
    assert_eq!(source.read_bytes(2).unwrap(), b"ab".to_vec());
    assert_eq!(source.read_bytes(0).unwrap(), Vec::<u8>::new());
    assert_eq!(source.read_hash().unwrap(), [5u8; 32]);
    assert_eq!(source.remaining(), 1);
    assert_eq!(source.read_u8().unwrap(), 9);
    assert_eq!(source.remaining(), 0);
}

#[test]
fn source_that_ends_early_is_drained() {
    let mut source = Source::new(vec![1, 2, 3]);
    match source.read_u32() {
        Err(Error::Io(e)) => assert_eq!(e.kind(), std::io::ErrorKind::UnexpectedEof),
        other => panic!("three bytes gave {:?}", other),
    }
    assert_eq!(source.remaining(), 0);
    assert!(matches!(source.read_u8(), Err(Error::Io(_))));

    let mut source = Source::new(vec![1, 2, 3]);
    assert!(matches!(source.read_bytes(4), Err(Error::Io(_))));
    assert_eq!(source.remaining(), 0);
    assert_eq!(source.read_bytes(0).unwrap(), Vec::<u8>::new());

    let mut source = Source::new(vec![0; 31]);
    assert!(matches!(source.read_hash(), Err(Error::Io(_))));
    assert_eq!(source.remaining(), 0);
}

#[test]
fn io_failure_becomes_an_error_of_the_codec() {
    let e = Error::from(std::io::Error::from(std::io::ErrorKind::WriteZero));
    assert!(matches!(e, Error::Io(inner) if inner.kind() == std::io::ErrorKind::WriteZero));
}
