use sst_writer::encoder::{key_bytes, value_bytes, Object};
use sst_writer::error::{check_error_slot, EncodingError, WriterError};
use sst_writer::state::{advance, is_allowed, Operation, WriterState};
use sst_writer::writer::SstFileWriterPy;

fn bytes(s: &str) -> Object {
    Object::Bytes(s.as_bytes().to_vec())
}

fn opened(raw_mode: bool) -> SstFileWriterPy {
    let mut w = SstFileWriterPy::create(raw_mode);
    assert_eq!(w.check(Operation::Open), Ok(()));
    assert_eq!(w.open(None), Ok(()));
    w
}

#[test]
fn raw_end_to_end_put_put_delete_finish() {
    let mut w = opened(true);
    assert_eq!(w.current_state(), WriterState::Opened);
    let (k, v) = w.prepare_put(&bytes("a"), &bytes("1")).unwrap();
    assert_eq!((k.clone(), v.clone()), (b"a".to_vec(), b"1".to_vec()));
    assert_eq!(w.put(&k, &v, None), Ok(()));
    let (k, v) = w.prepare_put(&bytes("b"), &bytes("2")).unwrap();
    assert_eq!(w.put(&k, &v, None), Ok(()));
    let k = w.prepare_delete(&bytes("c")).unwrap();
    assert_eq!(k, b"c".to_vec());
    assert_eq!(w.delete(&k, None), Ok(()));
    assert_eq!(w.check(Operation::Finish), Ok(()));
    assert_eq!(w.finish(None), Ok(()));
    assert_eq!(w.current_state(), WriterState::Finished);
}

#[test]
fn raw_non_increasing_key_surfaces_native_error() {
    let mut w = opened(true);
    let (k, v) = w.prepare_put(&bytes("a"), &bytes("1")).unwrap();
    assert_eq!(w.put(&k, &v, None), Ok(()));
    let (k, v) = w.prepare_put(&bytes("a"), &bytes("2")).unwrap();
    let msg = "Invalid argument: Keys must be added in strict ascending order.".to_string();
    assert_eq!(w.put(&k, &v, Some(msg.clone())), Err(WriterError::Native(msg)));
    assert_eq!(w.current_state(), WriterState::Opened);
}

#[test]
fn put_before_open_fails_with_state_error() {
    let mut w = SstFileWriterPy::create(true);
    let wrong = WriterError::WrongState { state: WriterState::Unopened, op: Operation::Put };
    assert_eq!(w.prepare_put(&bytes("a"), &bytes("1")), Err(wrong.clone()));
    assert_eq!(w.put(&b"a".to_vec(), &b"1".to_vec(), None), Err(wrong));
    assert_eq!(
        w.delete(&b"a".to_vec(), None),
        Err(WriterError::WrongState { state: WriterState::Unopened, op: Operation::Delete })
    );
    assert_eq!(
        w.finish(None),
        Err(WriterError::WrongState { state: WriterState::Unopened, op: Operation::Finish })
    );
    assert_eq!(w.current_state(), WriterState::Unopened);
}

#[test]
fn open_twice_fails_and_keeps_state() {
    let mut w = opened(false);
    let wrong = WriterError::WrongState { state: WriterState::Opened, op: Operation::Open };
    assert_eq!(w.check(Operation::Open), Err(wrong.clone()));
    assert_eq!(w.open(None), Err(wrong));
    assert_eq!(w.current_state(), WriterState::Opened);
}

#[test]
fn finish_twice_fails_and_keeps_state() {
    let mut w = opened(true);
    assert_eq!(w.finish(None), Ok(()));
    assert_eq!(
        w.finish(None),
        Err(WriterError::WrongState { state: WriterState::Finished, op: Operation::Finish })
    );
    assert_eq!(
        w.prepare_delete(&bytes("z")),
        Err(WriterError::WrongState { state: WriterState::Finished, op: Operation::Delete })
    );
    assert_eq!(w.current_state(), WriterState::Finished);
}

#[test]
fn failed_open_stays_unopened_and_may_retry() {
    let mut w = SstFileWriterPy::create(true);
    let msg = "IO error: No such file or directory".to_string();
    assert_eq!(w.open(Some(msg.clone())), Err(WriterError::Native(msg)));
    assert_eq!(w.current_state(), WriterState::Unopened);
    assert_eq!(w.open(None), Ok(()));
    assert_eq!(w.current_state(), WriterState::Opened);
}

#[test]
fn failed_finish_stays_opened() {
    let mut w = opened(true);
    let msg = "Invalid argument: Cannot create sst file with no entries".to_string();
    assert_eq!(w.finish(Some(msg.clone())), Err(WriterError::Native(msg)));
    assert_eq!(w.current_state(), WriterState::Opened);
}

#[test]
fn raw_mode_rejects_non_bytes() {
    let w = opened(true);
    assert!(w.is_raw_mode());
    assert_eq!(
        w.prepare_put(&Object::Str("a".to_string()), &bytes("1")),
        Err(WriterError::Encoding(EncodingError::RawModeNeedsBytes))
    );
    assert_eq!(
        w.prepare_put(&bytes("a"), &Object::Int(1)),
        Err(WriterError::Encoding(EncodingError::RawModeNeedsBytes))
    );
    assert_eq!(
        w.prepare_delete(&Object::Bool(true)),
        Err(WriterError::Encoding(EncodingError::RawModeNeedsBytes))
    );
    assert_eq!(key_bytes(&Object::Other, true), Err(EncodingError::RawModeNeedsBytes));
    assert_eq!(value_bytes(&Object::Other, true), Err(EncodingError::RawModeNeedsBytes));
}

#[test]
fn structured_keys_are_tagged() {
    assert_eq!(key_bytes(&bytes("ab"), false), Ok(vec![1, b'a', b'b']));
    assert_eq!(key_bytes(&Object::Bool(true), false), Ok(vec![2, 1]));
    assert_eq!(key_bytes(&Object::Bool(false), false), Ok(vec![2, 0]));
    assert_eq!(key_bytes(&Object::Str("hé".to_string()), false), Ok(vec![3, b'h', 0xc3, 0xa9]));
    assert_eq!(key_bytes(&Object::Int(0), false), Ok(vec![4, 0x80, 0, 0, 0, 0, 0, 0, 0]));
    assert_eq!(key_bytes(&Object::Int(-1), false), Ok(vec![4, 0x7f, 0xff, 0xff, 0xff, 0xff, 0xff, 0xff, 0xff]));
    assert_eq!(key_bytes(&Object::Int(258), false), Ok(vec![4, 0x80, 0, 0, 0, 0, 0, 1, 2]));
    assert_eq!(key_bytes(&Object::Int(i64::MIN), false), Ok(vec![4, 0, 0, 0, 0, 0, 0, 0, 0]));
    assert_eq!(key_bytes(&Object::Int(i64::MAX), false), Ok(vec![4, 0xff, 0xff, 0xff, 0xff, 0xff, 0xff, 0xff, 0xff]));
    assert_eq!(key_bytes(&Object::Other, false), Err(EncodingError::UnsupportedKey));
}

#[test]
fn structured_integer_keys_keep_their_order() {
    let xs: [i64; 6] = [i64::MIN, -300, -1, 0, 1, 70000];
    for i in 1..xs.len() {
        let a = key_bytes(&Object::Int(xs[i - 1]), false).unwrap();
        let b = key_bytes(&Object::Int(xs[i]), false).unwrap();
        assert!(a < b);
    }
}

#[test]
fn structured_put_uses_serializer_output() {
    let w = opened(false);
    assert!(!w.is_raw_mode());
    let (k, v) = w.prepare_put(&Object::Str("k".to_string()), &bytes("\u{80}data")).unwrap();
    assert_eq!(k, vec![3, b'k']);
    assert_eq!(v, "\u{80}data".as_bytes().to_vec());
    assert_eq!(
        w.prepare_put(&Object::Int(1), &Object::Str("not bytes".to_string())),
        Err(WriterError::Encoding(EncodingError::SerializerNotBytes))
    );
    assert_eq!(
        w.prepare_put(&Object::Other, &bytes("x")),
        Err(WriterError::Encoding(EncodingError::UnsupportedKey))
    );
    assert_eq!(value_bytes(&bytes(""), false), Ok(vec![]));
}

#[test]
fn error_slot_translation() {
    assert_eq!(check_error_slot(7u64, None), Ok(7u64));
    assert_eq!(
        check_error_slot(7u64, Some("boom".to_string())),
        Err(WriterError::Native("boom".to_string()))
    );
}

#[test]
fn state_table() {
    assert!(is_allowed(WriterState::Unopened, Operation::Open));
    assert!(!is_allowed(WriterState::Opened, Operation::Open));
    assert!(is_allowed(WriterState::Opened, Operation::Put));
    assert!(!is_allowed(WriterState::Unopened, Operation::Delete));
    assert!(!is_allowed(WriterState::Finished, Operation::Finish));
    assert_eq!(advance(WriterState::Unopened, Operation::Open), WriterState::Opened);
    assert_eq!(advance(WriterState::Opened, Operation::Put), WriterState::Opened);
    assert_eq!(advance(WriterState::Opened, Operation::Finish), WriterState::Finished);
}

#[test]
fn dropping_an_open_writer_is_permitted() {
    // A writer may be dropped before `finish`: the file is then left
    // incomplete, and no error is reported for it.
    let mut w = opened(true);
    let (k, v) = w.prepare_put(&bytes("a"), &bytes("1")).unwrap();
    assert_eq!(w.put(&k, &v, None), Ok(()));
    assert_eq!(w.current_state(), WriterState::Opened);
    drop(w);
}

#[test]
fn encoding_error_comes_before_state_error() {
    let unopened = SstFileWriterPy::create(true);
    assert_eq!(
        unopened.prepare_put(&Object::Int(1), &bytes("1")),
        Err(WriterError::Encoding(EncodingError::RawModeNeedsBytes))
    );
    assert_eq!(
        unopened.prepare_put(&bytes("a"), &Object::Other),
        Err(WriterError::Encoding(EncodingError::RawModeNeedsBytes))
    );
    assert_eq!(
        unopened.prepare_delete(&Object::Str("a".to_string())),
        Err(WriterError::Encoding(EncodingError::RawModeNeedsBytes))
    );
    let mut finished = opened(false);
    assert_eq!(finished.finish(None), Ok(()));
    assert_eq!(
        finished.prepare_put(&Object::Int(1), &Object::Str("x".to_string())),
        Err(WriterError::Encoding(EncodingError::SerializerNotBytes))
    );
    assert_eq!(
        finished.prepare_put(&Object::Int(1), &bytes("x")),
        Err(WriterError::WrongState { state: WriterState::Finished, op: Operation::Put })
    );
}
