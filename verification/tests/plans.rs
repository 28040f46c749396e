//! What the library decides, on values chosen by hand. Nothing here touches
//! a FIFO.

use std::path::PathBuf;
use unix_fifo_async::error::EEXIST;
use unix_fifo_async::mode::{DEFAULT_MODE_BITS, PERMISSION_BITS};
use unix_fifo_async::{
    create_pipe, remove_pipe, CreationError, IoError, NamedPipePath, NamedPipeReader,
    NamedPipeWriter, PipeMode,
};

fn binding(path: &str) -> NamedPipePath {
    NamedPipePath::new(PathBuf::from(path))
}

#[test]
fn new_keeps_the_path() {
    let pipe = binding("./some/pipe");
    assert_eq!(pipe.location(), &PathBuf::from("./some/pipe"));
}

#[test]
fn clone_keeps_the_path() {
    let pipe = binding("./some/pipe");
    let copy = pipe.clone();
    assert_eq!(copy.location(), pipe.location());
}

#[test]
fn creation_plan_for_a_free_path_asks_for_a_fifo() {
    let pipe = binding("./a_pipe");
    let request = pipe.creation_plan(false).unwrap();
    assert_eq!(request.path, PathBuf::from("./a_pipe"));
    assert_eq!(request.mode.bits(), 0o644);
}

#[test]
fn creation_plan_for_a_taken_path_asks_nothing() {
    let pipe = binding("./a_pipe");
    assert!(pipe.creation_plan(true).is_none());
}

#[test]
fn removal_plan_for_a_taken_path_asks_for_the_unlink() {
    let pipe = binding("./a_pipe");
    let request = pipe.removal_plan(true).unwrap();
    assert_eq!(request.path, PathBuf::from("./a_pipe"));
}

#[test]
fn removal_plan_for_a_free_path_asks_nothing() {
    let pipe = binding("./a_pipe");
    assert!(pipe.removal_plan(false).is_none());
}

#[test]
fn readers_and_writers_carry_the_path() {
    let pipe = binding("./shared");
    let reader = pipe.open_read();
    let writer = pipe.open_write();
    assert_eq!(reader.read().path, PathBuf::from("./shared"));
    assert_eq!(writer.write(b"x").path, PathBuf::from("./shared"));
    let reader = NamedPipeReader::from_path(&pipe);
    let writer = NamedPipeWriter::from_path(&pipe);
    assert_eq!(reader.read().path, PathBuf::from("./shared"));
    assert_eq!(writer.write_str("x").path, PathBuf::from("./shared"));
    // the binding is still usable
    assert_eq!(pipe.location(), &PathBuf::from("./shared"));
}

#[test]
fn several_readers_are_independent_of_the_binding() {
    let pipe = binding("./shared");
    let first = pipe.open_read();
    let second = pipe.open_read();
    drop(pipe);
    assert_eq!(first.read().path, second.read().path);
}

#[test]
fn write_hands_the_bytes_on_unchanged() {
    let writer = binding("./p").open_write();
    let empty: [u8; 0] = [];
    assert_eq!(writer.write(&empty).data, &empty);
    let not_text = [0xff_u8, 0x00, 0xc3, 0x28];
    assert_eq!(writer.write(&not_text).data, &not_text);
    assert_eq!(writer.write(b"Hello pipe").data, b"Hello pipe");
}

#[test]
fn write_str_encodes_in_utf8() {
    let writer = binding("./p").open_write();
    assert_eq!(writer.write_str("Hello pipe").data, b"Hello pipe");
    assert_eq!(writer.write_str("").data, b"");
    assert_eq!(writer.write_str("é€").data, &[0xc3_u8, 0xa9, 0xe2, 0x82, 0xac]);
}

#[test]
fn read_string_decodes_utf8() {
    let reader = binding("./p").open_read();
    assert_eq!(reader.read_string(Ok(b"Hello pipe".to_vec())), Ok(String::from("Hello pipe")));
    assert_eq!(reader.read_string(Ok(Vec::new())), Ok(String::new()));
    assert_eq!(
        reader.read_string(Ok(vec![0xc3, 0xa9, 0xe2, 0x82, 0xac])),
        Ok(String::from("é€"))
    );
}

#[test]
fn read_string_rejects_bytes_that_are_no_text() {
    let reader = binding("./p").open_read();
    assert_eq!(reader.read_string(Ok(vec![0xff])), Err(IoError::Decoding));
    // a lone continuation byte, a truncated sequence, an overlong encoding, a surrogate
    assert_eq!(reader.read_string(Ok(vec![0x80])), Err(IoError::Decoding));
    assert_eq!(reader.read_string(Ok(vec![b'a', 0xe2, 0x82])), Err(IoError::Decoding));
    assert_eq!(reader.read_string(Ok(vec![0xc0, 0xaf])), Err(IoError::Decoding));
    assert_eq!(reader.read_string(Ok(vec![0xed, 0xa0, 0x80])), Err(IoError::Decoding));
}

#[test]
fn read_string_hands_errors_on() {
    let reader = binding("./p").open_read();
    assert_eq!(reader.read_string(Err(IoError::NotFound)), Err(IoError::NotFound));
    assert_eq!(
        reader.read_string(Err(IoError::PermissionDenied)),
        Err(IoError::PermissionDenied)
    );
    assert_eq!(reader.read_string(Err(IoError::Interrupted)), Err(IoError::Interrupted));
    assert_eq!(reader.read_string(Err(IoError::Other)), Err(IoError::Other));
}

#[test]
fn text_survives_the_round_trip() {
    let pipe = binding("./p");
    let writer = pipe.open_write();
    let reader = pipe.open_read();
    for text in ["", "Hello pipe", "zwölf Boxkämpfer", "日本語", "\u{10ffff}\u{0}"] {
        let sent = writer.write_str(text);
        let received = Ok(sent.data.to_vec());
        assert_eq!(reader.read_string(received), Ok(String::from(text)));
    }
}

#[test]
fn sessions_stay_apart() {
    let pipe = binding("./p");
    let reader = pipe.open_read();
    let first = pipe.open_write().write_str("first").data.to_vec();
    let second = pipe.open_write().write_str("second").data.to_vec();
    assert_eq!(reader.read_string(Ok(first)), Ok(String::from("first")));
    assert_eq!(reader.read_string(Ok(second)), Ok(String::from("second")));
}

#[test]
fn errno_of_an_existing_entry_is_told_apart() {
    assert_eq!(EEXIST, 17);
    assert_eq!(CreationError::from_errno(17), CreationError::AlreadyExists);
    assert_eq!(CreationError::from_errno(2), CreationError::Os(2));
    assert_eq!(CreationError::from_errno(13), CreationError::Os(13));
    assert_eq!(CreationError::from_errno(0), CreationError::Os(0));
    assert_eq!(CreationError::from_errno(-1), CreationError::Os(-1));
}

#[test]
fn modes_hold_permission_bits_only() {
    assert_eq!(PERMISSION_BITS, 0o7777);
    assert_eq!(PipeMode::from_bits(0).unwrap().bits(), 0);
    assert_eq!(PipeMode::from_bits(0o600).unwrap().bits(), 0o600);
    assert_eq!(PipeMode::from_bits(0o7777).unwrap().bits(), 0o7777);
    assert!(PipeMode::from_bits(0o10000).is_none());
    assert!(PipeMode::from_bits(0o10644).is_none());
    assert!(PipeMode::from_bits(u32::MAX).is_none());
}

#[test]
fn default_mode_is_rw_for_owner_and_r_for_the_rest() {
    assert_eq!(DEFAULT_MODE_BITS, 0o644);
    assert_eq!(PipeMode::default().bits(), 0o644);
}

#[test]
fn create_pipe_applies_the_default_mode() {
    let path = PathBuf::from("./made");
    let request = create_pipe(&path, None);
    assert_eq!(request.path, path);
    assert_eq!(request.mode.bits(), 0o644);
}

#[test]
fn create_pipe_keeps_a_given_mode() {
    let path = PathBuf::from("./made");
    let request = create_pipe(&path, PipeMode::from_bits(0o600));
    assert_eq!(request.path, path);
    assert_eq!(request.mode.bits(), 0o600);
}

#[test]
fn remove_pipe_names_the_path() {
    let path = PathBuf::from("./gone");
    assert_eq!(remove_pipe(&path).path, path);
}

#[test]
fn ensure_exists_asks_nothing_where_an_entry_is() {
    let root = binding("/");
    assert!(root.is_present());
    assert!(root.ensure_exists().is_none());
    assert!(root.open_read().ensure_pipe_exists().is_none());
    assert!(root.open_write().ensure_pipe_exists().is_none());
}

#[test]
fn ensure_exists_asks_for_a_fifo_where_none_is() {
    let pipe = binding("/no_such_directory_anywhere/pipe");
    assert!(!pipe.is_present());
    let request = pipe.ensure_exists().unwrap();
    assert_eq!(request.path, PathBuf::from("/no_such_directory_anywhere/pipe"));
    assert_eq!(request.mode.bits(), 0o644);
    let request = pipe.open_read().ensure_pipe_exists().unwrap();
    assert_eq!(request.path, PathBuf::from("/no_such_directory_anywhere/pipe"));
    let request = pipe.open_write().ensure_pipe_exists().unwrap();
    assert_eq!(request.path, PathBuf::from("/no_such_directory_anywhere/pipe"));
}

#[test]
fn delete_asks_nothing_where_no_entry_is() {
    let pipe = binding("/no_such_directory_anywhere/pipe");
    assert!(pipe.delete().is_none());
}
