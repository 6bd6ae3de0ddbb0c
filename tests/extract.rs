use hashbang::config::ExtractStep;
use hashbang::extract::{extract, ExtractError, ExtractState};

const HELLO: &[u8] = b"#!/bin/sh\necho hello world\n";

fn compressed() -> Vec<u8> {
    zstd::encode_all(HELLO, 3).unwrap()
}

#[test]
fn test_extract_zstd_make_exec() {
    let steps = vec![ExtractStep::ZstdDecompress, ExtractStep::MakeExecutable("hello_world.sh".to_string())];
    let state = extract(compressed(), &steps).unwrap();
    assert_eq!(state.final_name.as_deref(), Some("hello_world.sh"));
    assert!(state.executable);
    assert_eq!(state.file_contents(), HELLO);
}

#[test]
fn invalid_payload_fails_to_decompress() {
    let steps = vec![ExtractStep::ZstdDecompress, ExtractStep::MakeExecutable("x".to_string())];
    assert_eq!(extract(b"not zstd".to_vec(), &steps).unwrap_err(), ExtractError::Decompress);
}

#[test]
fn no_steps_keeps_nothing() {
    let state = extract(compressed(), &vec![]).unwrap();
    assert_eq!(state.final_name, None);
    assert!(!state.executable);
    assert!(state.file_contents().is_empty());
}

#[test]
fn last_make_executable_names_the_file() {
    let steps = vec![
        ExtractStep::MakeExecutable("first".to_string()),
        ExtractStep::ZstdDecompress,
        ExtractStep::MakeExecutable("second".to_string()),
    ];
    let state = extract(compressed(), &steps).unwrap();
    assert_eq!(state.final_name.as_deref(), Some("second"));
    assert_eq!(state.file_contents(), HELLO);
}

#[test]
fn state_steps() {
    let s = ExtractState::new(vec![1, 2]);
    assert!(!s.written);
    let s = s.decompressed(vec![3]);
    assert_eq!(s.file_contents(), &[3u8][..]);
    let s = s.made_executable("n".to_string());
    assert_eq!(s.final_name.as_deref(), Some("n"));
    assert!(s.executable);
}
