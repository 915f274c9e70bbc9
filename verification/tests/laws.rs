//! The laws of the in-memory tape, on concrete tapes.

use mtio::{IoFault, MockTape, Tape, TapeCall, TapeError};

/// A tape of these tape files, closed by one filemark each, at BOT.
fn recorded(files: &[&[u8]]) -> MockTape {
    let mut tape = MockTape::new();
    for data in files {
        assert_eq!(tape.write(data).unwrap(), data.len());
        tape.write_filemarks(1).unwrap();
    }
    tape.rewind().unwrap();
    tape
}

/// What reads of `chunk` bytes deliver until one delivers nothing.
fn drain(tape: &mut MockTape, chunk: usize) -> Vec<u8> {
    let mut all: Vec<u8> = Vec::new();
    let mut buf: Vec<u8> = vec![0; chunk];
    loop {
        let n = tape.read(&mut buf).unwrap();
        if n == 0 {
            return all;
        }
        all.extend_from_slice(&buf[..n]);
    }
}

fn file_number(tape: &mut MockTape) -> i32 {
    tape.status().unwrap().file_number
}

fn block_number(tape: &mut MockTape) -> i32 {
    tape.status().unwrap().block_number
}

#[test]
fn read_returns_what_was_written() {
    let mut tape = recorded(&[b"first", b"abcdef"]);
    tape.space_filemarks(1).unwrap();
    assert_eq!(tape.read(&mut [0u8; 2]).unwrap(), 2);
    tape.write(b"XY").unwrap();
    tape.write_filemarks(1).unwrap();
    tape.space_filemarks(-1).unwrap();
    let mut buf = [b'.'; 6];
    assert_eq!(tape.read(&mut buf).unwrap(), 4);
    assert_eq!(&buf, b"abXY..");
}

#[test]
fn tape_written_from_bot_reads_back() {
    let mut marked = recorded(&[b"old"]);
    marked.write(b"new").unwrap();
    marked.write_filemarks(1).unwrap();
    marked.rewind().unwrap();
    let mut unmarked = recorded(&[b"old"]);
    unmarked.write(b"new").unwrap();
    unmarked.rewind().unwrap();
    assert_eq!(marked.files(), unmarked.files());
    assert_eq!(drain(&mut marked, 8), b"new");
    assert_eq!(drain(&mut unmarked, 8), b"new");

    let mut empty = recorded(&[b"old"]);
    empty.write(b"").unwrap();
    empty.rewind().unwrap();
    assert_eq!(empty.file_count(), 0);
}

#[test]
fn writes_continue_the_tape_file() {
    let mut twice = MockTape::new();
    twice.write(b"ab").unwrap();
    twice.write(b"cd").unwrap();
    let mut once = MockTape::new();
    once.write(b"abcd").unwrap();
    assert_eq!(twice.files(), once.files());
    assert_eq!(twice.status().unwrap(), once.status().unwrap());
}

#[test]
fn reads_reassemble_a_tape_file() {
    for chunk in 1..9 {
        let mut tape = recorded(&[b"abcdefgh", b"next"]);
        assert_eq!(drain(&mut tape, chunk), b"abcdefgh");
        assert_eq!(file_number(&mut tape), 1);
        assert_eq!(block_number(&mut tape), 0);
    }
}

#[test]
fn tape_files_read_back_in_turn() {
    let mut tape = MockTape::new();
    for data in [&b"a"[..], b"", b"ccc"] {
        tape.write(data).unwrap();
        tape.write_filemarks(1).unwrap();
    }
    tape.rewind().unwrap();
    assert_eq!(tape.files(), [b"a".to_vec(), Vec::new(), b"ccc".to_vec()]);
    assert_eq!(drain(&mut tape, 2), b"a");
    assert_eq!(drain(&mut tape, 2), b"");
    assert_eq!(drain(&mut tape, 2), b"ccc");
}

#[test]
fn trailing_empty_tape_file_leaves_no_trace() {
    let mut tape = MockTape::new();
    tape.write(b"a").unwrap();
    tape.write_filemarks(1).unwrap();
    tape.write(b"").unwrap();
    tape.write_filemarks(1).unwrap();
    assert_eq!(tape.files(), [b"a".to_vec()]);
    assert_eq!(file_number(&mut tape), 2);
}

#[test]
fn write_discards_what_follows() {
    let mut tape = recorded(&[b"zero", b"one", b"two"]);
    tape.space_filemarks(1).unwrap();
    tape.read(&mut [0u8; 1]).unwrap();
    tape.write(b"!").unwrap();
    assert_eq!(tape.files(), [b"zero".to_vec(), b"o!".to_vec()]);
}

#[test]
fn writing_past_the_recorded_files_fills_the_gap() {
    let mut tape = MockTape::new();
    tape.write_filemarks(2).unwrap();
    assert_eq!(tape.file_count(), 0);
    tape.write(b"x").unwrap();
    assert_eq!(tape.files(), [Vec::new(), Vec::new(), b"x".to_vec()]);
}

#[test]
fn append_keeps_all_tape_files() {
    let mut tape = recorded(&[b"zero", b"one"]);
    tape.seek_to_eod().unwrap();
    tape.write(b"two").unwrap();
    assert_eq!(tape.files(), [b"zero".to_vec(), b"one".to_vec(), b"two".to_vec()]);
}

#[test]
fn last_tape_file_can_be_removed() {
    let mut tape = recorded(&[b"zero", b"one"]);
    tape.seek_to_eod().unwrap();
    tape.space_filemarks(-1).unwrap();
    tape.write_filemarks(2).unwrap();
    assert_eq!(tape.files(), [b"zero".to_vec()]);
}

#[test]
fn last_tape_file_is_kept_while_it_is_open() {
    let mut tape = recorded(&[b"zero"]);
    tape.seek_to_eod().unwrap();
    tape.write(b"open").unwrap();
    tape.seek_to_eod().unwrap();
    tape.space_filemarks(-1).unwrap();
    tape.write_filemarks(2).unwrap();
    assert_eq!(tape.files(), [b"zero".to_vec(), b"open".to_vec()]);
}

#[test]
fn filemarks_add_up() {
    let mut split = MockTape::new();
    split.write(b"a").unwrap();
    split.write_filemarks(1).unwrap();
    split.write_filemarks(2).unwrap();
    let mut joined = MockTape::new();
    joined.write(b"a").unwrap();
    joined.write_filemarks(3).unwrap();
    assert_eq!(split.files(), joined.files());
    assert_eq!(split.status().unwrap(), joined.status().unwrap());
    assert_eq!(split.position().unwrap(), 3);
}

#[test]
fn no_filemark_is_no_operation() {
    let mut tape = recorded(&[b"abc", b"def"]);
    tape.read(&mut [0u8; 1]).unwrap();
    let before = tape.status().unwrap();
    tape.write_filemarks(0).unwrap();
    assert_eq!(tape.status().unwrap(), before);
    assert_eq!(tape.files(), [b"abc".to_vec(), b"def".to_vec()]);
}

#[test]
fn motion_closes_an_open_tape_file() {
    let mut back = MockTape::new();
    back.write(b"a").unwrap();
    back.space_filemarks(-1).unwrap();
    assert_eq!(back.position().unwrap(), 0);
    assert_eq!(drain(&mut back, 4), b"a");

    let mut ejected = MockTape::new();
    ejected.write(b"a").unwrap();
    ejected.unload().unwrap();
    assert_eq!(ejected.files(), [b"a".to_vec()]);
    assert_eq!(drain(&mut ejected, 4), b"a");
    ejected.space_filemarks(-1).unwrap();
    assert_eq!(ejected.position().unwrap(), 0);

    let mut sought = recorded(&[b"a", b"b"]);
    sought.write(b"c").unwrap();
    sought.seek_block(0).unwrap();
    assert_eq!(drain(&mut sought, 4), b"c");
    assert_eq!(sought.file_count(), 1);
}

#[test]
fn explicit_filemark_leaves_nothing_to_close() {
    let mut tape = MockTape::new();
    tape.write(b"a").unwrap();
    tape.write_filemarks(1).unwrap();
    tape.space_filemarks(-1).unwrap();
    assert_eq!(tape.position().unwrap(), 0);
}

#[test]
fn unload_rewinds() {
    let mut tape = recorded(&[b"zero", b"one"]);
    tape.space_filemarks(1).unwrap();
    tape.read(&mut [0u8; 2]).unwrap();
    tape.unload().unwrap();
    assert!(tape.status().unwrap().flags.is_bot());
    assert_eq!((file_number(&mut tape), block_number(&mut tape)), (0, 0));
    assert_eq!(drain(&mut tape, 8), b"zero");
}

#[test]
fn forward_spacing_closes_nothing() {
    let mut tape = MockTape::new();
    tape.write(b"a").unwrap();
    tape.space_filemarks(3).unwrap();
    assert_eq!(tape.position().unwrap(), 3);
    assert_eq!(tape.files(), [b"a".to_vec()]);
    tape.space_filemarks(-1).unwrap();
    assert_eq!(tape.position().unwrap(), 3);
}

#[test]
fn write_protected_tape_refuses_writing_and_is_kept() {
    let mut tape = recorded(&[b"abc"]).write_protected();
    match tape.write(b"x") {
        Err(TapeError::Io(fault)) => assert_eq!(fault, IoFault::WriteProtected),
        other => panic!("unexpected outcome {other:?}"),
    }
    assert!(matches!(tape.write_filemarks(0), Err(TapeError::WriteProtected)));
    assert!(matches!(tape.write_filemarks(1), Err(TapeError::WriteProtected)));
    assert!(matches!(tape.erase(), Err(TapeError::WriteProtected)));
    assert_eq!(tape.files(), [b"abc".to_vec()]);
    assert_eq!(drain(&mut tape, 2), b"abc");
}

#[test]
fn open_tape_file_is_closed_on_a_write_protected_tape() {
    let mut tape = recorded(&[b"zero"]);
    tape.seek_to_eod().unwrap();
    tape.write(b"abc").unwrap();
    let mut tape = tape.write_protected();
    tape.space_filemarks(-1).unwrap();
    assert_eq!(tape.position().unwrap(), 1);
    assert_eq!(tape.files(), [b"zero".to_vec(), b"abc".to_vec()]);
}

#[test]
fn only_writing_changes_the_tape() {
    let mut tape = recorded(&[b"abcd", b"ef"]);
    tape.read(&mut [0u8; 3]).unwrap();
    tape.flush().unwrap();
    tape.set_block_size(2).unwrap();
    tape.space_records(1).unwrap();
    tape.space_filemarks(1).unwrap();
    tape.seek_to_eod().unwrap();
    tape.space_filemarks(-1).unwrap();
    tape.seek_block(1).unwrap();
    tape.load().unwrap();
    tape.lock().unwrap();
    tape.unlock().unwrap();
    tape.unload().unwrap();
    tape.rewind().unwrap();
    assert_eq!(tape.files(), [b"abcd".to_vec(), b"ef".to_vec()]);
}

#[test]
fn seek_to_eod_leaves_nothing_to_read() {
    let mut tape = recorded(&[b"abcd"]);
    tape.seek_to_eod().unwrap();
    assert!(tape.status().unwrap().flags.is_eod());
    assert_eq!(tape.read(&mut [0u8; 4]).unwrap(), 0);
}

#[test]
fn seek_block_returns_to_a_position() {
    let mut tape = recorded(&[b"zero", b"one", b"two"]);
    tape.space_filemarks(1).unwrap();
    let block = tape.position().unwrap();
    assert_eq!(block, 1);
    tape.seek_to_eod().unwrap();
    tape.seek_block(block).unwrap();
    assert_eq!(drain(&mut tape, 16), b"one");
}

#[test]
fn seek_block_is_refused_above_32_bits() {
    let mut tape = recorded(&[b"zero"]);
    tape.read(&mut [0u8; 2]).unwrap();
    let before = tape.status().unwrap();
    let largest = i32::MAX as u64;
    assert!(tape.accepts(TapeCall::SeekBlock(largest + 1)));
    assert!(matches!(
        tape.seek_block(largest + 1),
        Err(TapeError::BlockNumberTooLarge(2_147_483_648))
    ));
    assert_eq!(tape.status().unwrap(), before);
    tape.seek_block(largest).unwrap();
    assert_eq!(tape.position().unwrap(), largest);
}

#[test]
fn backward_spacing_undoes_forward_spacing() {
    let mut tape = recorded(&[b"zero", b"one", b"two"]);
    tape.space_filemarks(2).unwrap();
    tape.space_filemarks(-2).unwrap();
    assert_eq!(tape.position().unwrap(), 0);
    assert_eq!(drain(&mut tape, 16), b"zero");
}

#[test]
fn spacing_over_no_filemark_is_no_operation() {
    let mut tape = recorded(&[b"zero", b"one"]);
    tape.space_filemarks(1).unwrap();
    let before = tape.status().unwrap();
    tape.space_filemarks(0).unwrap();
    assert_eq!(tape.status().unwrap(), before);
}

#[test]
fn spacing_over_no_filemark_keeps_the_offset() {
    let mut tape = recorded(&[b"abcdef"]);
    tape.read(&mut [0u8; 3]).unwrap();
    tape.space_filemarks(0).unwrap();
    assert_eq!(block_number(&mut tape), 3);
    assert_eq!(drain(&mut tape, 8), b"def");
    tape.seek_block(0).unwrap();
    tape.space_filemarks(0).unwrap();
    assert_eq!((file_number(&mut tape), block_number(&mut tape)), (-1, -1));
    tape.seek_to_eod().unwrap();
    tape.read(&mut [0u8; 1]).unwrap();
    tape.read(&mut [0u8; 1]).unwrap();
    tape.space_filemarks(0).unwrap();
    assert!(tape.read(&mut [0u8; 1]).is_err());
}

#[test]
fn empty_read_is_no_operation() {
    let mut tape = recorded(&[b"ab", b"cd"]);
    tape.read(&mut [0u8; 2]).unwrap();
    assert_eq!(tape.read(&mut []).unwrap(), 0);
    assert_eq!((file_number(&mut tape), block_number(&mut tape)), (0, 2));
    assert_eq!(tape.read(&mut [0u8; 2]).unwrap(), 0);
    assert_eq!(file_number(&mut tape), 1);
}

#[test]
fn empty_read_counts_on_blank_tape() {
    let mut tape = recorded(&[b"ab"]);
    tape.seek_to_eod().unwrap();
    assert_eq!(tape.read(&mut []).unwrap(), 0);
    assert_eq!(tape.read(&mut []).unwrap(), 0);
    match tape.read(&mut []) {
        Err(TapeError::Io(fault)) => assert_eq!(fault, IoFault::EndOfData),
        other => panic!("unexpected outcome {other:?}"),
    }
    assert!(tape.read(&mut [0u8; 2]).is_err());
}

#[test]
fn empty_tape_file_at_the_end_reads_as_blank_tape() {
    let mut tape = MockTape::new();
    for data in [&b"a"[..], b"", b""] {
        tape.write(data).unwrap();
        tape.write_filemarks(1).unwrap();
    }
    tape.rewind().unwrap();
    assert_eq!(tape.files(), [b"a".to_vec(), Vec::new()]);
    assert_eq!(drain(&mut tape, 2), b"a");
    assert_eq!(drain(&mut tape, 2), b"");
    assert!(tape.status().unwrap().flags.is_eod());
    assert_eq!(drain(&mut tape, 2), b"");
    assert_eq!(tape.read(&mut [0u8; 2]).unwrap(), 0);
    assert!(tape.read(&mut [0u8; 2]).is_err());
}

#[test]
fn backward_spacing_stops_at_bot() {
    let mut tape = recorded(&[b"zero", b"one"]);
    tape.space_filemarks(1).unwrap();
    tape.space_filemarks(-7).unwrap();
    assert!(tape.status().unwrap().flags.is_bot());
}

#[test]
fn record_spacing_skips_whole_blocks() {
    let mut tape = recorded(&[b"aabbccdd"]);
    tape.set_block_size(2).unwrap();
    tape.space_records(3).unwrap();
    assert_eq!(block_number(&mut tape), 6);
    tape.space_records(-2).unwrap();
    assert_eq!(block_number(&mut tape), 2);
    let mut buf = [0u8; 2];
    assert_eq!(tape.read(&mut buf).unwrap(), 2);
    assert_eq!(&buf, b"bb");
    tape.space_records(-9).unwrap();
    assert_eq!(block_number(&mut tape), 0);
}

#[test]
fn record_spacing_past_the_end_reaches_the_filemark() {
    let mut tape = recorded(&[b"aabb", b"cc"]);
    tape.set_block_size(2).unwrap();
    tape.space_records(5).unwrap();
    assert_eq!(block_number(&mut tape), 10);
    assert_eq!(tape.read(&mut [0u8; 2]).unwrap(), 0);
    assert_eq!(file_number(&mut tape), 1);
    assert_eq!(drain(&mut tape, 2), b"cc");
}

#[test]
fn record_spacing_makes_the_position_known() {
    let mut tape = recorded(&[b"aabb", b"ccdd"]);
    tape.set_block_size(2).unwrap();
    tape.seek_block(1).unwrap();
    assert_eq!(file_number(&mut tape), -1);
    assert_eq!(block_number(&mut tape), -1);
    tape.space_records(1).unwrap();
    assert_eq!(file_number(&mut tape), 1);
    assert_eq!(block_number(&mut tape), 2);
}

#[test]
fn position_is_forgotten_and_known_again() {
    let mut tape = recorded(&[b"zero", b"one"]);
    tape.seek_block(1).unwrap();
    assert_eq!((file_number(&mut tape), block_number(&mut tape)), (-1, -1));
    assert_eq!(tape.read(&mut []).unwrap(), 0);
    assert_eq!((file_number(&mut tape), block_number(&mut tape)), (-1, -1));
    tape.read(&mut [0u8; 1]).unwrap();
    assert_eq!((file_number(&mut tape), block_number(&mut tape)), (1, 1));
    tape.space_filemarks(-1).unwrap();
    assert_eq!((file_number(&mut tape), block_number(&mut tape)), (0, -1));
    tape.space_filemarks(1).unwrap();
    assert_eq!((file_number(&mut tape), block_number(&mut tape)), (1, 0));
    tape.seek_block(0).unwrap();
    tape.seek_to_eod().unwrap();
    assert_eq!((file_number(&mut tape), block_number(&mut tape)), (2, 0));
}

#[test]
fn end_of_data_is_signalled_twice_and_lasts() {
    let mut tape = MockTape::new();
    assert_eq!(tape.read(&mut [0u8; 4]).unwrap(), 0);
    assert_eq!(tape.read(&mut [0u8; 4]).unwrap(), 0);
    for _ in 0..300 {
        match tape.read(&mut [0u8; 4]) {
            Err(TapeError::Io(fault)) => assert_eq!(fault, IoFault::EndOfData),
            other => panic!("unexpected outcome {other:?}"),
        }
    }
}

#[test]
fn filemarks_restart_the_blank_tape_count() {
    let mut tape = MockTape::new();
    tape.read(&mut [0u8; 4]).unwrap();
    tape.read(&mut [0u8; 4]).unwrap();
    assert!(tape.read(&mut [0u8; 4]).is_err());
    tape.write_filemarks(1).unwrap();
    assert_eq!(tape.read(&mut [0u8; 4]).unwrap(), 0);
    assert_eq!(tape.read(&mut [0u8; 4]).unwrap(), 0);
    assert!(tape.read(&mut [0u8; 4]).is_err());
}

#[test]
fn erase_removes_what_follows_once() {
    let mut tape = recorded(&[b"abcdef", b"gone"]);
    tape.read(&mut [0u8; 2]).unwrap();
    tape.erase().unwrap();
    assert_eq!(tape.files(), [b"ab".to_vec()]);
    assert!(tape.status().unwrap().flags.is_eod());
    tape.erase().unwrap();
    assert_eq!(tape.files(), [b"ab".to_vec()]);
    assert_eq!(tape.read(&mut [0u8; 2]).unwrap(), 0);
    assert!(tape.status().unwrap().flags.is_eod());
}

#[test]
fn erased_tail_is_reported_until_the_head_moves() {
    let mut tape = recorded(&[b"abcdef"]);
    tape.set_block_size(2).unwrap();
    tape.read(&mut [0u8; 4]).unwrap();
    assert!(!tape.status().unwrap().flags.is_eod());
    tape.erase().unwrap();
    assert_eq!(tape.status().unwrap().flags.bits(), 0x0900_0000);
    tape.space_filemarks(0).unwrap();
    tape.space_records(0).unwrap();
    tape.read(&mut []).unwrap();
    assert!(tape.status().unwrap().flags.is_eod());
    tape.space_records(-1).unwrap();
    assert!(!tape.status().unwrap().flags.is_eod());
    tape.erase().unwrap();
    assert!(tape.status().unwrap().flags.is_eod());
    tape.write(b"xy").unwrap();
    assert!(!tape.status().unwrap().flags.is_eod());
    tape.erase().unwrap();
    assert!(tape.status().unwrap().flags.is_eod());
    tape.rewind().unwrap();
    assert!(!tape.status().unwrap().flags.is_eod());
    assert_eq!(tape.files(), [b"abxy".to_vec()]);
}

#[test]
fn refused_erase_reports_no_end_of_data() {
    let mut tape = recorded(&[b"abc"]).write_protected();
    tape.read(&mut [0u8; 1]).unwrap();
    assert!(tape.erase().is_err());
    assert!(!tape.status().unwrap().flags.is_eod());
}

#[test]
fn erase_from_a_tape_file_on() {
    let mut tape = recorded(&[b"zero", b"one", b"two", b"three"]);
    tape.space_filemarks(2).unwrap();
    tape.erase().unwrap();
    assert_eq!(tape.files(), [b"zero".to_vec(), b"one".to_vec()]);
    assert!(tape.status().unwrap().flags.is_eod());
}

#[test]
fn erase_at_end_of_data_is_no_operation() {
    let mut tape = recorded(&[b"zero"]);
    tape.seek_to_eod().unwrap();
    let before = tape.status().unwrap();
    tape.erase().unwrap();
    assert_eq!(tape.status().unwrap(), before);
    assert_eq!(tape.files(), [b"zero".to_vec()]);
}

#[test]
fn status_tells_the_position() {
    let mut tape = recorded(&[b"zero", b"one"]);
    assert_eq!(tape.status().unwrap().flags.bits(), 0x4100_0000);
    tape.read(&mut [0u8; 3]).unwrap();
    let inside = tape.status().unwrap();
    assert_eq!(inside.flags.bits(), 0x0100_0000);
    assert_eq!(inside.drive_type, mtio::DriveType(0));
    assert_eq!((inside.file_number, inside.block_number), (0, 3));
    tape.space_filemarks(1).unwrap();
    assert_eq!(tape.status().unwrap().flags.bits(), 0x8100_0000);
    tape.seek_to_eod().unwrap();
    assert_eq!(tape.status().unwrap().flags.bits(), 0x8900_0000);
    assert_eq!(MockTape::new().write_protected().status().unwrap().flags.bits(), 0x4d00_0000);
}

#[test]
fn block_size_is_reported_and_reset() {
    let mut tape = MockTape::new();
    tape.set_block_size(u32::MAX).unwrap();
    assert_eq!(tape.status().unwrap().block_size, u32::MAX);
    tape.set_block_size(0).unwrap();
    assert_eq!(tape.write(b"odd").unwrap(), 3);
}

#[test]
fn block_mode_refuses_other_lengths() {
    let mut tape = recorded(&[b"aabbcc"]);
    tape.set_block_size(2).unwrap();
    let mut buf = [b'.'; 3];
    match tape.read(&mut buf) {
        Err(TapeError::Io(fault)) => assert_eq!(fault, IoFault::ReadNotAligned),
        other => panic!("unexpected outcome {other:?}"),
    }
    assert_eq!(&buf, b"...");
    assert!(tape.accepts(TapeCall::Write(3)));
    match tape.write(b"xyz") {
        Err(TapeError::Io(fault)) => assert_eq!(fault, IoFault::WriteNotAligned),
        other => panic!("unexpected outcome {other:?}"),
    }
    assert_eq!(tape.files(), [b"aabbcc".to_vec()]);
    assert_eq!(tape.read(&mut []).unwrap(), 0);
    assert_eq!(tape.write(b"").unwrap(), 0);
    assert_eq!(tape.files(), [Vec::<u8>::new()]);
}

#[test]
fn calls_that_would_overflow_are_not_accepted() {
    let mut tape = MockTape::new();
    assert!(tape.accepts(TapeCall::Rewind));
    assert!(tape.accepts(TapeCall::Unload));
    assert!(tape.accepts(TapeCall::WriteFilemarks(u32::MAX)));
    assert!(tape.accepts(TapeCall::Write(usize::MAX)));
    assert!(tape.accepts(TapeCall::SpaceFilemarks(-1)));
    assert!(!tape.accepts(TapeCall::SpaceFilemarks(i32::MIN)));
    assert!(tape.accepts(TapeCall::SpaceRecords(i32::MIN)));
    tape.set_block_size(1).unwrap();
    assert!(!tape.accepts(TapeCall::SpaceRecords(i32::MIN)));
    tape.space_records(1).unwrap();
    assert!(!tape.accepts(TapeCall::Write(usize::MAX)));
}

#[test]
fn archive_is_written_and_read_back() {
    let mut tape = MockTape::new();
    tape.write(b"header").unwrap();
    tape.write_filemarks(1).unwrap();
    tape.write(b"payload").unwrap();
    tape.write_filemarks(2).unwrap();
    tape.rewind().unwrap();
    assert_eq!(drain(&mut tape, 4096), b"header");
    assert_eq!(drain(&mut tape, 4096), b"payload");
}
