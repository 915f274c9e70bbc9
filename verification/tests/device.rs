//! The requests to a tape device, the reading of its replies, and the errors.

use mtio::device;
use mtio::ioctl::{is_known_op, MtGet, MtOp, MtPos};
use mtio::{DriveType, IoFault, IoFaultKind, StatusFlags, TapeError};
use nix::errno::Errno;

#[test]
fn simple_operations_take_a_count_of_one() {
    assert_eq!(device::rewind(), MtOp { mt_op: 6, _pad: 0, mt_count: 1 });
    assert_eq!(device::seek_to_eod(), MtOp { mt_op: 12, _pad: 0, mt_count: 1 });
    assert_eq!(device::load(), MtOp { mt_op: 30, _pad: 0, mt_count: 1 });
    assert_eq!(device::unload(), MtOp { mt_op: 31, _pad: 0, mt_count: 1 });
    assert_eq!(device::lock(), MtOp { mt_op: 28, _pad: 0, mt_count: 1 });
    assert_eq!(device::unlock(), MtOp { mt_op: 29, _pad: 0, mt_count: 1 });
}

#[test]
fn request_has_zero_padding() {
    let op = MtOp::new(-7, i32::MIN);
    assert_eq!((op.mt_op, op._pad, op.mt_count), (-7, 0, i32::MIN));
    assert_eq!(device::raw_op(mtio::MTFSS, -1).unwrap()._pad, 0);
}

#[test]
fn sign_of_the_count_is_the_direction_of_spacing() {
    assert_eq!(device::space_filemarks(3), MtOp { mt_op: mtio::MTFSF, _pad: 0, mt_count: 3 });
    assert_eq!(device::space_filemarks(0), MtOp { mt_op: mtio::MTFSF, _pad: 0, mt_count: 0 });
    assert_eq!(device::space_filemarks(-3), MtOp { mt_op: mtio::MTBSF, _pad: 0, mt_count: 3 });
    assert_eq!(device::space_records(5), MtOp { mt_op: mtio::MTFSR, _pad: 0, mt_count: 5 });
    assert_eq!(
        device::space_records(i32::MIN + 1),
        MtOp { mt_op: mtio::MTBSR, _pad: 0, mt_count: i32::MAX }
    );
}

#[test]
fn count_of_filemarks_saturates() {
    assert_eq!(device::write_filemarks(2), MtOp { mt_op: 5, _pad: 0, mt_count: 2 });
    assert_eq!(device::write_filemarks(0x7fff_ffff), MtOp::new(5, i32::MAX));
    assert_eq!(device::write_filemarks(u32::MAX), MtOp { mt_op: 5, _pad: 0, mt_count: i32::MAX });
}

#[test]
fn block_numbers_above_32_bits_are_refused() {
    assert_eq!(device::seek_block(0).unwrap(), MtOp { mt_op: 22, _pad: 0, mt_count: 0 });
    assert_eq!(device::seek_block(0x7fff_ffff).unwrap(), MtOp::new(22, i32::MAX));
    assert!(matches!(
        device::seek_block(0x8000_0000),
        Err(TapeError::BlockNumberTooLarge(0x8000_0000))
    ));
}

#[test]
fn block_size_keeps_its_bits() {
    assert_eq!(device::set_block_size(0), MtOp { mt_op: 20, _pad: 0, mt_count: 0 });
    assert_eq!(device::set_block_size(512), MtOp { mt_op: 20, _pad: 0, mt_count: 512 });
    assert_eq!(device::set_block_size(0x8000_0000), MtOp::new(20, i32::MIN));
    assert_eq!(device::set_block_size(u32::MAX), MtOp { mt_op: 20, _pad: 0, mt_count: -1 });
}

#[test]
fn erase_is_long_or_short() {
    assert_eq!(device::erase(true), MtOp { mt_op: 13, _pad: 0, mt_count: 1 });
    assert_eq!(device::erase(false), MtOp { mt_op: 13, _pad: 0, mt_count: 0 });
}

#[test]
fn raw_operations_take_known_codes_only() {
    assert_eq!(
        device::raw_op(mtio::MTRETEN, 1).unwrap(),
        MtOp { mt_op: mtio::MTRETEN, _pad: 0, mt_count: 1 }
    );
    assert_eq!(
        device::raw_op(mtio::MTSETDRVBUFFER, mtio::MT_ST_OPTIONS).unwrap(),
        MtOp { mt_op: 24, _pad: 0, mt_count: -0x1000_0000 }
    );
    for op in [i16::MIN, -1, 0, 14, 19, 23, 36, i16::MAX] {
        assert!(!is_known_op(op));
        match device::raw_op(op, 1) {
            Err(TapeError::UnknownOperation(code)) => assert_eq!(code, op),
            other => panic!("unexpected outcome {other:?}"),
        }
    }
    let known: usize = (0..40i16).filter(|op| is_known_op(*op)).count();
    assert_eq!(known, 28);
}

#[test]
fn completion_passes_the_error_number_on() {
    assert!(device::completion(Ok(0)).is_ok());
    assert!(matches!(device::completion(Err(Errno::EIO)), Err(TapeError::Ioctl(Errno::EIO))));
    assert!(matches!(TapeError::from(Errno::EACCES), TapeError::Ioctl(Errno::EACCES)));
}

#[test]
fn status_is_decoded_from_the_reply() {
    let raw = MtGet {
        mt_type: 0x72,
        mt_resid: 5,
        mt_dsreg: 0x5800_0200,
        mt_gstat: 0x4101_0001,
        mt_erreg: 9,
        mt_fileno: 3,
        mt_blkno: -1,
    };
    let status = device::status(Ok(raw)).unwrap();
    assert_eq!(status.drive_type, DriveType(0x72));
    assert_eq!(status.file_number, 3);
    assert_eq!(status.block_number, -1);
    assert_eq!(status.block_size, 512);
    assert_eq!(status.flags, StatusFlags(0x4101_0001));
    assert!(status.flags.is_bot());
    assert!(status.flags.is_online());
    assert!(status.flags.is_immediate_report());

    let negative = MtGet { mt_dsreg: -1, ..raw };
    assert_eq!(device::status(Ok(negative)).unwrap().block_size, 0x00ff_ffff);
    assert!(matches!(device::status(Err(Errno::ENODEV)), Err(TapeError::Ioctl(Errno::ENODEV))));
}

#[test]
fn position_is_decoded_from_the_reply() {
    assert_eq!(device::position(Ok(MtPos { mt_blkno: 77 })).unwrap(), 77);
    assert_eq!(device::position(Ok(MtPos { mt_blkno: -1 })).unwrap(), u64::MAX);
    assert!(matches!(device::position(Err(Errno::EIO)), Err(TapeError::Ioctl(Errno::EIO))));
}

#[test]
fn reported_position_can_be_sought() {
    let block = device::position(Ok(MtPos { mt_blkno: 1234 })).unwrap();
    assert_eq!(device::seek_block(block).unwrap(), MtOp { mt_op: 22, _pad: 0, mt_count: 1234 });
    let lost = device::position(Ok(MtPos { mt_blkno: -2 })).unwrap();
    assert!(matches!(device::seek_block(lost), Err(TapeError::BlockNumberTooLarge(_))));
}

#[test]
fn faults_have_a_class_and_a_text() {
    let text = |fault: &IoFault| fault.message().unwrap();
    assert_eq!(IoFault::ReadNotAligned.kind(), IoFaultKind::InvalidInput);
    assert_eq!(
        text(&IoFault::ReadNotAligned),
        "EINVAL: read buffer length is not a multiple of the fixed block size"
    );
    assert_eq!(IoFault::WriteNotAligned.kind(), IoFaultKind::InvalidInput);
    assert_eq!(
        text(&IoFault::WriteNotAligned),
        "EINVAL: write buffer length is not a multiple of the fixed block size"
    );
    assert_eq!(IoFault::WriteProtected.kind(), IoFaultKind::PermissionDenied);
    assert_eq!(text(&IoFault::WriteProtected), "tape is write-protected");
    assert_eq!(IoFault::EndOfData.kind(), IoFaultKind::Other);
    assert_eq!(text(&IoFault::EndOfData), "EIO: end of data (st driver ST_EOD state)");
    let described = IoFault::Described("unplugged".to_string());
    assert_eq!(described.kind(), IoFaultKind::Other);
    assert_eq!(text(&described), "unplugged");
    assert_eq!(IoFault::System(28).kind(), IoFaultKind::System(28));
    assert_eq!(IoFault::System(28).message(), None);
    assert!(matches!(TapeError::from(IoFault::EndOfData), TapeError::Io(IoFault::EndOfData)));
}
