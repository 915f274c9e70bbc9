//! What a tape device is asked for each operation, and how its answers read.
//!
//! A tape device is driven by `ioctl(2)` calls. Each operation that moves or
//! configures the drive is one `MTIOCTOP` call; the function of the operation's
//! name gives the argument of that call, or the error with which the operation
//! is refused before any call is made. [`completion`], [`status`] and
//! [`position`] turn the outcome of a call into the outcome of the operation.

use vstd::prelude::*;

use crate::error::TapeError;
use crate::ioctl::{
    is_known_op, MtGet, MtOp, MtPos, MTBSF, MTBSR, MTEOM, MTERASE, MTFSF, MTFSR, MTLOAD, MTLOCK,
    MTREW, MTSEEK, MTSETBLK, MTUNLOAD, MTUNLOCK, MTWEOF,
};
use crate::status::{DriveType, StatusFlags, TapeStatus};

verus! {

/// Rewind to BOT.
pub fn rewind() -> (r: MtOp)
    ensures
        r == (MtOp { mt_op: MTREW, _pad: 0, mt_count: 1 }),
{
    MtOp::new(MTREW, 1)
}

/// Seek to the end of recorded data.
pub fn seek_to_eod() -> (r: MtOp)
    ensures
        r == (MtOp { mt_op: MTEOM, _pad: 0, mt_count: 1 }),
{
    MtOp::new(MTEOM, 1)
}

/// The request to space over `count` marks or records, by operation `forward`
/// or by operation `backward`, whose counts are not negative.
pub open spec fn spacing(count: i32, forward: i16, backward: i16) -> MtOp {
    if count >= 0 {
        MtOp { mt_op: forward, _pad: 0, mt_count: count }
    } else {
        MtOp { mt_op: backward, _pad: 0, mt_count: (-count) as i32 }
    }
}

/// Space over `count` filemarks, forward (positive) or backward (negative).
pub fn space_filemarks(count: i32) -> (r: MtOp)
    requires
        count > i32::MIN,
    ensures
        r == spacing(count, MTFSF, MTBSF),
        count >= 0 ==> r.mt_op == MTFSF && r.mt_count == count,
        count < 0 ==> r.mt_op == MTBSF && r.mt_count == -count,
        r._pad == 0,
{
    if count >= 0 {
        MtOp::new(MTFSF, count)
    } else {
        MtOp::new(MTBSF, -count)
    }
}

/// Space over `count` records, forward (positive) or backward (negative).
pub fn space_records(count: i32) -> (r: MtOp)
    requires
        count > i32::MIN,
    ensures
        r == spacing(count, MTFSR, MTBSR),
        count >= 0 ==> r.mt_op == MTFSR && r.mt_count == count,
        count < 0 ==> r.mt_op == MTBSR && r.mt_count == -count,
        r._pad == 0,
{
    if count >= 0 {
        MtOp::new(MTFSR, count)
    } else {
        MtOp::new(MTBSR, -count)
    }
}

/// Write `count` filemarks, saturating at [`i32::MAX`]: writing 2^31
/// filemarks is not a realistic scenario.
pub fn write_filemarks(count: u32) -> (r: MtOp)
    ensures
        r.mt_op == MTWEOF,
        r._pad == 0,
        r.mt_count == if count <= i32::MAX { count as int } else { i32::MAX as int },
{
    if count <= 0x7fff_ffff {
        MtOp::new(MTWEOF, count as i32)
    } else {
        MtOp::new(MTWEOF, i32::MAX)
    }
}

/// The request to seek to logical block `block`, or why it is refused.
pub open spec fn seek_request(block: u64) -> Result<MtOp, TapeError> {
    if block > i32::MAX {
        Err(TapeError::BlockNumberTooLarge(block))
    } else {
        Ok(MtOp { mt_op: MTSEEK, _pad: 0, mt_count: block as i32 })
    }
}

/// Seek to logical block `block`, which the operation takes as 32 bits.
pub fn seek_block(block: u64) -> (r: Result<MtOp, TapeError>)
    ensures
        r == seek_request(block),
        r is Ok <==> block <= 0x7fff_ffff,
        r matches Ok(op) ==> op.mt_op == MTSEEK && op.mt_count == block && op._pad == 0,
        r matches Err(e) ==> e == TapeError::BlockNumberTooLarge(block),
{
    if block > 0x7fff_ffff {
        return Err(TapeError::BlockNumberTooLarge(block));
    }
    Ok(MtOp::new(MTSEEK, block as i32))
}

/// Set the block size. The driver reads the 32 bits of the count as they are,
/// so a size above [`i32::MAX`] stands there as the negative number of the
/// same bits.
pub fn set_block_size(bytes: u32) -> (r: MtOp)
    ensures
        r.mt_op == MTSETBLK,
        r._pad == 0,
        r.mt_count == if bytes <= i32::MAX { bytes as int } else { bytes - 0x1_0000_0000 },
{
    assert(bytes <= 0x7fff_ffff ==> bytes as i32 == bytes) by (bit_vector);
    assert(bytes > 0x7fff_ffff ==> bytes as i32 == bytes - 0x1_0000_0000) by (bit_vector);
    MtOp::new(
        MTSETBLK,
        #[verifier::truncate]
        (bytes as i32),
    )
}

/// Load the cartridge.
pub fn load() -> (r: MtOp)
    ensures
        r == (MtOp { mt_op: MTLOAD, _pad: 0, mt_count: 1 }),
{
    MtOp::new(MTLOAD, 1)
}

/// Eject the cartridge.
pub fn unload() -> (r: MtOp)
    ensures
        r == (MtOp { mt_op: MTUNLOAD, _pad: 0, mt_count: 1 }),
{
    MtOp::new(MTUNLOAD, 1)
}

/// Lock the drive door.
pub fn lock() -> (r: MtOp)
    ensures
        r == (MtOp { mt_op: MTLOCK, _pad: 0, mt_count: 1 }),
{
    MtOp::new(MTLOCK, 1)
}

/// Unlock the drive door.
pub fn unlock() -> (r: MtOp)
    ensures
        r == (MtOp { mt_op: MTUNLOCK, _pad: 0, mt_count: 1 }),
{
    MtOp::new(MTUNLOCK, 1)
}

/// Erase from the current position: the whole remaining tape if `long_erase`,
/// else with an EOD marker only.
pub fn erase(long_erase: bool) -> (r: MtOp)
    ensures
        r.mt_op == MTERASE,
        r._pad == 0,
        r.mt_count == if long_erase { 1int } else { 0 },
{
    let count: i32 = if long_erase { 1 } else { 0 };
    MtOp::new(MTERASE, count)
}

/// Any operation by its code, which must be one of the `MT*` constants.
pub fn raw_op(op: i16, count: i32) -> (r: Result<MtOp, TapeError>)
    ensures
        r == if crate::ioctl::known_op(op) {
            Ok::<MtOp, TapeError>(MtOp { mt_op: op, _pad: 0, mt_count: count })
        } else {
            Err(TapeError::UnknownOperation(op))
        },
        r is Ok <==> 1 <= op <= 13 || 20 <= op <= 22 || 24 <= op <= 35,
{
    if !is_known_op(op) {
        return Err(TapeError::UnknownOperation(op));
    }
    Ok(MtOp::new(op, count))
}

/// The outcome of an operation whose `MTIOCTOP` call ended with `outcome`.
pub fn completion(outcome: Result<i32, nix::errno::Errno>) -> (r: Result<(), TapeError>)
    ensures
        r == match outcome {
            Ok(_) => Ok::<(), TapeError>(()),
            Err(errno) => Err(TapeError::Ioctl(errno)),
        },
{
    match outcome {
        Ok(_) => Ok(()),
        Err(errno) => Err(TapeError::from(errno)),
    }
}

/// The status that an `MTIOCGET` reply reports: the block size is the low 24
/// bits of `mt_dsreg`, and the flags are `mt_gstat` as it is.
pub open spec fn decoded_status(raw: MtGet) -> TapeStatus {
    TapeStatus {
        drive_type: DriveType(raw.mt_type),
        file_number: raw.mt_fileno,
        block_number: raw.mt_blkno,
        block_size: (raw.mt_dsreg as int % 0x100_0000) as u32,
        flags: StatusFlags(raw.mt_gstat),
    }
}

/// The drive status, from the reply to an `MTIOCGET` call.
pub fn status(outcome: Result<MtGet, nix::errno::Errno>) -> (r: Result<TapeStatus, TapeError>)
    ensures
        r == match outcome {
            Ok(raw) => Ok::<TapeStatus, TapeError>(decoded_status(raw)),
            Err(errno) => Err(TapeError::Ioctl(errno)),
        },
        match (outcome, r) {
            (Ok(raw), Ok(status)) => {
                &&& status.drive_type.0 == raw.mt_type
                &&& status.file_number == raw.mt_fileno
                &&& status.block_number == raw.mt_blkno
                &&& status.flags.0 == raw.mt_gstat
                &&& status.block_size < 0x100_0000
                &&& (raw.mt_dsreg - status.block_size) % 0x100_0000 == 0
            },
            (Err(errno), Err(error)) => error == TapeError::Ioctl(errno),
            _ => false,
        },
{
    proof {
        if let Ok(raw) = outcome {
            law_status_reads_each_field_of_the_reply(raw);
        }
    }
    match outcome {
        Ok(raw) => {
            let dsreg: i64 = raw.mt_dsreg;
            assert(0 <= dsreg & 0x00ff_ffff <= 0x00ff_ffff) by (bit_vector);
            assert(dsreg & 0x00ff_ffff == dsreg % 0x100_0000) by (bit_vector);
            Ok(
                TapeStatus {
                    drive_type: DriveType(raw.mt_type),
                    file_number: raw.mt_fileno,
                    block_number: raw.mt_blkno,
                    block_size: (dsreg & 0x00ff_ffff) as u32,
                    flags: StatusFlags::from_bits_retain(raw.mt_gstat),
                },
            )
        },
        Err(errno) => Err(TapeError::from(errno)),
    }
}

/// The block number that an `MTIOCPOS` reply reports: the 64 bits of
/// `mt_blkno`, read as an unsigned number.
pub open spec fn decoded_position(raw: MtPos) -> u64 {
    if raw.mt_blkno >= 0 {
        raw.mt_blkno as u64
    } else {
        (raw.mt_blkno + 0x1_0000_0000_0000_0000) as u64
    }
}

/// The logical block number, from the reply to an `MTIOCPOS` call.
pub fn position(outcome: Result<MtPos, nix::errno::Errno>) -> (r: Result<u64, TapeError>)
    ensures
        r == match outcome {
            Ok(raw) => Ok::<u64, TapeError>(decoded_position(raw)),
            Err(errno) => Err(TapeError::Ioctl(errno)),
        },
        match (outcome, r) {
            (Ok(raw), Ok(block)) => {
                &&& raw.mt_blkno >= 0 ==> block == raw.mt_blkno
                &&& raw.mt_blkno < 0 ==> block - raw.mt_blkno == 0x1_0000_0000_0000_0000
            },
            (Err(errno), Err(error)) => error == TapeError::Ioctl(errno),
            _ => false,
        },
{
    match outcome {
        Ok(raw) => {
            let block: i64 = raw.mt_blkno;
            assert(block >= 0 ==> block as u64 == block) by (bit_vector);
            assert(block < 0 ==> block as u64 == block + 0x1_0000_0000_0000_0000) by (bit_vector);
            Ok(
                #[verifier::truncate]
                (block as u64),
            )
        },
        Err(errno) => Err(TapeError::from(errno)),
    }
}

/// The status holds the fields of the reply, each in its place: drive type, file
/// number, record number and flags as they are, and a block size of 24 bits that
/// the status register ends in.
pub proof fn law_status_reads_each_field_of_the_reply(raw: MtGet)
    ensures
        decoded_status(raw).drive_type.0 == raw.mt_type,
        decoded_status(raw).file_number == raw.mt_fileno,
        decoded_status(raw).block_number == raw.mt_blkno,
        decoded_status(raw).flags.0 == raw.mt_gstat,
        decoded_status(raw).block_size < 0x100_0000,
        (raw.mt_dsreg - decoded_status(raw).block_size) % 0x100_0000 == 0,
{
}

/// Replies that differ in the file number alone give statuses that differ in
/// the file number alone, and so of the record number and of the flags.
pub proof fn law_each_field_of_the_reply_goes_to_its_own(
    raw: MtGet,
    fileno: i32,
    blkno: i32,
    gstat: i64,
)
    ensures
        decoded_status(MtGet { mt_fileno: fileno, ..raw }) == (TapeStatus {
            file_number: fileno,
            ..decoded_status(raw)
        }),
        decoded_status(MtGet { mt_blkno: blkno, ..raw }) == (TapeStatus {
            block_number: blkno,
            ..decoded_status(raw)
        }),
        decoded_status(MtGet { mt_gstat: gstat, ..raw }) == (TapeStatus {
            flags: StatusFlags(gstat),
            ..decoded_status(raw)
        }),
{
}

/// The density code and whatever else stands above the low 24 bits of the
/// status register have no effect on the block size, which those bits are.
pub proof fn law_block_size_is_the_low_24_bits(raw: MtGet, high: i64, size: u32)
    requires
        size < 0x100_0000,
        raw.mt_dsreg == high * 0x100_0000 + size,
    ensures
        decoded_status(raw).block_size == size,
{
}

/// Two replies give the same block number only if they hold the same one.
pub proof fn law_positions_are_told_apart(a: MtPos, b: MtPos)
    ensures
        decoded_position(a) == decoded_position(b) <==> a.mt_blkno == b.mt_blkno,
        a.mt_blkno >= 0 ==> decoded_position(a) == a.mt_blkno,
        a.mt_blkno < 0 ==> decoded_position(a) - a.mt_blkno == 0x1_0000_0000_0000_0000,
{
}

/// A seek is asked for exactly for the blocks that 32 bits hold, and names the
/// block in its count; any other block is refused, and named in the error.
pub proof fn law_seek_request_names_its_block(block: u64)
    ensures
        seek_request(block) is Ok <==> block <= 0x7fff_ffff,
        seek_request(block) matches Ok(op) ==> op.mt_op == 22 && op._pad == 0 && op.mt_count
            == block,
        seek_request(block) matches Err(e) ==> e == TapeError::BlockNumberTooLarge(block),
{
}

/// A request to space has the distance as its count, never negative, and the
/// direction in its operation.
pub proof fn law_spacing_tells_direction_and_distance(count: i32, forward: i16, backward: i16)
    requires
        count > i32::MIN,
    ensures
        spacing(count, forward, backward).mt_op == if count < 0 {
            backward
        } else {
            forward
        },
        spacing(count, forward, backward).mt_count >= 0,
        spacing(count, forward, backward).mt_count == count || spacing(
            count,
            forward,
            backward,
        ).mt_count == -count,
        spacing(count, forward, backward)._pad == 0,
{
}

/// A block number that the driver reports can be sought again, as far as 32
/// bits hold it; any other is refused.
pub proof fn law_reported_position_can_be_sought(raw: MtPos)
    ensures
        0 <= raw.mt_blkno <= i32::MAX ==> seek_request(decoded_position(raw)) == Ok::<
            MtOp,
            TapeError,
        >(MtOp { mt_op: MTSEEK, _pad: 0, mt_count: raw.mt_blkno as i32 }),
        !(0 <= raw.mt_blkno <= i32::MAX) ==> seek_request(decoded_position(raw)) == Err::<
            MtOp,
            TapeError,
        >(TapeError::BlockNumberTooLarge(decoded_position(raw))),
{
}

/// Spacing by a count and by its opposite ask for the same distance, by the
/// two operations in turn.
pub proof fn law_opposite_counts_space_opposite_ways(count: i32, forward: i16, backward: i16)
    requires
        count > 0,
    ensures
        spacing(count, forward, backward) == (MtOp { mt_op: forward, _pad: 0, mt_count: count }),
        spacing((-count) as i32, forward, backward) == (MtOp {
            mt_op: backward,
            _pad: 0,
            mt_count: count,
        }),
{
}

} // verus!
