//! The vocabulary of the Linux SCSI tape driver (`st`): operation codes and
//! the arguments of its three ioctls.
//!
//! | Request    | Value        | Direction | Size (B) | Argument | Purpose             |
//! |------------|--------------|-----------|----------|----------|---------------------|
//! | `MTIOCTOP` | `0x40086d01` | WRITE     | 8        | `MtOp`   | Issue a tape op     |
//! | `MTIOCGET` | `0x80306d02` | READ      | 48       | `MtGet`  | Read drive status   |
//! | `MTIOCPOS` | `0x80086d03` | READ      | 8        | `MtPos`  | Read block position |
//!
//! WRITE means the kernel reads a struct that userspace provides; READ means
//! the kernel writes a struct into userspace memory.

use vstd::prelude::*;

verus! {

// Operation codes: the values of `MtOp::mt_op`, as in `linux/mtio.h`.

/// Forward space over `mt_count` filemarks (positions after the FM).
pub const MTFSF: i16 = 1;

/// Backward space over `mt_count` filemarks (positions before the FM).
pub const MTBSF: i16 = 2;

/// Forward space over `mt_count` records.
pub const MTFSR: i16 = 3;

/// Backward space over `mt_count` records.
pub const MTBSR: i16 = 4;

/// Write `mt_count` filemarks at the current position.
pub const MTWEOF: i16 = 5;

/// Rewind to beginning of tape. `mt_count` is ignored.
pub const MTREW: i16 = 6;

/// Rewind and take the drive offline (eject). `mt_count` is ignored.
pub const MTOFFL: i16 = 7;

/// No-op: update the status registers only.
pub const MTNOP: i16 = 8;

/// Re-tension the tape (wind to EOT and back to BOT to reduce wear).
pub const MTRETEN: i16 = 9;

/// Backward space `mt_count` filemarks, leave the tape at the FM itself.
pub const MTBSFM: i16 = 10;

/// Forward space `mt_count` filemarks, leave the tape at the FM itself.
pub const MTFSFM: i16 = 11;

/// Seek to the end of recorded data (EOD). `mt_count` is ignored.
pub const MTEOM: i16 = 12;

/// Erase the tape from the current position to EOT.
pub const MTERASE: i16 = 13;

/// Set the fixed block (record) size to `mt_count` bytes; `0` for
/// variable-length mode.
pub const MTSETBLK: i16 = 20;

/// Set the tape density code.
pub const MTSETDENSITY: i16 = 21;

/// Seek to the logical block number given in `mt_count`.
pub const MTSEEK: i16 = 22;

/// Set driver options; the `MT_ST_*` constants make up `mt_count`.
pub const MTSETDRVBUFFER: i16 = 24;

/// Forward space over `mt_count` setmarks.
pub const MTFSS: i16 = 25;

/// Backward space over `mt_count` setmarks.
pub const MTBSS: i16 = 26;

/// Write `mt_count` setmarks.
pub const MTWSM: i16 = 27;

/// Lock the drive door to prevent accidental ejection.
pub const MTLOCK: i16 = 28;

/// Unlock the drive door.
pub const MTUNLOCK: i16 = 29;

/// Issue a SCSI LOAD command (instruct the drive to load the cartridge).
pub const MTLOAD: i16 = 30;

/// Issue a SCSI UNLOAD command (rewind and eject the cartridge).
pub const MTUNLOAD: i16 = 31;

/// Enable (`mt_count = 1`) or disable (`mt_count = 0`) hardware data
/// compression.
pub const MTCOMPRESSION: i16 = 32;

/// Change the active tape partition.
pub const MTSETPART: i16 = 33;

/// Format the tape with one or two partitions.
pub const MTMKPART: i16 = 34;

/// Write `mt_count` filemarks in immediate mode.
pub const MTWEOFI: i16 = 35;

// Option groups of `MTSETDRVBUFFER`: the high bits of `MtOp::mt_count`.

/// Mask of the bits that select an option group.
pub const MT_ST_OPTIONS: i32 = -0x1000_0000;

/// Set all boolean options to the flags given.
pub const MT_ST_BOOLEANS: i32 = 0x1000_0000;

/// Turn on the boolean options given.
pub const MT_ST_SETBOOLEANS: i32 = 0x3000_0000;

/// Turn off the boolean options given.
pub const MT_ST_CLEARBOOLEANS: i32 = 0x4000_0000;

/// Set the write threshold.
pub const MT_ST_WRITE_THRESHOLD: i32 = 0x2000_0000;

/// Set the default block size.
pub const MT_ST_DEF_BLKSIZE: i32 = 0x5000_0000;

/// Set the default drive options.
pub const MT_ST_DEF_OPTIONS: i32 = 0x6000_0000;

/// Set the normal timeout.
pub const MT_ST_SET_TIMEOUT: i32 = 0x7000_0000;

/// Set the timeout of long operations.
pub const MT_ST_SET_LONG_TIMEOUT: i32 = 0x7010_0000;

/// Set how a cleaning request is recognised.
pub const MT_ST_SET_CLN: i32 = -0x8000_0000;

// Boolean options of `MTSETDRVBUFFER`.

/// Buffer writes in fixed block mode.
pub const MT_ST_BUFFER_WRITES: i32 = 0x1;

/// Write asynchronously.
pub const MT_ST_ASYNC_WRITES: i32 = 0x2;

/// Read ahead in fixed block mode.
pub const MT_ST_READ_AHEAD: i32 = 0x4;

/// Log debugging output.
pub const MT_ST_DEBUGGING: i32 = 0x8;

/// Write two filemarks when the device is closed after a write.
pub const MT_ST_TWO_FM: i32 = 0x10;

/// Space directly to EOD, without counting files.
pub const MT_ST_FAST_MTEOM: i32 = 0x20;

/// Lock the door when the device is opened.
pub const MT_ST_AUTO_LOCK: i32 = 0x40;

/// The options are for writes only.
pub const MT_ST_DEF_WRITES: i32 = 0x80;

/// The drive supports backspacing over records.
pub const MT_ST_CAN_BSR: i32 = 0x100;

/// Do not ask the drive for its block limits.
pub const MT_ST_NO_BLKLIMS: i32 = 0x200;

/// The drive supports partitions.
pub const MT_ST_CAN_PARTITIONS: i32 = 0x400;

/// Use logical block addresses.
pub const MT_ST_SCSI2LOGICAL: i32 = 0x800;

/// Use System V semantics.
pub const MT_ST_SYSV: i32 = 0x1000;

/// Do not wait for commands to complete.
pub const MT_ST_NOWAIT: i32 = 0x2000;

/// Suppress the incorrect length indication.
pub const MT_ST_SILI: i32 = 0x4000;

/// Do not wait for filemarks to be written.
pub const MT_ST_NOWAIT_EOF: i32 = 0x8000;

/// Argument passed to the `MTIOCTOP` ioctl (`struct mtop`).
#[derive(Debug, Clone, Copy, PartialEq, Eq, Structural)]
pub struct MtOp {
    /// The operation to perform (one of the `MT*` constants of this module).
    pub mt_op: i16,
    /// The two bytes between the fields, which C leaves as padding. Zero in
    /// every request, so that all 8 bytes handed to the driver are fixed.
    pub _pad: i16,
    /// Operation parameter; its meaning depends on `mt_op`.
    ///
    /// For spacing operations: number of filemarks/records to traverse.
    /// For `MTSETBLK`: block size in bytes.
    /// For `MTSEEK`: target logical block number.
    pub mt_count: i32,
}

impl MtOp {
    /// The argument for operation `mt_op` with parameter `mt_count`.
    pub fn new(mt_op: i16, mt_count: i32) -> (r: MtOp)
        ensures
            r == (MtOp { mt_op, _pad: 0, mt_count }),
    {
        MtOp { mt_op, _pad: 0, mt_count }
    }
}

/// Drive status returned by the `MTIOCGET` ioctl (`struct mtget`).
#[derive(Debug, Clone, Copy, PartialEq, Eq, Structural)]
pub struct MtGet {
    /// Drive type (manufacturer-specific).
    pub mt_type: i64,
    /// Residual byte count from the last read or write that did not transfer
    /// a complete record.
    pub mt_resid: i64,
    /// Drive-specific status register: the density code in bits 24 to 31, the
    /// block size in bits 0 to 23.
    pub mt_dsreg: i64,
    /// Generic status flags; see [`StatusFlags`](crate::StatusFlags).
    pub mt_gstat: i64,
    /// Drive-specific error register.
    pub mt_erreg: i64,
    /// Current tape file number (0-based).
    pub mt_fileno: i32,
    /// Current record (block) number within the current tape file.
    pub mt_blkno: i32,
}

/// Logical block position returned by the `MTIOCPOS` ioctl (`struct mtpos`).
///
/// Unlike `mt_blkno` in `MtGet` (which resets per tape file), `mt_blkno` here
/// is an *absolute* logical block number that increases monotonically from
/// BOT.
#[derive(Debug, Clone, Copy, PartialEq, Eq, Structural)]
pub struct MtPos {
    /// Absolute logical block number from the beginning of the tape.
    pub mt_blkno: i64,
}

/// Whether `op` is one of the operation codes of this module.
pub open spec fn known_op(op: i16) -> bool {
    ||| op == MTFSF
    ||| op == MTBSF
    ||| op == MTFSR
    ||| op == MTBSR
    ||| op == MTWEOF
    ||| op == MTREW
    ||| op == MTOFFL
    ||| op == MTNOP
    ||| op == MTRETEN
    ||| op == MTBSFM
    ||| op == MTFSFM
    ||| op == MTEOM
    ||| op == MTERASE
    ||| op == MTSETBLK
    ||| op == MTSETDENSITY
    ||| op == MTSEEK
    ||| op == MTSETDRVBUFFER
    ||| op == MTFSS
    ||| op == MTBSS
    ||| op == MTWSM
    ||| op == MTLOCK
    ||| op == MTUNLOCK
    ||| op == MTLOAD
    ||| op == MTUNLOAD
    ||| op == MTCOMPRESSION
    ||| op == MTSETPART
    ||| op == MTMKPART
    ||| op == MTWEOFI
}

/// Returns `true` if `op` is one of the operation codes of this module.
pub fn is_known_op(op: i16) -> (r: bool)
    ensures
        r == known_op(op),
        r <==> 1 <= op <= 13 || 20 <= op <= 22 || 24 <= op <= 35,
{
    (1 <= op && op <= 13) || (20 <= op && op <= 22) || (24 <= op && op <= 35)
}

/// The known operation codes are those from 1 to 13, from 20 to 22 and from 24
/// to 35.
pub proof fn law_known_operations_are_these_codes(op: i16)
    ensures
        known_op(op) <==> 1 <= op <= 13 || 20 <= op <= 22 || 24 <= op <= 35,
{
}

/// Every operation has the code by which the driver knows it, so that no two
/// are confused.
pub proof fn law_operation_codes_are_those_of_the_driver()
    ensures
        MTFSF == 1 && MTBSF == 2 && MTFSR == 3 && MTBSR == 4 && MTWEOF == 5 && MTREW == 6,
        MTOFFL == 7 && MTNOP == 8 && MTRETEN == 9 && MTBSFM == 10 && MTFSFM == 11 && MTEOM == 12,
        MTERASE == 13 && MTSETBLK == 20 && MTSETDENSITY == 21 && MTSEEK == 22,
        MTSETDRVBUFFER == 24 && MTFSS == 25 && MTBSS == 26 && MTWSM == 27 && MTLOCK == 28,
        MTUNLOCK == 29 && MTLOAD == 30 && MTUNLOAD == 31 && MTCOMPRESSION == 32,
        MTSETPART == 33 && MTMKPART == 34 && MTWEOFI == 35,
{
}

/// Option groups of `MTSETDRVBUFFER` are multiples of 2^20 that stand above all
/// boolean options, and the boolean options are single bits, one after another.
pub proof fn law_driver_options_have_their_own_bits()
    ensures
        MT_ST_OPTIONS == -0x1000_0000,
        MT_ST_BOOLEANS == 0x1000_0000,
        MT_ST_WRITE_THRESHOLD == 2 * MT_ST_BOOLEANS,
        MT_ST_SETBOOLEANS == 3 * MT_ST_BOOLEANS,
        MT_ST_CLEARBOOLEANS == 4 * MT_ST_BOOLEANS,
        MT_ST_DEF_BLKSIZE == 5 * MT_ST_BOOLEANS,
        MT_ST_DEF_OPTIONS == 6 * MT_ST_BOOLEANS,
        MT_ST_SET_TIMEOUT == 7 * MT_ST_BOOLEANS,
        MT_ST_SET_LONG_TIMEOUT == MT_ST_SET_TIMEOUT + 0x10_0000,
        MT_ST_SET_CLN == -8 * MT_ST_BOOLEANS,
        MT_ST_BUFFER_WRITES == 1,
        MT_ST_ASYNC_WRITES == 2 * MT_ST_BUFFER_WRITES,
        MT_ST_READ_AHEAD == 2 * MT_ST_ASYNC_WRITES,
        MT_ST_DEBUGGING == 2 * MT_ST_READ_AHEAD,
        MT_ST_TWO_FM == 2 * MT_ST_DEBUGGING,
        MT_ST_FAST_MTEOM == 2 * MT_ST_TWO_FM,
        MT_ST_AUTO_LOCK == 2 * MT_ST_FAST_MTEOM,
        MT_ST_DEF_WRITES == 2 * MT_ST_AUTO_LOCK,
        MT_ST_CAN_BSR == 2 * MT_ST_DEF_WRITES,
        MT_ST_NO_BLKLIMS == 2 * MT_ST_CAN_BSR,
        MT_ST_CAN_PARTITIONS == 2 * MT_ST_NO_BLKLIMS,
        MT_ST_SCSI2LOGICAL == 2 * MT_ST_CAN_PARTITIONS,
        MT_ST_SYSV == 2 * MT_ST_SCSI2LOGICAL,
        MT_ST_NOWAIT == 2 * MT_ST_SYSV,
        MT_ST_SILI == 2 * MT_ST_NOWAIT,
        MT_ST_NOWAIT_EOF == 2 * MT_ST_SILI,
{
}

} // verus!
