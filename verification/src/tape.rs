//! The operations common to all tape devices.

use vstd::prelude::*;

use crate::error::TapeError;
use crate::status::TapeStatus;

verus! {

/// A call that a tape may be unable to carry out, for [`Tape::admits`].
#[derive(Debug, Clone, Copy, PartialEq, Eq, Structural)]
pub enum TapeCall {
    /// [`Tape::rewind`].
    Rewind,
    /// [`Tape::space_filemarks`] by this count.
    SpaceFilemarks(i32),
    /// [`Tape::space_records`] by this count.
    SpaceRecords(i32),
    /// [`Tape::write_filemarks`] with this count.
    WriteFilemarks(u32),
    /// [`Tape::seek_block`] to this block.
    SeekBlock(u64),
    /// [`Tape::unload`].
    Unload,
    /// [`Tape::write`] of a buffer of this length.
    Write(usize),
}

/// Operations common to all tape devices.
///
/// What an operation does to the tape is up to the device: each
/// implementation states it. Some calls would overflow a counter of the
/// device; [`admits`](Tape::admits) tells which, and [`accepts`](Tape::accepts)
/// decides it at run time.
///
/// ## Reading across filemarks
///
/// [`read`](Tape::read) returns `Ok(0)` at a filemark boundary, just like EOF
/// on a regular file. The Linux `st` driver automatically advances past the
/// filemark at that point, so the next `read` call returns data from the
/// following tape file without any `space_filemarks` call.
///
/// ## Writing across filemarks
///
/// Write data with [`write`](Tape::write), then call
/// [`write_filemarks(1)`](Tape::write_filemarks) to close the tape file and
/// begin the next. Write a double filemark to signal the logical end of the
/// archive.
///
/// On real tape, any write implicitly discards everything recorded after the
/// current position. Rewind before writing to overwrite the tape from the
/// start.
pub trait Tape {
    /// Whether the device can carry out `call` in its present state.
    spec fn admits(&self, call: TapeCall) -> bool;

    /// Returns `true` if the device can carry out `call` in its present state.
    fn accepts(&self, call: TapeCall) -> (r: bool)
        ensures
            r == self.admits(call),
    ;

    /// Read at most `buf.len()` bytes from the current tape file.
    fn read(&mut self, buf: &mut [u8]) -> (r: Result<usize, TapeError>)
        ensures
            final(buf)@.len() == old(buf)@.len(),
            r matches Ok(n) ==> n <= old(buf)@.len(),
    ;

    /// Write at most `buf.len()` bytes, from the start of `buf`, at the current
    /// position.
    fn write(&mut self, buf: &[u8]) -> (r: Result<usize, TapeError>)
        requires
            old(self).admits(TapeCall::Write(buf.len())),
        ensures
            r matches Ok(n) ==> n <= buf@.len(),
    ;

    /// Hand on any data that is still held back.
    fn flush(&mut self) -> (r: Result<(), TapeError>);

    /// Rewind to the physical beginning of the tape (BOT).
    ///
    /// After this call, the next read or write starts at the very first
    /// record.
    fn rewind(&mut self) -> (r: Result<(), TapeError>)
        requires
            old(self).admits(TapeCall::Rewind),
    ;

    /// Seek forward to the end of all recorded data (EOD), ready to append new
    /// data.
    fn seek_to_eod(&mut self) -> (r: Result<(), TapeError>);

    /// Space over `count` filemarks, forward (positive) or backward (negative).
    ///
    /// Example: to skip the first tape file and land at the start of the
    /// second, call `space_filemarks(1)` after rewinding.
    fn space_filemarks(&mut self, count: i32) -> (r: Result<(), TapeError>)
        requires
            old(self).admits(TapeCall::SpaceFilemarks(count)),
    ;

    /// Space over `count` records (individual write blocks), forward or
    /// backward.
    fn space_records(&mut self, count: i32) -> (r: Result<(), TapeError>)
        requires
            old(self).admits(TapeCall::SpaceRecords(count)),
    ;

    /// Write `count` filemarks at the current position.
    ///
    /// A single filemark closes the current tape file; subsequent writes begin
    /// a new tape file. Two consecutive filemarks (`count = 2`) signal the
    /// logical end of the archive.
    fn write_filemarks(&mut self, count: u32) -> (r: Result<(), TapeError>)
        requires
            old(self).admits(TapeCall::WriteFilemarks(count)),
    ;

    /// Seek to a specific logical block number.
    ///
    /// Block numbers larger than [`i32::MAX`] return
    /// [`TapeError::BlockNumberTooLarge`].
    fn seek_block(&mut self, block: u64) -> (r: Result<(), TapeError>)
        requires
            old(self).admits(TapeCall::SeekBlock(block)),
        ensures
            block > i32::MAX ==> r == Err::<(), TapeError>(TapeError::BlockNumberTooLarge(block)),
    ;

    /// Set the fixed block (record) size in bytes, or `0` for variable-length
    /// mode, where each `write` call produces a record of exactly the size
    /// written.
    fn set_block_size(&mut self, bytes: u32) -> (r: Result<(), TapeError>);

    /// Execute a SCSI LOAD command.
    fn load(&mut self) -> (r: Result<(), TapeError>);

    /// Execute a SCSI UNLOAD command (eject the cartridge).
    ///
    /// The drive rewinds and then ejects the tape.
    fn unload(&mut self) -> (r: Result<(), TapeError>)
        requires
            old(self).admits(TapeCall::Unload),
    ;

    /// Lock the drive door, preventing ejection. Always pair with
    /// [`unlock`](Tape::unlock).
    fn lock(&mut self) -> (r: Result<(), TapeError>);

    /// Unlock the drive door.
    fn unlock(&mut self) -> (r: Result<(), TapeError>);

    /// Query the drive for its current status.
    fn status(&mut self) -> (r: Result<TapeStatus, TapeError>);

    /// Return the current logical block position.
    ///
    /// The returned value is an opaque block number that can be saved and
    /// later passed to [`seek_block`](Tape::seek_block) to return to this
    /// position. Subject to the 32-bit limit documented on `seek_block`.
    fn position(&mut self) -> (r: Result<u64, TapeError>);

    /// Physically erase the tape from the current position to EOT.
    ///
    /// This is a **destructive, time-consuming, high-wear operation**: the
    /// erase head traverses the full remaining tape, and all data from the
    /// current position onwards is permanently destroyed. It is **not** a
    /// cryptographic erase.
    fn erase(&mut self) -> (r: Result<(), TapeError>);
}

} // verus!
