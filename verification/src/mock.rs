//! [`MockTape`], an in-memory tape for tests.
//!
//! Real tape hardware is not available in most CI environments, and even when
//! it is, tests that touch a physical drive are slow and potentially
//! destructive. `MockTape` lets higher-level logic be tested without hardware.
//!
//! A tape is a sequence of *tape files* separated by *filemarks*. `MockTape`
//! keeps each tape file as a `Vec<u8>`, and the position of the head as a tape
//! file and a byte offset in it. [`TapeState`] is the mathematical counterpart,
//! over which every operation is specified.

use vstd::prelude::*;

use crate::error::{IoFault, TapeError};
use crate::model::TapeState;
use crate::status::{DriveType, StatusFlags, TapeStatus};
use crate::tape::{Tape, TapeCall};

verus! {

/// In-memory tape simulation. See the [module documentation](self).
pub struct MockTape {
    /// The tape contents, one entry per tape file (data between filemarks).
    files: Vec<Vec<u8>>,
    /// Index into `files` of the tape file currently being read or written.
    file_idx: usize,
    /// Byte offset within `files[file_idx]`.
    byte_idx: usize,
    /// When `true`, writing, writing filemarks and erasing are refused.
    write_protected: bool,
    /// Current block (record) size in bytes; `0` is variable-length mode.
    block_size: u32,
    /// Whether a data write has occurred since the last filemark was written.
    ///
    /// The Linux `st` driver writes one filemark before it rewinds, spaces
    /// backward over filemarks, seeks to a block or ejects, when the previous
    /// operation was a write.
    dirty: bool,
    /// Whether the file number is known. Seeking to a block makes it unknown;
    /// every other positioning operation makes it known again.
    file_known: bool,
    /// Whether the offset in the file is known. Seeking to a block and spacing
    /// backward over filemarks make it unknown.
    block_known: bool,
    /// Number of consecutive reads on blank tape, up to 255. Reset by any
    /// operation that changes the tape position or returns actual data.
    consecutive_zero_reads: u8,
    /// Whether everything from the head on was erased. Cleared by any operation
    /// that moves the head or writes.
    tail_erased: bool,
}

/// The bytes of each tape file.
pub open spec fn contents(files: Seq<Vec<u8>>) -> Seq<Seq<u8>> {
    Seq::new(files.len(), |i: int| files[i]@)
}

impl View for MockTape {
    type V = TapeState;

    closed spec fn view(&self) -> TapeState {
        TapeState {
            files: contents(self.files@),
            file: self.file_idx as nat,
            byte: self.byte_idx as nat,
            write_protected: self.write_protected,
            block_size: self.block_size as nat,
            dirty: self.dirty,
            file_known: self.file_known,
            block_known: self.block_known,
            blank_reads: self.consecutive_zero_reads as nat,
            tail_erased: self.tail_erased,
        }
    }
}

impl MockTape {
    /// Create an empty, writable mock tape positioned at BOT.
    pub fn new() -> (r: MockTape)
        ensures
            r@ == TapeState::blank(),
    {
        MockTape {
            files: Vec::new(),
            file_idx: 0,
            byte_idx: 0,
            write_protected: false,
            block_size: 0,
            dirty: false,
            file_known: true,
            block_known: true,
            consecutive_zero_reads: 0,
            tail_erased: false,
        }
    }

    /// Mark the tape as write-protected. Builder-style.
    pub fn write_protected(self) -> (r: MockTape)
        ensures
            r@ == (TapeState { write_protected: true, ..self@ }),
    {
        let mut tape = self;
        tape.write_protected = true;
        tape
    }

    /// The raw tape-file data, for assertions in tests.
    ///
    /// `files()[i]` contains all bytes written to tape file `i`.
    pub fn files(&self) -> (r: &[Vec<u8>])
        ensures
            contents(r@) == self@.files,
    {
        self.files.as_slice()
    }

    /// Number of tape files written so far, one that is still open included.
    pub fn file_count(&self) -> (r: usize)
        ensures
            r == self@.files.len(),
    {
        self.files.len()
    }

    fn check_write_protected(&self) -> (r: Result<(), TapeError>)
        ensures
            r == if self@.write_protected {
                Err::<(), TapeError>(TapeError::WriteProtected)
            } else {
                Ok(())
            },
    {
        if self.write_protected {
            Err(TapeError::WriteProtected)
        } else {
            Ok(())
        }
    }

    /// Remove everything from the head on.
    fn cut(&mut self)
        ensures
            final(self)@ == (TapeState { files: old(self)@.cut(), ..old(self)@ }),
    {
        let idx: usize = self.file_idx;
        if idx < self.files.len() {
            self.files[idx].truncate(self.byte_idx);
            assert(self.files@[idx as int]@ =~= old(self)@.before_head());
            if self.files[idx].len() == 0 {
                self.files.truncate(idx);
            } else {
                self.files.truncate(idx + 1);
            }
            assert(self@.files =~= old(self)@.cut());
        }
    }

    /// Record `count` filemarks at the head.
    fn mark(&mut self, count: u32)
        requires
            old(self)@.file + count <= usize::MAX,
        ensures
            final(self)@ == old(self)@.marked(count as nat),
    {
        if count > 0 {
            self.cut();
            self.file_idx = self.file_idx + count as usize;
            self.byte_idx = 0;
            self.file_known = true;
            self.block_known = true;
            self.dirty = false;
            self.consecutive_zero_reads = 0;
            self.tail_erased = false;
        }
    }

    /// Write one filemark if a data write is pending.
    ///
    /// The Linux `st` driver does this silently before the head moves away from
    /// what it has written, so that every tape file is closed. The filemark is
    /// written on a write-protected tape too: the data before it was.
    fn flush_if_dirty(&mut self)
        requires
            old(self)@.can_settle(),
        ensures
            final(self)@ == old(self)@.settled(),
    {
        if self.dirty {
            self.mark(1);
        }
    }

    /// Move the head to the start of tape file `file_idx`.
    fn move_to(&mut self, file_idx: usize)
        ensures
            final(self)@ == old(self)@.moved_to(file_idx as nat),
    {
        self.file_idx = file_idx;
        self.byte_idx = 0;
        self.file_known = true;
        self.block_known = true;
        self.consecutive_zero_reads = 0;
        self.tail_erased = false;
    }

    /// Returns `true` if the block mode lets `len` bytes be transferred at once.
    fn is_aligned(&self, len: usize) -> (r: bool)
        ensures
            r == self@.aligned(len as nat),
    {
        self.block_size == 0 || len % self.block_size as usize == 0
    }
}

impl Default for MockTape {
    fn default() -> (r: MockTape)
        ensures
            r@ == TapeState::blank(),
    {
        MockTape::new()
    }
}

impl Tape for MockTape {
    open spec fn admits(&self, call: TapeCall) -> bool {
        self@.admits(call)
    }

    fn accepts(&self, call: TapeCall) -> (r: bool) {
        let can_settle: bool = !self.dirty || self.file_idx < usize::MAX;
        match call {
            TapeCall::Rewind | TapeCall::Unload => can_settle,
            TapeCall::SpaceFilemarks(count) => count > i32::MIN && (count >= 0 || can_settle),
            TapeCall::SpaceRecords(count) => count > i32::MIN || self.block_size == 0,
            TapeCall::WriteFilemarks(count) => self.write_protected || count as usize <= usize::MAX
                - self.file_idx,
            TapeCall::SeekBlock(block) => block > 0x7fff_ffff || can_settle,
            TapeCall::Write(len) => !self.is_aligned(len) || self.write_protected || (self.file_idx
                < usize::MAX && len <= usize::MAX - self.byte_idx),
        }
    }

    /// Read bytes from the current tape file.
    ///
    /// At a filemark the head moves on to the next tape file and zero bytes are
    /// returned. On blank tape zero bytes are returned twice, and
    /// [`IoFault::EndOfData`] from then on. In a recorded tape file, a read into
    /// an empty buffer neither moves the head nor crosses a filemark.
    fn read(&mut self, buf: &mut [u8]) -> (r: Result<usize, TapeError>)
        ensures
            final(self)@ == old(self)@.after_read(old(buf)@.len()),
            final(buf)@ == old(self)@.read_data(old(buf)@.len()) + old(buf)@.skip(
                old(self)@.read_data(old(buf)@.len()).len() as int,
            ),
            match old(self)@.read_fault(old(buf)@.len()) {
                Some(fault) => r == Err::<usize, TapeError>(TapeError::Io(fault)),
                None => r matches Ok(n) && n == old(self)@.read_data(old(buf)@.len()).len(),
            },
    {
        let len: usize = buf.len();
        if !self.is_aligned(len) {
            assert(buf@ =~= Seq::<u8>::empty() + buf@.skip(0));
            return Err(TapeError::Io(IoFault::ReadNotAligned));
        }
        let idx: usize = self.file_idx;
        if idx >= self.files.len() {
            assert(buf@ =~= Seq::<u8>::empty() + buf@.skip(0));
            if self.consecutive_zero_reads < 255 {
                self.consecutive_zero_reads = self.consecutive_zero_reads + 1;
            }
            if self.consecutive_zero_reads > 2 {
                return Err(TapeError::Io(IoFault::EndOfData));
            }
            return Ok(0);
        }
        if len == 0 {
            assert(self@.read_data(0) =~= Seq::<u8>::empty());
            assert(buf@ =~= Seq::<u8>::empty() + buf@.skip(0));
            return Ok(0);
        }
        let ghost rest = self@.after_head();
        let start: usize = self.byte_idx;
        if start >= self.files[idx].len() {
            assert(rest.take(0) =~= Seq::<u8>::empty());
            assert(buf@ =~= Seq::<u8>::empty() + buf@.skip(0));
            self.move_to(idx + 1);
            return Ok(0);
        }
        let available: usize = self.files[idx].len() - start;
        let n: usize = if len <= available { len } else { available };
        let mut i: usize = 0;
        while i < n
            invariant
                i <= n,
                n <= len,
                n <= rest.len(),
                start + n <= usize::MAX,
                idx < self.files@.len(),
                start + rest.len() == self.files@[idx as int]@.len(),
                rest == self.files@[idx as int]@.skip(start as int),
                self@ == old(self)@,
                buf@.len() == len,
                buf@ == rest.take(i as int) + old(buf)@.skip(i as int),
                len == old(buf)@.len(),
            decreases n - i,
        {
            buf[i] = self.files[idx][start + i];
            i = i + 1;
            assert(buf@ =~= rest.take(i as int) + old(buf)@.skip(i as int));
        }
        self.byte_idx = start + n;
        self.file_known = true;
        self.block_known = true;
        self.consecutive_zero_reads = 0;
        self.tail_erased = false;
        Ok(n)
    }

    /// Write bytes at the head.
    ///
    /// Any bytes that existed in the current tape file after the head are
    /// discarded, and all tape files after the current one are removed.
    fn write(&mut self, buf: &[u8]) -> (r: Result<usize, TapeError>)
        ensures
            final(self)@ == old(self)@.after_write(buf@),
            match old(self)@.write_fault(buf@.len()) {
                Some(fault) => r == Err::<usize, TapeError>(TapeError::Io(fault)),
                None => r matches Ok(n) && n == buf@.len(),
            },
    {
        if !self.is_aligned(buf.len()) {
            return Err(TapeError::Io(IoFault::WriteNotAligned));
        }
        if self.write_protected {
            return Err(TapeError::Io(IoFault::WriteProtected));
        }
        let idx: usize = self.file_idx;
        while self.files.len() <= idx
            invariant
                idx < usize::MAX,
                self.files@.len() <= old(self).files@.len() || self.files@.len() <= idx + 1,
                old(self).files@.len() <= self.files@.len(),
                forall|j: int|
                    0 <= j < self.files@.len() ==> (#[trigger] self.files@[j])@ == if j < old(
                        self,
                    ).files@.len() {
                        old(self).files@[j]@
                    } else {
                        Seq::<u8>::empty()
                    },
                *self == (MockTape { files: self.files, ..*old(self) }),
            decreases idx + 1 - self.files@.len(),
        {
            self.files.push(Vec::new());
        }
        self.files[idx].truncate(self.byte_idx);
        assert(self.files@[idx as int]@ =~= old(self)@.before_head());
        self.files[idx].extend_from_slice(buf);
        assert(self.files@[idx as int]@ =~= old(self)@.before_head() + buf@);
        self.files.truncate(idx + 1);
        assert(contents(self.files@) =~= old(self)@.earlier_files().push(
            old(self)@.before_head() + buf@,
        ));
        self.byte_idx = self.byte_idx + buf.len();
        self.file_known = true;
        self.block_known = true;
        self.consecutive_zero_reads = 0;
        self.tail_erased = false;
        self.dirty = true;
        Ok(buf.len())
    }

    /// No-op: nothing is held back.
    fn flush(&mut self) -> (r: Result<(), TapeError>)
        ensures
            final(self)@ == old(self)@,
            r == Ok::<(), TapeError>(()),
    {
        Ok(())
    }

    fn rewind(&mut self) -> (r: Result<(), TapeError>)
        ensures
            final(self)@ == old(self)@.after_rewind(),
            r == Ok::<(), TapeError>(()),
    {
        self.flush_if_dirty();
        self.move_to(0);
        Ok(())
    }

    fn seek_to_eod(&mut self) -> (r: Result<(), TapeError>)
        ensures
            final(self)@ == old(self)@.after_seek_to_eod(),
            r == Ok::<(), TapeError>(()),
    {
        let count: usize = self.files.len();
        self.move_to(count);
        Ok(())
    }

    fn space_filemarks(&mut self, count: i32) -> (r: Result<(), TapeError>)
        ensures
            final(self)@ == old(self)@.after_space_filemarks(count as int),
            r == Ok::<(), TapeError>(()),
    {
        if count > 0 {
            let target: usize = self.file_idx.saturating_add(count as usize);
            self.move_to(target);
        } else if count < 0 {
            self.flush_if_dirty();
            let target: usize = self.file_idx.saturating_sub((-count) as usize);
            self.move_to(target);
            self.block_known = false;
        }
        Ok(())
    }

    /// In fixed block mode, each record is `block_size` bytes long. In
    /// variable-length mode records have no uniform size, and nothing happens.
    fn space_records(&mut self, count: i32) -> (r: Result<(), TapeError>)
        ensures
            final(self)@ == old(self)@.after_space_records(count as int),
            r == Ok::<(), TapeError>(()),
    {
        if self.block_size == 0 {
            return Ok(());
        }
        let records: u64 = if count >= 0 { count as u64 } else { (-count) as u64 };
        let step: u64 = self.block_size as u64;
        assert(records * step <= 0x7fff_ffff * 0xffff_ffff) by (nonlinear_arith)
            requires
                0 <= records <= 0x7fff_ffff,
                0 <= step <= 0xffff_ffff,
        ;
        let distance: u64 = records * step;
        assert(distance == records * step);
        let start: usize = self.byte_idx;
        let room: u64 = usize::MAX as u64;
        let bytes: usize = if distance <= room { distance as usize } else { usize::MAX };
        if count >= 0 {
            self.byte_idx = self.byte_idx.saturating_add(bytes);
        } else {
            assert(count * self.block_size == -(records * step)) by (nonlinear_arith)
                requires
                    records == -count,
                    step == self.block_size,
            ;
            self.byte_idx = self.byte_idx.saturating_sub(bytes);
        }
        self.file_known = true;
        self.block_known = true;
        self.consecutive_zero_reads = 0;
        self.tail_erased = self.tail_erased && self.byte_idx == start;
        Ok(())
    }

    /// Write `count` filemarks.
    ///
    /// Everything from the head on is replaced. If nothing is left of the
    /// current tape file, its slot is removed rather than kept as a zero-length
    /// placeholder.
    fn write_filemarks(&mut self, count: u32) -> (r: Result<(), TapeError>)
        ensures
            final(self)@ == old(self)@.after_write_filemarks(count as nat),
            r == if old(self)@.write_protected {
                Err::<(), TapeError>(TapeError::WriteProtected)
            } else {
                Ok(())
            },
    {
        self.check_write_protected()?;
        self.mark(count);
        Ok(())
    }

    /// Seek to a logical block number.
    ///
    /// In this mock, the block number is the tape-file index, which matches
    /// what [`position`](Tape::position) returns.
    fn seek_block(&mut self, block: u64) -> (r: Result<(), TapeError>)
        ensures
            final(self)@ == old(self)@.after_seek_block(block as nat),
            r == if block > i32::MAX {
                Err::<(), TapeError>(TapeError::BlockNumberTooLarge(block))
            } else {
                Ok(())
            },
    {
        if block > 0x7fff_ffff {
            return Err(TapeError::BlockNumberTooLarge(block));
        }
        self.flush_if_dirty();
        self.move_to(block as usize);
        self.file_known = false;
        self.block_known = false;
        Ok(())
    }

    fn set_block_size(&mut self, bytes: u32) -> (r: Result<(), TapeError>)
        ensures
            final(self)@ == old(self)@.after_set_block_size(bytes as nat),
            r == Ok::<(), TapeError>(()),
    {
        self.block_size = bytes;
        Ok(())
    }

    /// No-op: the mock has no cartridge mechanism to load.
    fn load(&mut self) -> (r: Result<(), TapeError>)
        ensures
            final(self)@ == old(self)@,
            r == Ok::<(), TapeError>(()),
    {
        Ok(())
    }

    /// Close an open tape file and simulate ejecting the cartridge, which
    /// leaves the tape at BOT.
    fn unload(&mut self) -> (r: Result<(), TapeError>)
        ensures
            final(self)@ == old(self)@.after_unload(),
            r == Ok::<(), TapeError>(()),
    {
        self.flush_if_dirty();
        self.move_to(0);
        Ok(())
    }

    /// No-op: the mock has no door to lock.
    fn lock(&mut self) -> (r: Result<(), TapeError>)
        ensures
            final(self)@ == old(self)@,
            r == Ok::<(), TapeError>(()),
    {
        Ok(())
    }

    /// No-op: the mock has no door to unlock.
    fn unlock(&mut self) -> (r: Result<(), TapeError>)
        ensures
            final(self)@ == old(self)@,
            r == Ok::<(), TapeError>(()),
    {
        Ok(())
    }

    /// The mock always has a tape loaded and the drive ready.
    fn status(&mut self) -> (r: Result<TapeStatus, TapeError>)
        ensures
            final(self)@ == old(self)@,
            r == Ok::<TapeStatus, TapeError>(old(self)@.status()),
    {
        let bot: i64 = if self.file_idx == 0 && self.byte_idx == 0 { StatusFlags::BOT } else { 0 };
        let eof: i64 = if self.file_idx > 0 && self.byte_idx == 0 { StatusFlags::EOF } else { 0 };
        let eod: i64 = if self.file_idx >= self.files.len() || self.tail_erased {
            StatusFlags::EOD
        } else {
            0
        };
        let wr_prot: i64 = if self.write_protected { StatusFlags::WR_PROT } else { 0 };
        let file_number: i32 = if self.file_known {
            #[verifier::truncate]
            (self.file_idx as i32)
        } else {
            -1
        };
        let block_number: i32 = if self.block_known {
            #[verifier::truncate]
            (self.byte_idx as i32)
        } else {
            -1
        };
        Ok(
            TapeStatus {
                drive_type: DriveType(0),
                file_number,
                block_number,
                block_size: self.block_size,
                flags: StatusFlags(StatusFlags::ONLINE | bot | eof | eod | wr_prot),
            },
        )
    }

    /// Return the current tape-file index as a position token.
    ///
    /// Sub-file byte offsets are not encoded.
    fn position(&mut self) -> (r: Result<u64, TapeError>)
        ensures
            final(self)@ == old(self)@,
            r matches Ok(block) && block == old(self)@.file,
    {
        Ok(self.file_idx as u64)
    }

    /// Erase from the current position to EOD.
    ///
    /// Truncates the current tape file at the current byte offset and removes
    /// all subsequent files, which leaves the head at EOD. Returns
    /// [`TapeError::WriteProtected`] if the tape is write-protected.
    fn erase(&mut self) -> (r: Result<(), TapeError>)
        ensures
            final(self)@ == old(self)@.after_erase(),
            r == if old(self)@.write_protected {
                Err::<(), TapeError>(TapeError::WriteProtected)
            } else {
                Ok(())
            },
    {
        self.check_write_protected()?;
        if self.file_idx < self.files.len() {
            self.cut();
            self.tail_erased = true;
        }
        Ok(())
    }
}

} // verus!
