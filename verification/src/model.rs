//! The mathematical model of an in-memory tape: its state, and the state after
//! each operation.

use vstd::prelude::*;

use crate::error::IoFault;
use crate::status::{DriveType, StatusFlags, TapeStatus};
use crate::tape::TapeCall;

verus! {

/// The state of an in-memory tape.
///
/// The tape is a sequence of tape files, each a sequence of bytes; a filemark
/// follows every one of them but an open last one. The head stands in tape file
/// `file`, `byte` bytes after its start.
#[verifier::ext_equal]
pub struct TapeState {
    /// The recorded tape files.
    pub files: Seq<Seq<u8>>,
    /// The tape file in which the head stands.
    pub file: nat,
    /// The offset of the head in that tape file.
    pub byte: nat,
    /// Whether writing is refused.
    pub write_protected: bool,
    /// The fixed block size; zero in variable-length mode.
    pub block_size: nat,
    /// Whether data was written since the last filemark was.
    pub dirty: bool,
    /// Whether the number of the current tape file is known to the drive.
    pub file_known: bool,
    /// Whether the offset in the current tape file is known to the drive.
    pub block_known: bool,
    /// How many reads in a row have landed on blank tape.
    pub blank_reads: nat,
    /// Whether everything from the head on was erased, and the head has not
    /// moved since.
    pub tail_erased: bool,
}

/// An operation that can change the state of a tape. Those without a variant
/// (flushing, loading, locking, unlocking, asking for status or position)
/// change nothing.
pub enum TapeStep {
    /// A read into a buffer of this length.
    Read(nat),
    /// A write of this data.
    Write(Seq<u8>),
    /// A rewind.
    Rewind,
    /// Seeking to the end of recorded data.
    SeekToEod,
    /// Spacing over this many filemarks.
    SpaceFilemarks(int),
    /// Spacing over this many records.
    SpaceRecords(int),
    /// Writing this many filemarks.
    WriteFilemarks(nat),
    /// Seeking to this block.
    SeekBlock(nat),
    /// Setting the block size.
    SetBlockSize(nat),
    /// Ejecting the cartridge.
    Unload,
    /// Erasing from the head on.
    Erase,
}

/// The lesser of two numbers.
pub open spec fn least(a: int, b: int) -> int {
    if a <= b {
        a
    } else {
        b
    }
}

/// `position` moved to the nearest number that a `usize` holds.
pub open spec fn clamped(position: int) -> nat {
    if position < 0 {
        0
    } else {
        least(position, usize::MAX as int) as nat
    }
}

impl TapeState {
    /// An empty, writable tape at BOT in variable-length mode.
    pub open spec fn blank() -> TapeState {
        TapeState {
            files: Seq::empty(),
            file: 0,
            byte: 0,
            write_protected: false,
            block_size: 0,
            dirty: false,
            file_known: true,
            block_known: true,
            blank_reads: 0,
            tail_erased: false,
        }
    }

    /// Whether the head stands past all recorded tape files.
    pub open spec fn at_eod(self) -> bool {
        self.file >= self.files.len()
    }

    /// Whether the head stands at the end of a recorded tape file.
    pub open spec fn at_filemark(self) -> bool {
        !self.at_eod() && self.byte >= self.files[self.file as int].len()
    }

    /// Whether the head stands at the start of a tape file.
    pub open spec fn at_file_start(self) -> bool {
        self.byte == 0
    }

    /// Whether the block mode lets `len` bytes be transferred at once.
    pub open spec fn aligned(self, len: nat) -> bool {
        self.block_size == 0 || len % self.block_size == 0
    }

    /// The part of the current tape file that lies before the head.
    pub open spec fn before_head(self) -> Seq<u8> {
        if self.at_eod() {
            Seq::empty()
        } else {
            let file = self.files[self.file as int];
            file.take(least(self.byte as int, file.len() as int))
        }
    }

    /// The part of the current tape file that lies behind the head.
    pub open spec fn after_head(self) -> Seq<u8> {
        if self.at_eod() {
            Seq::empty()
        } else {
            let file = self.files[self.file as int];
            file.skip(least(self.byte as int, file.len() as int))
        }
    }

    /// The tape files before the current one; those that were never recorded
    /// are empty.
    pub open spec fn earlier_files(self) -> Seq<Seq<u8>> {
        Seq::new(
            self.file,
            |i: int|
                if i < self.files.len() {
                    self.files[i]
                } else {
                    Seq::empty()
                },
        )
    }

    /// What is left on the tape once everything from the head on is gone. A
    /// tape file of which nothing is left is gone too.
    pub open spec fn cut(self) -> Seq<Seq<u8>> {
        if self.at_eod() {
            self.files
        } else if self.before_head().len() == 0 {
            self.files.take(self.file as int)
        } else {
            self.files.take(self.file as int).push(self.before_head())
        }
    }

    /// The state with the head at the start of tape file `file`, the drive
    /// knowing the position, and no blank tape read or erased there yet.
    pub open spec fn moved_to(self, file: nat) -> TapeState {
        TapeState {
            file,
            byte: 0,
            file_known: true,
            block_known: true,
            blank_reads: 0,
            tail_erased: false,
            ..self
        }
    }

    // Reading

    /// Why a read of `len` bytes fails, if it does.
    pub open spec fn read_fault(self, len: nat) -> Option<IoFault> {
        if !self.aligned(len) {
            Some(IoFault::ReadNotAligned)
        } else if self.at_eod() && self.blank_reads >= 2 {
            Some(IoFault::EndOfData)
        } else {
            None
        }
    }

    /// The bytes that a read into a buffer of `len` bytes delivers.
    pub open spec fn read_data(self, len: nat) -> Seq<u8> {
        if self.aligned(len) {
            self.after_head().take(least(len as int, self.after_head().len() as int))
        } else {
            Seq::empty()
        }
    }

    /// The state after a read into a buffer of `len` bytes. On blank tape the
    /// read is counted; at a filemark the head moves on to the next tape file,
    /// unless the buffer is empty.
    pub open spec fn after_read(self, len: nat) -> TapeState {
        if !self.aligned(len) {
            self
        } else if self.at_eod() {
            TapeState { blank_reads: least(self.blank_reads as int + 1, 255) as nat, ..self }
        } else if len == 0 {
            self
        } else if self.at_filemark() {
            self.moved_to(self.file + 1)
        } else {
            TapeState {
                byte: self.byte + self.read_data(len).len(),
                file_known: true,
                block_known: true,
                blank_reads: 0,
                tail_erased: false,
                ..self
            }
        }
    }

    // Writing

    /// Why a write of `len` bytes fails, if it does.
    pub open spec fn write_fault(self, len: nat) -> Option<IoFault> {
        if !self.aligned(len) {
            Some(IoFault::WriteNotAligned)
        } else if self.write_protected {
            Some(IoFault::WriteProtected)
        } else {
            None
        }
    }

    /// The state after a write of `data`: the data replaces everything from
    /// the head on.
    pub open spec fn after_write(self, data: Seq<u8>) -> TapeState {
        if self.write_fault(data.len()) is Some {
            self
        } else {
            TapeState {
                files: self.earlier_files().push(self.before_head() + data),
                byte: self.byte + data.len(),
                file_known: true,
                block_known: true,
                blank_reads: 0,
                tail_erased: false,
                dirty: true,
                ..self
            }
        }
    }

    /// The state after `count` filemarks were recorded at the head, which
    /// replace everything from the head on.
    pub open spec fn marked(self, count: nat) -> TapeState {
        if count == 0 {
            self
        } else {
            TapeState { files: self.cut(), dirty: false, ..self }.moved_to(self.file + count)
        }
    }

    /// The state after the filemark that closes an open tape file was recorded.
    pub open spec fn settled(self) -> TapeState {
        if self.dirty {
            self.marked(1)
        } else {
            self
        }
    }

    /// The state after a call to write `count` filemarks.
    pub open spec fn after_write_filemarks(self, count: nat) -> TapeState {
        if self.write_protected {
            self
        } else {
            self.marked(count)
        }
    }

    /// The state after an erase, which finds nothing to do past all recorded
    /// tape files.
    pub open spec fn after_erase(self) -> TapeState {
        if self.write_protected || self.at_eod() {
            self
        } else {
            TapeState { files: self.cut(), tail_erased: true, ..self }
        }
    }

    // Positioning

    /// The state after a rewind.
    pub open spec fn after_rewind(self) -> TapeState {
        self.settled().moved_to(0)
    }

    /// The state after the cartridge was ejected, for which the drive rewinds.
    pub open spec fn after_unload(self) -> TapeState {
        self.after_rewind()
    }

    /// The state after seeking to the end of recorded data.
    pub open spec fn after_seek_to_eod(self) -> TapeState {
        self.moved_to(self.files.len())
    }

    /// The state after spacing over `count` filemarks. Spacing backward leaves
    /// the drive without a record number; spacing over none does nothing.
    pub open spec fn after_space_filemarks(self, count: int) -> TapeState {
        if count == 0 {
            self
        } else if count > 0 {
            self.moved_to(clamped(self.file + count))
        } else {
            let closed = self.settled();
            TapeState { block_known: false, ..closed.moved_to(clamped(closed.file + count)) }
        }
    }

    /// The state after spacing over `count` records, which have no uniform size
    /// in variable-length mode.
    pub open spec fn after_space_records(self, count: int) -> TapeState {
        if self.block_size == 0 {
            self
        } else {
            let byte = clamped(self.byte + count * self.block_size);
            TapeState {
                byte,
                file_known: true,
                block_known: true,
                blank_reads: 0,
                tail_erased: self.tail_erased && byte == self.byte,
                ..self
            }
        }
    }

    /// The state after seeking to logical block `block`, which is the number of
    /// a tape file. The drive is left with neither a file nor a record number.
    pub open spec fn after_seek_block(self, block: nat) -> TapeState {
        if block > i32::MAX {
            self
        } else {
            TapeState {
                file_known: false,
                block_known: false,
                ..self.settled().moved_to(block)
            }
        }
    }

    /// The state after the block size was set.
    pub open spec fn after_set_block_size(self, bytes: nat) -> TapeState {
        TapeState { block_size: bytes, ..self }
    }

    // Status

    /// Whether the drive reports the end of recorded data: no tape file is
    /// recorded where the head stands, or all that followed it was erased.
    pub open spec fn reports_eod(self) -> bool {
        self.at_eod() || self.tail_erased
    }

    /// The flags of the drive status.
    pub open spec fn status_flags(self) -> StatusFlags {
        StatusFlags(
            StatusFlags::ONLINE
                | (if self.file == 0 && self.byte == 0 { StatusFlags::BOT } else { 0 })
                | (if self.file > 0 && self.byte == 0 { StatusFlags::EOF } else { 0 })
                | (if self.reports_eod() { StatusFlags::EOD } else { 0 })
                | (if self.write_protected { StatusFlags::WR_PROT } else { 0 }),
        )
    }

    /// The drive status. Positions are reported in 32 bits.
    pub open spec fn status(self) -> TapeStatus {
        TapeStatus {
            drive_type: DriveType(0),
            file_number: if self.file_known { self.file as i32 } else { -1i32 },
            block_number: if self.block_known { self.byte as i32 } else { -1i32 },
            block_size: self.block_size as u32,
            flags: self.status_flags(),
        }
    }

    // Steps

    /// The state after `step`.
    pub open spec fn after(self, step: TapeStep) -> TapeState {
        match step {
            TapeStep::Read(len) => self.after_read(len),
            TapeStep::Write(data) => self.after_write(data),
            TapeStep::Rewind => self.after_rewind(),
            TapeStep::SeekToEod => self.after_seek_to_eod(),
            TapeStep::SpaceFilemarks(count) => self.after_space_filemarks(count),
            TapeStep::SpaceRecords(count) => self.after_space_records(count),
            TapeStep::WriteFilemarks(count) => self.after_write_filemarks(count),
            TapeStep::SeekBlock(block) => self.after_seek_block(block),
            TapeStep::SetBlockSize(bytes) => self.after_set_block_size(bytes),
            TapeStep::Unload => self.after_unload(),
            TapeStep::Erase => self.after_erase(),
        }
    }

    /// What holds of every state that operations lead to: only reads at the end
    /// of recorded data are counted, an open tape file is one whose position
    /// is known, no record number is known without a file number, and nothing
    /// follows the head after an erase.
    pub open spec fn consistent(self) -> bool {
        &&& self.blank_reads > 0 ==> self.at_eod()
        &&& self.dirty ==> self.block_known
        &&& self.block_known ==> self.file_known
        &&& self.tail_erased ==> self.after_head().len() == 0 && self.files.len() <= self.file + 1
    }

    // Calls

    /// Whether the counters of the head let an open tape file be closed.
    pub open spec fn can_settle(self) -> bool {
        self.dirty ==> self.file < usize::MAX
    }

    /// Whether `call` can be carried out without a counter of the head
    /// overflowing.
    pub open spec fn admits(self, call: TapeCall) -> bool {
        match call {
            TapeCall::Rewind | TapeCall::Unload => self.can_settle(),
            TapeCall::SpaceFilemarks(count) =>
                count > i32::MIN && (count < 0 ==> self.can_settle()),
            TapeCall::SpaceRecords(count) => count > i32::MIN || self.block_size == 0,
            TapeCall::WriteFilemarks(count) =>
                self.write_protected || self.file + count <= usize::MAX,
            TapeCall::SeekBlock(block) => block > i32::MAX || self.can_settle(),
            TapeCall::Write(len) => self.write_fault(len as nat) is Some
                || (self.file < usize::MAX && self.byte + len <= usize::MAX),
        }
    }
}

} // verus!
