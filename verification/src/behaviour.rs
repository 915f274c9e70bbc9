//! What each operation of the in-memory tape does, told by what stands on the
//! tape, where the head stands and what the drive knows, before and after it.
//!
//! The statements of this module read the state of a tape and nothing else:
//! which bytes are kept, which are gone, which tape file and offset the head
//! comes to, and how the outcome of one operation relates to that of another.

use vstd::prelude::*;

use crate::error::IoFault;
use crate::mock::contents;
use crate::model::TapeState;
use crate::tape::TapeCall;

verus! {

// A new tape

/// A new tape holds nothing, is writable and in variable-length mode, and its
/// head stands at BOT, which the drive knows.
pub proof fn law_new_tape_is_empty_and_at_bot()
    ensures
        TapeState::blank().files.len() == 0,
        TapeState::blank().file == 0,
        TapeState::blank().byte == 0,
        !TapeState::blank().write_protected,
        TapeState::blank().block_size == 0,
        !TapeState::blank().dirty,
        TapeState::blank().file_known,
        TapeState::blank().block_known,
        TapeState::blank().blank_reads == 0,
        !TapeState::blank().tail_erased,
{
}

/// The contents of a list of tape files are the bytes of each, in their order.
pub proof fn law_contents_are_the_bytes_of_each_file(files: Seq<Vec<u8>>)
    ensures
        contents(files).len() == files.len(),
        forall|i: int| 0 <= i < files.len() ==> #[trigger] contents(files)[i] == files[i]@,
{
}

// Reading

/// A read is refused for its length exactly in fixed block mode, where the
/// length is no multiple of the block size; it then delivers and changes
/// nothing.
pub proof fn law_read_of_part_of_a_block_is_refused(s: TapeState, len: nat)
    ensures
        s.read_fault(len) == Some(IoFault::ReadNotAligned) <==> s.block_size > 0 && len
            % s.block_size != 0,
        s.block_size > 0 && len % s.block_size != 0 ==> s.read_data(len).len() == 0 && s.after_read(
            len,
        ) == s,
{
}

/// A read that its length allows fails exactly where no tape file is recorded
/// and two reads in a row were there before; no other fault is there.
pub proof fn law_read_fails_after_two_blank_reads(s: TapeState, len: nat)
    ensures
        s.read_fault(len) == Some(IoFault::EndOfData) <==> (s.block_size == 0 || len % s.block_size
            == 0) && s.file >= s.files.len() && s.blank_reads >= 2,
        s.read_fault(len) is Some ==> s.read_fault(len) == Some(IoFault::ReadNotAligned)
            || s.read_fault(len) == Some(IoFault::EndOfData),
{
}

/// A read delivers bytes of the current tape file from the head on, as many as
/// the buffer takes or the tape file still has, and the head moves past them.
pub proof fn law_read_delivers_the_bytes_behind_the_head(s: TapeState, len: nat)
    requires
        s.file < s.files.len(),
        s.byte < s.files[s.file as int].len(),
        s.block_size > 0 ==> len % s.block_size == 0,
        len > 0,
    ensures
        s.read_fault(len) is None,
        s.read_data(len).len() > 0,
        s.read_data(len).len() == len || (s.read_data(len).len() < len && s.byte + s.read_data(
            len,
        ).len() == s.files[s.file as int].len()),
        s.byte + s.read_data(len).len() <= s.files[s.file as int].len(),
        forall|i: int|
            0 <= i < s.read_data(len).len() ==> #[trigger] s.read_data(len)[i]
                == s.files[s.file as int][s.byte + i],
        s.after_read(len).file == s.file,
        s.after_read(len).byte == s.byte + s.read_data(len).len(),
        s.after_read(len).file_known,
        s.after_read(len).block_known,
        s.after_read(len).blank_reads == 0,
        !s.after_read(len).tail_erased,
{
}

/// A read at the end of a recorded tape file delivers nothing and moves the
/// head over the filemark, to the start of the next tape file.
pub proof fn law_read_at_a_filemark_crosses_it(s: TapeState, len: nat)
    requires
        s.file < s.files.len(),
        s.byte >= s.files[s.file as int].len(),
        s.block_size > 0 ==> len % s.block_size == 0,
        len > 0,
    ensures
        s.read_fault(len) is None,
        s.read_data(len).len() == 0,
        s.after_read(len).file == s.file + 1,
        s.after_read(len).byte == 0,
        s.after_read(len).file_known,
        s.after_read(len).block_known,
        s.after_read(len).blank_reads == 0,
        !s.after_read(len).tail_erased,
{
}

/// A read into an empty buffer, in a recorded tape file, does nothing.
pub proof fn law_empty_read_stays_in_the_tape_file(s: TapeState)
    requires
        s.file < s.files.len(),
    ensures
        s.read_fault(0) is None,
        s.read_data(0).len() == 0,
        s.after_read(0) == s,
{
}

/// A read on blank tape delivers nothing and leaves the head where it is, with
/// the read counted (up to 255).
pub proof fn law_read_of_blank_tape_is_counted(s: TapeState, len: nat)
    requires
        s.file >= s.files.len(),
        s.block_size > 0 ==> len % s.block_size == 0,
    ensures
        s.read_data(len).len() == 0,
        s.after_read(len).file == s.file,
        s.after_read(len).byte == s.byte,
        s.after_read(len).file_known == s.file_known,
        s.after_read(len).block_known == s.block_known,
        s.after_read(len).tail_erased == s.tail_erased,
        s.blank_reads < 255 ==> s.after_read(len).blank_reads == s.blank_reads + 1,
        s.blank_reads >= 255 ==> s.after_read(len).blank_reads == 255,
{
}

/// No read changes what is recorded, the block mode, the write protection or
/// whether a tape file is open.
pub proof fn law_read_keeps_the_tape(s: TapeState, len: nat)
    ensures
        s.after_read(len).files == s.files,
        s.after_read(len).write_protected == s.write_protected,
        s.after_read(len).block_size == s.block_size,
        s.after_read(len).dirty == s.dirty,
{
}

// Writing data

/// A write is refused for its length exactly in fixed block mode, where the
/// length is no multiple of the block size; else it is refused exactly on a
/// write-protected tape. A refused write changes nothing.
pub proof fn law_write_is_refused_for_length_or_protection(s: TapeState, data: Seq<u8>)
    ensures
        s.write_fault(data.len()) == Some(IoFault::WriteNotAligned) <==> s.block_size > 0
            && data.len() % s.block_size != 0,
        s.write_fault(data.len()) == Some(IoFault::WriteProtected) <==> s.write_protected && (
        s.block_size == 0 || data.len() % s.block_size == 0),
        s.write_fault(data.len()) is None <==> !s.write_protected && (s.block_size == 0
            || data.len() % s.block_size == 0),
        s.write_protected || (s.block_size > 0 && data.len() % s.block_size != 0)
            ==> s.after_write(data) == s,
{
}

/// A write puts the data into the current tape file behind what it held before
/// the head, removes all that followed, and leaves the tape files before it as
/// they were; of those, the ones never recorded come to be empty.
pub proof fn law_write_puts_the_data_at_the_head(s: TapeState, data: Seq<u8>)
    requires
        !s.write_protected,
        s.block_size > 0 ==> data.len() % s.block_size == 0,
    ensures
        ({
            let t = s.after_write(data);
            let last = t.files[s.file as int];
            let kept = last.len() - data.len();
            &&& t.files.len() == s.file + 1
            &&& forall|i: int|
                0 <= i < s.file && i < s.files.len() ==> #[trigger] t.files[i] == s.files[i]
            &&& forall|i: int|
                s.files.len() <= i < s.file ==> (#[trigger] t.files[i]).len() == 0
            &&& 0 <= kept <= s.byte
            &&& s.file >= s.files.len() ==> kept == 0
            &&& s.file < s.files.len() ==> {
                &&& kept <= s.files[s.file as int].len()
                &&& kept == s.byte || kept == s.files[s.file as int].len()
                &&& forall|i: int|
                    0 <= i < kept ==> #[trigger] last[i] == s.files[s.file as int][i]
            }
            &&& forall|i: int| 0 <= i < data.len() ==> last[kept + i] == #[trigger] data[i]
        }),
{
}

/// A write moves the head past the data, in the same tape file, which is open
/// from then on; the drive knows the position.
pub proof fn law_write_moves_the_head_past_the_data(s: TapeState, data: Seq<u8>)
    requires
        !s.write_protected,
        s.block_size > 0 ==> data.len() % s.block_size == 0,
    ensures
        s.after_write(data).file == s.file,
        s.after_write(data).byte == s.byte + data.len(),
        s.after_write(data).dirty,
        s.after_write(data).file_known,
        s.after_write(data).block_known,
        s.after_write(data).blank_reads == 0,
        !s.after_write(data).tail_erased,
        !s.after_write(data).write_protected,
        s.after_write(data).block_size == s.block_size,
{
}

// Writing filemarks

/// A filemark replaces everything from the head on: the tape files before the
/// current one are as they were, the current one keeps exactly the bytes before
/// the head, or is gone if there are none, and no tape file follows.
pub proof fn law_filemarks_replace_all_that_follows(s: TapeState, count: nat)
    requires
        !s.write_protected,
        count > 0,
    ensures
        ({
            let t = s.after_write_filemarks(count);
            &&& forall|i: int|
                0 <= i < s.file && i < s.files.len() ==> i < t.files.len() && #[trigger] t.files[i]
                    == s.files[i]
            &&& s.file >= s.files.len() ==> t.files.len() == s.files.len()
            &&& s.file < s.files.len() ==> {
                let old_file = s.files[s.file as int];
                let empty = s.byte == 0 || old_file.len() == 0;
                &&& empty ==> t.files.len() == s.file
                &&& !empty ==> {
                    &&& t.files.len() == s.file + 1
                    &&& s.byte <= old_file.len() ==> t.files[s.file as int].len() == s.byte
                    &&& s.byte > old_file.len() ==> t.files[s.file as int].len() == old_file.len()
                    &&& forall|i: int|
                        0 <= i < t.files[s.file as int].len()
                            ==> #[trigger] t.files[s.file as int][i] == old_file[i]
                }
            }
        }),
{
}

/// Each filemark moves the head on by one tape file, to its start; no tape file
/// is open then, and the drive knows the position.
pub proof fn law_filemarks_move_the_head_over_them(s: TapeState, count: nat)
    requires
        !s.write_protected,
        count > 0,
    ensures
        s.after_write_filemarks(count).file == s.file + count,
        s.after_write_filemarks(count).byte == 0,
        !s.after_write_filemarks(count).dirty,
        s.after_write_filemarks(count).file_known,
        s.after_write_filemarks(count).block_known,
        s.after_write_filemarks(count).blank_reads == 0,
        !s.after_write_filemarks(count).tail_erased,
        !s.after_write_filemarks(count).write_protected,
        s.after_write_filemarks(count).block_size == s.block_size,
{
}

/// No filemark on a write-protected tape, and none by a count of zero.
pub proof fn law_filemarks_need_a_writable_tape(s: TapeState, count: nat)
    requires
        s.write_protected || count == 0,
    ensures
        s.after_write_filemarks(count) == s,
{
}

// Erasing

/// An erase never moves the head, nor changes what the drive knows of it, the
/// block mode, the protection, the count of blank reads or whether a tape file
/// is open.
pub proof fn law_erase_does_not_move_the_head(s: TapeState)
    ensures
        s.after_erase().file == s.file,
        s.after_erase().byte == s.byte,
        s.after_erase().file_known == s.file_known,
        s.after_erase().block_known == s.block_known,
        s.after_erase().blank_reads == s.blank_reads,
        s.after_erase().write_protected == s.write_protected,
        s.after_erase().block_size == s.block_size,
        s.after_erase().dirty == s.dirty,
        s.write_protected || s.file >= s.files.len() ==> s.after_erase() == s,
        !s.write_protected && s.file < s.files.len() ==> s.after_erase().tail_erased,
{
}

/// An erase keeps exactly the bytes before the head: the tape files before the
/// current one, and of the current one what lies before the head.
pub proof fn law_erase_keeps_the_bytes_before_the_head(s: TapeState)
    requires
        !s.write_protected,
        s.file < s.files.len(),
    ensures
        ({
            let t = s.after_erase();
            let old_file = s.files[s.file as int];
            let empty = s.byte == 0 || old_file.len() == 0;
            &&& forall|i: int| 0 <= i < s.file ==> #[trigger] t.files[i] == s.files[i]
            &&& empty ==> t.files.len() == s.file
            &&& !empty ==> {
                &&& t.files.len() == s.file + 1
                &&& s.byte <= old_file.len() ==> t.files[s.file as int].len() == s.byte
                &&& s.byte > old_file.len() ==> t.files[s.file as int].len() == old_file.len()
                &&& forall|i: int|
                    0 <= i < t.files[s.file as int].len() ==> #[trigger] t.files[s.file as int][i]
                        == old_file[i]
            }
        }),
{
}

/// An erase before a write, or before a filemark, makes no difference to what
/// is recorded then, nor to where the head comes to: both discard what follows.
pub proof fn law_erase_before_writing_makes_no_difference(s: TapeState, data: Seq<u8>, count: nat)
    requires
        !s.write_protected,
        s.block_size > 0 ==> data.len() % s.block_size == 0,
        count > 0,
    ensures
        s.after_erase().after_write(data) == s.after_write(data),
        s.after_erase().after_write_filemarks(count) == s.after_write_filemarks(count),
{
    let e = s.after_erase();
    if !s.at_eod() {
        assert(e.before_head() =~= s.before_head());
        assert(e.earlier_files() =~= s.earlier_files());
        assert(e.after_write(data) =~= s.after_write(data));
        assert(e.cut() =~= s.cut());
        assert(e.after_write_filemarks(count) =~= s.after_write_filemarks(count));
    }
}

/// After a rewind and an erase, data written reads back from BOT.
pub proof fn law_data_written_after_an_erase_reads_back(s: TapeState, data: Seq<u8>, len: nat)
    requires
        !s.write_protected,
        s.block_size > 0 ==> data.len() % s.block_size == 0 && len % s.block_size == 0,
        len >= data.len() > 0,
    ensures
        ({
            let erased = s.after_rewind().after_erase();
            let back = erased.after_write(data).after_rewind();
            &&& erased.files.len() == 0
            &&& erased.file == 0 && erased.byte == 0
            &&& back.files == seq![data]
            &&& back.file == 0 && back.byte == 0
            &&& back.read_fault(len) is None
            &&& back.read_data(len) == data
        }),
{
    let erased = s.after_rewind().after_erase();
    assert(s.after_rewind().before_head() =~= Seq::empty());
    let written = erased.after_write(data);
    assert(written.files =~= seq![data]);
    assert(written.before_head() =~= data);
    let back = written.after_rewind();
    assert(back.files =~= seq![data]);
    assert(back.read_data(len) =~= data);
}

/// An erase removes what a filemark in its place would replace.
pub proof fn law_erase_removes_what_a_filemark_replaces(s: TapeState)
    requires
        !s.write_protected,
    ensures
        s.after_erase().files == s.after_write_filemarks(1).files,
{
}

// Positioning

/// Seeking to the end of recorded data moves the head past the last recorded
/// tape file and changes nothing on the tape; an open tape file stays open.
pub proof fn law_seek_to_eod_moves_past_the_last_file(s: TapeState)
    ensures
        s.after_seek_to_eod().file == s.files.len(),
        s.after_seek_to_eod().byte == 0,
        s.after_seek_to_eod().file_known,
        s.after_seek_to_eod().block_known,
        s.after_seek_to_eod().blank_reads == 0,
        !s.after_seek_to_eod().tail_erased,
        s.after_seek_to_eod().files == s.files,
        s.after_seek_to_eod().write_protected == s.write_protected,
        s.after_seek_to_eod().block_size == s.block_size,
        s.after_seek_to_eod().dirty == s.dirty,
{
}

/// A rewind, and so an ejection, leaves the head at the start of the first tape
/// file, with the position known and no tape file open.
pub proof fn law_rewind_and_unload_go_to_bot(s: TapeState)
    ensures
        s.after_rewind().file == 0,
        s.after_rewind().byte == 0,
        s.after_rewind().file_known,
        s.after_rewind().block_known,
        s.after_rewind().blank_reads == 0,
        !s.after_rewind().tail_erased,
        !s.after_rewind().dirty,
        s.after_rewind().write_protected == s.write_protected,
        s.after_rewind().block_size == s.block_size,
        s.after_unload() == s.after_rewind(),
{
}

/// Spacing forward over `count` filemarks moves the head on by `count` tape
/// files, as far as they can be numbered, to the start of one, from wherever it
/// stood in a tape file; nothing on the tape changes.
pub proof fn law_forward_spacing_moves_by_the_count(s: TapeState, count: nat)
    requires
        count > 0,
    ensures
        s.file + count <= usize::MAX ==> s.after_space_filemarks(count as int).file == s.file
            + count,
        s.file + count > usize::MAX ==> s.after_space_filemarks(count as int).file == usize::MAX,
        s.after_space_filemarks(count as int).byte == 0,
        s.after_space_filemarks(count as int).file_known,
        s.after_space_filemarks(count as int).block_known,
        s.after_space_filemarks(count as int).blank_reads == 0,
        !s.after_space_filemarks(count as int).tail_erased,
        s.after_space_filemarks(count as int).files == s.files,
        s.after_space_filemarks(count as int).write_protected == s.write_protected,
        s.after_space_filemarks(count as int).block_size == s.block_size,
        s.after_space_filemarks(count as int).dirty == s.dirty,
{
}

/// Spacing backward over `count` filemarks moves the head back by `count` tape
/// files, or to the first, to the start of one, from wherever it stood in a
/// tape file. The filemark that closes an open tape file is one more to space
/// over. The drive then knows the tape file, and not the record.
pub proof fn law_backward_spacing_moves_by_the_count(s: TapeState, count: nat)
    requires
        count > 0,
        s.file <= usize::MAX,
    ensures
        ({
            let t = s.after_space_filemarks(-(count as int));
            let from = if s.dirty { s.file + 1 } else { s.file };
            &&& from >= count ==> t.file == from - count
            &&& from < count ==> t.file == 0
            &&& t.byte == 0
            &&& t.file_known
            &&& !t.block_known
            &&& t.blank_reads == 0
            &&& !t.tail_erased
            &&& !t.dirty
            &&& t.write_protected == s.write_protected
            &&& t.block_size == s.block_size
        }),
{
}

/// Spacing backward takes the head from anywhere in a tape file to where it
/// takes it from the start of that tape file.
pub proof fn law_backward_spacing_ignores_the_offset(s: TapeState, byte: nat, count: nat)
    requires
        !s.dirty,
        count > 0,
    ensures
        s.after_space_filemarks(-(count as int)) == (TapeState { byte, ..s }).after_space_filemarks(
            -(count as int),
        ),
{
}

/// Spacing backward by two counts in turn is spacing backward by their sum.
pub proof fn law_backward_spacing_adds_up(s: TapeState, a: nat, b: nat)
    requires
        a > 0,
        b > 0,
        s.file <= usize::MAX,
    ensures
        s.after_space_filemarks(-(a as int)).after_space_filemarks(-(b as int))
            == s.after_space_filemarks(-(a + b)),
{
}

/// Spacing over no filemark does nothing.
pub proof fn law_spacing_by_zero_does_nothing(s: TapeState)
    ensures
        s.after_space_filemarks(0) == s,
{
}

/// Seeking to a block that 32 bits hold moves the head to the start of the tape
/// file of that number, with no number known to the drive and no tape file open;
/// seeking to any other changes nothing.
pub proof fn law_seek_block_goes_to_the_file_of_that_number(s: TapeState, block: nat)
    ensures
        block > 0x7fff_ffff ==> s.after_seek_block(block) == s,
        block <= 0x7fff_ffff ==> {
            let t = s.after_seek_block(block);
            &&& t.file == block
            &&& t.byte == 0
            &&& !t.file_known
            &&& !t.block_known
            &&& t.blank_reads == 0
            &&& !t.tail_erased
            &&& !t.dirty
            &&& t.write_protected == s.write_protected
            &&& t.block_size == s.block_size
        },
{
}

/// A rewind, an ejection, a seek to a block and spacing backward record nothing
/// where no tape file is open; where one is, they record what one filemark
/// would, on a write-protected tape too.
pub proof fn law_motion_records_one_filemark_at_most(s: TapeState, count: nat, block: nat)
    requires
        count > 0,
        block <= 0x7fff_ffff,
    ensures
        ({
            let recorded = if s.dirty {
                (TapeState { write_protected: false, ..s }).after_write_filemarks(1).files
            } else {
                s.files
            };
            &&& s.after_rewind().files == recorded
            &&& s.after_unload().files == recorded
            &&& s.after_seek_block(block).files == recorded
            &&& s.after_space_filemarks(-(count as int)).files == recorded
        }),
{
    let writable = TapeState { write_protected: false, ..s };
    assert(writable.before_head() =~= s.before_head());
    assert(writable.cut() =~= s.cut());
}

/// In fixed block mode, spacing over `count` records moves the head by `count`
/// blocks in its tape file, as far as offsets can be numbered and not before
/// the start of the tape file; the drive then knows the position.
pub proof fn law_record_spacing_moves_by_whole_blocks(s: TapeState, count: int)
    requires
        s.block_size > 0,
    ensures
        ({
            let t = s.after_space_records(count);
            let target = s.byte + s.block_size * count;
            &&& 0 <= target <= usize::MAX ==> t.byte == target
            &&& target < 0 ==> t.byte == 0
            &&& target > usize::MAX ==> t.byte == usize::MAX
            &&& t.file == s.file
            &&& t.files == s.files
            &&& t.file_known
            &&& t.block_known
            &&& t.blank_reads == 0
            &&& t.tail_erased <==> s.tail_erased && t.byte == s.byte
            &&& t.write_protected == s.write_protected
            &&& t.block_size == s.block_size
            &&& t.dirty == s.dirty
        }),
{
    assert(s.block_size * count == count * s.block_size) by (nonlinear_arith);
}

/// In variable-length mode, spacing over records does nothing.
pub proof fn law_record_spacing_needs_fixed_blocks(s: TapeState, count: int)
    requires
        s.block_size == 0,
    ensures
        s.after_space_records(count) == s,
{
}

/// Setting the block size changes the block size and nothing else.
pub proof fn law_set_block_size_sets_the_block_size(s: TapeState, bytes: nat)
    ensures
        s.after_set_block_size(bytes).block_size == bytes,
        s.after_set_block_size(bytes).files == s.files,
        s.after_set_block_size(bytes).file == s.file,
        s.after_set_block_size(bytes).byte == s.byte,
        s.after_set_block_size(bytes).write_protected == s.write_protected,
        s.after_set_block_size(bytes).dirty == s.dirty,
        s.after_set_block_size(bytes).file_known == s.file_known,
        s.after_set_block_size(bytes).block_known == s.block_known,
        s.after_set_block_size(bytes).blank_reads == s.blank_reads,
        s.after_set_block_size(bytes).tail_erased == s.tail_erased,
{
}

// Status

/// The number of the status flags is the sum of those that hold: online always,
/// BOT at the start of the first tape file, EOF at the start of any other, EOD
/// where no tape file is recorded or the tail was erased, and the write
/// protection.
pub proof fn law_status_bits_are_the_sum_of_the_flags(s: TapeState)
    ensures
        s.status().flags.0 == 0x0100_0000 + (if s.file == 0 && s.byte == 0 {
            0x4000_0000int
        } else {
            0
        }) + (if s.file > 0 && s.byte == 0 {
            0x8000_0000int
        } else {
            0
        }) + (if s.file >= s.files.len() || s.tail_erased {
            0x0800_0000int
        } else {
            0
        }) + (if s.write_protected {
            0x0400_0000int
        } else {
            0
        }),
        s.status().drive_type.0 == 0,
{
    let bot: i64 = if s.file == 0 && s.byte == 0 { 0x4000_0000 } else { 0 };
    let eof: i64 = if s.file > 0 && s.byte == 0 { 0x8000_0000 } else { 0 };
    let eod: i64 = if s.file >= s.files.len() || s.tail_erased { 0x0800_0000 } else { 0 };
    let wrp: i64 = if s.write_protected { 0x0400_0000 } else { 0 };
    assert(0x0100_0000i64 | bot | eof | eod | wrp == 0x0100_0000i64 + bot + eof + eod + wrp)
        by (bit_vector)
        requires
            bot == 0 || bot == 0x4000_0000,
            eof == 0 || eof == 0x8000_0000,
            eod == 0 || eod == 0x0800_0000,
            wrp == 0 || wrp == 0x0400_0000,
    ;
}

/// The status reports the tape file and the offset where the drive knows them,
/// in 32 bits, and -1 where it does not, and the block size.
pub proof fn law_status_reports_numbers_in_32_bits(s: TapeState)
    requires
        s.file <= u64::MAX,
        s.byte <= u64::MAX,
        s.block_size <= u32::MAX,
    ensures
        !s.file_known ==> s.status().file_number == -1,
        !s.block_known ==> s.status().block_number == -1,
        s.file_known && s.file <= i32::MAX ==> s.status().file_number == s.file,
        s.block_known && s.byte <= i32::MAX ==> s.status().block_number == s.byte,
        s.file_known ==> (s.file - s.status().file_number) % 0x1_0000_0000 == 0,
        s.block_known ==> (s.byte - s.status().block_number) % 0x1_0000_0000 == 0,
        s.status().block_size == s.block_size,
{
    let file = s.file as u64;
    let byte = s.byte as u64;
    assert((file - (file as i32)) % 0x1_0000_0000 == 0) by (bit_vector);
    assert((byte - (byte as i32)) % 0x1_0000_0000 == 0) by (bit_vector);
}

// Calls

/// Which calls can be carried out: those after which every number of the head
/// still fits a `usize`, and whose count has an opposite where one is needed.
pub proof fn law_calls_are_admitted_where_nothing_overflows(
    s: TapeState,
    count: i32,
    marks: u32,
    block: u64,
    len: usize,
)
    ensures
        s.admits(TapeCall::Rewind) <==> !s.dirty || s.file < usize::MAX,
        s.admits(TapeCall::Unload) <==> !s.dirty || s.file < usize::MAX,
        s.admits(TapeCall::SpaceFilemarks(count)) <==> count >= 0 || (count > i32::MIN && (!s.dirty
            || s.file < usize::MAX)),
        s.admits(TapeCall::SpaceRecords(count)) <==> count > i32::MIN || s.block_size == 0,
        s.admits(TapeCall::WriteFilemarks(marks)) <==> s.write_protected || s.file + marks
            <= usize::MAX,
        s.admits(TapeCall::SeekBlock(block)) <==> block > 0x7fff_ffff || !s.dirty || s.file
            < usize::MAX,
        s.admits(TapeCall::Write(len)) <==> s.write_protected || (s.block_size > 0 && len as nat
            % s.block_size != 0) || (s.file < usize::MAX && s.byte + len <= usize::MAX),
{
}

} // verus!
