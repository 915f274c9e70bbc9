//! Laws of the in-memory tape, over the states that its operations lead to.

use vstd::prelude::*;

use crate::error::IoFault;
use crate::model::{TapeState, TapeStep};
use crate::status::StatusFlags;

verus! {

// Reading back what was written

/// Data that was written and closed with a filemark is what a read delivers
/// from the start of its tape file, together with what the tape file held
/// before the head.
pub proof fn law_read_returns_what_was_written(s: TapeState, data: Seq<u8>, len: nat)
    requires
        s.write_fault(data.len()) is None,
        s.aligned(len),
        s.file < usize::MAX,
    ensures
        ({
            let back = s.after_write(data).after_write_filemarks(1).after_space_filemarks(-1);
            let recorded = s.before_head() + data;
            &&& back.read_fault(len) is None
            &&& back.read_data(len) == if len <= recorded.len() {
                recorded.take(len as int)
            } else {
                recorded
            }
        }),
{
    let written = s.after_write(data);
    let recorded = s.before_head() + data;
    assert(written.before_head() =~= recorded);
    let marked = written.after_write_filemarks(1);
    let back = marked.after_space_filemarks(-1);
    assert(back.file == s.file);
    assert(back.after_head() =~= recorded);
}

/// A tape that is written from BOT holds the data and nothing else, and reads
/// it back after a rewind, whether or not a filemark was written in between.
pub proof fn law_tape_written_from_bot_reads_back(s: TapeState, data: Seq<u8>, len: nat)
    requires
        s.write_fault(data.len()) is None,
        s.aligned(len),
    ensures
        ({
            let written = s.after_rewind().after_write(data);
            let back = written.after_write_filemarks(1).after_rewind();
            &&& back == written.after_rewind()
            &&& back.files == if data.len() > 0 {
                seq![data]
            } else {
                Seq::<Seq<u8>>::empty()
            }
            &&& back.file == 0 && back.byte == 0
            &&& back.read_fault(len) is None
            &&& back.read_data(len) == if len <= data.len() {
                data.take(len as int)
            } else {
                data
            }
        }),
{
    let rewound = s.after_rewind();
    let written = rewound.after_write(data);
    assert(rewound.before_head() =~= Seq::empty());
    assert(written.files[0] =~= data);
    assert(written.before_head() =~= data);
    let back = written.after_write_filemarks(1).after_rewind();
    assert(back.files =~= if data.len() > 0 {
        seq![data]
    } else {
        Seq::<Seq<u8>>::empty()
    });
    assert(back.after_head() =~= data);
}

/// Two writes in a row record the same as one write of both pieces.
pub proof fn law_writes_continue_the_tape_file(s: TapeState, a: Seq<u8>, b: Seq<u8>)
    requires
        s.write_fault(a.len()) is None,
        s.write_fault(b.len()) is None,
    ensures
        s.after_write(a).after_write(b) == s.after_write(a + b),
{
    if s.block_size > 0 {
        vstd::arithmetic::div_mod::lemma_mod_adds(
            a.len() as int,
            b.len() as int,
            s.block_size as int,
        );
        vstd::arithmetic::div_mod::lemma_add_mod_noop(
            a.len() as int,
            b.len() as int,
            s.block_size as int,
        );
    }
    let first = s.after_write(a);
    assert(first.before_head() =~= s.before_head() + a);
    assert(first.before_head() + b =~= s.before_head() + (a + b));
    assert(first.earlier_files() =~= s.earlier_files());
    assert(first.after_write(b).files =~= s.after_write(a + b).files);
}

/// The bytes that reads of `chunk` bytes each deliver until one delivers
/// nothing, and the state after that.
pub open spec fn read_to_filemark(s: TapeState, chunk: nat) -> (Seq<u8>, TapeState)
    decreases s.after_head().len(),
{
    let data = s.read_data(chunk);
    let next = s.after_read(chunk);
    if data.len() == 0 {
        (data, next)
    } else {
        proof {
            assert(next.after_head() =~= s.after_head().skip(data.len() as int));
        }
        let rest = read_to_filemark(next, chunk);
        (data + rest.0, rest.1)
    }
}

/// Reads of any size that the block mode allows reassemble the rest of the
/// current tape file; the read that delivers nothing then leaves the head at
/// the start of the next tape file.
pub proof fn law_reads_reassemble_a_tape_file(s: TapeState, chunk: nat)
    requires
        !s.at_eod(),
        s.aligned(chunk),
        chunk > 0,
    ensures
        read_to_filemark(s, chunk) == (s.after_head(), s.moved_to(s.file + 1)),
    decreases s.after_head().len(),
{
    let data = s.read_data(chunk);
    let next = s.after_read(chunk);
    if s.at_filemark() {
        assert(data =~= s.after_head());
    } else {
        assert(next.after_head() =~= s.after_head().skip(data.len() as int));
        law_reads_reassemble_a_tape_file(next, chunk);
        assert(data + next.after_head() =~= s.after_head());
        assert(next.moved_to(next.file + 1) =~= s.moved_to(s.file + 1));
    }
}

/// What reading `count` tape files in turn delivers, each up to its filemark. A
/// read that fails delivers nothing.
pub open spec fn read_files(s: TapeState, chunk: nat, count: nat) -> Seq<Seq<u8>>
    decreases count,
{
    if count == 0 {
        Seq::empty()
    } else {
        let first = read_to_filemark(s, chunk);
        seq![first.0] + read_files(first.1, chunk, (count - 1) as nat)
    }
}

/// Tape files are read one after the other, with nothing but reads in between.
pub proof fn law_reads_cross_filemarks(s: TapeState, chunk: nat, count: nat)
    requires
        s.at_file_start(),
        s.file + count <= s.files.len(),
        s.aligned(chunk),
        chunk > 0,
    ensures
        read_files(s, chunk, count) == s.files.subrange(s.file as int, s.file as int + count),
    decreases count,
{
    if count == 0 {
        assert(s.files.subrange(s.file as int, s.file as int) =~= Seq::empty());
    } else {
        law_reads_reassemble_a_tape_file(s, chunk);
        assert(s.after_head() =~= s.files[s.file as int]);
        law_reads_cross_filemarks(s.moved_to(s.file + 1), chunk, (count - 1) as nat);
        assert(seq![s.files[s.file as int]] + s.files.subrange(
            s.file as int + 1,
            s.file as int + count,
        )
            =~= s.files.subrange(s.file as int, s.file as int + count));
    }
}

/// The state after tape files with these contents were written in turn, each
/// closed with a filemark.
pub open spec fn after_tape_files(s: TapeState, files: Seq<Seq<u8>>) -> TapeState
    decreases files.len(),
{
    if files.len() == 0 {
        s
    } else {
        after_tape_files(s, files.drop_last()).after_write(files.last()).after_write_filemarks(1)
    }
}

/// Tape files written in turn stand on the tape in the order of writing, after
/// those that the head had passed.
pub proof fn law_tape_files_stand_in_the_order_of_writing(s: TapeState, files: Seq<Seq<u8>>)
    requires
        !s.write_protected,
        s.at_file_start(),
        forall|i: int| 0 <= i < files.len() ==> s.aligned((#[trigger] files[i]).len()),
    ensures
        ({
            let t = after_tape_files(s, files);
            &&& t.earlier_files() == s.earlier_files() + files
            &&& files.len() > 0 && files.last().len() > 0 ==> t.files == s.earlier_files() + files
            &&& t.file == s.file + files.len()
            &&& t.at_file_start()
            &&& t.block_size == s.block_size
            &&& !t.write_protected
            &&& files.len() > 0 ==> !t.dirty
        }),
    decreases files.len(),
{
    if files.len() == 0 {
        assert(s.earlier_files() + files =~= s.earlier_files());
    } else {
        let shorter = files.drop_last();
        assert forall|i: int| 0 <= i < shorter.len() implies s.aligned(
            (#[trigger] shorter[i]).len(),
        ) by {
            assert(shorter[i] == files[i]);
        }
        law_tape_files_stand_in_the_order_of_writing(s, shorter);
        let before = after_tape_files(s, shorter);
        assert(before.aligned(files[files.len() - 1].len()));
        let written = before.after_write(files.last());
        assert(before.before_head() =~= Seq::empty());
        assert(written.before_head() =~= files.last());
        let t = written.after_write_filemarks(1);
        assert(before.earlier_files().push(files.last()) =~= s.earlier_files() + files);
        assert(written.files =~= s.earlier_files() + files);
        if files.last().len() > 0 {
            assert(t.files =~= written.files);
        }
        assert(t.earlier_files() =~= s.earlier_files() + files);
    }
}

/// Reading `count` tape files in turn delivers those that are recorded, and
/// nothing for each one past them.
pub proof fn law_reads_past_the_recorded_files_deliver_nothing(
    s: TapeState,
    chunk: nat,
    count: nat,
)
    requires
        s.at_file_start(),
        s.aligned(chunk),
        chunk > 0,
    ensures
        read_files(s, chunk, count).len() == count,
        forall|i: int|
            0 <= i < count ==> #[trigger] read_files(s, chunk, count)[i] == if s.file + i
                < s.files.len() {
                s.files[s.file + i]
            } else {
                Seq::<u8>::empty()
            },
    decreases count,
{
    if count > 0 {
        let first = read_to_filemark(s, chunk);
        let rest = read_files(first.1, chunk, (count - 1) as nat);
        if s.at_eod() {
            assert(first.0 =~= Seq::empty());
        } else {
            law_reads_reassemble_a_tape_file(s, chunk);
            assert(s.after_head() =~= s.files[s.file as int]);
        }
        law_reads_past_the_recorded_files_deliver_nothing(first.1, chunk, (count - 1) as nat);
        assert forall|i: int| 0 <= i < count implies #[trigger] read_files(s, chunk, count)[i]
            == if s.file + i < s.files.len() {
            s.files[s.file + i]
        } else {
            Seq::<u8>::empty()
        } by {
            if i > 0 {
                assert(read_files(s, chunk, count)[i] == rest[i - 1]);
            }
        }
    }
}

/// Reading as many tape files as were written in turn from BOT delivers them. An
/// empty one at the very end leaves no trace on the tape, and what is read for it
/// is blank tape.
pub proof fn law_reads_deliver_all_tape_files_written_from_bot(
    s: TapeState,
    files: Seq<Seq<u8>>,
    chunk: nat,
)
    requires
        !s.write_protected,
        forall|i: int| 0 <= i < files.len() ==> s.aligned((#[trigger] files[i]).len()),
        s.aligned(chunk),
        chunk > 0,
    ensures
        read_files(after_tape_files(s.after_rewind(), files).after_rewind(), chunk, files.len())
            == files,
{
    let rewound = s.after_rewind();
    let t = after_tape_files(rewound, files);
    law_tape_files_stand_in_the_order_of_writing(rewound, files);
    assert(rewound.earlier_files() + files =~= files);
    law_reads_past_the_recorded_files_deliver_nothing(t.after_rewind(), chunk, files.len());
    let read = read_files(t.after_rewind(), chunk, files.len());
    assert forall|i: int| 0 <= i < files.len() implies read[i] == files[i] by {
        assert(files[i] == t.earlier_files()[i]);
    }
    assert(read =~= files);
}

/// Tape files written in turn from BOT are what the tape holds, and read back
/// in turn after a rewind. The last one holds data: an empty tape file at the
/// end leaves no trace.
pub proof fn law_tape_files_written_from_bot_read_back(
    s: TapeState,
    files: Seq<Seq<u8>>,
    chunk: nat,
)
    requires
        !s.write_protected,
        forall|i: int| 0 <= i < files.len() ==> s.aligned((#[trigger] files[i]).len()),
        files.len() > 0,
        files.last().len() > 0,
        s.aligned(chunk),
        chunk > 0,
    ensures
        ({
            let t = after_tape_files(s.after_rewind(), files);
            &&& t.files == files
            &&& read_files(t.after_rewind(), chunk, files.len()) == files
        }),
{
    let rewound = s.after_rewind();
    let t = after_tape_files(rewound, files);
    law_tape_files_stand_in_the_order_of_writing(rewound, files);
    assert(rewound.earlier_files() + files =~= files);
    law_reads_cross_filemarks(t.after_rewind(), chunk, files.len());
    assert(t.files.subrange(0, files.len() as int) =~= files);
}

// Overwriting

/// A write leaves the tape files before the head as they were, puts the data
/// where the head stands, and removes everything that followed.
pub proof fn law_write_discards_what_follows(s: TapeState, data: Seq<u8>)
    requires
        s.write_fault(data.len()) is None,
    ensures
        ({
            let t = s.after_write(data);
            &&& t.files.len() == s.file + 1
            &&& t.files.last() == s.before_head() + data
            &&& forall|i: int|
                0 <= i < s.file && i < s.files.len() ==> #[trigger] t.files[i] == s.files[i]
            &&& t.after_head() == Seq::<u8>::empty()
        }),
{
    assert(s.after_write(data).after_head() =~= Seq::empty());
}

/// New data appended at the end of recorded data leaves all tape files as they
/// were.
pub proof fn law_append_keeps_all_tape_files(s: TapeState, data: Seq<u8>)
    requires
        s.write_fault(data.len()) is None,
    ensures
        s.after_seek_to_eod().after_write(data).files == s.files.push(data),
{
    let end = s.after_seek_to_eod();
    assert(end.earlier_files() =~= s.files);
    assert(end.before_head() + data =~= data);
}

/// Seeking to the end, spacing back over one filemark and writing a double
/// filemark there removes the last tape file.
pub proof fn law_last_tape_file_can_be_removed(s: TapeState)
    requires
        !s.write_protected,
        !s.dirty,
        0 < s.files.len() <= usize::MAX,
    ensures
        s.after_seek_to_eod().after_space_filemarks(-1).after_write_filemarks(2).files
            == s.files.drop_last(),
{
    let back = s.after_seek_to_eod().after_space_filemarks(-1);
    assert(back.before_head() =~= Seq::empty());
    assert(back.cut() =~= s.files.drop_last());
}

// Filemarks

/// Filemarks written by two calls are the filemarks written by one.
pub proof fn law_filemarks_add_up(s: TapeState, a: nat, b: nat)
    ensures
        s.after_write_filemarks(a).after_write_filemarks(b) == s.after_write_filemarks(a + b),
{
    if a > 0 && b > 0 && !s.write_protected {
        let first = s.marked(a);
        assert(first.cut() =~= first.files);
        assert(first.marked(b) =~= s.marked(a + b));
    }
}

/// Writing no filemark does nothing.
pub proof fn law_no_filemark_is_no_operation(s: TapeState)
    ensures
        s.after_write_filemarks(0) == s,
{
}

/// A tape file that is still open when the tape is rewound, spaced backward
/// over filemarks, positioned at a block or ejected, is closed first, just as
/// one explicit filemark would close it.
pub proof fn law_motion_closes_an_open_tape_file(s: TapeState, count: int, block: nat)
    requires
        s.dirty,
        count < 0,
        block <= i32::MAX,
    ensures
        s.after_rewind() == s.marked(1).after_rewind(),
        s.after_space_filemarks(count) == s.marked(1).after_space_filemarks(count),
        s.after_seek_block(block) == s.marked(1).after_seek_block(block),
        s.after_unload() == s.marked(1).after_unload(),
{
}

/// Ejecting the cartridge leaves the tape at BOT, with all its tape files
/// closed.
pub proof fn law_unload_rewinds(s: TapeState)
    ensures
        s.after_unload().file == 0,
        s.after_unload().byte == 0,
        !s.after_unload().dirty,
        s.after_unload().files == s.settled().files,
{
}

/// After an explicit filemark no second one is written by the next motion.
pub proof fn law_explicit_filemark_leaves_nothing_to_close(s: TapeState, count: nat)
    requires
        count > 0,
        !s.write_protected,
    ensures
        s.after_write_filemarks(count).settled() == s.after_write_filemarks(count),
{
}

/// Spacing forward over filemarks does not close an open tape file and leaves
/// the recorded data alone.
pub proof fn law_forward_spacing_closes_nothing(s: TapeState, count: int)
    requires
        count >= 0,
    ensures
        s.after_space_filemarks(count).files == s.files,
        s.after_space_filemarks(count).dirty == s.dirty,
{
}

// Write protection

/// Every way to write to a write-protected tape is refused and leaves the
/// state as it was.
pub proof fn law_write_protected_tape_refuses_writing(s: TapeState, data: Seq<u8>, count: nat)
    requires
        s.write_protected,
    ensures
        s.write_fault(data.len()) is Some,
        s.aligned(data.len()) ==> s.write_fault(data.len()) == Some(IoFault::WriteProtected),
        s.after_write(data) == s,
        s.after_write_filemarks(count) == s,
        s.after_erase() == s,
{
}

/// No operation changes what is recorded on a write-protected tape with no
/// open tape file.
pub proof fn law_write_protected_tape_is_kept(s: TapeState, step: TapeStep)
    requires
        s.write_protected,
        !s.dirty,
    ensures
        s.after(step).files == s.files,
        s.after(step).write_protected,
        !s.after(step).dirty,
{
}

/// Only writing and erasing change what is recorded on a tape with no open
/// tape file.
pub proof fn law_only_writing_changes_the_tape(s: TapeState, step: TapeStep)
    requires
        !s.dirty,
        !(step is Write),
        !(step is WriteFilemarks),
        !(step is Erase),
    ensures
        s.after(step).files == s.files,
{
}

// Positioning

/// Seeking to the end of recorded data leaves nothing to read.
pub proof fn law_seek_to_eod_leaves_nothing_to_read(s: TapeState, len: nat)
    ensures
        s.after_seek_to_eod().at_eod(),
        s.after_seek_to_eod().read_data(len) == Seq::<u8>::empty(),
        s.aligned(len) ==> s.after_seek_to_eod().read_fault(len) is None,
{
    assert(s.after_seek_to_eod().read_data(len) =~= Seq::empty());
}

/// A position can be returned to by seeking to it: the head then stands at the
/// start of the tape file in which it stood.
pub proof fn law_seek_block_returns_to_a_position(s: TapeState, later: TapeState)
    requires
        s.file <= i32::MAX,
        later.settled().files == s.files,
    ensures
        ({
            let back = later.after_seek_block(s.file);
            &&& back.file == s.file
            &&& back.byte == 0
            &&& back.files == s.files
            &&& back.after_head() == s.moved_to(s.file).after_head()
        }),
{
}

/// Spacing backward undoes spacing forward over the same number of filemarks.
pub proof fn law_backward_spacing_undoes_forward_spacing(s: TapeState, count: nat)
    requires
        !s.dirty,
        s.file + count <= usize::MAX,
    ensures
        ({
            let back = s.after_space_filemarks(count as int).after_space_filemarks(-(count as int));
            &&& back.file == s.file
            &&& count > 0 ==> back.byte == 0
            &&& back.files == s.files
        }),
{
}

/// Spacing over no filemark does nothing.
pub proof fn law_spacing_over_no_filemark_is_no_operation(s: TapeState)
    ensures
        s.after_space_filemarks(0) == s,
{
}

/// Spacing backward stops at BOT.
pub proof fn law_backward_spacing_stops_at_bot(s: TapeState, count: nat)
    requires
        count > 0,
        count >= s.settled().file,
    ensures
        s.after_space_filemarks(-(count as int)).file == 0,
        s.after_space_filemarks(-(count as int)).byte == 0,
{
}

/// In fixed block mode, spacing over records skips whole blocks of the current
/// tape file; in variable-length mode it does nothing.
pub proof fn law_record_spacing_skips_whole_blocks(s: TapeState, count: nat)
    requires
        !s.at_eod(),
        s.byte + count * s.block_size <= usize::MAX,
    ensures
        s.block_size == 0 ==> s.after_space_records(count as int) == s,
        s.after_space_records(count as int).file == s.file,
        s.after_space_records(count as int).byte == s.byte + count * s.block_size,
        s.byte + count * s.block_size <= s.files[s.file as int].len() ==> s.after_space_records(
            count as int,
        ).after_head() == s.files[s.file as int].skip((s.byte + count * s.block_size) as int),
{
    assert(count * s.block_size >= 0) by (nonlinear_arith);
    assert(s.block_size == 0 ==> count * s.block_size == 0) by (nonlinear_arith);
}

/// Spacing backward over records undoes spacing forward over as many.
pub proof fn law_backward_record_spacing_undoes_forward(s: TapeState, count: nat)
    requires
        s.byte + count * s.block_size <= usize::MAX,
    ensures
        s.after_space_records(count as int).after_space_records(-(count as int)).byte == s.byte,
{
    assert(count * s.block_size >= 0) by (nonlinear_arith);
    assert((-(count as int)) * s.block_size == -(count * s.block_size)) by (nonlinear_arith);
}

/// The drive loses the file number only by seeking to a block, and the record
/// number only by that or by spacing backward over filemarks.
pub proof fn law_position_is_forgotten_only_by_seeking_and_backspacing(
    s: TapeState,
    step: TapeStep,
)
    ensures
        s.file_known && !(step is SeekBlock) ==> s.after(step).file_known,
        s.block_known && !(step is SeekBlock) && !(step matches TapeStep::SpaceFilemarks(count)
            && count < 0) ==> s.after(step).block_known,
{
}

/// Rewinding, seeking to the end, spacing forward, writing data or filemarks
/// and reading data all make the whole position known.
pub proof fn law_position_is_known_again(s: TapeState, data: Seq<u8>, count: nat, len: nat)
    ensures
        s.after_rewind().file_known && s.after_rewind().block_known,
        s.after_seek_to_eod().file_known && s.after_seek_to_eod().block_known,
        count > 0 ==> s.after_space_filemarks(count as int).file_known
            && s.after_space_filemarks(count as int).block_known,
        s.write_fault(data.len()) is None ==> s.after_write(data).file_known && s.after_write(
            data,
        ).block_known,
        count > 0 ==> s.marked(count).file_known && s.marked(count).block_known,
        s.read_data(len).len() > 0 ==> s.after_read(len).file_known && s.after_read(
            len,
        ).block_known,
{
}

// End of data

/// In a recorded tape file, at its filemark too, a read into an empty buffer
/// succeeds, delivers nothing and changes nothing. (On blank tape it counts as
/// any other read.)
pub proof fn law_empty_read_is_no_operation(s: TapeState)
    requires
        !s.at_eod(),
    ensures
        s.read_fault(0) is None,
        s.read_data(0) == Seq::<u8>::empty(),
        s.after_read(0) == s,
{
    assert(s.read_data(0) =~= Seq::empty());
}

/// Past the recorded data, two reads deliver nothing, and every read after
/// them fails.
pub proof fn law_end_of_data_is_signalled_twice(s: TapeState, first: nat, second: nat, third: nat)
    requires
        s.at_eod(),
        s.blank_reads == 0,
        s.aligned(first),
        s.aligned(second),
        s.aligned(third),
    ensures
        ({
            let once = s.after_read(first);
            let twice = once.after_read(second);
            let thrice = twice.after_read(third);
            &&& s.read_fault(first) is None && s.read_data(first).len() == 0
            &&& once.read_fault(second) is None && once.read_data(second).len() == 0
            &&& twice.read_fault(third) == Some(IoFault::EndOfData)
            &&& thrice.at_eod() && thrice.blank_reads >= 2
        }),
{
}

/// Once reads past the recorded data fail, they keep failing.
pub proof fn law_end_of_data_lasts(s: TapeState, len: nat, next: nat)
    requires
        s.at_eod(),
        s.blank_reads >= 2,
        s.aligned(next),
    ensures
        s.after_read(len).read_fault(next) == Some(IoFault::EndOfData),
        s.after_read(len).at_eod(),
        s.after_read(len).blank_reads >= 2,
{
}

/// Moving the head, crossing a filemark and reading data all start the count
/// of reads on blank tape anew.
pub proof fn law_motion_restarts_the_blank_tape_count(s: TapeState, step: TapeStep)
    requires
        s.after(step).file != s.file || s.after(step).byte != s.byte,
    ensures
        s.after(step).blank_reads == 0,
{
}

// Erasing

/// An erase keeps everything before the head and removes everything else; a
/// second one changes nothing.
pub proof fn law_erase_removes_what_follows(s: TapeState)
    requires
        !s.write_protected,
    ensures
        ({
            let t = s.after_erase();
            &&& t.before_head() == s.before_head()
            &&& t.after_head() == Seq::<u8>::empty()
            &&& t.files.len() <= s.file + 1 || t.files == s.files
            &&& forall|i: int|
                0 <= i < s.file && i < s.files.len() ==> i < t.files.len() && #[trigger] t.files[i]
                    == s.files[i]
            &&& t.after_erase() == t
        }),
{
    let t = s.after_erase();
    assert(t.before_head() =~= s.before_head());
    assert(t.after_head() =~= Seq::empty());
    assert(t.after_erase().files =~= t.files);
}

/// An erase leaves the head at the end of recorded data, which the status
/// reports, wherever the head stands.
pub proof fn law_erase_leaves_end_of_data(s: TapeState)
    requires
        !s.write_protected,
    ensures
        s.after_erase().reports_eod(),
        s.after_erase().status().flags.has(StatusFlags::EOD),
        s.after_erase().files.len() <= s.file + 1,
        s.after_erase().after_head() == Seq::<u8>::empty(),
{
    law_status_flags_tell_the_position(s.after_erase());
    law_erase_removes_what_follows(s);
}

/// Where the status reports the end of recorded data, nothing follows the head.
pub proof fn law_nothing_follows_where_eod_is_reported(s: TapeState)
    requires
        s.consistent(),
        s.status().flags.has(StatusFlags::EOD),
    ensures
        s.after_head() == Seq::<u8>::empty(),
        s.files.len() <= s.file + 1,
{
    law_status_flags_tell_the_position(s);
    assert(s.after_head() =~= Seq::empty());
}

/// An erase at the start of a tape file leaves the tape files before it.
pub proof fn law_erase_at_file_start_keeps_the_files_before(s: TapeState)
    requires
        !s.write_protected,
        s.at_file_start(),
        !s.at_eod(),
    ensures
        s.after_erase().files == s.files.take(s.file as int),
        s.after_erase().at_eod(),
{
    assert(s.before_head() =~= Seq::empty());
}

/// The end of recorded data that an erase leaves inside a tape file is reported
/// until the head moves or data is written there.
pub proof fn law_erased_tail_lasts_until_motion(s: TapeState, step: TapeStep)
    requires
        s.tail_erased,
        s.after(step).file == s.file,
        s.after(step).byte == s.byte,
        !(step is Write),
        s.byte > 0,
    ensures
        s.after(step).tail_erased,
{
}

/// An erase at the end of recorded data does nothing.
pub proof fn law_erase_at_end_of_data_is_no_operation(s: TapeState)
    requires
        s.at_eod(),
    ensures
        s.after_erase() == s,
{
}

/// Rewinding, spacing over `count` filemarks and erasing leaves the first
/// `count` tape files.
pub proof fn law_erase_from_a_tape_file_on(s: TapeState, count: nat)
    requires
        !s.write_protected,
        count <= s.settled().files.len() <= usize::MAX,
    ensures
        s.after_rewind().after_space_filemarks(count as int).after_erase().files
            == s.settled().files.take(count as int),
{
    let t = s.after_rewind().after_space_filemarks(count as int);
    assert(t.before_head() =~= Seq::empty());
    if t.at_eod() {
        assert(t.files.take(count as int) =~= t.files);
    }
}

// Status

/// The flags of the status tell where the head stands and whether the tape is
/// write-protected; the drive is always online, and BOT excludes EOF.
pub proof fn law_status_flags_tell_the_position(s: TapeState)
    ensures
        s.status().flags.has(StatusFlags::ONLINE),
        s.status().flags.has(StatusFlags::BOT) <==> s.file == 0 && s.byte == 0,
        s.status().flags.has(StatusFlags::EOF) <==> s.file > 0 && s.byte == 0,
        s.status().flags.has(StatusFlags::EOD) <==> s.reports_eod(),
        s.status().flags.has(StatusFlags::WR_PROT) <==> s.write_protected,
        !(s.status().flags.has(StatusFlags::BOT) && s.status().flags.has(StatusFlags::EOF)),
        !s.status().flags.has(StatusFlags::EOT),
        !s.status().flags.has(StatusFlags::SM),
        !s.status().flags.has(StatusFlags::DR_OPEN),
        !s.status().flags.has(StatusFlags::IM_REP_EN),
        !s.status().flags.has(StatusFlags::CLN),
{
    let bot: i64 = if s.file == 0 && s.byte == 0 { 0x4000_0000 } else { 0 };
    let eof: i64 = if s.file > 0 && s.byte == 0 { 0x8000_0000 } else { 0 };
    let eod: i64 = if s.reports_eod() { 0x0800_0000 } else { 0 };
    let wrp: i64 = if s.write_protected { 0x0400_0000 } else { 0 };
    let bits = 0x0100_0000i64 | bot | eof | eod | wrp;
    assert(bits & 0x0100_0000 == 0x0100_0000 && (bits & 0x4000_0000 == 0x4000_0000 <==> bot != 0)
        && (bits & 0x8000_0000 == 0x8000_0000 <==> eof != 0) && (bits & 0x0800_0000 == 0x0800_0000
        <==> eod != 0) && (bits & 0x0400_0000 == 0x0400_0000 <==> wrp != 0) && bits & 0x2000_0000
        != 0x2000_0000 && bits & 0x1000_0000 != 0x1000_0000 && bits & 0x0004_0000 != 0x0004_0000
        && bits & 0x0001_0000 != 0x0001_0000 && bits & 0x0000_8000 != 0x0000_8000) by (bit_vector)
        requires
            bits == 0x0100_0000i64 | bot | eof | eod | wrp,
            bot == 0 || bot == 0x4000_0000,
            eof == 0 || eof == 0x8000_0000,
            eod == 0 || eod == 0x0800_0000,
            wrp == 0 || wrp == 0x0400_0000,
    ;
}

/// The status reports the position where the drive knows it, and -1 where it
/// does not.
pub proof fn law_status_numbers_tell_the_position(s: TapeState)
    requires
        s.file <= i32::MAX,
        s.byte <= i32::MAX,
    ensures
        s.status().file_number == if s.file_known { s.file as int } else { -1 },
        s.status().block_number == if s.block_known { s.byte as int } else { -1 },
{
}

/// The block size that was set is the one that the status reports; zero brings
/// back variable-length mode, in which every length can be transferred.
pub proof fn law_block_size_is_reported(s: TapeState, bytes: u32, len: nat)
    ensures
        s.after_set_block_size(bytes as nat).status().block_size == bytes,
        s.after_set_block_size(0).aligned(len),
{
}

// Every state

/// A new tape is in a consistent state.
pub proof fn law_new_tape_is_consistent()
    ensures
        TapeState::blank().consistent(),
{
}

/// Every operation keeps a consistent state consistent.
pub proof fn law_every_step_keeps_consistency(s: TapeState, step: TapeStep)
    requires
        s.consistent(),
    ensures
        s.after(step).consistent(),
{
}

} // verus!
