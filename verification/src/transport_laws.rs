//! What the transport formats promise: a response that was written by the rules
//! is read back as it was meant, and a response that was cut off is refused.

use vstd::prelude::*;

use crate::lines::{
    join_lines, lemma_join_of_split, lemma_join_push, lemma_read_concat, lemma_split_nonempty,
    lemma_split_of_join, lemma_split_parts_clean, lines_of, read, split_lines, without_return,
    LineMachine,
};
use crate::mason_transport::{
    fenced_files, fenced_start, file_tracker_start, has_patch_header, match_count, occurs_once,
    patch_blocks, patch_header_at, patch_start, patched, plausible_path, summary_and_rationale,
    summary_start, tracker_after, tracker_outside, tracker_start, FencedMachine, FencedState,
    FileModel, OpenFile, PatchMachine, PatchModel, PatchSection, PatchState, SummaryMachine,
    SummaryState, TrackerModel, TransportFault, TransportFaultModel, DIVIDER, END_MARKER,
    FILE_MARKER, PATCH_MARKER, REPLACE_END, SEARCH_START,
};
use crate::search::{occurs, occurs_at};
use crate::text::{is_space, trimmed, trimmed_end, trimmed_start};

verus! {

// ---------------------------------------------------------------------------
// Header lines
// ---------------------------------------------------------------------------

proof fn lemma_trimmed_start_shorter(s: Seq<char>)
    ensures
        trimmed_start(s).len() <= s.len(),
        s.len() > 0 && is_space(s.first()) ==> trimmed_start(s).len() < s.len(),
    decreases s.len(),
{
    if s.len() > 0 && is_space(s.first()) {
        lemma_trimmed_start_shorter(s.drop_first());
    }
}

proof fn lemma_trimmed_end_shorter(s: Seq<char>)
    ensures
        trimmed_end(s).len() <= s.len(),
        s.len() > 0 && is_space(s.last()) ==> trimmed_end(s).len() < s.len(),
    decreases s.len(),
{
    if s.len() > 0 && is_space(s.last()) {
        lemma_trimmed_end_shorter(s.drop_last());
    }
}

/// A text that trimming leaves alone has no white space at either end.
pub proof fn lemma_trimmed_edges(s: Seq<char>)
    requires
        s.len() > 0,
        trimmed(s) == s,
    ensures
        !is_space(s.first()),
        !is_space(s.last()),
{
    lemma_trimmed_start_shorter(s);
    lemma_trimmed_end_shorter(trimmed_start(s));
}

/// The line that opens a block: its marker, a space and the path.
pub open spec fn header(marker: Seq<char>, path: Seq<char>) -> Seq<char> {
    marker + seq![' '] + path
}

/// A header line is read as its marker and its path, which may be empty.
pub proof fn lemma_header(marker: Seq<char>, path: Seq<char>)
    requires
        marker.len() > 0,
        !is_space(marker.first()),
        !is_space(marker.last()),
        trimmed(path) == path,
    ensures
        path.len() > 0 ==> trimmed(header(marker, path)) == header(marker, path),
        marker.is_prefix_of(trimmed(header(marker, path))),
        trimmed(trimmed(header(marker, path)).skip(marker.len() as int)) == path,
{
    let line = header(marker, path);
    assert(line.first() == marker.first());
    if path.len() == 0 {
        assert(line.drop_last() == marker);
        assert(trimmed_start(line) == line);
        assert(trimmed_end(line) == trimmed_end(marker));
        assert(marker.skip(marker.len() as int) == Seq::<char>::empty());
        assert(path == Seq::<char>::empty());
    } else {
        lemma_trimmed_edges(path);
        assert(line.last() == path.last());
        assert(line.skip(marker.len() as int) == seq![' '] + path);
        assert((seq![' '] + path).drop_first() == path);
        assert(trimmed_start(path) == path);
        assert(trimmed_start(seq![' '] + path) == trimmed_start(path));
        assert(marker =~= line.take(marker.len() as int));
    }
}

// ---------------------------------------------------------------------------
// Whole files
// ---------------------------------------------------------------------------

/// Whether a line outside the blocks is neither the start nor the end of a file
/// block.
pub open spec fn plain_line(line: Seq<char>) -> bool {
    &&& !line.contains('\n')
    &&& !FILE_MARKER@.is_prefix_of(trimmed(line))
    &&& trimmed(line) != END_MARKER@
}

/// Whether every line is plain.
pub open spec fn plain_lines(lines: Seq<Seq<char>>) -> bool {
    forall|i: int| 0 <= i < lines.len() ==> plain_line(#[trigger] lines[i])
}

/// Whether a file can be written as a block: its path is a path and its content
/// has no line that starts or ends a block.
pub open spec fn writable(file: FileModel) -> bool {
    &&& file.path.len() > 0
    &&& trimmed(file.path) == file.path
    &&& !file.path.contains('\n')
    &&& plausible_path(file.path)
    &&& plain_lines(split_lines(file.content))
}

/// The lines of a file block.
pub open spec fn file_lines(file: FileModel) -> Seq<Seq<char>> {
    seq![header(FILE_MARKER@, file.path)] + split_lines(file.content) + seq![END_MARKER@]
}

/// The lines of the blocks of some files.
pub open spec fn files_lines(files: Seq<FileModel>) -> Seq<Seq<char>>
    decreases files.len(),
{
    if files.len() == 0 {
        Seq::empty()
    } else {
        files_lines(files.drop_last()) + file_lines(files.last())
    }
}

pub proof fn lemma_file_markers()
    ensures
        FILE_MARKER@.len() == 9,
        FILE_MARKER@.first() == '#',
        FILE_MARKER@.last() == ':',
        END_MARKER@.len() == 12,
        END_MARKER@.first() == '#',
        END_MARKER@.last() == 'E',
        !END_MARKER@.contains('\n'),
        !FILE_MARKER@.contains('\n'),
        trimmed(END_MARKER@) == END_MARKER@,
        !FILE_MARKER@.is_prefix_of(END_MARKER@),
{
    reveal_strlit("### FILE:");
    reveal_strlit("### END FILE");
    assert(FILE_MARKER@[4] == 'F');
    assert(END_MARKER@[4] == 'E');
}

/// One line, read.
pub proof fn lemma_read_one<M: LineMachine>(line: Seq<char>, before: nat, state: M::State)
    ensures
        read::<M>(seq![line], before, state) == M::step(state, line, before + 1),
{
    let lines = seq![line];
    assert(lines.drop_last() == Seq::<Seq<char>>::empty());
    assert(read::<M>(lines.drop_last(), before, state) == Ok::<M::State, M::Fault>(state));
}

proof fn lemma_read_plain(lines: Seq<Seq<char>>, before: nat, state: FencedState)
    requires
        plain_lines(lines),
        state.open is None,
    ensures
        read::<FencedMachine>(lines, before, state) == Ok::<FencedState, TransportFaultModel>(
            state,
        ),
    decreases lines.len(),
{
    if lines.len() > 0 {
        assert forall|i: int| 0 <= i < lines.drop_last().len() implies plain_line(
            #[trigger] lines.drop_last()[i],
        ) by {
            assert(lines.drop_last()[i] == lines[i]);
        }
        lemma_read_plain(lines.drop_last(), before, state);
        assert(plain_line(lines[lines.len() - 1]));
    }
}

proof fn lemma_read_body(
    lines: Seq<Seq<char>>,
    before: nat,
    files: Seq<FileModel>,
    path: Seq<char>,
    body: Seq<Seq<char>>,
)
    requires
        plain_lines(lines),
    ensures
        read::<FencedMachine>(
            lines,
            before,
            FencedState { files, open: Some(OpenFile { path, body }) },
        ) == Ok::<FencedState, TransportFaultModel>(
            FencedState { files, open: Some(OpenFile { path, body: body + lines }) },
        ),
    decreases lines.len(),
{
    if lines.len() == 0 {
        assert(body + lines =~= body);
    } else {
        assert forall|i: int| 0 <= i < lines.drop_last().len() implies plain_line(
            #[trigger] lines.drop_last()[i],
        ) by {
            assert(lines.drop_last()[i] == lines[i]);
        }
        lemma_read_body(lines.drop_last(), before, files, path, body);
        assert(plain_line(lines[lines.len() - 1]));
        assert((body + lines.drop_last()).push(lines.last()) =~= body + lines);
    }
}

proof fn lemma_read_opened(file: FileModel, before: nat, files: Seq<FileModel>)
    requires
        writable(file),
    ensures
        read::<FencedMachine>(
            seq![header(FILE_MARKER@, file.path)] + split_lines(file.content),
            before,
            FencedState { files, open: None },
        ) == Ok::<FencedState, TransportFaultModel>(
            FencedState {
                files,
                open: Some(OpenFile { path: file.path, body: split_lines(file.content) }),
            },
        ),
{
    let state = FencedState { files, open: None };
    let head = header(FILE_MARKER@, file.path);
    let body = split_lines(file.content);
    lemma_file_markers();
    lemma_header(FILE_MARKER@, file.path);
    lemma_read_concat::<FencedMachine>(seq![head], body, before, state);
    lemma_read_one::<FencedMachine>(head, before, state);
    lemma_read_body(body, before + 1, files, file.path, Seq::empty());
    assert(Seq::<Seq<char>>::empty() + body =~= body);
}

proof fn lemma_read_file(file: FileModel, before: nat, files: Seq<FileModel>)
    requires
        writable(file),
    ensures
        read::<FencedMachine>(
            file_lines(file),
            before,
            FencedState { files, open: None },
        ) == Ok::<FencedState, TransportFaultModel>(
            FencedState { files: files.push(file), open: None },
        ),
{
    let state = FencedState { files, open: None };
    let body = split_lines(file.content);
    let first = seq![header(FILE_MARKER@, file.path)] + body;
    lemma_file_markers();
    lemma_read_opened(file, before, files);
    lemma_read_concat::<FencedMachine>(first, seq![END_MARKER@], before, state);
    let known = FencedState { files, open: Some(OpenFile { path: file.path, body }) };
    lemma_read_one::<FencedMachine>(END_MARKER@, before + first.len(), known);
    lemma_join_of_split(file.content, '\n');
}

proof fn lemma_read_files(files: Seq<FileModel>, before: nat)
    requires
        forall|i: int| 0 <= i < files.len() ==> writable(#[trigger] files[i]),
    ensures
        read::<FencedMachine>(files_lines(files), before, fenced_start()) == Ok::<
            FencedState,
            TransportFaultModel,
        >(FencedState { files, open: None }),
    decreases files.len(),
{
    if files.len() == 0 {
        assert(files =~= Seq::empty());
    } else {
        let fewer = files.drop_last();
        assert forall|i: int| 0 <= i < fewer.len() implies writable(#[trigger] fewer[i]) by {
            assert(fewer[i] == files[i]);
        }
        lemma_read_files(fewer, before);
        lemma_read_concat::<FencedMachine>(
            files_lines(fewer),
            file_lines(files.last()),
            before,
            fenced_start(),
        );
        assert(writable(files[files.len() - 1]));
        lemma_read_file(files.last(), before + files_lines(fewer).len(), fewer);
        assert(fewer.push(files.last()) =~= files);
    }
}

pub proof fn lemma_file_lines_clean(files: Seq<FileModel>)
    requires
        forall|i: int| 0 <= i < files.len() ==> writable(#[trigger] files[i]),
    ensures
        forall|i: int|
            0 <= i < files_lines(files).len() ==> !(#[trigger] files_lines(files)[i]).contains(
                '\n',
            ),
    decreases files.len(),
{
    if files.len() > 0 {
        let fewer = files.drop_last();
        let file = files.last();
        assert forall|i: int| 0 <= i < fewer.len() implies writable(#[trigger] fewer[i]) by {
            assert(fewer[i] == files[i]);
        }
        lemma_file_lines_clean(fewer);
        assert(writable(files[files.len() - 1]));
        lemma_block_clean(file);
        let all = files_lines(files);
        assert forall|i: int| 0 <= i < all.len() implies !(#[trigger] all[i]).contains('\n') by {
            if i < files_lines(fewer).len() {
                assert(all[i] == files_lines(fewer)[i]);
            } else {
                assert(all[i] == file_lines(file)[i - files_lines(fewer).len()]);
            }
        }
    }
}

proof fn lemma_block_clean(file: FileModel)
    requires
        writable(file),
    ensures
        forall|i: int|
            0 <= i < file_lines(file).len() ==> !(#[trigger] file_lines(file)[i]).contains('\n'),
{
    let head = header(FILE_MARKER@, file.path);
    let body = split_lines(file.content);
    lemma_file_markers();
    lemma_split_parts_clean(file.content, '\n');
    assert(!head.contains('\n')) by {
        if head.contains('\n') {
            let k = choose|k: int| 0 <= k < head.len() && head[k] == '\n';
            if k < FILE_MARKER@.len() {
                assert(FILE_MARKER@[k] == '\n');
            } else if k > FILE_MARKER@.len() {
                assert(file.path[k - FILE_MARKER@.len() - 1] == '\n');
            }
        }
    }
    let all = file_lines(file);
    assert forall|i: int| 0 <= i < all.len() implies !(#[trigger] all[i]).contains('\n') by {
        if i == 0 {
            assert(all[i] == head);
        } else if i < 1 + body.len() {
            assert(all[i] == body[i - 1]);
        } else {
            assert(all[i] == END_MARKER@);
        }
    }
}

pub proof fn lemma_split_of_lines(lines: Seq<Seq<char>>)
    requires
        lines.len() >= 1,
        forall|i: int| 0 <= i < lines.len() ==> !(#[trigger] lines[i]).contains('\n'),
    ensures
        split_lines(join_lines(lines)) == lines,
{
    lemma_split_of_join(lines, '\n');
}

/// Whole files come back as they were written, character for character, whatever
/// quotes, backslashes or blank lines they hold and whatever plain text stands
/// before and after them.
pub proof fn law_files_round_trip(
    before: Seq<Seq<char>>,
    files: Seq<FileModel>,
    after: Seq<Seq<char>>,
)
    requires
        plain_lines(before),
        plain_lines(after),
        files.len() > 0,
        forall|i: int| 0 <= i < files.len() ==> writable(#[trigger] files[i]),
    ensures
        fenced_files(join_lines(before + files_lines(files) + after)) == Ok::<
            Seq<FileModel>,
            TransportFaultModel,
        >(files),
{
    let middle = files_lines(files);
    lemma_response_clean(before, files, after);
    lemma_read_plain(before, 0, fenced_start());
    lemma_read_files(files, before.len());
    lemma_read_concat::<FencedMachine>(before, middle, 0, fenced_start());
    lemma_read_concat::<FencedMachine>(before + middle, after, 0, fenced_start());
    lemma_read_plain(
        after,
        (before + middle).len(),
        FencedState { files, open: None },
    );
}

/// A response that was cut off inside a file is refused and names the file, even
/// where the files before it are complete.
pub proof fn law_truncated_file_is_refused(
    before: Seq<Seq<char>>,
    files: Seq<FileModel>,
    file: FileModel,
)
    requires
        plain_lines(before),
        forall|i: int| 0 <= i < files.len() ==> writable(#[trigger] files[i]),
        writable(file),
    ensures
        fenced_files(
            join_lines(
                before + files_lines(files) + (seq![header(FILE_MARKER@, file.path)] + split_lines(
                    file.content,
                )),
            ),
        ) == Err::<Seq<FileModel>, TransportFaultModel>(
            TransportFault::UnclosedFile { path: file.path },
        ),
{
    let middle = files_lines(files);
    let body = split_lines(file.content);
    let cut = seq![header(FILE_MARKER@, file.path)] + body;
    let all = before + middle + cut;
    lemma_file_lines_clean(files);
    lemma_block_clean(file);
    assert forall|i: int| 0 <= i < all.len() implies !(#[trigger] all[i]).contains('\n') by {
        if i < before.len() {
            assert(all[i] == before[i]);
        } else if i < before.len() + middle.len() {
            assert(all[i] == middle[i - before.len()]);
        } else {
            assert(all[i] == file_lines(file)[i - before.len() - middle.len()]);
        }
    }
    lemma_split_of_lines(all);
    lemma_read_plain(before, 0, fenced_start());
    lemma_read_files(files, before.len());
    lemma_read_concat::<FencedMachine>(before, middle, 0, fenced_start());
    lemma_read_concat::<FencedMachine>(before + middle, cut, 0, fenced_start());
    lemma_read_opened(file, (before + middle).len(), files);
}

// ---------------------------------------------------------------------------
// Text quoted inside a file
// ---------------------------------------------------------------------------

/// Whether a line outside the blocks opens no block at all.
pub open spec fn quiet_line(line: Seq<char>) -> bool {
    plain_line(line) && !PATCH_MARKER@.is_prefix_of(trimmed(line))
}

/// Whether every line is quiet.
pub open spec fn quiet_lines(lines: Seq<Seq<char>>) -> bool {
    forall|i: int| 0 <= i < lines.len() ==> quiet_line(#[trigger] lines[i])
}

proof fn lemma_tracker_concat(tracker: TrackerModel, a: Seq<Seq<char>>, b: Seq<Seq<char>>)
    ensures
        tracker_after(tracker, a + b) == tracker_after(tracker_after(tracker, a), b),
    decreases b.len(),
{
    if b.len() == 0 {
        assert(a + b =~= a);
    } else {
        lemma_tracker_concat(tracker, a, b.drop_last());
        assert((a + b).drop_last() =~= a + b.drop_last());
    }
}

proof fn lemma_tracker_quiet(tracker: TrackerModel, lines: Seq<Seq<char>>)
    requires
        tracker.closing is None,
        quiet_lines(lines),
    ensures
        tracker_after(tracker, lines) == tracker,
    decreases lines.len(),
{
    if lines.len() > 0 {
        assert forall|i: int| 0 <= i < lines.drop_last().len() implies quiet_line(
            #[trigger] lines.drop_last()[i],
        ) by {
            assert(lines.drop_last()[i] == lines[i]);
        }
        lemma_tracker_quiet(tracker, lines.drop_last());
        assert(quiet_line(lines[lines.len() - 1]));
    }
}

proof fn lemma_tracker_in_file(file: FileModel, tracker: TrackerModel, count: int)
    requires
        writable(file),
        tracker.closing is None,
        1 <= count < file_lines(file).len(),
    ensures
        tracker_after(tracker, file_lines(file).take(count)).closing == Some(END_MARKER@),
        tracker_after(tracker, file_lines(file).take(count)).patches == tracker.patches,
    decreases count,
{
    let all = file_lines(file);
    let head = header(FILE_MARKER@, file.path);
    lemma_file_markers();
    lemma_header(FILE_MARKER@, file.path);
    assert(all.take(count).drop_last() =~= all.take(count - 1));
    if count == 1 {
        assert(all.take(1).last() == head);
        assert(all.take(0) =~= Seq::empty());
        assert(tracker_after(tracker, all.take(0)) == tracker);
    } else {
        lemma_tracker_in_file(file, tracker, count - 1);
        assert(all.take(count).last() == split_lines(file.content)[count - 2]);
        assert(plain_line(split_lines(file.content)[count - 2]));
    }
}

proof fn lemma_tracker_file(file: FileModel, tracker: TrackerModel)
    requires
        writable(file),
        tracker.closing is None,
    ensures
        tracker_after(tracker, file_lines(file)) == tracker,
{
    let all = file_lines(file);
    lemma_file_markers();
    lemma_split_nonempty(file.content, '\n');
    lemma_tracker_in_file(file, tracker, all.len() - 1);
    assert(all.drop_last() =~= all.take(all.len() - 1));
    assert(all.last() == END_MARKER@);
}

/// Whether some line of `lines`, read after `tracker`, is a patch header outside
/// any block.
spec fn patch_header_after(tracker: TrackerModel, lines: Seq<Seq<char>>, i: int) -> bool {
    &&& 0 <= i < lines.len()
    &&& tracker_outside(tracker_after(tracker, lines.take(i)), trimmed(lines[i]))
    &&& PATCH_MARKER@.is_prefix_of(trimmed(lines[i]))
}

pub proof fn lemma_patch_marker()
    ensures
        PATCH_MARKER@.len() == 10,
        PATCH_MARKER@.first() == '#',
        PATCH_MARKER@.last() == ':',
        PATCH_MARKER@[4] == 'P',
        FILE_MARKER@[4] == 'F',
        END_MARKER@[4] == 'E',
        !PATCH_MARKER@.contains('\n'),
{
    reveal_strlit("### PATCH:");
    reveal_strlit("### FILE:");
    reveal_strlit("### END FILE");
}

proof fn lemma_no_patch_in_file(file: FileModel, tracker: TrackerModel)
    requires
        writable(file),
        tracker.closing is None,
    ensures
        forall|i: int| !patch_header_after(tracker, file_lines(file), i),
{
    let all = file_lines(file);
    lemma_file_markers();
    lemma_patch_marker();
    lemma_header(FILE_MARKER@, file.path);
    assert forall|i: int| !patch_header_after(tracker, all, i) by {
        if patch_header_after(tracker, all, i) {
            if i == 0 {
                assert(all[0] == header(FILE_MARKER@, file.path));
                assert(trimmed(all[0])[4] == PATCH_MARKER@[4]);
                assert(all[0][4] == FILE_MARKER@[4]);
            } else if i < all.len() - 1 {
                lemma_tracker_in_file(file, tracker, i);
                assert(all[i] == split_lines(file.content)[i - 1]);
                assert(plain_line(split_lines(file.content)[i - 1]));
            } else {
                assert(all[i] == END_MARKER@);
                assert(trimmed(all[i])[4] == PATCH_MARKER@[4]);
            }
        }
    }
}

proof fn lemma_no_patch_concat(tracker: TrackerModel, a: Seq<Seq<char>>, b: Seq<Seq<char>>)
    requires
        forall|i: int| !patch_header_after(tracker, a, i),
        forall|i: int| !patch_header_after(tracker_after(tracker, a), b, i),
    ensures
        forall|i: int| !patch_header_after(tracker, a + b, i),
{
    let all = a + b;
    assert forall|i: int| !patch_header_after(tracker, all, i) by {
        if patch_header_after(tracker, all, i) {
            if i < a.len() {
                assert(all.take(i) =~= a.take(i));
                assert(all[i] == a[i]);
                assert(patch_header_after(tracker, a, i));
            } else {
                let j = i - a.len();
                assert(all.take(i) =~= a + b.take(j));
                lemma_tracker_concat(tracker, a, b.take(j));
                assert(all[i] == b[j]);
                assert(patch_header_after(tracker_after(tracker, a), b, j));
            }
        }
    }
}

proof fn lemma_no_patch_in_files(files: Seq<FileModel>, tracker: TrackerModel)
    requires
        forall|i: int| 0 <= i < files.len() ==> writable(#[trigger] files[i]),
        tracker.closing is None,
    ensures
        forall|i: int| !patch_header_after(tracker, files_lines(files), i),
        tracker_after(tracker, files_lines(files)) == tracker,
    decreases files.len(),
{
    if files.len() > 0 {
        let fewer = files.drop_last();
        assert forall|i: int| 0 <= i < fewer.len() implies writable(#[trigger] fewer[i]) by {
            assert(fewer[i] == files[i]);
        }
        assert(writable(files[files.len() - 1]));
        lemma_no_patch_in_files(fewer, tracker);
        lemma_no_patch_in_file(files.last(), tracker);
        lemma_no_patch_concat(tracker, files_lines(fewer), file_lines(files.last()));
        lemma_tracker_concat(tracker, files_lines(fewer), file_lines(files.last()));
        lemma_tracker_file(files.last(), tracker);
    }
}

proof fn lemma_no_patch_in_quiet(tracker: TrackerModel, lines: Seq<Seq<char>>)
    requires
        quiet_lines(lines),
    ensures
        forall|i: int| !patch_header_after(tracker, lines, i),
{
    assert forall|i: int| !patch_header_after(tracker, lines, i) by {
        if patch_header_after(tracker, lines, i) {
            assert(quiet_line(lines[i]));
        }
    }
}

proof fn lemma_response_clean(
    before: Seq<Seq<char>>,
    files: Seq<FileModel>,
    after: Seq<Seq<char>>,
)
    requires
        plain_lines(before),
        plain_lines(after),
        before.len() + files.len() + after.len() > 0,
        forall|i: int| 0 <= i < files.len() ==> writable(#[trigger] files[i]),
    ensures
        split_lines(join_lines(before + files_lines(files) + after)) == before + files_lines(files)
            + after,
{
    let middle = files_lines(files);
    let all = before + middle + after;
    if files.len() > 0 {
        assert(file_lines(files.last()).len() > 0);
    }
    lemma_file_lines_clean(files);
    assert forall|i: int| 0 <= i < all.len() implies !(#[trigger] all[i]).contains('\n') by {
        if i < before.len() {
            assert(all[i] == before[i]);
        } else if i < before.len() + middle.len() {
            assert(all[i] == middle[i - before.len()]);
        } else {
            assert(all[i] == after[i - before.len() - middle.len()]);
        }
    }
    lemma_split_of_lines(all);
}

/// A patch that is only quoted inside a whole file is that file's text: the
/// response is not taken for a patch.
pub proof fn law_quoted_patch_is_content(
    before: Seq<Seq<char>>,
    files: Seq<FileModel>,
    after: Seq<Seq<char>>,
)
    requires
        quiet_lines(before),
        quiet_lines(after),
        files.len() > 0,
        forall|i: int| 0 <= i < files.len() ==> writable(#[trigger] files[i]),
    ensures
        !has_patch_header(split_lines(join_lines(before + files_lines(files) + after))),
{
    let start = tracker_start();
    let middle = files_lines(files);
    assert forall|i: int| 0 <= i < before.len() implies plain_line(#[trigger] before[i]) by {
        assert(quiet_line(before[i]));
    }
    assert forall|i: int| 0 <= i < after.len() implies plain_line(#[trigger] after[i]) by {
        assert(quiet_line(after[i]));
    }
    lemma_response_clean(before, files, after);
    lemma_no_patch_in_quiet(start, before);
    lemma_tracker_quiet(start, before);
    lemma_no_patch_in_files(files, start);
    lemma_no_patch_concat(start, before, middle);
    lemma_tracker_concat(start, before, middle);
    lemma_no_patch_in_quiet(start, after);
    lemma_no_patch_concat(start, before + middle, after);
    let all = before + middle + after;
    assert forall|i: int| !patch_header_at(all, i) by {
        assert(patch_header_after(start, all, i) == patch_header_at(all, i));
    }
}

// ---------------------------------------------------------------------------
// Summaries
// ---------------------------------------------------------------------------

pub proof fn lemma_summary_tracks(lines: Seq<Seq<char>>, before: nat, state: SummaryState)
    ensures
        read::<SummaryMachine>(lines, before, state) is Ok,
        read::<SummaryMachine>(lines, before, state)->Ok_0.tracker == tracker_after(
            state.tracker,
            lines,
        ),
    decreases lines.len(),
{
    if lines.len() > 0 {
        lemma_summary_tracks(lines.drop_last(), before, state);
    }
}

pub proof fn lemma_summary_words()
    ensures
        "SUMMARY:"@.first() == 'S',
        "SUMMARY:"@.len() == 8,
        "RATIONALE:"@.first() == 'R',
        "RATIONALE:"@.len() == 10,
        "- "@.first() == '-',
        "- "@.len() == 2,
{
    reveal_strlit("SUMMARY:");
    reveal_strlit("RATIONALE:");
    reveal_strlit("- ");
}

proof fn lemma_summary_in_file(file: FileModel, before: nat, state: SummaryState, count: int)
    requires
        writable(file),
        state.tracker.closing is None,
        0 <= count <= file_lines(file).len(),
    ensures
        ({
            let end = read::<SummaryMachine>(file_lines(file).take(count), before, state);
            &&& end is Ok
            &&& end->Ok_0.summary == state.summary
            &&& end->Ok_0.rationale == state.rationale
            &&& end->Ok_0.tracker == tracker_after(state.tracker, file_lines(file).take(count))
        }),
    decreases count,
{
    let all = file_lines(file);
    lemma_summary_tracks(all.take(count), before, state);
    if count > 0 {
        lemma_summary_in_file(file, before, state, count - 1);
        lemma_file_markers();
        lemma_summary_words();
        lemma_header(FILE_MARKER@, file.path);
        assert(all.take(count).drop_last() =~= all.take(count - 1));
        let line = all[count - 1];
        assert(all.take(count).last() == line);
        if count == 1 {
            assert(line == header(FILE_MARKER@, file.path));
        } else if count < all.len() {
            lemma_tracker_in_file(file, state.tracker, count - 1);
            assert(line == split_lines(file.content)[count - 2]);
            assert(plain_line(split_lines(file.content)[count - 2]));
        } else {
            assert(line == END_MARKER@);
        }
    }
}

pub proof fn lemma_summary_in_files(files: Seq<FileModel>, before: nat, state: SummaryState)
    requires
        forall|i: int| 0 <= i < files.len() ==> writable(#[trigger] files[i]),
        state.tracker.closing is None,
    ensures
        ({
            let end = read::<SummaryMachine>(files_lines(files), before, state);
            &&& end is Ok
            &&& end->Ok_0.summary == state.summary
            &&& end->Ok_0.rationale == state.rationale
            &&& end->Ok_0.tracker == state.tracker
        }),
    decreases files.len(),
{
    if files.len() > 0 {
        let fewer = files.drop_last();
        assert forall|i: int| 0 <= i < fewer.len() implies writable(#[trigger] fewer[i]) by {
            assert(fewer[i] == files[i]);
        }
        assert(writable(files[files.len() - 1]));
        lemma_summary_in_files(fewer, before, state);
        let first = files_lines(fewer);
        let block = file_lines(files.last());
        lemma_read_concat::<SummaryMachine>(first, block, before, state);
        let known = read::<SummaryMachine>(first, before, state)->Ok_0;
        lemma_summary_in_file(files.last(), before + first.len(), known, block.len() as int);
        assert(block.take(block.len() as int) =~= block);
        lemma_tracker_file(files.last(), state.tracker);
    }
}

/// The summary and the reasons are those at the top level: nothing that stands
/// inside a whole file adds to them.
pub proof fn law_summary_ignores_files(before: Seq<Seq<char>>, files: Seq<FileModel>)
    requires
        before.len() > 0,
        quiet_lines(before),
        forall|i: int| 0 <= i < files.len() ==> writable(#[trigger] files[i]),
    ensures
        summary_and_rationale(join_lines(before + files_lines(files))) == summary_and_rationale(
            join_lines(before),
        ),
{
    let none = Seq::<Seq<char>>::empty();
    assert forall|i: int| 0 <= i < before.len() implies plain_line(#[trigger] before[i]) by {
        assert(quiet_line(before[i]));
    }
    lemma_response_clean(before, files, none);
    assert(before + files_lines(files) + none =~= before + files_lines(files));
    lemma_response_clean(before, Seq::empty(), none);
    assert(before + files_lines(Seq::empty()) + none =~= before);
    lemma_summary_tracks(before, 0, summary_start());
    lemma_tracker_quiet(tracker_start(), before);
    lemma_read_concat::<SummaryMachine>(before, files_lines(files), 0, summary_start());
    let known = read::<SummaryMachine>(before, 0, summary_start())->Ok_0;
    lemma_summary_in_files(files, before.len(), known);
}

// ---------------------------------------------------------------------------
// Applying patches
// ---------------------------------------------------------------------------

/// A patch that is applied replaces one region and nothing else: the text before
/// and after it stays as it was, and the text searched for stood nowhere else.
pub proof fn law_patch_changes_one_region(original: Seq<char>, block: PatchModel) -> (region: (
    Seq<char>,
    Seq<char>,
))
    requires
        patched(original, block) is Ok,
    ensures
        original == region.0 + block.search + region.1,
        patched(original, block) == Ok::<Seq<char>, TransportFaultModel>(
            region.0 + block.replace + region.1,
        ),
        forall|i: int| occurs_at(original, block.search, i) ==> i == region.0.len(),
{
    let i = choose|i: int| occurs_at(original, block.search, i);
    assert(occurs_at(original, block.search, i));
    let before = original.take(i);
    let after = original.skip(i + block.search.len());
    assert(original =~= before + block.search + after) by {
        assert(original.subrange(i, i + block.search.len()) =~= block.search);
    }
    (before, after)
}

/// A patch is applied exactly where the text to search for is not empty and
/// stands in the file at exactly one position.
pub proof fn law_patch_needs_one_match(original: Seq<char>, block: PatchModel)
    ensures
        patched(original, block) is Ok <==> block.search.len() > 0 && occurs_once(
            original,
            block.search,
        ),
{
    if occurs_once(original, block.search) {
        let i = choose|i: int|
            #[trigger] occurs_at(original, block.search, i) && forall|j: int|
                occurs_at(original, block.search, j) ==> j == i;
        assert(occurs_at(original, block.search, i));
        assert(occurs(original, block.search));
    }
}

/// A patch can be taken back: where the replacement stands in the result at
/// exactly one position, the patch the other way round restores the file.
pub proof fn law_patch_can_be_taken_back(original: Seq<char>, block: PatchModel)
    requires
        patched(original, block) is Ok,
        block.replace.len() > 0,
        occurs_once(patched(original, block)->Ok_0, block.replace),
    ensures
        patched(
            patched(original, block)->Ok_0,
            PatchModel { path: block.path, search: block.replace, replace: block.search },
        ) == Ok::<Seq<char>, TransportFaultModel>(original),
{
    let (before, after) = law_patch_changes_one_region(original, block);
    let result = before + block.replace + after;
    let back = PatchModel { path: block.path, search: block.replace, replace: block.search };
    law_patch_needs_one_match(result, back);
    assert(result.subrange(before.len() as int, (before.len() + block.replace.len()) as int)
        =~= block.replace);
    assert(occurs_at(result, block.replace, before.len() as int));
    let i = choose|i: int| occurs_at(result, block.replace, i);
    assert(occurs_at(result, block.replace, i));
    assert(i == before.len());
    assert(result.take(i) =~= before);
    assert(result.skip(i + block.replace.len()) =~= after);
}

/// A text that stands at one place only is replaced there, and the text before
/// and behind it stays.
pub proof fn law_unique_text_is_replaced(
    before: Seq<char>,
    block: PatchModel,
    after: Seq<char>,
)
    requires
        block.search.len() > 0,
        forall|i: int|
            #[trigger] occurs_at(before + block.search + after, block.search, i) ==> i
                == before.len(),
    ensures
        patched(before + block.search + after, block) == Ok::<Seq<char>, TransportFaultModel>(
            before + block.replace + after,
        ),
{
    let original = before + block.search + after;
    let at = before.len() as int;
    assert(original.subrange(at, at + block.search.len()) =~= block.search);
    assert(occurs_at(original, block.search, at));
    assert(occurs_once(original, block.search));
    law_patch_needs_one_match(original, block);
    let region = law_patch_changes_one_region(original, block);
    assert(region.0.len() == before.len());
    assert(region.0 =~= original.take(at));
    assert(before =~= original.take(at));
    assert(region.1 =~= original.skip(at + block.search.len()));
    assert(after =~= original.skip(at + block.search.len()));
}

/// A patch that searches for nothing, for a text that is not there, or for one
/// that stands at two places is refused, the last with how often it was met, or
/// as overlapping where it was met only once.
pub proof fn law_patch_refusals(original: Seq<char>, block: PatchModel)
    ensures
        block.search.len() == 0 ==> patched(original, block) == Err::<
            Seq<char>,
            TransportFaultModel,
        >(TransportFault::EmptySearch { path: block.path }),
        block.search.len() > 0 && (forall|i: int| !#[trigger] occurs_at(original, block.search, i))
            ==> patched(original, block) == Err::<Seq<char>, TransportFaultModel>(
            TransportFault::SearchNotFound { path: block.path },
        ),
        block.search.len() > 0 && (exists|i: int, j: int|
            i != j && #[trigger] occurs_at(original, block.search, i) && #[trigger] occurs_at(
                original,
                block.search,
                j,
            )) ==> patched(original, block) == if match_count(original, block.search, 0) >= 2 {
            Err::<Seq<char>, TransportFaultModel>(
                TransportFault::AmbiguousSearch {
                    path: block.path,
                    matches: match_count(original, block.search, 0),
                },
            )
        } else {
            Err(TransportFault::OverlappingSearch { path: block.path })
        },
{
}

/// Meeting a text goes on behind each match: where it stands nowhere further on
/// it is not met, and where it stands first at `i` it is met there and then as
/// often as behind that.
pub proof fn law_matches_are_counted(text: Seq<char>, pat: Seq<char>, from: int, i: int)
    requires
        pat.len() > 0,
        0 <= from <= i,
        forall|k: int| from <= k < i ==> !#[trigger] occurs_at(text, pat, k),
    ensures
        occurs_at(text, pat, i) ==> match_count(text, pat, from) == 1 + match_count(
            text,
            pat,
            i + pat.len(),
        ),
        i + pat.len() > text.len() ==> match_count(text, pat, from) == 0,
    decreases i - from,
{
    if from < i {
        assert(!occurs_at(text, pat, from));
        if from + pat.len() <= text.len() {
            law_matches_are_counted(text, pat, from + 1, i);
        }
    }
}

// ---------------------------------------------------------------------------
// Patches
// ---------------------------------------------------------------------------

/// Whether a line can stand in a section of a patch: it is neither a patch header
/// nor a delimiter.
pub open spec fn patch_text_line(line: Seq<char>) -> bool {
    let mark = trimmed(line);
    &&& !PATCH_MARKER@.is_prefix_of(mark)
    &&& mark != SEARCH_START@
    &&& mark != DIVIDER@
    &&& mark != REPLACE_END@
}

/// Whether every line can stand in a section of a patch.
pub open spec fn patch_text(lines: Seq<Seq<char>>) -> bool {
    forall|i: int| 0 <= i < lines.len() ==> patch_text_line(#[trigger] lines[i])
}

/// Whether no line opens a file block or has a meaning in the patch format.
pub open spec fn loose_text(lines: Seq<Seq<char>>) -> bool {
    &&& patch_text(lines)
    &&& forall|i: int|
        0 <= i < lines.len() ==> !FILE_MARKER@.is_prefix_of(trimmed(#[trigger] lines[i]))
}

/// Whether a patch can be written as a block.
pub open spec fn patchable(block: PatchModel) -> bool {
    &&& trimmed(block.path) == block.path
    &&& patch_text(split_lines(block.search))
    &&& patch_text(split_lines(block.replace))
}

/// The lines of a patch.
pub open spec fn patch_lines(block: PatchModel) -> Seq<Seq<char>> {
    seq![header(PATCH_MARKER@, block.path), SEARCH_START@] + split_lines(block.search)
        + seq![DIVIDER@] + split_lines(block.replace) + seq![REPLACE_END@]
}

/// The lines of some patches.
pub open spec fn patches_lines(blocks: Seq<PatchModel>) -> Seq<Seq<char>>
    decreases blocks.len(),
{
    if blocks.len() == 0 {
        Seq::empty()
    } else {
        patches_lines(blocks.drop_last()) + patch_lines(blocks.last())
    }
}

proof fn lemma_patch_delimiters()
    ensures
        SEARCH_START@.len() == 14,
        SEARCH_START@.first() == '<',
        trimmed(SEARCH_START@) == SEARCH_START@,
        DIVIDER@.len() == 7,
        DIVIDER@.first() == '=',
        trimmed(DIVIDER@) == DIVIDER@,
        REPLACE_END@.len() == 15,
        REPLACE_END@.first() == '>',
        trimmed(REPLACE_END@) == REPLACE_END@,
{
    reveal_strlit("<<<<<<< SEARCH");
    reveal_strlit("=======");
    reveal_strlit(">>>>>>> REPLACE");
}

/// What is known between two patches.
pub open spec fn between_patches(state: PatchState) -> bool {
    &&& state.tracker == file_tracker_start()
    &&& state.section == PatchSection::Outside
    &&& state.path is None
    &&& state.search.len() == 0
    &&& state.replace.len() == 0
}

proof fn lemma_read_patch_text(lines: Seq<Seq<char>>, before: nat, state: PatchState)
    requires
        patch_text(lines),
        state.section == PatchSection::Outside ==> loose_text(lines) && state.tracker
            == file_tracker_start(),
    ensures
        read::<PatchMachine>(lines, before, state) == Ok::<PatchState, TransportFaultModel>(
            match state.section {
                PatchSection::Outside => state,
                PatchSection::Search => PatchState { search: state.search + lines, ..state },
                PatchSection::Replace => PatchState { replace: state.replace + lines, ..state },
            },
        ),
    decreases lines.len(),
{
    if lines.len() == 0 {
        assert(state.search + lines =~= state.search);
        assert(state.replace + lines =~= state.replace);
    } else {
        let fewer = lines.drop_last();
        assert forall|i: int| 0 <= i < fewer.len() implies patch_text_line(#[trigger] fewer[i]) by {
            assert(fewer[i] == lines[i]);
        }
        if state.section == PatchSection::Outside {
            assert forall|i: int| 0 <= i < fewer.len() implies !FILE_MARKER@.is_prefix_of(
                trimmed(#[trigger] fewer[i]),
            ) by {
                assert(fewer[i] == lines[i]);
            }
            assert(!FILE_MARKER@.is_prefix_of(trimmed(lines[lines.len() - 1])));
        }
        lemma_read_patch_text(fewer, before, state);
        assert(patch_text_line(lines[lines.len() - 1]));
        assert((state.search + fewer).push(lines.last()) =~= state.search + lines);
        assert((state.replace + fewer).push(lines.last()) =~= state.replace + lines);
    }
}

proof fn lemma_read_open_patch(block: PatchModel, before: nat, state: PatchState)
    requires
        patchable(block),
        between_patches(state),
    ensures
        read::<PatchMachine>(patch_lines(block).drop_last(), before, state) == Ok::<
            PatchState,
            TransportFaultModel,
        >(
            PatchState {
                path: Some(block.path),
                search: split_lines(block.search),
                replace: split_lines(block.replace),
                section: PatchSection::Replace,
                ..state
            },
        ),
{
    let head = header(PATCH_MARKER@, block.path);
    let search = split_lines(block.search);
    let replace = split_lines(block.replace);
    let none = Seq::<Seq<char>>::empty();
    lemma_patch_marker();
    lemma_patch_delimiters();
    lemma_file_markers();
    lemma_header(PATCH_MARKER@, block.path);
    assert(!FILE_MARKER@.is_prefix_of(trimmed(head))) by {
        assert(trimmed(head)[4] == PATCH_MARKER@[4]);
    }
    assert(state.search =~= none);
    assert(state.replace =~= none);

    let s1 = PatchState { path: Some(block.path), ..state };
    lemma_read_one::<PatchMachine>(head, before, state);
    assert(read::<PatchMachine>(seq![head], before, state) == Ok::<
        PatchState,
        TransportFaultModel,
    >(s1));

    let s2 = PatchState { section: PatchSection::Search, ..s1 };
    let l2 = seq![head, SEARCH_START@];
    assert(l2 =~= seq![head] + seq![SEARCH_START@]);
    lemma_read_concat::<PatchMachine>(seq![head], seq![SEARCH_START@], before, state);
    lemma_read_one::<PatchMachine>(SEARCH_START@, before + 1, s1);
    assert(read::<PatchMachine>(l2, before, state) == Ok::<PatchState, TransportFaultModel>(s2));

    let s3 = PatchState { search, ..s2 };
    let l3 = l2 + search;
    lemma_read_concat::<PatchMachine>(l2, search, before, state);
    lemma_read_patch_text(search, before + 2, s2);
    assert(none + search =~= search);
    assert(read::<PatchMachine>(l3, before, state) == Ok::<PatchState, TransportFaultModel>(s3));

    let s4 = PatchState { section: PatchSection::Replace, ..s3 };
    let l4 = l3 + seq![DIVIDER@];
    lemma_read_concat::<PatchMachine>(l3, seq![DIVIDER@], before, state);
    lemma_read_one::<PatchMachine>(DIVIDER@, before + l3.len(), s3);
    assert(read::<PatchMachine>(l4, before, state) == Ok::<PatchState, TransportFaultModel>(s4));

    let s5 = PatchState { replace, ..s4 };
    let l5 = l4 + replace;
    lemma_read_concat::<PatchMachine>(l4, replace, before, state);
    lemma_read_patch_text(replace, before + l4.len(), s4);
    assert(none + replace =~= replace);
    assert(read::<PatchMachine>(l5, before, state) == Ok::<PatchState, TransportFaultModel>(s5));

    assert(patch_lines(block).drop_last() =~= l5);
}

proof fn lemma_read_patch(block: PatchModel, before: nat, state: PatchState)
    requires
        patchable(block),
        between_patches(state),
    ensures
        read::<PatchMachine>(patch_lines(block), before, state) == Ok::<
            PatchState,
            TransportFaultModel,
        >(PatchState { blocks: state.blocks.push(block), ..state }),
{
    let first = patch_lines(block).drop_last();
    let known = PatchState {
        path: Some(block.path),
        search: split_lines(block.search),
        replace: split_lines(block.replace),
        section: PatchSection::Replace,
        ..state
    };
    lemma_patch_marker();
    lemma_patch_delimiters();
    lemma_file_markers();
    lemma_read_open_patch(block, before, state);
    lemma_read_concat::<PatchMachine>(first, seq![REPLACE_END@], before, state);
    lemma_read_one::<PatchMachine>(REPLACE_END@, before + first.len(), known);
    lemma_join_of_split(block.search, '\n');
    lemma_join_of_split(block.replace, '\n');
    assert(state.search =~= Seq::empty());
    assert(state.replace =~= Seq::empty());
    assert(patch_lines(block) =~= first + seq![REPLACE_END@]);
}

proof fn lemma_read_patches(blocks: Seq<PatchModel>, before: nat)
    requires
        forall|i: int| 0 <= i < blocks.len() ==> patchable(#[trigger] blocks[i]),
    ensures
        read::<PatchMachine>(patches_lines(blocks), before, patch_start()) == Ok::<
            PatchState,
            TransportFaultModel,
        >(PatchState { blocks, ..patch_start() }),
    decreases blocks.len(),
{
    if blocks.len() == 0 {
        assert(blocks =~= Seq::empty());
    } else {
        let fewer = blocks.drop_last();
        assert forall|i: int| 0 <= i < fewer.len() implies patchable(#[trigger] fewer[i]) by {
            assert(fewer[i] == blocks[i]);
        }
        assert(patchable(blocks[blocks.len() - 1]));
        lemma_read_patches(fewer, before);
        let first = patches_lines(fewer);
        let known = PatchState { blocks: fewer, ..patch_start() };
        lemma_read_concat::<PatchMachine>(
            first,
            patch_lines(blocks.last()),
            before,
            patch_start(),
        );
        lemma_read_patch(blocks.last(), before + first.len(), known);
        assert(fewer.push(blocks.last()) =~= blocks);
    }
}

/// Patches come back as they were written, line for line and in order, whatever
/// text without meaning in the format stands before and after them.
pub proof fn law_patches_round_trip(
    raw: Seq<char>,
    before: Seq<Seq<char>>,
    blocks: Seq<PatchModel>,
    after: Seq<Seq<char>>,
)
    requires
        lines_of(raw) == before + patches_lines(blocks) + after,
        loose_text(before),
        loose_text(after),
        forall|i: int| 0 <= i < blocks.len() ==> patchable(#[trigger] blocks[i]),
    ensures
        patch_blocks(raw) == Ok::<Seq<PatchModel>, TransportFaultModel>(blocks),
{
    let middle = patches_lines(blocks);
    lemma_read_patch_text(before, 0, patch_start());
    lemma_read_patches(blocks, before.len());
    lemma_read_concat::<PatchMachine>(before, middle, 0, patch_start());
    lemma_read_concat::<PatchMachine>(before + middle, after, 0, patch_start());
    lemma_read_patch_text(
        after,
        (before + middle).len(),
        PatchState { blocks, ..patch_start() },
    );
}

/// Lines written one below the other, each with a line feed, are the lines that
/// are read.
pub proof fn law_written_lines_are_read(lines: Seq<Seq<char>>)
    requires
        lines.len() > 0,
        forall|i: int|
            0 <= i < lines.len() ==> !(#[trigger] lines[i]).contains('\n') && without_return(
                lines[i],
            ) == lines[i],
    ensures
        lines_of(join_lines(lines) + seq!['\n']) == lines,
{
    let last = Seq::<char>::empty();
    lemma_join_push(lines, seq!['\n'], last);
    let parts = lines.push(last);
    assert(join_lines(parts) =~= join_lines(lines) + seq!['\n']);
    lemma_split_of_lines(parts);
    assert(parts.drop_last() =~= lines);
    assert(parts.drop_last().map_values(|line: Seq<char>| without_return(line)) =~= lines);
}

/// A response that was cut off inside a patch is refused, even where the patches
/// before it are complete.
pub proof fn law_truncated_patch_is_refused(
    raw: Seq<char>,
    before: Seq<Seq<char>>,
    blocks: Seq<PatchModel>,
    cut: PatchModel,
)
    requires
        lines_of(raw) == before + patches_lines(blocks) + patch_lines(cut).drop_last(),
        loose_text(before),
        forall|i: int| 0 <= i < blocks.len() ==> patchable(#[trigger] blocks[i]),
        patchable(cut),
    ensures
        patch_blocks(raw) == Err::<Seq<PatchModel>, TransportFaultModel>(
            TransportFault::UnclosedPatch,
        ),
{
    let middle = patches_lines(blocks);
    let start = patch_start();
    let known = PatchState { blocks, ..start };
    let part = patch_lines(cut).drop_last();
    let number = (before + middle).len();
    lemma_read_patch_text(before, 0, start);
    lemma_read_patches(blocks, before.len());
    lemma_read_concat::<PatchMachine>(before, middle, 0, start);
    lemma_read_concat::<PatchMachine>(before + middle, part, 0, start);
    lemma_read_open_patch(cut, number, known);
}

proof fn lemma_patch_in_file(file: FileModel, before: nat, state: PatchState, count: int)
    requires
        writable(file),
        between_patches(state),
        0 <= count <= file_lines(file).len(),
    ensures
        read::<PatchMachine>(file_lines(file).take(count), before, state) == Ok::<
            PatchState,
            TransportFaultModel,
        >(
            PatchState {
                tracker: tracker_after(state.tracker, file_lines(file).take(count)),
                ..state
            },
        ),
    decreases count,
{
    let all = file_lines(file);
    if count > 0 {
        lemma_patch_in_file(file, before, state, count - 1);
        lemma_file_markers();
        lemma_patch_marker();
        lemma_patch_delimiters();
        lemma_header(FILE_MARKER@, file.path);
        assert(all.take(count).drop_last() =~= all.take(count - 1));
        let line = all[count - 1];
        assert(all.take(count).last() == line);
        if count == 1 {
            assert(line == header(FILE_MARKER@, file.path));
            assert(line[4] == FILE_MARKER@[4]);
            assert(all.take(0) =~= Seq::empty());
        } else if count < all.len() {
            lemma_tracker_in_file(file, state.tracker, count - 1);
            assert(line == split_lines(file.content)[count - 2]);
            assert(plain_line(split_lines(file.content)[count - 2]));
        } else {
            assert(line == END_MARKER@);
        }
    }
}

proof fn lemma_patch_in_files(files: Seq<FileModel>, before: nat, state: PatchState)
    requires
        forall|i: int| 0 <= i < files.len() ==> writable(#[trigger] files[i]),
        between_patches(state),
    ensures
        read::<PatchMachine>(files_lines(files), before, state) == Ok::<
            PatchState,
            TransportFaultModel,
        >(state),
    decreases files.len(),
{
    if files.len() > 0 {
        let fewer = files.drop_last();
        assert forall|i: int| 0 <= i < fewer.len() implies writable(#[trigger] fewer[i]) by {
            assert(fewer[i] == files[i]);
        }
        assert(writable(files[files.len() - 1]));
        lemma_patch_in_files(fewer, before, state);
        let first = files_lines(fewer);
        let block = file_lines(files.last());
        lemma_read_concat::<PatchMachine>(first, block, before, state);
        lemma_patch_in_file(files.last(), before + first.len(), state, block.len() as int);
        assert(block.take(block.len() as int) =~= block);
        lemma_tracker_file(files.last(), state.tracker);
    }
}

/// In a response that holds whole files and patches, the patches are those
/// outside the files: patch markers inside a file are that file's text.
pub proof fn law_patches_beside_files(
    raw: Seq<char>,
    before: Seq<Seq<char>>,
    files: Seq<FileModel>,
    blocks: Seq<PatchModel>,
)
    requires
        lines_of(raw) == before + files_lines(files) + patches_lines(blocks),
        loose_text(before),
        forall|i: int| 0 <= i < files.len() ==> writable(#[trigger] files[i]),
        forall|i: int| 0 <= i < blocks.len() ==> patchable(#[trigger] blocks[i]),
    ensures
        patch_blocks(raw) == Ok::<Seq<PatchModel>, TransportFaultModel>(blocks),
{
    let middle = files_lines(files);
    let start = patch_start();
    lemma_read_patch_text(before, 0, start);
    lemma_patch_in_files(files, before.len(), start);
    lemma_read_concat::<PatchMachine>(before, middle, 0, start);
    lemma_read_concat::<PatchMachine>(before + middle, patches_lines(blocks), 0, start);
    lemma_read_patches(blocks, (before + middle).len());
}

proof fn lemma_summary_in_patch(block: PatchModel, before: nat, state: SummaryState, count: int)
    requires
        patchable(block),
        state.tracker == tracker_start(),
        1 <= count < patch_lines(block).len(),
    ensures
        ({
            let end = read::<SummaryMachine>(patch_lines(block).take(count), before, state);
            &&& end is Ok
            &&& end->Ok_0.summary == state.summary
            &&& end->Ok_0.rationale == state.rationale
            &&& end->Ok_0.tracker.closing == Some(REPLACE_END@)
            &&& end->Ok_0.tracker.patches
        }),
    decreases count,
{
    let all = patch_lines(block);
    let search = split_lines(block.search);
    let replace = split_lines(block.replace);
    let line = all[count - 1];
    assert(all.take(count).last() == line);
    assert(all.take(count).drop_last() =~= all.take(count - 1));
    lemma_patch_marker();
    lemma_patch_delimiters();
    lemma_file_markers();
    lemma_header(PATCH_MARKER@, block.path);
    if count == 1 {
        assert(line == header(PATCH_MARKER@, block.path));
        assert(trimmed(line)[4] == PATCH_MARKER@[4]);
        assert(all.take(0) =~= Seq::empty());
    } else {
        lemma_summary_in_patch(block, before, state, count - 1);
        if count == 2 {
            assert(line == SEARCH_START@);
        } else if count < 3 + search.len() {
            assert(line == search[count - 3]);
            assert(patch_text_line(search[count - 3]));
        } else if count == 3 + search.len() {
            assert(line == DIVIDER@);
        } else {
            assert(line == replace[count - 4 - search.len()]);
            assert(patch_text_line(replace[count - 4 - search.len()]));
        }
    }
}

proof fn lemma_summary_in_patches(blocks: Seq<PatchModel>, before: nat, state: SummaryState)
    requires
        forall|i: int| 0 <= i < blocks.len() ==> patchable(#[trigger] blocks[i]),
        state.tracker == tracker_start(),
    ensures
        ({
            let end = read::<SummaryMachine>(patches_lines(blocks), before, state);
            &&& end is Ok
            &&& end->Ok_0.summary == state.summary
            &&& end->Ok_0.rationale == state.rationale
            &&& end->Ok_0.tracker == state.tracker
        }),
    decreases blocks.len(),
{
    if blocks.len() > 0 {
        let fewer = blocks.drop_last();
        assert forall|i: int| 0 <= i < fewer.len() implies patchable(#[trigger] fewer[i]) by {
            assert(fewer[i] == blocks[i]);
        }
        assert(patchable(blocks[blocks.len() - 1]));
        lemma_summary_in_patches(fewer, before, state);
        let first = patches_lines(fewer);
        let block = patch_lines(blocks.last());
        lemma_read_concat::<SummaryMachine>(first, block, before, state);
        let known = read::<SummaryMachine>(first, before, state)->Ok_0;
        lemma_summary_in_patch(blocks.last(), before + first.len(), known, block.len() - 1);
        assert(block.drop_last() =~= block.take(block.len() - 1));
        assert(block.last() == REPLACE_END@);
        lemma_patch_marker();
        lemma_patch_delimiters();
        lemma_file_markers();
        lemma_summary_words();
    }
}

/// The summary and the reasons of a response that holds patches are those at the
/// top level: a response of patches alone keeps them too.
pub proof fn law_summary_ignores_patches(
    raw: Seq<char>,
    before: Seq<Seq<char>>,
    blocks: Seq<PatchModel>,
)
    requires
        split_lines(raw) == before + patches_lines(blocks),
        before.len() > 0,
        quiet_lines(before),
        forall|i: int| 0 <= i < blocks.len() ==> patchable(#[trigger] blocks[i]),
    ensures
        summary_and_rationale(raw) == summary_and_rationale(join_lines(before)),
{
    let none = Seq::<Seq<char>>::empty();
    assert forall|i: int| 0 <= i < before.len() implies plain_line(#[trigger] before[i]) by {
        assert(quiet_line(before[i]));
    }
    lemma_response_clean(before, Seq::empty(), none);
    assert(before + files_lines(Seq::empty()) + none =~= before);
    lemma_summary_tracks(before, 0, summary_start());
    lemma_tracker_quiet(tracker_start(), before);
    lemma_read_concat::<SummaryMachine>(before, patches_lines(blocks), 0, summary_start());
    let known = read::<SummaryMachine>(before, 0, summary_start())->Ok_0;
    lemma_summary_in_patches(blocks, before.len(), known);
}

/// A real patch is found, also behind whole files that quote others.
pub proof fn law_real_patch_is_found(
    raw: Seq<char>,
    before: Seq<Seq<char>>,
    files: Seq<FileModel>,
    block: PatchModel,
    after: Seq<Seq<char>>,
)
    requires
        split_lines(raw) == before + files_lines(files) + patch_lines(block) + after,
        quiet_lines(before),
        forall|i: int| 0 <= i < files.len() ==> writable(#[trigger] files[i]),
        patchable(block),
    ensures
        has_patch_header(split_lines(raw)),
{
    let start = tracker_start();
    let middle = files_lines(files);
    let all = split_lines(raw);
    let i = (before + middle).len() as int;
    lemma_tracker_quiet(start, before);
    lemma_no_patch_in_files(files, start);
    lemma_tracker_concat(start, before, middle);
    lemma_patch_marker();
    lemma_header(PATCH_MARKER@, block.path);
    assert(all.take(i) =~= before + middle);
    assert(all[i] == header(PATCH_MARKER@, block.path));
    assert(patch_header_at(all, i));
}

// ---------------------------------------------------------------------------
// What counts as inside a block
// ---------------------------------------------------------------------------

/// The tracker and the reader of whole files agree on where a file block is open
/// as far as the response is accepted.
pub proof fn law_tracker_agrees_with_reader(lines: Seq<Seq<char>>)
    ensures
        read::<FencedMachine>(lines, 0, fenced_start()) matches Ok(state) ==> (tracker_after(
            file_tracker_start(),
            lines,
        ).closing == if state.open is Some {
            Some(END_MARKER@)
        } else {
            None
        }),
        tracker_after(file_tracker_start(), lines).patches == false,
    decreases lines.len(),
{
    lemma_file_markers();
    if lines.len() > 0 {
        law_tracker_agrees_with_reader(lines.drop_last());
    }
}

proof fn lemma_trimmed_start_of_push(s: Seq<char>, c: char)
    requires
        is_space(c),
    ensures
        trimmed_start(s.push(c)) == if trimmed_start(s).len() > 0 {
            trimmed_start(s).push(c)
        } else {
            Seq::empty()
        },
    decreases s.len(),
{
    if s.len() == 0 {
        assert(s.push(c).drop_first() =~= s);
        assert(s =~= Seq::empty());
    } else if is_space(s.first()) {
        lemma_trimmed_start_of_push(s.drop_first(), c);
        assert(s.push(c).drop_first() =~= s.drop_first().push(c));
        assert(s.push(c).first() == s.first());
    } else {
        assert(s.push(c).first() == s.first());
    }
}

proof fn lemma_trimmed_without_return(line: Seq<char>)
    ensures
        trimmed(without_return(line)) == trimmed(line),
{
    if line.len() > 0 && line.last() == '\r' {
        let rest = line.drop_last();
        assert(line =~= rest.push('\r'));
        lemma_trimmed_start_of_push(rest, '\r');
        let front = trimmed_start(rest);
        if front.len() > 0 {
            assert(front.push('\r').drop_last() =~= front);
        } else {
            assert(front =~= Seq::empty());
        }
    }
}

proof fn lemma_tracker_sees_marks(
    tracker: TrackerModel,
    a: Seq<Seq<char>>,
    b: Seq<Seq<char>>,
    count: int,
)
    requires
        0 <= count <= a.len() <= b.len(),
        forall|i: int| 0 <= i < a.len() ==> trimmed(#[trigger] a[i]) == trimmed(b[i]),
    ensures
        tracker_after(tracker, a.take(count)) == tracker_after(tracker, b.take(count)),
    decreases count,
{
    if count > 0 {
        lemma_tracker_sees_marks(tracker, a, b, count - 1);
        assert(a.take(count).drop_last() =~= a.take(count - 1));
        assert(b.take(count).drop_last() =~= b.take(count - 1));
        assert(trimmed(a[count - 1]) == trimmed(b[count - 1]));
    } else {
        assert(a.take(0) =~= b.take(0));
    }
}

proof fn lemma_header_in_lines(raw: Seq<char>)
    requires
        has_patch_header(lines_of(raw)),
    ensures
        has_patch_header(split_lines(raw)),
{
    let a = lines_of(raw);
    let b = split_lines(raw);
    lemma_split_nonempty(raw, '\n');
    assert forall|i: int| 0 <= i < a.len() implies trimmed(#[trigger] a[i]) == trimmed(b[i]) by {
        if i < b.len() - 1 {
            assert(a[i] == without_return(b[i]));
            lemma_trimmed_without_return(b[i]);
        } else {
            assert(a[i] == b[i]);
        }
    }
    let i = choose|i: int| #[trigger] patch_header_at(a, i);
    lemma_tracker_sees_marks(tracker_start(), a, b, i);
    assert(patch_header_at(b, i));
}

proof fn lemma_undetected(lines: Seq<Seq<char>>)
    requires
        !has_patch_header(lines),
    ensures
        read::<PatchMachine>(lines, 0, patch_start()) matches Ok(state) ==> {
            &&& state.path is None
            &&& state.blocks.len() == 0
            &&& !state.tracker.patches
            &&& state.section == PatchSection::Outside ==> state.tracker.closing == tracker_after(
                tracker_start(),
                lines,
            ).closing
        },
        tracker_after(tracker_start(), lines).patches,
    decreases lines.len(),
{
    if lines.len() > 0 {
        let fewer = lines.drop_last();
        assert forall|i: int| !patch_header_at(fewer, i) by {
            if patch_header_at(fewer, i) {
                assert(lines.take(i) =~= fewer.take(i));
                assert(lines[i] == fewer[i]);
                assert(patch_header_at(lines, i));
            }
        }
        lemma_undetected(fewer);
        assert(!patch_header_at(lines, lines.len() - 1));
        assert(lines.take(lines.len() - 1) =~= fewer);
    }
}

/// Whoever looks for patches and whoever reads them agree on what is inside a
/// block: a response in which patches are read is one in which a patch is found.
pub proof fn law_patches_are_detected(raw: Seq<char>)
    ensures
        patch_blocks(raw) matches Ok(blocks) && blocks.len() > 0 ==> has_patch_header(
            split_lines(raw),
        ),
{
    if has_patch_header(lines_of(raw)) {
        lemma_header_in_lines(raw);
    } else {
        lemma_undetected(lines_of(raw));
    }
}

} // verus!
