//! What is promised of a whole response, written out as the model is told to
//! write it.

use vstd::prelude::*;

use crate::lines::{
    join_lines, lemma_join_of_split, lemma_join_push, lemma_read_concat, lemma_split_nonempty,
    lemma_split_parts_clean, lines_of, read, split_lines, without_return,
};
use crate::mason_transport::{
    fenced_files, patch_blocks, summary_and_rationale, summary_start, tracker_after,
    tracker_start, FileModel, PatchModel, SummaryMachine, SummaryState, TransportFaultModel,
    DIVIDER, END_MARKER, FILE_MARKER, PATCH_MARKER, REPLACE_END, SEARCH_START,
};
use crate::text::{is_space, trimmed};
use crate::transport_laws::{
    file_lines, files_lines, header, law_files_round_trip, law_patches_round_trip,
    law_written_lines_are_read, lemma_file_lines_clean, lemma_file_markers, lemma_header,
    lemma_patch_marker, lemma_read_one, lemma_split_of_lines, lemma_summary_in_files,
    lemma_summary_tracks, lemma_summary_words, lemma_trimmed_edges, patch_lines, patchable,
    patches_lines, plain_line, plain_lines, quiet_line, writable,
};

verus! {

// ---------------------------------------------------------------------------
// Lines written one below the other
// ---------------------------------------------------------------------------

/// Lines written one below the other, each with a line feed.
pub open spec fn written(lines: Seq<Seq<char>>) -> Seq<char>
    decreases lines.len(),
{
    if lines.len() == 0 {
        Seq::empty()
    } else {
        written(lines.drop_last()) + lines.last() + seq!['\n']
    }
}

proof fn lemma_written_concat(a: Seq<Seq<char>>, b: Seq<Seq<char>>)
    ensures
        written(a + b) == written(a) + written(b),
    decreases b.len(),
{
    if b.len() == 0 {
        assert(a + b =~= a);
    } else {
        lemma_written_concat(a, b.drop_last());
        assert((a + b).drop_last() =~= a + b.drop_last());
        assert(written(a + b) =~= written(a) + written(b));
    }
}

proof fn lemma_written_one(line: Seq<char>)
    ensures
        written(seq![line]) == line + seq!['\n'],
{
    let none = Seq::<Seq<char>>::empty();
    assert(seq![line].drop_last() =~= none);
    assert(written(none) =~= Seq::empty());
    assert(written(seq![line]) =~= line + seq!['\n']);
}

proof fn lemma_written_joined(lines: Seq<Seq<char>>)
    ensures
        lines.len() > 0 ==> written(lines) == join_lines(lines) + seq!['\n'],
        written(lines) == join_lines(lines.push(Seq::empty())),
    decreases lines.len(),
{
    let none = Seq::<char>::empty();
    if lines.len() == 0 {
        assert(lines.push(none) =~= seq![none]);
    } else {
        let fewer = lines.drop_last();
        lemma_written_joined(fewer);
        assert(fewer.push(lines.last()) =~= lines);
        if fewer.len() > 0 {
            lemma_join_push(fewer, seq!['\n'], lines.last());
        } else {
            assert(lines =~= seq![lines[0]]);
        }
        assert(written(lines) =~= join_lines(lines) + seq!['\n']);
        lemma_join_push(lines, seq!['\n'], none);
        assert(join_lines(lines.push(none)) =~= join_lines(lines) + seq!['\n']);
    }
}

proof fn lemma_written_text(text: Seq<char>)
    ensures
        written(split_lines(text)) == text + seq!['\n'],
{
    lemma_split_nonempty(text, '\n');
    lemma_written_joined(split_lines(text));
    lemma_join_of_split(text, '\n');
}

// ---------------------------------------------------------------------------
// The summary and the reasons
// ---------------------------------------------------------------------------

/// Whether a text is one line without white space at either end.
pub open spec fn tidy(text: Seq<char>) -> bool {
    trimmed(text) == text && !text.contains('\n')
}

/// The lines of some reasons.
pub open spec fn reason_lines(reasons: Seq<Seq<char>>) -> Seq<Seq<char>> {
    reasons.map_values(|reason: Seq<char>| "- "@ + reason)
}

/// The lines of a summary and of the reasons below it.
pub open spec fn summary_lines(summary: Seq<char>, reasons: Seq<Seq<char>>) -> Seq<Seq<char>> {
    seq![header("SUMMARY:"@, summary), "RATIONALE:"@] + reason_lines(reasons)
}

/// Whether a summary and reasons can be written: each is one line, and no reason
/// is empty.
pub open spec fn tellable(summary: Seq<char>, reasons: Seq<Seq<char>>) -> bool {
    &&& tidy(summary)
    &&& forall|i: int|
        0 <= i < reasons.len() ==> tidy(#[trigger] reasons[i]) && reasons[i].len() > 0
}

/// Whether a line opens no block and adds nothing to the summary and the reasons.
pub open spec fn silent_line(line: Seq<char>) -> bool {
    &&& quiet_line(line)
    &&& !"SUMMARY:"@.is_prefix_of(trimmed(line))
    &&& trimmed(line) != "RATIONALE:"@
    &&& !"- "@.is_prefix_of(trimmed(line))
}

/// Whether every line is silent.
pub open spec fn silent_lines(lines: Seq<Seq<char>>) -> bool {
    forall|i: int| 0 <= i < lines.len() ==> silent_line(#[trigger] lines[i])
}

proof fn lemma_reason_line(reason: Seq<char>)
    requires
        tidy(reason),
        reason.len() > 0,
    ensures
        trimmed("- "@ + reason) == "- "@ + reason,
        "- "@.is_prefix_of("- "@ + reason),
        trimmed(("- "@ + reason).skip(2)) == reason,
{
    let line = "- "@ + reason;
    lemma_summary_words();
    lemma_trimmed_edges(reason);
    assert(line.first() == '-');
    assert(line.last() == reason.last());
    assert(line.skip(2) =~= reason);
    assert("- "@ =~= line.take(2));
}

proof fn lemma_read_reasons(reasons: Seq<Seq<char>>, before: nat, state: SummaryState)
    requires
        forall|i: int|
            0 <= i < reasons.len() ==> tidy(#[trigger] reasons[i]) && reasons[i].len() > 0,
        state.tracker == tracker_start(),
        state.in_rationale,
    ensures
        read::<SummaryMachine>(reason_lines(reasons), before, state) == Ok::<SummaryState, ()>(
            SummaryState { rationale: state.rationale + reasons, ..state },
        ),
    decreases reasons.len(),
{
    let lines = reason_lines(reasons);
    if reasons.len() == 0 {
        assert(state.rationale + reasons =~= state.rationale);
    } else {
        let fewer = reasons.drop_last();
        assert forall|i: int| 0 <= i < fewer.len() implies tidy(#[trigger] fewer[i])
            && fewer[i].len() > 0 by {
            assert(fewer[i] == reasons[i]);
        }
        lemma_read_reasons(fewer, before, state);
        assert(lines.drop_last() =~= reason_lines(fewer));
        let reason = reasons[reasons.len() - 1];
        assert(lines.last() == "- "@ + reason);
        lemma_reason_line(reason);
        lemma_summary_words();
        lemma_file_markers();
        lemma_patch_marker();
        assert((state.rationale + fewer).push(reason) =~= state.rationale + reasons);
    }
}

proof fn lemma_read_summary(summary: Seq<char>, reasons: Seq<Seq<char>>)
    requires
        tellable(summary, reasons),
    ensures
        read::<SummaryMachine>(summary_lines(summary, reasons), 0, summary_start()) == Ok::<
            SummaryState,
            (),
        >(
            SummaryState {
                tracker: tracker_start(),
                summary,
                rationale: reasons,
                in_rationale: true,
            },
        ),
{
    let first = header("SUMMARY:"@, summary);
    let second = "RATIONALE:"@;
    let start = summary_start();
    lemma_summary_words();
    lemma_file_markers();
    lemma_patch_marker();
    assert(!is_space("SUMMARY:"@.last())) by {
        reveal_strlit("SUMMARY:");
    }
    assert(trimmed(second) == second) by {
        reveal_strlit("RATIONALE:");
    }
    lemma_header("SUMMARY:"@, summary);
    assert(trimmed(first)[0] == 'S');
    let s1 = SummaryState { summary, ..start };
    lemma_read_one::<SummaryMachine>(first, 0, start);
    assert(read::<SummaryMachine>(seq![first], 0, start) == Ok::<SummaryState, ()>(s1));
    let s2 = SummaryState { in_rationale: true, ..s1 };
    lemma_read_concat::<SummaryMachine>(seq![first], seq![second], 0, start);
    lemma_read_one::<SummaryMachine>(second, 1, s1);
    let two = seq![first, second];
    assert(two =~= seq![first] + seq![second]);
    assert(read::<SummaryMachine>(two, 0, start) == Ok::<SummaryState, ()>(s2));
    lemma_read_concat::<SummaryMachine>(two, reason_lines(reasons), 0, start);
    lemma_read_reasons(reasons, 2, s2);
    assert(Seq::<Seq<char>>::empty() + reasons =~= reasons);
}

proof fn lemma_read_silent(lines: Seq<Seq<char>>, before: nat, state: SummaryState)
    requires
        silent_lines(lines),
        state.tracker == tracker_start(),
    ensures
        read::<SummaryMachine>(lines, before, state) == Ok::<SummaryState, ()>(state),
    decreases lines.len(),
{
    if lines.len() > 0 {
        let fewer = lines.drop_last();
        assert forall|i: int| 0 <= i < fewer.len() implies silent_line(#[trigger] fewer[i]) by {
            assert(fewer[i] == lines[i]);
        }
        lemma_read_silent(fewer, before, state);
        assert(silent_line(lines[lines.len() - 1]));
        lemma_file_markers();
    }
}

/// A summary and reasons come back as they were written, whatever whole files
/// and whatever text without meaning follow them.
pub proof fn law_summary_round_trip(
    raw: Seq<char>,
    summary: Seq<char>,
    reasons: Seq<Seq<char>>,
    files: Seq<FileModel>,
    after: Seq<Seq<char>>,
)
    requires
        split_lines(raw) == summary_lines(summary, reasons) + files_lines(files) + after,
        tellable(summary, reasons),
        forall|i: int| 0 <= i < files.len() ==> writable(#[trigger] files[i]),
        silent_lines(after),
    ensures
        summary_and_rationale(raw) == (summary, reasons),
{
    let head = summary_lines(summary, reasons);
    let middle = files_lines(files);
    let start = summary_start();
    lemma_read_summary(summary, reasons);
    let known = read::<SummaryMachine>(head, 0, start)->Ok_0;
    lemma_read_concat::<SummaryMachine>(head, middle, 0, start);
    lemma_summary_in_files(files, head.len(), known);
    let later = read::<SummaryMachine>(middle, head.len(), known)->Ok_0;
    lemma_read_concat::<SummaryMachine>(head + middle, after, 0, start);
    lemma_read_silent(after, (head + middle).len(), later);
}

// ---------------------------------------------------------------------------
// A response of whole files
// ---------------------------------------------------------------------------

/// Reasons as they are written.
pub open spec fn reasons_text(reasons: Seq<Seq<char>>) -> Seq<char>
    decreases reasons.len(),
{
    if reasons.len() == 0 {
        Seq::empty()
    } else {
        reasons_text(reasons.drop_last()) + "- "@ + reasons.last() + "\n"@
    }
}

/// A whole file as it is written.
pub open spec fn file_text(file: FileModel) -> Seq<char> {
    "### FILE: "@ + file.path + "\n"@ + file.content + "\n### END FILE\n"@
}

/// Whole files as they are written.
pub open spec fn files_text(files: Seq<FileModel>) -> Seq<char>
    decreases files.len(),
{
    if files.len() == 0 {
        Seq::empty()
    } else {
        files_text(files.drop_last()) + file_text(files.last())
    }
}

/// A response as the model is told to write it.
pub open spec fn response_text(
    summary: Seq<char>,
    reasons: Seq<Seq<char>>,
    files: Seq<FileModel>,
) -> Seq<char> {
    "SUMMARY: "@ + summary + "\nRATIONALE:\n"@ + reasons_text(reasons) + files_text(files)
}

proof fn lemma_reasons_text(reasons: Seq<Seq<char>>)
    ensures
        reasons_text(reasons) == written(reason_lines(reasons)),
    decreases reasons.len(),
{
    reveal_strlit("\n");
    assert("\n"@ =~= seq!['\n']);
    if reasons.len() > 0 {
        lemma_reasons_text(reasons.drop_last());
        let lines = reason_lines(reasons);
        assert(lines.drop_last() =~= reason_lines(reasons.drop_last()));
        assert(lines.last() == "- "@ + reasons.last());
        assert(reasons_text(reasons) =~= written(lines));
    }
}

proof fn lemma_file_text(file: FileModel)
    ensures
        file_text(file) == written(file_lines(file)),
{
    let head = header(FILE_MARKER@, file.path);
    let body = split_lines(file.content);
    reveal_strlit("\n");
    reveal_strlit("### FILE: ");
    reveal_strlit("### FILE:");
    reveal_strlit("### END FILE");
    reveal_strlit("\n### END FILE\n");
    assert("\n"@ =~= seq!['\n']);
    assert("### FILE: "@ =~= FILE_MARKER@ + seq![' ']);
    assert("\n### END FILE\n"@ =~= seq!['\n'] + END_MARKER@ + seq!['\n']);
    lemma_written_one(head);
    lemma_written_text(file.content);
    lemma_written_one(END_MARKER@);
    lemma_written_concat(seq![head], body);
    lemma_written_concat(seq![head] + body, seq![END_MARKER@]);
    assert(file_text(file) =~= written(file_lines(file)));
}

proof fn lemma_files_text(files: Seq<FileModel>)
    ensures
        files_text(files) == written(files_lines(files)),
    decreases files.len(),
{
    if files.len() > 0 {
        lemma_files_text(files.drop_last());
        lemma_file_text(files.last());
        lemma_written_concat(files_lines(files.drop_last()), file_lines(files.last()));
    }
}

proof fn lemma_response_text(
    summary: Seq<char>,
    reasons: Seq<Seq<char>>,
    files: Seq<FileModel>,
)
    ensures
        response_text(summary, reasons, files) == written(
            summary_lines(summary, reasons) + files_lines(files),
        ),
{
    let first = header("SUMMARY:"@, summary);
    let second = "RATIONALE:"@;
    let two = seq![first, second];
    reveal_strlit("SUMMARY:");
    reveal_strlit("SUMMARY: ");
    reveal_strlit("RATIONALE:");
    reveal_strlit("\nRATIONALE:\n");
    assert("SUMMARY: "@ =~= "SUMMARY:"@ + seq![' ']);
    assert("\nRATIONALE:\n"@ =~= seq!['\n'] + second + seq!['\n']);
    assert(two =~= seq![first] + seq![second]);
    lemma_written_one(first);
    lemma_written_one(second);
    lemma_written_concat(seq![first], seq![second]);
    lemma_reasons_text(reasons);
    lemma_written_concat(two, reason_lines(reasons));
    lemma_files_text(files);
    lemma_written_concat(summary_lines(summary, reasons), files_lines(files));
    assert(response_text(summary, reasons, files) =~= written(
        summary_lines(summary, reasons) + files_lines(files),
    ));
}

proof fn lemma_summary_lines_plain(summary: Seq<char>, reasons: Seq<Seq<char>>)
    requires
        tellable(summary, reasons),
    ensures
        plain_lines(summary_lines(summary, reasons)),
{
    let first = header("SUMMARY:"@, summary);
    let lines = summary_lines(summary, reasons);
    lemma_summary_words();
    lemma_file_markers();
    reveal_strlit("SUMMARY:");
    reveal_strlit("RATIONALE:");
    reveal_strlit("- ");
    lemma_header("SUMMARY:"@, summary);
    assert(trimmed(first)[0] == 'S');
    assert(!first.contains('\n')) by {
        if first.contains('\n') {
            let k = choose|k: int| 0 <= k < first.len() && first[k] == '\n';
            if k > 8 {
                assert(summary[k - 9] == '\n');
            }
        }
    }
    assert forall|i: int| 0 <= i < lines.len() implies plain_line(#[trigger] lines[i]) by {
        if i == 0 {
            assert(lines[i] == first);
        } else if i == 1 {
            assert(lines[i] == "RATIONALE:"@);
            assert(trimmed("RATIONALE:"@) == "RATIONALE:"@);
        } else {
            let reason = reasons[i - 2];
            let line = "- "@ + reason;
            assert(lines[i] == line);
            lemma_reason_line(reason);
            assert(line[0] == '-');
            if line.contains('\n') {
                let k = choose|k: int| 0 <= k < line.len() && line[k] == '\n';
                if k > 1 {
                    assert(reason[k - 2] == '\n');
                }
            }
        }
    }
}

/// A response that was written as the model is told to write it comes back as it
/// was meant: the summary, the reasons, and the files with their contents
/// character for character.
pub proof fn law_response_round_trip(
    summary: Seq<char>,
    reasons: Seq<Seq<char>>,
    files: Seq<FileModel>,
)
    requires
        tellable(summary, reasons),
        files.len() > 0,
        forall|i: int| 0 <= i < files.len() ==> writable(#[trigger] files[i]),
    ensures
        summary_and_rationale(response_text(summary, reasons, files)) == (summary, reasons),
        fenced_files(response_text(summary, reasons, files)) == Ok::<
            Seq<FileModel>,
            TransportFaultModel,
        >(files),
{
    let raw = response_text(summary, reasons, files);
    let head = summary_lines(summary, reasons);
    let middle = files_lines(files);
    let none = Seq::<char>::empty();
    let after = seq![none];
    let all = head + middle + after;
    lemma_response_text(summary, reasons, files);
    lemma_written_joined(head + middle);
    assert((head + middle).push(none) =~= all);
    lemma_summary_lines_plain(summary, reasons);
    lemma_file_markers();
    lemma_patch_marker();
    lemma_summary_words();
    assert(trimmed(none) =~= none);
    assert(silent_lines(after));
    assert(plain_lines(after)) by {
        assert(silent_line(after[0]));
    }
    lemma_file_lines_clean(files);
    assert forall|i: int| 0 <= i < all.len() implies !(#[trigger] all[i]).contains('\n') by {
        if i < head.len() {
            assert(plain_line(head[i]));
            assert(all[i] == head[i]);
        } else if i < head.len() + middle.len() {
            assert(all[i] == middle[i - head.len()]);
        } else {
            assert(all[i] == none);
        }
    }
    lemma_split_of_lines(all);
    law_summary_round_trip(raw, summary, reasons, files, after);
    law_files_round_trip(head, files, after);
}

// ---------------------------------------------------------------------------
// A response of patches
// ---------------------------------------------------------------------------

/// A patch as it is written.
pub open spec fn patch_as_text(block: PatchModel) -> Seq<char> {
    "### PATCH: "@ + block.path + "\n<<<<<<< SEARCH\n"@ + block.search + "\n=======\n"@
        + block.replace + "\n>>>>>>> REPLACE\n"@
}

/// Patches as they are written.
pub open spec fn patches_as_text(blocks: Seq<PatchModel>) -> Seq<char>
    decreases blocks.len(),
{
    if blocks.len() == 0 {
        Seq::empty()
    } else {
        patches_as_text(blocks.drop_last()) + patch_as_text(blocks.last())
    }
}

/// Whether no line ends in a carriage return.
pub open spec fn without_returns(lines: Seq<Seq<char>>) -> bool {
    forall|i: int| 0 <= i < lines.len() ==> without_return(#[trigger] lines[i]) == lines[i]
}

/// Whether a patch can be written out as text: it is one that can be written as
/// a block, its path is one line, and no line of it ends in a carriage return.
pub open spec fn writable_patch(block: PatchModel) -> bool {
    &&& patchable(block)
    &&& !block.path.contains('\n')
    &&& without_returns(split_lines(block.search))
    &&& without_returns(split_lines(block.replace))
}

proof fn lemma_patch_as_text(block: PatchModel)
    ensures
        patch_as_text(block) == written(patch_lines(block)),
{
    let head = header(PATCH_MARKER@, block.path);
    let search = split_lines(block.search);
    let replace = split_lines(block.replace);
    reveal_strlit("### PATCH: ");
    reveal_strlit("### PATCH:");
    reveal_strlit("<<<<<<< SEARCH");
    reveal_strlit("\n<<<<<<< SEARCH\n");
    reveal_strlit("=======");
    reveal_strlit("\n=======\n");
    reveal_strlit(">>>>>>> REPLACE");
    reveal_strlit("\n>>>>>>> REPLACE\n");
    assert("### PATCH: "@ =~= PATCH_MARKER@ + seq![' ']);
    assert("\n<<<<<<< SEARCH\n"@ =~= seq!['\n'] + SEARCH_START@ + seq!['\n']);
    assert("\n=======\n"@ =~= seq!['\n'] + DIVIDER@ + seq!['\n']);
    assert("\n>>>>>>> REPLACE\n"@ =~= seq!['\n'] + REPLACE_END@ + seq!['\n']);
    let l2 = seq![head, SEARCH_START@];
    assert(l2 =~= seq![head] + seq![SEARCH_START@]);
    lemma_written_one(head);
    lemma_written_one(SEARCH_START@);
    lemma_written_concat(seq![head], seq![SEARCH_START@]);
    lemma_written_text(block.search);
    lemma_written_concat(l2, search);
    let l3 = l2 + search;
    lemma_written_one(DIVIDER@);
    lemma_written_concat(l3, seq![DIVIDER@]);
    let l4 = l3 + seq![DIVIDER@];
    lemma_written_text(block.replace);
    lemma_written_concat(l4, replace);
    let l5 = l4 + replace;
    lemma_written_one(REPLACE_END@);
    lemma_written_concat(l5, seq![REPLACE_END@]);
    assert(patch_as_text(block) =~= written(patch_lines(block)));
}

proof fn lemma_patches_as_text(blocks: Seq<PatchModel>)
    ensures
        patches_as_text(blocks) == written(patches_lines(blocks)),
    decreases blocks.len(),
{
    if blocks.len() > 0 {
        lemma_patches_as_text(blocks.drop_last());
        lemma_patch_as_text(blocks.last());
        lemma_written_concat(patches_lines(blocks.drop_last()), patch_lines(blocks.last()));
    }
}

/// Whether a line comes back from text as it was written.
spec fn keeps(line: Seq<char>) -> bool {
    !line.contains('\n') && without_return(line) == line
}

proof fn lemma_patch_lines_keep(block: PatchModel)
    requires
        writable_patch(block),
    ensures
        forall|i: int| 0 <= i < patch_lines(block).len() ==> keeps(#[trigger] patch_lines(block)[i]),
{
    let head = header(PATCH_MARKER@, block.path);
    let search = split_lines(block.search);
    let replace = split_lines(block.replace);
    let all = patch_lines(block);
    lemma_patch_marker();
    lemma_split_parts_clean(block.search, '\n');
    lemma_split_parts_clean(block.replace, '\n');
    reveal_strlit("<<<<<<< SEARCH");
    reveal_strlit("=======");
    reveal_strlit(">>>>>>> REPLACE");
    assert(keeps(head)) by {
        if head.contains('\n') {
            let k = choose|k: int| 0 <= k < head.len() && head[k] == '\n';
            if k < PATCH_MARKER@.len() {
                assert(PATCH_MARKER@[k] == '\n');
            } else if k > PATCH_MARKER@.len() {
                assert(block.path[k - PATCH_MARKER@.len() - 1] == '\n');
            }
        }
        if block.path.len() > 0 {
            lemma_trimmed_edges(block.path);
            assert(head.last() == block.path.last());
        }
    }
    assert forall|i: int| 0 <= i < all.len() implies keeps(#[trigger] all[i]) by {
        if i == 0 {
            assert(all[i] == head);
        } else if i == 1 {
            assert(all[i] == SEARCH_START@);
        } else if i < 2 + search.len() {
            assert(all[i] == search[i - 2]);
        } else if i == 2 + search.len() {
            assert(all[i] == DIVIDER@);
        } else if i < 3 + search.len() + replace.len() {
            assert(all[i] == replace[i - 3 - search.len()]);
        } else {
            assert(all[i] == REPLACE_END@);
        }
    }
}

proof fn lemma_patches_lines_keep(blocks: Seq<PatchModel>)
    requires
        forall|i: int| 0 <= i < blocks.len() ==> writable_patch(#[trigger] blocks[i]),
    ensures
        forall|i: int|
            0 <= i < patches_lines(blocks).len() ==> keeps(#[trigger] patches_lines(blocks)[i]),
    decreases blocks.len(),
{
    if blocks.len() > 0 {
        let fewer = blocks.drop_last();
        assert forall|i: int| 0 <= i < fewer.len() implies writable_patch(#[trigger] fewer[i]) by {
            assert(fewer[i] == blocks[i]);
        }
        assert(writable_patch(blocks[blocks.len() - 1]));
        lemma_patches_lines_keep(fewer);
        lemma_patch_lines_keep(blocks.last());
        let first = patches_lines(fewer);
        let all = patches_lines(blocks);
        assert forall|i: int| 0 <= i < all.len() implies keeps(#[trigger] all[i]) by {
            if i < first.len() {
                assert(all[i] == first[i]);
            } else {
                assert(all[i] == patch_lines(blocks.last())[i - first.len()]);
            }
        }
    }
}

/// Patches that were written as the model is told to write them come back as they
/// were meant: as many, in order, with the text to search for and its
/// replacement character for character.
pub proof fn law_written_patches_round_trip(blocks: Seq<PatchModel>)
    requires
        forall|i: int| 0 <= i < blocks.len() ==> writable_patch(#[trigger] blocks[i]),
    ensures
        patch_blocks(patches_as_text(blocks)) == Ok::<Seq<PatchModel>, TransportFaultModel>(blocks),
{
    let raw = patches_as_text(blocks);
    let lines = patches_lines(blocks);
    let none = Seq::<Seq<char>>::empty();
    lemma_patches_as_text(blocks);
    lemma_patches_lines_keep(blocks);
    lemma_written_joined(lines);
    if blocks.len() > 0 {
        assert(patch_lines(blocks.last()).len() > 0);
        assert forall|i: int| 0 <= i < lines.len() implies !(#[trigger] lines[i]).contains('\n')
            && without_return(lines[i]) == lines[i] by {
            assert(keeps(lines[i]));
        }
        law_written_lines_are_read(lines);
    } else {
        assert(raw =~= Seq::empty());
        assert(split_lines(raw) =~= seq![Seq::<char>::empty()]);
        assert(split_lines(raw).drop_last() =~= none);
        assert(lines_of(raw) =~= none);
    }
    assert(none + lines + none =~= lines);
    assert forall|i: int| 0 <= i < blocks.len() implies patchable(#[trigger] blocks[i]) by {
        assert(writable_patch(blocks[i]));
    }
    law_patches_round_trip(raw, none, blocks, none);
}

// ---------------------------------------------------------------------------
// What stands inside a file does not count
// ---------------------------------------------------------------------------

/// Whether a line that follows `before` stands in the body of a file block at the
/// top level.
pub open spec fn in_file_body(before: Seq<Seq<char>>, line: Seq<char>) -> bool {
    &&& tracker_after(tracker_start(), before).closing == Some(END_MARKER@)
    &&& trimmed(line) != END_MARKER@
}

/// The lines without the bodies of the file blocks at the top level. The lines
/// that open and close the blocks stay.
pub open spec fn without_bodies(lines: Seq<Seq<char>>) -> Seq<Seq<char>>
    decreases lines.len(),
{
    if lines.len() == 0 {
        Seq::empty()
    } else if in_file_body(lines.drop_last(), lines.last()) {
        without_bodies(lines.drop_last())
    } else {
        without_bodies(lines.drop_last()).push(lines.last())
    }
}

proof fn lemma_summary_without_bodies(lines: Seq<Seq<char>>)
    ensures
        read::<SummaryMachine>(lines, 0, summary_start()) == read::<SummaryMachine>(
            without_bodies(lines),
            0,
            summary_start(),
        ),
    decreases lines.len(),
{
    if lines.len() > 0 {
        let fewer = lines.drop_last();
        lemma_summary_without_bodies(fewer);
        lemma_summary_tracks(fewer, 0, summary_start());
        if !in_file_body(fewer, lines.last()) {
            let kept = without_bodies(lines);
            assert(kept.drop_last() =~= without_bodies(fewer));
        }
    }
}

/// Two responses that differ only in the bodies of their whole files have the
/// same summary and the same reasons, whatever stands between and after the
/// files.
pub proof fn law_summary_ignores_bodies(raw: Seq<char>, other: Seq<char>)
    requires
        without_bodies(split_lines(raw)) == without_bodies(split_lines(other)),
    ensures
        summary_and_rationale(raw) == summary_and_rationale(other),
{
    lemma_summary_without_bodies(split_lines(raw));
    lemma_summary_without_bodies(split_lines(other));
}

proof fn lemma_without_bodies_goes_on(
    a: Seq<Seq<char>>,
    b: Seq<Seq<char>>,
    after: Seq<Seq<char>>,
)
    requires
        tracker_after(tracker_start(), a) == tracker_after(tracker_start(), b),
        without_bodies(a) == without_bodies(b),
    ensures
        tracker_after(tracker_start(), a + after) == tracker_after(tracker_start(), b + after),
        without_bodies(a + after) == without_bodies(b + after),
    decreases after.len(),
{
    if after.len() == 0 {
        assert(a + after =~= a);
        assert(b + after =~= b);
    } else {
        lemma_without_bodies_goes_on(a, b, after.drop_last());
        assert((a + after).drop_last() =~= a + after.drop_last());
        assert((b + after).drop_last() =~= b + after.drop_last());
    }
}

proof fn lemma_body_is_left_out(before: Seq<Seq<char>>, body: Seq<Seq<char>>)
    requires
        tracker_after(tracker_start(), before).closing == Some(END_MARKER@),
        forall|i: int| 0 <= i < body.len() ==> trimmed(#[trigger] body[i]) != END_MARKER@,
    ensures
        tracker_after(tracker_start(), before + body) == tracker_after(tracker_start(), before),
        without_bodies(before + body) == without_bodies(before),
    decreases body.len(),
{
    if body.len() == 0 {
        assert(before + body =~= before);
    } else {
        let fewer = body.drop_last();
        assert forall|i: int| 0 <= i < fewer.len() implies trimmed(#[trigger] fewer[i])
            != END_MARKER@ by {
            assert(fewer[i] == body[i]);
        }
        lemma_body_is_left_out(before, fewer);
        assert((before + body).drop_last() =~= before + fewer);
        assert(trimmed(body[body.len() - 1]) != END_MARKER@);
    }
}

/// The body of one whole file can be exchanged for any other without a change to
/// what is left when the bodies are taken out.
pub proof fn law_body_leaves_no_trace(
    before: Seq<Seq<char>>,
    head: Seq<char>,
    body: Seq<Seq<char>>,
    other: Seq<Seq<char>>,
    after: Seq<Seq<char>>,
)
    requires
        tracker_after(tracker_start(), before).closing is None,
        FILE_MARKER@.is_prefix_of(trimmed(head)),
        forall|i: int| 0 <= i < body.len() ==> trimmed(#[trigger] body[i]) != END_MARKER@,
        forall|i: int| 0 <= i < other.len() ==> trimmed(#[trigger] other[i]) != END_MARKER@,
    ensures
        without_bodies(before.push(head) + body + after) == without_bodies(
            before.push(head) + other + after,
        ),
{
    let opened = before.push(head);
    assert(opened.drop_last() =~= before);
    lemma_body_is_left_out(opened, body);
    lemma_body_is_left_out(opened, other);
    lemma_without_bodies_goes_on(opened + body, opened + other, after);
}

} // verus!
