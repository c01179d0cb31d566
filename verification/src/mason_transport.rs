//! The plain-text formats in which a model proposes edits: whole files between
//! fences, and patches that replace one exact region of a file.

use vstd::prelude::*;
use vstd::string::*;

use crate::lines::{
    join_lines, join_texts, lemma_read_next, lemma_read_stops, lines, lines_of, read, split_at_char,
    split_lines, LineMachine,
};
use crate::numeral::{decimal, decimal_text};
use crate::outside::{quoted, quoted_text};
use crate::search::{find_from, occurs, occurs_at, stands_at};
use crate::text::{
    byte_count, byte_len, chars_of, optional_text, same, starts_with, strip_prefix, texts, trim,
    trimmed,
};

verus! {

/// Wording handed to the model. It stands next to the parser because a prompt
/// that asks for one format while the parser expects another defeats both.
pub const FENCED_FORMAT_INSTRUCTION: &'static str = "\
Respond in this exact plain-text format. Do NOT use JSON. Do NOT use markdown code fences.

SUMMARY: <one line describing the change>
RATIONALE:
- <one reason per line>

Then, for every file you are writing, a block of exactly this shape:

### FILE: <relative/path/from/the/workspace/root>
<the complete contents of the file, written literally>
### END FILE

Write file contents exactly as they should appear on disk. Do not escape \
quotes, backslashes or newlines. Do not wrap contents in backticks. Emit one \
block per file, and nothing after the final ### END FILE. Important: file content \
must not contain any line that starts with '### FILE:' — the parser cannot \
distinguish such a line from a real file header. Also, no line of content may \
consist solely of '### END FILE' — the parser uses that exact phrase to mark block ends.";

/// Wording handed to the model for patches.
pub const PATCH_FORMAT_INSTRUCTION: &'static str = "\
When changing an existing file, emit a patch rather than the whole file:

### PATCH: <relative/path>
<<<<<<< SEARCH
<text to find, copied exactly from the current file>
=======
<text to put in its place>
>>>>>>> REPLACE

The SEARCH text must appear exactly once in the file, copied character for \
character including indentation. Use a whole ### FILE: block instead when \
creating a new file.

IMPORTANT: The SEARCH and REPLACE sections must not contain lines that consist \
solely of '<<<<<<< SEARCH', '=======', or '>>>>>>> REPLACE', nor may they start \
with '### PATCH:' — the parser cannot distinguish such lines from real delimiters. \
If a file contains these lines, use a whole ### FILE: block instead of a patch.

IMPORTANT: The format cannot express a trailing newline in the REPLACE section. \
To delete a line, include an adjacent line as context in both SEARCH and REPLACE. \
For example, to delete 'line 2' from a three-line file, search for 'line 1\\nline 2' \
and replace with 'line 1' — do not search for just 'line 2' and replace with empty, \
which would leave a blank line.";

/// Opens a whole-file block; the path follows on the same line.
pub const FILE_MARKER: &'static str = "### FILE:";

/// Closes a whole-file block.
pub const END_MARKER: &'static str = "### END FILE";

/// Opens a patch; the path follows on the same line.
pub const PATCH_MARKER: &'static str = "### PATCH:";

/// Opens the text to search for.
pub const SEARCH_START: &'static str = "<<<<<<< SEARCH";

/// Stands between the text to search for and its replacement.
pub const DIVIDER: &'static str = "=======";

/// Closes a patch.
pub const REPLACE_END: &'static str = ">>>>>>> REPLACE";

// ---------------------------------------------------------------------------
// Values
// ---------------------------------------------------------------------------

/// A whole file that the model wants written.
#[derive(Debug, Clone, PartialEq, Eq)]
pub struct FencedFile {
    pub path: String,
    pub content: String,
}

/// A response in the fenced format.
#[derive(Debug, Clone, PartialEq, Eq)]
pub struct FencedEnvelope {
    pub summary: String,
    pub rationale: Vec<String>,
    pub files: Vec<FencedFile>,
}

/// One exact replacement in one file.
#[derive(Debug, Clone, PartialEq, Eq)]
pub struct PatchBlock {
    pub path: String,
    pub search: String,
    pub replace: String,
}

/// What a `FencedFile` holds.
pub struct FileModel {
    pub path: Seq<char>,
    pub content: Seq<char>,
}

/// What a `PatchBlock` holds.
pub struct PatchModel {
    pub path: Seq<char>,
    pub search: Seq<char>,
    pub replace: Seq<char>,
}

impl View for FencedFile {
    type V = FileModel;

    open spec fn view(&self) -> FileModel {
        FileModel { path: self.path@, content: self.content@ }
    }
}

impl View for PatchBlock {
    type V = PatchModel;

    open spec fn view(&self) -> PatchModel {
        PatchModel { path: self.path@, search: self.search@, replace: self.replace@ }
    }
}

/// What a list of files holds.
pub open spec fn file_models(files: Seq<FencedFile>) -> Seq<FileModel> {
    files.map_values(|f: FencedFile| f@)
}

/// What a list of patches holds.
pub open spec fn patch_models(blocks: Seq<PatchBlock>) -> Seq<PatchModel> {
    blocks.map_values(|b: PatchBlock| b@)
}

/// Why a response or a patch is refused. `T` is the type of text, `N` that of
/// line numbers and counts.
#[derive(Debug, Clone, PartialEq, Eq)]
pub enum TransportFault<T, N> {
    /// A file header inside an open file block.
    NestedFileMarker { line: N, path: T },
    /// A file header without a path.
    EmptyPath,
    /// A path that cannot be one: it holds a double quote or is too long.
    ImplausiblePath { path: T },
    /// A file terminator outside any file block.
    StrayEndMarker { line: N },
    /// The response ended inside a file block.
    UnclosedFile { path: T },
    /// The response held no file block.
    NoFileBlocks,
    /// A patch that searches for nothing.
    EmptySearch { path: T },
    /// The text searched for is not in the file.
    SearchNotFound { path: T },
    /// The text searched for is in the file more than once.
    AmbiguousSearch { path: T, matches: N },
    /// The text searched for is in the file at places that overlap.
    OverlappingSearch { path: T },
    /// A patch header inside an open patch.
    PatchHeaderInOpenBlock { line: N, open: Option<T>, found: T },
    /// A search marker inside an open patch.
    SearchInOpenBlock { line: N, section: N },
    /// A second divider in one patch.
    SecondDivider { line: N },
    /// A divider outside the search section.
    DividerOutsideSearch { line: N },
    /// The end of a patch that had no header.
    ReplaceEndWithoutHeader { line: N },
    /// The end of a patch that had no divider.
    ReplaceEndInSearch { line: N },
    /// The end of a patch where none is open.
    ReplaceEndOutsideBlock { line: N },
    /// The response ended inside a patch.
    UnclosedPatch,
}

/// Why a response or a patch is refused.
pub type TransportError = TransportFault<String, usize>;

/// What a `TransportError` holds.
pub type TransportFaultModel = TransportFault<Seq<char>, nat>;

impl View for TransportFault<String, usize> {
    type V = TransportFaultModel;

    open spec fn view(&self) -> TransportFaultModel {
        match *self {
            TransportFault::NestedFileMarker { line, path } => TransportFault::NestedFileMarker {
                line: line as nat,
                path: path@,
            },
            TransportFault::EmptyPath => TransportFault::EmptyPath,
            TransportFault::ImplausiblePath { path } => TransportFault::ImplausiblePath {
                path: path@,
            },
            TransportFault::StrayEndMarker { line } => TransportFault::StrayEndMarker {
                line: line as nat,
            },
            TransportFault::UnclosedFile { path } => TransportFault::UnclosedFile { path: path@ },
            TransportFault::NoFileBlocks => TransportFault::NoFileBlocks,
            TransportFault::EmptySearch { path } => TransportFault::EmptySearch { path: path@ },
            TransportFault::SearchNotFound { path } => TransportFault::SearchNotFound {
                path: path@,
            },
            TransportFault::AmbiguousSearch { path, matches } => TransportFault::AmbiguousSearch {
                path: path@,
                matches: matches as nat,
            },
            TransportFault::OverlappingSearch { path } => TransportFault::OverlappingSearch {
                path: path@,
            },
            TransportFault::PatchHeaderInOpenBlock {
                line,
                open,
                found,
            } => TransportFault::PatchHeaderInOpenBlock {
                line: line as nat,
                open: optional_text(open),
                found: found@,
            },
            TransportFault::SearchInOpenBlock { line, section } => {
                TransportFault::SearchInOpenBlock { line: line as nat, section: section as nat }
            },
            TransportFault::SecondDivider { line } => TransportFault::SecondDivider {
                line: line as nat,
            },
            TransportFault::DividerOutsideSearch { line } => TransportFault::DividerOutsideSearch {
                line: line as nat,
            },
            TransportFault::ReplaceEndWithoutHeader { line } => {
                TransportFault::ReplaceEndWithoutHeader { line: line as nat }
            },
            TransportFault::ReplaceEndInSearch { line } => TransportFault::ReplaceEndInSearch {
                line: line as nat,
            },
            TransportFault::ReplaceEndOutsideBlock { line } => {
                TransportFault::ReplaceEndOutsideBlock { line: line as nat }
            },
            TransportFault::UnclosedPatch => TransportFault::UnclosedPatch,
        }
    }
}

/// The path of the patch that is open, for a message.
pub open spec fn open_name(path: Option<Seq<char>>) -> Seq<char> {
    match path {
        Some(p) => p,
        None => "(unknown)"@,
    }
}

/// The texts that a refusal shows in quotes.
pub open spec fn transport_shown(fault: TransportFaultModel) -> (Seq<char>, Seq<char>) {
    match fault {
        TransportFault::NestedFileMarker { path, .. } => (path, ""@),
        TransportFault::ImplausiblePath { path } => (path, ""@),
        TransportFault::UnclosedFile { path } => (path, ""@),
        TransportFault::PatchHeaderInOpenBlock { open, found, .. } => (open_name(open), found),
        _ => (""@, ""@),
    }
}

/// The wording of a refusal.
pub open spec fn transport_message(fault: TransportFaultModel) -> Seq<char> {
    let shown = transport_shown(fault);
    transport_wording(fault, quoted(shown.0), quoted(shown.1))
}

/// The wording of a refusal, given the texts that it shows as they are shown.
pub open spec fn transport_wording(
    fault: TransportFaultModel,
    first: Seq<char>,
    second: Seq<char>,
) -> Seq<char> {
    match fault {
        TransportFault::NestedFileMarker { line, .. } => {
            "encountered a ### FILE: marker at line "@
                + decimal(line)
                + " while the ### FILE: block for "@
                + first
                + " was still open — file content must not contain a line consisting solely of '### FILE:' or '### END FILE'"@
        },
        TransportFault::EmptyPath => {
            "a ### FILE: block declared an empty path"@
        },
        TransportFault::ImplausiblePath { .. } => {
            "a ### FILE: block declared an implausible path: "@
                + first
        },
        TransportFault::StrayEndMarker { line } => {
            "found a stray ### END FILE at line "@
                + decimal(line)
                + " not associated with any open file block — file content must not contain a line consisting solely of '### FILE:' or '### END FILE'"@
        },
        TransportFault::UnclosedFile { .. } => {
            "the ### FILE: block for "@
                + first
                + " was never closed with ### END FILE — the response was cut off. Raise MASON_EDIT_MAX_TOKENS or narrow the editable surface."@
        },
        TransportFault::NoFileBlocks => {
            "no ### FILE: blocks were found in the response"@
        },
        TransportFault::EmptySearch { path } => {
            "patch for "@
                + path
                + " has an empty SEARCH section"@
        },
        TransportFault::SearchNotFound { path } => {
            "patch for "@
                + path
                + " did not match: the SEARCH text is not present in the file"@
        },
        TransportFault::AmbiguousSearch { path, matches } => {
            "patch for "@
                + path
                + " is ambiguous: the SEARCH text matched "@
                + decimal(matches)
                + " times, so the target is unclear. Include more surrounding context to make it unique."@
        },
        TransportFault::OverlappingSearch { path } => {
            "patch for "@
                + path
                + " is ambiguous: the SEARCH text matched at places that overlap, so the target is unclear. Include more surrounding context to make it unique."@
        },
        TransportFault::PatchHeaderInOpenBlock { line, .. } => {
            "line "@
                + decimal(line)
                + ": a new patch header appeared while the block for "@
                + first
                + " was still open — found ### PATCH: "@
                + second
        },
        TransportFault::SearchInOpenBlock { line, section } => {
            "line "@
                + decimal(line)
                + ": found <<<<<<< SEARCH inside an open block (section "@
                + decimal(section)
                + "), expected only at the start of a new block"@
        },
        TransportFault::SecondDivider { line } => {
            "line "@
                + decimal(line)
                + ": found a second ======= in one patch block, each block has exactly one divider"@
        },
        TransportFault::DividerOutsideSearch { line } => {
            "line "@
                + decimal(line)
                + ": found ======= outside of SEARCH section (section 0), expected only after <<<<<<< SEARCH"@
        },
        TransportFault::ReplaceEndWithoutHeader { line } => {
            "line "@
                + decimal(line)
                + ": found >>>>>>> REPLACE without a preceding ### PATCH: line"@
        },
        TransportFault::ReplaceEndInSearch { line } => {
            "line "@
                + decimal(line)
                + ": found >>>>>>> REPLACE while still in SEARCH section, expected ======= before >>>>>>> REPLACE"@
        },
        TransportFault::ReplaceEndOutsideBlock { line } => {
            "line "@
                + decimal(line)
                + ": found >>>>>>> REPLACE outside of any patch block (section 0), no open block to close"@
        },
        TransportFault::UnclosedPatch => {
            "a patch block was never closed with >>>>>>> REPLACE — the response was cut off"@
        },
    }
}

fn open_name_text<'a>(path: &'a Option<String>) -> (out: &'a str)
    ensures
        out@ == open_name(optional_text(*path)),
{
    match path {
        Some(p) => p.as_str(),
        None => "(unknown)",
    }
}

impl TransportFault<String, usize> {
    /// The wording of this refusal.
    pub fn message(&self) -> (out: String)
        ensures
            out@ == transport_message(self@),
    {
        let (first, second) = match self {
            TransportFault::NestedFileMarker { path, .. } => (path.as_str(), ""),
            TransportFault::ImplausiblePath { path } => (path.as_str(), ""),
            TransportFault::UnclosedFile { path } => (path.as_str(), ""),
            TransportFault::PatchHeaderInOpenBlock { open, found, .. } => (
                open_name_text(open),
                found.as_str(),
            ),
            _ => ("", ""),
        };
        self.wording(quoted_text(first).as_str(), quoted_text(second).as_str())
    }

    /// The wording of this refusal, given the texts that it shows as they are
    /// shown.
    pub fn wording(&self, first: &str, second: &str) -> (out: String)
        ensures
            out@ == transport_wording(self@, first@, second@),
    {
        match self {
            TransportFault::NestedFileMarker { line, .. } => {
                String::from_str("encountered a ### FILE: marker at line ")
                    .concat(decimal_text(*line as u64).as_str())
                    .concat(" while the ### FILE: block for ")
                    .concat(first)
                    .concat(" was still open — file content must not contain a line consisting solely of '### FILE:' or '### END FILE'")
            },
            TransportFault::EmptyPath => {
                String::from_str("a ### FILE: block declared an empty path")
            },
            TransportFault::ImplausiblePath { .. } => {
                String::from_str("a ### FILE: block declared an implausible path: ")
                    .concat(first)
            },
            TransportFault::StrayEndMarker { line } => {
                String::from_str("found a stray ### END FILE at line ")
                    .concat(decimal_text(*line as u64).as_str())
                    .concat(" not associated with any open file block — file content must not contain a line consisting solely of '### FILE:' or '### END FILE'")
            },
            TransportFault::UnclosedFile { .. } => {
                String::from_str("the ### FILE: block for ")
                    .concat(first)
                    .concat(" was never closed with ### END FILE — the response was cut off. Raise MASON_EDIT_MAX_TOKENS or narrow the editable surface.")
            },
            TransportFault::NoFileBlocks => {
                String::from_str("no ### FILE: blocks were found in the response")
            },
            TransportFault::EmptySearch { path } => {
                String::from_str("patch for ")
                    .concat(path.as_str())
                    .concat(" has an empty SEARCH section")
            },
            TransportFault::SearchNotFound { path } => {
                String::from_str("patch for ")
                    .concat(path.as_str())
                    .concat(" did not match: the SEARCH text is not present in the file")
            },
            TransportFault::AmbiguousSearch { path, matches } => {
                String::from_str("patch for ")
                    .concat(path.as_str())
                    .concat(" is ambiguous: the SEARCH text matched ")
                    .concat(decimal_text(*matches as u64).as_str())
                    .concat(" times, so the target is unclear. Include more surrounding context to make it unique.")
            },
            TransportFault::OverlappingSearch { path } => {
                String::from_str("patch for ")
                    .concat(path.as_str())
                    .concat(" is ambiguous: the SEARCH text matched at places that overlap, so the target is unclear. Include more surrounding context to make it unique.")
            },
            TransportFault::PatchHeaderInOpenBlock { line, .. } => {
                String::from_str("line ")
                    .concat(decimal_text(*line as u64).as_str())
                    .concat(": a new patch header appeared while the block for ")
                    .concat(first)
                    .concat(" was still open — found ### PATCH: ")
                    .concat(second)
            },
            TransportFault::SearchInOpenBlock { line, section } => {
                String::from_str("line ")
                    .concat(decimal_text(*line as u64).as_str())
                    .concat(": found <<<<<<< SEARCH inside an open block (section ")
                    .concat(decimal_text(*section as u64).as_str())
                    .concat("), expected only at the start of a new block")
            },
            TransportFault::SecondDivider { line } => {
                String::from_str("line ")
                    .concat(decimal_text(*line as u64).as_str())
                    .concat(": found a second ======= in one patch block, each block has exactly one divider")
            },
            TransportFault::DividerOutsideSearch { line } => {
                String::from_str("line ")
                    .concat(decimal_text(*line as u64).as_str())
                    .concat(": found ======= outside of SEARCH section (section 0), expected only after <<<<<<< SEARCH")
            },
            TransportFault::ReplaceEndWithoutHeader { line } => {
                String::from_str("line ")
                    .concat(decimal_text(*line as u64).as_str())
                    .concat(": found >>>>>>> REPLACE without a preceding ### PATCH: line")
            },
            TransportFault::ReplaceEndInSearch { line } => {
                String::from_str("line ")
                    .concat(decimal_text(*line as u64).as_str())
                    .concat(": found >>>>>>> REPLACE while still in SEARCH section, expected ======= before >>>>>>> REPLACE")
            },
            TransportFault::ReplaceEndOutsideBlock { line } => {
                String::from_str("line ")
                    .concat(decimal_text(*line as u64).as_str())
                    .concat(": found >>>>>>> REPLACE outside of any patch block (section 0), no open block to close")
            },
            TransportFault::UnclosedPatch => {
                String::from_str("a patch block was never closed with >>>>>>> REPLACE — the response was cut off")
            },
        }
    }
}

impl FencedEnvelope {
    /// The summary, the reasons, and each file as a pair of path and content.
    /// Every file is a whole file to write.
    pub fn into_edits(self) -> (edits: (String, Vec<String>, Vec<(String, String)>))
        ensures
            edits.0 == self.summary,
            edits.1 == self.rationale,
            edits.2@ == self.files@.map_values(|f: FencedFile| (f.path, f.content)),
    {
        let mut pairs: Vec<(String, String)> = Vec::new();
        for i in 0..self.files.len()
            invariant
                pairs@.len() == i,
                forall|k: int|
                    0 <= k < i ==> pairs@[k] == (self.files@[k].path, self.files@[k].content),
        {
            let file = &self.files[i];
            pairs.push((file.path.clone(), file.content.clone()));
        }
        (self.summary, self.rationale, pairs)
    }
}

// ---------------------------------------------------------------------------
// Inside or outside a block
// ---------------------------------------------------------------------------

/// What a `BlockTracker` knows: the line that closes the block that is open,
/// and whether patches count as blocks.
pub struct TrackerModel {
    pub closing: Option<Seq<char>>,
    pub patches: bool,
}

/// Whether the line whose trimmed text is `mark` lies outside any block body: no
/// block is open, or this line closes the one that is.
pub open spec fn tracker_outside(tracker: TrackerModel, mark: Seq<char>) -> bool {
    tracker.closing is None || tracker.closing == Some(mark)
}

/// What the tracker knows after the line whose trimmed text is `mark`. A block
/// closes only on the line that belongs to the header that opened it.
pub open spec fn tracker_next(tracker: TrackerModel, mark: Seq<char>) -> TrackerModel {
    let closing = match tracker.closing {
        Some(closer) => if mark == closer {
            None
        } else {
            Some(closer)
        },
        None => if FILE_MARKER@.is_prefix_of(mark) {
            Some(END_MARKER@)
        } else if tracker.patches && PATCH_MARKER@.is_prefix_of(mark) {
            Some(REPLACE_END@)
        } else {
            None
        },
    };
    TrackerModel { closing, patches: tracker.patches }
}

/// What the tracker knows after `lines`.
pub open spec fn tracker_after(tracker: TrackerModel, lines: Seq<Seq<char>>) -> TrackerModel
    decreases lines.len(),
{
    if lines.len() == 0 {
        tracker
    } else {
        tracker_next(tracker_after(tracker, lines.drop_last()), trimmed(lines.last()))
    }
}

/// The tracker at the top of a response, for both kinds of block.
pub open spec fn tracker_start() -> TrackerModel {
    TrackerModel { closing: None, patches: true }
}

/// The tracker at the top of a response, for file blocks only.
pub open spec fn file_tracker_start() -> TrackerModel {
    TrackerModel { closing: None, patches: false }
}

/// Tells whether the line being read lies inside the body of a file block or a
/// patch, as opposed to being a header or text at the top level.
pub struct BlockTracker {
    pub closing_marker: Option<&'static str>,
    pub recognize_patch_headers: bool,
}

impl View for BlockTracker {
    type V = TrackerModel;

    open spec fn view(&self) -> TrackerModel {
        TrackerModel {
            closing: match self.closing_marker {
                Some(marker) => Some(marker@),
                None => None,
            },
            patches: self.recognize_patch_headers,
        }
    }
}

impl BlockTracker {
    /// Tracks file blocks and patches.
    pub fn new() -> (tracker: Self)
        ensures
            tracker@ == tracker_start(),
    {
        BlockTracker { closing_marker: None, recognize_patch_headers: true }
    }

    /// Tracks file blocks and takes patches for ordinary text.
    pub fn file_blocks_only() -> (tracker: Self)
        ensures
            tracker@ == file_tracker_start(),
    {
        BlockTracker { closing_marker: None, recognize_patch_headers: false }
    }

    /// Takes the next trimmed line. The answer is `true` where the line lies
    /// outside any block body: a header, a closer, or text at the top level.
    pub fn consume(&mut self, mark: &str) -> (outside: bool)
        ensures
            outside == tracker_outside(old(self)@, mark@),
            final(self)@ == tracker_next(old(self)@, mark@),
    {
        if let Some(closer) = self.closing_marker {
            if same(mark, closer) {
                self.closing_marker = None;
                return true;
            }
            return false;
        }
        if starts_with(mark, FILE_MARKER) {
            self.closing_marker = Some(END_MARKER);
        } else if self.recognize_patch_headers && starts_with(mark, PATCH_MARKER) {
            self.closing_marker = Some(REPLACE_END);
        }
        true
    }
}

// ---------------------------------------------------------------------------
// Summary and reasons
// ---------------------------------------------------------------------------

/// What is known of the summary and the reasons after some lines.
pub struct SummaryState {
    pub tracker: TrackerModel,
    pub summary: Seq<char>,
    pub rationale: Seq<Seq<char>>,
    pub in_rationale: bool,
}

/// Reads the summary and the reasons of a response.
pub struct SummaryMachine;

impl LineMachine for SummaryMachine {
    type State = SummaryState;

    type Fault = ();

    open spec fn step(state: SummaryState, line: Seq<char>, number: nat) -> Result<
        SummaryState,
        (),
    > {
        let mark = trimmed(line);
        let next = SummaryState { tracker: tracker_next(state.tracker, mark), ..state };
        Ok(
            if !tracker_outside(state.tracker, mark) {
                next
            } else if FILE_MARKER@.is_prefix_of(mark) || PATCH_MARKER@.is_prefix_of(mark) {
                SummaryState { in_rationale: false, ..next }
            } else if "SUMMARY:"@.is_prefix_of(mark) {
                SummaryState {
                    summary: trimmed(mark.skip("SUMMARY:"@.len() as int)),
                    in_rationale: false,
                    ..next
                }
            } else if mark == "RATIONALE:"@ {
                SummaryState { in_rationale: true, ..next }
            } else if state.in_rationale && "- "@.is_prefix_of(mark) {
                SummaryState {
                    rationale: state.rationale.push(trimmed(mark.skip("- "@.len() as int))),
                    ..next
                }
            } else {
                next
            },
        )
    }
}

/// What is known at the top of a response.
pub open spec fn summary_start() -> SummaryState {
    SummaryState {
        tracker: tracker_start(),
        summary: Seq::empty(),
        rationale: Seq::empty(),
        in_rationale: false,
    }
}

/// The text after the last `SUMMARY:` at the top level, and the items below
/// `RATIONALE:` at the top level.
pub open spec fn summary_and_rationale(raw: Seq<char>) -> (Seq<char>, Seq<Seq<char>>) {
    let end = read::<SummaryMachine>(split_lines(raw), 0, summary_start())->Ok_0;
    (end.summary, end.rationale)
}

/// The summary and the reasons of a response, whatever blocks it holds.
pub fn parse_summary_and_rationale(raw: &str) -> (out: (String, Vec<String>))
    ensures
        out.0@ == summary_and_rationale(raw@).0,
        texts(out.1@) == summary_and_rationale(raw@).1,
{
    let mut summary = String::new();
    let mut rationale: Vec<String> = Vec::new();
    let mut in_rationale = false;
    let mut tracker = BlockTracker::new();
    let all = split_at_char(raw, '\n');
    let ghost ls = split_lines(raw@);
    proof {
        assert(ls.take(0) == Seq::<Seq<char>>::empty());
        assert(texts(rationale@) == Seq::<Seq<char>>::empty());
    }
    for i in 0..all.len()
        invariant
            texts(all@) == ls,
            read::<SummaryMachine>(ls.take(i as int), 0, summary_start()) == Ok::<SummaryState, ()>(
                SummaryState {
                    tracker: tracker@,
                    summary: summary@,
                    rationale: texts(rationale@),
                    in_rationale,
                },
            ),
    {
        proof {
            lemma_read_next::<SummaryMachine>(ls, 0, summary_start(), i as int);
        }
        assert(all@[i as int]@ == ls[i as int]);
        let mark = trim(all[i].as_str());
        if tracker.consume(mark) {
            if starts_with(mark, FILE_MARKER) || starts_with(mark, PATCH_MARKER) {
                in_rationale = false;
            } else if let Some(rest) = strip_prefix(mark, "SUMMARY:") {
                summary = trim(rest).to_owned();
                in_rationale = false;
            } else if same(mark, "RATIONALE:") {
                in_rationale = true;
            } else if in_rationale {
                if let Some(item) = strip_prefix(mark, "- ") {
                    let ghost before = rationale@;
                    rationale.push(trim(item).to_owned());
                    assert(texts(rationale@) == texts(before).push(trimmed(item@)));
                }
            }
        }
    }
    assert(ls.take(ls.len() as int) == ls);
    (summary, rationale)
}

// ---------------------------------------------------------------------------
// Patch headers
// ---------------------------------------------------------------------------

/// Whether some line of the response is a patch header at the top level.
pub open spec fn has_patch_header(lines: Seq<Seq<char>>) -> bool {
    exists|i: int| #[trigger] patch_header_at(lines, i)
}

/// Whether line `i` is a patch header outside any block.
pub open spec fn patch_header_at(lines: Seq<Seq<char>>, i: int) -> bool {
    &&& 0 <= i < lines.len()
    &&& tracker_outside(tracker_after(tracker_start(), lines.take(i)), trimmed(lines[i]))
    &&& PATCH_MARKER@.is_prefix_of(trimmed(lines[i]))
}

/// Whether the response holds a real patch, as opposed to the text of one
/// quoted inside a file.
pub fn has_top_level_patch_header(raw: &str) -> (answer: bool)
    ensures
        answer == has_patch_header(split_lines(raw@)),
{
    let mut tracker = BlockTracker::new();
    let all = split_at_char(raw, '\n');
    let ghost ls = split_lines(raw@);
    assert(ls.take(0) == Seq::<Seq<char>>::empty());
    for i in 0..all.len()
        invariant
            texts(all@) == ls,
            ls == split_lines(raw@),
            tracker@ == tracker_after(tracker_start(), ls.take(i as int)),
            forall|k: int| k < i ==> !(#[trigger] patch_header_at(ls, k)),
    {
        assert(all@[i as int]@ == ls[i as int]);
        assert(ls.take(i + 1).drop_last() == ls.take(i as int));
        let mark = trim(all[i].as_str());
        let outside = tracker.consume(mark);
        if outside && starts_with(mark, PATCH_MARKER) {
            assert(patch_header_at(ls, i as int));
            return true;
        }
    }
    false
}

// ---------------------------------------------------------------------------
// Whole files
// ---------------------------------------------------------------------------

/// The file block that is open: its path and the lines read so far.
pub struct OpenFile {
    pub path: Seq<char>,
    pub body: Seq<Seq<char>>,
}

/// What is known of the files after some lines.
pub struct FencedState {
    pub files: Seq<FileModel>,
    pub open: Option<OpenFile>,
}

/// Whether `path` can be the path of a file: it has no double quote and at
/// most 200 bytes.
pub open spec fn plausible_path(path: Seq<char>) -> bool {
    !path.contains('"') && byte_count(path) <= 200
}

/// Reads the file blocks of a response.
pub struct FencedMachine;

impl LineMachine for FencedMachine {
    type State = FencedState;

    type Fault = TransportFaultModel;

    open spec fn step(state: FencedState, line: Seq<char>, number: nat) -> Result<
        FencedState,
        TransportFaultModel,
    > {
        let mark = trimmed(line);
        match state.open {
            Some(file) => if mark == END_MARKER@ {
                let whole = FileModel { path: file.path, content: join_lines(file.body) };
                Ok(FencedState { files: state.files.push(whole), open: None })
            } else if FILE_MARKER@.is_prefix_of(mark) {
                Err(TransportFault::NestedFileMarker { line: number, path: file.path })
            } else {
                let longer = OpenFile { path: file.path, body: file.body.push(line) };
                Ok(FencedState { files: state.files, open: Some(longer) })
            },
            None => if FILE_MARKER@.is_prefix_of(mark) {
                let path = trimmed(mark.skip(FILE_MARKER@.len() as int));
                if path.len() == 0 {
                    Err(TransportFault::EmptyPath)
                } else if !plausible_path(path) {
                    Err(TransportFault::ImplausiblePath { path })
                } else {
                    let opened = OpenFile { path, body: Seq::empty() };
                    Ok(FencedState { files: state.files, open: Some(opened) })
                }
            } else if mark == END_MARKER@ {
                Err(TransportFault::StrayEndMarker { line: number })
            } else {
                Ok(state)
            },
        }
    }
}

/// What is known at the top of a response.
pub open spec fn fenced_start() -> FencedState {
    FencedState { files: Seq::empty(), open: None }
}

/// The files of a response, given what is known at its end. A block that is
/// still open means that the response was cut off.
pub open spec fn fenced_end(end: Result<FencedState, TransportFaultModel>) -> Result<
    Seq<FileModel>,
    TransportFaultModel,
> {
    match end {
        Err(fault) => Err(fault),
        Ok(state) => match state.open {
            Some(file) => Err(TransportFault::UnclosedFile { path: file.path }),
            None => if state.files.len() == 0 {
                Err(TransportFault::NoFileBlocks)
            } else {
                Ok(state.files)
            },
        },
    }
}

/// The files of a response, or why it is refused.
pub open spec fn fenced_files(raw: Seq<char>) -> Result<Seq<FileModel>, TransportFaultModel> {
    fenced_end(read::<FencedMachine>(split_lines(raw), 0, fenced_start()))
}

/// What an open block holds, as the loop of `parse_fenced_edits` keeps it.
spec fn open_model(current: Option<(String, Vec<String>)>) -> Option<OpenFile> {
    match current {
        Some((path, body)) => Some(OpenFile { path: path@, body: texts(body@) }),
        None => None,
    }
}

/// Whether a string holds a double quote.
fn has_quote(s: &str) -> (answer: bool)
    ensures
        answer == s@.contains('"'),
{
    let chars = chars_of(s);
    for i in 0..chars.len()
        invariant
            chars@ == s@,
            forall|k: int| 0 <= k < i ==> s@[k] != '"',
    {
        if chars[i] == '"' {
            assert(s@[i as int] == '"');
            return true;
        }
    }
    false
}

/// Reads a response in the fenced format. Everything between a file header and
/// its terminator is the content of the file, as it stands.
pub fn parse_fenced_edits(raw: &str) -> (out: Result<FencedEnvelope, TransportError>)
    ensures
        out is Ok <==> fenced_files(raw@) is Ok,
        out matches Ok(envelope) ==> {
            &&& fenced_files(raw@) == Ok::<Seq<FileModel>, TransportFaultModel>(
                file_models(envelope.files@),
            )
            &&& envelope.summary@ == summary_and_rationale(raw@).0
            &&& texts(envelope.rationale@) == summary_and_rationale(raw@).1
        },
        out matches Err(error) ==> fenced_files(raw@) == Err::<Seq<FileModel>, TransportFaultModel>(
            error@,
        ),
{
    let (summary, rationale) = parse_summary_and_rationale(raw);
    let mut files: Vec<FencedFile> = Vec::new();
    let mut current: Option<(String, Vec<String>)> = None;
    let all = split_at_char(raw, '\n');
    let ghost ls = split_lines(raw@);
    proof {
        assert(ls.take(0) == Seq::<Seq<char>>::empty());
        assert(file_models(files@) == Seq::<FileModel>::empty());
        reveal_strlit("\n");
        assert("\n"@ == seq!['\n']);
    }
    for i in 0..all.len()
        invariant
            texts(all@) == ls,
            ls == split_lines(raw@),
            "\n"@ == seq!['\n'],
            read::<FencedMachine>(ls.take(i as int), 0, fenced_start()) == Ok::<
                FencedState,
                TransportFaultModel,
            >(FencedState { files: file_models(files@), open: open_model(current) }),
    {
        proof {
            lemma_read_next::<FencedMachine>(ls, 0, fenced_start(), i as int);
            if read::<FencedMachine>(ls.take(i + 1), 0, fenced_start()) is Err {
                lemma_read_stops::<FencedMachine>(ls, 0, fenced_start(), i + 1);
            }
        }
        assert(all@[i as int]@ == ls[i as int]);
        let line = all[i].as_str();
        let mark = trim(line);
        match current {
            Some((path, body)) => {
                if same(mark, END_MARKER) {
                    let content = join_texts(body.as_slice(), "\n");
                    let ghost before = files@;
                    let file = FencedFile { path, content };
                    files.push(file);
                    assert(file_models(files@) == file_models(before).push(file@));
                    current = None;
                } else if starts_with(mark, FILE_MARKER) {
                    return Err(TransportFault::NestedFileMarker { line: i + 1, path });
                } else {
                    let mut longer = body;
                    longer.push(line.to_owned());
                    assert(texts(longer@) == texts(body@).push(line@));
                    current = Some((path, longer));
                }
            },
            None => {
                if let Some(rest) = strip_prefix(mark, FILE_MARKER) {
                    let path = trim(rest).to_owned();
                    if path.as_str().is_empty() {
                        return Err(TransportFault::EmptyPath);
                    }
                    if has_quote(path.as_str()) || byte_len(path.as_str()) > 200 {
                        return Err(TransportFault::ImplausiblePath { path });
                    }
                    let body: Vec<String> = Vec::new();
                    assert(texts(body@) == Seq::<Seq<char>>::empty());
                    current = Some((path, body));
                } else if same(mark, END_MARKER) {
                    return Err(TransportFault::StrayEndMarker { line: i + 1 });
                } else {
                    current = None;
                }
            },
        }
    }
    assert(ls.take(ls.len() as int) == ls);
    if let Some((path, _body)) = current {
        return Err(TransportFault::UnclosedFile { path });
    }
    if files.len() == 0 {
        return Err(TransportFault::NoFileBlocks);
    }
    Ok(FencedEnvelope { summary, rationale, files })
}

// ---------------------------------------------------------------------------
// Applying a patch
// ---------------------------------------------------------------------------

/// Whether `pat` stands in `text` at exactly one position.
pub open spec fn occurs_once(text: Seq<char>, pat: Seq<char>) -> bool {
    exists|i: int|
        #[trigger] occurs_at(text, pat, i) && forall|j: int| occurs_at(text, pat, j) ==> j == i
}

/// How often `pat` is met in `text` from position `from` on, going on behind
/// each match.
pub open spec fn match_count(text: Seq<char>, pat: Seq<char>, from: int) -> nat
    decreases text.len() - from,
{
    if pat.len() == 0 || from < 0 || from + pat.len() > text.len() {
        0
    } else if occurs_at(text, pat, from) {
        1 + match_count(text, pat, from + pat.len())
    } else {
        match_count(text, pat, from + 1)
    }
}

/// `text` with the `length` characters from `i` on replaced by `by`.
pub open spec fn replaced(text: Seq<char>, i: int, length: nat, by: Seq<char>) -> Seq<char> {
    text.take(i) + by + text.skip(i + length)
}

/// The file after the patch, or why the patch is refused. The text to search
/// for has to stand in the file at exactly one position.
pub open spec fn patched(original: Seq<char>, block: PatchModel) -> Result<
    Seq<char>,
    TransportFaultModel,
> {
    if block.search.len() == 0 {
        Err(TransportFault::EmptySearch { path: block.path })
    } else if !occurs(original, block.search) {
        Err(TransportFault::SearchNotFound { path: block.path })
    } else if occurs_once(original, block.search) {
        let i = choose|i: int| occurs_at(original, block.search, i);
        Ok(replaced(original, i, block.search.len(), block.replace))
    } else if match_count(original, block.search, 0) >= 2 {
        let matches = match_count(original, block.search, 0);
        Err(TransportFault::AmbiguousSearch { path: block.path, matches })
    } else {
        Err(TransportFault::OverlappingSearch { path: block.path })
    }
}

/// How often `pat` is met in `text`, going on behind each match.
fn count_matches(text: &Vec<char>, pat: &Vec<char>) -> (count: usize)
    requires
        pat.len() > 0,
    ensures
        count == match_count(text@, pat@, 0),
{
    let mut count: usize = 0;
    let mut i: usize = 0;
    while pat.len() <= text.len() - i
        invariant
            pat.len() > 0,
            count <= i <= text.len(),
            match_count(text@, pat@, 0) == count + match_count(text@, pat@, i as int),
        decreases text.len() - i,
    {
        if stands_at(text, pat, i) {
            count = count + 1;
            i = i + pat.len();
        } else {
            i = i + 1;
        }
    }
    count
}

/// Applies a patch. The match is exact and has to be unique: a patch in the
/// wrong place cannot be undone, a refused one is merely asked for again.
pub fn apply_patch_block(original: &str, block: &PatchBlock) -> (out: Result<
    String,
    TransportError,
>)
    ensures
        out is Ok <==> patched(original@, block@) is Ok,
        out matches Ok(text) ==> patched(original@, block@) == Ok::<
            Seq<char>,
            TransportFaultModel,
        >(text@),
        out matches Err(error) ==> patched(original@, block@) == Err::<
            Seq<char>,
            TransportFaultModel,
        >(error@),
{
    if block.search.as_str().is_empty() {
        return Err(TransportFault::EmptySearch { path: block.path.clone() });
    }
    let text = chars_of(original);
    let pat = chars_of(block.search.as_str());
    let at: usize = match find_from(&text, &pat, 0) {
        None => {
            return Err(TransportFault::SearchNotFound { path: block.path.clone() });
        },
        Some(first) => first,
    };
    let matches = count_matches(&text, &pat);
    if matches >= 2 {
        proof {
            lemma_two_matches(text@, pat@);
        }
        return Err(TransportFault::AmbiguousSearch { path: block.path.clone(), matches });
    }
    if let Some(second) = find_from(&text, &pat, at + 1) {
        assert(occurs_at(text@, pat@, second as int));
        return Err(TransportFault::OverlappingSearch { path: block.path.clone() });
    }
    let before = original.substring_char(0, at);
    let after = original.substring_char(at + pat.len(), text.len());
    proof {
        assert(occurs_once(text@, pat@));
        assert(before@ == text@.take(at as int));
        assert(after@ == text@.skip(at + pat@.len()));
    }
    Ok(String::from_str(before).concat(block.replace.as_str()).concat(after))
}

/// A text that is met somewhere from `from` on stands somewhere from `from` on.
pub proof fn lemma_match_stands(text: Seq<char>, pat: Seq<char>, from: int)
    requires
        match_count(text, pat, from) >= 1,
    ensures
        exists|i: int| i >= from && #[trigger] occurs_at(text, pat, i),
    decreases text.len() - from,
{
    if !occurs_at(text, pat, from) {
        lemma_match_stands(text, pat, from + 1);
    }
}

/// A text that is met twice stands at more than one position.
pub proof fn lemma_two_matches(text: Seq<char>, pat: Seq<char>)
    requires
        match_count(text, pat, 0) >= 2,
    ensures
        !occurs_once(text, pat),
{
    lemma_two_matches_from(text, pat, 0);
}

proof fn lemma_two_matches_from(text: Seq<char>, pat: Seq<char>, from: int)
    requires
        match_count(text, pat, from) >= 2,
    ensures
        exists|i: int, j: int|
            i < j && #[trigger] occurs_at(text, pat, i) && #[trigger] occurs_at(text, pat, j),
    decreases text.len() - from,
{
    if occurs_at(text, pat, from) {
        lemma_match_stands(text, pat, from + pat.len());
    } else {
        lemma_two_matches_from(text, pat, from + 1);
    }
}

// ---------------------------------------------------------------------------
// Patches
// ---------------------------------------------------------------------------

/// The part of a patch that is being read.
#[derive(Debug, Clone, Copy, PartialEq, Eq, Structural)]
pub enum PatchSection {
    /// No patch is open.
    Outside,
    /// The text to search for.
    Search,
    /// The text to put in its place.
    Replace,
}

/// What is known of the patches after some lines.
pub struct PatchState {
    pub tracker: TrackerModel,
    pub blocks: Seq<PatchModel>,
    pub path: Option<Seq<char>>,
    pub search: Seq<Seq<char>>,
    pub replace: Seq<Seq<char>>,
    pub section: PatchSection,
}

/// Reads the patches of a response. File blocks are looked for only where no
/// section of a patch is open: inside a section a file header is text of the
/// patch like any other line.
pub struct PatchMachine;

/// What is known after a line that is not the text of a whole file.
pub open spec fn patch_line(
    state: PatchState,
    line: Seq<char>,
    mark: Seq<char>,
    number: nat,
) -> Result<PatchState, TransportFaultModel> {
    if PATCH_MARKER@.is_prefix_of(mark) {
        let found = trimmed(mark.skip(PATCH_MARKER@.len() as int));
        if state.section != PatchSection::Outside {
            Err(TransportFault::PatchHeaderInOpenBlock { line: number, open: state.path, found })
        } else {
            Ok(
                PatchState {
                    path: Some(found),
                    search: Seq::empty(),
                    replace: Seq::empty(),
                    ..state
                },
            )
        }
    } else if mark == SEARCH_START@ {
        match state.section {
            PatchSection::Outside => Ok(PatchState { section: PatchSection::Search, ..state }),
            PatchSection::Search => Err(
                TransportFault::SearchInOpenBlock { line: number, section: 1 },
            ),
            PatchSection::Replace => Err(
                TransportFault::SearchInOpenBlock { line: number, section: 2 },
            ),
        }
    } else if mark == DIVIDER@ {
        match state.section {
            PatchSection::Outside => Err(TransportFault::DividerOutsideSearch { line: number }),
            PatchSection::Search => Ok(PatchState { section: PatchSection::Replace, ..state }),
            PatchSection::Replace => Err(TransportFault::SecondDivider { line: number }),
        }
    } else if mark == REPLACE_END@ {
        match (state.section, state.path) {
            (PatchSection::Outside, _) => Err(
                TransportFault::ReplaceEndOutsideBlock { line: number },
            ),
            (PatchSection::Search, _) => Err(TransportFault::ReplaceEndInSearch { line: number }),
            (PatchSection::Replace, None) => Err(
                TransportFault::ReplaceEndWithoutHeader { line: number },
            ),
            (PatchSection::Replace, Some(path)) => {
                let block = PatchModel {
                    path,
                    search: join_lines(state.search),
                    replace: join_lines(state.replace),
                };
                Ok(
                    PatchState {
                        tracker: state.tracker,
                        blocks: state.blocks.push(block),
                        path: None,
                        search: Seq::empty(),
                        replace: Seq::empty(),
                        section: PatchSection::Outside,
                    },
                )
            },
        }
    } else {
        match state.section {
            PatchSection::Outside => Ok(state),
            PatchSection::Search => Ok(PatchState { search: state.search.push(line), ..state }),
            PatchSection::Replace => Ok(PatchState { replace: state.replace.push(line), ..state }),
        }
    }
}

impl LineMachine for PatchMachine {
    type State = PatchState;

    type Fault = TransportFaultModel;

    open spec fn step(state: PatchState, line: Seq<char>, number: nat) -> Result<
        PatchState,
        TransportFaultModel,
    > {
        let mark = trimmed(line);
        let next = PatchState { tracker: tracker_next(state.tracker, mark), ..state };
        if state.section != PatchSection::Outside {
            patch_line(state, line, mark, number)
        } else if tracker_outside(state.tracker, mark) {
            patch_line(next, line, mark, number)
        } else {
            Ok(next)
        }
    }
}

/// What is known at the top of a response.
pub open spec fn patch_start() -> PatchState {
    PatchState {
        tracker: file_tracker_start(),
        blocks: Seq::empty(),
        path: None,
        search: Seq::empty(),
        replace: Seq::empty(),
        section: PatchSection::Outside,
    }
}

/// The patches of a response, given what is known at its end. A patch that is
/// still open means that the response was cut off.
pub open spec fn patch_end(end: Result<PatchState, TransportFaultModel>) -> Result<
    Seq<PatchModel>,
    TransportFaultModel,
> {
    match end {
        Err(fault) => Err(fault),
        Ok(state) => if state.section != PatchSection::Outside {
            Err(TransportFault::UnclosedPatch)
        } else {
            Ok(state.blocks)
        },
    }
}

/// The patches of a response, or why it is refused.
pub open spec fn patch_blocks(raw: Seq<char>) -> Result<Seq<PatchModel>, TransportFaultModel> {
    patch_end(read::<PatchMachine>(lines_of(raw), 0, patch_start()))
}

/// Reads the patches of a response. Patch markers inside a whole-file block
/// are content of that file, and file markers inside a section of a patch are
/// text of that patch.
pub fn parse_patch_blocks(raw: &str) -> (out: Result<Vec<PatchBlock>, TransportError>)
    ensures
        out is Ok <==> patch_blocks(raw@) is Ok,
        out matches Ok(blocks) ==> patch_blocks(raw@) == Ok::<Seq<PatchModel>, TransportFaultModel>(
            patch_models(blocks@),
        ),
        out matches Err(error) ==> patch_blocks(raw@) == Err::<
            Seq<PatchModel>,
            TransportFaultModel,
        >(error@),
{
    let mut blocks: Vec<PatchBlock> = Vec::new();
    let mut path: Option<String> = None;
    let mut search: Vec<String> = Vec::new();
    let mut replace: Vec<String> = Vec::new();
    let mut section = PatchSection::Outside;
    let mut file_tracker = BlockTracker::file_blocks_only();
    let all = lines(raw);
    let ghost ls = lines_of(raw@);
    proof {
        assert(ls.take(0) == Seq::<Seq<char>>::empty());
        assert(patch_models(blocks@) == Seq::<PatchModel>::empty());
        assert(texts(search@) == Seq::<Seq<char>>::empty());
        assert(texts(replace@) == Seq::<Seq<char>>::empty());
        reveal_strlit("\n");
        assert("\n"@ == seq!['\n']);
    }
    for i in 0..all.len()
        invariant
            texts(all@) == ls,
            ls == lines_of(raw@),
            "\n"@ == seq!['\n'],
            read::<PatchMachine>(ls.take(i as int), 0, patch_start()) == Ok::<
                PatchState,
                TransportFaultModel,
            >(
                PatchState {
                    tracker: file_tracker@,
                    blocks: patch_models(blocks@),
                    path: optional_text(path),
                    search: texts(search@),
                    replace: texts(replace@),
                    section,
                },
            ),
    {
        proof {
            lemma_read_next::<PatchMachine>(ls, 0, patch_start(), i as int);
            if read::<PatchMachine>(ls.take(i + 1), 0, patch_start()) is Err {
                lemma_read_stops::<PatchMachine>(ls, 0, patch_start(), i + 1);
            }
        }
        assert(all@[i as int]@ == ls[i as int]);
        let number: usize = i + 1;
        let line = all[i].as_str();
        let mark = trim(line);
        let in_section = section != PatchSection::Outside;
        if in_section || file_tracker.consume(mark) {
            if let Some(rest) = strip_prefix(mark, PATCH_MARKER) {
                let found = trim(rest).to_owned();
                if section != PatchSection::Outside {
                    return Err(
                        TransportFault::PatchHeaderInOpenBlock { line: number, open: path, found },
                    );
                }
                path = Some(found);
                search = Vec::new();
                replace = Vec::new();
                assert(texts(search@) == Seq::<Seq<char>>::empty());
                assert(texts(replace@) == Seq::<Seq<char>>::empty());
            } else if same(mark, SEARCH_START) {
                match section {
                    PatchSection::Outside => {
                        section = PatchSection::Search;
                    },
                    PatchSection::Search => {
                        return Err(TransportFault::SearchInOpenBlock { line: number, section: 1 });
                    },
                    PatchSection::Replace => {
                        return Err(TransportFault::SearchInOpenBlock { line: number, section: 2 });
                    },
                }
            } else if same(mark, DIVIDER) {
                match section {
                    PatchSection::Outside => {
                        return Err(TransportFault::DividerOutsideSearch { line: number });
                    },
                    PatchSection::Search => {
                        section = PatchSection::Replace;
                    },
                    PatchSection::Replace => {
                        return Err(TransportFault::SecondDivider { line: number });
                    },
                }
            } else if same(mark, REPLACE_END) {
                match section {
                    PatchSection::Outside => {
                        return Err(TransportFault::ReplaceEndOutsideBlock { line: number });
                    },
                    PatchSection::Search => {
                        return Err(TransportFault::ReplaceEndInSearch { line: number });
                    },
                    PatchSection::Replace => match path {
                        None => {
                            return Err(TransportFault::ReplaceEndWithoutHeader { line: number });
                        },
                        Some(current) => {
                            let block = PatchBlock {
                                path: current,
                                search: join_texts(search.as_slice(), "\n"),
                                replace: join_texts(replace.as_slice(), "\n"),
                            };
                            let ghost before = blocks@;
                            blocks.push(block);
                            assert(patch_models(blocks@) == patch_models(before).push(block@));
                            path = None;
                            search = Vec::new();
                            replace = Vec::new();
                            section = PatchSection::Outside;
                            assert(texts(search@) == Seq::<Seq<char>>::empty());
                            assert(texts(replace@) == Seq::<Seq<char>>::empty());
                        },
                    },
                }
            } else {
                match section {
                    PatchSection::Outside => {},
                    PatchSection::Search => {
                        let ghost before = search@;
                        search.push(line.to_owned());
                        assert(texts(search@) == texts(before).push(line@));
                    },
                    PatchSection::Replace => {
                        let ghost before = replace@;
                        replace.push(line.to_owned());
                        assert(texts(replace@) == texts(before).push(line@));
                    },
                }
            }
        }
    }
    assert(ls.take(ls.len() as int) == ls);
    if section != PatchSection::Outside {
        return Err(TransportFault::UnclosedPatch);
    }
    Ok(blocks)
}

} // verus!
