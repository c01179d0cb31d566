//! The wordings that the model and the operator see.

use vstd::prelude::*;

use crate::mason_tools::{
    tool_message, tool_wording, ToolFault, CONTENT_MARKER, END_CONTENT_MARKER, PATH_MARKER,
    TOOL_LOOP_INSTRUCTION, TOOL_MARKER,
};
use crate::mason_transport::{
    transport_message, transport_wording, TransportFault, DIVIDER, END_MARKER,
    FENCED_FORMAT_INSTRUCTION, FILE_MARKER, PATCH_FORMAT_INSTRUCTION, PATCH_MARKER, REPLACE_END,
    SEARCH_START,
};
use crate::numeral::decimal;
use crate::outside::quoted;
use crate::tool_loop::{loop_message, loop_wording, LoopFault};

verus! {

/// A response is refused in these words, with the paths as they are shown.
pub proof fn law_transport_wordings(
    line: nat,
    path: Seq<char>,
    matches: nat,
    maybe_open: Option<Seq<char>>,
    found: Seq<char>,
    section: nat,
    first: Seq<char>,
    second: Seq<char>,
)
    ensures
        transport_wording(TransportFault::NestedFileMarker { line, path }, first, second)
            == "encountered a ### FILE: marker at line "@ + decimal(line)
            + " while the ### FILE: block for "@ + first
            + " was still open — file content must not contain a line consisting solely of '### FILE:' or '### END FILE'"@,
        transport_message(TransportFault::NestedFileMarker { line, path })
            == transport_wording(TransportFault::NestedFileMarker { line, path }, quoted(path), second),
        transport_wording(TransportFault::EmptyPath, first, second)
            == "a ### FILE: block declared an empty path"@,
        transport_message(TransportFault::EmptyPath)
            == transport_wording(TransportFault::EmptyPath, first, second),
        transport_wording(TransportFault::ImplausiblePath { path }, first, second)
            == "a ### FILE: block declared an implausible path: "@ + first,
        transport_message(TransportFault::ImplausiblePath { path })
            == transport_wording(TransportFault::ImplausiblePath { path }, quoted(path), second),
        transport_wording(TransportFault::StrayEndMarker { line }, first, second)
            == "found a stray ### END FILE at line "@ + decimal(line)
            + " not associated with any open file block — file content must not contain a line consisting solely of '### FILE:' or '### END FILE'"@,
        transport_message(TransportFault::StrayEndMarker { line })
            == transport_wording(TransportFault::StrayEndMarker { line }, first, second),
        transport_wording(TransportFault::UnclosedFile { path }, first, second)
            == "the ### FILE: block for "@ + first
            + " was never closed with ### END FILE — the response was cut off. Raise MASON_EDIT_MAX_TOKENS or narrow the editable surface."@,
        transport_message(TransportFault::UnclosedFile { path })
            == transport_wording(TransportFault::UnclosedFile { path }, quoted(path), second),
        transport_wording(TransportFault::NoFileBlocks, first, second)
            == "no ### FILE: blocks were found in the response"@,
        transport_message(TransportFault::NoFileBlocks)
            == transport_wording(TransportFault::NoFileBlocks, first, second),
        transport_wording(TransportFault::EmptySearch { path }, first, second) == "patch for "@
            + path + " has an empty SEARCH section"@,
        transport_message(TransportFault::EmptySearch { path })
            == transport_wording(TransportFault::EmptySearch { path }, first, second),
        transport_wording(TransportFault::SearchNotFound { path }, first, second) == "patch for "@
            + path + " did not match: the SEARCH text is not present in the file"@,
        transport_message(TransportFault::SearchNotFound { path })
            == transport_wording(TransportFault::SearchNotFound { path }, first, second),
        transport_wording(TransportFault::AmbiguousSearch { path, matches }, first, second)
            == "patch for "@ + path + " is ambiguous: the SEARCH text matched "@
            + decimal(matches)
            + " times, so the target is unclear. Include more surrounding context to make it unique."@,
        transport_message(TransportFault::AmbiguousSearch { path, matches })
            == transport_wording(TransportFault::AmbiguousSearch { path, matches }, first, second),
        transport_wording(TransportFault::OverlappingSearch { path }, first, second)
            == "patch for "@ + path
            + " is ambiguous: the SEARCH text matched at places that overlap, so the target is unclear. Include more surrounding context to make it unique."@,
        transport_message(TransportFault::OverlappingSearch { path })
            == transport_wording(TransportFault::OverlappingSearch { path }, first, second),
        transport_wording(TransportFault::PatchHeaderInOpenBlock { line, open: maybe_open, found }, first, second)
            == "line "@ + decimal(line) + ": a new patch header appeared while the block for "@
            + first + " was still open — found ### PATCH: "@ + second,
        transport_message(TransportFault::PatchHeaderInOpenBlock { line, open: Some(path), found })
            == transport_wording(TransportFault::PatchHeaderInOpenBlock { line, open: Some(path), found }, quoted(path), quoted(found)),
        transport_message(TransportFault::PatchHeaderInOpenBlock { line, open: None, found })
            == transport_wording(TransportFault::PatchHeaderInOpenBlock { line, open: None, found }, quoted("(unknown)"@), quoted(found)),
        transport_wording(TransportFault::SearchInOpenBlock { line, section }, first, second)
            == "line "@ + decimal(line) + ": found <<<<<<< SEARCH inside an open block (section "@
            + decimal(section) + "), expected only at the start of a new block"@,
        transport_message(TransportFault::SearchInOpenBlock { line, section })
            == transport_wording(TransportFault::SearchInOpenBlock { line, section }, first, second),
        transport_wording(TransportFault::SecondDivider { line }, first, second) == "line "@
            + decimal(line)
            + ": found a second ======= in one patch block, each block has exactly one divider"@,
        transport_message(TransportFault::SecondDivider { line })
            == transport_wording(TransportFault::SecondDivider { line }, first, second),
        transport_wording(TransportFault::DividerOutsideSearch { line }, first, second)
            == "line "@ + decimal(line)
            + ": found ======= outside of SEARCH section (section 0), expected only after <<<<<<< SEARCH"@,
        transport_message(TransportFault::DividerOutsideSearch { line })
            == transport_wording(TransportFault::DividerOutsideSearch { line }, first, second),
        transport_wording(TransportFault::ReplaceEndWithoutHeader { line }, first, second)
            == "line "@ + decimal(line)
            + ": found >>>>>>> REPLACE without a preceding ### PATCH: line"@,
        transport_message(TransportFault::ReplaceEndWithoutHeader { line })
            == transport_wording(TransportFault::ReplaceEndWithoutHeader { line }, first, second),
        transport_wording(TransportFault::ReplaceEndInSearch { line }, first, second) == "line "@
            + decimal(line)
            + ": found >>>>>>> REPLACE while still in SEARCH section, expected ======= before >>>>>>> REPLACE"@,
        transport_message(TransportFault::ReplaceEndInSearch { line })
            == transport_wording(TransportFault::ReplaceEndInSearch { line }, first, second),
        transport_wording(TransportFault::ReplaceEndOutsideBlock { line }, first, second)
            == "line "@ + decimal(line)
            + ": found >>>>>>> REPLACE outside of any patch block (section 0), no open block to close"@,
        transport_message(TransportFault::ReplaceEndOutsideBlock { line })
            == transport_wording(TransportFault::ReplaceEndOutsideBlock { line }, first, second),
        transport_wording(TransportFault::UnclosedPatch, first, second)
            == "a patch block was never closed with >>>>>>> REPLACE — the response was cut off"@,
        transport_message(TransportFault::UnclosedPatch)
            == transport_wording(TransportFault::UnclosedPatch, first, second),
{
}

/// A message is refused in these words, with paths and names as they are shown.
pub proof fn law_tool_wordings(
    line: nat,
    kind: Seq<char>,
    length: nat,
    maybe_path: Option<Seq<char>>,
    path: Seq<char>,
    shown: Seq<char>,
)
    ensures
        tool_wording(ToolFault::HeaderInContent { line }, shown) == "line "@ + decimal(line)
            + ": a '### TOOL:' header appeared while the '### CONTENT' block was still open — close it with '### END CONTENT' first. File content may not contain a line starting with '### TOOL:'."@,
        tool_message(ToolFault::HeaderInContent { line })
            == tool_wording(ToolFault::HeaderInContent { line }, shown),
        tool_wording(ToolFault::UnnamedTool { line }, shown) == "line "@ + decimal(line)
            + ": '### TOOL:' header named no tool"@,
        tool_message(ToolFault::UnnamedTool { line })
            == tool_wording(ToolFault::UnnamedTool { line }, shown),
        tool_wording(ToolFault::SecondPath { line, kind }, shown) == "line "@ + decimal(line)
            + ": '"@ + kind + "' tool call declared a second path — one call, one path"@,
        tool_message(ToolFault::SecondPath { line, kind })
            == tool_wording(ToolFault::SecondPath { line, kind }, shown),
        tool_wording(ToolFault::EmptyPath { line, kind }, shown) == "line "@ + decimal(line)
            + ": '"@ + kind + "' tool call declared an empty path"@,
        tool_message(ToolFault::EmptyPath { line, kind })
            == tool_wording(ToolFault::EmptyPath { line, kind }, shown),
        tool_wording(ToolFault::LongPath { line, kind, length }, shown) == "line "@
            + decimal(line) + ": '"@ + kind + "' tool call declared an implausible "@
            + decimal(length) + " character path"@,
        tool_message(ToolFault::LongPath { line, kind, length })
            == tool_wording(ToolFault::LongPath { line, kind, length }, shown),
        tool_wording(ToolFault::ContentOutsideCall { line }, shown) == "line "@ + decimal(line)
            + ": '### CONTENT' appeared outside any tool call — a content block belongs to a '### TOOL: write_file' header."@,
        tool_message(ToolFault::ContentOutsideCall { line })
            == tool_wording(ToolFault::ContentOutsideCall { line }, shown),
        tool_wording(ToolFault::SecondContent { line, kind }, shown) == "line "@ + decimal(line)
            + ": '"@ + kind + "' tool call opened a second '### CONTENT' block"@,
        tool_message(ToolFault::SecondContent { line, kind })
            == tool_wording(ToolFault::SecondContent { line, kind }, shown),
        tool_wording(ToolFault::StrayEndContent { line }, shown) == "line "@ + decimal(line)
            + ": stray '### END CONTENT' with no open content block — file content may not contain a line consisting solely of '### END CONTENT'."@,
        tool_message(ToolFault::StrayEndContent { line })
            == tool_wording(ToolFault::StrayEndContent { line }, shown),
        tool_wording(ToolFault::UnclosedContent { path: maybe_path }, shown)
            == "the '### CONTENT' block for "@ + shown
            + " was never closed with '### END CONTENT' — the response was cut off, so the file content is incomplete. Raise the token budget or write a smaller file."@,
        tool_message(ToolFault::UnclosedContent { path: Some(path) })
            == tool_wording(ToolFault::UnclosedContent { path: Some(path) }, quoted(path)),
        tool_message(ToolFault::UnclosedContent { path: None })
            == tool_wording(ToolFault::UnclosedContent { path: None }, quoted("<unknown>"@)),
        tool_wording(ToolFault::MissingPath { line, kind }, shown) == "line "@ + decimal(line)
            + ": '"@ + kind + "' tool call is missing its 'path:' line"@,
        tool_message(ToolFault::MissingPath { line, kind })
            == tool_wording(ToolFault::MissingPath { line, kind }, shown),
        tool_wording(ToolFault::ContentNotAccepted { line, kind }, shown) == "line "@
            + decimal(line) + ": '"@ + kind
            + "' tool call carried a '### CONTENT' block, which only '### TOOL: write_file' accepts — refusing rather than guessing which tool was meant."@,
        tool_message(ToolFault::ContentNotAccepted { line, kind })
            == tool_wording(ToolFault::ContentNotAccepted { line, kind }, shown),
        tool_wording(ToolFault::MissingContent { line, path }, shown) == "line "@ + decimal(line)
            + ": 'write_file' tool call for "@ + shown
            + " has no '### CONTENT' block, so there is nothing to write. Emit the complete file contents between '### CONTENT' and '### END CONTENT'."@,
        tool_message(ToolFault::MissingContent { line, path })
            == tool_wording(ToolFault::MissingContent { line, path }, quoted(path)),
        tool_wording(ToolFault::UnknownTool { line, kind }, shown) == "line "@ + decimal(line)
            + ": unknown tool "@ + shown
            + " — the only tools are read_file, list_dir and write_file. Refusing rather than ignoring the call, since ignoring it would look exactly like the model finishing."@,
        tool_message(ToolFault::UnknownTool { line, kind })
            == tool_wording(ToolFault::UnknownTool { line, kind }, quoted(kind)),
{
}

/// A run ends without writes in these words, with the path as it is shown.
pub proof fn law_loop_wordings(
    tool: Seq<char>,
    path: Seq<char>,
    turns: nat,
    problem: Seq<char>,
    shown: Seq<char>,
)
    ensures
        loop_wording(LoopFault::AbsolutePath { tool, path }, shown) == "Mason's '"@ + tool
            + "' tool call uses the absolute path "@ + shown
            + ". Tool paths must be relative to the staged workspace root."@,
        loop_message(LoopFault::AbsolutePath { tool, path })
            == loop_wording(LoopFault::AbsolutePath { tool, path }, quoted(path)),
        loop_wording(LoopFault::OutsideWorkspace { tool, path }, shown) == "Mason's '"@ + tool
            + "' tool call for "@ + shown
            + " does not resolve inside the staged workspace: the path leads out of the workspace root"@,
        loop_message(LoopFault::OutsideWorkspace { tool, path })
            == loop_wording(LoopFault::OutsideWorkspace { tool, path }, quoted(path)),
        loop_wording(LoopFault::WorkspaceRoot { path }, shown) == "Mason's write_file call for "@
            + shown + " resolves to the workspace root itself, which is a directory, not a file."@,
        loop_message(LoopFault::WorkspaceRoot { path })
            == loop_wording(LoopFault::WorkspaceRoot { path }, quoted(path)),
        loop_wording(LoopFault::GatewayRefused { path }, shown)
            == "the invocation gateway refused Mason's tool write to "@ + shown
            + ". No edits were returned."@,
        loop_message(LoopFault::GatewayRefused { path })
            == loop_wording(LoopFault::GatewayRefused { path }, quoted(path)),
        loop_wording(LoopFault::TurnsUsedUp { turns, problem: Some(problem) }, shown)
            == "Mason used all "@ + decimal(turns)
            + " tool turns without settling on a final set of writes. The last turn was rejected: "@
            + problem,
        loop_message(LoopFault::TurnsUsedUp { turns, problem: Some(problem) })
            == loop_wording(LoopFault::TurnsUsedUp { turns, problem: Some(problem) }, shown),
        loop_wording(LoopFault::TurnsUsedUp { turns, problem: None }, shown) == "Mason used all "@
            + decimal(turns)
            + " tool turns without settling on a final set of writes — it was still calling tools when the budget ran out. Raise the turn budget or narrow the spec."@,
        loop_message(LoopFault::TurnsUsedUp { turns, problem: None })
            == loop_wording(LoopFault::TurnsUsedUp { turns, problem: None }, shown),
{
}

/// The markers are these, and the model is told of them in these words.
pub proof fn law_markers_and_instructions()
    ensures
        FENCED_FORMAT_INSTRUCTION@ == "\
Respond in this exact plain-text format. Do NOT use JSON. Do NOT use markdown code fences.

SUMMARY: <one line describing the change>
RATIONALE:
- <one reason per line>

Then, for every file you are writing, a block of exactly this shape:

### FILE: <relative/path/from/the/workspace/root>
<the complete contents of the file, written literally>
### END FILE

Write file contents exactly as they should appear on disk. Do not escape \
quotes, backslashes or newlines. Do not wrap contents in backticks. Emit one \
block per file, and nothing after the final ### END FILE. Important: file content \
must not contain any line that starts with '### FILE:' — the parser cannot \
distinguish such a line from a real file header. Also, no line of content may \
consist solely of '### END FILE' — the parser uses that exact phrase to mark block ends."@,
        PATCH_FORMAT_INSTRUCTION@ == "\
When changing an existing file, emit a patch rather than the whole file:

### PATCH: <relative/path>
<<<<<<< SEARCH
<text to find, copied exactly from the current file>
=======
<text to put in its place>
>>>>>>> REPLACE

The SEARCH text must appear exactly once in the file, copied character for \
character including indentation. Use a whole ### FILE: block instead when \
creating a new file.

IMPORTANT: The SEARCH and REPLACE sections must not contain lines that consist \
solely of '<<<<<<< SEARCH', '=======', or '>>>>>>> REPLACE', nor may they start \
with '### PATCH:' — the parser cannot distinguish such lines from real delimiters. \
If a file contains these lines, use a whole ### FILE: block instead of a patch.

IMPORTANT: The format cannot express a trailing newline in the REPLACE section. \
To delete a line, include an adjacent line as context in both SEARCH and REPLACE. \
For example, to delete 'line 2' from a three-line file, search for 'line 1\\nline 2' \
and replace with 'line 1' — do not search for just 'line 2' and replace with empty, \
which would leave a blank line."@,
        FILE_MARKER@ == "### FILE:"@,
        END_MARKER@ == "### END FILE"@,
        PATCH_MARKER@ == "### PATCH:"@,
        SEARCH_START@ == "<<<<<<< SEARCH"@,
        DIVIDER@ == "======="@,
        REPLACE_END@ == ">>>>>>> REPLACE"@,
        TOOL_MARKER@ == "### TOOL:"@,
        CONTENT_MARKER@ == "### CONTENT"@,
        END_CONTENT_MARKER@ == "### END CONTENT"@,
        PATH_MARKER@ == "path:"@,
        TOOL_LOOP_INSTRUCTION@ == "\
You are working in a tool loop. You may inspect the workspace before deciding \
what to write, one message at a time.

To inspect a file:

### TOOL: read_file
path: <relative/path/from/the/workspace/root>

To list a directory:

### TOOL: list_dir
path: <relative/path/from/the/workspace/root>

To write a file (this is how you make every change — there is no other way):

### TOOL: write_file
path: <relative/path/from/the/workspace/root>
### CONTENT
<the complete contents of the file, written literally>
### END CONTENT

Rules:
- Paths are always relative to the workspace root. Absolute paths and '..' are \
refused outright and end the run.
- read_file and list_dir can reach any file in the workspace, not only the ones \
you may edit. Read what you need to understand the change; do not go looking \
through unrelated files.
- You may emit more than one tool call in a single message; each is executed in \
order and every result is returned to you.
- write_file replaces the whole file. Include the complete contents, exactly as \
they should appear on disk. Do not escape quotes, backslashes or newlines, and \
do not wrap contents in backticks.
- File content must not contain any line whose only non-whitespace text is \
'### END CONTENT', and must not contain a line whose first non-whitespace text \
is '### TOOL:'. Indenting such a line does NOT make it safe: the parser trims \
each line before comparing it, so an indented '### END CONTENT' still ends your \
write and everything after it is lost. If the file you are writing genuinely \
needs one of those lines, say so instead of writing the file.
- Markers are matched exactly: three hashes, uppercase, spelled as shown. \
'#### TOOL:' or '### Tool:' are not tool calls, and a message containing one is \
rejected rather than guessed at.
- Do NOT use '### FILE:' or '### PATCH:' blocks, and do NOT send a JSON edit \
proposal, in this mode. None of them are read here, and a message containing \
one is rejected.
- When you have written everything the spec requires, reply with a short summary \
and no tool calls at all. That ends the loop."@,
{
}

} // verus!
