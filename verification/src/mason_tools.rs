//! The tool calls that a model makes in plain text, and what is read from its
//! messages.
//!
//! Nothing that the model wrote is skipped in silence: a message that cannot be
//! read is refused with the place and the reason.

use vstd::prelude::*;
use vstd::string::*;

use crate::lines::{
    join_lines, join_texts, lemma_read_next, lemma_read_stops, read, split_at_char, split_lines,
    LineMachine,
};
use crate::numeral::{decimal, decimal_text};
use crate::outside::{quoted, quoted_text};
use crate::text::{
    byte_count, byte_len, optional_text, same, starts_with, strip_prefix, texts, trim, trimmed,
};

verus! {

/// Opens a tool call; the name of the tool follows on the same line.
pub const TOOL_MARKER: &'static str = "### TOOL:";

/// Opens the content of a write.
pub const CONTENT_MARKER: &'static str = "### CONTENT";

/// Closes the content of a write.
pub const END_CONTENT_MARKER: &'static str = "### END CONTENT";

/// Gives the path of a call; the path follows on the same line.
pub const PATH_MARKER: &'static str = "path:";

/// Wording handed to the model. It stands next to the parser so that the two
/// describe the same format.
pub const TOOL_LOOP_INSTRUCTION: &'static str = "\
You are working in a tool loop. You may inspect the workspace before deciding \
what to write, one message at a time.

To inspect a file:

### TOOL: read_file
path: <relative/path/from/the/workspace/root>

To list a directory:

### TOOL: list_dir
path: <relative/path/from/the/workspace/root>

To write a file (this is how you make every change — there is no other way):

### TOOL: write_file
path: <relative/path/from/the/workspace/root>
### CONTENT
<the complete contents of the file, written literally>
### END CONTENT

Rules:
- Paths are always relative to the workspace root. Absolute paths and '..' are \
refused outright and end the run.
- read_file and list_dir can reach any file in the workspace, not only the ones \
you may edit. Read what you need to understand the change; do not go looking \
through unrelated files.
- You may emit more than one tool call in a single message; each is executed in \
order and every result is returned to you.
- write_file replaces the whole file. Include the complete contents, exactly as \
they should appear on disk. Do not escape quotes, backslashes or newlines, and \
do not wrap contents in backticks.
- File content must not contain any line whose only non-whitespace text is \
'### END CONTENT', and must not contain a line whose first non-whitespace text \
is '### TOOL:'. Indenting such a line does NOT make it safe: the parser trims \
each line before comparing it, so an indented '### END CONTENT' still ends your \
write and everything after it is lost. If the file you are writing genuinely \
needs one of those lines, say so instead of writing the file.
- Markers are matched exactly: three hashes, uppercase, spelled as shown. \
'#### TOOL:' or '### Tool:' are not tool calls, and a message containing one is \
rejected rather than guessed at.
- Do NOT use '### FILE:' or '### PATCH:' blocks, and do NOT send a JSON edit \
proposal, in this mode. None of them are read here, and a message containing \
one is rejected.
- When you have written everything the spec requires, reply with a short summary \
and no tool calls at all. That ends the loop.";

// ---------------------------------------------------------------------------
// Tool calls
// ---------------------------------------------------------------------------

/// What the model may ask for in its workspace. A write is a request: it is
/// recorded and handed back, not performed.
#[derive(Debug, Clone, PartialEq, Eq)]
pub enum MasonTool {
    ReadFile { path: String },
    ListDir { path: String },
    WriteFile { path: String, content: String },
}

/// What a `MasonTool` holds.
pub enum ToolModel {
    ReadFile { path: Seq<char> },
    ListDir { path: Seq<char> },
    WriteFile { path: Seq<char>, content: Seq<char> },
}

impl View for MasonTool {
    type V = ToolModel;

    open spec fn view(&self) -> ToolModel {
        match *self {
            MasonTool::ReadFile { path } => ToolModel::ReadFile { path: path@ },
            MasonTool::ListDir { path } => ToolModel::ListDir { path: path@ },
            MasonTool::WriteFile { path, content } => ToolModel::WriteFile {
                path: path@,
                content: content@,
            },
        }
    }
}

/// What a list of calls holds.
pub open spec fn tool_models(calls: Seq<MasonTool>) -> Seq<ToolModel> {
    calls.map_values(|t: MasonTool| t@)
}

/// The name of a tool, as the model writes it.
pub open spec fn tool_name(tool: ToolModel) -> Seq<char> {
    match tool {
        ToolModel::ReadFile { .. } => "read_file"@,
        ToolModel::ListDir { .. } => "list_dir"@,
        ToolModel::WriteFile { .. } => "write_file"@,
    }
}

/// The path of a call, as the model wrote it.
pub open spec fn tool_path(tool: ToolModel) -> Seq<char> {
    match tool {
        ToolModel::ReadFile { path } => path,
        ToolModel::ListDir { path } => path,
        ToolModel::WriteFile { path, .. } => path,
    }
}

impl MasonTool {
    /// The name of the tool, as the model writes it.
    pub fn name(&self) -> (out: &'static str)
        ensures
            out@ == tool_name(self@),
    {
        match self {
            MasonTool::ReadFile { .. } => "read_file",
            MasonTool::ListDir { .. } => "list_dir",
            MasonTool::WriteFile { .. } => "write_file",
        }
    }

    /// The path of the call, as the model wrote it.
    pub fn path(&self) -> (out: &str)
        ensures
            out@ == tool_path(self@),
    {
        match self {
            MasonTool::ReadFile { path } => path.as_str(),
            MasonTool::ListDir { path } => path.as_str(),
            MasonTool::WriteFile { path, .. } => path.as_str(),
        }
    }
}

// ---------------------------------------------------------------------------
// Refusals
// ---------------------------------------------------------------------------

/// Why a message is refused. `T` is the type of text, `N` that of line numbers
/// and lengths.
#[derive(Debug, Clone, PartialEq, Eq)]
pub enum ToolFault<T, N> {
    /// A tool header inside an open content block.
    HeaderInContent { line: N },
    /// A tool header without a name.
    UnnamedTool { line: N },
    /// A second path for one call.
    SecondPath { line: N, kind: T },
    /// A path line without a path.
    EmptyPath { line: N, kind: T },
    /// A path of more than 200 bytes.
    LongPath { line: N, kind: T, length: N },
    /// A content block that belongs to no call.
    ContentOutsideCall { line: N },
    /// A second content block for one call.
    SecondContent { line: N, kind: T },
    /// The end of a content block where none is open.
    StrayEndContent { line: N },
    /// The message ended inside a content block.
    UnclosedContent { path: Option<T> },
    /// A call without a path.
    MissingPath { line: N, kind: T },
    /// A content block on a call that takes none.
    ContentNotAccepted { line: N, kind: T },
    /// A write without a content block.
    MissingContent { line: N, path: T },
    /// A call of a tool that does not exist.
    UnknownTool { line: N, kind: T },
}

/// Why a message is refused.
pub type ToolError = ToolFault<String, usize>;

/// What a `ToolError` holds.
pub type ToolFaultModel = ToolFault<Seq<char>, nat>;

impl View for ToolFault<String, usize> {
    type V = ToolFaultModel;

    open spec fn view(&self) -> ToolFaultModel {
        match *self {
            ToolFault::HeaderInContent { line } => ToolFault::HeaderInContent { line: line as nat },
            ToolFault::UnnamedTool { line } => ToolFault::UnnamedTool { line: line as nat },
            ToolFault::SecondPath { line, kind } => ToolFault::SecondPath {
                line: line as nat,
                kind: kind@,
            },
            ToolFault::EmptyPath { line, kind } => ToolFault::EmptyPath {
                line: line as nat,
                kind: kind@,
            },
            ToolFault::LongPath { line, kind, length } => ToolFault::LongPath {
                line: line as nat,
                kind: kind@,
                length: length as nat,
            },
            ToolFault::ContentOutsideCall { line } => ToolFault::ContentOutsideCall {
                line: line as nat,
            },
            ToolFault::SecondContent { line, kind } => ToolFault::SecondContent {
                line: line as nat,
                kind: kind@,
            },
            ToolFault::StrayEndContent { line } => ToolFault::StrayEndContent { line: line as nat },
            ToolFault::UnclosedContent { path } => ToolFault::UnclosedContent {
                path: optional_text(path),
            },
            ToolFault::MissingPath { line, kind } => ToolFault::MissingPath {
                line: line as nat,
                kind: kind@,
            },
            ToolFault::ContentNotAccepted { line, kind } => ToolFault::ContentNotAccepted {
                line: line as nat,
                kind: kind@,
            },
            ToolFault::MissingContent { line, path } => ToolFault::MissingContent {
                line: line as nat,
                path: path@,
            },
            ToolFault::UnknownTool { line, kind } => ToolFault::UnknownTool {
                line: line as nat,
                kind: kind@,
            },
        }
    }
}

/// A path for a message.
pub open spec fn named_or_unknown(path: Option<Seq<char>>) -> Seq<char> {
    match path {
        Some(p) => p,
        None => "<unknown>"@,
    }
}

/// The text that a refusal shows in quotes.
pub open spec fn tool_shown(fault: ToolFaultModel) -> Seq<char> {
    match fault {
        ToolFault::UnclosedContent { path } => named_or_unknown(path),
        ToolFault::MissingContent { path, .. } => path,
        ToolFault::UnknownTool { kind, .. } => kind,
        _ => ""@,
    }
}

/// The wording of a refusal.
pub open spec fn tool_message(fault: ToolFaultModel) -> Seq<char> {
    tool_wording(fault, quoted(tool_shown(fault)))
}

/// The wording of a refusal, given the text that it shows as it is shown.
pub open spec fn tool_wording(fault: ToolFaultModel, shown: Seq<char>) -> Seq<char> {
    match fault {
        ToolFault::HeaderInContent { line } => {
            "line "@
                + decimal(line)
                + ": a '### TOOL:' header appeared while the '### CONTENT' block was still open — close it with '### END CONTENT' first. File content may not contain a line starting with '### TOOL:'."@
        },
        ToolFault::UnnamedTool { line } => {
            "line "@
                + decimal(line)
                + ": '### TOOL:' header named no tool"@
        },
        ToolFault::SecondPath { line, kind } => {
            "line "@
                + decimal(line)
                + ": '"@
                + kind
                + "' tool call declared a second path — one call, one path"@
        },
        ToolFault::EmptyPath { line, kind } => {
            "line "@
                + decimal(line)
                + ": '"@
                + kind
                + "' tool call declared an empty path"@
        },
        ToolFault::LongPath { line, kind, length } => {
            "line "@
                + decimal(line)
                + ": '"@
                + kind
                + "' tool call declared an implausible "@
                + decimal(length)
                + " character path"@
        },
        ToolFault::ContentOutsideCall { line } => {
            "line "@
                + decimal(line)
                + ": '### CONTENT' appeared outside any tool call — a content block belongs to a '### TOOL: write_file' header."@
        },
        ToolFault::SecondContent { line, kind } => {
            "line "@
                + decimal(line)
                + ": '"@
                + kind
                + "' tool call opened a second '### CONTENT' block"@
        },
        ToolFault::StrayEndContent { line } => {
            "line "@
                + decimal(line)
                + ": stray '### END CONTENT' with no open content block — file content may not contain a line consisting solely of '### END CONTENT'."@
        },
        ToolFault::UnclosedContent { .. } => {
            "the '### CONTENT' block for "@
                + shown
                + " was never closed with '### END CONTENT' — the response was cut off, so the file content is incomplete. Raise the token budget or write a smaller file."@
        },
        ToolFault::MissingPath { line, kind } => {
            "line "@
                + decimal(line)
                + ": '"@
                + kind
                + "' tool call is missing its 'path:' line"@
        },
        ToolFault::ContentNotAccepted { line, kind } => {
            "line "@
                + decimal(line)
                + ": '"@
                + kind
                + "' tool call carried a '### CONTENT' block, which only '### TOOL: write_file' accepts — refusing rather than guessing which tool was meant."@
        },
        ToolFault::MissingContent { line, .. } => {
            "line "@
                + decimal(line)
                + ": 'write_file' tool call for "@
                + shown
                + " has no '### CONTENT' block, so there is nothing to write. Emit the complete file contents between '### CONTENT' and '### END CONTENT'."@
        },
        ToolFault::UnknownTool { line, .. } => {
            "line "@
                + decimal(line)
                + ": unknown tool "@
                + shown
                + " — the only tools are read_file, list_dir and write_file. Refusing rather than ignoring the call, since ignoring it would look exactly like the model finishing."@
        },
    }
}

fn name_or_unknown<'a>(path: &'a Option<String>) -> (out: &'a str)
    ensures
        out@ == named_or_unknown(optional_text(*path)),
{
    match path {
        Some(p) => p.as_str(),
        None => "<unknown>",
    }
}

impl ToolFault<String, usize> {
    /// The wording of this refusal.
    pub fn message(&self) -> (out: String)
        ensures
            out@ == tool_message(self@),
    {
        let shown = match self {
            ToolFault::UnclosedContent { path } => name_or_unknown(path),
            ToolFault::MissingContent { path, .. } => path.as_str(),
            ToolFault::UnknownTool { kind, .. } => kind.as_str(),
            _ => "",
        };
        self.wording(quoted_text(shown).as_str())
    }

    /// The wording of this refusal, given the text that it shows as it is shown.
    pub fn wording(&self, shown: &str) -> (out: String)
        ensures
            out@ == tool_wording(self@, shown@),
    {
        match self {
            ToolFault::HeaderInContent { line } => {
                String::from_str("line ")
                    .concat(decimal_text(*line as u64).as_str())
                    .concat(": a '### TOOL:' header appeared while the '### CONTENT' block was still open — close it with '### END CONTENT' first. File content may not contain a line starting with '### TOOL:'.")
            },
            ToolFault::UnnamedTool { line } => {
                String::from_str("line ")
                    .concat(decimal_text(*line as u64).as_str())
                    .concat(": '### TOOL:' header named no tool")
            },
            ToolFault::SecondPath { line, kind } => {
                String::from_str("line ")
                    .concat(decimal_text(*line as u64).as_str())
                    .concat(": '")
                    .concat(kind.as_str())
                    .concat("' tool call declared a second path — one call, one path")
            },
            ToolFault::EmptyPath { line, kind } => {
                String::from_str("line ")
                    .concat(decimal_text(*line as u64).as_str())
                    .concat(": '")
                    .concat(kind.as_str())
                    .concat("' tool call declared an empty path")
            },
            ToolFault::LongPath { line, kind, length } => {
                String::from_str("line ")
                    .concat(decimal_text(*line as u64).as_str())
                    .concat(": '")
                    .concat(kind.as_str())
                    .concat("' tool call declared an implausible ")
                    .concat(decimal_text(*length as u64).as_str())
                    .concat(" character path")
            },
            ToolFault::ContentOutsideCall { line } => {
                String::from_str("line ")
                    .concat(decimal_text(*line as u64).as_str())
                    .concat(": '### CONTENT' appeared outside any tool call — a content block belongs to a '### TOOL: write_file' header.")
            },
            ToolFault::SecondContent { line, kind } => {
                String::from_str("line ")
                    .concat(decimal_text(*line as u64).as_str())
                    .concat(": '")
                    .concat(kind.as_str())
                    .concat("' tool call opened a second '### CONTENT' block")
            },
            ToolFault::StrayEndContent { line } => {
                String::from_str("line ")
                    .concat(decimal_text(*line as u64).as_str())
                    .concat(": stray '### END CONTENT' with no open content block — file content may not contain a line consisting solely of '### END CONTENT'.")
            },
            ToolFault::UnclosedContent { .. } => {
                String::from_str("the '### CONTENT' block for ")
                    .concat(shown)
                    .concat(" was never closed with '### END CONTENT' — the response was cut off, so the file content is incomplete. Raise the token budget or write a smaller file.")
            },
            ToolFault::MissingPath { line, kind } => {
                String::from_str("line ")
                    .concat(decimal_text(*line as u64).as_str())
                    .concat(": '")
                    .concat(kind.as_str())
                    .concat("' tool call is missing its 'path:' line")
            },
            ToolFault::ContentNotAccepted { line, kind } => {
                String::from_str("line ")
                    .concat(decimal_text(*line as u64).as_str())
                    .concat(": '")
                    .concat(kind.as_str())
                    .concat("' tool call carried a '### CONTENT' block, which only '### TOOL: write_file' accepts — refusing rather than guessing which tool was meant.")
            },
            ToolFault::MissingContent { line, .. } => {
                String::from_str("line ")
                    .concat(decimal_text(*line as u64).as_str())
                    .concat(": 'write_file' tool call for ")
                    .concat(shown)
                    .concat(" has no '### CONTENT' block, so there is nothing to write. Emit the complete file contents between '### CONTENT' and '### END CONTENT'.")
            },
            ToolFault::UnknownTool { line, .. } => {
                String::from_str("line ")
                    .concat(decimal_text(*line as u64).as_str())
                    .concat(": unknown tool ")
                    .concat(shown)
                    .concat(" — the only tools are read_file, list_dir and write_file. Refusing rather than ignoring the call, since ignoring it would look exactly like the model finishing.")
            },
        }
    }
}

// ---------------------------------------------------------------------------
// Reading tool calls
// ---------------------------------------------------------------------------

/// The content block of a call that is being read. A block that was never
/// opened differs from one that is empty: an empty file is a legal write.
pub enum PendingContent {
    Absent,
    Open(Vec<String>),
    Closed(Vec<String>),
}

/// A call that is being read: the tool it names, the line of its header, and
/// what was given so far.
pub struct Pending {
    pub kind: String,
    pub line: usize,
    pub path: Option<String>,
    pub content: PendingContent,
}

/// What a `PendingContent` holds.
pub enum ContentModel {
    Absent,
    Open(Seq<Seq<char>>),
    Closed(Seq<Seq<char>>),
}

/// What a `Pending` holds.
pub struct PendingModel {
    pub kind: Seq<char>,
    pub line: nat,
    pub path: Option<Seq<char>>,
    pub content: ContentModel,
}

impl View for PendingContent {
    type V = ContentModel;

    open spec fn view(&self) -> ContentModel {
        match *self {
            PendingContent::Absent => ContentModel::Absent,
            PendingContent::Open(body) => ContentModel::Open(texts(body@)),
            PendingContent::Closed(body) => ContentModel::Closed(texts(body@)),
        }
    }
}

impl View for Pending {
    type V = PendingModel;

    open spec fn view(&self) -> PendingModel {
        PendingModel {
            kind: self.kind@,
            line: self.line as nat,
            path: optional_text(self.path),
            content: self.content@,
        }
    }
}

/// The call that was read, or why it is refused.
pub open spec fn finished(pending: PendingModel) -> Result<ToolModel, ToolFaultModel> {
    match pending.path {
        None => Err(ToolFault::MissingPath { line: pending.line, kind: pending.kind }),
        Some(path) => if pending.kind == "read_file"@ || pending.kind == "list_dir"@ {
            if pending.content !is Absent {
                Err(ToolFault::ContentNotAccepted { line: pending.line, kind: pending.kind })
            } else if pending.kind == "read_file"@ {
                Ok(ToolModel::ReadFile { path })
            } else {
                Ok(ToolModel::ListDir { path })
            }
        } else if pending.kind == "write_file"@ {
            match pending.content {
                ContentModel::Absent => Err(
                    ToolFault::MissingContent { line: pending.line, path },
                ),
                ContentModel::Open(body) => Ok(
                    ToolModel::WriteFile { path, content: join_lines(body) },
                ),
                ContentModel::Closed(body) => Ok(
                    ToolModel::WriteFile { path, content: join_lines(body) },
                ),
            }
        } else {
            Err(ToolFault::UnknownTool { line: pending.line, kind: pending.kind })
        },
    }
}

/// The call that was read, or why it is refused.
pub fn finish_pending(pending: Pending) -> (out: Result<MasonTool, ToolError>)
    ensures
        out is Ok <==> finished(pending@) is Ok,
        out matches Ok(tool) ==> finished(pending@) == Ok::<ToolModel, ToolFaultModel>(tool@),
        out matches Err(error) ==> finished(pending@) == Err::<ToolModel, ToolFaultModel>(error@),
{
    let Pending { kind, line, path, content } = pending;
    proof {
        reveal_strlit("\n");
        assert("\n"@ == seq!['\n']);
    }
    match path {
        None => Err(ToolFault::MissingPath { line, kind }),
        Some(path) => {
            let reads = same(kind.as_str(), "read_file");
            if reads || same(kind.as_str(), "list_dir") {
                match content {
                    PendingContent::Absent => if reads {
                        Ok(MasonTool::ReadFile { path })
                    } else {
                        Ok(MasonTool::ListDir { path })
                    },
                    _ => Err(ToolFault::ContentNotAccepted { line, kind }),
                }
            } else if same(kind.as_str(), "write_file") {
                match content {
                    PendingContent::Absent => Err(ToolFault::MissingContent { line, path }),
                    PendingContent::Open(body) => Ok(
                        MasonTool::WriteFile { path, content: join_texts(body.as_slice(), "\n") },
                    ),
                    PendingContent::Closed(body) => Ok(
                        MasonTool::WriteFile { path, content: join_texts(body.as_slice(), "\n") },
                    ),
                }
            } else {
                Err(ToolFault::UnknownTool { line, kind })
            }
        },
    }
}

/// What is known of the calls after some lines.
pub struct ToolState {
    pub calls: Seq<ToolModel>,
    pub pending: Option<PendingModel>,
}

/// The calls with the one that is being read added, or why that one is refused.
pub open spec fn settled(state: ToolState) -> Result<Seq<ToolModel>, ToolFaultModel> {
    match state.pending {
        None => Ok(state.calls),
        Some(pending) => match finished(pending) {
            Ok(call) => Ok(state.calls.push(call)),
            Err(fault) => Err(fault),
        },
    }
}

/// What is known after a tool header that names `kind`.
pub open spec fn header_line(state: ToolState, kind: Seq<char>, number: nat) -> Result<
    ToolState,
    ToolFaultModel,
> {
    match settled(state) {
        Err(fault) => Err(fault),
        Ok(calls) => if kind.len() == 0 {
            Err(ToolFault::UnnamedTool { line: number })
        } else {
            let pending = PendingModel {
                kind,
                line: number,
                path: None,
                content: ContentModel::Absent,
            };
            Ok(ToolState { calls, pending: Some(pending) })
        },
    }
}

/// What is known after a line that gives `path`. Without a call such a line is
/// prose.
pub open spec fn path_line(state: ToolState, path: Seq<char>, number: nat) -> Result<
    ToolState,
    ToolFaultModel,
> {
    match state.pending {
        None => Ok(state),
        Some(pending) => if pending.path is Some {
            Err(ToolFault::SecondPath { line: number, kind: pending.kind })
        } else if path.len() == 0 {
            Err(ToolFault::EmptyPath { line: number, kind: pending.kind })
        } else if byte_count(path) > 200 {
            Err(
                ToolFault::LongPath {
                    line: number,
                    kind: pending.kind,
                    length: byte_count(path),
                },
            )
        } else {
            let with_path = PendingModel { path: Some(path), ..pending };
            Ok(ToolState { calls: state.calls, pending: Some(with_path) })
        },
    }
}

/// What is known after the line that opens a content block.
pub open spec fn content_line(state: ToolState, number: nat) -> Result<ToolState, ToolFaultModel> {
    match state.pending {
        None => Err(ToolFault::ContentOutsideCall { line: number }),
        Some(pending) => if pending.content !is Absent {
            Err(ToolFault::SecondContent { line: number, kind: pending.kind })
        } else {
            let opened = PendingModel { content: ContentModel::Open(Seq::empty()), ..pending };
            Ok(ToolState { calls: state.calls, pending: Some(opened) })
        },
    }
}

/// What is known after a line inside an open content block with the lines
/// `body`.
pub open spec fn body_line(
    state: ToolState,
    pending: PendingModel,
    body: Seq<Seq<char>>,
    line: Seq<char>,
    number: nat,
) -> Result<ToolState, ToolFaultModel> {
    if trimmed(line) == END_CONTENT_MARKER@ {
        let closed = PendingModel { content: ContentModel::Closed(body), ..pending };
        Ok(ToolState { calls: state.calls, pending: Some(closed) })
    } else if TOOL_MARKER@.is_prefix_of(trimmed(line)) {
        Err(ToolFault::HeaderInContent { line: number })
    } else {
        let longer = PendingModel { content: ContentModel::Open(body.push(line)), ..pending };
        Ok(ToolState { calls: state.calls, pending: Some(longer) })
    }
}

/// What is known after a line outside any content block.
pub open spec fn outer_line(state: ToolState, mark: Seq<char>, number: nat) -> Result<
    ToolState,
    ToolFaultModel,
> {
    if TOOL_MARKER@.is_prefix_of(mark) {
        header_line(state, trimmed(mark.skip(TOOL_MARKER@.len() as int)), number)
    } else if PATH_MARKER@.is_prefix_of(mark) {
        path_line(state, trimmed(mark.skip(PATH_MARKER@.len() as int)), number)
    } else if mark == CONTENT_MARKER@ {
        content_line(state, number)
    } else if mark == END_CONTENT_MARKER@ {
        Err(ToolFault::StrayEndContent { line: number })
    } else {
        Ok(state)
    }
}

/// Reads the tool calls of a message.
pub struct ToolMachine;

impl LineMachine for ToolMachine {
    type State = ToolState;

    type Fault = ToolFaultModel;

    open spec fn step(state: ToolState, line: Seq<char>, number: nat) -> Result<
        ToolState,
        ToolFaultModel,
    > {
        match state.pending {
            Some(pending) => match pending.content {
                ContentModel::Open(body) => body_line(state, pending, body, line, number),
                _ => outer_line(state, trimmed(line), number),
            },
            None => outer_line(state, trimmed(line), number),
        }
    }
}

/// What is known at the top of a message.
pub open spec fn tool_start() -> ToolState {
    ToolState { calls: Seq::empty(), pending: None }
}

/// The calls of a message, given what is known at its end. A content block that
/// is still open means that the message was cut off.
pub open spec fn tool_end(end: Result<ToolState, ToolFaultModel>) -> Result<
    Seq<ToolModel>,
    ToolFaultModel,
> {
    match end {
        Err(fault) => Err(fault),
        Ok(state) => match state.pending {
            Some(pending) => if pending.content is Open {
                Err(ToolFault::UnclosedContent { path: pending.path })
            } else {
                settled(state)
            },
            None => settled(state),
        },
    }
}

/// The calls of a message, or why it is refused.
pub open spec fn tool_calls(raw: Seq<char>) -> Result<Seq<ToolModel>, ToolFaultModel> {
    tool_end(read::<ToolMachine>(split_lines(raw), 0, tool_start()))
}

/// What a call that is being read holds, if there is one.
spec fn pending_model(pending: Option<Pending>) -> Option<PendingModel> {
    match pending {
        Some(p) => Some(p@),
        None => None,
    }
}

/// What the loop of `parse_tool_calls` knows.
spec fn tool_state(calls: Seq<MasonTool>, pending: Option<Pending>) -> ToolState {
    ToolState { calls: tool_models(calls), pending: pending_model(pending) }
}

/// A line outside any content block.
fn read_outer_line(
    calls: &mut Vec<MasonTool>,
    pending: Option<Pending>,
    line: &str,
    number: usize,
) -> (out: Result<Option<Pending>, ToolError>)
    ensures
        ({
            let next = outer_line(tool_state(old(calls)@, pending), trimmed(line@), number as nat);
            &&& out is Ok <==> next is Ok
            &&& out matches Ok(now) ==> next == Ok::<ToolState, ToolFaultModel>(
                tool_state(final(calls)@, now),
            )
            &&& out matches Err(error) ==> next == Err::<ToolState, ToolFaultModel>(error@)
        }),
{
    let mark = trim(line);
    if let Some(rest) = strip_prefix(mark, TOOL_MARKER) {
        if let Some(previous) = pending {
            match finish_pending(previous) {
                Ok(call) => {
                    calls.push(call);
                    assert(tool_models(calls@) == tool_models(old(calls)@).push(call@));
                },
                Err(error) => {
                    return Err(error);
                },
            }
        }
        let kind = trim(rest).to_owned();
        if kind.as_str().is_empty() {
            return Err(ToolFault::UnnamedTool { line: number });
        }
        Ok(Some(Pending { kind, line: number, path: None, content: PendingContent::Absent }))
    } else if let Some(rest) = strip_prefix(mark, PATH_MARKER) {
        match pending {
            None => Ok(None),
            Some(Pending { kind, line: header, path, content }) => {
                if path.is_some() {
                    return Err(ToolFault::SecondPath { line: number, kind });
                }
                let given = trim(rest).to_owned();
                if given.as_str().is_empty() {
                    return Err(ToolFault::EmptyPath { line: number, kind });
                }
                let length = byte_len(given.as_str());
                if length > 200 {
                    return Err(ToolFault::LongPath { line: number, kind, length });
                }
                Ok(Some(Pending { kind, line: header, path: Some(given), content }))
            },
        }
    } else if same(mark, CONTENT_MARKER) {
        match pending {
            None => Err(ToolFault::ContentOutsideCall { line: number }),
            Some(Pending { kind, line: header, path, content }) => match content {
                PendingContent::Absent => {
                    let body: Vec<String> = Vec::new();
                    assert(texts(body@) == Seq::<Seq<char>>::empty());
                    Ok(
                        Some(
                            Pending { kind, line: header, path, content: PendingContent::Open(body) },
                        ),
                    )
                },
                _ => Err(ToolFault::SecondContent { line: number, kind }),
            },
        }
    } else if same(mark, END_CONTENT_MARKER) {
        Err(ToolFault::StrayEndContent { line: number })
    } else {
        Ok(pending)
    }
}

/// Reads every tool call of one message. A message that cannot be read is
/// refused as a whole. No calls at all means only that no tool header was
/// found; whether the model has finished is decided with
/// `unreadable_write_marker`.
pub fn parse_tool_calls(raw: &str) -> (out: Result<Vec<MasonTool>, ToolError>)
    ensures
        out is Ok <==> tool_calls(raw@) is Ok,
        out matches Ok(calls) ==> tool_calls(raw@) == Ok::<Seq<ToolModel>, ToolFaultModel>(
            tool_models(calls@),
        ),
        out matches Err(error) ==> tool_calls(raw@) == Err::<Seq<ToolModel>, ToolFaultModel>(
            error@,
        ),
{
    let mut calls: Vec<MasonTool> = Vec::new();
    let mut pending: Option<Pending> = None;
    let all = split_at_char(raw, '\n');
    let ghost ls = split_lines(raw@);
    proof {
        assert(ls.take(0) == Seq::<Seq<char>>::empty());
        assert(tool_models(calls@) == Seq::<ToolModel>::empty());
    }
    for i in 0..all.len()
        invariant
            texts(all@) == ls,
            ls == split_lines(raw@),
            read::<ToolMachine>(ls.take(i as int), 0, tool_start()) == Ok::<
                ToolState,
                ToolFaultModel,
            >(tool_state(calls@, pending)),
    {
        proof {
            lemma_read_next::<ToolMachine>(ls, 0, tool_start(), i as int);
            if read::<ToolMachine>(ls.take(i + 1), 0, tool_start()) is Err {
                lemma_read_stops::<ToolMachine>(ls, 0, tool_start(), i + 1);
            }
        }
        assert(all@[i as int]@ == ls[i as int]);
        let number: usize = i + 1;
        let line = all[i].as_str();
        match pending {
            Some(Pending { kind, line: header, path, content: PendingContent::Open(body) }) => {
                let mark = trim(line);
                if same(mark, END_CONTENT_MARKER) {
                    let content = PendingContent::Closed(body);
                    pending = Some(Pending { kind, line: header, path, content });
                } else if starts_with(mark, TOOL_MARKER) {
                    return Err(ToolFault::HeaderInContent { line: number });
                } else {
                    let mut longer = body;
                    longer.push(line.to_owned());
                    assert(texts(longer@) == texts(body@).push(line@));
                    let content = PendingContent::Open(longer);
                    pending = Some(Pending { kind, line: header, path, content });
                }
            },
            other => {
                match read_outer_line(&mut calls, other, line, number) {
                    Ok(now) => {
                        pending = now;
                    },
                    Err(error) => {
                        return Err(error);
                    },
                }
            },
        }
    }
    assert(ls.take(ls.len() as int) == ls);
    match pending {
        None => Ok(calls),
        Some(last) => {
            if let PendingContent::Open(_) = last.content {
                return Err(ToolFault::UnclosedContent { path: last.path });
            }
            match finish_pending(last) {
                Ok(call) => {
                    let ghost before = calls@;
                    calls.push(call);
                    assert(tool_models(calls@) == tool_models(before).push(call@));
                    Ok(calls)
                },
                Err(error) => Err(error),
            }
        },
    }
}

/// The call of a message that holds exactly one. Neither a message without
/// calls nor one that is refused has such a call, so this does not tell the
/// two apart.
pub fn parse_tool_call(raw: &str) -> (out: Option<MasonTool>)
    ensures
        out is Some <==> (tool_calls(raw@) matches Ok(calls) && calls.len() == 1),
        out matches Some(tool) ==> tool_calls(raw@) == Ok::<Seq<ToolModel>, ToolFaultModel>(
            seq![tool@],
        ),
{
    match parse_tool_calls(raw) {
        Ok(calls) => {
            let mut calls = calls;
            if calls.len() == 1 {
                let ghost before = calls@;
                let call = calls.pop();
                assert(tool_models(before) == seq![before[0]@]);
                call
            } else {
                None
            }
        },
        Err(_) => None,
    }
}

/// One tool's result in the shape that the model was told to expect.
pub fn render_tool_result(tool: &MasonTool, result: &str) -> (out: String)
    ensures
        out@ == rendered_result(tool@, result@),
{
    String::from_str("### TOOL RESULT: ").concat(tool.name()).concat("\n").concat(result).concat(
        "\n### END TOOL RESULT",
    )
}

/// One tool's result in the shape that the model was told to expect.
pub open spec fn rendered_result(tool: ToolModel, result: Seq<char>) -> Seq<char> {
    "### TOOL RESULT: "@ + tool_name(tool) + "\n"@ + result + "\n### END TOOL RESULT"@
}

} // verus!
