//! The tool loop: what to do next while a model inspects its workspace and
//! settles on what it wants written.
//!
//! The loop decides and performs nothing itself. It asks for one action at a
//! time (ask the model, read a file, list a directory, record a write) and is
//! told how the action went. Writes are collected and handed back at the end.

use vstd::prelude::*;
use vstd::string::*;

use crate::lines::{join, join_texts};
use crate::mason_guard::{read_refusal_among, refused_read, unreadable_write, unreadable_write_marker};
use crate::mason_tools::{
    parse_tool_calls, render_tool_result, rendered_result, tool_calls, tool_message, tool_models,
    tool_name, tool_path, MasonTool, ToolModel, TOOL_LOOP_INSTRUCTION,
};
use crate::numeral::{decimal, decimal_text};
use crate::order::{sort_texts, sorted};
use crate::outside::{quoted, quoted_text};
use crate::pairs::pair_texts;
use crate::text::{byte_count, byte_len, optional_text, same, text_outcome, texts};
use crate::workspace::{
    absolute, climbs, is_absolute, join_workspace_relative_path, law_normal_path_is_relative,
    normal_path, normalize_project_path, parts_of, path_parts,
};

verus! {

// ---------------------------------------------------------------------------
// Values
// ---------------------------------------------------------------------------

/// Who wrote a message.
#[derive(Debug, Clone, Copy, PartialEq, Eq, Structural)]
pub enum Role {
    User,
    Assistant,
}

/// One message of the conversation.
#[derive(Debug, Clone, PartialEq, Eq)]
pub struct Message {
    pub role: Role,
    pub content: String,
}

/// What a `Message` holds.
pub struct MessageModel {
    pub role: Role,
    pub content: Seq<char>,
}

impl View for Message {
    type V = MessageModel;

    open spec fn view(&self) -> MessageModel {
        MessageModel { role: self.role, content: self.content@ }
    }
}

/// What a conversation holds.
pub open spec fn message_models(messages: Seq<Message>) -> Seq<MessageModel> {
    messages.map_values(|m: Message| m@)
}

impl Message {
    /// A message from the user.
    pub fn user(content: String) -> (out: Message)
        ensures
            out.role == Role::User,
            out.content == content,
    {
        Message { role: Role::User, content }
    }

    /// A message from the model.
    pub fn assistant(content: String) -> (out: Message)
        ensures
            out.role == Role::Assistant,
            out.content == content,
    {
        Message { role: Role::Assistant, content }
    }
}

/// One entry of a directory, or why it could not be read.
#[derive(Debug, Clone, PartialEq, Eq)]
pub enum DirEntry {
    Named { name: String, is_dir: bool },
    Unreadable { error: String },
}

/// What a `DirEntry` holds.
pub enum EntryModel {
    Named { name: Seq<char>, is_dir: bool },
    Unreadable { error: Seq<char> },
}

impl View for DirEntry {
    type V = EntryModel;

    open spec fn view(&self) -> EntryModel {
        match *self {
            DirEntry::Named { name, is_dir } => EntryModel::Named { name: name@, is_dir },
            DirEntry::Unreadable { error } => EntryModel::Unreadable { error: error@ },
        }
    }
}

/// What a list of entries holds.
pub open spec fn entry_models(entries: Seq<DirEntry>) -> Seq<EntryModel> {
    entries.map_values(|e: DirEntry| e@)
}

/// A write that the model asked for. Two spellings of one path have the same
/// parts and so are the same file.
pub struct StagedWrite {
    pub parts: Vec<String>,
    pub path: String,
    pub content: String,
}

/// What a `StagedWrite` holds.
pub struct WriteModel {
    pub parts: Seq<Seq<char>>,
    pub path: Seq<char>,
    pub content: Seq<char>,
}

impl View for StagedWrite {
    type V = WriteModel;

    open spec fn view(&self) -> WriteModel {
        WriteModel { parts: texts(self.parts@), path: self.path@, content: self.content@ }
    }
}

/// What a list of writes holds.
pub open spec fn write_models(writes: Seq<StagedWrite>) -> Seq<WriteModel> {
    writes.map_values(|w: StagedWrite| w@)
}

/// The paths and contents of writes, as they are handed back.
pub open spec fn write_pairs(writes: Seq<WriteModel>) -> Seq<(Seq<char>, Seq<char>)> {
    writes.map_values(|w: WriteModel| (w.path, w.content))
}

// ---------------------------------------------------------------------------
// Why the loop ends without writes
// ---------------------------------------------------------------------------

/// Why the loop ends without writes. `T` is the type of text, `N` that of
/// counts.
#[derive(Debug, Clone, PartialEq, Eq)]
pub enum LoopFault<T, N> {
    /// A path from the root of the file system.
    AbsolutePath { tool: T, path: T },
    /// A path that leads out of the workspace.
    OutsideWorkspace { tool: T, path: T },
    /// A write to the workspace itself.
    WorkspaceRoot { path: T },
    /// A write that was refused where it is recorded.
    GatewayRefused { path: T },
    /// The model was still busy when its turns were used up.
    TurnsUsedUp { turns: N, problem: Option<T> },
}

/// Why the loop ends without writes.
pub type LoopError = LoopFault<String, u32>;

/// What a `LoopError` holds.
pub type LoopFaultModel = LoopFault<Seq<char>, nat>;

impl View for LoopFault<String, u32> {
    type V = LoopFaultModel;

    open spec fn view(&self) -> LoopFaultModel {
        match *self {
            LoopFault::AbsolutePath { tool, path } => LoopFault::AbsolutePath {
                tool: tool@,
                path: path@,
            },
            LoopFault::OutsideWorkspace { tool, path } => LoopFault::OutsideWorkspace {
                tool: tool@,
                path: path@,
            },
            LoopFault::WorkspaceRoot { path } => LoopFault::WorkspaceRoot { path: path@ },
            LoopFault::GatewayRefused { path } => LoopFault::GatewayRefused { path: path@ },
            LoopFault::TurnsUsedUp { turns, problem } => LoopFault::TurnsUsedUp {
                turns: turns as nat,
                problem: optional_text(problem),
            },
        }
    }
}

/// The text that the wording of an end without writes shows in quotes.
pub open spec fn loop_shown(fault: LoopFaultModel) -> Seq<char> {
    match fault {
        LoopFault::AbsolutePath { path, .. } => path,
        LoopFault::OutsideWorkspace { path, .. } => path,
        LoopFault::WorkspaceRoot { path } => path,
        LoopFault::GatewayRefused { path } => path,
        LoopFault::TurnsUsedUp { .. } => ""@,
    }
}

/// The wording of an end without writes.
pub open spec fn loop_message(fault: LoopFaultModel) -> Seq<char> {
    loop_wording(fault, quoted(loop_shown(fault)))
}

/// The wording of an end without writes, given the text that it shows as it is
/// shown.
pub open spec fn loop_wording(fault: LoopFaultModel, shown: Seq<char>) -> Seq<char> {
    match fault {
        LoopFault::AbsolutePath { tool, .. } => {
            "Mason's '"@ + tool + "' tool call uses the absolute path "@ + shown
                + ". Tool paths must be relative to the staged workspace root."@
        },
        LoopFault::OutsideWorkspace { tool, .. } => {
            "Mason's '"@ + tool + "' tool call for "@ + shown
                + " does not resolve inside the staged workspace: the path leads out of the workspace root"@
        },
        LoopFault::WorkspaceRoot { .. } => {
            "Mason's write_file call for "@ + shown
                + " resolves to the workspace root itself, which is a directory, not a file."@
        },
        LoopFault::GatewayRefused { .. } => {
            "the invocation gateway refused Mason's tool write to "@ + shown
                + ". No edits were returned."@
        },
        LoopFault::TurnsUsedUp { turns, problem: Some(problem) } => {
            "Mason used all "@ + decimal(turns)
                + " tool turns without settling on a final set of writes. The last turn was rejected: "@
                + problem
        },
        LoopFault::TurnsUsedUp { turns, problem: None } => {
            "Mason used all "@ + decimal(turns)
                + " tool turns without settling on a final set of writes — it was still calling tools when the budget ran out. Raise the turn budget or narrow the spec."@
        },
    }
}

impl LoopFault<String, u32> {
    /// The wording of this end.
    pub fn message(&self) -> (out: String)
        ensures
            out@ == loop_message(self@),
    {
        let shown = match self {
            LoopFault::AbsolutePath { path, .. } => path.as_str(),
            LoopFault::OutsideWorkspace { path, .. } => path.as_str(),
            LoopFault::WorkspaceRoot { path } => path.as_str(),
            LoopFault::GatewayRefused { path } => path.as_str(),
            LoopFault::TurnsUsedUp { .. } => "",
        };
        self.wording(quoted_text(shown).as_str())
    }

    /// The wording of this end, given the text that it shows as it is shown.
    pub fn wording(&self, shown: &str) -> (out: String)
        ensures
            out@ == loop_wording(self@, shown@),
    {
        match self {
            LoopFault::AbsolutePath { tool, .. } => {
                String::from_str("Mason's '").concat(tool.as_str()).concat(
                    "' tool call uses the absolute path ",
                ).concat(shown).concat(
                    ". Tool paths must be relative to the staged workspace root.",
                )
            },
            LoopFault::OutsideWorkspace { tool, .. } => {
                String::from_str("Mason's '").concat(tool.as_str()).concat(
                    "' tool call for ",
                ).concat(shown).concat(
                    " does not resolve inside the staged workspace: the path leads out of the workspace root",
                )
            },
            LoopFault::WorkspaceRoot { .. } => {
                String::from_str("Mason's write_file call for ").concat(
                    shown,
                ).concat(
                    " resolves to the workspace root itself, which is a directory, not a file.",
                )
            },
            LoopFault::GatewayRefused { .. } => {
                String::from_str("the invocation gateway refused Mason's tool write to ").concat(
                    shown,
                ).concat(". No edits were returned.")
            },
            LoopFault::TurnsUsedUp { turns, problem: Some(problem) } => {
                String::from_str("Mason used all ").concat(
                    decimal_text(*turns as u64).as_str(),
                ).concat(
                    " tool turns without settling on a final set of writes. The last turn was rejected: ",
                ).concat(problem.as_str())
            },
            LoopFault::TurnsUsedUp { turns, problem: None } => {
                String::from_str("Mason used all ").concat(
                    decimal_text(*turns as u64).as_str(),
                ).concat(
                    " tool turns without settling on a final set of writes — it was still calling tools when the budget ran out. Raise the turn budget or narrow the spec.",
                )
            },
        }
    }
}

// ---------------------------------------------------------------------------
// What a tool's result says
// ---------------------------------------------------------------------------

/// What the model is told about a read.
pub open spec fn read_result(path: Seq<char>, outcome: Result<Seq<char>, Seq<char>>) -> Seq<char> {
    match outcome {
        Ok(text) => text,
        Err(error) => "ERROR: reading "@ + path + ": "@ + error,
    }
}

/// The line of one directory entry: a directory ends in a slash.
pub open spec fn entry_line(entry: EntryModel) -> Seq<char> {
    match entry {
        EntryModel::Named { name, is_dir } => if is_dir {
            name + "/"@
        } else {
            name
        },
        EntryModel::Unreadable { error } => "(unreadable entry: "@ + error + ")"@,
    }
}

/// The lines of directory entries.
pub open spec fn entry_lines(entries: Seq<EntryModel>) -> Seq<Seq<char>> {
    entries.map_values(|e: EntryModel| entry_line(e))
}

/// What the model is told about a directory: its entries in order.
pub open spec fn list_result(
    path: Seq<char>,
    outcome: Result<Seq<EntryModel>, Seq<char>>,
) -> Seq<char> {
    match outcome {
        Ok(entries) => if entries.len() == 0 {
            "(empty directory: "@ + path + ")"@
        } else {
            join(sorted(entry_lines(entries)), "\n"@)
        },
        Err(error) => "ERROR: listing "@ + path + ": "@ + error,
    }
}

/// What the model is told about a write that takes the place of `earlier`, if
/// there is one.
pub open spec fn write_result(write: WriteModel, earlier: Option<WriteModel>) -> Seq<char> {
    match earlier {
        Some(previous) => {
            "recorded write of "@ + decimal(byte_count(write.content)) + " bytes to "@ + write.path
                + " (replaces the earlier "@ + decimal(byte_count(previous.content))
                + " byte write to the same file in this loop)"@
        },
        None => "recorded write of "@ + decimal(byte_count(write.content)) + " bytes to "@
            + write.path,
    }
}

fn read_result_text(path: &str, outcome: Result<String, String>) -> (out: String)
    ensures
        out@ == read_result(path@, text_outcome(outcome)),
{
    match outcome {
        Ok(text) => text,
        Err(error) => String::from_str("ERROR: reading ").concat(path).concat(": ").concat(
            error.as_str(),
        ),
    }
}

/// What the outcome of a listing holds.
pub open spec fn listing_model(outcome: Result<Vec<DirEntry>, String>) -> Result<
    Seq<EntryModel>,
    Seq<char>,
> {
    match outcome {
        Ok(entries) => Ok(entry_models(entries@)),
        Err(error) => Err(error@),
    }
}

fn list_result_text(path: &str, outcome: Result<Vec<DirEntry>, String>) -> (out: String)
    ensures
        out@ == list_result(path@, listing_model(outcome)),
{
    match outcome {
        Ok(entries) => {
            if entries.len() == 0 {
                return String::from_str("(empty directory: ").concat(path).concat(")");
            }
            let mut names: Vec<String> = Vec::new();
            let ghost all = entry_lines(entry_models(entries@));
            for i in 0..entries.len()
                invariant
                    all == entry_lines(entry_models(entries@)),
                    texts(names@) == all.take(i as int),
            {
                let name = match &entries[i] {
                    DirEntry::Named { name, is_dir } => if *is_dir {
                        name.clone().concat("/")
                    } else {
                        name.clone()
                    },
                    DirEntry::Unreadable { error } => String::from_str(
                        "(unreadable entry: ",
                    ).concat(error.as_str()).concat(")"),
                };
                assert(name@ == all[i as int]);
                let ghost before = names@;
                names.push(name);
                assert(texts(names@) == texts(before).push(name@));
                assert(texts(names@) == all.take(i + 1));
            }
            assert(all.take(all.len() as int) == all);
            let names = sort_texts(names);
            join_texts(names.as_slice(), "\n")
        },
        Err(error) => String::from_str("ERROR: listing ").concat(path).concat(": ").concat(
            error.as_str(),
        ),
    }
}

// ---------------------------------------------------------------------------
// What one call comes to
// ---------------------------------------------------------------------------

/// What is to be done about one call, before anything is done. `T` is the type
/// of text, `P` that of the parts of a path, `N` that of counts and `F` that of
/// an end without writes.
pub enum CallPlan<T, P, N, F> {
    /// The loop ends without writes.
    Stop { fault: F },
    /// The model is told something; nothing is touched.
    Tell { result: T },
    /// The file below the workspace is read.
    Read { parts: P },
    /// The directory below the workspace is listed.
    List { parts: P },
    /// The write is put to whoever records writes.
    Record { path: T, byte_len: N },
    /// The write is kept.
    Stage,
}

/// What is to be done about one call.
pub type Plan = CallPlan<String, Vec<String>, usize, LoopError>;

/// What a `Plan` holds.
pub type PlanModel = CallPlan<Seq<char>, Seq<Seq<char>>, nat, LoopFaultModel>;

impl View for CallPlan<String, Vec<String>, usize, LoopError> {
    type V = PlanModel;

    open spec fn view(&self) -> PlanModel {
        match *self {
            CallPlan::Stop { fault } => CallPlan::Stop { fault: fault@ },
            CallPlan::Tell { result } => CallPlan::Tell { result: result@ },
            CallPlan::Read { parts } => CallPlan::Read { parts: texts(parts@) },
            CallPlan::List { parts } => CallPlan::List { parts: texts(parts@) },
            CallPlan::Record { path, byte_len } => CallPlan::Record {
                path: path@,
                byte_len: byte_len as nat,
            },
            CallPlan::Stage => CallPlan::Stage,
        }
    }
}

/// The parts below the workspace that a path of the model leads to.
pub open spec fn target(path: Seq<char>) -> Seq<Seq<char>> {
    path_parts(normal_path(path))
}

/// What is to be done about a call. Whether its path stays in the workspace
/// comes first, for every tool.
pub open spec fn planned(tool: ToolModel, prefixes: Seq<Seq<char>>, gateway: bool) -> PlanModel {
    let path = tool_path(tool);
    if absolute(path) {
        CallPlan::Stop { fault: LoopFault::AbsolutePath { tool: tool_name(tool), path } }
    } else if climbs(target(path)) {
        CallPlan::Stop { fault: LoopFault::OutsideWorkspace { tool: tool_name(tool), path } }
    } else {
        match tool {
            ToolModel::ReadFile { .. } => match refused_read(normal_path(path), prefixes) {
                Some(reason) => CallPlan::Tell { result: read_result(path, Err(reason)) },
                None => CallPlan::Read { parts: target(path) },
            },
            ToolModel::ListDir { .. } => CallPlan::List { parts: target(path) },
            ToolModel::WriteFile { content, .. } => if target(path).len() == 0 {
                CallPlan::Stop { fault: LoopFault::WorkspaceRoot { path } }
            } else if gateway {
                CallPlan::Record { path, byte_len: byte_count(content) }
            } else {
                CallPlan::Stage
            },
        }
    }
}

/// Decides what is to be done about a call, where reads of paths with one of
/// `prefixes` are refused and `gateway` tells whether writes are recorded.
pub fn plan_call(tool: &MasonTool, prefixes: &Vec<String>, gateway: bool) -> (out: Plan)
    ensures
        out@ == planned(tool@, texts(prefixes@), gateway),
{
    let path = tool.path();
    if is_absolute(path) {
        return CallPlan::Stop {
            fault: LoopFault::AbsolutePath {
                tool: String::from_str(tool.name()),
                path: String::from_str(path),
            },
        };
    }
    let normalized = normalize_project_path(path);
    proof {
        law_normal_path_is_relative(path@);
    }
    let parts = match join_workspace_relative_path(normalized.as_str()) {
        Some(parts) => parts,
        None => {
            return CallPlan::Stop {
                fault: LoopFault::OutsideWorkspace {
                    tool: String::from_str(tool.name()),
                    path: String::from_str(path),
                },
            };
        },
    };
    match tool {
        MasonTool::ReadFile { .. } => match read_refusal_among(normalized.as_str(), prefixes) {
            Some(reason) => CallPlan::Tell { result: read_result_text(path, Err(reason)) },
            None => CallPlan::Read { parts },
        },
        MasonTool::ListDir { .. } => CallPlan::List { parts },
        MasonTool::WriteFile { content, .. } => if parts.len() == 0 {
            CallPlan::Stop { fault: LoopFault::WorkspaceRoot { path: String::from_str(path) } }
        } else if gateway {
            CallPlan::Record { path: String::from_str(path), byte_len: byte_len(content.as_str()) }
        } else {
            CallPlan::Stage
        },
    }
}

// ---------------------------------------------------------------------------
// The writes so far
// ---------------------------------------------------------------------------

/// Where the write with these parts stands, or the number of writes where there
/// is none.
pub open spec fn place_of(writes: Seq<WriteModel>, parts: Seq<Seq<char>>) -> int
    decreases writes.len(),
{
    if writes.len() == 0 {
        0
    } else {
        let before = place_of(writes.drop_last(), parts);
        if before < writes.len() - 1 || writes.last().parts == parts {
            before
        } else {
            writes.len() as int
        }
    }
}

/// The earlier write to the same file, if there is one.
pub open spec fn earlier_write(writes: Seq<WriteModel>, write: WriteModel) -> Option<WriteModel> {
    let place = place_of(writes, write.parts);
    if place < writes.len() {
        Some(writes[place])
    } else {
        None
    }
}

/// The writes with one more: it takes the place of an earlier write to the same
/// file, and comes last where there is none.
pub open spec fn staged(writes: Seq<WriteModel>, write: WriteModel) -> Seq<WriteModel> {
    let place = place_of(writes, write.parts);
    if place < writes.len() {
        writes.update(place, write)
    } else {
        writes.push(write)
    }
}

/// Whether no two writes are to the same file.
pub open spec fn one_per_file(writes: Seq<WriteModel>) -> bool {
    forall|i: int, j: int|
        0 <= i < j < writes.len() ==> #[trigger] writes[i].parts != #[trigger] writes[j].parts
}

/// The write that a call asks for.
pub open spec fn asked_write(tool: ToolModel) -> WriteModel {
    WriteModel {
        parts: target(tool_path(tool)),
        path: tool_path(tool),
        content: match tool {
            ToolModel::WriteFile { content, .. } => content,
            _ => Seq::empty(),
        },
    }
}

fn same_texts(a: &Vec<String>, b: &Vec<String>) -> (answer: bool)
    ensures
        answer == (texts(a@) == texts(b@)),
{
    if a.len() != b.len() {
        assert(texts(a@).len() != texts(b@).len());
        return false;
    }
    for i in 0..a.len()
        invariant
            a@.len() == b@.len(),
            forall|k: int| 0 <= k < i ==> texts(a@)[k] == texts(b@)[k],
    {
        if !same(a[i].as_str(), b[i].as_str()) {
            assert(texts(a@)[i as int] != texts(b@)[i as int]);
            return false;
        }
    }
    assert(texts(a@) == texts(b@));
    true
}

pub proof fn lemma_place_of(writes: Seq<WriteModel>, parts: Seq<Seq<char>>)
    ensures
        0 <= place_of(writes, parts) <= writes.len(),
        forall|k: int| 0 <= k < place_of(writes, parts) ==> #[trigger] writes[k].parts != parts,
        place_of(writes, parts) < writes.len() ==> writes[place_of(writes, parts)].parts == parts,
    decreases writes.len(),
{
    if writes.len() > 0 {
        lemma_place_of(writes.drop_last(), parts);
        assert forall|k: int| 0 <= k < place_of(writes, parts) implies #[trigger] writes[k].parts
            != parts by {
            if k < writes.len() - 1 {
                assert(writes.drop_last()[k] == writes[k]);
            }
        }
    }
}

proof fn lemma_place_is(writes: Seq<WriteModel>, parts: Seq<Seq<char>>, place: int)
    requires
        0 <= place <= writes.len(),
        forall|k: int| 0 <= k < place ==> #[trigger] writes[k].parts != parts,
        place < writes.len() ==> writes[place].parts == parts,
    ensures
        place_of(writes, parts) == place,
{
    lemma_place_of(writes, parts);
    let found = place_of(writes, parts);
    if found < place {
        assert(writes[found].parts != parts);
    }
}

fn find_write(writes: &Vec<StagedWrite>, parts: &Vec<String>) -> (place: usize)
    ensures
        place == place_of(write_models(writes@), texts(parts@)),
        place <= writes@.len(),
{
    let ghost all = write_models(writes@);
    let mut i: usize = 0;
    while i < writes.len()
        invariant
            i <= writes@.len(),
            all == write_models(writes@),
            forall|k: int| 0 <= k < i ==> #[trigger] all[k].parts != texts(parts@),
        decreases writes@.len() - i,
    {
        if same_texts(&writes[i].parts, parts) {
            proof {
                lemma_place_is(all, texts(parts@), i as int);
            }
            return i;
        }
        assert(all[i as int].parts == texts(writes@[i as int].parts@));
        i = i + 1;
    }
    proof {
        lemma_place_is(all, texts(parts@), i as int);
    }
    i
}

// ---------------------------------------------------------------------------
// The loop
// ---------------------------------------------------------------------------

/// What the loop is waiting for.
#[derive(Debug, Clone, Copy, PartialEq, Eq, Structural)]
pub enum Phase {
    /// A reply of the model.
    Asking,
    /// The text of a file.
    Reading,
    /// The entries of a directory.
    Listing,
    /// Whether a write was recorded.
    Recording,
    /// Nothing: the loop has ended.
    Done,
}

/// How the last action went.
pub enum LoopEvent {
    Reply(String),
    FileRead(Result<String, String>),
    Listed(Result<Vec<DirEntry>, String>),
    Recorded(bool),
}

/// What a `LoopEvent` holds.
pub enum EventModel {
    Reply(Seq<char>),
    FileRead(Result<Seq<char>, Seq<char>>),
    Listed(Result<Seq<EntryModel>, Seq<char>>),
    Recorded(bool),
}

impl View for LoopEvent {
    type V = EventModel;

    open spec fn view(&self) -> EventModel {
        match *self {
            LoopEvent::Reply(reply) => EventModel::Reply(reply@),
            LoopEvent::FileRead(outcome) => EventModel::FileRead(text_outcome(outcome)),
            LoopEvent::Listed(outcome) => EventModel::Listed(listing_model(outcome)),
            LoopEvent::Recorded(accepted) => EventModel::Recorded(accepted),
        }
    }
}

/// What is to be done next.
pub enum LoopAction {
    /// Put the conversation to the model.
    Ask,
    /// Read the file with these parts below the workspace.
    Read { parts: Vec<String> },
    /// List the directory with these parts below the workspace.
    List { parts: Vec<String> },
    /// Put a write to whoever records writes.
    Record { path: String, byte_len: usize },
    /// The model has finished: these are its writes.
    Finish { writes: Vec<(String, String)> },
    /// The loop has ended without writes.
    Fail { error: LoopError },
}

/// What a `LoopAction` holds.
pub enum ActionModel {
    Ask,
    Read { parts: Seq<Seq<char>> },
    List { parts: Seq<Seq<char>> },
    Record { path: Seq<char>, byte_len: nat },
    Finish { writes: Seq<(Seq<char>, Seq<char>)> },
    Fail { error: LoopFaultModel },
}

impl View for LoopAction {
    type V = ActionModel;

    open spec fn view(&self) -> ActionModel {
        match *self {
            LoopAction::Ask => ActionModel::Ask,
            LoopAction::Read { parts } => ActionModel::Read { parts: texts(parts@) },
            LoopAction::List { parts } => ActionModel::List { parts: texts(parts@) },
            LoopAction::Record { path, byte_len } => ActionModel::Record {
                path: path@,
                byte_len: byte_len as nat,
            },
            LoopAction::Finish { writes } => ActionModel::Finish { writes: pair_texts(writes@) },
            LoopAction::Fail { error } => ActionModel::Fail { error: error@ },
        }
    }
}

/// What the loop holds.
#[verifier::ext_equal]
pub struct LoopModel {
    /// How often the model may be asked.
    pub turns: nat,
    /// How often it has been asked.
    pub asked: nat,
    /// The conversation.
    pub messages: Seq<MessageModel>,
    /// The writes so far.
    pub writes: Seq<WriteModel>,
    /// Why the last message that was refused was refused.
    pub problem: Option<Seq<char>>,
    /// Paths with these prefixes are not read.
    pub prefixes: Seq<Seq<char>>,
    /// Whether writes are recorded.
    pub gateway: bool,
    /// The message that is being worked on.
    pub reply: Seq<char>,
    /// Its calls.
    pub calls: Seq<ToolModel>,
    /// How many of them are done.
    pub next: nat,
    /// What they came to.
    pub results: Seq<Seq<char>>,
    /// What the loop is waiting for.
    pub phase: Phase,
}

/// The loop at its start, waiting for the first reply.
pub open spec fn loop_start(
    messages: Seq<MessageModel>,
    max_turns: nat,
    prefixes: Seq<Seq<char>>,
    gateway: bool,
) -> LoopModel {
    LoopModel {
        turns: if max_turns == 0 {
            1
        } else {
            max_turns
        },
        asked: 1,
        messages,
        writes: Seq::empty(),
        problem: None,
        prefixes,
        gateway,
        reply: Seq::empty(),
        calls: Seq::empty(),
        next: 0,
        results: Seq::empty(),
        phase: Phase::Asking,
    }
}

/// The loop asks again, or ends where the turns are used up.
pub open spec fn ask_again(m: LoopModel) -> (LoopModel, ActionModel) {
    if m.asked < m.turns {
        (LoopModel { asked: m.asked + 1, phase: Phase::Asking, ..m }, ActionModel::Ask)
    } else {
        (
            LoopModel { phase: Phase::Done, ..m },
            ActionModel::Fail {
                error: LoopFault::TurnsUsedUp { turns: m.turns, problem: m.problem },
            },
        )
    }
}

/// The conversation with the reply and what is said to it.
pub open spec fn answered(
    messages: Seq<MessageModel>,
    reply: Seq<char>,
    answer: Seq<char>,
) -> Seq<MessageModel> {
    messages.push(MessageModel { role: Role::Assistant, content: reply }).push(
        MessageModel { role: Role::User, content: answer },
    )
}

/// What the model is told about a message that could not be used.
pub open spec fn refusal_text(problem: Seq<char>) -> Seq<char> {
    "Your previous message could not be used: "@ + problem + "\n\n"@ + TOOL_LOOP_INSTRUCTION@
}

/// The whole reply is refused, and the model asked again.
pub open spec fn refuse_reply(m: LoopModel, reply: Seq<char>, problem: Seq<char>) -> (
    LoopModel,
    ActionModel,
) {
    ask_again(
        LoopModel {
            messages: answered(m.messages, reply, refusal_text(problem)),
            problem: Some(problem),
            ..m
        },
    )
}

/// The loop after one more result.
pub open spec fn with_result(m: LoopModel, result: Seq<char>) -> LoopModel {
    LoopModel {
        results: m.results.push(rendered_result(m.calls[m.next as int], result)),
        next: m.next + 1,
        ..m
    }
}

/// The loop after the write that the next call asks for was kept.
pub open spec fn with_write(m: LoopModel) -> LoopModel {
    let write = asked_write(m.calls[m.next as int]);
    LoopModel {
        writes: staged(m.writes, write),
        ..with_result(m, write_result(write, earlier_write(m.writes, write)))
    }
}

/// The loop ends without writes.
pub open spec fn stopped(m: LoopModel, fault: LoopFaultModel) -> (LoopModel, ActionModel) {
    (LoopModel { phase: Phase::Done, ..m }, ActionModel::Fail { error: fault })
}

/// The loop works on until something has to be done outside it.
pub open spec fn work_on(m: LoopModel) -> (LoopModel, ActionModel)
    decreases m.calls.len() - m.next,
{
    if m.next >= m.calls.len() {
        ask_again(
            LoopModel {
                messages: answered(m.messages, m.reply, join(m.results, "\n\n"@)),
                ..m
            },
        )
    } else {
        match planned(m.calls[m.next as int], m.prefixes, m.gateway) {
            CallPlan::Stop { fault } => stopped(m, fault),
            CallPlan::Tell { result } => work_on(with_result(m, result)),
            CallPlan::Read { parts } => (
                LoopModel { phase: Phase::Reading, ..m },
                ActionModel::Read { parts },
            ),
            CallPlan::List { parts } => (
                LoopModel { phase: Phase::Listing, ..m },
                ActionModel::List { parts },
            ),
            CallPlan::Record { path, byte_len } => (
                LoopModel { phase: Phase::Recording, ..m },
                ActionModel::Record { path, byte_len },
            ),
            CallPlan::Stage => work_on(with_write(m)),
        }
    }
}

/// The loop before the calls of a reply.
pub open spec fn opened(m: LoopModel, reply: Seq<char>, calls: Seq<ToolModel>) -> LoopModel {
    LoopModel { reply, calls, next: 0, results: Seq::empty(), ..m }
}

/// The loop has read a reply of the model. A reply that cannot be read, or that
/// holds something which looks like a write that cannot be read, is refused as
/// a whole; a reply without calls ends the loop.
pub open spec fn on_reply(m: LoopModel, reply: Seq<char>) -> (LoopModel, ActionModel) {
    match tool_calls(reply) {
        Err(fault) => refuse_reply(m, reply, tool_message(fault)),
        Ok(calls) => match unreadable_write(reply) {
            Some(problem) => refuse_reply(m, reply, problem),
            None => if calls.len() == 0 {
                (
                    LoopModel { phase: Phase::Done, ..m },
                    ActionModel::Finish { writes: write_pairs(m.writes) },
                )
            } else {
                work_on(opened(m, reply, calls))
            },
        },
    }
}

/// The loop after the call under way was dealt with.
pub open spec fn taken_in(m: LoopModel, event: EventModel) -> LoopModel {
    let path = tool_path(m.calls[m.next as int]);
    match event {
        EventModel::FileRead(outcome) => with_result(m, read_result(path, outcome)),
        EventModel::Listed(outcome) => with_result(m, list_result(path, outcome)),
        _ => with_write(m),
    }
}

/// The loop after an event, and what it asks for next.
pub open spec fn loop_step(m: LoopModel, event: EventModel) -> (LoopModel, ActionModel) {
    match event {
        EventModel::Reply(reply) => on_reply(m, reply),
        EventModel::Recorded(false) => stopped(
            m,
            LoopFault::GatewayRefused { path: tool_path(m.calls[m.next as int]) },
        ),
        _ => work_on(taken_in(m, event)),
    }
}

/// Whether the event is the one that the loop waits for.
pub open spec fn awaited(m: LoopModel, event: EventModel) -> bool {
    match event {
        EventModel::Reply(_) => m.phase == Phase::Asking,
        EventModel::FileRead(_) => m.phase == Phase::Reading,
        EventModel::Listed(_) => m.phase == Phase::Listing,
        EventModel::Recorded(_) => m.phase == Phase::Recording,
    }
}

/// What holds of the loop at all times: the model is asked at most as often as
/// it may be, no two writes are to the same file, every write is to a file of
/// the workspace, and a call is under way only where its plan asks for what the
/// loop waits for.
pub open spec fn loop_sound(m: LoopModel) -> bool {
    &&& 1 <= m.asked <= m.turns
    &&& one_per_file(m.writes)
    &&& forall|i: int|
        0 <= i < m.writes.len() ==> {
            let write = #[trigger] m.writes[i];
            &&& write.parts == target(write.path)
            &&& write.parts.len() > 0
            &&& !absolute(write.path)
            &&& !climbs(write.parts)
        }
    &&& match m.phase {
        Phase::Asking | Phase::Done => true,
        Phase::Reading => m.next < m.calls.len() && planned(
            m.calls[m.next as int],
            m.prefixes,
            m.gateway,
        ) is Read,
        Phase::Listing => m.next < m.calls.len() && planned(
            m.calls[m.next as int],
            m.prefixes,
            m.gateway,
        ) is List,
        Phase::Recording => m.next < m.calls.len() && planned(
            m.calls[m.next as int],
            m.prefixes,
            m.gateway,
        ) is Record,
    }
}

proof fn lemma_staged_sound(writes: Seq<WriteModel>, write: WriteModel)
    requires
        one_per_file(writes),
    ensures
        one_per_file(staged(writes, write)),
        forall|i: int|
            0 <= i < staged(writes, write).len() ==> #[trigger] staged(writes, write)[i] == write
                || writes.contains(staged(writes, write)[i]),
{
    lemma_place_of(writes, write.parts);
    let place = place_of(writes, write.parts);
    let after = staged(writes, write);
    assert forall|i: int, j: int| 0 <= i < j < after.len() implies #[trigger] after[i].parts
        != #[trigger] after[j].parts by {
        if i < writes.len() && j < writes.len() {
            assert(writes[i].parts != writes[j].parts);
        }
    }
    assert forall|i: int| 0 <= i < after.len() implies #[trigger] after[i] == write
        || writes.contains(after[i]) by {
        if i != place {
            assert(after[i] == writes[i]);
        }
    }
}

proof fn lemma_with_write_sound(m: LoopModel)
    requires
        loop_sound(m),
        m.next < m.calls.len(),
        m.calls[m.next as int] is WriteFile,
        planned(m.calls[m.next as int], m.prefixes, m.gateway) is Stage || planned(
            m.calls[m.next as int],
            m.prefixes,
            m.gateway,
        ) is Record,
    ensures
        loop_sound(LoopModel { phase: Phase::Asking, ..with_write(m) }),
{
    let write = asked_write(m.calls[m.next as int]);
    let after = staged(m.writes, write);
    lemma_staged_sound(m.writes, write);
    assert forall|i: int| 0 <= i < after.len() implies {
        let w = #[trigger] after[i];
        &&& w.parts == target(w.path)
        &&& w.parts.len() > 0
        &&& !absolute(w.path)
        &&& !climbs(w.parts)
    } by {
        if after[i] != write {
            assert(m.writes.contains(after[i]));
            let k = choose|k: int| 0 <= k < m.writes.len() && m.writes[k] == after[i];
            assert(m.writes[k] == after[i]);
        }
    }
}

proof fn lemma_work_on_sound(m: LoopModel)
    requires
        loop_sound(LoopModel { phase: Phase::Asking, ..m }),
    ensures
        loop_sound(work_on(m).0),
    decreases m.calls.len() - m.next,
{
    let calm = LoopModel { phase: Phase::Asking, ..m };
    if m.next < m.calls.len() {
        match planned(m.calls[m.next as int], m.prefixes, m.gateway) {
            CallPlan::Tell { result } => {
                lemma_work_on_sound(with_result(m, result));
            },
            CallPlan::Stage => {
                lemma_with_write_sound(calm);
                lemma_work_on_sound(with_write(m));
            },
            _ => {},
        }
    }
}

/// Every step keeps what holds of the loop at all times.
pub proof fn law_step_keeps_sound(m: LoopModel, event: EventModel)
    requires
        loop_sound(m),
        awaited(m, event),
    ensures
        loop_sound(loop_step(m, event).0),
{
    match event {
        EventModel::Reply(reply) => {
            if let Ok(calls) = tool_calls(reply) {
                lemma_work_on_sound(opened(m, reply, calls));
            }
        },
        EventModel::Recorded(false) => {},
        _ => {
            if event is Recorded {
                lemma_with_write_sound(m);
            }
            lemma_work_on_sound(taken_in(m, event));
        },
    }
}

/// The tool loop.
pub struct ToolLoop {
    turns: u32,
    asked: u32,
    messages: Vec<Message>,
    writes: Vec<StagedWrite>,
    problem: Option<String>,
    prefixes: Vec<String>,
    gateway: bool,
    reply: String,
    calls: Vec<MasonTool>,
    next: usize,
    results: Vec<String>,
    phase: Phase,
}

impl View for ToolLoop {
    type V = LoopModel;

    closed spec fn view(&self) -> LoopModel {
        LoopModel {
            turns: self.turns as nat,
            asked: self.asked as nat,
            messages: message_models(self.messages@),
            writes: write_models(self.writes@),
            problem: optional_text(self.problem),
            prefixes: texts(self.prefixes@),
            gateway: self.gateway,
            reply: self.reply@,
            calls: tool_models(self.calls@),
            next: self.next as nat,
            results: texts(self.results@),
            phase: self.phase,
        }
    }
}

impl ToolLoop {
    /// A loop over a conversation. The model is asked at least once. Paths with
    /// one of `prefixes` are not read, and `gateway` tells whether writes are
    /// recorded. The first thing to do is to ask the model.
    pub fn new(
        messages: Vec<Message>,
        max_turns: u32,
        prefixes: Vec<String>,
        gateway: bool,
    ) -> (out: ToolLoop)
        ensures
            out@ == loop_start(
                message_models(messages@),
                max_turns as nat,
                texts(prefixes@),
                gateway,
            ),
            loop_sound(out@),
    {
        let out = ToolLoop {
            turns: if max_turns == 0 {
                1
            } else {
                max_turns
            },
            asked: 1,
            messages,
            writes: Vec::new(),
            problem: None,
            prefixes,
            gateway,
            reply: String::new(),
            calls: Vec::new(),
            next: 0,
            results: Vec::new(),
            phase: Phase::Asking,
        };
        proof {
            reveal_strlit("");
        }
        assert(out@ =~= loop_start(
            message_models(messages@),
            max_turns as nat,
            texts(prefixes@),
            gateway,
        ));
        out
    }

    /// The conversation so far.
    pub fn messages(&self) -> (out: &Vec<Message>)
        ensures
            message_models(out@) == self@.messages,
    {
        &self.messages
    }

    /// What the loop is waiting for.
    pub fn phase(&self) -> (out: Phase)
        ensures
            out == self@.phase,
    {
        self.phase
    }

    fn answer(&mut self, reply: String, answer: String)
        ensures
            final(self)@ == (LoopModel {
                messages: answered(old(self)@.messages, reply@, answer@),
                ..old(self)@
            }),
    {
        let ghost before = self.messages@;
        self.messages.push(Message::assistant(reply));
        self.messages.push(Message::user(answer));
        assert(message_models(self.messages@) =~= answered(
            message_models(before),
            reply@,
            answer@,
        ));
    }

    fn ask_again(&mut self) -> (action: LoopAction)
        ensures
            (final(self)@, action@) == ask_again(old(self)@),
    {
        if self.asked < self.turns {
            self.asked = self.asked + 1;
            self.phase = Phase::Asking;
            LoopAction::Ask
        } else {
            self.phase = Phase::Done;
            let problem = match &self.problem {
                Some(problem) => Some(problem.clone()),
                None => None,
            };
            LoopAction::Fail { error: LoopFault::TurnsUsedUp { turns: self.turns, problem } }
        }
    }

    /// Refuses a reply as a whole, for the reason that is given.
    pub fn refuse_reply(&mut self, reply: String, problem: String) -> (action: LoopAction)
        requires
            loop_sound(old(self)@),
            old(self)@.phase == Phase::Asking,
        ensures
            (final(self)@, action@) == refuse_reply(old(self)@, reply@, problem@),
            loop_sound(final(self)@),
    {
        let text = String::from_str("Your previous message could not be used: ").concat(
            problem.as_str(),
        ).concat("\n\n").concat(TOOL_LOOP_INSTRUCTION);
        self.answer(reply, text);
        self.problem = Some(problem);
        self.ask_again()
    }

    fn push_result(&mut self, result: &str)
        requires
            old(self)@.next < old(self)@.calls.len(),
        ensures
            final(self)@ == with_result(old(self)@, result@),
    {
        assert(self.next < self.calls.len());
        let ghost before = self.results@;
        let text = render_tool_result(&self.calls[self.next], result);
        self.results.push(text);
        assert(texts(self.results@) =~= texts(before).push(text@));
        self.next = self.next + 1;
    }

    fn keep_write(&mut self)
        requires
            old(self)@.next < old(self)@.calls.len(),
            old(self)@.calls[old(self)@.next as int] is WriteFile,
        ensures
            final(self)@ == with_write(old(self)@),
    {
        let ghost tool = self.calls@[self.next as int]@;
        let ghost wanted = asked_write(tool);
        let (path, content) = match &self.calls[self.next] {
            MasonTool::WriteFile { path, content } => (path.clone(), content.clone()),
            _ => (String::new(), String::new()),
        };
        let normalized = normalize_project_path(path.as_str());
        let parts = parts_of(normalized.as_str());
        let place: usize = find_write(&self.writes, &parts);
        let size: usize = byte_len(content.as_str());
        let text = String::from_str("recorded write of ").concat(
            decimal_text(size as u64).as_str(),
        ).concat(" bytes to ").concat(path.as_str());
        let write = StagedWrite { parts, path, content };
        assert(write@ == wanted);
        if place < self.writes.len() {
            let earlier: usize = byte_len(self.writes[place].content.as_str());
            let text = text.concat(" (replaces the earlier ").concat(
                decimal_text(earlier as u64).as_str(),
            ).concat(" byte write to the same file in this loop)");
            let ghost before = self.writes@;
            self.writes[place] = write;
            assert(write_models(self.writes@) =~= write_models(before).update(
                place as int,
                wanted,
            ));
            self.push_result(text.as_str());
        } else {
            let ghost before = self.writes@;
            self.writes.push(write);
            assert(write_models(self.writes@) =~= write_models(before).push(wanted));
            self.push_result(text.as_str());
        }
    }

    fn work_on(&mut self) -> (action: LoopAction)
        ensures
            (final(self)@, action@) == work_on(old(self)@),
    {
        let ghost start = self@;
        while self.next < self.calls.len()
            invariant
                start == old(self)@,
                work_on(self@) == work_on(start),
            decreases self@.calls.len() - self@.next,
        {
            match plan_call(&self.calls[self.next], &self.prefixes, self.gateway) {
                CallPlan::Stop { fault } => {
                    self.phase = Phase::Done;
                    return LoopAction::Fail { error: fault };
                },
                CallPlan::Tell { result } => {
                    self.push_result(result.as_str());
                },
                CallPlan::Read { parts } => {
                    self.phase = Phase::Reading;
                    return LoopAction::Read { parts };
                },
                CallPlan::List { parts } => {
                    self.phase = Phase::Listing;
                    return LoopAction::List { parts };
                },
                CallPlan::Record { path, byte_len } => {
                    self.phase = Phase::Recording;
                    return LoopAction::Record { path, byte_len };
                },
                CallPlan::Stage => {
                    self.keep_write();
                },
            }
        }
        let answer = join_texts(self.results.as_slice(), "\n\n");
        let reply = self.reply.clone();
        self.answer(reply, answer);
        self.ask_again()
    }

    fn written(&self) -> (out: Vec<(String, String)>)
        ensures
            pair_texts(out@) == write_pairs(self@.writes),
    {
        let mut out: Vec<(String, String)> = Vec::new();
        let ghost all = write_pairs(self@.writes);
        for i in 0..self.writes.len()
            invariant
                all == write_pairs(write_models(self.writes@)),
                pair_texts(out@) == all.take(i as int),
        {
            let pair = (self.writes[i].path.clone(), self.writes[i].content.clone());
            let ghost before = out@;
            out.push(pair);
            assert(pair_texts(out@) =~= pair_texts(before).push((pair.0@, pair.1@)));
            assert(pair_texts(out@) =~= all.take(i + 1));
        }
        assert(all.take(all.len() as int) =~= all);
        out
    }

    fn on_reply(&mut self, reply: String) -> (action: LoopAction)
        requires
            loop_sound(old(self)@),
            old(self)@.phase == Phase::Asking,
        ensures
            (final(self)@, action@) == on_reply(old(self)@, reply@),
    {
        let calls = match parse_tool_calls(reply.as_str()) {
            Ok(calls) => calls,
            Err(error) => {
                let problem = error.message();
                return self.refuse_reply(reply, problem);
            },
        };
        match unreadable_write_marker(reply.as_str()) {
            Some(problem) => {
                return self.refuse_reply(reply, problem);
            },
            None => {},
        }
        if calls.len() == 0 {
            let writes = self.written();
            self.phase = Phase::Done;
            return LoopAction::Finish { writes };
        }
        let ghost m = self@;
        self.reply = reply;
        self.calls = calls;
        self.next = 0;
        self.results = Vec::new();
        assert(self@ =~= opened(m, reply@, tool_models(calls@)));
        self.work_on()
    }

    /// Takes in how the last action went and says what is to be done next.
    pub fn step(&mut self, event: LoopEvent) -> (action: LoopAction)
        requires
            loop_sound(old(self)@),
            awaited(old(self)@, event@),
        ensures
            (final(self)@, action@) == loop_step(old(self)@, event@),
            loop_sound(final(self)@),
    {
        proof {
            law_step_keeps_sound(self@, event@);
        }
        match event {
            LoopEvent::Reply(reply) => self.on_reply(reply),
            LoopEvent::FileRead(outcome) => {
                let text = read_result_text(self.calls[self.next].path(), outcome);
                self.push_result(text.as_str());
                self.work_on()
            },
            LoopEvent::Listed(outcome) => {
                let text = list_result_text(self.calls[self.next].path(), outcome);
                self.push_result(text.as_str());
                self.work_on()
            },
            LoopEvent::Recorded(accepted) => if accepted {
                self.keep_write();
                self.work_on()
            } else {
                let path = String::from_str(self.calls[self.next].path());
                self.phase = Phase::Done;
                LoopAction::Fail { error: LoopFault::GatewayRefused { path } }
            },
        }
    }
}

} // verus!
