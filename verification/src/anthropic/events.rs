//! What the backend sends, and what is gathered from it.

use vstd::prelude::*;

use crate::amount::Amount;
use crate::anthropic::collected::{calls_view, CallView, CollectedCall};
use crate::table::Table;

verus! {

/// A piece of a tool call.
#[derive(Debug)]
pub struct ToolUseEvent {
    pub name: String,
    pub tool_use_id: String,
    pub input: String,
    pub stop: bool,
}

/// An event of the backend. The use of the context window comes as a percentage, with the
/// number of input tokens that it stands for.
#[derive(Debug)]
pub enum Event {
    AssistantResponse { content: String },
    ToolUse(ToolUseEvent),
    ContextUsage { percentage: Amount, input_tokens: i32 },
    Exception { exception_type: String, message: String },
    Error { error_code: String, error_message: String },
    Other,
}

/// A frame of the backend's stream: an event, or why there is none.
#[derive(Debug)]
pub enum Frame {
    Event(Event),
    DecodeFailed(String),
    Invalid(String),
}

/// A tool call that has not been completed: its name, and its arguments so far.
#[derive(Debug)]
pub struct OpenCall {
    pub name: String,
    pub arguments: String,
}

/// The open calls by their id: the name of each, and its arguments so far.
pub open spec fn open_calls(calls: Map<Seq<char>, OpenCall>) -> Map<
    Seq<char>,
    (Seq<char>, Seq<char>),
> {
    calls.map_values(|call: OpenCall| (call.name@, call.arguments@))
}

/// The name that a tool has for the client, where it was given another for the backend.
pub open spec fn renamed(names: Map<Seq<char>, String>, name: Seq<char>) -> Seq<char> {
    if names.dom().contains(name) {
        names[name]@
    } else {
        name
    }
}

/// The open calls and the completed ones.
pub struct CallsView {
    pub open: Map<Seq<char>, (Seq<char>, Seq<char>)>,
    pub done: Seq<CallView>,
}

/// The call that a piece belongs to, with the piece: an open one, else a new one.
pub open spec fn with_piece(
    open: Map<Seq<char>, (Seq<char>, Seq<char>)>,
    tool: ToolUseEvent,
) -> (Seq<char>, Seq<char>) {
    let id = tool.tool_use_id@;
    if open.dom().contains(id) {
        (open[id].0, open[id].1 + tool.input@)
    } else {
        (tool.name@, tool.input@)
    }
}

/// What a piece of a tool call does to the calls: it is put behind the call's arguments,
/// and the last piece completes the call under `item_id`.
pub open spec fn tool_processed(
    calls: CallsView,
    names: Map<Seq<char>, String>,
    tool: ToolUseEvent,
    item_id: Seq<char>,
) -> CallsView {
    let id = tool.tool_use_id@;
    let (name, arguments) = with_piece(calls.open, tool);
    if tool.stop {
        CallsView {
            open: calls.open.remove(id),
            done: calls.done.push(
                CallView { item_id, call_id: id, name: renamed(names, name), arguments },
            ),
        }
    } else {
        CallsView { open: calls.open.insert(id, (name, arguments)), done: calls.done }
    }
}

/// A call that comes in two pieces is the call that comes in one.
pub proof fn law_pieces_of_a_call_add_up(
    calls: CallsView,
    names: Map<Seq<char>, String>,
    first: ToolUseEvent,
    second: ToolUseEvent,
    whole: ToolUseEvent,
    item_id: Seq<char>,
)
    requires
        first.tool_use_id@ == whole.tool_use_id@,
        second.tool_use_id@ == whole.tool_use_id@,
        first.name@ == whole.name@,
        !first.stop,
        second.stop == whole.stop,
        whole.input@ == first.input@ + second.input@,
    ensures
        tool_processed(tool_processed(calls, names, first, item_id), names, second, item_id)
            == tool_processed(calls, names, whole, item_id),
{
    let id = whole.tool_use_id@;
    let between = tool_processed(calls, names, first, item_id);
    let after = tool_processed(between, names, second, item_id);
    let once = tool_processed(calls, names, whole, item_id);
    assert(with_piece(between.open, second).1 =~= with_piece(calls.open, whole).1);
    assert(after.open =~= once.open);
}

/// The name that a tool has for the client.
pub fn client_name(names: &Table<String>, name: &str) -> (r: String)
    ensures
        r@ == renamed(names@, name@),
{
    match names.get(name) {
        Some(given) => given.clone(),
        None => name.to_owned(),
    }
}

/// Puts a piece of a tool call behind the call's arguments; the last piece completes the
/// call under `item_id`.
pub fn process_piece(
    open: &mut Table<OpenCall>,
    calls: &mut Vec<CollectedCall>,
    names: &Table<String>,
    tool: &ToolUseEvent,
    item_id: &str,
)
    ensures
        (CallsView { open: open_calls(final(open)@), done: calls_view(final(calls)@) })
            == tool_processed(
            CallsView { open: open_calls(old(open)@), done: calls_view(old(calls)@) },
            names@,
            *tool,
            item_id@,
        ),
{
    let ghost before = open@;
    let ghost done = calls@;
    let ghost id = tool.tool_use_id@;
    let (name, arguments) = match open.remove(tool.tool_use_id.as_str()) {
        Some(call) => {
            let mut arguments = call.arguments;
            arguments.append(tool.input.as_str());
            (call.name, arguments)
        },
        None => (tool.name.clone(), tool.input.clone()),
    };
    assert((name@, arguments@) == with_piece(open_calls(before), *tool));
    if tool.stop {
        assert(open_calls(open@) =~= open_calls(before).remove(id));
        let call = CollectedCall {
            item_id: item_id.to_owned(),
            call_id: tool.tool_use_id.clone(),
            name: client_name(names, name.as_str()),
            arguments,
        };
        calls.push(call);
        assert(calls_view(calls@) =~= calls_view(done).push(call@));
    } else {
        let ghost piece = (name@, arguments@);
        open.insert(tool.tool_use_id.clone(), OpenCall { name, arguments });
        assert(open_calls(open@) =~= open_calls(before).insert(id, piece));
    }
}

} // verus!
