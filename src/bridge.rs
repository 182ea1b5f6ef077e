//! The message bridge between page scripts and the host.
//!
//! Page script posts a JSON text that is either a notification
//! `{method, params}` or a request `{id, method, params}`. The host parses it
//! and asks the bridge what to do: ignore it, report a parse error, or invoke
//! the RPC handler. For a request the handler's outcome becomes a reply
//! script that resolves (or rejects) the continuation registered under the
//! request's id in the page.
use vstd::prelude::*;
use crate::text::join;

verus! {

/// The script that every document runs first: it defines the gateway through
/// which page script posts strings to the host, unmodified.
pub const BRIDGE_BOOTSTRAP: &'static str = "window.external={invoke:s=>window.chrome.webview.postMessage(s)}";

/// The page-side continuation that resolves a pending call.
pub const RESULT_CALL: &'static str = "window.external.rpc._result(";

/// The page-side continuation that rejects a pending call.
pub const ERROR_CALL: &'static str = "window.external.rpc._error(";

/// What separates the id from the payload in a reply call.
pub const ARGUMENT_SEPARATOR: &'static str = ", ";

/// What closes a reply call.
pub const CALL_END: &'static str = ")";

/// A posted message after parsing. Each field holds JSON text: `id` that of
/// the request's id (absent for a notification), `params` that of the
/// parameters.
pub struct RpcMessage {
    pub id: Option<String>,
    pub method: String,
    pub params: String,
}

pub open spec fn opt_view(o: Option<String>) -> Option<Seq<char>> {
    match o {
        Some(s) => Some(s@),
        None => None,
    }
}

pub open spec fn outcome_view(o: Result<String, String>) -> Result<Seq<char>, Seq<char>> {
    match o {
        Ok(v) => Ok(v@),
        Err(e) => Err(e@),
    }
}

/// A parsed message as plain sequences: its id, method and parameters.
pub struct MessageModel {
    pub id: Option<Seq<char>>,
    pub method: Seq<char>,
    pub params: Seq<char>,
}

impl View for RpcMessage {
    type V = MessageModel;

    open spec fn view(&self) -> MessageModel {
        MessageModel { id: opt_view(self.id), method: self.method@, params: self.params@ }
    }
}

pub open spec fn parsed_view(p: Result<RpcMessage, String>) -> Result<MessageModel, Seq<char>> {
    match p {
        Ok(m) => Ok(m@),
        Err(e) => Err(e@),
    }
}

/// What the bridge does with one posted message.
pub enum Dispatch {
    /// No handler is registered: the message is dropped.
    Ignore,
    /// The message did not parse: the detail goes to the host's error channel.
    ReportParseError(String),
    /// The handler is invoked once with `method` and `params`; a reply is owed
    /// to `reply_to` when it is present.
    Invoke { method: String, params: String, reply_to: Option<String> },
}

pub enum DispatchModel {
    Ignore,
    ReportParseError(Seq<char>),
    Invoke { method: Seq<char>, params: Seq<char>, reply_to: Option<Seq<char>> },
}

impl View for Dispatch {
    type V = DispatchModel;

    open spec fn view(&self) -> DispatchModel {
        match self {
            Dispatch::Ignore => DispatchModel::Ignore,
            Dispatch::ReportParseError(e) => DispatchModel::ReportParseError(e@),
            Dispatch::Invoke { method, params, reply_to } => DispatchModel::Invoke {
                method: method@,
                params: params@,
                reply_to: opt_view(*reply_to),
            },
        }
    }
}

/// The bridge's decision on a posted message.
pub open spec fn dispatch_of(registered: bool, parsed: Result<MessageModel, Seq<char>>) -> DispatchModel {
    if !registered {
        DispatchModel::Ignore
    } else {
        match parsed {
            Err(e) => DispatchModel::ReportParseError(e),
            Ok(m) => DispatchModel::Invoke { method: m.method, params: m.params, reply_to: m.id },
        }
    }
}

/// How many times the handler runs for a decision.
pub open spec fn invocations_of(d: DispatchModel) -> nat {
    if d is Invoke { 1 } else { 0 }
}

/// How many errors a decision reports.
pub open spec fn reports_of(d: DispatchModel) -> nat {
    if d is ReportParseError { 1 } else { 0 }
}

/// The reply script for request `id` and the handler's outcome: the result
/// resolves the continuation, the error rejects it.
pub open spec fn reply_script_of(id: Seq<char>, outcome: Result<Seq<char>, Seq<char>>) -> Seq<char> {
    match outcome {
        Ok(v) => RESULT_CALL@ + id + ARGUMENT_SEPARATOR@ + v + CALL_END@,
        Err(e) => ERROR_CALL@ + id + ARGUMENT_SEPARATOR@ + e + CALL_END@,
    }
}

/// The reply owed once the handler has run: one script for a request, none
/// for a notification.
pub open spec fn reply_of(
    reply_to: Option<Seq<char>>,
    outcome: Result<Seq<char>, Seq<char>>,
) -> Option<Seq<char>> {
    match reply_to {
        Some(id) => Some(reply_script_of(id, outcome)),
        None => None,
    }
}

/// The bridge of one web view. It holds no state that a message changes, so
/// a message that fails leaves it as usable as before.
pub struct MessageBridge {
    pub handler_registered: bool,
}

impl MessageBridge {
    pub fn new(handler_registered: bool) -> (r: MessageBridge)
        ensures
            r.handler_registered == handler_registered,
    {
        MessageBridge { handler_registered }
    }

    /// Decides what happens to a posted message, given the outcome of
    /// parsing it.
    pub fn dispatch(&self, parsed: Result<RpcMessage, String>) -> (r: Dispatch)
        ensures
            r@ == dispatch_of(self.handler_registered, parsed_view(parsed)),
    {
        if !self.handler_registered {
            return Dispatch::Ignore;
        }
        match parsed {
            Err(e) => Dispatch::ReportParseError(e),
            Ok(m) => Dispatch::Invoke { method: m.method, params: m.params, reply_to: m.id },
        }
    }
}

/// The script that resolves or rejects the continuation of request `id`.
pub fn reply_script(id: &str, outcome: &Result<String, String>) -> (r: String)
    ensures
        r@ == reply_script_of(id@, outcome_view(*outcome)),
{
    let (call, payload) = match outcome {
        Ok(v) => (RESULT_CALL, v.as_str()),
        Err(e) => (ERROR_CALL, e.as_str()),
    };
    let a = join(call, id);
    let b = join(a.as_str(), ARGUMENT_SEPARATOR);
    let c = join(b.as_str(), payload);
    join(c.as_str(), CALL_END)
}

/// The reply owed after the handler ran for a message whose id is `reply_to`.
pub fn reply(reply_to: &Option<String>, outcome: &Result<String, String>) -> (r: Option<String>)
    ensures
        opt_view(r) == reply_of(opt_view(*reply_to), outcome_view(*outcome)),
{
    match reply_to {
        Some(id) => Some(reply_script(id.as_str(), outcome)),
        None => None,
    }
}

/// A well-formed notification runs the handler exactly once and is answered
/// by no script, whatever the handler returned.
pub proof fn lemma_notification_runs_handler_once(
    method: Seq<char>,
    params: Seq<char>,
    outcome: Result<Seq<char>, Seq<char>>,
)
    ensures
        ({
            let d = dispatch_of(true, Ok(MessageModel { id: None, method, params }));
            &&& invocations_of(d) == 1
            &&& d == DispatchModel::Invoke { method, params, reply_to: None }
            &&& reply_of(d->reply_to, outcome) is None
        }),
{
}

/// A well-formed request with id `k` is answered by exactly one script that
/// calls the resolving continuation with `k` and the value, or the rejecting
/// one with `k` and the error, never both.
pub proof fn lemma_request_gets_one_reply(
    k: Seq<char>,
    method: Seq<char>,
    params: Seq<char>,
    outcome: Result<Seq<char>, Seq<char>>,
)
    ensures
        ({
            let d = dispatch_of(true, Ok(MessageModel { id: Some(k), method, params }));
            &&& invocations_of(d) == 1
            &&& d->reply_to == Some(k)
            &&& reply_of(d->reply_to, outcome) == Some(reply_script_of(k, outcome))
        }),
        outcome is Ok ==> reply_script_of(k, outcome) == RESULT_CALL@ + k + ARGUMENT_SEPARATOR@
            + outcome->Ok_0 + CALL_END@,
        outcome is Err ==> reply_script_of(k, outcome) == ERROR_CALL@ + k + ARGUMENT_SEPARATOR@
            + outcome->Err_0 + CALL_END@,
{
}

/// A message that does not parse runs no handler and reports one error, and
/// the bridge still dispatches the next well-formed message to the handler.
pub proof fn lemma_malformed_message_reported(detail: Seq<char>, next: MessageModel)
    ensures
        invocations_of(dispatch_of(true, Err(detail))) == 0,
        reports_of(dispatch_of(true, Err(detail))) == 1,
        dispatch_of(true, Err(detail)) == DispatchModel::ReportParseError(detail),
        invocations_of(dispatch_of(true, Ok(next))) == 1,
{
}

} // verus!
