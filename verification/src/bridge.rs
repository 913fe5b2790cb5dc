//! The bridge: a small listener on the loopback interface through which
//! a browser hands URLs to the program.
//!
//! A client sends one request and gets one answer. What it posts is passed
//! on to the user interface; a preflight request is allowed; everything
//! else is refused. The listener itself belongs to the caller: this module
//! says what to answer, and keeps track of whether the bridge is up.

use vstd::prelude::*;
use vstd::slice::slice_subrange;
use vstd::string::StrSliceExecFns;
use vstd::string::StringExecFns;
use vstd::utf8::decode_utf8;
use vstd::utf8::encode_utf8;
use vstd::utf8::valid_utf8;

use crate::decode::lossy_reading;
use crate::decode::read_lossy;
use crate::events::UiEvent;
use crate::events::UiEventView;
use crate::text::decimal;
use crate::text::decimal_string;
use crate::text::find;
use crate::text::first_occurrence;
use crate::text::starts_with;
use crate::text::to_chars;

verus! {

/// The most bytes of a request that are looked at: what one read gives.
pub const REQUEST_LIMIT: usize = 10240;

/// What a client gets back and what the user interface is told.
#[derive(Debug)]
pub struct Reply {
    /// The response to write to the client, if there is one.
    pub response: Option<String>,
    /// The event to send to the user interface, if there is one.
    pub event: Option<UiEvent>,
}

/// The mathematical content of [`Reply`].
pub struct ReplyView {
    pub response: Option<Seq<char>>,
    pub event: Option<UiEventView>,
}

impl View for Reply {
    type V = ReplyView;

    open spec fn view(&self) -> ReplyView {
        ReplyView {
            response: self.response.deep_view(),
            event: match self.event {
                Some(event) => Some(event@),
                None => None,
            },
        }
    }
}

/// The response to a preflight request: no content, and any origin may
/// post.
pub open spec fn preflight_response() -> Seq<char> {
    "HTTP/1.1 204 No Content\r\nAccess-Control-Allow-Origin: *\r\nAccess-Control-Allow-Methods: POST, GET, OPTIONS\r\nAccess-Control-Allow-Headers: Content-Type\r\n\r\n"@
}

/// The response to a request that is neither a preflight nor a post.
pub open spec fn refusal_response() -> Seq<char> {
    "HTTP/1.1 400 Bad Request\r\n\r\n"@
}

/// The response to a post: the length of the body in bytes, the headers
/// that let any origin post, and the body again.
pub open spec fn accepted_response(body: Seq<char>) -> Seq<char> {
    "HTTP/1.1 200 OK\r\nContent-Length: "@ + decimal(encode_utf8(body).len())
        + "\r\nAccess-Control-Allow-Origin: *\r\nAccess-Control-Allow-Methods: POST, GET, OPTIONS\r\nAccess-Control-Allow-Headers: Content-Type\r\n\r\n"@
        + body
}

/// The empty line that parts the headers of a request from its body.
pub open spec fn blank_line() -> Seq<char> {
    "\r\n\r\n"@
}

/// The body of a request: what follows the first empty line. A request
/// without an empty line has no body.
pub open spec fn body_of(text: Seq<char>) -> Option<Seq<char>> {
    match first_occurrence(text, blank_line()) {
        Some(i) => Some(text.skip(i + 4)),
        None => None,
    }
}

/// The answer to the request `text`.
pub open spec fn answer_to(text: Seq<char>) -> ReplyView {
    if "OPTIONS"@.is_prefix_of(text) {
        ReplyView { response: Some(preflight_response()), event: None }
    } else if "POST"@.is_prefix_of(text) && body_of(text) is Some {
        ReplyView {
            response: Some(accepted_response(body_of(text)->Some_0)),
            event: Some(UiEventView::ServerOutput(body_of(text)->Some_0)),
        }
    } else {
        ReplyView { response: Some(refusal_response()), event: None }
    }
}

fn refusal() -> (reply: Reply)
    ensures
        reply@ == (ReplyView { response: Some(refusal_response()), event: None }),
{
    Reply { response: Some(String::from_str("HTTP/1.1 400 Bad Request\r\n\r\n")), event: None }
}

/// Answers the request `text`.
///
/// A request that begins with `OPTIONS` is a preflight and is allowed. One
/// that begins with `POST` and has an empty line behind its headers has
/// its body passed on to the user interface and sent back. Any other is
/// refused, and nothing of it is passed on: not a word of the request
/// line or of the headers reaches the user interface.
pub fn answer(text: &str) -> (reply: Reply)
    ensures
        reply@ == answer_to(text@),
{
    if starts_with(text, "OPTIONS") {
        return Reply {
            response: Some(
                String::from_str(
                    "HTTP/1.1 204 No Content\r\nAccess-Control-Allow-Origin: *\r\nAccess-Control-Allow-Methods: POST, GET, OPTIONS\r\nAccess-Control-Allow-Headers: Content-Type\r\n\r\n",
                ),
            ),
            event: None,
        };
    }
    if !starts_with(text, "POST") {
        return refusal();
    }
    proof {
        reveal_strlit("\r\n\r\n");
    }
    let chars = to_chars(text);
    let pattern = to_chars("\r\n\r\n");
    let total = chars.len();
    let found = find(&chars, &pattern);
    assert(pattern@.len() == 4);
    let start: usize = match found {
        Some(i) => i + 4,
        None => {
            return refusal();
        },
    };
    let body = text.substring_char(start, total);
    assert(Some(body@) == body_of(text@));
    let length = decimal_string(body.as_bytes().len() as u64);
    let mut response = String::from_str("HTTP/1.1 200 OK\r\nContent-Length: ");
    response.append(length.as_str());
    response.append(
        "\r\nAccess-Control-Allow-Origin: *\r\nAccess-Control-Allow-Methods: POST, GET, OPTIONS\r\nAccess-Control-Allow-Headers: Content-Type\r\n\r\n",
    );
    response.append(body);
    assert(response@ =~= accepted_response(body@));
    Reply { response: Some(response), event: Some(UiEvent::ServerOutput(String::from_str(body))) }
}

/// The bytes of a request that are looked at.
pub open spec fn heard(received: Seq<u8>) -> Seq<u8> {
    if received.len() > REQUEST_LIMIT {
        received.take(REQUEST_LIMIT as int)
    } else {
        received
    }
}

/// The answer to the bytes that a client sent: none at all where nothing
/// came, and else the answer to their lossy reading as UTF-8.
pub open spec fn reply_to(received: Seq<u8>) -> ReplyView {
    if received.len() == 0 {
        ReplyView { response: None, event: None }
    } else {
        answer_to(lossy_reading(heard(received)))
    }
}

/// Handles what one read from a client gave.
///
/// A client that sent nothing gets no answer and nothing is passed on. A
/// request in valid UTF-8 is answered as the text that it encodes.
pub fn handle_client(received: &[u8]) -> (reply: Reply)
    ensures
        reply@ == reply_to(received@),
        received@.len() > 0 && valid_utf8(heard(received@)) ==> reply@ == answer_to(
            decode_utf8(heard(received@)),
        ),
{
    if received.len() == 0 {
        return Reply { response: None, event: None };
    }
    let looked_at = if received.len() > REQUEST_LIMIT {
        slice_subrange(received, 0, REQUEST_LIMIT)
    } else {
        received
    };
    let text = read_lossy(looked_at);
    answer(text.as_str())
}

/// Whether the bridge is up.
#[derive(Clone, Copy, Debug, PartialEq, Eq, Structural)]
pub enum ServerState {
    /// It is down.
    Stopped,
    /// It is about to listen on this port; whether it can is not known
    /// yet.
    Starting(u16),
    /// It listens on this port.
    Listening(u16),
}

/// What the caller is to do for the bridge.
#[derive(Clone, Copy, Debug, PartialEq, Eq, Structural)]
pub enum ServerAction {
    /// Nothing.
    Nothing,
    /// Listen on this port of the loopback interface, and report whether
    /// that was possible.
    Bind(u16),
    /// Stop accepting clients and let go of the port.
    Shutdown,
}

/// The state after a start is asked for on `port`: a bridge that is down
/// comes up; one that is up, or about to be, stays as it is.
pub open spec fn after_start(state: ServerState, port: u16) -> ServerState {
    match state {
        ServerState::Stopped => ServerState::Starting(port),
        _ => state,
    }
}

/// What a start on `port` asks of the caller.
pub open spec fn start_action(state: ServerState, port: u16) -> ServerAction {
    match state {
        ServerState::Stopped => ServerAction::Bind(port),
        _ => ServerAction::Nothing,
    }
}

/// The state after listening was tried.
pub open spec fn after_bind(state: ServerState, bound: bool) -> ServerState {
    match state {
        ServerState::Starting(port) => if bound {
            ServerState::Listening(port)
        } else {
            ServerState::Stopped
        },
        _ => state,
    }
}

/// The state after a stop is asked for: the bridge is down.
pub open spec fn after_stop(state: ServerState) -> ServerState {
    ServerState::Stopped
}

/// What a stop asks of the caller.
pub open spec fn stop_action(state: ServerState) -> ServerAction {
    match state {
        ServerState::Stopped => ServerAction::Nothing,
        _ => ServerAction::Shutdown,
    }
}

/// The word that reports whether the bridge could listen.
pub open spec fn bind_report(bound: bool) -> Seq<char> {
    if bound {
        "成功"@
    } else {
        "失敗"@
    }
}

/// The keeper of the bridge's state.
#[derive(Debug)]
pub struct ServerManager {
    state: ServerState,
}

impl ServerManager {
    /// The state as it stands.
    pub closed spec fn state(&self) -> ServerState {
        self.state
    }

    /// A bridge that is down.
    pub fn new() -> (manager: ServerManager)
        ensures
            manager.state() == ServerState::Stopped,
    {
        ServerManager { state: ServerState::Stopped }
    }

    /// The state as it stands.
    pub fn current(&self) -> (state: ServerState)
        ensures
            state == self.state(),
    {
        self.state
    }

    /// Asks to bring the bridge up on `port`. A bridge that is up already
    /// is left alone, so that no port is bound twice.
    pub fn start_server(&mut self, port: u16) -> (action: ServerAction)
        ensures
            final(self).state() == after_start(old(self).state(), port),
            action == start_action(old(self).state(), port),
    {
        match self.state {
            ServerState::Stopped => {
                self.state = ServerState::Starting(port);
                ServerAction::Bind(port)
            },
            _ => ServerAction::Nothing,
        }
    }

    /// Reports whether listening was possible. The report for the user
    /// interface comes back, if a start was waiting for it. After a
    /// failure the bridge is down.
    pub fn bind_finished(&mut self, bound: bool) -> (event: Option<UiEvent>)
        ensures
            final(self).state() == after_bind(old(self).state(), bound),
            match old(self).state() {
                ServerState::Starting(_) => event is Some && event->Some_0@
                    == UiEventView::StartServerOutput(bind_report(bound)),
                _ => event is None,
            },
    {
        match self.state {
            ServerState::Starting(port) => {
                if bound {
                    self.state = ServerState::Listening(port);
                    Some(UiEvent::StartServerOutput(String::from_str("成功")))
                } else {
                    self.state = ServerState::Stopped;
                    Some(UiEvent::StartServerOutput(String::from_str("失敗")))
                }
            },
            _ => None,
        }
    }

    /// Asks to bring the bridge down. On a bridge that is down this does
    /// nothing.
    pub fn stop_server(&mut self) -> (action: ServerAction)
        ensures
            final(self).state() == after_stop(old(self).state()),
            action == stop_action(old(self).state()),
    {
        match self.state {
            ServerState::Stopped => ServerAction::Nothing,
            _ => {
                self.state = ServerState::Stopped;
                ServerAction::Shutdown
            },
        }
    }
}

/// Brings the bridge up on `port` or down, as `enable` says.
pub fn toggle_server(manager: &mut ServerManager, enable: bool, port: u16) -> (action: ServerAction)
    ensures
        enable ==> final(manager).state() == after_start(old(manager).state(), port) && action
            == start_action(old(manager).state(), port),
        !enable ==> final(manager).state() == after_stop(old(manager).state()) && action
            == stop_action(old(manager).state()),
{
    if enable {
        manager.start_server(port)
    } else {
        manager.stop_server()
    }
}

/// After a stop the bridge can be started again on the same port: it is
/// down whatever it was, so the start asks to listen on that port, and
/// the bridge listens on it once that was possible.
pub proof fn law_restart_after_stop(state: ServerState, port: u16)
    ensures
        start_action(after_stop(state), port) == ServerAction::Bind(port),
        after_bind(after_start(after_stop(state), port), true) == ServerState::Listening(port),
        stop_action(after_stop(state)) == ServerAction::Nothing,
{
}

/// While the bridge is up or about to be, a start asks for nothing: no
/// port is bound a second time.
pub proof fn law_one_listener(state: ServerState, port: u16)
    requires
        !(state is Stopped),
    ensures
        start_action(state, port) is Nothing,
        after_start(state, port) == state,
{
}

/// Only a post with a body is passed on: a request that is no post, or
/// that has no empty line behind its headers, is refused, and nothing of
/// it reaches the user interface.
pub proof fn law_only_posts_are_passed_on(text: Seq<char>)
    ensures
        answer_to(text).event is Some <==> "POST"@.is_prefix_of(text) && !"OPTIONS"@.is_prefix_of(
            text,
        ) && first_occurrence(text, blank_line()) is Some,
        answer_to(text).event is None && !"OPTIONS"@.is_prefix_of(text) ==> answer_to(
            text,
        ).response == Some(refusal_response()),
{
}

/// What is passed on is the body and nothing else: it is the text behind
/// the first empty line of the request, so no part of the request line or
/// of the headers is in it.
pub proof fn law_only_the_body_is_passed_on(text: Seq<char>)
    requires
        answer_to(text).event is Some,
    ensures
        first_occurrence(text, blank_line()) is Some,
        answer_to(text).event == Some(
            UiEventView::ServerOutput(text.skip(first_occurrence(text, blank_line())->Some_0 + 4)),
        ),
{
}

} // verus!
