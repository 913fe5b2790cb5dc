//! What the library tells the user interface.

use vstd::prelude::*;

verus! {

/// One notification for the user interface.
#[derive(Debug, Clone)]
pub enum UiEvent {
    /// `process-output`: one line that the process printed, or a notice
    /// about the process that belongs among its output.
    ProcessOutput(String),
    /// `process-exit`: the process is over and nothing more of it follows.
    ProcessExit(String),
    /// `server-output`: what a client of the bridge posted.
    ServerOutput(String),
    /// `start-server-output`: whether the bridge could listen.
    StartServerOutput(String),
}

/// The mathematical content of [`UiEvent`].
pub enum UiEventView {
    ProcessOutput(Seq<char>),
    ProcessExit(Seq<char>),
    ServerOutput(Seq<char>),
    StartServerOutput(Seq<char>),
}

impl View for UiEvent {
    type V = UiEventView;

    open spec fn view(&self) -> UiEventView {
        match self {
            UiEvent::ProcessOutput(text) => UiEventView::ProcessOutput(text@),
            UiEvent::ProcessExit(text) => UiEventView::ProcessExit(text@),
            UiEvent::ServerOutput(text) => UiEventView::ServerOutput(text@),
            UiEvent::StartServerOutput(text) => UiEventView::StartServerOutput(text@),
        }
    }
}

impl DeepView for UiEvent {
    type V = UiEventView;

    open spec fn deep_view(&self) -> UiEventView {
        self@
    }
}

impl UiEventView {
    /// The name under which the event is sent.
    pub open spec fn name(self) -> Seq<char> {
        match self {
            UiEventView::ProcessOutput(_) => "process-output"@,
            UiEventView::ProcessExit(_) => "process-exit"@,
            UiEventView::ServerOutput(_) => "server-output"@,
            UiEventView::StartServerOutput(_) => "start-server-output"@,
        }
    }

    /// The text that the event carries.
    pub open spec fn payload(self) -> Seq<char> {
        match self {
            UiEventView::ProcessOutput(text) => text,
            UiEventView::ProcessExit(text) => text,
            UiEventView::ServerOutput(text) => text,
            UiEventView::StartServerOutput(text) => text,
        }
    }
}

impl UiEvent {
    /// The name under which the event is sent.
    pub fn name(&self) -> (name: &'static str)
        ensures
            name@ == self@.name(),
    {
        match self {
            UiEvent::ProcessOutput(_) => "process-output",
            UiEvent::ProcessExit(_) => "process-exit",
            UiEvent::ServerOutput(_) => "server-output",
            UiEvent::StartServerOutput(_) => "start-server-output",
        }
    }

    /// The text that the event carries.
    pub fn payload(&self) -> (text: &str)
        ensures
            text@ == self@.payload(),
    {
        match self {
            UiEvent::ProcessOutput(text) => text.as_str(),
            UiEvent::ProcessExit(text) => text.as_str(),
            UiEvent::ServerOutput(text) => text.as_str(),
            UiEvent::StartServerOutput(text) => text.as_str(),
        }
    }
}

} // verus!
