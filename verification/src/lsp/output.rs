//! What the server sends in answer to a notification.

use crate::lsp::diagnostics::{DiagnosticEvent, EventView};
use vstd::prelude::*;

verus! {

/// How a message is meant.
#[derive(Debug, Clone, Copy, PartialEq, Eq, Structural)]
pub enum MessageType {
    Error,
    Log,
}

/// A message to the user.
#[derive(Debug, Clone)]
pub struct MessageEvent {
    pub typ: MessageType,
    pub message: String,
}

/// What is sent: first the diagnostics, then the messages.
#[derive(Debug, Clone)]
pub struct HandlerOutput {
    pub diagnostics: Vec<DiagnosticEvent>,
    pub messages: Vec<MessageEvent>,
}

/// The model of a message.
pub struct MessageView {
    pub typ: MessageType,
    pub message: Seq<char>,
}

/// The model of what is sent.
#[verifier::ext_equal]
pub struct OutputView {
    pub diagnostics: Seq<EventView>,
    pub messages: Seq<MessageView>,
}

impl View for MessageEvent {
    type V = MessageView;

    open spec fn view(&self) -> MessageView {
        MessageView { typ: self.typ, message: self.message@ }
    }
}

/// The models of a list of events.
pub open spec fn event_views(events: Seq<DiagnosticEvent>) -> Seq<EventView> {
    events.map_values(|e: DiagnosticEvent| e@)
}

/// The models of a list of messages.
pub open spec fn message_views(messages: Seq<MessageEvent>) -> Seq<MessageView> {
    messages.map_values(|m: MessageEvent| m@)
}

impl View for HandlerOutput {
    type V = OutputView;

    open spec fn view(&self) -> OutputView {
        OutputView {
            diagnostics: event_views(self.diagnostics@),
            messages: message_views(self.messages@),
        }
    }
}

/// A message for the log.
pub open spec fn logged(message: Seq<char>) -> MessageView {
    MessageView { typ: MessageType::Log, message }
}

/// An error message.
pub open spec fn error_shown(message: Seq<char>) -> MessageView {
    MessageView { typ: MessageType::Error, message }
}

/// Makes a message for the log of a text.
pub open spec fn as_log() -> spec_fn(Seq<char>) -> MessageView {
    |message: Seq<char>| logged(message)
}

impl OutputView {
    /// Nothing is sent.
    pub open spec fn nothing() -> OutputView {
        OutputView { diagnostics: Seq::empty(), messages: Seq::empty() }
    }

    /// One more event is sent.
    pub open spec fn with_event(self, event: EventView) -> OutputView {
        OutputView { diagnostics: self.diagnostics.push(event), ..self }
    }

    /// More events are sent.
    pub open spec fn with_events(self, events: Seq<EventView>) -> OutputView {
        OutputView { diagnostics: self.diagnostics + events, ..self }
    }

    /// One more message is sent.
    pub open spec fn with_message(self, message: MessageView) -> OutputView {
        OutputView { messages: self.messages.push(message), ..self }
    }

    /// More messages for the log are sent.
    pub open spec fn with_logs(self, messages: Seq<Seq<char>>) -> OutputView {
        OutputView { messages: self.messages + messages.map_values(as_log()), ..self }
    }
}

/// A message for the log, as `logged` says.
pub fn log_message_event(message: String) -> (r: MessageEvent)
    ensures
        r@ == logged(message@),
{
    MessageEvent { typ: MessageType::Log, message }
}

/// An error message, as `error_shown` says.
pub fn show_error_event(message: String) -> (r: MessageEvent)
    ensures
        r@ == error_shown(message@),
{
    MessageEvent { typ: MessageType::Error, message }
}

impl Default for HandlerOutput {
    /// Nothing is sent.
    fn default() -> (r: HandlerOutput)
        ensures
            r@ == OutputView::nothing(),
    {
        let r = HandlerOutput { diagnostics: Vec::new(), messages: Vec::new() };
        assert(r@ =~= OutputView::nothing());
        r
    }
}

impl HandlerOutput {
    /// One event is sent.
    pub fn with_diagnostic(event: DiagnosticEvent) -> (r: HandlerOutput)
        ensures
            r@ == OutputView::nothing().with_event(event@),
    {
        let mut r = HandlerOutput::default();
        r.add_event(event);
        r
    }

    /// Adds an event.
    pub fn add_event(&mut self, event: DiagnosticEvent)
        ensures
            final(self)@ == old(self)@.with_event(event@),
    {
        self.diagnostics.push(event);
        assert(self@ =~= old(self)@.with_event(event@));
    }

    /// Adds events.
    pub fn add_events(&mut self, events: Vec<DiagnosticEvent>)
        ensures
            final(self)@ == old(self)@.with_events(event_views(events@)),
    {
        let mut events = events;
        let ghost added = events@;
        self.diagnostics.append(&mut events);
        assert(self@ =~= old(self)@.with_events(event_views(added)));
    }

    /// Adds a message.
    pub fn add_message(&mut self, message: MessageEvent)
        ensures
            final(self)@ == old(self)@.with_message(message@),
    {
        self.messages.push(message);
        assert(self@ =~= old(self)@.with_message(message@));
    }
}

} // verus!
