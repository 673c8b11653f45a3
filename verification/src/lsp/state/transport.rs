//! How the server answers messages: requests, and notifications of any kind.

use crate::error::DieselGuardError;
use crate::lsp::output::{log_message_event, logged, HandlerOutput, OutputView};
use crate::text::{fill, fill_template, same_text, views};
use super::{ServerState, StateView};
use vstd::prelude::*;

verus! {

/// The name of the server.
pub const SERVER_NAME: &'static str = "diesel-guard";

/// The notification that ends the server.
pub const EXIT_METHOD: &'static str = "exit";

/// The notification that the client has initialized itself.
pub const INITIALIZED_METHOD: &'static str = "initialized";

/// The notification that a document was opened.
pub const DID_OPEN_METHOD: &'static str = "textDocument/didOpen";

/// The notification that a document changed.
pub const DID_CHANGE_METHOD: &'static str = "textDocument/didChange";

/// The notification that a document was saved.
pub const DID_SAVE_METHOD: &'static str = "textDocument/didSave";

/// The notification that a document was closed.
pub const DID_CLOSE_METHOD: &'static str = "textDocument/didClose";

/// The code of the answer to a request that the server does not know.
pub const METHOD_NOT_FOUND: i32 = -32601;

/// What is said of a request that the server does not know.
pub const UNSUPPORTED_REQUEST_TEXT: &'static str = "Unsupported request method: {0}";

/// What is said of a notification that the server does not know.
pub const UNSUPPORTED_NOTIFICATION_TEXT: &'static str = "Ignoring unsupported notification: {0}";

/// What is said of a notification that cannot be read.
pub const DESERIALIZE_ERROR_TEXT: &'static str = "Failed to deserialize {0} notification: {1}";

/// What is said when the protocol is not kept.
pub const PROTOCOL_ERROR_TEXT: &'static str = "LSP protocol error: {0}";

/// What a notification says of a document.
#[derive(Debug, Clone, Copy, PartialEq, Eq, Structural)]
pub enum DocumentNotificationKind {
    Open,
    Change,
    Save,
    Close,
}

/// What a notification is about.
#[derive(Debug, Clone, Copy, PartialEq, Eq, Structural)]
pub enum NotificationKind {
    Exit,
    Initialized,
    Document(DocumentNotificationKind),
    Unsupported,
}

/// What the server does after a message.
#[derive(Debug, Clone, Copy, PartialEq, Eq, Structural)]
pub enum LoopControl {
    Continue,
    /// It ends with an exit code.
    Exit(i32),
}

/// An answer that refuses a request.
#[derive(Debug, Clone)]
pub struct ResponseError {
    pub code: i32,
    pub message: String,
}

/// What the server tells the client about itself.
#[derive(Debug, Clone)]
pub struct InitializeResult {
    /// Whether it wants to know which documents are open.
    pub open_close: bool,
    /// Whether a change is to come with the whole text.
    pub full_sync: bool,
    /// Whether a saved document is to come with its text.
    pub include_saved_text: bool,
    pub server_name: String,
}

/// What the method of a notification says of a document.
pub open spec fn document_kind(method: Seq<char>) -> Option<DocumentNotificationKind> {
    if method == DID_OPEN_METHOD@ {
        Some(DocumentNotificationKind::Open)
    } else if method == DID_CHANGE_METHOD@ {
        Some(DocumentNotificationKind::Change)
    } else if method == DID_SAVE_METHOD@ {
        Some(DocumentNotificationKind::Save)
    } else if method == DID_CLOSE_METHOD@ {
        Some(DocumentNotificationKind::Close)
    } else {
        None
    }
}

/// What a notification is about.
pub open spec fn kind_of(method: Seq<char>) -> NotificationKind {
    if method == EXIT_METHOD@ {
        NotificationKind::Exit
    } else if method == INITIALIZED_METHOD@ {
        NotificationKind::Initialized
    } else {
        match document_kind(method) {
            Some(kind) => NotificationKind::Document(kind),
            None => NotificationKind::Unsupported,
        }
    }
}

/// What the method of a notification says of a document, as `document_kind` says.
pub fn document_notification_kind(method: &str) -> (r: Option<DocumentNotificationKind>)
    ensures
        r == document_kind(method@),
{
    if same_text(method, DID_OPEN_METHOD) {
        Some(DocumentNotificationKind::Open)
    } else if same_text(method, DID_CHANGE_METHOD) {
        Some(DocumentNotificationKind::Change)
    } else if same_text(method, DID_SAVE_METHOD) {
        Some(DocumentNotificationKind::Save)
    } else if same_text(method, DID_CLOSE_METHOD) {
        Some(DocumentNotificationKind::Close)
    } else {
        None
    }
}

/// Whether a notification says that the client has initialized itself.
pub fn is_initialized_notification(method: &str) -> (r: bool)
    ensures
        r == (method@ == INITIALIZED_METHOD@),
{
    same_text(method, INITIALIZED_METHOD)
}

/// What a notification is about, as `kind_of` says.
pub fn notification_kind(method: &str) -> (r: NotificationKind)
    ensures
        r == kind_of(method@),
{
    if same_text(method, EXIT_METHOD) {
        NotificationKind::Exit
    } else if is_initialized_notification(method) {
        NotificationKind::Initialized
    } else {
        match document_notification_kind(method) {
            Some(kind) => NotificationKind::Document(kind),
            None => NotificationKind::Unsupported,
        }
    }
}

impl DocumentNotificationKind {
    /// What the notification is called in messages.
    pub open spec fn name(self) -> Seq<char> {
        match self {
            DocumentNotificationKind::Open => "didOpen"@,
            DocumentNotificationKind::Change => "didChange"@,
            DocumentNotificationKind::Save => "didSave"@,
            DocumentNotificationKind::Close => "didClose"@,
        }
    }

    /// What the notification is called in messages, as `name` says.
    pub fn label(self) -> (r: &'static str)
        ensures
            r@ == self.name(),
    {
        match self {
            DocumentNotificationKind::Open => "didOpen",
            DocumentNotificationKind::Change => "didChange",
            DocumentNotificationKind::Save => "didSave",
            DocumentNotificationKind::Close => "didClose",
        }
    }
}

/// What is sent about a notification that cannot be read.
pub fn deserialize_error_output(kind: DocumentNotificationKind, err: &str) -> (r: HandlerOutput)
    ensures
        r@ == OutputView::nothing().with_message(
            logged(fill(DESERIALIZE_ERROR_TEXT@, seq![kind.name(), err@])),
        ),
{
    let args: Vec<&str> = vec![kind.label(), err];
    assert(views(args@) =~= seq![kind.name(), err@]);
    let mut output = HandlerOutput::default();
    output.add_message(log_message_event(fill_template(DESERIALIZE_ERROR_TEXT, &args)));
    output
}

/// The answer to a request that the server does not know.
pub fn unsupported_request_response(method: &str) -> (r: ResponseError)
    ensures
        r.code == METHOD_NOT_FOUND,
        r.message@ == fill(UNSUPPORTED_REQUEST_TEXT@, seq![method@]),
{
    let args: Vec<&str> = vec![method];
    assert(views(args@) =~= seq![method@]);
    ResponseError {
        code: METHOD_NOT_FOUND,
        message: fill_template(UNSUPPORTED_REQUEST_TEXT, &args),
    }
}

/// The error when the protocol is not kept.
pub fn protocol_error(err: &str) -> (r: DieselGuardError)
    ensures
        r matches DieselGuardError::ParseError { msg, src, span } && msg@ == fill(
            PROTOCOL_ERROR_TEXT@,
            seq![err@],
        ) && src is None && span is None,
{
    let args: Vec<&str> = vec![err];
    assert(views(args@) =~= seq![err@]);
    DieselGuardError::parse_error(fill_template(PROTOCOL_ERROR_TEXT, &args).as_str())
}

/// What the server tells the client about itself.
pub fn initialize_result() -> (r: InitializeResult)
    ensures
        r.open_close,
        r.full_sync,
        r.include_saved_text,
        r.server_name@ == SERVER_NAME@,
{
    InitializeResult {
        open_close: true,
        full_sync: true,
        include_saved_text: true,
        server_name: SERVER_NAME.to_string(),
    }
}

/// A notification that the server does not know is logged, the first time.
pub open spec fn unsupported(s: StateView, method: Seq<char>) -> (StateView, OutputView) {
    (
        StateView { warned_unsupported_notification: true, ..s },
        if s.warned_unsupported_notification {
            OutputView::nothing()
        } else {
            OutputView::nothing().with_message(
                logged(fill(UNSUPPORTED_NOTIFICATION_TEXT@, seq![method])),
            )
        },
    )
}

impl ServerState {
    /// A request came. If it is the one to shut down, that is remembered; any other is refused.
    pub fn handle_request(&mut self, is_shutdown: bool, method: &str) -> (r: Option<ResponseError>)
        requires
            old(self).wf(),
        ensures
            final(self).wf(),
            final(self)@ == (StateView {
                shutdown_requested: old(self)@.shutdown_requested || is_shutdown,
                ..old(self)@
            }),
            final(self).cached() == old(self).cached(),
            if is_shutdown {
                r is None
            } else {
                r matches Some(answer) && answer.code == METHOD_NOT_FOUND && answer.message@ == fill(
                    UNSUPPORTED_REQUEST_TEXT@,
                    seq![method@],
                )
            },
    {
        if is_shutdown {
            self.shutdown_requested = true;
            assert(self@ =~= (StateView { shutdown_requested: true, ..old(self)@ }));
            return None;
        }
        Some(unsupported_request_response(method))
    }

    /// What the server does after a notification: it ends after the one to exit, successfully if it
    /// was asked to shut down before.
    pub fn after_notification(&self, kind: NotificationKind) -> (r: LoopControl)
        ensures
            r == match kind {
                NotificationKind::Exit => LoopControl::Exit(
                    if self@.shutdown_requested {
                        0
                    } else {
                        1
                    },
                ),
                _ => LoopControl::Continue,
            },
    {
        match kind {
            NotificationKind::Exit => LoopControl::Exit(
                if self.shutdown_requested {
                    0
                } else {
                    1
                },
            ),
            _ => LoopControl::Continue,
        }
    }

    /// A notification came that the server does not know, as `unsupported` says.
    pub fn unsupported_notification_output(&mut self, method: &str) -> (r: HandlerOutput)
        requires
            old(self).wf(),
        ensures
            final(self).wf(),
            (final(self)@, r@) == unsupported(old(self)@, method@),
            final(self).cached() == old(self).cached(),
    {
        let mut output = HandlerOutput::default();
        if !self.warned_unsupported_notification {
            self.warned_unsupported_notification = true;
            let args: Vec<&str> = vec![method];
            assert(views(args@) =~= seq![method@]);
            output.add_message(
                log_message_event(fill_template(UNSUPPORTED_NOTIFICATION_TEXT, &args)),
            );
        }
        assert(self@ =~= unsupported(old(self)@, method@).0);
        output
    }
}

} // verus!
