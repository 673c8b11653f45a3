//! How the server answers notifications about documents.
//!
//! A handler decides what to do next. Where that needs a file or a parser, it returns an `Action`,
//! and the caller hands the outcome back.

use crate::lsp::config_cache::{
    exceeds_live_limit, exceeds_saved_limit, live_document, live_document_state,
    live_text_is_too_large, saved_text_is_too_large, DocumentState, DocumentView, LimitedFileRead,
    MAX_LIVE_DOCUMENT_BYTES, MAX_SAVED_DOCUMENT_BYTES,
};
use crate::lsp::diagnostics::{
    cleared, empty_event, final_full_sync_text, last_full_text, ContentChange,
};
use crate::lsp::output::{
    error_shown, log_message_event, logged, show_error_event, HandlerOutput, OutputView,
};
use crate::lsp::uri::{UriInfo, UriView};
use crate::text::{
    copy_opt_text, decimal, decimal_text, fill, fill_template, opt_text, same_text, views,
};
use super::{ServerState, StateView};
use vstd::prelude::*;

verus! {

/// What is said of a document that is too long to be checked while it is edited.
pub const LIVE_TOO_LARGE_TEXT: &'static str =
    "Skipping live diagnostics for SQL document larger than {0} bytes; very large live and saved SQL documents are skipped to keep the editor responsive.";

/// What is said of a saved file that is too long.
pub const FILE_TOO_LARGE_TEXT: &'static str =
    "Skipping saved-file diagnostics for SQL document larger than {0} bytes.";

/// What is said of a saved text that is too long.
pub const TEXT_TOO_LARGE_TEXT: &'static str =
    "Skipping saved-text diagnostics for SQL document larger than {0} bytes.";

/// What is said of a change of a part of a document.
pub const INCREMENTAL_CHANGE_TEXT: &'static str =
    "Received incremental textDocument/didChange despite full-sync capability; diagnostics were cleared.";

/// What is said of a saved document of which nothing is known.
pub const NO_SAVED_TEXT: &'static str =
    "Saved SQL document has no readable file path or in-memory text.";

/// What is said of a saved file that cannot be read, if the text is not known either.
pub const UNREADABLE_FILE_TEXT: &'static str = "Failed to read saved SQL file: {0}";

/// What is said of a saved file that cannot be read, if the text is known.
pub const IN_MEMORY_TEXT: &'static str =
    "Saved SQL file was not readable; checked in-memory text without migration metadata: {0}";

/// Why a document is checked.
#[derive(Debug, Clone, Copy, PartialEq, Eq, Structural)]
pub enum CheckKind {
    /// It is being edited.
    Live,
    /// It was saved, and the file was read.
    SavedFile,
    /// It was saved, and only its text is known.
    SavedText,
}

/// A check that is to be made.
#[derive(Debug, Clone)]
pub struct PendingCheck {
    pub uri: String,
    pub version: Option<i32>,
    pub text: String,
    /// The migration file whose text it is, if it is one.
    pub path: Option<String>,
    pub kind: CheckKind,
    /// What is said if the check can be made.
    pub note: Option<String>,
}

/// A saved file that is to be read.
#[derive(Debug, Clone)]
pub struct PendingSave {
    pub uri: String,
    pub version: Option<i32>,
    pub path: String,
    /// The text that the file should have.
    pub fallback_text: Option<String>,
}

/// What comes next.
#[derive(Debug, Clone)]
pub enum Action {
    /// Nothing but to send this.
    Finish(HandlerOutput),
    /// Read the file, and then `saved_file_read`.
    ReadFile(PendingSave),
    /// Load a checker, parse the text, and then `finish_check`.
    Check(PendingCheck),
}

/// The model of a check that is to be made.
pub struct CheckView {
    pub uri: Seq<char>,
    pub version: Option<i32>,
    pub text: Seq<char>,
    pub path: Option<Seq<char>>,
    pub kind: CheckKind,
    pub note: Option<Seq<char>>,
}

/// The model of a saved file that is to be read.
pub struct SaveView {
    pub uri: Seq<char>,
    pub version: Option<i32>,
    pub path: Seq<char>,
    pub fallback_text: Option<Seq<char>>,
}

/// The model of what comes next.
pub enum ActionView {
    Finish(OutputView),
    ReadFile(SaveView),
    Check(CheckView),
}

impl View for PendingCheck {
    type V = CheckView;

    open spec fn view(&self) -> CheckView {
        CheckView {
            uri: self.uri@,
            version: self.version,
            text: self.text@,
            path: opt_text(self.path),
            kind: self.kind,
            note: opt_text(self.note),
        }
    }
}

impl View for PendingSave {
    type V = SaveView;

    open spec fn view(&self) -> SaveView {
        SaveView {
            uri: self.uri@,
            version: self.version,
            path: self.path@,
            fallback_text: opt_text(self.fallback_text),
        }
    }
}

impl View for Action {
    type V = ActionView;

    open spec fn view(&self) -> ActionView {
        match self {
            Action::Finish(output) => ActionView::Finish(output@),
            Action::ReadFile(save) => ActionView::ReadFile(save@),
            Action::Check(check) => ActionView::Check(check@),
        }
    }
}

/// A text about a limit.
pub open spec fn limit_text(template: Seq<char>, limit: nat) -> Seq<char> {
    fill(template, seq![decimal(limit)])
}

fn limit_message(template: &str, limit: u64) -> (r: String)
    ensures
        r@ == limit_text(template@, limit as nat),
{
    let number = decimal_text(limit);
    let args: Vec<&str> = vec![number.as_str()];
    assert(views(args@) =~= seq![number@]);
    fill_template(template, &args)
}

/// A document that is edited: if it is too long, its diagnostics are cleared, else it is checked.
pub open spec fn live_step(
    s: StateView,
    info: UriView,
    text: Seq<char>,
    version: Option<i32>,
) -> (StateView, ActionView) {
    if !info.is_sql {
        (s.untracking(info.uri), ActionView::Finish(s.clearing(info.uri, version)))
    } else if exceeds_live_limit(text) {
        (
            s.untracking(info.uri),
            ActionView::Finish(
                s.clearing(info.uri, version).with_message(
                    logged(limit_text(LIVE_TOO_LARGE_TEXT@, MAX_LIVE_DOCUMENT_BYTES as nat)),
                ),
            ),
        )
    } else {
        (
            s,
            ActionView::Check(
                CheckView {
                    uri: info.uri,
                    version,
                    text,
                    path: info.path,
                    kind: CheckKind::Live,
                    note: None,
                },
            ),
        )
    }
}

/// A document that is no SQL file: it is forgotten, and its diagnostics are cleared.
pub open spec fn other_step(s: StateView, uri: Seq<char>, version: Option<i32>) -> (
    StateView,
    ActionView,
) {
    let t = s.forgetting(uri);
    (t.untracking(uri), ActionView::Finish(t.clearing(uri, version)))
}

/// A document is opened.
pub open spec fn opened(s: StateView, info: UriView, version: i32, text: Seq<char>) -> (
    StateView,
    ActionView,
) {
    if !info.is_sql {
        other_step(s, info.uri, Some(version))
    } else {
        live_step(
            s.storing(info.uri, live_document(text, Some(version))),
            info,
            text,
            Some(version),
        )
    }
}

/// A part of a document changed: its text is not known any more, and its diagnostics are cleared. The
/// first time, this is logged.
pub open spec fn incremental_step(s: StateView, uri: Seq<char>, version: Option<i32>) -> (
    StateView,
    ActionView,
) {
    let t = s.storing(uri, DocumentView { text: None, version });
    (
        StateView { warned_incremental_change: true, ..t.untracking(uri) },
        ActionView::Finish(
            if t.warned_incremental_change {
                t.clearing(uri, version)
            } else {
                t.clearing(uri, version).with_message(logged(INCREMENTAL_CHANGE_TEXT@))
            },
        ),
    )
}

/// A document changed. What the change does not alter is not checked again.
pub open spec fn changed(
    s: StateView,
    info: UriView,
    version: i32,
    changes: Seq<ContentChange>,
) -> (StateView, ActionView) {
    if !info.is_sql {
        other_step(s, info.uri, Some(version))
    } else {
        match last_full_text(changes, changes.len() as int) {
            None => incremental_step(s, info.uri, Some(version)),
            Some(text) => if s.document(info.uri) == Some(
                DocumentView { text: Some(text), version: Some(version) },
            ) {
                (s, ActionView::Finish(OutputView::nothing()))
            } else {
                live_step(
                    s.storing(info.uri, live_document(text, Some(version))),
                    info,
                    text,
                    Some(version),
                )
            },
        }
    }
}

/// A saved document whose file cannot be read: its text is checked, if it is known and not too long.
/// Else its diagnostics are cleared.
pub open spec fn saved_text_step(
    s: StateView,
    uri: Seq<char>,
    version: Option<i32>,
    text: Option<Seq<char>>,
    missing: Seq<char>,
    note: Option<Seq<char>>,
) -> (StateView, ActionView) {
    let cleared = OutputView::nothing().with_event(cleared(uri, version));
    match text {
        None => (
            s.untracking(uri),
            ActionView::Finish(cleared.with_message(error_shown(missing))),
        ),
        Some(text) => if exceeds_saved_limit(text) {
            (
                s.untracking(uri),
                ActionView::Finish(
                    cleared.with_message(
                        logged(limit_text(TEXT_TOO_LARGE_TEXT@, MAX_SAVED_DOCUMENT_BYTES as nat)),
                    ),
                ),
            )
        } else {
            (
                s,
                ActionView::Check(
                    CheckView { uri, version, text, path: None, kind: CheckKind::SavedText, note },
                ),
            )
        },
    }
}

/// A document was saved. If it is a local file, that is read.
pub open spec fn saved(s: StateView, info: UriView, text: Option<Seq<char>>) -> (
    StateView,
    ActionView,
) {
    if !info.is_sql {
        (s.untracking(info.uri), ActionView::Finish(s.clearing(info.uri, None)))
    } else {
        let version = match s.document(info.uri) {
            Some(document) => document.version,
            None => None,
        };
        let known = match text {
            Some(text) => Some(text),
            None => match s.document(info.uri) {
                Some(document) => document.text,
                None => None,
            },
        };
        match info.path {
            Some(path) => (
                s,
                ActionView::ReadFile(
                    SaveView { uri: info.uri, version, path, fallback_text: known },
                ),
            ),
            None => saved_text_step(s, info.uri, version, known, NO_SAVED_TEXT@, None),
        }
    }
}

/// A saved file was read, or could not be read.
pub open spec fn file_read(
    s: StateView,
    save: SaveView,
    read: std::result::Result<LimitedFileRead, String>,
) -> (StateView, ActionView) {
    match read {
        Ok(LimitedFileRead::Text(text)) => (
            s,
            ActionView::Check(
                CheckView {
                    uri: save.uri,
                    version: save.version,
                    text: text@,
                    path: Some(save.path),
                    kind: CheckKind::SavedFile,
                    note: None,
                },
            ),
        ),
        Ok(LimitedFileRead::TooLarge) => (
            s.untracking(save.uri),
            ActionView::Finish(
                OutputView::nothing().with_event(cleared(save.uri, save.version)).with_message(
                    logged(limit_text(FILE_TOO_LARGE_TEXT@, MAX_SAVED_DOCUMENT_BYTES as nat)),
                ),
            ),
        ),
        Err(err) => saved_text_step(
            s,
            save.uri,
            save.version,
            save.fallback_text,
            fill(UNREADABLE_FILE_TEXT@, seq![err@]),
            Some(fill(IN_MEMORY_TEXT@, seq![err@])),
        ),
    }
}

/// A document was closed: it is forgotten, and its diagnostics are cleared.
pub open spec fn closed_document(s: StateView, info: UriView) -> (StateView, OutputView) {
    let t = s.forgetting(info.uri);
    (
        t.untracking(info.uri),
        if info.is_sql || t.published.contains(info.uri) {
            OutputView::nothing().with_event(cleared(info.uri, None))
        } else {
            OutputView::nothing()
        },
    )
}

impl ServerState {
    fn clear_if_needed(&mut self, uri: &str, version: Option<i32>) -> (r: HandlerOutput)
        requires
            old(self).wf(),
        ensures
            final(self).wf(),
            final(self)@ == old(self)@.untracking(uri@),
            r@ == old(self)@.clearing(uri@, version),
            final(self).cached() == old(self).cached(),
    {
        if self.untrack_published_uri(uri) {
            HandlerOutput::with_diagnostic(empty_event(uri.to_string(), version))
        } else {
            HandlerOutput::default()
        }
    }

    /// A document is edited, as `live_step` says.
    pub fn run_live_diagnostics(&mut self, info: &UriInfo, text: &str, version: Option<i32>) -> (r:
        Action)
        requires
            old(self).wf(),
        ensures
            final(self).wf(),
            (final(self)@, r@) == live_step(old(self)@, info@, text@, version),
            final(self).cached() == old(self).cached(),
    {
        if !info.is_sql {
            return Action::Finish(self.clear_if_needed(info.uri.as_str(), version));
        }
        if live_text_is_too_large(text) {
            let mut output = self.clear_if_needed(info.uri.as_str(), version);
            output.add_message(
                log_message_event(limit_message(LIVE_TOO_LARGE_TEXT, MAX_LIVE_DOCUMENT_BYTES as u64)),
            );
            return Action::Finish(output);
        }
        Action::Check(
            PendingCheck {
                uri: info.uri.clone(),
                version,
                text: text.to_string(),
                path: copy_opt_text(&info.path),
                kind: CheckKind::Live,
                note: None,
            },
        )
    }

    fn handle_other(&mut self, uri: &str, version: Option<i32>) -> (r: Action)
        requires
            old(self).wf(),
        ensures
            final(self).wf(),
            (final(self)@, r@) == other_step(old(self)@, uri@, version),
            final(self).cached() == old(self).cached(),
    {
        self.forget_document(uri);
        Action::Finish(self.clear_if_needed(uri, version))
    }

    /// A document is opened, as `opened` says.
    pub fn handle_open(&mut self, info: &UriInfo, version: i32, text: &str) -> (r: Action)
        requires
            old(self).wf(),
        ensures
            final(self).wf(),
            (final(self)@, r@) == opened(old(self)@, info@, version, text@),
            final(self).cached() == old(self).cached(),
    {
        if !info.is_sql {
            return self.handle_other(info.uri.as_str(), Some(version));
        }
        self.store_document_state(info.uri.as_str(), live_document_state(text, Some(version)));
        self.run_live_diagnostics(info, text, Some(version))
    }

    fn handle_incremental_change(&mut self, uri: &str, version: Option<i32>) -> (r: Action)
        requires
            old(self).wf(),
        ensures
            final(self).wf(),
            (final(self)@, r@) == incremental_step(old(self)@, uri@, version),
            final(self).cached() == old(self).cached(),
    {
        self.store_document_state(uri, DocumentState { text: None, version });
        let mut output = self.clear_if_needed(uri, version);
        if !self.warned_incremental_change {
            self.warned_incremental_change = true;
            output.add_message(log_message_event(INCREMENTAL_CHANGE_TEXT.to_string()));
        }
        assert(self@ =~= incremental_step(old(self)@, uri@, version).0);
        Action::Finish(output)
    }

    fn is_unchanged_document(&self, uri: &str, text: &str, version: i32) -> (r: bool)
        requires
            self.wf(),
        ensures
            r == (self@.document(uri@) == Some(
                DocumentView { text: Some(text@), version: Some(version) },
            )),
    {
        match self.document(uri) {
            Some(document) => {
                let same = match &document.text {
                    Some(known) => same_text(known.as_str(), text),
                    None => false,
                };
                let current = match document.version {
                    Some(known) => known == version,
                    None => false,
                };
                same && current
            },
            None => false,
        }
    }

    /// A document changed, as `changed` says.
    pub fn handle_change(&mut self, info: &UriInfo, version: i32, changes: &Vec<ContentChange>) -> (r:
        Action)
        requires
            old(self).wf(),
        ensures
            final(self).wf(),
            (final(self)@, r@) == changed(old(self)@, info@, version, changes@),
            final(self).cached() == old(self).cached(),
    {
        if !info.is_sql {
            return self.handle_other(info.uri.as_str(), Some(version));
        }
        match final_full_sync_text(changes) {
            None => self.handle_incremental_change(info.uri.as_str(), Some(version)),
            Some(text) => {
                if self.is_unchanged_document(info.uri.as_str(), text, version) {
                    return Action::Finish(HandlerOutput::default());
                }
                self.store_document_state(
                    info.uri.as_str(),
                    live_document_state(text, Some(version)),
                );
                self.run_live_diagnostics(info, text, Some(version))
            },
        }
    }

    fn save_text(
        &mut self,
        uri: &str,
        version: Option<i32>,
        text: Option<String>,
        missing: String,
        note: Option<String>,
    ) -> (r: Action)
        requires
            old(self).wf(),
        ensures
            final(self).wf(),
            (final(self)@, r@) == saved_text_step(
                old(self)@,
                uri@,
                version,
                opt_text(text),
                missing@,
                opt_text(note),
            ),
            final(self).cached() == old(self).cached(),
    {
        match text {
            None => {
                let mut output = HandlerOutput::with_diagnostic(self.clear_event(uri, version));
                output.add_message(show_error_event(missing));
                Action::Finish(output)
            },
            Some(text) => {
                if saved_text_is_too_large(text.as_str()) {
                    let mut output = HandlerOutput::with_diagnostic(self.clear_event(uri, version));
                    output.add_message(
                        log_message_event(
                            limit_message(TEXT_TOO_LARGE_TEXT, MAX_SAVED_DOCUMENT_BYTES),
                        ),
                    );
                    return Action::Finish(output);
                }
                Action::Check(
                    PendingCheck {
                        uri: uri.to_string(),
                        version,
                        text,
                        path: None,
                        kind: CheckKind::SavedText,
                        note,
                    },
                )
            },
        }
    }

    /// A document was saved, as `saved` says.
    pub fn handle_save(&mut self, info: &UriInfo, text: Option<String>) -> (r: Action)
        requires
            old(self).wf(),
        ensures
            final(self).wf(),
            (final(self)@, r@) == saved(old(self)@, info@, opt_text(text)),
            final(self).cached() == old(self).cached(),
    {
        if !info.is_sql {
            return Action::Finish(self.clear_if_needed(info.uri.as_str(), None));
        }
        let (version, stored) = match self.document(info.uri.as_str()) {
            Some(document) => (document.version, copy_opt_text(&document.text)),
            None => (None, None),
        };
        let known = match text {
            Some(text) => Some(text),
            None => stored,
        };
        match &info.path {
            Some(path) => Action::ReadFile(
                PendingSave {
                    uri: info.uri.clone(),
                    version,
                    path: path.clone(),
                    fallback_text: known,
                },
            ),
            None => self.save_text(
                info.uri.as_str(),
                version,
                known,
                NO_SAVED_TEXT.to_string(),
                None,
            ),
        }
    }

    /// A saved file was read, or could not be read, as `file_read` says.
    pub fn saved_file_read(
        &mut self,
        save: PendingSave,
        read: std::result::Result<LimitedFileRead, String>,
    ) -> (r: Action)
        requires
            old(self).wf(),
        ensures
            final(self).wf(),
            (final(self)@, r@) == file_read(old(self)@, save@, read),
            final(self).cached() == old(self).cached(),
    {
        match read {
            Ok(LimitedFileRead::Text(text)) => Action::Check(
                PendingCheck {
                    uri: save.uri,
                    version: save.version,
                    text,
                    path: Some(save.path),
                    kind: CheckKind::SavedFile,
                    note: None,
                },
            ),
            Ok(LimitedFileRead::TooLarge) => {
                let mut output = HandlerOutput::with_diagnostic(
                    self.clear_event(save.uri.as_str(), save.version),
                );
                output.add_message(
                    log_message_event(limit_message(FILE_TOO_LARGE_TEXT, MAX_SAVED_DOCUMENT_BYTES)),
                );
                Action::Finish(output)
            },
            Err(err) => {
                let args: Vec<&str> = vec![err.as_str()];
                assert(views(args@) =~= seq![err@]);
                let missing = fill_template(UNREADABLE_FILE_TEXT, &args);
                let note = fill_template(IN_MEMORY_TEXT, &args);
                self.save_text(
                    save.uri.as_str(),
                    save.version,
                    save.fallback_text,
                    missing,
                    Some(note),
                )
            },
        }
    }

    /// A document was closed, as `closed_document` says.
    pub fn handle_close(&mut self, info: &UriInfo) -> (r: HandlerOutput)
        requires
            old(self).wf(),
        ensures
            final(self).wf(),
            (final(self)@, r@) == closed_document(old(self)@, info@),
            final(self).cached() == old(self).cached(),
    {
        self.forget_document(info.uri.as_str());
        let was_published = self.untrack_published_uri(info.uri.as_str());
        if info.is_sql || was_published {
            HandlerOutput::with_diagnostic(empty_event(info.uri.clone(), None))
        } else {
            HandlerOutput::default()
        }
    }
}

} // verus!
