//! How the server checks a document and shows what it finds.

use crate::ViolationList;
use crate::adapters::{ContextView, MigrationContext};
use crate::checks::registry::{enabled_checks, list_views, sorted, titles};
use crate::config::ConfigError;
use crate::error::{located, DieselGuardError, Result, PARSE_ERROR_TEXT};
use crate::lsp::config_cache::{CheckerCacheKey, CheckerInputs};
use crate::lsp::diagnostics::{
    cleared, diagnostic_of, is_parse_error, offset_of, parse_error_event, unparsed,
    violations_to_diagnostics, DiagnosticEvent, EventView, DIAGNOSTIC_SOURCE,
};
use crate::lsp::output::{
    as_log, error_shown, event_views, log_message_event, logged, show_error_event, HandlerOutput,
    OutputView,
};
use crate::parser::Statements;
use crate::parser::comment_parser::{blocks, line_kinds};
use crate::safety_checker::{
    fault_of, is_error_of, known_names, script_messages, Checked, CheckedView, CustomChecks,
    SafetyChecker, FILE_SOURCE, SQL_SOURCE,
};
use crate::text::{fill, fill_template, same_text, string_views, views};
use crate::violation::ViolationView;
use super::documents::{CheckKind, CheckView, PendingCheck};
use super::{fresh, index_in, CheckerCache, ServerState, StateView};
use vstd::prelude::*;

verus! {

/// What is said of a configuration that cannot be loaded.
pub const CONFIG_ERROR_TEXT: &'static str =
    "Failed to load {0} configuration for the workspace: {1}";

/// What is said of a document that cannot be checked.
pub const CHECK_ERROR_TEXT: &'static str = "{0}: {1}";

/// The model of what a check gives.
pub enum OutcomeView {
    Found(CheckedView),
    /// The text cannot be parsed: a message, and the byte offset that it points to.
    Unparsed { message: Seq<char>, offset: nat },
    /// The text cannot be checked for another reason.
    Failed(Seq<char>),
}

/// The model of what a check gives.
pub open spec fn outcome_view(result: Result<Checked>) -> OutcomeView {
    match result {
        Ok(checked) => OutcomeView::Found(checked@),
        Err(err) => error_outcome(err),
    }
}

/// The model of an error.
pub open spec fn error_outcome(err: DieselGuardError) -> OutcomeView {
    if err is ParseError {
        OutcomeView::Unparsed { message: err.displayed(), offset: offset_of(err) }
    } else {
        OutcomeView::Failed(err.displayed())
    }
}

/// The model of a parse error with a message and a place.
pub open spec fn parse_outcome(message: Seq<char>, offset: nat) -> OutcomeView {
    OutcomeView::Unparsed { message: fill(PARSE_ERROR_TEXT@, seq![message]), offset }
}

/// What a check of a text gives that is no migration file.
pub open spec fn text_outcome(
    checker: SafetyChecker,
    text: Seq<char>,
    statements: Result<Statements>,
) -> OutcomeView {
    match statements {
        Ok(found) => match blocks(line_kinds(text)) {
            Ok(_) => OutcomeView::Found(
                checker.check_result(text, found, ContextView::default_context(), SQL_SOURCE@),
            ),
            Err(fault) => parse_outcome(fault.text(), 0),
        },
        Err(err) => error_outcome(err),
    }
}

/// What a check of a migration file gives.
pub open spec fn file_outcome(
    checker: SafetyChecker,
    path: Seq<char>,
    text: Seq<char>,
    statements: Result<Statements>,
    ctx: ContextView,
) -> OutcomeView {
    match statements {
        Ok(found) => match blocks(line_kinds(text)) {
            Ok(_) => OutcomeView::Found(
                checker.check_result(text, found, ctx, fill(FILE_SOURCE@, seq![path])),
            ),
            Err(fault) => parse_outcome(
                fault.text(),
                located(fault.text(), None).offset as nat,
            ),
        },
        Err(DieselGuardError::ParseError { msg, span, .. }) => parse_outcome(
            msg@,
            located(msg@, span).offset as nat,
        ),
        Err(err) => error_outcome(err),
    }
}

/// What a check gives.
pub open spec fn check_outcome(
    checker: SafetyChecker,
    check: CheckView,
    statements: Result<Statements>,
    ctx: ContextView,
) -> OutcomeView {
    match check.path {
        Some(path) => file_outcome(checker, path, check.text, statements, ctx),
        None => text_outcome(checker, check.text, statements),
    }
}

fn make_check(
    checker: &SafetyChecker,
    check: &PendingCheck,
    statements: Result<Statements>,
    ctx: &MigrationContext,
) -> (r: Result<Checked>)
    requires
        statements matches Ok(found) ==> sorted(found.token_starts@),
    ensures
        outcome_view(r) == check_outcome(*checker, check@, statements, ctx@),
{
    match &check.path {
        Some(path) => checker.check_file(path.as_str(), check.text.clone(), statements, ctx),
        None => checker.check_sql(check.text.as_str(), statements),
    }
}

/// What a document is called in a message about a check that failed.
pub open spec fn error_context(kind: CheckKind) -> Seq<char> {
    match kind {
        CheckKind::Live => "Failed to check SQL document"@,
        CheckKind::SavedFile => "Failed to check saved SQL file"@,
        CheckKind::SavedText => "Failed to check saved SQL text"@,
    }
}

fn context_text(kind: CheckKind) -> (r: &'static str)
    ensures
        r@ == error_context(kind),
{
    match kind {
        CheckKind::Live => "Failed to check SQL document",
        CheckKind::SavedFile => "Failed to check saved SQL file",
        CheckKind::SavedText => "Failed to check saved SQL text",
    }
}

/// The diagnostics of a document that was checked.
pub open spec fn shown(
    s: StateView,
    uri: Seq<char>,
    text: Seq<char>,
    violations: Seq<(usize, ViolationView)>,
    version: Option<i32>,
) -> (StateView, Seq<EventView>) {
    let event = EventView {
        uri,
        diagnostics: violations.map_values(diagnostic_of(text)),
        version,
    };
    if violations.len() == 0 {
        (s.untracking(uri), seq![event])
    } else {
        (s.tracking(uri), s.evictions(uri).push(event))
    }
}

/// A check was made. A text that cannot be parsed is shown as such only when it was saved.
pub open spec fn applied(s: StateView, check: CheckView, output: OutputView, outcome: OutcomeView) -> (
    StateView,
    OutputView,
) {
    match outcome {
        OutcomeView::Found(checked) => {
            let (t, events) = shown(
                s.warning(checked.warnings),
                check.uri,
                check.text,
                checked.violations,
                check.version,
            );
            (t, output.with_logs(fresh(s.warnings, checked.warnings)).with_events(events))
        },
        OutcomeView::Unparsed { message, offset } => if check.kind == CheckKind::Live {
            (s.untracking(check.uri), output.with_event(cleared(check.uri, check.version)))
        } else {
            (
                s.tracking(check.uri),
                output.with_events(
                    s.evictions(check.uri).push(
                        unparsed(check.uri, check.text, message, offset, check.version),
                    ),
                ),
            )
        },
        OutcomeView::Failed(message) => (
            s.untracking(check.uri),
            output.with_event(cleared(check.uri, check.version)).with_message(
                error_shown(fill(CHECK_ERROR_TEXT@, seq![error_context(check.kind), message])),
            ),
        ),
    }
}

/// A configuration could not be loaded: the diagnostics are cleared, and the error is shown unless it
/// was the last that was shown.
pub open spec fn config_failed(
    s: StateView,
    uri: Seq<char>,
    version: Option<i32>,
    err: Seq<char>,
) -> (StateView, OutputView) {
    let message = fill(CONFIG_ERROR_TEXT@, seq![DIAGNOSTIC_SOURCE@, err]);
    let output = OutputView::nothing().with_event(cleared(uri, version));
    (
        StateView { last_config_error: Some(message), ..s.untracking(uri) },
        if s.last_config_error == Some(message) {
            output
        } else {
            output.with_message(error_shown(message))
        },
    )
}

/// A check was made after a checker was loaded.
pub open spec fn finished(
    s: StateView,
    check: CheckView,
    warnings: Seq<Seq<char>>,
    outcome: OutcomeView,
) -> (StateView, OutputView) {
    let loaded = OutputView::nothing().with_logs(fresh(s.warnings, warnings));
    applied(
        s.warning(warnings),
        check,
        match check.note {
            Some(note) => loaded.with_message(logged(note)),
            None => loaded,
        },
        outcome,
    )
}

impl ServerState {
    fn push_new_warning_messages(&mut self, output: &mut HandlerOutput, warnings: Vec<String>)
        requires
            old(self).wf(),
        ensures
            final(self).wf(),
            final(self)@ == old(self)@.warning(string_views(warnings@)),
            final(output)@ == old(output)@.with_logs(
                fresh(old(self)@.warnings, string_views(warnings@)),
            ),
            final(self).cached() == old(self).cached(),
    {
        let ghost all = string_views(warnings@);
        let ghost seen = self@.warnings;
        let ghost out = output@;
        proof {
            assert(self@ =~= old(self)@.warning(all.take(0)));
            assert(output@ =~= out.with_logs(fresh(seen, all.take(0))));
        }
        for warning in it: warnings
            invariant
                self.wf(),
                string_views(it.seq()) == all,
                seen == old(self)@.warnings,
                out == old(output)@,
                self@ == old(self)@.warning(all.take(it.index())),
                output@ == out.with_logs(fresh(seen, all.take(it.index()))),
                self.cached() == old(self).cached(),
        {
            let ghost k = it.index();
            let ghost before = fresh(seen, all.take(k));
            proof {
                assert(all[k] == warning@);
                assert(all.take(k + 1).drop_last() =~= all.take(k));
                assert(self@.warnings == seen + before);
            }
            match index_in(&self.emitted_warning_messages, warning.as_str()) {
                Some(i) => {
                    proof {
                        assert((seen + before)[i as int] == warning@);
                        if i < seen.len() {
                            assert(seen[i as int] == warning@);
                        } else {
                            assert(before[i - seen.len()] == warning@);
                        }
                    }
                },
                None => {
                    proof {
                        if seen.contains(warning@) {
                            let i = seen.index_of(warning@);
                            assert((seen + before)[i] == warning@);
                        }
                        if before.contains(warning@) {
                            let i = before.index_of(warning@);
                            assert((seen + before)[seen.len() + i] == warning@);
                        }
                    }
                    let ghost after = before.push(warning@);
                    let ghost emitted = self.emitted_warning_messages@;
                    self.emitted_warning_messages.push(warning.clone());
                    output.add_message(log_message_event(warning));
                    proof {
                        assert(self@.warnings =~= string_views(emitted).push(warning@));
                        assert(self@.warnings =~= seen + after);
                        assert(after.map_values(as_log()) =~= before.map_values(as_log()).push(
                            logged(warning@),
                        ));
                        assert(output@ =~= out.with_logs(after));
                        assert(self@ =~= old(self)@.warning(all.take(k + 1)));
                    }
                },
            }
        }
        assert(all.take(all.len() as int) =~= all);
    }

    /// The events for a document that was checked, as `shown` says.
    pub fn violations_events(
        &mut self,
        uri: &str,
        text: &str,
        violations: &ViolationList,
        version: Option<i32>,
    ) -> (r: Vec<DiagnosticEvent>)
        requires
            old(self).wf(),
        ensures
            final(self).wf(),
            (final(self)@, event_views(r@)) == shown(
                old(self)@,
                uri@,
                text@,
                list_views(violations@),
                version,
            ),
            final(self).cached() == old(self).cached(),
    {
        let diagnostics = violations_to_diagnostics(text, violations);
        let mut events = if violations.len() == 0 {
            let was = self.untrack_published_uri(uri);
            Vec::new()
        } else {
            self.track_published_uri(uri)
        };
        let ghost before = events@;
        events.push(DiagnosticEvent { uri: uri.to_string(), diagnostics, version });
        proof {
            assert(event_views(events@) =~= event_views(before).push(events@.last()@));
            if violations@.len() == 0 {
                assert(event_views(events@) =~= seq![events@.last()@]);
            }
        }
        events
    }

    fn append_parse_error(
        &mut self,
        check: &PendingCheck,
        output: &mut HandlerOutput,
        err: &DieselGuardError,
    )
        requires
            old(self).wf(),
            *err is ParseError,
        ensures
            final(self).wf(),
            (final(self)@, final(output)@) == applied(
                old(self)@,
                check@,
                old(output)@,
                error_outcome(*err),
            ),
            final(self).cached() == old(self).cached(),
    {
        match check.kind {
            CheckKind::Live => {
                let event = self.clear_event(check.uri.as_str(), check.version);
                output.add_event(event);
            },
            _ => {
                let mut events = self.track_published_uri(check.uri.as_str());
                let ghost before = events@;
                events.push(
                    parse_error_event(check.uri.clone(), check.text.as_str(), err, check.version),
                );
                assert(event_views(events@) =~= event_views(before).push(events@.last()@));
                output.add_events(events);
            },
        }
    }

    /// A check was made, as `applied` says.
    fn apply_check_result(
        &mut self,
        check: &PendingCheck,
        output: HandlerOutput,
        result: Result<Checked>,
    ) -> (r: HandlerOutput)
        requires
            old(self).wf(),
        ensures
            final(self).wf(),
            (final(self)@, r@) == applied(old(self)@, check@, output@, outcome_view(result)),
            final(self).cached() == old(self).cached(),
    {
        let mut output = output;
        match result {
            Ok(checked) => {
                let Checked { violations, warnings } = checked;
                self.push_new_warning_messages(&mut output, warnings);
                let events = self.violations_events(
                    check.uri.as_str(),
                    check.text.as_str(),
                    &violations,
                    check.version,
                );
                output.add_events(events);
            },
            Err(err) => {
                if is_parse_error(&err) {
                    self.append_parse_error(check, &mut output, &err);
                } else {
                    let event = self.clear_event(check.uri.as_str(), check.version);
                    output.add_event(event);
                    let message = err.message();
                    let args: Vec<&str> = vec![context_text(check.kind), message.as_str()];
                    assert(views(args@) =~= seq![error_context(check.kind), message@]);
                    output.add_message(show_error_event(fill_template(CHECK_ERROR_TEXT, &args)));
                }
            },
        }
        output
    }

    /// A configuration could not be loaded, as `config_failed` says.
    pub fn config_error_output(&mut self, uri: &str, version: Option<i32>, err: &ConfigError) -> (r:
        HandlerOutput)
        requires
            old(self).wf(),
        ensures
            final(self).wf(),
            (final(self)@, r@) == config_failed(old(self)@, uri@, version, err.displayed()),
            final(self).cached() == old(self).cached(),
    {
        let mut output = HandlerOutput::with_diagnostic(self.clear_event(uri, version));
        let reason = err.message();
        let args: Vec<&str> = vec![DIAGNOSTIC_SOURCE, reason.as_str()];
        assert(views(args@) =~= seq![DIAGNOSTIC_SOURCE@, reason@]);
        let message = fill_template(CONFIG_ERROR_TEXT, &args);
        let repeated = match &self.last_config_error_message {
            Some(last) => same_text(last.as_str(), message.as_str()),
            None => false,
        };
        if !repeated {
            self.last_config_error_message = Some(message.clone());
            output.add_message(show_error_event(message));
        }
        assert(self@ =~= config_failed(old(self)@, uri@, version, err.displayed()).0);
        output
    }

    /// Whether the cached checker was made from the same. If so, no error of the configuration stands
    /// any more.
    pub fn cached_checker(&mut self, key: &CheckerCacheKey) -> (r: bool)
        requires
            old(self).wf(),
        ensures
            final(self).wf(),
            r == (old(self).cached() matches Some(cache) && cache.key@ == key@),
            final(self)@ == if r {
                StateView { last_config_error: None, ..old(self)@ }
            } else {
                old(self)@
            },
            final(self).cached() == old(self).cached(),
    {
        let same = match &self.checker_cache {
            Some(cache) => cache.key.same_as(key),
            None => false,
        };
        if same {
            self.last_config_error_message = None;
            assert(self@ =~= (StateView { last_config_error: None, ..old(self)@ }));
        }
        same
    }

    /// Makes a checker and caches it. Returns the warnings about what it was made from.
    pub fn build_cached_checker(&mut self, inputs: CheckerInputs, custom: CustomChecks) -> (r:
        std::result::Result<Vec<String>, ConfigError>)
        requires
            old(self).wf(),
        ensures
            final(self).wf(),
            ({
                let checks = enabled_checks(inputs.config) + custom.checks@;
                match fault_of(inputs.config, string_views(custom.names@), titles(checks)) {
                    Some(fault) => {
                        &&& r matches Err(err) && is_error_of(err, fault, custom.errors@)
                        &&& final(self)@ == old(self)@
                        &&& final(self).cached() == old(self).cached()
                    },
                    None => {
                        &&& r matches Ok(warnings) && string_views(warnings@) == string_views(
                            inputs.warnings@,
                        ) + script_messages(custom.errors@)
                        &&& final(self)@ == (StateView { last_config_error: None, ..old(self)@ })
                        &&& final(self).cached() matches Some(cache) && cache.key == inputs.key
                            && cache.checker.config == inputs.config
                            && cache.checker.registry.checks@ == checks && string_views(
                            cache.checker.known_check_names@,
                        ) == known_names(string_views(custom.names@))
                    },
                }
            }),
    {
        let CheckerInputs { config, key, mut warnings } = inputs;
        let ghost before = warnings@;
        match SafetyChecker::with_config_and_warnings(config, custom) {
            Ok((checker, mut more)) => {
                let ghost added = more@;
                warnings.append(&mut more);
                assert(string_views(warnings@) =~= string_views(before) + string_views(added));
                self.checker_cache = Some(CheckerCache { key, checker });
                self.last_config_error_message = None;
                assert(self@ =~= (StateView { last_config_error: None, ..old(self)@ }));
                Ok(warnings)
            },
            Err(err) => Err(err),
        }
    }

    /// The cached checker.
    pub fn checker(&self) -> (r: Option<&SafetyChecker>)
        ensures
            match self.cached() {
                Some(cache) => r == Some(&cache.checker),
                None => r is None,
            },
    {
        match &self.checker_cache {
            Some(cache) => Some(&cache.checker),
            None => None,
        }
    }

    /// Makes a check with the cached checker, given the warnings about it or why there is none, and
    /// what the parser finds in the text.
    pub fn finish_check(
        &mut self,
        check: PendingCheck,
        loaded: std::result::Result<Vec<String>, ConfigError>,
        statements: Result<Statements>,
        ctx: &MigrationContext,
    ) -> (r: HandlerOutput)
        requires
            old(self).wf(),
            loaded is Ok ==> old(self).cached() is Some,
            statements matches Ok(found) ==> sorted(found.token_starts@),
        ensures
            final(self).wf(),
            (final(self)@, r@) == match loaded {
                Ok(warnings) => finished(
                    old(self)@,
                    check@,
                    string_views(warnings@),
                    check_outcome(
                        old(self).cached()->0.checker,
                        check@,
                        statements,
                        ctx@,
                    ),
                ),
                Err(err) => config_failed(old(self)@, check@.uri, check@.version, err.displayed()),
            },
            final(self).cached() == old(self).cached(),
    {
        match (loaded, &self.checker_cache) {
            (Ok(warnings), Some(cache)) => {
                let result = make_check(&cache.checker, &check, statements, ctx);
                let mut output = HandlerOutput::default();
                self.push_new_warning_messages(&mut output, warnings);
                if let Some(note) = &check.note {
                    output.add_message(log_message_event(note.clone()));
                }
                self.apply_check_result(&check, output, result)
            },
            (Err(err), _) => self.config_error_output(check.uri.as_str(), check.version, &err),
            (Ok(_), None) => HandlerOutput::default(),
        }
    }
}

} // verus!
