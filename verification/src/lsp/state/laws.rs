//! What holds of the server over several notifications.

use crate::adapters::ContextView;
use crate::error::{Result, PARSE_ERROR_TEXT};
use crate::lsp::config_cache::{
    exceeds_live_limit, live_document, DocumentView, LimitedFileRead,
};
use crate::lsp::diagnostics::{
    capped, cleared, last_full_text, law_messages_hold_problem_and_advice,
    law_the_last_full_text_counts, position_of, utf16_len, ContentChange, DiagnosticSeverity,
};
use crate::lsp::output::{MessageType, MessageView, OutputView};
use crate::lsp::uri::UriView;
use crate::parser::comment_parser::{blocks, disabled_checks_of, line_kinds};
use crate::parser::Statements;
use crate::safety_checker::{CheckedView, SafetyChecker, FILE_SOURCE};
use crate::text::laws::{law_holes_are_filled, law_plain_templates_stay};
use crate::text::{fill, lines};
use crate::violation::Severity;
use super::checking::{
    applied, check_outcome, config_failed, finished, OutcomeView, CHECK_ERROR_TEXT,
    CONFIG_ERROR_TEXT,
};
use super::documents::{
    changed, closed_document, file_read, incremental_step, opened, saved, ActionView, CheckKind,
    CheckView, SaveView,
};
use super::transport::{kind_of, unsupported, DocumentNotificationKind, NotificationKind};
use super::{document_uris, fresh, without, StateView, MAX_PUBLISHED_DIAGNOSTIC_URIS};
use vstd::prelude::*;
use vstd::utf8::encode_utf8;

verus! {

proof fn lemma_without(list: Seq<Seq<char>>, element: Seq<char>)
    requires
        list.no_duplicates(),
    ensures
        !without(list, element).contains(element),
        forall|x: Seq<char>|
            x != element ==> without(list, element).contains(x) == list.contains(x),
{
    if list.contains(element) {
        let k = list.index_of(element);
        let rest = list.remove(k);
        assert forall|x: Seq<char>| x != element implies rest.contains(x) == list.contains(x) by {
            if list.contains(x) {
                let i = list.index_of(x);
                if i < k {
                    assert(rest[i] == x);
                } else {
                    assert(rest[i - 1] == x);
                }
            }
        }
    }
}

proof fn lemma_tracking(s: StateView, uri: Seq<char>)
    requires
        s.wf(),
    ensures
        s.tracking(uri).published.contains(uri),
{
    if !s.published.contains(uri) {
        assert(s.tracking(uri).published.last() == uri);
    }
}

/// After a document was checked, the last event is about it, and the server remembers it as one with
/// diagnostics exactly if that event holds some.
pub proof fn law_published_documents_have_diagnostics(
    s: StateView,
    check: CheckView,
    output: OutputView,
    outcome: OutcomeView,
)
    requires
        s.wf(),
    ensures
        ({
            let (t, out) = applied(s, check, output, outcome);
            &&& out.diagnostics.len() > 0
            &&& out.diagnostics.last().uri == check.uri
            &&& out.diagnostics.last().version == check.version
            &&& t.published.contains(check.uri) == (out.diagnostics.last().diagnostics.len() > 0)
        }),
{
    lemma_without(s.published, check.uri);
    lemma_tracking(s, check.uri);
    if let OutcomeView::Found(checked) = outcome {
        let u = s.warning(checked.warnings);
        lemma_tracking(u, check.uri);
    }
}

/// A document that loses its diagnostics because another gets some is cleared.
pub proof fn law_no_diagnostics_are_lost_silently(s: StateView, uri: Seq<char>, lost: Seq<char>)
    requires
        s.wf(),
        s.published.contains(lost),
        !s.tracking(uri).published.contains(lost),
    ensures
        s.evictions(uri) == seq![cleared(lost, None)],
        s.published.len() == MAX_PUBLISHED_DIAGNOSTIC_URIS,
{
    let i = s.published.index_of(lost);
    let rest = s.tracking(uri).published;
    if s.published.len() < MAX_PUBLISHED_DIAGNOSTIC_URIS {
        assert(rest[i] == lost);
    } else if i > 0 {
        assert(rest[i - 1] == lost);
    }
}

/// The documents with diagnostics stay in the order in which they got them.
pub proof fn law_first_published_is_first_evicted(s: StateView, uri: Seq<char>)
    requires
        s.wf(),
        !s.published.contains(uri),
        s.published.len() == MAX_PUBLISHED_DIAGNOSTIC_URIS,
    ensures
        s.tracking(uri).published == s.published.skip(1).push(uri),
        !s.tracking(uri).published.contains(s.published[0]),
{
    let rest = s.tracking(uri).published;
    assert(rest =~= s.published.skip(1).push(uri));
    if rest.contains(s.published[0]) {
        let i = rest.index_of(s.published[0]);
        if i < rest.len() - 1 {
            assert(s.published[i + 1] == s.published[0]);
        } else {
            assert(s.published.contains(uri));
        }
    }
}

proof fn lemma_fresh(seen: Seq<Seq<char>>, texts: Seq<Seq<char>>)
    ensures
        fresh(seen, texts).no_duplicates(),
        forall|i: int| 0 <= i < fresh(seen, texts).len() ==> !seen.contains(fresh(seen, texts)[i]),
        forall|i: int|
            0 <= i < texts.len() ==> seen.contains(#[trigger] texts[i]) || fresh(
                seen,
                texts,
            ).contains(texts[i]),
    decreases texts.len(),
{
    if texts.len() > 0 {
        let before = fresh(seen, texts.drop_last());
        lemma_fresh(seen, texts.drop_last());
        let after = fresh(seen, texts);
        assert forall|i: int| 0 <= i < texts.len() implies seen.contains(#[trigger] texts[i])
            || after.contains(texts[i]) by {
            if i < texts.len() - 1 {
                assert(texts.drop_last()[i] == texts[i]);
                if !seen.contains(texts[i]) {
                    let k = before.index_of(texts[i]);
                    assert(after[k] == texts[i]);
                }
            } else if !seen.contains(texts[i]) && !before.contains(texts[i]) {
                assert(after.last() == texts[i]);
            }
        }
    }
}

proof fn lemma_nothing_fresh(seen: Seq<Seq<char>>, texts: Seq<Seq<char>>)
    requires
        forall|i: int| 0 <= i < texts.len() ==> seen.contains(#[trigger] texts[i]),
    ensures
        fresh(seen, texts) == Seq::<Seq<char>>::empty(),
    decreases texts.len(),
{
    if texts.len() > 0 {
        assert forall|i: int| 0 <= i < texts.drop_last().len() implies seen.contains(
            #[trigger] texts.drop_last()[i],
        ) by {
            assert(texts.drop_last()[i] == texts[i]);
        }
        lemma_nothing_fresh(seen, texts.drop_last());
        assert(seen.contains(texts[texts.len() - 1]));
    }
}

/// A warning is logged once: after a list of warnings was given, giving any of them again logs
/// nothing.
pub proof fn law_warnings_are_logged_once(
    s: StateView,
    warnings: Seq<Seq<char>>,
    again: Seq<Seq<char>>,
)
    requires
        forall|i: int| 0 <= i < again.len() ==> warnings.contains(#[trigger] again[i]),
    ensures
        fresh(s.warnings, warnings).no_duplicates(),
        fresh(s.warning(warnings).warnings, again) == Seq::<Seq<char>>::empty(),
{
    let seen = s.warning(warnings).warnings;
    let given = fresh(s.warnings, warnings);
    lemma_fresh(s.warnings, warnings);
    assert forall|i: int| 0 <= i < again.len() implies seen.contains(#[trigger] again[i]) by {
        let k = warnings.index_of(again[i]);
        assert(warnings[k] == again[i]);
        if s.warnings.contains(warnings[k]) {
            let j = s.warnings.index_of(again[i]);
            assert(seen[j] == again[i]);
        } else {
            let j = given.index_of(again[i]);
            assert(seen[s.warnings.len() + j] == again[i]);
        }
    }
    lemma_nothing_fresh(seen, again);
}

proof fn lemma_seen_stays(s: StateView, warnings: Seq<Seq<char>>)
    ensures
        forall|x: Seq<char>|
            s.warnings.contains(x) || warnings.contains(x) ==> #[trigger] s.warning(
                warnings,
            ).warnings.contains(x),
{
    let seen = s.warning(warnings).warnings;
    let given = fresh(s.warnings, warnings);
    lemma_fresh(s.warnings, warnings);
    assert forall|x: Seq<char>|
        s.warnings.contains(x) || warnings.contains(x) implies #[trigger] seen.contains(x) by {
        if s.warnings.contains(x) {
            let j = s.warnings.index_of(x);
            assert(seen[j] == x);
        } else {
            let k = warnings.index_of(x);
            assert(warnings[k] == x);
            let j = given.index_of(x);
            assert(seen[s.warnings.len() + j] == x);
        }
    }
}

/// A document is opened and checked, then changed and checked again. If the second text gives rise to
/// no warning that the first did not give rise to, nothing is logged the second time.
pub proof fn law_a_change_repeats_no_warning(
    s: StateView,
    info: UriView,
    version: i32,
    text: Seq<char>,
    loaded: Seq<Seq<char>>,
    found: CheckedView,
    next_version: i32,
    changes: Seq<ContentChange>,
    loaded_again: Seq<Seq<char>>,
    found_again: CheckedView,
)
    requires
        opened(s, info, version, text).1 is Check,
        ({
            let (s1, action) = opened(s, info, version, text);
            let (s2, _) = finished(s1, action->Check_0, loaded, OutcomeView::Found(found));
            changed(s2, info, next_version, changes).1 is Check
        }),
        forall|i: int|
            0 <= i < loaded_again.len() ==> loaded.contains(#[trigger] loaded_again[i])
                || found.warnings.contains(loaded_again[i]),
        forall|i: int|
            0 <= i < found_again.warnings.len() ==> loaded.contains(
                #[trigger] found_again.warnings[i],
            ) || found.warnings.contains(found_again.warnings[i]),
    ensures
        ({
            let (s1, action) = opened(s, info, version, text);
            let (s2, _) = finished(s1, action->Check_0, loaded, OutcomeView::Found(found));
            let (s3, again) = changed(s2, info, next_version, changes);
            finished(
                s3,
                again->Check_0,
                loaded_again,
                OutcomeView::Found(found_again),
            ).1.messages.len() == 0
        }),
{
    let (s1, action) = opened(s, info, version, text);
    let (s2, _) = finished(s1, action->Check_0, loaded, OutcomeView::Found(found));
    let (s3, again) = changed(s2, info, next_version, changes);
    lemma_seen_stays(s1, loaded);
    lemma_seen_stays(s1.warning(loaded), found.warnings);
    assert(s3.warnings == s1.warning(loaded).warning(found.warnings).warnings);
    lemma_nothing_fresh(s3.warnings, loaded_again);
    assert(s3.warnings + Seq::<Seq<char>>::empty() =~= s3.warnings);
    lemma_nothing_fresh(s3.warnings, found_again.warnings);
}

/// Two texts that disable the same checks give rise to the same warnings, if the same checker checks
/// them for the same file.
pub proof fn law_warnings_follow_the_directives(
    checker: SafetyChecker,
    first: CheckView,
    second: CheckView,
    statements: Result<Statements>,
    other_statements: Result<Statements>,
    ctx: ContextView,
)
    requires
        first.path == second.path,
        disabled_checks_of(first.text) == disabled_checks_of(second.text),
        check_outcome(checker, first, statements, ctx) is Found,
        check_outcome(checker, second, other_statements, ctx) is Found,
    ensures
        check_outcome(checker, first, statements, ctx)->Found_0.warnings == check_outcome(
            checker,
            second,
            other_statements,
            ctx,
        )->Found_0.warnings,
{
}

/// A document is opened and checked, then changed and checked again by the same checker. If both texts
/// disable the same checks, nothing is logged the second time, unknown names among them included.
pub proof fn law_repeated_directives_are_warned_of_once(
    s: StateView,
    info: UriView,
    version: i32,
    text: Seq<char>,
    loaded: Seq<Seq<char>>,
    next_version: i32,
    changes: Seq<ContentChange>,
    checker: SafetyChecker,
    statements: Result<Statements>,
    next_statements: Result<Statements>,
    ctx: ContextView,
)
    requires
        ({
            let (s1, action) = opened(s, info, version, text);
            let check = action->Check_0;
            let outcome = check_outcome(checker, check, statements, ctx);
            let (s2, _) = finished(s1, check, loaded, outcome);
            let (_, again) = changed(s2, info, next_version, changes);
            let next = again->Check_0;
            &&& action is Check
            &&& again is Check
            &&& outcome is Found
            &&& check_outcome(checker, next, next_statements, ctx) is Found
            &&& disabled_checks_of(next.text) == disabled_checks_of(text)
        }),
    ensures
        ({
            let (s1, action) = opened(s, info, version, text);
            let check = action->Check_0;
            let (s2, _) = finished(
                s1,
                check,
                loaded,
                check_outcome(checker, check, statements, ctx),
            );
            let (s3, again) = changed(s2, info, next_version, changes);
            let next = again->Check_0;
            finished(
                s3,
                next,
                Seq::empty(),
                check_outcome(checker, next, next_statements, ctx),
            ).1.messages.len() == 0
        }),
{
    let (s1, action) = opened(s, info, version, text);
    let check = action->Check_0;
    let outcome = check_outcome(checker, check, statements, ctx);
    let (s2, _) = finished(s1, check, loaded, outcome);
    let (s3, again) = changed(s2, info, next_version, changes);
    let next = again->Check_0;
    let next_outcome = check_outcome(checker, next, next_statements, ctx);
    assert(check.path == info.path && next.path == info.path);
    law_warnings_follow_the_directives(checker, check, next, statements, next_statements, ctx);
    law_a_change_repeats_no_warning(
        s,
        info,
        version,
        text,
        loaded,
        outcome->Found_0,
        next_version,
        changes,
        Seq::empty(),
        next_outcome->Found_0,
    );
}

/// An error of the configuration is shown once as long as it stays the same, and each time the
/// diagnostics are cleared.
pub proof fn law_config_errors_are_shown_once(
    s: StateView,
    uri: Seq<char>,
    version: Option<i32>,
    other_uri: Seq<char>,
    other_version: Option<i32>,
    err: Seq<char>,
)
    ensures
        ({
            let t = config_failed(s, uri, version, err).0;
            config_failed(t, other_uri, other_version, err).1 == OutputView::nothing().with_event(
                cleared(other_uri, other_version),
            )
        }),
{
}

/// Changes of parts of documents are logged once.
pub proof fn law_incremental_changes_are_logged_once(
    s: StateView,
    uri: Seq<char>,
    version: Option<i32>,
    other_uri: Seq<char>,
    other_version: Option<i32>,
)
    ensures
        ({
            let t = incremental_step(s, uri, version).0;
            incremental_step(t, other_uri, other_version).1 matches ActionView::Finish(output)
                && output.messages.len() == 0
        }),
{
}

/// Notifications that the server does not know are logged once.
pub proof fn law_unsupported_notifications_are_logged_once(
    s: StateView,
    method: Seq<char>,
    other_method: Seq<char>,
)
    ensures
        unsupported(unsupported(s, method).0, other_method).1 == OutputView::nothing(),
{
}

proof fn lemma_stored(s: StateView, uri: Seq<char>, document: DocumentView)
    requires
        s.wf(),
    ensures
        s.storing(uri, document).document(uri) == Some(document),
        s.storing(uri, document).wf(),
{
    let uris = document_uris(s.documents);
    let rest = s.forgetting(uri).documents;
    if uris.contains(uri) {
        assert(document_uris(rest) =~= uris.remove(uris.index_of(uri)));
    }
    assert(!document_uris(rest).contains(uri));
    let kept = if rest.len() >= super::MAX_TRACKED_DOCUMENTS {
        rest.remove(0)
    } else {
        rest
    };
    if rest.len() >= super::MAX_TRACKED_DOCUMENTS {
        assert(document_uris(kept) =~= document_uris(rest).remove(0));
    }
    let all = kept.push((uri, document));
    assert(document_uris(all) =~= document_uris(kept).push(uri));
    let n = all.len() - 1;
    assert(document_uris(all)[n] == uri);
    assert(document_uris(all).index_of(uri) == n);
}

/// What the editor opens the server knows, with its text unless that is too long.
pub proof fn law_opened_documents_are_known(
    s: StateView,
    info: UriView,
    version: i32,
    text: Seq<char>,
)
    requires
        s.wf(),
        info.is_sql,
    ensures
        opened(s, info, version, text).0.document(info.uri) == Some(
            live_document(text, Some(version)),
        ),
{
    lemma_stored(s, info.uri, live_document(text, Some(version)));
}

/// A change that leaves version and text as they are has no effect.
pub proof fn law_unchanged_documents_are_not_checked_again(
    s: StateView,
    info: UriView,
    version: i32,
    text: Seq<char>,
    changes: Seq<ContentChange>,
)
    requires
        s.wf(),
        info.is_sql,
        !exceeds_live_limit(text),
        last_full_text(changes, changes.len() as int) == Some(text),
    ensures
        ({
            let t = opened(s, info, version, text).0;
            changed(t, info, version, changes) == (t, ActionView::Finish(OutputView::nothing()))
        }),
{
    lemma_stored(s, info.uri, live_document(text, Some(version)));
}

/// After a change of a part of a document its text is not known, so it is not taken for what was
/// saved.
pub proof fn law_incremental_changes_forget_the_text(
    s: StateView,
    info: UriView,
    version: i32,
    changes: Seq<ContentChange>,
)
    requires
        s.wf(),
        info.is_sql,
        last_full_text(changes, changes.len() as int) is None,
    ensures
        changed(s, info, version, changes).0.document(info.uri) == Some(
            DocumentView { text: None, version: Some(version) },
        ),
{
    lemma_stored(s, info.uri, DocumentView { text: None, version: Some(version) });
}

/// Of a document that was closed nothing is known any more, and it has no diagnostics.
pub proof fn law_closed_documents_are_forgotten(s: StateView, info: UriView)
    requires
        s.wf(),
    ensures
        closed_document(s, info).0.document(info.uri) is None,
        !closed_document(s, info).0.published.contains(info.uri),
{
    let uris = document_uris(s.documents);
    if uris.contains(info.uri) {
        assert(document_uris(s.forgetting(info.uri).documents) =~= uris.remove(
            uris.index_of(info.uri),
        ));
    }
    lemma_without(s.published, info.uri);
}

/// After a check that finds violations, the last event that is sent is about the document and holds as
/// many diagnostics as there are violations, in their order. Each one is on the whole line of its
/// violation, counted from 0, with its severity, the name of its check as the code, and its problem
/// and advice as the message.
pub proof fn law_every_violation_is_published(
    s: StateView,
    check: CheckView,
    warnings: Seq<Seq<char>>,
    checked: CheckedView,
)
    ensures
        ({
            let out = finished(s, check, warnings, OutcomeView::Found(checked)).1;
            let event = out.diagnostics.last();
            &&& out.diagnostics.len() > 0
            &&& event.uri == check.uri
            &&& event.version == check.version
            &&& event.diagnostics.len() == checked.violations.len()
            &&& forall|i: int|
                #![trigger event.diagnostics[i]]
                0 <= i < checked.violations.len() ==> {
                    let shown = event.diagnostics[i];
                    let (line, violation) = checked.violations[i];
                    &&& 1 <= line <= u32::MAX ==> shown.range.start.line == line - 1
                        && shown.range.end.line == line - 1
                    &&& shown.range.start.character == 0
                    &&& 1 <= line <= lines(check.text).len() && utf16_len(
                        lines(check.text)[line - 1],
                    ) <= u32::MAX ==> shown.range.end.character == utf16_len(
                        lines(check.text)[line - 1],
                    )
                    &&& shown.severity == if violation.severity == Severity::Error {
                        DiagnosticSeverity::Error
                    } else {
                        DiagnosticSeverity::Warning
                    }
                    &&& line == 0 || line > lines(check.text).len() && line > 1
                        ==> shown.range.end.character == if line == 0 && lines(check.text).len() > 0 {
                        capped(utf16_len(lines(check.text)[0]))
                    } else {
                        0
                    }
                    &&& shown.code == if violation.check_name.len() == 0 {
                        None
                    } else {
                        Some(violation.check_name)
                    }
                    &&& shown.source == "diesel-guard"@
                    &&& shown.message == if violation.safe_alternative.len() == 0 {
                        violation.problem
                    } else {
                        violation.problem + " Safe alternative: "@ + violation.safe_alternative
                    }
                }
        }),
{
    let out = finished(s, check, warnings, OutcomeView::Found(checked)).1;
    let event = out.diagnostics.last();
    assert forall|i: int|
        #![trigger event.diagnostics[i]]
        0 <= i < checked.violations.len() implies event.diagnostics[i].message == if checked.violations[i].1.safe_alternative.len()
        == 0 {
        checked.violations[i].1.problem
    } else {
        checked.violations[i].1.problem + " Safe alternative: "@
            + checked.violations[i].1.safe_alternative
    } by {
        let violation = checked.violations[i].1;
        law_messages_hold_problem_and_advice(violation.problem, violation.safe_alternative);
    }
}

/// A text that was saved and cannot be parsed is shown with one diagnostic, an error at the place of
/// the fault; while it is being edited it is shown with none.
pub proof fn law_parse_errors_are_published_on_save(
    s: StateView,
    check: CheckView,
    warnings: Seq<Seq<char>>,
    message: Seq<char>,
    offset: nat,
)
    ensures
        ({
            let out = finished(s, check, warnings, OutcomeView::Unparsed { message, offset }).1;
            let event = out.diagnostics.last();
            &&& out.diagnostics.len() > 0
            &&& event.uri == check.uri
            &&& event.version == check.version
            &&& check.kind == CheckKind::Live ==> event.diagnostics.len() == 0
            &&& check.kind != CheckKind::Live ==> event.diagnostics.len() == 1
                && event.diagnostics[0].message == message && event.diagnostics[0].severity
                == DiagnosticSeverity::Error && event.diagnostics[0].code == Some("ParseError"@)
                && event.diagnostics[0].range.start == position_of(check.text, offset)
                && event.diagnostics[0].range.end == position_of(check.text, offset)
        }),
{
}

/// If a text cannot be checked for another reason than its syntax, its diagnostics are cleared and the
/// reason is shown as an error.
pub proof fn law_failures_are_shown(
    s: StateView,
    check: CheckView,
    warnings: Seq<Seq<char>>,
    message: Seq<char>,
)
    ensures
        ({
            let out = finished(s, check, warnings, OutcomeView::Failed(message)).1;
            &&& out.diagnostics.len() == 1
            &&& out.diagnostics[0].uri == check.uri
            &&& out.diagnostics[0].version == check.version
            &&& out.diagnostics[0].diagnostics.len() == 0
            &&& out.messages.len() > 0
            &&& out.messages.last().typ == MessageType::Error
        }),
{
}

/// A check sends events about its own document, and at most one more, which clears the diagnostics of
/// another.
pub proof fn law_a_check_sends_at_most_two_events(
    s: StateView,
    check: CheckView,
    warnings: Seq<Seq<char>>,
    outcome: OutcomeView,
)
    requires
        s.wf(),
    ensures
        ({
            let out = finished(s, check, warnings, outcome).1;
            &&& 1 <= out.diagnostics.len() <= 2
            &&& out.diagnostics.len() == 2 ==> out.diagnostics[0].uri == s.published[0]
                && out.diagnostics[0].diagnostics.len() == 0 && s.published.len() == 256
                && !s.published.contains(check.uri)
        }),
{
}

/// The warnings that were not logged before are logged in their order, each once, and as log messages.
pub proof fn law_new_warnings_are_logged(
    s: StateView,
    check: CheckView,
    warnings: Seq<Seq<char>>,
    checked: CheckedView,
    warning: Seq<char>,
)
    requires
        warnings.contains(warning) || checked.warnings.contains(warning),
        !s.warnings.contains(warning),
    ensures
        finished(s, check, warnings, OutcomeView::Found(checked)).1.messages.contains(
            MessageView { typ: MessageType::Log, message: warning },
        ),
        finished(s, check, warnings, OutcomeView::Found(checked)).0.warnings.contains(warning),
{
    let t = s.warning(warnings);
    let out = finished(s, check, warnings, OutcomeView::Found(checked)).1.messages;
    let first = fresh(s.warnings, warnings);
    let second = fresh(t.warnings, checked.warnings);
    lemma_fresh(s.warnings, warnings);
    lemma_fresh(t.warnings, checked.warnings);
    lemma_seen_stays(s, warnings);
    lemma_seen_stays(t, checked.warnings);
    let entry = MessageView { typ: MessageType::Log, message: warning };
    if warnings.contains(warning) {
        let k = warnings.index_of(warning);
        assert(warnings[k] == warning);
        let i = first.index_of(warning);
        assert(out[i] == entry);
    } else {
        let k = checked.warnings.index_of(warning);
        assert(checked.warnings[k] == warning);
        if t.warnings.contains(warning) {
            let i = t.warnings.index_of(warning);
            if i < s.warnings.len() {
                assert(s.warnings[i] == warning);
            } else {
                assert(first[i - s.warnings.len()] == warning);
                assert(out[i - s.warnings.len()] == entry);
            }
        } else {
            let i = second.index_of(warning);
            let n = out.len() - second.len();
            assert(out[n + i] == entry);
        }
    }
}

/// The first error of a configuration, and each new one, is shown.
pub proof fn law_new_config_errors_are_shown(
    s: StateView,
    uri: Seq<char>,
    version: Option<i32>,
    err: Seq<char>,
)
    requires
        s.last_config_error is None,
    ensures
        ({
            let (t, out) = config_failed(s, uri, version, err);
            &&& out.diagnostics.len() == 1
            &&& out.diagnostics[0].uri == uri
            &&& out.diagnostics[0].version == version
            &&& out.diagnostics[0].diagnostics.len() == 0
            &&& out.messages.len() == 1
            &&& out.messages[0].typ == MessageType::Error
            &&& t.last_config_error == Some(out.messages[0].message)
        }),
{
}

// ---------------------------------------------------------------------------
// Documents
// ---------------------------------------------------------------------------

/// What is known of a document is what is stored under its URI, and nothing is known where nothing is
/// stored.
pub proof fn law_documents_are_found_by_uri(s: StateView, uri: Seq<char>, i: int)
    requires
        s.wf(),
    ensures
        0 <= i < s.documents.len() && s.documents[i].0 == uri ==> s.document(uri) == Some(
            s.documents[i].1,
        ),
        (forall|k: int| 0 <= k < s.documents.len() ==> (#[trigger] s.documents[k]).0 != uri)
            ==> s.document(uri) is None,
{
    let uris = document_uris(s.documents);
    if 0 <= i < s.documents.len() && s.documents[i].0 == uri {
        assert(uris[i] == uri);
        let k = uris.index_of(uri);
        assert(uris[k] == uri);
        assert(k == i);
    }
    if uris.contains(uri) {
        let k = uris.index_of(uri);
        assert(uris[k] == uri);
        assert(s.documents[k].0 == uri);
    }
}

/// Storing a document leaves the others as they are, except that the one stored longest ago is dropped
/// where 256 others are stored already.
pub proof fn law_other_documents_stay(
    s: StateView,
    uri: Seq<char>,
    document: DocumentView,
    other: Seq<char>,
)
    requires
        s.wf(),
        other != uri,
    ensures
        s.documents.len() < 256 || s.document(uri) is Some ==> s.storing(uri, document).document(
            other,
        ) == s.document(other),
        s.documents.len() == 256 && s.document(uri) is None ==> s.storing(uri, document).document(
            other,
        ) == if other == s.documents[0].0 {
            None
        } else {
            s.document(other)
        },
        s.forgetting(uri).document(other) == s.document(other),
        s.forgetting(uri).document(uri) is None,
        s.storing(uri, document).document(uri) == Some(document),
        s.storing(uri, document).published == s.published,
        s.storing(uri, document).warnings == s.warnings,
{
    let uris = document_uris(s.documents);
    let t = s.forgetting(uri);
    let rest = t.documents;
    lemma_stored(s, uri, document);
    if uris.contains(uri) {
        let k = uris.index_of(uri);
        assert(document_uris(rest) =~= uris.remove(k));
        lemma_removed_document(s, k, other);
    } else {
        assert(rest == s.documents);
    }
    let full = rest.len() >= 256;
    let kept = if full {
        rest.remove(0)
    } else {
        rest
    };
    let u = StateView { documents: kept, ..s };
    if full {
        assert(document_uris(kept) =~= document_uris(rest).remove(0));
        if rest[0].0 != other {
            lemma_removed_document(t, 0, other);
        }
    }
    lemma_pushed_document(u, uri, document, other);
    if full && other == rest[0].0 {
        assert(document_uris(rest)[0] == other);
        if document_uris(kept).contains(other) {
            let k = document_uris(kept).index_of(other);
            assert(document_uris(rest)[k + 1] == other);
        }
    }
    assert(!document_uris(rest).contains(uri));
}

proof fn lemma_removed_document(s: StateView, k: int, other: Seq<char>)
    requires
        s.wf(),
        0 <= k < s.documents.len(),
        s.documents[k].0 != other,
    ensures
        (StateView { documents: s.documents.remove(k), ..s }).document(other) == s.document(other),
{
    let uris = document_uris(s.documents);
    let t = StateView { documents: s.documents.remove(k), ..s };
    assert(document_uris(t.documents) =~= uris.remove(k));
    let rest = document_uris(t.documents);
    if uris.contains(other) {
        let i = uris.index_of(other);
        assert(uris[i] == other);
        let j = if i < k {
            i
        } else {
            i - 1
        };
        assert(rest[j] == other);
        let m = rest.index_of(other);
        assert(rest[m] == other);
        assert(m == j) by {
            assert(uris[if m < k {
                m
            } else {
                m + 1
            }] == other);
        }
        assert(t.documents[j] == s.documents[i]);
    } else if rest.contains(other) {
        let m = rest.index_of(other);
        assert(uris[if m < k {
            m
        } else {
            m + 1
        }] == other);
    }
}

proof fn lemma_pushed_document(
    s: StateView,
    uri: Seq<char>,
    document: DocumentView,
    other: Seq<char>,
)
    requires
        document_uris(s.documents).no_duplicates(),
        !document_uris(s.documents).contains(uri),
        other != uri,
    ensures
        (StateView { documents: s.documents.push((uri, document)), ..s }).document(other)
            == s.document(other),
{
    let uris = document_uris(s.documents);
    let t = StateView { documents: s.documents.push((uri, document)), ..s };
    let all = document_uris(t.documents);
    assert(all =~= uris.push(uri));
    if uris.contains(other) {
        let i = uris.index_of(other);
        assert(all[i] == other);
        let m = all.index_of(other);
        assert(all[m] == other);
        assert(uris[m] == other);
        assert(uris[i] == other);
        assert(m == i);
    } else if all.contains(other) {
        let m = all.index_of(other);
        assert(uris[m] == other);
    }
}

/// Documents that are published, or not, stay so when others are tracked or no longer tracked, except
/// that the first of 256 is dropped when another is added.
pub proof fn law_other_publications_stay(s: StateView, uri: Seq<char>, other: Seq<char>)
    requires
        s.wf(),
        other != uri,
    ensures
        s.untracking(uri).published.contains(other) == s.published.contains(other),
        !s.untracking(uri).published.contains(uri),
        s.tracking(uri).published.contains(uri),
        s.published.len() < 256 || s.published.contains(uri) ==> s.tracking(uri).published.contains(
            other,
        ) == s.published.contains(other),
        s.published.len() == 256 && !s.published.contains(uri) ==> s.tracking(
            uri,
        ).published.contains(other) == (s.published.contains(other) && other != s.published[0]),
{
    lemma_without(s.published, uri);
    lemma_tracking(s, uri);
    let all = s.published;
    let now = s.tracking(uri).published;
    if !all.contains(uri) {
        let dropped = if all.len() >= 256 {
            1int
        } else {
            0int
        };
        if all.contains(other) {
            let i = all.index_of(other);
            assert(all[i] == other);
            if i >= dropped {
                assert(now[i - dropped] == other);
            }
        }
        if now.contains(other) {
            let k = now.index_of(other);
            assert(now[k] == other);
            assert(k < now.len() - 1);
            assert(all[k + dropped] == other);
        }
    }
}

/// An SQL document that is opened is checked as it is, with its version and its path, unless it has more
/// than a million bytes; then its diagnostics are cleared, if it has any, and this is logged. A document
/// of another kind is forgotten.
pub proof fn law_opened_documents_are_checked(
    s: StateView,
    info: UriView,
    version: i32,
    text: Seq<char>,
)
    requires
        s.wf(),
    ensures
        ({
            let (t, action) = opened(s, info, version, text);
            &&& info.is_sql && encode_utf8(text).len() <= 1_000_000 ==> {
                &&& action is Check
                &&& action->Check_0.uri == info.uri
                &&& action->Check_0.version == Some(version)
                &&& action->Check_0.text == text
                &&& action->Check_0.path == info.path
                &&& action->Check_0.kind == CheckKind::Live
                &&& action->Check_0.note is None
                &&& t.document(info.uri) == Some(
                    DocumentView { text: Some(text), version: Some(version) },
                )
                &&& t.published == s.published
            }
            &&& info.is_sql && encode_utf8(text).len() > 1_000_000 ==> {
                &&& action is Finish
                &&& action->Finish_0.messages.len() == 1
                &&& action->Finish_0.messages[0].typ == MessageType::Log
                &&& t.document(info.uri) == Some(
                    DocumentView { text: None, version: Some(version) },
                )
                &&& !t.published.contains(info.uri)
                &&& action->Finish_0.diagnostics.len() == if s.published.contains(info.uri) {
                    1nat
                } else {
                    0nat
                }
            }
            &&& !info.is_sql ==> {
                &&& action is Finish
                &&& action->Finish_0.messages.len() == 0
                &&& action->Finish_0.diagnostics.len() == if s.published.contains(info.uri) {
                    1nat
                } else {
                    0nat
                }
                &&& t.document(info.uri) is None
                &&& !t.published.contains(info.uri)
            }
            &&& action is Finish && action->Finish_0.diagnostics.len() == 1
                ==> action->Finish_0.diagnostics[0].uri == info.uri
                && action->Finish_0.diagnostics[0].diagnostics.len() == 0
                && action->Finish_0.diagnostics[0].version == Some(version)
        }),
{
    lemma_stored(s, info.uri, live_document(text, Some(version)));
    lemma_without(s.published, info.uri);
    let uris = document_uris(s.documents);
    if uris.contains(info.uri) {
        assert(document_uris(s.forgetting(info.uri).documents) =~= uris.remove(
            uris.index_of(info.uri),
        ));
    }
}

/// A change that gives the whole text of an SQL document has the effect of opening it with that text,
/// unless version and text are what is known already.
pub proof fn law_changes_are_like_opening(
    s: StateView,
    info: UriView,
    version: i32,
    changes: Seq<ContentChange>,
    k: int,
)
    requires
        info.is_sql,
        0 <= k < changes.len(),
        !changes[k].has_range,
        forall|j: int| k < j < changes.len() ==> (#[trigger] changes[j]).has_range,
        s.document(info.uri) != Some(
            DocumentView { text: Some(changes[k].text@), version: Some(version) },
        ),
    ensures
        changed(s, info, version, changes) == opened(s, info, version, changes[k].text@),
{
    law_the_last_full_text_counts(changes, changes.len() as int);
}

/// A change of parts alone clears the diagnostics of an SQL document, if it has any, and checks nothing;
/// the first time this is logged.
pub proof fn law_partial_changes_clear_the_diagnostics(
    s: StateView,
    info: UriView,
    version: i32,
    changes: Seq<ContentChange>,
)
    requires
        s.wf(),
        info.is_sql,
        forall|j: int| 0 <= j < changes.len() ==> (#[trigger] changes[j]).has_range,
    ensures
        ({
            let (t, action) = changed(s, info, version, changes);
            &&& action is Finish
            &&& !t.published.contains(info.uri)
            &&& t.warned_incremental_change
            &&& action->Finish_0.diagnostics.len() == if s.published.contains(info.uri) {
                1nat
            } else {
                0nat
            }
            &&& action->Finish_0.messages.len() == if s.warned_incremental_change {
                0nat
            } else {
                1nat
            }
        }),
{
    law_the_last_full_text_counts(changes, changes.len() as int);
    lemma_without(s.published, info.uri);
}

/// A saved SQL document with a path is read from its file; the text that comes with the notification, or
/// else the one that is known, stands in if that fails. One without a path is checked by that text, and
/// if there is none, or it has more than a million bytes, its diagnostics are cleared.
pub proof fn law_saved_documents_are_checked(
    s: StateView,
    info: UriView,
    text: Option<Seq<char>>,
)
    requires
        s.wf(),
        info.is_sql,
    ensures
        ({
            let (t, action) = saved(s, info, text);
            let document = s.document(info.uri);
            let known = if text is Some {
                text
            } else if document is Some {
                document->0.text
            } else {
                None
            };
            let version = if document is Some {
                document->0.version
            } else {
                None
            };
            &&& info.path is Some ==> action == ActionView::ReadFile(
                SaveView { uri: info.uri, version, path: info.path->0, fallback_text: known },
            ) && t == s
            &&& info.path is None && known is Some && encode_utf8(known->0).len() <= 1_000_000
                ==> action == ActionView::Check(
                CheckView {
                    uri: info.uri,
                    version,
                    text: known->0,
                    path: None,
                    kind: CheckKind::SavedText,
                    note: None,
                },
            ) && t == s
            &&& info.path is None && (known is None || encode_utf8(known->0).len() > 1_000_000) ==> {
                &&& action is Finish
                &&& action->Finish_0.diagnostics == seq![cleared(info.uri, version)]
                &&& action->Finish_0.messages.len() == 1
                &&& action->Finish_0.messages[0].typ == if known is None {
                    MessageType::Error
                } else {
                    MessageType::Log
                }
                &&& !t.published.contains(info.uri)
            }
        }),
{
    lemma_without(s.published, info.uri);
    assert(OutputView::nothing().with_event(
        cleared(
            info.uri,
            match s.document(info.uri) {
                Some(document) => document.version,
                None => None,
            },
        ),
    ).diagnostics =~= seq![
        cleared(
            info.uri,
            match s.document(info.uri) {
                Some(document) => document.version,
                None => None,
            },
        ),
    ]);
}

/// The file of a saved document is checked by its path with the text that was read. A file that is too
/// large clears the diagnostics; for one that cannot be read the known text is checked, with a note, and
/// without one an error is shown.
pub proof fn law_files_that_were_read_are_checked(
    s: StateView,
    save: SaveView,
    read: std::result::Result<LimitedFileRead, String>,
)
    requires
        s.wf(),
    ensures
        ({
            let (t, action) = file_read(s, save, read);
            &&& read matches Ok(LimitedFileRead::Text(text)) ==> t == s && action
                == ActionView::Check(
                CheckView {
                    uri: save.uri,
                    version: save.version,
                    text: text@,
                    path: Some(save.path),
                    kind: CheckKind::SavedFile,
                    note: None,
                },
            )
            &&& read matches Ok(LimitedFileRead::TooLarge) ==> {
                &&& action is Finish
                &&& action->Finish_0.diagnostics.len() == 1
                &&& action->Finish_0.diagnostics[0] == cleared(save.uri, save.version)
                &&& !t.published.contains(save.uri)
            }
            &&& read is Err && save.fallback_text is Some && encode_utf8(
                save.fallback_text->0,
            ).len() <= 1_000_000 ==> {
                &&& t == s
                &&& action is Check
                &&& action->Check_0.text == save.fallback_text->0
                &&& action->Check_0.uri == save.uri
                &&& action->Check_0.version == save.version
                &&& action->Check_0.path is None
                &&& action->Check_0.kind == CheckKind::SavedText
                &&& action->Check_0.note is Some
            }
            &&& read is Err && save.fallback_text is None ==> {
                &&& action is Finish
                &&& action->Finish_0.diagnostics.len() == 1
                &&& action->Finish_0.diagnostics[0] == cleared(save.uri, save.version)
                &&& action->Finish_0.messages.len() == 1
                &&& action->Finish_0.messages[0].typ == MessageType::Error
                &&& !t.published.contains(save.uri)
            }
        }),
{
    lemma_without(s.published, save.uri);
}

/// Closing an SQL document clears its diagnostics; closing another one does so only if it has some.
/// Nothing else is sent.
pub proof fn law_closing_clears_the_diagnostics(s: StateView, info: UriView)
    ensures
        ({
            let out = closed_document(s, info).1;
            &&& out.messages.len() == 0
            &&& info.is_sql || s.published.contains(info.uri) ==> out.diagnostics == seq![
                cleared(info.uri, None),
            ]
            &&& !info.is_sql && !s.published.contains(info.uri) ==> out.diagnostics.len() == 0
        }),
{
    assert(OutputView::nothing().with_event(cleared(info.uri, None)).diagnostics =~= seq![
        cleared(info.uri, None),
    ]);
}

/// Clearing a document sends no diagnostics for it.
pub proof fn law_clearing_sends_no_diagnostics(uri: Seq<char>, version: Option<i32>)
    ensures
        cleared(uri, version).uri == uri,
        cleared(uri, version).version == version,
        cleared(uri, version).diagnostics.len() == 0,
{
}

// ---------------------------------------------------------------------------
// Notifications
// ---------------------------------------------------------------------------

/// The four notifications about documents are told apart by their methods, as are those that end and
/// that complete the start of the session; any other is unsupported, and the first one is logged.
pub proof fn law_methods_are_told_apart(s: StateView, method: Seq<char>)
    ensures
        kind_of("textDocument/didOpen"@) == NotificationKind::Document(
            DocumentNotificationKind::Open,
        ),
        kind_of("textDocument/didChange"@) == NotificationKind::Document(
            DocumentNotificationKind::Change,
        ),
        kind_of("textDocument/didSave"@) == NotificationKind::Document(
            DocumentNotificationKind::Save,
        ),
        kind_of("textDocument/didClose"@) == NotificationKind::Document(
            DocumentNotificationKind::Close,
        ),
        kind_of("exit"@) == NotificationKind::Exit,
        kind_of("initialized"@) == NotificationKind::Initialized,
        kind_of(method) == NotificationKind::Unsupported <==> {
            &&& method != "textDocument/didOpen"@
            &&& method != "textDocument/didChange"@
            &&& method != "textDocument/didSave"@
            &&& method != "textDocument/didClose"@
            &&& method != "exit"@
            &&& method != "initialized"@
        },
        !s.warned_unsupported_notification ==> unsupported(s, method).1.messages.len() == 1,
        unsupported(s, method).1.diagnostics.len() == 0,
{
    reveal_strlit("textDocument/didOpen");
    reveal_strlit("textDocument/didChange");
    reveal_strlit("textDocument/didSave");
    reveal_strlit("textDocument/didClose");
    reveal_strlit("exit");
    reveal_strlit("initialized");
    assert("textDocument/didOpen"@.len() == 20);
    assert("textDocument/didChange"@.len() == 22);
    assert("textDocument/didSave"@.len() == 20);
    assert("textDocument/didClose"@.len() == 21);
    assert("exit"@.len() == 4);
    assert("initialized"@.len() == 11);
    assert("textDocument/didOpen"@[16] != "textDocument/didSave"@[16]);
}

// ---------------------------------------------------------------------------
// Outcomes
// ---------------------------------------------------------------------------

/// A document is checked with the context of its migration if it has a path, and otherwise with the
/// default one; a text whose directives do not fit together, or that the parser refuses, is unparsed, and
/// any other error fails the check.
pub proof fn law_outcomes_follow_the_parser(
    checker: SafetyChecker,
    check: CheckView,
    statements: Result<Statements>,
    ctx: ContextView,
)
    ensures
        ({
            let outcome = check_outcome(checker, check, statements, ctx);
            &&& statements is Ok && blocks(line_kinds(check.text)) is Ok ==> outcome
                == OutcomeView::Found(
                if check.path is Some {
                    checker.check_result(
                        check.text,
                        statements->Ok_0,
                        ctx,
                        check.path->0 + " migration-scoped disable_checks"@,
                    )
                } else {
                    checker.check_result(
                        check.text,
                        statements->Ok_0,
                        ContextView::default_context(),
                        "migration-scoped disable_checks"@,
                    )
                },
            )
            &&& statements is Ok && blocks(line_kinds(check.text)) is Err ==> outcome is Unparsed
                && outcome->Unparsed_message == "Failed to parse SQL: "@ + blocks(
                line_kinds(check.text),
            )->Err_0.text()
            &&& statements is Err && statements->Err_0 is ParseError ==> outcome is Unparsed
                && outcome->Unparsed_message == "Failed to parse SQL: "@
                + statements->Err_0->ParseError_msg@ && (statements->Err_0->ParseError_span is Some
                ==> outcome->Unparsed_offset == statements->Err_0->ParseError_span->0.offset)
            &&& statements is Err && !(statements->Err_0 is ParseError) ==> outcome
                == OutcomeView::Failed(statements->Err_0.displayed())
        }),
{
    if let Some(path) = check.path {
        lemma_file_source(path);
    }
    if statements is Ok && blocks(line_kinds(check.text)) is Err {
        lemma_parse_text(blocks(line_kinds(check.text))->Err_0.text());
    }
    if let Err(err) = statements {
        if err is ParseError {
            lemma_parse_text(err->ParseError_msg@);
        }
    }
}

proof fn lemma_parse_text(message: Seq<char>)
    ensures
        fill(PARSE_ERROR_TEXT@, seq![message]) == "Failed to parse SQL: "@ + message,
{
    reveal_strlit("Failed to parse SQL: {0}");
    reveal_strlit("Failed to parse SQL: ");
    let none = Seq::<char>::empty();
    assert(PARSE_ERROR_TEXT@ =~= "Failed to parse SQL: "@ + (seq!['{', '0', '}'] + none));
    law_holes_are_filled("Failed to parse SQL: "@, '0', none, seq![message]);
    law_plain_templates_stay(none, seq![message]);
    assert("Failed to parse SQL: "@ + (message + none) =~= "Failed to parse SQL: "@ + message);
}

proof fn lemma_file_source(path: Seq<char>)
    ensures
        fill(FILE_SOURCE@, seq![path]) == path + " migration-scoped disable_checks"@,
{
    reveal_strlit("{0} migration-scoped disable_checks");
    reveal_strlit(" migration-scoped disable_checks");
    let none = Seq::<char>::empty();
    let rest = " migration-scoped disable_checks"@;
    assert(FILE_SOURCE@ =~= none + (seq!['{', '0', '}'] + rest));
    law_holes_are_filled(none, '0', rest, seq![path]);
    law_plain_templates_stay(rest, seq![path]);
    assert(none + (path + rest) =~= path + rest);
}

/// A check that fails is reported with what was checked and why it failed; a configuration that cannot be
/// loaded with the reason.
pub proof fn law_errors_are_explained(
    s: StateView,
    check: CheckView,
    warnings: Seq<Seq<char>>,
    message: Seq<char>,
)
    ensures
        finished(s, check, warnings, OutcomeView::Failed(message)).1.messages.last().message == (
        match check.kind {
            CheckKind::Live => "Failed to check SQL document"@,
            CheckKind::SavedFile => "Failed to check saved SQL file"@,
            CheckKind::SavedText => "Failed to check saved SQL text"@,
        }) + ": "@ + message,
        config_failed(s, check.uri, check.version, message).0.last_config_error == Some(
            "Failed to load diesel-guard configuration for the workspace: "@ + message,
        ),
{
    let what = match check.kind {
        CheckKind::Live => "Failed to check SQL document"@,
        CheckKind::SavedFile => "Failed to check saved SQL file"@,
        CheckKind::SavedText => "Failed to check saved SQL text"@,
    };
    lemma_check_error(what, message);
    lemma_config_error(message);
}

proof fn lemma_check_error(what: Seq<char>, message: Seq<char>)
    ensures
        fill(CHECK_ERROR_TEXT@, seq![what, message]) == what + ": "@ + message,
{
    reveal_strlit("{0}: {1}");
    reveal_strlit(": ");
    let none = Seq::<char>::empty();
    let args = seq![what, message];
    let rest = ": "@ + (seq!['{', '1', '}'] + none);
    assert(CHECK_ERROR_TEXT@ =~= none + (seq!['{', '0', '}'] + rest));
    law_holes_are_filled(none, '0', rest, args);
    law_holes_are_filled(": "@, '1', none, args);
    law_plain_templates_stay(none, args);
    assert(none + (what + (": "@ + (message + none))) =~= what + ": "@ + message);
}

proof fn lemma_config_error(message: Seq<char>)
    ensures
        fill(CONFIG_ERROR_TEXT@, seq!["diesel-guard"@, message])
            == "Failed to load diesel-guard configuration for the workspace: "@ + message,
{
    reveal_strlit("Failed to load {0} configuration for the workspace: {1}");
    reveal_strlit("Failed to load diesel-guard configuration for the workspace: ");
    reveal_strlit("Failed to load ");
    reveal_strlit(" configuration for the workspace: ");
    reveal_strlit("diesel-guard");
    let none = Seq::<char>::empty();
    let args = seq!["diesel-guard"@, message];
    let middle = " configuration for the workspace: "@;
    let rest = middle + (seq!['{', '1', '}'] + none);
    assert(CONFIG_ERROR_TEXT@ =~= "Failed to load "@ + (seq!['{', '0', '}'] + rest));
    law_holes_are_filled("Failed to load "@, '0', rest, args);
    law_holes_are_filled(middle, '1', none, args);
    law_plain_templates_stay(none, args);
    assert("Failed to load "@ + ("diesel-guard"@ + (middle + (message + none)))
        =~= "Failed to load diesel-guard configuration for the workspace: "@ + message);
}

/// A new server knows no documents, has published nothing, has logged nothing and was not asked to end.
pub proof fn law_a_new_server_knows_nothing(root: Seq<char>, uri: Seq<char>)
    ensures
        StateView::initial(root).root == root,
        StateView::initial(root).document(uri) is None,
        StateView::initial(root).published.len() == 0,
        StateView::initial(root).warnings.len() == 0,
        StateView::initial(root).last_config_error is None,
        !StateView::initial(root).warned_incremental_change,
        !StateView::initial(root).warned_unsupported_notification,
        !StateView::initial(root).shutdown_requested,
        StateView::initial(root).wf(),
{
}

// ---------------------------------------------------------------------------
// What stays
// ---------------------------------------------------------------------------

/// Whether two states agree in all but documents, publications, warnings and the last error of a
/// configuration.
pub open spec fn same_session(s: StateView, t: StateView) -> bool {
    &&& t.root == s.root
    &&& t.warned_unsupported_notification == s.warned_unsupported_notification
    &&& t.shutdown_requested == s.shutdown_requested
}

/// A check changes neither what is known of the documents nor the last error of a configuration, and of
/// the documents with diagnostics no other than its own comes or goes, but for one that is dropped
/// where there are 256.
pub proof fn law_a_check_leaves_the_rest(
    s: StateView,
    check: CheckView,
    warnings: Seq<Seq<char>>,
    outcome: OutcomeView,
    other: Seq<char>,
)
    requires
        s.wf(),
        other != check.uri,
    ensures
        ({
            let t = finished(s, check, warnings, outcome).0;
            &&& same_session(s, t)
            &&& t.wf()
            &&& t.documents == s.documents
            &&& t.last_config_error == s.last_config_error
            &&& t.warned_incremental_change == s.warned_incremental_change
            &&& t.published.contains(other) ==> s.published.contains(other)
            &&& s.published.len() < 256 ==> t.published.contains(other) == s.published.contains(
                other,
            )
            &&& s.warnings.is_prefix_of(t.warnings)
        }),
{
    law_other_publications_stay(s, check.uri, other);
    let u = s.warning(warnings);
    assert(u.wf());
    law_other_publications_stay(u, check.uri, other);
    lemma_wf_tracking(s, check.uri);
    lemma_wf_tracking(u, check.uri);
    if let OutcomeView::Found(checked) = outcome {
        let v = u.warning(checked.warnings);
        law_other_publications_stay(v, check.uri, other);
        lemma_wf_tracking(v, check.uri);
        assert(v.warnings.take(s.warnings.len() as int) =~= s.warnings);
    }
    assert(u.warnings.take(s.warnings.len() as int) =~= s.warnings);
}

proof fn lemma_wf_tracking(s: StateView, uri: Seq<char>)
    requires
        s.wf(),
    ensures
        s.tracking(uri).wf(),
        s.untracking(uri).wf(),
{
    let all = s.published;
    let now = s.tracking(uri).published;
    if !all.contains(uri) {
        let dropped = if all.len() >= MAX_PUBLISHED_DIAGNOSTIC_URIS {
            1int
        } else {
            0int
        };
        assert forall|i: int, j: int| 0 <= i < now.len() && 0 <= j < now.len() && i != j implies now[i]
            != now[j] by {
            if i < now.len() - 1 {
                assert(now[i] == all[i + dropped]);
            }
            if j < now.len() - 1 {
                assert(now[j] == all[j + dropped]);
            }
        }
    }
    let rest = s.untracking(uri).published;
    if all.contains(uri) {
        let k = all.index_of(uri);
        assert forall|i: int, j: int|
            0 <= i < rest.len() && 0 <= j < rest.len() && i != j implies rest[i] != rest[j] by {
            let a = if i < k {
                i
            } else {
                i + 1
            };
            let b = if j < k {
                j
            } else {
                j + 1
            };
            assert(rest[i] == all[a] && rest[j] == all[b]);
        }
    }
}

/// A configuration that cannot be loaded takes the diagnostics of the document away and changes nothing
/// else but the last error.
pub proof fn law_config_errors_leave_the_rest(
    s: StateView,
    uri: Seq<char>,
    version: Option<i32>,
    err: Seq<char>,
    other: Seq<char>,
)
    requires
        s.wf(),
        other != uri,
    ensures
        ({
            let t = config_failed(s, uri, version, err).0;
            &&& same_session(s, t)
            &&& t.documents == s.documents
            &&& t.warnings == s.warnings
            &&& t.warned_incremental_change == s.warned_incremental_change
            &&& !t.published.contains(uri)
            &&& t.published.contains(other) == s.published.contains(other)
        }),
{
    law_other_publications_stay(s, uri, other);
}

/// A notification about a document changes what is known of that document and whether it has diagnostics,
/// and nothing of any other, but for the one that is dropped where there are 256.
pub proof fn law_notifications_leave_the_rest(
    s: StateView,
    info: UriView,
    version: i32,
    text: Seq<char>,
    changes: Seq<ContentChange>,
    saved_text: Option<Seq<char>>,
    other: Seq<char>,
)
    requires
        s.wf(),
        other != info.uri,
        s.documents.len() < 256,
    ensures
        forall|t: StateView|
            t == opened(s, info, version, text).0 || t == changed(s, info, version, changes).0 || t
                == saved(s, info, saved_text).0 || t == closed_document(s, info).0 ==> {
                &&& #[trigger] same_session(s, t)
                &&& t.document(other) == s.document(other)
                &&& t.published.contains(other) == s.published.contains(other)
                &&& t.warnings == s.warnings
                &&& t.last_config_error == s.last_config_error
            },
{
    law_other_publications_stay(s, info.uri, other);
    law_other_documents_stay(s, info.uri, live_document(text, Some(version)), other);
    law_other_documents_stay(
        s,
        info.uri,
        DocumentView { text: None, version: Some(version) },
        other,
    );
    if let Some(full) = last_full_text(changes, changes.len() as int) {
        law_other_documents_stay(s, info.uri, live_document(full, Some(version)), other);
    }
}

/// A file that was read changes nothing of what is known of the documents.
pub proof fn law_reading_leaves_the_documents(
    s: StateView,
    save: SaveView,
    read: std::result::Result<LimitedFileRead, String>,
    other: Seq<char>,
)
    requires
        s.wf(),
        other != save.uri,
    ensures
        ({
            let t = file_read(s, save, read).0;
            &&& same_session(s, t)
            &&& t.documents == s.documents
            &&& t.warnings == s.warnings
            &&& t.last_config_error == s.last_config_error
            &&& t.published.contains(other) == s.published.contains(other)
        }),
{
    law_other_publications_stay(s, save.uri, other);
}

/// A notification that the server does not know changes nothing but that it was logged.
pub proof fn law_unsupported_notifications_leave_the_rest(s: StateView, method: Seq<char>)
    ensures
        unsupported(s, method).0 == (StateView { warned_unsupported_notification: true, ..s }),
{
}

/// A document that is no SQL document is treated by a change as by opening it, and saving it clears its
/// diagnostics if it has any; it is never checked.
pub proof fn law_other_kinds_of_documents_are_not_checked(
    s: StateView,
    info: UriView,
    version: i32,
    text: Seq<char>,
    changes: Seq<ContentChange>,
    saved_text: Option<Seq<char>>,
)
    requires
        s.wf(),
        !info.is_sql,
    ensures
        changed(s, info, version, changes) == opened(s, info, version, text),
        opened(s, info, version, text).1 is Finish,
        ({
            let (t, action) = saved(s, info, saved_text);
            &&& action is Finish
            &&& action->Finish_0.messages.len() == 0
            &&& action->Finish_0.diagnostics.len() == if s.published.contains(info.uri) {
                1nat
            } else {
                0nat
            }
            &&& s.published.contains(info.uri) ==> action->Finish_0.diagnostics[0] == cleared(
                info.uri,
                None,
            )
            &&& !t.published.contains(info.uri)
            &&& t.documents == s.documents
        }),
{
    lemma_without(s.published, info.uri);
}

} // verus!
