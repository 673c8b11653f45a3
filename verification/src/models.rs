//! What the models of values keep.

use crate::adapters::{file_views, MigrationContext, MigrationFile};
use crate::checks::registry::{list_views, titles, RegisteredCheck};
use crate::config::Config;
use crate::lsp::diagnostics::{Diagnostic, DiagnosticEvent};
use crate::lsp::config_cache::DocumentState;
use crate::lsp::output::{HandlerOutput, MessageEvent};
use crate::lsp::state::documents::{Action, ActionView, PendingCheck, PendingSave};
use crate::lsp::uri::UriInfo;
use crate::paint::{segment_views, Segment};
use crate::safety_checker::{result_views, Checked};
use crate::text::{string_views, views};
use crate::violation::{violation_views, Violation};
use crate::ViolationList;
use vstd::prelude::*;

verus! {

/// The model of a violation has each of its texts, its severity and the name of its check.
pub proof fn law_violations_keep_their_fields(v: Violation)
    ensures
        v@.operation == v.operation@,
        v@.problem == v.problem@,
        v@.safe_alternative == v.safe_alternative@,
        v@.severity == v.severity,
        v@.check_name == v.check_name@,
{
}

/// The model of a list has as many entries as the list, each the model of the entry at its place.
pub proof fn law_lists_keep_their_entries(
    texts: Seq<String>,
    parts: Seq<&str>,
    violations: Seq<Violation>,
    list: Seq<(usize, Violation)>,
    results: Seq<(String, ViolationList)>,
    checks: Seq<RegisteredCheck>,
    files: Seq<MigrationFile>,
    segments: Seq<Segment>,
)
    ensures
        string_views(texts).len() == texts.len(),
        forall|i: int|
            0 <= i < texts.len() ==> #[trigger] string_views(texts)[i] == texts[i]@,
        views(parts).len() == parts.len(),
        forall|i: int| 0 <= i < parts.len() ==> #[trigger] views(parts)[i] == parts[i]@,
        violation_views(violations).len() == violations.len(),
        forall|i: int|
            0 <= i < violations.len() ==> #[trigger] violation_views(violations)[i]
                == violations[i]@,
        list_views(list).len() == list.len(),
        forall|i: int|
            0 <= i < list.len() ==> (#[trigger] list_views(list)[i]).0 == list[i].0 && list_views(
                list,
            )[i].1 == list[i].1@,
        result_views(results).len() == results.len(),
        forall|i: int|
            0 <= i < results.len() ==> (#[trigger] result_views(results)[i]).0 == results[i].0@
                && result_views(results)[i].1 == list_views(results[i].1@),
        titles(checks).len() == checks.len(),
        forall|i: int| 0 <= i < checks.len() ==> #[trigger] titles(checks)[i] == checks[i].title(),
        file_views(files).len() == files.len(),
        forall|i: int|
            0 <= i < files.len() ==> (#[trigger] file_views(files)[i]).path == files[i].path@
                && file_views(files)[i].timestamp == files[i].timestamp@,
        segment_views(segments).len() == segments.len(),
        forall|i: int|
            0 <= i < segments.len() ==> (#[trigger] segment_views(segments)[i]).text
                == segments[i].text@ && segment_views(segments)[i].style == segments[i].style,
{
}

/// The model of a configuration has each of its settings.
pub proof fn law_configurations_keep_their_settings(config: Config)
    ensures
        config@.framework == config.framework@,
        config@.disable_checks == string_views(config.disable_checks@),
        config@.enable_checks == string_views(config.enable_checks@),
        config@.warn_checks == string_views(config.warn_checks@),
        config.custom_checks_dir is None <==> config@.custom_checks_dir is None,
        config.custom_checks_dir is Some ==> config@.custom_checks_dir == Some(
            config.custom_checks_dir->0@,
        ),
        config.start_after is None <==> config@.start_after is None,
        config.start_after is Some ==> config@.start_after == Some(config.start_after->0@),
        config@.check_down == config.check_down,
        config@.postgres_version == config.postgres_version,
{
}

/// The model of a context has each of its settings.
pub proof fn law_contexts_keep_their_settings(ctx: MigrationContext)
    ensures
        ctx@.run_in_transaction == ctx.run_in_transaction,
        ctx@.no_transaction_hint == ctx.no_transaction_hint@,
        ctx@.disabled_checks == string_views(ctx.disabled_checks@),
{
}

/// The model of what a check gives has all of its violations and warnings.
pub proof fn law_results_keep_violations_and_warnings(checked: Checked)
    ensures
        checked@.violations == list_views(checked.violations@),
        checked@.warnings == string_views(checked.warnings@),
{
}

/// The model of what is sent has all of its events with all of their diagnostics, and all of its
/// messages.
pub proof fn law_output_keeps_events_and_messages(
    output: HandlerOutput,
    event: DiagnosticEvent,
    diagnostic: Diagnostic,
    message: MessageEvent,
)
    ensures
        output@.diagnostics.len() == output.diagnostics@.len(),
        forall|i: int|
            0 <= i < output.diagnostics@.len() ==> #[trigger] output@.diagnostics[i]
                == output.diagnostics@[i]@,
        output@.messages.len() == output.messages@.len(),
        forall|i: int|
            0 <= i < output.messages@.len() ==> #[trigger] output@.messages[i]
                == output.messages@[i]@,
        event@.uri == event.uri@,
        event@.version == event.version,
        event@.diagnostics.len() == event.diagnostics@.len(),
        forall|i: int|
            0 <= i < event.diagnostics@.len() ==> #[trigger] event@.diagnostics[i]
                == event.diagnostics@[i]@,
        diagnostic@.range == diagnostic.range,
        diagnostic@.severity == diagnostic.severity,
        diagnostic@.source == diagnostic.source@,
        diagnostic@.message == diagnostic.message@,
        diagnostic.code is None <==> diagnostic@.code is None,
        diagnostic.code is Some ==> diagnostic@.code == Some(diagnostic.code->0@),
        message@.typ == message.typ,
        message@.message == message.message@,
{
}

/// The model of what comes next keeps what is to be checked, read or sent, and the model of a document
/// its text and version.
pub proof fn law_actions_keep_their_fields(
    check: PendingCheck,
    save: PendingSave,
    output: HandlerOutput,
    document: DocumentState,
    info: UriInfo,
)
    ensures
        Action::Check(check)@ == ActionView::Check(check@),
        Action::ReadFile(save)@ == ActionView::ReadFile(save@),
        Action::Finish(output)@ == ActionView::Finish(output@),
        check@.uri == check.uri@,
        check@.version == check.version,
        check@.text == check.text@,
        check@.kind == check.kind,
        check.path is None <==> check@.path is None,
        check.path is Some ==> check@.path == Some(check.path->0@),
        check.note is None <==> check@.note is None,
        check.note is Some ==> check@.note == Some(check.note->0@),
        save@.uri == save.uri@,
        save@.version == save.version,
        save@.path == save.path@,
        save.fallback_text is None <==> save@.fallback_text is None,
        save.fallback_text is Some ==> save@.fallback_text == Some(save.fallback_text->0@),
        document@.version == document.version,
        document.text is None <==> document@.text is None,
        document.text is Some ==> document@.text == Some(document.text->0@),
        info@.uri == info.uri@,
        info@.is_sql == info.is_sql,
        info.path is None <==> info@.path is None,
        info.path is Some ==> info@.path == Some(info.path->0@),
{
}

} // verus!
