//! Checks SQL, files and directories of migrations against a registry of checks.

use crate::adapters::diesel::{
    is_timestamp, migration_files, DieselAdapter, MigrationListing, INVALID_TIMESTAMP_TEXT,
};
use crate::adapters::{
    file_views, law_names_keep_their_order, law_without_repeats, law_without_repeats_is_stable,
    lemma_lists_contains, without_repeats, ContextView, MigrationAdapter, MigrationContext,
    MigrationFile,
};
use crate::ast::{NodeEnum, RawStmt};
use crate::checks::builtin::{builtin_checks, Builtin};
use crate::checks::registry::{
    builtin_titles, enabled_checks, is_assured, law_assurance_is_all_or_nothing,
    law_statements_are_independent, lemma_flat_map_member, list_views, node_violations, report_of,
    script_violations, sorted, statement_line, statement_report, titles, RegisteredCheck, Registry,
};
use crate::config::{default_config, list_contains, lists, Config, ConfigError};
use crate::error::{located, DieselGuardError, Result};
use crate::parser::comment_parser::{
    blocks, disabled_checks_of, enclose, law_blocks_lie_between_their_directives, line_kinds,
    LineKind,
};
use crate::parser::{parse_with_metadata, IgnoreRange, ParsedSql, Statements};
use crate::text::laws::{law_holes_are_filled, law_plain_templates_stay};
use crate::text::{fill, fill_template, lines, opt_text, same_text, string_views, views};
use crate::violation::{Severity, ViolationView};
use crate::ViolationList;
use vstd::prelude::*;

verus! {

/// Why a custom check script was not loaded.
#[derive(Debug, Clone)]
pub struct ScriptError {
    /// The name of the script's file without its extension.
    pub stem: Option<String>,
    pub message: String,
}

/// The custom checks of a configuration: the names of the scripts that were found, the checks that
/// were loaded from them, and the errors of the others.
pub struct CustomChecks {
    pub names: Vec<String>,
    pub checks: Vec<RegisteredCheck>,
    pub errors: Vec<ScriptError>,
}

/// The framework whose migrations are checked.
#[derive(Debug, Clone, Copy, PartialEq, Eq, Structural)]
pub enum Framework {
    Diesel,
    Sqlx,
}

/// What a check of a text gives: the violations, and warnings about the directives in it.
#[derive(Debug)]
pub struct Checked {
    pub violations: ViolationList,
    pub warnings: Vec<String>,
}

/// A migration file that was read: its path, its text, what the parser finds in it, and its context.
pub struct MigrationInput {
    pub path: String,
    pub sql: Result<String>,
    pub statements: Result<Statements>,
    pub ctx: MigrationContext,
}

/// What a check of several files gives: the violations of each file that has any, or the first error;
/// and the warnings up to there.
#[derive(Debug)]
pub struct DirectoryReport {
    pub results: Result<Vec<(String, ViolationList)>>,
    pub warnings: Vec<String>,
}

/// The model of what a check of a text gives.
pub struct CheckedView {
    pub violations: Seq<(usize, ViolationView)>,
    pub warnings: Seq<Seq<char>>,
}

impl View for Checked {
    type V = CheckedView;

    open spec fn view(&self) -> CheckedView {
        CheckedView {
            violations: list_views(self.violations@),
            warnings: string_views(self.warnings@),
        }
    }
}

pub struct SafetyChecker {
    pub registry: Registry,
    pub config: Config,
    pub known_check_names: Vec<String>,
}

/// Why a custom check may not have the name of a built-in one.
pub const CONFLICT_REASON: &'static str = "custom check name conflicts with a built-in check";

/// What is said of a configured custom check that was neither loaded nor refused.
pub const NOT_LOADED_REASON: &'static str = "configured custom check was not loaded";

/// The warning about an unknown name in a directive.
pub const UNKNOWN_CHECK_TEXT: &'static str =
    "Warning: Unknown check name '{0}' in {1}. Run list-checks to see available checks.";

/// Where the names of directives stand in a text without a file.
pub const SQL_SOURCE: &'static str = "migration-scoped disable_checks";

/// Where the names of directives stand in a file.
pub const FILE_SOURCE: &'static str = "{0} migration-scoped disable_checks";

/// The first of the names from number `from` on of which something holds.
pub open spec fn first_such(
    names: Seq<Seq<char>>,
    holds: spec_fn(Seq<char>) -> bool,
    from: int,
) -> Option<Seq<char>>
    decreases names.len() - from,
{
    if from < 0 || from >= names.len() {
        None
    } else if holds(names[from]) {
        Some(names[from])
    } else {
        first_such(names, holds, from + 1)
    }
}

/// What is wrong with the names in a configuration.
pub enum Fault {
    /// A custom check has the name of a built-in one.
    Conflict(Seq<char>),
    /// There is no check of a name.
    Unknown(Seq<char>),
    /// A custom check that is enabled was not loaded.
    NotLoaded(Seq<char>),
}

/// Whether a name is one of a list.
pub open spec fn among(names: Seq<Seq<char>>) -> spec_fn(Seq<char>) -> bool {
    |name: Seq<char>| names.contains(name)
}

/// Whether a name is none of a list.
pub open spec fn not_among(names: Seq<Seq<char>>) -> spec_fn(Seq<char>) -> bool {
    |name: Seq<char>| !names.contains(name)
}

/// Whether a name is that of a custom check that is enabled and not active.
pub open spec fn enabled_but_absent(
    config: Config,
    custom: Seq<Seq<char>>,
    active: Seq<Seq<char>>,
) -> spec_fn(Seq<char>) -> bool {
    |name: Seq<char>| custom.contains(name) && config.enables(name) && !active.contains(name)
}

/// The names of the checks that exist: the built-in ones, then the custom ones.
pub open spec fn known_names(custom: Seq<Seq<char>>) -> Seq<Seq<char>> {
    builtin_titles() + custom
}

/// The first unknown name in the lists of a configuration: the disabled checks come first, then the
/// enabled ones, then those that only warn.
pub open spec fn first_unknown(config: Config, known: Seq<Seq<char>>) -> Option<Seq<char>> {
    match first_such(string_views(config.disable_checks@), not_among(known), 0) {
        Some(name) => Some(name),
        None => match first_such(string_views(config.enable_checks@), not_among(known), 0) {
            Some(name) => Some(name),
            None => first_such(string_views(config.warn_checks@), not_among(known), 0),
        },
    }
}

/// What is wrong with a configuration, given the custom checks: names that conflict come before
/// unknown names, and those before checks that were not loaded.
pub open spec fn fault_of(
    config: Config,
    custom: Seq<Seq<char>>,
    active: Seq<Seq<char>>,
) -> Option<Fault> {
    match first_such(custom, among(builtin_titles()), 0) {
        Some(name) => Some(Fault::Conflict(name)),
        None => match first_unknown(config, known_names(custom)) {
            Some(name) => Some(Fault::Unknown(name)),
            None => match first_such(
                string_views(config.enable_checks@) + string_views(config.warn_checks@),
                enabled_but_absent(config, custom, active),
                0,
            ) {
                Some(name) => Some(Fault::NotLoaded(name)),
                None => None,
            },
        },
    }
}

/// The reason why a script was not loaded: the message of its last error.
pub open spec fn reason_for(errors: Seq<ScriptError>, name: Seq<char>) -> Seq<char>
    decreases errors.len(),
{
    if errors.len() == 0 {
        NOT_LOADED_REASON@
    } else if errors.last().stem matches Some(stem) && stem@ == name {
        errors.last().message@
    } else {
        reason_for(errors.drop_last(), name)
    }
}

/// Whether an error is the one that a fault gives.
pub open spec fn is_error_of(err: ConfigError, fault: Fault, errors: Seq<ScriptError>) -> bool {
    match fault {
        Fault::Conflict(name) => err matches ConfigError::InvalidCustomCheck { check_name, reason }
            && check_name@ == name && reason@ == CONFLICT_REASON@,
        Fault::Unknown(name) => err matches ConfigError::InvalidCheckName { invalid_name }
            && invalid_name@ == name,
        Fault::NotLoaded(name) => err matches ConfigError::InvalidCustomCheck { check_name, reason }
            && check_name@ == name && reason@ == reason_for(errors, name),
    }
}

/// The framework of a name.
pub open spec fn framework_of(name: Seq<char>) -> Option<Framework> {
    if name == "diesel"@ {
        Some(Framework::Diesel)
    } else if name == "sqlx"@ {
        Some(Framework::Sqlx)
    } else {
        None
    }
}

/// A warning about an unknown name.
pub open spec fn unknown_warning(known: Seq<Seq<char>>, source: Seq<char>) -> spec_fn(
    Seq<char>,
) -> Option<Seq<char>> {
    |name: Seq<char>|
        if known.contains(name) {
            None
        } else {
            Some(fill(UNKNOWN_CHECK_TEXT@, seq![name, source]))
        }
}

/// The warnings about the unknown names in a list. Each name is warned of once.
pub open spec fn unknown_warnings(
    disabled: Seq<Seq<char>>,
    known: Seq<Seq<char>>,
    source: Seq<char>,
) -> Seq<Seq<char>> {
    without_repeats(disabled).filter_map(unknown_warning(known, source))
}

/// The model of a list of violations by file.
pub open spec fn result_views(results: Seq<(String, ViolationList)>) -> Seq<
    (Seq<char>, Seq<(usize, ViolationView)>),
> {
    results.map_values(|entry: (String, ViolationList)| (entry.0@, list_views(entry.1@)))
}

impl SafetyChecker {
    /// Create with specific configuration, without custom checks.
    pub fn with_config(config: Config) -> (r: std::result::Result<SafetyChecker, ConfigError>)
        ensures
            match fault_of(config, Seq::empty(), titles(enabled_checks(config))) {
                Some(fault) => r matches Err(err) && is_error_of(err, fault, Seq::empty()),
                None => r matches Ok(checker) && checker.config == config
                    && checker.registry.checks@ == enabled_checks(config) && string_views(
                    checker.known_check_names@,
                ) == builtin_titles(),
            },
    {
        let custom = CustomChecks { names: Vec::new(), checks: Vec::new(), errors: Vec::new() };
        proof {
            assert(string_views(custom.names@) =~= Seq::<Seq<char>>::empty());
            assert(enabled_checks(config) + custom.checks@ =~= enabled_checks(config));
            assert(known_names(Seq::empty()) =~= builtin_titles());
            assert(custom.errors@ =~= Seq::<ScriptError>::empty());
        }
        Self::with_custom_checks(config, custom)
    }

    /// Create with specific configuration and the custom checks that were found for it.
    ///
    /// # Errors
    ///
    /// `ConfigError::InvalidCheckName` if a name in `disable_checks`, `enable_checks` or
    /// `warn_checks` is that of no check; `ConfigError::InvalidCustomCheck` if a custom check has the
    /// name of a built-in one, or if one that is enabled was not loaded.
    pub fn with_custom_checks(config: Config, custom: CustomChecks) -> (r: std::result::Result<
        SafetyChecker,
        ConfigError,
    >)
        ensures
            ({
                let checks = enabled_checks(config) + custom.checks@;
                match fault_of(config, string_views(custom.names@), titles(checks)) {
                    Some(fault) => r matches Err(err) && is_error_of(err, fault, custom.errors@),
                    None => r matches Ok(checker) && checker.config == config
                        && checker.registry.checks@ == checks && string_views(
                        checker.known_check_names@,
                    ) == known_names(string_views(custom.names@)),
                }
            }),
    {
        let mut registry = Registry::with_config(&config);
        let CustomChecks { names, mut checks, errors } = custom;
        if let Err(err) = Self::validate_custom_check_names(&names) {
            return Err(err);
        }
        let known_check_names = Self::known_check_names(&names);
        if let Err(err) = Self::validate_configured_check_names(
            &config.disable_checks,
            &known_check_names,
        ) {
            return Err(err);
        }
        if let Err(err) = Self::validate_configured_check_names(
            &config.enable_checks,
            &known_check_names,
        ) {
            return Err(err);
        }
        if let Err(err) = Self::validate_configured_check_names(
            &config.warn_checks,
            &known_check_names,
        ) {
            return Err(err);
        }
        registry.checks.append(&mut checks);
        if let Err(err) = Self::validate_configured_custom_checks_loaded(
            &config,
            &names,
            &registry,
            &errors,
        ) {
            return Err(err);
        }
        Ok(SafetyChecker { registry, config, known_check_names })
    }

    fn validate_custom_check_names(custom_names: &Vec<String>) -> (r: std::result::Result<
        (),
        ConfigError,
    >)
        ensures
            match first_such(string_views(custom_names@), among(builtin_titles()), 0) {
                Some(name) => r matches Err(err) && is_error_of(
                    err,
                    Fault::Conflict(name),
                    Seq::empty(),
                ),
                None => r is Ok,
            },
    {
        let builtin = Registry::builtin_check_names();
        let ghost all = string_views(custom_names@);
        let ghost f = among(builtin_titles());
        let mut i: usize = 0;
        while i < custom_names.len()
            invariant
                i <= custom_names.len(),
                all == string_views(custom_names@),
                f == among(builtin_titles()),
                string_views(builtin@) == builtin_titles(),
                first_such(all, f, 0) == first_such(all, f, i as int),
            decreases custom_names.len() - i,
        {
            let name = &custom_names[i];
            proof {
                lemma_lists_contains(builtin@, name@);
                assert(all[i as int] == name@);
            }
            if list_contains(&builtin, name.as_str()) {
                return Err(
                    ConfigError::InvalidCustomCheck {
                        check_name: name.clone(),
                        reason: CONFLICT_REASON.to_string(),
                    },
                );
            }
            i += 1;
        }
        Ok(())
    }

    fn known_check_names(custom_names: &Vec<String>) -> (r: Vec<String>)
        ensures
            string_views(r@) == known_names(string_views(custom_names@)),
    {
        let mut r = Registry::builtin_check_names();
        let ghost builtin = r@;
        let mut i: usize = 0;
        assert(string_views(r@) =~= builtin_titles() + string_views(custom_names@).take(0));
        while i < custom_names.len()
            invariant
                i <= custom_names.len(),
                string_views(r@) == builtin_titles() + string_views(custom_names@).take(i as int),
            decreases custom_names.len() - i,
        {
            let ghost before = r@;
            r.push(custom_names[i].clone());
            proof {
                assert(string_views(r@) =~= string_views(before).push(custom_names@[i as int]@));
                assert(string_views(r@) =~= builtin_titles() + string_views(custom_names@).take(
                    i + 1,
                ));
            }
            i += 1;
        }
        assert(string_views(custom_names@).take(i as int) =~= string_views(custom_names@));
        r
    }

    fn validate_configured_check_names(
        names: &Vec<String>,
        known_check_names: &Vec<String>,
    ) -> (r: std::result::Result<(), ConfigError>)
        ensures
            match first_such(
                string_views(names@),
                not_among(string_views(known_check_names@)),
                0,
            ) {
                Some(name) => r matches Err(err) && is_error_of(
                    err,
                    Fault::Unknown(name),
                    Seq::empty(),
                ),
                None => r is Ok,
            },
    {
        let ghost all = string_views(names@);
        let ghost f = not_among(string_views(known_check_names@));
        let mut i: usize = 0;
        while i < names.len()
            invariant
                i <= names.len(),
                all == string_views(names@),
                f == not_among(string_views(known_check_names@)),
                first_such(all, f, 0) == first_such(all, f, i as int),
            decreases names.len() - i,
        {
            let name = &names[i];
            proof {
                lemma_lists_contains(known_check_names@, name@);
                assert(all[i as int] == name@);
            }
            if !list_contains(known_check_names, name.as_str()) {
                return Err(ConfigError::InvalidCheckName { invalid_name: name.clone() });
            }
            i += 1;
        }
        Ok(())
    }

    fn validate_configured_custom_checks_loaded(
        config: &Config,
        custom_names: &Vec<String>,
        registry: &Registry,
        load_errors: &Vec<ScriptError>,
    ) -> (r: std::result::Result<(), ConfigError>)
        ensures
            match first_such(
                string_views(config.enable_checks@) + string_views(config.warn_checks@),
                enabled_but_absent(
                    *config,
                    string_views(custom_names@),
                    titles(registry.checks@),
                ),
                0,
            ) {
                Some(name) => r matches Err(err) && is_error_of(
                    err,
                    Fault::NotLoaded(name),
                    load_errors@,
                ),
                None => r is Ok,
            },
    {
        let ghost enabled = string_views(config.enable_checks@);
        let ghost all = enabled + string_views(config.warn_checks@);
        let ghost f = enabled_but_absent(
            *config,
            string_views(custom_names@),
            titles(registry.checks@),
        );
        let mut i: usize = 0;
        while i < config.enable_checks.len()
            invariant
                i <= config.enable_checks.len(),
                enabled == string_views(config.enable_checks@),
                all == enabled + string_views(config.warn_checks@),
                f == enabled_but_absent(
                    *config,
                    string_views(custom_names@),
                    titles(registry.checks@),
                ),
                first_such(all, f, 0) == first_such(all, f, i as int),
            decreases config.enable_checks.len() - i,
        {
            let name = &config.enable_checks[i];
            assert(all[i as int] == name@);
            if Self::is_absent(config, custom_names, registry, name.as_str()) {
                return Err(Self::not_loaded(name.as_str(), load_errors));
            }
            i += 1;
        }
        let mut k: usize = 0;
        while k < config.warn_checks.len()
            invariant
                k <= config.warn_checks.len(),
                enabled == string_views(config.enable_checks@),
                all == enabled + string_views(config.warn_checks@),
                f == enabled_but_absent(
                    *config,
                    string_views(custom_names@),
                    titles(registry.checks@),
                ),
                first_such(all, f, 0) == first_such(all, f, enabled.len() + k),
            decreases config.warn_checks.len() - k,
        {
            let name = &config.warn_checks[k];
            assert(all[enabled.len() + k] == name@);
            if Self::is_absent(config, custom_names, registry, name.as_str()) {
                return Err(Self::not_loaded(name.as_str(), load_errors));
            }
            k += 1;
        }
        Ok(())
    }

    /// Whether a name is that of a custom check that is enabled and not active.
    fn is_absent(
        config: &Config,
        custom_names: &Vec<String>,
        registry: &Registry,
        name: &str,
    ) -> (r: bool)
        ensures
            r == enabled_but_absent(
                *config,
                string_views(custom_names@),
                titles(registry.checks@),
            )(name@),
    {
        proof {
            lemma_lists_contains(custom_names@, name@);
        }
        if !list_contains(custom_names, name) || !config.is_check_enabled(name) {
            return false;
        }
        let active = registry.active_check_names();
        let ghost all = views(active@);
        let mut i: usize = 0;
        while i < active.len()
            invariant
                i <= active.len(),
                all == views(active@),
                all == titles(registry.checks@),
                forall|j: int| 0 <= j < i ==> #[trigger] all[j] != name@,
            decreases active.len() - i,
        {
            if same_text(active[i], name) {
                assert(all[i as int] == name@);
                assert(titles(registry.checks@).contains(name@));
                return false;
            }
            i += 1;
        }
        true
    }

    fn not_loaded(name: &str, load_errors: &Vec<ScriptError>) -> (r: ConfigError)
        ensures
            is_error_of(r, Fault::NotLoaded(name@), load_errors@),
    {
        ConfigError::InvalidCustomCheck {
            check_name: name.to_string(),
            reason: Self::custom_check_error_reason(load_errors, name),
        }
    }

    /// The reason why a script was not loaded, as `reason_for` says.
    fn custom_check_error_reason(load_errors: &Vec<ScriptError>, name: &str) -> (r: String)
        ensures
            r@ == reason_for(load_errors@, name@),
    {
        let mut i: usize = load_errors.len();
        assert(load_errors@.take(i as int) =~= load_errors@);
        while i > 0
            invariant
                i <= load_errors.len(),
                reason_for(load_errors@, name@) == reason_for(load_errors@.take(i as int), name@),
            decreases i,
        {
            let ghost rest = load_errors@.take(i as int);
            proof {
                assert(rest.last() == load_errors@[i - 1]);
                assert(rest.drop_last() =~= load_errors@.take(i - 1));
            }
            if let Some(stem) = &load_errors[i - 1].stem {
                if same_text(stem.as_str(), name) {
                    return load_errors[i - 1].message.clone();
                }
            }
            i -= 1;
        }
        NOT_LOADED_REASON.to_string()
    }

    /// Create with specific configuration and the custom checks that were found for it. Also returns
    /// the messages of the scripts that were not loaded.
    pub fn with_config_and_warnings(config: Config, custom: CustomChecks) -> (r: std::result::Result<
        (SafetyChecker, Vec<String>),
        ConfigError,
    >)
        ensures
            ({
                let checks = enabled_checks(config) + custom.checks@;
                match fault_of(config, string_views(custom.names@), titles(checks)) {
                    Some(fault) => r matches Err(err) && is_error_of(err, fault, custom.errors@),
                    None => r matches Ok(made) && made.0.config == config
                        && made.0.registry.checks@ == checks && string_views(
                        made.0.known_check_names@,
                    ) == known_names(string_views(custom.names@)) && string_views(made.1@)
                        == script_messages(custom.errors@),
                }
            }),
    {
        let warnings = script_warnings(&custom.errors);
        match Self::with_custom_checks(config, custom) {
            Ok(checker) => Ok((checker, warnings)),
            Err(err) => Err(err),
        }
    }

    /// Expose the registry for introspection (e.g. list-checks, explain).
    pub fn registry(&self) -> (r: &Registry)
        ensures
            *r == self.registry,
    {
        &self.registry
    }

    /// The configured framework.
    pub fn adapter(&self) -> (r: Result<Framework>)
        ensures
            match framework_of(self.config.framework@) {
                Some(framework) => r == Ok::<Framework, DieselGuardError>(framework),
                None => r matches Err(
                    DieselGuardError::ConfigError(ConfigError::InvalidFramework { framework }),
                ) && framework@ == self.config.framework@,
            },
    {
        if same_text(self.config.framework.as_str(), "diesel") {
            Ok(Framework::Diesel)
        } else if same_text(self.config.framework.as_str(), "sqlx") {
            Ok(Framework::Sqlx)
        } else {
            Err(
                DieselGuardError::ConfigError(
                    ConfigError::InvalidFramework { framework: self.config.framework.clone() },
                ),
            )
        }
    }

    /// The warnings about unknown names among those that a migration disables.
    pub fn warn_unknown_migration_disabled_checks(
        &self,
        disabled_checks: &Vec<String>,
        source: &str,
    ) -> (r: Vec<String>)
        ensures
            string_views(r@) == unknown_warnings(
                string_views(disabled_checks@),
                string_views(self.known_check_names@),
                source@,
            ),
    {
        let ghost all = string_views(disabled_checks@);
        let ghost f = unknown_warning(string_views(self.known_check_names@), source@);
        let mut warned_names: Vec<String> = Vec::new();
        let mut r: Vec<String> = Vec::new();
        let mut i: usize = 0;
        assert(string_views(warned_names@) =~= without_repeats(all.take(0)));
        assert(string_views(r@) =~= string_views(warned_names@).filter_map(f));
        while i < disabled_checks.len()
            invariant
                i <= disabled_checks.len(),
                all == string_views(disabled_checks@),
                f == unknown_warning(string_views(self.known_check_names@), source@),
                string_views(warned_names@) == without_repeats(all.take(i as int)),
                string_views(r@) == string_views(warned_names@).filter_map(f),
            decreases disabled_checks.len() - i,
        {
            let name = &disabled_checks[i];
            let ghost warned_before = string_views(warned_names@);
            let ghost before = r@;
            proof {
                assert(all.take(i + 1).drop_last() =~= all.take(i as int));
                assert(all.take(i + 1).last() == name@);
                lemma_lists_contains(warned_names@, name@);
                lemma_lists_contains(self.known_check_names@, name@);
            }
            if !list_contains(&warned_names, name.as_str()) {
                warned_names.push(name.clone());
                proof {
                    assert(string_views(warned_names@) =~= warned_before.push(name@));
                    assert(string_views(warned_names@).drop_last() =~= warned_before);
                }
                if !list_contains(&self.known_check_names, name.as_str()) {
                    let args: Vec<&str> = vec![name.as_str(), source];
                    assert(views(args@) =~= seq![name@, source@]);
                    let warning = fill_template(UNKNOWN_CHECK_TEXT, &args);
                    r.push(warning);
                    assert(string_views(r@) =~= string_views(before).push(warning@));
                }
            }
            i += 1;
        }
        assert(all.take(all.len() as int) =~= all);
        r
    }

    /// What a check of a text gives if its directives fit together.
    pub open spec fn check_result(
        &self,
        sql: Seq<char>,
        found: Statements,
        ctx: ContextView,
        source: Seq<char>,
    ) -> CheckedView {
        self.parsed_result(
            sql,
            found.stmts@,
            found.token_starts@,
            blocks(line_kinds(sql))->Ok_0,
            ctx.disabling(disabled_checks_of(sql)),
            source,
        )
    }

    /// What a check of a text gives: the violations in its statements, and warnings about unknown
    /// names among the disabled checks.
    pub open spec fn parsed_result(
        &self,
        sql: Seq<char>,
        stmts: Seq<RawStmt>,
        token_starts: Seq<usize>,
        ranges: Seq<IgnoreRange>,
        ctx: ContextView,
        source: Seq<char>,
    ) -> CheckedView {
        CheckedView {
            violations: script_violations(
                self.registry.checks@,
                stmts,
                sql,
                token_starts,
                ranges,
                self.config,
                ctx,
            ),
            warnings: unknown_warnings(
                ctx.disabled_checks,
                string_views(self.known_check_names@),
                source,
            ),
        }
    }

    fn check_parsed(&self, parsed: ParsedSql, ctx: &MigrationContext, source: &str) -> (r: Checked)
        requires
            sorted(parsed.token_starts@),
        ensures
            r@ == self.parsed_result(
                parsed.sql@,
                parsed.stmts@,
                parsed.token_starts@,
                parsed.ignore_ranges@,
                ctx@.disabling(string_views(parsed.disabled_checks@)),
                source@,
            ),
    {
        let ctx = ctx.with_disabled_checks(parsed.disabled_checks.as_slice());
        let warnings = self.warn_unknown_migration_disabled_checks(&ctx.disabled_checks, source);
        let violations = self.registry.check_stmts_with_context(
            parsed.stmts.as_slice(),
            parsed.sql.as_str(),
            parsed.token_starts.as_slice(),
            parsed.ignore_ranges.as_slice(),
            &self.config,
            &ctx,
        );
        Checked { violations, warnings }
    }

    /// Check SQL string for violations, given what the parser finds in it.
    pub fn check_sql(&self, sql: &str, statements: Result<Statements>) -> (r: Result<Checked>)
        requires
            statements matches Ok(found) ==> sorted(found.token_starts@),
        ensures
            match statements {
                Ok(found) => match blocks(line_kinds(sql@)) {
                    Ok(_) => r matches Ok(checked) && checked@ == self.check_result(
                        sql@,
                        found,
                        ContextView::default_context(),
                        SQL_SOURCE@,
                    ),
                    Err(fault) => r matches Err(DieselGuardError::ParseError { msg, src, span })
                        && msg@ == fault.text() && src is None && span is None,
                },
                Err(err) => r matches Err(e) && e == err,
            },
    {
        match parse_with_metadata(sql, statements) {
            Ok(parsed) => Ok(
                self.check_parsed(parsed, &MigrationContext::default(), SQL_SOURCE),
            ),
            Err(err) => Err(err),
        }
    }

    /// Check a migration file that was read, given what the parser finds in it and its context. A
    /// parse error is reported with the file.
    pub fn check_file(
        &self,
        path: &str,
        sql: String,
        statements: Result<Statements>,
        ctx: &MigrationContext,
    ) -> (r: Result<Checked>)
        requires
            statements matches Ok(found) ==> sorted(found.token_starts@),
        ensures
            match statements {
                Ok(found) => match blocks(line_kinds(sql@)) {
                    Ok(_) => r matches Ok(checked) && checked@ == self.check_result(
                        sql@,
                        found,
                        ctx@,
                        fill(FILE_SOURCE@, seq![path@]),
                    ),
                    Err(fault) => r matches Err(err) && is_parse_error_in(
                        err,
                        fault.text(),
                        None,
                        path@,
                        sql@,
                    ),
                },
                Err(DieselGuardError::ParseError { msg, span, .. }) => r matches Err(err)
                    && is_parse_error_in(err, msg@, span, path@, sql@),
                Err(err) => r matches Err(e) && e == err,
            },
    {
        match parse_with_metadata(sql.as_str(), statements) {
            Ok(parsed) => {
                let args: Vec<&str> = vec![path];
                assert(views(args@) =~= seq![path@]);
                let source = fill_template(FILE_SOURCE, &args);
                Ok(self.check_parsed(parsed, ctx, source.as_str()))
            },
            Err(err) => Err(err.with_file_context(path, sql)),
        }
    }

    /// The Diesel migrations to check: those of a listing that the configuration selects.
    pub fn select_diesel_migrations(&self, listing: &MigrationListing) -> (r: Result<
        Vec<MigrationFile>,
    >)
        ensures
            match self.config.start_after {
                Some(start) if !is_timestamp(start@) => {
                    r matches Err(
                        DieselGuardError::ConfigError(ConfigError::InvalidTimestampFormat(message)),
                    ) && message@ == fill(INVALID_TIMESTAMP_TEXT@, seq![start@])
                },
                _ => r matches Ok(files) && file_views(files@) == migration_files(
                    *listing,
                    opt_text(self.config.start_after),
                    self.config.check_down,
                ),
            },
    {
        let start_after = match &self.config.start_after {
            Some(start) => {
                if let Err(message) = DieselAdapter.validate_timestamp(start.as_str()) {
                    return Err(
                        DieselGuardError::ConfigError(ConfigError::InvalidTimestampFormat(message)),
                    );
                }
                Some(start.as_str())
            },
            None => None,
        };
        Ok(DieselAdapter.collect_migration_files(listing, start_after, self.config.check_down))
    }

    /// What a check of a file gives if nothing fails.
    pub open spec fn input_result(&self, input: MigrationInput) -> CheckedView {
        self.check_result(
            input.sql->Ok_0@,
            input.statements->Ok_0,
            input.ctx@,
            fill(FILE_SOURCE@, seq![input.path@]),
        )
    }

    /// A file with its violations, if it has any.
    pub open spec fn file_result(&self) -> spec_fn(MigrationInput) -> Option<
        (Seq<char>, Seq<(usize, ViolationView)>),
    > {
        |input: MigrationInput|
            if self.input_result(input).violations.len() > 0 {
                Some((input.path@, self.input_result(input).violations))
            } else {
                None
            }
    }

    /// The warnings about a file.
    pub open spec fn file_warnings(&self) -> spec_fn(MigrationInput) -> Seq<Seq<char>> {
        |input: MigrationInput| self.input_result(input).warnings
    }

    /// Check migration files in their order. The first file that cannot be read or parsed ends it.
    pub fn check_directory(&self, inputs: Vec<MigrationInput>) -> (r: DirectoryReport)
        requires
            forall|i: int|
                0 <= i < inputs@.len() ==> ((#[trigger] inputs@[i]).statements matches Ok(found)
                    ==> sorted(found.token_starts@)),
        ensures
            match first_failure(inputs@, 0) {
                Some(k) => {
                    &&& r.results matches Err(err) && fails_with(inputs@[k], err)
                    &&& string_views(r.warnings@) == inputs@.take(k).flat_map(self.file_warnings())
                },
                None => {
                    &&& r.results matches Ok(results) && result_views(results@)
                        == inputs@.filter_map(self.file_result())
                    &&& string_views(r.warnings@) == inputs@.flat_map(self.file_warnings())
                },
            },
    {
        let ghost all = inputs@;
        let ghost f = self.file_result();
        let ghost g = self.file_warnings();
        let mut results: Vec<(String, ViolationList)> = Vec::new();
        let mut warnings: Vec<String> = Vec::new();
        assert(result_views(results@) =~= all.take(0).filter_map(f));
        assert(string_views(warnings@) =~= all.take(0).flat_map(g));
        for input in it: inputs
            invariant
                it.seq() == all,
                f == self.file_result(),
                g == self.file_warnings(),
                forall|i: int|
                    0 <= i < all.len() ==> ((#[trigger] all[i]).statements matches Ok(found)
                        ==> sorted(found.token_starts@)),
                first_failure(all, 0) == first_failure(all, it.index()),
                result_views(results@) == all.take(it.index()).filter_map(f),
                string_views(warnings@) == all.take(it.index()).flat_map(g),
        {
            let ghost k = it.index();
            let ghost before = results@;
            let ghost warned = warnings@;
            assert(input == all[k]);
            let MigrationInput { path, sql, statements, ctx } = input;
            let sql = match sql {
                Ok(sql) => sql,
                Err(err) => {
                    return DirectoryReport { results: Err(err), warnings };
                },
            };
            match self.check_file(path.as_str(), sql, statements, &ctx) {
                Ok(checked) => {
                    let Checked { violations, warnings: mut more } = checked;
                    let ghost added = more@;
                    let ghost found = list_views(violations@);
                    warnings.append(&mut more);
                    proof {
                        all.lemma_flat_map_take_append(g, k);
                        all.lemma_filter_map_take_succ(f, k);
                        assert(string_views(warnings@) =~= string_views(warned) + string_views(
                            added,
                        ));
                        assert(found == self.input_result(all[k]).violations);
                    }
                    if violations.len() > 0 {
                        results.push((path, violations));
                        assert(result_views(results@) =~= result_views(before).push(
                            (path@, found),
                        ));
                    } else {
                        assert(found.len() == 0);
                    }
                },
                Err(err) => {
                    return DirectoryReport { results: Err(err), warnings };
                },
            }
        }
        assert(all.take(all.len() as int) =~= all);
        DirectoryReport { results: Ok(results), warnings }
    }
}

impl Default for SafetyChecker {
    fn default() -> (r: SafetyChecker)
        ensures
            r.registry.checks@ == builtin_checks().map_values(
                |check: Builtin| RegisteredCheck::Builtin(check),
            ),
            string_views(r.known_check_names@) == builtin_titles(),
            r.config@ == default_config(),
    {
        SafetyChecker {
            registry: Registry::new(),
            config: Config::default(),
            known_check_names: Registry::builtin_check_names(),
        }
    }
}

/// The messages of scripts that were not loaded.
pub open spec fn script_messages(errors: Seq<ScriptError>) -> Seq<Seq<char>> {
    errors.map_values(|error: ScriptError| error.message@)
}

fn script_warnings(errors: &Vec<ScriptError>) -> (r: Vec<String>)
    ensures
        string_views(r@) == script_messages(errors@),
{
    let mut r: Vec<String> = Vec::new();
    let mut i: usize = 0;
    while i < errors.len()
        invariant
            i <= errors.len(),
            r@.len() == i,
            forall|j: int| 0 <= j < i ==> (#[trigger] r@[j])@ == errors@[j].message@,
        decreases errors.len() - i,
    {
        r.push(errors[i].message.clone());
        i += 1;
    }
    assert(string_views(r@) =~= script_messages(errors@));
    r
}

/// The result of a single input: nothing if it has no violations.
pub fn single_result(path: &str, violations: ViolationList) -> (r: Vec<(String, ViolationList)>)
    ensures
        result_views(r@) == if violations@.len() == 0 {
            Seq::<(Seq<char>, Seq<(usize, ViolationView)>)>::empty()
        } else {
            seq![(path@, list_views(violations@))]
        },
{
    let mut r: Vec<(String, ViolationList)> = Vec::new();
    if violations.len() > 0 {
        r.push((path.to_string(), violations));
        assert(result_views(r@) =~= seq![(path@, list_views(violations@))]);
    } else {
        assert(result_views(r@) =~= Seq::<(Seq<char>, Seq<(usize, ViolationView)>)>::empty());
    }
    r
}

/// Whether a file cannot be checked: it cannot be read or parsed, or its directives do not fit
/// together.
pub open spec fn is_failure(input: MigrationInput) -> bool {
    input.sql is Err || input.statements is Err || blocks(line_kinds(input.sql->Ok_0@)) is Err
}

/// The first of the files from number `from` on that cannot be checked.
pub open spec fn first_failure(inputs: Seq<MigrationInput>, from: int) -> Option<int>
    decreases inputs.len() - from,
{
    if from < 0 || from >= inputs.len() {
        None
    } else if is_failure(inputs[from]) {
        Some(from)
    } else {
        first_failure(inputs, from + 1)
    }
}

/// Whether an error is the one that a file which cannot be checked gives. A parse error comes with
/// the file.
pub open spec fn fails_with(input: MigrationInput, err: DieselGuardError) -> bool {
    match input.sql {
        Err(e) => err == e,
        Ok(sql) => match input.statements {
            Ok(_) => blocks(line_kinds(sql@)) matches Err(fault) && is_parse_error_in(
                err,
                fault.text(),
                None,
                input.path@,
                sql@,
            ),
            Err(DieselGuardError::ParseError { msg, span, .. }) => is_parse_error_in(
                err,
                msg@,
                span,
                input.path@,
                sql@,
            ),
            Err(e) => err == e,
        },
    }
}

/// Whether an error is a parse error with a message, a file and the place that they give.
pub open spec fn is_parse_error_in(
    err: DieselGuardError,
    msg: Seq<char>,
    span: Option<crate::error::SourceSpan>,
    path: Seq<char>,
    sql: Seq<char>,
) -> bool {
    err matches DieselGuardError::ParseError { msg: m, src: Some(file), span: at } && m@ == msg
        && file.name@ == path && file.source@ == sql && at == Some(located(msg, span))
}

// ---------------------------------------------------------------------------
// Laws
// ---------------------------------------------------------------------------

proof fn lemma_first_such(names: Seq<Seq<char>>, holds: spec_fn(Seq<char>) -> bool, from: int)
    requires
        0 <= from <= names.len(),
    ensures
        match first_such(names, holds, from) {
            Some(name) => names.contains(name) && holds(name),
            None => forall|i: int| from <= i < names.len() ==> !holds(#[trigger] names[i]),
        },
    decreases names.len() - from,
{
    if from < names.len() && !holds(names[from]) {
        lemma_first_such(names, holds, from + 1);
    }
}

/// In a configuration that is accepted, every name in a list is that of a check.
pub proof fn law_accepted_names_are_known(
    config: Config,
    custom: Seq<Seq<char>>,
    active: Seq<Seq<char>>,
    name: Seq<char>,
)
    requires
        fault_of(config, custom, active) is None,
        lists(config.disable_checks@, name) || lists(config.enable_checks@, name) || lists(
            config.warn_checks@,
            name,
        ),
    ensures
        known_names(custom).contains(name),
{
    let known = known_names(custom);
    lemma_first_such(string_views(config.disable_checks@), not_among(known), 0);
    lemma_first_such(string_views(config.enable_checks@), not_among(known), 0);
    lemma_first_such(string_views(config.warn_checks@), not_among(known), 0);
    if lists(config.disable_checks@, name) {
        let i = choose|i: int|
            0 <= i < config.disable_checks@.len() && #[trigger] config.disable_checks@[i]@ == name;
        assert(string_views(config.disable_checks@)[i] == name);
    } else if lists(config.enable_checks@, name) {
        let i = choose|i: int|
            0 <= i < config.enable_checks@.len() && #[trigger] config.enable_checks@[i]@ == name;
        assert(string_views(config.enable_checks@)[i] == name);
    } else {
        let i = choose|i: int|
            0 <= i < config.warn_checks@.len() && #[trigger] config.warn_checks@[i]@ == name;
        assert(string_views(config.warn_checks@)[i] == name);
    }
}

/// In a configuration that is accepted, no custom check has the name of a built-in one.
pub proof fn law_accepted_custom_checks_shadow_nothing(
    config: Config,
    custom: Seq<Seq<char>>,
    active: Seq<Seq<char>>,
    name: Seq<char>,
)
    requires
        fault_of(config, custom, active) is None,
        custom.contains(name),
    ensures
        !builtin_titles().contains(name),
{
    lemma_first_such(custom, among(builtin_titles()), 0);
    let i = custom.index_of(name);
    assert(custom[i] == name);
}

/// In a configuration that is accepted, a custom check that is listed as enabled or as one that warns
/// runs, unless it is disabled.
pub proof fn law_accepted_custom_checks_run(
    config: Config,
    custom: Seq<Seq<char>>,
    active: Seq<Seq<char>>,
    name: Seq<char>,
)
    requires
        fault_of(config, custom, active) is None,
        custom.contains(name),
        lists(config.enable_checks@, name) || lists(config.warn_checks@, name),
        config.enables(name),
    ensures
        active.contains(name),
{
    let enabled = string_views(config.enable_checks@);
    let warned = string_views(config.warn_checks@);
    let all = enabled + warned;
    lemma_first_such(all, enabled_but_absent(config, custom, active), 0);
    if lists(config.enable_checks@, name) {
        let i = choose|i: int|
            0 <= i < config.enable_checks@.len() && #[trigger] config.enable_checks@[i]@ == name;
        assert(all[i] == name);
    } else {
        let i = choose|i: int|
            0 <= i < config.warn_checks@.len() && #[trigger] config.warn_checks@[i]@ == name;
        assert(all[enabled.len() + i] == name);
    }
}

/// A configuration that lists no checks is accepted, whatever custom checks were loaded.
pub proof fn law_empty_lists_are_accepted(
    config: Config,
    custom: Seq<Seq<char>>,
    active: Seq<Seq<char>>,
)
    requires
        config.disable_checks@.len() == 0,
        config.enable_checks@.len() == 0,
        config.warn_checks@.len() == 0,
        forall|i: int| 0 <= i < custom.len() ==> !builtin_titles().contains(#[trigger] custom[i]),
    ensures
        fault_of(config, custom, active) is None,
{
    let known = known_names(custom);
    lemma_first_such(custom, among(builtin_titles()), 0);
    if let Some(name) = first_such(custom, among(builtin_titles()), 0) {
        let i = custom.index_of(name);
        assert(custom[i] == name);
    }
}

/// Inside a safety-assured block nothing is reported: if a start directive stands on one line and the
/// next directive, an end directive, on another, a statement whose first token is on a line strictly
/// between them gives no violations.
pub proof fn law_assured_statements_are_not_reported(
    checker: SafetyChecker,
    sql: Seq<char>,
    found: Statements,
    stmt: RawStmt,
    ctx: ContextView,
    source: Seq<char>,
    start: int,
    end: int,
)
    requires
        lines(sql).len() <= usize::MAX,
        blocks(line_kinds(sql)) is Ok,
        found.stmts@ == seq![stmt],
        1 <= start < end <= line_kinds(sql).len(),
        line_kinds(sql)[start - 1] == LineKind::Start,
        line_kinds(sql)[end - 1] == LineKind::End,
        forall|l: int| start < l < end ==> #[trigger] line_kinds(sql)[l - 1] == LineKind::Other,
        start < statement_line(stmt, sql, found.token_starts@) < end,
    ensures
        checker.check_result(sql, found, ctx, source).violations.len() == 0,
{
    let kinds = line_kinds(sql);
    let line = statement_line(stmt, sql, found.token_starts@);
    let ranges = blocks(kinds)->Ok_0;
    assert(enclose(kinds, start, end));
    law_blocks_lie_between_their_directives(kinds, ranges, line as int);
    let i = choose|i: int|
        0 <= i < ranges.len() && (#[trigger] ranges[i]).start_line < line < ranges[i].end_line;
    assert(is_assured(ranges, line)) by {
        assert(ranges[i].covers(line as int));
    }
    law_assurance_is_all_or_nothing(
        checker.registry.checks@,
        stmt,
        sql,
        found.token_starts@,
        ranges,
        checker.config,
        ctx.disabling(disabled_checks_of(sql)),
    );
}

/// Outside safety-assured blocks a statement is reported in full: if its first token is not on a line
/// strictly between a start directive and the next end directive, every violation that the checks
/// find in it is reported, in their order and on its line.
pub proof fn law_other_statements_are_reported_in_full(
    checker: SafetyChecker,
    sql: Seq<char>,
    found: Statements,
    stmt: RawStmt,
    node: NodeEnum,
    ctx: ContextView,
    source: Seq<char>,
)
    requires
        lines(sql).len() <= usize::MAX,
        blocks(line_kinds(sql)) is Ok,
        found.stmts@ == seq![stmt],
        stmt.stmt == Some(node),
        forall|s: int, e: int| #[trigger]
            enclose(line_kinds(sql), s, e) ==> !(s < statement_line(stmt, sql, found.token_starts@)
                < e),
    ensures
        ({
            let all = node_violations(
                checker.registry.checks@,
                node,
                checker.config,
                ctx.disabling(disabled_checks_of(sql)),
            );
            let reported = checker.check_result(sql, found, ctx, source).violations;
            &&& reported.len() == all.len()
            &&& forall|i: int|
                0 <= i < all.len() ==> (#[trigger] reported[i]).1 == all[i] && reported[i].0
                    == statement_line(stmt, sql, found.token_starts@)
        }),
{
    let kinds = line_kinds(sql);
    let line = statement_line(stmt, sql, found.token_starts@);
    let ranges = blocks(kinds)->Ok_0;
    law_blocks_lie_between_their_directives(kinds, ranges, line as int);
    if is_assured(ranges, line) {
        let i = choose|i: int| 0 <= i < ranges.len() && (#[trigger] ranges[i]).covers(line as int);
        assert(ranges[i].start_line < line < ranges[i].end_line);
        let (s, e) = choose|s: int, e: int| s < line < e && #[trigger] enclose(kinds, s, e);
        assert(enclose(kinds, s, e));
    }
    let f = statement_report(
        checker.registry.checks@,
        sql,
        found.token_starts@,
        ranges,
        checker.config,
        ctx.disabling(disabled_checks_of(sql)),
    );
    seq![stmt].lemma_flat_map_singleton(f);
}

/// Every statement of a text is checked, in their order, and what one of them gives does not depend
/// on the others. A statement that the parser left empty gives nothing.
pub proof fn law_every_statement_is_checked(
    checker: SafetyChecker,
    sql: Seq<char>,
    whole: Statements,
    first: Statements,
    second: Statements,
    ctx: ContextView,
    source: Seq<char>,
)
    requires
        whole.stmts@ == first.stmts@ + second.stmts@,
        whole.token_starts@ == first.token_starts@,
        whole.token_starts@ == second.token_starts@,
    ensures
        checker.check_result(sql, whole, ctx, source).violations == checker.check_result(
            sql,
            first,
            ctx,
            source,
        ).violations + checker.check_result(sql, second, ctx, source).violations,
        first.stmts@.len() == 0 ==> checker.check_result(sql, first, ctx, source).violations.len()
            == 0,
        first.stmts@.len() == 1 && first.stmts@[0].stmt is None ==> checker.check_result(
            sql,
            first,
            ctx,
            source,
        ).violations.len() == 0,
{
    let checks = checker.registry.checks@;
    let ranges = blocks(line_kinds(sql))->Ok_0;
    let all = ctx.disabling(disabled_checks_of(sql));
    law_statements_are_independent(
        checks,
        first.stmts@,
        second.stmts@,
        sql,
        whole.token_starts@,
        ranges,
        checker.config,
        all,
    );
    let f = statement_report(checks, sql, whole.token_starts@, ranges, checker.config, all);
    if first.stmts@.len() == 0 {
        assert(first.stmts@.flat_map(f) =~= Seq::<(usize, ViolationView)>::empty());
    }
    if first.stmts@.len() == 1 {
        assert(first.stmts@ =~= seq![first.stmts@[0]]);
        seq![first.stmts@[0]].lemma_flat_map_singleton(f);
    }
}

/// A check that a directive of the text names, or that the migration disables otherwise, reports
/// nothing there; every other check reports as if there were no directive.
pub proof fn law_directives_silence_the_checks_they_name(
    ctx: ContextView,
    sql: Seq<char>,
    name: Seq<char>,
)
    ensures
        ctx.disabling(disabled_checks_of(sql)).disabled_checks.contains(name) <==> (
        ctx.disabled_checks.contains(name) || disabled_checks_of(sql).contains(name)),
        ctx.disabling(disabled_checks_of(sql)).run_in_transaction == ctx.run_in_transaction,
        ctx.disabling(disabled_checks_of(sql)).no_transaction_hint == ctx.no_transaction_hint,
{
    let named = disabled_checks_of(sql);
    let all = ctx.disabled_checks + named;
    law_without_repeats(all);
    if ctx.disabled_checks.contains(name) {
        let i = ctx.disabled_checks.index_of(name);
        assert(all[i] == name);
    }
    if named.contains(name) {
        let i = named.index_of(name);
        assert(all[ctx.disabled_checks.len() + i] == name);
    }
    if all.contains(name) {
        let i = all.index_of(name);
        if i < ctx.disabled_checks.len() {
            assert(ctx.disabled_checks[i] == name);
        } else {
            assert(named[i - ctx.disabled_checks.len()] == name);
        }
    }
}

/// A warning comes for each unknown name among the disabled checks.
pub proof fn law_unknown_names_are_warned_of(
    checker: SafetyChecker,
    sql: Seq<char>,
    found: Statements,
    ctx: ContextView,
    source: Seq<char>,
    name: Seq<char>,
)
    requires
        ctx.disabled_checks.contains(name) || disabled_checks_of(sql).contains(name),
        forall|k: int|
            0 <= k < checker.known_check_names@.len() ==> #[trigger] checker.known_check_names@[k]@
                != name,
    ensures
        checker.check_result(sql, found, ctx, source).warnings.contains(
            fill(UNKNOWN_CHECK_TEXT@, seq![name, source]),
        ),
{
    law_directives_silence_the_checks_they_name(ctx, sql, name);
    let disabled = ctx.disabling(disabled_checks_of(sql)).disabled_checks;
    let known = string_views(checker.known_check_names@);
    law_without_repeats(disabled);
    assert(!known.contains(name));
    assert(without_repeats(disabled).contains(name));
    lemma_mapped_member(without_repeats(disabled), unknown_warning(known, source), name);
}

proof fn lemma_mapped_member<A, B>(list: Seq<A>, f: spec_fn(A) -> Option<B>, x: A)
    requires
        list.contains(x),
        f(x) is Some,
    ensures
        list.filter_map(f).contains(f(x)->0),
    decreases list.len(),
{
    let rest = list.drop_last();
    let kept = rest.filter_map(f);
    let all = list.filter_map(f);
    let i = list.index_of(x);
    if i < rest.len() {
        assert(rest[i] == x);
        lemma_mapped_member(rest, f, x);
        let k = kept.index_of(f(x)->0);
        assert(all[k] == f(x)->0);
    } else {
        assert(all[all.len() - 1] == f(x)->0);
    }
}

/// Where every disabled check is known, no warning is given.
pub proof fn law_known_names_are_not_warned_of(
    checker: SafetyChecker,
    sql: Seq<char>,
    found: Statements,
    ctx: ContextView,
    source: Seq<char>,
)
    requires
        forall|name: Seq<char>| #[trigger]
            ctx.disabled_checks.contains(name) || disabled_checks_of(sql).contains(name) ==> exists|
                k: int,
            |
                0 <= k < checker.known_check_names@.len() && #[trigger] checker.known_check_names@[k]@
                    == name,
    ensures
        checker.check_result(sql, found, ctx, source).warnings.len() == 0,
{
    let disabled = ctx.disabling(disabled_checks_of(sql)).disabled_checks;
    let known = string_views(checker.known_check_names@);
    let names = without_repeats(disabled);
    let f = unknown_warning(known, source);
    law_without_repeats(disabled);
    if names.filter_map(f).len() > 0 {
        let warning = names.filter_map(f)[0];
        assert(names.filter_map(f).contains(warning));
        names.lemma_filter_map_contains(f, warning);
        let t = choose|t: Seq<char>| names.contains(t) && f(t) == Some(warning);
        law_directives_silence_the_checks_they_name(ctx, sql, t);
        assert(disabled.contains(t));
        assert(ctx.disabled_checks.contains(t) || disabled_checks_of(sql).contains(t));
        let k = choose|k: int|
            0 <= k < checker.known_check_names@.len() && #[trigger] checker.known_check_names@[k]@
                == t;
        assert(known[k] == t);
    }
}

/// The check of a directory ends at the first file that cannot be read, cannot be parsed or has
/// directives that do not fit together, and at no other.
pub proof fn law_directories_fail_at_the_first_bad_file(inputs: Seq<MigrationInput>)
    ensures
        match first_failure(inputs, 0) {
            Some(k) => {
                &&& 0 <= k < inputs.len()
                &&& inputs[k].sql is Err || inputs[k].statements is Err || blocks(
                    line_kinds(inputs[k].sql->Ok_0@),
                ) is Err
                &&& forall|j: int|
                    0 <= j < k ==> (#[trigger] inputs[j]).sql is Ok && inputs[j].statements is Ok
                        && blocks(line_kinds(inputs[j].sql->Ok_0@)) is Ok
            },
            None => forall|j: int|
                0 <= j < inputs.len() ==> (#[trigger] inputs[j]).sql is Ok && inputs[j].statements
                    is Ok && blocks(line_kinds(inputs[j].sql->Ok_0@)) is Ok,
        },
{
    lemma_first_failure(inputs, 0);
}

proof fn lemma_first_failure(inputs: Seq<MigrationInput>, from: int)
    requires
        0 <= from <= inputs.len(),
    ensures
        match first_failure(inputs, from) {
            Some(k) => {
                &&& from <= k < inputs.len()
                &&& is_failure(inputs[k])
                &&& forall|j: int| from <= j < k ==> !is_failure(#[trigger] inputs[j])
            },
            None => forall|j: int| from <= j < inputs.len() ==> !is_failure(#[trigger] inputs[j]),
        },
    decreases inputs.len() - from,
{
    if from < inputs.len() && !is_failure(inputs[from]) {
        lemma_first_failure(inputs, from + 1);
    }
}

/// The results of a directory hold the files with violations, in their order, each with all of its
/// violations; a file without violations is left out. Files are checked independently.
pub proof fn law_directories_list_the_files_with_violations(
    checker: SafetyChecker,
    first: Seq<MigrationInput>,
    input: MigrationInput,
)
    ensures
        ({
            let found = checker.check_result(
                input.sql->Ok_0@,
                input.statements->Ok_0,
                input.ctx@,
                fill(FILE_SOURCE@, seq![input.path@]),
            ).violations;
            first.push(input).filter_map(checker.file_result()) == if found.len() == 0 {
                first.filter_map(checker.file_result())
            } else {
                first.filter_map(checker.file_result()).push((input.path@, found))
            }
        }),
{
    assert(first.push(input).drop_last() =~= first);
    let f = checker.file_result();
    assert(first.push(input).filter_map(f) =~= first.filter_map(f) + match f(input) {
        Some(entry) => seq![entry],
        None => Seq::empty(),
    });
}

/// A configuration is refused for the first custom check that has the name of a built-in one; else for
/// the first name in its lists that no check has, the disabled ones coming first, then the enabled
/// ones, then those that warn.
pub proof fn law_unknown_names_are_refused(
    config: Config,
    custom: Seq<Seq<char>>,
    active: Seq<Seq<char>>,
    name: Seq<char>,
)
    ensures
        fault_of(config, custom, active) == Some(Fault::Conflict(name)) ==> custom.contains(name)
            && builtin_titles().contains(name),
        fault_of(config, custom, active) == Some(Fault::Unknown(name)) ==> !builtin_titles().contains(
            name,
        ) && !custom.contains(name) && (string_views(config.disable_checks@) + string_views(
            config.enable_checks@,
        ) + string_views(config.warn_checks@)).contains(name),
        fault_of(config, custom, active) == Some(Fault::NotLoaded(name)) ==> custom.contains(name)
            && !active.contains(name) && (string_views(config.enable_checks@) + string_views(
            config.warn_checks@,
        )).contains(name) && forall|k: int|
            0 <= k < config.disable_checks@.len() ==> #[trigger] config.disable_checks@[k]@ != name,
{
    let known = known_names(custom);
    let disabled = string_views(config.disable_checks@);
    let enabled = string_views(config.enable_checks@);
    let warned = string_views(config.warn_checks@);
    let all = disabled + enabled + warned;
    lemma_first_such(custom, among(builtin_titles()), 0);
    lemma_first_such(disabled, not_among(known), 0);
    lemma_first_such(enabled, not_among(known), 0);
    lemma_first_such(warned, not_among(known), 0);
    lemma_first_such(enabled + warned, enabled_but_absent(config, custom, active), 0);
    if builtin_titles().contains(name) {
        let i = builtin_titles().index_of(name);
        assert(known[i] == name);
    }
    if custom.contains(name) {
        let i = custom.index_of(name);
        assert(known[builtin_titles().len() + i] == name);
    }
    if disabled.contains(name) {
        let i = disabled.index_of(name);
        assert(all[i] == name);
    }
    if enabled.contains(name) {
        let i = enabled.index_of(name);
        assert(all[disabled.len() + i] == name);
    }
    if warned.contains(name) {
        let i = warned.index_of(name);
        assert(all[disabled.len() + enabled.len() + i] == name);
    }
}

/// The reason why a custom check was not loaded is the message of the last error of its script, if
/// there is one.
pub proof fn law_the_last_error_gives_the_reason(
    errors: Seq<ScriptError>,
    err: ScriptError,
    name: Seq<char>,
)
    ensures
        err.stem matches Some(stem) && stem@ == name ==> reason_for(errors.push(err), name)
            == err.message@,
        !(err.stem matches Some(stem) && stem@ == name) ==> reason_for(errors.push(err), name)
            == reason_for(errors, name),
        reason_for(Seq::empty(), name) == "configured custom check was not loaded"@,
{
    assert(errors.push(err).drop_last() =~= errors);
}

/// The first name of a list of which something holds is found: none before it has it.
pub proof fn law_the_first_such_name_is_found(
    names: Seq<Seq<char>>,
    holds: spec_fn(Seq<char>) -> bool,
    k: int,
)
    requires
        0 <= k < names.len(),
        holds(names[k]),
        forall|i: int| 0 <= i < k ==> !holds(#[trigger] names[i]),
    ensures
        first_such(names, holds, 0) == Some(names[k]),
{
    lemma_found(names, holds, 0, k);
}

proof fn lemma_found(
    names: Seq<Seq<char>>,
    holds: spec_fn(Seq<char>) -> bool,
    from: int,
    k: int,
)
    requires
        0 <= from <= k < names.len(),
        holds(names[k]),
        forall|i: int| from <= i < k ==> !holds(#[trigger] names[i]),
    ensures
        first_such(names, holds, from) == Some(names[k]),
    decreases k - from,
{
    if from < k {
        assert(!holds(names[from]));
        lemma_found(names, holds, from + 1, k);
    }
}

/// A name in one of the lists that neither a built-in nor a custom check has is refused, whatever else
/// the configuration says; of a custom check that is listed as enabled or as one that warns, is not
/// disabled and did not load, the same holds; and so it does of a custom check with the name of a
/// built-in one.
pub proof fn law_faulty_configurations_are_refused(
    config: Config,
    custom: Seq<Seq<char>>,
    active: Seq<Seq<char>>,
    name: Seq<char>,
)
    requires
        ({
            let disabled = exists|k: int|
                0 <= k < config.disable_checks@.len() && #[trigger] config.disable_checks@[k]@
                    == name;
            let enabled = exists|k: int|
                0 <= k < config.enable_checks@.len() && #[trigger] config.enable_checks@[k]@ == name;
            let warned = exists|k: int|
                0 <= k < config.warn_checks@.len() && #[trigger] config.warn_checks@[k]@ == name;
            ||| custom.contains(name) && builtin_titles().contains(name)
            ||| (disabled || enabled || warned) && !custom.contains(name)
                && !builtin_titles().contains(name)
            ||| custom.contains(name) && !active.contains(name) && !disabled && (enabled || warned
                && config.enable_checks@.len() == 0)
        }),
    ensures
        fault_of(config, custom, active) is Some,
{
    let known = known_names(custom);
    if fault_of(config, custom, active) is None {
        if custom.contains(name) && builtin_titles().contains(name) {
            law_accepted_custom_checks_shadow_nothing(config, custom, active, name);
        } else if custom.contains(name) {
            law_accepted_custom_checks_run(config, custom, active, name);
        } else {
            law_accepted_names_are_known(config, custom, active, name);
            let k = known.index_of(name);
            assert(known[k] == name);
            if k < builtin_titles().len() {
                assert(builtin_titles()[k] == name);
            } else {
                assert(custom[k - builtin_titles().len()] == name);
            }
        }
    }
}

/// The names that are known are those of the built-in checks and of the custom ones.
pub proof fn law_known_names(custom: Seq<Seq<char>>, name: Seq<char>)
    ensures
        known_names(custom).contains(name) <==> builtin_titles().contains(name) || custom.contains(
            name,
        ),
{
    let known = known_names(custom);
    let builtin = builtin_titles();
    if known.contains(name) {
        let k = known.index_of(name);
        if k < builtin.len() {
            assert(builtin[k] == name);
        } else {
            assert(custom[k - builtin.len()] == name);
        }
    }
    if builtin.contains(name) {
        let k = builtin.index_of(name);
        assert(known[k] == name);
    }
    if custom.contains(name) {
        let k = custom.index_of(name);
        assert(known[builtin.len() + k] == name);
    }
}

/// The two frameworks are told apart by their names; there is no other.
pub proof fn law_frameworks_are_told_apart(name: Seq<char>)
    ensures
        framework_of("diesel"@) == Some(Framework::Diesel),
        framework_of("sqlx"@) == Some(Framework::Sqlx),
        framework_of(name) is None <==> name != "diesel"@ && name != "sqlx"@,
{
    reveal_strlit("diesel");
    reveal_strlit("sqlx");
    assert("diesel"@.len() != "sqlx"@.len());
}

/// What a file fails with: the error of reading it, else that of the parser, else that of the directives;
/// an error in the SQL comes with the path and the text of the file.
pub proof fn law_failures_name_the_file(input: MigrationInput, err: DieselGuardError)
    requires
        fails_with(input, err),
    ensures
        input.sql is Err ==> err == input.sql->Err_0,
        input.sql is Ok && input.statements is Err && !(input.statements->Err_0 is ParseError)
            ==> err == input.statements->Err_0,
        input.sql is Ok && (input.statements is Ok || input.statements->Err_0 is ParseError) ==> {
            &&& err is ParseError
            &&& err->ParseError_src is Some
            &&& err->ParseError_src->0.name@ == input.path@
            &&& err->ParseError_src->0.source@ == input.sql->Ok_0@
            &&& err->ParseError_span is Some
        },
        input.sql is Ok && input.statements is Err && input.statements->Err_0 is ParseError
            ==> err->ParseError_msg@ == input.statements->Err_0->ParseError_msg@ && (
        input.statements->Err_0->ParseError_span is Some ==> err->ParseError_span
            == input.statements->Err_0->ParseError_span),
{
}

/// The warnings about scripts that were not loaded are their messages, in their order.
pub proof fn law_scripts_that_fail_are_warned_of(errors: Seq<ScriptError>, i: int)
    ensures
        script_messages(errors).len() == errors.len(),
        0 <= i < errors.len() ==> script_messages(errors)[i] == errors[i].message@,
{
}

/// What is wrong with a configuration is told by the error: the name that no check has, or the custom
/// check that cannot be used and why.
pub proof fn law_errors_name_the_check(
    err: ConfigError,
    fault: Fault,
    errors: Seq<ScriptError>,
    name: Seq<char>,
)
    requires
        is_error_of(err, fault, errors),
    ensures
        fault == Fault::Unknown(name) ==> err is InvalidCheckName
            && err->InvalidCheckName_invalid_name@ == name,
        fault == Fault::Conflict(name) ==> err is InvalidCustomCheck
            && err->InvalidCustomCheck_check_name@ == name && err->InvalidCustomCheck_reason@
            == "custom check name conflicts with a built-in check"@,
        fault == Fault::NotLoaded(name) ==> err is InvalidCustomCheck
            && err->InvalidCustomCheck_check_name@ == name && err->InvalidCustomCheck_reason@
            == reason_for(errors, name),
{
}

/// The warnings about disabled checks come in the order in which the names were first given, each name
/// that is not known once.
pub proof fn law_unknown_names_are_warned_of_in_order(
    disabled: Seq<Seq<char>>,
    name: Seq<char>,
    known: Seq<Seq<char>>,
    source: Seq<char>,
)
    ensures
        unknown_warnings(Seq::empty(), known, source).len() == 0,
        unknown_warnings(disabled.push(name), known, source) == if disabled.contains(name)
            || known.contains(name) {
            unknown_warnings(disabled, known, source)
        } else {
            unknown_warnings(disabled, known, source).push(
                "Warning: Unknown check name '"@ + name + "' in "@ + source
                    + ". Run list-checks to see available checks."@,
            )
        },
{
    law_names_keep_their_order(disabled, name);
    let f = unknown_warning(known, source);
    let before = without_repeats(disabled);
    assert(before.push(name).drop_last() =~= before);
    assert(before.push(name).filter_map(f) =~= match f(name) {
        Some(warning) => before.filter_map(f).push(warning),
        None => before.filter_map(f),
    });
    lemma_unknown_text(name, source);
}

proof fn lemma_unknown_text(name: Seq<char>, source: Seq<char>)
    ensures
        fill(UNKNOWN_CHECK_TEXT@, seq![name, source]) == "Warning: Unknown check name '"@ + name
            + "' in "@ + source + ". Run list-checks to see available checks."@,
{
    reveal_strlit(
        "Warning: Unknown check name '{0}' in {1}. Run list-checks to see available checks.",
    );
    reveal_strlit("Warning: Unknown check name '");
    reveal_strlit("' in ");
    reveal_strlit(". Run list-checks to see available checks.");
    let args = seq![name, source];
    let end = ". Run list-checks to see available checks."@;
    let rest = "' in "@ + (seq!['{', '1', '}'] + end);
    assert(UNKNOWN_CHECK_TEXT@ =~= "Warning: Unknown check name '"@ + (seq!['{', '0', '}'] + rest));
    law_holes_are_filled("Warning: Unknown check name '"@, '0', rest, args);
    law_holes_are_filled("' in "@, '1', end, args);
    law_plain_templates_stay(end, args);
    assert("Warning: Unknown check name '"@ + (name + ("' in "@ + (source + end)))
        =~= "Warning: Unknown check name '"@ + name + "' in "@ + source + end);
}

/// The warnings of a check are those about the names that the migration and its text disable, as they
/// stand there; those of a directory are the warnings of its files, file by file.
pub proof fn law_warnings_come_from_the_disabled_names(
    checker: SafetyChecker,
    sql: Seq<char>,
    found: Statements,
    ctx: ContextView,
    source: Seq<char>,
    inputs: Seq<MigrationInput>,
    input: MigrationInput,
)
    ensures
        checker.check_result(sql, found, ctx, source).warnings == unknown_warnings(
            ctx.disabled_checks + disabled_checks_of(sql),
            string_views(checker.known_check_names@),
            source,
        ),
        inputs.push(input).flat_map(checker.file_warnings()) == inputs.flat_map(
            checker.file_warnings(),
        ) + checker.check_result(
            input.sql->Ok_0@,
            input.statements->Ok_0,
            input.ctx@,
            fill(FILE_SOURCE@, seq![input.path@]),
        ).warnings,
{
    law_without_repeats_is_stable(ctx.disabled_checks + disabled_checks_of(sql));
    inputs.lemma_flat_map_push(checker.file_warnings(), input);
}

proof fn lemma_flat_map_holds<A, B>(s: Seq<A>, f: spec_fn(A) -> Seq<B>, i: int, x: B)
    requires
        0 <= i < s.len(),
        f(s[i]).contains(x),
    ensures
        s.flat_map(f).contains(x),
    decreases s.len(),
{
    let rest = s.drop_last();
    assert(rest.push(s.last()) =~= s);
    rest.lemma_flat_map_push(f, s.last());
    let before = rest.flat_map(f);
    if i < rest.len() {
        assert(rest[i] == s[i]);
        lemma_flat_map_holds(rest, f, i, x);
        let k = before.index_of(x);
        assert(s.flat_map(f)[k] == x);
    } else {
        let k = f(s[i]).index_of(x);
        assert(s.flat_map(f)[before.len() + k] == x);
    }
}

/// Whatever a check of the registry finds in a statement is reported on the line of the statement, with the
/// name of the check and its severity, unless the check is disabled for the migration or the statement
/// stands in a safety-assured block.
pub proof fn law_every_finding_is_reported(
    checker: SafetyChecker,
    sql: Seq<char>,
    found: Statements,
    ctx: ContextView,
    source: Seq<char>,
    i: int,
    j: int,
    k: int,
)
    requires
        lines(sql).len() <= usize::MAX,
        blocks(line_kinds(sql)) is Ok,
        0 <= i < found.stmts@.len(),
        found.stmts@[i].stmt is Some,
        forall|s: int, e: int| #[trigger]
            enclose(line_kinds(sql), s, e) ==> !(s < statement_line(
                found.stmts@[i],
                sql,
                found.token_starts@,
            ) < e),
        0 <= j < checker.registry.checks@.len(),
        !ctx.disabled_checks.contains(checker.registry.checks@[j].title()),
        !disabled_checks_of(sql).contains(checker.registry.checks@[j].title()),
        0 <= k < checker.registry.checks@[j].violations(
            found.stmts@[i].stmt->0,
            checker.config,
            ctx.disabling(disabled_checks_of(sql)),
        ).len(),
    ensures
        ({
            let check = checker.registry.checks@[j];
            let v = check.violations(
                found.stmts@[i].stmt->0,
                checker.config,
                ctx.disabling(disabled_checks_of(sql)),
            )[k];
            let warns = exists|m: int|
                0 <= m < checker.config.warn_checks@.len()
                    && #[trigger] checker.config.warn_checks@[m]@ == check.title();
            checker.check_result(sql, found, ctx, source).violations.contains(
                (
                    statement_line(found.stmts@[i], sql, found.token_starts@),
                    ViolationView {
                        operation: v.operation,
                        problem: v.problem,
                        safe_alternative: v.safe_alternative,
                        severity: if warns {
                            Severity::Warning
                        } else {
                            Severity::Error
                        },
                        check_name: check.title(),
                    },
                ),
            )
        }),
{
    let checks = checker.registry.checks@;
    let check = checks[j];
    let stmt = found.stmts@[i];
    let node = stmt.stmt->0;
    let all = ctx.disabling(disabled_checks_of(sql));
    let line = statement_line(stmt, sql, found.token_starts@);
    let ranges = blocks(line_kinds(sql))->Ok_0;
    law_directives_silence_the_checks_they_name(ctx, sql, check.title());
    law_blocks_lie_between_their_directives(line_kinds(sql), ranges, line as int);
    if is_assured(ranges, line) {
        let r = choose|r: int| 0 <= r < ranges.len() && (#[trigger] ranges[r]).covers(line as int);
        assert(ranges[r].start_line < line < ranges[r].end_line);
        let (s, e) = choose|s: int, e: int|
            s < line < e && #[trigger] enclose(line_kinds(sql), s, e);
        assert(enclose(line_kinds(sql), s, e));
    }
    let f = report_of(node, checker.config, all);
    let reported = f(check)[k];
    assert(f(check).contains(reported));
    lemma_flat_map_holds(checks, f, j, reported);
    let m = node_violations(checks, node, checker.config, all).index_of(reported);
    let g = statement_report(
        checks,
        sql,
        found.token_starts@,
        ranges,
        checker.config,
        all,
    );
    assert(g(stmt)[m] == (line, reported));
    assert(g(stmt).contains((line, reported)));
    lemma_flat_map_holds(found.stmts@, g, i, (line, reported));
}

/// Nothing else is reported: each violation was found by a check of the registry that is not disabled, in a
/// statement on the line that is given with it, outside safety-assured blocks.
pub proof fn law_only_findings_are_reported(
    checker: SafetyChecker,
    sql: Seq<char>,
    found: Statements,
    ctx: ContextView,
    source: Seq<char>,
    entry: (usize, ViolationView),
)
    requires
        checker.check_result(sql, found, ctx, source).violations.contains(entry),
    ensures
        exists|i: int, j: int, k: int|
            #![trigger checker.registry.checks@[j].violations(
                found.stmts@[i].stmt->0,
                checker.config,
                ctx.disabling(disabled_checks_of(sql)),
            )[k]]
            {
                let check = checker.registry.checks@[j];
                let all = check.violations(
                    found.stmts@[i].stmt->0,
                    checker.config,
                    ctx.disabling(disabled_checks_of(sql)),
                );
                &&& 0 <= i < found.stmts@.len()
                &&& 0 <= j < checker.registry.checks@.len()
                &&& 0 <= k < all.len()
                &&& found.stmts@[i].stmt is Some
                &&& entry.0 == statement_line(found.stmts@[i], sql, found.token_starts@)
                &&& entry.1.operation == all[k].operation
                &&& entry.1.problem == all[k].problem
                &&& entry.1.safe_alternative == all[k].safe_alternative
                &&& entry.1.check_name == check.title()
                &&& !ctx.disabled_checks.contains(check.title())
                &&& !disabled_checks_of(sql).contains(check.title())
            },
{
    let checks = checker.registry.checks@;
    let all = ctx.disabling(disabled_checks_of(sql));
    let ranges = blocks(line_kinds(sql))->Ok_0;
    let g = statement_report(
        checks,
        sql,
        found.token_starts@,
        ranges,
        checker.config,
        all,
    );
    lemma_flat_map_member(found.stmts@, g, entry);
    let i = choose|i: int|
        0 <= i < found.stmts@.len() && g(#[trigger] found.stmts@[i]).contains(entry);
    let stmt = found.stmts@[i];
    let node = stmt.stmt->0;
    let m = g(stmt).index_of(entry);
    assert(g(stmt)[m] == entry);
    let listed = node_violations(checks, node, checker.config, all);
    assert(listed[m] == entry.1);
    assert(listed.contains(entry.1));
    let f = report_of(node, checker.config, all);
    lemma_flat_map_member(checks, f, entry.1);
    let j = choose|j: int| 0 <= j < checks.len() && f(#[trigger] checks[j]).contains(entry.1);
    let k = f(checks[j]).index_of(entry.1);
    assert(f(checks[j])[k] == entry.1);
    let v = checks[j].violations(node, checker.config, all)[k];
    law_directives_silence_the_checks_they_name(ctx, sql, checks[j].title());
}

} // verus!
