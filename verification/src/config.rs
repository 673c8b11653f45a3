//! The configuration.

use crate::text::laws::{law_holes_are_filled, law_plain_templates_stay};
use crate::text::{
    copy_opt_text, copy_texts, fill, fill_template, opt_text, same_opt_text, same_text, same_texts,
    string_views, views,
};
use vstd::prelude::*;

verus! {

/// What `diesel-guard.toml` configures.
#[derive(Debug, Clone)]
pub struct Config {
    /// `diesel` or `sqlx`.
    pub framework: String,
    /// Checks that do not run.
    pub disable_checks: Vec<String>,
    /// If not empty, the only checks that run.
    pub enable_checks: Vec<String>,
    /// Checks whose violations are warnings.
    pub warn_checks: Vec<String>,
    /// The directory of custom check scripts.
    pub custom_checks_dir: Option<String>,
    /// Migrations up to this timestamp are not checked.
    pub start_after: Option<String>,
    /// Whether rollback migrations are checked too.
    pub check_down: bool,
    /// The major version of the target database.
    pub postgres_version: Option<u32>,
}

/// The model of a configuration.
pub struct ConfigView {
    pub framework: Seq<char>,
    pub disable_checks: Seq<Seq<char>>,
    pub enable_checks: Seq<Seq<char>>,
    pub warn_checks: Seq<Seq<char>>,
    pub custom_checks_dir: Option<Seq<char>>,
    pub start_after: Option<Seq<char>>,
    pub check_down: bool,
    pub postgres_version: Option<u32>,
}

impl View for Config {
    type V = ConfigView;

    open spec fn view(&self) -> ConfigView {
        ConfigView {
            framework: self.framework@,
            disable_checks: string_views(self.disable_checks@),
            enable_checks: string_views(self.enable_checks@),
            warn_checks: string_views(self.warn_checks@),
            custom_checks_dir: opt_text(self.custom_checks_dir),
            start_after: opt_text(self.start_after),
            check_down: self.check_down,
            postgres_version: self.postgres_version,
        }
    }
}

/// The configuration of a project that has no configuration file.
pub open spec fn default_config() -> ConfigView {
    ConfigView {
        framework: "diesel"@,
        disable_checks: Seq::empty(),
        enable_checks: Seq::empty(),
        warn_checks: Seq::empty(),
        custom_checks_dir: None,
        start_after: None,
        check_down: false,
        postgres_version: None,
    }
}

/// Whether a list of names holds a name.
pub open spec fn lists(names: Seq<String>, name: Seq<char>) -> bool {
    exists|i: int| 0 <= i < names.len() && #[trigger] names[i]@ == name
}

/// Looks a name up in a list, as `lists` says.
pub fn list_contains(names: &Vec<String>, name: &str) -> (r: bool)
    ensures
        r == lists(names@, name@),
{
    let mut i: usize = 0;
    while i < names.len()
        invariant
            i <= names.len(),
            forall|j: int| 0 <= j < i ==> #[trigger] names@[j]@ != name@,
        decreases names.len() - i,
    {
        if same_text(names[i].as_str(), name) {
            assert(names@[i as int]@ == name@);
            return true;
        }
        i += 1;
    }
    false
}

impl Default for Config {
    fn default() -> (r: Config)
        ensures
            r@ == default_config(),
    {
        let r = Config {
            framework: "diesel".to_string(),
            disable_checks: Vec::new(),
            enable_checks: Vec::new(),
            warn_checks: Vec::new(),
            custom_checks_dir: None,
            start_after: None,
            check_down: false,
            postgres_version: None,
        };
        assert(string_views(r.disable_checks@) =~= Seq::<Seq<char>>::empty());
        r
    }
}

impl Config {
    /// Whether two configurations say the same.
    pub fn same_as(&self, other: &Config) -> (r: bool)
        ensures
            r == (self@ == other@),
    {
        same_text(self.framework.as_str(), other.framework.as_str()) && same_texts(
            &self.disable_checks,
            &other.disable_checks,
        ) && same_texts(&self.enable_checks, &other.enable_checks) && same_texts(
            &self.warn_checks,
            &other.warn_checks,
        ) && same_opt_text(&self.custom_checks_dir, &other.custom_checks_dir) && same_opt_text(
            &self.start_after,
            &other.start_after,
        ) && self.check_down == other.check_down && same_version(
            self.postgres_version,
            other.postgres_version,
        )
    }

    /// A configuration that says the same.
    pub fn duplicate(&self) -> (r: Config)
        ensures
            r@ == self@,
    {
        Config {
            framework: self.framework.clone(),
            disable_checks: copy_texts(&self.disable_checks),
            enable_checks: copy_texts(&self.enable_checks),
            warn_checks: copy_texts(&self.warn_checks),
            custom_checks_dir: copy_opt_text(&self.custom_checks_dir),
            start_after: copy_opt_text(&self.start_after),
            check_down: self.check_down,
            postgres_version: self.postgres_version,
        }
    }

    /// Whether a check runs: `enable_checks` is empty or lists it, and `disable_checks` does not.
    pub open spec fn enables(&self, name: Seq<char>) -> bool {
        (self.enable_checks@.len() == 0 || lists(self.enable_checks@, name)) && !lists(
            self.disable_checks@,
            name,
        )
    }

    pub fn is_check_enabled(&self, name: &str) -> (r: bool)
        ensures
            r == self.enables(name@),
    {
        (self.enable_checks.len() == 0 || list_contains(&self.enable_checks, name))
            && !list_contains(&self.disable_checks, name)
    }

    /// Whether the violations of a check are warnings.
    pub fn is_check_warning(&self, name: &str) -> (r: bool)
        ensures
            r == lists(self.warn_checks@, name@),
    {
        list_contains(&self.warn_checks, name)
    }
}

fn same_version(a: Option<u32>, b: Option<u32>) -> (r: bool)
    ensures
        r == (a == b),
{
    match (a, b) {
        (Some(a), Some(b)) => a == b,
        (None, None) => true,
        _ => false,
    }
}

/// What is wrong with a configuration.
#[derive(Debug, Clone)]
pub enum ConfigError {
    /// A list of checks names one that does not exist.
    InvalidCheckName { invalid_name: String },
    /// A custom check cannot be used.
    InvalidCustomCheck { check_name: String, reason: String },
    /// The framework is neither Diesel nor SQLx.
    InvalidFramework { framework: String },
    /// `start_after` is not a timestamp of the framework.
    InvalidTimestampFormat(String),
    /// The custom checks exceed a limit.
    CustomChecksTooLarge { message: String },
    /// The configuration file exceeds the limit.
    ConfigTooLarge { message: String },
    /// The configuration file cannot be used: it is unreadable or malformed.
    InvalidFile { message: String },
}

/// How an unknown check name is displayed.
pub const INVALID_CHECK_NAME_TEXT: &'static str = "Invalid check name: {0}";

/// How an unusable custom check is displayed.
pub const INVALID_CUSTOM_CHECK_TEXT: &'static str = "Invalid custom check {0}: {1}";

/// How an unknown framework is displayed.
pub const INVALID_FRAMEWORK_TEXT: &'static str =
    "Invalid framework \"{0}\". Expected \"diesel\" or \"sqlx\".";

impl ConfigError {
    /// The text that is displayed for an error.
    pub open spec fn displayed(self) -> Seq<char> {
        match self {
            ConfigError::InvalidCheckName { invalid_name } => fill(
                INVALID_CHECK_NAME_TEXT@,
                seq![invalid_name@],
            ),
            ConfigError::InvalidCustomCheck { check_name, reason } => fill(
                INVALID_CUSTOM_CHECK_TEXT@,
                seq![check_name@, reason@],
            ),
            ConfigError::InvalidFramework { framework } => fill(
                INVALID_FRAMEWORK_TEXT@,
                seq![framework@],
            ),
            ConfigError::InvalidTimestampFormat(message) => message@,
            ConfigError::CustomChecksTooLarge { message } => message@,
            ConfigError::ConfigTooLarge { message } => message@,
            ConfigError::InvalidFile { message } => message@,
        }
    }

    /// The text of the error, as `displayed` says.
    pub fn message(&self) -> (r: String)
        ensures
            r@ == self.displayed(),
    {
        match self {
            ConfigError::InvalidCheckName { invalid_name } => {
                let args: Vec<&str> = vec![invalid_name.as_str()];
                assert(views(args@) =~= seq![invalid_name@]);
                fill_template(INVALID_CHECK_NAME_TEXT, &args)
            },
            ConfigError::InvalidCustomCheck { check_name, reason } => {
                let args: Vec<&str> = vec![check_name.as_str(), reason.as_str()];
                assert(views(args@) =~= seq![check_name@, reason@]);
                fill_template(INVALID_CUSTOM_CHECK_TEXT, &args)
            },
            ConfigError::InvalidFramework { framework } => {
                let args: Vec<&str> = vec![framework.as_str()];
                assert(views(args@) =~= seq![framework@]);
                fill_template(INVALID_FRAMEWORK_TEXT, &args)
            },
            ConfigError::InvalidTimestampFormat(message) => message.clone(),
            ConfigError::CustomChecksTooLarge { message } => message.clone(),
            ConfigError::ConfigTooLarge { message } => message.clone(),
            ConfigError::InvalidFile { message } => message.clone(),
        }
    }
}

/// A check runs exactly if no list of enabled checks is given or it is listed there, and it is not listed
/// among the disabled ones.
pub proof fn law_lists_enable_checks(config: Config, name: Seq<char>)
    ensures
        config.enables(name) <==> {
            &&& config.enable_checks@.len() > 0 ==> exists|k: int|
                0 <= k < config.enable_checks@.len() && #[trigger] config.enable_checks@[k]@ == name
            &&& forall|k: int|
                0 <= k < config.disable_checks@.len() ==> #[trigger] config.disable_checks@[k]@
                    != name
        },
{
}

/// Without a configuration file all checks run and report errors, no migration is left out, `down.sql`
/// is not checked, and the framework is Diesel.
pub proof fn law_the_default_checks_everything(config: Config, name: Seq<char>)
    requires
        config@ == default_config(),
    ensures
        config.enables(name),
        !lists(config.warn_checks@, name),
        config.framework@ == "diesel"@,
        config.start_after is None,
        config.custom_checks_dir is None,
        config.postgres_version is None,
        !config.check_down,
{
    assert(config.enable_checks@.len() == config@.enable_checks.len());
    assert(config.disable_checks@.len() == config@.disable_checks.len());
    assert(config.warn_checks@.len() == config@.warn_checks.len());
}

/// A list holds a name exactly if one of its entries is that name.
pub proof fn law_lists_hold_their_entries(names: Seq<String>, name: Seq<char>)
    ensures
        lists(names, name) <==> exists|k: int| 0 <= k < names.len() && #[trigger] names[k]@ == name,
{
}

/// An error is displayed with the name that is at fault, and why.
pub proof fn law_errors_are_displayed_with_the_name(err: ConfigError)
    ensures
        err is InvalidCheckName ==> err.displayed() == "Invalid check name: "@
            + err->InvalidCheckName_invalid_name@,
        err is InvalidCustomCheck ==> err.displayed() == "Invalid custom check "@
            + err->InvalidCustomCheck_check_name@ + ": "@ + err->InvalidCustomCheck_reason@,
        err is InvalidFramework ==> err.displayed() == "Invalid framework \""@
            + err->InvalidFramework_framework@ + "\". Expected \"diesel\" or \"sqlx\"."@,
        err is InvalidTimestampFormat ==> err.displayed() == err->InvalidTimestampFormat_0@,
        err is CustomChecksTooLarge ==> err.displayed() == err->CustomChecksTooLarge_message@,
        err is ConfigTooLarge ==> err.displayed() == err->ConfigTooLarge_message@,
        err is InvalidFile ==> err.displayed() == err->InvalidFile_message@,
{
    let none = Seq::<char>::empty();
    if err is InvalidCheckName {
        reveal_strlit("Invalid check name: {0}");
        reveal_strlit("Invalid check name: ");
        let name = err->InvalidCheckName_invalid_name@;
        assert(INVALID_CHECK_NAME_TEXT@ =~= "Invalid check name: "@ + (seq!['{', '0', '}'] + none));
        law_holes_are_filled("Invalid check name: "@, '0', none, seq![name]);
        law_plain_templates_stay(none, seq![name]);
        assert("Invalid check name: "@ + (name + none) =~= "Invalid check name: "@ + name);
    }
    if err is InvalidCustomCheck {
        reveal_strlit("Invalid custom check {0}: {1}");
        reveal_strlit("Invalid custom check ");
        reveal_strlit(": ");
        let name = err->InvalidCustomCheck_check_name@;
        let reason = err->InvalidCustomCheck_reason@;
        let args = seq![name, reason];
        let rest = ": "@ + (seq!['{', '1', '}'] + none);
        assert(INVALID_CUSTOM_CHECK_TEXT@ =~= "Invalid custom check "@ + (seq!['{', '0', '}']
            + rest));
        law_holes_are_filled("Invalid custom check "@, '0', rest, args);
        law_holes_are_filled(": "@, '1', none, args);
        law_plain_templates_stay(none, args);
        assert("Invalid custom check "@ + (name + (": "@ + (reason + none)))
            =~= "Invalid custom check "@ + name + ": "@ + reason);
    }
    if err is InvalidFramework {
        reveal_strlit("Invalid framework \"{0}\". Expected \"diesel\" or \"sqlx\".");
        reveal_strlit("Invalid framework \"");
        reveal_strlit("\". Expected \"diesel\" or \"sqlx\".");
        let name = err->InvalidFramework_framework@;
        let end = "\". Expected \"diesel\" or \"sqlx\"."@;
        assert(INVALID_FRAMEWORK_TEXT@ =~= "Invalid framework \""@ + (seq!['{', '0', '}'] + end));
        law_holes_are_filled("Invalid framework \""@, '0', end, seq![name]);
        law_plain_templates_stay(end, seq![name]);
        assert("Invalid framework \""@ + (name + end) =~= "Invalid framework \""@ + name + end);
    }
}

} // verus!
