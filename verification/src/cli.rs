//! What the command line decides.

use crate::config::{Config, ConfigView};
use crate::formatters::{any_error, count_all, count_in, is_error, total, CheckInfo};
use crate::safety_checker::result_views;
use crate::text::same_text;
use crate::violation::{Severity, ViolationView};
use crate::ViolationList;
use vstd::prelude::*;

verus! {

/// The path that stands for the standard input.
pub const STDIN_PATH: &'static str = "-";

/// Where migrations are looked for if no path is given.
pub const DEFAULT_PATH: &'static str = "migrations";

/// What a path is to be read as.
#[derive(Debug, Clone, Copy, PartialEq, Eq, Structural)]
pub enum PathKind {
    Stdin,
    Directory,
    File,
}

/// What a path is to be read as, given whether it is a directory.
pub fn path_kind(path: &str, is_dir: bool) -> (r: PathKind)
    ensures
        r == if path@ == STDIN_PATH@ {
            PathKind::Stdin
        } else if is_dir {
            PathKind::Directory
        } else {
            PathKind::File
        },
{
    if same_text(path, STDIN_PATH) {
        PathKind::Stdin
    } else if is_dir {
        PathKind::Directory
    } else {
        PathKind::File
    }
}

/// The exit code of a check: 1 if there are errors, else 0. Warnings do not affect it.
pub open spec fn code_of(results: Seq<(Seq<char>, Seq<(usize, ViolationView)>)>) -> i32 {
    if count_all(results, Severity::Error) > 0 {
        1
    } else {
        0
    }
}

/// The exit code of a check, as `code_of` says.
pub fn exit_code(results: &Vec<(String, ViolationList)>) -> (r: i32)
    ensures
        r == code_of(result_views(results@)),
{
    if total(results, Severity::Error) > 0 {
        1
    } else {
        0
    }
}

/// The configuration with which all checks are listed and explained.
pub fn listing_config(config: &Config) -> (r: Config)
    ensures
        r@ == (ConfigView {
            disable_checks: Seq::empty(),
            enable_checks: Seq::empty(),
            ..config@
        }),
{
    let mut r = config.duplicate();
    r.disable_checks = Vec::new();
    r.enable_checks = Vec::new();
    assert(r@.disable_checks =~= Seq::<Seq<char>>::empty());
    assert(r@.enable_checks =~= Seq::<Seq<char>>::empty());
    r
}

/// The first of the checks from number `from` on that has a name.
pub open spec fn first_named(checks: Seq<CheckInfo>, name: Seq<char>, from: int) -> Option<int>
    decreases checks.len() - from,
{
    if from < 0 || from >= checks.len() {
        None
    } else if checks[from].name@ == name {
        Some(from)
    } else {
        first_named(checks, name, from + 1)
    }
}

/// The first check that has a name.
pub fn find_check<'a>(checks: &'a Vec<CheckInfo>, name: &str) -> (r: Option<&'a CheckInfo>)
    ensures
        match first_named(checks@, name@, 0) {
            Some(i) => r == Some(&checks@[i]),
            None => r is None,
        },
{
    let mut i: usize = 0;
    while i < checks.len()
        invariant
            i <= checks.len(),
            first_named(checks@, name@, 0) == first_named(checks@, name@, i as int),
        decreases checks.len() - i,
    {
        if same_text(checks[i].name.as_str(), name) {
            return Some(&checks[i]);
        }
        i += 1;
    }
    None
}

proof fn lemma_count_in(violations: Seq<(usize, ViolationView)>)
    ensures
        count_in(violations, Severity::Error) > 0 <==> any_error(violations),
    decreases violations.len(),
{
    if violations.len() > 0 {
        let before = violations.drop_last();
        lemma_count_in(before);
        if any_error(before) {
            let i = choose|i: int| 0 <= i < before.len() && is_error(#[trigger] before[i]);
            assert(is_error(violations[i]));
        }
        if is_error(violations.last()) {
            assert(is_error(violations[violations.len() - 1]));
        }
        if any_error(violations) {
            let i = choose|i: int| 0 <= i < violations.len() && is_error(#[trigger] violations[i]);
            if i < before.len() {
                assert(is_error(before[i]));
            }
        }
    }
}

/// A check fails exactly if some file has an error; warnings alone do not fail it.
pub proof fn law_only_errors_fail(results: Seq<(Seq<char>, Seq<(usize, ViolationView)>)>)
    ensures
        code_of(results) == 1 || code_of(results) == 0,
        code_of(results) == 1 <==> exists|i: int|
            0 <= i < results.len() && any_error((#[trigger] results[i]).1),
    decreases results.len(),
{
    if results.len() > 0 {
        let before = results.drop_last();
        law_only_errors_fail(before);
        lemma_count_in(results.last().1);
        if code_of(before) == 1 {
            let i = choose|i: int| 0 <= i < before.len() && any_error((#[trigger] before[i]).1);
            assert(any_error(results[i].1));
        }
        if any_error(results.last().1) {
            assert(any_error(results[results.len() - 1].1));
        }
        if code_of(before) == 0 && !any_error(results.last().1) {
            assert forall|i: int| 0 <= i < results.len() implies !any_error(
                (#[trigger] results[i]).1,
            ) by {
                if i < before.len() {
                    assert(!any_error(before[i].1));
                }
            }
        }
    }
}

/// The exit code is 1 exactly if some file has a violation that is an error, wherever it stands among
/// the files and among the violations of its file; otherwise it is 0.
pub proof fn law_every_error_fails(results: Seq<(Seq<char>, Seq<(usize, ViolationView)>)>)
    ensures
        code_of(results) == if exists|i: int, k: int|
            #![trigger results[i].1[k]]
            0 <= i < results.len() && 0 <= k < results[i].1.len() && results[i].1[k].1.severity
                == Severity::Error {
            1i32
        } else {
            0i32
        },
{
    law_only_errors_fail(results);
    if exists|i: int| 0 <= i < results.len() && any_error((#[trigger] results[i]).1) {
        let i = choose|i: int| 0 <= i < results.len() && any_error((#[trigger] results[i]).1);
        let list = results[i].1;
        let k = choose|k: int| 0 <= k < list.len() && is_error(#[trigger] list[k]);
        assert(results[i].1[k].1.severity == Severity::Error);
    }
    if exists|i: int, k: int|
        #![trigger results[i].1[k]]
        0 <= i < results.len() && 0 <= k < results[i].1.len() && results[i].1[k].1.severity
            == Severity::Error {
        let (i, k) = choose|i: int, k: int|
            #![trigger results[i].1[k]]
            0 <= i < results.len() && 0 <= k < results[i].1.len() && results[i].1[k].1.severity
                == Severity::Error;
        assert(is_error(results[i].1[k]));
        assert(any_error(results[i].1));
    }
}

/// A name is looked up among the checks in their order: the check found has the name and none before
/// it has; if none is found, no check has it.
pub proof fn law_checks_are_found_by_name(checks: Seq<CheckInfo>, name: Seq<char>, from: int)
    requires
        0 <= from <= checks.len(),
    ensures
        match first_named(checks, name, from) {
            Some(i) => from <= i < checks.len() && checks[i].name@ == name && forall|j: int|
                from <= j < i ==> (#[trigger] checks[j]).name@ != name,
            None => forall|j: int|
                from <= j < checks.len() ==> (#[trigger] checks[j]).name@ != name,
        },
    decreases checks.len() - from,
{
    if from < checks.len() && checks[from].name@ != name {
        law_checks_are_found_by_name(checks, name, from + 1);
    }
}

} // verus!
