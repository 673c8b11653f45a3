//! Migration framework adapters.

pub mod diesel;

use crate::config::{list_contains, lists};
use diesel::{MetadataFile, MigrationListing};
use crate::text::laws::law_numbers_are_digits;
use crate::text::{
    comes_before, digits_value, number, parse_number, string_views, text_before, to_chars,
};
use vstd::prelude::*;

verus! {

/// What is known of the migration that a statement belongs to.
#[derive(Debug, Clone)]
pub struct MigrationContext {
    /// Whether the migration runs inside a transaction.
    pub run_in_transaction: bool,
    /// How to opt out of transactions with the framework in use; empty if there is none.
    pub no_transaction_hint: &'static str,
    /// The checks that this migration disables.
    pub disabled_checks: Vec<String>,
}

/// The model of a context.
pub struct ContextView {
    pub run_in_transaction: bool,
    pub no_transaction_hint: Seq<char>,
    pub disabled_checks: Seq<Seq<char>>,
}

impl View for MigrationContext {
    type V = ContextView;

    open spec fn view(&self) -> ContextView {
        ContextView {
            run_in_transaction: self.run_in_transaction,
            no_transaction_hint: self.no_transaction_hint@,
            disabled_checks: string_views(self.disabled_checks@),
        }
    }
}

impl Default for MigrationContext {
    fn default() -> (r: MigrationContext)
        ensures
            r@ == ContextView::default_context(),
    {
        let r = MigrationContext {
            run_in_transaction: true,
            no_transaction_hint: "",
            disabled_checks: Vec::new(),
        };
        assert(r@.disabled_checks =~= Seq::<Seq<char>>::empty());
        r
    }
}

impl ContextView {
    /// The context of a migration that nothing is known of: it runs in a transaction.
    pub open spec fn default_context() -> ContextView {
        ContextView {
            run_in_transaction: true,
            no_transaction_hint: ""@,
            disabled_checks: Seq::empty(),
        }
    }

    /// The context with more checks disabled; none of them is listed twice.
    pub open spec fn disabling(self, names: Seq<Seq<char>>) -> ContextView {
        ContextView { disabled_checks: without_repeats(self.disabled_checks + names), ..self }
    }
}

/// A name added to a list that does not hold it yet.
pub open spec fn push_once(names: Seq<Seq<char>>, name: Seq<char>) -> Seq<Seq<char>> {
    if names.contains(name) {
        names
    } else {
        names.push(name)
    }
}

/// The names without repetitions: each stands where it comes first.
pub open spec fn without_repeats(names: Seq<Seq<char>>) -> Seq<Seq<char>>
    decreases names.len(),
{
    if names.len() == 0 {
        Seq::empty()
    } else {
        push_once(without_repeats(names.drop_last()), names.last())
    }
}

pub proof fn lemma_lists_contains(names: Seq<String>, name: Seq<char>)
    ensures
        lists(names, name) == string_views(names).contains(name),
{
    let all = string_views(names);
    if lists(names, name) {
        let i = choose|i: int| 0 <= i < names.len() && #[trigger] names[i]@ == name;
        assert(all[i] == name);
    }
    if all.contains(name) {
        let i = choose|i: int| 0 <= i < all.len() && all[i] == name;
        assert(names[i]@ == name);
    }
}

impl MigrationContext {
    /// Return a copy of this context with additional check names disabled.
    #[must_use]
    pub fn with_disabled_checks(&self, disabled_checks: &[String]) -> (r: MigrationContext)
        ensures
            r@ == self@.disabling(string_views(disabled_checks@)),
    {
        let ghost own = string_views(self.disabled_checks@);
        let ghost all = own + string_views(disabled_checks@);
        let mut ctx = MigrationContext {
            run_in_transaction: self.run_in_transaction,
            no_transaction_hint: self.no_transaction_hint,
            disabled_checks: Vec::new(),
        };
        let mut i: usize = 0;
        assert(string_views(ctx.disabled_checks@) =~= without_repeats(all.take(0)));
        while i < self.disabled_checks.len()
            invariant
                i <= self.disabled_checks.len(),
                own == string_views(self.disabled_checks@),
                all == own + string_views(disabled_checks@),
                ctx.run_in_transaction == self.run_in_transaction,
                ctx.no_transaction_hint == self.no_transaction_hint,
                string_views(ctx.disabled_checks@) == without_repeats(all.take(i as int)),
            decreases self.disabled_checks.len() - i,
        {
            ctx.push_disabled_check_once(self.disabled_checks[i].as_str());
            proof {
                assert(all.take(i + 1).drop_last() =~= all.take(i as int));
                assert(all.take(i + 1).last() == self.disabled_checks@[i as int]@);
            }
            i += 1;
        }
        let mut k: usize = 0;
        while k < disabled_checks.len()
            invariant
                k <= disabled_checks.len(),
                own == string_views(self.disabled_checks@),
                all == own + string_views(disabled_checks@),
                ctx.run_in_transaction == self.run_in_transaction,
                ctx.no_transaction_hint == self.no_transaction_hint,
                string_views(ctx.disabled_checks@) == without_repeats(all.take(own.len() + k)),
            decreases disabled_checks.len() - k,
        {
            ctx.push_disabled_check_once(disabled_checks[k].as_str());
            proof {
                let n = own.len() + k;
                assert(all.take(n + 1).drop_last() =~= all.take(n as int));
                assert(all.take(n + 1).last() == disabled_checks@[k as int]@);
            }
            k += 1;
        }
        assert(all.take(all.len() as int) =~= all);
        ctx
    }

    fn push_disabled_check_once(&mut self, check_name: &str)
        ensures
            final(self).run_in_transaction == old(self).run_in_transaction,
            final(self).no_transaction_hint == old(self).no_transaction_hint,
            string_views(final(self).disabled_checks@) == push_once(
                string_views(old(self).disabled_checks@),
                check_name@,
            ),
    {
        proof {
            lemma_lists_contains(self.disabled_checks@, check_name@);
        }
        if !list_contains(&self.disabled_checks, check_name) {
            self.disabled_checks.push(check_name.to_string());
            assert(string_views(self.disabled_checks@) =~= string_views(
                old(self).disabled_checks@,
            ).push(check_name@));
        }
    }

    /// Return true when this migration disables a specific check.
    pub fn disables_check(&self, check_name: &str) -> (r: bool)
        ensures
            r == self@.disabled_checks.contains(check_name@),
    {
        proof {
            lemma_lists_contains(self.disabled_checks@, check_name@);
        }
        list_contains(&self.disabled_checks, check_name)
    }
}

/// No name is repeated in a list without repetitions, and it holds the same names.
pub proof fn law_without_repeats(names: Seq<Seq<char>>)
    ensures
        without_repeats(names).no_duplicates(),
        forall|name: Seq<char>|
            #![trigger without_repeats(names).contains(name)]
            #![trigger names.contains(name)]
            without_repeats(names).contains(name) == names.contains(name),
    decreases names.len(),
{
    if names.len() > 0 {
        let rest = names.drop_last();
        let done = without_repeats(rest);
        law_without_repeats(rest);
        assert forall|name: Seq<char>|
            without_repeats(names).contains(name) == names.contains(name) by {
            if names.contains(name) {
                let i = choose|i: int| 0 <= i < names.len() && names[i] == name;
                if i < rest.len() {
                    assert(rest[i] == name);
                    assert(rest.contains(name) == without_repeats(rest).contains(name));
                    let k = choose|k: int| 0 <= k < done.len() && done[k] == name;
                    assert(without_repeats(names)[k] == name);
                } else if !done.contains(name) {
                    assert(without_repeats(names)[done.len() as int] == name);
                }
            }
            if without_repeats(names).contains(name) {
                if done.contains(name) {
                    assert(rest.contains(name));
                    let i = choose|i: int| 0 <= i < rest.len() && rest[i] == name;
                    assert(names[i] == name);
                } else {
                    assert(names[names.len() - 1] == name);
                }
            }
        }
    }
}

/// A list without repetitions stays as it is: disabling the same checks twice changes nothing.
pub proof fn law_without_repeats_is_stable(names: Seq<Seq<char>>)
    ensures
        without_repeats(without_repeats(names)) == without_repeats(names),
{
    law_without_repeats(names);
    lemma_distinct_unchanged(without_repeats(names));
}

proof fn lemma_distinct_unchanged(names: Seq<Seq<char>>)
    requires
        names.no_duplicates(),
    ensures
        without_repeats(names) == names,
    decreases names.len(),
{
    if names.len() > 0 {
        let rest = names.drop_last();
        lemma_distinct_unchanged(rest);
        assert(!rest.contains(names.last()));
        assert(rest.push(names.last()) =~= names);
    } else {
        assert(without_repeats(names) =~= names);
    }
}

// ---------------------------------------------------------------------------
// Migration files
// ---------------------------------------------------------------------------

/// A migration file to check.
#[derive(Debug, Clone)]
pub struct MigrationFile {
    /// Path to the SQL file.
    pub path: String,
    /// Timestamp extracted from migration name.
    pub timestamp: String,
}

/// The model of a migration file.
pub struct MigrationFileView {
    pub path: Seq<char>,
    pub timestamp: Seq<char>,
}

impl View for MigrationFile {
    type V = MigrationFileView;

    open spec fn view(&self) -> MigrationFileView {
        MigrationFileView { path: self.path@, timestamp: self.timestamp@ }
    }
}

/// The model of a list of migration files.
pub open spec fn file_views(files: Seq<MigrationFile>) -> Seq<MigrationFileView> {
    files.map_values(|f: MigrationFile| f@)
}

impl MigrationFile {
    pub fn new(path: String, timestamp: String) -> (r: MigrationFile)
        ensures
            r@ == (MigrationFileView { path: path@, timestamp: timestamp@ }),
    {
        MigrationFile { path, timestamp }
    }
}

/// A migration framework: how its migrations are found and what their names and metadata say. What each
/// method gives for a framework stands in its implementation.
pub trait MigrationAdapter: Send + Sync {
    /// The migration files to check, of those that were listed.
    fn collect_migration_files(
        &self,
        listing: &MigrationListing,
        start_after: Option<&str>,
        check_down: bool,
    ) -> Vec<MigrationFile>;

    /// The timestamp in the name of a migration, without separators.
    fn parse_timestamp(&self, name: &str) -> Option<String>;

    /// Whether a text is a timestamp of the framework; if not, what to say of it.
    fn validate_timestamp(&self, timestamp: &str) -> Result<(), String>;

    /// The context of a migration, from its metadata if there is any.
    fn extract_migration_metadata(&self, metadata: Option<MetadataFile>) -> MigrationContext;
}

// ---------------------------------------------------------------------------
// Timestamps
// ---------------------------------------------------------------------------

/// Whether a character parts the fields of a timestamp.
pub open spec fn is_separator(c: char) -> bool {
    c == '_' || c == '-'
}

/// A timestamp without its separators.
pub open spec fn normalized(timestamp: Seq<char>) -> Seq<char> {
    timestamp.filter(|c: char| !is_separator(c))
}

/// Removes the separators of a timestamp, as `normalized` says.
pub fn normalize_timestamp(timestamp: &str) -> (r: String)
    ensures
        r@ == normalized(timestamp@),
{
    broadcast use Seq::lemma_filter_push;

    let chars = to_chars(timestamp);
    let ghost keep = |c: char| !is_separator(c);
    let mut r = String::new();
    let mut i: usize = 0;
    assert(timestamp@.take(0) =~= Seq::<char>::empty());
    assert(r@ =~= timestamp@.take(0).filter(keep));
    while i < chars.len()
        invariant
            i <= chars.len(),
            chars@ == timestamp@,
            keep == (|c: char| !is_separator(c)),
            r@ == timestamp@.take(i as int).filter(keep),
        decreases chars.len() - i,
    {
        let c = chars[i];
        proof {
            let next = timestamp@.take(i + 1);
            assert(next =~= timestamp@.take(i as int).push(c));
            timestamp@.take(i as int).lemma_filter_push(c, keep);
        }
        if c != '_' && c != '-' {
            r.push(c);
        }
        i += 1;
    }
    assert(timestamp@.take(timestamp@.len() as int) =~= timestamp@);
    r
}

/// The number that a timestamp without separators stands for, if it is one that fits into 64 bits.
pub open spec fn numeric(timestamp: Seq<char>) -> Option<nat> {
    if timestamp.len() > 0 && timestamp[0] == '+' {
        number(timestamp.skip(1), i64::MAX as nat)
    } else {
        number(timestamp, i64::MAX as nat)
    }
}

fn numeric_value(timestamp: &str) -> (r: Option<u64>)
    ensures
        (match r {
            Some(n) => Some(n as nat),
            None => None,
        }) == numeric(timestamp@),
{
    let chars = to_chars(timestamp);
    let from: usize = if chars.len() > 0 && chars[0] == '+' {
        1
    } else {
        0
    };
    assert(chars@.subrange(from as int, chars@.len() as int) =~= timestamp@.skip(from as int));
    assert(timestamp@.skip(0) =~= timestamp@);
    parse_number(&chars, from, chars.len(), i64::MAX as u64)
}

/// Whether a timestamp comes after another. Two numbers compare as numbers, so that 10 comes after
/// 2; anything else compares as text. Separators do not count.
pub open spec fn comes_after(timestamp: Seq<char>, start: Seq<char>) -> bool {
    match (numeric(normalized(timestamp)), numeric(normalized(start))) {
        (Some(t), Some(s)) => t > s,
        _ => text_before(normalized(start), normalized(timestamp)),
    }
}

/// Check if migration should be checked based on start_after filter.
///
/// Returns true if the migration should be checked (timestamp is after the filter).
pub fn should_check_migration(start_after: Option<&str>, migration_timestamp: &str) -> (r: bool)
    ensures
        r == (start_after matches Some(start) ==> comes_after(migration_timestamp@, start@)),
{
    let Some(start) = start_after else {
        return true;
    };
    let start_normalized = normalize_timestamp(start);
    let migration_normalized = normalize_timestamp(migration_timestamp);
    match (
        numeric_value(migration_normalized.as_str()),
        numeric_value(start_normalized.as_str()),
    ) {
        (Some(mig), Some(start)) => mig > start,
        _ => comes_before(start_normalized.as_str(), migration_normalized.as_str()),
    }
}

proof fn lemma_text_before_asymmetric(a: Seq<char>, b: Seq<char>)
    ensures
        !(text_before(a, b) && text_before(b, a)),
    decreases a.len(),
{
    if a.len() > 0 && b.len() > 0 {
        lemma_text_before_asymmetric(a.skip(1), b.skip(1));
    }
}

/// Of two migrations at most one comes after the other, and none comes after itself.
pub proof fn law_comes_after_is_asymmetric(a: Seq<char>, b: Seq<char>)
    ensures
        !(comes_after(a, b) && comes_after(b, a)),
        !comes_after(a, a),
{
    lemma_text_before_asymmetric(normalized(a), normalized(b));
    lemma_text_before_asymmetric(normalized(a), normalized(a));
}

/// The separators in a timestamp make no difference to where it stands in the order.
pub proof fn law_separators_do_not_count(a: Seq<char>, b: Seq<char>)
    ensures
        normalized(normalized(a)) == normalized(a),
        comes_after(normalized(a), b) == comes_after(a, b),
        comes_after(a, normalized(b)) == comes_after(a, b),
{
    lemma_normalized_twice(a);
    lemma_normalized_twice(b);
}

proof fn lemma_normalized_twice(a: Seq<char>)
    ensures
        normalized(normalized(a)) == normalized(a),
    decreases a.len(),
{
    let keep = |c: char| !is_separator(c);
    reveal(Seq::filter);
    if a.len() > 0 {
        lemma_normalized_twice(a.drop_last());
        let rest = a.drop_last().filter(keep);
        if keep(a.last()) {
            assert(normalized(a) == rest.push(a.last()));
            assert(rest.push(a.last()).drop_last() =~= rest);
        }
    }
}

/// Separators are underscores and hyphens; without them a timestamp keeps its other characters, in
/// their order.
pub proof fn law_separators_are_left_out(a: Seq<char>, c: char)
    ensures
        normalized(Seq::empty()) == Seq::<char>::empty(),
        normalized(a.push(c)) == if c == '_' || c == '-' {
            normalized(a)
        } else {
            normalized(a).push(c)
        },
{
    reveal(Seq::filter);
    assert(a.push(c).drop_last() =~= a);
}

/// Whether a text is digits only, one or more of them.
pub open spec fn is_plain_number(s: Seq<char>) -> bool {
    s.len() > 0 && forall|i: int| 0 <= i < s.len() ==> '0' <= #[trigger] s[i] <= '9'
}

/// Two timestamps that are numbers once their separators are removed compare as these numbers: one
/// comes after the other exactly if its number is the larger one. So of two that differ as numbers
/// exactly one comes after the other, and of two that do not, none.
pub proof fn law_timestamps_compare_as_numbers(a: Seq<char>, b: Seq<char>)
    requires
        is_plain_number(normalized(a)),
        is_plain_number(normalized(b)),
        digits_value(normalized(a)) <= i64::MAX,
        digits_value(normalized(b)) <= i64::MAX,
    ensures
        comes_after(a, b) <==> digits_value(normalized(a)) > digits_value(normalized(b)),
        comes_after(b, a) <==> digits_value(normalized(b)) > digits_value(normalized(a)),
        !comes_after(a, b) && !comes_after(b, a) <==> digits_value(normalized(a)) == digits_value(
            normalized(b),
        ),
{
    lemma_plain_number(normalized(a));
    lemma_plain_number(normalized(b));
}

proof fn lemma_plain_number(s: Seq<char>)
    requires
        is_plain_number(s),
        digits_value(s) <= i64::MAX,
    ensures
        numeric(s) == Some(digits_value(s)),
{
    assert('0' <= s[0] <= '9');
    law_numbers_are_digits(s, i64::MAX as nat);
}

/// Of two numbers written with equally many digits the one with the larger digit at the first place
/// where they differ is the larger one, so it comes after the other.
pub proof fn law_the_first_larger_digit_decides(a: Seq<char>, b: Seq<char>, k: int)
    requires
        is_plain_number(normalized(a)),
        is_plain_number(normalized(b)),
        digits_value(normalized(a)) <= i64::MAX,
        digits_value(normalized(b)) <= i64::MAX,
        normalized(a).len() == normalized(b).len(),
        0 <= k < normalized(a).len(),
        forall|i: int| 0 <= i < k ==> #[trigger] normalized(a)[i] == #[trigger] normalized(b)[i],
        normalized(a)[k] > normalized(b)[k],
    ensures
        comes_after(a, b),
        !comes_after(b, a),
{
    law_timestamps_compare_as_numbers(a, b);
    lemma_larger_digit(normalized(a), normalized(b), k);
}

proof fn lemma_larger_digit(x: Seq<char>, y: Seq<char>, k: int)
    requires
        is_plain_number(x),
        is_plain_number(y),
        x.len() == y.len(),
        0 <= k < x.len(),
        forall|i: int| 0 <= i < k ==> #[trigger] x[i] == #[trigger] y[i],
        x[k] > y[k],
    ensures
        digits_value(x) > digits_value(y),
    decreases x.len(),
{
    let (p, q) = (x.drop_last(), y.drop_last());
    assert('0' <= x[x.len() - 1] <= '9');
    assert('0' <= y[y.len() - 1] <= '9');
    if k == x.len() - 1 {
        assert(p =~= q) by {
            assert forall|i: int| 0 <= i < p.len() implies p[i] == q[i] by {
                assert(x[i] == y[i]);
            }
        }
    } else {
        assert forall|i: int| 0 <= i < p.len() implies '0' <= #[trigger] p[i] <= '9' by {
            assert(p[i] == x[i]);
        }
        assert forall|i: int| 0 <= i < q.len() implies '0' <= #[trigger] q[i] <= '9' by {
            assert(q[i] == y[i]);
        }
        assert forall|i: int| 0 <= i < k implies #[trigger] p[i] == #[trigger] q[i] by {
            assert(x[i] == y[i]);
        }
        lemma_larger_digit(p, q, k);
    }
}

/// If one of two timestamps is no number that fits into 64 bits, they compare as texts without their
/// separators.
pub proof fn law_other_timestamps_compare_as_texts(a: Seq<char>, b: Seq<char>)
    requires
        ({
            let x = normalized(a);
            let y = normalized(b);
            ||| !(is_plain_number(x) && digits_value(x) <= i64::MAX) && (x.len() == 0 || x[0] != '+')
            ||| !(is_plain_number(y) && digits_value(y) <= i64::MAX) && (y.len() == 0 || y[0] != '+')
        }),
    ensures
        comes_after(a, b) <==> text_before(normalized(b), normalized(a)),
{
    law_numbers_are_digits(normalized(a), i64::MAX as nat);
    law_numbers_are_digits(normalized(b), i64::MAX as nat);
}

/// A plus sign before a number makes no difference.
pub proof fn law_a_plus_sign_does_not_count(s: Seq<char>)
    requires
        is_plain_number(s),
        digits_value(s) <= i64::MAX,
    ensures
        numeric(seq!['+'] + s) == Some(digits_value(s)),
{
    law_numbers_are_digits(s, i64::MAX as nat);
    assert((seq!['+'] + s).skip(1) =~= s);
}

/// Names that are disabled keep the order in which they were first given.
pub proof fn law_names_keep_their_order(names: Seq<Seq<char>>, name: Seq<char>)
    ensures
        without_repeats(Seq::empty()) == Seq::<Seq<char>>::empty(),
        without_repeats(names.push(name)) == if names.contains(name) {
            without_repeats(names)
        } else {
            without_repeats(names).push(name)
        },
{
    assert(names.push(name).drop_last() =~= names);
    law_without_repeats(names);
    assert(without_repeats(names).contains(name) == names.contains(name));
}

/// Without metadata a text is taken to run in a transaction, with nothing disabled.
pub proof fn law_the_default_context_is_a_transaction()
    ensures
        ContextView::default_context().run_in_transaction,
        ContextView::default_context().disabled_checks.len() == 0,
        ContextView::default_context().no_transaction_hint.len() == 0,
{
    reveal_strlit("");
}

} // verus!
