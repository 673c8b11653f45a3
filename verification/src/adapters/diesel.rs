//! Diesel migration adapter.
//!
//! Supports Diesel's directory-based migration structure:
//! ```text
//! migrations/
//! └── 2024_01_01_000000_create_users/
//!     ├── up.sql
//!     └── down.sql
//! ```

use super::{
    comes_after, file_views, normalize_timestamp, normalized, should_check_migration,
    ContextView, MigrationAdapter, MigrationContext, MigrationFile, MigrationFileView,
};
use crate::pattern::{regex_capture, Pattern, DIESEL_TIMESTAMP};
use crate::text::{
    comes_before, fill, fill_template, law_text_order_is_irreflexive, law_text_order_is_total,
    law_text_order_is_transitive, opt_str, opt_text, same_text, string_views, text_before, views,
};
use vstd::prelude::*;

verus! {

/// How to run a Diesel migration outside a transaction.
pub const NO_TRANSACTION_HINT: &'static str =
    "Create `metadata.toml` in the migration directory with `run_in_transaction = false`.";

/// What is said of a timestamp in another format.
pub const INVALID_TIMESTAMP_TEXT: &'static str =
    "Invalid Diesel timestamp format: {0}. Expected: YYYYMMDDHHMMSS, YYYY_MM_DD_HHMMSS, or YYYY-MM-DD-HHMMSS";

/// Diesel migration adapter.
pub struct DieselAdapter;

/// What a `metadata.toml` says.
#[derive(Debug, Clone, Default)]
pub struct MetadataFile {
    pub run_in_transaction: Option<bool>,
    pub disable_checks: Vec<String>,
}

/// A migration directory and the paths of those of its SQL files that exist.
#[derive(Debug, Clone, Default)]
pub struct MigrationDir {
    /// The last component of the path, if there is one.
    pub name: Option<String>,
    pub up_sql: Option<String>,
    pub down_sql: Option<String>,
}

/// An entry of the migrations directory.
#[derive(Debug, Clone)]
pub enum MigrationEntry {
    Directory(MigrationDir),
    File { path: String, name: String, extension: Option<String> },
}

/// What a path holds: the files of one migration, or migrations in the order of their paths.
#[derive(Debug, Clone)]
pub enum MigrationListing {
    Single(MigrationDir),
    Entries(Vec<MigrationEntry>),
}

/// The timestamp at the start of a name, without its separators. It is the whole match: the group of
/// the expression encloses all of it.
pub open spec fn timestamp_of(name: Seq<char>) -> Option<Seq<char>> {
    match regex_capture(DIESEL_TIMESTAMP@, name, 0) {
        Some(captured) => Some(normalized(captured)),
        None => None,
    }
}

/// Whether a text is a timestamp from start to end.
pub open spec fn is_timestamp(text: Seq<char>) -> bool {
    regex_capture(DIESEL_TIMESTAMP@, text, 0) == Some(text)
}

/// Whether a migration passes the `start_after` filter.
pub open spec fn passes(start_after: Option<Seq<char>>, timestamp: Seq<char>) -> bool {
    start_after matches Some(start) ==> comes_after(timestamp, start)
}

/// The files of a migration directory that are checked, given the timestamp found in its name: none
/// if the migration does not pass the filter, else `up.sql` and, if asked for, `down.sql`. Without a
/// timestamp the name stands for it.
pub open spec fn directory_files(
    dir: MigrationDir,
    parsed: Option<Seq<char>>,
    start_after: Option<Seq<char>>,
    check_down: bool,
) -> Seq<MigrationFileView> {
    match dir.name {
        Some(name) => {
            let timestamp = match parsed {
                Some(t) => t,
                None => name@,
            };
            if !passes(start_after, timestamp) {
                Seq::empty()
            } else {
                (match dir.up_sql {
                    Some(path) => seq![MigrationFileView { path: path@, timestamp }],
                    None => Seq::empty(),
                }) + (match dir.down_sql {
                    Some(path) if check_down => seq![MigrationFileView { path: path@, timestamp }],
                    _ => Seq::empty(),
                })
            }
        },
        None => Seq::empty(),
    }
}

/// What is checked of a single file, given the timestamp found in its name: the file if it is an SQL
/// file and its timestamp, if it has one, passes the filter.
pub open spec fn single_file(
    path: Seq<char>,
    name: Seq<char>,
    extension: Option<String>,
    parsed: Option<Seq<char>>,
    start_after: Option<Seq<char>>,
) -> Seq<MigrationFileView> {
    if !(extension matches Some(e) && e@ == "sql"@) {
        Seq::empty()
    } else {
        match parsed {
            Some(t) => if passes(start_after, t) {
                seq![MigrationFileView { path, timestamp: t }]
            } else {
                Seq::empty()
            },
            None => seq![MigrationFileView { path, timestamp: name }],
        }
    }
}

/// The files of an entry that are checked.
pub open spec fn entry_files(start_after: Option<Seq<char>>, check_down: bool) -> spec_fn(
    MigrationEntry,
) -> Seq<MigrationFileView> {
    |entry: MigrationEntry|
        match entry {
            MigrationEntry::Directory(dir) => directory_files(
                dir,
                (match dir.name {
                    Some(name) => timestamp_of(name@),
                    None => None,
                }),
                start_after,
                check_down,
            ),
            MigrationEntry::File { path, name, extension } => single_file(
                path@,
                name@,
                extension,
                timestamp_of(name@),
                start_after,
            ),
        }
}

/// The files that are checked. The filter does not apply to a single migration.
pub open spec fn migration_files(
    listing: MigrationListing,
    start_after: Option<Seq<char>>,
    check_down: bool,
) -> Seq<MigrationFileView> {
    match listing {
        MigrationListing::Single(dir) => entry_files(None, check_down)(
            MigrationEntry::Directory(dir),
        ),
        MigrationListing::Entries(entries) => entries@.flat_map(
            entry_files(start_after, check_down),
        ),
    }
}

/// Selects the files of a migration directory, as `directory_files` says.
pub fn select_directory_files(
    dir: &MigrationDir,
    parsed: Option<String>,
    start_after: Option<&str>,
    check_down: bool,
) -> (r: Vec<MigrationFile>)
    ensures
        file_views(r@) == directory_files(*dir, opt_text(parsed), opt_str(start_after), check_down),
{
    let mut files: Vec<MigrationFile> = Vec::new();
    assert(file_views(files@) =~= Seq::<MigrationFileView>::empty());
    let Some(name) = &dir.name else {
        return files;
    };
    let timestamp = match parsed {
        Some(t) => t,
        None => name.clone(),
    };
    if !should_check_migration(start_after, timestamp.as_str()) {
        return files;
    }
    // Always check up.sql if it exists
    if let Some(path) = &dir.up_sql {
        files.push(MigrationFile::new(path.clone(), timestamp.clone()));
    }
    let ghost up = match &dir.up_sql {
        Some(path) => seq![MigrationFileView { path: path@, timestamp: timestamp@ }],
        None => Seq::empty(),
    };
    assert(file_views(files@) =~= up);
    // Check down.sql only if asked for
    if check_down {
        if let Some(path) = &dir.down_sql {
            files.push(MigrationFile::new(path.clone(), timestamp.clone()));
            assert(file_views(files@) =~= up + seq![
                MigrationFileView { path: path@, timestamp: timestamp@ },
            ]);
        }
    }
    assert(up + Seq::<MigrationFileView>::empty() =~= up);
    files
}

/// Selects a single file, as `single_file` says.
pub fn select_file(
    path: &str,
    name: &str,
    extension: &Option<String>,
    parsed: Option<String>,
    start_after: Option<&str>,
) -> (r: Vec<MigrationFile>)
    ensures
        file_views(r@) == single_file(
            path@,
            name@,
            *extension,
            opt_text(parsed),
            opt_str(start_after),
        ),
{
    let mut files: Vec<MigrationFile> = Vec::new();
    assert(file_views(files@) =~= Seq::<MigrationFileView>::empty());
    let is_sql = match extension {
        Some(e) => same_text(e.as_str(), "sql"),
        None => false,
    };
    if !is_sql {
        return files;
    }
    if let Some(t) = &parsed {
        if !should_check_migration(start_after, t.as_str()) {
            return files;
        }
    }
    let timestamp = match parsed {
        Some(t) => t,
        None => name.to_string(),
    };
    files.push(MigrationFile::new(path.to_string(), timestamp));
    assert(file_views(files@) =~= seq![
        MigrationFileView { path: path@, timestamp: timestamp@ },
    ]);
    files
}

/// The context that a `metadata.toml` gives to a migration, if there is one: it runs in a
/// transaction unless the file says otherwise.
pub open spec fn context_of(metadata: Option<MetadataFile>) -> ContextView {
    ContextView {
        run_in_transaction: !(metadata matches Some(m) && m.run_in_transaction == Some(false)),
        no_transaction_hint: NO_TRANSACTION_HINT@,
        disabled_checks: match metadata {
            Some(m) => string_views(m.disable_checks@),
            None => Seq::empty(),
        },
    }
}

impl MigrationAdapter for DieselAdapter {
    /// Selects the migration files to check, as `migration_files` says.
    fn collect_migration_files(
        &self,
        listing: &MigrationListing,
        start_after: Option<&str>,
        check_down: bool,
    ) -> (r: Vec<MigrationFile>)
        ensures
            file_views(r@) == migration_files(*listing, opt_str(start_after), check_down),
    {
        match listing {
            MigrationListing::Single(dir) => self.process_migration_directory(dir, None, check_down),
            MigrationListing::Entries(entries) => {
                let ghost f = entry_files(opt_str(start_after), check_down);
                let mut files: Vec<MigrationFile> = Vec::new();
                let mut i: usize = 0;
                assert(file_views(files@) =~= entries@.take(0).flat_map(f));
                while i < entries.len()
                    invariant
                        i <= entries.len(),
                        f == entry_files(opt_str(start_after), check_down),
                        file_views(files@) == entries@.take(i as int).flat_map(f),
                    decreases entries.len() - i,
                {
                    let ghost before = files@;
                    let mut selected = match &entries[i] {
                        MigrationEntry::Directory(dir) => self.process_migration_directory(
                            dir,
                            start_after,
                            check_down,
                        ),
                        MigrationEntry::File { path, name, extension } => {
                            let parsed = self.parse_timestamp(name.as_str());
                            select_file(
                                path.as_str(),
                                name.as_str(),
                                extension,
                                parsed,
                                start_after,
                            )
                        },
                    };
                    let ghost added = selected@;
                    files.append(&mut selected);
                    proof {
                        entries@.lemma_flat_map_take_append(f, i as int);
                        assert(file_views(files@) =~= file_views(before) + file_views(added));
                    }
                    i += 1;
                }
                assert(entries@.take(entries@.len() as int) =~= entries@);
                files
            },
        }
    }

    /// The timestamp at the start of a name, without separators.
    fn parse_timestamp(&self, name: &str) -> (r: Option<String>)
        ensures
            opt_text(r) == timestamp_of(name@),
    {
        match Pattern::new(DIESEL_TIMESTAMP).capture(name, 0) {
            Some(captured) => Some(normalize_timestamp(captured.as_str())),
            None => None,
        }
    }

    /// Whether a text is a timestamp from start to end; if not, what to say of it.
    fn validate_timestamp(&self, timestamp: &str) -> (r: Result<(), String>)
        ensures
            r is Ok <==> is_timestamp(timestamp@),
            r matches Err(message) ==> message@ == fill(INVALID_TIMESTAMP_TEXT@, seq![timestamp@]),
    {
        if let Some(matched) = Pattern::new(DIESEL_TIMESTAMP).capture(timestamp, 0) {
            if same_text(matched.as_str(), timestamp) {
                return Ok(());
            }
        }
        let args: Vec<&str> = vec![timestamp];
        assert(views(args@) =~= seq![timestamp@]);
        Err(fill_template(INVALID_TIMESTAMP_TEXT, &args))
    }

    /// The context of a migration, from its `metadata.toml` if there is one.
    fn extract_migration_metadata(&self, metadata: Option<MetadataFile>) -> (r: MigrationContext)
        ensures
            r@ == context_of(metadata),
    {
        match metadata {
            Some(m) => {
                let run_in_transaction = match m.run_in_transaction {
                    Some(b) => b,
                    None => true,
                };
                MigrationContext {
                    run_in_transaction,
                    no_transaction_hint: NO_TRANSACTION_HINT,
                    disabled_checks: m.disable_checks,
                }
            },
            None => {
                let disabled_checks: Vec<String> = Vec::new();
                assert(string_views(disabled_checks@) =~= Seq::<Seq<char>>::empty());
                MigrationContext {
                    run_in_transaction: true,
                    no_transaction_hint: NO_TRANSACTION_HINT,
                    disabled_checks,
                }
            },
        }
    }
}

impl DieselAdapter {
    /// Process a Diesel migration directory and return SQL files to check.
    pub fn process_migration_directory(
        &self,
        dir: &MigrationDir,
        start_after: Option<&str>,
        check_down: bool,
    ) -> (r: Vec<MigrationFile>)
        ensures
            file_views(r@) == entry_files(opt_str(start_after), check_down)(
                MigrationEntry::Directory(*dir),
            ),
    {
        let parsed = match &dir.name {
            Some(name) => self.parse_timestamp(name.as_str()),
            None => None,
        };
        select_directory_files(dir, parsed, start_after, check_down)
    }
}

// ---------------------------------------------------------------------------
// The order of entries
// ---------------------------------------------------------------------------

/// The name of an entry of the migrations directory.
pub open spec fn entry_name(entry: MigrationEntry) -> Seq<char> {
    match entry {
        MigrationEntry::Directory(dir) => match dir.name {
            Some(name) => name@,
            None => Seq::empty(),
        },
        MigrationEntry::File { name, .. } => name@,
    }
}

/// Whether entries stand in the order of their names.
pub open spec fn sorted_by_name(entries: Seq<MigrationEntry>) -> bool {
    forall|i: int, j: int|
        0 <= i < j < entries.len() ==> !text_before(
            entry_name(#[trigger] entries[j]),
            entry_name(#[trigger] entries[i]),
        )
}

fn goes_before(a: &MigrationEntry, b: &MigrationEntry) -> (r: bool)
    ensures
        r == text_before(entry_name(*a), entry_name(*b)),
{
    let none = String::new();
    assert(none@ =~= Seq::<char>::empty());
    let x = match a {
        MigrationEntry::Directory(dir) => match &dir.name {
            Some(name) => name.as_str(),
            None => none.as_str(),
        },
        MigrationEntry::File { name, .. } => name.as_str(),
    };
    let y = match b {
        MigrationEntry::Directory(dir) => match &dir.name {
            Some(name) => name.as_str(),
            None => none.as_str(),
        },
        MigrationEntry::File { name, .. } => name.as_str(),
    };
    comes_before(x, y)
}

proof fn lemma_inserted(entries: Seq<MigrationEntry>, at: int, added: MigrationEntry)
    requires
        sorted_by_name(entries),
        0 <= at <= entries.len(),
        forall|i: int|
            0 <= i < at ==> !text_before(entry_name(added), entry_name(#[trigger] entries[i])),
        at < entries.len() ==> text_before(entry_name(added), entry_name(entries[at])),
    ensures
        sorted_by_name(entries.insert(at, added)),
        entries.insert(at, added).to_multiset() == entries.to_multiset().insert(added),
{
    broadcast use vstd::seq_lib::group_to_multiset_ensures;

    let all = entries.insert(at, added);
    assert forall|i: int, j: int| 0 <= i < j < all.len() implies !text_before(
        entry_name(#[trigger] all[j]),
        entry_name(#[trigger] all[i]),
    ) by {
        if j < at {
            assert(all[j] == entries[j] && all[i] == entries[i]);
        } else if j == at {
            assert(all[i] == entries[i]);
        } else {
            assert(all[j] == entries[j - 1]);
            if i < at {
                assert(all[i] == entries[i]);
            } else if i == at {
                if text_before(entry_name(all[j]), entry_name(added)) {
                    law_text_order_is_transitive(
                        entry_name(all[j]),
                        entry_name(added),
                        entry_name(entries[at]),
                    );
                    if j - 1 == at {
                        law_text_order_is_irreflexive(entry_name(entries[at]));
                    } else {
                        assert(!text_before(entry_name(entries[j - 1]), entry_name(entries[at])));
                    }
                }
            } else {
                assert(all[i] == entries[i - 1]);
            }
        }
    }
    assert(all[at] == added);
    assert(all.remove(at) =~= entries);
    assert(all.contains(added));
    assert(all.to_multiset().count(added) > 0);
    assert(all.to_multiset() =~= entries.to_multiset().insert(added));
}

/// The same entries in the order of their names.
pub fn sort_entries(entries: Vec<MigrationEntry>) -> (r: Vec<MigrationEntry>)
    ensures
        sorted_by_name(r@),
        r@.to_multiset() == entries@.to_multiset(),
{
    let ghost all = entries@;
    let mut r: Vec<MigrationEntry> = Vec::new();
    assert(all.take(0) =~= r@);
    for entry in it: entries
        invariant
            it.seq() == all,
            sorted_by_name(r@),
            r@.to_multiset() == all.take(it.index()).to_multiset(),
    {
        let ghost k = it.index();
        let ghost before = r@;
        let mut at: usize = 0;
        while at < r.len() && !goes_before(&entry, &r[at])
            invariant
                at <= r.len(),
                forall|i: int|
                    0 <= i < at ==> !text_before(entry_name(entry), entry_name(#[trigger] r@[i])),
            decreases r.len() - at,
        {
            at += 1;
        }
        proof {
            lemma_inserted(r@, at as int, entry);
            broadcast use vstd::seq_lib::group_to_multiset_ensures;

            assert(all.take(k + 1) =~= all.take(k).push(entry));
        }
        r.insert(at, entry);
    }
    assert(all.take(all.len() as int) =~= all);
    r
}

// ---------------------------------------------------------------------------
// Laws
// ---------------------------------------------------------------------------

/// A timestamp that is valid from start to end is found as such, without its separators.
pub proof fn law_valid_timestamps_are_parsed(timestamp: Seq<char>)
    requires
        is_timestamp(timestamp),
    ensures
        timestamp_of(timestamp) == Some(normalized(timestamp)),
{
}

/// A file of a migration, and whether a filter applies to it: to all but a single file without a
/// timestamp in its name.
pub struct FilteredFile {
    pub file: MigrationFileView,
    pub has_timestamp: bool,
}

/// Whether a file passes a filter, if the filter applies to it.
pub open spec fn passes_filter(start_after: Seq<char>) -> spec_fn(FilteredFile) -> bool {
    |f: FilteredFile| f.has_timestamp ==> comes_after(f.file.timestamp, start_after)
}

/// The files of an entry, each with whether a filter applies to it.
pub open spec fn filtered_files(check_down: bool) -> spec_fn(MigrationEntry) -> Seq<FilteredFile> {
    |entry: MigrationEntry|
        entry_files(None, check_down)(entry).map_values(
            |file: MigrationFileView|
                FilteredFile {
                    file,
                    has_timestamp: match entry {
                        MigrationEntry::Directory(_) => true,
                        MigrationEntry::File { name, .. } => timestamp_of(name@) is Some,
                    },
                },
        )
}

/// The file itself.
pub open spec fn without_mark() -> spec_fn(FilteredFile) -> MigrationFileView {
    |f: FilteredFile| f.file
}

proof fn lemma_filter_concat(
    a: Seq<FilteredFile>,
    b: Seq<FilteredFile>,
    p: spec_fn(FilteredFile) -> bool,
)
    ensures
        (a + b).filter(p) == a.filter(p) + b.filter(p),
    decreases b.len(),
{
    reveal(Seq::filter);
    if b.len() == 0 {
        assert(a + b =~= a);
        assert(a.filter(p) + b.filter(p) =~= a.filter(p));
    } else {
        lemma_filter_concat(a, b.drop_last(), p);
        assert((a + b).drop_last() =~= a + b.drop_last());
        assert((a.filter(p) + b.drop_last().filter(p)).push(b.last()) =~= a.filter(p)
            + b.drop_last().filter(p).push(b.last()));
    }
}

proof fn lemma_entry_filtered(entry: MigrationEntry, start_after: Seq<char>, check_down: bool)
    ensures
        filtered_files(check_down)(entry).map_values(without_mark()) == entry_files(
            None,
            check_down,
        )(entry),
        filtered_files(check_down)(entry).filter(passes_filter(start_after)).map_values(
            without_mark(),
        ) == entry_files(Some(start_after), check_down)(entry),
{
    let files = entry_files(None, check_down)(entry);
    let marked = filtered_files(check_down)(entry);
    let p = passes_filter(start_after);
    assert(marked.map_values(without_mark()) =~= files);
    reveal_with_fuel(Seq::filter, 3);
    assert(marked.len() <= 2);
    if marked.len() > 0 {
        assert(marked.drop_last().len() == marked.len() - 1);
        assert(marked.last() == marked[marked.len() - 1]);
        if marked.len() > 1 {
            assert(marked.drop_last().last() == marked[0]);
            assert(marked.drop_last().drop_last().len() == 0);
        }
        if p(marked[0]) {
            assert(marked.filter(p) =~= marked);
            assert(entry_files(Some(start_after), check_down)(entry) =~= files);
        } else {
            assert(marked.filter(p) =~= Seq::<FilteredFile>::empty());
            assert(entry_files(Some(start_after), check_down)(entry) =~= Seq::<
                MigrationFileView,
            >::empty());
        }
    } else {
        assert(entry_files(Some(start_after), check_down)(entry) =~= files);
    }
}

proof fn lemma_entries_filtered(
    entries: Seq<MigrationEntry>,
    start_after: Seq<char>,
    check_down: bool,
)
    ensures
        ({
            let all = entries.flat_map(filtered_files(check_down));
            &&& entries.flat_map(entry_files(None, check_down)) == all.map_values(without_mark())
            &&& entries.flat_map(entry_files(Some(start_after), check_down)) == all.filter(
                passes_filter(start_after),
            ).map_values(without_mark())
        }),
    decreases entries.len(),
{
    let marks = filtered_files(check_down);
    let p = passes_filter(start_after);
    let all = entries.flat_map(marks);
    if entries.len() == 0 {
        reveal(Seq::filter);
        assert(all =~= Seq::<FilteredFile>::empty());
        assert(all.filter(p) =~= Seq::<FilteredFile>::empty());
        assert(entries.flat_map(entry_files(None, check_down)) =~= all.map_values(without_mark()));
        assert(entries.flat_map(entry_files(Some(start_after), check_down)) =~= all.filter(
            p,
        ).map_values(without_mark()));
    } else {
        let rest = entries.drop_last();
        let last = entries.last();
        let before = rest.flat_map(marks);
        lemma_entries_filtered(rest, start_after, check_down);
        lemma_entry_filtered(last, start_after, check_down);
        assert(rest.push(last) =~= entries);
        rest.lemma_flat_map_push(marks, last);
        rest.lemma_flat_map_push(entry_files(None, check_down), last);
        rest.lemma_flat_map_push(entry_files(Some(start_after), check_down), last);
        lemma_filter_concat(before, marks(last), p);
        assert((before + marks(last)).map_values(without_mark()) =~= before.map_values(
            without_mark(),
        ) + marks(last).map_values(without_mark()));
        assert((before.filter(p) + marks(last).filter(p)).map_values(without_mark())
            =~= before.filter(p).map_values(without_mark()) + marks(last).filter(p).map_values(
            without_mark(),
        ));
    }
}

/// A filter leaves out files and nothing else: of the files without a filter it gives, in their order,
/// those that come after it, and the single files without a timestamp.
pub proof fn law_start_after_is_a_filter(
    entries: Vec<MigrationEntry>,
    start_after: Seq<char>,
    check_down: bool,
)
    ensures
        ({
            let all = entries@.flat_map(filtered_files(check_down));
            let listing = MigrationListing::Entries(entries);
            &&& migration_files(listing, None, check_down) == all.map_values(without_mark())
            &&& migration_files(listing, Some(start_after), check_down) == all.filter(
                passes_filter(start_after),
            ).map_values(without_mark())
        }),
{
    lemma_entries_filtered(entries@, start_after, check_down);
}

/// A migration directory gives its `up.sql` and, exactly if asked for, its `down.sql`, as far as they
/// exist; it gives neither if its timestamp does not come after the start. Its timestamp is the one at
/// the start of its name without separators, or else the name.
pub proof fn law_directories_give_up_and_down(
    dir: MigrationDir,
    start_after: Option<Seq<char>>,
    check_down: bool,
)
    ensures
        ({
            let files = entry_files(start_after, check_down)(MigrationEntry::Directory(dir));
            let stamp = match regex_capture(
                r"^(\d{4}_\d{2}_\d{2}_\d{6}|\d{4}-\d{2}-\d{2}-\d{6}|\d{14})"@,
                dir.name->0@, 0) {
                Some(found) => normalized(found),
                None => dir.name->0@,
            };
            let up = dir.up_sql is Some;
            let down = dir.down_sql is Some && check_down;
            &&& dir.name is None ==> files.len() == 0
            &&& start_after is Some && !comes_after(stamp, start_after->0) ==> files.len() == 0
            &&& dir.name is Some && (start_after is Some ==> comes_after(stamp, start_after->0))
                ==> {
                &&& files.len() == (if up {
                    1int
                } else {
                    0int
                }) + (if down {
                    1int
                } else {
                    0int
                })
                &&& up ==> files[0].path == dir.up_sql->0@ && files[0].timestamp == stamp
                &&& down ==> files.last().path == dir.down_sql->0@ && files.last().timestamp
                    == stamp
            }
        }),
{
}

/// A single file is given exactly if its extension is `sql` and its timestamp, if its name has one,
/// comes after the start. Without a timestamp its name stands for it, and the start does not count.
pub proof fn law_single_sql_files_are_given(
    path: String,
    name: String,
    extension: Option<String>,
    start_after: Option<Seq<char>>,
    check_down: bool,
)
    ensures
        ({
            let entry = MigrationEntry::File { path, name, extension };
            let files = entry_files(start_after, check_down)(entry);
            let found = regex_capture(
                r"^(\d{4}_\d{2}_\d{2}_\d{6}|\d{4}-\d{2}-\d{2}-\d{6}|\d{14})"@,
                name@, 0);
            let is_sql = extension matches Some(e) && e@ == "sql"@;
            let late = found is None || start_after is None || comes_after(
                normalized(found->0),
                start_after->0,
            );
            &&& files.len() == if is_sql && late {
                1nat
            } else {
                0nat
            }
            &&& is_sql && late ==> files[0].path == path@ && files[0].timestamp == if found is Some {
                normalized(found->0)
            } else {
                name@
            }
        }),
{
}

/// The entries of the migrations directory give their files one after the other. For a single migration
/// the start does not count.
pub proof fn law_entries_are_taken_in_turn(
    whole: Vec<MigrationEntry>,
    first: Vec<MigrationEntry>,
    entry: MigrationEntry,
    dir: MigrationDir,
    start_after: Option<Seq<char>>,
    check_down: bool,
)
    requires
        whole@ == first@.push(entry),
    ensures
        migration_files(MigrationListing::Entries(whole), start_after, check_down)
            == migration_files(MigrationListing::Entries(first), start_after, check_down)
            + entry_files(start_after, check_down)(entry),
        first@.len() == 0 ==> migration_files(
            MigrationListing::Entries(first),
            start_after,
            check_down,
        ).len() == 0,
        migration_files(MigrationListing::Single(dir), start_after, check_down) == entry_files(
            None,
            check_down,
        )(MigrationEntry::Directory(dir)),
{
    let f = entry_files(start_after, check_down);
    first@.lemma_flat_map_push(f, entry);
    if first@.len() == 0 {
        assert(first@.flat_map(f) =~= Seq::<MigrationFileView>::empty());
    }
}

/// A migration runs in a transaction unless its metadata says otherwise, and disables the checks that
/// its metadata names.
pub proof fn law_metadata_gives_the_context(metadata: Option<MetadataFile>, i: int)
    ensures
        ({
            let ctx = context_of(metadata);
            &&& ctx.run_in_transaction <==> !(metadata is Some && metadata->0.run_in_transaction
                == Some(false))
            &&& metadata is None ==> ctx.disabled_checks.len() == 0
            &&& metadata is Some ==> ctx.disabled_checks.len()
                == metadata->0.disable_checks@.len()
            &&& metadata is Some && 0 <= i < ctx.disabled_checks.len() ==> ctx.disabled_checks[i]
                == metadata->0.disable_checks@[i]@
            &&& ctx.no_transaction_hint
                == "Create `metadata.toml` in the migration directory with `run_in_transaction = false`."@
        }),
{
}

/// Whether an entry has a name.
pub open spec fn is_called(entry: MigrationEntry, text: Seq<char>) -> bool {
    ||| entry matches MigrationEntry::File { name, .. } && name@ == text
    ||| entry matches MigrationEntry::Directory(dir) && dir.name is Some && dir.name->0@ == text
}

/// In the order of entries the names, of directories and files alike, ascend as texts.
pub proof fn law_entries_are_ordered_by_name(
    entries: Seq<MigrationEntry>,
    i: int,
    j: int,
    a: Seq<char>,
    b: Seq<char>,
)
    requires
        sorted_by_name(entries),
        0 <= i < j < entries.len(),
        is_called(entries[i], a),
        is_called(entries[j], b),
    ensures
        a == b || text_before(a, b),
{
    assert(entry_name(entries[i]) == a && entry_name(entries[j]) == b);
    if a != b {
        law_text_order_is_total(a, b);
    }
}

/// A text is a timestamp exactly if the expression for timestamps matches all of it.
pub proof fn law_timestamps_match_from_start_to_end(text: Seq<char>)
    ensures
        is_timestamp(text) <==> regex_capture(
            r"^(\d{4}_\d{2}_\d{2}_\d{6}|\d{4}-\d{2}-\d{2}-\d{6}|\d{14})"@,
            text,
            0,
        ) == Some(text),
{
}

} // verus!
