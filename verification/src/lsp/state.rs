//! The state of the server.

pub mod checking;
pub mod documents;
pub mod laws;
pub mod transport;

use crate::lsp::config_cache::{CheckerCacheKey, DocumentState, DocumentView};
use crate::lsp::diagnostics::{cleared, empty_event, DiagnosticEvent, EventView};
use crate::lsp::output::{event_views, OutputView};
use crate::safety_checker::SafetyChecker;
use crate::text::{opt_text, same_text, string_views};
use vstd::prelude::*;

verus! {

/// The most documents that are kept.
pub const MAX_TRACKED_DOCUMENTS: usize = 256;

/// The most documents with diagnostics that are kept.
pub const MAX_PUBLISHED_DIAGNOSTIC_URIS: usize = 256;

/// A checker and what it was made from.
pub struct CheckerCache {
    pub key: CheckerCacheKey,
    pub checker: SafetyChecker,
}

/// The state of the server.
pub struct ServerState {
    root: String,
    /// The open documents, by their URIs. The one that was stored last stands last.
    documents: Vec<(String, DocumentState)>,
    /// The URIs of the documents with diagnostics, in the order in which they got them.
    published_sql_uris: Vec<String>,
    checker_cache: Option<CheckerCache>,
    last_config_error_message: Option<String>,
    emitted_warning_messages: Vec<String>,
    warned_incremental_change: bool,
    warned_unsupported_notification: bool,
    shutdown_requested: bool,
}

/// The model of the server's state. What the cached checker is, `ServerState::checker` says.
#[verifier::ext_equal]
pub struct StateView {
    pub root: Seq<char>,
    pub documents: Seq<(Seq<char>, DocumentView)>,
    pub published: Seq<Seq<char>>,
    pub last_config_error: Option<Seq<char>>,
    pub warnings: Seq<Seq<char>>,
    pub warned_incremental_change: bool,
    pub warned_unsupported_notification: bool,
    pub shutdown_requested: bool,
}

/// The models of a list of documents.
pub open spec fn document_views(documents: Seq<(String, DocumentState)>) -> Seq<
    (Seq<char>, DocumentView),
> {
    documents.map_values(|d: (String, DocumentState)| (d.0@, d.1@))
}

/// The URIs of a list of documents.
pub open spec fn document_uris(documents: Seq<(Seq<char>, DocumentView)>) -> Seq<Seq<char>> {
    documents.map_values(|d: (Seq<char>, DocumentView)| d.0)
}

impl View for ServerState {
    type V = StateView;

    closed spec fn view(&self) -> StateView {
        StateView {
            root: self.root@,
            documents: document_views(self.documents@),
            published: string_views(self.published_sql_uris@),
            last_config_error: opt_text(self.last_config_error_message),
            warnings: string_views(self.emitted_warning_messages@),
            warned_incremental_change: self.warned_incremental_change,
            warned_unsupported_notification: self.warned_unsupported_notification,
            shutdown_requested: self.shutdown_requested,
        }
    }
}

/// A list without an element.
pub open spec fn without(list: Seq<Seq<char>>, element: Seq<char>) -> Seq<Seq<char>> {
    if list.contains(element) {
        list.remove(list.index_of(element))
    } else {
        list
    }
}

/// The texts of a list that are new: neither among those seen before nor earlier in the list.
pub open spec fn fresh(seen: Seq<Seq<char>>, texts: Seq<Seq<char>>) -> Seq<Seq<char>>
    decreases texts.len(),
{
    if texts.len() == 0 {
        Seq::empty()
    } else {
        let before = fresh(seen, texts.drop_last());
        if seen.contains(texts.last()) || before.contains(texts.last()) {
            before
        } else {
            before.push(texts.last())
        }
    }
}

impl StateView {
    /// No document is kept twice, and not too many are.
    pub open spec fn wf(self) -> bool {
        &&& document_uris(self.documents).no_duplicates()
        &&& self.documents.len() <= MAX_TRACKED_DOCUMENTS
        &&& self.published.no_duplicates()
        &&& self.published.len() <= MAX_PUBLISHED_DIAGNOSTIC_URIS
    }

    /// A server that has seen nothing yet.
    pub open spec fn initial(root: Seq<char>) -> StateView {
        StateView {
            root,
            documents: Seq::empty(),
            published: Seq::empty(),
            last_config_error: None,
            warnings: Seq::empty(),
            warned_incremental_change: false,
            warned_unsupported_notification: false,
            shutdown_requested: false,
        }
    }

    /// What is known of a document.
    pub open spec fn document(self, uri: Seq<char>) -> Option<DocumentView> {
        let uris = document_uris(self.documents);
        if uris.contains(uri) {
            Some(self.documents[uris.index_of(uri)].1)
        } else {
            None
        }
    }

    /// A document is forgotten.
    pub open spec fn forgetting(self, uri: Seq<char>) -> StateView {
        let uris = document_uris(self.documents);
        if uris.contains(uri) {
            StateView { documents: self.documents.remove(uris.index_of(uri)), ..self }
        } else {
            self
        }
    }

    /// A document is stored. If there are too many, the one that was stored first is forgotten.
    pub open spec fn storing(self, uri: Seq<char>, document: DocumentView) -> StateView {
        let rest = self.forgetting(uri).documents;
        StateView {
            documents: (if rest.len() >= MAX_TRACKED_DOCUMENTS {
                rest.remove(0)
            } else {
                rest
            }).push((uri, document)),
            ..self
        }
    }

    /// A document has no diagnostics any more.
    pub open spec fn untracking(self, uri: Seq<char>) -> StateView {
        StateView { published: without(self.published, uri), ..self }
    }

    /// A document gets diagnostics. If there are too many with diagnostics, the one that got them
    /// first loses them.
    pub open spec fn tracking(self, uri: Seq<char>) -> StateView {
        if self.published.contains(uri) {
            self
        } else {
            StateView {
                published: (if self.published.len() >= MAX_PUBLISHED_DIAGNOSTIC_URIS {
                    self.published.remove(0)
                } else {
                    self.published
                }).push(uri),
                ..self
            }
        }
    }

    /// The events for documents that lose their diagnostics when another gets some.
    pub open spec fn evictions(self, uri: Seq<char>) -> Seq<EventView> {
        if !self.published.contains(uri) && self.published.len() >= MAX_PUBLISHED_DIAGNOSTIC_URIS {
            seq![cleared(self.published[0], None)]
        } else {
            Seq::empty()
        }
    }

    /// Warnings are given, those that were given before left out.
    pub open spec fn warning(self, warnings: Seq<Seq<char>>) -> StateView {
        StateView { warnings: self.warnings + fresh(self.warnings, warnings), ..self }
    }

    /// The event that clears a document with diagnostics, if it is one.
    pub open spec fn clearing(self, uri: Seq<char>, version: Option<i32>) -> OutputView {
        if self.published.contains(uri) {
            OutputView::nothing().with_event(cleared(uri, version))
        } else {
            OutputView::nothing()
        }
    }
}

proof fn lemma_index(list: Seq<Seq<char>>, i: int)
    requires
        list.no_duplicates(),
        0 <= i < list.len(),
    ensures
        list.contains(list[i]),
        list.index_of(list[i]) == i,
{
    let k = list.index_of(list[i]);
    assert(list[i] == list[i]);
    assert(0 <= k < list.len() && list[k] == list[i]);
}

fn index_in(list: &Vec<String>, element: &str) -> (r: Option<usize>)
    ensures
        match r {
            Some(i) => i < list@.len() && string_views(list@)[i as int] == element@,
            None => !string_views(list@).contains(element@),
        },
{
    let mut i: usize = 0;
    while i < list.len()
        invariant
            i <= list.len(),
            forall|j: int| 0 <= j < i ==> (#[trigger] string_views(list@)[j]) != element@,
        decreases list.len() - i,
    {
        if same_text(list[i].as_str(), element) {
            return Some(i);
        }
        i += 1;
    }
    None
}

impl ServerState {
    /// No document is kept twice, and not too many are.
    pub open spec fn wf(&self) -> bool {
        self@.wf()
    }

    /// The checker that is cached, and what it was made from.
    pub closed spec fn cached(&self) -> Option<CheckerCache> {
        self.checker_cache
    }

    /// A server that has seen nothing yet.
    pub fn new(root: String) -> (r: ServerState)
        ensures
            r.wf(),
            r@ == StateView::initial(root@),
            r.cached() is None,
    {
        let r = ServerState {
            root,
            documents: Vec::new(),
            published_sql_uris: Vec::new(),
            checker_cache: None,
            last_config_error_message: None,
            emitted_warning_messages: Vec::new(),
            warned_incremental_change: false,
            warned_unsupported_notification: false,
            shutdown_requested: false,
        };
        assert(r@ =~= StateView::initial(root@));
        r
    }

    /// The root of the workspace.
    pub fn root(&self) -> (r: &str)
        ensures
            r@ == self@.root,
    {
        self.root.as_str()
    }

    fn find_document(&self, uri: &str) -> (r: Option<usize>)
        ensures
            match r {
                Some(i) => i < self.documents@.len() && document_uris(self@.documents)[i as int]
                    == uri@,
                None => !document_uris(self@.documents).contains(uri@),
            },
    {
        let mut i: usize = 0;
        while i < self.documents.len()
            invariant
                i <= self.documents.len(),
                forall|j: int|
                    0 <= j < i ==> (#[trigger] document_uris(self@.documents)[j]) != uri@,
            decreases self.documents.len() - i,
        {
            if same_text(self.documents[i].0.as_str(), uri) {
                return Some(i);
            }
            i += 1;
        }
        None
    }

    /// What is known of a document.
    pub fn document(&self, uri: &str) -> (r: Option<&DocumentState>)
        requires
            self.wf(),
        ensures
            (match r {
                Some(d) => Some(d@),
                None => None,
            }) == self@.document(uri@),
    {
        match self.find_document(uri) {
            Some(i) => {
                proof {
                    lemma_index(document_uris(self@.documents), i as int);
                }
                Some(&self.documents[i].1)
            },
            None => None,
        }
    }

    /// How many documents are kept.
    pub fn document_count(&self) -> (r: usize)
        ensures
            r == self@.documents.len(),
    {
        self.documents.len()
    }

    /// Whether a document has diagnostics.
    pub fn is_published(&self, uri: &str) -> (r: bool)
        ensures
            r == self@.published.contains(uri@),
    {
        match index_in(&self.published_sql_uris, uri) {
            Some(i) => {
                assert(self@.published[i as int] == uri@);
                true
            },
            None => false,
        }
    }

    /// How many documents have diagnostics.
    pub fn published_count(&self) -> (r: usize)
        ensures
            r == self@.published.len(),
    {
        self.published_sql_uris.len()
    }

    fn forget_document(&mut self, uri: &str)
        requires
            old(self).wf(),
        ensures
            final(self).wf(),
            final(self)@ == old(self)@.forgetting(uri@),
            final(self).cached() == old(self).cached(),
    {
        if let Some(i) = self.find_document(uri) {
            proof {
                lemma_index(document_uris(self@.documents), i as int);
            }
            let removed = self.documents.remove(i);
            assert(self@.documents =~= old(self)@.documents.remove(i as int));
            assert(document_uris(self@.documents) =~= document_uris(old(self)@.documents).remove(
                i as int,
            ));
            assert(self@ =~= old(self)@.forgetting(uri@));
        } else {
            assert(self@ =~= old(self)@.forgetting(uri@));
        }
    }

    fn store_document_state(&mut self, uri: &str, state: DocumentState)
        requires
            old(self).wf(),
        ensures
            final(self).wf(),
            final(self)@ == old(self)@.storing(uri@, state@),
            final(self).cached() == old(self).cached(),
    {
        self.forget_document(uri);
        let ghost rest = self@;
        proof {
            let uris = document_uris(old(self)@.documents);
            if uris.contains(uri@) {
                let k = uris.index_of(uri@);
                assert(document_uris(rest.documents) =~= uris.remove(k));
            }
            assert(!document_uris(rest.documents).contains(uri@));
        }
        if self.documents.len() >= MAX_TRACKED_DOCUMENTS {
            let evicted = self.documents.remove(0);
            assert(self@.documents =~= rest.documents.remove(0));
            assert(document_uris(self@.documents) =~= document_uris(rest.documents).remove(0));
        }
        let ghost before = self@.documents;
        self.documents.push((uri.to_string(), state));
        proof {
            assert(self@.documents =~= before.push((uri@, state@)));
            assert(document_uris(self@.documents) =~= document_uris(before).push(uri@));
            assert(self@ =~= old(self)@.storing(uri@, state@));
        }
    }

    /// A document has no diagnostics any more. Returns whether it had some.
    pub fn untrack_published_uri(&mut self, uri: &str) -> (r: bool)
        requires
            old(self).wf(),
        ensures
            final(self).wf(),
            r == old(self)@.published.contains(uri@),
            final(self)@ == old(self)@.untracking(uri@),
            final(self).cached() == old(self).cached(),
    {
        match index_in(&self.published_sql_uris, uri) {
            Some(i) => {
                proof {
                    lemma_index(self@.published, i as int);
                }
                let removed = self.published_sql_uris.remove(i);
                assert(self@.published =~= old(self)@.published.remove(i as int));
                assert(self@ =~= old(self)@.untracking(uri@));
                true
            },
            None => {
                assert(self@ =~= old(self)@.untracking(uri@));
                false
            },
        }
    }

    /// A document gets diagnostics. Returns the events for those that lose theirs.
    pub fn track_published_uri(&mut self, uri: &str) -> (r: Vec<DiagnosticEvent>)
        requires
            old(self).wf(),
        ensures
            final(self).wf(),
            event_views(r@) == old(self)@.evictions(uri@),
            final(self)@ == old(self)@.tracking(uri@),
            final(self).cached() == old(self).cached(),
    {
        let mut events: Vec<DiagnosticEvent> = Vec::new();
        if self.is_published(uri) {
            assert(event_views(events@) =~= old(self)@.evictions(uri@));
            return events;
        }
        if self.published_sql_uris.len() >= MAX_PUBLISHED_DIAGNOSTIC_URIS {
            let evicted = self.published_sql_uris.remove(0);
            assert(self@.published =~= old(self)@.published.remove(0));
            events.push(empty_event(evicted, None));
        }
        let ghost before = self@.published;
        self.published_sql_uris.push(uri.to_string());
        proof {
            assert(self@.published =~= before.push(uri@));
            assert(event_views(events@) =~= old(self)@.evictions(uri@));
            assert(self@ =~= old(self)@.tracking(uri@));
        }
        events
    }

    fn clear_event(&mut self, uri: &str, version: Option<i32>) -> (r: DiagnosticEvent)
        requires
            old(self).wf(),
        ensures
            final(self).wf(),
            final(self)@ == old(self)@.untracking(uri@),
            r@ == cleared(uri@, version),
            final(self).cached() == old(self).cached(),
    {
        let was = self.untrack_published_uri(uri);
        empty_event(uri.to_string(), version)
    }
}

} // verus!
