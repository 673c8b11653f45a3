//! What a loaded checker was made from, and the limits on what the server reads.

use crate::config::{Config, ConfigError, ConfigView};
use crate::lsp::uri::{is_portable, starts_like_a_share, utf8_error_text, utf8_text};
use crate::text::laws::{law_holes_are_filled, law_plain_templates_stay};
use crate::text::{
    comes_before, decimal, decimal_text, fill, fill_template,
    law_text_order_is_irreflexive, law_text_order_is_transitive, opt_str, opt_text, same_text,
    string_views, text_before, views,
};
use std::collections::hash_map::DefaultHasher;
use std::hash::Hasher;
use vstd::bytes::{
    spec_u32_to_le_bytes, spec_u64_to_le_bytes, u32_to_le_bytes, u64_to_le_bytes,
};
use vstd::prelude::*;
use vstd::std_specs::hash::DefaultHasherAdditionalSpecFns;
use vstd::utf8::{decode_utf8, encode_utf8, valid_utf8};

verus! {

/// The longest document, in bytes, that is checked while it is edited.
pub const MAX_LIVE_DOCUMENT_BYTES: usize = 1_000_000;

/// The longest document, in bytes, that is checked when it is saved.
pub const MAX_SAVED_DOCUMENT_BYTES: u64 = 1_000_000;

/// The longest configuration file, in bytes, that is read.
pub const MAX_CONFIG_BYTES: u64 = 64 * 1024;

/// The most custom check scripts that are used.
pub const MAX_LSP_CUSTOM_CHECK_FILES: usize = 16;

/// The most bytes of custom check scripts that are read.
pub const MAX_LSP_CUSTOM_CHECK_TOTAL_SOURCE_BYTES: u64 = 256 * 1024;

/// What is said of a directory with too many entries.
pub const TOO_MANY_ENTRIES_TEXT: &'static str = "more than {0} directory entries in {1}";

/// What is said of a directory with too many scripts.
pub const TOO_MANY_FILES_TEXT: &'static str = "more than {0} .rhai custom check files in {1}";

/// What is said of scripts that are too long together.
pub const TOO_MANY_BYTES_TEXT: &'static str =
    "more than {0} bytes of custom check content would be hashed";

/// What is said of a script that has become too long.
pub const FILE_GREW_TEXT: &'static str =
    "custom check file grew beyond {0} bytes while hashing: {1}";

/// What is said when the custom checks exceed a limit.
pub const CHECKS_DISABLED_TEXT: &'static str =
    "Custom checks are disabled for LSP diagnostics: {0}";

// ---------------------------------------------------------------------------
// Documents
// ---------------------------------------------------------------------------

/// A document that the editor has open.
#[derive(Debug, Clone)]
pub struct DocumentState {
    pub text: Option<String>,
    pub version: Option<i32>,
}

/// The model of an open document.
pub struct DocumentView {
    pub text: Option<Seq<char>>,
    pub version: Option<i32>,
}

impl View for DocumentState {
    type V = DocumentView;

    open spec fn view(&self) -> DocumentView {
        DocumentView { text: opt_text(self.text), version: self.version }
    }
}

/// What a limited read of a file gives.
#[derive(Debug, Clone)]
pub enum LimitedFileRead {
    Text(String),
    TooLarge,
}

/// Whether a text is too long to be checked while it is edited.
pub open spec fn exceeds_live_limit(text: Seq<char>) -> bool {
    encode_utf8(text).len() > MAX_LIVE_DOCUMENT_BYTES
}

/// Whether a text is too long to be checked when it is saved.
pub open spec fn exceeds_saved_limit(text: Seq<char>) -> bool {
    encode_utf8(text).len() > MAX_SAVED_DOCUMENT_BYTES
}

/// What is kept of a document: its text only if that is not too long.
pub open spec fn live_document(text: Seq<char>, version: Option<i32>) -> DocumentView {
    DocumentView {
        text: if exceeds_live_limit(text) {
            None
        } else {
            Some(text)
        },
        version,
    }
}

/// Whether a text is too long to be checked while it is edited.
pub fn live_text_is_too_large(text: &str) -> (r: bool)
    ensures
        r == exceeds_live_limit(text@),
{
    text.as_bytes().len() > MAX_LIVE_DOCUMENT_BYTES
}

/// Whether a text is too long to be checked when it is saved.
pub fn saved_text_is_too_large(text: &str) -> (r: bool)
    ensures
        r == exceeds_saved_limit(text@),
{
    text.as_bytes().len() as u64 > MAX_SAVED_DOCUMENT_BYTES
}

/// What is kept of a document, as `live_document` says.
pub fn live_document_state(text: &str, version: Option<i32>) -> (r: DocumentState)
    ensures
        r@ == live_document(text@, version),
{
    DocumentState {
        text: if live_text_is_too_large(text) {
            None
        } else {
            Some(text.to_string())
        },
        version,
    }
}

/// The text of a file of which at most one byte more than the limit was read.
pub fn limited_bytes_to_string(bytes: Vec<u8>, limit: u64) -> (r: Result<LimitedFileRead, String>)
    ensures
        r matches Ok(LimitedFileRead::TooLarge) <==> bytes@.len() > limit,
        bytes@.len() <= limit && valid_utf8(bytes@) ==> (r matches Ok(LimitedFileRead::Text(s))
            && s@ == decode_utf8(bytes@)),
        bytes@.len() <= limit && !valid_utf8(bytes@) ==> (r matches Err(err) && err@
            == utf8_error_text(bytes@)),
{
    if bytes.len() as u64 > limit {
        return Ok(LimitedFileRead::TooLarge);
    }
    match utf8_text(bytes) {
        Ok(s) => Ok(LimitedFileRead::Text(s)),
        Err(err) => Err(err),
    }
}

// ---------------------------------------------------------------------------
// Configuration
// ---------------------------------------------------------------------------

/// Whether a path starts at the root.
pub open spec fn is_rooted(path: Seq<char>) -> bool {
    path.len() > 0 && path[0] == '/'
}

/// Whether a path is that of `path` in the directory `dir`: the one after the other, with a separator
/// between them unless the directory is empty or ends with a slash. Platforms differ in whether a
/// backslash ends a directory too, and a colon a drive's name.
pub open spec fn is_path_in(joined: Seq<char>, dir: Seq<char>, path: Seq<char>) -> bool {
    let separated = joined == dir.push('/') + path || joined == dir.push('\\') + path;
    if dir.len() == 0 || dir.last() == '/' {
        joined == dir + path
    } else if dir.last() == '\\' || dir.last() == ':' {
        joined == dir + path || separated
    } else {
        separated
    }
}

/// Whether a directory is resolved in a workspace: a relative one is in the root, and one that starts
/// at the root of a drive stays as it is, but for the drive of the workspace where there are drives.
pub open spec fn is_resolved(resolved: Seq<char>, root: Seq<char>, dir: Seq<char>) -> bool {
    if is_rooted(dir) {
        resolved == dir || root.len() >= 2 && root[1] == ':' && resolved == root.take(2) + dir
    } else {
        is_path_in(resolved, root, dir)
    }
}

/// `camino::Utf8Path::is_relative`: a path that does not start at the root is relative on every
/// platform. Platforms differ in what else is relative, so nothing is stated of other paths.
#[verifier::external_body]
fn path_is_relative(path: &str) -> (r: bool)
    ensures
        is_portable(path@) && !is_rooted(path@) ==> r,
{
    camino::Utf8Path::new(path).is_relative()
}

/// `camino::Utf8Path::join`: a relative path is put behind a directory, with the platform's separator
/// between the two unless the directory is empty or ends with one; a path that starts at the root
/// replaces the directory, all but its drive. Platforms differ in the separators, in whether there are
/// drives, and in what happens to a path that is not portable or to a directory that starts with two
/// separators, of which nothing is stated.
#[verifier::external_body]
fn path_join(dir: &str, path: &str) -> (r: String)
    ensures
        !starts_like_a_share(dir@) && is_portable(path@) ==> is_resolved(r@, dir@, path@),
{
    camino::Utf8Path::new(dir).join(path).to_string()
}

/// The directory of custom checks that is used: the configured one, or its path in the workspace if
/// it is a relative one.
pub fn used_checks_dir(dir: &str, in_root: Option<String>) -> (r: String)
    ensures
        r@ == match in_root {
            Some(path) => path@,
            None => dir@,
        },
{
    match in_root {
        Some(path) => path,
        None => dir.to_string(),
    }
}

/// The configuration of a workspace, given what its configuration file says: a relative directory of
/// custom checks is one in the workspace, and an absolute one stays. What becomes of one that is not
/// portable, or in a workspace whose path starts with two separators, depends on the platform.
pub fn load_lsp_config(root: &str, loaded: Result<Config, ConfigError>) -> (r: Result<
    Config,
    ConfigError,
>)
    ensures
        match loaded {
            Err(err) => r == Err::<Config, ConfigError>(err),
            Ok(config) => r matches Ok(c) && c@ == (ConfigView {
                custom_checks_dir: c@.custom_checks_dir,
                ..config@
            }) && match config@.custom_checks_dir {
                None => c@.custom_checks_dir is None,
                Some(dir) => c@.custom_checks_dir matches Some(resolved) && (!starts_like_a_share(
                    root@,
                ) && is_portable(dir) ==> is_resolved(resolved, root@, dir)),
            },
        },
{
    match loaded {
        Err(err) => Err(err),
        Ok(config) => {
            let mut config = config;
            let resolved = match &config.custom_checks_dir {
                Some(dir) => {
                    let in_root = if path_is_relative(dir.as_str()) {
                        Some(path_join(root, dir.as_str()))
                    } else {
                        None
                    };
                    Some(used_checks_dir(dir.as_str(), in_root))
                },
                None => None,
            };
            config.custom_checks_dir = resolved;
            Ok(config)
        },
    }
}

// ---------------------------------------------------------------------------
// Custom check scripts
// ---------------------------------------------------------------------------

/// The extension of a custom check script.
pub const CUSTOM_CHECK_EXTENSION: &'static str = "rhai";

/// Whether an entry of the directory of custom checks is a script, given the extension of its path
/// and whether it is a regular file.
pub fn is_custom_check_file(extension: Option<&str>, is_file: bool) -> (r: bool)
    ensures
        r == (is_file && opt_str(extension) == Some(CUSTOM_CHECK_EXTENSION@)),
{
    match extension {
        Some(extension) => is_file && same_text(extension, CUSTOM_CHECK_EXTENSION),
        None => false,
    }
}

/// What a custom check script is recognised by.
#[derive(Debug, Clone)]
pub struct CustomCheckFileSignature {
    pub path: String,
    /// When it was last changed, in nanoseconds.
    pub modified: Option<i128>,
    pub len: Option<u64>,
    pub content_hash: Option<u64>,
}

/// The model of what a script is recognised by.
pub struct SignatureView {
    pub path: Seq<char>,
    pub modified: Option<i128>,
    pub len: Option<u64>,
    pub content_hash: Option<u64>,
}

impl View for CustomCheckFileSignature {
    type V = SignatureView;

    open spec fn view(&self) -> SignatureView {
        SignatureView {
            path: self.path@,
            modified: self.modified,
            len: self.len,
            content_hash: self.content_hash,
        }
    }
}

/// The models of what scripts are recognised by.
pub open spec fn signature_views(signature: Seq<CustomCheckFileSignature>) -> Seq<SignatureView> {
    signature.map_values(|s: CustomCheckFileSignature| s@)
}

/// Whether an error says that the custom checks exceed a limit, in given words.
pub open spec fn is_too_large(err: ConfigError, message: Seq<char>) -> bool {
    err matches ConfigError::CustomChecksTooLarge { message: m } && m@ == message
}

/// The error for custom checks that exceed a limit.
pub fn custom_checks_too_large(message: String) -> (r: ConfigError)
    ensures
        is_too_large(r, message@),
{
    ConfigError::CustomChecksTooLarge { message }
}

/// What is said of a directory with too many entries.
pub open spec fn too_many_entries(max_entries: usize, dir: Seq<char>) -> Seq<char> {
    fill(TOO_MANY_ENTRIES_TEXT@, seq![decimal(max_entries as nat), dir])
}

/// Refuses the entry with a given index, counted from zero, if it is one too many.
pub fn enforce_custom_check_entry_limit(
    index: usize,
    custom_checks_dir: &str,
    max_entries: usize,
) -> (r: Result<(), ConfigError>)
    ensures
        index < max_entries ==> r is Ok,
        index >= max_entries ==> (r matches Err(err) && is_too_large(
            err,
            too_many_entries(max_entries, custom_checks_dir@),
        )),
{
    if index >= max_entries {
        let limit = decimal_text(max_entries as u64);
        let args: Vec<&str> = vec![limit.as_str(), custom_checks_dir];
        assert(views(args@) =~= seq![limit@, custom_checks_dir@]);
        return Err(custom_checks_too_large(fill_template(TOO_MANY_ENTRIES_TEXT, &args)));
    }
    Ok(())
}

/// What is said of a directory with too many scripts.
pub open spec fn too_many_files(dir: Seq<char>) -> Seq<char> {
    fill(TOO_MANY_FILES_TEXT@, seq![decimal(MAX_LSP_CUSTOM_CHECK_FILES as nat), dir])
}

/// Refuses one more script if there are as many as are used.
pub fn enforce_custom_check_file_limit(
    signature: &Vec<CustomCheckFileSignature>,
    custom_checks_dir: &str,
) -> (r: Result<(), ConfigError>)
    ensures
        signature@.len() < MAX_LSP_CUSTOM_CHECK_FILES ==> r is Ok,
        signature@.len() >= MAX_LSP_CUSTOM_CHECK_FILES ==> (r matches Err(err) && is_too_large(
            err,
            too_many_files(custom_checks_dir@),
        )),
{
    if signature.len() >= MAX_LSP_CUSTOM_CHECK_FILES {
        let limit = decimal_text(MAX_LSP_CUSTOM_CHECK_FILES as u64);
        let args: Vec<&str> = vec![limit.as_str(), custom_checks_dir];
        assert(views(args@) =~= seq![limit@, custom_checks_dir@]);
        return Err(custom_checks_too_large(fill_template(TOO_MANY_FILES_TEXT, &args)));
    }
    Ok(())
}

/// What is said of scripts that are too long together.
pub open spec fn too_many_bytes() -> Seq<char> {
    fill(TOO_MANY_BYTES_TEXT@, seq![decimal(MAX_LSP_CUSTOM_CHECK_TOTAL_SOURCE_BYTES as nat)])
}

/// Counts bytes that were read, unless they are too many together with those before.
pub fn enforce_lsp_custom_check_hash_budget(total_hash_bytes: &mut u64, bytes_read: u64) -> (r: Result<
    (),
    ConfigError,
>)
    ensures
        if *old(total_hash_bytes) + bytes_read <= MAX_LSP_CUSTOM_CHECK_TOTAL_SOURCE_BYTES {
            r is Ok && *final(total_hash_bytes) == *old(total_hash_bytes) + bytes_read
        } else {
            (r matches Err(err) && is_too_large(err, too_many_bytes())) && *final(total_hash_bytes)
                == *old(total_hash_bytes)
        },
{
    if *total_hash_bytes > MAX_LSP_CUSTOM_CHECK_TOTAL_SOURCE_BYTES || bytes_read
        > MAX_LSP_CUSTOM_CHECK_TOTAL_SOURCE_BYTES - *total_hash_bytes {
        let limit = decimal_text(MAX_LSP_CUSTOM_CHECK_TOTAL_SOURCE_BYTES);
        let args: Vec<&str> = vec![limit.as_str()];
        assert(views(args@) =~= seq![limit@]);
        return Err(custom_checks_too_large(fill_template(TOO_MANY_BYTES_TEXT, &args)));
    }
    *total_hash_bytes = *total_hash_bytes + bytes_read;
    Ok(())
}

/// The bytes of a length, as long as the machine's word, the lowest first.
pub open spec fn length_bytes(len: usize) -> Seq<u8> {
    if usize::BITS == 64 {
        spec_u64_to_le_bytes(len as u64)
    } else {
        spec_u32_to_le_bytes(len as u32)
    }
}

/// The hash of a content: its length is hashed before its bytes, as in the hash of a vector.
pub open spec fn hash_of(content: Seq<u8>) -> u64 {
    DefaultHasher::spec_finish(seq![length_bytes(content.len() as usize), content])
}

fn content_hash(content: &Vec<u8>) -> (r: u64)
    ensures
        r == hash_of(content@),
{
    let len: usize = content.len();
    let prefix = if usize::BITS == 64 {
        u64_to_le_bytes(len as u64)
    } else {
        u32_to_le_bytes(len as u32)
    };
    let mut hasher = DefaultHasher::new();
    hasher.write(prefix.as_slice());
    hasher.write(content.as_slice());
    assert(hasher@ =~= seq![length_bytes(len), content@]);
    hasher.finish()
}

/// What is said of a script that has become too long.
pub open spec fn file_grew(max_source_bytes: u64, path: Seq<char>) -> Seq<char> {
    fill(FILE_GREW_TEXT@, seq![decimal(max_source_bytes as nat), path])
}

/// Whether the content of a script with a given length is read.
pub open spec fn is_hashed(len: Option<u64>, max_source_bytes: u64) -> bool {
    len matches Some(n) && n <= max_source_bytes
}

/// Whether the content of a script with a given length is read, as `is_hashed` says.
pub fn hashes_content(len: Option<u64>, max_source_bytes: u64) -> (r: bool)
    ensures
        r == is_hashed(len, max_source_bytes),
{
    match len {
        Some(n) => n <= max_source_bytes,
        None => false,
    }
}

/// The hash of a script, given what was read of it. There is none for a script that is not read or
/// cannot be read.
pub fn custom_check_signature_hash(
    path: &str,
    len: Option<u64>,
    content: Option<Vec<u8>>,
    total_hash_bytes: &mut u64,
    max_source_bytes: u64,
) -> (r: Result<Option<u64>, ConfigError>)
    ensures
        match content {
            Some(bytes) if is_hashed(len, max_source_bytes) => {
                if bytes@.len() > max_source_bytes {
                    &&& r matches Err(err) && is_too_large(err, file_grew(max_source_bytes, path@))
                    &&& *final(total_hash_bytes) == *old(total_hash_bytes)
                } else if *old(total_hash_bytes) + bytes@.len()
                    > MAX_LSP_CUSTOM_CHECK_TOTAL_SOURCE_BYTES {
                    &&& r matches Err(err) && is_too_large(err, too_many_bytes())
                    &&& *final(total_hash_bytes) == *old(total_hash_bytes)
                } else {
                    &&& r == Ok::<Option<u64>, ConfigError>(Some(hash_of(bytes@)))
                    &&& *final(total_hash_bytes) == *old(total_hash_bytes) + bytes@.len()
                }
            },
            _ => r == Ok::<Option<u64>, ConfigError>(None) && *final(total_hash_bytes) == *old(
                total_hash_bytes,
            ),
        },
{
    if !hashes_content(len, max_source_bytes) {
        return Ok(None);
    }
    match content {
        Some(bytes) => {
            let bytes_read: u64 = bytes.len() as u64;
            if bytes_read > max_source_bytes {
                let limit = decimal_text(max_source_bytes);
                let args: Vec<&str> = vec![limit.as_str(), path];
                assert(views(args@) =~= seq![limit@, path@]);
                return Err(custom_checks_too_large(fill_template(FILE_GREW_TEXT, &args)));
            }
            if let Err(err) = enforce_lsp_custom_check_hash_budget(total_hash_bytes, bytes_read) {
                return Err(err);
            }
            Ok(Some(content_hash(&bytes)))
        },
        None => Ok(None),
    }
}

/// How many of the scripts come before one in the order of paths, or have the same path.
pub open spec fn place_of(signature: Seq<SignatureView>, path: Seq<char>, from: int) -> int
    decreases signature.len() - from,
{
    if 0 <= from < signature.len() && !text_before(path, signature[from].path) {
        place_of(signature, path, from + 1)
    } else {
        from
    }
}

/// A script put in its place among others.
pub open spec fn with_signature(signature: Seq<SignatureView>, added: SignatureView) -> Seq<
    SignatureView,
> {
    signature.insert(place_of(signature, added.path, 0), added)
}

/// The scripts that were found so far, in the order of their paths.
#[derive(Debug)]
pub struct SignatureCollector {
    pub custom_checks_dir: String,
    /// The most entries that the directory may have.
    pub max_entries: usize,
    /// The longest script, in bytes, that is read.
    pub max_source_bytes: u64,
    /// How many entries were seen.
    pub entries: usize,
    /// How many bytes were read.
    pub total_hash_bytes: u64,
    pub signature: Vec<CustomCheckFileSignature>,
}

/// The model of the scripts that were found so far.
pub struct CollectorView {
    pub custom_checks_dir: Seq<char>,
    pub max_entries: usize,
    pub max_source_bytes: u64,
    pub entries: usize,
    pub total_hash_bytes: u64,
    pub signature: Seq<SignatureView>,
}

impl View for SignatureCollector {
    type V = CollectorView;

    open spec fn view(&self) -> CollectorView {
        CollectorView {
            custom_checks_dir: self.custom_checks_dir@,
            max_entries: self.max_entries,
            max_source_bytes: self.max_source_bytes,
            entries: self.entries,
            total_hash_bytes: self.total_hash_bytes,
            signature: signature_views(self.signature@),
        }
    }
}

impl SignatureCollector {
    /// Nothing was found in a directory yet.
    pub fn new(custom_checks_dir: &str, max_entries: usize, max_source_bytes: u64) -> (r:
        SignatureCollector)
        ensures
            r@ == (CollectorView {
                custom_checks_dir: custom_checks_dir@,
                max_entries,
                max_source_bytes,
                entries: 0,
                total_hash_bytes: 0,
                signature: Seq::empty(),
            }),
    {
        let r = SignatureCollector {
            custom_checks_dir: custom_checks_dir.to_string(),
            max_entries,
            max_source_bytes,
            entries: 0,
            total_hash_bytes: 0,
            signature: Vec::new(),
        };
        assert(signature_views(r.signature@) =~= Seq::<SignatureView>::empty());
        r
    }

    /// Sees one more entry of the directory, unless it is one too many.
    pub fn next_entry(&mut self) -> (r: Result<(), ConfigError>)
        ensures
            if old(self).entries < old(self).max_entries {
                r is Ok && final(self)@ == (CollectorView {
                    entries: (old(self).entries + 1) as usize,
                    ..old(self)@
                })
            } else {
                (r matches Err(err) && is_too_large(
                    err,
                    too_many_entries(old(self).max_entries, old(self).custom_checks_dir@),
                )) && final(self)@ == old(self)@
            },
    {
        if let Err(err) = enforce_custom_check_entry_limit(
            self.entries,
            self.custom_checks_dir.as_str(),
            self.max_entries,
        ) {
            return Err(err);
        }
        self.entries = self.entries + 1;
        Ok(())
    }

    /// Whether one more script is used.
    pub fn admit_script(&self) -> (r: Result<(), ConfigError>)
        ensures
            self.signature@.len() < MAX_LSP_CUSTOM_CHECK_FILES ==> r is Ok,
            self.signature@.len() >= MAX_LSP_CUSTOM_CHECK_FILES ==> (r matches Err(err)
                && is_too_large(err, too_many_files(self.custom_checks_dir@))),
    {
        enforce_custom_check_file_limit(&self.signature, self.custom_checks_dir.as_str())
    }

    /// Puts a script in its place, given what was read of it.
    pub fn add_script(
        &mut self,
        path: String,
        modified: Option<i128>,
        len: Option<u64>,
        content: Option<Vec<u8>>,
    ) -> (r: Result<(), ConfigError>)
        ensures
            match content {
                Some(bytes) if is_hashed(len, old(self).max_source_bytes) => {
                    if bytes@.len() > old(self).max_source_bytes {
                        &&& r matches Err(err) && is_too_large(
                            err,
                            file_grew(old(self).max_source_bytes, path@),
                        )
                        &&& final(self)@ == old(self)@
                    } else if old(self).total_hash_bytes + bytes@.len()
                        > MAX_LSP_CUSTOM_CHECK_TOTAL_SOURCE_BYTES {
                        &&& r matches Err(err) && is_too_large(err, too_many_bytes())
                        &&& final(self)@ == old(self)@
                    } else {
                        &&& r is Ok
                        &&& final(self)@ == (CollectorView {
                            total_hash_bytes: (old(self).total_hash_bytes + bytes@.len()) as u64,
                            signature: with_signature(
                                old(self)@.signature,
                                SignatureView {
                                    path: path@,
                                    modified,
                                    len,
                                    content_hash: Some(hash_of(bytes@)),
                                },
                            ),
                            ..old(self)@
                        })
                    }
                },
                _ => r is Ok && final(self)@ == (CollectorView {
                    signature: with_signature(
                        old(self)@.signature,
                        SignatureView { path: path@, modified, len, content_hash: None },
                    ),
                    ..old(self)@
                }),
            },
    {
        let mut total: u64 = self.total_hash_bytes;
        let content_hash = match custom_check_signature_hash(
            path.as_str(),
            len,
            content,
            &mut total,
            self.max_source_bytes,
        ) {
            Ok(hash) => hash,
            Err(err) => {
                return Err(err);
            },
        };
        self.total_hash_bytes = total;
        let ghost all = signature_views(self.signature@);
        let mut at: usize = 0;
        while at < self.signature.len() && !comes_before(
            path.as_str(),
            self.signature[at].path.as_str(),
        )
            invariant
                at <= self.signature.len(),
                all == signature_views(self.signature@),
                place_of(all, path@, 0) == place_of(all, path@, at as int),
            decreases self.signature.len() - at,
        {
            at += 1;
        }
        let added = CustomCheckFileSignature { path, modified, len, content_hash };
        self.signature.insert(at, added);
        assert(signature_views(self.signature@) =~= all.insert(at as int, added@));
        Ok(())
    }

    /// What the scripts are recognised by.
    pub fn finish(self) -> (r: Vec<CustomCheckFileSignature>)
        ensures
            signature_views(r@) == self@.signature,
    {
        self.signature
    }
}

// ---------------------------------------------------------------------------
// The cache key
// ---------------------------------------------------------------------------

/// What a checker was made from: a configuration and the scripts of the custom checks.
#[derive(Debug)]
pub struct CheckerCacheKey {
    pub config: Config,
    pub custom_checks_signature: Vec<CustomCheckFileSignature>,
}

/// The model of what a checker was made from.
pub struct KeyView {
    pub config: ConfigView,
    pub custom_checks_signature: Seq<SignatureView>,
}

impl View for CheckerCacheKey {
    type V = KeyView;

    open spec fn view(&self) -> KeyView {
        KeyView {
            config: self.config@,
            custom_checks_signature: signature_views(self.custom_checks_signature@),
        }
    }
}

fn same_signature(a: &CustomCheckFileSignature, b: &CustomCheckFileSignature) -> (r: bool)
    ensures
        r == (a@ == b@),
{
    let same_modified = match (a.modified, b.modified) {
        (Some(a), Some(b)) => a == b,
        (None, None) => true,
        _ => false,
    };
    let same_len = match (a.len, b.len) {
        (Some(a), Some(b)) => a == b,
        (None, None) => true,
        _ => false,
    };
    let same_hash = match (a.content_hash, b.content_hash) {
        (Some(a), Some(b)) => a == b,
        (None, None) => true,
        _ => false,
    };
    same_text(a.path.as_str(), b.path.as_str()) && same_modified && same_len && same_hash
}

impl CheckerCacheKey {
    /// Whether two checkers are made from the same.
    pub fn same_as(&self, other: &CheckerCacheKey) -> (r: bool)
        ensures
            r == (self@ == other@),
    {
        let a = &self.custom_checks_signature;
        let b = &other.custom_checks_signature;
        if !self.config.same_as(&other.config) {
            return false;
        }
        if a.len() != b.len() {
            assert(self@.custom_checks_signature.len() != other@.custom_checks_signature.len());
            return false;
        }
        let mut i: usize = 0;
        while i < a.len()
            invariant
                i <= a.len(),
                a@.len() == b@.len(),
                a@ == self.custom_checks_signature@,
                b@ == other.custom_checks_signature@,
                forall|j: int| 0 <= j < i ==> (#[trigger] a@[j])@ == b@[j]@,
            decreases a.len() - i,
        {
            if !same_signature(&a[i], &b[i]) {
                assert(self@.custom_checks_signature[i as int]
                    != other@.custom_checks_signature[i as int]);
                return false;
            }
            i += 1;
        }
        assert(self@.custom_checks_signature =~= other@.custom_checks_signature);
        true
    }
}

/// What a checker is made from.
#[derive(Debug)]
pub struct CheckerInputs {
    pub config: Config,
    pub key: CheckerCacheKey,
    /// Warnings about what is left out.
    pub warnings: Vec<String>,
}

/// The configuration that is used: without custom checks if they exceed a limit.
pub open spec fn used_config(
    config: ConfigView,
    signature: Result<Vec<CustomCheckFileSignature>, ConfigError>,
) -> ConfigView {
    match signature {
        Ok(_) => config,
        Err(_) => ConfigView { custom_checks_dir: None, ..config },
    }
}

/// What a checker is made from, given a configuration and the scripts that were found for it. Custom
/// checks that exceed a limit are left out with a warning; any other error is returned.
pub fn checker_cache_key_with_lsp_fallback(
    config: Config,
    signature: Result<Vec<CustomCheckFileSignature>, ConfigError>,
) -> (r: Result<CheckerInputs, ConfigError>)
    ensures
        match signature {
            Ok(found) => r matches Ok(inputs) && inputs.config == config && inputs.key@.config
                == config@ && inputs.key@.custom_checks_signature == signature_views(found@)
                && inputs.warnings@.len() == 0,
            Err(ConfigError::CustomChecksTooLarge { message }) => r matches Ok(inputs)
                && inputs.config@ == used_config(config@, signature) && inputs.key@ == (KeyView {
                config: inputs.config@,
                custom_checks_signature: Seq::empty(),
            }) && string_views(inputs.warnings@) == seq![
                fill(CHECKS_DISABLED_TEXT@, seq![message@]),
            ],
            Err(err) => r == Err::<CheckerInputs, ConfigError>(err),
        },
{
    match signature {
        Ok(found) => {
            let copy = config.duplicate();
            Ok(
                CheckerInputs {
                    config,
                    key: CheckerCacheKey { config: copy, custom_checks_signature: found },
                    warnings: Vec::new(),
                },
            )
        },
        Err(ConfigError::CustomChecksTooLarge { message }) => {
            let args: Vec<&str> = vec![message.as_str()];
            assert(views(args@) =~= seq![message@]);
            let warning = fill_template(CHECKS_DISABLED_TEXT, &args);
            let mut config = config;
            config.custom_checks_dir = None;
            let copy = config.duplicate();
            let warnings: Vec<String> = vec![warning];
            let key = CheckerCacheKey { config: copy, custom_checks_signature: Vec::new() };
            assert(string_views(warnings@) =~= seq![fill(CHECKS_DISABLED_TEXT@, seq![message@])]);
            assert(key@.custom_checks_signature =~= Seq::<SignatureView>::empty());
            Ok(CheckerInputs { config, key, warnings })
        },
        Err(err) => Err(err),
    }
}

// ---------------------------------------------------------------------------
// Laws
// ---------------------------------------------------------------------------

/// Whether scripts stand in the order of their paths.
pub open spec fn sorted_by_path(signature: Seq<SignatureView>) -> bool {
    forall|i: int, j: int|
        0 <= i < j < signature.len() ==> !text_before(
            (#[trigger] signature[j]).path,
            (#[trigger] signature[i]).path,
        )
}

proof fn lemma_place_of(signature: Seq<SignatureView>, path: Seq<char>, from: int)
    requires
        0 <= from <= signature.len(),
    ensures
        from <= place_of(signature, path, from) <= signature.len(),
        forall|i: int|
            from <= i < place_of(signature, path, from) ==> !text_before(
                path,
                (#[trigger] signature[i]).path,
            ),
        place_of(signature, path, from) < signature.len() ==> text_before(
            path,
            signature[place_of(signature, path, from)].path,
        ),
    decreases signature.len() - from,
{
    if from < signature.len() && !text_before(path, signature[from].path) {
        lemma_place_of(signature, path, from + 1);
    }
}

/// The scripts stay in the order of their paths, and none but the added one comes or goes.
pub proof fn law_signature_stays_sorted(signature: Seq<SignatureView>, added: SignatureView)
    requires
        sorted_by_path(signature),
    ensures
        sorted_by_path(with_signature(signature, added)),
        with_signature(signature, added).to_multiset() == signature.to_multiset().insert(added),
{
    broadcast use vstd::seq_lib::group_to_multiset_ensures;

    let k = place_of(signature, added.path, 0);
    let all = with_signature(signature, added);
    lemma_place_of(signature, added.path, 0);
    assert forall|i: int, j: int| 0 <= i < j < all.len() implies !text_before(
        (#[trigger] all[j]).path,
        (#[trigger] all[i]).path,
    ) by {
        if j < k {
            assert(all[j] == signature[j] && all[i] == signature[i]);
        } else if j == k {
            assert(all[i] == signature[i]);
        } else {
            assert(all[j] == signature[j - 1]);
            if i < k {
                assert(all[i] == signature[i]);
            } else if i == k {
                if text_before(all[j].path, added.path) {
                    law_text_order_is_transitive(all[j].path, added.path, signature[k].path);
                    if j - 1 == k {
                        law_text_order_is_irreflexive(signature[k].path);
                    } else {
                        assert(!text_before(signature[j - 1].path, signature[k].path));
                    }
                }
            } else {
                assert(all[i] == signature[i - 1]);
            }
        }
    }
    assert(all[k] == added);
    assert(all.remove(k) =~= signature);
    assert(all.contains(added));
    assert(all.to_multiset().count(added) > 0);
    assert(all.to_multiset() =~= signature.to_multiset().insert(added));
}

/// The limits: a million bytes for a document, 64 kilobytes for a configuration, 16 custom checks, and 256
/// kilobytes for all of their scripts.
pub proof fn law_the_limits(text: Seq<char>, version: Option<i32>)
    ensures
        exceeds_live_limit(text) <==> encode_utf8(text).len() > 1_000_000,
        exceeds_saved_limit(text) <==> encode_utf8(text).len() > 1_000_000,
        live_document(text, version).version == version,
        live_document(text, version).text == if encode_utf8(text).len() > 1_000_000 {
            None
        } else {
            Some(text)
        },
        MAX_CONFIG_BYTES == 65_536,
        MAX_LSP_CUSTOM_CHECK_FILES == 16,
        MAX_LSP_CUSTOM_CHECK_TOTAL_SOURCE_BYTES == 262_144,
        CUSTOM_CHECK_EXTENSION@ == "rhai"@,
{
}

/// The content of a script is read exactly if its length is known and within the limit.
pub proof fn law_long_scripts_are_not_read(len: Option<u64>, max_source_bytes: u64)
    ensures
        is_hashed(len, max_source_bytes) <==> len is Some && len->0 <= max_source_bytes,
{
}

/// Two checkers are made from the same exactly if their configurations say the same and each of their
/// scripts has the same path, time, length and hash.
pub proof fn law_keys_tell_every_difference(a: CheckerCacheKey, b: CheckerCacheKey)
    ensures
        a@ == b@ <==> {
            let x = a.custom_checks_signature@;
            let y = b.custom_checks_signature@;
            &&& a.config@ == b.config@
            &&& x.len() == y.len()
            &&& forall|i: int|
                0 <= i < x.len() ==> {
                    &&& (#[trigger] x[i]).path@ == y[i].path@
                    &&& x[i].modified == y[i].modified
                    &&& x[i].len == y[i].len
                    &&& x[i].content_hash == y[i].content_hash
                }
        },
{
    let x = a.custom_checks_signature@;
    let y = b.custom_checks_signature@;
    let (p, q) = (signature_views(x), signature_views(y));
    if a@ == b@ {
        assert(p.len() == x.len() && q.len() == y.len());
        assert forall|i: int| 0 <= i < x.len() implies {
            &&& (#[trigger] x[i]).path@ == y[i].path@
            &&& x[i].modified == y[i].modified
            &&& x[i].len == y[i].len
            &&& x[i].content_hash == y[i].content_hash
        } by {
            assert(p[i] == x[i]@ && q[i] == y[i]@);
        }
    }
    if a.config@ == b.config@ && x.len() == y.len() && forall|i: int|
        0 <= i < x.len() ==> {
            &&& (#[trigger] x[i]).path@ == y[i].path@
            &&& x[i].modified == y[i].modified
            &&& x[i].len == y[i].len
            &&& x[i].content_hash == y[i].content_hash
        } {
        assert(p =~= q) by {
            assert forall|i: int| 0 <= i < p.len() implies p[i] == q[i] by {
                assert(x[i].path@ == y[i].path@);
            }
        }
    }
}

/// Custom checks that exceed a limit are left out, and nothing else of the configuration changes.
pub proof fn law_only_custom_checks_are_left_out(
    config: ConfigView,
    signature: Result<Vec<CustomCheckFileSignature>, ConfigError>,
)
    ensures
        ({
            let used = used_config(config, signature);
            &&& used.framework == config.framework
            &&& used.disable_checks == config.disable_checks
            &&& used.enable_checks == config.enable_checks
            &&& used.warn_checks == config.warn_checks
            &&& used.start_after == config.start_after
            &&& used.check_down == config.check_down
            &&& used.postgres_version == config.postgres_version
            &&& used.custom_checks_dir == if signature is Ok {
                config.custom_checks_dir
            } else {
                None
            }
        }),
{
}

/// A directory of custom checks that does not start at the root is one in the workspace: its path behind
/// that of the workspace, with one separator between them. One that starts at the root stays, on a
/// platform without drives.
pub proof fn law_relative_directories_are_in_the_workspace(
    resolved: Seq<char>,
    root: Seq<char>,
    dir: Seq<char>,
)
    requires
        is_resolved(resolved, root, dir),
    ensures
        (dir.len() == 0 || dir[0] != '/') && root.len() > 0 && root.last() == '/' ==> resolved
            == root + dir,
        (dir.len() == 0 || dir[0] != '/') && root.len() > 0 && root.last() != '/' && root.last()
            != '\\' && root.last() != ':' ==> resolved == root + seq!['/'] + dir || resolved == root
            + seq!['\\'] + dir,
        dir.len() > 0 && dir[0] == '/' && (root.len() < 2 || root[1] != ':') ==> resolved == dir,
{
    assert(root.push('/') + dir =~= root + seq!['/'] + dir);
    assert(root.push('\\') + dir =~= root + seq!['\\'] + dir);
}

/// An error about a limit is one about custom checks and says which limit is exceeded.
pub proof fn law_errors_name_the_limit(err: ConfigError, max_entries: usize, dir: Seq<char>)
    ensures
        is_too_large(err, too_many_entries(max_entries, dir)) ==> err is CustomChecksTooLarge
            && err->CustomChecksTooLarge_message@ == "more than "@ + decimal(max_entries as nat)
            + " directory entries in "@ + dir,
        is_too_large(err, too_many_files(dir)) ==> err is CustomChecksTooLarge
            && err->CustomChecksTooLarge_message@ == "more than "@ + decimal(16)
            + " .rhai custom check files in "@ + dir,
{
    reveal_strlit("more than {0} directory entries in {1}");
    reveal_strlit("more than {0} .rhai custom check files in {1}");
    reveal_strlit("more than ");
    reveal_strlit(" directory entries in ");
    reveal_strlit(" .rhai custom check files in ");
    lemma_two_holes(
        TOO_MANY_ENTRIES_TEXT@,
        "more than "@,
        " directory entries in "@,
        decimal(max_entries as nat),
        dir,
    );
    lemma_two_holes(
        TOO_MANY_FILES_TEXT@,
        "more than "@,
        " .rhai custom check files in "@,
        decimal(16),
        dir,
    );
}

proof fn lemma_two_holes(
    template: Seq<char>,
    before: Seq<char>,
    middle: Seq<char>,
    first: Seq<char>,
    second: Seq<char>,
)
    requires
        template =~= before + (seq!['{', '0', '}'] + (middle + (seq!['{', '1', '}'] + Seq::<
            char,
        >::empty()))),
        forall|i: int| 0 <= i < before.len() ==> #[trigger] before[i] != '{',
        forall|i: int| 0 <= i < middle.len() ==> #[trigger] middle[i] != '{',
    ensures
        fill(template, seq![first, second]) == before + first + middle + second,
{
    let none = Seq::<char>::empty();
    let args = seq![first, second];
    law_holes_are_filled(before, '0', middle + (seq!['{', '1', '}'] + none), args);
    law_holes_are_filled(middle, '1', none, args);
    law_plain_templates_stay(none, args);
    assert(before + (first + (middle + (second + none))) =~= before + first + middle + second);
}

/// The hash of a script is that of its length, then of its bytes.
pub proof fn law_lengths_are_hashed_first(content: Seq<u8>)
    ensures
        usize::BITS == 64 ==> hash_of(content) == DefaultHasher::spec_finish(
            seq![spec_u64_to_le_bytes(content.len() as usize as u64), content],
        ),
        usize::BITS != 64 ==> hash_of(content) == DefaultHasher::spec_finish(
            seq![spec_u32_to_le_bytes(content.len() as usize as u32), content],
        ),
{
}

} // verus!
