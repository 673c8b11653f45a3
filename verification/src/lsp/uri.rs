//! File URIs.

use crate::text::{
    find_char, from_chars, occurs_at, opt_str, opt_text, position_from, same_text, to_chars,
};
use vstd::prelude::*;
use vstd::utf8::{
    char_is_scalar, decode_utf8, encode_scalar, encode_utf8, encode_utf8_decode_utf8,
    encode_utf8_valid_utf8, has_width_1_encoding, is_scalar, valid_utf8,
};

verus! {

/// The scheme of a file URI.
pub const FILE_SCHEME: &'static str = "file://";

/// The text of the error with which `String::from_utf8` refuses bytes.
pub uninterp spec fn utf8_error_text(bytes: Seq<u8>) -> Seq<char>;

/// `String::from_utf8`: the text that bytes encode, or an error if they are not valid UTF-8. The
/// error tells which bytes are at fault, so its text depends on the bytes alone; it is named
/// `utf8_error_text`.
#[verifier::external_body]
pub(crate) fn utf8_text(bytes: Vec<u8>) -> (r: Result<String, String>)
    ensures
        r matches Ok(s) ==> valid_utf8(bytes@) && s@ == decode_utf8(bytes@),
        r matches Err(err) ==> !valid_utf8(bytes@) && err@ == utf8_error_text(bytes@),
{
    String::from_utf8(bytes).map_err(|err| err.to_string())
}

/// Whether a path starts with two separators. On some platforms they start the name of a server or of
/// a device, which may reach over several components.
pub open spec fn starts_like_a_share(path: Seq<char>) -> bool {
    path.len() >= 2 && (path[0] == '/' || path[0] == '\\') && (path[1] == '/' || path[1] == '\\')
}

/// Whether every platform splits a path into components at its slashes alone: it does not start with
/// two of them, and has no backslash and no colon to end a drive's name.
pub open spec fn is_portable(path: Seq<char>) -> bool {
    !starts_like_a_share(path) && !path.contains('\\') && !path.contains(':')
}

/// The last position before `to` where a character stands; -1 if there is none.
pub open spec fn last_position(s: Seq<char>, c: char, to: int) -> int
    decreases to,
{
    if to <= 0 {
        -1
    } else if s[to - 1] == c {
        to - 1
    } else {
        last_position(s, c, to - 1)
    }
}

/// The last component of a path. Trailing slashes and `.` components do not count, and `..` is no
/// file name.
pub open spec fn file_name(path: Seq<char>) -> Option<Seq<char>>
    decreases path.len(),
{
    let n = path.len() as int;
    if n == 0 {
        None
    } else if path[n - 1] == '/' {
        file_name(path.drop_last())
    } else if path[n - 1] == '.' && (n == 1 || path[n - 2] == '/') {
        file_name(path.drop_last())
    } else if n >= 2 && path[n - 1] == '.' && path[n - 2] == '.' && (n == 2 || path[n - 3] == '/') {
        None
    } else {
        Some(path.skip(last_position(path, '/', n) + 1))
    }
}

/// What follows the last dot of the last component of a path, if there is such a dot and it does not
/// start the component.
pub open spec fn extension_of(path: Seq<char>) -> Option<Seq<char>> {
    match file_name(path) {
        Some(name) => {
            let dot = last_position(name, '.', name.len() as int);
            if dot <= 0 {
                None
            } else {
                Some(name.skip(dot + 1))
            }
        },
        None => None,
    }
}

/// Whether every platform finds the same last component in a path: the path does not start with two
/// separators, and what slashes alone tell to be the last component has no backslash and no colon.
pub open spec fn has_plain_name(path: Seq<char>) -> bool {
    !starts_like_a_share(path) && (file_name(path) matches Some(name) ==> !name.contains('\\')
        && !name.contains(':'))
}

/// `camino::Utf8Path::extension`: what `extension_of` says. Platforms differ in what else separates
/// the components of a path, so nothing is stated of a path that has no plain name.
#[verifier::external_body]
fn path_extension(path: &str) -> (r: Option<String>)
    ensures
        has_plain_name(path@) ==> opt_text(r) == extension_of(path@),
{
    camino::Utf8Path::new(path).extension().map(|e| e.to_string())
}

// ---------------------------------------------------------------------------
// Percent encoding
// ---------------------------------------------------------------------------

/// The value of a hexadecimal digit.
pub open spec fn hex_value(b: u8) -> Option<u8> {
    if 48 <= b <= 57 {
        Some((b - 48) as u8)
    } else if 65 <= b <= 70 {
        Some((b - 55) as u8)
    } else if 97 <= b <= 102 {
        Some((b - 87) as u8)
    } else {
        None
    }
}

fn hex_digit(b: u8) -> (r: Option<u8>)
    ensures
        r == hex_value(b),
        r matches Some(v) ==> v < 16,
{
    if 48 <= b && b <= 57 {
        Some(b - 48)
    } else if 65 <= b && b <= 70 {
        Some(b - 55)
    } else if 97 <= b && b <= 102 {
        Some(b - 87)
    } else {
        None
    }
}

/// The byte that the two hexadecimal digits after a percent sign stand for.
pub open spec fn escaped_byte(bytes: Seq<u8>, at: int) -> Option<u8> {
    if at + 3 > bytes.len() {
        None
    } else {
        match (hex_value(bytes[at + 1]), hex_value(bytes[at + 2])) {
            (Some(high), Some(low)) => Some((high * 16 + low) as u8),
            _ => None,
        }
    }
}

/// The byte that is percent-encoded at a position, as `escaped_byte` says.
pub fn percent_encoded_byte(bytes: &[u8], index: usize) -> (r: Result<u8, ()>)
    ensures
        (match r {
            Ok(b) => Some(b),
            Err(_) => None,
        }) == escaped_byte(bytes@, index as int),
{
    if index >= bytes.len() || bytes.len() - index < 3 {
        return Err(());
    }
    match (hex_digit(bytes[index + 1]), hex_digit(bytes[index + 2])) {
        (Some(high), Some(low)) => Ok(high * 16 + low),
        _ => Err(()),
    }
}

/// The bytes from position `from` on with each percent-encoded byte decoded; `None` if one of them
/// is malformed.
pub open spec fn percent_decoded(bytes: Seq<u8>, from: int) -> Option<Seq<u8>>
    decreases bytes.len() - from,
{
    if from < 0 || from >= bytes.len() {
        Some(Seq::empty())
    } else if bytes[from] == 37u8 {
        match escaped_byte(bytes, from) {
            Some(b) => if from + 3 <= bytes.len() {
                match percent_decoded(bytes, from + 3) {
                    Some(rest) => Some(seq![b] + rest),
                    None => None,
                }
            } else {
                None
            },
            None => None,
        }
    } else {
        match percent_decoded(bytes, from + 1) {
            Some(rest) => Some(seq![bytes[from]] + rest),
            None => None,
        }
    }
}

/// The text that a percent-encoded text stands for, if it is well-formed.
pub open spec fn percent_text(s: Seq<char>) -> Option<Seq<char>> {
    match percent_decoded(encode_utf8(s), 0) {
        Some(bytes) if valid_utf8(bytes) => Some(decode_utf8(bytes)),
        _ => None,
    }
}

/// Decodes a percent-encoded text, as `percent_text` says.
pub fn percent_decode_utf8(input: &str) -> (r: Result<String, ()>)
    ensures
        (match r {
            Ok(s) => Some(s@),
            Err(_) => None,
        }) == percent_text(input@),
{
    let bytes = input.as_bytes();
    let mut decoded: Vec<u8> = Vec::new();
    let mut index: usize = 0;
    let ghost all = percent_decoded(bytes@, 0);
    assert(all matches Some(rest) ==> decoded@ + rest =~= rest);
    while index < bytes.len()
        invariant
            index <= bytes@.len(),
            bytes@ == encode_utf8(input@),
            all == percent_decoded(bytes@, 0),
            match percent_decoded(bytes@, index as int) {
                Some(rest) => all == Some(decoded@ + rest),
                None => all is None,
            },
        decreases bytes@.len() - index,
    {
        let ghost before = decoded@;
        if bytes[index] == 37 {
            match percent_encoded_byte(bytes, index) {
                Ok(b) => {
                    decoded.push(b);
                    proof {
                        if let Some(rest) = percent_decoded(bytes@, index + 3) {
                            assert(before + (seq![b] + rest) =~= decoded@ + rest);
                        }
                    }
                },
                Err(e) => {
                    return Err(());
                },
            }
            index += 3;
        } else {
            decoded.push(bytes[index]);
            proof {
                if let Some(rest) = percent_decoded(bytes@, index + 1) {
                    assert(before + (seq![bytes@[index as int]] + rest) =~= decoded@ + rest);
                }
            }
            index += 1;
        }
    }
    assert(decoded@ + Seq::<u8>::empty() =~= decoded@);
    match utf8_text(decoded) {
        Ok(s) => Ok(s),
        Err(_) => Err(()),
    }
}

// ---------------------------------------------------------------------------
// Parts of a URI
// ---------------------------------------------------------------------------

/// What follows the scheme of a file URI.
pub open spec fn after_scheme(uri: Seq<char>) -> Option<Seq<char>> {
    if uri.len() >= FILE_SCHEME@.len() && uri.take(FILE_SCHEME@.len() as int) == FILE_SCHEME@ {
        Some(uri.skip(FILE_SCHEME@.len() as int))
    } else {
        None
    }
}

/// What follows the scheme of a file URI, as `after_scheme` says.
pub fn strip_file_uri(uri: &str) -> (r: Option<String>)
    ensures
        opt_text(r) == after_scheme(uri@),
{
    let chars = to_chars(uri);
    let scheme = to_chars(FILE_SCHEME);
    proof {
        if chars@.len() >= scheme@.len() {
            assert(chars@.subrange(0, scheme@.len() as int) =~= uri@.take(scheme@.len() as int));
        }
    }
    if occurs_at(&chars, 0, &scheme) {
        assert(chars@.subrange(scheme@.len() as int, chars@.len() as int) =~= uri@.skip(
            scheme@.len() as int,
        ));
        Some(from_chars(&chars, scheme.len(), chars.len()))
    } else {
        None
    }
}

/// The authority of a file URI: what stands before the first slash after the scheme.
pub open spec fn authority_of(rest: Seq<char>) -> Seq<char> {
    rest.take(position_from(rest, '/', 0))
}

/// The path of a file URI, from the first slash after the scheme on; `None` if there is no slash.
pub open spec fn path_of(rest: Seq<char>) -> Option<Seq<char>> {
    let slash = position_from(rest, '/', 0);
    if 0 <= slash < rest.len() {
        Some(rest.skip(slash))
    } else {
        None
    }
}

/// Whether an authority is this machine.
pub open spec fn is_local(authority: Seq<char>) -> bool {
    authority.len() == 0 || authority == "localhost"@
}

/// Whether an authority is this machine, as `is_local` says.
pub fn validate_file_uri_authority(authority: &str) -> (r: Option<()>)
    ensures
        r is Some <==> is_local(authority@),
{
    if authority.is_empty() || same_text(authority, "localhost") {
        Some(())
    } else {
        None
    }
}

/// The authority and the path of a file URI.
fn split_authority(rest: &str) -> (r: Option<(String, String)>)
    ensures
        match r {
            Some(parts) => path_of(rest@) == Some(parts.1@) && parts.0@ == authority_of(rest@),
            None => path_of(rest@) is None,
        },
{
    let chars = to_chars(rest);
    let slash = find_char(&chars, '/', 0);
    if slash < chars.len() {
        assert(chars@.subrange(0, slash as int) =~= rest@.take(slash as int));
        assert(chars@.subrange(slash as int, chars@.len() as int) =~= rest@.skip(slash as int));
        Some((from_chars(&chars, 0, slash), from_chars(&chars, slash, chars.len())))
    } else {
        None
    }
}

/// The path of a file URI on this machine.
pub open spec fn local_path(rest: Seq<char>) -> Option<Seq<char>> {
    if is_local(authority_of(rest)) {
        path_of(rest)
    } else {
        None
    }
}

/// The path of a file URI on this machine, as `local_path` says.
pub fn file_uri_local_path(rest: &str) -> (r: Option<String>)
    ensures
        opt_text(r) == local_path(rest@),
{
    match split_authority(rest) {
        Some(parts) => {
            let (authority, path) = parts;
            match validate_file_uri_authority(authority.as_str()) {
                Some(_) => Some(path),
                None => None,
            }
        },
        None => None,
    }
}

/// The position at or after `from` where the query or the fragment of a path starts.
pub open spec fn path_end(path: Seq<char>, from: int) -> int
    decreases path.len() - from,
{
    if 0 <= from < path.len() && path[from] != '?' && path[from] != '#' {
        path_end(path, from + 1)
    } else {
        from
    }
}

/// The path without query and fragment.
pub fn path_without_query_or_fragment(path: &str) -> (r: String)
    ensures
        r@ == path@.take(path_end(path@, 0)),
{
    let chars = to_chars(path);
    let mut i: usize = 0;
    while i < chars.len() && chars[i] != '?' && chars[i] != '#'
        invariant
            i <= chars.len(),
            chars@ == path@,
            path_end(path@, 0) == path_end(path@, i as int),
        decreases chars.len() - i,
    {
        i += 1;
    }
    assert(chars@.subrange(0, i as int) =~= path@.take(i as int));
    from_chars(&chars, 0, i)
}

/// A path as the platform writes it: on Windows the slash before the drive is not part of it.
pub open spec fn platform_path(path: Seq<char>, windows: bool) -> Seq<char> {
    if windows && path.len() > 0 && path[0] == '/' {
        path.skip(1)
    } else {
        path
    }
}

fn on_platform(path: String, windows: bool) -> (r: String)
    ensures
        r@ == platform_path(path@, windows),
{
    if !windows {
        return path;
    }
    let chars = to_chars(path.as_str());
    if chars.len() > 0 && chars[0] == '/' {
        assert(chars@.subrange(1, chars@.len() as int) =~= path@.skip(1));
        from_chars(&chars, 1, chars.len())
    } else {
        path
    }
}

/// A path of a URI, decoded.
pub open spec fn decoded_path(path: Option<Seq<char>>, windows: bool) -> Option<Seq<char>> {
    match path {
        Some(path) => match percent_text(path.take(path_end(path, 0))) {
            Some(decoded) => Some(platform_path(decoded, windows)),
            None => None,
        },
        None => None,
    }
}

/// The local path that a file URI names: without query and fragment, percent-decoded, as Windows or
/// another platform writes it. `None` for any other URI, for a file on another machine, and for a
/// malformed path.
pub open spec fn file_path(uri: Seq<char>, windows: bool) -> Option<Seq<char>> {
    match after_scheme(uri) {
        Some(rest) => decoded_path(local_path(rest), windows),
        None => None,
    }
}

/// The path in a file URI, whatever machine it is on.
pub open spec fn any_file_path(uri: Seq<char>, windows: bool) -> Option<Seq<char>> {
    match after_scheme(uri) {
        Some(rest) => decoded_path(path_of(rest), windows),
        None => None,
    }
}

fn decode_path(path: Option<String>, windows: bool) -> (r: Option<String>)
    ensures
        opt_text(r) == decoded_path(opt_text(path), windows),
{
    match path {
        Some(path) => {
            let path = path_without_query_or_fragment(path.as_str());
            match percent_decode_utf8(path.as_str()) {
                Ok(s) => Some(on_platform(s, windows)),
                Err(_) => None,
            }
        },
        None => None,
    }
}

/// The local path that a file URI names, as `file_path` says.
pub fn file_uri_to_path(uri: &str, windows: bool) -> (r: Option<String>)
    ensures
        opt_text(r) == file_path(uri@, windows),
{
    match strip_file_uri(uri) {
        Some(rest) => decode_path(file_uri_local_path(rest.as_str()), windows),
        None => None,
    }
}

fn file_uri_any_path(uri: &str, windows: bool) -> (r: Option<String>)
    ensures
        opt_text(r) == any_file_path(uri@, windows),
{
    match strip_file_uri(uri) {
        Some(rest) => {
            let path = match split_authority(rest.as_str()) {
                Some(parts) => Some(parts.1),
                None => None,
            };
            decode_path(path, windows)
        },
        None => None,
    }
}

/// Whether an extension is that of SQL files, in upper or lower case.
pub open spec fn is_sql_name(extension: Seq<char>) -> bool {
    extension.len() == 3 && (extension[0] == 's' || extension[0] == 'S') && (extension[1] == 'q'
        || extension[1] == 'Q') && (extension[2] == 'l' || extension[2] == 'L')
}

/// Whether an extension is that of SQL files, as `is_sql_name` says.
pub fn is_sql_extension(extension: &str) -> (r: bool)
    ensures
        r == is_sql_name(extension@),
{
    let chars = to_chars(extension);
    chars.len() == 3 && (chars[0] == 's' || chars[0] == 'S') && (chars[1] == 'q' || chars[1]
        == 'Q') && (chars[2] == 'l' || chars[2] == 'L')
}

/// Whether the extension of a path is that of SQL files.
pub open spec fn is_sql_path(path: Seq<char>) -> bool {
    extension_of(path) matches Some(extension) && is_sql_name(extension)
}

/// Whether a URI names an SQL file. Only a file URI with a well-formed path does, and the path's
/// extension decides. What the extension of a path without a plain name is depends on the platform.
pub open spec fn names_sql_file(uri: Seq<char>, windows: bool, is_sql: bool) -> bool {
    match any_file_path(uri, windows) {
        Some(path) => has_plain_name(path) ==> is_sql == is_sql_path(path),
        None => !is_sql,
    }
}

/// Whether a URI names an SQL file, as `names_sql_file` says.
pub fn is_sql_file_uri(uri: &str, windows: bool) -> (r: bool)
    ensures
        names_sql_file(uri@, windows, r),
{
    match file_uri_any_path(uri, windows) {
        Some(path) => match path_extension(path.as_str()) {
            Some(extension) => is_sql_extension(extension.as_str()),
            None => false,
        },
        None => false,
    }
}

/// What the server needs to know of a URI.
#[derive(Debug, Clone)]
pub struct UriInfo {
    pub uri: String,
    /// Whether it names an SQL file.
    pub is_sql: bool,
    /// The local path that it names.
    pub path: Option<String>,
}

/// The model of what the server needs to know of a URI.
pub struct UriView {
    pub uri: Seq<char>,
    pub is_sql: bool,
    pub path: Option<Seq<char>>,
}

impl View for UriInfo {
    type V = UriView;

    open spec fn view(&self) -> UriView {
        UriView { uri: self.uri@, is_sql: self.is_sql, path: opt_text(self.path) }
    }
}

impl UriInfo {
    /// Reads a URI, on Windows or on another platform.
    pub fn of(uri: &str, windows: bool) -> (r: UriInfo)
        ensures
            r@.uri == uri@,
            r@.path == file_path(uri@, windows),
            names_sql_file(uri@, windows, r@.is_sql),
    {
        UriInfo {
            uri: uri.to_string(),
            is_sql: is_sql_file_uri(uri, windows),
            path: file_uri_to_path(uri, windows),
        }
    }
}

/// The root of the workspace: the first workspace folder if it is a local path, else the root URI if
/// it is one, else the current directory.
pub open spec fn workspace_root(
    folder: Option<Seq<char>>,
    root_uri: Option<Seq<char>>,
    current_dir: Seq<char>,
    windows: bool,
) -> Seq<char> {
    match folder {
        Some(uri) if file_path(uri, windows) is Some => file_path(uri, windows)->0,
        _ => match root_uri {
            Some(uri) if file_path(uri, windows) is Some => file_path(uri, windows)->0,
            _ => current_dir,
        },
    }
}

/// The root of the workspace, as `workspace_root` says.
pub fn select_workspace_root(
    folder: Option<&str>,
    root_uri: Option<&str>,
    current_dir: &str,
    windows: bool,
) -> (r: String)
    ensures
        r@ == workspace_root(opt_str(folder), opt_str(root_uri), current_dir@, windows),
{
    if let Some(uri) = folder {
        if let Some(path) = file_uri_to_path(uri, windows) {
            return path;
        }
    }
    if let Some(uri) = root_uri {
        if let Some(path) = file_uri_to_path(uri, windows) {
            return path;
        }
    }
    current_dir.to_string()
}

// ---------------------------------------------------------------------------
// Laws
// ---------------------------------------------------------------------------

proof fn lemma_no_percent_byte(bytes: Seq<u8>, from: int)
    requires
        0 <= from <= bytes.len(),
        !bytes.contains(37u8),
    ensures
        percent_decoded(bytes, from) == Some(bytes.skip(from)),
    decreases bytes.len() - from,
{
    if from < bytes.len() {
        assert(bytes.contains(bytes[from]));
        lemma_no_percent_byte(bytes, from + 1);
        assert(seq![bytes[from]] + bytes.skip(from + 1) =~= bytes.skip(from));
    } else {
        assert(bytes.skip(from) =~= Seq::<u8>::empty());
    }
}

proof fn lemma_scalar_bytes(scalar: u32)
    requires
        scalar != 37,
        is_scalar(scalar),
    ensures
        !encode_scalar(scalar).contains(37u8),
{
    if has_width_1_encoding(scalar) {
        assert((scalar & 0x7F) as u8 != 37u8) by (bit_vector)
            requires
                scalar != 37,
                scalar <= 0x7F,
        ;
    }
    assert(0xC0 | ((scalar >> 6) & 0x1F) as u8 != 37u8) by (bit_vector);
    assert(0xE0 | ((scalar >> 12) & 0x0F) as u8 != 37u8) by (bit_vector);
    assert(0xF0 | ((scalar >> 18) & 0x7) as u8 != 37u8) by (bit_vector);
    assert(0x80 | (scalar & 0x3F) as u8 != 37u8) by (bit_vector);
    assert(0x80 | ((scalar >> 6) & 0x3F) as u8 != 37u8) by (bit_vector);
    assert(0x80 | ((scalar >> 12) & 0x3F) as u8 != 37u8) by (bit_vector);
}

proof fn lemma_char_bytes(c: char)
    requires
        c != '%',
    ensures
        !encode_scalar(c as u32).contains(37u8),
{
    char_is_scalar(c);
    lemma_scalar_bytes(c as u32);
}

proof fn lemma_encoded_percent(s: Seq<char>)
    requires
        !s.contains('%'),
    ensures
        !encode_utf8(s).contains(37u8),
    decreases s.len(),
{
    if s.len() > 0 {
        let rest = s.drop_first();
        assert(s[0] != '%') by {
            assert(s.contains(s[0]));
        }
        assert(!rest.contains('%')) by {
            if rest.contains('%') {
                let i = choose|i: int| 0 <= i < rest.len() && rest[i] == '%';
                assert(s[i + 1] == '%');
            }
        }
        lemma_encoded_percent(rest);
        lemma_char_bytes(s[0]);
        let head = encode_scalar(s[0] as u32);
        let tail = encode_utf8(rest);
        let all = encode_utf8(s);
        assert(all == head + tail);
        if all.contains(37u8) {
            let k = choose|k: int| 0 <= k < all.len() && all[k] == 37u8;
            if k < head.len() {
                assert(head.contains(head[k]));
            } else {
                assert(tail.contains(tail[k - head.len()]));
            }
        }
    }
}

/// A text without percent signs stands for itself.
pub proof fn law_plain_text_stays(s: Seq<char>)
    requires
        !s.contains('%'),
    ensures
        percent_text(s) == Some(s),
{
    broadcast use {encode_utf8_valid_utf8, encode_utf8_decode_utf8};

    let bytes = encode_utf8(s);
    lemma_encoded_percent(s);
    lemma_no_percent_byte(bytes, 0);
    assert(bytes.skip(0) =~= bytes);
}

proof fn lemma_position_reached(s: Seq<char>, c: char, from: int, k: int)
    requires
        0 <= from <= k < s.len(),
        s[k] == c,
        forall|i: int| from <= i < k ==> #[trigger] s[i] != c,
    ensures
        position_from(s, c, from) == k,
    decreases k - from,
{
    if from < k {
        lemma_position_reached(s, c, from + 1, k);
    }
}

proof fn lemma_path_end_reached(path: Seq<char>, from: int)
    requires
        0 <= from <= path.len(),
        !path.contains('?'),
        !path.contains('#'),
    ensures
        path_end(path, from) == path.len(),
    decreases path.len() - from,
{
    if from < path.len() {
        assert(path.contains(path[from]));
        lemma_path_end_reached(path, from + 1);
    }
}

/// The file URI of an absolute path names that path, if nothing in it needs encoding. On Windows the
/// slash before the drive is not part of what it names.
pub proof fn law_plain_file_uri(path: Seq<char>, windows: bool)
    requires
        path.len() > 0,
        path[0] == '/',
        !path.contains('%'),
        !path.contains('?'),
        !path.contains('#'),
    ensures
        file_path(FILE_SCHEME@ + path, false) == Some(path),
        file_path(FILE_SCHEME@ + path, true) == Some(path.skip(1)),
        any_file_path(FILE_SCHEME@ + path, windows) == file_path(FILE_SCHEME@ + path, windows),
{
    let uri = FILE_SCHEME@ + path;
    let n = FILE_SCHEME@.len() as int;
    assert(uri.take(n) =~= FILE_SCHEME@);
    assert(uri.skip(n) =~= path);
    lemma_position_reached(path, '/', 0, 0);
    assert(path.take(0) =~= Seq::<char>::empty());
    assert(path.skip(0) =~= path);
    lemma_path_end_reached(path, 0);
    assert(path.take(path.len() as int) =~= path);
    law_plain_text_stays(path);
}

/// A file on another machine has no local path, though it may be an SQL file.
pub proof fn law_remote_files_have_no_path(uri: Seq<char>, windows: bool)
    requires
        after_scheme(uri) matches Some(rest) && !is_local(authority_of(rest)),
    ensures
        file_path(uri, windows) is None,
{
}

proof fn lemma_decoded_behind(a: Seq<u8>, b: Seq<u8>, from: int)
    requires
        0 <= from <= b.len(),
    ensures
        percent_decoded(a + b, a.len() + from) == percent_decoded(b, from),
    decreases b.len() - from,
{
    let all = a + b;
    let n = a.len() as int;
    if from < b.len() {
        assert(all[n + from] == b[from]);
        if b[from] == 37u8 {
            if from + 3 <= b.len() {
                assert(all[n + from + 1] == b[from + 1]);
                assert(all[n + from + 2] == b[from + 2]);
                lemma_decoded_behind(a, b, from + 3);
            }
        } else {
            lemma_decoded_behind(a, b, from + 1);
        }
    }
}

/// Bytes are decoded from the front. A byte other than the percent sign stands for itself. A percent sign
/// stands with two hexadecimal digits behind it for the byte that they write; without them the text
/// cannot be decoded.
pub proof fn law_escapes_are_decoded(first: u8, rest: Seq<u8>, high: u8, low: u8)
    ensures
        percent_decoded(Seq::empty(), 0) == Some(Seq::<u8>::empty()),
        first != 37 ==> percent_decoded(seq![first] + rest, 0) == match percent_decoded(rest, 0) {
            Some(decoded) => Some(seq![first] + decoded),
            None => None,
        },
        hex_value(high) is Some && hex_value(low) is Some ==> percent_decoded(
            seq![37u8, high, low] + rest,
            0,
        ) == match percent_decoded(rest, 0) {
            Some(decoded) => Some(seq![(hex_value(high)->0 * 16 + hex_value(low)->0) as u8] + decoded),
            None => None,
        },
        hex_value(high) is None || hex_value(low) is None ==> percent_decoded(
            seq![37u8, high, low] + rest,
            0,
        ) is None,
        percent_decoded(seq![37u8], 0) is None,
        percent_decoded(seq![37u8, high], 0) is None,
{
    lemma_decoded_behind(seq![first], rest, 0);
    lemma_decoded_behind(seq![37u8, high, low], rest, 0);
    assert((seq![first] + rest)[0] == first);
    let s = seq![37u8, high, low] + rest;
    assert(s[0] == 37u8 && s[1] == high && s[2] == low);
}

/// The hexadecimal digits are 0 to 9 and the letters A to F, in either case.
pub proof fn law_hexadecimal_digits(b: u8)
    ensures
        hex_value(b) is Some <==> ('0' as int <= b <= '9' as int || 'A' as int <= b <= 'F' as int
            || 'a' as int <= b <= 'f' as int),
        '0' as int <= b <= '9' as int ==> hex_value(b)->0 == b - '0' as int,
        'A' as int <= b <= 'F' as int ==> hex_value(b)->0 == b - 'A' as int + 10,
        'a' as int <= b <= 'f' as int ==> hex_value(b)->0 == b - 'a' as int + 10,
{
}

proof fn lemma_path_end_at(path: Seq<char>, from: int, end: int)
    requires
        0 <= from <= end <= path.len(),
        forall|i: int| from <= i < end ==> #[trigger] path[i] != '?' && path[i] != '#',
        end < path.len() ==> path[end] == '?' || path[end] == '#',
    ensures
        path_end(path, from) == end,
    decreases end - from,
{
    if from < end {
        assert(path[from] != '?');
        lemma_path_end_at(path, from + 1, end);
    }
}

/// A file URI is `file://`, the name of a machine, and a path from the first slash on, up to a query or
/// fragment. It names a local path if the machine is none or `localhost`: the path, decoded.
pub proof fn law_file_uris_name_their_path(
    machine: Seq<char>,
    path: Seq<char>,
    query: Seq<char>,
)
    requires
        !machine.contains('/'),
        path.len() > 0,
        path[0] == '/',
        !path.contains('?'),
        !path.contains('#'),
        query.len() > 0 ==> query[0] == '?' || query[0] == '#',
    ensures
        ({
            let uri = "file://"@ + (machine + (path + query));
            &&& file_path(uri, false) == if machine.len() == 0 || machine == "localhost"@ {
                percent_text(path)
            } else {
                None
            }
            &&& any_file_path(uri, false) == percent_text(path)
            &&& any_file_path(uri, true) == match percent_text(path) {
                Some(decoded) => Some(
                    if decoded.len() > 0 && decoded[0] == '/' {
                        decoded.skip(1)
                    } else {
                        decoded
                    },
                ),
                None => None,
            }
            &&& file_path(uri, true) == if machine.len() == 0 || machine == "localhost"@ {
                any_file_path(uri, true)
            } else {
                None
            }
        }),
{
    let rest = machine + (path + query);
    let uri = FILE_SCHEME@ + rest;
    let n = FILE_SCHEME@.len() as int;
    assert(uri.take(n) =~= FILE_SCHEME@);
    assert(uri.skip(n) =~= rest);
    let m = machine.len() as int;
    assert(rest[m] == '/');
    assert forall|i: int| 0 <= i < m implies #[trigger] rest[i] != '/' by {
        assert(machine.contains(machine[i]));
        assert(rest[i] == machine[i]);
    }
    lemma_position_reached(rest, '/', 0, m);
    assert(rest.take(m) =~= machine);
    assert(rest.skip(m) =~= path + query);
    let full = path + query;
    assert forall|i: int| 0 <= i < path.len() implies #[trigger] full[i] != '?' && full[i]
        != '#' by {
        assert(path.contains(path[i]));
        assert(full[i] == path[i]);
    }
    lemma_path_end_at(full, 0, path.len() as int);
    assert(full.take(path.len() as int) =~= path);
}

/// What does not start with `file://`, or has no slash behind it, names no path.
pub proof fn law_other_uris_name_no_path(uri: Seq<char>, machine: Seq<char>, windows: bool)
    requires
        !machine.contains('/'),
    ensures
        uri.len() < 7 || uri.take(7) != "file://"@ ==> file_path(uri, windows) is None
            && any_file_path(uri, windows) is None,
        file_path("file://"@ + machine, windows) is None,
        any_file_path("file://"@ + machine, windows) is None,
{
    reveal_strlit("file://");
    assert(FILE_SCHEME@.len() == 7);
    let other = FILE_SCHEME@ + machine;
    assert(other.skip(7) =~= machine);
    lemma_no_slash(machine, 0);
}

proof fn lemma_no_slash(s: Seq<char>, from: int)
    requires
        !s.contains('/'),
        0 <= from <= s.len(),
    ensures
        position_from(s, '/', from) == s.len(),
    decreases s.len() - from,
{
    if from < s.len() {
        assert(s.contains(s[from]));
        lemma_no_slash(s, from + 1);
    }
}

proof fn lemma_last_position(s: Seq<char>, c: char, to: int, k: int)
    requires
        -1 <= k < to <= s.len() || k == -1 && to == 0,
        k >= 0 ==> s[k] == c,
        forall|i: int| k < i < to ==> #[trigger] s[i] != c,
    ensures
        last_position(s, c, to) == k,
    decreases to - k,
{
    if to > 0 && k < to - 1 {
        assert(s[to - 1] != c);
        lemma_last_position(s, c, to - 1, k);
    }
}

/// The name of a file is what follows the last slash of its path; slashes at the end do not count, and
/// the names `.` and `..` are none.
pub proof fn law_file_names_follow_the_last_slash(dir: Seq<char>, name: Seq<char>)
    requires
        dir.len() == 0 || dir.last() == '/',
        name.len() > 0,
        !name.contains('/'),
        name != seq!['.'],
        name != seq!['.', '.'],
    ensures
        file_name(dir + name) == Some(name),
        file_name((dir + name).push('/')) == Some(name),
        file_name(Seq::empty()) is None,
        file_name(dir + seq!['.', '.']) is None,
{
    let path = dir + name;
    let n = path.len() as int;
    assert(name.contains(name.last()));
    assert(path.last() == name.last());
    if path[n - 1] == '.' && (n == 1 || path[n - 2] == '/') {
        if name.len() > 1 {
            assert(path[n - 2] == name[name.len() - 2]);
            assert(name.contains(name[name.len() - 2]));
        } else {
            assert(name =~= seq!['.']);
        }
    }
    if n >= 2 && path[n - 1] == '.' && path[n - 2] == '.' && (n == 2 || path[n - 3] == '/') {
        if name.len() == 1 {
            assert(dir.last() == path[n - 2]);
        } else {
            assert(path[n - 2] == name[name.len() - 2]);
            if name.len() > 2 {
                assert(path[n - 3] == name[name.len() - 3]);
                assert(name.contains(name[name.len() - 3]));
            } else {
                assert(name =~= seq!['.', '.']);
            }
        }
    }
    assert forall|i: int| dir.len() - 1 < i < n implies #[trigger] path[i] != '/' by {
        assert(path[i] == name[i - dir.len()]);
        assert(name.contains(name[i - dir.len()]));
    }
    lemma_last_position(path, '/', n, dir.len() - 1);
    assert(path.skip(dir.len() as int) =~= name);
    assert(path.push('/').drop_last() =~= path);
    let up = dir + seq!['.', '.'];
    assert(up.last() == '.' && up[up.len() - 2] == '.');
}

/// The extension of a file is what follows the last dot of its name; a name without a dot, or with none
/// but at its start, has none.
pub proof fn law_extensions_follow_the_last_dot(dir: Seq<char>, stem: Seq<char>, extension: Seq<char>)
    requires
        dir.len() == 0 || dir.last() == '/',
        !stem.contains('/'),
        !extension.contains('/'),
        !extension.contains('.'),
    ensures
        stem.len() > 0 && !(stem =~= seq!['.'] && extension.len() == 0) ==> extension_of(
            dir + (stem.push('.') + extension),
        ) == Some(extension),
        extension.len() > 0 ==> extension_of(dir + extension) is None,
        extension.len() > 0 ==> extension_of(dir + (seq!['.'] + extension)) is None,
{
    if stem.len() > 0 && !(stem =~= seq!['.'] && extension.len() == 0) {
        let name = stem.push('.') + extension;
        assert(!name.contains('/')) by {
            if name.contains('/') {
                let i = name.index_of('/');
                if i < stem.len() {
                    assert(stem[i] == '/');
                } else {
                    assert(name[i] == '/');
                    assert(i > stem.len());
                    assert(extension[i - stem.len() - 1] == '/');
                }
            }
        }
        if name == seq!['.'] {
            assert(name.len() == stem.len() + 1 + extension.len());
        }
        if name == seq!['.', '.'] {
            assert(name.len() == stem.len() + 1 + extension.len());
            assert(name[0] == stem[0]);
            assert(stem =~= seq!['.']);
        }
        law_file_names_follow_the_last_slash(dir, name);
        let k = stem.len() as int;
        assert(name[k] == '.');
        assert forall|i: int| k < i < name.len() implies #[trigger] name[i] != '.' by {
            assert(name[i] == extension[i - k - 1]);
            assert(extension.contains(extension[i - k - 1]));
        }
        lemma_last_position(name, '.', name.len() as int, k);
        assert(name.skip(k + 1) =~= extension);
    }
    if extension.len() > 0 {
        assert(extension.contains(extension[0]));
        assert(extension != seq!['.'] && extension != seq!['.', '.']) by {
            assert(seq!['.'][0] == '.' && seq!['.', '.'][0] == '.');
        }
        law_file_names_follow_the_last_slash(dir, extension);
        assert forall|i: int| -1 < i < extension.len() implies #[trigger] extension[i] != '.' by {
            assert(extension.contains(extension[i]));
        }
        lemma_last_position(extension, '.', extension.len() as int, -1);
        let hidden = seq!['.'] + extension;
        assert(!hidden.contains('/')) by {
            if hidden.contains('/') {
                let i = hidden.index_of('/');
                assert(hidden[i] == '/');
                assert(extension[i - 1] == '/');
            }
        }
        assert(hidden != seq!['.', '.']) by {
            assert(hidden[1] == extension[0]);
        }
        assert(hidden.len() > 1);
        law_file_names_follow_the_last_slash(dir, hidden);
        assert forall|i: int| 0 < i < hidden.len() implies #[trigger] hidden[i] != '.' by {
            assert(hidden[i] == extension[i - 1]);
        }
        assert(hidden[0] == '.');
        lemma_last_position(hidden, '.', hidden.len() as int, 0);
    }
}

/// A file is an SQL file exactly if its extension is `sql`, in whatever case its letters are.
pub proof fn law_sql_files_have_the_extension_sql(extension: Seq<char>)
    ensures
        is_sql_name(extension) <==> {
            &&& extension.len() == 3
            &&& extension[0] == 's' || extension[0] == 'S'
            &&& extension[1] == 'q' || extension[1] == 'Q'
            &&& extension[2] == 'l' || extension[2] == 'L'
        },
{
}

/// The workspace is the first folder, if that is a local file URI; else the root URI, if that is one; else
/// the current directory.
pub proof fn law_the_first_local_folder_is_the_workspace(
    folder: Option<Seq<char>>,
    root_uri: Option<Seq<char>>,
    current_dir: Seq<char>,
    windows: bool,
)
    ensures
        ({
            let root = workspace_root(folder, root_uri, current_dir, windows);
            let first = folder is Some && file_path(folder->0, windows) is Some;
            let second = root_uri is Some && file_path(root_uri->0, windows) is Some;
            &&& first ==> Some(root) == file_path(folder->0, windows)
            &&& !first && second ==> Some(root) == file_path(root_uri->0, windows)
            &&& !first && !second ==> root == current_dir
        }),
{
}

/// A file URI whose path needs no decoding and is written alike on all platforms is that of an SQL file
/// exactly if the name of the file ends with a dot and `sql`, in whatever case.
pub proof fn law_sql_uris_are_known_by_the_extension(
    dir: Seq<char>,
    stem: Seq<char>,
    extension: Seq<char>,
    is_sql: bool,
)
    requires
        dir.len() > 0,
        dir[0] == '/',
        dir.last() == '/',
        !starts_like_a_share(dir + (stem.push('.') + extension)),
        stem.len() > 0,
        extension.len() > 0,
        !dir.contains('%') && !dir.contains('?') && !dir.contains('#'),
        !stem.contains('%') && !stem.contains('?') && !stem.contains('#'),
        !extension.contains('%') && !extension.contains('?') && !extension.contains('#'),
        !stem.contains('/') && !stem.contains('\\') && !stem.contains(':'),
        !extension.contains('/') && !extension.contains('\\') && !extension.contains(':'),
        !extension.contains('.'),
    ensures
        names_sql_file("file://"@ + (dir + (stem.push('.') + extension)), false, is_sql) <==> is_sql
            == {
            &&& extension.len() == 3
            &&& extension[0] == 's' || extension[0] == 'S'
            &&& extension[1] == 'q' || extension[1] == 'Q'
            &&& extension[2] == 'l' || extension[2] == 'L'
        },
{
    let name = stem.push('.') + extension;
    let path = dir + name;
    assert(path[0] == '/');
    lemma_not_in_path(dir, stem, extension, '%');
    lemma_not_in_path(dir, stem, extension, '?');
    lemma_not_in_path(dir, stem, extension, '#');
    law_plain_file_uri(path, false);
    law_extensions_follow_the_last_dot(dir, stem, extension);
    assert(!name.contains('/')) by {
        lemma_not_in_name(stem, extension, '/');
    }
    assert(name.len() > 2);
    law_file_names_follow_the_last_slash(dir, name);
    lemma_not_in_name(stem, extension, '\\');
    lemma_not_in_name(stem, extension, ':');
}

proof fn lemma_not_in_path(dir: Seq<char>, stem: Seq<char>, extension: Seq<char>, c: char)
    requires
        c != '.',
        !dir.contains(c),
        !stem.contains(c),
        !extension.contains(c),
    ensures
        !(dir + (stem.push('.') + extension)).contains(c),
{
    lemma_not_in_name(stem, extension, c);
    let name = stem.push('.') + extension;
    let path = dir + name;
    if path.contains(c) {
        let i = path.index_of(c);
        assert(path[i] == c);
        if i < dir.len() {
            assert(dir[i] == c);
        } else {
            assert(name[i - dir.len()] == c);
        }
    }
}

proof fn lemma_not_in_name(stem: Seq<char>, extension: Seq<char>, c: char)
    requires
        c != '.',
        !stem.contains(c),
        !extension.contains(c),
    ensures
        !(stem.push('.') + extension).contains(c),
{
    let name = stem.push('.') + extension;
    if name.contains(c) {
        let i = name.index_of(c);
        assert(name[i] == c);
        if i < stem.len() {
            assert(stem[i] == c);
        } else {
            assert(i > stem.len());
            assert(extension[i - stem.len() - 1] == c);
        }
    }
}

/// A path is written alike on all platforms if it holds no backslash and no colon and does not start with
/// two separators.
pub proof fn law_portable_paths(path: Seq<char>)
    ensures
        !path.contains('\\') && !path.contains(':') && (path.len() < 2 || path[0] != '/' || path[1]
            != '/') ==> is_portable(path),
{
    if path.len() >= 2 {
        assert(path.contains(path[0]));
        assert(path.contains(path[1]));
    }
}

} // verus!
