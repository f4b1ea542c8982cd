//! File system paths.
//!
//! A path is a `std::path::PathBuf`, read by the rules of the platform that the crate is built
//! for. Contracts speak of a path through [`path_bytes`], the bytes that it is made of, and
//! through [`parts`], the components that those bytes spell.

use std::path::PathBuf;
use vstd::prelude::*;
use vstd::utf8::*;
use crate::text;

verus! {

/// `std::path::PathBuf`, an owned path.
#[verifier::external_type_specification]
#[verifier::external_body]
pub struct ExPathBuf(PathBuf);

/// One component of a path, told apart as `std::path::Component` does it.
pub enum PathPart {
    /// A Windows prefix, such as `C:`.
    Prefix(Seq<u8>),
    /// The root directory.
    Root,
    /// The current directory, `.`.
    Current,
    /// The parent directory, `..`.
    Up,
    /// A name.
    Normal(Seq<u8>),
}

/// What a `PathBuf` holds: its bytes, in the platform's encoding of path strings, in which
/// Unicode text stands as UTF-8.
pub uninterp spec fn path_bytes(path: PathBuf) -> Seq<u8>;

/// The components that `Path::components` finds in a path of these bytes.
pub uninterp spec fn parts(path: Seq<u8>) -> Seq<PathPart>;

/// The bytes of what `Path::parent` returns for a path of these bytes.
pub uninterp spec fn parent_of(path: Seq<u8>) -> Option<Seq<u8>>;

/// The bytes of what `Path::join` returns for `path` under `dir`.
pub uninterp spec fn joined(dir: Seq<u8>, path: Seq<u8>) -> Seq<u8>;

/// The text that `Path::display` shows for a path of these bytes.
pub uninterp spec fn displayed(path: Seq<u8>) -> Seq<char>;

/// The bytes of an optional path.
pub open spec fn option_bytes(path: Option<PathBuf>) -> Option<Seq<u8>> {
    match path {
        Some(p) => Some(path_bytes(p)),
        None => None,
    }
}

/// The bytes of each path of a list.
pub open spec fn list_bytes(paths: Seq<PathBuf>) -> Seq<Seq<u8>> {
    Seq::new(paths.len(), |i: int| path_bytes(paths[i]))
}

/// Whether two paths are the same path, spelled the same way or not.
pub open spec fn same(a: Seq<u8>, b: Seq<u8>) -> bool {
    parts(a) == parts(b)
}

/// The file name of a path: its last component, if that is a name.
pub open spec fn file_name_of(path: Seq<u8>) -> Option<Seq<u8>> {
    if parts(path).len() > 0 {
        match parts(path).last() {
            PathPart::Normal(name) => Some(name),
            _ => None,
        }
    } else {
        None
    }
}

/// The place of the last `.` in a file name, or -1.
pub open spec fn last_dot(name: Seq<u8>) -> int
    decreases name.len(),
{
    if name.len() == 0 {
        -1
    } else if name.last() == 0x2e {
        name.len() - 1
    } else {
        last_dot(name.drop_last())
    }
}

/// A file name without its extension. A `.` at the very front starts no extension.
pub open spec fn stem_of(name: Seq<u8>) -> Seq<u8> {
    if last_dot(name) <= 0 {
        name
    } else {
        name.take(last_dot(name))
    }
}

/// The extension of a file name: what follows its last `.`, unless that stands at the front.
pub open spec fn extension_of(name: Seq<u8>) -> Option<Seq<u8>> {
    if last_dot(name) <= 0 {
        None
    } else {
        Some(name.skip(last_dot(name) + 1))
    }
}

/// Whether a backslash is part of a name, as on Unix, and not a separator, as on Windows.
pub open spec fn backslash_in_names() -> bool {
    parts(encode_utf8(seq!['\\'])) == seq![PathPart::Normal(encode_utf8(seq!['\\']))]
}

/// Whether a text starts like a drive letter.
pub open spec fn starts_like_drive(text: Seq<char>) -> bool {
    text.len() >= 2 && text[1] == ':'
}

/// Whether a text is one name in a path.
pub open spec fn plain_name(text: Seq<char>) -> bool {
    &&& text.len() > 0
    &&& text != seq!['.']
    &&& text != seq!['.', '.']
    &&& !text.contains('/')
    &&& backslash_in_names() || !(text.contains('\\') || starts_like_drive(text))
}

/// Whether a character separates components or ends a drive letter on some platform.
pub open spec fn is_path_mark(c: char) -> bool {
    c == '/' || c == '\\' || c == ':'
}

/// Whether a text can be put behind any other without starting a component of its own.
pub open spec fn plain_tail(tail: Seq<char>) -> bool {
    &&& tail.len() > 2
    &&& forall|i: int| 0 <= i < tail.len() ==> !is_path_mark(#[trigger] tail[i])
}

/// Whether `whole`, made in `dir` from `stem` with the tail `a`, is another path than those made
/// there from `stem` with other tails.
pub open spec fn keeps_apart(whole: Seq<u8>, dir: Seq<u8>, stem: Seq<char>, a: Seq<char>) -> bool {
    forall|b: Seq<char>|
        plain_tail(b) && a != b ==> !same(whole, #[trigger] joined(dir, encode_utf8(stem + b)))
}

/// Whether every component is a name.
pub open spec fn all_names(path: Seq<PathPart>) -> bool {
    forall|i: int| 0 <= i < path.len() ==> (#[trigger] path[i]) is Normal
}

/// Whether a byte is a separator on Windows.
pub open spec fn is_windows_separator(b: u8) -> bool {
    b == 0x2f || b == 0x5c
}

/// Whether a path begins with two separators, as Windows prefixes other than drives do.
pub open spec fn starts_with_two_separators(path: Seq<u8>) -> bool {
    path.len() >= 2 && is_windows_separator(path[0]) && is_windows_separator(path[1])
}

/// Whether a path begins like a verbatim path, with `\\?\`.
pub open spec fn starts_verbatim(path: Seq<u8>) -> bool {
    &&& starts_with_two_separators(path)
    &&& path.len() >= 4
    &&& path[2] == 0x3f
    &&& is_windows_separator(path[3])
}

/// Whether a path begins like a verbatim network path, with `\\?\UNC\`.
pub open spec fn starts_verbatim_unc(path: Seq<u8>) -> bool {
    &&& starts_verbatim(path)
    &&& path.len() >= 8
    &&& path[4] == 0x55
    &&& path[5] == 0x4e
    &&& path[6] == 0x43
    &&& is_windows_separator(path[7])
}

/// Whether the first backslash behind `\\?\UNC\` stands at `i`.
pub open spec fn is_first_backslash(path: Seq<u8>, i: int) -> bool {
    path[i] == 0x5c && forall|j: int| 8 <= j < i ==> path[j] != 0x5c
}

/// Whether a verbatim network path names a share: something stands right behind the backslash
/// that ends the name of the server.
pub open spec fn names_share(path: Seq<u8>) -> bool {
    exists|i: int|
        8 <= i < path.len() - 1 && is_first_backslash(path, i) && path[i + 1] != 0x5c
}

/// Whether a path that begins with two separators leaves a prefix open, so that a name put behind
/// it becomes part of the prefix or changes how the rest is read. In a verbatim path the prefix
/// is closed by a root behind it, and by a share in one that asks for it. In another path it is
/// closed once something stands behind a third separator: `\\server` and `\\.\` leave it open,
/// `\\server\share` and `\\.\C:` do not.
pub open spec fn leaves_prefix_open(path: Seq<u8>) -> bool {
    if starts_verbatim(path) {
        ||| parts(path).len() < 2
        ||| !(parts(path)[1] is Root)
        ||| starts_verbatim_unc(path) && !names_share(path)
    } else {
        forall|i: int| 2 <= i < path.len() - 1 ==> !is_windows_separator(#[trigger] path[i])
    }
}

/// Whether a path is, on Windows, read in another way when a name is joined to it.
pub open spec fn prefix_like(path: Seq<u8>) -> bool {
    &&& !backslash_in_names()
    &&& starts_with_two_separators(path)
    &&& leaves_prefix_open(path)
}

/// Whether a path ends in something other than a prefix or the root.
pub open spec fn has_parent(path: Seq<PathPart>) -> bool {
    path.len() > 0 && !(path.last() is Prefix) && !(path.last() is Root)
}

/// `PathBuf::clone`: a path of the same bytes.
#[verifier::external_body]
pub(crate) fn copy_path(path: &PathBuf) -> (copy: PathBuf)
    ensures
        path_bytes(copy) == path_bytes(*path),
{
    path.clone()
}

/// `PathBuf::from` on text: a path whose bytes are the text in UTF-8. Text without a separator
/// that does not start like a drive letter, and that is not `.` or `..`, is one component, a name.
/// Where a backslash is part of a name, there are no drive letters either.
#[verifier::external_body]
pub(crate) fn path_from(text: &str) -> (path: PathBuf)
    ensures
        path_bytes(path) == encode_utf8(text@),
        plain_name(text@) ==> parts(path_bytes(path)) == seq![
            PathPart::Normal(encode_utf8(text@)),
        ],
{
    PathBuf::from(text)
}

/// `==` on paths: they are equal where their components are.
#[verifier::external_body]
pub(crate) fn same_path(a: &PathBuf, b: &PathBuf) -> (equal: bool)
    ensures
        equal == same(path_bytes(*a), path_bytes(*b)),
{
    a == b
}

/// `Path::parent`: the path without its last component, which is the front of the path as it is
/// spelled. A path that ends in a root or a prefix has no parent, nor has the empty path.
#[verifier::external_body]
pub(crate) fn parent(path: &PathBuf) -> (above: Option<PathBuf>)
    ensures
        option_bytes(above) == parent_of(path_bytes(*path)),
        above is Some == has_parent(parts(path_bytes(*path))),
        above matches Some(p) ==> parts(path_bytes(p)) == parts(path_bytes(*path)).drop_last(),
        above matches Some(p) ==> path_bytes(p).is_prefix_of(path_bytes(*path)),
{
    path.parent().map(|p| p.to_path_buf())
}

/// `Path::join`: `path` put below `dir`. Names are put behind the components of `dir`, unless
/// `dir` is one of the Windows paths that are read in another way with a name behind them. In any
/// directory, what is made of the same text with different tails are different paths: a tail
/// without separators stays in the last component, or in the prefix where all is one.
#[verifier::external_body]
pub(crate) fn join(dir: &PathBuf, path: &PathBuf) -> (whole: PathBuf)
    ensures
        path_bytes(whole) == joined(path_bytes(*dir), path_bytes(*path)),
        all_names(parts(path_bytes(*path))) && !prefix_like(path_bytes(*dir)) ==> parts(
            path_bytes(whole),
        ) == parts(path_bytes(*dir)) + parts(path_bytes(*path)),
        forall|stem: Seq<char>, tail: Seq<char>|
            path_bytes(*path) == #[trigger] encode_utf8(stem + tail) && plain_tail(tail)
                ==> keeps_apart(path_bytes(whole), path_bytes(*dir), stem, tail),
{
    dir.join(path)
}

/// `Path::file_name`: the last component, if it is a name.
#[verifier::external_body]
pub(crate) fn file_name(path: &PathBuf) -> (name: Option<PathBuf>)
    ensures
        option_bytes(name) == file_name_of(path_bytes(*path)),
{
    path.file_name().map(PathBuf::from)
}

/// `Path::file_stem`: the file name up to its last `.`, or all of it where no `.` stands behind
/// its first character. It is cut out of one name, so it holds a backslash only where that is no
/// separator. A slash can stand in it on Windows only, in a path that is taken verbatim.
#[verifier::external_body]
pub(crate) fn file_stem(path: &PathBuf) -> (stem: Option<PathBuf>)
    ensures
        option_bytes(stem) == match file_name_of(path_bytes(*path)) {
            Some(name) => Some(stem_of(name)),
            None => None,
        },
        stem matches Some(s) ==> (text::utf8_text(path_bytes(s)) matches Some(t) ==> (t.contains(
            '\\',
        ) ==> backslash_in_names()) && (t.contains('/') ==> !backslash_in_names())),
{
    path.file_stem().map(PathBuf::from)
}

/// `Path::extension`: the file name behind its last `.`, if one stands behind its first
/// character.
#[verifier::external_body]
pub(crate) fn extension(path: &PathBuf) -> (ending: Option<PathBuf>)
    ensures
        option_bytes(ending) == match file_name_of(path_bytes(*path)) {
            Some(name) => extension_of(name),
            None => None,
        },
{
    path.extension().map(PathBuf::from)
}

/// `Path::to_str`: the path as text, if it is valid Unicode.
#[verifier::external_body]
pub(crate) fn path_text(path: &PathBuf) -> (text: Option<String>)
    ensures
        text is Some == text::utf8_text(path_bytes(*path)) is Some,
        text matches Some(t) ==> text::utf8_text(path_bytes(*path)) == Some(t@),
{
    path.to_str().map(|t| t.to_owned())
}

/// `Path::display`: the path as text to be shown. A path that is valid Unicode is shown as it
/// is; what stands in for other bytes is left to the platform.
#[verifier::external_body]
pub(crate) fn display(path: &PathBuf) -> (text: String)
    ensures
        text@ == displayed(path_bytes(*path)),
        text::utf8_text(path_bytes(*path)) matches Some(t) ==> text@ == t,
{
    path.display().to_string()
}

/// The file name of a path as text, or `other` where it has none or none that is Unicode.
pub open spec fn name_or(path: Seq<u8>, other: Seq<char>) -> Seq<char> {
    match file_name_of(path) {
        Some(name) => match text::utf8_text(name) {
            Some(text) => text,
            None => other,
        },
        None => other,
    }
}

/// The file name of `path`, or `other` where the path has none or none that is Unicode.
pub fn name_text_or(path: &PathBuf, other: &str) -> (text: String)
    ensures
        text@ == name_or(path_bytes(*path), other@),
{
    match file_name(path) {
        Some(name) => match path_text(&name) {
            Some(text) => text,
            None => other.to_owned(),
        },
        None => other.to_owned(),
    }
}

/// A copy of an optional path.
pub fn copy_option(path: &Option<PathBuf>) -> (copy: Option<PathBuf>)
    ensures
        option_bytes(copy) == option_bytes(*path),
{
    match path {
        Some(p) => Some(copy_path(p)),
        None => None,
    }
}

/// `dir` with the text `name` joined to it.
pub fn join_text(dir: &PathBuf, name: &str) -> (whole: PathBuf)
    ensures
        path_bytes(whole) == joined(path_bytes(*dir), encode_utf8(name@)),
        plain_name(name@) && !prefix_like(path_bytes(*dir)) ==> parts(path_bytes(whole)) == parts(
            path_bytes(*dir),
        ).push(PathPart::Normal(encode_utf8(name@))),
        forall|stem: Seq<char>, tail: Seq<char>|
            name@ == #[trigger] (stem + tail) && plain_tail(tail) ==> keeps_apart(
                path_bytes(whole),
                path_bytes(*dir),
                stem,
                tail,
            ),
{
    let sub = path_from(name);
    let whole = join(dir, &sub);
    proof {
        let one = seq![PathPart::Normal(encode_utf8(name@))];
        assert(all_names(one));
        assert(parts(path_bytes(*dir)) + one =~= parts(path_bytes(*dir)).push(
            PathPart::Normal(encode_utf8(name@)),
        ));
        assert forall|stem: Seq<char>, tail: Seq<char>|
            name@ == #[trigger] (stem + tail) && plain_tail(tail) implies keeps_apart(
            path_bytes(whole),
            path_bytes(*dir),
            stem,
            tail,
        ) by {
            assert(path_bytes(sub) == encode_utf8(stem + tail));
        }
    }
    whole
}

} // verus!
