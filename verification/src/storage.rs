//! Where the application keeps its files: which directory to recommend, and
//! which files of a directory have a wanted extension.

use crate::text::{chars_of, texts};
use vstd::prelude::*;
use vstd::string::*;

verus! {

/// The directories that the application can keep its files in.
#[derive(Debug, Clone, PartialEq, Eq)]
pub struct StorageRootInfo {
    pub documents_path: String,
    pub appdata_path: String,
    pub recommended_path: String,
}

/// The directories as mathematical values.
pub struct StorageRootInfoView {
    pub documents_path: Seq<char>,
    pub appdata_path: Seq<char>,
    pub recommended_path: Seq<char>,
}

impl View for StorageRootInfo {
    type V = StorageRootInfoView;

    open spec fn view(&self) -> StorageRootInfoView {
        StorageRootInfoView {
            documents_path: self.documents_path@,
            appdata_path: self.appdata_path@,
            recommended_path: self.recommended_path@,
        }
    }
}

/// How many times `mark` stands at the start of `text`.
pub open spec fn leading_count(text: Seq<char>, mark: char) -> nat
    decreases text.len(),
{
    if text.len() > 0 && text[0] == mark {
        1 + leading_count(text.skip(1), mark)
    } else {
        0
    }
}

/// The lower-case form of an ASCII capital; any other character is kept.
pub open spec fn lower_char(ch: char) -> char {
    if 'A' <= ch <= 'Z' {
        ((ch as u8 + 32) as u8) as char
    } else {
        ch
    }
}

/// An extension in the form that extensions are compared in: without
/// leading dots, ASCII capitals in lower case.
pub open spec fn sanitized_extension(extension: Seq<char>) -> Seq<char> {
    extension.skip(leading_count(extension, '.') as int).map_values(|ch: char| lower_char(ch))
}

/// The lower-case form of `text`, ASCII capitals only.
pub open spec fn lowered(text: Seq<char>) -> Seq<char> {
    text.map_values(|ch: char| lower_char(ch))
}

/// The count of leading marks is at most the length of the text; the
/// characters before it are the mark, the one at it is not.
proof fn lemma_leading_count(text: Seq<char>, mark: char)
    ensures
        leading_count(text, mark) <= text.len(),
        forall|i: int| 0 <= i < leading_count(text, mark) ==> text[i] == mark,
        leading_count(text, mark) < text.len() ==> text[leading_count(text, mark) as int] != mark,
    decreases text.len(),
{
    if text.len() > 0 && text[0] == mark {
        let rest = text.skip(1);
        lemma_leading_count(rest, mark);
        assert forall|i: int| 0 <= i < leading_count(text, mark) implies text[i] == mark by {
            if i > 0 {
                assert(rest[i - 1] == text[i]);
            }
        }
        if leading_count(text, mark) < text.len() {
            let at = leading_count(text, mark) as int;
            assert(rest[at - 1] == text[at]);
        }
    }
}

/// A position that ends a run of marks from the start is the leading count.
proof fn lemma_leading_count_is(text: Seq<char>, mark: char, at: int)
    requires
        0 <= at <= text.len(),
        forall|i: int| 0 <= i < at ==> text[i] == mark,
        at < text.len() ==> text[at] != mark,
    ensures
        leading_count(text, mark) == at,
{
    lemma_leading_count(text, mark);
    let count = leading_count(text, mark) as int;
    if count < at {
        assert(text[count] == mark);
    } else if count > at {
        assert(text[at] == mark);
    }
}

/// The lower-case form of one character, ASCII capitals only.
pub fn to_lower(ch: char) -> (lower: char)
    ensures
        lower == lower_char(ch),
{
    if 'A' <= ch && ch <= 'Z' {
        ((ch as u8) + 32) as char
    } else {
        ch
    }
}

/// Appends to `out` the lower-case form of `chars` from position `from` on.
fn push_lowered(out: &mut String, chars: &Vec<char>, from: usize)
    requires
        from <= chars.len(),
    ensures
        final(out)@ == old(out)@ + lowered(chars@.skip(from as int)),
{
    let mut at: usize = from;
    assert(out@ =~= old(out)@ + lowered(chars@.subrange(from as int, at as int)));
    while at < chars.len()
        invariant
            from <= at <= chars.len(),
            out@ == old(out)@ + lowered(chars@.subrange(from as int, at as int)),
        decreases chars.len() - at,
    {
        out.push(to_lower(chars[at]));
        at += 1;
        assert(out@ =~= old(out)@ + lowered(chars@.subrange(from as int, at as int)));
    }
    assert(chars@.subrange(from as int, at as int) =~= chars@.skip(from as int));
}

/// Brings an extension into the form that extensions are compared in:
/// leading dots are dropped and ASCII capitals become lower case.
pub fn sanitize_extension(extension: &str) -> (sanitized: String)
    ensures
        sanitized@ == sanitized_extension(extension@),
{
    let chars = chars_of(extension);
    let mut start: usize = 0;
    while start < chars.len() && chars[start] == '.'
        invariant
            start <= chars.len(),
            forall|i: int| 0 <= i < start ==> chars@[i] == '.',
        decreases chars.len() - start,
    {
        start += 1;
    }
    proof {
        lemma_leading_count_is(chars@, '.', start as int);
    }
    let mut sanitized = String::new();
    push_lowered(&mut sanitized, &chars, start);
    assert(sanitized@ =~= sanitized_extension(extension@));
    sanitized
}

/// The directory to recommend: the documents directory when there is one,
/// else the application's data directory.
pub fn choose_recommended_path(documents_path: &str, appdata_path: &str) -> (recommended: String)
    ensures
        recommended@ == (if documents_path@.len() > 0 {
            documents_path@
        } else {
            appdata_path@
        }),
{
    if !documents_path.is_empty() {
        return documents_path.to_owned();
    }
    appdata_path.to_owned()
}

/// The storage directories with the recommendation among them. A directory
/// that could not be found is given as the empty string.
pub fn storage_root_info(documents_path: String, appdata_path: String) -> (info: StorageRootInfo)
    ensures
        info@.documents_path == documents_path@,
        info@.appdata_path == appdata_path@,
        info@.recommended_path == (if documents_path@.len() > 0 {
            documents_path@
        } else {
            appdata_path@
        }),
{
    let recommended_path = choose_recommended_path(documents_path.as_str(), appdata_path.as_str());
    StorageRootInfo { documents_path, appdata_path, recommended_path }
}

/// `std::path::PathBuf`, a path of the file system. It is only made known
/// here; nothing is said of what it holds.
#[verifier::external_type_specification]
#[verifier::external_body]
pub struct ExPathBuf(std::path::PathBuf);

/// The text that `Path::to_string_lossy` makes of `path`.
pub uninterp spec fn lossy_path_text(path: std::path::PathBuf) -> Seq<char>;

/// Calls `Path::to_string_lossy`, which gives the path as text and puts
/// U+FFFD where the path is not Unicode. The contract only names the
/// outcome.
#[verifier::external_body]
fn path_text(path: &std::path::PathBuf) -> (text: String)
    ensures
        text@ == lossy_path_text(*path),
{
    path.to_string_lossy().into_owned()
}

/// The path as text.
pub fn to_string_path(path: std::path::PathBuf) -> (text: String)
    ensures
        text@ == lossy_path_text(path),
{
    path_text(&path)
}

/// What a directory listing says of one entry.
#[derive(Debug, Clone, PartialEq, Eq)]
pub struct DirectoryEntry {
    /// The entry's path as text.
    pub path: String,
    /// The extension of the entry's name, without the dot; empty when the
    /// name has none.
    pub extension: String,
    /// Whether the entry is a regular file.
    pub is_file: bool,
}

/// An entry as a mathematical value.
pub struct DirectoryEntryView {
    pub path: Seq<char>,
    pub extension: Seq<char>,
    pub is_file: bool,
}

impl View for DirectoryEntry {
    type V = DirectoryEntryView;

    open spec fn view(&self) -> DirectoryEntryView {
        DirectoryEntryView { path: self.path@, extension: self.extension@, is_file: self.is_file }
    }
}

/// The views of a listing.
pub open spec fn listing(entries: Seq<DirectoryEntry>) -> Seq<DirectoryEntryView> {
    entries.map_values(|entry: DirectoryEntry| entry@)
}

/// Whether an entry is a regular file whose extension, in lower case, is
/// `wanted`.
pub open spec fn is_wanted(entry: DirectoryEntryView, wanted: Seq<char>) -> bool {
    entry.is_file && lowered(entry.extension) == wanted
}

/// The paths of the wanted entries, in the order of the listing.
pub open spec fn wanted_paths(entries: Seq<DirectoryEntryView>, wanted: Seq<char>) -> Seq<
    Seq<char>,
>
    decreases entries.len(),
{
    if entries.len() == 0 {
        Seq::empty()
    } else if is_wanted(entries.last(), wanted) {
        wanted_paths(entries.drop_last(), wanted).push(entries.last().path)
    } else {
        wanted_paths(entries.drop_last(), wanted)
    }
}

/// The paths of the regular files in `entries` whose extension is
/// `extension`, compared without regard to leading dots and ASCII case, in
/// the order of the listing.
pub fn files_with_extension(entries: &Vec<DirectoryEntry>, extension: &str) -> (files: Vec<String>)
    ensures
        texts(files@) == wanted_paths(
            listing(entries@),
            sanitized_extension(extension@),
        ),
{
    let wanted = sanitize_extension(extension);
    let ghost all = listing(entries@);
    let mut files: Vec<String> = Vec::new();
    let mut i: usize = 0;
    assert(all.take(0) =~= Seq::<DirectoryEntryView>::empty());
    assert(texts(files@) =~= wanted_paths(all.take(0), wanted@));
    while i < entries.len()
        invariant
            i <= entries.len(),
            all == listing(entries@),
            wanted@ == sanitized_extension(extension@),
            texts(files@) == wanted_paths(all.take(i as int), wanted@),
        decreases entries.len() - i,
    {
        let entry = &entries[i];
        proof {
            let next = all.take(i + 1);
            assert(next.drop_last() =~= all.take(i as int));
            assert(next.last() == entry@);
        }
        if entry.is_file {
            let chars = chars_of(entry.extension.as_str());
            let mut lower = String::new();
            push_lowered(&mut lower, &chars, 0);
            assert(lower@ =~= lowered(entry.extension@)) by {
                assert(chars@.skip(0) =~= chars@);
            }
            if lower == wanted {
                let ghost before = files@;
                files.push(entry.path.clone());
                assert(texts(files@) =~= texts(before).push(
                    entry.path@,
                ));
            }
        }
        i += 1;
    }
    assert(all.take(entries.len() as int) =~= all);
    files
}

} // verus!
