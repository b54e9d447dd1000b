//! Paths as text: the file name of a path, and the paths that a run derives
//! from the path of the catalog archive.
//!
//! A path is a string whose components are separated by `/` or `\`. Its file
//! name is what follows the last separator: the whole path where it holds
//! none, nothing where it ends in one.

use crate::text::{
    append_chars, append_str, chars_of, ends_with, has_suffix, lowercase, string_of, to_lowercase,
};
use vstd::prelude::*;

verus! {

/// Whether a character separates the components of a path.
pub open spec fn is_separator(c: char) -> bool {
    c == '/' || c == '\\'
}

/// The position at which the file name of `path` begins.
pub open spec fn name_start(path: Seq<char>) -> int
    decreases path.len(),
{
    if path.len() == 0 {
        0
    } else if is_separator(path.last()) {
        path.len() as int
    } else {
        name_start(path.drop_last())
    }
}

/// The file name of `path`.
pub open spec fn file_name(path: Seq<char>) -> Seq<char> {
    path.skip(name_start(path))
}

/// The file name begins after the last separator of the path and holds none.
pub proof fn lemma_name_start(path: Seq<char>)
    ensures
        0 <= name_start(path) <= path.len(),
        name_start(path) > 0 ==> is_separator(path[name_start(path) - 1]),
        forall|j: int| name_start(path) <= j < path.len() ==> !is_separator(path[j]),
    decreases path.len(),
{
    if path.len() > 0 && !is_separator(path.last()) {
        let front = path.drop_last();
        lemma_name_start(front);
        assert forall|j: int| name_start(path) <= j < path.len() implies !is_separator(
            path[j],
        ) by {
            if j < front.len() {
                assert(front[j] == path[j]);
            }
        }
    }
}

/// The file name of a path depends only on what follows its last separator.
proof fn lemma_name_start_after(path: Seq<char>, at: int)
    requires
        0 <= at <= path.len(),
        forall|j: int| at <= j < path.len() ==> !is_separator(path[j]),
    ensures
        name_start(path) == name_start(path.take(at)),
    decreases path.len() - at,
{
    if at < path.len() {
        let front = path.drop_last();
        assert forall|j: int| at <= j < front.len() implies !is_separator(front[j]) by {}
        lemma_name_start_after(front, at);
        assert(front.take(at) == path.take(at));
    } else {
        assert(path.take(at) == path);
    }
}

fn is_separator_char(c: char) -> (r: bool)
    ensures
        r == is_separator(c),
{
    c == '/' || c == '\\'
}

/// The position at which the file name begins.
pub fn name_start_of(path: &Vec<char>) -> (r: usize)
    ensures
        r == name_start(path@),
        r <= path.len(),
{
    let mut i: usize = path.len();
    while i > 0 && !is_separator_char(path[i - 1])
        invariant
            i <= path.len(),
            forall|j: int| i <= j < path.len() ==> !is_separator(path@[j]),
        decreases i,
    {
        i -= 1;
    }
    proof {
        lemma_name_start_after(path@, i as int);
    }
    i
}

fn chars_from(chars: &Vec<char>, from: usize) -> (r: Vec<char>)
    requires
        from <= chars.len(),
    ensures
        r@ == chars@.skip(from as int),
{
    let mut r: Vec<char> = Vec::new();
    let mut i: usize = from;
    while i < chars.len()
        invariant
            from <= i <= chars.len(),
            r@ == chars@.subrange(from as int, i as int),
        decreases chars.len() - i,
    {
        r.push(chars[i]);
        i += 1;
    }
    r
}

fn chars_until(chars: &Vec<char>, to: usize) -> (r: Vec<char>)
    requires
        to <= chars.len(),
    ensures
        r@ == chars@.take(to as int),
{
    let mut r: Vec<char> = Vec::new();
    let mut i: usize = 0;
    while i < to
        invariant
            i <= to <= chars.len(),
            r@ == chars@.take(i as int),
        decreases to - i,
    {
        r.push(chars[i]);
        i += 1;
    }
    r
}

/// The file name of a path, in lower case.
pub fn lower_name_chars(file_path: &str) -> (r: Vec<char>)
    ensures
        r@ == lowercase(file_name(file_path@)),
{
    let chars = chars_of(file_path);
    let start = name_start_of(&chars);
    let name = chars_from(&chars, start);
    to_lowercase(&name)
}

/// The file name of a path, in lower case.
pub fn filename_to_lower_string(file_path: &str) -> (r: String)
    ensures
        r@ == lowercase(file_name(file_path@)),
{
    let name = lower_name_chars(file_path);
    string_of(&name)
}

/// The path of the manifest that the expansion of an archive leaves beside
/// it: the archive's path without its `.cab` extension, in whatever case that
/// is written, and with `.xml` in its place. A path without that extension
/// is kept whole.
pub open spec fn manifest_path(archive_path: Seq<char>) -> Seq<char> {
    if ends_with(lowercase(file_name(archive_path)), ".cab"@) {
        archive_path.take(archive_path.len() - 4) + ".xml"@
    } else {
        archive_path + ".xml"@
    }
}

/// The path of the rewritten manifest: beside the manifest, under the
/// manifest's file name with `_` before it.
pub open spec fn rewritten_path(manifest_path: Seq<char>) -> Seq<char> {
    manifest_path.take(name_start(manifest_path)) + seq!['_'] + file_name(manifest_path)
}

/// The rewritten manifest never takes the place of the manifest.
pub proof fn lemma_rewritten_path_differs(manifest_path: Seq<char>)
    ensures
        rewritten_path(manifest_path).len() == manifest_path.len() + 1,
        rewritten_path(manifest_path) != manifest_path,
{
    lemma_name_start(manifest_path);
}

/// The path of the manifest that the expansion of the archive leaves.
pub fn manifest_path_of(archive_path: &str) -> (r: String)
    ensures
        r@ == manifest_path(archive_path@),
{
    let chars = chars_of(archive_path);
    let name = lower_name_chars(archive_path);
    let extension = chars_of(".cab");
    proof {
        reveal_strlit(".cab");
        lemma_name_start(archive_path@);
    }
    let mut out = if has_suffix(&name, &extension) {
        chars_until(&chars, chars.len() - 4)
    } else {
        chars
    };
    append_str(&mut out, ".xml");
    string_of(&out)
}

/// The path under which the rewritten manifest is stored.
pub fn rewritten_path_of(manifest_path: &str) -> (r: String)
    ensures
        r@ == rewritten_path(manifest_path@),
{
    let chars = chars_of(manifest_path);
    let start = name_start_of(&chars);
    let mut out = chars_until(&chars, start);
    out.push('_');
    let name = chars_from(&chars, start);
    append_chars(&mut out, &name);
    string_of(&out)
}

} // verus!
