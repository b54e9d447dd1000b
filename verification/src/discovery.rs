//! Discovery: which of the files of a directory are the catalog archive and
//! the inventory collector.
//!
//! The caller lists the files below the directory; the library classifies
//! them by file name, whatever the case of its letters, and insists on at most
//! one of each kind.

use crate::error::{CatalogError, CatalogErrorView, DiscoveryError, DiscoveryErrorView};
use crate::paths::{file_name, lower_name_chars};
use crate::seqs::{lemma_filter_none, lemma_filter_push, lemma_filter_single, lemma_filter_two};
use crate::text::{
    append_chars, append_str, chars_of, contains_run, ends_with, has_run, has_suffix, lowercase,
    string_of, to_lowercase,
};
use vstd::prelude::*;

verus! {

/// The catalog archive and the inventory collector of a run.
#[derive(Debug, Clone, PartialEq, Eq)]
pub struct CatalogInfo {
    pub cab_path: String,
    pub ic_path: String,
}

/// The two paths of a `CatalogInfo`, as sequences of characters.
pub struct CatalogInfoView {
    pub cab_path: Seq<char>,
    pub ic_path: Seq<char>,
}

impl View for CatalogInfo {
    type V = CatalogInfoView;

    open spec fn view(&self) -> CatalogInfoView {
        CatalogInfoView { cab_path: self.cab_path@, ic_path: self.ic_path@ }
    }
}

impl Default for CatalogInfo {
    fn default() -> (r: Self)
        ensures
            r@ == (CatalogInfoView { cab_path: Seq::empty(), ic_path: Seq::empty() }),
    {
        CatalogInfo { cab_path: String::new(), ic_path: String::new() }
    }
}

impl From<(String, String)> for CatalogInfo {
    fn from(catalog_info: (String, String)) -> (r: Self) {
        CatalogInfo { cab_path: catalog_info.0, ic_path: catalog_info.1 }
    }
}

impl vstd::std_specs::convert::FromSpecImpl<(String, String)> for CatalogInfo {
    open spec fn obeys_from_spec() -> bool {
        true
    }

    open spec fn from_spec(catalog_info: (String, String)) -> Self {
        CatalogInfo { cab_path: catalog_info.0, ic_path: catalog_info.1 }
    }
}

/// What stands for the catalog archive where only a collector was found.
pub open spec fn no_catalog() -> Seq<char> {
    "No .cab file found"@
}

/// What stands for the collector where only a catalog archive was found.
pub open spec fn no_collector() -> Seq<char> {
    "No invc.exe file found"@
}

/// The text that the name of a collector holds unless the caller names
/// another.
pub open spec fn collector_marker() -> Seq<char> {
    "invc"@
}

/// A catalog archive: its file name ends in `.cab`, in any case.
pub open spec fn is_catalog_path(path: Seq<char>) -> bool {
    ends_with(lowercase(file_name(path)), ".cab"@)
}

/// A collector: its file name ends in `.exe` and holds `marker`, both in any
/// case.
pub open spec fn is_collector_path(path: Seq<char>, marker: Seq<char>) -> bool {
    let name = lowercase(file_name(path));
    ends_with(name, ".exe"@) && contains_run(name, lowercase(marker))
}

/// The condition that selects the catalog archives among paths.
pub open spec fn catalogs() -> spec_fn(Seq<char>) -> bool {
    |path: Seq<char>| is_catalog_path(path)
}

/// The condition that selects the collectors among paths.
pub open spec fn collectors(marker: Seq<char>) -> spec_fn(Seq<char>) -> bool {
    |path: Seq<char>| is_collector_path(path, marker)
}

/// The strings as sequences of characters.
pub open spec fn string_views(strings: Seq<String>) -> Seq<Seq<char>> {
    strings.map_values(|s: String| s@)
}

/// The names joined by `", "`.
pub open spec fn joined(names: Seq<Seq<char>>) -> Seq<char>
    decreases names.len(),
{
    if names.len() == 0 {
        Seq::empty()
    } else if names.len() == 1 {
        names[0]
    } else {
        joined(names.drop_last()) + ", "@ + names.last()
    }
}

/// The candidates that stand in each other's way: those of a kind of which
/// there is more than one, catalogs first.
pub open spec fn conflicting(found_catalogs: Seq<Seq<char>>, found_collectors: Seq<Seq<char>>) -> Seq<
    Seq<char>,
> {
    (if found_catalogs.len() > 1 {
        found_catalogs
    } else {
        Seq::empty()
    }) + (if found_collectors.len() > 1 {
        found_collectors
    } else {
        Seq::empty()
    })
}

/// What discovery makes of the files of a directory.
///
/// With one catalog and one collector both are returned as they were listed.
/// With only one of them, the other is its placeholder. With neither,
/// discovery fails with `NoFilesFound`, and with more than one of a kind
/// with `MultipleFilesFound`.
pub open spec fn discovery_outcome(files: Seq<Seq<char>>, marker: Seq<char>) -> Result<
    CatalogInfoView,
    DiscoveryErrorView,
> {
    let found_catalogs = files.filter(catalogs());
    let found_collectors = files.filter(collectors(marker));
    if found_catalogs.len() > 1 || found_collectors.len() > 1 {
        Err(
            DiscoveryErrorView::MultipleFilesFound {
                names: joined(conflicting(found_catalogs, found_collectors)),
            },
        )
    } else if found_catalogs.len() == 0 && found_collectors.len() == 0 {
        Err(DiscoveryErrorView::NoFilesFound)
    } else {
        Ok(
            CatalogInfoView {
                cab_path: if found_catalogs.len() == 1 {
                    found_catalogs[0]
                } else {
                    no_catalog()
                },
                ic_path: if found_collectors.len() == 1 {
                    found_collectors[0]
                } else {
                    no_collector()
                },
            },
        )
    }
}

/// No path is both a catalog archive and a collector.
pub proof fn lemma_kinds_exclude(path: Seq<char>, marker: Seq<char>)
    ensures
        !(is_catalog_path(path) && is_collector_path(path, marker)),
{
    reveal_strlit(".cab");
    reveal_strlit(".exe");
    let name = lowercase(file_name(path));
    if ends_with(name, ".cab"@) && ends_with(name, ".exe"@) {
        let end = name.subrange(name.len() - 4, name.len() as int);
        assert(end[3] == 'b');
        assert(end[3] == 'e');
    }
}

/// Where exactly one file is a catalog and exactly one a collector,
/// discovery returns these two, unchanged.
pub proof fn lemma_single_pair_is_found(
    files: Seq<Seq<char>>,
    marker: Seq<char>,
    catalog: int,
    collector: int,
)
    requires
        0 <= catalog < files.len(),
        0 <= collector < files.len(),
        is_catalog_path(files[catalog]),
        is_collector_path(files[collector], marker),
        forall|k: int| 0 <= k < files.len() && k != catalog ==> !is_catalog_path(files[k]),
        forall|k: int|
            0 <= k < files.len() && k != collector ==> !is_collector_path(files[k], marker),
    ensures
        discovery_outcome(files, marker) == Ok::<CatalogInfoView, DiscoveryErrorView>(
            CatalogInfoView { cab_path: files[catalog], ic_path: files[collector] },
        ),
{
    lemma_filter_single(files, catalogs(), catalog);
    lemma_filter_single(files, collectors(marker), collector);
}

/// Where no file is a catalog or a collector, discovery fails with
/// `NoFilesFound`.
pub proof fn lemma_nothing_found(files: Seq<Seq<char>>, marker: Seq<char>)
    requires
        forall|k: int|
            0 <= k < files.len() ==> !is_catalog_path(files[k]) && !is_collector_path(
                files[k],
                marker,
            ),
    ensures
        discovery_outcome(files, marker) == Err::<CatalogInfoView, DiscoveryErrorView>(
            DiscoveryErrorView::NoFilesFound,
        ),
{
    lemma_filter_none(files, catalogs());
    lemma_filter_none(files, collectors(marker));
}

/// Where two files are catalogs, or two are collectors, discovery fails
/// with `MultipleFilesFound`.
pub proof fn lemma_several_found(files: Seq<Seq<char>>, marker: Seq<char>, first: int, second: int)
    requires
        0 <= first < second < files.len(),
        (is_catalog_path(files[first]) && is_catalog_path(files[second])) || (is_collector_path(
            files[first],
            marker,
        ) && is_collector_path(files[second], marker)),
    ensures
        discovery_outcome(files, marker) matches Err(DiscoveryErrorView::MultipleFilesFound { .. }),
{
    if is_catalog_path(files[first]) && is_catalog_path(files[second]) {
        lemma_filter_two(files, catalogs(), first, second);
    } else {
        lemma_filter_two(files, collectors(marker), first, second);
    }
}

fn is_catalog_name(lower_name: &Vec<char>) -> (r: bool)
    ensures
        r == ends_with(lower_name@, ".cab"@),
{
    let extension = chars_of(".cab");
    has_suffix(lower_name, &extension)
}

fn is_collector_name(lower_name: &Vec<char>, lower_marker: &Vec<char>) -> (r: bool)
    ensures
        r == (ends_with(lower_name@, ".exe"@) && contains_run(lower_name@, lower_marker@)),
{
    let extension = chars_of(".exe");
    has_suffix(lower_name, &extension) && has_run(lower_name, lower_marker)
}

/// Whether a path names a catalog archive.
pub fn is_cab_path(file_path: &str) -> (r: bool)
    ensures
        r == is_catalog_path(file_path@),
{
    let name = lower_name_chars(file_path);
    is_catalog_name(&name)
}

/// Whether a path names a collector whose name holds `marker`.
pub fn is_ic_path_marked(file_path: &str, marker: &str) -> (r: bool)
    ensures
        r == is_collector_path(file_path@, marker@),
{
    let name = lower_name_chars(file_path);
    let lower_marker = to_lowercase(&chars_of(marker));
    is_collector_name(&name, &lower_marker)
}

/// Whether a path names a collector.
pub fn is_ic_path(file_path: &str) -> (r: bool)
    ensures
        r == is_collector_path(file_path@, collector_marker()),
{
    is_ic_path_marked(file_path, "invc")
}

proof fn lemma_string_views_push(strings: Seq<String>, s: String)
    ensures
        string_views(strings.push(s)) == string_views(strings).push(s@),
{
}

proof fn lemma_string_views_add(a: Seq<String>, b: Seq<String>)
    ensures
        string_views(a + b) == string_views(a) + string_views(b),
{
}

/// The names joined by `", "`.
pub fn join_names(names: &Vec<String>) -> (r: String)
    ensures
        r@ == joined(string_views(names@)),
{
    let mut out: Vec<char> = Vec::new();
    let mut i: usize = 0;
    while i < names.len()
        invariant
            i <= names.len(),
            out@ == joined(string_views(names@.take(i as int))),
        decreases names.len() - i,
    {
        proof {
            let done = names@.take(i as int);
            let next = names@.take(i + 1);
            lemma_string_views_push(done, names@[i as int]);
            assert(string_views(next).drop_last() == string_views(done));
        }
        if i > 0 {
            append_str(&mut out, ", ");
        }
        let name = chars_of(names[i].as_str());
        append_chars(&mut out, &name);
        i += 1;
    }
    proof {
        assert(names@.take(names@.len() as int) == names@);
    }
    string_of(&out)
}

fn clone_all(into: &mut Vec<String>, from: &Vec<String>)
    ensures
        string_views(final(into)@) == string_views(old(into)@) + string_views(from@),
{
    let mut i: usize = 0;
    while i < from.len()
        invariant
            i <= from.len(),
            string_views(into@) == string_views(old(into)@) + string_views(from@.take(i as int)),
        decreases from.len() - i,
    {
        let ghost before = into@;
        let copy = from[i].clone();
        into.push(copy);
        proof {
            lemma_string_views_push(before, copy);
            lemma_string_views_push(from@.take(i as int), from@[i as int]);
        }
        i += 1;
    }
}

/// Finds the catalog archive and the collector among `files`; a collector is
/// a file whose name ends in `.exe` and holds `marker`.
pub fn discover(files: &Vec<String>, marker: &str) -> (r: Result<CatalogInfo, DiscoveryError>)
    ensures
        match r {
            Ok(info) => discovery_outcome(string_views(files@), marker@) == Ok::<
                CatalogInfoView,
                DiscoveryErrorView,
            >(info@),
            Err(e) => discovery_outcome(string_views(files@), marker@) == Err::<
                CatalogInfoView,
                DiscoveryErrorView,
            >(e@),
        },
{
    let lower_marker = to_lowercase(&chars_of(marker));
    let mut cab_files: Vec<String> = Vec::new();
    let mut exe_files: Vec<String> = Vec::new();
    let mut i: usize = 0;
    proof {
        lemma_filter_none(string_views(files@.take(0)), catalogs());
        lemma_filter_none(string_views(files@.take(0)), collectors(marker@));
    }
    while i < files.len()
        invariant
            i <= files.len(),
            lower_marker@ == lowercase(marker@),
            string_views(cab_files@) == string_views(files@.take(i as int)).filter(catalogs()),
            string_views(exe_files@) == string_views(files@.take(i as int)).filter(
                collectors(marker@),
            ),
        decreases files.len() - i,
    {
        let file = &files[i];
        let name = lower_name_chars(file.as_str());
        proof {
            let done = files@.take(i as int);
            assert(files@.take(i + 1) == done.push(*file));
            lemma_string_views_push(done, *file);
            lemma_filter_push(string_views(done), file@, catalogs());
            lemma_filter_push(string_views(done), file@, collectors(marker@));
        }
        if is_catalog_name(&name) {
            let ghost before = cab_files@;
            let copy = file.clone();
            cab_files.push(copy);
            proof {
                lemma_string_views_push(before, copy);
            }
        }
        if is_collector_name(&name, &lower_marker) {
            let ghost before = exe_files@;
            let copy = file.clone();
            exe_files.push(copy);
            proof {
                lemma_string_views_push(before, copy);
            }
        }
        i += 1;
    }
    proof {
        assert(files@.take(files@.len() as int) == files@);
    }
    if cab_files.len() > 1 || exe_files.len() > 1 {
        let mut conflicts: Vec<String> = Vec::new();
        if cab_files.len() > 1 {
            clone_all(&mut conflicts, &cab_files);
        }
        if exe_files.len() > 1 {
            clone_all(&mut conflicts, &exe_files);
        }
        Err(DiscoveryError::MultipleFilesFound { names: join_names(&conflicts) })
    } else if cab_files.len() == 0 && exe_files.len() == 0 {
        Err(DiscoveryError::NoFilesFound)
    } else {
        let cab_path = if cab_files.len() == 1 {
            cab_files[0].clone()
        } else {
            "No .cab file found".to_owned()
        };
        let ic_path = if exe_files.len() == 1 {
            exe_files[0].clone()
        } else {
            "No invc.exe file found".to_owned()
        };
        Ok(CatalogInfo::from((cab_path, ic_path)))
    }
}

/// Finds the catalog archive and the collector among the files of a
/// directory.
pub fn get_catalog_and_ic_paths(files: &Vec<String>) -> (r: Result<CatalogInfo, CatalogError>)
    ensures
        match r {
            Ok(info) => discovery_outcome(string_views(files@), collector_marker()) == Ok::<
                CatalogInfoView,
                DiscoveryErrorView,
            >(info@),
            Err(e) => e@ matches CatalogErrorView::Discovery(d) && discovery_outcome(
                string_views(files@),
                collector_marker(),
            ) == Err::<CatalogInfoView, DiscoveryErrorView>(d),
        },
{
    match discover(files, "invc") {
        Ok(info) => Ok(info),
        Err(e) => Err(CatalogError::from(e)),
    }
}

/// What a quick look at one file name gives: the name where it holds `.cab`,
/// else nothing; and the name where it holds, in any case, `invcolpc` and
/// `.exe`, else nothing.
pub open spec fn quick_look(name: Seq<char>) -> Seq<Seq<char>> {
    let lower = lowercase(name);
    seq![
        if contains_run(name, ".cab"@) {
            name
        } else {
            Seq::empty()
        },
        if contains_run(lower, "invcolpc"@) && contains_run(lower, ".exe"@) {
            name
        } else {
            Seq::empty()
        },
    ]
}

/// A quick look at the first file name of a listing; `None` for an empty
/// listing. Later names are not looked at.
pub fn get_catalog_path(file_names: &Vec<String>) -> (r: Option<Vec<String>>)
    ensures
        match r {
            Some(pair) => file_names@.len() > 0 && string_views(pair@) == quick_look(
                file_names@[0]@,
            ),
            None => file_names@.len() == 0,
        },
{
    if file_names.len() == 0 {
        return None;
    }
    let f_name = &file_names[0];
    let name = chars_of(f_name.as_str());
    let lower = to_lowercase(&name);
    let mut cab_ic: Vec<String> = Vec::new();
    if has_run(&name, &chars_of(".cab")) {
        cab_ic.push(f_name.clone());
    } else {
        cab_ic.push(String::new());
    }
    if has_run(&lower, &chars_of("invcolpc")) && has_run(&lower, &chars_of(".exe")) {
        cab_ic.push(f_name.clone());
    } else {
        cab_ic.push(String::new());
    }
    Some(cab_ic)
}

/// What a selection of files is held against before a run: the catalog must
/// be a catalog archive and the collector a collector.
pub open spec fn selection_fault(info: CatalogInfoView) -> Option<CatalogErrorView> {
    if !is_catalog_path(info.cab_path) {
        Some(CatalogErrorView::SelectedCabFileError)
    } else if !is_collector_path(info.ic_path, collector_marker()) {
        Some(CatalogErrorView::SelectedIcFileError)
    } else {
        None
    }
}

/// Checks a selection of files before a run.
pub fn check_catalog_info(catalog_info: &CatalogInfo) -> (r: Result<(), CatalogError>)
    ensures
        match r {
            Ok(_) => selection_fault(catalog_info@) is None,
            Err(e) => selection_fault(catalog_info@) == Some(e@),
        },
{
    if !is_cab_path(catalog_info.cab_path.as_str()) {
        return Err(CatalogError::SelectedCabFileError);
    }
    if !is_ic_path(catalog_info.ic_path.as_str()) {
        return Err(CatalogError::SelectedIcFileError);
    }
    Ok(())
}

} // verus!
