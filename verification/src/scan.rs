//! The scanner: which of the entries met in a directory tree are
//! spreadsheet files, and how large they are together.
//!
//! Walking the tree happens outside this library. The caller hands over the
//! entries in the order in which the walk met them.

use vstd::prelude::*;
use crate::types::{texts, ScanResult};
use crate::utils::{has_excel_extension, is_excel_file};

verus! {

/// One entry met while walking a directory tree: its path, and its size in
/// bytes where that could be read.
#[derive(Clone, Debug, PartialEq, Eq)]
pub struct FileEntry {
    pub path: String,
    pub size: Option<u64>,
}

/// The size that an entry adds to the total: its own, or nothing where its
/// size is not known.
pub open spec fn counted_size(entry: FileEntry) -> nat {
    match entry.size {
        Some(n) => n as nat,
        None => 0,
    }
}

/// The paths of the entries that are spreadsheet files, in the order of the
/// entries.
pub open spec fn selected_paths(entries: Seq<FileEntry>) -> Seq<Seq<char>>
    decreases entries.len(),
{
    if entries.len() == 0 {
        Seq::empty()
    } else if has_excel_extension(entries.last().path@) {
        selected_paths(entries.drop_last()).push(entries.last().path@)
    } else {
        selected_paths(entries.drop_last())
    }
}

/// The sum of the sizes of the entries that are spreadsheet files.
pub open spec fn selected_size(entries: Seq<FileEntry>) -> nat
    decreases entries.len(),
{
    if entries.len() == 0 {
        0
    } else if has_excel_extension(entries.last().path@) {
        selected_size(entries.drop_last()) + counted_size(entries.last())
    } else {
        selected_size(entries.drop_last())
    }
}

/// How many of the entries are spreadsheet files.
pub open spec fn recognized_count(entries: Seq<FileEntry>) -> nat
    decreases entries.len(),
{
    if entries.len() == 0 {
        0
    } else if has_excel_extension(entries.last().path@) {
        recognized_count(entries.drop_last()) + 1
    } else {
        recognized_count(entries.drop_last())
    }
}

/// How many of the entries are not spreadsheet files.
pub open spec fn other_count(entries: Seq<FileEntry>) -> nat
    decreases entries.len(),
{
    if entries.len() == 0 {
        0
    } else if has_excel_extension(entries.last().path@) {
        other_count(entries.drop_last())
    } else {
        other_count(entries.drop_last()) + 1
    }
}

/// Whether `result` is the scan of `entries`: it lists the paths of the
/// spreadsheet files among them in their order, counts them, and holds the
/// sum of their sizes.
pub open spec fn is_scan_of(result: ScanResult, entries: Seq<FileEntry>) -> bool {
    &&& texts(result.files@) == selected_paths(entries)
    &&& result.file_count == recognized_count(entries)
    &&& result.file_count == result.files@.len()
    &&& result.total_size == selected_size(entries)
}

/// Of `n` entries with a spreadsheet extension and `m` entries without one,
/// exactly the `n` are selected.
pub proof fn lemma_scan_counts(entries: Seq<FileEntry>)
    ensures
        selected_paths(entries).len() == recognized_count(entries),
        recognized_count(entries) + other_count(entries) == entries.len(),
    decreases entries.len(),
{
    if entries.len() > 0 {
        lemma_scan_counts(entries.drop_last());
    }
}

/// Every selected path is the path of a spreadsheet file among the entries,
/// and every such entry's path is selected.
pub proof fn lemma_selected_are_recognized(entries: Seq<FileEntry>)
    ensures
        forall|k: int|
            0 <= k < selected_paths(entries).len() ==> has_excel_extension(
                #[trigger] selected_paths(entries)[k],
            ),
        forall|i: int|
            0 <= i < entries.len() && has_excel_extension((#[trigger] entries[i]).path@)
                ==> selected_paths(entries).contains(entries[i].path@),
    decreases entries.len(),
{
    if entries.len() > 0 {
        let front = entries.drop_last();
        lemma_selected_are_recognized(front);
        let all = selected_paths(entries);
        assert forall|i: int|
            0 <= i < entries.len() && has_excel_extension(
                (#[trigger] entries[i]).path@,
            ) implies all.contains(entries[i].path@) by {
            if i < front.len() {
                assert(front[i] == entries[i]);
                let k = choose|k: int|
                    0 <= k < selected_paths(front).len() && selected_paths(front)[k]
                        == entries[i].path@;
                assert(all[k] == entries[i].path@);
            } else {
                assert(all[all.len() - 1] == entries[i].path@);
            }
        }
    }
}

/// The sum of the selected sizes does not shrink as entries are added.
pub proof fn lemma_selected_size_grows(entries: Seq<FileEntry>, n: int)
    requires
        0 <= n <= entries.len(),
    ensures
        selected_size(entries.take(n)) <= selected_size(entries),
    decreases entries.len() - n,
{
    if n < entries.len() {
        let next = entries.take(n + 1);
        assert(next.drop_last() == entries.take(n));
        lemma_selected_size_grows(entries, n + 1);
    } else {
        assert(entries.take(n) == entries);
    }
}

/// Scans the entries where the sum of the selected sizes fits in 64 bits;
/// `None` where it does not.
pub fn try_scan_entries(entries: &Vec<FileEntry>) -> (result: Option<ScanResult>)
    ensures
        match result {
            Some(r) => is_scan_of(r, entries@),
            None => selected_size(entries@) > u64::MAX,
        },
{
    let mut files: Vec<String> = Vec::new();
    let mut total_size: u64 = 0;
    let mut i: usize = 0;
    assert(texts(files@) =~= Seq::empty());
    while i < entries.len()
        invariant
            i <= entries.len(),
            texts(files@) == selected_paths(entries@.take(i as int)),
            files@.len() == recognized_count(entries@.take(i as int)),
            files@.len() <= i,
            total_size == selected_size(entries@.take(i as int)),
        decreases entries.len() - i,
    {
        let ghost next = entries@.take(i + 1);
        assert(next.drop_last() == entries@.take(i as int));
        assert(next.last() == entries@[i as int]);
        if is_excel_file(entries[i].path.as_str()) {
            match entries[i].size {
                Some(n) => {
                    match total_size.checked_add(n) {
                        Some(sum) => {
                            total_size = sum;
                        },
                        None => {
                            proof {
                                lemma_selected_size_grows(entries@, i + 1);
                            }
                            return None;
                        },
                    }
                },
                None => {},
            }
            let ghost before = texts(files@);
            files.push(entries[i].path.clone());
            assert(texts(files@) =~= before.push(entries@[i as int].path@));
        }
        i += 1;
    }
    assert(entries@.take(i as int) == entries@);
    Some(ScanResult { file_count: files.len(), total_size, files })
}

/// Scans the entries: selects the spreadsheet files among them, in their
/// order, counts them and adds up their sizes. An entry whose size is not
/// known is selected all the same and adds nothing to the total.
pub fn scan_entries(entries: &Vec<FileEntry>) -> (result: ScanResult)
    requires
        selected_size(entries@) <= u64::MAX,
    ensures
        is_scan_of(result, entries@),
{
    match try_scan_entries(entries) {
        Some(r) => r,
        None => vstd::pervasive::unreached(),
    }
}

} // verus!
