//! Decisions taken while unpacking archives: what to do with each zip entry,
//! and how the unpacked Node.js distribution is flattened into place.

use vstd::prelude::*;
use crate::text::{ends_with_text, has_suffix};

verus! {

/// What to do with one entry of a zip archive.
#[derive(Debug, PartialEq, Eq, Structural, Clone, Copy)]
pub enum ZipEntryAction {
    /// The entry's name would leave the output folder: leave it out.
    Skip,
    /// The entry is a folder: create it.
    CreateDir,
    /// The entry is a file: create its parent folder if missing and write it.
    WriteFile,
}

/// What to do with the zip entry named `name`; `has_enclosed_name` tells
/// whether the archive gives it a path that stays inside the output folder.
pub fn zip_entry_action(name: &str, has_enclosed_name: bool) -> (res: ZipEntryAction)
    ensures
        !has_enclosed_name ==> res == ZipEntryAction::Skip,
        has_enclosed_name && has_suffix(name@, "/"@) ==> res == ZipEntryAction::CreateDir,
        has_enclosed_name && !has_suffix(name@, "/"@) ==> res == ZipEntryAction::WriteFile,
{
    if !has_enclosed_name {
        ZipEntryAction::Skip
    } else if ends_with_text(name, "/") {
        ZipEntryAction::CreateDir
    } else {
        ZipEntryAction::WriteFile
    }
}

/// One entry at the top of the unpacked Node.js archive.
pub struct ExtractedEntry {
    pub name: String,
    pub is_dir: bool,
}

/// The names of the folders among `entries`, in order.
pub open spec fn dir_names(entries: Seq<ExtractedEntry>) -> Seq<Seq<char>>
    decreases entries.len(),
{
    if entries.len() == 0 {
        Seq::empty()
    } else {
        let rest = dir_names(entries.drop_last());
        if entries.last().is_dir {
            rest.push(entries.last().name@)
        } else {
            rest
        }
    }
}

/// Where the Node.js runtime is moved from into its folder.
pub enum FlattenPlan {
    /// The archive held a single folder, the entry at this index: move that
    /// folder's entries, each replacing an entry of the same name already in place.
    FromInner(usize),
    /// Move every unpacked entry as it is.
    FromTop,
}

/// How to flatten the unpacked archive whose top entries are `entries`: a
/// single top folder is unwrapped, anything else is moved as it is.
pub fn plan_node_flatten(entries: &Vec<ExtractedEntry>) -> (res: FlattenPlan)
    ensures
        dir_names(entries@).len() == 1 ==> (res matches FlattenPlan::FromInner(i) && i < entries@.len()
            && entries@[i as int].is_dir && entries@[i as int].name@ == dir_names(entries@)[0]),
        dir_names(entries@).len() != 1 ==> res is FromTop,
        res matches FlattenPlan::FromInner(i) ==> i < entries@.len() && entries@[i as int].is_dir
            && forall|j: int| 0 <= j < entries@.len() && j != i ==> !(#[trigger] entries@[j]).is_dir,
        res is FromTop ==> (forall|j: int| 0 <= j < entries@.len() ==> !(#[trigger] entries@[j]).is_dir)
            || exists|j: int, k: int|
            0 <= j < k < entries@.len() && (#[trigger] entries@[j]).is_dir && (#[trigger] entries@[k]).is_dir,
{
    let mut count: usize = 0;
    let mut first: usize = 0;
    let mut second: usize = 0;
    let mut i: usize = 0;
    while i < entries.len()
        invariant
            i <= entries@.len(),
            count == dir_names(entries@.take(i as int)).len(),
            count <= i,
            count >= 1 ==> first < i && entries@[first as int].is_dir
                && entries@[first as int].name@ == dir_names(entries@.take(i as int))[0],
            count == 0 ==> forall|j: int| 0 <= j < i ==> !(#[trigger] entries@[j]).is_dir,
            count == 1 ==> forall|j: int| 0 <= j < i && j != first ==> !(#[trigger] entries@[j]).is_dir,
            count >= 2 ==> first < second < i && entries@[second as int].is_dir,
        decreases entries@.len() - i,
    {
        let ghost before = entries@.take(i as int);
        assert(entries@.take(i + 1).drop_last() =~= before);
        assert(entries@.take(i + 1).last() == entries@[i as int]);
        if entries[i].is_dir {
            if count == 0 {
                first = i;
            } else if count == 1 {
                second = i;
            }
            count = count + 1;
        }
        i = i + 1;
    }
    assert(entries@.take(entries@.len() as int) =~= entries@);
    if count == 1 {
        FlattenPlan::FromInner(first)
    } else {
        if count >= 2 {
            assert(entries@[first as int].is_dir && entries@[second as int].is_dir);
        }
        FlattenPlan::FromTop
    }
}

} // verus!
