//! The project browser's decisions: what a listing of one directory level
//! shows of a project.

use vstd::prelude::*;
use vstd::string::*;
use crate::failure::{not_a_directory_text, ErrorKind, GatewayError};

verus! {

/// One child of a directory, as the filesystem enumerated it.
#[derive(Debug)]
pub struct ListedEntry {
    pub name: String,
    pub path: String,
    pub is_file: bool,
}

/// A regular file of a project.
#[derive(Debug)]
pub struct FileEntry {
    pub name: String,
    pub path: String,
}

/// A snapshot of one directory level of a project.
#[derive(Debug)]
pub struct Project {
    pub path: String,
    pub files: Vec<FileEntry>,
}

/// The name and the path of each file entry.
pub open spec fn file_pairs(files: Seq<FileEntry>) -> Seq<(Seq<char>, Seq<char>)> {
    Seq::new(files.len(), |i: int| (files[i].name@, files[i].path@))
}

/// The name and the path of the regular files of a listing, in the listing's
/// order. What is no regular file is left out.
pub open spec fn regular_files(listing: Seq<ListedEntry>) -> Seq<(Seq<char>, Seq<char>)>
    decreases listing.len(),
{
    if listing.len() == 0 {
        Seq::empty()
    } else {
        let front = regular_files(listing.drop_last());
        let last = listing.last();
        if last.is_file {
            front.push((last.name@, last.path@))
        } else {
            front
        }
    }
}

/// Builds the snapshot of a project from what the caller saw at `path`: whether
/// anything is there, whether it is a directory, and its direct children. A path that is
/// missing or no directory is refused.
pub fn load_project(path: String, found: bool, is_dir: bool, listing: &[ListedEntry]) -> (loaded:
    Result<Project, GatewayError>)
    ensures
        found && is_dir ==> {
            &&& loaded is Ok
            &&& loaded->Ok_0.path@ == path@
            &&& file_pairs(loaded->Ok_0.files@) == regular_files(listing@)
        },
        !(found && is_dir) ==> {
            &&& loaded is Err
            &&& loaded->Err_0.kind == ErrorKind::Precondition
            &&& loaded->Err_0.message@ == not_a_directory_text(path@)
        },
{
    if !found || !is_dir {
        return Err(GatewayError::not_a_directory(path.as_str()));
    }
    let mut files: Vec<FileEntry> = Vec::new();
    assert(file_pairs(files@) =~= regular_files(listing@.take(0)));
    let mut i: usize = 0;
    while i < listing.len()
        invariant
            i <= listing.len(),
            file_pairs(files@) == regular_files(listing@.take(i as int)),
        decreases listing.len() - i,
    {
        let entry = &listing[i];
        let ghost before = file_pairs(files@);
        proof {
            assert(listing@.take(i + 1).drop_last() =~= listing@.take(i as int));
            assert(listing@.take(i + 1).last() == listing@[i as int]);
        }
        if entry.is_file {
            files.push(FileEntry { name: entry.name.clone(), path: entry.path.clone() });
            assert(file_pairs(files@) =~= before.push((entry.name@, entry.path@)));
        }
        i = i + 1;
    }
    assert(listing@.take(listing.len() as int) =~= listing@);
    Ok(Project { path, files })
}

/// A snapshot holds no more entries than the listing, and as many where every
/// child is a regular file.
pub proof fn lemma_regular_files_bounded(listing: Seq<ListedEntry>)
    ensures
        regular_files(listing).len() <= listing.len(),
        (forall|i: int| 0 <= i < listing.len() ==> listing[i].is_file) ==> regular_files(
            listing,
        ).len() == listing.len(),
    decreases listing.len(),
{
    if listing.len() > 0 {
        lemma_regular_files_bounded(listing.drop_last());
        if forall|i: int| 0 <= i < listing.len() ==> listing[i].is_file {
            assert forall|i: int| 0 <= i < listing.drop_last().len() implies listing.drop_last()[i].is_file by {
                assert(listing.drop_last()[i] == listing[i]);
            }
        }
    }
}

} // verus!
