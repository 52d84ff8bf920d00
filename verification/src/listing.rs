//! The directory lister: turns the raw entries a remote listing yields into
//! normalized file records.
//!
//! The caller performs the remote read and hands the raw entries in; this
//! module derives a defensive display name for each (see `names`), renders
//! permission bits as an octal string, fills defaults for unknown size or
//! permissions, and drops the `.` and `..` entries a capability may or may
//! not include. Entries keep the order the channel yielded them; an empty
//! listing is an empty sequence, not an error.

use vstd::prelude::*;

use crate::names::spec_display_name;
use crate::names::derive_entry_name;
use crate::text::spec_octal;
use crate::text::u32_to_octal;
use crate::text::str_eq;

verus! {

/// One entry as the remote listing capability yields it.
#[derive(Debug, Clone)]
pub struct RawDirEntry {
    /// The raw path string, not guaranteed to be a clean POSIX basename.
    pub path: String,
    /// The reported size, when the capability knows it.
    pub size: Option<u64>,
    pub is_dir: bool,
    /// The reported permission bits, when the capability knows them.
    pub perm: Option<u32>,
}

/// The mathematical shape of a raw entry.
pub ghost struct RawDirEntryView {
    pub path: Seq<char>,
    pub size: Option<u64>,
    pub is_dir: bool,
    pub perm: Option<u32>,
}

impl View for RawDirEntry {
    type V = RawDirEntryView;

    open spec fn view(&self) -> RawDirEntryView {
        RawDirEntryView { path: self.path@, size: self.size, is_dir: self.is_dir, perm: self.perm }
    }
}

/// One normalized file record of a listing.
#[derive(Debug, Clone)]
pub struct FileInfo {
    /// The derived display name.
    pub name: String,
    /// The full raw remote path.
    pub path: String,
    /// Size in bytes; 0 when unknown.
    pub size: u64,
    pub is_dir: bool,
    /// Modification time; deliberately left unset.
    pub modified: Option<String>,
    /// Permission bits as an octal string; `"0"` when unknown.
    pub permissions: String,
}

/// The mathematical shape of a file record.
pub ghost struct FileInfoView {
    pub name: Seq<char>,
    pub path: Seq<char>,
    pub size: u64,
    pub is_dir: bool,
    pub modified: Option<Seq<char>>,
    pub permissions: Seq<char>,
}

impl View for FileInfo {
    type V = FileInfoView;

    open spec fn view(&self) -> FileInfoView {
        FileInfoView {
            name: self.name@,
            path: self.path@,
            size: self.size,
            is_dir: self.is_dir,
            modified: match self.modified {
                Some(ref m) => Some(m@),
                None => None,
            },
            permissions: self.permissions@,
        }
    }
}

/// The record derived from one raw entry.
pub open spec fn spec_file_info(r: RawDirEntryView) -> FileInfoView {
    FileInfoView {
        name: spec_display_name(r.path),
        path: r.path,
        size: match r.size {
            Some(n) => n,
            None => 0,
        },
        is_dir: r.is_dir,
        modified: None,
        permissions: spec_octal(
            (match r.perm {
                Some(p) => p,
                None => 0,
            }) as nat,
        ),
    }
}

/// Whether an entry survives the defensive filter: the current- and
/// parent-directory entries are never part of a listing.
pub open spec fn spec_keeps(r: RawDirEntryView) -> bool {
    spec_display_name(r.path) != seq!['.'] && spec_display_name(r.path) != seq!['.', '.']
}

/// The normalized records for a sequence of raw entries, in the order the
/// channel yielded them.
pub open spec fn spec_listing(raws: Seq<RawDirEntry>) -> Seq<FileInfoView>
    decreases raws.len(),
{
    if raws.len() == 0 {
        Seq::empty()
    } else {
        spec_listing(raws.drop_last()) + (if spec_keeps(raws.last()@) {
            seq![spec_file_info(raws.last()@)]
        } else {
            Seq::empty()
        })
    }
}

/// The views of the produced records.
pub open spec fn file_views(s: Seq<FileInfo>) -> Seq<FileInfoView>
    decreases s.len(),
{
    if s.len() == 0 {
        Seq::empty()
    } else {
        file_views(s.drop_last()).push(s.last()@)
    }
}

/// Builds the normalized listing for the raw entries of one remote read.
/// An empty input yields an empty listing.
pub fn build_listing(raws: &Vec<RawDirEntry>) -> (r: Vec<FileInfo>)
    ensures
        file_views(r@) == spec_listing(raws@),
        raws@.len() == 0 ==> r@.len() == 0,
{
    let n = raws.len();
    let mut out: Vec<FileInfo> = Vec::new();
    let mut i: usize = 0;
    proof {
        assert(raws@.subrange(0, 0) =~= Seq::<RawDirEntry>::empty());
    }
    while i < n
        invariant
            i <= n == raws@.len(),
            file_views(out@) == spec_listing(raws@.subrange(0, i as int)),
        decreases n - i,
    {
        let ghost prefix = raws@.subrange(0, i as int);
        let entry = &raws[i];
        let name = derive_entry_name(entry.path.as_str());
        let dot = str_eq(name.as_str(), ".");
        let dotdot = str_eq(name.as_str(), "..");
        proof {
            reveal_strlit(".");
            reveal_strlit("..");
            assert("."@ =~= seq!['.']);
            assert(".."@ =~= seq!['.', '.']);
            assert(raws@.subrange(0, i as int + 1).drop_last() =~= prefix);
            assert(raws@.subrange(0, i as int + 1).last() == raws@[i as int]);
        }
        if !dot && !dotdot {
            let ghost out0 = out@;
            let size = match entry.size {
                Some(s) => s,
                None => 0,
            };
            let perm = match entry.perm {
                Some(p) => p,
                None => 0,
            };
            let record = FileInfo {
                name,
                path: entry.path.clone(),
                size,
                is_dir: entry.is_dir,
                modified: None,
                permissions: u32_to_octal(perm),
            };
            out.push(record);
            proof {
                assert(out@.drop_last() =~= out0);
                assert(file_views(out@) == file_views(out0).push(out@.last()@));
                assert(out@.last()@ == spec_file_info(raws@[i as int]@));
                assert(file_views(out@) =~= spec_listing(raws@.subrange(0, i as int + 1)));
            }
        } else {
            proof {
                assert(file_views(out@) =~= spec_listing(raws@.subrange(0, i as int + 1)));
            }
        }
        i = i + 1;
    }
    proof {
        assert(raws@.subrange(0, n as int) =~= raws@);
    }
    out
}

} // verus!
