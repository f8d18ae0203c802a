use vstd::prelude::*;
use vstd::string::*;
use crate::paths::extension_part;
use crate::paths::file_name_part;
use crate::paths::spec_extension;
use crate::paths::spec_file_name;

verus! {

/// Picks the files to convert out of a directory walk. `recursive` mirrors
/// the `--recursive` flag: when it is unset, only the scanned root and its
/// direct children are considered.
pub struct FileFinder {
    pub recursive: bool,
}

/// One filesystem entry seen during a directory walk: its path, whether it
/// names a regular file, and its depth below the scanned root (the root
/// itself has depth 0, its direct children depth 1).
#[derive(Debug, Clone, PartialEq, Eq)]
pub struct ScanEntry {
    pub path: String,
    pub is_file: bool,
    pub depth: usize,
}

/// A three-character extension that spells `mov` with each letter in either
/// case.
pub open spec fn spec_is_mov_ext(e: Seq<char>) -> bool {
    &&& e.len() == 3
    &&& (e[0] == 'm' || e[0] == 'M')
    &&& (e[1] == 'o' || e[1] == 'O')
    &&& (e[2] == 'v' || e[2] == 'V')
}

/// A path names a MOV file when its file name has an extension that equals
/// `mov` compared without regard to letter case.
pub open spec fn spec_is_mov_file(p: Seq<char>) -> bool {
    match spec_extension(spec_file_name(p)) {
        Some(e) => spec_is_mov_ext(e),
        None => false,
    }
}

/// An entry is selected when it names a regular MOV file and, unless the
/// scan is recursive, lies no deeper than the root's direct children.
pub open spec fn spec_entry_selected(e: ScanEntry, recursive: bool) -> bool {
    &&& e.is_file
    &&& recursive || e.depth <= 1
    &&& spec_is_mov_file(e.path@)
}

/// The paths of the selected entries, in the order the walk yielded them.
pub open spec fn spec_selected_paths(entries: Seq<ScanEntry>, recursive: bool) -> Seq<Seq<char>>
    decreases entries.len(),
{
    if entries.len() == 0 {
        Seq::<Seq<char>>::empty()
    } else {
        let rest = spec_selected_paths(entries.drop_last(), recursive);
        if spec_entry_selected(entries.last(), recursive) {
            rest.push(entries.last().path@)
        } else {
            rest
        }
    }
}

/// Disabling recursion only ever narrows the selection, and it narrows it
/// exactly by depth: without recursion nothing deeper than a direct child
/// is selected, and depth is the one condition recursion waives.
pub proof fn lemma_recursion_controls_depth(e: ScanEntry)
    ensures
        spec_entry_selected(e, false) ==> e.depth <= 1,
        spec_entry_selected(e, false) ==> spec_entry_selected(e, true),
        spec_entry_selected(e, true) <==> e.is_file && spec_is_mov_file(e.path@),
{
}

impl FileFinder {
    pub fn new(recursive: bool) -> (f: Self)
        ensures
            f.recursive == recursive,
    {
        FileFinder { recursive }
    }

    /// Whether `path` names a MOV file: its file name's extension equals
    /// `mov` compared without regard to letter case.
    pub fn is_mov_file(&self, path: &str) -> (r: bool)
        ensures
            r == spec_is_mov_file(path@),
    {
        let name = file_name_part(path);
        match extension_part(name) {
            Some(e) => {
                if e.unicode_len() != 3 {
                    false
                } else {
                    let c0 = e.get_char(0);
                    let c1 = e.get_char(1);
                    let c2 = e.get_char(2);
                    (c0 == 'm' || c0 == 'M') && (c1 == 'o' || c1 == 'O') && (c2 == 'v' || c2
                        == 'V')
                }
            },
            None => false,
        }
    }

    /// The paths among `entries` that are selected for conversion: regular
    /// MOV files, restricted to the root's direct children unless the scan
    /// is recursive. The walk's order is kept; an empty result is an empty
    /// vector, not an error.
    pub fn find_mov_files(&self, entries: &Vec<ScanEntry>) -> (r: Vec<String>)
        ensures
            r.deep_view() == spec_selected_paths(entries@, self.recursive),
    {
        let mut out: Vec<String> = Vec::new();
        let mut i: usize = 0;
        while i < entries.len()
            invariant
                i <= entries.len(),
                out.deep_view() == spec_selected_paths(entries@.take(i as int), self.recursive),
            decreases entries.len() - i,
        {
            let e = &entries[i];
            if e.is_file && (self.recursive || e.depth <= 1) && self.is_mov_file(e.path.as_str()) {
                out.push(e.path.clone());
            }
            proof {
                let taken = entries@.take(i + 1 as int);
                assert(taken.drop_last() =~= entries@.take(i as int));
                assert(taken.last() == entries@[i as int]);
                assert(out.deep_view() =~~= spec_selected_paths(taken, self.recursive));
            }
            i = i + 1;
        }
        proof {
            assert(entries@.take(entries@.len() as int) =~= entries@);
        }
        out
    }
}

} // verus!
