//! The list of folders pinned in the file manager's sidebar.

use crate::pinned_file::PinnedLine;
use vstd::prelude::*;
use vstd::string::StringExecFns;

verus! {

/// The comment that opens the file of pinned folders.
pub const PINNED_HEADER: &'static str = "# Index pinned folders\n";

/// A pinned folder: the name it is shown under and where it is.
#[derive(Debug, Clone)]
pub struct PinnedFolder {
    pub name: String,
    pub path: String,
}

/// The operations on the list of pinned folders.
pub struct PinnedManager;

/// Whether one of `pinned` is at `path`.
pub open spec fn pinned_at(pinned: Seq<PinnedFolder>, path: Seq<char>) -> bool {
    exists|i: int| 0 <= i < pinned.len() && (#[trigger] pinned[i]).path@ == path
}

/// The name under which the folder at `path` is shown: the last component of
/// the path where it has one, else the path itself.
pub open spec fn shown_name(path: Seq<char>, file_name: Option<Seq<char>>) -> Seq<char> {
    match file_name {
        Some(name) => name,
        None => path,
    }
}

/// The line that records `folder` in the file of pinned folders: its path,
/// a bar, its name and a line end.
pub open spec fn line_of(folder: PinnedFolder) -> Seq<char> {
    folder.path@ + "|"@ + folder.name@ + "\n"@
}

/// The lines that record `pinned`, one after the other.
pub open spec fn lines_of(pinned: Seq<PinnedFolder>) -> Seq<char>
    decreases pinned.len(),
{
    if pinned.len() == 0 {
        Seq::empty()
    } else {
        lines_of(pinned.drop_last()) + line_of(pinned.last())
    }
}

impl PinnedManager {
    /// The text of the file that records `pinned`: the header comment, then
    /// one line for each folder, in order.
    pub fn file_text(pinned: &Vec<PinnedFolder>) -> (text: String)
        ensures
            text@ == PINNED_HEADER@ + lines_of(pinned@),
    {
        let mut text = PINNED_HEADER.to_owned();
        let mut i: usize = 0;
        assert(text@ =~= PINNED_HEADER@ + lines_of(pinned@.subrange(0, 0)));
        while i < pinned.len()
            invariant
                i <= pinned@.len(),
                text@ == PINNED_HEADER@ + lines_of(pinned@.subrange(0, i as int)),
            decreases pinned@.len() - i,
        {
            let ghost before = text@;
            text.append(pinned[i].path.as_str());
            text.append("|");
            text.append(pinned[i].name.as_str());
            text.append("\n");
            proof {
                assert(pinned@.subrange(0, i + 1).drop_last() =~= pinned@.subrange(0, i as int));
                assert(text@ =~= before + line_of(pinned@[i as int]));
                assert(text@ =~= PINNED_HEADER@ + lines_of(pinned@.subrange(0, i + 1)));
            }
            i += 1;
        }
        assert(pinned@.subrange(0, i as int) =~= pinned@);
        text
    }

    /// The pinned folder that a line of the file stands for: under the name
    /// that the line gives, else under the last component of its path,
    /// `file_name`, else under the path itself.
    pub fn folder(line: PinnedLine, file_name: Option<String>) -> (f: PinnedFolder)
        ensures
            f.path@ == line@.path,
            f.name@ == match line@.name {
                Some(name) => name,
                None => shown_name(
                    line@.path,
                    match file_name {
                        Some(n) => Some(n@),
                        None => None,
                    },
                ),
            },
    {
        let name = match line.name {
            Some(name) => name,
            None => match file_name {
                Some(n) => n,
                None => line.path.clone(),
            },
        };
        PinnedFolder { name, path: line.path }
    }

    /// Whether the folder at `path` is pinned.
    pub fn is_pinned(pinned: &Vec<PinnedFolder>, path: &str) -> (found: bool)
        ensures
            found == pinned_at(pinned@, path@),
    {
        let target = path.to_owned();
        let mut i: usize = 0;
        while i < pinned.len()
            invariant
                i <= pinned@.len(),
                target@ == path@,
                forall|k: int| 0 <= k < i ==> (#[trigger] pinned@[k]).path@ != path@,
            decreases pinned@.len() - i,
        {
            if pinned[i].path == target {
                return true;
            }
            i += 1;
        }
        false
    }

    /// Pins the folder at `path` behind the others, unless it is pinned
    /// already. `file_name` is the last component of `path`, if it has one.
    /// Returns whether the list changed.
    pub fn add(pinned: &mut Vec<PinnedFolder>, path: &str, file_name: Option<String>) -> (added:
        bool)
        ensures
            added == !pinned_at(old(pinned)@, path@),
            !added ==> final(pinned)@ == old(pinned)@,
            added ==> {
                &&& final(pinned)@.len() == old(pinned)@.len() + 1
                &&& final(pinned)@.drop_last() == old(pinned)@
                &&& final(pinned)@.last().path@ == path@
                &&& final(pinned)@.last().name@ == shown_name(
                    path@,
                    match file_name {
                        Some(n) => Some(n@),
                        None => None,
                    },
                )
            },
    {
        if Self::is_pinned(pinned, path) {
            return false;
        }
        let name = match file_name {
            Some(n) => n,
            None => path.to_owned(),
        };
        pinned.push(PinnedFolder { name, path: path.to_owned() });
        assert(pinned@.drop_last() =~= old(pinned)@);
        true
    }

    /// Unpins every folder at `path`; the others keep their order.
    pub fn remove(pinned: &mut Vec<PinnedFolder>, path: &str)
        ensures
            final(pinned)@ == old(pinned)@.filter(|f: PinnedFolder| f.path@ != path@),
    {
        let target = path.to_owned();
        let ghost keep = |f: PinnedFolder| f.path@ != path@;
        let ghost mut seen: int = 0;
        let mut i: usize = 0;
        proof {
            reveal(Seq::filter);
            assert(old(pinned)@.subrange(0, 0).filter(keep) =~= pinned@.subrange(0, 0));
        }
        while i < pinned.len()
            invariant
                target@ == path@,
                keep == |f: PinnedFolder| f.path@ != path@,
                0 <= i <= pinned@.len(),
                i <= seen <= old(pinned)@.len(),
                pinned@.len() - i == old(pinned)@.len() - seen,
                pinned@.subrange(0, i as int) == old(pinned)@.subrange(0, seen).filter(keep),
                pinned@.subrange(i as int, pinned@.len() as int) == old(pinned)@.subrange(
                    seen,
                    old(pinned)@.len() as int,
                ),
            decreases pinned@.len() - i,
        {
            let ghost before = pinned@;
            proof {
                reveal(Seq::filter);
                assert(before[i as int] == before.subrange(i as int, before.len() as int)[0]);
                assert(before[i as int] == old(pinned)@[seen]);
                assert(old(pinned)@.subrange(0, seen + 1).drop_last() =~= old(pinned)@.subrange(
                    0,
                    seen,
                ));
            }
            if pinned[i].path == target {
                pinned.remove(i);
                proof {
                    assert(pinned@.subrange(0, i as int) =~= before.subrange(0, i as int));
                    assert(pinned@.subrange(i as int, pinned@.len() as int) =~= before.subrange(
                        i as int,
                        before.len() as int,
                    ).drop_first());
                    assert(old(pinned)@.subrange(seen + 1, old(pinned)@.len() as int)
                        =~= old(pinned)@.subrange(seen, old(pinned)@.len() as int).drop_first());
                    seen = seen + 1;
                }
            } else {
                proof {
                    assert(pinned@.subrange(0, i + 1) =~= before.subrange(0, i as int).push(
                        before[i as int],
                    ));
                    assert(pinned@.subrange(i + 1, pinned@.len() as int) =~= before.subrange(
                        i as int,
                        before.len() as int,
                    ).drop_first());
                    assert(old(pinned)@.subrange(seen + 1, old(pinned)@.len() as int)
                        =~= old(pinned)@.subrange(seen, old(pinned)@.len() as int).drop_first());
                    seen = seen + 1;
                }
                i += 1;
            }
        }
        proof {
            assert(pinned@.subrange(0, i as int) =~= pinned@);
            assert(old(pinned)@.subrange(0, seen) =~= old(pinned)@);
        }
    }
}

} // verus!
