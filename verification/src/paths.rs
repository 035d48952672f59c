//! The root directory of a dataset, and the two conversions between paths
//! below it and paths relative to it. Paths are text with `/` between
//! their components; a path is absolute when it starts with `/`.

use vstd::prelude::*;
use vstd::string::*;
use crate::text::{chars_of, text_between};

verus! {

/// Why a path could not be made relative to a dataset root.
#[derive(Clone, Copy, Debug, PartialEq, Eq, Structural)]
pub enum PathError {
    /// The path does not lie below the dataset root.
    NotUnderRoot,
}

/// Whether `path` starts at the root of the file system.
pub open spec fn is_absolute(path: Seq<char>) -> bool {
    path.len() > 0 && path[0] == '/'
}

/// `path` appended to `root`, with one separator between them unless `root`
/// is empty or already ends with one.
pub open spec fn path_join(root: Seq<char>, path: Seq<char>) -> Seq<char> {
    if root.len() > 0 && root.last() != '/' {
        root + seq!['/'] + path
    } else {
        root + path
    }
}

/// Whether `path` names something below the directory `root`: it goes on
/// after `root` and a separator with at least one more character.
pub open spec fn lies_under(path: Seq<char>, root: Seq<char>) -> bool {
    exists|rest: Seq<char>| rest.len() > 0 && !is_absolute(rest) && path == #[trigger] path_join(root, rest)
}

/// What follows `root` and its separator in `path`.
pub open spec fn tail_under(path: Seq<char>, root: Seq<char>) -> Seq<char> {
    if root.len() > 0 && root.last() != '/' {
        path.skip(root.len() as int + 1)
    } else {
        path.skip(root.len() as int)
    }
}

/// The absolute directory that the relative paths of a dataset start from.
#[derive(Clone, Debug, PartialEq, Eq)]
pub struct DatasetRoot(pub String);

/// Whether the first character of `path` is the separator.
pub fn starts_at_root(path: &str) -> (absolute: bool)
    ensures
        absolute == is_absolute(path@),
{
    let chars = chars_of(path);
    chars.len() > 0 && chars[0] == '/'
}

impl DatasetRoot {
    /// The root as text.
    pub open spec fn text(&self) -> Seq<char> {
        self.0@
    }

    /// The absolute path of `path_str`, which is relative to this root.
    pub fn to_absolute(&self, path_str: &str) -> (absolute: String)
        requires
            !is_absolute(path_str@),
        ensures
            absolute@ == path_join(self.text(), path_str@),
    {
        let root = chars_of(self.0.as_str());
        let mut absolute = self.0.clone();
        if root.len() > 0 && root[root.len() - 1] != '/' {
            proof {
                reveal_strlit("/");
            }
            absolute.append("/");
        }
        absolute.append(path_str);
        absolute
    }

    /// The path of `path` relative to this root. `path` is in canonical form,
    /// as the file system gives it. It is an error for `path` not to lie below
    /// the root.
    pub fn to_relative(&self, path: &str) -> (relative: Result<String, PathError>)
        requires
            is_absolute(self.text()),
        ensures
            lies_under(path@, self.text()) <==> relative is Ok,
            relative matches Ok(rest) ==> rest@ == tail_under(path@, self.text())
                && path@ == path_join(self.text(), rest@),
            relative matches Err(e) ==> e == PathError::NotUnderRoot,
    {
        let root = chars_of(self.0.as_str());
        let whole = chars_of(path);
        let ghost r = root@;
        let ghost p = whole@;
        let needs_sep = root[root.len() - 1] != '/';
        let start: usize = if needs_sep {
            if root.len() == usize::MAX {
                proof {
                    assert forall|rest: Seq<char>| rest.len() > 0 implies p != #[trigger] path_join(
                        r,
                        rest,
                    ) by {
                        assert(p.len() == whole.len());
                    }
                }
                return Err(PathError::NotUnderRoot);
            }
            root.len() + 1
        } else {
            root.len()
        };
        if whole.len() <= start {
            return Err(PathError::NotUnderRoot);
        }
        let mut i: usize = 0;
        while i < root.len()
            invariant
                i <= root.len() < whole.len(),
                r == root@,
                p == whole@,
                r == self.text(),
                p == path@,
                forall|j: int| 0 <= j < i ==> r[j] == p[j],
            decreases root.len() - i,
        {
            if root[i] != whole[i] {
                return Err(PathError::NotUnderRoot);
            }
            i += 1;
        }
        if needs_sep && whole[root.len()] != '/' {
            return Err(PathError::NotUnderRoot);
        }
        if whole[start] == '/' {
            return Err(PathError::NotUnderRoot);
        }
        let rest = text_between(&whole, start, whole.len());
        assert(p =~= path_join(r, rest@));
        Ok(rest)
    }
}

/// Making a relative path absolute and relative again gives the path back.
pub proof fn lemma_relative_of_absolute(root: Seq<char>, rest: Seq<char>)
    requires
        rest.len() > 0,
        !is_absolute(rest),
    ensures
        lies_under(path_join(root, rest), root),
        tail_under(path_join(root, rest), root) == rest,
{
}

} // verus!
