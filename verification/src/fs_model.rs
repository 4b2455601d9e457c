//! A snapshot of the regular files that a resolution request may touch.
//!
//! Resolution itself performs no I/O: the embedding host probes the disk,
//! records each candidate file that exists together with its contents, and
//! hands the snapshot in. A path absent from the snapshot stands for a path
//! that is not an existing regular file.

use vstd::prelude::*;

verus! {

/// One regular file: its path and its full contents as UTF-8 text.
#[derive(Clone, Debug)]
pub struct FsFile {
    pub path: String,
    pub contents: String,
}

/// A snapshot of regular files, looked up by path; where one path occurs
/// twice, the first entry wins.
#[derive(Clone, Debug)]
pub struct FsSnapshot {
    pub files: Vec<FsFile>,
}

impl View for FsSnapshot {
    type V = Seq<(Seq<char>, Seq<char>)>;

    open spec fn view(&self) -> Seq<(Seq<char>, Seq<char>)> {
        self.files@.map(|i: int, f: FsFile| (f.path@, f.contents@))
    }
}

/// The contents of the first file in `files` whose path is `path`, or
/// `None` where no entry has that path.
pub open spec fn fs_lookup(files: Seq<(Seq<char>, Seq<char>)>, path: Seq<char>) -> Option<
    Seq<char>,
>
    decreases files.len(),
{
    if files.len() == 0 {
        None
    } else if files[0].0 == path {
        Some(files[0].1)
    } else {
        fs_lookup(files.drop_first(), path)
    }
}

impl FsSnapshot {
    /// An empty snapshot: no path is an existing regular file.
    pub fn new() -> (r: FsSnapshot)
        ensures
            r@ == Seq::<(Seq<char>, Seq<char>)>::empty(),
    {
        let r = FsSnapshot { files: Vec::new() };
        proof {
            assert(r@ =~= Seq::<(Seq<char>, Seq<char>)>::empty());
        }
        r
    }

    /// Records that `path` is an existing regular file holding `contents`.
    pub fn add_file(&mut self, path: String, contents: String)
        ensures
            final(self)@ == old(self)@.push((path@, contents@)),
    {
        let ghost old_view = self@;
        self.files.push(FsFile { path, contents });
        proof {
            assert(self@ =~= old_view.push((self.files@.last().path@,
                self.files@.last().contents@)));
        }
    }

    /// Looks `path` up in the snapshot.
    pub fn lookup(&self, path: &str) -> (r: Option<&String>)
        ensures
            match r {
                Some(c) => fs_lookup(self@, path@) == Some(c@),
                None => fs_lookup(self@, path@) is None,
            },
    {
        let target: String = path.to_owned();
        let mut i: usize = 0;
        proof {
            assert(self@.skip(0) =~= self@);
        }
        while i < self.files.len()
            invariant
                0 <= i <= self.files.len(),
                target@ == path@,
                fs_lookup(self@, path@) == fs_lookup(self@.skip(i as int), path@),
            decreases self.files.len() - i,
        {
            proof {
                assert(self@.skip(i as int)[0] == (self.files@[i as int].path@,
                    self.files@[i as int].contents@));
            }
            if self.files[i].path == target {
                return Some(&self.files[i].contents);
            }
            proof {
                assert(self@.skip(i as int).drop_first() =~= self@.skip(i + 1));
            }
            i = i + 1;
        }
        proof {
            assert(self@.skip(i as int) =~= Seq::<(Seq<char>, Seq<char>)>::empty());
        }
        None
    }
}

} // verus!
