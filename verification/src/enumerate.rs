//! The path enumerator: lists every regular file under a root, as paths
//! relative to that root, by descending into subdirectories. The descent
//! keeps an explicit worklist of pending directories instead of recursing,
//! so deep trees cannot exhaust the stack. Reading a directory is the
//! caller's affair: the caller asks which directory to list next, performs
//! the read, and hands the listing back as plain values; any read failure
//! aborts the whole enumeration on the caller's side — this is a fail-fast
//! walk, not a best-effort crawl.

use vstd::prelude::*;

use crate::paths::{join_rel, join_spec};

verus! {

/// One directory entry as the filesystem reports it: its name and whether
/// it is itself a directory.
pub struct DirEntryInfo {
    pub name: String,
    pub is_dir: bool,
}

impl View for DirEntryInfo {
    type V = (Seq<char>, bool);

    open spec fn view(&self) -> (Seq<char>, bool) {
        (self.name@, self.is_dir)
    }
}

/// The views of a sequence of strings.
pub open spec fn strings_view(s: Seq<String>) -> Seq<Seq<char>> {
    Seq::new(s.len(), |j: int| s[j]@)
}

/// The views of a directory listing.
pub open spec fn listing_view(l: Seq<DirEntryInfo>) -> Seq<(Seq<char>, bool)> {
    Seq::new(l.len(), |j: int| l[j]@)
}

/// The relative paths of the regular files in one listing of the directory
/// at `dir`, in listing order.
pub open spec fn listed_files(dir: Seq<char>, l: Seq<(Seq<char>, bool)>) -> Seq<Seq<char>>
    decreases l.len(),
{
    if l.len() == 0 {
        Seq::empty()
    } else {
        let rest = listed_files(dir, l.drop_last());
        if l.last().1 {
            rest
        } else {
            rest.push(join_spec(dir, l.last().0))
        }
    }
}

/// The relative paths of the subdirectories in one listing of the directory
/// at `dir`, in listing order.
pub open spec fn listed_dirs(dir: Seq<char>, l: Seq<(Seq<char>, bool)>) -> Seq<Seq<char>>
    decreases l.len(),
{
    if l.len() == 0 {
        Seq::empty()
    } else {
        let rest = listed_dirs(dir, l.drop_last());
        if l.last().1 {
            rest.push(join_spec(dir, l.last().0))
        } else {
            rest
        }
    }
}

/// The enumerator's abstract state: the relative paths of the directories
/// still to list, and of the regular files found so far, in discovery
/// order.
pub struct EnumeratorView {
    pub pending: Seq<Seq<char>>,
    pub files: Seq<Seq<char>>,
}

/// A worklist directory walk: the caller repeatedly takes a pending
/// directory, lists it, and hands the listing back; files accumulate in
/// discovery order until no directory is pending.
pub struct Enumerator {
    pending: Vec<String>,
    files: Vec<String>,
}

impl View for Enumerator {
    type V = EnumeratorView;

    closed spec fn view(&self) -> EnumeratorView {
        EnumeratorView { pending: strings_view(self.pending@), files: strings_view(self.files@) }
    }
}

impl Enumerator {
    /// A walk about to begin at the root: the root itself (the empty
    /// relative path) is the one pending directory and no file is found
    /// yet.
    pub fn new() -> (e: Self)
        ensures
            e@.pending == seq![Seq::<char>::empty()],
            e@.files == Seq::<Seq<char>>::empty(),
    {
        let mut pending: Vec<String> = Vec::new();
        pending.push(String::new());
        let e = Enumerator { pending, files: Vec::new() };
        proof {
            assert(e@.pending =~= seq![Seq::<char>::empty()]);
            assert(e@.files =~= Seq::<Seq<char>>::empty());
        }
        e
    }

    /// Whether any directory is still waiting to be listed.
    pub fn done(&self) -> (b: bool)
        ensures
            b == (self@.pending.len() == 0),
    {
        self.pending.len() == 0
    }

    /// Takes one pending directory off the worklist, or reports the walk
    /// complete.
    pub fn next_dir(&mut self) -> (r: Option<String>)
        ensures
            old(self)@.pending.len() == 0 ==> r is None && final(self)@ == old(self)@,
            old(self)@.pending.len() > 0 ==> {
                &&& r is Some
                &&& (r->0)@ == old(self)@.pending.last()
                &&& final(self)@.pending == old(self)@.pending.drop_last()
                &&& final(self)@.files == old(self)@.files
            },
    {
        let r = self.pending.pop();
        proof {
            if old(self)@.pending.len() == 0 {
                assert(self@.pending =~= old(self)@.pending);
            } else {
                assert(self@.pending =~= old(self)@.pending.drop_last());
            }
            assert(self@.files =~= old(self)@.files);
        }
        r
    }

    /// Records the listing of the directory at relative path `dir`: every
    /// regular file joins the found files, every subdirectory joins the
    /// worklist, both in listing order and under their paths relative to
    /// the root.
    pub fn record_listing(&mut self, dir: &str, listing: &Vec<DirEntryInfo>)
        ensures
            final(self)@.files == old(self)@.files + listed_files(dir@, listing_view(listing@)),
            final(self)@.pending == old(self)@.pending + listed_dirs(
                dir@,
                listing_view(listing@),
            ),
    {
        let ghost lv = listing_view(listing@);
        let n = listing.len();
        let mut i: usize = 0;
        proof {
            assert(self@.files =~= old(self)@.files + listed_files(dir@, lv.take(0)));
            assert(self@.pending =~= old(self)@.pending + listed_dirs(dir@, lv.take(0)));
        }
        while i < n
            invariant
                i <= n,
                n == listing.len(),
                lv == listing_view(listing@),
                self@.files == old(self)@.files + listed_files(dir@, lv.take(i as int)),
                self@.pending == old(self)@.pending + listed_dirs(dir@, lv.take(i as int)),
            decreases n - i,
        {
            let p = join_rel(dir, listing[i].name.as_str());
            let ghost pre = self@;
            if listing[i].is_dir {
                self.pending.push(p);
            } else {
                self.files.push(p);
            }
            proof {
                assert(lv.take(i + 1).drop_last() =~= lv.take(i as int));
                assert(lv.take(i + 1).last() == lv[i as int]);
                if lv[i as int].1 {
                    assert(listed_files(dir@, lv.take(i + 1)) == listed_files(
                        dir@,
                        lv.take(i as int),
                    ));
                    assert(listed_dirs(dir@, lv.take(i + 1)) == listed_dirs(
                        dir@,
                        lv.take(i as int),
                    ).push(join_spec(dir@, lv[i as int].0)));
                    assert(self@.pending =~= pre.pending.push(p@));
                    assert(self@.files =~= pre.files);
                } else {
                    assert(listed_files(dir@, lv.take(i + 1)) == listed_files(
                        dir@,
                        lv.take(i as int),
                    ).push(join_spec(dir@, lv[i as int].0)));
                    assert(listed_dirs(dir@, lv.take(i + 1)) == listed_dirs(
                        dir@,
                        lv.take(i as int),
                    ));
                    assert(self@.files =~= pre.files.push(p@));
                    assert(self@.pending =~= pre.pending);
                }
                assert(self@.files =~= old(self)@.files + listed_files(dir@, lv.take(i + 1)));
                assert(self@.pending =~= old(self)@.pending + listed_dirs(dir@, lv.take(i + 1)));
            }
            i = i + 1;
        }
        proof {
            assert(lv.take(n as int) =~= lv);
        }
    }

    /// Hands out the files found so far, in discovery order, ending the
    /// walk.
    pub fn into_files(self) -> (r: Vec<String>)
        ensures
            strings_view(r@) == self@.files,
    {
        let Enumerator { pending: _, files } = self;
        files
    }
}

} // verus!
