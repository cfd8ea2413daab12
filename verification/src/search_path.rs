//! In-memory model of the process-wide search path: the ordered list of
//! directories consulted to resolve a bare executable name. The list is
//! mutated only by prepending, from a single control thread, so a directory
//! once added stays present for the rest of the run. Rendering to and parsing
//! from the platform's separator-joined variable form both live here; reading
//! and writing the actual environment is the surrounding program's job.

use vstd::prelude::*;
use crate::paths::join_spec;

verus! {

/// Separator between entries of the search-path variable.
pub open spec fn path_sep_char() -> char {
    ';'
}

/// The directory `d` is among the entries `dirs`.
pub open spec fn seq_has_dir(dirs: Seq<String>, d: Seq<char>) -> bool {
    exists|i: int| 0 <= i < dirs.len() && dirs[i]@ == d
}

/// An executable named `exe` resolves through the entries `dirs`, given the
/// set `fs` of paths that exist on disk.
pub open spec fn seq_finds(dirs: Seq<String>, fs: Set<Seq<char>>, exe: Seq<char>) -> bool {
    exists|i: int| 0 <= i < dirs.len() && fs.contains(join_spec(dirs[i]@, exe))
}

/// The entries joined into the variable form: entries in order, separated by
/// [`path_sep_char`].
pub open spec fn env_join(dirs: Seq<String>) -> Seq<char>
    decreases dirs.len(),
{
    if dirs.len() == 0 {
        Seq::empty()
    } else if dirs.len() == 1 {
        dirs[0]@
    } else {
        env_join(dirs.drop_last()) + seq![path_sep_char()] + dirs.last()@
    }
}

/// The variable form of the entries `dirs` followed by one unfinished
/// trailing entry `cur`.
pub open spec fn env_join_with(dirs: Seq<String>, cur: Seq<char>) -> Seq<char> {
    if dirs.len() == 0 {
        cur
    } else {
        env_join(dirs) + seq![path_sep_char()] + cur
    }
}

/// Appending one entry extends the joined form by a separator and that entry.
proof fn lemma_env_join_push(dirs: Seq<String>, p: String)
    ensures
        env_join(dirs.push(p)) == env_join_with(dirs, p@),
{
    if dirs.len() == 0 {
        assert(dirs.push(p)[0] == p);
    } else {
        assert(dirs.push(p).drop_last() =~= dirs);
        assert(dirs.push(p).last() == p);
    }
}

/// The in-memory copy of the process-wide search path, threaded explicitly
/// through every call site that spawns child processes.
pub struct SearchPathContext {
    /// Search-path entries, highest priority first.
    pub dirs: Vec<String>,
}

impl SearchPathContext {
    /// A search path with no entries.
    pub fn empty() -> (r: Self)
        ensures
            r.dirs@.len() == 0,
    {
        SearchPathContext { dirs: Vec::new() }
    }

    /// Prepends `dir` as the new highest-priority entry; every existing entry
    /// keeps its place behind it.
    pub fn prepend(&mut self, dir: String)
        ensures
            final(self).dirs@ == old(self).dirs@.insert(0, dir),
            final(self).dirs@.len() == old(self).dirs@.len() + 1,
            final(self).dirs@[0] == dir,
    {
        self.dirs.insert(0, dir);
    }

    /// Renders the search path in its separator-joined variable form.
    pub fn as_env_string(&self) -> (r: String)
        ensures
            r@ == env_join(self.dirs@),
    {
        let mut s = String::new();
        let mut i: usize = 0;
        while i < self.dirs.len()
            invariant
                i <= self.dirs.len(),
                s@ == env_join(self.dirs@.take(i as int)),
            decreases self.dirs.len() - i,
        {
            if i > 0 {
                proof {
                    reveal_strlit(";");
                }
                s.append(";");
            }
            s.append(self.dirs[i].as_str());
            i = i + 1;
            proof {
                let taken = self.dirs@.take(i as int);
                if i > 1 {
                    assert(taken.drop_last() =~= self.dirs@.take(i as int - 1));
                    assert(taken.last() == self.dirs@[i as int - 1]);
                    assert(s@ =~= env_join(taken));
                } else {
                    assert(taken.len() == 1);
                    assert(taken[0] == self.dirs@[0]);
                    assert(s@ =~= env_join(taken));
                }
            }
        }
        proof {
            assert(self.dirs@.take(self.dirs@.len() as int) =~= self.dirs@);
        }
        s
    }

    /// Parses the separator-joined variable form back into entries: the
    /// entries are the separator-free segments of `path`, and joining them
    /// again yields `path` exactly.
    pub fn from_env_string(path: &str) -> (r: Self)
        ensures
            env_join(r.dirs@) == path@,
            r.dirs@.len() >= 1,
            forall|j: int|
                0 <= j < r.dirs@.len() ==> !r.dirs@[j]@.contains(path_sep_char()),
    {
        let n = path.unicode_len();
        let mut dirs: Vec<String> = Vec::new();
        let mut seg_start: usize = 0;
        let mut i: usize = 0;
        while i < n
            invariant
                n == path@.len(),
                seg_start <= i <= n,
                env_join_with(dirs@, path@.subrange(seg_start as int, i as int)) == path@.take(
                    i as int,
                ),
                forall|k: int| seg_start <= k < i ==> path@[k] != path_sep_char(),
                forall|j: int| 0 <= j < dirs@.len() ==> !dirs@[j]@.contains(path_sep_char()),
            decreases n - i,
        {
            let c = path.get_char(i);
            if c == ';' {
                proof {
                    reveal_strlit(";");
                    assert(c == path_sep_char());
                }
                let part = String::from_str(path.substring_char(seg_start, i));
                proof {
                    assert(!part@.contains(path_sep_char()));
                    lemma_env_join_push(dirs@, part);
                }
                dirs.push(part);
                seg_start = i + 1;
            }
            i = i + 1;
            proof {
                assert(path@.take(i as int) =~= path@.take(i as int - 1).push(
                    path@[i as int - 1],
                ));
                if path@[i as int - 1] == path_sep_char() {
                    assert(path@.subrange(seg_start as int, i as int) =~= Seq::<char>::empty());
                    assert(env_join_with(dirs@, path@.subrange(seg_start as int, i as int))
                        =~= path@.take(i as int));
                } else {
                    assert(path@.subrange(seg_start as int, i as int) =~= path@.subrange(
                        seg_start as int,
                        i as int - 1,
                    ).push(path@[i as int - 1]));
                    assert(env_join_with(dirs@, path@.subrange(seg_start as int, i as int))
                        =~= path@.take(i as int));
                }
            }
        }
        let part = String::from_str(path.substring_char(seg_start, n));
        proof {
            assert(!part@.contains(path_sep_char()));
            lemma_env_join_push(dirs@, part);
            assert(path@.take(n as int) =~= path@);
        }
        dirs.push(part);
        SearchPathContext { dirs }
    }
}

/// Law: prepending a directory never removes one already on the search path;
/// once a tool's directory is added it stays for the rest of the run.
pub proof fn lemma_prepend_keeps_dirs(dirs: Seq<String>, new_dir: String, d: Seq<char>)
    requires
        seq_has_dir(dirs, d),
    ensures
        seq_has_dir(dirs.insert(0, new_dir), d),
{
    let i = choose|i: int| 0 <= i < dirs.len() && dirs[i]@ == d;
    assert(dirs.insert(0, new_dir)[i + 1]@ == d);
}

/// Law: prepending a directory never stops an executable from resolving that
/// resolved before.
pub proof fn lemma_prepend_keeps_finds(
    dirs: Seq<String>,
    new_dir: String,
    fs: Set<Seq<char>>,
    exe: Seq<char>,
)
    requires
        seq_finds(dirs, fs, exe),
    ensures
        seq_finds(dirs.insert(0, new_dir), fs, exe),
{
    let i = choose|i: int| 0 <= i < dirs.len() && fs.contains(join_spec(dirs[i]@, exe));
    assert(fs.contains(join_spec(dirs.insert(0, new_dir)[i + 1]@, exe)));
}

/// Law: once a directory that holds the executable `exe` is prepended, it is
/// the head entry of the search path, and `exe` resolves through it.
pub proof fn lemma_prepended_dir_found(
    dirs: Seq<String>,
    dir: String,
    fs: Set<Seq<char>>,
    exe: Seq<char>,
)
    requires
        fs.contains(join_spec(dir@, exe)),
    ensures
        dirs.insert(0, dir)[0] == dir,
        seq_finds(dirs.insert(0, dir), fs, exe),
{
    assert(fs.contains(join_spec(dirs.insert(0, dir)[0]@, exe)));
}

} // verus!
