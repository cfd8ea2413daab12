//! Path strings and how they are combined. Paths are plain strings joined
//! with the platform's directory separator; nothing here touches the disk.

use vstd::prelude::*;

verus! {

/// Directory separator of the platform whose paths this library manages.
pub open spec fn sep_char() -> char {
    '\\'
}

/// Model of placing an entry name below a directory.
pub open spec fn join_spec(dir: Seq<char>, entry: Seq<char>) -> Seq<char> {
    dir + seq![sep_char()] + entry
}

/// Joins a directory path and an entry name with the directory separator.
pub fn join_path(dir: &str, entry: &str) -> (r: String)
    ensures
        r@ == join_spec(dir@, entry@),
{
    let mut s = String::from_str(dir);
    proof {
        reveal_strlit("\\");
    }
    s.append("\\");
    s.append(entry);
    proof {
        assert(s@ =~= join_spec(dir@, entry@));
    }
    s
}

} // verus!
