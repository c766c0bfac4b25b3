//! Archive-relative paths. Entries are addressed by strings relative to the
//! input root, joined with forward slashes whatever the host's separator:
//! the container format requires `/` and the archiver supplies it directly.

use vstd::prelude::*;

verus! {

/// The archive-relative path of an entry named `name` inside the directory
/// whose own relative path is `dir`: `name` itself at the root (empty `dir`),
/// otherwise `dir`, a forward slash, and `name`.
pub open spec fn join_spec(dir: Seq<char>, name: Seq<char>) -> Seq<char> {
    if dir.len() == 0 {
        name
    } else {
        dir + seq!['/'] + name
    }
}

/// Joins a directory's relative path and a child's name with a forward
/// slash, the separator the archive format requires.
pub fn join_rel(dir: &str, name: &str) -> (r: String)
    ensures
        r@ == join_spec(dir@, name@),
{
    if dir.unicode_len() == 0 {
        String::from_str(name)
    } else {
        let mut r = String::from_str(dir);
        r.append("/");
        r.append(name);
        proof {
            reveal_strlit("/");
            assert(("/")@ =~= seq!['/']);
            assert(r@ =~= join_spec(dir@, name@));
        }
        r
    }
}

} // verus!
