//! Identifier validation and store-path resolution.
//!
//! Callers name their own database and table through the request path, so both
//! names are untrusted text. Before a name is ever placed next to a file path
//! or inside a management statement it must pass a strict safelist: ASCII
//! letters, digits and underscore, a non-digit first character, and a bounded
//! length. A name that passes cannot carry a path separator, a parent
//! directory reference or any statement punctuation.

use vstd::prelude::*;

verus! {

/// Upper bound on the length of a database or table name.
pub const MAX_NAME_LEN: usize = 64;

/// A character that may appear anywhere in a name: ASCII letter, digit or underscore.
pub open spec fn is_name_char(c: char) -> bool {
    ('a' as u32 <= c as u32 && c as u32 <= 'z' as u32) || ('A' as u32 <= c as u32 && c as u32
        <= 'Z' as u32) || ('0' as u32 <= c as u32 && c as u32 <= '9' as u32) || c == '_'
}

/// A character that may open a name: ASCII letter or underscore, never a digit.
pub open spec fn is_name_start(c: char) -> bool {
    ('a' as u32 <= c as u32 && c as u32 <= 'z' as u32) || ('A' as u32 <= c as u32 && c as u32
        <= 'Z' as u32) || c == '_'
}

/// A well-formed database or table name: non-empty, bounded, safelisted
/// characters, and a non-digit first character.
pub open spec fn valid_name(s: Seq<char>) -> bool {
    &&& 1 <= s.len() <= MAX_NAME_LEN
    &&& is_name_start(s[0])
    &&& forall|i: int| 0 <= i < s.len() ==> is_name_char(#[trigger] s[i])
}

fn name_char(c: char) -> (b: bool)
    ensures
        b == is_name_char(c),
{
    let u = c as u32;
    ('a' as u32 <= u && u <= 'z' as u32) || ('A' as u32 <= u && u <= 'Z' as u32) || ('0' as u32 <= u
        && u <= '9' as u32) || c == '_'
}

fn name_start(c: char) -> (b: bool)
    ensures
        b == is_name_start(c),
{
    let u = c as u32;
    ('a' as u32 <= u && u <= 'z' as u32) || ('A' as u32 <= u && u <= 'Z' as u32) || c == '_'
}

/// Decides whether an untrusted name is well formed.
pub fn check_name(s: &str) -> (b: bool)
    ensures
        b == valid_name(s@),
{
    let n = s.unicode_len();
    if n == 0 || n > MAX_NAME_LEN {
        return false;
    }
    if !name_start(s.get_char(0)) {
        return false;
    }
    let mut i: usize = 0;
    while i < n
        invariant
            n == s@.len(),
            i <= n,
            forall|j: int| 0 <= j < i ==> is_name_char(#[trigger] s@[j]),
        decreases n - i,
    {
        if !name_char(s.get_char(i)) {
            return false;
        }
        i += 1;
    }
    true
}

/// The on-disk location of the store for database `db` under `root`:
/// `root` + `/` + `db` + `.db`.
pub open spec fn path_of(root: Seq<char>, db: Seq<char>) -> Seq<char> {
    root + "/"@ + db + ".db"@
}

/// Resolves a database name to its store path. The result is a function of
/// the root and the name alone, so one name always resolves to one path.
pub fn store_path(root: &str, db: &str) -> (p: String)
    ensures
        p@ == path_of(root@, db@),
{
    let mut p = root.to_owned();
    p.append("/");
    p.append(db);
    p.append(".db");
    p
}

/// Under one root, two database names resolve to the same store file exactly
/// when they are the same name: no two databases ever share a backing file.
pub proof fn lemma_store_paths_injective(root: Seq<char>, d1: Seq<char>, d2: Seq<char>)
    ensures
        path_of(root, d1) == path_of(root, d2) <==> d1 == d2,
{
    reveal_strlit("/");
    reveal_strlit(".db");
    if path_of(root, d1) == path_of(root, d2) {
        assert(path_of(root, d1).len() == root.len() + 1 + d1.len() + 3);
        assert(path_of(root, d2).len() == root.len() + 1 + d2.len() + 3);
        assert(d1.len() == d2.len());
        assert(d1 =~= d2) by {
            assert forall|i: int| 0 <= i < d1.len() implies d1[i] == d2[i] by {
                assert(path_of(root, d1)[root.len() + 1 + i] == d1[i]);
                assert(path_of(root, d2)[root.len() + 1 + i] == d2[i]);
            }
        }
    }
}

/// A well-formed name holds no path separator and no dot, so a resolved store
/// path never escapes the configured root directory through the name.
pub proof fn lemma_valid_name_stays_in_root(d: Seq<char>)
    requires
        valid_name(d),
    ensures
        forall|i: int| 0 <= i < d.len() ==> d[i] != '/' && d[i] != '\\' && d[i] != '.',
{
}

} // verus!
