//! The names of the files that hold the application's settings, one file
//! per key.

use crate::config::text_of;
use crate::text::{chars_of, matches_at, occurs_at};
use vstd::prelude::*;
use vstd::string::*;

verus! {

/// `s` ends with `pat`.
pub open spec fn ends_with(s: Seq<char>, pat: Seq<char>) -> bool {
    pat.len() <= s.len() && matches_at(s, pat, s.len() - pat.len())
}

/// `s` without any number of `pat` at its end.
pub open spec fn without_endings(s: Seq<char>, pat: Seq<char>) -> Seq<char>
    decreases s.len(),
{
    if pat.len() > 0 && ends_with(s, pat) {
        without_endings(s.take(s.len() - pat.len()), pat)
    } else {
        s
    }
}

/// The name of the file that holds the value of a key.
pub open spec fn file_name_of(key: Seq<char>) -> Seq<char> {
    key + ".json"@
}

/// The key that a file of the data directory stands for: its name without
/// its `.json` endings; none for a file of another kind.
pub open spec fn key_of(file_name: Seq<char>) -> Option<Seq<char>> {
    if ends_with(file_name, ".json"@) {
        Some(without_endings(file_name, ".json"@))
    } else {
        None
    }
}

/// The name of the file that holds the value of a key.
pub fn data_file_name(key: &str) -> (name: String)
    ensures
        name@ == file_name_of(key@),
{
    String::from_str(key).concat(".json")
}

/// The key that a file of the data directory stands for, if any.
pub fn data_key(file_name: &str) -> (key: Option<String>)
    ensures
        text_of(key) == key_of(file_name@),
{
    let name = chars_of(file_name);
    let ending = chars_of(".json");
    let m = ending.len();
    let n = name.len();
    if m > n || !occurs_at(&name, &ending, n - m) {
        return None;
    }
    assert(name@.take(n as int) =~= name@);
    let mut end: usize = n;
    while m > 0 && end >= m && occurs_at(&name, &ending, end - m)
        invariant
            end <= n,
            n == name@.len(),
            m == ending@.len(),
            without_endings(name@.take(end as int), ending@) == without_endings(name@, ending@),
        decreases end,
    {
        assert(name@.take(end as int).subrange(end - m, end as int) =~= name@.subrange(
            end - m,
            end as int,
        ));
        assert(name@.take(end as int).take(end - m) =~= name@.take(end - m));
        end -= m;
    }
    assert(without_endings(name@.take(end as int), ending@) == name@.take(end as int)) by {
        if m > 0 && end >= m {
            assert(name@.take(end as int).subrange(end - m, end as int) =~= name@.subrange(
                end - m,
                end as int,
            ));
        }
    }
    Some(String::from_str(file_name.substring_char(0, end)))
}

/// The file of a key stands for that key, where the key itself does not
/// end in `.json`.
pub proof fn lemma_key_of_file_name(key: Seq<char>)
    requires
        !ends_with(key, ".json"@),
    ensures
        key_of(file_name_of(key)) == Some(key),
{
    let ending = ".json"@;
    let name = file_name_of(key);
    assert(ending.len() > 0) by {
        reveal_strlit(".json");
    }
    assert(name.subrange(name.len() - ending.len(), name.len() as int) =~= ending);
    assert(name.take(name.len() - ending.len()) =~= key);
    assert(without_endings(key, ending) == key);
}

} // verus!
