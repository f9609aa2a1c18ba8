//! Small operations on names.
use vstd::prelude::*;
use crate::model::strings_view;

verus! {

/// Whether two texts hold the same characters.
pub fn same_text(s: &str, t: &str) -> (r: bool)
    ensures
        r == (s@ == t@),
{
    let n = s.unicode_len();
    let m = t.unicode_len();
    if n != m {
        return false;
    }
    let mut i: usize = 0;
    while i < n
        invariant
            n == s@.len(),
            m == t@.len(),
            n == m,
            i <= n,
            forall|j: int| 0 <= j < i ==> s@[j] == t@[j],
        decreases n - i,
    {
        if s.get_char(i) != t.get_char(i) {
            return false;
        }
        i = i + 1;
    }
    assert(s@ =~= t@);
    true
}

/// Whether the name `s` is the word `w`.
pub fn is_word(s: &String, w: &str) -> (r: bool)
    ensures
        r == (s@ == w@),
{
    same_text(s.as_str(), w)
}

/// A new string holding `w`.
pub fn word(w: &str) -> (r: String)
    ensures
        r@ == w@,
{
    String::from_str(w)
}

pub fn copy_string(s: &String) -> (r: String)
    ensures
        r@ == s@,
{
    s.clone()
}

/// Whether `s` is one of the names in `names`.
pub fn contains_name(names: &Vec<String>, s: &String) -> (r: bool)
    ensures
        r == strings_view(names@).contains(s@),
{
    let mut i: usize = 0;
    while i < names.len()
        invariant
            i <= names@.len(),
            forall|j: int| 0 <= j < i ==> names@[j]@ != s@,
        decreases names@.len() - i,
    {
        if names[i] == *s {
            assert(strings_view(names@)[i as int] == s@);
            return true;
        }
        i = i + 1;
    }
    assert(!strings_view(names@).contains(s@)) by {
        if strings_view(names@).contains(s@) {
            let k = choose|k: int|
                0 <= k < names@.len() && #[trigger] strings_view(names@)[k] == s@;
            assert(names@[k]@ == s@);
        }
    }
    false
}

/// Whether the name starts with `$`.
pub fn starts_with_dollar(s: &String) -> (r: bool)
    ensures
        r == (s@.len() > 0 && s@[0] == '$'),
{
    let t = s.as_str();
    if t.unicode_len() == 0 {
        false
    } else {
        t.get_char(0) == '$'
    }
}

/// The name without its first character.
pub fn drop_first_char(s: &String) -> (r: String)
    requires
        s@.len() > 0,
    ensures
        r@ == s@.drop_first(),
{
    let t = s.as_str();
    let n = t.unicode_len();
    let rest = t.substring_char(1, n);
    assert(rest@ =~= s@.drop_first());
    String::from_str(rest)
}

} // verus!
