//! Small string operations shared by the registries and the path builders.
use vstd::prelude::*;

verus! {

/// `dir` and `name` joined by one `/`.
pub open spec fn joined(dir: Seq<char>, name: Seq<char>) -> Seq<char> {
    dir + seq!['/'] + name
}

/// The code of an ASCII upper-case letter.
pub open spec fn is_upper_code(x: u32) -> bool {
    65 <= x <= 90
}

/// `a` and `b` are the same character up to ASCII case: equal, or an ASCII
/// upper-case letter and its lower-case form.
pub open spec fn same_ignoring_case(a: char, b: char) -> bool {
    ||| a as u32 == b as u32
    ||| (is_upper_code(a as u32) && b as u32 == a as u32 + 32)
    ||| (is_upper_code(b as u32) && a as u32 == b as u32 + 32)
}

/// `s` and `t` are equal up to ASCII case.
pub open spec fn eq_ignoring_case(s: Seq<char>, t: Seq<char>) -> bool {
    &&& s.len() == t.len()
    &&& forall|i: int| 0 <= i < s.len() ==> same_ignoring_case(#[trigger] s[i], t[i])
}

/// Two strings equal up to ASCII case compare alike with every third string.
pub proof fn lemma_eq_ignoring_case_transfers(s: Seq<char>, t: Seq<char>, u: Seq<char>)
    requires
        eq_ignoring_case(s, t),
    ensures
        eq_ignoring_case(s, u) <==> eq_ignoring_case(t, u),
{
    if eq_ignoring_case(s, u) {
        assert forall|i: int| 0 <= i < t.len() implies same_ignoring_case(#[trigger] t[i], u[i]) by {
            assert(same_ignoring_case(s[i], t[i]));
            assert(same_ignoring_case(s[i], u[i]));
        }
    }
    if eq_ignoring_case(t, u) {
        assert forall|i: int| 0 <= i < s.len() implies same_ignoring_case(#[trigger] s[i], u[i]) by {
            assert(same_ignoring_case(s[i], t[i]));
            assert(same_ignoring_case(t[i], u[i]));
        }
    }
}

/// Copies `s` into a new `String`.
pub fn owned(s: &str) -> (r: String)
    ensures
        r@ == s@,
{
    String::from_str(s)
}

/// `a` followed by `b`.
pub fn concat(a: &str, b: &str) -> (r: String)
    ensures
        r@ == a@ + b@,
{
    let mut r = String::from_str(a);
    r.append(b);
    r
}

/// The path `dir/name`.
pub fn join_path(dir: &str, name: &str) -> (r: String)
    ensures
        r@ == joined(dir@, name@),
{
    let mut r = String::from_str(dir);
    let sep = "/";
    proof {
        reveal_strlit("/");
    }
    r.append(sep);
    r.append(name);
    r
}

fn same_char_ignoring_case(a: char, b: char) -> (r: bool)
    ensures
        r == same_ignoring_case(a, b),
{
    let x = a as u32;
    let y = b as u32;
    if x == y {
        true
    } else if 65 <= x && x <= 90 {
        y == x + 32
    } else if 65 <= y && y <= 90 {
        x == y + 32
    } else {
        false
    }
}

/// Compares two strings, treating ASCII upper- and lower-case letters alike.
pub fn equals_ignoring_case(s: &str, t: &str) -> (r: bool)
    ensures
        r == eq_ignoring_case(s@, t@),
{
    let n = s.unicode_len();
    if n != t.unicode_len() {
        return false;
    }
    let mut i: usize = 0;
    while i < n
        invariant
            n == s@.len(),
            n == t@.len(),
            i <= n,
            forall|j: int| 0 <= j < i ==> same_ignoring_case(#[trigger] s@[j], t@[j]),
        decreases n - i,
    {
        if !same_char_ignoring_case(s.get_char(i), t.get_char(i)) {
            return false;
        }
        i = i + 1;
    }
    true
}

/// Whether `s` and `t` hold the same characters.
pub fn same_text(s: &str, t: &str) -> (r: bool)
    ensures
        r == (s@ == t@),
{
    let n = s.unicode_len();
    if n != t.unicode_len() {
        return false;
    }
    let mut i: usize = 0;
    while i < n
        invariant
            n == s@.len(),
            n == t@.len(),
            i <= n,
            forall|j: int| 0 <= j < i ==> #[trigger] s@[j] == t@[j],
        decreases n - i,
    {
        if s.get_char(i) != t.get_char(i) {
            return false;
        }
        i = i + 1;
    }
    assert(s@ =~= t@);
    true
}

} // verus!
