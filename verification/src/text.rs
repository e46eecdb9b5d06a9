use vstd::prelude::*;

verus! {

broadcast use vstd::string::group_string_axioms;

/// The first `n` characters of `s`, or all of `s` where it is shorter.
pub open spec fn leading(s: Seq<char>, n: nat) -> Seq<char> {
    if s.len() <= n {
        s
    } else {
        s.take(n as int)
    }
}

/// Truncation keeps the beginning: the first `n` characters of `s` are
/// exactly `min(|s|, n)` characters long, and each is the character at the
/// same place in `s`.
pub proof fn leading_is_the_beginning(s: Seq<char>, n: nat)
    ensures
        leading(s, n).len() == if s.len() <= n {
            s.len()
        } else {
            n
        },
        forall|i: int| 0 <= i < leading(s, n).len() ==> #[trigger] leading(s, n)[i] == s[i],
        s.len() <= n ==> leading(s, n) == s,
{
}

/// Whether `s` holds exactly the characters of `t`.
pub fn same_text(s: &str, t: &str) -> (r: bool)
    ensures
        r == (s@ == t@),
{
    let a = s.to_string();
    let b = t.to_string();
    a == b
}

/// A new string holding the first `n` characters of `s`.
pub fn leading_chars(s: &str, n: usize) -> (r: String)
    ensures
        r@ == leading(s@, n as nat),
{
    let len = s.unicode_len();
    let keep = if len <= n {
        len
    } else {
        n
    };
    let part = s.substring_char(0, keep);
    proof {
        if len <= n {
            assert(s@.subrange(0, keep as int) =~= s@);
        }
    }
    part.to_string()
}

/// `a` followed by `b`, as a new string.
pub fn joined(a: &str, b: &str) -> (r: String)
    ensures
        r@ == a@ + b@,
{
    a.to_string().concat(b)
}

} // verus!
