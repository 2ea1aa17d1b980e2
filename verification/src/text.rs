//! Small verified operations on text, stated over `Seq<char>`.

use vstd::prelude::*;
use vstd::string::*;

verus! {

/// Whether two pieces of text hold the same characters.
pub fn same_text(a: &str, b: &str) -> (r: bool)
    ensures
        r == (a@ == b@),
{
    let x = String::from_str(a);
    let y = String::from_str(b);
    x == y
}

/// `s` with every space character left out, the other characters in order.
pub open spec fn without_spaces(s: Seq<char>) -> Seq<char>
    decreases s.len(),
{
    if s.len() == 0 {
        s
    } else if s.last() == ' ' {
        without_spaces(s.drop_last())
    } else {
        without_spaces(s.drop_last()).push(s.last())
    }
}

/// Removes every space from `s`.
pub fn remove_spaces(s: &str) -> (r: String)
    ensures
        r@ == without_spaces(s@),
{
    let n: usize = s.unicode_len();
    let mut out = String::new();
    let mut i: usize = 0;
    while i < n
        invariant
            n == s@.len(),
            i <= n,
            out@ == without_spaces(s@.take(i as int)),
        decreases n - i,
    {
        let c = s.get_char(i);
        proof {
            assert(s@.take(i + 1).drop_last() =~= s@.take(i as int));
            assert(s@.take(i + 1).last() == s@[i as int]);
        }
        if c != ' ' {
            let piece = s.substring_char(i, i + 1);
            assert(piece@ =~= seq![c]);
            assert(out@ + piece@ =~= out@.push(c));
            out.append(piece);
        }
        i += 1;
    }
    proof {
        assert(s@.take(n as int) =~= s@);
    }
    out
}

/// Whether `s` ends with `pat`.
pub open spec fn ends_with(s: Seq<char>, pat: Seq<char>) -> bool {
    pat.len() <= s.len() && s.subrange(s.len() - pat.len(), s.len() as int) == pat
}

/// `s` without the trailing repetitions of `pat`: the longest prefix of `s`
/// that is followed by copies of `pat` only.
pub open spec fn trim_end_matches(s: Seq<char>, pat: Seq<char>) -> Seq<char>
    decreases s.len(),
{
    if pat.len() > 0 && ends_with(s, pat) {
        trim_end_matches(s.subrange(0, s.len() - pat.len()), pat)
    } else {
        s
    }
}

/// The separator that ends a field line of the Rust block.
pub open spec fn comma_newline() -> Seq<char> {
    seq![',', '\n']
}

/// Cuts every trailing `",\n"` off `s`.
pub fn trim_trailing_separator(s: &str) -> (r: &str)
    ensures
        r@ == trim_end_matches(s@, comma_newline()),
{
    let mut end: usize = s.unicode_len();
    let mut done = false;
    proof {
        assert(s@.subrange(0, end as int) =~= s@);
    }
    while !done
        invariant
            end <= s@.len(),
            trim_end_matches(s@, comma_newline()) == trim_end_matches(
                s@.subrange(0, end as int),
                comma_newline(),
            ),
            done ==> !ends_with(s@.subrange(0, end as int), comma_newline()),
        decreases (if done { 0 } else { 1 + end as int }),
    {
        if end < 2 {
            done = true;
        } else {
            let a = s.get_char(end - 2);
            let b = s.get_char(end - 1);
            let ghost cur = s@.subrange(0, end as int);
            proof {
                assert(cur.subrange(cur.len() - 2, cur.len() as int) =~= seq![a, b]);
                assert(cur.subrange(0, cur.len() - 2) =~= s@.subrange(0, end - 2));
                if seq![a, b] == comma_newline() {
                    assert(seq![a, b][0] == ',');
                    assert(seq![a, b][1] == '\n');
                }
            }
            if a == ',' && b == '\n' {
                end -= 2;
            } else {
                done = true;
            }
        }
    }
    s.substring_char(0, end)
}

/// The text of one decimal digit.
pub open spec fn digit_text(d: nat) -> Seq<char> {
    if d == 0 {
        "0"@
    } else if d == 1 {
        "1"@
    } else if d == 2 {
        "2"@
    } else if d == 3 {
        "3"@
    } else if d == 4 {
        "4"@
    } else if d == 5 {
        "5"@
    } else if d == 6 {
        "6"@
    } else if d == 7 {
        "7"@
    } else if d == 8 {
        "8"@
    } else {
        "9"@
    }
}

/// The decimal spelling of `n`, without sign or leading zeros.
pub open spec fn decimal_text(n: nat) -> Seq<char>
    decreases n,
{
    if n < 10 {
        digit_text(n)
    } else {
        decimal_text(n / 10) + digit_text(n % 10)
    }
}

fn digit_str(d: usize) -> (r: &'static str)
    requires
        d < 10,
    ensures
        r@ == digit_text(d as nat),
{
    if d == 0 {
        "0"
    } else if d == 1 {
        "1"
    } else if d == 2 {
        "2"
    } else if d == 3 {
        "3"
    } else if d == 4 {
        "4"
    } else if d == 5 {
        "5"
    } else if d == 6 {
        "6"
    } else if d == 7 {
        "7"
    } else if d == 8 {
        "8"
    } else {
        "9"
    }
}

/// Writes `n` in decimal.
pub fn decimal_string(n: usize) -> (r: String)
    ensures
        r@ == decimal_text(n as nat),
    decreases n,
{
    if n < 10 {
        String::from_str(digit_str(n))
    } else {
        let mut s = decimal_string(n / 10);
        s.append(digit_str(n % 10));
        s
    }
}

} // verus!
