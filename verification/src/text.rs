//! Rendering of diagnostic messages as plain strings: decimal status
//! codes and separator-joined message lists.
use vstd::prelude::*;
use vstd::string::StringExecFns;

verus! {

/// The decimal digit character for `d` (meaningful for `d < 10`).
pub open spec fn digit_char(d: nat) -> char {
    if d == 0 {
        '0'
    } else if d == 1 {
        '1'
    } else if d == 2 {
        '2'
    } else if d == 3 {
        '3'
    } else if d == 4 {
        '4'
    } else if d == 5 {
        '5'
    } else if d == 6 {
        '6'
    } else if d == 7 {
        '7'
    } else if d == 8 {
        '8'
    } else {
        '9'
    }
}

/// The decimal rendering of `n`, most significant digit first.
pub open spec fn decimal_digits(n: nat) -> Seq<char>
    decreases n,
{
    if n < 10 {
        seq![digit_char(n)]
    } else {
        decimal_digits(n / 10).push(digit_char(n % 10))
    }
}

/// The decimal rendering of a possibly negative number: a leading minus
/// sign before the rendering of its magnitude.
pub open spec fn signed_decimal(i: int) -> Seq<char> {
    if i < 0 {
        seq!['-'] + decimal_digits((-i) as nat)
    } else {
        decimal_digits(i as nat)
    }
}

/// `parts` joined by `sep`, with no leading or trailing separator.
pub open spec fn join_sep(parts: Seq<Seq<char>>, sep: Seq<char>) -> Seq<char>
    decreases parts.len(),
{
    if parts.len() == 0 {
        Seq::empty()
    } else if parts.len() == 1 {
        parts[0]
    } else {
        parts[0] + sep + join_sep(parts.drop_first(), sep)
    }
}

/// Appending one more part to a joined sequence extends it by one
/// separator and that part (or is that part alone, when nothing was
/// joined yet).
pub proof fn lemma_join_sep_push(parts: Seq<Seq<char>>, sep: Seq<char>, last: Seq<char>)
    ensures
        parts.len() == 0 ==> join_sep(parts.push(last), sep) == last,
        parts.len() > 0 ==> join_sep(parts.push(last), sep) == join_sep(parts, sep) + sep + last,
    decreases parts.len(),
{
    if parts.len() == 0 {
        assert(parts.push(last) =~= seq![last]);
        assert(join_sep(seq![last], sep) == last);
    } else if parts.len() == 1 {
        assert(parts.push(last).drop_first() =~= seq![last]);
        assert(join_sep(parts.push(last), sep) == parts[0] + sep + join_sep(seq![last], sep));
        assert(join_sep(parts, sep) == parts[0]);
    } else {
        lemma_join_sep_push(parts.drop_first(), sep, last);
        assert(parts.push(last).drop_first() =~= parts.drop_first().push(last));
        assert(join_sep(parts.push(last), sep) == parts[0] + sep + join_sep(
            parts.drop_first().push(last),
            sep,
        ));
        assert(join_sep(parts.drop_first().push(last), sep) == join_sep(parts.drop_first(), sep)
            + sep + last);
        assert(parts[0] + sep + (join_sep(parts.drop_first(), sep) + sep + last) =~= (parts[0] + sep
            + join_sep(parts.drop_first(), sep)) + sep + last);
    }
}

/// The one-character string for a decimal digit.
fn digit_str(d: u64) -> (r: &'static str)
    requires
        d < 10,
    ensures
        r@ == seq![digit_char(d as nat)],
{
    proof {
        reveal_strlit("0");
        reveal_strlit("1");
        reveal_strlit("2");
        reveal_strlit("3");
        reveal_strlit("4");
        reveal_strlit("5");
        reveal_strlit("6");
        reveal_strlit("7");
        reveal_strlit("8");
        reveal_strlit("9");
    }
    match d {
        0 => "0",
        1 => "1",
        2 => "2",
        3 => "3",
        4 => "4",
        5 => "5",
        6 => "6",
        7 => "7",
        8 => "8",
        _ => "9",
    }
}

/// Render `n` in decimal.
pub fn decimal_string(n: u64) -> (r: String)
    ensures
        r@ == decimal_digits(n as nat),
    decreases n,
{
    if n < 10 {
        String::from_str(digit_str(n))
    } else {
        let mut s = decimal_string(n / 10);
        s.append(digit_str(n % 10));
        s
    }
}

/// Render a status code in decimal, with a minus sign when negative.
pub fn signed_decimal_string(code: i32) -> (r: String)
    ensures
        r@ == signed_decimal(code as int),
{
    proof {
        reveal_strlit("-");
    }
    if code < 0 {
        let magnitude: u64 = (-(code as i64)) as u64;
        let mut s = String::from_str("-");
        let digits = decimal_string(magnitude);
        s.append(digits.as_str());
        s
    } else {
        decimal_string(code as u64)
    }
}

/// Join `parts` with `sep` between consecutive parts.
pub fn join_strs(parts: &Vec<&'static str>, sep: &str) -> (r: String)
    ensures
        r@ == join_sep(parts@.map_values(|p: &'static str| p@), sep@),
{
    let ghost views = parts@.map_values(|p: &'static str| p@);
    let mut r = String::new();
    let mut i: usize = 0;
    while i < parts.len()
        invariant
            0 <= i <= parts.len(),
            views == parts@.map_values(|p: &'static str| p@),
            views.len() == parts.len(),
            r@ == join_sep(views.take(i as int), sep@),
        decreases parts.len() - i,
    {
        if i > 0 {
            r.append(sep);
        }
        r.append(parts[i]);
        proof {
            lemma_join_sep_push(views.take(i as int), sep@, views[i as int]);
            assert(views.take(i as int).push(views[i as int]) =~= views.take(i + 1));
        }
        i = i + 1;
    }
    proof {
        assert(views.take(parts@.len() as int) =~= views);
    }
    r
}

} // verus!
