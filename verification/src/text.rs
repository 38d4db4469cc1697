//! Verified text building: decimal rendering of integers and joining of
//! string fragments with a separator. The command plans and the report
//! rows are assembled from these.

use vstd::prelude::*;
use vstd::string::StringExecFns;

verus! {

/// The digit character of a value below ten.
pub open spec fn digit_char(d: nat) -> char {
    if d == 0 {
        '0'
    } else if d == 1 {
        '1'
    } else if d == 2 {
        '2'
    } else if d == 3 {
        '3'
    } else if d == 4 {
        '4'
    } else if d == 5 {
        '5'
    } else if d == 6 {
        '6'
    } else if d == 7 {
        '7'
    } else if d == 8 {
        '8'
    } else {
        '9'
    }
}

/// The usual decimal rendering of a number, most significant digit first,
/// no sign and no leading zero except for the number zero itself.
pub open spec fn spec_decimal(n: nat) -> Seq<char>
    decreases n,
{
    if n < 10 {
        seq![digit_char(n)]
    } else {
        spec_decimal(n / 10).push(digit_char(n % 10))
    }
}

/// Append the digit character of `d` to `s`.
fn push_digit(s: &mut String, d: u64)
    requires
        d < 10,
    ensures
        final(s)@ == old(s)@.push(digit_char(d as nat)),
{
    if d == 0 {
        proof { reveal_strlit("0"); }
        s.append("0");
        assert(s@ =~= old(s)@.push(digit_char(d as nat)));
    } else if d == 1 {
        proof { reveal_strlit("1"); }
        s.append("1");
        assert(s@ =~= old(s)@.push(digit_char(d as nat)));
    } else if d == 2 {
        proof { reveal_strlit("2"); }
        s.append("2");
        assert(s@ =~= old(s)@.push(digit_char(d as nat)));
    } else if d == 3 {
        proof { reveal_strlit("3"); }
        s.append("3");
        assert(s@ =~= old(s)@.push(digit_char(d as nat)));
    } else if d == 4 {
        proof { reveal_strlit("4"); }
        s.append("4");
        assert(s@ =~= old(s)@.push(digit_char(d as nat)));
    } else if d == 5 {
        proof { reveal_strlit("5"); }
        s.append("5");
        assert(s@ =~= old(s)@.push(digit_char(d as nat)));
    } else if d == 6 {
        proof { reveal_strlit("6"); }
        s.append("6");
        assert(s@ =~= old(s)@.push(digit_char(d as nat)));
    } else if d == 7 {
        proof { reveal_strlit("7"); }
        s.append("7");
        assert(s@ =~= old(s)@.push(digit_char(d as nat)));
    } else if d == 8 {
        proof { reveal_strlit("8"); }
        s.append("8");
        assert(s@ =~= old(s)@.push(digit_char(d as nat)));
    } else {
        proof { reveal_strlit("9"); }
        s.append("9");
        assert(s@ =~= old(s)@.push(digit_char(d as nat)));
    }
}

/// Append the decimal rendering of `n` to `s`.
fn push_decimal(s: &mut String, n: u64)
    ensures
        final(s)@ == old(s)@ + spec_decimal(n as nat),
    decreases n,
{
    if n < 10 {
        push_digit(s, n);
        assert(s@ =~= old(s)@ + spec_decimal(n as nat));
    } else {
        push_decimal(s, n / 10);
        push_digit(s, n % 10);
        assert(s@ =~= old(s)@ + spec_decimal(n as nat));
    }
}

/// The decimal rendering of `n` as a fresh string.
pub fn decimal_string(n: u64) -> (r: String)
    ensures
        r@ == spec_decimal(n as nat),
{
    let mut s = String::new();
    push_decimal(&mut s, n);
    assert(s@ =~= spec_decimal(n as nat));
    s
}

/// The parts joined with the separator between consecutive parts: empty
/// for no parts, and no separator before the first part.
pub open spec fn spec_join(parts: Seq<Seq<char>>, sep: Seq<char>) -> Seq<char>
    decreases parts.len(),
{
    if parts.len() == 0 {
        Seq::empty()
    } else if parts.len() == 1 {
        parts[0]
    } else {
        spec_join(parts.drop_last(), sep) + sep + parts.last()
    }
}

/// Join the parts with the separator between consecutive parts.
pub fn join_strings(parts: &Vec<String>, sep: &str) -> (r: String)
    ensures
        r@ == spec_join(parts@.map_values(|p: String| p@), sep@),
{
    let ghost gparts = parts@.map_values(|p: String| p@);
    let mut r = String::new();
    let mut i: usize = 0;
    while i < parts.len()
        invariant
            0 <= i <= parts@.len(),
            gparts == parts@.map_values(|p: String| p@),
            gparts.len() == parts@.len(),
            r@ == spec_join(gparts.take(i as int), sep@),
        decreases parts@.len() - i,
    {
        if i > 0 {
            r.append(sep);
        }
        r.append(parts[i].as_str());
        proof {
            let t = gparts.take(i + 1);
            assert(t.drop_last() =~= gparts.take(i as int));
            assert(t.last() == gparts[i as int]);
            assert(r@ =~= spec_join(t, sep@));
        }
        i = i + 1;
    }
    proof {
        assert(gparts.take(gparts.len() as int) =~= gparts);
    }
    r
}

/// `needle` occurs in `hay` as one contiguous run of characters.
pub open spec fn contains_segment(hay: Seq<char>, needle: Seq<char>) -> bool {
    exists|a: int|
        0 <= a && a + needle.len() <= hay.len() && #[trigger] hay.subrange(a, a + needle.len())
            == needle
}

/// Every joined part stands whole somewhere in the joined string.
pub proof fn lemma_join_contains_part(parts: Seq<Seq<char>>, sep: Seq<char>, i: int)
    requires
        0 <= i < parts.len(),
    ensures
        contains_segment(spec_join(parts, sep), parts[i]),
    decreases parts.len(),
{
    let j = spec_join(parts, sep);
    let needle = parts[i];
    if parts.len() == 1 {
        let a: int = 0;
        assert(j.subrange(a, a + needle.len()) =~= needle);
        assert(contains_segment(j, needle));
    } else {
        let pre = spec_join(parts.drop_last(), sep);
        if i == parts.len() - 1 {
            let a: int = j.len() - needle.len();
            assert(j.subrange(a, a + needle.len()) =~= needle);
            assert(contains_segment(j, needle));
        } else {
            lemma_join_contains_part(parts.drop_last(), sep, i);
            assert(parts.drop_last()[i] == needle);
            let a = choose|a: int|
                0 <= a && a + needle.len() <= pre.len() && #[trigger] pre.subrange(
                    a,
                    a + needle.len(),
                ) == needle;
            assert(j.subrange(a, a + needle.len()) =~= pre.subrange(a, a + needle.len()));
            assert(j.subrange(a, a + needle.len()) == needle);
            assert(contains_segment(j, needle));
        }
    }
}

} // verus!
