//! Decimal rendering and list joining, shared by every display form.

use vstd::prelude::*;

verus! {

/// The decimal digit character for `d` in `0..=9`.
pub open spec fn spec_digit(d: int) -> char {
    if d == 0 {
        '0'
    } else if d == 1 {
        '1'
    } else if d == 2 {
        '2'
    } else if d == 3 {
        '3'
    } else if d == 4 {
        '4'
    } else if d == 5 {
        '5'
    } else if d == 6 {
        '6'
    } else if d == 7 {
        '7'
    } else if d == 8 {
        '8'
    } else {
        '9'
    }
}

/// The decimal rendering of a natural number, most significant digit first.
pub open spec fn spec_dec_nat(n: nat) -> Seq<char>
    decreases n,
{
    if n < 10 {
        seq![spec_digit(n as int)]
    } else {
        spec_dec_nat(n / 10) + seq![spec_digit((n % 10) as int)]
    }
}

/// The decimal rendering of an integer: a minus sign before the magnitude
/// for negative values.
pub open spec fn spec_dec_int(v: int) -> Seq<char> {
    if v < 0 {
        seq!['-'] + spec_dec_nat((-v) as nat)
    } else {
        spec_dec_nat(v as nat)
    }
}

/// The single decimal digit `d` as a string.
fn digit_str(d: u8) -> (r: &'static str)
    requires
        d < 10,
    ensures
        r@ == seq![spec_digit(d as int)],
{
    proof {
        reveal_strlit("0");
        reveal_strlit("1");
        reveal_strlit("2");
        reveal_strlit("3");
        reveal_strlit("4");
        reveal_strlit("5");
        reveal_strlit("6");
        reveal_strlit("7");
        reveal_strlit("8");
        reveal_strlit("9");
    }
    let r = match d {
        0 => "0",
        1 => "1",
        2 => "2",
        3 => "3",
        4 => "4",
        5 => "5",
        6 => "6",
        7 => "7",
        8 => "8",
        _ => "9",
    };
    proof {
        assert(r@ =~= seq![spec_digit(d as int)]);
    }
    r
}

/// The decimal rendering of a byte.
pub fn dec_u8(n: u8) -> (r: String)
    ensures
        r@ == spec_dec_nat(n as nat),
    decreases n,
{
    if n < 10 {
        String::from_str(digit_str(n))
    } else {
        let mut s = dec_u8(n / 10);
        s.append(digit_str(n % 10));
        s
    }
}

/// The decimal rendering of a signed byte.
pub fn dec_i8(v: i8) -> (r: String)
    ensures
        r@ == spec_dec_int(v as int),
{
    if v >= 0 {
        dec_u8(v as u8)
    } else {
        let magnitude: u8 = (-(v as i16)) as u8;
        proof {
            reveal_strlit("-");
        }
        let mut s = String::from_str("-");
        s.append(dec_u8(magnitude).as_str());
        proof {
            assert(s@ =~= spec_dec_int(v as int));
        }
        s
    }
}

/// The elements of `xs` from index `i` on, joined by `sep`.
pub open spec fn spec_join_from(xs: Seq<Seq<char>>, sep: Seq<char>, i: int) -> Seq<char>
    decreases xs.len() - i,
{
    if i < 0 || i >= xs.len() {
        Seq::empty()
    } else if i == xs.len() - 1 {
        xs[i]
    } else {
        xs[i] + sep + spec_join_from(xs, sep, i + 1)
    }
}

/// The elements of `xs` joined by `sep`.
pub open spec fn spec_join(xs: Seq<Seq<char>>, sep: Seq<char>) -> Seq<char> {
    spec_join_from(xs, sep, 0)
}

fn join_from(items: &Vec<String>, sep: &str, i: usize) -> (r: String)
    requires
        i <= items@.len(),
    ensures
        r@ == spec_join_from(items@.map_values(|s: String| s@), sep@, i as int),
    decreases items@.len() - i,
{
    if i >= items.len() {
        String::new()
    } else if i == items.len() - 1 {
        items[i].clone()
    } else {
        let mut s = items[i].clone();
        s.append(sep);
        s.append(join_from(items, sep, i + 1).as_str());
        s
    }
}

/// Joins the strings of `items` with the separator `sep`.
pub fn join_strs(items: &Vec<String>, sep: &str) -> (r: String)
    ensures
        r@ == spec_join(items@.map_values(|s: String| s@), sep@),
{
    join_from(items, sep, 0)
}

} // verus!
