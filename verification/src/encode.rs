//! The request side of the pipeline: rendering parameter values as strings
//! and handing ordered key-value pairs to the form encoder.
use vstd::prelude::*;
use vstd::string::StringExecFns;

verus! {

/// The application/x-www-form-urlencoded rendering of an ordered list of
/// key-value pairs.
pub uninterp spec fn form_encoding_of(pairs: Seq<(Seq<char>, Seq<char>)>) -> Seq<char>;

/// The view of a vector of string pairs, pair by pair.
pub open spec fn pairs_view(pairs: Seq<(String, String)>) -> Seq<(Seq<char>, Seq<char>)> {
    Seq::new(pairs.len(), |i: int| (pairs[i].0@, pairs[i].1@))
}

/// Relies on serde_urlencoded::to_string: a sequence of string pairs is a
/// supported input on which it cannot fail, and its rendering depends on
/// the pairs alone.
#[verifier::external_body]
pub fn form_encode(pairs: &Vec<(String, String)>) -> (r: String)
    ensures
        r@ == form_encoding_of(pairs_view(pairs@)),
{
    serde_urlencoded::to_string(pairs).unwrap_or_default()
}

/// The decimal digits, by value.
pub open spec fn dec_digit(d: int) -> char
    recommends
        0 <= d < 10,
{
    seq!['0', '1', '2', '3', '4', '5', '6', '7', '8', '9'][d]
}

/// The decimal rendering of a non-negative integer, without sign.
pub open spec fn dec_nat_string(n: int) -> Seq<char>
    recommends
        n >= 0,
    decreases n,
{
    if n < 10 {
        seq![dec_digit(n)]
    } else {
        dec_nat_string(n / 10).push(dec_digit(n % 10))
    }
}

/// The decimal rendering of an integer, a minus sign ahead of a negative.
pub open spec fn dec_int_string(n: int) -> Seq<char> {
    if n < 0 {
        seq!['-'].add(dec_nat_string(-n))
    } else {
        dec_nat_string(n)
    }
}

fn push_digit(s: &mut String, d: u8)
    requires
        d < 10,
    ensures
        final(s)@ == old(s)@.push(dec_digit(d as int)),
{
    let c: &str = match d {
        0 => "0",
        1 => "1",
        2 => "2",
        3 => "3",
        4 => "4",
        5 => "5",
        6 => "6",
        7 => "7",
        8 => "8",
        _ => "9",
    };
    proof {
        reveal_strlit("0");
        reveal_strlit("1");
        reveal_strlit("2");
        reveal_strlit("3");
        reveal_strlit("4");
        reveal_strlit("5");
        reveal_strlit("6");
        reveal_strlit("7");
        reveal_strlit("8");
        reveal_strlit("9");
        assert(c@ =~= seq![dec_digit(d as int)]);
    }
    s.append(c);
    proof {
        assert(final(s)@ =~= old(s)@.push(dec_digit(d as int)));
    }
}

fn push_nat(s: &mut String, m: u64)
    ensures
        final(s)@ == old(s)@ + dec_nat_string(m as int),
    decreases m,
{
    if m >= 10 {
        push_nat(s, m / 10);
        push_digit(s, (m % 10) as u8);
        proof {
            assert(final(s)@ =~= old(s)@ + dec_nat_string(m as int));
        }
    } else {
        push_digit(s, m as u8);
        proof {
            assert(final(s)@ =~= old(s)@ + dec_nat_string(m as int));
        }
    }
}

/// The decimal rendering of a 32-bit integer, as the wire carries it.
pub fn i32_to_string(n: i32) -> (s: String)
    ensures
        s@ == dec_int_string(n as int),
{
    let mut s = String::new();
    let wide: i64 = n as i64;
    if wide < 0 {
        s.append("-");
        proof {
            reveal_strlit("-");
        }
        let m: u64 = (-wide) as u64;
        push_nat(&mut s, m);
        proof {
            assert(s@ =~= dec_int_string(n as int));
        }
    } else {
        push_nat(&mut s, wide as u64);
        proof {
            assert(s@ =~= dec_int_string(n as int));
        }
    }
    s
}

/// How a boolean parameter is rendered on the wire.
pub open spec fn bool_string(b: bool) -> Seq<char> {
    if b {
        "true"@
    } else {
        "false"@
    }
}

pub fn bool_to_string(b: bool) -> (s: String)
    ensures
        s@ == bool_string(b),
{
    if b {
        String::from_str("true")
    } else {
        String::from_str("false")
    }
}

/// The pair a present optional value contributes, and nothing from an
/// absent one.
pub open spec fn opt_pair(key: Seq<char>, v: Option<Seq<char>>) -> Seq<(Seq<char>, Seq<char>)> {
    match v {
        Option::Some(s) => seq![(key, s)],
        Option::None => Seq::empty(),
    }
}

/// The rendering of an optional integer parameter.
pub open spec fn opt_i32_string(v: Option<i32>) -> Option<Seq<char>> {
    match v {
        Option::Some(i) => Option::Some(dec_int_string(i as int)),
        Option::None => Option::None,
    }
}

/// The rendering of an optional boolean parameter.
pub open spec fn opt_bool_string(v: Option<bool>) -> Option<Seq<char>> {
    match v {
        Option::Some(b) => Option::Some(bool_string(b)),
        Option::None => Option::None,
    }
}

/// Appends the pair of a present string parameter.
pub fn push_opt_str(pairs: &mut Vec<(String, String)>, key: &str, v: &Option<String>)
    ensures
        pairs_view(final(pairs)@) == pairs_view(old(pairs)@) + opt_pair(
            key@,
            crate::decode::opt_string_view(*v),
        ),
{
    match v {
        Some(x) => {
            pairs.push((String::from_str(key), x.clone()));
        },
        None => {
        },
    }
    proof {
        assert(pairs_view(pairs@) =~= pairs_view(old(pairs)@) + opt_pair(
            key@,
            crate::decode::opt_string_view(*v),
        ));
    }
}

/// Appends the pair of a present integer parameter, rendered in decimal.
pub fn push_opt_i32(pairs: &mut Vec<(String, String)>, key: &str, v: &Option<i32>)
    ensures
        pairs_view(final(pairs)@) == pairs_view(old(pairs)@) + opt_pair(key@, opt_i32_string(*v)),
{
    match v {
        Some(x) => {
            let rendered = i32_to_string(*x);
            pairs.push((String::from_str(key), rendered));
        },
        None => {
        },
    }
    proof {
        assert(pairs_view(pairs@) =~= pairs_view(old(pairs)@) + opt_pair(
            key@,
            opt_i32_string(*v),
        ));
    }
}

/// Appends the pair of a present boolean parameter.
pub fn push_opt_bool(pairs: &mut Vec<(String, String)>, key: &str, v: &Option<bool>)
    ensures
        pairs_view(final(pairs)@) == pairs_view(old(pairs)@) + opt_pair(key@, opt_bool_string(*v)),
{
    match v {
        Some(x) => {
            let rendered = bool_to_string(*x);
            pairs.push((String::from_str(key), rendered));
        },
        None => {
        },
    }
    proof {
        assert(pairs_view(pairs@) =~= pairs_view(old(pairs)@) + opt_pair(
            key@,
            opt_bool_string(*v),
        ));
    }
}

/// Appends the pair of a required string parameter.
pub fn push_str(pairs: &mut Vec<(String, String)>, key: &str, v: &String)
    ensures
        pairs_view(final(pairs)@) == pairs_view(old(pairs)@).push((key@, v@)),
{
    pairs.push((String::from_str(key), v.clone()));
    proof {
        assert(pairs_view(pairs@) =~= pairs_view(old(pairs)@).push((key@, v@)));
    }
}

} // verus!
