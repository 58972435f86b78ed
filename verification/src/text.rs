use vstd::prelude::*;
use vstd::string::StringExecFns;

use crate::model::Upcoming;

verus! {

/// The character that prints a single decimal digit.
pub open spec fn digit_char(d: int) -> char {
    if d == 0 {
        '0'
    } else if d == 1 {
        '1'
    } else if d == 2 {
        '2'
    } else if d == 3 {
        '3'
    } else if d == 4 {
        '4'
    } else if d == 5 {
        '5'
    } else if d == 6 {
        '6'
    } else if d == 7 {
        '7'
    } else if d == 8 {
        '8'
    } else {
        '9'
    }
}

/// Decimal digits of a nonnegative number, most significant first,
/// without sign or padding.
pub open spec fn dec_digits(n: int) -> Seq<char>
    decreases n,
{
    if n <= 9 {
        seq![digit_char(n)]
    } else {
        dec_digits(n / 10).push(digit_char(n % 10))
    }
}

/// Decimal rendering of an integer: a leading '-' for negative values,
/// then the digits of its magnitude.
pub open spec fn int_chars(n: int) -> Seq<char> {
    if n < 0 {
        seq!['-'] + dec_digits(-n)
    } else {
        dec_digits(n)
    }
}

/// The arrival minutes of one line joined with ", ", in dataset order.
pub open spec fn joined_minutes(mins: Seq<int>) -> Seq<char>
    decreases mins.len(),
{
    if mins.len() == 0 {
        Seq::empty()
    } else if mins.len() == 1 {
        int_chars(mins[0])
    } else {
        joined_minutes(mins.drop_last()) + seq![',', ' '] + int_chars(mins.last())
    }
}

/// The full time string drawn at a row's right edge: the joined minutes
/// followed by " min".
pub open spec fn time_label(mins: Seq<int>) -> Seq<char> {
    joined_minutes(mins) + seq![' ', 'm', 'i', 'n']
}

fn digit_str(d: u64) -> (r: &'static str)
    requires
        d <= 9,
    ensures
        r@ == seq![digit_char(d as int)],
{
    let r: &'static str = if d == 0 {
        "0"
    } else if d == 1 {
        "1"
    } else if d == 2 {
        "2"
    } else if d == 3 {
        "3"
    } else if d == 4 {
        "4"
    } else if d == 5 {
        "5"
    } else if d == 6 {
        "6"
    } else if d == 7 {
        "7"
    } else if d == 8 {
        "8"
    } else {
        "9"
    };
    proof {
        reveal_strlit("0");
        reveal_strlit("1");
        reveal_strlit("2");
        reveal_strlit("3");
        reveal_strlit("4");
        reveal_strlit("5");
        reveal_strlit("6");
        reveal_strlit("7");
        reveal_strlit("8");
        reveal_strlit("9");
        assert(r@ =~= seq![digit_char(d as int)]);
    }
    r
}

fn push_decimal(n: u64, out: &mut String)
    ensures
        final(out)@ == old(out)@ + dec_digits(n as int),
    decreases n,
{
    let ghost start = out@;
    if n > 9 {
        push_decimal(n / 10, out);
    }
    let d = n % 10;
    out.append(digit_str(d));
    proof {
        if n > 9 {
            assert(out@ =~= start + dec_digits(n as int / 10).push(digit_char(n as int % 10)));
        } else {
            assert(out@ =~= start + seq![digit_char(n as int)]);
        }
    }
}

/// Decimal rendering of a single minutes value, sign included.
pub fn format_minutes(n: i64) -> (r: String)
    ensures
        r@ == int_chars(n as int),
{
    let mut out = String::new();
    if n < 0 {
        out.append("-");
        proof {
            reveal_strlit("-");
            assert(out@ =~= seq!['-']);
        }
        let m: u64 = if n == i64::MIN {
            9223372036854775808u64
        } else {
            (-n) as u64
        };
        push_decimal(m, &mut out);
        proof {
            assert(out@ =~= seq!['-'] + dec_digits(-(n as int)));
        }
    } else {
        push_decimal(n as u64, &mut out);
        proof {
            assert(out@ =~= dec_digits(n as int));
        }
    }
    out
}

/// The time string for one line's upcoming arrivals: each estimate's
/// minutes joined with ", " in dataset order, then " min". An empty
/// estimate list yields " min" alone.
pub fn time_text(upcoming: &Vec<Upcoming>) -> (r: String)
    ensures
        r@ == time_label(upcoming.deep_view()),
{
    let ghost minsv = upcoming.deep_view();
    let mut out = String::new();
    let n = upcoming.len();
    let mut i: usize = 0;
    proof {
        assert(minsv.take(0) =~= Seq::<int>::empty());
    }
    while i < n
        invariant
            i <= n,
            n == upcoming@.len(),
            minsv == upcoming.deep_view(),
            out@ == joined_minutes(minsv.take(i as int)),
        decreases n - i,
    {
        if i > 0 {
            out.append(", ");
        }
        let s = format_minutes(upcoming[i].minutes);
        out.append(s.as_str());
        proof {
            reveal_strlit(", ");
            assert(", "@ =~= seq![',', ' ']);
            assert(minsv[i as int] == upcoming@[i as int].deep_view());
            assert(minsv.take(i as int + 1).drop_last() =~= minsv.take(i as int));
            assert(minsv.take(i as int + 1).last() == minsv[i as int]);
            assert(out@ =~= joined_minutes(minsv.take(i as int + 1)));
        }
        i += 1;
    }
    out.append(" min");
    proof {
        reveal_strlit(" min");
        assert(" min"@ =~= seq![' ', 'm', 'i', 'n']);
        assert(minsv.take(n as int) =~= minsv);
        assert(out@ =~= time_label(minsv));
    }
    out
}

} // verus!
