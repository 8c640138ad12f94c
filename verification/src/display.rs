use vstd::prelude::*;

verus! {

/// The decimal digit character for a value below ten.
pub open spec fn digit_char(d: int) -> char {
    if d == 0 {
        '0'
    } else if d == 1 {
        '1'
    } else if d == 2 {
        '2'
    } else if d == 3 {
        '3'
    } else if d == 4 {
        '4'
    } else if d == 5 {
        '5'
    } else if d == 6 {
        '6'
    } else if d == 7 {
        '7'
    } else if d == 8 {
        '8'
    } else {
        '9'
    }
}

/// The decimal digits of a non-negative value, most significant first.
pub open spec fn dec_digits(n: int) -> Seq<char>
    recommends
        n >= 0,
    decreases n,
{
    if n < 10 {
        seq![digit_char(n)]
    } else {
        dec_digits(n / 10).push(digit_char(n % 10))
    }
}

/// A value padded with a leading zero to at least two digits.
pub open spec fn padded2(n: int) -> Seq<char> {
    if n < 10 {
        seq!['0', digit_char(n)]
    } else {
        dec_digits(n)
    }
}

/// The elapsed-time text: `H:MM:SS` when at least an hour has passed, `M:SS`
/// otherwise, each part zero-padded to two digits.
pub open spec fn time_text_spec(millis: int) -> Seq<char> {
    let total_seconds = millis / 1000;
    let hours = total_seconds / 3600;
    let minutes = (total_seconds % 3600) / 60;
    let seconds = total_seconds % 60;
    if hours > 0 {
        padded2(hours) + seq![':'] + padded2(minutes) + seq![':'] + padded2(seconds)
    } else {
        padded2(minutes) + seq![':'] + padded2(seconds)
    }
}

/// The centiseconds text: a colon and the two-digit hundredths field.
pub open spec fn ms_text_spec(millis: int) -> Seq<char> {
    seq![':'] + padded2((millis % 1000) / 10)
}

/// The single-character string of a decimal digit.
fn digit_str(d: u64) -> (s: &'static str)
    requires
        d < 10,
    ensures
        s@ == seq![digit_char(d as int)],
{
    if d == 0 {
        proof {
            reveal_strlit("0");
        }
        let s = "0";
        proof {
            assert(s@ =~= seq![digit_char(0)]);
        }
        s
    } else if d == 1 {
        proof {
            reveal_strlit("1");
        }
        let s = "1";
        proof {
            assert(s@ =~= seq![digit_char(1)]);
        }
        s
    } else if d == 2 {
        proof {
            reveal_strlit("2");
        }
        let s = "2";
        proof {
            assert(s@ =~= seq![digit_char(2)]);
        }
        s
    } else if d == 3 {
        proof {
            reveal_strlit("3");
        }
        let s = "3";
        proof {
            assert(s@ =~= seq![digit_char(3)]);
        }
        s
    } else if d == 4 {
        proof {
            reveal_strlit("4");
        }
        let s = "4";
        proof {
            assert(s@ =~= seq![digit_char(4)]);
        }
        s
    } else if d == 5 {
        proof {
            reveal_strlit("5");
        }
        let s = "5";
        proof {
            assert(s@ =~= seq![digit_char(5)]);
        }
        s
    } else if d == 6 {
        proof {
            reveal_strlit("6");
        }
        let s = "6";
        proof {
            assert(s@ =~= seq![digit_char(6)]);
        }
        s
    } else if d == 7 {
        proof {
            reveal_strlit("7");
        }
        let s = "7";
        proof {
            assert(s@ =~= seq![digit_char(7)]);
        }
        s
    } else if d == 8 {
        proof {
            reveal_strlit("8");
        }
        let s = "8";
        proof {
            assert(s@ =~= seq![digit_char(8)]);
        }
        s
    } else {
        proof {
            reveal_strlit("9");
        }
        let s = "9";
        proof {
            assert(s@ =~= seq![digit_char(9)]);
        }
        s
    }
}

/// Append the decimal digits of a value.
fn push_decimal(s: &mut String, n: u64)
    ensures
        final(s)@ == old(s)@ + dec_digits(n as int),
    decreases n,
{
    if n < 10 {
        s.append(digit_str(n));
        proof {
            assert(old(s)@ + seq![digit_char(n as int)] =~= old(s)@ + dec_digits(n as int));
        }
    } else {
        proof {
            assert(n / 10 < n) by (nonlinear_arith)
                requires
                    n >= 10,
            ;
        }
        push_decimal(s, n / 10);
        s.append(digit_str(n % 10));
        proof {
            assert((old(s)@ + dec_digits(n as int / 10)) + seq![digit_char(n as int % 10)] =~= old(
                s,
            )@ + dec_digits(n as int));
        }
    }
}

/// Append a value padded with a leading zero to at least two digits.
fn push_padded2(s: &mut String, n: u64)
    ensures
        final(s)@ == old(s)@ + padded2(n as int),
{
    if n < 10 {
        proof {
            reveal_strlit("0");
        }
        s.append("0");
        s.append(digit_str(n));
        proof {
            assert((old(s)@ + "0"@) + seq![digit_char(n as int)] =~= old(s)@ + padded2(n as int));
        }
    } else {
        push_decimal(s, n);
    }
}

/// Format an elapsed time for display: the clock text and the separate
/// centiseconds field. A zero elapsed time yields two empty strings.
pub fn format_elapsed(millis: u64) -> (r: (String, String))
    ensures
        millis > 0 ==> r.0@ == time_text_spec(millis as int) && r.1@ == ms_text_spec(
            millis as int,
        ),
        millis == 0 ==> r.0@.len() == 0 && r.1@.len() == 0,
{
    if millis == 0 {
        return (String::new(), String::new());
    }
    let total_seconds = millis / 1000;
    let hours = total_seconds / 3600;
    let minutes = (total_seconds % 3600) / 60;
    let seconds = total_seconds % 60;
    proof {
        reveal_strlit(":");
    }
    let mut t = String::new();
    if hours > 0 {
        push_padded2(&mut t, hours);
        t.append(":");
        push_padded2(&mut t, minutes);
        t.append(":");
        push_padded2(&mut t, seconds);
        proof {
            assert(t@ =~= time_text_spec(millis as int));
        }
    } else {
        push_padded2(&mut t, minutes);
        t.append(":");
        push_padded2(&mut t, seconds);
        proof {
            assert(t@ =~= time_text_spec(millis as int));
        }
    }
    let centis = (millis % 1000) / 10;
    let mut m = String::new();
    m.append(":");
    push_padded2(&mut m, centis);
    proof {
        assert(m@ =~= ms_text_spec(millis as int));
    }
    (t, m)
}

} // verus!
