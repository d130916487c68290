use vstd::prelude::*;

verus! {

/// The character of a decimal digit.
pub open spec fn digit_char(d: int) -> char {
    if d == 0 {
        '0'
    } else if d == 1 {
        '1'
    } else if d == 2 {
        '2'
    } else if d == 3 {
        '3'
    } else if d == 4 {
        '4'
    } else if d == 5 {
        '5'
    } else if d == 6 {
        '6'
    } else if d == 7 {
        '7'
    } else if d == 8 {
        '8'
    } else {
        '9'
    }
}

/// The decimal notation of a natural number, without leading zeros.
pub open spec fn decimal(n: nat) -> Seq<char>
    decreases n,
{
    if n < 10 {
        seq![digit_char(n as int)]
    } else {
        decimal(n / 10).push(digit_char((n % 10) as int))
    }
}

/// The decimal notation of an integer, as `{}` prints it.
pub open spec fn signed_decimal(i: int) -> Seq<char> {
    if i < 0 {
        seq!['-'] + decimal((-i) as nat)
    } else {
        decimal(i as nat)
    }
}

/// An integer printed with `{:02}`: padded with a zero to two characters.
pub open spec fn zero_padded2(i: int) -> Seq<char> {
    if 0 <= i < 10 {
        seq!['0', digit_char(i)]
    } else {
        signed_decimal(i)
    }
}

/// Division that rounds toward zero, as Rust's `/` on integers does (`b > 0`).
pub open spec fn trunc_div(a: int, b: int) -> int {
    if a >= 0 {
        a / b
    } else {
        -((-a) / b)
    }
}

/// The remainder that goes with `trunc_div`, as Rust's `%` on integers gives it.
pub open spec fn trunc_rem(a: int, b: int) -> int {
    a - b * trunc_div(a, b)
}

/// `minutes:seconds` of a number of milliseconds, seconds padded to two places.
pub open spec fn min_sec(ms: int) -> Seq<char> {
    signed_decimal(trunc_div(ms, 60000)) + seq![':'] + zero_padded2(
        trunc_div(trunc_rem(ms, 60000), 1000),
    )
}

/// The one-character string of a decimal digit.
pub fn digit_str(d: u64) -> (s: &'static str)
    requires
        d < 10,
    ensures
        s@ == seq![digit_char(d as int)],
{
    if d == 0 {
        proof {
            reveal_strlit("0");
        }
        "0"
    } else if d == 1 {
        proof {
            reveal_strlit("1");
        }
        "1"
    } else if d == 2 {
        proof {
            reveal_strlit("2");
        }
        "2"
    } else if d == 3 {
        proof {
            reveal_strlit("3");
        }
        "3"
    } else if d == 4 {
        proof {
            reveal_strlit("4");
        }
        "4"
    } else if d == 5 {
        proof {
            reveal_strlit("5");
        }
        "5"
    } else if d == 6 {
        proof {
            reveal_strlit("6");
        }
        "6"
    } else if d == 7 {
        proof {
            reveal_strlit("7");
        }
        "7"
    } else if d == 8 {
        proof {
            reveal_strlit("8");
        }
        "8"
    } else {
        proof {
            reveal_strlit("9");
        }
        "9"
    }
}

/// Appends the decimal notation of `n` to `s`.
pub fn push_decimal(s: &mut String, n: u64)
    ensures
        final(s)@ == old(s)@ + decimal(n as nat),
    decreases n,
{
    if n >= 10 {
        push_decimal(s, n / 10);
    }
    s.append(digit_str(n % 10));
    proof {
        if n >= 10 {
            assert(old(s)@ + decimal(n as nat) =~= old(s)@ + decimal((n / 10) as nat) + seq![
                digit_char((n % 10) as int),
            ]);
        }
    }
}

/// Printing a duration given in milliseconds as `minutes:seconds`.
pub trait FormatDuration {
    /// The text that `to_min_sec_str` returns.
    spec fn min_sec_view(&self) -> Seq<char>;

    /// The duration as `minutes:seconds`, seconds padded to two places.
    fn to_min_sec_str(&self) -> (s: String)
        ensures
            s@ == self.min_sec_view(),
    ;
}

impl FormatDuration for i32 {
    /// `{minutes}:{seconds:02}` with `minutes = self / 60000` and
    /// `seconds = (self % 60000) / 1000`, Rust's rounding toward zero.
    open spec fn min_sec_view(&self) -> Seq<char> {
        min_sec(*self as int)
    }

    fn to_min_sec_str(&self) -> (s: String) {
        let ms: i32 = *self;
        let negative = ms < 0;
        let magnitude: u64 = if negative {
            (0i64 - ms as i64) as u64
        } else {
            ms as u64
        };
        let minutes = magnitude / 60000;
        let seconds = (magnitude % 60000) / 1000;
        proof {
            reveal_strlit("-");
            reveal_strlit(":");
            reveal_strlit("0");
            assert(trunc_rem(ms as int, 60000) == (if negative {
                -((magnitude % 60000) as int)
            } else {
                (magnitude % 60000) as int
            }));
        }
        let mut s = String::new();
        if negative && minutes > 0 {
            s.append("-");
        }
        push_decimal(&mut s, minutes);
        s.append(":");
        if negative && seconds > 0 {
            s.append("-");
        } else if seconds < 10 {
            s.append("0");
        }
        push_decimal(&mut s, seconds);
        proof {
            assert(seconds < 60);
            if seconds < 10 {
                reveal_with_fuel(decimal, 1);
            }
            assert(s@ =~= min_sec(ms as int));
        }
        s
    }
}

} // verus!
