//! Where the log goes: the log directory under the picked home and the
//! per-day file name, built from the calendar fields the surrounding
//! program reads from the clock.
use crate::text::opt_view;
use vstd::prelude::*;

verus! {

/// The character of one decimal digit.
pub open spec fn digit_char(d: nat) -> char {
    if d == 0 {
        '0'
    } else if d == 1 {
        '1'
    } else if d == 2 {
        '2'
    } else if d == 3 {
        '3'
    } else if d == 4 {
        '4'
    } else if d == 5 {
        '5'
    } else if d == 6 {
        '6'
    } else if d == 7 {
        '7'
    } else if d == 8 {
        '8'
    } else {
        '9'
    }
}

/// The decimal digits of `n`, most significant first.
pub open spec fn dec_rep(n: nat) -> Seq<char>
    decreases n,
{
    if n < 10 {
        seq![digit_char(n)]
    } else {
        dec_rep(n / 10).push(digit_char(n % 10))
    }
}

/// `n` in decimal, left-padded with zeros to at least `w` digits.
pub open spec fn padded_dec(n: nat, w: nat) -> Seq<char> {
    if dec_rep(n).len() >= w {
        dec_rep(n)
    } else {
        Seq::new((w - dec_rep(n).len()) as nat, |i: int| '0') + dec_rep(n)
    }
}

fn digit_str(d: u32) -> (r: &'static str)
    requires
        d < 10,
    ensures
        r@ == seq![digit_char(d as nat)],
{
    if d == 0 {
        proof {
            reveal_strlit("0");
        }
        assert("0"@ =~= seq![digit_char(0)]);
        "0"
    } else if d == 1 {
        proof {
            reveal_strlit("1");
        }
        assert("1"@ =~= seq![digit_char(1)]);
        "1"
    } else if d == 2 {
        proof {
            reveal_strlit("2");
        }
        assert("2"@ =~= seq![digit_char(2)]);
        "2"
    } else if d == 3 {
        proof {
            reveal_strlit("3");
        }
        assert("3"@ =~= seq![digit_char(3)]);
        "3"
    } else if d == 4 {
        proof {
            reveal_strlit("4");
        }
        assert("4"@ =~= seq![digit_char(4)]);
        "4"
    } else if d == 5 {
        proof {
            reveal_strlit("5");
        }
        assert("5"@ =~= seq![digit_char(5)]);
        "5"
    } else if d == 6 {
        proof {
            reveal_strlit("6");
        }
        assert("6"@ =~= seq![digit_char(6)]);
        "6"
    } else if d == 7 {
        proof {
            reveal_strlit("7");
        }
        assert("7"@ =~= seq![digit_char(7)]);
        "7"
    } else if d == 8 {
        proof {
            reveal_strlit("8");
        }
        assert("8"@ =~= seq![digit_char(8)]);
        "8"
    } else {
        proof {
            reveal_strlit("9");
        }
        assert("9"@ =~= seq![digit_char(9)]);
        "9"
    }
}

/// `n` written in decimal.
pub fn fmt_u32(n: u32) -> (r: String)
    ensures
        r@ == dec_rep(n as nat),
    decreases n,
{
    if n < 10 {
        String::from_str(digit_str(n))
    } else {
        let mut s = fmt_u32(n / 10);
        s.append(digit_str(n % 10));
        proof {
            assert(s@ =~= dec_rep(n as nat));
        }
        s
    }
}

/// `n` written in decimal, left-padded with zeros to at least `w` digits.
#[verifier::loop_isolation(false)]
pub fn fmt_u32_padded(n: u32, w: usize) -> (r: String)
    ensures
        r@ == padded_dec(n as nat, w as nat),
{
    let digits = fmt_u32(n);
    let len = digits.as_str().unicode_len();
    if len >= w {
        return digits;
    }
    let mut s = String::new();
    let mut k: usize = 0;
    while k < w - len
        invariant
            k <= w - len,
            s@ == Seq::new(k as nat, |i: int| '0'),
        decreases w - len - k,
    {
        s.append("0");
        proof {
            reveal_strlit("0");
            assert(s@ =~= Seq::new((k + 1) as nat, |i: int| '0'));
        }
        k = k + 1;
    }
    s.append(digits.as_str());
    proof {
        assert(s@ =~= padded_dec(n as nat, w as nat));
    }
    s
}

/// The date stamp built from clock fields: four-digit year, two-digit
/// month and day, dash-separated. The fields arrive as the clock library
/// hands them out: the year counted from 1900, the month from zero.
pub open spec fn date_string_spec(y: nat, m: nat, d: nat) -> Seq<char> {
    padded_dec(y, 4) + "-"@ + padded_dec(m, 2) + "-"@ + padded_dec(d, 2)
}

pub fn get_date_string(tm_year: i32, tm_mon: i32, tm_mday: i32) -> (r: String)
    requires
        -1900 <= tm_year <= i32::MAX - 1900,
        -1 <= tm_mon <= i32::MAX - 1,
        0 <= tm_mday,
    ensures
        r@ == date_string_spec((tm_year + 1900) as nat, (tm_mon + 1) as nat, tm_mday as nat),
{
    let y = (tm_year + 1900) as u32;
    let m = (tm_mon + 1) as u32;
    let d = tm_mday as u32;
    let mut s = fmt_u32_padded(y, 4);
    s.append("-");
    let ms = fmt_u32_padded(m, 2);
    s.append(ms.as_str());
    s.append("-");
    let ds = fmt_u32_padded(d, 2);
    s.append(ds.as_str());
    s
}

/// The log directory: under the elevated caller's own home when privilege
/// elevation is indicated, else under the home variable, else relative.
pub open spec fn log_dir_spec(sudo_user: Option<Seq<char>>, home: Option<Seq<char>>) -> Seq<
    char,
> {
    match sudo_user {
        Some(u) => "/home/"@ + u + "/.config/nyalog"@,
        None => match home {
            Some(h) => h + "/.config/nyalog"@,
            None => ".config/nyalog"@,
        },
    }
}

pub fn get_log_dir(sudo_user: &Option<String>, home: &Option<String>) -> (r: String)
    ensures
        r@ == log_dir_spec(opt_view(*sudo_user), opt_view(*home)),
{
    match sudo_user {
        Some(u) => {
            let mut s = String::from_str("/home/");
            s.append(u.as_str());
            s.append("/.config/nyalog");
            s
        },
        None => match home {
            Some(h) => {
                let mut s = h.clone();
                s.append("/.config/nyalog");
                s
            },
            None => String::from_str(".config/nyalog"),
        },
    }
}

/// The full per-day log file path: the log directory and the date stamp.
pub open spec fn log_file_spec(
    sudo_user: Option<Seq<char>>,
    home: Option<Seq<char>>,
    y: nat,
    m: nat,
    d: nat,
) -> Seq<char> {
    log_dir_spec(sudo_user, home) + "/"@ + date_string_spec(y, m, d) + ".log"@
}

pub fn get_log_file(
    sudo_user: &Option<String>,
    home: &Option<String>,
    tm_year: i32,
    tm_mon: i32,
    tm_mday: i32,
) -> (r: String)
    requires
        -1900 <= tm_year <= i32::MAX - 1900,
        -1 <= tm_mon <= i32::MAX - 1,
        0 <= tm_mday,
    ensures
        r@ == log_file_spec(
            opt_view(*sudo_user),
            opt_view(*home),
            (tm_year + 1900) as nat,
            (tm_mon + 1) as nat,
            tm_mday as nat,
        ),
{
    let mut s = get_log_dir(sudo_user, home);
    s.append("/");
    let date = get_date_string(tm_year, tm_mon, tm_mday);
    s.append(date.as_str());
    s.append(".log");
    s
}

} // verus!
