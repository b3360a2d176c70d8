//! Conversion of an elapsed time in milliseconds into a largest-unit human
//! string, with a compact alternate form: `"2 minutes"` / `"2m"`.
use vstd::prelude::*;
use vstd::string::StrSliceExecFns;
use vstd::string::StringExecFns;

verus! {

/// Milliseconds in one second.
pub const MS_PER_SECOND: u64 = 1000;

/// Milliseconds in one minute.
pub const MS_PER_MINUTE: u64 = 60 * 1000;

/// Milliseconds in one hour.
pub const MS_PER_HOUR: u64 = 60 * 60 * 1000;

/// Milliseconds in one day.
pub const MS_PER_DAY: u64 = 24 * 60 * 60 * 1000;

/// Milliseconds in one week.
pub const MS_PER_WEEK: u64 = 7 * 24 * 60 * 60 * 1000;

/// Milliseconds in one year.
pub const MS_PER_YEAR: u64 = 365 * 24 * 60 * 60 * 1000;

/// The decimal digit character for `d`.
pub open spec fn digit_char(d: nat) -> char {
    if d == 0 {
        '0'
    } else if d == 1 {
        '1'
    } else if d == 2 {
        '2'
    } else if d == 3 {
        '3'
    } else if d == 4 {
        '4'
    } else if d == 5 {
        '5'
    } else if d == 6 {
        '6'
    } else if d == 7 {
        '7'
    } else if d == 8 {
        '8'
    } else {
        '9'
    }
}

/// The decimal representation of `n`, most significant digit first.
pub open spec fn dec_digits(n: nat) -> Seq<char>
    decreases n,
{
    if n < 10 {
        seq![digit_char(n)]
    } else {
        dec_digits(n / 10) + seq![digit_char(n % 10)]
    }
}

/// A count rendered with its unit: the count's digits followed either by the
/// abbreviation (alternate form, no space) or by a space and the singular or
/// plural unit name.
pub open spec fn count_with_unit(
    cnt: nat,
    singular: Seq<char>,
    plural: Seq<char>,
    abbrev: Seq<char>,
    alternate: bool,
) -> Seq<char> {
    dec_digits(cnt) + if alternate {
        abbrev
    } else {
        seq![' '] + if cnt == 1 {
            singular
        } else {
            plural
        }
    }
}

/// The human rendering of `ms` milliseconds: the single largest unit whose
/// threshold `ms` reaches, or `"0 seconds"` / `"0s"` when none applies.
pub open spec fn spec_duration(ms: nat, alternate: bool) -> Seq<char> {
    if ms >= MS_PER_YEAR {
        count_with_unit(ms / (MS_PER_YEAR as nat), ("year")@, ("years")@, ("y")@, alternate)
    } else if ms >= MS_PER_WEEK {
        count_with_unit(ms / (MS_PER_WEEK as nat), ("week")@, ("weeks")@, ("w")@, alternate)
    } else if ms >= MS_PER_DAY {
        count_with_unit(ms / (MS_PER_DAY as nat), ("day")@, ("days")@, ("d")@, alternate)
    } else if ms >= MS_PER_HOUR {
        count_with_unit(ms / (MS_PER_HOUR as nat), ("hour")@, ("hours")@, ("h")@, alternate)
    } else if ms >= MS_PER_MINUTE {
        count_with_unit(ms / (MS_PER_MINUTE as nat), ("minute")@, ("minutes")@, ("m")@, alternate)
    } else if ms >= MS_PER_SECOND {
        count_with_unit(ms / (MS_PER_SECOND as nat), ("second")@, ("seconds")@, ("s")@, alternate)
    } else if ms >= 1 {
        count_with_unit(ms, ("milli")@, ("millis")@, ("ms")@, alternate)
    } else if alternate {
        ("0s")@
    } else {
        ("0 seconds")@
    }
}

/// The single decimal digit `d` as a string slice.
fn digit_str(d: u64) -> (r: &'static str)
    requires
        d < 10,
    ensures
        r@ == seq![digit_char(d as nat)],
{
    if d == 0 {
        proof {
            reveal_strlit("0");
            assert(("0")@ =~= seq!['0']);
        }
        "0"
    } else if d == 1 {
        proof {
            reveal_strlit("1");
            assert(("1")@ =~= seq!['1']);
        }
        "1"
    } else if d == 2 {
        proof {
            reveal_strlit("2");
            assert(("2")@ =~= seq!['2']);
        }
        "2"
    } else if d == 3 {
        proof {
            reveal_strlit("3");
            assert(("3")@ =~= seq!['3']);
        }
        "3"
    } else if d == 4 {
        proof {
            reveal_strlit("4");
            assert(("4")@ =~= seq!['4']);
        }
        "4"
    } else if d == 5 {
        proof {
            reveal_strlit("5");
            assert(("5")@ =~= seq!['5']);
        }
        "5"
    } else if d == 6 {
        proof {
            reveal_strlit("6");
            assert(("6")@ =~= seq!['6']);
        }
        "6"
    } else if d == 7 {
        proof {
            reveal_strlit("7");
            assert(("7")@ =~= seq!['7']);
        }
        "7"
    } else if d == 8 {
        proof {
            reveal_strlit("8");
            assert(("8")@ =~= seq!['8']);
        }
        "8"
    } else {
        proof {
            reveal_strlit("9");
            assert(("9")@ =~= seq!['9']);
        }
        "9"
    }
}

/// `n` rendered in decimal.
pub fn u64_to_string(n: u64) -> (r: String)
    ensures
        r@ == dec_digits(n as nat),
    decreases n,
{
    if n < 10 {
        digit_str(n).to_owned()
    } else {
        let mut s = u64_to_string(n / 10);
        s.append(digit_str(n % 10));
        s
    }
}

/// A count rendered with its unit, as `count_with_unit` says.
fn render_unit(cnt: u64, singular: &str, plural: &str, abbrev: &str, alternate: bool) -> (r:
    String)
    ensures
        r@ == count_with_unit(cnt as nat, singular@, plural@, abbrev@, alternate),
{
    let mut out = u64_to_string(cnt);
    let ghost digits = out@;
    if alternate {
        out.append(abbrev);
    } else {
        out.append(" ");
        proof {
            reveal_strlit(" ");
            assert((" ")@ =~= seq![' ']);
        }
        if cnt == 1 {
            out.append(singular);
            proof {
                assert((digits + seq![' ']) + singular@ =~= digits + (seq![' '] + singular@));
            }
        } else {
            out.append(plural);
            proof {
                assert((digits + seq![' ']) + plural@ =~= digits + (seq![' '] + plural@));
            }
        }
    }
    out
}

/// Render `ms` milliseconds using the single largest applicable unit, with
/// singular and plural unit names, or the compact single-letter form when
/// `alternate` is set.
pub fn format_duration(ms: u64, alternate: bool) -> (r: String)
    ensures
        r@ == spec_duration(ms as nat, alternate),
{
    if ms >= MS_PER_YEAR {
        render_unit(ms / MS_PER_YEAR, "year", "years", "y", alternate)
    } else if ms >= MS_PER_WEEK {
        render_unit(ms / MS_PER_WEEK, "week", "weeks", "w", alternate)
    } else if ms >= MS_PER_DAY {
        render_unit(ms / MS_PER_DAY, "day", "days", "d", alternate)
    } else if ms >= MS_PER_HOUR {
        render_unit(ms / MS_PER_HOUR, "hour", "hours", "h", alternate)
    } else if ms >= MS_PER_MINUTE {
        render_unit(ms / MS_PER_MINUTE, "minute", "minutes", "m", alternate)
    } else if ms >= MS_PER_SECOND {
        render_unit(ms / MS_PER_SECOND, "second", "seconds", "s", alternate)
    } else if ms >= 1 {
        render_unit(ms, "milli", "millis", "ms", alternate)
    } else if alternate {
        String::from_str("0s")
    } else {
        String::from_str("0 seconds")
    }
}

} // verus!
