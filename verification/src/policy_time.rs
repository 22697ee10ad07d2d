//! UTC RFC 3339 timestamp parsing for publish-age policy thresholds.

use vstd::prelude::*;
use crate::numbers::{parse_i32, parse_i32_model, parse_u32, parse_u32_model, whole_part, whole_part_str};
use crate::text::{
    ends_with, has_suffix, lemma_split_pieces_exclude, split, split_once, split_once_str,
    split_str, views,
};

verus! {

pub open spec fn is_leap_year(y: int) -> bool {
    (y % 4 == 0 && y % 100 != 0) || y % 400 == 0
}

/// Days in month `m` of year `y` (0 for an invalid month).
pub open spec fn days_in_month(y: int, m: int) -> int {
    if m == 1 || m == 3 || m == 5 || m == 7 || m == 8 || m == 10 || m == 12 {
        31
    } else if m == 4 || m == 6 || m == 9 || m == 11 {
        30
    } else if m == 2 && is_leap_year(y) {
        29
    } else if m == 2 {
        28
    } else {
        0
    }
}

/// Days from 1970-01-01 to the given proleptic Gregorian date.
pub open spec fn days_from_civil(year: int, month: int, day: int) -> int {
    let y = year - if month <= 2 {
        1int
    } else {
        0int
    };
    let era = y / 400;
    let yoe = y - era * 400;
    let doy = (153 * (month + if month > 2 {
        -3int
    } else {
        9int
    }) + 2) / 5 + day - 1;
    let doe = yoe * 365 + yoe / 4 - yoe / 100 + doy;
    era * 146097 + doe - 719468
}

/// Days from the era origin to March 1 of shifted year `y`, the part of
/// `days_from_civil` that depends on the year alone.
spec fn year_days(y: int) -> int {
    let era = y / 400;
    let yoe = y - era * 400;
    era * 146097 + yoe * 365 + yoe / 4 - yoe / 100
}

/// March 1 of one year lies a whole (leap or common) year after March 1 of
/// the year before.
proof fn lemma_year_days_step(y: int)
    ensures
        year_days(y) - year_days(y - 1) == if is_leap_year(y) {
            366int
        } else {
            365int
        },
{
    let e = y / 400;
    let o = y - e * 400;
    vstd::arithmetic::div_mod::lemma_fundamental_div_mod(y, 400);
    assert(y % 400 == o);
    assert(0 <= o < 400);
    assert(y % 4 == o % 4 && y % 100 == o % 100) by (nonlinear_arith)
        requires
            y == e * 400 + o,
    ;
    if o >= 1 {
        vstd::arithmetic::div_mod::lemma_fundamental_div_mod_converse(y - 1, 400, e, o - 1);
        assert(o / 4 - (o - 1) / 4 == if o % 4 == 0 { 1int } else { 0int });
        assert(o / 100 - (o - 1) / 100 == if o % 100 == 0 { 1int } else { 0int });
    } else {
        vstd::arithmetic::div_mod::lemma_fundamental_div_mod_converse(y - 1, 400, e - 1, 399);
        assert(e * 146097 - (e - 1) * 146097 == 146097) by (nonlinear_arith);
    }
}

/// `days_from_civil` counts days: 1970-01-01 is day 0, the next day of a
/// month is one more, the first of the next month is the month's length
/// more, and January 1 follows December 1 by 31 days.
pub proof fn law_days_from_civil_counts_days(y: int, m: int, d: int)
    ensures
        days_from_civil(1970, 1, 1) == 0,
        1 <= m <= 12 && 1 <= d < days_in_month(y, m) ==> days_from_civil(y, m, d + 1) == days_from_civil(
            y,
            m,
            d,
        ) + 1,
        1 <= m < 12 ==> days_from_civil(y, m + 1, 1) == days_from_civil(y, m, 1) + days_in_month(y, m),
        days_from_civil(y + 1, 1, 1) == days_from_civil(y, 12, 1) + 31,
{
    assert(days_from_civil(1970, 1, 1) == 0);
    if 1 <= m < 12 {
        if m == 2 {
            lemma_year_days_step(y);
            assert(days_from_civil(y, 2, 1) == year_days(y - 1) + 337 - 719468);
            assert(days_from_civil(y, 3, 1) == year_days(y) + 0 - 719468);
        } else if m == 1 {
            assert(days_from_civil(y, 1, 1) == year_days(y - 1) + 306 - 719468);
            assert(days_from_civil(y, 2, 1) == year_days(y - 1) + 337 - 719468);
        } else {
            assert(days_from_civil(y, m, 1) == year_days(y) + (153 * (m - 3) + 2) / 5 - 719468);
            assert(days_from_civil(y, m + 1, 1) == year_days(y) + (153 * (m - 2) + 2) / 5 - 719468);
            assert((153 * (m - 2) + 2) / 5 - (153 * (m - 3) + 2) / 5 == days_in_month(y, m)) by {
                if m == 3 {} else if m == 4 {} else if m == 5 {} else if m == 6 {} else if m == 7 {}
                else if m == 8 {} else if m == 9 {} else if m == 10 {} else {}
            }
        }
    }
    assert(days_from_civil(y, 12, 1) == year_days(y) + 275 - 719468);
    assert(days_from_civil(y + 1, 1, 1) == year_days(y) + 306 - 719468);
}

/// Calendar and clock fields are in range.
pub open spec fn valid_fields(y: int, mo: int, d: int, h: int, mi: int, s: int) -> bool {
    1 <= mo <= 12 && d != 0 && d <= days_in_month(y, mo) && h <= 23 && mi <= 59 && s <= 60
}

/// Unix seconds of an npm-style `YYYY-MM-DDThh:mm:ss[.fff]Z` timestamp.
pub open spec fn rfc3339_utc_seconds(v: Seq<char>) -> Option<u64> {
    match split_once(v, 'T') {
        None => None,
        Some((date, time_z)) => if !has_suffix(time_z, "Z"@) {
            None
        } else {
            let time = time_z.subrange(0, time_z.len() - 1);
            let dp = split(date, '-');
            let tp = split(time, ':');
            if dp.len() != 3 || tp.len() != 3 {
                None
            } else {
                match (
                    parse_i32_model(dp[0]),
                    parse_u32_model(dp[1]),
                    parse_u32_model(dp[2]),
                    parse_u32_model(tp[0]),
                    parse_u32_model(tp[1]),
                    parse_u32_model(whole_part(tp[2])),
                ) {
                    (Some(y), Some(mo), Some(d), Some(h), Some(mi), Some(s)) => {
                        if !valid_fields(y as int, mo as int, d as int, h as int, mi as int, s as int) {
                            None
                        } else {
                            let days = days_from_civil(y as int, mo as int, d as int);
                            let total = days * 86400 + h * 3600 + mi * 60 + s;
                            if days < 0 || total > u64::MAX {
                                None
                            } else {
                                Some(total as u64)
                            }
                        }
                    },
                    _ => None,
                }
            }
        },
    }
}

fn is_leap_year_exec(y: u32) -> (r: bool)
    ensures
        r == is_leap_year(y as int),
{
    (y % 4 == 0 && y % 100 != 0) || y % 400 == 0
}

fn days_in_month_exec(y: u32, m: u32) -> (r: u32)
    ensures
        r == days_in_month(y as int, m as int),
{
    if m == 1 || m == 3 || m == 5 || m == 7 || m == 8 || m == 10 || m == 12 {
        31
    } else if m == 4 || m == 6 || m == 9 || m == 11 {
        30
    } else if m == 2 && is_leap_year_exec(y) {
        29
    } else if m == 2 {
        28
    } else {
        0
    }
}

/// Days since the epoch, or `None` before 1970-01-01.
fn days_from_civil_exec(year: u32, month: u32, day: u32) -> (r: Option<u64>)
    requires
        1 <= month <= 12,
        1 <= day <= 31,
    ensures
        match r {
            Some(n) => n == days_from_civil(year as int, month as int, day as int),
            None => days_from_civil(year as int, month as int, day as int) < 0,
        },
{
    if year == 0 && month <= 2 {
        assert(days_from_civil(year as int, month as int, day as int) < 0) by (nonlinear_arith)
            requires
                year == 0,
                1 <= month <= 2,
                1 <= day <= 31,
        ;
        return None;
    }
    let y: u64 = if month <= 2 {
        (year - 1) as u64
    } else {
        year as u64
    };
    let era: u64 = y / 400;
    let yoe: u64 = y % 400;
    let shifted: u64 = if month > 2 {
        (month - 3) as u64
    } else {
        (month + 9) as u64
    };
    let doy: u64 = (153 * shifted + 2) / 5 + day as u64 - 1;
    let doe: u64 = yoe * 365 + yoe / 4 - yoe / 100 + doy;
    assert(era <= 0x1_0000_0000);
    assert(era * 146097 <= 0x1_0000_0000 * 146097) by (nonlinear_arith)
        requires
            era <= 0x1_0000_0000,
    ;
    let total: u64 = era * 146097 + doe;
    assert(total == days_from_civil(year as int, month as int, day as int) + 719468);
    if total < 719468 {
        None
    } else {
        Some(total - 719468)
    }
}

/// Parse npm-style UTC RFC 3339 timestamps into unix seconds.
pub fn parse_rfc3339_utc_seconds(value: &str) -> (r: Option<u64>)
    ensures
        r == rfc3339_utc_seconds(value@),
{
    let (date, time_z) = match split_once_str(value, 'T') {
        Some(pair) => pair,
        None => return None,
    };
    proof {
        reveal_strlit("Z");
    }
    if !ends_with(time_z, "Z") {
        return None;
    }
    let time = time_z.substring_char(0, time_z.unicode_len() - 1);
    let dp = split_str(date, '-');
    let tp = split_str(time, ':');
    if dp.len() != 3 || tp.len() != 3 {
        return None;
    }
    assert(dp@[0]@ == split(date@, '-')[0]);
    assert(dp@[1]@ == split(date@, '-')[1]);
    assert(dp@[2]@ == split(date@, '-')[2]);
    assert(tp@[0]@ == split(time@, ':')[0]);
    assert(tp@[1]@ == split(time@, ':')[1]);
    assert(tp@[2]@ == split(time@, ':')[2]);
    let y = match parse_i32(dp[0]) {
        Some(v) => v,
        None => return None,
    };
    let mo = match parse_u32(dp[1]) {
        Some(v) => v,
        None => return None,
    };
    let d = match parse_u32(dp[2]) {
        Some(v) => v,
        None => return None,
    };
    let h = match parse_u32(tp[0]) {
        Some(v) => v,
        None => return None,
    };
    let mi = match parse_u32(tp[1]) {
        Some(v) => v,
        None => return None,
    };
    let s = match parse_u32(whole_part_str(tp[2])) {
        Some(v) => v,
        None => return None,
    };
    proof {
        lemma_split_pieces_exclude(date@, '-');
        assert(!split(date@, '-')[0].contains('-'));
        if dp@[0]@.len() > 0 {
            assert(dp@[0]@[0] != '-');
        }
    }
    assert(y >= 0);
    let yu = y as u32;
    if !(1 <= mo && mo <= 12) || d == 0 || d > days_in_month_exec(yu, mo) || h > 23 || mi > 59
        || s > 60 {
        return None;
    }
    let days = match days_from_civil_exec(yu, mo, d) {
        Some(n) => n,
        None => return None,
    };
    assert(days <= 0x1_0000_0000 * 146097);
    let total = days * 86400 + (h as u64) * 3600 + (mi as u64) * 60 + (s as u64);
    Some(total)
}

} // verus!
