//! A simplified calendar date for persisted rows.
//!
//! The persisted format is six colon-separated decimal fields,
//! `year:month:day:hour:minute:second`, every field but the year padded
//! to two digits. Parsing and rendering of that format are verified
//! here; only the RFC 3339 timestamps the platform hands out are parsed
//! by the date library underneath, behind a trusted boundary.

use vstd::prelude::*;
use vstd::string::StrSliceExecFns;
use chrono::{DateTime, Datelike, Timelike, Utc};
use crate::text::{
    dec_digits, dec_digits_padded2, lemma_dec_digits_ascii, push_u64_decimal,
    push_u64_decimal_padded2, string_from_ascii,
};

verus! {

/// Mathematical view of a date: its six calendar fields.
pub ghost struct DateView {
    pub year: usize,
    pub month: usize,
    pub day: usize,
    pub hour: usize,
    pub minute: usize,
    pub second: usize,
}

/// A simplified date to be used when comparing video releases
#[derive(Debug, Clone, Copy, PartialEq, Eq, Structural)]
pub struct Date {
    pub year: usize,
    pub month: usize,
    pub day: usize,
    pub hour: usize,
    pub minute: usize,
    pub second: usize,
}

impl View for Date {
    type V = DateView;

    open spec fn view(&self) -> DateView {
        DateView {
            year: self.year,
            month: self.month,
            day: self.day,
            hour: self.hour,
            minute: self.minute,
            second: self.second,
        }
    }
}

/// True of an ASCII decimal digit.
pub open spec fn is_digit(c: char) -> bool {
    48 <= c as u32 <= 57
}

/// The value of one decimal digit.
pub open spec fn digit_val(c: char) -> nat {
    (c as u32 - 48) as nat
}

/// Parses colon-separated decimal groups, left to right: `acc` is the
/// value of the digits of the current group read so far, `acc_digits`
/// how many there were, `done` the completed groups. An empty group or
/// a character that is neither a digit nor `':'` fails the parse.
pub open spec fn parse_groups(
    s: Seq<char>,
    acc: nat,
    acc_digits: nat,
    done: Seq<nat>,
) -> Option<Seq<nat>>
    decreases s.len(),
{
    if s.len() == 0 {
        if acc_digits > 0 {
            Some(done.push(acc))
        } else {
            None
        }
    } else if s[0] == ':' {
        if acc_digits > 0 {
            parse_groups(s.drop_first(), 0, 0, done.push(acc))
        } else {
            None
        }
    } else if is_digit(s[0]) {
        parse_groups(s.drop_first(), acc * 10 + digit_val(s[0]), acc_digits + 1, done)
    } else {
        None
    }
}

/// The decimal groups of a colon-separated string, if it is well formed.
pub open spec fn parse_date_groups(s: Seq<char>) -> Option<Seq<nat>> {
    parse_groups(s, 0, 0, Seq::empty())
}

/// A well-formed persisted date: six colon-separated decimal groups,
/// each of machine-representable size.
pub open spec fn is_db_date(s: Seq<char>) -> bool {
    &&& parse_date_groups(s) matches Some(gs)
    &&& gs.len() == 6
    &&& forall|i: int| 0 <= i < gs.len() ==> #[trigger] gs[i] <= usize::MAX
}

/// A successful parse extends `done` by at least the current group,
/// whose value only grows as digits are read.
proof fn lemma_parse_groups_some(s: Seq<char>, acc: nat, acc_digits: nat, done: Seq<nat>)
    requires
        parse_groups(s, acc, acc_digits, done) is Some,
    ensures
        ({
            let gs = parse_groups(s, acc, acc_digits, done)->Some_0;
            &&& gs.len() > done.len()
            &&& gs.take(done.len() as int) == done
            &&& gs[done.len() as int] >= acc
        }),
    decreases s.len(),
{
    let gs = parse_groups(s, acc, acc_digits, done)->Some_0;
    if s.len() == 0 {
        assert(gs == done.push(acc));
        assert(gs.take(done.len() as int) =~= done);
    } else if s[0] == ':' {
        lemma_parse_groups_some(s.drop_first(), 0, 0, done.push(acc));
        assert(gs.take(done.len() as int + 1) == done.push(acc));
        assert(gs.take(done.len() as int) =~= gs.take(done.len() as int + 1).take(
            done.len() as int,
        ));
        assert(gs.take(done.len() as int) =~= done);
        assert(gs[done.len() as int] == done.push(acc)[done.len() as int]);
    } else {
        lemma_parse_groups_some(
            s.drop_first(),
            acc * 10 + digit_val(s[0]),
            acc_digits + 1,
            done,
        );
    }
}

/// The persisted rendering of a date, as ASCII bytes: decimal fields
/// joined by `':'` (byte 58), every field but the year padded to two
/// digits.
pub open spec fn db_date_bytes(d: DateView) -> Seq<u8> {
    dec_digits(d.year as nat) + seq![58u8] + dec_digits_padded2(d.month as nat) + seq![58u8]
        + dec_digits_padded2(d.day as nat) + seq![58u8] + dec_digits_padded2(d.hour as nat) + seq![
        58u8,
    ] + dec_digits_padded2(d.minute as nat) + seq![58u8] + dec_digits_padded2(d.second as nat)
}

/// The persisted rendering of a date.
pub open spec fn db_date_chars(d: DateView) -> Seq<char> {
    db_date_bytes(d).map_values(|b: u8| b as char)
}

/// The result of parsing an RFC 3339 timestamp and breaking it down
/// into UTC calendar fields; it depends on the string alone.
pub uninterp spec fn rfc3339_utc(s: Seq<char>) -> Option<DateView>;

/// Relies on chrono's `DateTime::parse_from_rfc3339`, then
/// `with_timezone(&Utc)` and the `Datelike`/`Timelike` accessors: the
/// UTC calendar breakdown of an RFC 3339 string is a function of the
/// string alone.
#[verifier::external_body]
fn parse_rfc3339_utc(s: &str) -> (r: Option<Date>)
    ensures
        match r {
            Some(d) => rfc3339_utc(s@) == Some(d@),
            None => rfc3339_utc(s@) is None,
        },
{
    let utc = DateTime::parse_from_rfc3339(s).ok()?.with_timezone(&Utc);
    Some(Date {
        year: utc.year() as usize,
        month: utc.month() as usize,
        day: utc.day() as usize,
        hour: utc.hour() as usize,
        minute: utc.minute() as usize,
        second: utc.second() as usize,
    })
}

impl Date {
    /// The UTC calendar fields of a platform timestamp. The platform
    /// only hands out RFC 3339 timestamps, so an unparseable string is
    /// ruled out here; `try_from_video_date` accepts anything.
    pub fn from_video_date(date_string: &String) -> (d: Date)
        requires
            rfc3339_utc(date_string@) is Some,
        ensures
            Some(d@) == rfc3339_utc(date_string@),
    {
        parse_rfc3339_utc(date_string.as_str()).unwrap()
    }

    /// The UTC calendar fields of a timestamp, or `None` when it is not
    /// a parseable RFC 3339 string.
    pub fn try_from_video_date(date_string: &String) -> (r: Option<Date>)
        ensures
            match r {
                Some(d) => rfc3339_utc(date_string@) == Some(d@),
                None => rfc3339_utc(date_string@) is None,
            },
    {
        let probe = parse_rfc3339_utc(date_string.as_str());
        match probe {
            Some(_) => Some(Date::from_video_date(date_string)),
            None => None,
        }
    }

    /// Parses the persisted date format back into its six fields.
    pub fn from_db_playlist_date(date_string: &String) -> (d: Date)
        requires
            is_db_date(date_string@),
        ensures
            ({
                let gs = parse_date_groups(date_string@)->Some_0;
                &&& d.year == gs[0]
                &&& d.month == gs[1]
                &&& d.day == gs[2]
                &&& d.hour == gs[3]
                &&& d.minute == gs[4]
                &&& d.second == gs[5]
            }),
    {
        let s = date_string.as_str();
        let ghost sv = s@;
        let ghost gs = parse_date_groups(sv)->Some_0;
        let n = s.unicode_len();
        let mut i: usize = 0;
        let mut acc: usize = 0;
        let mut acc_digits: usize = 0;
        let mut done: Vec<usize> = Vec::new();
        proof {
            assert(sv.skip(0) =~= sv);
            assert(done@.map_values(|x: usize| x as nat) =~= Seq::<nat>::empty());
        }
        while i < n
            invariant
                n == sv.len(),
                i <= n,
                is_db_date(sv),
                gs == parse_date_groups(sv)->Some_0,
                sv == s@,
                acc_digits <= i,
                parse_date_groups(sv) == parse_groups(
                    sv.skip(i as int),
                    acc as nat,
                    acc_digits as nat,
                    done@.map_values(|x: usize| x as nat),
                ),
            decreases n - i,
        {
            let ghost dv_seq = done@.map_values(|x: usize| x as nat);
            let c = s.get_char(i);
            proof {
                assert(sv.skip(i as int)[0] == sv[i as int]);
                assert(sv.skip(i as int).drop_first() =~= sv.skip(i as int + 1));
            }
            if c == ':' {
                proof {
                    assert(acc_digits > 0);
                    assert(done@.push(acc).map_values(|x: usize| x as nat) =~= dv_seq.push(
                        acc as nat,
                    ));
                }
                done.push(acc);
                acc = 0;
                acc_digits = 0;
            } else {
                proof {
                    assert(is_digit(sv[i as int]));
                    lemma_parse_groups_some(
                        sv.skip(i as int + 1),
                        acc as nat * 10 + digit_val(sv[i as int]),
                        acc_digits as nat + 1,
                        dv_seq,
                    );
                    assert(gs[dv_seq.len() as int] <= usize::MAX);
                    assert(acc as nat * 10 + digit_val(sv[i as int]) <= usize::MAX);
                }
                let d32 = c as u32 - 48;
                acc = acc * 10 + (d32 as usize);
                acc_digits = acc_digits + 1;
            }
            i += 1;
        }
        proof {
            assert(sv.skip(n as int) =~= Seq::<char>::empty());
            assert(acc_digits > 0);
            assert(gs == done@.map_values(|x: usize| x as nat).push(acc as nat));
            assert(done@.push(acc).map_values(|x: usize| x as nat) =~= done@.map_values(
                |x: usize| x as nat,
            ).push(acc as nat));
        }
        done.push(acc);
        proof {
            assert(gs == done@.map_values(|x: usize| x as nat));
            assert(done@.len() == 6);
        }
        Date {
            year: done[0],
            month: done[1],
            day: done[2],
            hour: done[3],
            minute: done[4],
            second: done[5],
        }
    }

    /// Renders the date in the persisted format.
    pub fn to_db_playlist_date(&self) -> (r: String)
        ensures
            r@ == db_date_chars(self@),
    {
        let mut bytes: Vec<u8> = Vec::new();
        push_u64_decimal(&mut bytes, self.year as u64);
        bytes.push(58u8);
        push_u64_decimal_padded2(&mut bytes, self.month as u64);
        bytes.push(58u8);
        push_u64_decimal_padded2(&mut bytes, self.day as u64);
        bytes.push(58u8);
        push_u64_decimal_padded2(&mut bytes, self.hour as u64);
        bytes.push(58u8);
        push_u64_decimal_padded2(&mut bytes, self.minute as u64);
        bytes.push(58u8);
        push_u64_decimal_padded2(&mut bytes, self.second as u64);
        proof {
            lemma_dec_digits_ascii(self.year as nat);
            lemma_dec_digits_ascii(self.month as nat);
            lemma_dec_digits_ascii(self.day as nat);
            lemma_dec_digits_ascii(self.hour as nat);
            lemma_dec_digits_ascii(self.minute as nat);
            lemma_dec_digits_ascii(self.second as nat);
            assert(bytes@ =~= db_date_bytes(self@));
        }
        let r = string_from_ascii(bytes);
        proof {
            assert(r@ =~= db_date_chars(self@));
        }
        r
    }

    /// Ensure a value has a leading zero, if it is less than 10
    pub fn get_formatted(value: usize) -> (r: String)
        ensures
            r@ == dec_digits_padded2(value as nat).map_values(|b: u8| b as char),
    {
        let mut bytes: Vec<u8> = Vec::new();
        push_u64_decimal_padded2(&mut bytes, value as u64);
        proof {
            lemma_dec_digits_ascii(value as nat);
        }
        let r = string_from_ascii(bytes);
        proof {
            assert(r@ =~= dec_digits_padded2(value as nat).map_values(|b: u8| b as char));
        }
        r
    }
}

/// How two dates compare: field by field, most significant first.
pub open spec fn spec_date_cmp(a: DateView, b: DateView) -> core::cmp::Ordering {
    if a.year != b.year {
        if a.year < b.year {
            core::cmp::Ordering::Less
        } else {
            core::cmp::Ordering::Greater
        }
    } else if a.month != b.month {
        if a.month < b.month {
            core::cmp::Ordering::Less
        } else {
            core::cmp::Ordering::Greater
        }
    } else if a.day != b.day {
        if a.day < b.day {
            core::cmp::Ordering::Less
        } else {
            core::cmp::Ordering::Greater
        }
    } else if a.hour != b.hour {
        if a.hour < b.hour {
            core::cmp::Ordering::Less
        } else {
            core::cmp::Ordering::Greater
        }
    } else if a.minute != b.minute {
        if a.minute < b.minute {
            core::cmp::Ordering::Less
        } else {
            core::cmp::Ordering::Greater
        }
    } else if a.second != b.second {
        if a.second < b.second {
            core::cmp::Ordering::Less
        } else {
            core::cmp::Ordering::Greater
        }
    } else {
        core::cmp::Ordering::Equal
    }
}

impl vstd::std_specs::cmp::PartialOrdSpecImpl for Date {
    open spec fn obeys_partial_cmp_spec() -> bool {
        true
    }

    open spec fn partial_cmp_spec(&self, other: &Date) -> Option<core::cmp::Ordering> {
        Some(spec_date_cmp(self@, other@))
    }
}

impl PartialOrd for Date {
    fn partial_cmp(&self, other: &Self) -> (r: Option<core::cmp::Ordering>) {
        if self.year != other.year {
            if self.year < other.year {
                Some(core::cmp::Ordering::Less)
            } else {
                Some(core::cmp::Ordering::Greater)
            }
        } else if self.month != other.month {
            if self.month < other.month {
                Some(core::cmp::Ordering::Less)
            } else {
                Some(core::cmp::Ordering::Greater)
            }
        } else if self.day != other.day {
            if self.day < other.day {
                Some(core::cmp::Ordering::Less)
            } else {
                Some(core::cmp::Ordering::Greater)
            }
        } else if self.hour != other.hour {
            if self.hour < other.hour {
                Some(core::cmp::Ordering::Less)
            } else {
                Some(core::cmp::Ordering::Greater)
            }
        } else if self.minute != other.minute {
            if self.minute < other.minute {
                Some(core::cmp::Ordering::Less)
            } else {
                Some(core::cmp::Ordering::Greater)
            }
        } else if self.second != other.second {
            if self.second < other.second {
                Some(core::cmp::Ordering::Less)
            } else {
                Some(core::cmp::Ordering::Greater)
            }
        } else {
            Some(core::cmp::Ordering::Equal)
        }
    }
}

} // verus!
