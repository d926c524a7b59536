//! Formatting of the platform's duration strings.
//!
//! The platform reports durations like `PT4M13S` or `PT1H2M3S`. The
//! leading marker is dropped, hour and minute markers become `':'`, the
//! trailing second marker disappears, and a duration without an hour
//! field gains a `00:` hour.

use vstd::prelude::*;
use vstd::string::StrSliceExecFns;
use vstd::utf8::is_ascii_chars;
use crate::text::string_from_ascii;

verus! {

/// What one duration character becomes: markers turn into separators
/// (`H` and `M`) or disappear (`S`); anything else stays.
pub open spec fn replace_duration_char(c: char) -> Seq<char> {
    if c == 'H' || c == 'M' {
        seq![':']
    } else if c == 'S' {
        Seq::empty()
    } else {
        seq![c]
    }
}

/// A duration body with every marker replaced.
pub open spec fn replaced_duration(s: Seq<char>) -> Seq<char>
    decreases s.len(),
{
    if s.len() == 0 {
        Seq::empty()
    } else {
        replaced_duration(s.drop_last()) + replace_duration_char(s.last())
    }
}

/// The formatted duration: the two-character `PT` marker dropped, the
/// body replaced, and a `00:` hour prefixed when the body names no hour.
pub open spec fn format_duration_chars(s: Seq<char>) -> Seq<char> {
    if s.skip(2).contains('H') {
        replaced_duration(s.skip(2))
    } else {
        "00:"@ + replaced_duration(s.skip(2))
    }
}

/// Formats a platform duration string for display.
pub fn format_duration(duration_string: String) -> (r: String)
    requires
        duration_string@.len() >= 2,
        is_ascii_chars(duration_string@),
    ensures
        r@ == format_duration_chars(duration_string@),
{
    let s = duration_string.as_str();
    let ghost sv = s@;
    let n = s.unicode_len();
    let mut has_hours = false;
    let mut i: usize = 2;
    while i < n
        invariant
            sv == s@,
            n == sv.len(),
            n >= 2,
            2 <= i <= n,
            has_hours <==> exists|k: int| 2 <= k < i && sv[k] == 'H',
        decreases n - i,
    {
        if s.get_char(i) == 'H' {
            has_hours = true;
        }
        i += 1;
    }
    proof {
        assert(sv.skip(2).contains('H') <==> has_hours) by {
            if has_hours {
                let k = choose|k: int| 2 <= k < n && sv[k] == 'H';
                assert(sv.skip(2)[k - 2] == 'H');
            }
            if sv.skip(2).contains('H') {
                let j = choose|j: int| 0 <= j < sv.skip(2).len() && sv.skip(2)[j] == 'H';
                assert(sv[j + 2] == 'H');
            }
        }
    }
    let mut bytes: Vec<u8> = Vec::new();
    if !has_hours {
        bytes.push(48u8);
        bytes.push(48u8);
        bytes.push(58u8);
    }
    let ghost head: Seq<char> = if has_hours {
        Seq::empty()
    } else {
        "00:"@
    };
    proof {
        reveal_strlit("00:");
        assert(bytes@.map_values(|b: u8| b as char) =~= head);
    }
    let mut i: usize = 2;
    while i < n
        invariant
            sv == s@,
            n == sv.len(),
            n >= 2,
            2 <= i <= n,
            is_ascii_chars(sv),
            forall|k: int| 0 <= k < bytes@.len() ==> #[trigger] bytes@[k] < 128,
            bytes@.map_values(|b: u8| b as char) == head + replaced_duration(
                sv.subrange(2, i as int),
            ),
        decreases n - i,
    {
        let ghost bytes_pre = bytes@;
        let c = s.get_char(i);
        proof {
            assert('\0' <= sv[i as int] <= '\u{7f}');
        }
        if c == 'H' || c == 'M' {
            bytes.push(58u8);
            proof {
                assert(bytes@.map_values(|b: u8| b as char) =~= bytes_pre.map_values(
                    |b: u8| b as char,
                ) + seq![':']);
            }
        } else if c == 'S' {
            // the trailing marker disappears
        } else {
            bytes.push(c as u8);
            proof {
                assert((c as u8) as char == c);
                assert(bytes@.map_values(|b: u8| b as char) =~= bytes_pre.map_values(
                    |b: u8| b as char,
                ) + seq![c]);
            }
        }
        proof {
            assert(sv.subrange(2, i as int + 1).drop_last() =~= sv.subrange(2, i as int));
            assert(sv.subrange(2, i as int + 1).last() == sv[i as int]);
            assert(replaced_duration(sv.subrange(2, i as int + 1)) == replaced_duration(
                sv.subrange(2, i as int),
            ) + replace_duration_char(sv[i as int]));
            assert(bytes@.map_values(|b: u8| b as char) =~= head + replaced_duration(
                sv.subrange(2, i as int + 1),
            ));
        }
        i += 1;
    }
    let r = string_from_ascii(bytes);
    proof {
        assert(sv.subrange(2, n as int) =~= sv.skip(2));
        assert(r@ =~= format_duration_chars(sv));
    }
    r
}

} // verus!
