//! Compact display of delivery timestamps in the user's UTC offset.
use vstd::prelude::*;

use crate::text::{chars_of, concat2, decimal, decimal_text, is_digit, push_char, string_from_range};

verus! {

/// Smallest UTC offset, in seconds, that the `time` crate represents (-25:59:59).
pub const MIN_OFFSET_SECONDS: i32 = -93599;

/// Largest UTC offset, in seconds, that the `time` crate represents (+25:59:59).
pub const MAX_OFFSET_SECONDS: i32 = 93599;

/// Three-letter English abbreviation of a month number from 1 to 12.
pub open spec fn month_abbrev(m: nat) -> Seq<char> {
    if m == 1 {
        "Jan"@
    } else if m == 2 {
        "Feb"@
    } else if m == 3 {
        "Mar"@
    } else if m == 4 {
        "Apr"@
    } else if m == 5 {
        "May"@
    } else if m == 6 {
        "Jun"@
    } else if m == 7 {
        "Jul"@
    } else if m == 8 {
        "Aug"@
    } else if m == 9 {
        "Sep"@
    } else if m == 10 {
        "Oct"@
    } else if m == 11 {
        "Nov"@
    } else {
        "Dec"@
    }
}

/// Decimal notation of a number, padded with a leading zero to two digits (`{:02}`).
pub open spec fn pad2(n: nat) -> Seq<char> {
    if n < 10 {
        seq!['0'] + decimal(n)
    } else {
        decimal(n)
    }
}

/// Compact rendering `"Mon DD HH:MM"` of calendar fields.
pub open spec fn compact_fields_text(month: nat, day: nat, hour: nat, minute: nat) -> Seq<char> {
    month_abbrev(month) + " "@ + pad2(day) + " "@ + pad2(hour) + ":"@ + pad2(minute)
}

/// Local (month, day, hour, minute) of an RFC 3339 timestamp shifted to a UTC offset given in
/// seconds, as the `time` crate parses and converts it; `None` where it does not parse or the
/// shifted date leaves the crate's supported range.
pub uninterp spec fn rfc3339_local_fields(timestamp: Seq<char>, offset_seconds: i32) -> Option<
    (u8, u8, u8, u8),
>;

/// Parses `timestamp` as RFC 3339 with `time::OffsetDateTime::parse` and converts it with
/// `checked_to_offset` to the offset `offset_seconds` (built with `UtcOffset::from_whole_seconds`,
/// which accepts exactly the range required here). The contract names the resulting fields and
/// states the month range that `time::Month` guarantees; the parsing itself is not stated.
#[verifier::external_body]
fn rfc3339_fields_at(timestamp: &str, offset_seconds: i32) -> (r: Option<(u8, u8, u8, u8)>)
    requires
        MIN_OFFSET_SECONDS <= offset_seconds <= MAX_OFFSET_SECONDS,
    ensures
        r == rfc3339_local_fields(timestamp@, offset_seconds),
        r matches Some(f) ==> 1 <= f.0 <= 12,
{
    let offset = time::UtcOffset::from_whole_seconds(offset_seconds).ok()?;
    let parsed = time::OffsetDateTime::parse(
        timestamp,
        &time::format_description::well_known::Rfc3339,
    ).ok()?;
    let local = parsed.checked_to_offset(offset)?;
    Some((u8::from(local.month()), local.day(), local.hour(), local.minute()))
}

/// Asks `time::UtcOffset::current_local_offset` for the machine's UTC offset, in whole
/// seconds. It depends on the machine and the moment, so the contract only states the range
/// that `time::UtcOffset` can hold; `None` where the offset cannot be determined.
#[verifier::external_body]
fn current_offset_seconds() -> (r: Option<i32>)
    ensures
        r matches Some(s) ==> MIN_OFFSET_SECONDS <= s <= MAX_OFFSET_SECONDS,
{
    match time::UtcOffset::current_local_offset() {
        Ok(offset) => Some(offset.whole_seconds()),
        Err(_) => None,
    }
}

fn pad2_text(n: u8) -> (r: String)
    ensures
        r@ == pad2(n as nat),
{
    if n < 10 {
        let mut r = String::new();
        push_char(&mut r, '0');
        let d = decimal_text(n as u64);
        r.append(d.as_str());
        r
    } else {
        decimal_text(n as u64)
    }
}

fn month_abbrev_text(m: u8) -> (r: &'static str)
    requires
        1 <= m <= 12,
    ensures
        r@ == month_abbrev(m as nat),
{
    if m == 1 {
        "Jan"
    } else if m == 2 {
        "Feb"
    } else if m == 3 {
        "Mar"
    } else if m == 4 {
        "Apr"
    } else if m == 5 {
        "May"
    } else if m == 6 {
        "Jun"
    } else if m == 7 {
        "Jul"
    } else if m == 8 {
        "Aug"
    } else if m == 9 {
        "Sep"
    } else if m == 10 {
        "Oct"
    } else if m == 11 {
        "Nov"
    } else {
        "Dec"
    }
}

/// Formats calendar fields as `"Mon DD HH:MM"`.
pub fn format_compact_fields(month: u8, day: u8, hour: u8, minute: u8) -> (r: String)
    requires
        1 <= month <= 12,
    ensures
        r@ == compact_fields_text(month as nat, day as nat, hour as nat, minute as nat),
{
    let mut r = concat2(month_abbrev_text(month), " ");
    let d = pad2_text(day);
    r.append(d.as_str());
    r.append(" ");
    let h = pad2_text(hour);
    r.append(h.as_str());
    r.append(":");
    let m = pad2_text(minute);
    r.append(m.as_str());
    r
}

/// Index of the first occurrence of a character, if any.
pub open spec fn first_index_of(s: Seq<char>, c: char) -> Option<int> {
    if exists|i: int| 0 <= i < s.len() && s[i] == c {
        Some(choose|i: int| 0 <= i < s.len() && s[i] == c && forall|j: int| 0 <= j < i ==> s[j] != c)
    } else {
        None
    }
}

/// `str::split_once` with a character separator: the text before and after its first
/// occurrence.
pub open spec fn split_once(s: Seq<char>, c: char) -> Option<(Seq<char>, Seq<char>)> {
    match first_index_of(s, c) {
        Some(i) => Some((s.take(i), s.skip(i + 1))),
        None => None,
    }
}

/// Date and time parts of an ISO-like timestamp: split at the first `T`, or else at the first
/// space.
pub open spec fn iso_parts(s: Seq<char>) -> Option<(Seq<char>, Seq<char>)> {
    match split_once(s, 'T') {
        Some(p) => Some(p),
        None => split_once(s, ' '),
    }
}

/// Every character is ASCII.
pub open spec fn is_ascii_text(s: Seq<char>) -> bool {
    forall|i: int| 0 <= i < s.len() ==> #[trigger] s[i] < '\u{80}'
}

/// Month number of a two-digit month field `"01"` to `"12"`.
pub open spec fn month_number(f: Seq<char>) -> Option<nat> {
    if f.len() == 2 && is_digit(f[0]) && is_digit(f[1]) {
        let n = (f[0] as int - '0' as int) * 10 + (f[1] as int - '0' as int);
        if 1 <= n <= 12 {
            Some(n as nat)
        } else {
            None
        }
    } else {
        None
    }
}

/// Whether a time part starts with `HH:MM` (digits and a colon).
pub open spec fn starts_with_clock(t: Seq<char>) -> bool {
    t.len() >= 5 && is_digit(t[0]) && is_digit(t[1]) && t[2] == ':' && is_digit(t[3]) && is_digit(
        t[4],
    )
}

/// Compact `"Mon DD HH:MM"` rendering of an ISO-like timestamp taken character by character:
/// a ten-character ASCII date `YYYY-MM-DD`, then `T` or a space, then at least five ASCII
/// characters starting `HH:MM`. `None` for anything else.
pub open spec fn compact_iso(s: Seq<char>) -> Option<Seq<char>> {
    match iso_parts(s) {
        None => None,
        Some((date, time)) => {
            if !(is_ascii_text(date) && is_ascii_text(time) && date.len() == 10 && time.len()
                >= 5) {
                None
            } else {
                match month_number(date.subrange(5, 7)) {
                    None => None,
                    Some(m) => {
                        let day = date.subrange(8, 10);
                        if is_digit(day[0]) && is_digit(day[1]) && starts_with_clock(time) {
                            Some(month_abbrev(m) + " "@ + day + " "@ + time.take(5))
                        } else {
                            None
                        }
                    },
                }
            }
        },
    }
}

fn find_char(chars: &Vec<char>, c: char) -> (r: Option<usize>)
    ensures
        r matches Some(i) ==> (i < chars.len() && chars@[i as int] == c && forall|j: int|
            0 <= j < i ==> chars@[j] != c),
        r is None ==> forall|j: int| 0 <= j < chars.len() ==> chars@[j] != c,
{
    let mut i: usize = 0;
    while i < chars.len()
        invariant
            i <= chars.len(),
            forall|j: int| 0 <= j < i ==> chars@[j] != c,
        decreases chars.len() - i,
    {
        if chars[i] == c {
            return Some(i);
        }
        i = i + 1;
    }
    None
}

proof fn lemma_first_index(s: Seq<char>, c: char, i: int)
    requires
        0 <= i < s.len(),
        s[i] == c,
        forall|j: int| 0 <= j < i ==> s[j] != c,
    ensures
        first_index_of(s, c) == Some(i),
{
    let k = choose|k: int| 0 <= k < s.len() && s[k] == c && forall|j: int| 0 <= j < k ==> s[j] != c;
    assert(0 <= k < s.len() && s[k] == c && forall|j: int| 0 <= j < k ==> s[j] != c);
    if k < i {
        assert(s[k] != c);
    } else if k > i {
        assert(s[i] != c);
    }
}

fn all_ascii(chars: &Vec<char>, from: usize, to: usize) -> (r: bool)
    requires
        from <= to <= chars.len(),
    ensures
        r == is_ascii_text(chars@.subrange(from as int, to as int)),
{
    let mut i: usize = from;
    while i < to
        invariant
            from <= i <= to <= chars.len(),
            forall|j: int| from <= j < i ==> chars@[j] < '\u{80}',
        decreases to - i,
    {
        if chars[i] >= '\u{80}' {
            assert(chars@.subrange(from as int, to as int)[i - from] == chars@[i as int]);
            return false;
        }
        i = i + 1;
    }
    assert forall|k: int| 0 <= k < (to - from) implies (#[trigger] chars@.subrange(
        from as int,
        to as int,
    )[k]) < '\u{80}' by {
        assert(chars@.subrange(from as int, to as int)[k] == chars@[from + k]);
    }
    true
}

fn digit_at(chars: &Vec<char>, i: usize) -> (r: bool)
    requires
        i < chars.len(),
    ensures
        r == is_digit(chars@[i as int]),
{
    '0' <= chars[i] && chars[i] <= '9'
}

fn month_of(a: char, b: char) -> (r: Option<u8>)
    ensures
        r matches Some(m) ==> 1 <= m <= 12,
        r == (match month_number(seq![a, b]) {
            Some(n) => Some(n as u8),
            None => None::<u8>,
        }),
{
    let ghost f = seq![a, b];
    assert(f[0] == a && f[1] == b);
    if a == '0' && '1' <= b && b <= '9' {
        let n: u8 = ((b as u32) - 48) as u8;
        Some(n)
    } else if a == '1' && '0' <= b && b <= '2' {
        let n: u8 = ((b as u32) - 38) as u8;
        Some(n)
    } else {
        None
    }
}

/// Formats an ISO-like timestamp as `"Mon DD HH:MM"` (see `compact_iso`).
pub fn compact_iso_timestamp(timestamp: &str) -> (r: Option<String>)
    ensures
        r matches Some(t) ==> compact_iso(timestamp@) == Some(t@),
        r is None ==> compact_iso(timestamp@) is None,
{
    let chars = chars_of(timestamp);
    let ghost s = timestamp@;
    let split = match find_char(&chars, 'T') {
        Some(i) => {
            proof {
                lemma_first_index(s, 'T', i as int);
            }
            i
        },
        None => {
            assert(first_index_of(s, 'T') is None);
            match find_char(&chars, ' ') {
                Some(i) => {
                    proof {
                        lemma_first_index(s, ' ', i as int);
                    }
                    i
                },
                None => {
                    assert(first_index_of(s, ' ') is None);
                    return None;
                },
            }
        },
    };
    let n = chars.len();
    let ghost date = s.take(split as int);
    let ghost time = s.skip(split + 1);
    assert(iso_parts(s) == Some((date, time)));
    assert(chars@.subrange(0, split as int) =~= date);
    assert(chars@.subrange(split + 1, n as int) =~= time);
    if !(all_ascii(&chars, 0, split) && all_ascii(&chars, split + 1, n) && split == 10 && n - (split
        + 1) >= 5) {
        return None;
    }
    let month = month_of(chars[5], chars[6]);
    assert(date.subrange(5, 7) =~= seq![chars@[5], chars@[6]]);
    match month {
        None => None,
        Some(m) => {
            let t = split + 1;
            assert(date.subrange(8, 10)[0] == chars@[8] && date.subrange(8, 10)[1] == chars@[9]);
            assert(time[0] == chars@[t as int] && time[1] == chars@[t + 1] && time[2] == chars@[t
                + 2] && time[3] == chars@[t + 3] && time[4] == chars@[t + 4]);
            if digit_at(&chars, 8) && digit_at(&chars, 9) && digit_at(&chars, t) && digit_at(
                &chars,
                t + 1,
            ) && chars[t + 2] == ':' && digit_at(&chars, t + 3) && digit_at(&chars, t + 4) {
                let mut r = concat2(month_abbrev_text(m), " ");
                let day = string_from_range(&chars, 8, 10);
                r.append(day.as_str());
                r.append(" ");
                let clock = string_from_range(&chars, t, t + 5);
                r.append(clock.as_str());
                assert(chars@.subrange(t as int, t + 5) =~= time.take(5));
                assert(chars@.subrange(8, 10) =~= date.subrange(8, 10));
                Some(r)
            } else {
                None
            }
        },
    }
}

/// Compact display of a timestamp at a UTC offset: an RFC 3339 timestamp is shifted to the
/// offset; otherwise the ISO-like fallback applies.
pub open spec fn compact_at_offset(timestamp: Seq<char>, offset_seconds: i32) -> Option<Seq<char>> {
    match rfc3339_local_fields(timestamp, offset_seconds) {
        Some(f) => Some(compact_fields_text(f.0 as nat, f.1 as nat, f.2 as nat, f.3 as nat)),
        None => compact_iso(timestamp),
    }
}

/// Formats a timestamp compactly at a UTC offset given in seconds (see `compact_at_offset`).
pub fn compact_timestamp_at_offset(timestamp: &str, offset_seconds: i32) -> (r: Option<String>)
    requires
        MIN_OFFSET_SECONDS <= offset_seconds <= MAX_OFFSET_SECONDS,
    ensures
        r matches Some(t) ==> compact_at_offset(timestamp@, offset_seconds) == Some(t@),
        r is None ==> compact_at_offset(timestamp@, offset_seconds) is None,
{
    match rfc3339_fields_at(timestamp, offset_seconds) {
        Some(f) => Some(format_compact_fields(f.0, f.1, f.2, f.3)),
        None => compact_iso_timestamp(timestamp),
    }
}

/// Text shown for an optional delivery timestamp at a UTC offset: `-` when absent, the compact
/// form when it can be formed, and the timestamp itself otherwise.
pub open spec fn delivery_timestamp_text(timestamp: Option<Seq<char>>, offset_seconds: i32) -> Seq<
    char,
> {
    match timestamp {
        None => "-"@,
        Some(t) => match compact_at_offset(t, offset_seconds) {
            Some(c) => c,
            None => t,
        },
    }
}

/// Formats an optional delivery timestamp at a UTC offset (see `delivery_timestamp_text`).
pub fn format_delivery_timestamp_at(timestamp: Option<&str>, offset_seconds: i32) -> (r: String)
    requires
        MIN_OFFSET_SECONDS <= offset_seconds <= MAX_OFFSET_SECONDS,
    ensures
        r@ == delivery_timestamp_text(crate::text::opt_str_text(timestamp), offset_seconds),
{
    match timestamp {
        None => "-".to_owned(),
        Some(t) => match compact_timestamp_at_offset(t, offset_seconds) {
            Some(c) => c,
            None => t.to_owned(),
        },
    }
}

/// The machine's current UTC offset in seconds, or zero (UTC) where it cannot be determined.
pub fn local_offset_seconds() -> (r: i32)
    ensures
        MIN_OFFSET_SECONDS <= r <= MAX_OFFSET_SECONDS,
{
    match current_offset_seconds() {
        Some(s) => s,
        None => 0,
    }
}

/// Formats an optional delivery timestamp in the machine's current UTC offset.
pub fn format_delivery_timestamp(timestamp: Option<&str>) -> (r: String)
    ensures
        exists|offset: i32|
            MIN_OFFSET_SECONDS <= offset <= MAX_OFFSET_SECONDS && r@ == delivery_timestamp_text(
                crate::text::opt_str_text(timestamp),
                offset,
            ),
{
    let offset = local_offset_seconds();
    format_delivery_timestamp_at(timestamp, offset)
}

/// The three-letter abbreviation of month `m` (1 to 12) is the `m`-th of the calendar's twelve,
/// Jan to Dec, and no two months share one.
pub proof fn law_month_abbreviations_follow_the_calendar(m: nat, n: nat)
    requires
        1 <= m <= 12,
        1 <= n <= 12,
    ensures
        month_abbrev(m) == "JanFebMarAprMayJunJulAugSepOctNovDec"@.subrange(3 * m - 3, 3 * m as int),
        month_abbrev(m).len() == 3,
        m != n ==> month_abbrev(m) != month_abbrev(n),
{
    lemma_month_abbrev_in_calendar(m);
    lemma_month_abbrev_in_calendar(n);
    if m != n && month_abbrev(m) == month_abbrev(n) {
        let cal = "JanFebMarAprMayJunJulAugSepOctNovDec"@;
        reveal_strlit("JanFebMarAprMayJunJulAugSepOctNovDec");
        assert(cal[3 * m - 3] == month_abbrev(m)[0]);
        assert(cal[3 * m - 2] == month_abbrev(m)[1]);
        assert(cal[3 * m - 1] == month_abbrev(m)[2]);
        assert(cal[3 * n - 3] == month_abbrev(n)[0]);
        assert(cal[3 * n - 2] == month_abbrev(n)[1]);
        assert(cal[3 * n - 1] == month_abbrev(n)[2]);
        assert(false);
    }
}

proof fn lemma_month_abbrev_in_calendar(m: nat)
    requires
        1 <= m <= 12,
    ensures
        month_abbrev(m) == "JanFebMarAprMayJunJulAugSepOctNovDec"@.subrange(3 * m - 3, 3 * m as int),
        month_abbrev(m).len() == 3,
        "JanFebMarAprMayJunJulAugSepOctNovDec"@.len() == 36,
{
    let cal = "JanFebMarAprMayJunJulAugSepOctNovDec"@;
    reveal_strlit("JanFebMarAprMayJunJulAugSepOctNovDec");
    reveal_strlit("Jan");
    reveal_strlit("Feb");
    reveal_strlit("Mar");
    reveal_strlit("Apr");
    reveal_strlit("May");
    reveal_strlit("Jun");
    reveal_strlit("Jul");
    reveal_strlit("Aug");
    reveal_strlit("Sep");
    reveal_strlit("Oct");
    reveal_strlit("Nov");
    reveal_strlit("Dec");
    assert(month_abbrev(m) =~= cal.subrange(3 * m - 3, 3 * m as int));
}

/// The compact form of calendar fields starts with the calendar abbreviation of the month
/// (the `month`-th of Jan to Dec) and a space.
pub proof fn law_compact_fields_start_with_month(month: nat, day: nat, hour: nat, minute: nat)
    requires
        1 <= month <= 12,
    ensures
        compact_fields_text(month, day, hour, minute).take(4)
            == "JanFebMarAprMayJunJulAugSepOctNovDec"@.subrange(3 * month - 3, 3 * month as int) + " "@,
{
    lemma_month_abbrev_in_calendar(month);
    reveal_strlit(" ");
    let t = compact_fields_text(month, day, hour, minute);
    assert(t.take(4) =~= month_abbrev(month) + " "@);
}

/// A timestamp shown at an offset, once the `time` crate gives its local fields, starts with the
/// calendar abbreviation of the local month and a space.
pub proof fn law_compact_at_offset_shows_local_month(timestamp: Seq<char>, offset_seconds: i32)
    requires
        rfc3339_local_fields(timestamp, offset_seconds) matches Some(f) && 1 <= f.0 <= 12,
    ensures
        rfc3339_local_fields(timestamp, offset_seconds) matches Some(f) && compact_at_offset(
            timestamp,
            offset_seconds,
        ) matches Some(t) && t.take(4) == "JanFebMarAprMayJunJulAugSepOctNovDec"@.subrange(
            3 * f.0 - 3,
            3 * f.0,
        ) + " "@,
{
    let f = rfc3339_local_fields(timestamp, offset_seconds)->0;
    law_compact_fields_start_with_month(f.0 as nat, f.1 as nat, f.2 as nat, f.3 as nat);
}

/// The ISO-like fallback form starts with the calendar abbreviation of the two-digit month
/// field (`"07"` gives `Jul`) and a space: the date is the first ten characters, with the month
/// at positions 5 and 6.
pub proof fn law_compact_iso_shows_month_field(s: Seq<char>)
    requires
        compact_iso(s) is Some,
    ensures
        s.len() >= 10,
        month_number(s.subrange(5, 7)) matches Some(m) && compact_iso(s)->0.take(4)
            == "JanFebMarAprMayJunJulAugSepOctNovDec"@.subrange(3 * m - 3, 3 * m as int) + " "@,
        (s[5] as int - '0' as int) * 10 + (s[6] as int - '0' as int) == month_number(
            s.subrange(5, 7),
        )->0,
        s.len() >= 16,
        compact_iso(s)->0.len() == 12,
        compact_iso(s)->0.subrange(4, 6) == s.subrange(8, 10),
        compact_iso(s)->0[6] == ' ',
        compact_iso(s)->0.subrange(7, 12) == s.subrange(11, 16),
{
    let (date, time) = iso_parts(s)->0;
    lemma_iso_parts_date_prefix(s);
    assert(date =~= s.take(date.len() as int));
    assert(date.subrange(5, 7) =~= s.subrange(5, 7));
    let m = month_number(date.subrange(5, 7))->0;
    lemma_month_abbrev_in_calendar(m);
    reveal_strlit(" ");
    let t = compact_iso(s)->0;
    let day = date.subrange(8, 10);
    assert(t == month_abbrev(m) + " "@ + day + " "@ + time.take(5));
    assert(t.take(4) =~= month_abbrev(m) + " "@);
    assert(time =~= s.skip(11));
    assert(day =~= s.subrange(8, 10));
    assert(t.subrange(4, 6) =~= s.subrange(8, 10));
    assert(t.subrange(7, 12) =~= s.subrange(11, 16));
}

proof fn lemma_iso_parts_date_prefix(s: Seq<char>)
    requires
        iso_parts(s) is Some,
    ensures
        iso_parts(s) matches Some(p) && p.0 == s.take(p.0.len() as int) && p.0.len() < s.len()
            && p.1 == s.skip(p.0.len() as int + 1),
{
    let c = if split_once(s, 'T') is Some {
        'T'
    } else {
        ' '
    };
    assert(split_once(s, c) is Some);
    let i = first_index_of(s, c)->0;
    assert(exists|k: int| 0 <= k < s.len() && s[k] == c);
    assert(exists|k: int| 0 <= k < s.len() && s[k] == c && forall|j: int| 0 <= j < k ==> s[j] != c) by {
        let w = choose|k: int| 0 <= k < s.len() && s[k] == c;
        lemma_first_occurrence_exists(s, c, w);
    }
    assert(0 <= i < s.len());
    assert(s.take(i).len() == i);
    assert(iso_parts(s) == Some((s.take(i), s.skip(i + 1))));
}

proof fn lemma_first_occurrence_exists(s: Seq<char>, c: char, w: int)
    requires
        0 <= w < s.len(),
        s[w] == c,
    ensures
        exists|k: int| 0 <= k < s.len() && s[k] == c && forall|j: int| 0 <= j < k ==> s[j] != c,
    decreases w,
{
    if exists|j: int| 0 <= j < w && s[j] == c {
        let j = choose|j: int| 0 <= j < w && s[j] == c;
        lemma_first_occurrence_exists(s, c, j);
    } else {
        assert(0 <= w < s.len() && s[w] == c && forall|j: int| 0 <= j < w ==> s[j] != c);
    }
}

proof fn lemma_pad2_digits(n: nat)
    requires
        n < 100,
    ensures
        pad2(n) == seq![(('0' as int) + n / 10) as char, (('0' as int) + n % 10) as char],
{
    if n >= 10 {
        assert(decimal(n / 10) == seq![crate::text::digit_char(n / 10)]);
    }
    assert(pad2(n) =~= seq![(('0' as int) + n / 10) as char, (('0' as int) + n % 10) as char]);
}

/// The compact form of calendar fields is the calendar abbreviation of the month, a space, the
/// day, a space, then the hour and the minute joined by a colon, each number written with two
/// digits (a leading zero below ten).
pub proof fn law_compact_fields_layout(month: nat, day: nat, hour: nat, minute: nat)
    requires
        1 <= month <= 12,
        day < 100,
        hour < 100,
        minute < 100,
    ensures
        compact_fields_text(month, day, hour, minute)
            == "JanFebMarAprMayJunJulAugSepOctNovDec"@.subrange(3 * month - 3, 3 * month as int)
            + seq![
            ' ',
            (('0' as int) + day / 10) as char,
            (('0' as int) + day % 10) as char,
            ' ',
            (('0' as int) + hour / 10) as char,
            (('0' as int) + hour % 10) as char,
            ':',
            (('0' as int) + minute / 10) as char,
            (('0' as int) + minute % 10) as char,
        ],
{
    lemma_month_abbrev_in_calendar(month);
    lemma_pad2_digits(day);
    lemma_pad2_digits(hour);
    lemma_pad2_digits(minute);
    reveal_strlit(" ");
    reveal_strlit(":");
    assert(compact_fields_text(month, day, hour, minute) =~= month_abbrev(month) + seq![
        ' ',
        (('0' as int) + day / 10) as char,
        (('0' as int) + day % 10) as char,
        ' ',
        (('0' as int) + hour / 10) as char,
        (('0' as int) + hour % 10) as char,
        ':',
        (('0' as int) + minute / 10) as char,
        (('0' as int) + minute % 10) as char,
    ]);
}

} // verus!
