//! Release version parsing and comparison.
//!
//! Versions are compared numerically by their dot-separated core components (missing
//! components count as zero), then by their pre-release identifiers as semantic versioning
//! orders them. Text that does not parse as a version is compared as plain text.
//!
//! The comparisons below compute a sign (-1, 0 or 1); only `compare_versions` turns the
//! sign into an `Ordering`.
use vstd::prelude::*;

use core::cmp::Ordering;

use crate::text::{chars_of, is_digit, digit_value, string_from_chars, trim, trim_text};

verus! {

/// The text with every leading `c` removed, as `trim_start_matches(c)` does.
pub open spec fn strip_leading(s: Seq<char>, c: char) -> Seq<char>
    decreases s.len(),
{
    if s.len() > 0 && s[0] == c {
        strip_leading(s.drop_first(), c)
    } else {
        s
    }
}

/// Index of the first `c` at or after `from`, or the length when there is none.
pub open spec fn first_index_from(s: Seq<char>, c: char, from: int) -> int
    decreases s.len() - from,
{
    if from < 0 || from >= s.len() {
        s.len() as int
    } else if s[from] == c {
        from
    } else {
        first_index_from(s, c, from + 1)
    }
}

/// The pieces of a text between separators, as `split(sep)` yields them (the empty text
/// gives one empty piece).
pub open spec fn split_on(s: Seq<char>, sep: char) -> Seq<Seq<char>>
    decreases s.len(),
{
    if s.len() == 0 {
        seq![Seq::<char>::empty()]
    } else {
        let p = split_on(s.drop_last(), sep);
        if s.last() == sep {
            p.push(Seq::<char>::empty())
        } else {
            p.update(p.len() - 1, p.last().push(s.last()))
        }
    }
}

/// Value of a run of decimal digits.
pub open spec fn digits_value(d: Seq<char>) -> nat
    decreases d.len(),
{
    if d.len() == 0 {
        0
    } else {
        digits_value(d.drop_last()) * 10 + digit_value(d.last())
    }
}

/// The text after an optional leading `+`.
pub open spec fn unsigned_digits(s: Seq<char>) -> Seq<char> {
    if s.len() > 0 && s[0] == '+' {
        s.drop_first()
    } else {
        s
    }
}

/// Every character is a decimal digit.
pub open spec fn all_digits(d: Seq<char>) -> bool {
    forall|i: int| 0 <= i < d.len() ==> is_digit(#[trigger] d[i])
}

/// What `str::parse::<u64>` gives: an optional `+` then at least one decimal digit, with a
/// value that fits in `u64`.
pub open spec fn parse_u64_spec(s: Seq<char>) -> Option<u64> {
    let d = unsigned_digits(s);
    if d.len() > 0 && all_digits(d) && digits_value(d) <= u64::MAX {
        Some(digits_value(d) as u64)
    } else {
        None
    }
}

/// Parses every piece as `u64`; fails when any piece does not parse.
pub open spec fn parse_all(parts: Seq<Seq<char>>) -> Option<Seq<u64>>
    decreases parts.len(),
{
    if parts.len() == 0 {
        Some(Seq::empty())
    } else {
        match (parse_all(parts.drop_last()), parse_u64_spec(parts.last())) {
            (Some(vs), Some(v)) => Some(vs.push(v)),
            _ => None,
        }
    }
}

/// Numeric core and pre-release identifiers of a version.
pub struct VersionModel {
    pub components: Seq<u64>,
    pub prerelease: Option<Seq<Seq<char>>>,
}

/// How a version text parses: surrounding whitespace and leading `v`s are ignored, build
/// metadata after `+` is dropped, the pre-release part follows the first `-`, and every
/// dot-separated core component must be a `u64`.
pub open spec fn parse_version_spec(s: Seq<char>) -> Option<VersionModel> {
    let t = strip_leading(trim(s), 'v');
    let core_pre = t.take(first_index_from(t, '+', 0));
    let dash = first_index_from(core_pre, '-', 0);
    let core = core_pre.take(dash);
    let pre = if dash < core_pre.len() {
        Some(split_on(core_pre.skip(dash + 1), '.'))
    } else {
        None
    };
    match parse_all(split_on(core, '.')) {
        Some(components) => Some(VersionModel { components, prerelease: pre }),
        None => None,
    }
}

/// Sign of comparing two integers.
pub open spec fn sign_of(a: int, b: int) -> int {
    if a < b {
        -1
    } else if a > b {
        1
    } else {
        0
    }
}

/// Lexicographic comparison of byte strings from position `i`, as `str` ordering does.
pub open spec fn lex_from(a: Seq<u8>, b: Seq<u8>, i: int) -> int
    decreases a.len() + b.len() - 2 * i,
{
    if i < 0 {
        0
    } else if i >= a.len() && i >= b.len() {
        0
    } else if i >= a.len() {
        -1
    } else if i >= b.len() {
        1
    } else if a[i] < b[i] {
        -1
    } else if a[i] > b[i] {
        1
    } else {
        lex_from(a, b, i + 1)
    }
}

/// Component at an index, with missing components counting as zero.
pub open spec fn component_at(c: Seq<u64>, i: int) -> int {
    if 0 <= i < c.len() {
        c[i] as int
    } else {
        0
    }
}

/// Numeric comparison of version cores from component `i` on.
pub open spec fn components_from(a: Seq<u64>, b: Seq<u64>, i: int) -> int
    decreases (if a.len() > b.len() { a.len() } else { b.len() }) - i,
{
    if i < 0 || (i >= a.len() && i >= b.len()) {
        0
    } else if component_at(a, i) != component_at(b, i) {
        sign_of(component_at(a, i), component_at(b, i))
    } else {
        components_from(a, b, i + 1)
    }
}

/// Comparison of two pre-release identifiers: numeric ones by value and below alphanumeric
/// ones, alphanumeric ones as text.
pub open spec fn identifier_order(a: Seq<char>, b: Seq<char>) -> int {
    match (parse_u64_spec(a), parse_u64_spec(b)) {
        (Some(x), Some(y)) => sign_of(x as int, y as int),
        (Some(_), None) => -1,
        (None, Some(_)) => 1,
        (None, None) => lex_from(crate::text::utf8_of(a), crate::text::utf8_of(b), 0),
    }
}

/// Comparison of pre-release identifier lists from index `i` on: the first differing
/// identifier decides, and a list that is a prefix of the other is lower.
pub open spec fn identifiers_from(a: Seq<Seq<char>>, b: Seq<Seq<char>>, i: int) -> int
    decreases a.len() + b.len() - 2 * i,
{
    if i < 0 || (i >= a.len() && i >= b.len()) {
        0
    } else if i >= a.len() {
        -1
    } else if i >= b.len() {
        1
    } else if identifier_order(a[i], b[i]) != 0 {
        identifier_order(a[i], b[i])
    } else {
        identifiers_from(a, b, i + 1)
    }
}

/// Comparison of optional pre-release parts: a release is above any of its pre-releases.
pub open spec fn prerelease_order(a: Option<Seq<Seq<char>>>, b: Option<Seq<Seq<char>>>) -> int {
    match (a, b) {
        (None, None) => 0,
        (None, Some(_)) => 1,
        (Some(_), None) => -1,
        (Some(x), Some(y)) => identifiers_from(x, y, 0),
    }
}

/// Comparison of parsed versions.
pub open spec fn model_order(a: VersionModel, b: VersionModel) -> int {
    let c = components_from(a.components, b.components, 0);
    if c != 0 {
        c
    } else {
        prerelease_order(a.prerelease, b.prerelease)
    }
}

/// Comparison of two version texts: as versions when both parse, else as plain text.
pub open spec fn version_order(a: Seq<char>, b: Seq<char>) -> int {
    match (parse_version_spec(a), parse_version_spec(b)) {
        (Some(x), Some(y)) => model_order(x, y),
        _ => lex_from(crate::text::utf8_of(a), crate::text::utf8_of(b), 0),
    }
}

/// Whether `candidate` is a newer version than `current`.
pub open spec fn is_newer(candidate: Seq<char>, current: Seq<char>) -> bool {
    version_order(candidate, current) == 1
}

/// Texts of a list of character vectors.
pub open spec fn pieces_view(v: Seq<Vec<char>>) -> Seq<Seq<char>> {
    v.map_values(|x: Vec<char>| x@)
}

fn strip_leading_index(chars: &Vec<char>, from: usize, to: usize, c: char) -> (r: usize)
    requires
        from <= to <= chars.len(),
    ensures
        from <= r <= to,
        chars@.subrange(r as int, to as int) == strip_leading(
            chars@.subrange(from as int, to as int),
            c,
        ),
{
    let mut i = from;
    while i < to && chars[i] == c
        invariant
            from <= i <= to <= chars.len(),
            strip_leading(chars@.subrange(from as int, to as int), c) == strip_leading(
                chars@.subrange(i as int, to as int),
                c,
            ),
        decreases to - i,
    {
        assert(chars@.subrange(i as int, to as int).drop_first() =~= chars@.subrange(
            i + 1,
            to as int,
        ));
        i = i + 1;
    }
    i
}

fn find_char(chars: &Vec<char>, from: usize, to: usize, c: char) -> (r: usize)
    requires
        from <= to <= chars.len(),
    ensures
        from <= r <= to,
        r - from == first_index_from(chars@.subrange(from as int, to as int), c, 0),
{
    let ghost s = chars@.subrange(from as int, to as int);
    let mut i = from;
    while i < to && chars[i] != c
        invariant
            from <= i <= to <= chars.len(),
            s == chars@.subrange(from as int, to as int),
            first_index_from(s, c, 0) == first_index_from(s, c, i - from),
        decreases to - i,
    {
        assert(s[i - from] == chars@[i as int]);
        i = i + 1;
    }
    proof {
        if i < to {
            assert(s[i - from] == chars@[i as int]);
        }
    }
    i
}

proof fn lemma_split_nonempty(s: Seq<char>, sep: char)
    ensures
        split_on(s, sep).len() >= 1,
    decreases s.len(),
{
    if s.len() > 0 {
        lemma_split_nonempty(s.drop_last(), sep);
    }
}

pub fn split_range(chars: &Vec<char>, from: usize, to: usize, sep: char) -> (r: Vec<Vec<char>>)
    requires
        from <= to <= chars.len(),
    ensures
        pieces_view(r@) == split_on(chars@.subrange(from as int, to as int), sep),
{
    let ghost s = chars@.subrange(from as int, to as int);
    let mut done: Vec<Vec<char>> = Vec::new();
    let mut current: Vec<char> = Vec::new();
    let mut i = from;
    proof {
        assert(s.take(0) =~= Seq::<char>::empty());
        assert(pieces_view(done@).push(current@) =~= seq![Seq::<char>::empty()]);
    }
    while i < to
        invariant
            from <= i <= to <= chars.len(),
            s == chars@.subrange(from as int, to as int),
            pieces_view(done@).push(current@) == split_on(s.take(i - from), sep),
        decreases to - i,
    {
        let ghost before = s.take(i - from);
        proof {
            assert(s.take(i + 1 - from).drop_last() =~= before);
            assert(s.take(i + 1 - from).last() == chars@[i as int]);
            lemma_split_nonempty(before, sep);
        }
        let c = chars[i];
        if c == sep {
            let finished = current;
            done.push(finished);
            current = Vec::new();
            proof {
                assert(pieces_view(done@).push(current@) =~= split_on(before, sep).push(
                    Seq::<char>::empty(),
                ));
            }
        } else {
            let ghost prev = pieces_view(done@);
            let ghost old_current = current@;
            current.push(c);
            proof {
                let p = split_on(before, sep);
                assert(current@.drop_last() =~= old_current);
                assert(p =~= prev.push(old_current));
                assert(pieces_view(done@).push(current@) =~= p.update(
                    p.len() - 1,
                    p.last().push(c),
                ));
            }
        }
        i = i + 1;
    }
    proof {
        assert(s.take(to - from) =~= s);
    }
    done.push(current);
    done
}

proof fn lemma_digits_monotone(d: Seq<char>, i: int, j: int)
    requires
        0 <= i <= j <= d.len(),
    ensures
        digits_value(d.take(i)) <= digits_value(d.take(j)),
    decreases j - i,
{
    if i < j {
        lemma_digits_monotone(d, i, j - 1);
        assert(d.take(j).drop_last() =~= d.take(j - 1));
    }
}

/// Parses a run of characters as `u64` the way `str::parse::<u64>` does.
fn parse_u64_chars(chars: &Vec<char>) -> (r: Option<u64>)
    ensures
        r == parse_u64_spec(chars@),
{
    let start: usize = if chars.len() > 0 && chars[0] == '+' {
        1
    } else {
        0
    };
    let ghost d = unsigned_digits(chars@);
    proof {
        assert(d =~= chars@.subrange(start as int, chars@.len() as int));
    }
    if start == chars.len() {
        return None;
    }
    let mut value: u64 = 0;
    let mut i = start;
    while i < chars.len()
        invariant
            start <= i <= chars.len(),
            d == chars@.subrange(start as int, chars@.len() as int),
            d == unsigned_digits(chars@),
            forall|k: int| 0 <= k < i - start ==> is_digit(#[trigger] d[k]),
            value == digits_value(d.take(i - start)),
        decreases chars.len() - i,
    {
        let c = chars[i];
        proof {
            assert(d[i - start] == c);
            assert(d.take(i + 1 - start).drop_last() =~= d.take(i - start));
            assert(d.take(i + 1 - start).last() == c);
        }
        if !('0' <= c && c <= '9') {
            proof {
                assert(!is_digit(d[i - start]));
                assert(!all_digits(d));
                assert(unsigned_digits(chars@) == d);
                assert(!(d.len() > 0 && all_digits(d) && digits_value(d) <= u64::MAX));
                assert(parse_u64_spec(chars@) is None);
            }
            return None;
        }
        let digit: u64 = c as u64 - '0' as u64;
        proof {
            assert(digit == digit_value(c));
            assert(digits_value(d.take(i + 1 - start)) == value * 10 + digit);
        }
        match value.checked_mul(10) {
            Some(times_ten) => match times_ten.checked_add(digit) {
                Some(next) => {
                    value = next;
                },
                None => {
                    proof {
                        lemma_digits_monotone(d, i + 1 - start, d.len() as int);
                        assert(d.take(d.len() as int) =~= d);
                        assert(digits_value(d) > u64::MAX);
                        assert(parse_u64_spec(chars@) is None);
                    }
                    return None;
                },
            },
            None => {
                proof {
                    lemma_digits_monotone(d, i + 1 - start, d.len() as int);
                    assert(d.take(d.len() as int) =~= d);
                    assert(digits_value(d) > u64::MAX);
                }
                return None;
            },
        }
        i = i + 1;
    }
    proof {
        assert(d.take(d.len() as int) =~= d);
    }
    Some(value)
}

/// A parsed release version.
#[derive(Debug, PartialEq, Eq)]
pub struct ParsedVersion {
    components: Vec<u64>,
    prerelease: Option<Vec<Vec<char>>>,
}

impl ParsedVersion {
    /// The parsed version as a model.
    pub closed spec fn model(&self) -> VersionModel {
        VersionModel {
            components: self.components@,
            prerelease: match self.prerelease {
                Some(p) => Some(pieces_view(p@)),
                None => None,
            },
        }
    }

    /// Parses a version text (see `parse_version_spec`).
    pub fn parse(version: &str) -> (r: Option<Self>)
        ensures
            parse_version_spec(version@) matches Some(m) ==> r matches Some(p) && p.model() == m,
            parse_version_spec(version@) is None ==> r is None,
    {
        let trimmed = trim_text(version);
        let chars = chars_of(trimmed.as_str());
        let n = chars.len();
        let start = strip_leading_index(&chars, 0, n, 'v');
        let plus = find_char(&chars, start, n, '+');
        let dash = find_char(&chars, start, plus, '-');
        proof {
            lemma_version_positions(version@, chars@, start as int, plus as int, dash as int);
        }
        let prerelease = if dash < plus {
            Some(split_range(&chars, dash + 1, plus, '.'))
        } else {
            None
        };
        let parts = split_range(&chars, start, dash, '.');
        match parse_components(&parts) {
            Some(components) => Some(ParsedVersion { components, prerelease }),
            None => None,
        }
    }
}

proof fn lemma_version_positions(v: Seq<char>, chars: Seq<char>, start: int, plus: int, dash: int)
    requires
        chars == trim(v),
        0 <= start <= chars.len(),
        chars.subrange(start, chars.len() as int) == strip_leading(chars.subrange(0, chars.len() as int), 'v'),
        start <= plus <= chars.len(),
        plus - start == first_index_from(chars.subrange(start, chars.len() as int), '+', 0),
        start <= dash <= plus,
        dash - start == first_index_from(chars.subrange(start, plus), '-', 0),
    ensures
        ({
            let t = strip_leading(trim(v), 'v');
            let core_pre = t.take(first_index_from(t, '+', 0));
            let d = first_index_from(core_pre, '-', 0);
            &&& core_pre.take(d) == chars.subrange(start, dash)
            &&& (d < core_pre.len()) == (dash < plus)
            &&& d < core_pre.len() ==> core_pre.skip(d + 1) == chars.subrange(dash + 1, plus)
        }),
{
    assert(chars.subrange(0, chars.len() as int) =~= chars);
    let t = strip_leading(trim(v), 'v');
    assert(t == chars.subrange(start, chars.len() as int));
    let core_pre = t.take(first_index_from(t, '+', 0));
    assert(core_pre =~= chars.subrange(start, plus));
    assert(core_pre.take(dash - start) =~= chars.subrange(start, dash));
    if dash < plus {
        assert(core_pre.skip(dash - start + 1) =~= chars.subrange(dash + 1, plus));
    }
}

fn parse_components(parts: &Vec<Vec<char>>) -> (r: Option<Vec<u64>>)
    ensures
        parse_all(pieces_view(parts@)) matches Some(c) ==> r matches Some(v) && v@ == c,
        parse_all(pieces_view(parts@)) is None ==> r is None,
{
    let mut components: Vec<u64> = Vec::new();
    let mut i: usize = 0;
    while i < parts.len()
        invariant
            i <= parts.len(),
            parse_all(pieces_view(parts@).take(i as int)) == Some(components@),
        decreases parts.len() - i,
    {
        proof {
            assert(pieces_view(parts@).take(i + 1).drop_last() =~= pieces_view(parts@).take(i as int));
            assert(pieces_view(parts@).take(i + 1).last() == parts@[i as int]@);
        }
        match parse_u64_chars(&parts[i]) {
            Some(v) => {
                components.push(v);
            },
            None => {
                proof {
                    lemma_parse_all_fails_extend(pieces_view(parts@), i as int);
                }
                return None;
            },
        }
        i = i + 1;
    }
    proof {
        assert(pieces_view(parts@).take(parts.len() as int) =~= pieces_view(parts@));
    }
    Some(components)
}

proof fn lemma_parse_all_fails_extend(parts: Seq<Seq<char>>, i: int)
    requires
        0 <= i < parts.len(),
        parse_u64_spec(parts[i]) is None,
    ensures
        parse_all(parts) is None,
    decreases parts.len(),
{
    if i < parts.len() - 1 {
        lemma_parse_all_fails_extend(parts.drop_last(), i);
    }
}

fn sign_u64(a: u64, b: u64) -> (r: i8)
    ensures
        r == sign_of(a as int, b as int),
{
    if a < b {
        -1
    } else if a > b {
        1
    } else {
        0
    }
}

fn lex_bytes(a: &[u8], b: &[u8]) -> (r: i8)
    ensures
        r == lex_from(a@, b@, 0),
{
    let mut i: usize = 0;
    while i < a.len() && i < b.len() && a[i] == b[i]
        invariant
            i <= a.len(),
            i <= b.len(),
            lex_from(a@, b@, 0) == lex_from(a@, b@, i as int),
        decreases a.len() - i,
    {
        i = i + 1;
    }
    if i >= a.len() && i >= b.len() {
        0
    } else if i >= a.len() {
        -1
    } else if i >= b.len() {
        1
    } else if a[i] < b[i] {
        -1
    } else {
        1
    }
}

fn lex_chars(a: &Vec<char>, b: &Vec<char>) -> (r: i8)
    ensures
        r == lex_from(crate::text::utf8_of(a@), crate::text::utf8_of(b@), 0),
{
    let x = string_from_chars(a);
    let y = string_from_chars(b);
    lex_bytes(x.as_str().as_bytes(), y.as_str().as_bytes())
}

fn components_order(a: &Vec<u64>, b: &Vec<u64>) -> (r: i8)
    ensures
        r == components_from(a@, b@, 0),
{
    let len = if a.len() > b.len() {
        a.len()
    } else {
        b.len()
    };
    let mut i: usize = 0;
    while i < len
        invariant
            i <= len,
            len == if a.len() > b.len() {
                a.len()
            } else {
                b.len()
            },
            components_from(a@, b@, 0) == components_from(a@, b@, i as int),
        decreases len - i,
    {
        let left: u64 = if i < a.len() {
            a[i]
        } else {
            0
        };
        let right: u64 = if i < b.len() {
            b[i]
        } else {
            0
        };
        if left != right {
            return sign_u64(left, right);
        }
        i = i + 1;
    }
    0
}

fn identifier_order_exec(a: &Vec<char>, b: &Vec<char>) -> (r: i8)
    ensures
        r == identifier_order(a@, b@),
{
    match (parse_u64_chars(a), parse_u64_chars(b)) {
        (Some(x), Some(y)) => sign_u64(x, y),
        (Some(_), None) => -1,
        (None, Some(_)) => 1,
        (None, None) => lex_chars(a, b),
    }
}

fn identifiers_order(a: &Vec<Vec<char>>, b: &Vec<Vec<char>>) -> (r: i8)
    ensures
        r == identifiers_from(pieces_view(a@), pieces_view(b@), 0),
{
    let mut i: usize = 0;
    loop
        invariant
            identifiers_from(pieces_view(a@), pieces_view(b@), 0) == identifiers_from(
                pieces_view(a@),
                pieces_view(b@),
                i as int,
            ),
            i <= a.len(),
            i <= b.len(),
        decreases a.len() + b.len() - 2 * i,
    {
        if i >= a.len() && i >= b.len() {
            return 0;
        } else if i >= a.len() {
            return -1;
        } else if i >= b.len() {
            return 1;
        }
        let o = identifier_order_exec(&a[i], &b[i]);
        if o != 0 {
            return o;
        }
        i = i + 1;
    }
}

fn prerelease_order_exec(a: &Option<Vec<Vec<char>>>, b: &Option<Vec<Vec<char>>>) -> (r: i8)
    ensures
        r == prerelease_order(
            match a {
                Some(p) => Some(pieces_view(p@)),
                None => None,
            },
            match b {
                Some(p) => Some(pieces_view(p@)),
                None => None,
            },
        ),
{
    match (a, b) {
        (None, None) => 0,
        (None, Some(_)) => 1,
        (Some(_), None) => -1,
        (Some(x), Some(y)) => identifiers_order(x, y),
    }
}

impl ParsedVersion {
    /// Compares two parsed versions (see `model_order`).
    pub fn order(&self, other: &ParsedVersion) -> (r: i8)
        ensures
            r == model_order(self.model(), other.model()),
    {
        let c = components_order(&self.components, &other.components);
        if c != 0 {
            c
        } else {
            prerelease_order_exec(&self.prerelease, &other.prerelease)
        }
    }
}

/// Compares two version texts and returns the sign of the comparison
/// (see `version_order`).
pub fn version_sign(left: &str, right: &str) -> (r: i8)
    ensures
        r == version_order(left@, right@),
{
    match (ParsedVersion::parse(left), ParsedVersion::parse(right)) {
        (Some(l), Some(r)) => l.order(&r),
        _ => lex_bytes(left.as_bytes(), right.as_bytes()),
    }
}

/// The ordering a comparison sign stands for.
pub open spec fn ordering_of(sign: int) -> Ordering {
    if sign < 0 {
        Ordering::Less
    } else if sign > 0 {
        Ordering::Greater
    } else {
        Ordering::Equal
    }
}

/// An ordering seen the other way round.
pub open spec fn reversed(o: Ordering) -> Ordering {
    match o {
        Ordering::Less => Ordering::Greater,
        Ordering::Equal => Ordering::Equal,
        Ordering::Greater => Ordering::Less,
    }
}

/// Swapping the texts reverses what `compare_versions` gives, and a text compares equal to
/// itself.
pub proof fn law_compare_versions_reverses(a: Seq<char>, b: Seq<char>)
    ensures
        ordering_of(version_order(a, b)) == reversed(ordering_of(version_order(b, a))),
        ordering_of(version_order(a, a)) == Ordering::Equal,
{
    law_version_order_antisymmetric(a, b);
}

/// Compares two version texts: numerically by core components, then by pre-release
/// identifiers; as plain text when either does not parse.
pub fn compare_versions(left: &str, right: &str) -> (r: Ordering)
    ensures
        r == ordering_of(version_order(left@, right@)),
{
    let sign = version_sign(left, right);
    if sign < 0 {
        Ordering::Less
    } else if sign > 0 {
        Ordering::Greater
    } else {
        Ordering::Equal
    }
}

/// Whether `candidate` is a newer version than `current`.
pub fn version_is_newer(candidate: &str, current: &str) -> (r: bool)
    ensures
        r == is_newer(candidate@, current@),
{
    version_sign(candidate, current) == 1
}

proof fn lemma_lex_antisymmetric(a: Seq<u8>, b: Seq<u8>, i: int)
    ensures
        lex_from(a, b, i) == -lex_from(b, a, i),
        lex_from(a, a, i) == 0,
    decreases a.len() + b.len() - 2 * i,
{
    if i >= 0 && i < a.len() && i < b.len() && a[i] == b[i] {
        lemma_lex_antisymmetric(a, b, i + 1);
    }
    lemma_lex_reflexive(a, i);
}

proof fn lemma_lex_reflexive(a: Seq<u8>, i: int)
    ensures
        lex_from(a, a, i) == 0,
    decreases a.len() - i,
{
    if i >= 0 && i < a.len() {
        lemma_lex_reflexive(a, i + 1);
    }
}

proof fn lemma_components_antisymmetric(a: Seq<u64>, b: Seq<u64>, i: int)
    ensures
        components_from(a, b, i) == -components_from(b, a, i),
        components_from(a, a, i) == 0,
    decreases (if a.len() > b.len() { a.len() } else { b.len() }) - i,
{
    if !(i < 0 || (i >= a.len() && i >= b.len())) {
        lemma_components_antisymmetric(a, b, i + 1);
    }
    if !(i < 0 || i >= a.len()) {
        lemma_components_antisymmetric(a, a, i + 1);
    }
}

proof fn lemma_identifier_antisymmetric(a: Seq<char>, b: Seq<char>)
    ensures
        identifier_order(a, b) == -identifier_order(b, a),
        identifier_order(a, a) == 0,
{
    lemma_lex_antisymmetric(crate::text::utf8_of(a), crate::text::utf8_of(b), 0);
    lemma_lex_antisymmetric(crate::text::utf8_of(a), crate::text::utf8_of(a), 0);
}

proof fn lemma_identifiers_antisymmetric(a: Seq<Seq<char>>, b: Seq<Seq<char>>, i: int)
    ensures
        identifiers_from(a, b, i) == -identifiers_from(b, a, i),
        identifiers_from(a, a, i) == 0,
    decreases a.len() + b.len() - 2 * i,
{
    if i >= 0 && i < a.len() && i < b.len() {
        lemma_identifier_antisymmetric(a[i], b[i]);
        lemma_identifiers_antisymmetric(a, b, i + 1);
    }
    lemma_identifiers_reflexive(a, i);
}

proof fn lemma_identifiers_reflexive(a: Seq<Seq<char>>, i: int)
    ensures
        identifiers_from(a, a, i) == 0,
    decreases a.len() - i,
{
    if i >= 0 && i < a.len() {
        lemma_identifier_antisymmetric(a[i], a[i]);
        lemma_identifiers_reflexive(a, i + 1);
    }
}

proof fn lemma_lex_transitive(a: Seq<u8>, b: Seq<u8>, c: Seq<u8>, i: int)
    requires
        0 <= i,
        lex_from(a, b, i) <= 0,
        lex_from(b, c, i) <= 0,
    ensures
        lex_from(a, c, i) <= 0,
    decreases a.len() + b.len() + c.len() - 3 * i,
{
    if i < a.len() && i < b.len() && i < c.len() && a[i] == b[i] && b[i] == c[i] {
        lemma_lex_transitive(a, b, c, i + 1);
    }
}

/// Largest of three lengths.
spec fn longest(a: Seq<u64>, b: Seq<u64>, c: Seq<u64>) -> int {
    let ab = if a.len() > b.len() {
        a.len()
    } else {
        b.len()
    };
    if ab > c.len() {
        ab as int
    } else {
        c.len() as int
    }
}

proof fn lemma_components_past_both(a: Seq<u64>, b: Seq<u64>, c: Seq<u64>, i: int)
    requires
        0 <= i,
        i >= a.len(),
        i >= b.len(),
    ensures
        components_from(a, c, i) == components_from(b, c, i),
        components_from(c, a, i) == components_from(c, b, i),
    decreases c.len() - i,
{
    if i < c.len() {
        lemma_components_past_both(a, b, c, i + 1);
    }
}

proof fn lemma_components_transitive(a: Seq<u64>, b: Seq<u64>, c: Seq<u64>, i: int)
    requires
        0 <= i,
        components_from(a, b, i) <= 0,
        components_from(b, c, i) <= 0,
    ensures
        components_from(a, c, i) <= 0,
    decreases longest(a, b, c) - i,
{
    if i >= a.len() && i >= c.len() {
    } else if i >= a.len() && i >= b.len() {
        lemma_components_past_both(a, b, c, i);
    } else if i >= b.len() && i >= c.len() {
        lemma_components_past_both(b, c, a, i);
    } else if component_at(a, i) == component_at(b, i) && component_at(b, i) == component_at(
        c,
        i,
    ) {
        lemma_components_transitive(a, b, c, i + 1);
    }
}

proof fn lemma_components_strict(a: Seq<u64>, b: Seq<u64>, c: Seq<u64>)
    requires
        components_from(a, b, 0) <= 0,
        components_from(b, c, 0) <= 0,
        components_from(a, b, 0) < 0 || components_from(b, c, 0) < 0,
    ensures
        components_from(a, c, 0) < 0,
{
    lemma_components_transitive(a, b, c, 0);
    lemma_components_antisymmetric(a, c, 0);
    lemma_components_antisymmetric(a, b, 0);
    lemma_components_antisymmetric(b, c, 0);
    if components_from(a, c, 0) == 0 {
        if components_from(a, b, 0) < 0 {
            lemma_components_transitive(b, c, a, 0);
        } else {
            lemma_components_transitive(c, a, b, 0);
        }
    }
}

proof fn lemma_identifier_transitive(a: Seq<char>, b: Seq<char>, c: Seq<char>)
    requires
        identifier_order(a, b) <= 0,
        identifier_order(b, c) <= 0,
    ensures
        identifier_order(a, c) <= 0,
        (identifier_order(a, b) < 0 || identifier_order(b, c) < 0) ==> identifier_order(a, c) < 0,
{
    let (ua, ub, uc) = (crate::text::utf8_of(a), crate::text::utf8_of(b), crate::text::utf8_of(c));
    lemma_identifier_antisymmetric(a, b);
    lemma_identifier_antisymmetric(b, c);
    lemma_identifier_antisymmetric(a, c);
    if parse_u64_spec(a) is None && parse_u64_spec(b) is None && parse_u64_spec(c) is None {
        lemma_lex_transitive(ua, ub, uc, 0);
        if lex_from(ua, uc, 0) == 0 {
            lemma_lex_antisymmetric(ua, uc, 0);
            lemma_lex_antisymmetric(ua, ub, 0);
            lemma_lex_antisymmetric(ub, uc, 0);
            if lex_from(ua, ub, 0) < 0 {
                lemma_lex_transitive(ub, uc, ua, 0);
            } else if lex_from(ub, uc, 0) < 0 {
                lemma_lex_transitive(uc, ua, ub, 0);
            }
        }
    }
}

proof fn lemma_identifiers_transitive(
    a: Seq<Seq<char>>,
    b: Seq<Seq<char>>,
    c: Seq<Seq<char>>,
    i: int,
)
    requires
        0 <= i,
        identifiers_from(a, b, i) <= 0,
        identifiers_from(b, c, i) <= 0,
    ensures
        identifiers_from(a, c, i) <= 0,
    decreases a.len() + b.len() + c.len() - 3 * i,
{
    if i < a.len() && i < b.len() && i < c.len() {
        lemma_identifier_transitive(a[i], b[i], c[i]);
        if identifier_order(a[i], b[i]) == 0 && identifier_order(b[i], c[i]) == 0 {
            lemma_identifiers_transitive(a, b, c, i + 1);
        }
    }
}

proof fn lemma_prerelease_transitive(
    a: Option<Seq<Seq<char>>>,
    b: Option<Seq<Seq<char>>>,
    c: Option<Seq<Seq<char>>>,
)
    requires
        prerelease_order(a, b) <= 0,
        prerelease_order(b, c) <= 0,
    ensures
        prerelease_order(a, c) <= 0,
{
    if let (Some(x), Some(y), Some(z)) = (a, b, c) {
        lemma_identifiers_transitive(x, y, z, 0);
    }
}

proof fn lemma_model_transitive(a: VersionModel, b: VersionModel, c: VersionModel)
    requires
        model_order(a, b) <= 0,
        model_order(b, c) <= 0,
    ensures
        model_order(a, c) <= 0,
{
    let (x, y, z) = (a.components, b.components, c.components);
    lemma_components_antisymmetric(x, y, 0);
    lemma_components_antisymmetric(y, z, 0);
    lemma_components_antisymmetric(x, z, 0);
    lemma_components_transitive(x, y, z, 0);
    if components_from(x, y, 0) < 0 || components_from(y, z, 0) < 0 {
        lemma_components_strict(x, y, z);
    } else {
        lemma_components_transitive(z, y, x, 0);
        lemma_prerelease_transitive(a.prerelease, b.prerelease, c.prerelease);
    }
}

/// Version order is transitive among texts that all parse as versions, and among texts of
/// which none parses: if `a` is not above `b` and `b` is not above `c`, then `a` is not
/// above `c`. (Mixing parsed and unparsed texts compares some pairs as versions and others
/// as plain text, which need not be transitive.)
pub proof fn law_version_order_transitive(a: Seq<char>, b: Seq<char>, c: Seq<char>)
    requires
        (parse_version_spec(a) is Some && parse_version_spec(b) is Some
            && parse_version_spec(c) is Some) || (parse_version_spec(a) is None
            && parse_version_spec(b) is None && parse_version_spec(c) is None),
        version_order(a, b) <= 0,
        version_order(b, c) <= 0,
    ensures
        version_order(a, c) <= 0,
{
    if let (Some(x), Some(y), Some(z)) = (
        parse_version_spec(a),
        parse_version_spec(b),
        parse_version_spec(c),
    ) {
        lemma_model_transitive(x, y, z);
    } else {
        lemma_lex_transitive(
            crate::text::utf8_of(a),
            crate::text::utf8_of(b),
            crate::text::utf8_of(c),
            0,
        );
    }
}

proof fn lemma_lex_is_sign(a: Seq<u8>, b: Seq<u8>, i: int)
    ensures
        -1 <= lex_from(a, b, i) <= 1,
    decreases a.len() + b.len() - 2 * i,
{
    if i >= 0 && i < a.len() && i < b.len() && a[i] == b[i] {
        lemma_lex_is_sign(a, b, i + 1);
    }
}

proof fn lemma_components_is_sign(a: Seq<u64>, b: Seq<u64>, i: int)
    ensures
        -1 <= components_from(a, b, i) <= 1,
    decreases (if a.len() > b.len() { a.len() } else { b.len() }) - i,
{
    if !(i < 0 || (i >= a.len() && i >= b.len())) && component_at(a, i) == component_at(b, i) {
        lemma_components_is_sign(a, b, i + 1);
    }
}

proof fn lemma_identifiers_is_sign(a: Seq<Seq<char>>, b: Seq<Seq<char>>, i: int)
    ensures
        -1 <= identifiers_from(a, b, i) <= 1,
    decreases a.len() + b.len() - 2 * i,
{
    if i >= 0 && i < a.len() && i < b.len() {
        lemma_lex_is_sign(crate::text::utf8_of(a[i]), crate::text::utf8_of(b[i]), 0);
        lemma_identifiers_is_sign(a, b, i + 1);
    }
}

/// Comparing two version texts always gives -1, 0 or 1.
pub proof fn law_version_order_is_a_sign(a: Seq<char>, b: Seq<char>)
    ensures
        version_order(a, b) == -1 || version_order(a, b) == 0 || version_order(a, b) == 1,
{
    lemma_lex_is_sign(crate::text::utf8_of(a), crate::text::utf8_of(b), 0);
    if let (Some(x), Some(y)) = (parse_version_spec(a), parse_version_spec(b)) {
        lemma_components_is_sign(x.components, y.components, 0);
        if let (Some(p), Some(q)) = (x.prerelease, y.prerelease) {
            lemma_identifiers_is_sign(p, q, 0);
        }
    }
}

/// When either text does not parse as a version, the two compare as plain text: byte by
/// byte in UTF-8, a proper prefix first, as `str` ordering does.
pub proof fn law_unparsed_versions_compare_as_text(a: Seq<char>, b: Seq<char>)
    requires
        parse_version_spec(a) is None || parse_version_spec(b) is None,
    ensures
        version_order(a, b) == lex_from(crate::text::utf8_of(a), crate::text::utf8_of(b), 0),
{
}

proof fn lemma_first_index_at(s: Seq<char>, c: char, from: int, k: int)
    requires
        0 <= from <= k < s.len(),
        s[k] == c,
        forall|j: int| from <= j < k ==> s[j] != c,
    ensures
        first_index_from(s, c, from) == k,
    decreases k - from,
{
    if from < k {
        lemma_first_index_at(s, c, from + 1, k);
    }
}

proof fn lemma_first_index_absent(s: Seq<char>, c: char, from: int)
    requires
        0 <= from,
        forall|j: int| from <= j < s.len() ==> s[j] != c,
    ensures
        first_index_from(s, c, from) == s.len(),
    decreases s.len() - from,
{
    if from < s.len() {
        lemma_first_index_absent(s, c, from + 1);
    }
}

/// The part of a text before its first `+`: what is left once build metadata is cut off.
pub open spec fn before_build(s: Seq<char>) -> Seq<char> {
    s.take(first_index_from(s, '+', 0))
}

proof fn lemma_first_index_props(s: Seq<char>, c: char, from: int)
    requires
        0 <= from <= s.len(),
    ensures
        from <= first_index_from(s, c, from) <= s.len(),
        first_index_from(s, c, from) < s.len() ==> s[first_index_from(s, c, from)] == c,
        forall|j: int| from <= j < first_index_from(s, c, from) ==> s[j] != c,
    decreases s.len() - from,
{
    if from < s.len() && s[from] != c {
        lemma_first_index_props(s, c, from + 1);
    }
}

/// Past a first character that is not `c`, the first `c` is one further on than in the rest.
proof fn lemma_first_index_after_first(s: Seq<char>, c: char)
    requires
        s.len() > 0,
        s[0] != c,
    ensures
        first_index_from(s, c, 0) == 1 + first_index_from(s.drop_first(), c, 0),
{
    let s1 = s.drop_first();
    lemma_first_index_props(s1, c, 0);
    let k = first_index_from(s1, c, 0);
    if k < s1.len() {
        assert forall|j: int| 0 <= j < k + 1 implies s[j] != c by {
            if j > 0 {
                assert(s[j] == s1[j - 1]);
            }
        }
        lemma_first_index_at(s, c, 0, k + 1);
    } else {
        assert forall|j: int| 0 <= j < s.len() implies s[j] != c by {
            if j > 0 {
                assert(s[j] == s1[j - 1]);
            }
        }
        lemma_first_index_absent(s, c, 0);
    }
}

/// Text that follows a `+` does not move the first `+`.
proof fn lemma_first_index_before_plus(p: Seq<char>, q: Seq<char>)
    requires
        q.len() > 0,
        q[0] == '+',
    ensures
        first_index_from(p + q, '+', 0) == first_index_from(p, '+', 0),
{
    lemma_first_index_props(p, '+', 0);
    let k = first_index_from(p, '+', 0);
    let pq = p + q;
    assert forall|j: int| 0 <= j < k implies pq[j] != '+' by {
        assert(pq[j] == p[j]);
    }
    if k < p.len() {
        assert(pq[k] == p[k]);
    } else {
        assert(pq[k] == q[0]);
    }
    lemma_first_index_at(pq, '+', 0, k);
}

/// Cutting off build metadata and stripping leading `v`s can be done in either order.
proof fn lemma_strip_v_then_cut(s: Seq<char>)
    ensures
        before_build(strip_leading(s, 'v')) == strip_leading(before_build(s), 'v'),
    decreases s.len(),
{
    if s.len() == 0 {
        assert(before_build(s) =~= s);
    } else if s[0] == 'v' {
        let s1 = s.drop_first();
        lemma_strip_v_then_cut(s1);
        lemma_first_index_after_first(s, '+');
        lemma_first_index_props(s1, '+', 0);
        let b = before_build(s);
        assert(b[0] == 'v');
        assert(b.drop_first() =~= before_build(s1));
    } else {
        lemma_first_index_props(s, '+', 0);
        let b = before_build(s);
        if b.len() > 0 {
            assert(b[0] == s[0]);
        }
    }
}

/// Each character of the text is a `v`.
pub open spec fn all_v(vs: Seq<char>) -> bool {
    forall|i: int| 0 <= i < vs.len() ==> #[trigger] vs[i] == 'v'
}

proof fn lemma_strip_v_prefix(vs: Seq<char>, y: Seq<char>)
    requires
        all_v(vs),
    ensures
        strip_leading(vs + y, 'v') == strip_leading(y, 'v'),
    decreases vs.len(),
{
    if vs.len() == 0 {
        assert(vs + y =~= y);
    } else {
        let rest = vs.drop_first();
        assert((vs + y)[0] == 'v');
        assert((vs + y).drop_first() =~= rest + y);
        assert(all_v(rest)) by {
            assert forall|i: int| 0 <= i < rest.len() implies #[trigger] rest[i] == 'v' by {
                assert(rest[i] == vs[i + 1]);
            }
        }
        lemma_strip_v_prefix(rest, y);
    }
}

proof fn lemma_before_build_v_prefix(vs: Seq<char>, y: Seq<char>)
    requires
        all_v(vs),
    ensures
        before_build(vs + y) == vs + before_build(y),
{
    let s = vs + y;
    lemma_first_index_props(y, '+', 0);
    let k = first_index_from(y, '+', 0);
    assert forall|j: int| 0 <= j < vs.len() + k implies s[j] != '+' by {
        if j < vs.len() {
            assert(s[j] == vs[j]);
        } else {
            assert(s[j] == y[j - vs.len()]);
        }
    }
    if k < y.len() {
        assert(s[vs.len() + k] == y[k]);
        lemma_first_index_at(s, '+', 0, vs.len() + k);
    } else {
        lemma_first_index_absent(s, '+', 0);
    }
    assert(s.take(vs.len() + k) =~= vs + y.take(k));
}

/// Surrounding whitespace and leading `v`s do not change how a version parses:
/// `ws + vs + core + ws2`, with `vs` made of `v`s only (or empty), parses as `core` does, for
/// any core that neither starts nor ends with whitespace (whitespace there would stay inside
/// the text). So it compares with any parsed version as `core` does.
pub proof fn law_whitespace_and_v_prefix_ignored(
    ws: Seq<char>,
    vs: Seq<char>,
    core: Seq<char>,
    ws2: Seq<char>,
    other: Seq<char>,
)
    requires
        crate::text::is_blank(ws),
        all_v(vs),
        core.len() > 0 ==> !crate::text::is_whitespace(core[0]),
        core.len() > 0 ==> !crate::text::is_whitespace(core.last()),
        crate::text::is_blank(ws2),
    ensures
        parse_version_spec(ws + vs + core + ws2) == parse_version_spec(core),
        parse_version_spec(core) is Some && parse_version_spec(other) is Some ==> version_order(
            ws + vs + core + ws2,
            other,
        ) == version_order(core, other),
{
    let vc = vs + core;
    let x = vc + ws2;
    let w = ws + x;
    assert(w == ws + vs + core + ws2);
    assert forall|j: int| 0 <= j < ws.len() implies crate::text::is_whitespace(#[trigger] w[j]) by {
        assert(w[j] == ws[j]);
    }
    crate::text::lemma_trim_start_skip(w, ws.len() as int);
    assert(w.subrange(ws.len() as int, w.len() as int) =~= x);
    assert(crate::text::trim_start(core) == core);
    assert(crate::text::trim_end(core) == core);
    lemma_strip_v_prefix(vs, core);
    if vc.len() == 0 {
        assert(x =~= ws2);
        assert forall|j: int| 0 <= j < x.len() implies crate::text::is_whitespace(#[trigger] x[j]) by {
            assert(x[j] == ws2[j]);
        }
        crate::text::lemma_trim_start_skip(x, x.len() as int);
        assert(x.subrange(x.len() as int, x.len() as int) =~= Seq::<char>::empty());
        assert(core =~= Seq::<char>::empty());
        assert(vs =~= Seq::<char>::empty());
    } else {
        if vs.len() > 0 {
            assert(x[0] == vs[0]);
        } else {
            assert(x[0] == core[0]);
        }
        assert(crate::text::trim_start(x) == x);
        assert forall|j: int| vc.len() <= j < x.len() implies crate::text::is_whitespace(
            #[trigger] x[j],
        ) by {
            assert(x[j] == ws2[j - vc.len()]);
        }
        crate::text::lemma_trim_end_take(x, vc.len() as int);
        assert(x.subrange(0, vc.len() as int) =~= vc);
        if core.len() > 0 {
            assert(vc.last() == core.last());
        } else {
            assert(vc.last() == vs.last());
        }
        assert(crate::text::trim_end(vc) == vc);
    }
}

/// Leading whitespace, leading `v`s and build metadata after `+` do not change how a version
/// parses: `ws + vs + core + "+" + meta`, with `vs` made of `v`s only (or empty), parses as
/// `core` does, for any core that neither starts nor ends with whitespace (whitespace there
/// would stay inside the text). So it compares with any parsed version as `core` does.
pub proof fn law_prefix_and_build_metadata_ignored(
    ws: Seq<char>,
    vs: Seq<char>,
    core: Seq<char>,
    meta: Seq<char>,
    other: Seq<char>,
)
    requires
        crate::text::is_blank(ws),
        all_v(vs),
        core.len() > 0 ==> !crate::text::is_whitespace(core[0]),
        core.len() > 0 ==> !crate::text::is_whitespace(core.last()),
    ensures
        parse_version_spec(ws + vs + core + "+"@ + meta) == parse_version_spec(core),
        parse_version_spec(core) is Some && parse_version_spec(other) is Some ==> version_order(
            ws + vs + core + "+"@ + meta,
            other,
        ) == version_order(core, other),
{
    reveal_strlit("+");
    let vc = vs + core;
    let x = vc + "+"@ + meta;
    let w = ws + x;
    assert(w == ws + vs + core + "+"@ + meta);
    // Leading whitespace goes, and nothing more of `x`, which starts with `v`, the core or `+`.
    assert forall|j: int| 0 <= j < ws.len() implies crate::text::is_whitespace(#[trigger] w[j]) by {
        assert(w[j] == ws[j]);
    }
    crate::text::lemma_trim_start_skip(w, ws.len() as int);
    assert(w.subrange(ws.len() as int, w.len() as int) =~= x);
    if vs.len() > 0 {
        assert(x[0] == vs[0]);
    } else if core.len() > 0 {
        assert(x[0] == core[0]);
    } else {
        assert(x[0] == '+');
    }
    assert(crate::text::trim_start(x) == x);
    // Trailing whitespace can only come from the metadata: `+` stays.
    let plus: int = vc.len() as int;
    assert(x[plus] == '+');
    crate::text::lemma_trim_end_shape(x);
    let t = crate::text::trim(w);
    assert(t == crate::text::trim_end(x));
    assert(plus < t.len());
    assert(t == x.take(t.len() as int));
    // Cut at the first `+`: what is left of `t` is the `v`s and the core cut at its first `+`.
    let rest = t.skip(plus);
    assert(rest[0] == '+');
    assert(t =~= vc + rest);
    lemma_first_index_before_plus(vc, rest);
    lemma_first_index_props(vc, '+', 0);
    let k = first_index_from(vc, '+', 0);
    assert(t.take(k) =~= vc.take(k));
    assert(before_build(t) == before_build(vc));
    let bc = before_build(core);
    lemma_before_build_v_prefix(vs, core);
    // Stripping the leading `v`s of that gives what the core gives.
    lemma_strip_v_then_cut(t);
    lemma_strip_v_prefix(vs, bc);
    assert(before_build(strip_leading(t, 'v')) == strip_leading(bc, 'v'));
    // The core needs no trimming.
    assert(crate::text::trim_start(core) == core);
    assert(crate::text::trim_end(core) == core);
    assert(crate::text::trim(core) == core);
    lemma_strip_v_then_cut(core);
    assert(before_build(strip_leading(core, 'v')) == strip_leading(bc, 'v'));
}

/// Comparing versions the other way round gives the opposite result, and a version compares
/// equal to itself.
pub proof fn law_version_order_antisymmetric(a: Seq<char>, b: Seq<char>)
    ensures
        version_order(a, b) == -version_order(b, a),
        version_order(a, a) == 0,
{
    lemma_lex_antisymmetric(crate::text::utf8_of(a), crate::text::utf8_of(b), 0);
    lemma_lex_antisymmetric(crate::text::utf8_of(a), crate::text::utf8_of(a), 0);
    if let (Some(x), Some(y)) = (parse_version_spec(a), parse_version_spec(b)) {
        lemma_components_antisymmetric(x.components, y.components, 0);
        if let (Some(p), Some(q)) = (x.prerelease, y.prerelease) {
            lemma_identifiers_antisymmetric(p, q, 0);
        }
    }
    if let Some(x) = parse_version_spec(a) {
        lemma_components_antisymmetric(x.components, x.components, 0);
        if let Some(p) = x.prerelease {
            lemma_identifiers_antisymmetric(p, p, 0);
        }
    }
}

/// A version is never newer than itself, and of two versions at most one is newer than the
/// other.
pub proof fn law_newer_is_asymmetric(a: Seq<char>, b: Seq<char>)
    ensures
        !is_newer(a, a),
        is_newer(a, b) ==> !is_newer(b, a),
{
    law_version_order_antisymmetric(a, b);
}

} // verus!
