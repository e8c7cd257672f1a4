//! Checks on downloaded releases: checksum files, SHA-256 digests, archive listings, and the
//! report of an update check.
use vstd::prelude::*;

use sha2::Digest;

use crate::paths::{file_name_of, path_file_name};
use crate::text::{
    chars_of, char_is_whitespace, concat2, concat3, contains_text, digit_char, has_prefix,
    has_suffix, is_whitespace, opt_text, push_char, str_eq, string_from_chars, string_from_range,
    text_contains, text_ends_with, text_starts_with, texts_of, trim_start,
};
use crate::update::{BINARY_NAME, UpdateCheck, UpdateError};
use crate::version::{pieces_view, split_on, split_range, strip_leading};

verus! {

/// Index of the first whitespace character at or after `from`, or the length.
pub open spec fn first_ws_from(s: Seq<char>, from: int) -> int
    decreases s.len() - from,
{
    if from < 0 || from >= s.len() {
        s.len() as int
    } else if is_whitespace(s[from]) {
        from
    } else {
        first_ws_from(s, from + 1)
    }
}

/// The first whitespace-separated field of a text (empty for a blank text).
pub open spec fn first_field(s: Seq<char>) -> Seq<char> {
    let t = trim_start(s);
    t.take(first_ws_from(t, 0))
}

/// The text after the first field.
pub open spec fn after_first_field(s: Seq<char>) -> Seq<char> {
    let t = trim_start(s);
    t.skip(first_ws_from(t, 0))
}

/// The second whitespace-separated field of a text, if any.
pub open spec fn second_field(s: Seq<char>) -> Option<Seq<char>> {
    let r = trim_start(after_first_field(s));
    if r.len() > 0 {
        Some(r.take(first_ws_from(r, 0)))
    } else {
        None
    }
}

/// ASCII hexadecimal digit.
pub open spec fn is_hex_digit(c: char) -> bool {
    ('0' <= c && c <= '9') || ('a' <= c && c <= 'f') || ('A' <= c && c <= 'F')
}

/// ASCII lower-casing of one character.
pub open spec fn ascii_lower(c: char) -> char {
    if 'A' <= c && c <= 'Z' {
        ((c as int) + 32) as char
    } else {
        c
    }
}

/// A SHA-256 hex digest: 64 hexadecimal digits.
pub open spec fn is_sha256_hex(s: Seq<char>) -> bool {
    s.len() == 64 && forall|i: int| 0 <= i < s.len() ==> is_hex_digit(#[trigger] s[i])
}

/// What a checksum file gives for an archive: the digest in lower case, or the reason the
/// file is refused. The file is `<sha256>` optionally followed by the archive path (a
/// leading `*` marks binary mode); the path's file name must be the archive name.
pub open spec fn checksum_outcome(contents: Seq<char>, archive_name: Seq<char>) -> Result<
    Seq<char>,
    Seq<char>,
> {
    let hash = first_field(contents);
    if hash.len() == 0 {
        Err("checksum file was empty"@)
    } else if !is_sha256_hex(hash) {
        Err("checksum file did not start with a SHA256 hex digest"@)
    } else {
        match second_field(contents) {
            Some(p) => {
                let path = strip_leading(p, '*');
                if file_name_of(path) == Some(archive_name) {
                    Ok(hash.map_values(|c: char| ascii_lower(c)))
                } else {
                    Err("checksum file referenced unexpected archive `"@ + path + "`"@)
                }
            },
            None => Ok(hash.map_values(|c: char| ascii_lower(c))),
        }
    }
}

fn skip_ws(chars: &Vec<char>, from: usize) -> (r: usize)
    requires
        from <= chars.len(),
    ensures
        from <= r <= chars.len(),
        trim_start(chars@.subrange(from as int, chars@.len() as int)) == chars@.subrange(
            r as int,
            chars@.len() as int,
        ),
        r < chars.len() ==> !is_whitespace(chars@[r as int]),
{
    let ghost s = chars@.subrange(from as int, chars@.len() as int);
    let mut i = from;
    while i < chars.len() && char_is_whitespace(chars[i])
        invariant
            from <= i <= chars.len(),
            s == chars@.subrange(from as int, chars@.len() as int),
            forall|k: int| 0 <= k < i - from ==> is_whitespace(#[trigger] s[k]),
        decreases chars.len() - i,
    {
        assert(s[i - from] == chars@[i as int]);
        i = i + 1;
    }
    proof {
        crate::text::lemma_trim_start_skip(s, i - from);
        assert(s.subrange(i - from, s.len() as int) =~= chars@.subrange(i as int, chars@.len() as int));
        let t = chars@.subrange(i as int, chars@.len() as int);
        if i < chars.len() {
            assert(t[0] == chars@[i as int]);
        }
        assert(trim_start(t) == t);
    }
    i
}

fn scan_field(chars: &Vec<char>, from: usize) -> (r: usize)
    requires
        from <= chars.len(),
    ensures
        from <= r <= chars.len(),
        r - from == first_ws_from(chars@.subrange(from as int, chars@.len() as int), 0),
{
    let ghost s = chars@.subrange(from as int, chars@.len() as int);
    let mut i = from;
    while i < chars.len() && !char_is_whitespace(chars[i])
        invariant
            from <= i <= chars.len(),
            s == chars@.subrange(from as int, chars@.len() as int),
            first_ws_from(s, 0) == first_ws_from(s, i - from),
        decreases chars.len() - i,
    {
        assert(s[i - from] == chars@[i as int]);
        i = i + 1;
    }
    proof {
        if i < chars.len() {
            assert(s[i - from] == chars@[i as int]);
        }
    }
    i
}

fn hex_char_check(c: char) -> (r: bool)
    ensures
        r == is_hex_digit(c),
{
    ('0' <= c && c <= '9') || ('a' <= c && c <= 'f') || ('A' <= c && c <= 'F')
}

fn lower_char(c: char) -> (r: char)
    ensures
        r == ascii_lower(c),
{
    if 'A' <= c && c <= 'Z' {
        let b: u8 = (c as u32) as u8;
        (b + 32) as char
    } else {
        c
    }
}

/// Parses a checksum file for an archive (see `checksum_outcome`).
pub fn parse_checksum(contents: &str, archive_name: &str) -> (r: Result<String, UpdateError>)
    ensures
        checksum_outcome(contents@, archive_name@) matches Ok(h) ==> r matches Ok(x) && x@ == h,
        checksum_outcome(contents@, archive_name@) matches Err(m) ==> (r matches Err(
            UpdateError::InvalidChecksum { message },
        ) && message@ == m),
{
    let chars = chars_of(contents);
    let n = chars.len();
    proof {
        assert(chars@.subrange(0, n as int) =~= chars@);
    }
    let a = skip_ws(&chars, 0);
    let b = scan_field(&chars, a);
    let ghost t = trim_start(contents@);
    proof {
        assert(t == chars@.subrange(a as int, n as int));
        assert(first_field(contents@) =~= chars@.subrange(a as int, b as int));
        assert(after_first_field(contents@) =~= chars@.subrange(b as int, n as int));
    }
    if a == b {
        return Err(
            UpdateError::InvalidChecksum { message: "checksum file was empty".to_owned() },
        );
    }
    let mut valid = b - a == 64;
    let mut i = a;
    while i < b
        invariant
            a <= i <= b <= n == chars.len(),
            valid == (b - a == 64 && forall|k: int| a <= k < i ==> is_hex_digit(#[trigger] chars@[k])),
        decreases b - i,
    {
        if !hex_char_check(chars[i]) {
            valid = false;
        }
        i = i + 1;
    }
    proof {
        let h = chars@.subrange(a as int, b as int);
        if valid {
            assert forall|k: int| 0 <= k < h.len() implies is_hex_digit(#[trigger] h[k]) by {
                assert(h[k] == chars@[a + k]);
            }
        } else if b - a == 64 {
            let k = choose|k: int| a <= k < b && !is_hex_digit(#[trigger] chars@[k]);
            assert(h[k - a] == chars@[k]);
        }
    }
    if !valid {
        return Err(
            UpdateError::InvalidChecksum {
                message: "checksum file did not start with a SHA256 hex digest".to_owned(),
            },
        );
    }
    let mut lower = String::new();
    let mut j = a;
    while j < b
        invariant
            a <= j <= b <= n == chars.len(),
            lower@ == chars@.subrange(a as int, j as int).map_values(|c: char| ascii_lower(c)),
        decreases b - j,
    {
        let c = lower_char(chars[j]);
        push_char(&mut lower, c);
        proof {
            assert(chars@.subrange(a as int, j + 1).map_values(|c: char| ascii_lower(c))
                =~= chars@.subrange(a as int, j as int).map_values(|c: char| ascii_lower(c)).push(c));
        }
        j = j + 1;
    }
    let c = skip_ws(&chars, b);
    proof {
        assert(trim_start(after_first_field(contents@)) == chars@.subrange(c as int, n as int));
    }
    if c == n {
        return Ok(lower);
    }
    let d = scan_field(&chars, c);
    proof {
        let r = chars@.subrange(c as int, n as int);
        assert(r.take(first_ws_from(r, 0)) =~= chars@.subrange(c as int, d as int));
    }
    let mut p = c;
    while p < d && chars[p] == '*'
        invariant
            c <= p <= d <= n == chars.len(),
            strip_leading(chars@.subrange(c as int, d as int), '*') == strip_leading(
                chars@.subrange(p as int, d as int),
                '*',
            ),
        decreases d - p,
    {
        assert(chars@.subrange(p as int, d as int).drop_first() =~= chars@.subrange(p + 1, d as int));
        p = p + 1;
    }
    let path = string_from_range(&chars, p, d);
    proof {
        let pd = chars@.subrange(p as int, d as int);
        if p < d {
            assert(pd[0] == chars@[p as int]);
        }
        assert(strip_leading(pd, '*') == pd);
    }
    let name = path_file_name(path.as_str());
    let matches = match &name {
        Some(nm) => str_eq(nm.as_str(), archive_name),
        None => false,
    };
    if !matches {
        return Err(
            UpdateError::InvalidChecksum {
                message: concat3(
                    "checksum file referenced unexpected archive `",
                    path.as_str(),
                    "`",
                ),
            },
        );
    }
    Ok(lower)
}

/// Lower-case hexadecimal digit of a value below sixteen.
pub open spec fn hex_digit(n: nat) -> char {
    if n < 10 {
        digit_char(n)
    } else {
        (('a' as int) + n - 10) as char
    }
}

/// Lower-case hexadecimal notation of bytes, two digits per byte.
pub open spec fn hex_lower(b: Seq<u8>) -> Seq<char>
    decreases b.len(),
{
    if b.len() == 0 {
        Seq::empty()
    } else {
        hex_lower(b.drop_last()) + seq![hex_digit((b.last() / 16) as nat), hex_digit((b.last() % 16) as nat)]
    }
}

/// SHA-256 digest of bytes, as the `sha2` crate computes it.
pub uninterp spec fn sha256_of(data: Seq<u8>) -> Seq<u8>;

/// Calls `sha2::Sha256::digest`; the contract names its result (the digest bytes), which
/// depends on the input alone, and states its length: 32 bytes, the output size of `Sha256`.
/// The hash algorithm itself is not stated.
#[verifier::external_body]
fn sha256_digest(data: &[u8]) -> (r: Vec<u8>)
    ensures
        r@ == sha256_of(data@),
        r@.len() == 32,
{
    sha2::Sha256::digest(data).to_vec()
}

fn hex_digit_char(n: u8) -> (c: char)
    requires
        n < 16,
    ensures
        c == hex_digit(n as nat),
{
    if n < 10 {
        (n + 48) as char
    } else {
        (n + 87) as char
    }
}

/// Lower-case hexadecimal notation of bytes.
pub fn hex_lower_text(bytes: &[u8]) -> (r: String)
    ensures
        r@ == hex_lower(bytes@),
{
    let mut r = String::new();
    let mut i: usize = 0;
    while i < bytes.len()
        invariant
            i <= bytes.len(),
            r@ == hex_lower(bytes@.take(i as int)),
        decreases bytes.len() - i,
    {
        let b = bytes[i];
        proof {
            assert(bytes@.take(i + 1).drop_last() =~= bytes@.take(i as int));
            assert(bytes@.take(i + 1).last() == b);
        }
        push_char(&mut r, hex_digit_char(b / 16));
        push_char(&mut r, hex_digit_char(b % 16));
        proof {
            assert(r@ =~= hex_lower(bytes@.take(i + 1)));
        }
        i = i + 1;
    }
    proof {
        assert(bytes@.take(bytes@.len() as int) =~= bytes@);
    }
    r
}

proof fn lemma_hex_lower_len(b: Seq<u8>)
    ensures
        hex_lower(b).len() == 2 * b.len(),
    decreases b.len(),
{
    if b.len() > 0 {
        lemma_hex_lower_len(b.drop_last());
    }
}

/// Lower-case hex SHA-256 digest of bytes: 64 hex digits.
pub fn hex_sha256(bytes: &[u8]) -> (r: String)
    ensures
        r@ == hex_lower(sha256_of(bytes@)),
        r@.len() == 64,
{
    let digest = sha256_digest(bytes);
    proof {
        lemma_hex_lower_len(digest@);
    }
    hex_lower_text(digest.as_slice())
}

/// Checks bytes against an expected lower-case hex SHA-256 digest.
pub fn verify_sha256(bytes: &[u8], expected_hash: &str) -> (r: Result<(), UpdateError>)
    ensures
        r is Ok <==> hex_lower(sha256_of(bytes@)) == expected_hash@,
        r matches Err(e) ==> (e matches UpdateError::ChecksumMismatch { expected, actual }
            && expected@ == expected_hash@ && actual@ == hex_lower(sha256_of(bytes@))),
{
    let actual = hex_sha256(bytes);
    if !str_eq(actual.as_str(), expected_hash) {
        return Err(
            UpdateError::ChecksumMismatch { expected: expected_hash.to_owned(), actual },
        );
    }
    Ok(())
}

/// A line without one trailing carriage return.
pub open spec fn strip_cr(line: Seq<char>) -> Seq<char> {
    if line.len() > 0 && line.last() == '\r' {
        line.drop_last()
    } else {
        line
    }
}

/// Each line without one trailing carriage return.
pub open spec fn strip_cr_each(lines: Seq<Seq<char>>) -> Seq<Seq<char>> {
    lines.map_values(|l: Seq<char>| strip_cr(l))
}

/// The lines of a text, as `str::lines` yields them: split at `\n`, each terminated line
/// loses a trailing `\r`, and a final empty piece is not a line.
pub open spec fn lines_of(s: Seq<char>) -> Seq<Seq<char>> {
    let parts = split_on(s, '\n');
    let terminated = strip_cr_each(parts.drop_last());
    if parts.last().len() > 0 {
        terminated.push(parts.last())
    } else {
        terminated
    }
}

fn strip_cr_chars(line: &Vec<char>) -> (r: String)
    ensures
        r@ == strip_cr(line@),
{
    if line.len() > 0 && line[line.len() - 1] == '\r' {
        string_from_range(line, 0, line.len() - 1)
    } else {
        string_from_chars(line)
    }
}

proof fn lemma_split_nonempty_len(s: Seq<char>, sep: char)
    ensures
        split_on(s, sep).len() >= 1,
    decreases s.len(),
{
    if s.len() > 0 {
        lemma_split_nonempty_len(s.drop_last(), sep);
    }
}

/// The lines of a text (see `lines_of`).
pub fn text_lines(text: &str) -> (r: Vec<String>)
    ensures
        texts_of(r@) == lines_of(text@),
{
    let chars = chars_of(text);
    let parts = split_range(&chars, 0, chars.len(), '\n');
    proof {
        assert(chars@.subrange(0, chars@.len() as int) =~= text@);
        lemma_split_nonempty_len(text@, '\n');
    }
    let ghost pv = pieces_view(parts@);
    let mut out: Vec<String> = Vec::new();
    let mut i: usize = 0;
    while i + 1 < parts.len()
        invariant
            pv == pieces_view(parts@),
            pv == split_on(text@, '\n'),
            parts.len() >= 1,
            i < parts.len(),
            texts_of(out@) == strip_cr_each(pv.drop_last().take(i as int)),
        decreases parts.len() - i,
    {
        let ghost prev = out@;
        let line = strip_cr_chars(&parts[i]);
        out.push(line);
        proof {
            assert(pv[i as int] == parts@[i as int]@);
            assert(texts_of(out@) =~= texts_of(prev).push(strip_cr(pv[i as int])));
            assert(pv.drop_last().take(i + 1) =~= pv.drop_last().take(i as int).push(pv[i as int]));
            assert(strip_cr_each(pv.drop_last().take(i + 1)) =~= strip_cr_each(
                pv.drop_last().take(i as int),
            ).push(strip_cr(pv[i as int])));
        }
        i = i + 1;
    }
    proof {
        assert(pv.drop_last().take(i as int) =~= pv.drop_last());
        assert(pv.last() == parts@[i as int]@);
    }
    let last = &parts[i];
    if last.len() > 0 {
        out.push(string_from_chars(last));
        proof {
            assert(texts_of(out@) =~= strip_cr_each(pv.drop_last()).push(pv.last()));
        }
    }
    out
}

/// Whether an archive entry path stays inside the expected directory: not empty, not
/// absolute, with no `..` component, and equal to the directory or below it.
pub open spec fn safe_entry(entry: Seq<char>, expected_dir: Seq<char>) -> bool {
    &&& entry.len() > 0
    &&& !has_prefix(entry, "/"@)
    &&& entry != ".."@
    &&& !has_prefix(entry, "../"@)
    &&& !has_suffix(entry, "/.."@)
    &&& !contains_text(entry, "/../"@)
    &&& (entry == expected_dir || has_prefix(entry, expected_dir + "/"@))
}

/// Whether an archive entry path stays inside the expected directory (see `safe_entry`).
pub fn safe_archive_entry(entry: &str, expected_dir: &str) -> (r: bool)
    ensures
        r == safe_entry(entry@, expected_dir@),
{
    let below = concat2(expected_dir, "/");
    !entry.is_empty() && !text_starts_with(entry, "/") && !str_eq(entry, "..")
        && !text_starts_with(entry, "../") && !text_ends_with(entry, "/..") && !text_contains(
        entry,
        "/../",
    ) && (str_eq(entry, expected_dir) || text_starts_with(entry, below.as_str()))
}

/// Path of the binary inside the archive directory.
pub open spec fn binary_entry_of(expected_dir: Seq<char>) -> Seq<char> {
    expected_dir + "/"@ + BINARY_NAME@
}

/// Index of the first unsafe line at or after `from`, or the number of lines.
pub open spec fn first_unsafe_from(lines: Seq<Seq<char>>, dir: Seq<char>, from: int) -> int
    decreases lines.len() - from,
{
    if from < 0 || from >= lines.len() {
        lines.len() as int
    } else if !safe_entry(lines[from], dir) {
        from
    } else {
        first_unsafe_from(lines, dir, from + 1)
    }
}

/// Index of the first unsafe entry of a listing, or its number of lines.
pub open spec fn first_unsafe_entry(listing: Seq<char>, dir: Seq<char>) -> int {
    first_unsafe_from(lines_of(listing), dir, 0)
}

/// Number of lines equal to a text.
pub open spec fn count_equal(lines: Seq<Seq<char>>, x: Seq<char>) -> nat
    decreases lines.len(),
{
    if lines.len() == 0 {
        0
    } else {
        count_equal(lines.drop_last(), x) + if lines.last() == x {
            1nat
        } else {
            0nat
        }
    }
}

/// Checks the entries of a release archive listing (`tar -tzf` output): every entry must be
/// inside the expected directory, and the binary must be listed exactly once.
pub fn check_archive_entries(listing: &str, expected_dir: &str) -> (r: Result<(), UpdateError>)
    ensures
        first_unsafe_entry(listing@, expected_dir@) < lines_of(listing@).len() ==> (r matches Err(
            UpdateError::UnsafeArchiveEntry { entry },
        ) && entry@ == lines_of(listing@)[first_unsafe_entry(listing@, expected_dir@)]),
        first_unsafe_entry(listing@, expected_dir@) == lines_of(listing@).len() ==> {
            let count = count_equal(lines_of(listing@), binary_entry_of(expected_dir@));
            &&& count == 0 ==> (r matches Err(UpdateError::MissingArchiveBinary { path }) && path@
                == binary_entry_of(expected_dir@))
            &&& count > 1 ==> (r matches Err(UpdateError::DuplicateArchiveBinary { path })
                && path@ == binary_entry_of(expected_dir@))
            &&& count == 1 ==> r is Ok
        },
{
    let lines = text_lines(listing);
    let ghost ls = lines_of(listing@);
    let binary = concat3(expected_dir, "/", BINARY_NAME);
    let mut i: usize = 0;
    while i < lines.len()
        invariant
            i <= lines.len(),
            texts_of(lines@) == ls,
            ls == lines_of(listing@),
            first_unsafe_from(ls, expected_dir@, 0) == first_unsafe_from(ls, expected_dir@, i as int),
        decreases lines.len() - i,
    {
        assert(ls[i as int] == lines@[i as int]@);
        if !safe_archive_entry(lines[i].as_str(), expected_dir) {
            return Err(UpdateError::UnsafeArchiveEntry { entry: lines[i].clone() });
        }
        i = i + 1;
    }
    let mut count: usize = 0;
    let mut j: usize = 0;
    while j < lines.len()
        invariant
            j <= lines.len(),
            texts_of(lines@) == ls,
            ls == lines_of(listing@),
            binary@ == binary_entry_of(expected_dir@),
            count == count_equal(ls.take(j as int), binary@),
            count <= j,
        decreases lines.len() - j,
    {
        proof {
            assert(ls.take(j + 1).drop_last() =~= ls.take(j as int));
            assert(ls[j as int] == lines@[j as int]@);
        }
        if str_eq(lines[j].as_str(), binary.as_str()) {
            count = count + 1;
        }
        j = j + 1;
    }
    proof {
        assert(ls.take(ls.len() as int) =~= ls);
    }
    if count == 0 {
        Err(UpdateError::MissingArchiveBinary { path: binary })
    } else if count > 1 {
        Err(UpdateError::DuplicateArchiveBinary { path: binary })
    } else {
        Ok(())
    }
}

/// Lines of a verbose archive listing that describe the binary entry.
pub open spec fn binary_lines(lines: Seq<Seq<char>>, suffix: Seq<char>) -> Seq<Seq<char>>
    decreases lines.len(),
{
    if lines.len() == 0 {
        Seq::empty()
    } else {
        let rest = binary_lines(lines.drop_last(), suffix);
        if has_suffix(lines.last(), suffix) {
            rest.push(lines.last())
        } else {
            rest
        }
    }
}

/// Checks the verbose listing of a release archive (`tar -tvzf` output): exactly one line
/// describes the binary, and it describes a regular file (its mode starts with `-`).
pub fn check_archive_verbose_listing(listing: &str, expected_dir: &str) -> (r: Result<
    (),
    UpdateError,
>)
    ensures
        ({
            let found = binary_lines(lines_of(listing@), " "@ + binary_entry_of(expected_dir@));
            &&& found.len() != 1 ==> (r matches Err(UpdateError::DuplicateArchiveBinary { path })
                && path@ == binary_entry_of(expected_dir@))
            &&& (found.len() == 1 && !has_prefix(found[0], "-"@)) ==> (r matches Err(
                UpdateError::ArchiveBinaryNotRegular { path },
            ) && path@ == binary_entry_of(expected_dir@))
            &&& (found.len() == 1 && has_prefix(found[0], "-"@)) ==> r is Ok
        }),
{
    let lines = text_lines(listing);
    let ghost ls = lines_of(listing@);
    let binary = concat3(expected_dir, "/", BINARY_NAME);
    let suffix = concat2(" ", binary.as_str());
    let mut found: Vec<usize> = Vec::new();
    let mut j: usize = 0;
    while j < lines.len()
        invariant
            j <= lines.len(),
            texts_of(lines@) == ls,
            ls == lines_of(listing@),
            suffix@ == " "@ + binary_entry_of(expected_dir@),
            found@.len() == binary_lines(ls.take(j as int), suffix@).len(),
            forall|k: int|
                0 <= k < found@.len() ==> found@[k] < lines.len() && binary_lines(
                    ls.take(j as int),
                    suffix@,
                )[k] == ls[found@[k] as int],
        decreases lines.len() - j,
    {
        let ghost before = binary_lines(ls.take(j as int), suffix@);
        let ghost found_before = found@;
        proof {
            assert(ls.take(j + 1).drop_last() =~= ls.take(j as int));
            assert(ls[j as int] == lines@[j as int]@);
            assert(ls.take(j + 1).last() == ls[j as int]);
        }
        if text_ends_with(lines[j].as_str(), suffix.as_str()) {
            found.push(j);
            proof {
                assert(binary_lines(ls.take(j + 1), suffix@) == before.push(ls[j as int]));
                assert forall|k: int| 0 <= k < found@.len() implies found@[k] < lines.len()
                    && binary_lines(ls.take(j + 1), suffix@)[k] == ls[found@[k] as int] by {
                    if k < found_before.len() {
                        assert(found@[k] == found_before[k]);
                        assert(before[k] == ls[found_before[k] as int]);
                    } else {
                        assert(found@[k] == j);
                    }
                }
            }
        } else {
            proof {
                assert(binary_lines(ls.take(j + 1), suffix@) == before);
                assert forall|k: int| 0 <= k < found@.len() implies found@[k] < lines.len()
                    && binary_lines(ls.take(j + 1), suffix@)[k] == ls[found@[k] as int] by {
                    assert(before[k] == ls[found@[k] as int]);
                }
            }
        }
        j = j + 1;
    }
    proof {
        assert(ls.take(ls.len() as int) =~= ls);
    }
    if found.len() != 1 {
        return Err(UpdateError::DuplicateArchiveBinary { path: binary });
    }
    let k = found[0];
    proof {
        assert(binary_lines(ls.take(j as int), suffix@)[0] == ls[found@[0] as int]);
        assert(ls[k as int] == lines@[k as int]@);
    }
    if !text_starts_with(lines[k].as_str(), "-") {
        return Err(UpdateError::ArchiveBinaryNotRegular { path: binary });
    }
    Ok(())
}

/// Text of the report of an update check.
pub open spec fn check_report_text(check: UpdateCheck) -> Seq<char> {
    let head = "Current version: "@ + check.current_text() + "\n"@ + "Latest version:  "@
        + check.latest_text() + "\n"@;
    if check.is_update() {
        let release = match check.html_url_text() {
            Some(u) => "Release: "@ + u + "\n"@,
            None => Seq::empty(),
        };
        let archive = match check.package_value() {
            Some(p) => "Archive: "@ + p.archive_url@ + "\n"@ + "Checksum: "@ + p.checksum_url@
                + "\n"@,
            None => "No update archive is available for this platform.\n"@,
        };
        head + "\n"@ + "Update available.\n"@ + release + archive
    } else {
        head + "\n"@ + "meshh is up to date.\n"@
    }
}

/// Builds the human-readable report of an update check.
pub fn check_report(check: &UpdateCheck) -> (r: String)
    ensures
        r@ == check_report_text(*check),
{
    let mut r = concat3("Current version: ", check.current_version(), "\n");
    r.append("Latest version:  ");
    r.append(check.latest_version());
    r.append("\n");
    if check.update_available() {
        r.append("\n");
        r.append("Update available.\n");
        match check.html_url() {
            Some(u) => {
                r.append("Release: ");
                r.append(u);
                r.append("\n");
            },
            None => {},
        }
        match check.package() {
            Some(p) => {
                r.append("Archive: ");
                r.append(p.archive_url.as_str());
                r.append("\n");
                r.append("Checksum: ");
                r.append(p.checksum_url.as_str());
                r.append("\n");
            },
            None => {
                r.append("No update archive is available for this platform.\n");
            },
        }
    } else {
        r.append("\n");
        r.append("meshh is up to date.\n");
    }
    r
}

/// The report opens with the current version and the latest version, each on a line of its
/// own, and a blank line. When no update is available it then only says that meshh is up to
/// date. When one is available it next says so, then gives the release page when there is one,
/// and ends with the package's archive URL on the `Archive:` line and its checksum URL on the
/// `Checksum:` line, or, without a package for this platform, with a line saying so.
pub proof fn law_check_report_lines(check: UpdateCheck)
    ensures
        crate::text::has_prefix(
            check_report_text(check),
            "Current version: "@ + check.current_text() + "\n"@ + "Latest version:  "@
                + check.latest_text() + "\n"@ + "\n"@,
        ),
        !check.is_update() ==> crate::text::has_suffix(
            check_report_text(check),
            "\n"@ + "meshh is up to date.\n"@,
        ) && check_report_text(check).len() == "Current version: "@.len()
            + check.current_text().len() + "Latest version:  "@.len() + check.latest_text().len()
            + 3 + "meshh is up to date.\n"@.len(),
        check.is_update() ==> (check.html_url_text() matches Some(u) ==> crate::text::has_prefix(
            check_report_text(check),
            "Current version: "@ + check.current_text() + "\n"@ + "Latest version:  "@
                + check.latest_text() + "\n"@ + "\n"@ + "Update available.\n"@ + "Release: "@ + u
                + "\n"@,
        )),
        check.is_update() && check.html_url_text() is None ==> crate::text::has_prefix(
            check_report_text(check),
            "Current version: "@ + check.current_text() + "\n"@ + "Latest version:  "@
                + check.latest_text() + "\n"@ + "\n"@ + "Update available.\n"@,
        ),
        check.is_update() ==> (check.package_value() matches Some(p) ==> crate::text::has_suffix(
            check_report_text(check),
            "Archive: "@ + p.archive_url@ + "\n"@ + "Checksum: "@ + p.checksum_url@ + "\n"@,
        )),
        check.is_update() && check.package_value() is None ==> crate::text::has_suffix(
            check_report_text(check),
            "No update archive is available for this platform.\n"@,
        ),
        check.is_update() ==> check_report_text(check).len() == "Current version: "@.len()
            + check.current_text().len() + "Latest version:  "@.len() + check.latest_text().len()
            + 3 + "Update available.\n"@.len() + match check.html_url_text() {
            Some(u) => "Release: "@.len() + u.len() + 1,
            None => 0,
        } + match check.package_value() {
            Some(p) => "Archive: "@.len() + p.archive_url@.len() + "Checksum: "@.len()
                + p.checksum_url@.len() + 2,
            None => "No update archive is available for this platform.\n"@.len(),
        },
{
    let r = check_report_text(check);
    let head = "Current version: "@ + check.current_text() + "\n"@ + "Latest version:  "@
        + check.latest_text() + "\n"@;
    reveal_strlit("\n");
    if check.is_update() {
        let release = match check.html_url_text() {
            Some(u) => "Release: "@ + u + "\n"@,
            None => Seq::empty(),
        };
        let archive = match check.package_value() {
            Some(pkg) => "Archive: "@ + pkg.archive_url@ + "\n"@ + "Checksum: "@
                + pkg.checksum_url@ + "\n"@,
            None => "No update archive is available for this platform.\n"@,
        };
        let pre = head + "\n"@ + "Update available.\n"@;
        assert(r == pre + release + archive);
        assert(r.subrange(0, (head + "\n"@).len() as int) =~= head + "\n"@);
        assert(r.subrange(0, pre.len() as int) =~= pre);
        assert(r.subrange(0, (pre + release).len() as int) =~= pre + release);
        if let Some(u) = check.html_url_text() {
            assert(pre + release =~= pre + "Release: "@ + u + "\n"@);
        }
        assert(r.subrange(r.len() - archive.len(), r.len() as int) =~= archive);
    } else {
        let tail = "\n"@ + "meshh is up to date.\n"@;
        assert(r == head + tail);
        assert(r.subrange(0, (head + "\n"@).len() as int) =~= head + "\n"@);
        assert(r.subrange(r.len() - tail.len(), r.len() as int) =~= tail);
    }
}

} // verus!
