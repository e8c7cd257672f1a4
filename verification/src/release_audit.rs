//! Release audit: finds secrets, internal identifier fields and local-only paths in the
//! text of files that are about to be published.
use vstd::prelude::*;

use crate::release::{lines_of, text_lines};
use crate::text::{concat2, concat3, contains_text, decimal, decimal_text, text_contains, texts_of, utf8_of};

verus! {

/// A secret pattern: what to report, and the text that reveals it.
#[derive(Debug, PartialEq, Eq)]
pub struct SensitiveNeedle {
    label: String,
    value: String,
}

impl SensitiveNeedle {
    /// The pair (label, value) of the needle.
    pub closed spec fn pair(&self) -> (Seq<char>, Seq<char>) {
        (self.label@, self.value@)
    }

    /// Creates a needle from its label and the text it looks for.
    pub fn new(label: &str, value: &str) -> (r: Self)
        ensures
            r.pair() == (label@, value@),
    {
        SensitiveNeedle { label: label.to_owned(), value: value.to_owned() }
    }
}

/// The needles of a sequence, as (label, value) pairs.
pub open spec fn needle_pairs(needles: Seq<SensitiveNeedle>) -> Seq<(Seq<char>, Seq<char>)> {
    needles.map_values(|n: SensitiveNeedle| n.pair())
}

/// What the audit looks for.
#[derive(Debug, PartialEq, Eq)]
pub struct ReleaseAuditConfig {
    secret_needles: Vec<SensitiveNeedle>,
    internal_id_fields: Vec<String>,
    local_path_fragments: Vec<String>,
}

impl ReleaseAuditConfig {
    /// Secret patterns, as (label, value) pairs.
    pub closed spec fn needles(&self) -> Seq<(Seq<char>, Seq<char>)> {
        needle_pairs(self.secret_needles@)
    }

    /// Field names of internal identifiers.
    pub closed spec fn fields(&self) -> Seq<Seq<char>> {
        texts_of(self.internal_id_fields@)
    }

    /// Path fragments that only exist on a developer's machine.
    pub closed spec fn fragments(&self) -> Seq<Seq<char>> {
        texts_of(self.local_path_fragments@)
    }
}

/// The secret patterns audited by default. The values are assembled from pieces so that this
/// text does not itself contain them.
pub open spec fn default_needles() -> Seq<(Seq<char>, Seq<char>)> {
    seq![
        ("OpenAI-style API key"@, "s"@ + "k"@ + "-"@),
        ("GitHub classic token"@, "gh"@ + "p"@ + "_"@),
        ("GitHub fine-grained token"@, "github"@ + "_pat"@ + "_"@),
        ("GitHub server token"@, "gh"@ + "s"@ + "_"@),
        ("GitHub OAuth token"@, "gh"@ + "o"@ + "_"@),
        ("Slack bot token"@, "xox"@ + "b"@ + "-"@),
        ("Slack user token"@, "xox"@ + "p"@ + "-"@),
        ("private key block"@, "-----BEGIN "@ + "PRIVATE KEY"@ + "-----"@),
        ("authorization bearer header"@, "Authorization"@ + ": "@ + "Bearer"@ + " "@),
    ]
}

/// The internal identifier fields audited by default: `<name>_id` for destination, route,
/// user, workspace, organization, account and internal.
pub open spec fn default_fields() -> Seq<Seq<char>> {
    seq![
        "destination"@ + "_"@ + "id"@,
        "route"@ + "_"@ + "id"@,
        "user"@ + "_"@ + "id"@,
        "workspace"@ + "_"@ + "id"@,
        "organization"@ + "_"@ + "id"@,
        "account"@ + "_"@ + "id"@,
        "internal"@ + "_"@ + "id"@,
    ]
}

/// The local-only path fragments audited by default.
pub open spec fn default_fragments() -> Seq<Seq<char>> {
    seq![
        "/"@ + "Users"@ + "/"@,
        "/"@ + "home"@ + "/"@,
        "/"@ + "Volumes"@ + "/"@,
        "C:"@ + "\\"@ + "Users"@ + "\\"@,
        "file:"@ + "//"@ + "/"@,
    ]
}

fn needle(label: &str, a: &str, b: &str, c: &str) -> (r: SensitiveNeedle)
    ensures
        r.pair() == (label@, a@ + b@ + c@),
{
    SensitiveNeedle::new(label, concat3(a, b, c).as_str())
}

fn joined_field(name: &str) -> (r: String)
    ensures
        r@ == name@ + "_"@ + "id"@,
{
    concat3(name, "_", "id")
}

impl Default for ReleaseAuditConfig {
    fn default() -> (r: Self)
        ensures
            r.needles() == default_needles(),
            r.fields() == default_fields(),
            r.fragments() == default_fragments(),
    {
        let mut bearer = concat3("Authorization", ": ", "Bearer");
        bearer.append(" ");
        let secret_needles = vec![
            needle("OpenAI-style API key", "s", "k", "-"),
            needle("GitHub classic token", "gh", "p", "_"),
            needle("GitHub fine-grained token", "github", "_pat", "_"),
            needle("GitHub server token", "gh", "s", "_"),
            needle("GitHub OAuth token", "gh", "o", "_"),
            needle("Slack bot token", "xox", "b", "-"),
            needle("Slack user token", "xox", "p", "-"),
            needle("private key block", "-----BEGIN ", "PRIVATE KEY", "-----"),
            SensitiveNeedle::new("authorization bearer header", bearer.as_str()),
        ];
        let internal_id_fields = vec![
            joined_field("destination"),
            joined_field("route"),
            joined_field("user"),
            joined_field("workspace"),
            joined_field("organization"),
            joined_field("account"),
            joined_field("internal"),
        ];
        let mut windows_users = concat3("C:", "\\", "Users");
        windows_users.append("\\");
        let local_path_fragments = vec![
            concat3("/", "Users", "/"),
            concat3("/", "home", "/"),
            concat3("/", "Volumes", "/"),
            windows_users,
            concat3("file:", "//", "/"),
        ];
        let r = ReleaseAuditConfig { secret_needles, internal_id_fields, local_path_fragments };
        assert(r.needles() =~= default_needles());
        assert(r.fields() =~= default_fields());
        assert(r.fragments() =~= default_fragments());
        r
    }
}

/// Category of an audit finding.
#[derive(Debug, Clone, Copy, PartialEq, Eq)]
pub enum FindingKind {
    SensitiveValue,
    InternalIdentifierField,
    LocalOnlyPath,
}

/// What a violation is about.
#[derive(Debug, PartialEq, Eq)]
pub enum ReleaseAuditViolationKind {
    SensitiveValue { label: String },
    InternalIdentifierField { field: String },
    LocalOnlyPath { fragment: String },
}

/// A violation kind as its category and the label, field or fragment it names.
pub open spec fn kind_view(kind: ReleaseAuditViolationKind) -> (FindingKind, Seq<char>) {
    match kind {
        ReleaseAuditViolationKind::SensitiveValue { label } => (FindingKind::SensitiveValue, label@),
        ReleaseAuditViolationKind::InternalIdentifierField { field } => (
            FindingKind::InternalIdentifierField,
            field@,
        ),
        ReleaseAuditViolationKind::LocalOnlyPath { fragment } => (
            FindingKind::LocalOnlyPath,
            fragment@,
        ),
    }
}

/// Description of a violation kind.
pub open spec fn kind_text(kind: (FindingKind, Seq<char>)) -> Seq<char> {
    match kind.0 {
        FindingKind::SensitiveValue => "sensitive value: "@ + kind.1,
        FindingKind::InternalIdentifierField => "internal identifier field: "@ + kind.1,
        FindingKind::LocalOnlyPath => "local-only path fragment: "@ + kind.1,
    }
}

impl ReleaseAuditViolationKind {
    /// Returns the description of the violation kind.
    pub fn text(&self) -> (r: String)
        ensures
            r@ == kind_text(kind_view(*self)),
    {
        match self {
            ReleaseAuditViolationKind::SensitiveValue { label } => concat2(
                "sensitive value: ",
                label.as_str(),
            ),
            ReleaseAuditViolationKind::InternalIdentifierField { field } => concat2(
                "internal identifier field: ",
                field.as_str(),
            ),
            ReleaseAuditViolationKind::LocalOnlyPath { fragment } => concat2(
                "local-only path fragment: ",
                fragment.as_str(),
            ),
        }
    }
}

/// One finding in one line of one file.
#[derive(Debug, PartialEq, Eq)]
pub struct ReleaseAuditViolation {
    path: String,
    line: usize,
    kind: ReleaseAuditViolationKind,
}

impl ReleaseAuditViolation {
    /// The violation as (path, one-based line number, category, label).
    pub closed spec fn view_tuple(&self) -> (Seq<char>, nat, FindingKind, Seq<char>) {
        let k = kind_view(self.kind);
        (self.path@, self.line as nat, k.0, k.1)
    }

    /// Returns the one-based line number.
    pub fn line(&self) -> (r: usize)
        ensures
            r == self.view_tuple().1,
    {
        self.line
    }

    /// Returns the file path.
    pub fn path(&self) -> (r: &str)
        ensures
            r@ == self.view_tuple().0,
    {
        self.path.as_str()
    }

    /// Returns what the violation is about.
    pub fn kind(&self) -> (r: &ReleaseAuditViolationKind)
        ensures
            kind_view(*r) == (self.view_tuple().2, self.view_tuple().3),
    {
        &self.kind
    }

    /// Returns the description `path:line: kind` of the violation.
    pub fn text(&self) -> (r: String)
        ensures
            r@ == self.view_tuple().0 + ":"@ + decimal(self.view_tuple().1) + ": "@ + kind_text(
                (self.view_tuple().2, self.view_tuple().3),
            ),
    {
        let mut r = concat2(self.path.as_str(), ":");
        r.append(decimal_text(self.line as u64).as_str());
        r.append(": ");
        r.append(self.kind.text().as_str());
        r
    }
}

/// The violations of a sequence, as tuples.
pub open spec fn violations_view(v: Seq<ReleaseAuditViolation>) -> Seq<
    (Seq<char>, nat, FindingKind, Seq<char>),
> {
    v.map_values(|x: ReleaseAuditViolation| x.view_tuple())
}

/// ASCII upper-case letter or digit.
pub open spec fn is_key_byte(b: u8) -> bool {
    (65 <= b <= 90) || (48 <= b <= 57)
}

/// Whether an AWS access key starts at position `i`: `AKIA` or `ASIA` followed by sixteen
/// upper-case letters or digits.
pub open spec fn aws_key_at(bytes: Seq<u8>, i: int) -> bool {
    &&& 0 <= i && i + 20 <= bytes.len()
    &&& bytes[i] == 65 && (bytes[i + 1] == 75 || bytes[i + 1] == 83) && bytes[i + 2] == 73
        && bytes[i + 3] == 65
    &&& forall|j: int| i + 4 <= j < i + 20 ==> is_key_byte(#[trigger] bytes[j])
}

/// Whether the bytes hold an AWS access key anywhere.
pub open spec fn has_aws_key(bytes: Seq<u8>) -> bool {
    exists|i: int| aws_key_at(bytes, i)
}

/// ASCII letter, digit or underscore.
pub open spec fn is_identifier_byte_spec(b: u8) -> bool {
    (65 <= b <= 90) || (97 <= b <= 122) || (48 <= b <= 57) || b == 95
}

/// Whether `token` occurs at position `i` with no identifier byte right before or after it.
pub open spec fn bounded_at(hay: Seq<u8>, token: Seq<u8>, i: int) -> bool {
    &&& 0 <= i && i + token.len() <= hay.len()
    &&& hay.subrange(i, i + token.len()) == token
    &&& (i == 0 || !is_identifier_byte_spec(hay[i - 1]))
    &&& (i + token.len() == hay.len() || !is_identifier_byte_spec(hay[i + token.len()]))
}

/// Whether a non-empty token occurs in the bytes as a whole identifier.
pub open spec fn has_bounded_token(hay: Seq<u8>, token: Seq<u8>) -> bool {
    token.len() > 0 && exists|i: int| bounded_at(hay, token, i)
}

/// Findings of the secret patterns in a line, in pattern order.
pub open spec fn needle_findings(needles: Seq<(Seq<char>, Seq<char>)>, line: Seq<char>) -> Seq<
    (FindingKind, Seq<char>),
>
    decreases needles.len(),
{
    if needles.len() == 0 {
        Seq::empty()
    } else {
        let rest = needle_findings(needles.drop_last(), line);
        if contains_text(line, needles.last().1) {
            rest.push((FindingKind::SensitiveValue, needles.last().0))
        } else {
            rest
        }
    }
}

/// Finding of an AWS access key in a line.
pub open spec fn aws_findings(line: Seq<char>) -> Seq<(FindingKind, Seq<char>)> {
    if has_aws_key(utf8_of(line)) {
        seq![(FindingKind::SensitiveValue, "AWS access key"@)]
    } else {
        Seq::empty()
    }
}

/// Findings of internal identifier fields in a line, in field order.
pub open spec fn field_findings(fields: Seq<Seq<char>>, line: Seq<char>) -> Seq<
    (FindingKind, Seq<char>),
>
    decreases fields.len(),
{
    if fields.len() == 0 {
        Seq::empty()
    } else {
        let rest = field_findings(fields.drop_last(), line);
        if has_bounded_token(utf8_of(line), utf8_of(fields.last())) {
            rest.push((FindingKind::InternalIdentifierField, fields.last()))
        } else {
            rest
        }
    }
}

/// Findings of local-only path fragments in a line, in fragment order.
pub open spec fn fragment_findings(fragments: Seq<Seq<char>>, line: Seq<char>) -> Seq<
    (FindingKind, Seq<char>),
>
    decreases fragments.len(),
{
    if fragments.len() == 0 {
        Seq::empty()
    } else {
        let rest = fragment_findings(fragments.drop_last(), line);
        if contains_text(line, fragments.last()) {
            rest.push((FindingKind::LocalOnlyPath, fragments.last()))
        } else {
            rest
        }
    }
}

/// All findings of a line: secret patterns, then an AWS key, then identifier fields, then
/// local-only paths.
pub open spec fn line_findings(config: ReleaseAuditConfig, line: Seq<char>) -> Seq<
    (FindingKind, Seq<char>),
> {
    needle_findings(config.needles(), line) + aws_findings(line) + field_findings(
        config.fields(),
        line,
    ) + fragment_findings(config.fragments(), line)
}

/// Findings of a line placed at a path and line number.
pub open spec fn placed(
    path: Seq<char>,
    number: nat,
    findings: Seq<(FindingKind, Seq<char>)>,
) -> Seq<(Seq<char>, nat, FindingKind, Seq<char>)> {
    findings.map_values(|f: (FindingKind, Seq<char>)| (path, number, f.0, f.1))
}

/// All findings of the lines of a file, line by line, numbered from one.
pub open spec fn file_findings(config: ReleaseAuditConfig, path: Seq<char>, lines: Seq<Seq<char>>) -> Seq<
    (Seq<char>, nat, FindingKind, Seq<char>),
>
    decreases lines.len(),
{
    if lines.len() == 0 {
        Seq::empty()
    } else {
        file_findings(config, path, lines.drop_last()) + placed(
            path,
            lines.len(),
            line_findings(config, lines.last()),
        )
    }
}

/// Returns whether a byte is an ASCII letter, digit or underscore.
pub fn is_identifier_byte(byte: u8) -> (r: bool)
    ensures
        r == is_identifier_byte_spec(byte),
{
    (65 <= byte && byte <= 90) || (97 <= byte && byte <= 122) || (48 <= byte && byte <= 57) || byte
        == 95
}

fn aws_key_at_exec(bytes: &[u8], i: usize) -> (r: bool)
    requires
        i + 20 <= bytes.len(),
    ensures
        r == aws_key_at(bytes@, i as int),
{
    if !(bytes[i] == 65 && (bytes[i + 1] == 75 || bytes[i + 1] == 83) && bytes[i + 2] == 73
        && bytes[i + 3] == 65) {
        return false;
    }
    let mut j: usize = i + 4;
    while j < i + 20
        invariant
            i + 4 <= j <= i + 20,
            i + 20 <= bytes.len(),
            forall|k: int| i + 4 <= k < j ==> is_key_byte(#[trigger] bytes@[k]),
        decreases i + 20 - j,
    {
        let b = bytes[j];
        if !((65 <= b && b <= 90) || (48 <= b && b <= 57)) {
            return false;
        }
        j = j + 1;
    }
    true
}

/// Returns whether the bytes of a line hold an AWS access key (see `has_aws_key`).
pub fn contains_aws_access_key(bytes: &[u8]) -> (r: bool)
    ensures
        r == has_aws_key(bytes@),
{
    if bytes.len() < 20 {
        return false;
    }
    let mut i: usize = 0;
    while i <= bytes.len() - 20
        invariant
            bytes.len() >= 20,
            i <= bytes.len() - 19,
            forall|k: int| 0 <= k < i ==> !aws_key_at(bytes@, k),
        decreases bytes.len() - i,
    {
        if aws_key_at_exec(bytes, i) {
            return true;
        }
        i = i + 1;
    }
    assert forall|k: int| !aws_key_at(bytes@, k) by {
        if 0 <= k < i {
        }
    }
    false
}

fn bytes_match_at(hay: &[u8], token: &[u8], i: usize) -> (r: bool)
    requires
        i + token.len() <= hay.len(),
    ensures
        r == (hay@.subrange(i as int, i + token.len()) == token@),
{
    let mut j: usize = 0;
    while j < token.len()
        invariant
            j <= token.len(),
            i + token.len() <= hay.len(),
            forall|k: int| 0 <= k < j ==> hay@[i + k] == token@[k],
        decreases token.len() - j,
    {
        if hay[i + j] != token[j] {
            assert(hay@.subrange(i as int, i + token.len())[j as int] != token@[j as int]);
            return false;
        }
        j = j + 1;
    }
    assert(hay@.subrange(i as int, i + token.len()) =~= token@);
    true
}

/// Returns whether a non-empty token occurs in the bytes of a line as a whole identifier
/// (see `has_bounded_token`).
pub fn contains_bounded_token(hay: &[u8], token: &[u8]) -> (r: bool)
    ensures
        r == has_bounded_token(hay@, token@),
{
    if token.len() == 0 || token.len() > hay.len() {
        return false;
    }
    let mut i: usize = 0;
    while i <= hay.len() - token.len()
        invariant
            0 < token.len() <= hay.len(),
            i <= hay.len() - token.len() + 1,
            forall|k: int| 0 <= k < i ==> !bounded_at(hay@, token@, k),
        decreases hay.len() - i,
    {
        if bytes_match_at(hay, token, i) {
            let after = i + token.len();
            let before_ok = i == 0 || !is_identifier_byte(hay[i - 1]);
            let after_ok = after == hay.len() || !is_identifier_byte(hay[after]);
            if before_ok && after_ok {
                assert(bounded_at(hay@, token@, i as int));
                return true;
            }
        }
        i = i + 1;
    }
    assert forall|k: int| !bounded_at(hay@, token@, k) by {
        if 0 <= k < i {
        }
    }
    false
}

fn violation(path: &str, line: usize, kind: ReleaseAuditViolationKind) -> (r: ReleaseAuditViolation)
    ensures
        r.view_tuple() == (path@, line as nat, kind_view(kind).0, kind_view(kind).1),
{
    ReleaseAuditViolation { path: path.to_owned(), line, kind }
}

fn line_violations(config: &ReleaseAuditConfig, path: &str, number: usize, line: &str) -> (r: Vec<
    ReleaseAuditViolation,
>)
    ensures
        violations_view(r@) == placed(path@, number as nat, line_findings(*config, line@)),
{
    let mut out: Vec<ReleaseAuditViolation> = Vec::new();
    let ghost needles = config.needles();
    let mut k: usize = 0;
    while k < config.secret_needles.len()
        invariant
            k <= config.secret_needles.len(),
            needles == needle_pairs(config.secret_needles@),
            violations_view(out@) == placed(
                path@,
                number as nat,
                needle_findings(needles.take(k as int), line@),
            ),
        decreases config.secret_needles.len() - k,
    {
        let ghost before = out@;
        let n = &config.secret_needles[k];
        proof {
            assert(needles.take(k + 1).drop_last() =~= needles.take(k as int));
            assert(needles.take(k + 1).last() == (n.label@, n.value@));
        }
        if text_contains(line, n.value.as_str()) {
            out.push(
                violation(
                    path,
                    number,
                    ReleaseAuditViolationKind::SensitiveValue { label: n.label.clone() },
                ),
            );
            proof {
                assert(violations_view(out@) =~= violations_view(before).push(
                    (path@, number as nat, FindingKind::SensitiveValue, n.label@),
                ));
                assert(placed(path@, number as nat, needle_findings(needles.take(k + 1), line@))
                    =~= placed(
                    path@,
                    number as nat,
                    needle_findings(needles.take(k as int), line@),
                ).push((path@, number as nat, FindingKind::SensitiveValue, n.label@)));
            }
        }
        k = k + 1;
    }
    assert(needles.take(needles.len() as int) =~= needles);
    let ghost after_needles = out@;
    let bytes = line.as_bytes();
    assert(bytes@ == utf8_of(line@));
    if contains_aws_access_key(bytes) {
        out.push(
            violation(
                path,
                number,
                ReleaseAuditViolationKind::SensitiveValue { label: "AWS access key".to_owned() },
            ),
        );
        assert(violations_view(out@) =~= violations_view(after_needles).push(
            (path@, number as nat, FindingKind::SensitiveValue, "AWS access key"@),
        ));
    } else {
        assert(violations_view(out@) =~= violations_view(after_needles));
        assert(needle_findings(needles, line@) + aws_findings(line@) =~= needle_findings(
            needles,
            line@,
        ));
    }
    assert(violations_view(out@) =~= placed(
        path@,
        number as nat,
        needle_findings(needles, line@) + aws_findings(line@),
    ));
    let ghost fields = config.fields();
    let ghost prefix = needle_findings(needles, line@) + aws_findings(line@);
    let mut f: usize = 0;
    while f < config.internal_id_fields.len()
        invariant
            f <= config.internal_id_fields.len(),
            fields == texts_of(config.internal_id_fields@),
            bytes@ == utf8_of(line@),
            violations_view(out@) == placed(
                path@,
                number as nat,
                prefix + field_findings(fields.take(f as int), line@),
            ),
        decreases config.internal_id_fields.len() - f,
    {
        let ghost before = out@;
        let field = &config.internal_id_fields[f];
        proof {
            assert(fields.take(f + 1).drop_last() =~= fields.take(f as int));
            assert(fields.take(f + 1).last() == field@);
        }
        if contains_bounded_token(bytes, field.as_str().as_bytes()) {
            out.push(
                violation(
                    path,
                    number,
                    ReleaseAuditViolationKind::InternalIdentifierField { field: field.clone() },
                ),
            );
            proof {
                assert(violations_view(out@) =~= violations_view(before).push(
                    (path@, number as nat, FindingKind::InternalIdentifierField, field@),
                ));
                assert(prefix + field_findings(fields.take(f + 1), line@) =~= (prefix
                    + field_findings(fields.take(f as int), line@)).push(
                    (FindingKind::InternalIdentifierField, field@),
                ));
            }
        } else {
            assert(prefix + field_findings(fields.take(f + 1), line@) =~= prefix + field_findings(
                fields.take(f as int),
                line@,
            ));
        }
        f = f + 1;
    }
    assert(fields.take(fields.len() as int) =~= fields);
    let ghost fragments = config.fragments();
    let ghost prefix2 = prefix + field_findings(fields, line@);
    let mut g: usize = 0;
    while g < config.local_path_fragments.len()
        invariant
            g <= config.local_path_fragments.len(),
            fragments == texts_of(config.local_path_fragments@),
            violations_view(out@) == placed(
                path@,
                number as nat,
                prefix2 + fragment_findings(fragments.take(g as int), line@),
            ),
        decreases config.local_path_fragments.len() - g,
    {
        let ghost before = out@;
        let fragment = &config.local_path_fragments[g];
        proof {
            assert(fragments.take(g + 1).drop_last() =~= fragments.take(g as int));
            assert(fragments.take(g + 1).last() == fragment@);
        }
        if text_contains(line, fragment.as_str()) {
            out.push(
                violation(
                    path,
                    number,
                    ReleaseAuditViolationKind::LocalOnlyPath { fragment: fragment.clone() },
                ),
            );
            proof {
                assert(violations_view(out@) =~= violations_view(before).push(
                    (path@, number as nat, FindingKind::LocalOnlyPath, fragment@),
                ));
                assert(prefix2 + fragment_findings(fragments.take(g + 1), line@) =~= (prefix2
                    + fragment_findings(fragments.take(g as int), line@)).push(
                    (FindingKind::LocalOnlyPath, fragment@),
                ));
            }
        } else {
            assert(prefix2 + fragment_findings(fragments.take(g + 1), line@) =~= prefix2
                + fragment_findings(fragments.take(g as int), line@));
        }
        g = g + 1;
    }
    assert(fragments.take(fragments.len() as int) =~= fragments);
    assert(prefix2 + fragment_findings(fragments, line@) =~= line_findings(*config, line@));
    out
}

/// Finds the audit violations in the text of one file: every line is checked for each secret
/// pattern, an AWS access key, each internal identifier field (as a whole identifier) and
/// each local-only path fragment, in that order.
pub fn find_file_violations(config: &ReleaseAuditConfig, path: &str, contents: &str) -> (r: Vec<
    ReleaseAuditViolation,
>)
    ensures
        violations_view(r@) == file_findings(*config, path@, lines_of(contents@)),
{
    let lines = text_lines(contents);
    let ghost ls = lines_of(contents@);
    let mut out: Vec<ReleaseAuditViolation> = Vec::new();
    let mut i: usize = 0;
    while i < lines.len()
        invariant
            i <= lines.len(),
            texts_of(lines@) == ls,
            violations_view(out@) == file_findings(*config, path@, ls.take(i as int)),
        decreases lines.len() - i,
    {
        let ghost before = out@;
        let mut found = line_violations(config, path, i + 1, lines[i].as_str());
        let ghost added = found@;
        out.append(&mut found);
        proof {
            assert(ls.take(i + 1).drop_last() =~= ls.take(i as int));
            assert(ls.take(i + 1).last() == lines@[i as int]@);
            assert(violations_view(out@) =~= violations_view(before) + violations_view(added));
        }
        i = i + 1;
    }
    assert(ls.take(ls.len() as int) =~= ls);
    out
}

} // verus!
