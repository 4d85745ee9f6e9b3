//! The artifact manifest: an XML-like metadata document naming the package's
//! id, version, authorship, copyright and license descriptor.
//!
//! The parser extracts, for each known element name, the text of the first
//! occurrence of that element inside the `metadata` envelope; entity
//! references for the five predefined entities are decoded and surrounding
//! whitespace is trimmed. Unknown or absent optional elements are `None`;
//! a missing required element is an error.

use crate::text::{
    chars_eq, chars_to_string, find, lemma_find_is_first, push_all, replace_all, spec_find,
    spec_replace_all, spec_trim, str_to_chars, subvec, trim,
};
use vstd::prelude::*;

verus! {

/// The five predefined entity references decoded, leftmost first, the
/// ampersand entity last.
pub open spec fn spec_unescape(s: Seq<char>) -> Seq<char> {
    let s1 = spec_replace_all(s, "&lt;"@, "<"@);
    let s2 = spec_replace_all(s1, "&gt;"@, ">"@);
    let s3 = spec_replace_all(s2, "&quot;"@, "\""@);
    let s4 = spec_replace_all(s3, "&apos;"@, "'"@);
    spec_replace_all(s4, "&amp;"@, "&"@)
}

/// Decode the five predefined entity references.
pub fn unescape(s: &Vec<char>) -> (r: Vec<char>)
    ensures
        r@ == spec_unescape(s@),
{
    let lt = str_to_chars("&lt;");
    let lt_to = str_to_chars("<");
    let gt = str_to_chars("&gt;");
    let gt_to = str_to_chars(">");
    let quot = str_to_chars("&quot;");
    let quot_to = str_to_chars("\"");
    let apos = str_to_chars("&apos;");
    let apos_to = str_to_chars("'");
    let amp = str_to_chars("&amp;");
    let amp_to = str_to_chars("&");
    let s1 = replace_all(s, &lt, &lt_to);
    let s2 = replace_all(&s1, &gt, &gt_to);
    let s3 = replace_all(&s2, &quot, &quot_to);
    let s4 = replace_all(&s3, &apos, &apos_to);
    replace_all(&s4, &amp, &amp_to)
}

/// Element text as the manifest reports it: whitespace-trimmed, entities
/// decoded.
pub open spec fn spec_clean_text(s: Seq<char>) -> Seq<char> {
    spec_unescape(spec_trim(s))
}

/// Trim and entity-decode element text.
pub fn clean_text(s: &Vec<char>) -> (r: Vec<char>)
    ensures
        r@ == spec_clean_text(s@),
{
    let t = trim(s);
    unescape(&t)
}

/// Why a manifest failed to parse.
#[derive(Debug, Clone, Copy, PartialEq, Eq, Structural)]
pub enum ParseError {
    /// A required element (id, version, authors, description) is absent.
    MissingField,
    /// The document's structure cannot be read: no metadata envelope, a
    /// license element without a recognized type, or an unreadable flag.
    MalformedDocument,
}

/// The first element named by `open_pat` (an opening tag prefix such as
/// `"<metadata"`), split into its attribute region (up to the first `>`)
/// and its inner text (up to `close_pat`).
pub open spec fn spec_attr_elem(s: Seq<char>, open_pat: Seq<char>, close_pat: Seq<char>) -> Option<
    (Seq<char>, Seq<char>),
> {
    match spec_find(s, open_pat) {
        None => None,
        Some(i) => {
            let after_open = s.skip(i + open_pat.len());
            match spec_find(after_open, seq!['>']) {
                None => None,
                Some(g) => {
                    let attrs = after_open.subrange(0, g);
                    let body = after_open.skip(g + 1);
                    match spec_find(body, close_pat) {
                        None => None,
                        Some(j) => Some((attrs, body.subrange(0, j))),
                    }
                },
            }
        },
    }
}

/// Split the first element opened by `open_pat` into attribute region and
/// inner text.
pub fn attr_elem(s: &Vec<char>, open_pat: &Vec<char>, close_pat: &Vec<char>) -> (r: Option<
    (Vec<char>, Vec<char>),
>)
    ensures
        match r {
            None => spec_attr_elem(s@, open_pat@, close_pat@) is None,
            Some(p) => spec_attr_elem(s@, open_pat@, close_pat@) == Some((p.0@, p.1@)),
        },
{
    let i = match find(s, open_pat) {
        None => {
            return None;
        },
        Some(i) => i,
    };
    proof {
        lemma_find_is_first(s@, open_pat@);
    }
    let n: usize = s.len();
    let after_open = subvec(s, i + open_pat.len(), n);
    assert(after_open@ =~= s@.skip(i + open_pat@.len()));
    let gt: Vec<char> = vec!['>'];
    assert(gt@ =~= seq!['>']);
    let g = match find(&after_open, &gt) {
        None => {
            return None;
        },
        Some(g) => g,
    };
    proof {
        lemma_find_is_first(after_open@, gt@);
    }
    let attrs = subvec(&after_open, 0, g);
    let body = subvec(&after_open, g + 1, after_open.len());
    assert(body@ =~= after_open@.skip(g + 1));
    let j = match find(&body, close_pat) {
        None => {
            return None;
        },
        Some(j) => j,
    };
    proof {
        lemma_find_is_first(body@, close_pat@);
    }
    let inner = subvec(&body, 0, j);
    Some((attrs, inner))
}

/// The inner text of the first element named `name` written with a plain
/// opening tag (`<name>`), up to its closing tag.
pub open spec fn spec_elem_inner(s: Seq<char>, name: Seq<char>) -> Option<Seq<char>> {
    let open = seq!['<'] + name + seq!['>'];
    let close = seq!['<', '/'] + name + seq!['>'];
    match spec_find(s, open) {
        None => None,
        Some(i) => {
            let after = s.skip(i + open.len());
            match spec_find(after, close) {
                None => None,
                Some(j) => Some(after.subrange(0, j)),
            }
        },
    }
}

/// The cleaned value of the first element named `name`: inner text with
/// entities decoded and surrounding whitespace trimmed.
pub open spec fn spec_elem_value(s: Seq<char>, name: Seq<char>) -> Option<Seq<char>> {
    match spec_elem_inner(s, name) {
        None => None,
        Some(t) => Some(spec_clean_text(t)),
    }
}

/// An `Option<String>` seen as an optional character sequence.
pub open spec fn opt_str_view(o: Option<String>) -> Option<Seq<char>> {
    match o {
        None => None,
        Some(s) => Some(s@),
    }
}

/// Extract the cleaned value of the first element named `name`.
pub fn elem_value(s: &Vec<char>, name: &str) -> (r: Option<String>)
    ensures
        opt_str_view(r) == spec_elem_value(s@, name@),
{
    let name_c = str_to_chars(name);
    let mut open: Vec<char> = Vec::new();
    open.push('<');
    push_all(&mut open, &name_c);
    open.push('>');
    let mut close: Vec<char> = Vec::new();
    close.push('<');
    close.push('/');
    push_all(&mut close, &name_c);
    close.push('>');
    assert(open@ =~= seq!['<'] + name@ + seq!['>']);
    assert(close@ =~= seq!['<', '/'] + name@ + seq!['>']);
    let i = match find(s, &open) {
        None => {
            return None;
        },
        Some(i) => i,
    };
    proof {
        lemma_find_is_first(s@, open@);
    }
    let n: usize = s.len();
    let after = subvec(s, i + open.len(), n);
    assert(after@ =~= s@.skip(i + open@.len()));
    let j = match find(&after, &close) {
        None => {
            return None;
        },
        Some(j) => j,
    };
    proof {
        lemma_find_is_first(after@, close@);
    }
    let raw = subvec(&after, 0, j);
    let cleaned = clean_text(&raw);
    Some(chars_to_string(&cleaned))
}

/// True when `c` is a decimal digit.
pub open spec fn is_digit(c: char) -> bool {
    48 <= c as u32 && c as u32 <= 57
}

/// True when four decimal digits stand in `s` at index `i`.
pub open spec fn four_digits_at(s: Seq<char>, i: int) -> bool {
    &&& 0 <= i
    &&& i + 4 <= s.len()
    &&& is_digit(s[i])
    &&& is_digit(s[i + 1])
    &&& is_digit(s[i + 2])
    &&& is_digit(s[i + 3])
}

/// The index of the first run of four decimal digits in `s`, if any.
pub open spec fn spec_year_idx(s: Seq<char>) -> Option<int>
    decreases s.len(),
{
    if s.len() < 4 {
        None
    } else if four_digits_at(s, 0) {
        Some(0)
    } else {
        match spec_year_idx(s.skip(1)) {
            None => None,
            Some(j) => Some(j + 1),
        }
    }
}

/// The numeric value of a digit character.
pub open spec fn digit_val(c: char) -> int {
    c as u32 - 48
}

/// The year spelled by the first four-digit run in `s`, if any.
pub open spec fn spec_year_of(s: Seq<char>) -> Option<u16> {
    match spec_year_idx(s) {
        None => None,
        Some(i) => Some(
            (1000 * digit_val(s[i]) + 100 * digit_val(s[i + 1]) + 10 * digit_val(s[i + 2])
                + digit_val(s[i + 3])) as u16,
        ),
    }
}

/// Four-digit runs shift with a dropped prefix.
proof fn lemma_skip_four_digits(s: Seq<char>, n: int, k: int)
    requires
        0 <= n <= s.len(),
        0 <= k,
    ensures
        four_digits_at(s.skip(n), k) == four_digits_at(s, n + k),
{
}

/// A four-digit run at `i` with none earlier pins the index.
proof fn lemma_year_idx_exact(s: Seq<char>, i: int)
    requires
        four_digits_at(s, i),
        forall|k: int| 0 <= k < i ==> !four_digits_at(s, k),
    ensures
        spec_year_idx(s) == Some(i),
    decreases s.len(),
{
    if i == 0 {
    } else {
        lemma_skip_four_digits(s, 1, i - 1);
        assert forall|k: int| 0 <= k < i - 1 implies !four_digits_at(s.skip(1), k) by {
            lemma_skip_four_digits(s, 1, k);
        }
        lemma_year_idx_exact(s.skip(1), i - 1);
    }
}

/// With no four-digit run anywhere, the index is absent.
proof fn lemma_year_idx_none(s: Seq<char>)
    requires
        forall|k: int| !four_digits_at(s, k),
    ensures
        spec_year_idx(s) is None,
    decreases s.len(),
{
    if s.len() < 4 {
    } else {
        assert forall|k: int| !four_digits_at(s.skip(1), k) by {
            if 0 <= k {
                lemma_skip_four_digits(s, 1, k);
            }
        }
        lemma_year_idx_none(s.skip(1));
    }
}

/// The first four-digit run in `s`, read as a year.
pub fn year_of_chars(s: &Vec<char>) -> (r: Option<u16>)
    ensures
        r == spec_year_of(s@),
{
    if s.len() < 4 {
        proof {
            assert forall|k: int| !four_digits_at(s@, k) by {}
            lemma_year_idx_none(s@);
        }
        return None;
    }
    let n: usize = s.len();
    let end: usize = n - 4;
    let mut i: usize = 0;
    while i <= end
        invariant
            4 <= s@.len(),
            n == s@.len(),
            end == n - 4,
            i <= end + 1,
            forall|k: int| 0 <= k < i ==> !four_digits_at(s@, k),
        decreases end + 1 - i,
    {
        let c0 = s[i] as u32;
        let c1 = s[i + 1] as u32;
        let c2 = s[i + 2] as u32;
        let c3 = s[i + 3] as u32;
        if 48 <= c0 && c0 <= 57 && 48 <= c1 && c1 <= 57 && 48 <= c2 && c2 <= 57 && 48 <= c3 && c3
            <= 57 {
            proof {
                lemma_year_idx_exact(s@, i as int);
            }
            let v: u32 = 1000 * (c0 - 48) + 100 * (c1 - 48) + 10 * (c2 - 48) + (c3 - 48);
            return Some(v as u16);
        }
        i += 1;
    }
    proof {
        assert forall|k: int| !four_digits_at(s@, k) by {
            if 0 <= k && k + 4 <= s@.len() {
                assert(k < i);
            }
        }
        lemma_year_idx_none(s@);
    }
    None
}

/// The kind of license descriptor a manifest carries.
#[derive(Debug, Clone, Copy, PartialEq, Eq, Hash, Structural)]
pub enum LicenseType {
    /// The value is a license expression.
    Expression,
    /// The value is a path to a license file inside the artifact.
    File,
}

/// A license descriptor: its kind and the associated expression or path.
#[derive(Debug, Clone)]
pub struct License {
    pub kind: LicenseType,
    pub value: String,
}

/// One declared dependency of the package.
#[derive(Debug, Clone)]
pub struct Dependency {
    pub id: String,
    pub version: String,
    pub exclude: Option<String>,
}

/// Dependencies grouped under one target framework.
#[derive(Debug, Clone)]
pub struct DependencyGroup {
    pub target_framework: Option<String>,
    pub dependency: Vec<Dependency>,
}

/// The manifest's dependency section. The parser treats it as opaque and
/// does not fill it; the types stand for callers that build their own.
#[derive(Debug, Clone)]
pub struct Dependencies {
    pub group: Vec<DependencyGroup>,
    pub dependency: Vec<Dependency>,
}

/// The metadata of an artifact manifest: identity, authorship, copyright
/// and license information.
#[derive(Debug, Clone)]
pub struct Metadata {
    pub id: String,
    pub version: String,
    pub authors: String,
    pub owners: Option<String>,
    pub readme: Option<String>,
    pub copyright: Option<String>,
    pub description: String,
    pub release_notes: Option<String>,
    pub tags: Option<String>,
    pub project_url: Option<String>,
    pub license_url: Option<String>,
    pub license: Option<License>,
    pub require_license_acceptance: Option<bool>,
    pub dependencies: Option<Dependencies>,
}

/// The copyright holders a metadata block names: its owners when present,
/// else its authors.
pub open spec fn spec_holders(m: Metadata) -> Seq<char> {
    match m.owners {
        Some(o) => o@,
        None => m.authors@,
    }
}

/// The year a metadata block names: the first four-digit run in its
/// copyright string.
pub open spec fn spec_metadata_year(m: Metadata) -> Option<u16> {
    match m.copyright {
        None => None,
        Some(c) => spec_year_of(c@),
    }
}

impl Metadata {
    /// The copyright holders: the owners when present, else the authors.
    pub fn holders(&self) -> (r: &String)
        ensures
            r@ == spec_holders(*self),
    {
        match &self.owners {
            Some(o) => o,
            None => &self.authors,
        }
    }

    /// The first four-digit run in the copyright string, read as a year.
    pub fn year(&self) -> (r: Option<u16>)
        ensures
            r == spec_metadata_year(*self),
    {
        match &self.copyright {
            None => None,
            Some(c) => {
                let cc = str_to_chars(c.as_str());
                year_of_chars(&cc)
            },
        }
    }
}

/// A parsed manifest document.
#[derive(Debug, Clone)]
pub struct Package {
    pub metadata: Metadata,
}

/// The metadata envelope of a manifest document: attribute region and inner
/// text of the first `metadata` element.
pub open spec fn spec_metadata_inner(doc: Seq<char>) -> Option<(Seq<char>, Seq<char>)> {
    spec_attr_elem(doc, "<metadata"@, "</metadata>"@)
}

/// The manifest's license element: attribute region and raw value of the
/// first `license` element written with attributes.
pub open spec fn spec_license_elem(inner: Seq<char>) -> Option<(Seq<char>, Seq<char>)> {
    spec_attr_elem(inner, "<license "@, "</license>"@)
}

/// The license kind the attribute region declares.
pub open spec fn spec_license_kind(attrs: Seq<char>) -> Option<LicenseType> {
    if spec_find(attrs, "type=\"expression\""@) is Some {
        Some(LicenseType::Expression)
    } else if spec_find(attrs, "type=\"file\""@) is Some {
        Some(LicenseType::File)
    } else {
        None
    }
}

/// A license element whose type attribute names no known kind.
pub open spec fn spec_license_malformed(inner: Seq<char>) -> bool {
    match spec_license_elem(inner) {
        Some(le) => spec_license_kind(le.0) is None,
        None => false,
    }
}

/// An acceptance flag that spells neither `true` nor `false`.
pub open spec fn spec_rla_malformed(inner: Seq<char>) -> bool {
    match spec_elem_value(inner, "requireLicenseAcceptance"@) {
        Some(v) => v != "true"@ && v != "false"@,
        None => false,
    }
}

/// The license kind declared in an attribute region.
fn license_kind(attrs: &Vec<char>) -> (r: Option<LicenseType>)
    ensures
        r == spec_license_kind(attrs@),
{
    let expr_pat = str_to_chars("type=\"expression\"");
    let file_pat = str_to_chars("type=\"file\"");
    if find(attrs, &expr_pat).is_some() {
        Some(LicenseType::Expression)
    } else if find(attrs, &file_pat).is_some() {
        Some(LicenseType::File)
    } else {
        None
    }
}

impl Package {
    /// Parse a manifest document.
    ///
    /// The result is exact against the extraction functions: required
    /// elements (id, version, authors, description) must be present, every
    /// optional element is taken when present, a license descriptor wins its
    /// place whether or not a license URL is also given, and a document
    /// without a readable metadata envelope, with an unrecognized license
    /// type, or with an unreadable acceptance flag is refused as malformed.
    pub fn from_reader(text: &str) -> (r: Result<Package, ParseError>)
        ensures
            ({
                let parts = spec_metadata_inner(text@);
                match r {
                    Err(e) => match e {
                        ParseError::MalformedDocument => parts is None || spec_license_malformed(
                            parts->Some_0.1,
                        ) || spec_rla_malformed(parts->Some_0.1),
                        ParseError::MissingField => {
                            &&& parts is Some
                            &&& !spec_license_malformed(parts->Some_0.1)
                            &&& !spec_rla_malformed(parts->Some_0.1)
                            &&& (spec_elem_value(parts->Some_0.1, "id"@) is None
                                || spec_elem_value(parts->Some_0.1, "version"@) is None
                                || spec_elem_value(parts->Some_0.1, "authors"@) is None
                                || spec_elem_value(parts->Some_0.1, "description"@) is None)
                        },
                    },
                    Ok(p) => {
                        &&& parts is Some
                        &&& ({
                            let inner = parts->Some_0.1;
                            &&& spec_elem_value(inner, "id"@) == Some(p.metadata.id@)
                            &&& spec_elem_value(inner, "version"@) == Some(p.metadata.version@)
                            &&& spec_elem_value(inner, "authors"@) == Some(p.metadata.authors@)
                            &&& spec_elem_value(inner, "description"@) == Some(
                                p.metadata.description@,
                            )
                            &&& opt_str_view(p.metadata.owners) == spec_elem_value(
                                inner,
                                "owners"@,
                            )
                            &&& opt_str_view(p.metadata.readme) == spec_elem_value(
                                inner,
                                "readme"@,
                            )
                            &&& opt_str_view(p.metadata.copyright) == spec_elem_value(
                                inner,
                                "copyright"@,
                            )
                            &&& opt_str_view(p.metadata.release_notes) == spec_elem_value(
                                inner,
                                "releaseNotes"@,
                            )
                            &&& opt_str_view(p.metadata.tags) == spec_elem_value(inner, "tags"@)
                            &&& opt_str_view(p.metadata.project_url) == spec_elem_value(
                                inner,
                                "projectUrl"@,
                            )
                            &&& opt_str_view(p.metadata.license_url) == spec_elem_value(
                                inner,
                                "licenseUrl"@,
                            )
                            &&& (match spec_license_elem(inner) {
                                None => p.metadata.license is None,
                                Some(le) => {
                                    &&& p.metadata.license is Some
                                    &&& Some(p.metadata.license->Some_0.kind) == spec_license_kind(
                                        le.0,
                                    )
                                    &&& p.metadata.license->Some_0.value@ == spec_clean_text(le.1)
                                },
                            })
                            &&& (match spec_elem_value(inner, "requireLicenseAcceptance"@) {
                                None => p.metadata.require_license_acceptance is None,
                                Some(v) => p.metadata.require_license_acceptance == Some(
                                    v == "true"@,
                                ),
                            })
                            &&& p.metadata.dependencies is None
                        })
                    },
                }
            }),
    {
        let doc = str_to_chars(text);
        let mopen = str_to_chars("<metadata");
        let mclose = str_to_chars("</metadata>");
        let envelope = attr_elem(&doc, &mopen, &mclose);
        let inner = match envelope {
            None => {
                return Err(ParseError::MalformedDocument);
            },
            Some(p) => p.1,
        };
        let lopen = str_to_chars("<license ");
        let lclose = str_to_chars("</license>");
        let license: Option<License> = match attr_elem(&inner, &lopen, &lclose) {
            None => None,
            Some(le) => match license_kind(&le.0) {
                None => {
                    return Err(ParseError::MalformedDocument);
                },
                Some(k) => {
                    let v = clean_text(&le.1);
                    Some(License { kind: k, value: chars_to_string(&v) })
                },
            },
        };
        let rla: Option<bool> = match elem_value(&inner, "requireLicenseAcceptance") {
            None => None,
            Some(v) => {
                let vc = str_to_chars(v.as_str());
                let tc = str_to_chars("true");
                let fc = str_to_chars("false");
                if chars_eq(&vc, &tc) {
                    Some(true)
                } else if chars_eq(&vc, &fc) {
                    Some(false)
                } else {
                    return Err(ParseError::MalformedDocument);
                }
            },
        };
        let id = match elem_value(&inner, "id") {
            None => {
                return Err(ParseError::MissingField);
            },
            Some(x) => x,
        };
        let version = match elem_value(&inner, "version") {
            None => {
                return Err(ParseError::MissingField);
            },
            Some(x) => x,
        };
        let authors = match elem_value(&inner, "authors") {
            None => {
                return Err(ParseError::MissingField);
            },
            Some(x) => x,
        };
        let description = match elem_value(&inner, "description") {
            None => {
                return Err(ParseError::MissingField);
            },
            Some(x) => x,
        };
        let owners = elem_value(&inner, "owners");
        let readme = elem_value(&inner, "readme");
        let copyright = elem_value(&inner, "copyright");
        let release_notes = elem_value(&inner, "releaseNotes");
        let tags = elem_value(&inner, "tags");
        let project_url = elem_value(&inner, "projectUrl");
        let license_url = elem_value(&inner, "licenseUrl");
        Ok(
            Package {
                metadata: Metadata {
                    id,
                    version,
                    authors,
                    owners,
                    readme,
                    copyright,
                    description,
                    release_notes,
                    tags,
                    project_url,
                    license_url,
                    license,
                    require_license_acceptance: rla,
                    dependencies: None,
                },
            },
        )
    }
}

} // verus!
