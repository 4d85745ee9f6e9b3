//! License content: expression-driven text generation and the resolved
//! license forms that a notice item carries.
//!
//! A license expression is a boolean combination of standardized license
//! identifiers. Generation expands it to one canonical text per referenced
//! identifier, substituting the copyright-holder placeholder and either
//! substituting or stripping the year placeholder.

use crate::nuspec::{spec_holders, spec_metadata_year, LicenseType, Metadata};
use crate::text::{
    contains_at, lemma_replace_disjoint_removes_pattern, lemma_strip_removes_pattern, replace_all,
    spec_replace_all, spec_strip_token_ws, spec_u16_decimal, str_to_chars, strip_token_ws,
    u16_to_chars,
};
use vstd::prelude::*;

verus! {

/// Failures of license resolution.
#[derive(Debug, Clone, Copy, PartialEq, Eq, Structural)]
pub enum LicenseError {
    /// The license descriptor's expression does not parse.
    InvalidExpression,
    /// The license descriptor's file could not be read.
    FileUnreadable,
}

/// What the license-expression library answers for an expression string:
/// `None` when the string does not parse against the expression grammar;
/// otherwise one entry per requirement, in the expression's left-to-right
/// requirement order, holding the canonical text of the requirement's license
/// identifier, or `None` for a requirement that names no identifier on the
/// standard list.
pub uninterp spec fn spdx_requirement_texts(s: Seq<char>) -> Option<Seq<Option<Seq<char>>>>;

/// The wrapper result as `spdx_requirement_texts` sees it.
pub open spec fn requirement_texts_view(r: Option<Vec<Option<String>>>) -> Option<
    Seq<Option<Seq<char>>>,
> {
    match r {
        None => None,
        Some(v) => Some(
            v@.map_values(
                |t: Option<String>|
                    match t {
                        None => None,
                        Some(s) => Some(s@),
                    },
            ),
        ),
    }
}

/// Relies on `spdx::Expression::parse` and `spdx::LicenseId::text`: parsing
/// is a deterministic grammar over the expression string, `requirements()`
/// yields the expression's requirements in left-to-right order, and each
/// identifier's canonical text is a fixed table entry, so the whole result is
/// a function of the expression string alone.
#[verifier::external_body]
fn requirement_texts(expr: &str) -> (r: Option<Vec<Option<String>>>)
    ensures
        requirement_texts_view(r) == spdx_requirement_texts(expr@),
{
    match spdx::Expression::parse(expr) {
        Err(_) => None,
        Ok(e) => Some(
            e.requirements().map(
                |q| q.req.license.id().map(|id| String::from(id.text())),
            ).collect(),
        ),
    }
}

/// True when the expression string parses against the expression grammar.
pub open spec fn spec_expression_parses(s: Seq<char>) -> bool {
    spdx_requirement_texts(s) is Some
}

/// Check an expression string against the expression grammar.
pub fn expression_parses(expr: &str) -> (r: bool)
    ensures
        r == spec_expression_parses(expr@),
{
    requirement_texts(expr).is_some()
}

/// One canonical template instantiated: the copyright-holder placeholder is
/// replaced by `holders`; the year placeholder is replaced by the year's
/// decimal spelling, or removed together with the single run of whitespace
/// that follows it when no year is given.
pub open spec fn spec_instantiate(
    template: Seq<char>,
    year: Option<u16>,
    holders: Seq<char>,
) -> Seq<char> {
    let with_holders = spec_replace_all(template, "<copyright holders>"@, holders);
    match year {
        Some(y) => spec_replace_all(with_holders, "<year>"@, spec_u16_decimal(y)),
        None => spec_strip_token_ws(with_holders, "<year>"@, false),
    }
}

/// The texts that generation yields for the given requirement entries:
/// one instantiated body per identifier, requirements without an identifier
/// contribute nothing, order and duplicates are kept.
pub open spec fn spec_generated_bodies(
    texts: Seq<Option<Seq<char>>>,
    year: Option<u16>,
    holders: Seq<char>,
) -> Seq<Seq<char>>
    decreases texts.len(),
{
    if texts.len() == 0 {
        Seq::empty()
    } else {
        let rest = spec_generated_bodies(texts.skip(1), year, holders);
        match texts[0] {
            Some(t) => seq![spec_instantiate(t, year, holders)] + rest,
            None => rest,
        }
    }
}

/// The text vector that license generation yields for a definition: the
/// expression's requirement texts, instantiated in order; an expression that
/// does not parse yields nothing.
pub open spec fn spec_generate_body(d: LicenseDefinition) -> Seq<Seq<char>> {
    match spdx_requirement_texts(d.expression@) {
        Some(texts) => spec_generated_bodies(texts, d.year, d.holders@),
        None => Seq::empty(),
    }
}

/// Placeholder substitution determinism: two definitions over equal
/// expressions, years and holders generate equal ordered text vectors.
pub proof fn lemma_generation_deterministic(a: LicenseDefinition, b: LicenseDefinition)
    requires
        a.expression@ == b.expression@,
        a.year == b.year,
        a.holders@ == b.holders@,
    ensures
        spec_generate_body(a) == spec_generate_body(b),
{
}

/// In a template whose opening angle brackets each begin a full year
/// placeholder once the holders placeholder has been substituted,
/// instantiation without a year leaves no year placeholder behind. (A
/// template in which `<` also stands on its own can re-form the placeholder
/// across a removal site, so the premise cannot be dropped.)
pub proof fn lemma_instantiate_without_year(template: Seq<char>, holders: Seq<char>)
    requires
        forall|k: int|
            0 <= k < spec_replace_all(template, "<copyright holders>"@, holders).len()
                && spec_replace_all(template, "<copyright holders>"@, holders)[k] == '<'
                ==> contains_at(
                spec_replace_all(template, "<copyright holders>"@, holders),
                "<year>"@,
                k,
            ),
    ensures
        forall|k: int| !contains_at(spec_instantiate(template, None, holders), "<year>"@, k),
{
    reveal_strlit("<year>");
    let with_holders = spec_replace_all(template, "<copyright holders>"@, holders);
    lemma_strip_removes_pattern(with_holders, "<year>"@, false);
}

/// Instantiation with a year leaves no year placeholder behind, whatever
/// the template and holders hold: the year's decimal digits share no
/// character with the placeholder, so no new occurrence can form.
pub proof fn lemma_instantiate_with_year(template: Seq<char>, holders: Seq<char>, y: u16)
    ensures
        forall|k: int| !contains_at(spec_instantiate(template, Some(y), holders), "<year>"@, k),
{
    reveal_strlit("<year>");
    let pat = "<year>"@;
    let rep = spec_u16_decimal(y);
    let with_holders = spec_replace_all(template, "<copyright holders>"@, holders);
    crate::text::lemma_decimal_all_digits(y);
    assert forall|x: int, t: int|
        0 <= x < rep.len() && 0 <= t < pat.len() implies rep[x] != pat[t] by {
        assert(48 <= rep[x] as u32 <= 57);
    }
    lemma_replace_disjoint_removes_pattern(with_holders, pat, rep);
}

/// Instantiate one canonical template.
fn instantiate(template: &Vec<char>, year: &Option<u16>, holders: &Vec<char>) -> (r: Vec<char>)
    ensures
        r@ == spec_instantiate(template@, *year, holders@),
{
    let holders_pat = str_to_chars("<copyright holders>");
    let year_pat = str_to_chars("<year>");
    proof {
        reveal_strlit("<year>");
    }
    let with_holders = replace_all(template, &holders_pat, holders);
    match year {
        Some(y) => {
            let digits = u16_to_chars(*y);
            replace_all(&with_holders, &year_pat, &digits)
        },
        None => strip_token_ws(&with_holders, &year_pat),
    }
}

/// A deferred license-text synthesis: the expression to expand, the year to
/// substitute (if any), and the copyright holders.
#[derive(Debug, Clone)]
pub struct LicenseDefinition {
    pub expression: String,
    pub year: Option<u16>,
    pub holders: String,
}

impl LicenseDefinition {
    /// Create a new license definition.
    pub fn new(expression: String, year: Option<u16>, holders: String) -> (r: LicenseDefinition)
        ensures
            r.expression@ == expression@,
            r.year == year,
            r.holders@ == holders@,
    {
        LicenseDefinition { expression, year, holders }
    }

    /// Generate the license bodies, one per identifier that the expression's
    /// requirements reference, with placeholders replaced by year and
    /// holders. An expression that does not parse yields nothing.
    pub fn generate_body(&self) -> (r: Vec<String>)
        ensures
            r@.map_values(|s: String| s@) == spec_generate_body(*self),
    {
        let mut out: Vec<String> = Vec::new();
        let fetched = requirement_texts(self.expression.as_str());
        match fetched {
            None => out,
            Some(texts) => {
                let ghost tv = requirement_texts_view(Some(texts))->Some_0;
                let holders = str_to_chars(self.holders.as_str());
                let mut i: usize = 0;
                proof {
                    assert(tv.skip(0) =~= tv);
                    assert(out@.map_values(|s: String| s@) =~= Seq::<Seq<char>>::empty());
                    assert(Seq::<Seq<char>>::empty() + spec_generated_bodies(
                        tv,
                        self.year,
                        self.holders@,
                    ) =~= spec_generated_bodies(tv, self.year, self.holders@));
                }
                while i < texts.len()
                    invariant
                        i <= texts@.len(),
                        holders@ == self.holders@,
                        tv == requirement_texts_view(Some(texts))->Some_0,
                        tv.len() == texts@.len(),
                        forall|k: int|
                            0 <= k < tv.len() ==> tv[k] == (match texts@[k] {
                                None => None::<Seq<char>>,
                                Some(s) => Some(s@),
                            }),
                        spec_generated_bodies(tv, self.year, self.holders@) == out@.map_values(
                            |s: String| s@,
                        ) + spec_generated_bodies(tv.skip(i as int), self.year, self.holders@),
                    decreases texts@.len() - i,
                {
                    let ghost tail = tv.skip(i as int);
                    proof {
                        assert(tail[0] == tv[i as int]);
                        assert(tail.skip(1) =~= tv.skip(i + 1));
                    }
                    match &texts[i] {
                        Some(t) => {
                            let tc = str_to_chars(t.as_str());
                            let body = instantiate(&tc, &self.year, &holders);
                            let s = crate::text::chars_to_string(&body);
                            let ghost before = out@;
                            out.push(s);
                            proof {
                                assert(out@.map_values(|s: String| s@) =~= before.map_values(
                                    |s: String| s@,
                                ) + seq![spec_instantiate(tv[i as int]->Some_0, self.year, self.holders@)]);
                                assert(before.map_values(|s: String| s@) + (seq![
                                    spec_instantiate(tv[i as int]->Some_0, self.year, self.holders@),
                                ] + spec_generated_bodies(tv.skip(i + 1), self.year, self.holders@))
                                    =~= (before.map_values(|s: String| s@) + seq![
                                    spec_instantiate(tv[i as int]->Some_0, self.year, self.holders@),
                                ]) + spec_generated_bodies(tv.skip(i + 1), self.year, self.holders@));
                            }
                        },
                        None => {
                        },
                    }
                    i += 1;
                }
                proof {
                    assert(tv.skip(tv.len() as int) =~= Seq::<Option<Seq<char>>>::empty());
                    assert(out@.map_values(|s: String| s@) + Seq::<Seq<char>>::empty()
                        =~= out@.map_values(|s: String| s@));
                }
                out
            },
        }
    }
}

/// Resolved, renderable license content: a body held directly, or a bare
/// reference to a license URL.
#[derive(Debug, Clone)]
pub enum LicenseContent {
    Body(LicenseBody),
    URL(String),
}

/// A license body: deferred synthesis from an expression, or the verbatim
/// contents of a license file.
#[derive(Debug, Clone)]
pub enum LicenseBody {
    Generated(LicenseDefinition),
    Literal(String),
}

/// The resolver's answer: resolved content (or none), or the path of a
/// license file that must be read before resolution can finish.
#[derive(Debug, Clone)]
pub enum LicenseResolution {
    Resolved(Option<LicenseContent>),
    NeedsFile(String),
}

/// What license resolution answers for a manifest. A license descriptor is
/// consulted first: an expression that parses becomes a deferred generation
/// over the manifest's year and holders, one that does not parse is an
/// error, and a file descriptor asks for the file. Only a manifest without
/// a descriptor falls back to its license URL, and one with neither
/// resolves to nothing.
pub open spec fn spec_resolution_ok(
    m: Metadata,
    r: Result<LicenseResolution, LicenseError>,
) -> bool {
    match m.license {
        Some(l) => match l.kind {
            LicenseType::Expression => if spec_expression_parses(l.value@) {
                r matches Ok(
                    LicenseResolution::Resolved(
                        Some(LicenseContent::Body(LicenseBody::Generated(d))),
                    ),
                ) && d.expression@ == l.value@ && d.year == spec_metadata_year(m) && d.holders@
                    == spec_holders(m)
            } else {
                r matches Err(LicenseError::InvalidExpression)
            },
            LicenseType::File => r matches Ok(LicenseResolution::NeedsFile(p)) && p@ == l.value@,
        },
        None => match m.license_url {
            Some(u) => r matches Ok(
                LicenseResolution::Resolved(Some(LicenseContent::URL(x))),
            ) && x@ == u@,
            None => r matches Ok(LicenseResolution::Resolved(None)),
        },
    }
}

/// Resolve a manifest's license descriptor, or fall back to its license URL.
pub fn resolve_license(m: &Metadata) -> (r: Result<LicenseResolution, LicenseError>)
    ensures
        spec_resolution_ok(*m, r),
{
    match &m.license {
        Some(l) => match l.kind {
            LicenseType::Expression => {
                if expression_parses(l.value.as_str()) {
                    let def = LicenseDefinition::new(l.value.clone(), m.year(), m.holders().clone());
                    Ok(
                        LicenseResolution::Resolved(
                            Some(LicenseContent::Body(LicenseBody::Generated(def))),
                        ),
                    )
                } else {
                    Err(LicenseError::InvalidExpression)
                }
            },
            LicenseType::File => Ok(LicenseResolution::NeedsFile(l.value.clone())),
        },
        None => match &m.license_url {
            Some(u) => Ok(LicenseResolution::Resolved(Some(LicenseContent::URL(u.clone())))),
            None => Ok(LicenseResolution::Resolved(None)),
        },
    }
}

/// Finish resolution for a file-kind descriptor: the contents when the read
/// succeeded, the resolution error when it did not.
pub fn license_from_file(contents: Option<String>) -> (r: Result<LicenseContent, LicenseError>)
    ensures
        match contents {
            Some(t) => r matches Ok(LicenseContent::Body(LicenseBody::Literal(x))) && x@ == t@,
            None => r matches Err(LicenseError::FileUnreadable),
        },
{
    match contents {
        Some(t) => Ok(LicenseContent::Body(LicenseBody::Literal(t))),
        None => Err(LicenseError::FileUnreadable),
    }
}

/// License precedence: a manifest that carries a license descriptor never
/// resolves to a bare URL reference, whatever its license URL field holds.
pub proof fn lemma_license_precedence(m: Metadata, r: Result<LicenseResolution, LicenseError>)
    requires
        m.license is Some,
        spec_resolution_ok(m, r),
    ensures
        !(r matches Ok(LicenseResolution::Resolved(Some(LicenseContent::URL(u))))),
{
}

} // verus!
