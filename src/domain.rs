use vstd::prelude::*;
use vstd::string::*;

verus! {

/// Relies on `tldextract::TldExtractor`, the public-suffix-aware extractor.
#[verifier::external_type_specification]
#[verifier::external_body]
pub struct ExTldExtractor(tldextract::TldExtractor);

/// Relies on `tldextract::TldExtractError`, the extractor's error for a name
/// it cannot read as a host.
#[verifier::external_type_specification]
#[verifier::external_body]
pub struct ExTldExtractError(tldextract::TldExtractError);

/// Relies on `TldExtractor::new` with the default options: it reads the suffix
/// data from a local cache file, else takes the data bundled with the crate.
#[verifier::external_body]
fn new_extractor() -> tldextract::TldExtractor {
    tldextract::TldExtractor::new(tldextract::TldOption::default())
}

/// Relies on `TldExtractor::extract`: the subdomain, domain and suffix parts
/// of a name, each absent where the suffix data does not give it.
#[verifier::external_body]
fn extract_parts(
    extractor: &tldextract::TldExtractor,
    name: &str,
) -> Result<SuffixSplit, tldextract::TldExtractError> {
    let t = extractor.extract(name)?;
    Ok(SuffixSplit { subdomain: t.subdomain, domain: t.domain, suffix: t.suffix })
}

/// A fully-qualified name split into the part below the registrable domain,
/// the registrable domain and the public suffix.
#[derive(Debug, Clone, PartialEq, Eq)]
pub struct DecomposedDomain {
    pub label: Option<String>,
    pub registrable_domain: String,
    pub public_suffix: String,
}

/// The name's suffix is not in the public-suffix data, or the parts that
/// the data gave do not put the name back together.
#[derive(Debug, Clone, Copy, PartialEq, Eq, Structural)]
pub enum DecompositionError {
    Unreadable,
    UnrecognizedSuffix,
    NoRegistrableDomain,
    Mismatch,
}

/// The three parts exactly as the extractor reports them.
#[derive(Debug, Clone, PartialEq, Eq)]
pub struct SuffixSplit {
    pub subdomain: Option<String>,
    pub domain: Option<String>,
    pub suffix: Option<String>,
}

/// `domain + "." + suffix`: the zone apex.
pub open spec fn apex_of(domain: Seq<char>, suffix: Seq<char>) -> Seq<char> {
    domain + "."@ + suffix
}

/// The full name that a label (if any) and an apex make.
pub open spec fn join_label(label: Option<Seq<char>>, apex: Seq<char>) -> Seq<char> {
    match label {
        Some(l) => l + "."@ + apex,
        None => apex,
    }
}

pub open spec fn opt_view(o: Option<String>) -> Option<Seq<char>> {
    match o {
        Some(s) => Some(s@),
        None => None,
    }
}

impl DecomposedDomain {
    pub open spec fn apex(&self) -> Seq<char> {
        apex_of(self.registrable_domain@, self.public_suffix@)
    }

    pub open spec fn full_name(&self) -> Seq<char> {
        join_label(opt_view(self.label), self.apex())
    }

    /// The zone apex, `registrable_domain.public_suffix`.
    pub fn apex_name(&self) -> (r: String)
        ensures
            r@ == self.apex(),
    {
        let r = self.registrable_domain.clone().concat(".").concat(self.public_suffix.as_str());
        proof {
            reveal_strlit(".");
        }
        r
    }

    /// The full name, `label.registrable_domain.public_suffix` (or the apex
    /// when there is no label).
    pub fn full_name_string(&self) -> (r: String)
        ensures
            r@ == self.full_name(),
    {
        let apex = self.apex_name();
        match &self.label {
            Some(l) => {
                proof {
                    reveal_strlit(".");
                }
                l.clone().concat(".").concat(apex.as_str())
            },
            None => apex,
        }
    }
}

/// What `from_parts` gives for the extractor's parts of `name`.
pub open spec fn parts_result(
    name: Seq<char>,
    subdomain: Option<Seq<char>>,
    domain: Option<Seq<char>>,
    suffix: Option<Seq<char>>,
) -> Result<(Option<Seq<char>>, Seq<char>, Seq<char>), DecompositionError> {
    if suffix is None {
        Err(DecompositionError::UnrecognizedSuffix)
    } else if domain is None {
        Err(DecompositionError::NoRegistrableDomain)
    } else if join_label(subdomain, apex_of(domain->0, suffix->0)) != name {
        Err(DecompositionError::Mismatch)
    } else {
        Ok((subdomain, domain->0, suffix->0))
    }
}

pub open spec fn decomposed_view(d: DecomposedDomain) -> (Option<Seq<char>>, Seq<char>, Seq<char>) {
    (opt_view(d.label), d.registrable_domain@, d.public_suffix@)
}

/// Turns the extractor's parts of `name` into a `DecomposedDomain`, and
/// accepts them only when they put `name` back together exactly.
pub fn from_parts(name: &str, split: SuffixSplit) -> (r: Result<DecomposedDomain, DecompositionError>)
    ensures
        match (r, parts_result(name@, opt_view(split.subdomain), opt_view(split.domain), opt_view(split.suffix))) {
            (Ok(d), Ok(v)) => decomposed_view(d) == v,
            (Err(e), Err(f)) => e == f,
            _ => false,
        },
{
    let SuffixSplit { subdomain, domain, suffix } = split;
    match (suffix, domain) {
        (None, _) => Err(DecompositionError::UnrecognizedSuffix),
        (Some(_), None) => Err(DecompositionError::NoRegistrableDomain),
        (Some(public_suffix), Some(registrable_domain)) => {
            let d = DecomposedDomain { label: subdomain, registrable_domain, public_suffix };
            let full = d.full_name_string();
            let given = String::from_str(name);
            if full == given {
                Ok(d)
            } else {
                Err(DecompositionError::Mismatch)
            }
        },
    }
}

/// Splits names with the public-suffix data, loaded once.
pub struct Decomposer {
    extractor: tldextract::TldExtractor,
}

impl Decomposer {
    pub fn new() -> (r: Decomposer) {
        Decomposer { extractor: new_extractor() }
    }

    /// Splits `name`; whatever the suffix data says, a result that comes back
    /// puts `name` back together exactly.
    pub fn decompose(&self, name: &str) -> (r: Result<DecomposedDomain, DecompositionError>)
        ensures
            r is Ok ==> r->Ok_0.full_name() == name@,
    {
        match extract_parts(&self.extractor, name) {
            Ok(split) => {
                let r = from_parts(name, split);
                proof {
                    if r is Ok {
                        let d = r->Ok_0;
                        assert(decomposed_view(d).0 == opt_view(d.label));
                    }
                }
                r
            },
            Err(_) => Err(DecompositionError::Unreadable),
        }
    }
}

/// Splits `name` with freshly loaded public-suffix data.
pub fn decompose(name: &str) -> (r: Result<DecomposedDomain, DecompositionError>)
    ensures
        r is Ok ==> r->Ok_0.full_name() == name@,
{
    Decomposer::new().decompose(name)
}

/// Reassembling the parts of a successful decomposition gives the name back:
/// `label.registrable_domain.public_suffix`, or without the label
/// `registrable_domain.public_suffix`.
pub proof fn lemma_decomposition_reassembles(name: Seq<char>, d: DecomposedDomain)
    requires
        d.full_name() == name,
    ensures
        d.label is Some ==> name == d.label->0@ + "."@ + d.registrable_domain@ + "."@ + d.public_suffix@,
        d.label is None ==> name == d.registrable_domain@ + "."@ + d.public_suffix@,
{
    if d.label is Some {
        assert(d.label->0@ + "."@ + d.registrable_domain@ + "."@ + d.public_suffix@
            =~= d.label->0@ + "."@ + (d.registrable_domain@ + "."@ + d.public_suffix@));
    }
}

/// Parts in which the suffix data found no public suffix are refused, with
/// `UnrecognizedSuffix`, whatever the other parts are.
pub proof fn lemma_unrecognized_suffix_refused(
    name: Seq<char>,
    subdomain: Option<Seq<char>>,
    domain: Option<Seq<char>>,
)
    ensures
        parts_result(name, subdomain, domain, None) == Err::<(Option<Seq<char>>, Seq<char>, Seq<char>), DecompositionError>(DecompositionError::UnrecognizedSuffix),
{
}

} // verus!
