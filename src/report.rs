use vstd::prelude::*;
use vstd::string::*;

verus! {

/// The text of each string of `v`.
pub open spec fn string_views(v: Seq<String>) -> Seq<Seq<char>> {
    v.map_values(|d: String| d@)
}

/// The result of one subdomain's update.
#[derive(Debug, Clone, Copy, PartialEq, Eq, Structural)]
pub enum Outcome {
    Success,
    Fail,
    Skipped,
}

/// The backend that a progress line speaks of.
#[derive(Debug, Clone, Copy, PartialEq, Eq, Structural)]
pub enum Backend {
    Cloudflare,
    Ydns,
}

pub open spec fn backend_tag(b: Backend) -> Seq<char> {
    match b {
        Backend::Cloudflare => "Cloudflare"@,
        Backend::Ydns => "YDNS"@,
    }
}

pub open spec fn outcome_text(o: Outcome) -> Seq<char> {
    match o {
        Outcome::Success => "Success"@,
        Outcome::Fail => "Fail"@,
        Outcome::Skipped => "Skipped"@,
    }
}

/// `[<tag>] Update <subdomain>: <outcome>`
pub open spec fn outcome_line(b: Backend, subdomain: Seq<char>, o: Outcome) -> Seq<char> {
    "["@ + backend_tag(b) + "] Update "@ + subdomain + ": "@ + outcome_text(o)
}

fn tag_string(b: Backend) -> (r: String)
    ensures
        r@ == backend_tag(b),
{
    proof {
        reveal_strlit("Cloudflare");
        reveal_strlit("YDNS");
    }
    match b {
        Backend::Cloudflare => String::from_str("Cloudflare"),
        Backend::Ydns => String::from_str("YDNS"),
    }
}

fn outcome_string(o: Outcome) -> (r: String)
    ensures
        r@ == outcome_text(o),
{
    proof {
        reveal_strlit("Success");
        reveal_strlit("Fail");
        reveal_strlit("Skipped");
    }
    match o {
        Outcome::Success => String::from_str("Success"),
        Outcome::Fail => String::from_str("Fail"),
        Outcome::Skipped => String::from_str("Skipped"),
    }
}

/// The progress line for one subdomain.
pub fn progress_line(b: Backend, subdomain: &str, o: Outcome) -> (r: String)
    ensures
        r@ == outcome_line(b, subdomain@, o),
{
    let tag = tag_string(b);
    let text = outcome_string(o);
    String::from_str("[").concat(tag.as_str()).concat("] Update ").concat(subdomain).concat(
        ": ",
    ).concat(text.as_str())
}

/// One backend's run over its configured subdomains, in their order: which
/// one is next, and the outcomes of those attempted so far.
pub struct Progress {
    backend: Backend,
    domains: Vec<String>,
    outcomes: Vec<Outcome>,
}

impl Progress {
    pub closed spec fn backend_spec(&self) -> Backend {
        self.backend
    }

    pub closed spec fn domains_spec(&self) -> Seq<Seq<char>> {
        string_views(self.domains@)
    }

    pub closed spec fn outcomes_spec(&self) -> Seq<Outcome> {
        self.outcomes@
    }

    /// The attempts recorded never outnumber the configured subdomains.
    pub open spec fn wf(&self) -> bool {
        self.outcomes_spec().len() <= self.domains_spec().len()
    }

    /// One line per attempted subdomain, in configured order.
    pub open spec fn lines(&self) -> Seq<Seq<char>> {
        Seq::new(
            self.outcomes_spec().len(),
            |i: int| outcome_line(self.backend_spec(), self.domains_spec()[i], self.outcomes_spec()[i]),
        )
    }

    /// A run of `backend` over `domains` that has attempted nothing yet.
    pub fn new(backend: Backend, domains: Vec<String>) -> (r: Progress)
        ensures
            r.wf(),
            r.backend_spec() == backend,
            r.domains_spec() == string_views(domains@),
            r.outcomes_spec() == Seq::<Outcome>::empty(),
    {
        Progress { backend, domains, outcomes: Vec::new() }
    }

    /// The first configured subdomain not yet attempted, if any.
    pub fn next_subdomain(&self) -> (r: Option<String>)
        requires
            self.wf(),
        ensures
            r is None <==> self.outcomes_spec().len() == self.domains_spec().len(),
            r is Some ==> r->0@ == self.domains_spec()[self.outcomes_spec().len() as int],
    {
        let k = self.outcomes.len();
        if k < self.domains.len() {
            assert(self.domains_spec()[k as int] == self.domains@[k as int]@);
            Some(self.domains[k].clone())
        } else {
            None
        }
    }

    /// Records the outcome of the subdomain that `next_subdomain` gave, and
    /// gives its progress line.
    pub fn record(&mut self, o: Outcome) -> (r: String)
        requires
            old(self).wf(),
            old(self).outcomes_spec().len() < old(self).domains_spec().len(),
        ensures
            final(self).wf(),
            final(self).backend_spec() == old(self).backend_spec(),
            final(self).domains_spec() == old(self).domains_spec(),
            final(self).outcomes_spec() == old(self).outcomes_spec().push(o),
            r@ == outcome_line(
                old(self).backend_spec(),
                old(self).domains_spec()[old(self).outcomes_spec().len() as int],
                o,
            ),
    {
        let k = self.outcomes.len();
        let r = progress_line(self.backend, self.domains[k].as_str(), o);
        assert(self.domains_spec()[k as int] == self.domains@[k as int]@);
        self.outcomes.push(o);
        r
    }

    /// The progress lines so far.
    pub fn report(&self) -> (r: Vec<String>)
        requires
            self.wf(),
        ensures
            string_views(r@) == self.lines(),
    {
        let mut r: Vec<String> = Vec::new();
        let mut i: usize = 0;
        while i < self.outcomes.len()
            invariant
                self.wf(),
                i <= self.outcomes@.len(),
                r@.len() == i,
                string_views(r@) == self.lines().take(i as int),
            decreases self.outcomes@.len() - i,
        {
            let l = progress_line(self.backend, self.domains[i].as_str(), self.outcomes[i]);
            assert(self.domains_spec()[i as int] == self.domains@[i as int]@);
            let ghost prev = r@;
            r.push(l);
            assert forall|j: int| 0 <= j < i + 1 implies string_views(r@)[j] == self.lines().take(
                i + 1,
            )[j] by {
                if j < i {
                    assert(r@[j] == prev[j]);
                    assert(string_views(prev)[j] == self.lines().take(i as int)[j]);
                }
            }
            assert(string_views(r@) =~= self.lines().take(i + 1));
            i = i + 1;
        }
        assert(self.lines().take(i as int) =~= self.lines());
        r
    }
}

/// Recording an attempt adds exactly one line, for the next configured
/// subdomain, after the lines already there: the lines follow the configured
/// order and there is one per subdomain attempted.
pub proof fn lemma_one_line_per_attempt(pre: Progress, post: Progress, o: Outcome)
    requires
        pre.wf(),
        pre.outcomes_spec().len() < pre.domains_spec().len(),
        post.backend_spec() == pre.backend_spec(),
        post.domains_spec() == pre.domains_spec(),
        post.outcomes_spec() == pre.outcomes_spec().push(o),
    ensures
        post.wf(),
        post.lines() == pre.lines().push(
            outcome_line(pre.backend_spec(), pre.domains_spec()[pre.outcomes_spec().len() as int], o),
        ),
        post.lines().len() == post.outcomes_spec().len(),
{
    assert(post.lines() =~= pre.lines().push(
        outcome_line(pre.backend_spec(), pre.domains_spec()[pre.outcomes_spec().len() as int], o),
    ));
}

/// The lines of a run of `b` over `domains` whose attempts gave `outcomes`:
/// the i-th line is about the i-th configured subdomain.
pub open spec fn run_lines(b: Backend, domains: Seq<Seq<char>>, outcomes: Seq<Outcome>) -> Seq<Seq<char>> {
    Seq::new(outcomes.len(), |i: int| outcome_line(b, domains[i], outcomes[i]))
}

/// `post` is `pre` after `record(o)`.
pub open spec fn records(pre: Progress, post: Progress, o: Outcome) -> bool {
    &&& pre.wf()
    &&& pre.outcomes_spec().len() < pre.domains_spec().len()
    &&& post.backend_spec() == pre.backend_spec()
    &&& post.domains_spec() == pre.domains_spec()
    &&& post.outcomes_spec() == pre.outcomes_spec().push(o)
}

/// A whole run: from a fresh start over `domains`, each state records the
/// next outcome of `outcomes` on the one before.
pub open spec fn is_run(states: Seq<Progress>, b: Backend, domains: Seq<Seq<char>>, outcomes: Seq<Outcome>) -> bool {
    &&& states.len() == outcomes.len() + 1
    &&& states[0].backend_spec() == b
    &&& states[0].domains_spec() == domains
    &&& states[0].outcomes_spec() == Seq::<Outcome>::empty()
    &&& forall|j: int| 0 <= j < outcomes.len() ==> records(#[trigger] states[j], states[j + 1], outcomes[j])
}

/// Over a whole run the subdomains are attempted in configured order, never
/// more than are configured, and the run has one line per attempt: the i-th
/// line reports the i-th configured subdomain with the i-th outcome.
pub proof fn lemma_whole_run(states: Seq<Progress>, b: Backend, domains: Seq<Seq<char>>, outcomes: Seq<Outcome>)
    requires
        is_run(states, b, domains, outcomes),
    ensures
        outcomes.len() <= domains.len(),
        states.last().backend_spec() == b,
        states.last().domains_spec() == domains,
        states.last().wf(),
        states.last().outcomes_spec() == outcomes,
        states.last().lines() == run_lines(b, domains, outcomes),
        states.last().lines().len() == outcomes.len(),
    decreases outcomes.len(),
{
    let last = states.last();
    if outcomes.len() == 0 {
        assert(last.lines() =~= run_lines(b, domains, outcomes));
    } else {
        let n = outcomes.len() - 1;
        let prefix = states.take(n + 1);
        let os = outcomes.take(n);
        assert forall|j: int| 0 <= j < os.len() implies records(#[trigger] prefix[j], prefix[j + 1], os[j]) by {
            assert(records(states[j], states[j + 1], outcomes[j]));
        }
        assert(prefix[0] == states[0]);
        lemma_whole_run(prefix, b, domains, os);
        let mid = states[n];
        assert(prefix.last() == mid);
        assert(records(mid, last, outcomes[n]));
        lemma_one_line_per_attempt(mid, last, outcomes[n]);
        assert(os.push(outcomes[n]) =~= outcomes);
        let l = outcome_line(b, domains[n], outcomes[n]);
        assert(run_lines(b, domains, outcomes) =~= run_lines(b, domains, os).push(l));
    }
}

} // verus!
