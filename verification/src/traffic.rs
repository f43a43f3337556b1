//! Background traffic: a catalog of sites, one probe for each, and one
//! observation for each probe.
//!
//! The generator decides which site comes next and what a probe's result
//! means; it sends nothing itself. A probe that fails is an observation
//! like any other and holds up no later site.

use crate::command::{command, CommandRequest, CommandResult, CommandResultView, CommandView};
use vstd::prelude::*;
use vstd::string::*;

verus! {

/// A site to visit.
#[derive(Clone, Debug, PartialEq, Eq)]
pub struct SiteTarget {
    pub url: String,
    /// The name under which the site is reported.
    pub label: String,
}

/// The content of a `SiteTarget`.
pub struct SiteView {
    pub url: Seq<char>,
    pub label: Seq<char>,
}

impl View for SiteTarget {
    type V = SiteView;

    open spec fn view(&self) -> SiteView {
        SiteView { url: self.url@, label: self.label@ }
    }
}

impl SiteView {
    /// The command that probes the site: a request for its headers alone.
    pub open spec fn probe(self) -> CommandView {
        command("curl"@).arg("-I"@).arg(self.url)
    }
}

/// The site with the given address and name.
pub open spec fn site(url: Seq<char>, label: Seq<char>) -> SiteView {
    SiteView { url, label }
}

/// The content of each site of a list.
pub open spec fn site_views(sites: Seq<SiteTarget>) -> Seq<SiteView> {
    Seq::new(sites.len(), |i: int| sites[i]@)
}

impl SiteTarget {
    pub fn new(url: &str, label: &str) -> (target: SiteTarget)
        ensures
            target@ == site(url@, label@),
    {
        SiteTarget { url: String::from_str(url), label: String::from_str(label) }
    }

    /// The command that probes the site.
    pub fn probe(&self) -> (request: CommandRequest)
        ensures
            request@ == self@.probe(),
    {
        CommandRequest::new("curl").arg("-I").arg(self.url.as_str())
    }
}

/// The sites that are visited while a capture runs, in the order of the
/// visits.
pub open spec fn reference_sites() -> Seq<SiteView> {
    seq![
        site("https://www.google.com/search?q=network+diagnostics"@, "Google"@),
        site("http://www.microsoft.com"@, "Microsoft"@),
        site("http://www.amazon.com.au"@, "Amazon"@),
        site("http://www.facebook.com"@, "Facebook"@),
        site("https://www.youtube.com"@, "YouTube"@),
        site("http://www.apple.com"@, "Apple"@),
        site("http://www.github.com"@, "GitHub"@),
        site("http://www.linkedin.com"@, "LinkedIn"@),
        site("http://www.reddit.com"@, "Reddit"@),
        site("http://www.twitter.com"@, "Twitter"@),
        site("http://www.wikipedia.org"@, "Wikipedia"@),
        site("http://www.instagram.com"@, "Instagram"@),
        site("http://www.netflix.com"@, "Netflix"@),
        site("http://www.spotify.com"@, "Spotify"@),
        site("http://www.stackoverflow.com"@, "StackOverflow"@),
        site("http://www.medium.com"@, "Medium"@),
        site("http://www.quora.com"@, "Quora"@),
        site("http://www.udemy.com"@, "Udemy"@),
        site("http://www.coursera.org"@, "Coursera"@),
        site("http://www.khanacademy.org"@, "Khan Academy"@),
    ]
}

/// Builds the catalog of the sites to visit.
pub fn site_catalog() -> (catalog: Vec<SiteTarget>)
    ensures
        site_views(catalog@) == reference_sites(),
{
    let mut catalog: Vec<SiteTarget> = Vec::new();
    catalog.push(SiteTarget::new("https://www.google.com/search?q=network+diagnostics", "Google"));
    catalog.push(SiteTarget::new("http://www.microsoft.com", "Microsoft"));
    catalog.push(SiteTarget::new("http://www.amazon.com.au", "Amazon"));
    catalog.push(SiteTarget::new("http://www.facebook.com", "Facebook"));
    catalog.push(SiteTarget::new("https://www.youtube.com", "YouTube"));
    catalog.push(SiteTarget::new("http://www.apple.com", "Apple"));
    catalog.push(SiteTarget::new("http://www.github.com", "GitHub"));
    catalog.push(SiteTarget::new("http://www.linkedin.com", "LinkedIn"));
    catalog.push(SiteTarget::new("http://www.reddit.com", "Reddit"));
    catalog.push(SiteTarget::new("http://www.twitter.com", "Twitter"));
    catalog.push(SiteTarget::new("http://www.wikipedia.org", "Wikipedia"));
    catalog.push(SiteTarget::new("http://www.instagram.com", "Instagram"));
    catalog.push(SiteTarget::new("http://www.netflix.com", "Netflix"));
    catalog.push(SiteTarget::new("http://www.spotify.com", "Spotify"));
    catalog.push(SiteTarget::new("http://www.stackoverflow.com", "StackOverflow"));
    catalog.push(SiteTarget::new("http://www.medium.com", "Medium"));
    catalog.push(SiteTarget::new("http://www.quora.com", "Quora"));
    catalog.push(SiteTarget::new("http://www.udemy.com", "Udemy"));
    catalog.push(SiteTarget::new("http://www.coursera.org", "Coursera"));
    catalog.push(SiteTarget::new("http://www.khanacademy.org", "Khan Academy"));
    assert(site_views(catalog@) =~= reference_sites());
    catalog
}

/// What one probe showed.
#[derive(Clone, Debug, PartialEq, Eq)]
pub enum SiteObservation {
    /// The probe ran and succeeded.
    Visited { label: String },
    /// The probe ran and failed.
    Failed { label: String },
    /// The probe could not be started.
    NotStarted { message: String },
}

/// The content of a `SiteObservation`.
pub enum ObservationView {
    Visited { label: Seq<char> },
    Failed { label: Seq<char> },
    NotStarted { message: Seq<char> },
}

impl View for SiteObservation {
    type V = ObservationView;

    open spec fn view(&self) -> ObservationView {
        match self {
            SiteObservation::Visited { label } => ObservationView::Visited { label: label@ },
            SiteObservation::Failed { label } => ObservationView::Failed { label: label@ },
            SiteObservation::NotStarted { message } => ObservationView::NotStarted {
                message: message@,
            },
        }
    }
}

/// What the result of probing `target` shows.
pub open spec fn observed(target: SiteView, result: CommandResultView) -> ObservationView {
    match result {
        CommandResultView::Success { .. } => ObservationView::Visited { label: target.label },
        CommandResultView::Failure { .. } => ObservationView::Failed { label: target.label },
        CommandResultView::SpawnError { message } => ObservationView::NotStarted { message },
    }
}

/// Reads the result of probing `target`.
pub fn observe(target: &SiteTarget, result: &CommandResult) -> (observation: SiteObservation)
    ensures
        observation@ == observed(target@, result@),
{
    match result {
        CommandResult::Success { .. } => SiteObservation::Visited { label: target.label.clone() },
        CommandResult::Failure { .. } => SiteObservation::Failed { label: target.label.clone() },
        CommandResult::SpawnError { message } => SiteObservation::NotStarted {
            message: message.clone(),
        },
    }
}

/// The state of a generator as a mathematical value: the catalog, and how
/// many of its sites have been dealt with.
pub struct GeneratorView {
    pub catalog: Seq<SiteView>,
    pub cursor: nat,
}

impl GeneratorView {
    /// A generator that has probed nothing yet.
    pub open spec fn fresh(catalog: Seq<SiteView>) -> GeneratorView {
        GeneratorView { catalog, cursor: 0 }
    }

    pub open spec fn valid(self) -> bool {
        self.cursor <= self.catalog.len()
    }

    /// Every site has been dealt with.
    pub open spec fn finished(self) -> bool {
        self.cursor >= self.catalog.len()
    }

    /// The probe to send next, if a site is left.
    pub open spec fn next_probe(self) -> Option<CommandView> {
        if self.finished() {
            None
        } else {
            Some(self.catalog[self.cursor as int].probe())
        }
    }

    /// The state after the result of the pending probe came in, and what
    /// it showed. The state moves on to the next site whatever the result.
    /// With no probe pending, nothing changes and nothing is shown.
    pub open spec fn record(self, result: CommandResultView) -> (
        GeneratorView,
        Option<ObservationView>,
    ) {
        if self.finished() {
            (self, None)
        } else {
            (
                GeneratorView { cursor: self.cursor + 1, ..self },
                Some(observed(self.catalog[self.cursor as int], result)),
            )
        }
    }
}

/// Walks a catalog of sites, one probe at a time.
pub struct TrafficGenerator {
    catalog: Vec<SiteTarget>,
    cursor: usize,
}

impl View for TrafficGenerator {
    type V = GeneratorView;

    closed spec fn view(&self) -> GeneratorView {
        GeneratorView { catalog: site_views(self.catalog@), cursor: self.cursor as nat }
    }
}

/// The content of an observation that may be absent.
pub open spec fn observation_view(observation: Option<SiteObservation>) -> Option<
    ObservationView,
> {
    match observation {
        Some(o) => Some(o@),
        None => None,
    }
}

/// The content of a request that may be absent.
pub open spec fn request_view(request: Option<CommandRequest>) -> Option<CommandView> {
    match request {
        Some(r) => Some(r@),
        None => None,
    }
}

impl TrafficGenerator {
    /// A generator for `catalog`, at its first site.
    pub fn new(catalog: Vec<SiteTarget>) -> (generator: TrafficGenerator)
        ensures
            generator@ == GeneratorView::fresh(site_views(catalog@)),
            generator@.valid(),
    {
        TrafficGenerator { catalog, cursor: 0 }
    }

    /// The sites of the catalog.
    pub fn catalog(&self) -> (catalog: &Vec<SiteTarget>)
        ensures
            site_views(catalog@) == self@.catalog,
    {
        &self.catalog
    }

    /// The number of sites dealt with so far.
    pub fn position(&self) -> (cursor: usize)
        ensures
            cursor == self@.cursor,
    {
        self.cursor
    }

    /// Tells whether every site has been dealt with.
    pub fn is_finished(&self) -> (done: bool)
        ensures
            done == self@.finished(),
    {
        self.cursor >= self.catalog.len()
    }

    /// The probe to send next, or none when the catalog is through.
    pub fn next_probe(&self) -> (request: Option<CommandRequest>)
        ensures
            request_view(request) == self@.next_probe(),
    {
        if self.cursor < self.catalog.len() {
            Some(self.catalog[self.cursor].probe())
        } else {
            None
        }
    }

    /// Takes in the result of the pending probe, moves on to the next
    /// site, and says what the probe showed.
    pub fn record(&mut self, result: &CommandResult) -> (observation: Option<SiteObservation>)
        ensures
            old(self)@.valid() ==> final(self)@.valid(),
            (final(self)@, observation_view(observation)) == old(self)@.record(result@),
    {
        if self.cursor < self.catalog.len() {
            let observation = observe(&self.catalog[self.cursor], result);
            self.cursor = self.cursor + 1;
            Some(observation)
        } else {
            None
        }
    }
}

/// The state of `start` after the results of its next probes, in order.
pub open spec fn after_results(start: GeneratorView, results: Seq<CommandResultView>) -> GeneratorView
    decreases results.len(),
{
    if results.len() == 0 {
        start
    } else {
        after_results(start, results.drop_last()).record(results.last()).0
    }
}

/// What the last of `results` showed.
pub open spec fn last_observation(
    start: GeneratorView,
    results: Seq<CommandResultView>,
) -> Option<ObservationView>
    recommends
        results.len() > 0,
{
    after_results(start, results.drop_last()).record(results.last()).1
}

/// Failures are isolated: whatever the results of the probes so far,
/// successes, failures or probes that did not start, the generator has
/// moved on by one site for each, its next probe is for the site that
/// follows, and the last result gave one observation, about its own site.
pub proof fn lemma_every_site_is_probed(catalog: Seq<SiteView>, results: Seq<CommandResultView>)
    requires
        results.len() <= catalog.len(),
    ensures
        after_results(GeneratorView::fresh(catalog), results) == (GeneratorView {
            catalog,
            cursor: results.len(),
        }),
        after_results(GeneratorView::fresh(catalog), results).next_probe() == if results.len()
            < catalog.len() {
            Some(catalog[results.len() as int].probe())
        } else {
            None
        },
        results.len() > 0 ==> last_observation(GeneratorView::fresh(catalog), results) == Some(
            observed(catalog[results.len() - 1], results.last()),
        ),
    decreases results.len(),
{
    if results.len() > 0 {
        lemma_every_site_is_probed(catalog, results.drop_last());
    }
}

/// The result of a probe has no say in what is probed next: two
/// generators in the same state are in the same state after any two
/// results.
pub proof fn lemma_result_does_not_steer(
    now: GeneratorView,
    one: CommandResultView,
    other: CommandResultView,
)
    ensures
        now.record(one).0 == now.record(other).0,
        now.record(one).1 is Some <==> !now.finished(),
{
}

} // verus!
