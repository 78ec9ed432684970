use vstd::prelude::*;
use vstd::utf8::{decode_utf8, valid_utf8};
use crate::cache::{
    cache_key_of, derive_key, resolve, resolve_model, CacheLookupResult, LookupModel, ReplyModel,
    StoreReply,
};
use crate::classifier::{classification_of, classify, Classification};
use crate::decode::{decode_lossy, decode_strict, lossy_text_of};

verus! {

/// Where the HTML of a page came from.
#[derive(Clone, Copy, Debug, PartialEq, Eq, Structural)]
pub enum Source {
    Cache,
    HeadlessFetch,
}

/// The HTML that a page resolved to.
#[derive(Clone, Debug)]
pub struct ResolvedContent {
    pub url: String,
    pub html: String,
    pub source: Source,
}

/// The Markdown made of one page, ready for the sink.
#[derive(Clone, Debug)]
pub struct MarkdownArtifact {
    pub url: String,
    pub markdown: String,
    pub sequence_number: Option<u64>,
}

/// How a page's pipeline ended.
#[derive(Clone, Copy, Debug, PartialEq, Eq, Structural)]
pub enum Outcome {
    /// An artifact was handed to the sink.
    Saved,
    /// The cache held nothing for the page.
    CacheMiss,
    /// The cache failed or did not answer in time.
    CacheError,
    /// The cached body was not UTF-8.
    UndecodableBody,
    /// The headless browser could not fetch the page.
    FetchFailed,
}

/// The state of one page's pipeline.
#[derive(Clone, Copy, Debug, PartialEq, Eq, Structural)]
pub enum Stage {
    Received,
    AwaitingPermit,
    CacheLookup,
    DynamicRefetch,
    Convert,
    Persist,
    Done,
    Unresolved,
}

/// What happened to a page's pipeline since its last step.
#[derive(Clone, Debug)]
pub enum Event {
    /// The page was discovered.
    Start,
    /// A concurrency permit was handed to the pipeline.
    PermitGranted,
    /// The bounded cache lookup finished.
    LookupReplied(StoreReply),
    /// The headless fetch finished, with the body or with a failure.
    FetchReplied(Option<Vec<u8>>),
    /// The converter finished, with the Markdown, or with nothing when it
    /// broke down on the markup.
    Converted(Option<String>),
    /// The sink finished writing, whether or not the write succeeded.
    PersistFinished,
}

/// What the pipeline asks its runner to do next.
#[derive(Clone, Debug)]
pub enum Action {
    /// Wait for a concurrency permit.
    AcquirePermit,
    /// Look the page up in the cache under this key.
    LookupCache(String),
    /// Fetch this URL with the headless browser.
    HeadlessFetch(String),
    /// Convert this content to Markdown.
    Convert(ResolvedContent),
    /// Write this artifact.
    Persist(MarkdownArtifact),
    /// Give the permit back; the page ended this way.
    Release(Outcome),
    /// The event does not apply in this stage.
    Ignore,
}

pub ghost enum EventModel {
    Start,
    PermitGranted,
    LookupReplied(ReplyModel),
    FetchReplied(Option<Seq<u8>>),
    Converted(Option<Seq<char>>),
    PersistFinished,
}

pub ghost enum ActionModel {
    AcquirePermit,
    LookupCache(Seq<char>),
    HeadlessFetch(Seq<char>),
    Convert(Seq<char>, Seq<char>),
    Persist(Seq<char>, Seq<char>, Option<u64>),
    Release(Outcome),
    Ignore,
}

impl View for Event {
    type V = EventModel;

    open spec fn view(&self) -> EventModel {
        match self {
            Event::Start => EventModel::Start,
            Event::PermitGranted => EventModel::PermitGranted,
            Event::LookupReplied(r) => EventModel::LookupReplied(r@),
            Event::FetchReplied(b) => EventModel::FetchReplied(
                match b {
                    Some(v) => Some(v@),
                    None => None,
                },
            ),
            Event::Converted(m) => EventModel::Converted(
                match m {
                    Some(t) => Some(t@),
                    None => None,
                },
            ),
            Event::PersistFinished => EventModel::PersistFinished,
        }
    }
}

impl View for MarkdownArtifact {
    type V = ActionModel;

    /// The artifact as the action that hands it to the sink.
    open spec fn view(&self) -> ActionModel {
        ActionModel::Persist(self.url@, self.markdown@, self.sequence_number)
    }
}

impl View for Action {
    type V = ActionModel;

    open spec fn view(&self) -> ActionModel {
        match self {
            Action::AcquirePermit => ActionModel::AcquirePermit,
            Action::LookupCache(k) => ActionModel::LookupCache(k@),
            Action::HeadlessFetch(u) => ActionModel::HeadlessFetch(u@),
            Action::Convert(c) => ActionModel::Convert(c.url@, c.html@),
            Action::Persist(a) => a@,
            Action::Release(o) => ActionModel::Release(*o),
            Action::Ignore => ActionModel::Ignore,
        }
    }
}

/// The stages in which the pipeline holds a permit.
pub open spec fn holds_permit(s: Stage) -> bool {
    s == Stage::CacheLookup || s == Stage::DynamicRefetch || s == Stage::Convert || s
        == Stage::Persist
}

pub open spec fn is_terminal(s: Stage) -> bool {
    s == Stage::Done || s == Stage::Unresolved
}

/// The Markdown of a conversion: what the converter made, or an empty document
/// when it broke down.
pub open spec fn converted_markdown(m: Option<Seq<char>>) -> Seq<char> {
    match m {
        Some(t) => t,
        None => Seq::empty(),
    }
}

/// What follows a finished cache lookup: a static cached page is converted, a
/// dynamic one is fetched again with the headless browser, anything else
/// leaves the page unresolved.
pub open spec fn lookup_step(url: Seq<char>, l: LookupModel) -> (Stage, ActionModel) {
    match l {
        LookupModel::Hit(b) => if !valid_utf8(b) {
            (Stage::Unresolved, ActionModel::Release(Outcome::UndecodableBody))
        } else if classification_of(decode_utf8(b)) == Classification::Static {
            (Stage::Convert, ActionModel::Convert(url, decode_utf8(b)))
        } else {
            (Stage::DynamicRefetch, ActionModel::HeadlessFetch(url))
        },
        LookupModel::Miss => (Stage::Unresolved, ActionModel::Release(Outcome::CacheMiss)),
        LookupModel::Error => (Stage::Unresolved, ActionModel::Release(Outcome::CacheError)),
    }
}

/// One transition of a page's pipeline: the next stage and the action asked for.
pub open spec fn step_model(s: Stage, url: Seq<char>, e: EventModel) -> (Stage, ActionModel) {
    match e {
        EventModel::Start => if s == Stage::Received {
            (Stage::AwaitingPermit, ActionModel::AcquirePermit)
        } else {
            (s, ActionModel::Ignore)
        },
        EventModel::PermitGranted => if s == Stage::AwaitingPermit {
            (Stage::CacheLookup, ActionModel::LookupCache(cache_key_of(url)))
        } else {
            (s, ActionModel::Ignore)
        },
        EventModel::LookupReplied(r) => if s == Stage::CacheLookup {
            lookup_step(url, resolve_model(r))
        } else {
            (s, ActionModel::Ignore)
        },
        EventModel::FetchReplied(b) => if s == Stage::DynamicRefetch {
            match b {
                Some(body) => (Stage::Convert, ActionModel::Convert(url, lossy_text_of(body))),
                None => (Stage::Unresolved, ActionModel::Release(Outcome::FetchFailed)),
            }
        } else {
            (s, ActionModel::Ignore)
        },
        EventModel::Converted(m) => if s == Stage::Convert {
            (Stage::Persist, ActionModel::Persist(url, converted_markdown(m), None))
        } else {
            (s, ActionModel::Ignore)
        },
        EventModel::PersistFinished => if s == Stage::Persist {
            (Stage::Done, ActionModel::Release(Outcome::Saved))
        } else {
            (s, ActionModel::Ignore)
        },
    }
}

/// The artifact for a page from what its conversion gave: the Markdown, or an
/// empty document when the converter broke down.
pub fn artifact_for(url: &String, converted: Option<String>) -> (r: MarkdownArtifact)
    ensures
        r.url@ == url@,
        r.markdown@ == converted_markdown(
            match converted {
                Some(t) => Some(t@),
                None => None,
            },
        ),
        r.sequence_number is None,
{
    let markdown = match converted {
        Some(t) => t,
        None => String::new(),
    };
    MarkdownArtifact { url: url.clone(), markdown, sequence_number: None }
}

/// What to do with a page once its cache lookup finished.
pub enum Selection {
    /// The cached body is static: use it.
    Accept(ResolvedContent),
    /// The cached body needs scripts: fetch the page with the headless browser.
    Refetch,
    /// The page cannot be resolved this run.
    Unresolved(Outcome),
}

/// Decides, from a cache lookup, how a page is resolved.
pub fn select(url: &String, lookup: CacheLookupResult) -> (r: Selection)
    ensures
        ({
            let (stage, action) = lookup_step(url@, lookup@);
            match r {
                Selection::Accept(c) => stage == Stage::Convert && c.url@ == url@ && c.source
                    == Source::Cache && lookup@ is Hit && c.html@ == decode_utf8(lookup@->Hit_0)
                    && action == ActionModel::Convert(url@, c.html@),
                Selection::Refetch => stage == Stage::DynamicRefetch && action
                    == ActionModel::HeadlessFetch(url@),
                Selection::Unresolved(o) => stage == Stage::Unresolved && action
                    == ActionModel::Release(o),
            }
        }),
{
    match lookup {
        CacheLookupResult::Hit(body) => {
            match decode_strict(body) {
                None => Selection::Unresolved(Outcome::UndecodableBody),
                Some(html) => {
                    match classify(html.as_str()) {
                        Classification::Static => Selection::Accept(
                            ResolvedContent { url: url.clone(), html, source: Source::Cache },
                        ),
                        Classification::Dynamic => Selection::Refetch,
                    }
                },
            }
        },
        CacheLookupResult::Miss => Selection::Unresolved(Outcome::CacheMiss),
        CacheLookupResult::Error => Selection::Unresolved(Outcome::CacheError),
    }
}

/// Why a headless fetch gave no content.
#[derive(Clone, Copy, Debug, PartialEq, Eq, Structural)]
pub enum FetchError {
    Failed,
}

/// Takes what the headless browser returned for a page.
pub fn accept_headless(url: &String, fetched: Option<Vec<u8>>) -> (r: Result<
    ResolvedContent,
    FetchError,
>)
    ensures
        match fetched {
            Some(b) => r is Ok && r->Ok_0.url@ == url@ && r->Ok_0.html@ == lossy_text_of(b@)
                && r->Ok_0.source == Source::HeadlessFetch,
            None => r == Err::<ResolvedContent, FetchError>(FetchError::Failed),
        },
{
    match fetched {
        Some(body) => Ok(
            ResolvedContent {
                url: url.clone(),
                html: decode_lossy(&body),
                source: Source::HeadlessFetch,
            },
        ),
        None => Err(FetchError::Failed),
    }
}

/// The pipeline of one discovered page.
pub struct UrlTask {
    pub url: String,
    pub stage: Stage,
    /// Permits handed to this pipeline so far.
    pub permits_taken: Ghost<nat>,
    /// Permits this pipeline gave back so far.
    pub permits_returned: Ghost<nat>,
    /// Artifacts this pipeline handed to the sink so far.
    pub artifacts: Ghost<nat>,
}

impl UrlTask {
    /// The counters agree with the stage: a permit is held exactly in the
    /// middle stages, taken at most once, and an artifact exists exactly from
    /// the persist stage on.
    pub open spec fn wf(&self) -> bool {
        &&& self.permits_taken@ <= 1
        &&& self.permits_taken@ == self.permits_returned@ + (if holds_permit(self.stage) {
            1nat
        } else {
            0nat
        })
        &&& (self.stage == Stage::Received || self.stage == Stage::AwaitingPermit)
            ==> self.permits_taken@ == 0
        &&& self.artifacts@ == (if self.stage == Stage::Persist || self.stage == Stage::Done {
            1nat
        } else {
            0nat
        })
    }

    /// A pipeline for a page just discovered.
    pub fn new(url: String) -> (r: UrlTask)
        ensures
            r.wf(),
            r.url == url,
            r.stage == Stage::Received,
            r.permits_taken@ == 0,
            r.permits_returned@ == 0,
            r.artifacts@ == 0,
    {
        UrlTask {
            url,
            stage: Stage::Received,
            permits_taken: Ghost(0),
            permits_returned: Ghost(0),
            artifacts: Ghost(0),
        }
    }

    /// Whether the pipeline has ended, saved or unresolved.
    pub fn is_finished(&self) -> (r: bool)
        ensures
            r == is_terminal(self.stage),
    {
        self.stage == Stage::Done || self.stage == Stage::Unresolved
    }

    fn after_lookup(&mut self, lookup: CacheLookupResult) -> (r: Action)
        requires
            old(self).stage == Stage::CacheLookup,
        ensures
            (final(self).stage, r@) == lookup_step(old(self).url@, lookup@),
            final(self).url == old(self).url,
            final(self).permits_taken == old(self).permits_taken,
            final(self).permits_returned == old(self).permits_returned,
            final(self).artifacts == old(self).artifacts,
    {
        match select(&self.url, lookup) {
            Selection::Accept(content) => {
                self.stage = Stage::Convert;
                Action::Convert(content)
            },
            Selection::Refetch => {
                self.stage = Stage::DynamicRefetch;
                Action::HeadlessFetch(self.url.clone())
            },
            Selection::Unresolved(o) => {
                self.stage = Stage::Unresolved;
                Action::Release(o)
            },
        }
    }

    /// Moves the pipeline on by one event, and says what its runner must do.
    pub fn step(&mut self, e: Event) -> (r: Action)
        requires
            old(self).wf(),
        ensures
            final(self).wf(),
            (final(self).stage, r@) == step_model(old(self).stage, old(self).url@, e@),
            final(self).url == old(self).url,
            final(self).permits_taken@ == old(self).permits_taken@ + (if old(self).stage
                == Stage::AwaitingPermit && final(self).stage == Stage::CacheLookup {
                1nat
            } else {
                0nat
            }),
            final(self).permits_returned@ == old(self).permits_returned@ + (if r is Release {
                1nat
            } else {
                0nat
            }),
            final(self).artifacts@ == old(self).artifacts@ + (if r is Persist {
                1nat
            } else {
                0nat
            }),
    {
        let ghost s0 = self.stage;
        let r = match e {
            Event::Start => if self.stage == Stage::Received {
                self.stage = Stage::AwaitingPermit;
                Action::AcquirePermit
            } else {
                Action::Ignore
            },
            Event::PermitGranted => if self.stage == Stage::AwaitingPermit {
                self.stage = Stage::CacheLookup;
                Action::LookupCache(derive_key(self.url.as_str()))
            } else {
                Action::Ignore
            },
            Event::LookupReplied(reply) => if self.stage == Stage::CacheLookup {
                self.after_lookup(resolve(reply))
            } else {
                Action::Ignore
            },
            Event::FetchReplied(fetched) => if self.stage == Stage::DynamicRefetch {
                match accept_headless(&self.url, fetched) {
                    Ok(content) => {
                        self.stage = Stage::Convert;
                        Action::Convert(content)
                    },
                    Err(_) => {
                        self.stage = Stage::Unresolved;
                        Action::Release(Outcome::FetchFailed)
                    },
                }
            } else {
                Action::Ignore
            },
            Event::Converted(m) => if self.stage == Stage::Convert {
                self.stage = Stage::Persist;
                Action::Persist(artifact_for(&self.url, m))
            } else {
                Action::Ignore
            },
            Event::PersistFinished => if self.stage == Stage::Persist {
                self.stage = Stage::Done;
                Action::Release(Outcome::Saved)
            } else {
                Action::Ignore
            },
        };
        proof {
            if s0 == Stage::AwaitingPermit && self.stage == Stage::CacheLookup {
                self.permits_taken = Ghost(self.permits_taken@ + 1);
            }
            if r is Release {
                self.permits_returned = Ghost(self.permits_returned@ + 1);
            }
            if r is Persist {
                self.artifacts = Ghost(self.artifacts@ + 1);
            }
        }
        r
    }
}

/// Before the permit is granted.
pub open spec fn before_permit(s: Stage) -> bool {
    s == Stage::Received || s == Stage::AwaitingPermit
}

pub open spec fn indicator(b: bool) -> nat {
    if b {
        1
    } else {
        0
    }
}

/// The stage a run of events leads to from `s`, with how many permits it was
/// granted, how many it gave back, and how many artifacts it handed out.
pub open spec fn run_counts(s: Stage, url: Seq<char>, events: Seq<EventModel>) -> (
    Stage,
    nat,
    nat,
    nat,
)
    decreases events.len(),
{
    if events.len() == 0 {
        (s, 0, 0, 0)
    } else {
        let (s1, a) = step_model(s, url, events[0]);
        let (sf, g, r, p) = run_counts(s1, url, events.drop_first());
        (
            sf,
            g + indicator(s == Stage::AwaitingPermit && s1 == Stage::CacheLookup),
            r + indicator(a is Release),
            p + indicator(a is Persist),
        )
    }
}

proof fn lemma_run_counts(s: Stage, url: Seq<char>, events: Seq<EventModel>)
    ensures
        ({
            let (sf, g, r, p) = run_counts(s, url, events);
            &&& indicator(holds_permit(s)) + g == indicator(holds_permit(sf)) + r
            &&& g <= indicator(before_permit(s))
            &&& r <= indicator(!is_terminal(s))
            &&& p <= indicator(before_permit(s) || s == Stage::CacheLookup || s
                == Stage::DynamicRefetch || s == Stage::Convert)
            &&& (s == Stage::Done ==> sf == Stage::Done)
            &&& (s == Stage::Unresolved ==> sf == Stage::Unresolved)
        }),
    decreases events.len(),
{
    if events.len() > 0 {
        let (s1, a) = step_model(s, url, events[0]);
        lemma_run_counts(s1, url, events.drop_first());
    }
}

/// Over any run of events, a page's pipeline that has ended gave back every
/// permit it was granted; it is granted at most one and gives back at most one.
pub proof fn permits_balanced_over_run(url: Seq<char>, events: Seq<EventModel>)
    ensures
        ({
            let (sf, g, r, p) = run_counts(Stage::Received, url, events);
            &&& is_terminal(sf) ==> g == r
            &&& g <= 1
            &&& r <= 1
        }),
{
    lemma_run_counts(Stage::Received, url, events);
}

/// Over any run of events, a page's pipeline hands at most one artifact to the
/// sink.
pub proof fn at_most_one_artifact_over_run(url: Seq<char>, events: Seq<EventModel>)
    ensures
        run_counts(Stage::Received, url, events).3 <= 1,
{
    lemma_run_counts(Stage::Received, url, events);
}

/// Every pipeline that has ended gave back each permit it took, and took at
/// most one, whether it saved its page or left it unresolved.
pub proof fn permits_balanced(t: &UrlTask)
    requires
        t.wf(),
        is_terminal(t.stage),
    ensures
        t.permits_taken@ == t.permits_returned@,
        t.permits_returned@ <= 1,
{
}

/// A pipeline hands at most one artifact to the sink: one if it ended saved,
/// none if it ended unresolved.
pub proof fn at_most_one_artifact(t: &UrlTask)
    requires
        t.wf(),
    ensures
        t.artifacts@ <= 1,
        t.stage == Stage::Done ==> t.artifacts@ == 1,
        t.stage == Stage::Unresolved ==> t.artifacts@ == 0,
{
}

/// A cache lookup that ran out of time moves the pipeline exactly as a cache
/// error does: same next stage, same action.
pub proof fn timeout_same_as_error(s: Stage, url: Seq<char>)
    ensures
        step_model(s, url, EventModel::LookupReplied(ReplyModel::TimedOut)) == step_model(
            s,
            url,
            EventModel::LookupReplied(ReplyModel::Failed),
        ),
{
}

} // verus!
