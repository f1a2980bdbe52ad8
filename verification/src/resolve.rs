//! The resolution of a barcode, step by step.
//!
//! A resolution asks the catalog provider first. A record found there is
//! looked up at the tracker by its catalogue number, then by artist, title
//! and year. Where that leaves nothing, the encyclopedia provider is asked,
//! and its release is looked up at the tracker in the same two ways. The
//! first group that the tracker finds ends the resolution; so does the
//! first failure.
//!
//! The resolution itself reaches no provider. It names the next request,
//! and is told the reply.

use vstd::prelude::*;
use crate::discogs::{CatalogRecord, OutputItem};
use crate::error::Error;
use crate::musicbrainz::{Release, ReleaseView};
use crate::whatapi::{Group, GroupView, TrackerQuery, TrackerQueryView};
use crate::year::{parse_year, year_from_date, year_of, year_of_date};

verus! {

/// What a resolution wants asked of a provider.
#[derive(Debug, Clone, PartialEq, Eq)]
pub enum Request {
    /// Search the catalog provider by barcode.
    Catalog { barcode: String },
    /// Search the encyclopedia provider by barcode.
    Encyclopedia { barcode: String },
    /// Search the tracker.
    Tracker(TrackerQuery),
}

/// What a provider answered.
#[derive(Debug, Clone, PartialEq, Eq)]
pub enum Reply {
    /// The catalog provider's record, or none.
    Catalog(Option<OutputItem>),
    /// The encyclopedia provider's release, or none.
    Encyclopedia(Option<Release>),
    /// The tracker's group, or none.
    Tracker(Option<Group>),
    /// The provider that was asked failed.
    Failed(Error),
}

/// What a resolution does next.
#[derive(Debug, Clone, PartialEq, Eq)]
pub enum Step {
    /// Ask a provider, and come back with its reply.
    Ask(Request),
    /// The resolution is over: this group was found, or none.
    Done(Option<Group>),
    /// The resolution is over: it failed.
    Failed(Error),
}

/// Where a resolution stands: the reply it waits for, and what it keeps of
/// the replies before.
#[derive(Debug, Clone, PartialEq, Eq)]
pub enum Stage {
    /// Waiting for the catalog provider.
    Catalog,
    /// Waiting for the tracker, asked by the record's catalogue number.
    CatalogNumber(OutputItem),
    /// Waiting for the tracker, asked by the record's artist, title and year.
    CatalogNames,
    /// Waiting for the encyclopedia provider.
    Encyclopedia,
    /// Waiting for the tracker, asked by the release's catalogue number.
    EncyclopediaNumber(Release),
    /// Waiting for the tracker, asked by the release's artist, title and
    /// year.
    EncyclopediaNames,
    /// Over.
    Finished,
}

/// The resolution of one barcode.
#[derive(Debug, Clone, PartialEq, Eq)]
pub struct Resolution {
    barcode: String,
    stage: Stage,
}

/// What a `Request` holds.
pub enum RequestView {
    Catalog { barcode: Seq<char> },
    Encyclopedia { barcode: Seq<char> },
    Tracker(TrackerQueryView),
}

/// What a `Reply` holds.
pub enum ReplyView {
    Catalog(Option<CatalogRecord>),
    Encyclopedia(Option<ReleaseView>),
    Tracker(Option<GroupView>),
    Failed(Error),
}

/// What a `Step` holds.
pub enum StepView {
    Ask(RequestView),
    Done(Option<GroupView>),
    Failed(Error),
}

/// What a `Stage` holds.
pub enum StageView {
    Catalog,
    CatalogNumber(CatalogRecord),
    CatalogNames,
    Encyclopedia,
    EncyclopediaNumber(ReleaseView),
    EncyclopediaNames,
    Finished,
}

/// What a `Resolution` holds.
pub struct ResolutionView {
    pub barcode: Seq<char>,
    pub stage: StageView,
}

impl View for Request {
    type V = RequestView;

    open spec fn view(&self) -> RequestView {
        match self {
            Request::Catalog { barcode } => RequestView::Catalog { barcode: barcode@ },
            Request::Encyclopedia { barcode } => RequestView::Encyclopedia { barcode: barcode@ },
            Request::Tracker(q) => RequestView::Tracker(q@),
        }
    }
}

impl View for Reply {
    type V = ReplyView;

    open spec fn view(&self) -> ReplyView {
        match self {
            Reply::Catalog(Some(item)) => ReplyView::Catalog(Some(item@)),
            Reply::Catalog(None) => ReplyView::Catalog(None),
            Reply::Encyclopedia(Some(release)) => ReplyView::Encyclopedia(Some(release@)),
            Reply::Encyclopedia(None) => ReplyView::Encyclopedia(None),
            Reply::Tracker(Some(group)) => ReplyView::Tracker(Some(group@)),
            Reply::Tracker(None) => ReplyView::Tracker(None),
            Reply::Failed(e) => ReplyView::Failed(*e),
        }
    }
}

impl View for Step {
    type V = StepView;

    open spec fn view(&self) -> StepView {
        match self {
            Step::Ask(request) => StepView::Ask(request@),
            Step::Done(Some(group)) => StepView::Done(Some(group@)),
            Step::Done(None) => StepView::Done(None),
            Step::Failed(e) => StepView::Failed(*e),
        }
    }
}

impl View for Stage {
    type V = StageView;

    open spec fn view(&self) -> StageView {
        match self {
            Stage::Catalog => StageView::Catalog,
            Stage::CatalogNumber(item) => StageView::CatalogNumber(item@),
            Stage::CatalogNames => StageView::CatalogNames,
            Stage::Encyclopedia => StageView::Encyclopedia,
            Stage::EncyclopediaNumber(release) => StageView::EncyclopediaNumber(release@),
            Stage::EncyclopediaNames => StageView::EncyclopediaNames,
            Stage::Finished => StageView::Finished,
        }
    }
}

impl View for Resolution {
    type V = ResolutionView;

    closed spec fn view(&self) -> ResolutionView {
        ResolutionView { barcode: self.barcode@, stage: self.stage@ }
    }
}

/// The query by a catalogue number alone.
pub open spec fn by_number(number: Seq<char>) -> StepView {
    StepView::Ask(
        RequestView::Tracker(
            TrackerQueryView::ByCatalog { record_label: None, catalogue_number: number },
        ),
    )
}

/// The query by artist, title and year.
pub open spec fn by_names(artist: Seq<char>, title: Seq<char>, year: u16) -> StepView {
    StepView::Ask(
        RequestView::Tracker(
            TrackerQueryView::ByNames { artist_name: artist, group_name: title, year },
        ),
    )
}

/// The turn to the encyclopedia provider, once the catalog has led to
/// nothing.
pub open spec fn ask_encyclopedia(barcode: Seq<char>) -> (StageView, StepView) {
    (StageView::Encyclopedia, StepView::Ask(RequestView::Encyclopedia { barcode }))
}

/// The end of a resolution with what the tracker found.
pub open spec fn found(group: GroupView) -> (StageView, StepView) {
    (StageView::Finished, StepView::Done(Some(group)))
}

/// The end of a resolution that failed.
pub open spec fn failed(e: Error) -> (StageView, StepView) {
    (StageView::Finished, StepView::Failed(e))
}

/// The end of a resolution that found nothing.
pub open spec fn nothing() -> (StageView, StepView) {
    (StageView::Finished, StepView::Done(None))
}

/// The lookup by the names of a catalog record, once its catalogue number
/// has led to nothing. A year that is no number fails the resolution.
pub open spec fn names_of_record(record: CatalogRecord) -> (StageView, StepView) {
    match year_of(record.year) {
        Some(year) => (StageView::CatalogNames, by_names(record.artist, record.title, year)),
        None => failed(Error::Parse),
    }
}

/// The lookup by the names of an encyclopedia release, for a release with
/// a date and a credited artist. A year that does not fit fails the
/// resolution; a release without date or artist ends it with nothing.
pub open spec fn names_of_release(release: ReleaseView) -> (StageView, StepView) {
    if release.date is Some && release.first_artist() is Some {
        match year_of_date(release.date->0) {
            Some(year) => (
                StageView::EncyclopediaNames,
                by_names(release.first_artist()->0, release.title, year),
            ),
            None => failed(Error::Parse),
        }
    } else {
        nothing()
    }
}

/// The lookup for an encyclopedia release: by the catalogue number where it
/// has one, else by its names.
pub open spec fn lookup_of_release(release: ReleaseView) -> (StageView, StepView) {
    match release.catalog_number() {
        Some(number) => (StageView::EncyclopediaNumber(release), by_number(number)),
        None => names_of_release(release),
    }
}

impl ResolutionView {
    /// The resolution waits for this reply: it is the failure of the
    /// provider that was asked, or the answer of that provider.
    pub open spec fn accepts(self, reply: ReplyView) -> bool {
        match (self.stage, reply) {
            (StageView::Finished, _) => false,
            (_, ReplyView::Failed(_)) => true,
            (StageView::Catalog, ReplyView::Catalog(_)) => true,
            (StageView::Encyclopedia, ReplyView::Encyclopedia(_)) => true,
            (StageView::CatalogNumber(_), ReplyView::Tracker(_)) => true,
            (StageView::CatalogNames, ReplyView::Tracker(_)) => true,
            (StageView::EncyclopediaNumber(_), ReplyView::Tracker(_)) => true,
            (StageView::EncyclopediaNames, ReplyView::Tracker(_)) => true,
            _ => false,
        }
    }

    /// Where the resolution stands after a reply that it accepts, and what
    /// it does next.
    pub open spec fn next(self, reply: ReplyView) -> (StageView, StepView)
        recommends
            self.accepts(reply),
    {
        match (self.stage, reply) {
            (_, ReplyView::Failed(e)) => failed(e),
            (_, ReplyView::Tracker(Some(group))) => found(group),
            (StageView::Catalog, ReplyView::Catalog(Some(record))) => (
                StageView::CatalogNumber(record),
                by_number(record.catalogue_number),
            ),
            (StageView::Catalog, _) => ask_encyclopedia(self.barcode),
            (StageView::CatalogNumber(record), _) => names_of_record(record),
            (StageView::CatalogNames, _) => ask_encyclopedia(self.barcode),
            (StageView::Encyclopedia, ReplyView::Encyclopedia(Some(release))) => lookup_of_release(
                release,
            ),
            (StageView::Encyclopedia, _) => nothing(),
            (StageView::EncyclopediaNumber(release), _) => names_of_release(release),
            (StageView::EncyclopediaNames, _) => nothing(),
            (StageView::Finished, _) => nothing(),
        }
    }

    /// The resolution after a reply: moved on where it accepts the reply,
    /// unchanged where it does not.
    pub open spec fn after(self, reply: ReplyView) -> ResolutionView {
        if self.accepts(reply) {
            ResolutionView { barcode: self.barcode, stage: self.next(reply).0 }
        } else {
            self
        }
    }
}

impl Resolution {
    /// Begins the resolution of a barcode: the catalog provider is asked
    /// first.
    pub fn new(barcode: String) -> (r: (Resolution, Step))
        ensures
            r.0@ == (ResolutionView { barcode: barcode@, stage: StageView::Catalog }),
            r.1@ == StepView::Ask(RequestView::Catalog { barcode: barcode@ }),
    {
        let asked = barcode.clone();
        (Resolution { barcode, stage: Stage::Catalog }, Step::Ask(Request::Catalog { barcode: asked }))
    }

    /// The barcode that is resolved.
    pub fn barcode(&self) -> (s: &str)
        ensures
            s@ == self@.barcode,
    {
        self.barcode.as_str()
    }

    /// Whether the resolution is over.
    pub fn is_finished(&self) -> (b: bool)
        ensures
            b == (self@.stage is Finished),
    {
        match &self.stage {
            Stage::Finished => true,
            _ => false,
        }
    }

    /// Takes a provider's reply and says what to do next. A reply that the
    /// resolution does not wait for is refused: the result is `None` and
    /// nothing changes.
    pub fn advance(&mut self, reply: Reply) -> (r: Option<Step>)
        ensures
            final(self)@ == old(self)@.after(reply@),
            match r {
                Some(step) => old(self)@.accepts(reply@) && step@ == old(self)@.next(reply@).1,
                None => !old(self)@.accepts(reply@),
            },
    {
        let mut stage = Stage::Finished;
        std::mem::swap(&mut self.stage, &mut stage);
        match (stage, reply) {
            (Stage::Finished, _) => None,
            (_, Reply::Failed(e)) => Some(Step::Failed(e)),
            (Stage::Catalog, Reply::Catalog(Some(record))) => {
                let number = record.catalogue_number.clone();
                self.stage = Stage::CatalogNumber(record);
                Some(ask_by_number(number))
            },
            (Stage::Catalog, Reply::Catalog(None)) => Some(self.turn_to_encyclopedia()),
            (Stage::CatalogNumber(_), Reply::Tracker(Some(group))) => Some(Step::Done(Some(group))),
            (Stage::CatalogNumber(record), Reply::Tracker(None)) => {
                match parse_year(record.year.as_str()) {
                    Ok(year) => {
                        self.stage = Stage::CatalogNames;
                        Some(ask_by_names(record.artist, record.title, year))
                    },
                    Err(e) => Some(Step::Failed(e)),
                }
            },
            (Stage::CatalogNames, Reply::Tracker(Some(group))) => Some(Step::Done(Some(group))),
            (Stage::CatalogNames, Reply::Tracker(None)) => Some(self.turn_to_encyclopedia()),
            (Stage::Encyclopedia, Reply::Encyclopedia(Some(release))) => {
                match release.catalog_number() {
                    Some(number) => {
                        self.stage = Stage::EncyclopediaNumber(release);
                        Some(ask_by_number(number))
                    },
                    None => Some(self.look_up_names(release)),
                }
            },
            (Stage::Encyclopedia, Reply::Encyclopedia(None)) => Some(Step::Done(None)),
            (Stage::EncyclopediaNumber(_), Reply::Tracker(Some(group))) => Some(
                Step::Done(Some(group)),
            ),
            (Stage::EncyclopediaNumber(release), Reply::Tracker(None)) => Some(
                self.look_up_names(release),
            ),
            (Stage::EncyclopediaNames, Reply::Tracker(Some(group))) => Some(Step::Done(Some(group))),
            (Stage::EncyclopediaNames, Reply::Tracker(None)) => Some(Step::Done(None)),
            (other, _) => {
                self.stage = other;
                None
            },
        }
    }

    /// The steps of the resolution of a barcode for which the providers'
    /// replies are at hand: the first request, then the step that each
    /// reply draws. Replies that the resolution does not wait for, and those
    /// after its end, draw none.
    pub fn replay(barcode: String, replies: Vec<Reply>) -> (steps: Vec<Step>)
        ensures
            step_views(steps@) == run(barcode@, reply_views(replies@)),
    {
        let ghost told = reply_views(replies@);
        let ghost code = barcode@;
        let (mut resolution, first) = Resolution::new(barcode);
        let mut steps: Vec<Step> = Vec::new();
        steps.push(first);
        assert(step_views(steps@) =~= run(code, told.take(0)));
        for reply in it: replies
            invariant
                it.seq() == replies@,
                told == reply_views(replies@),
                resolution@ == state_after(start(code), told.take(it.index() as int)),
                step_views(steps@) == run(code, told.take(it.index() as int)),
        {
            let ghost k = it.index() as int;
            let ghost before = step_views(steps@);
            proof {
                lemma_one_more(start(code), told.take(k), reply@);
                assert(told.take(k + 1) =~= told.take(k).push(reply@));
            }
            match resolution.advance(reply) {
                Some(step) => {
                    steps.push(step);
                    assert(step_views(steps@) =~= before.push(step@));
                    assert(step_views(steps@) =~= run(code, told.take(k + 1)));
                },
                None => {
                    assert(step_views(steps@) =~= run(code, told.take(k + 1)));
                },
            }
        }
        assert(told.take(replies@.len() as int) =~= told);
        steps
    }

    /// Moves a resolution that is marked finished on to the encyclopedia
    /// provider.
    fn turn_to_encyclopedia(&mut self) -> (step: Step)
        ensures
            final(self)@.barcode == old(self)@.barcode,
            (final(self)@.stage, step@) == ask_encyclopedia(old(self)@.barcode),
    {
        self.stage = Stage::Encyclopedia;
        Step::Ask(Request::Encyclopedia { barcode: self.barcode.clone() })
    }

    /// Moves a resolution that is marked finished on to the lookup by the
    /// names of an encyclopedia release, or ends it.
    fn look_up_names(&mut self, release: Release) -> (step: Step)
        requires
            old(self)@.stage is Finished,
        ensures
            final(self)@.barcode == old(self)@.barcode,
            (final(self)@.stage, step@) == names_of_release(release@),
    {
        let artist = release.first_artist();
        match (release.date, artist) {
            (Some(date), Some(name)) => match year_from_date(date) {
                Ok(year) => {
                    self.stage = Stage::EncyclopediaNames;
                    ask_by_names(name, release.title, year)
                },
                Err(e) => Step::Failed(e),
            },
            _ => Step::Done(None),
        }
    }
}

/// The request to look a catalogue number up at the tracker.
fn ask_by_number(number: String) -> (step: Step)
    ensures
        step@ == by_number(number@),
{
    Step::Ask(Request::Tracker(TrackerQuery::ByCatalog { record_label: None, catalogue_number: number }))
}

/// The request to look artist, title and year up at the tracker.
fn ask_by_names(artist: String, title: String, year: u16) -> (step: Step)
    ensures
        step@ == by_names(artist@, title@, year),
{
    Step::Ask(
        Request::Tracker(TrackerQuery::ByNames { artist_name: artist, group_name: title, year }),
    )
}

/// The three providers.
pub enum Provider {
    Catalog,
    Encyclopedia,
    Tracker,
}

impl StepView {
    /// The step is a request to this provider.
    pub open spec fn asks(self, provider: Provider) -> bool {
        match (self, provider) {
            (StepView::Ask(RequestView::Catalog { .. }), Provider::Catalog) => true,
            (StepView::Ask(RequestView::Encyclopedia { .. }), Provider::Encyclopedia) => true,
            (StepView::Ask(RequestView::Tracker(_)), Provider::Tracker) => true,
            _ => false,
        }
    }
}

impl ReplyView {
    /// The provider answered, and had no match.
    pub open spec fn is_empty(self) -> bool {
        match self {
            ReplyView::Catalog(None) => true,
            ReplyView::Encyclopedia(None) => true,
            ReplyView::Tracker(None) => true,
            _ => false,
        }
    }
}

/// A resolution at its beginning.
pub open spec fn start(barcode: Seq<char>) -> ResolutionView {
    ResolutionView { barcode, stage: StageView::Catalog }
}

/// The steps that a resolution takes when it is told these replies in
/// turn: one step for each reply that it accepts.
pub open spec fn steps_from(state: ResolutionView, replies: Seq<ReplyView>) -> Seq<StepView>
    decreases replies.len(),
{
    if replies.len() == 0 {
        Seq::empty()
    } else if state.accepts(replies[0]) {
        seq![state.next(replies[0]).1] + steps_from(state.after(replies[0]), replies.skip(1))
    } else {
        steps_from(state, replies.skip(1))
    }
}

/// All the steps of the resolution of a barcode that is told these
/// replies: the request to the catalog provider, then the steps that the
/// replies draw.
pub open spec fn run(barcode: Seq<char>, replies: Seq<ReplyView>) -> Seq<StepView> {
    seq![StepView::Ask(RequestView::Catalog { barcode })] + steps_from(start(barcode), replies)
}

/// Where a resolution stands when it has been told these replies in turn.
pub open spec fn state_after(state: ResolutionView, replies: Seq<ReplyView>) -> ResolutionView
    decreases replies.len(),
{
    if replies.len() == 0 {
        state
    } else {
        state_after(state.after(replies[0]), replies.skip(1))
    }
}

/// What each reply of a list holds.
pub open spec fn reply_views(replies: Seq<Reply>) -> Seq<ReplyView> {
    replies.map_values(|r: Reply| r@)
}

/// What each step of a list holds.
pub open spec fn step_views(steps: Seq<Step>) -> Seq<StepView> {
    steps.map_values(|s: Step| s@)
}

/// One more reply adds the step that it draws from the resolution as the
/// replies before have left it, or none.
proof fn lemma_one_more(state: ResolutionView, replies: Seq<ReplyView>, reply: ReplyView)
    ensures
        state_after(state, replies.push(reply)) == state_after(state, replies).after(reply),
        steps_from(state, replies.push(reply)) == steps_from(state, replies) + (if state_after(
            state,
            replies,
        ).accepts(reply) {
            seq![state_after(state, replies).next(reply).1]
        } else {
            Seq::empty()
        }),
    decreases replies.len(),
{
    let all = replies.push(reply);
    if replies.len() == 0 {
        assert(all.skip(1) =~= Seq::<ReplyView>::empty());
        assert(steps_from(state.after(reply), all.skip(1)) =~= Seq::<StepView>::empty());
        assert(state_after(state.after(reply), all.skip(1)) == state.after(reply));
        if state.accepts(reply) {
            assert(steps_from(state, all) =~= seq![state.next(reply).1]);
        } else {
            assert(steps_from(state, all) =~= Seq::<StepView>::empty());
        }
        assert(steps_from(state, replies) =~= Seq::<StepView>::empty());
    } else {
        assert(all.skip(1) =~= replies.skip(1).push(reply));
        assert(all[0] == replies[0]);
        lemma_one_more(state.after(replies[0]), replies.skip(1), reply);
        let last = if state_after(state, replies).accepts(reply) {
            seq![state_after(state, replies).next(reply).1]
        } else {
            Seq::empty()
        };
        if state.accepts(replies[0]) {
            assert(steps_from(state, all) =~= steps_from(state, replies) + last);
        } else {
            assert(state.after(replies[0]) == state);
            assert(steps_from(state, all) =~= steps_from(state, replies) + last);
        }
    }
}

/// How many of the steps are requests to a provider.
pub open spec fn requests_to(steps: Seq<StepView>, provider: Provider) -> nat
    decreases steps.len(),
{
    if steps.len() == 0 {
        0
    } else if steps[0].asks(provider) {
        1 + requests_to(steps.skip(1), provider)
    } else {
        requests_to(steps.skip(1), provider)
    }
}

/// How many requests to the tracker a resolution can still make.
pub open spec fn tracker_budget(stage: StageView) -> nat {
    match stage {
        StageView::Catalog => 4,
        StageView::CatalogNumber(_) => 3,
        StageView::CatalogNames => 2,
        StageView::Encyclopedia => 2,
        StageView::EncyclopediaNumber(_) => 1,
        StageView::EncyclopediaNames => 0,
        StageView::Finished => 0,
    }
}

/// How many requests to the encyclopedia provider a resolution can still
/// make.
pub open spec fn encyclopedia_budget(stage: StageView) -> nat {
    match stage {
        StageView::Catalog => 1,
        StageView::CatalogNumber(_) => 1,
        StageView::CatalogNames => 1,
        _ => 0,
    }
}

/// A reply that is accepted draws one step, and the replies after it draw
/// the rest.
proof fn lemma_unfold(state: ResolutionView, replies: Seq<ReplyView>)
    requires
        replies.len() > 0,
        state.accepts(replies[0]),
    ensures
        steps_from(state, replies) == seq![state.next(replies[0]).1] + steps_from(
            state.after(replies[0]),
            replies.skip(1),
        ),
{
}

/// A resolution that is over takes no further step.
pub proof fn lemma_finished_is_silent(state: ResolutionView, replies: Seq<ReplyView>)
    requires
        state.stage is Finished,
    ensures
        steps_from(state, replies) == Seq::<StepView>::empty(),
    decreases replies.len(),
{
    if replies.len() > 0 {
        lemma_finished_is_silent(state, replies.skip(1));
    }
}

/// Whatever the replies, a resolution under way asks the catalog provider
/// no more, and the other two providers within their budgets.
pub proof fn lemma_within_budget(state: ResolutionView, replies: Seq<ReplyView>)
    ensures
        requests_to(steps_from(state, replies), Provider::Catalog) == 0,
        requests_to(steps_from(state, replies), Provider::Encyclopedia) <= encyclopedia_budget(
            state.stage,
        ),
        requests_to(steps_from(state, replies), Provider::Tracker) <= tracker_budget(state.stage),
    decreases replies.len(),
{
    if replies.len() > 0 {
        if state.accepts(replies[0]) {
            let rest = steps_from(state.after(replies[0]), replies.skip(1));
            let steps = steps_from(state, replies);
            lemma_within_budget(state.after(replies[0]), replies.skip(1));
            assert(steps.skip(1) =~= rest);
            assert(steps[0] == state.next(replies[0]).1);
        } else {
            lemma_within_budget(state, replies.skip(1));
        }
    }
}

/// Whatever the replies, one resolution asks the catalog provider once,
/// the encyclopedia provider at most once, and the tracker at most four
/// times: once for each of the two lookups of each of the two sources.
pub proof fn lemma_requests_bounded(barcode: Seq<char>, replies: Seq<ReplyView>)
    ensures
        requests_to(run(barcode, replies), Provider::Catalog) == 1,
        requests_to(run(barcode, replies), Provider::Encyclopedia) <= 1,
        requests_to(run(barcode, replies), Provider::Tracker) <= 4,
{
    lemma_within_budget(start(barcode), replies);
    assert(run(barcode, replies).skip(1) =~= steps_from(start(barcode), replies));
}

/// A resolution that has not yet met a record or a release, and is told
/// of no match only, never asks the tracker, and ends in nothing if it
/// ends.
proof fn lemma_empty_replies(state: ResolutionView, replies: Seq<ReplyView>)
    requires
        state.stage is Catalog || state.stage is Encyclopedia || state.stage is Finished,
        forall|i: int| 0 <= i < replies.len() ==> (#[trigger] replies[i]).is_empty(),
    ensures
        requests_to(steps_from(state, replies), Provider::Tracker) == 0,
        forall|i: int|
            0 <= i < steps_from(state, replies).len() ==> {
                let step = #[trigger] steps_from(state, replies)[i];
                step is Ask || step == StepView::Done(None)
            },
    decreases replies.len(),
{
    if replies.len() > 0 {
        assert(replies[0].is_empty());
        assert forall|i: int| 0 <= i < replies.skip(1).len() implies (#[trigger] replies.skip(
            1,
        )[i]).is_empty() by {
            assert(replies.skip(1)[i] == replies[i + 1]);
        }
        if state.accepts(replies[0]) {
            let rest = steps_from(state.after(replies[0]), replies.skip(1));
            let steps = steps_from(state, replies);
            lemma_empty_replies(state.after(replies[0]), replies.skip(1));
            assert(steps.skip(1) =~= rest);
            assert(steps[0] == state.next(replies[0]).1);
            assert forall|i: int| 0 <= i < steps.len() implies {
                let step = #[trigger] steps[i];
                step is Ask || step == StepView::Done(None)
            } by {
                if i > 0 {
                    assert(steps[i] == rest[i - 1]);
                }
            }
        } else {
            lemma_empty_replies(state, replies.skip(1));
        }
    }
}

/// Where no provider has a match, the resolution asks each provider at
/// most once, the tracker not at all, and ends in nothing if it ends.
pub proof fn lemma_no_match(barcode: Seq<char>, replies: Seq<ReplyView>)
    requires
        forall|i: int| 0 <= i < replies.len() ==> (#[trigger] replies[i]).is_empty(),
    ensures
        requests_to(run(barcode, replies), Provider::Catalog) == 1,
        requests_to(run(barcode, replies), Provider::Encyclopedia) <= 1,
        requests_to(run(barcode, replies), Provider::Tracker) == 0,
        forall|i: int|
            0 <= i < run(barcode, replies).len() ==> {
                let step = #[trigger] run(barcode, replies)[i];
                step is Ask || step == StepView::Done(None)
            },
{
    lemma_requests_bounded(barcode, replies);
    lemma_empty_replies(start(barcode), replies);
    let steps = run(barcode, replies);
    let rest = steps_from(start(barcode), replies);
    assert(steps.skip(1) =~= rest);
    assert forall|i: int| 0 <= i < steps.len() implies {
        let step = #[trigger] steps[i];
        step is Ask || step == StepView::Done(None)
    } by {
        if i > 0 {
            assert(steps[i] == rest[i - 1]);
        }
    }
}

/// Where the catalog provider has a record and the tracker finds its
/// catalogue number, the resolution ends with that group after these two
/// requests, whatever else it is told: the encyclopedia provider is not
/// asked.
pub proof fn lemma_number_hit_ends(
    barcode: Seq<char>,
    record: CatalogRecord,
    group: GroupView,
    more: Seq<ReplyView>,
)
    ensures
        run(
            barcode,
            seq![ReplyView::Catalog(Some(record)), ReplyView::Tracker(Some(group))] + more,
        ) == seq![
            StepView::Ask(RequestView::Catalog { barcode }),
            by_number(record.catalogue_number),
            StepView::Done(Some(group)),
        ],
        requests_to(
            run(
                barcode,
                seq![ReplyView::Catalog(Some(record)), ReplyView::Tracker(Some(group))] + more,
            ),
            Provider::Encyclopedia,
        ) == 0,
{
    let first = ReplyView::Catalog(Some(record));
    let second = ReplyView::Tracker(Some(group));
    let replies = seq![first, second] + more;
    let s0 = start(barcode);
    let s1 = s0.after(first);
    let s2 = s1.after(second);
    assert(replies[0] == first);
    assert(replies.skip(1)[0] == second);
    lemma_unfold(start(barcode), replies);
    lemma_unfold(s1, replies.skip(1));
    lemma_finished_is_silent(s2, replies.skip(1).skip(1));
    let steps = seq![
        StepView::Ask(RequestView::Catalog { barcode }),
        by_number(record.catalogue_number),
        StepView::Done(Some(group)),
    ];
    assert(run(barcode, replies) =~= steps);
    assert(steps.skip(1).skip(1).skip(1).len() == 0);
    reveal_with_fuel(requests_to, 4);
}

/// Where the catalog provider has a record whose catalogue number the
/// tracker does not find, the tracker is asked by the record's artist,
/// title and year, and a group found then ends the resolution.
pub proof fn lemma_names_hit_ends(
    barcode: Seq<char>,
    record: CatalogRecord,
    group: GroupView,
    more: Seq<ReplyView>,
)
    requires
        year_of(record.year) is Some,
    ensures
        run(
            barcode,
            seq![
                ReplyView::Catalog(Some(record)),
                ReplyView::Tracker(None),
                ReplyView::Tracker(Some(group)),
            ] + more,
        ) == seq![
            StepView::Ask(RequestView::Catalog { barcode }),
            by_number(record.catalogue_number),
            by_names(record.artist, record.title, year_of(record.year)->0),
            StepView::Done(Some(group)),
        ],
{
    let first = ReplyView::Catalog(Some(record));
    let second = ReplyView::Tracker(None);
    let third = ReplyView::Tracker(Some(group));
    let replies = seq![first, second, third] + more;
    let s1 = start(barcode).after(first);
    let s2 = s1.after(second);
    let s3 = s2.after(third);
    assert(replies[0] == first);
    assert(replies.skip(1)[0] == second);
    assert(replies.skip(1).skip(1)[0] == third);
    lemma_unfold(start(barcode), replies);
    lemma_unfold(s1, replies.skip(1));
    lemma_unfold(s2, replies.skip(1).skip(1));
    lemma_finished_is_silent(s3, replies.skip(1).skip(1).skip(1));
    assert(run(barcode, replies) =~= seq![
        StepView::Ask(RequestView::Catalog { barcode }),
        by_number(record.catalogue_number),
        by_names(record.artist, record.title, year_of(record.year)->0),
        StepView::Done(Some(group)),
    ]);
}

/// Where the catalog provider has a record whose year is no number, and
/// the tracker does not find its catalogue number, the resolution fails:
/// it does not go on to the encyclopedia provider.
pub proof fn lemma_bad_year_fails(barcode: Seq<char>, record: CatalogRecord, more: Seq<ReplyView>)
    requires
        year_of(record.year) is None,
    ensures
        run(barcode, seq![ReplyView::Catalog(Some(record)), ReplyView::Tracker(None)] + more)
            == seq![
            StepView::Ask(RequestView::Catalog { barcode }),
            by_number(record.catalogue_number),
            StepView::Failed(Error::Parse),
        ],
{
    let first = ReplyView::Catalog(Some(record));
    let second = ReplyView::Tracker(None);
    let replies = seq![first, second] + more;
    let s1 = start(barcode).after(first);
    let s2 = s1.after(second);
    assert(replies[0] == first);
    assert(replies.skip(1)[0] == second);
    lemma_unfold(start(barcode), replies);
    lemma_unfold(s1, replies.skip(1));
    lemma_finished_is_silent(s2, replies.skip(1).skip(1));
    assert(run(barcode, replies) =~= seq![
        StepView::Ask(RequestView::Catalog { barcode }),
        by_number(record.catalogue_number),
        StepView::Failed(Error::Parse),
    ]);
}

/// Where neither the catalog nor the encyclopedia provider has a match,
/// the resolution ends in nothing after asking the two, and the tracker
/// is not asked.
pub proof fn lemma_both_empty(barcode: Seq<char>, more: Seq<ReplyView>)
    ensures
        run(barcode, seq![ReplyView::Catalog(None), ReplyView::Encyclopedia(None)] + more) == seq![
            StepView::Ask(RequestView::Catalog { barcode }),
            StepView::Ask(RequestView::Encyclopedia { barcode }),
            StepView::Done(None),
        ],
{
    let first = ReplyView::Catalog(None);
    let second = ReplyView::Encyclopedia(None);
    let replies = seq![first, second] + more;
    let s1 = start(barcode).after(first);
    let s2 = s1.after(second);
    assert(replies[0] == first);
    assert(replies.skip(1)[0] == second);
    lemma_unfold(start(barcode), replies);
    lemma_unfold(s1, replies.skip(1));
    lemma_finished_is_silent(s2, replies.skip(1).skip(1));
    assert(run(barcode, replies) =~= seq![
        StepView::Ask(RequestView::Catalog { barcode }),
        StepView::Ask(RequestView::Encyclopedia { barcode }),
        StepView::Done(None),
    ]);
}

} // verus!
