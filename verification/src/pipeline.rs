//! The resource pipeline: for each requested subtopic, compose a query,
//! discover candidate URLs, and for each URL create a `pending` record,
//! fetch, and resolve the record to `completed` or `failed` — no per-URL or
//! per-subtopic failure ever aborts the batch.
//!
//! The pipeline is a state machine: every network action is handed to the
//! caller as an [`Action`] and its outcome comes back as an [`Event`], so
//! the whole decision logic, the record lifecycle and the final summary are
//! verified, while the caller only moves bytes.

use vstd::prelude::*;
use vstd::string::StringExecFns;
use crate::discovery::DISCOVERY_FAN_OUT;
use crate::fetch::{error_text_view, FetchError, FetchErrorView, ScrapedContent, ScrapedContentView};
use crate::query::{composed_query, contains_seq, generate_search_query};
use crate::text::{dec_digits, take_at_most, truncate_chars, usize_to_string};

verus! {

/// How many characters of the scraped body are kept as the record's summary.
pub const SUMMARY_LEN: usize = 200;

/// What the subtopic lookup collaborator returns for one subtopic id.
pub struct SubtopicInfo {
    pub name: String,
    pub topic_name: String,
    pub template_type: Option<String>,
}

pub struct SubtopicInfoView {
    pub name: Seq<char>,
    pub topic_name: Seq<char>,
    pub template_type: Option<Seq<char>>,
}

impl View for SubtopicInfo {
    type V = SubtopicInfoView;

    open spec fn view(&self) -> SubtopicInfoView {
        SubtopicInfoView {
            name: self.name@,
            topic_name: self.topic_name@,
            template_type: self.template_type.deep_view(),
        }
    }
}

/// The lifecycle status of one resource record: it starts `Pending` and
/// moves exactly once, to `Completed` or to `Failed`.
#[derive(Debug, Clone, Copy, PartialEq, Eq, Structural)]
pub enum Status {
    Pending,
    Completed,
    Failed,
}

/// One persisted resource: a discovered URL of one subtopic together with
/// what its fetch produced.  Within one run a record is identified by its
/// position in the run's record list.
pub struct ResourceRecord {
    pub subtopic_id: String,
    pub url: String,
    pub title: Option<String>,
    pub summary: Option<String>,
    pub full_content: Option<String>,
    pub status: Status,
}

pub struct RecordView {
    pub subtopic_id: Seq<char>,
    pub url: Seq<char>,
    pub title: Option<Seq<char>>,
    pub summary: Option<Seq<char>>,
    pub full_content: Option<Seq<char>>,
    pub status: Status,
}

impl View for ResourceRecord {
    type V = RecordView;

    open spec fn view(&self) -> RecordView {
        RecordView {
            subtopic_id: self.subtopic_id@,
            url: self.url@,
            title: self.title.deep_view(),
            summary: self.summary.deep_view(),
            full_content: self.full_content.deep_view(),
            status: self.status,
        }
    }
}

/// A record is well formed when its fields agree with its status: a
/// `Completed` record carries content and summary, a `Failed` one carries
/// the error description in place of content, a `Pending` one carries
/// nothing yet.
pub open spec fn record_wf(r: RecordView) -> bool {
    match r.status {
        Status::Pending => r.title is None && r.summary is None && r.full_content is None,
        Status::Completed => r.full_content is Some && r.summary is Some,
        Status::Failed => r.full_content is Some && r.title is None && r.summary is None,
    }
}

/// The record created the moment a URL is discovered, before its fetch.
pub open spec fn pending_record(subtopic_id: Seq<char>, url: Seq<char>) -> RecordView {
    RecordView {
        subtopic_id: subtopic_id,
        url: url,
        title: None,
        summary: None,
        full_content: None,
        status: Status::Pending,
    }
}

/// The text stored in place of content when a fetch fails.
pub open spec fn failed_text(e: FetchErrorView) -> Seq<char> {
    "Error: "@ + error_text_view(e)
}

/// How a pending record resolves once its fetch concludes: on success it
/// completes with title, a bounded summary and the full body; on any error
/// it fails with the error description stored in place of content.
pub open spec fn resolved_record(
    r: RecordView,
    outcome: Result<ScrapedContentView, FetchErrorView>,
) -> RecordView {
    match outcome {
        Ok(c) => RecordView {
            subtopic_id: r.subtopic_id,
            url: r.url,
            title: c.title,
            summary: Some(take_at_most(c.content, SUMMARY_LEN as nat)),
            full_content: Some(c.content),
            status: Status::Completed,
        },
        Err(e) => RecordView {
            subtopic_id: r.subtopic_id,
            url: r.url,
            title: None,
            summary: None,
            full_content: Some(failed_text(e)),
            status: Status::Failed,
        },
    }
}

pub open spec fn count_completed(rs: Seq<RecordView>) -> nat
    decreases rs.len(),
{
    if rs.len() == 0 {
        0
    } else {
        count_completed(rs.drop_last()) + if rs.last().status is Completed {
            1nat
        } else {
            0nat
        }
    }
}

pub open spec fn all_terminal(rs: Seq<RecordView>) -> bool {
    forall|i: int| 0 <= i < rs.len() ==> !((#[trigger] rs[i]).status is Pending)
}

/// What one run reports: how many URLs it tried (one record each) and how
/// many of them completed.
pub struct PipelineSummary {
    pub attempted: usize,
    pub succeeded: usize,
}

/// The run's human-readable summary, reporting both counts: how many
/// records completed out of how many attempted.
pub open spec fn summary_message_spec(succeeded: nat, attempted: nat) -> Seq<char> {
    "Scraping completed. Successfully scraped "@ + dec_digits(succeeded) + " of "@ + dec_digits(
        attempted,
    ) + " resources"@
}

pub fn summary_message(succeeded: usize, attempted: usize) -> (r: String)
    ensures
        r@ == summary_message_spec(succeeded as nat, attempted as nat),
{
    let mut m = "Scraping completed. Successfully scraped ".to_owned();
    let count = usize_to_string(succeeded);
    m.append(count.as_str());
    m.append(" of ");
    let total = usize_to_string(attempted);
    m.append(total.as_str());
    m.append(" resources");
    proof {
        assert(m@ =~= summary_message_spec(succeeded as nat, attempted as nat));
    }
    m
}

/// Where the pipeline stands between two events.
#[derive(Debug, Clone, Copy, PartialEq, Eq, Structural)]
pub enum Phase {
    Starting,
    AwaitingLookup,
    AwaitingDiscovery,
    AwaitingFetch,
    Done,
}

/// What the caller must do next.
pub enum Action {
    /// Resolve the subtopic's name, topic name and category hint.
    LookupSubtopic { subtopic_id: String },
    /// Run one discovery call for this query.
    Discover { query: String, max_results: usize },
    /// Persist the just-created pending record (the last one in `records`)
    /// and fetch the URL.
    CreateAndFetch { subtopic_id: String, url: String },
    /// The run is over; `message` is the human-readable summary.
    Finished { message: String },
}

pub enum ActionModel {
    LookupSubtopic(Seq<char>),
    Discover(Seq<char>, nat),
    CreateAndFetch(Seq<char>, Seq<char>),
    Finished(Seq<char>),
}

impl View for Action {
    type V = ActionModel;

    open spec fn view(&self) -> ActionModel {
        match self {
            Action::LookupSubtopic { subtopic_id } => ActionModel::LookupSubtopic(subtopic_id@),
            Action::Discover { query, max_results } => ActionModel::Discover(
                query@,
                *max_results as nat,
            ),
            Action::CreateAndFetch { subtopic_id, url } => ActionModel::CreateAndFetch(
                subtopic_id@,
                url@,
            ),
            Action::Finished { message } => ActionModel::Finished(message@),
        }
    }
}

/// What the caller reports back for the action it was handed.
pub enum Event {
    Started,
    LookupDone { info: Option<SubtopicInfo> },
    DiscoverDone { links: Result<Vec<String>, FetchError> },
    FetchDone { outcome: Result<ScrapedContent, FetchError> },
}

pub enum EventModel {
    Started,
    LookupDone(Option<SubtopicInfoView>),
    DiscoverDone(Result<Seq<Seq<char>>, FetchErrorView>),
    FetchDone(Result<ScrapedContentView, FetchErrorView>),
}

impl View for Event {
    type V = EventModel;

    open spec fn view(&self) -> EventModel {
        match self {
            Event::Started => EventModel::Started,
            Event::LookupDone { info } => EventModel::LookupDone(
                match info {
                    Some(i) => Some(i@),
                    None => None,
                },
            ),
            Event::DiscoverDone { links } => EventModel::DiscoverDone(
                match links {
                    Ok(v) => Ok(v.deep_view()),
                    Err(e) => Err(e@),
                },
            ),
            Event::FetchDone { outcome } => EventModel::FetchDone(
                match outcome {
                    Ok(c) => Ok(c@),
                    Err(e) => Err(e@),
                },
            ),
        }
    }
}

/// The mathematical state of a run.
pub struct StateModel {
    pub ids: Seq<Seq<char>>,
    pub next_subtopic: nat,
    pub phase: Phase,
    pub urls: Seq<Seq<char>>,
    pub current_url: nat,
    pub records: Seq<RecordView>,
    pub succeeded: nat,
}

/// One pipeline run over a batch of subtopic ids.
pub struct PipelineState {
    pub subtopic_ids: Vec<String>,
    pub next_subtopic: usize,
    pub phase: Phase,
    pub urls: Vec<String>,
    pub current_url: usize,
    pub records: Vec<ResourceRecord>,
    pub succeeded: usize,
}

pub open spec fn records_view(rs: Seq<ResourceRecord>) -> Seq<RecordView> {
    rs.map_values(|r: ResourceRecord| r@)
}

impl View for PipelineState {
    type V = StateModel;

    open spec fn view(&self) -> StateModel {
        StateModel {
            ids: self.subtopic_ids.deep_view(),
            next_subtopic: self.next_subtopic as nat,
            phase: self.phase,
            urls: self.urls.deep_view(),
            current_url: self.current_url as nat,
            records: records_view(self.records@),
            succeeded: self.succeeded as nat,
        }
    }
}

/// The id of the subtopic the run currently works on.
pub open spec fn cur_id(m: StateModel) -> Seq<char> {
    m.ids[m.next_subtopic as int]
}

/// The state is well formed: the success counter counts the completed
/// records, every record agrees with its status, and exactly during a fetch
/// the last record is the pending one of the URL in flight while every
/// earlier record is already terminal.
pub open spec fn model_wf(m: StateModel) -> bool {
    &&& m.succeeded == count_completed(m.records)
    &&& forall|i: int| 0 <= i < m.records.len() ==> record_wf(#[trigger] m.records[i])
    &&& m.next_subtopic <= m.ids.len()
    &&& match m.phase {
        Phase::Starting => m.next_subtopic == 0 && m.records.len() == 0,
        Phase::AwaitingLookup => m.next_subtopic < m.ids.len() && all_terminal(m.records),
        Phase::AwaitingDiscovery => m.next_subtopic < m.ids.len() && all_terminal(m.records),
        Phase::AwaitingFetch => {
            &&& m.next_subtopic < m.ids.len()
            &&& m.current_url < m.urls.len()
            &&& m.records.len() > 0
            &&& m.records.last() == pending_record(cur_id(m), m.urls[m.current_url as int])
            &&& all_terminal(m.records.drop_last())
        },
        Phase::Done => m.next_subtopic == m.ids.len() && all_terminal(m.records),
    }
}

/// Move on to the next subtopic, or finish the run when none is left.
pub open spec fn advance_model(m: StateModel) -> (StateModel, ActionModel) {
    if m.next_subtopic < m.ids.len() {
        (
            StateModel { phase: Phase::AwaitingLookup, ..m },
            ActionModel::LookupSubtopic(cur_id(m)),
        )
    } else {
        (
            StateModel { phase: Phase::Done, ..m },
            ActionModel::Finished(summary_message_spec(m.succeeded, m.records.len())),
        )
    }
}

pub open spec fn bump_subtopic(m: StateModel) -> StateModel {
    StateModel { next_subtopic: m.next_subtopic + 1, ..m }
}

/// Which events a state takes: exactly the outcome of the action it last
/// handed out.
pub open spec fn accepts_model(m: StateModel, e: EventModel) -> bool {
    match (m.phase, e) {
        (Phase::Starting, EventModel::Started) => true,
        (Phase::AwaitingLookup, EventModel::LookupDone(_)) => true,
        (Phase::AwaitingDiscovery, EventModel::DiscoverDone(_)) => true,
        (Phase::AwaitingFetch, EventModel::FetchDone(_)) => true,
        _ => false,
    }
}

/// The transition relation of the pipeline: what the state becomes and what
/// the caller is asked to do next, for every event.
pub open spec fn step_model(m: StateModel, e: EventModel) -> (StateModel, ActionModel) {
    match (m.phase, e) {
        (Phase::Starting, EventModel::Started) => advance_model(m),
        (Phase::AwaitingLookup, EventModel::LookupDone(info)) => match info {
            None => advance_model(bump_subtopic(m)),
            Some(info) => (
                StateModel { phase: Phase::AwaitingDiscovery, ..m },
                ActionModel::Discover(
                    composed_query(info.topic_name, info.name, info.template_type),
                    DISCOVERY_FAN_OUT as nat,
                ),
            ),
        },
        (Phase::AwaitingDiscovery, EventModel::DiscoverDone(links)) => match links {
            Err(_) => advance_model(bump_subtopic(m)),
            Ok(links) => if links.len() == 0 {
                advance_model(bump_subtopic(m))
            } else {
                (
                    StateModel {
                        phase: Phase::AwaitingFetch,
                        urls: links,
                        current_url: 0,
                        records: m.records.push(pending_record(cur_id(m), links[0])),
                        ..m
                    },
                    ActionModel::CreateAndFetch(cur_id(m), links[0]),
                )
            },
        },
        (Phase::AwaitingFetch, EventModel::FetchDone(outcome)) => {
            let resolved = resolved_record(m.records.last(), outcome);
            let rs = m.records.update(m.records.len() - 1, resolved);
            let succ = m.succeeded + if outcome is Ok {
                1nat
            } else {
                0nat
            };
            if m.current_url + 1 < m.urls.len() {
                let nxt = m.current_url + 1;
                (
                    StateModel {
                        current_url: nxt,
                        records: rs.push(pending_record(cur_id(m), m.urls[nxt as int])),
                        succeeded: succ,
                        ..m
                    },
                    ActionModel::CreateAndFetch(cur_id(m), m.urls[nxt as int]),
                )
            } else {
                advance_model(
                    StateModel {
                        next_subtopic: m.next_subtopic + 1,
                        records: rs,
                        succeeded: succ,
                        ..m
                    },
                )
            }
        },
        _ => (m, ActionModel::Finished(Seq::empty())),
    }
}

proof fn lemma_count_le_len(rs: Seq<RecordView>)
    ensures
        count_completed(rs) <= rs.len(),
    decreases rs.len(),
{
    if rs.len() > 0 {
        lemma_count_le_len(rs.drop_last());
    }
}

proof fn lemma_count_update_last(rs: Seq<RecordView>, x: RecordView)
    requires
        rs.len() > 0,
    ensures
        count_completed(rs.update(rs.len() - 1, x)) == count_completed(rs.drop_last()) + if x.status is Completed {
            1nat
        } else {
            0nat
        },
{
    let u = rs.update(rs.len() - 1, x);
    assert(u.drop_last() =~= rs.drop_last());
    assert(u.last() == x);
}

/// The record lifecycle laws, for every well-formed state and every fitting
/// event: a step never discards a record, never changes which subtopic and
/// URL a record stands for, never touches a record that already reached a
/// terminal status, and when it changes a record at all it moves it from
/// `Pending` to a terminal status — and well-formedness is preserved.
pub proof fn lemma_step_record_laws(m: StateModel, e: EventModel)
    requires
        model_wf(m),
        accepts_model(m, e),
    ensures
        model_wf(step_model(m, e).0),
        m.records.len() <= step_model(m, e).0.records.len(),
        forall|i: int| 0 <= i < m.records.len() ==> (#[trigger] step_model(m, e).0.records[i]).subtopic_id
            == m.records[i].subtopic_id && step_model(m, e).0.records[i].url == m.records[i].url,
        forall|i: int| 0 <= i < m.records.len() && !(m.records[i].status is Pending) ==> step_model(
            m,
            e,
        ).0.records[i] == m.records[i],
        forall|i: int| 0 <= i < m.records.len() && step_model(m, e).0.records[i] != m.records[i]
            ==> m.records[i].status is Pending && !((#[trigger] step_model(m, e).0.records[i]).status is Pending),
{
    let post = step_model(m, e).0;
    match (m.phase, e) {
        (Phase::AwaitingDiscovery, EventModel::DiscoverDone(links)) => {
            match links {
                Ok(links) => {
                    if links.len() > 0 {
                        let rec = pending_record(cur_id(m), links[0]);
                        let rs = m.records.push(rec);
                        assert(rs.drop_last() =~= m.records);
                        assert(count_completed(rs) == count_completed(m.records));
                        assert(forall|i: int| 0 <= i < m.records.len() ==> rs[i] == #[trigger] m.records[i]);
                    }
                },
                Err(_) => {},
            }
        },
        (Phase::AwaitingFetch, EventModel::FetchDone(outcome)) => {
            let resolved = resolved_record(m.records.last(), outcome);
            let last = m.records.len() - 1;
            let rs = m.records.update(last, resolved);
            lemma_count_update_last(m.records, resolved);
            assert(m.records.last().status is Pending);
            assert(count_completed(m.records) == count_completed(m.records.drop_last()));
            assert(forall|i: int| 0 <= i < last ==> rs[i] == #[trigger] m.records[i]);
            assert forall|i: int| 0 <= i < rs.len() implies !((#[trigger] rs[i]).status is Pending) by {
                if i < last {
                    assert(m.records.drop_last()[i] == m.records[i]);
                } else {
                    assert(rs[i] == resolved);
                }
            }
            assert(all_terminal(rs));
            if m.current_url + 1 < m.urls.len() {
                let nxt = m.current_url + 1;
                let rec = pending_record(cur_id(m), m.urls[nxt as int]);
                let rs2 = rs.push(rec);
                assert(rs2.drop_last() =~= rs);
                assert(count_completed(rs2) == count_completed(rs));
                assert(forall|i: int| 0 <= i < rs.len() ==> rs2[i] == #[trigger] rs[i]);
            }
        },
        _ => {},
    }
}

/// The events a driver may feed a state, in order: each answers the action
/// the state last handed out, and what follows fits the state that results.
pub open spec fn events_fit(m: StateModel, events: Seq<EventModel>) -> bool
    decreases events.len(),
{
    events.len() == 0 || (accepts_model(m, events[0]) && events_fit(
        step_model(m, events[0]).0,
        events.drop_first(),
    ))
}

/// The state a whole run reaches: its events folded over the transition
/// relation.
pub open spec fn run_model(m: StateModel, events: Seq<EventModel>) -> StateModel
    decreases events.len(),
{
    if events.len() == 0 {
        m
    } else {
        run_model(step_model(m, events[0]).0, events.drop_first())
    }
}

/// The record laws of a whole run, however long: a run never discards a
/// record, never changes which subtopic and URL a record stands for, and
/// never touches a record that already reached a terminal status.  Since
/// every run starts from its own empty record list (`PipelineState::new`),
/// two runs over the same subtopic list build two independent record sets:
/// no record of the earlier run is read, merged, updated or deleted by the
/// later one, and duplicate subtopic/URL pairs across runs are expected,
/// not prevented.
pub proof fn lemma_run_record_laws(m: StateModel, events: Seq<EventModel>)
    requires
        model_wf(m),
        events_fit(m, events),
    ensures
        model_wf(run_model(m, events)),
        m.records.len() <= run_model(m, events).records.len(),
        forall|i: int| 0 <= i < m.records.len() ==> (#[trigger] run_model(m, events).records[i]).subtopic_id
            == m.records[i].subtopic_id && run_model(m, events).records[i].url
            == m.records[i].url,
        forall|i: int| 0 <= i < m.records.len() && !(m.records[i].status is Pending) ==> run_model(
            m,
            events,
        ).records[i] == m.records[i],
    decreases events.len(),
{
    if events.len() > 0 {
        lemma_step_record_laws(m, events[0]);
        lemma_run_record_laws(step_model(m, events[0]).0, events.drop_first());
    }
}

/// Records are created only for the subtopic the run is currently working
/// on, and only once its lookup resolved: a lookup outcome — found or not
/// found — creates no record by itself, so a subtopic whose lookup fails
/// contributes no record to the run at all, and the batch simply moves on.
pub proof fn lemma_records_created_only_for_current_subtopic(m: StateModel, e: EventModel)
    requires
        model_wf(m),
        accepts_model(m, e),
    ensures
        e is LookupDone ==> step_model(m, e).0.records == m.records,
        forall|i: int| m.records.len() <= i < step_model(m, e).0.records.len()
            ==> (#[trigger] step_model(m, e).0.records[i]).subtopic_id == cur_id(m) && step_model(
            m,
            e,
        ).0.records[i].status is Pending,
{
    lemma_step_record_laws(m, e);
}

/// A fetch failure — a timeout included — never aborts the run: the record
/// in flight moves to `Failed` with the error description stored in place
/// of content, the success count is unchanged, and the run hands out its
/// next action — the subtopic's next URL, the next subtopic's lookup, or
/// the closing summary only when nothing is left.  For a timeout the stored
/// text contains the timeout indicator.
pub proof fn lemma_fetch_failure_never_aborts(m: StateModel, err: FetchErrorView)
    requires
        model_wf(m),
        m.phase is AwaitingFetch,
    ensures
        ({
            let post = step_model(m, EventModel::FetchDone(Err(err))).0;
            let act = step_model(m, EventModel::FetchDone(Err(err))).1;
            &&& post.records.len() >= m.records.len()
            &&& post.records[m.records.len() - 1].status is Failed
            &&& post.records[m.records.len() - 1].full_content == Some(failed_text(err))
            &&& post.succeeded == m.succeeded
            &&& (m.current_url + 1 < m.urls.len() ==> act == ActionModel::CreateAndFetch(
                cur_id(m),
                m.urls[m.current_url as int + 1],
            ))
            &&& (m.current_url + 1 >= m.urls.len() && m.next_subtopic + 1 < m.ids.len()
                ==> act == ActionModel::LookupSubtopic(m.ids[m.next_subtopic as int + 1]))
            &&& (m.current_url + 1 >= m.urls.len() && m.next_subtopic + 1 == m.ids.len()
                ==> act is Finished)
            &&& (err is Timeout ==> contains_seq(failed_text(err), "timed out"@))
        }),
{
    let resolved = resolved_record(m.records.last(), Err(err));
    let rs = m.records.update(m.records.len() - 1, resolved);
    assert(rs[m.records.len() - 1] == resolved);
    if err is Timeout {
        let ft = failed_text(err);
        reveal_strlit("Error: ");
        reveal_strlit("request timed out: ");
        reveal_strlit("timed out");
        let j: int = 15;
        assert(ft.subrange(j, j + "timed out"@.len()) =~= "timed out"@);
        assert(contains_seq(ft, "timed out"@));
    }
}

impl PipelineState {
    pub open spec fn wf(&self) -> bool {
        model_wf(self@)
    }

    pub open spec fn accepts(&self, e: EventModel) -> bool {
        accepts_model(self@, e)
    }

    /// A fresh run over this batch: nothing discovered, nothing recorded —
    /// every run owns its own, initially empty, set of records.
    pub fn new(subtopic_ids: Vec<String>) -> (s: Self)
        ensures
            s.wf(),
            s@.ids == subtopic_ids.deep_view(),
            s@.phase is Starting,
            s@.records == Seq::<RecordView>::empty(),
            s@.succeeded == 0,
    {
        let s = PipelineState {
            subtopic_ids,
            next_subtopic: 0,
            phase: Phase::Starting,
            urls: Vec::new(),
            current_url: 0,
            records: Vec::new(),
            succeeded: 0,
        };
        proof {
            assert(records_view(s.records@) =~= Seq::<RecordView>::empty());
        }
        s
    }

    fn advance(&mut self) -> (a: Action)
        ensures
            (final(self)@, a@) == advance_model(old(self)@),
    {
        if self.next_subtopic < self.subtopic_ids.len() {
            self.phase = Phase::AwaitingLookup;
            let subtopic_id = self.subtopic_ids[self.next_subtopic].clone();
            Action::LookupSubtopic { subtopic_id }
        } else {
            self.phase = Phase::Done;
            let message = summary_message(self.succeeded, self.records.len());
            Action::Finished { message }
        }
    }

    /// Feed the outcome of the last action in; the state moves as
    /// `step_model` says and the next action comes back.  Terminal records
    /// are never touched again, record identities never change, and records
    /// are never discarded.
    pub fn step(&mut self, e: Event) -> (a: Action)
        requires
            old(self).wf(),
            old(self).accepts(e@),
        ensures
            final(self).wf(),
            (final(self)@, a@) == step_model(old(self)@, e@),
            old(self)@.records.len() <= final(self)@.records.len(),
            forall|i: int| 0 <= i < old(self)@.records.len() && !(old(self)@.records[i].status is Pending)
                ==> #[trigger] final(self)@.records[i] == old(self)@.records[i],
    {
        proof {
            lemma_step_record_laws(old(self)@, e@);
        }
        match e {
            Event::Started => self.advance(),
            Event::LookupDone { info } => match info {
                None => {
                    let total = self.subtopic_ids.len();
                    proof {
                        assert(self.next_subtopic < total);
                    }
                    self.next_subtopic = self.next_subtopic + 1;
                    self.advance()
                },
                Some(info) => {
                    let hint: Option<&str> = match &info.template_type {
                        Some(t) => Some(t.as_str()),
                        None => None,
                    };
                    let query = generate_search_query(
                        info.topic_name.as_str(),
                        info.name.as_str(),
                        hint,
                    );
                    self.phase = Phase::AwaitingDiscovery;
                    Action::Discover { query, max_results: DISCOVERY_FAN_OUT }
                },
            },
            Event::DiscoverDone { links } => match links {
                Err(_) => {
                    let total = self.subtopic_ids.len();
                    proof {
                        assert(self.next_subtopic < total);
                    }
                    self.next_subtopic = self.next_subtopic + 1;
                    self.advance()
                },
                Ok(urls) => {
                    if urls.len() == 0 {
                        let total = self.subtopic_ids.len();
                        proof {
                            assert(self.next_subtopic < total);
                        }
                        self.next_subtopic = self.next_subtopic + 1;
                        self.advance()
                    } else {
                        let subtopic_id = self.subtopic_ids[self.next_subtopic].clone();
                        let url = urls[0].clone();
                        self.urls = urls;
                        self.current_url = 0;
                        self.records.push(
                            ResourceRecord {
                                subtopic_id: subtopic_id.clone(),
                                url: url.clone(),
                                title: None,
                                summary: None,
                                full_content: None,
                                status: Status::Pending,
                            },
                        );
                        self.phase = Phase::AwaitingFetch;
                        proof {
                            assert(records_view(self.records@) =~= records_view(
                                old(self).records@,
                            ).push(pending_record(cur_id(old(self)@), self@.urls[0])));
                        }
                        Action::CreateAndFetch { subtopic_id, url }
                    }
                },
            },
            Event::FetchDone { outcome } => {
                let ok = match &outcome {
                    Ok(_) => true,
                    Err(_) => false,
                };
                proof {
                    lemma_count_le_len(old(self)@.records.drop_last());
                }
                let last = self.records.pop().unwrap();
                let resolved = resolve_record(last, outcome);
                self.records.push(resolved);
                proof {
                    assert(records_view(self.records@) =~= old(self)@.records.update(
                        old(self)@.records.len() - 1,
                        resolved@,
                    ));
                }
                let total_records = self.records.len();
                proof {
                    assert(old(self)@.records.len() == total_records as nat);
                    assert(count_completed(old(self)@.records) == count_completed(
                        old(self)@.records.drop_last(),
                    ));
                    assert(self.succeeded < total_records);
                }
                if ok {
                    self.succeeded = self.succeeded + 1;
                }
                if self.current_url < self.urls.len() - 1 {
                    self.current_url = self.current_url + 1;
                    let subtopic_id = self.subtopic_ids[self.next_subtopic].clone();
                    let url = self.urls[self.current_url].clone();
                    let ghost mid = records_view(self.records@);
                    self.records.push(
                        ResourceRecord {
                            subtopic_id: subtopic_id.clone(),
                            url: url.clone(),
                            title: None,
                            summary: None,
                            full_content: None,
                            status: Status::Pending,
                        },
                    );
                    proof {
                        assert(records_view(self.records@) =~= mid.push(
                            pending_record(cur_id(old(self)@), old(self)@.urls[old(self)@.current_url as int + 1]),
                        ));
                    }
                    Action::CreateAndFetch { subtopic_id, url }
                } else {
                    let total = self.subtopic_ids.len();
                    proof {
                        assert(self.next_subtopic < total);
                    }
                    self.next_subtopic = self.next_subtopic + 1;
                    self.advance()
                }
            },
        }
    }

    /// The counts of this run so far: one attempt per created record.
    pub fn summary(&self) -> (s: PipelineSummary)
        ensures
            s.attempted as nat == self@.records.len(),
            s.succeeded as nat == self@.succeeded,
    {
        PipelineSummary { attempted: self.records.len(), succeeded: self.succeeded }
    }
}

/// How a pending record resolves, as executable code: the exact counterpart
/// of `resolved_record`.
fn resolve_record(rec: ResourceRecord, outcome: Result<ScrapedContent, FetchError>) -> (r: ResourceRecord)
    ensures
        r@ == resolved_record(
            rec@,
            match outcome {
                Ok(c) => Ok(c@),
                Err(e) => Err(e@),
            },
        ),
{
    match outcome {
        Ok(c) => {
            let summary = truncate_chars(c.content.as_str(), SUMMARY_LEN);
            ResourceRecord {
                subtopic_id: rec.subtopic_id,
                url: rec.url,
                title: c.title,
                summary: Some(summary),
                full_content: Some(c.content),
                status: Status::Completed,
            }
        },
        Err(e) => {
            let mut text = "Error: ".to_owned();
            let detail = e.text();
            text.append(detail.as_str());
            ResourceRecord {
                subtopic_id: rec.subtopic_id,
                url: rec.url,
                title: None,
                summary: None,
                full_content: Some(text),
                status: Status::Failed,
            }
        },
    }
}

} // verus!
