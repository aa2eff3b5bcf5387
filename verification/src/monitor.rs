//! The feed worker and the reconciler, as state machines.
//!
//! Both talk to the torrent client through the program around the library:
//! the program reports each outcome as an event, the machine updates its
//! state and answers with the next action.

use vstd::prelude::*;
use std::collections::HashSet;
use qbittorrent::queries::{
    TorrentDownload, TorrentDownloadBuilder, TorrentFilter, TorrentRequest, TorrentRequestBuilder,
};
use crate::rss::TorrentData;
use crate::text::{ascii_lower, ascii_lowered, is_substring, str_contains, str_to_ascii_lowercase, texts, TextSet};
use crate::yaml::{QbittorrentAuthentication, RssFeed};

verus! {

broadcast use vstd::std_specs::hash::group_hash_axioms;

/// The category of torrents that the agent added.
pub const AUTODL_CATEGORY: &'static str = "AUTO_DL";

/// The category of torrents that a title ban has quarantined.
pub const TITLE_BAN_CATEGORY: &'static str = "TITLE_BAN";

/// Seconds between two ticks of the reconciler.
pub const TICK_SECONDS: u64 = 60;

/// Seconds to wait after a feed could not be read.
pub const FAILURE_BACKOFF: u64 = 60;

/// What the feed worker is told.
#[derive(Debug, Clone, Copy, PartialEq, Eq)]
pub enum FeedEvent {
    /// The feed could not be fetched or decoded.
    FetchFailed,
    /// Every announcement of the fetched batch has been dealt with.
    Finished,
    /// The next announcement of the batch, by its fingerprint.
    Matched { item_hash: u64 },
    /// The torrent client answered the request to add the announcement.
    Added { item_hash: u64, accepted: bool },
}

/// What the feed worker asks for.
#[derive(Debug, Clone, Copy, PartialEq, Eq)]
pub enum FeedAction {
    /// Nothing to do for this event.
    Skip,
    /// Hand the announcement to the torrent client.
    Dispatch,
    /// Wait this many seconds, then fetch again.
    Sleep(u64),
}

/// The dispatch record after one event: an accepted add enters the
/// fingerprint, nothing else changes the record.
pub open spec fn record_step(record: Set<u64>, event: FeedEvent) -> Set<u64> {
    match event {
        FeedEvent::Added { item_hash, accepted } => if accepted {
            record.insert(item_hash)
        } else {
            record
        },
        _ => record,
    }
}

/// The dispatch record after a run of events.
pub open spec fn record_after(record: Set<u64>, events: Seq<FeedEvent>) -> Set<u64>
    decreases events.len(),
{
    if events.len() == 0 {
        record
    } else {
        record_step(record_after(record, events.drop_last()), events.last())
    }
}

/// The worker's answer to an event.
pub open spec fn feed_action(record: Set<u64>, update_interval: u32, event: FeedEvent) -> FeedAction {
    match event {
        FeedEvent::FetchFailed => FeedAction::Sleep(FAILURE_BACKOFF),
        FeedEvent::Finished => FeedAction::Sleep(update_interval as u64),
        FeedEvent::Matched { item_hash } => if record.contains(item_hash) {
            FeedAction::Skip
        } else {
            FeedAction::Dispatch
        },
        FeedEvent::Added { .. } => FeedAction::Skip,
    }
}

/// After any run of events, the record holds what it held before and the
/// fingerprints of the adds that were accepted.
pub proof fn record_after_members(record: Set<u64>, events: Seq<FeedEvent>, item_hash: u64)
    ensures
        record_after(record, events).contains(item_hash) <==> (record.contains(item_hash)
            || exists|i: int|
            0 <= i < events.len() && #[trigger] events[i] == (FeedEvent::Added {
                item_hash,
                accepted: true,
            })),
    decreases events.len(),
{
    if events.len() > 0 {
        let front = events.drop_last();
        record_after_members(record, front, item_hash);
        if exists|i: int|
            0 <= i < front.len() && #[trigger] front[i] == (FeedEvent::Added {
                item_hash,
                accepted: true,
            }) {
            let i = choose|i: int|
                0 <= i < front.len() && #[trigger] front[i] == (FeedEvent::Added {
                    item_hash,
                    accepted: true,
                });
            assert(events[i] == front[i]);
        }
        if exists|i: int|
            0 <= i < events.len() && #[trigger] events[i] == (FeedEvent::Added {
                item_hash,
                accepted: true,
            }) {
            let i = choose|i: int|
                0 <= i < events.len() && #[trigger] events[i] == (FeedEvent::Added {
                    item_hash,
                    accepted: true,
                });
            if i < front.len() {
                assert(front[i] == events[i]);
            }
        }
        if events.last() == (FeedEvent::Added { item_hash, accepted: true }) {
            assert(events[events.len() - 1] == events.last());
        }
    }
}

/// A worker that starts with an empty record holds a fingerprint after any
/// run of events exactly if the torrent client accepted an add of that
/// announcement at least once.
pub proof fn dispatched_iff_accepted(events: Seq<FeedEvent>, item_hash: u64)
    ensures
        record_after(Set::empty(), events).contains(item_hash) <==> exists|i: int|
            0 <= i < events.len() && #[trigger] events[i] == (FeedEvent::Added {
                item_hash,
                accepted: true,
            }),
{
    record_after_members(Set::empty(), events, item_hash);
}

/// Once a fingerprint is on record it stays there, so the worker never asks
/// to dispatch that announcement again.
pub proof fn recorded_is_not_dispatched_again(
    record: Set<u64>,
    events: Seq<FeedEvent>,
    update_interval: u32,
    item_hash: u64,
)
    requires
        record.contains(item_hash),
    ensures
        record_after(record, events).contains(item_hash),
        feed_action(
            record_after(record, events),
            update_interval,
            FeedEvent::Matched { item_hash },
        ) == FeedAction::Skip,
{
    record_after_members(record, events, item_hash);
}

/// The add request of the torrent client's crate. Its fields cannot be read.
#[verifier::external_type_specification]
#[verifier::external_body]
pub struct ExTorrentDownload(qbittorrent::queries::TorrentDownload);

/// The add request that the client crate's builder makes from a download
/// address, a save folder, a paused flag and a category, with every other
/// field left unset.
pub uninterp spec fn download_query_of(
    urls: Seq<char>,
    savepath: Seq<char>,
    paused: Seq<char>,
    category: Seq<char>,
) -> TorrentDownload;

/// Calls `TorrentDownloadBuilder` of the client's crate: sets the save
/// folder, the address, the paused flag and the category, and builds. Every
/// field of the request has a default, so the build has nothing to refuse;
/// the result is the request named after the four texts.
#[verifier::external_body]
fn build_download(
    urls: &str,
    savepath: &str,
    paused: &str,
    category: &str,
) -> (query: TorrentDownload)
    ensures
        query == download_query_of(urls@, savepath@, paused@, category@),
{
    TorrentDownloadBuilder::default()
        .savepath(savepath)
        .urls(urls)
        .paused(paused)
        .category(category)
        .build()
        .unwrap_or_default()
}

/// The paused flag in the spelling of the torrent client's web API.
pub open spec fn paused_flag(paused: bool) -> Seq<char> {
    if paused {
        "true"@
    } else {
        "false"@
    }
}

/// The request that adds one torrent to the client.
#[derive(Debug)]
pub struct DownloadRequest {
    pub urls: String,
    pub savepath: String,
    pub paused: bool,
    pub category: String,
}

impl DownloadRequest {
    /// The request in the form that the client's crate sends: the four
    /// fields go to the builder, the paused flag spelled `true` or `false`.
    pub fn query(&self) -> (query: TorrentDownload)
        ensures
            query == download_query_of(
                self.urls@,
                self.savepath@,
                paused_flag(self.paused),
                self.category@,
            ),
    {
        let flag = if self.paused {
            "true"
        } else {
            "false"
        };
        build_download(self.urls.as_str(), self.savepath.as_str(), flag, self.category.as_str())
    }
}

/// The worker of one feed: the feed and the fingerprints of the
/// announcements that the torrent client has accepted.
#[derive(Debug)]
pub struct FeedMonitor {
    previous_hashes: HashSet<u64>,
    feed: RssFeed,
}

impl FeedMonitor {
    /// The dispatch record.
    pub closed spec fn record(&self) -> Set<u64> {
        self.previous_hashes@
    }

    /// The feed that the worker reads.
    pub closed spec fn spec_feed(&self) -> RssFeed {
        self.feed
    }

    /// A worker for `data` that has dispatched nothing yet.
    pub fn from_feed(data: RssFeed) -> (worker: Self)
        ensures
            worker.spec_feed() == data,
            worker.record() == Set::<u64>::empty(),
    {
        FeedMonitor { previous_hashes: HashSet::new(), feed: data }
    }

    /// The feed of this worker.
    pub fn feed(&self) -> (feed: &RssFeed)
        ensures
            *feed == self.spec_feed(),
    {
        &self.feed
    }

    /// Whether the announcement with this fingerprint was accepted before.
    pub fn is_dispatched(&self, item_hash: u64) -> (known: bool)
        ensures
            known == self.record().contains(item_hash),
    {
        self.previous_hashes.contains(&item_hash)
    }

    /// One step of the worker. An announcement is dispatched unless its
    /// fingerprint is on record; the fingerprint goes on record when the
    /// client has accepted the add, and only then; a finished batch is
    /// followed by the feed's own interval and a failed fetch by the fixed
    /// backoff.
    pub fn run_update(&mut self, event: FeedEvent) -> (action: FeedAction)
        ensures
            final(self).spec_feed() == old(self).spec_feed(),
            final(self).record() == record_step(old(self).record(), event),
            action == feed_action(old(self).record(), old(self).spec_feed().update_interval, event),
    {
        match event {
            FeedEvent::FetchFailed => FeedAction::Sleep(FAILURE_BACKOFF),
            FeedEvent::Finished => {
                let interval: u64 = self.feed.update_interval as u64;
                FeedAction::Sleep(interval)
            },
            FeedEvent::Matched { item_hash } => {
                if self.previous_hashes.contains(&item_hash) {
                    FeedAction::Skip
                } else {
                    FeedAction::Dispatch
                }
            },
            FeedEvent::Added { item_hash, accepted } => {
                if accepted {
                    self.previous_hashes.insert(item_hash);
                }
                FeedAction::Skip
            },
        }
    }

    /// The request that hands a bound announcement to the torrent client:
    /// its download address, the save folder and the paused flag of its
    /// rule, in the category of the agent's own torrents.
    pub fn start_qbit_download(&self, data: &TorrentData<'_>) -> (request: DownloadRequest)
        ensures
            request.urls@ == data.download_link@,
            request.savepath@ == data.original_matcher.save_folder@,
            request.paused == (data.original_matcher.start_paused == Some(true)),
            request.category@ == AUTODL_CATEGORY@,
    {
        DownloadRequest {
            urls: data.download_link.clone(),
            savepath: data.original_matcher.save_folder.clone(),
            paused: data.original_matcher.paused_on_add(),
            category: AUTODL_CATEGORY.to_owned(),
        }
    }
}

/// The list request of the torrent client's crate. Its fields cannot be
/// read.
#[verifier::external_type_specification]
#[verifier::external_body]
pub struct ExTorrentRequest(qbittorrent::queries::TorrentRequest);

/// The list filters of the torrent client's crate.
#[verifier::external_type_specification]
pub struct ExTorrentFilter(qbittorrent::queries::TorrentFilter);

/// The list request that the client crate's builder makes from a filter and
/// an optional category, with every other field left unset.
pub uninterp spec fn listing_query_of(
    filter: TorrentFilter,
    category: Option<Seq<char>>,
) -> TorrentRequest;

/// Calls `TorrentRequestBuilder` of the client's crate with a filter and no
/// category, and builds. Every field of the request has a default, so the
/// build has nothing to refuse.
#[verifier::external_body]
fn build_listing(filter: TorrentFilter) -> (query: TorrentRequest)
    ensures
        query == listing_query_of(filter, None),
{
    TorrentRequestBuilder::default().filter(filter).build().unwrap_or_default()
}

/// Calls `TorrentRequestBuilder` of the client's crate with a filter and a
/// category, and builds.
#[verifier::external_body]
fn build_category_listing(filter: TorrentFilter, category: &str) -> (query: TorrentRequest)
    ensures
        query == listing_query_of(filter, Some(category@)),
{
    TorrentRequestBuilder::default().filter(filter).category(category).build().unwrap_or_default()
}

/// Which torrents a list request asks for.
#[derive(Debug, Clone, Copy, PartialEq, Eq)]
pub enum ListFilter {
    /// Every torrent.
    All,
    /// The torrents that have completed.
    Completed,
}

/// A request to list torrents, limited to a category where one is given.
#[derive(Debug)]
pub struct ListRequest {
    pub filter: ListFilter,
    pub category: Option<String>,
}

/// The steps of one reconciler tick, in the order in which they run.
#[derive(Debug, Clone, Copy, PartialEq, Eq)]
pub enum TickStep {
    /// Observe every torrent of the client.
    Snapshot,
    /// Pause completed torrents without an allowed tracker.
    TrackerEviction,
    /// Quarantine the agent's own torrents with a banned name.
    TitleEviction,
}

impl TickStep {
    /// The step that opens a tick: the snapshot.
    pub fn first() -> (step: TickStep)
        ensures
            step == TickStep::Snapshot,
    {
        TickStep::Snapshot
    }

    /// The step that follows this one within a tick: the snapshot is
    /// followed by tracker eviction, tracker eviction by title eviction,
    /// and title eviction closes the tick.
    pub fn next(&self) -> (following: Option<TickStep>)
        ensures
            following == (match *self {
                TickStep::Snapshot => Some(TickStep::TrackerEviction),
                TickStep::TrackerEviction => Some(TickStep::TitleEviction),
                TickStep::TitleEviction => None,
            }),
    {
        match self {
            TickStep::Snapshot => Some(TickStep::TrackerEviction),
            TickStep::TrackerEviction => Some(TickStep::TitleEviction),
            TickStep::TitleEviction => None,
        }
    }

    /// The list that the step reads: every torrent for the snapshot, the
    /// completed ones for tracker eviction, and every torrent of the
    /// agent's own category for title eviction.
    pub fn listing(&self) -> (request: ListRequest)
        ensures
            request.filter == (if *self == TickStep::TrackerEviction {
                ListFilter::Completed
            } else {
                ListFilter::All
            }),
            match request.category {
                Some(category) => *self == TickStep::TitleEviction && category@
                    == AUTODL_CATEGORY@,
                None => *self != TickStep::TitleEviction,
            },
    {
        match self {
            TickStep::Snapshot => ListRequest { filter: ListFilter::All, category: None },
            TickStep::TrackerEviction => ListRequest {
                filter: ListFilter::Completed,
                category: None,
            },
            TickStep::TitleEviction => ListRequest {
                filter: ListFilter::All,
                category: Some(AUTODL_CATEGORY.to_owned()),
            },
        }
    }
}

impl ListRequest {
    /// The filter in the form of the client's crate.
    pub open spec fn client_filter(&self) -> TorrentFilter {
        match self.filter {
            ListFilter::All => TorrentFilter::All,
            ListFilter::Completed => TorrentFilter::Completed,
        }
    }

    /// The category as a text, if there is one.
    pub open spec fn category_text(&self) -> Option<Seq<char>> {
        match self.category {
            Some(category) => Some(category@),
            None => None,
        }
    }

    /// The request in the form that the client's crate sends.
    pub fn query(&self) -> (query: TorrentRequest)
        ensures
            query == listing_query_of(self.client_filter(), self.category_text()),
    {
        let filter = match self.filter {
            ListFilter::All => TorrentFilter::All,
            ListFilter::Completed => TorrentFilter::Completed,
        };
        match &self.category {
            Some(category) => build_category_listing(filter, category.as_str()),
            None => build_listing(filter),
        }
    }
}

/// Some entry of the allow-list is a substring of the tracker address,
/// compared in lower case.
pub open spec fn allowed(trackers: Seq<Seq<char>>, url: Seq<char>) -> bool {
    exists|i: int| 0 <= i < trackers.len() && is_substring(ascii_lower(url), #[trigger] trackers[i])
}

/// A torrent is kept seeding when one of its tracker addresses is allowed.
pub open spec fn keep_seeding(trackers: Seq<Seq<char>>, urls: Seq<Seq<char>>) -> bool {
    exists|j: int| 0 <= j < urls.len() && allowed(trackers, #[trigger] urls[j])
}

/// Some title ban is a substring of the torrent's name in lower case.
pub open spec fn title_banned(bans: Seq<Seq<char>>, name: Seq<char>) -> bool {
    exists|i: int| 0 <= i < bans.len() && is_substring(ascii_lower(name), #[trigger] bans[i])
}

/// The texts of a list, each in ASCII lower case.
pub open spec fn ascii_lowered_texts(list: Seq<String>) -> Seq<Seq<char>> {
    Seq::new(list.len(), |i: int| ascii_lower(list[i]@))
}

/// The texts of an optional list in ASCII lower case; none for an absent
/// list.
pub open spec fn ascii_lowered_or_empty(list: Option<Vec<String>>) -> Seq<Seq<char>> {
    match list {
        Some(entries) => ascii_lowered_texts(entries@),
        None => Seq::empty(),
    }
}

/// What the tracker step of the reconciler is told about one completed
/// torrent.
#[derive(Debug)]
pub enum PauseEvent {
    /// The torrent is in the client's list of completed torrents.
    Completed { hash: String },
    /// The client reported the torrent's tracker addresses.
    Trackers { hash: String, urls: Vec<String> },
    /// The client answered the request to pause the torrent, whose tracker
    /// addresses were `urls`.
    Paused { hash: String, urls: Vec<String>, accepted: bool },
}

/// The mathematical form of a [`PauseEvent`].
pub enum PauseEventView {
    Completed { hash: Seq<char> },
    Trackers { hash: Seq<char>, urls: Seq<Seq<char>> },
    Paused { hash: Seq<char>, urls: Seq<Seq<char>>, accepted: bool },
}

impl View for PauseEvent {
    type V = PauseEventView;

    open spec fn view(&self) -> PauseEventView {
        match *self {
            PauseEvent::Completed { hash } => PauseEventView::Completed { hash: hash@ },
            PauseEvent::Trackers { hash, urls } => PauseEventView::Trackers {
                hash: hash@,
                urls: texts(urls@),
            },
            PauseEvent::Paused { hash, urls, accepted } => PauseEventView::Paused {
                hash: hash@,
                urls: texts(urls@),
                accepted,
            },
        }
    }
}

/// What the tracker step asks for.
#[derive(Debug, Clone, Copy, PartialEq, Eq)]
pub enum PauseAction {
    /// Nothing more to do for this torrent in this tick.
    Skip,
    /// Fetch the torrent's tracker addresses.
    FetchTrackers,
    /// Pause the torrent.
    Pause,
}

/// What the title step of the reconciler is told.
#[derive(Debug)]
pub enum TitleEvent {
    /// The step begins.
    Tick,
    /// A torrent is in the client's list of the agent's own category.
    Listed { hash: String, name: String },
    /// The client answered the requests to move the torrent to the
    /// quarantine category and then to pause it. A pause that was not
    /// attempted counts as not accepted.
    Quarantined { hash: String, name: String, recategorised: bool, paused: bool },
}

/// The mathematical form of a [`TitleEvent`].
pub enum TitleEventView {
    Tick,
    Listed { hash: Seq<char>, name: Seq<char> },
    Quarantined { hash: Seq<char>, name: Seq<char>, recategorised: bool, paused: bool },
}

impl View for TitleEvent {
    type V = TitleEventView;

    open spec fn view(&self) -> TitleEventView {
        match *self {
            TitleEvent::Tick => TitleEventView::Tick,
            TitleEvent::Listed { hash, name } => TitleEventView::Listed { hash: hash@, name: name@ },
            TitleEvent::Quarantined {
                hash,
                name,
                recategorised,
                paused,
            } => TitleEventView::Quarantined { hash: hash@, name: name@, recategorised, paused },
        }
    }
}

/// What the title step asks for.
#[derive(Debug, Clone, Copy, PartialEq, Eq)]
pub enum TitleAction {
    /// Nothing to do: no client call follows this event.
    Skip,
    /// List the torrents of the agent's own category.
    List,
    /// Move the torrent to the quarantine category, then pause it.
    Quarantine,
}

/// The mathematical form of the reconciler's state.
pub struct ReconcilerView {
    /// Every hash that was observed.
    pub all: Set<Seq<char>>,
    /// The hashes paused because no tracker of theirs is allowed.
    pub paused_tracker: Set<Seq<char>>,
    /// The hashes quarantined and paused because of their name.
    pub paused_title: Set<Seq<char>>,
    /// The tracker allow-list, in lower case.
    pub trackers: Seq<Seq<char>>,
    /// The title bans, in lower case.
    pub title_bans: Seq<Seq<char>>,
    /// The file bans, in lower case. Kept and not enforced.
    pub file_bans: Seq<Seq<char>>,
}

impl ReconcilerView {
    /// Both sets of paused hashes lie within the observed hashes.
    pub open spec fn paused_within_all(self) -> bool {
        self.paused_tracker.subset_of(self.all) && self.paused_title.subset_of(self.all)
    }

    /// The state after the client listed the torrents with these hashes.
    pub open spec fn observe(self, hashes: Seq<Seq<char>>) -> ReconcilerView {
        ReconcilerView { all: self.all.union(hashes.to_set()), ..self }
    }

    /// An observed torrent with these tracker addresses is to be paused.
    pub open spec fn evicts(self, hash: Seq<char>, urls: Seq<Seq<char>>) -> bool {
        self.all.contains(hash) && !keep_seeding(self.trackers, urls)
    }

    /// An observed torrent with this name is to be quarantined.
    pub open spec fn quarantines(self, hash: Seq<char>, name: Seq<char>) -> bool {
        self.all.contains(hash) && title_banned(self.title_bans, name)
    }

    /// The answer of the tracker step to an event.
    pub open spec fn pause_action(self, event: PauseEventView) -> PauseAction {
        match event {
            PauseEventView::Completed { hash } => if self.all.contains(hash)
                && !self.paused_tracker.contains(hash) {
                PauseAction::FetchTrackers
            } else {
                PauseAction::Skip
            },
            PauseEventView::Trackers { hash, urls } => if !self.paused_tracker.contains(hash)
                && self.evicts(hash, urls) {
                PauseAction::Pause
            } else {
                PauseAction::Skip
            },
            PauseEventView::Paused { .. } => PauseAction::Skip,
        }
    }

    /// The state after an event of the tracker step: a hash enters the
    /// tracker-paused set when the torrent is to be paused and the client
    /// accepted the pause.
    pub open spec fn pause_step(self, event: PauseEventView) -> ReconcilerView {
        match event {
            PauseEventView::Paused { hash, urls, accepted } => if accepted && self.evicts(
                hash,
                urls,
            ) {
                ReconcilerView { paused_tracker: self.paused_tracker.insert(hash), ..self }
            } else {
                self
            },
            _ => self,
        }
    }

    /// The answer of the title step to an event.
    pub open spec fn title_action(self, event: TitleEventView) -> TitleAction {
        match event {
            TitleEventView::Tick => if self.title_bans.len() == 0 {
                TitleAction::Skip
            } else {
                TitleAction::List
            },
            TitleEventView::Listed { hash, name } => if !self.paused_title.contains(hash)
                && self.quarantines(hash, name) {
                TitleAction::Quarantine
            } else {
                TitleAction::Skip
            },
            TitleEventView::Quarantined { .. } => TitleAction::Skip,
        }
    }

    /// The state after an event of the title step: a hash enters the
    /// title-paused set when the torrent is to be quarantined and the client
    /// accepted both the new category and the pause.
    pub open spec fn title_step(self, event: TitleEventView) -> ReconcilerView {
        match event {
            TitleEventView::Quarantined { hash, name, recategorised, paused } => if recategorised
                && paused && self.quarantines(hash, name) {
                ReconcilerView { paused_title: self.paused_title.insert(hash), ..self }
            } else {
                self
            },
            _ => self,
        }
    }
}

/// One event of a reconciler's life.
pub enum TickEvent {
    /// The client listed the torrents with these hashes.
    Observed(Seq<Seq<char>>),
    /// An event of the tracker step.
    Tracker(PauseEventView),
    /// An event of the title step.
    Title(TitleEventView),
}

/// The state after one event.
pub open spec fn tick_step(state: ReconcilerView, event: TickEvent) -> ReconcilerView {
    match event {
        TickEvent::Observed(hashes) => state.observe(hashes),
        TickEvent::Tracker(e) => state.pause_step(e),
        TickEvent::Title(e) => state.title_step(e),
    }
}

/// The state after a run of events.
pub open spec fn tick_run(state: ReconcilerView, events: Seq<TickEvent>) -> ReconcilerView
    decreases events.len(),
{
    if events.len() == 0 {
        state
    } else {
        tick_step(tick_run(state, events.drop_last()), events.last())
    }
}

/// The event reports an accepted pause of `hash`, none of whose tracker
/// addresses is allowed.
pub open spec fn is_tracker_eviction(trackers: Seq<Seq<char>>, event: TickEvent, hash: Seq<char>) -> bool {
    match event {
        TickEvent::Tracker(PauseEventView::Paused { hash: h, urls, accepted }) => h == hash
            && accepted && !keep_seeding(trackers, urls),
        _ => false,
    }
}

/// The event reports that `hash`, whose name holds a banned text, was moved
/// to the quarantine category and paused, both accepted.
pub open spec fn is_title_eviction(bans: Seq<Seq<char>>, event: TickEvent, hash: Seq<char>) -> bool {
    match event {
        TickEvent::Title(TitleEventView::Quarantined { hash: h, name, recategorised, paused }) => h
            == hash && recategorised && paused && title_banned(bans, name),
        _ => false,
    }
}

/// No event changes the allow-list or the bans, no set ever loses a hash,
/// and the paused sets stay within the observed hashes.
pub proof fn tick_run_preserves(state: ReconcilerView, events: Seq<TickEvent>)
    ensures
        tick_run(state, events).trackers == state.trackers,
        tick_run(state, events).title_bans == state.title_bans,
        tick_run(state, events).file_bans == state.file_bans,
        state.all.subset_of(tick_run(state, events).all),
        state.paused_tracker.subset_of(tick_run(state, events).paused_tracker),
        state.paused_title.subset_of(tick_run(state, events).paused_title),
        state.paused_within_all() ==> tick_run(state, events).paused_within_all(),
    decreases events.len(),
{
    if events.len() > 0 {
        tick_run_preserves(state, events.drop_last());
    }
}

/// A hash is in the tracker-paused set only if it was there at the start or
/// some event reported an accepted pause of it while none of its tracker
/// addresses was allowed.
pub proof fn tracker_pause_is_justified(
    state: ReconcilerView,
    events: Seq<TickEvent>,
    hash: Seq<char>,
)
    requires
        tick_run(state, events).paused_tracker.contains(hash),
    ensures
        state.paused_tracker.contains(hash) || exists|i: int|
            0 <= i < events.len() && is_tracker_eviction(state.trackers, #[trigger] events[i], hash),
    decreases events.len(),
{
    if events.len() > 0 {
        let front = events.drop_last();
        tick_run_preserves(state, front);
        if tick_run(state, front).paused_tracker.contains(hash) {
            tracker_pause_is_justified(state, front, hash);
            if !state.paused_tracker.contains(hash) {
                let i = choose|i: int|
                    0 <= i < front.len() && is_tracker_eviction(
                        state.trackers,
                        #[trigger] front[i],
                        hash,
                    );
                assert(events[i] == front[i]);
            }
        } else {
            assert(is_tracker_eviction(state.trackers, events[events.len() - 1], hash));
        }
    }
}

/// A hash is in the title-paused set only if it was there at the start or
/// some event reported that the torrent, whose name held a banned text, was
/// moved to the quarantine category and paused, both accepted.
pub proof fn title_pause_is_justified(
    state: ReconcilerView,
    events: Seq<TickEvent>,
    hash: Seq<char>,
)
    requires
        tick_run(state, events).paused_title.contains(hash),
    ensures
        state.paused_title.contains(hash) || exists|i: int|
            0 <= i < events.len() && is_title_eviction(state.title_bans, #[trigger] events[i], hash),
    decreases events.len(),
{
    if events.len() > 0 {
        let front = events.drop_last();
        tick_run_preserves(state, front);
        if tick_run(state, front).paused_title.contains(hash) {
            title_pause_is_justified(state, front, hash);
            if !state.paused_title.contains(hash) {
                let i = choose|i: int|
                    0 <= i < front.len() && is_title_eviction(
                        state.title_bans,
                        #[trigger] front[i],
                        hash,
                    );
                assert(events[i] == front[i]);
            }
        } else {
            assert(is_title_eviction(state.title_bans, events[events.len() - 1], hash));
        }
    }
}

/// Telling the reconciler the same event twice in a row leaves it where the
/// first telling left it.
pub proof fn tick_step_is_idempotent(state: ReconcilerView, event: TickEvent)
    ensures
        tick_step(tick_step(state, event), event) == tick_step(state, event),
{
    let once = tick_step(state, event);
    let twice = tick_step(once, event);
    assert(twice.all =~= once.all);
    assert(twice.paused_tracker =~= once.paused_tracker);
    assert(twice.paused_title =~= once.paused_title);
}

/// Once a hash is in the tracker-paused set, the tracker step asks for no
/// further client call for it, whatever happens in between.
pub proof fn tracker_paused_hash_is_skipped(
    state: ReconcilerView,
    events: Seq<TickEvent>,
    hash: Seq<char>,
    urls: Seq<Seq<char>>,
)
    requires
        state.paused_tracker.contains(hash),
    ensures
        tick_run(state, events).pause_action(PauseEventView::Completed { hash })
            == PauseAction::Skip,
        tick_run(state, events).pause_action(PauseEventView::Trackers { hash, urls })
            == PauseAction::Skip,
{
    tick_run_preserves(state, events);
}

/// Once a hash is in the title-paused set, the title step asks for no
/// further client call for it, whatever happens in between.
pub proof fn title_paused_hash_is_skipped(
    state: ReconcilerView,
    events: Seq<TickEvent>,
    hash: Seq<char>,
    name: Seq<char>,
)
    requires
        state.paused_title.contains(hash),
    ensures
        tick_run(state, events).title_action(TitleEventView::Listed { hash, name })
            == TitleAction::Skip,
{
    tick_run_preserves(state, events);
}

/// The reconciler: the hashes seen in the torrent client, those it has
/// paused for either reason, and the lists that it enforces.
#[derive(Debug)]
pub struct QbitMonitor {
    all_hashes: TextSet,
    paused_tracker_hashes: TextSet,
    paused_title_hashes: TextSet,
    trackers: Vec<String>,
    title_bans: Vec<String>,
    file_bans: Vec<String>,
}

impl View for QbitMonitor {
    type V = ReconcilerView;

    closed spec fn view(&self) -> ReconcilerView {
        ReconcilerView {
            all: self.all_hashes@,
            paused_tracker: self.paused_tracker_hashes@,
            paused_title: self.paused_title_hashes@,
            trackers: texts(self.trackers@),
            title_bans: texts(self.title_bans@),
            file_bans: texts(self.file_bans@),
        }
    }
}

impl QbitMonitor {
    /// The three sets are well formed and every paused hash was observed.
    pub closed spec fn wf(&self) -> bool {
        &&& self.all_hashes.wf()
        &&& self.paused_tracker_hashes.wf()
        &&& self.paused_title_hashes.wf()
        &&& self@.paused_within_all()
    }

    /// In a well-formed reconciler every paused hash is an observed hash.
    /// A new reconciler is well formed and every step keeps it so.
    pub proof fn paused_hashes_are_observed(&self)
        requires
            self.wf(),
        ensures
            self@.paused_within_all(),
    {
    }

    /// A reconciler that has seen nothing yet. The allow-list and the bans
    /// are taken in ASCII lower case; absent bans are empty.
    pub fn new(qbit_auth: &QbittorrentAuthentication) -> (monitor: Self)
        ensures
            monitor.wf(),
            monitor@.all == Set::<Seq<char>>::empty(),
            monitor@.paused_tracker == Set::<Seq<char>>::empty(),
            monitor@.paused_title == Set::<Seq<char>>::empty(),
            monitor@.trackers == ascii_lowered_texts(qbit_auth.trackers@),
            monitor@.title_bans == ascii_lowered_or_empty(qbit_auth.title_bans),
            monitor@.file_bans == ascii_lowered_or_empty(qbit_auth.file_bans),
    {
        let title_bans = match &qbit_auth.title_bans {
            Some(bans) => ascii_lowered(bans),
            None => Vec::new(),
        };
        let file_bans = match &qbit_auth.file_bans {
            Some(bans) => ascii_lowered(bans),
            None => Vec::new(),
        };
        let trackers = ascii_lowered(&qbit_auth.trackers);
        let monitor = Self {
            all_hashes: TextSet::new(),
            paused_tracker_hashes: TextSet::new(),
            paused_title_hashes: TextSet::new(),
            trackers,
            title_bans,
            file_bans,
        };
        assert(monitor@.trackers =~= ascii_lowered_texts(qbit_auth.trackers@));
        assert(monitor@.title_bans =~= ascii_lowered_or_empty(qbit_auth.title_bans));
        assert(monitor@.file_bans =~= ascii_lowered_or_empty(qbit_auth.file_bans));
        monitor
    }

    /// Whether the hash was observed.
    pub fn is_observed(&self, hash: &String) -> (known: bool)
        ensures
            known == self@.all.contains(hash@),
    {
        self.all_hashes.contains(hash)
    }

    /// Whether the hash was paused because none of its trackers is allowed.
    pub fn is_paused_for_tracker(&self, hash: &String) -> (known: bool)
        ensures
            known == self@.paused_tracker.contains(hash@),
    {
        self.paused_tracker_hashes.contains(hash)
    }

    /// Whether the hash was quarantined and paused because of its name.
    pub fn is_paused_for_title(&self, hash: &String) -> (known: bool)
        ensures
            known == self@.paused_title.contains(hash@),
    {
        self.paused_title_hashes.contains(hash)
    }

    /// The snapshot step: every hash that the client listed becomes an
    /// observed hash.
    pub fn sync_qbit(&mut self, hashes: &Vec<String>)
        ensures
            old(self).wf() ==> final(self).wf(),
            final(self)@ == old(self)@.observe(texts(hashes@)),
    {
        let mut i: usize = 0;
        proof {
            assert(texts(hashes@).take(0).to_set() =~= Set::<Seq<char>>::empty());
            assert(self@.all.union(texts(hashes@).take(0).to_set()) =~= self@.all);
        }
        while i < hashes.len()
            invariant
                i <= hashes.len(),
                old(self).wf() ==> self.wf(),
                self@ == old(self)@.observe(texts(hashes@).take(i as int)),
            decreases hashes.len() - i,
        {
            let ghost before = self@;
            self.all_hashes.insert(&hashes[i]);
            proof {
                let upto = texts(hashes@).take(i as int + 1);
                assert(upto =~= texts(hashes@).take(i as int).push(hashes[i as int]@));
                assert(upto.to_set() =~= texts(hashes@).take(i as int).to_set().insert(
                    hashes[i as int]@,
                )) by {
                    assert forall|t: Seq<char>| #[trigger]
                        upto.to_set().contains(t) <==> texts(hashes@).take(
                            i as int,
                        ).to_set().insert(hashes[i as int]@).contains(t) by {
                        let shorter = texts(hashes@).take(i as int);
                        if upto.contains(t) {
                            let j = choose|j: int| 0 <= j < upto.len() && upto[j] == t;
                            if j < shorter.len() {
                                assert(shorter[j] == t);
                            }
                        }
                        if shorter.contains(t) {
                            let j = choose|j: int| 0 <= j < shorter.len() && shorter[j] == t;
                            assert(upto[j] == t);
                        }
                        if t == hashes[i as int]@ {
                            assert(upto[i as int] == t);
                        }
                    }
                }
                assert(self@.all =~= old(self)@.all.union(upto.to_set()));
            }
            i += 1;
        }
        assert(texts(hashes@).take(hashes.len() as int) =~= texts(hashes@));
    }

    /// Whether some entry of the allow-list stands in the tracker address,
    /// compared in lower case.
    pub fn keep_seeding_tracker(&self, url: &String) -> (keep: bool)
        ensures
            keep == allowed(self@.trackers, url@),
    {
        let lower = str_to_ascii_lowercase(url.as_str());
        let mut i: usize = 0;
        while i < self.trackers.len()
            invariant
                i <= self.trackers.len(),
                lower@ == ascii_lower(url@),
                forall|k: int| 0 <= k < i ==> !is_substring(lower@, self.trackers[k]@),
            decreases self.trackers.len() - i,
        {
            if str_contains(lower.as_str(), self.trackers[i].as_str()) {
                assert(texts(self.trackers@)[i as int] == self.trackers[i as int]@);
                return true;
            }
            i += 1;
        }
        assert forall|k: int| 0 <= k < texts(self.trackers@).len() implies !is_substring(
            lower@,
            #[trigger] texts(self.trackers@)[k],
        ) by {
            assert(texts(self.trackers@)[k] == self.trackers[k]@);
        }
        false
    }

    /// Whether a torrent with these tracker addresses is kept seeding: one
    /// of them is allowed.
    pub fn keep_seeding(&self, urls: &Vec<String>) -> (keep: bool)
        ensures
            keep == keep_seeding(self@.trackers, texts(urls@)),
    {
        let mut i: usize = 0;
        while i < urls.len()
            invariant
                i <= urls.len(),
                forall|k: int| 0 <= k < i ==> !allowed(self@.trackers, urls[k]@),
            decreases urls.len() - i,
        {
            if self.keep_seeding_tracker(&urls[i]) {
                assert(texts(urls@)[i as int] == urls[i as int]@);
                return true;
            }
            i += 1;
        }
        assert forall|k: int| 0 <= k < texts(urls@).len() implies !allowed(
            self@.trackers,
            #[trigger] texts(urls@)[k],
        ) by {
            assert(texts(urls@)[k] == urls[k]@);
        }
        false
    }

    /// Whether no title ban stands in the torrent's name, compared in lower
    /// case.
    pub fn torrent_title_acceptable(&self, name: &String) -> (acceptable: bool)
        ensures
            acceptable == !title_banned(self@.title_bans, name@),
    {
        let lower = str_to_ascii_lowercase(name.as_str());
        let mut i: usize = 0;
        while i < self.title_bans.len()
            invariant
                i <= self.title_bans.len(),
                lower@ == ascii_lower(name@),
                forall|k: int| 0 <= k < i ==> !is_substring(lower@, self.title_bans[k]@),
            decreases self.title_bans.len() - i,
        {
            if str_contains(lower.as_str(), self.title_bans[i].as_str()) {
                assert(texts(self.title_bans@)[i as int] == self.title_bans[i as int]@);
                return false;
            }
            i += 1;
        }
        assert forall|k: int| 0 <= k < texts(self.title_bans@).len() implies !is_substring(
            lower@,
            #[trigger] texts(self.title_bans@)[k],
        ) by {
            assert(texts(self.title_bans@)[k] == self.title_bans[k]@);
        }
        true
    }

    /// One step of tracker eviction. A completed torrent that was observed
    /// and is not yet paused has its trackers fetched; it is paused when
    /// none of them is allowed; its hash is recorded when the client
    /// accepted the pause, and only then.
    pub fn pause_all(&mut self, event: &PauseEvent) -> (action: PauseAction)
        ensures
            old(self).wf() ==> final(self).wf(),
            final(self)@ == old(self)@.pause_step(event@),
            action == old(self)@.pause_action(event@),
    {
        match event {
            PauseEvent::Completed { hash } => {
                if self.all_hashes.contains(hash) && !self.paused_tracker_hashes.contains(hash) {
                    PauseAction::FetchTrackers
                } else {
                    PauseAction::Skip
                }
            },
            PauseEvent::Trackers { hash, urls } => {
                if !self.paused_tracker_hashes.contains(hash) && self.all_hashes.contains(hash)
                    && !self.keep_seeding(urls) {
                    PauseAction::Pause
                } else {
                    PauseAction::Skip
                }
            },
            PauseEvent::Paused { hash, urls, accepted } => {
                if *accepted && self.all_hashes.contains(hash) && !self.keep_seeding(urls) {
                    self.paused_tracker_hashes.insert(hash);
                }
                PauseAction::Skip
            },
        }
    }

    /// One step of title-ban eviction. Without title bans the step asks for
    /// nothing. A listed torrent that was observed and is not yet
    /// quarantined is quarantined when its name holds a banned text; its
    /// hash is recorded when the client accepted both the new category and
    /// the pause, and only then.
    pub fn check_titles(&mut self, event: &TitleEvent) -> (action: TitleAction)
        ensures
            old(self).wf() ==> final(self).wf(),
            final(self)@ == old(self)@.title_step(event@),
            action == old(self)@.title_action(event@),
    {
        match event {
            TitleEvent::Tick => {
                if self.title_bans.len() == 0 {
                    TitleAction::Skip
                } else {
                    TitleAction::List
                }
            },
            TitleEvent::Listed { hash, name } => {
                if !self.paused_title_hashes.contains(hash) && self.all_hashes.contains(hash)
                    && !self.torrent_title_acceptable(name) {
                    TitleAction::Quarantine
                } else {
                    TitleAction::Skip
                }
            },
            TitleEvent::Quarantined { hash, name, recategorised, paused } => {
                if *recategorised && *paused && self.all_hashes.contains(hash)
                    && !self.torrent_title_acceptable(name) {
                    self.paused_title_hashes.insert(hash);
                }
                TitleAction::Skip
            },
        }
    }
}

} // verus!
