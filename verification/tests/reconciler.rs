use autodl_rss::monitor::{
    ListFilter, ListRequest, PauseAction, PauseEvent, QbitMonitor, TickStep, TitleAction,
    TitleEvent, AUTODL_CATEGORY, TICK_SECONDS, TITLE_BAN_CATEGORY,
};
use autodl_rss::yaml::QbittorrentAuthentication;

fn s(text: &str) -> String {
    text.to_string()
}

fn auth(trackers: &[&str], title_bans: Option<&[&str]>) -> QbittorrentAuthentication {
    QbittorrentAuthentication {
        username: s("admin"),
        password: s("SECRET-REDACTED"),
        address: s("http://localhost:8080"),
        trackers: trackers.iter().map(|t| t.to_string()).collect(),
        title_bans: title_bans.map(|b| b.iter().map(|t| t.to_string()).collect()),
        file_bans: None,
    }
}

fn completed(hash: &str) -> PauseEvent {
    PauseEvent::Completed { hash: s(hash) }
}

fn trackers(hash: &str, urls: &[&str]) -> PauseEvent {
    PauseEvent::Trackers { hash: s(hash), urls: urls.iter().map(|u| u.to_string()).collect() }
}

fn paused(hash: &str, urls: &[&str], accepted: bool) -> PauseEvent {
    PauseEvent::Paused {
        hash: s(hash),
        urls: urls.iter().map(|u| u.to_string()).collect(),
        accepted,
    }
}

fn listed(hash: &str, name: &str) -> TitleEvent {
    TitleEvent::Listed { hash: s(hash), name: s(name) }
}

fn quarantined(hash: &str, name: &str, recategorised: bool, paused: bool) -> TitleEvent {
    TitleEvent::Quarantined { hash: s(hash), name: s(name), recategorised, paused }
}

#[test]
fn reserved_categories() {
    assert_eq!(AUTODL_CATEGORY, "AUTO_DL");
    assert_eq!(TITLE_BAN_CATEGORY, "TITLE_BAN");
}

#[test]
fn new_reconciler_has_seen_nothing() {
    let m = QbitMonitor::new(&auth(&["private.net"], None));
    assert!(!m.is_observed(&s("h1")));
    assert!(!m.is_paused_for_tracker(&s("h1")));
    assert!(!m.is_paused_for_title(&s("h1")));
}

#[test]
fn snapshot_observes_every_hash() {
    let mut m = QbitMonitor::new(&auth(&[], None));
    m.sync_qbit(&vec![s("h1"), s("h2"), s("h1")]);
    assert!(m.is_observed(&s("h1")));
    assert!(m.is_observed(&s("h2")));
    assert!(!m.is_observed(&s("h3")));
    m.sync_qbit(&vec![s("h3")]);
    assert!(m.is_observed(&s("h1")));
    assert!(m.is_observed(&s("h3")));
    m.sync_qbit(&vec![]);
    assert!(m.is_observed(&s("h2")));
}

#[test]
fn tracker_eviction() {
    let mut m = QbitMonitor::new(&auth(&["private.net"], None));
    let urls = ["http://public.example/announce"];
    m.sync_qbit(&vec![s("h1")]);
    assert_eq!(m.pause_all(&completed("h1")), PauseAction::FetchTrackers);
    assert_eq!(m.pause_all(&trackers("h1", &urls)), PauseAction::Pause);
    assert!(!m.is_paused_for_tracker(&s("h1")));
    assert_eq!(m.pause_all(&paused("h1", &urls, true)), PauseAction::Skip);
    assert!(m.is_paused_for_tracker(&s("h1")));
    assert_eq!(m.pause_all(&completed("h1")), PauseAction::Skip);
    assert_eq!(m.pause_all(&trackers("h1", &urls)), PauseAction::Skip);
}

#[test]
fn allowed_tracker_keeps_the_torrent_seeding() {
    let mut m = QbitMonitor::new(&auth(&["private.net", "other.org"], None));
    m.sync_qbit(&vec![s("h1")]);
    let urls = ["http://public.example/announce", "https://tracker.private.net/announce"];
    assert!(m.keep_seeding(&vec![s(urls[0]), s(urls[1])]));
    assert!(!m.keep_seeding(&vec![s(urls[0])]));
    assert!(!m.keep_seeding(&vec![]));
    assert_eq!(m.pause_all(&trackers("h1", &urls)), PauseAction::Skip);
    assert_eq!(m.pause_all(&paused("h1", &urls, true)), PauseAction::Skip);
    assert!(!m.is_paused_for_tracker(&s("h1")));
}

#[test]
fn allow_list_is_compared_without_case() {
    let m = QbitMonitor::new(&auth(&["PRIVATE.Net"], None));
    assert!(m.keep_seeding_tracker(&s("http://private.net/announce")));
    assert!(m.keep_seeding_tracker(&s("HTTP://Tracker.Private.NET/announce")));
    assert!(!m.keep_seeding_tracker(&s("http://private.org/announce")));
}

#[test]
fn empty_allow_list_keeps_nothing() {
    let m = QbitMonitor::new(&auth(&[], None));
    assert!(!m.keep_seeding_tracker(&s("http://private.net/announce")));
    assert!(!m.keep_seeding(&vec![s("http://private.net/announce")]));
}

#[test]
fn refused_pause_is_not_recorded() {
    let mut m = QbitMonitor::new(&auth(&["private.net"], None));
    let urls = ["http://public.example/announce"];
    m.sync_qbit(&vec![s("h1")]);
    assert_eq!(m.pause_all(&paused("h1", &urls, false)), PauseAction::Skip);
    assert!(!m.is_paused_for_tracker(&s("h1")));
    assert_eq!(m.pause_all(&completed("h1")), PauseAction::FetchTrackers);
    assert_eq!(m.pause_all(&trackers("h1", &urls)), PauseAction::Pause);
}

#[test]
fn unobserved_hash_is_left_alone() {
    let mut m = QbitMonitor::new(&auth(&["private.net"], Some(&["sample"])));
    let urls = ["http://public.example/announce"];
    assert_eq!(m.pause_all(&completed("h9")), PauseAction::Skip);
    assert_eq!(m.pause_all(&trackers("h9", &urls)), PauseAction::Skip);
    assert_eq!(m.pause_all(&paused("h9", &urls, true)), PauseAction::Skip);
    assert!(!m.is_paused_for_tracker(&s("h9")));
    assert_eq!(m.check_titles(&listed("h9", "a sample")), TitleAction::Skip);
    assert_eq!(m.check_titles(&quarantined("h9", "a sample", true, true)), TitleAction::Skip);
    assert!(!m.is_paused_for_title(&s("h9")));
    assert!(!m.is_observed(&s("h9")));
}

#[test]
fn title_ban_eviction() {
    let mut m = QbitMonitor::new(&auth(&[], Some(&["sample"])));
    m.sync_qbit(&vec![s("h1")]);
    assert_eq!(m.check_titles(&TitleEvent::Tick), TitleAction::List);
    assert_eq!(m.check_titles(&listed("h1", "Movie.2024.SAMPLE")), TitleAction::Quarantine);
    assert!(!m.is_paused_for_title(&s("h1")));
    assert_eq!(
        m.check_titles(&quarantined("h1", "Movie.2024.SAMPLE", true, true)),
        TitleAction::Skip
    );
    assert!(m.is_paused_for_title(&s("h1")));
    assert!(!m.is_paused_for_tracker(&s("h1")));
    assert_eq!(m.check_titles(&listed("h1", "Movie.2024.SAMPLE")), TitleAction::Skip);
}

#[test]
fn empty_title_bans_short_circuit() {
    let mut none = QbitMonitor::new(&auth(&[], None));
    assert_eq!(none.check_titles(&TitleEvent::Tick), TitleAction::Skip);
    let mut empty = QbitMonitor::new(&auth(&[], Some(&[])));
    empty.sync_qbit(&vec![s("h1")]);
    assert_eq!(empty.check_titles(&TitleEvent::Tick), TitleAction::Skip);
    assert_eq!(empty.check_titles(&listed("h1", "Movie.2024.SAMPLE")), TitleAction::Skip);
    assert!(!empty.is_paused_for_title(&s("h1")));
}

#[test]
fn acceptable_title_is_not_quarantined() {
    let mut m = QbitMonitor::new(&auth(&[], Some(&["Sample", "cam"])));
    m.sync_qbit(&vec![s("h1")]);
    assert!(m.torrent_title_acceptable(&s("Movie.2024.1080p")));
    assert!(!m.torrent_title_acceptable(&s("Movie.2024.sample")));
    assert!(!m.torrent_title_acceptable(&s("Movie.CAM.2024")));
    assert_eq!(m.check_titles(&listed("h1", "Movie.2024.1080p")), TitleAction::Skip);
    assert_eq!(m.check_titles(&quarantined("h1", "Movie.2024.1080p", true, true)), TitleAction::Skip);
    assert!(!m.is_paused_for_title(&s("h1")));
}

#[test]
fn quarantine_needs_both_calls_to_succeed() {
    let mut m = QbitMonitor::new(&auth(&[], Some(&["sample"])));
    m.sync_qbit(&vec![s("h1")]);
    m.check_titles(&quarantined("h1", "x sample", false, false));
    assert!(!m.is_paused_for_title(&s("h1")));
    m.check_titles(&quarantined("h1", "x sample", true, false));
    assert!(!m.is_paused_for_title(&s("h1")));
    m.check_titles(&quarantined("h1", "x sample", false, true));
    assert!(!m.is_paused_for_title(&s("h1")));
    assert_eq!(m.check_titles(&listed("h1", "x sample")), TitleAction::Quarantine);
    m.check_titles(&quarantined("h1", "x sample", true, true));
    assert!(m.is_paused_for_title(&s("h1")));
}

#[test]
fn paused_hashes_are_observed_hashes() {
    let mut m = QbitMonitor::new(&auth(&["private.net"], Some(&["sample"])));
    let urls = ["http://public.example/announce"];
    m.sync_qbit(&vec![s("a"), s("b")]);
    for h in ["a", "b", "c"] {
        m.pause_all(&paused(h, &urls, true));
        m.check_titles(&quarantined(h, "sample", true, true));
    }
    for h in ["a", "b", "c"] {
        let hash = s(h);
        if m.is_paused_for_tracker(&hash) || m.is_paused_for_title(&hash) {
            assert!(m.is_observed(&hash));
        }
    }
    assert!(m.is_paused_for_tracker(&s("a")));
    assert!(m.is_paused_for_title(&s("b")));
    assert!(!m.is_paused_for_tracker(&s("c")));
    assert!(!m.is_paused_for_title(&s("c")));
}

#[test]
fn restart_converges_to_the_same_sets() {
    let urls = ["http://public.example/announce"];
    let mut first = QbitMonitor::new(&auth(&["private.net"], None));
    first.sync_qbit(&vec![s("h1")]);
    first.pause_all(&paused("h1", &urls, true));
    let mut second = QbitMonitor::new(&auth(&["private.net"], None));
    assert!(!second.is_paused_for_tracker(&s("h1")));
    second.sync_qbit(&vec![s("h1")]);
    assert_eq!(second.pause_all(&completed("h1")), PauseAction::FetchTrackers);
    assert_eq!(second.pause_all(&trackers("h1", &urls)), PauseAction::Pause);
    second.pause_all(&paused("h1", &urls, true));
    assert_eq!(
        first.is_paused_for_tracker(&s("h1")),
        second.is_paused_for_tracker(&s("h1"))
    );
}

#[test]
fn each_step_reads_its_own_list() {
    let snapshot = TickStep::Snapshot.listing();
    assert_eq!(snapshot.filter, ListFilter::All);
    assert_eq!(snapshot.category, None);
    let completed = TickStep::TrackerEviction.listing();
    assert_eq!(completed.filter, ListFilter::Completed);
    assert_eq!(completed.category, None);
    let own = TickStep::TitleEviction.listing();
    assert_eq!(own.filter, ListFilter::All);
    assert_eq!(own.category, Some(s("AUTO_DL")));
}

#[test]
fn list_query_hands_filter_and_category_to_the_client_crate() {
    let shown = format!("{:?}", TickStep::TrackerEviction.listing().query());
    assert!(shown.contains("filter: Some(Completed)"));
    assert!(shown.contains("category: None"));
    let shown = format!("{:?}", TickStep::TitleEviction.listing().query());
    assert!(shown.contains("filter: Some(All)"));
    assert!(shown.contains("category: Some(\"AUTO_DL\")"));
    let custom = ListRequest { filter: ListFilter::Completed, category: Some(s("films")) };
    let shown = format!("{:?}", custom.query());
    assert!(shown.contains("filter: Some(Completed)"));
    assert!(shown.contains("category: Some(\"films\")"));
    assert!(shown.contains("sort: None"));
}

#[test]
fn steps_of_a_tick_run_in_order() {
    assert_eq!(TickStep::first(), TickStep::Snapshot);
    assert_eq!(TickStep::Snapshot.next(), Some(TickStep::TrackerEviction));
    assert_eq!(TickStep::TrackerEviction.next(), Some(TickStep::TitleEviction));
    assert_eq!(TickStep::TitleEviction.next(), None);
    let mut order = Vec::new();
    let mut step = Some(TickStep::first());
    while let Some(current) = step {
        order.push(current);
        step = current.next();
    }
    assert_eq!(
        order,
        vec![TickStep::Snapshot, TickStep::TrackerEviction, TickStep::TitleEviction]
    );
}

#[test]
fn reconciler_ticks_every_minute() {
    assert_eq!(TICK_SECONDS, 60);
}
