use autodl_rss::monitor::{
    DownloadRequest, FeedAction, FeedEvent, FeedMonitor, AUTODL_CATEGORY, FAILURE_BACKOFF,
};
use autodl_rss::rss::{Channel, Document, Item, TorrentData};
use autodl_rss::yaml::{RssFeed, TorrentMatch};

fn s(text: &str) -> String {
    text.to_string()
}

fn linux_rule(start_paused: Option<bool>) -> TorrentMatch {
    TorrentMatch {
        title_wanted: Some(vec![vec![s("linux")]]),
        title_banned: Some(vec![vec![s("cam")]]),
        tags_wanted: Some(vec![]),
        tags_banned: Some(vec![]),
        save_folder: s("/dl/iso"),
        start_paused,
    }
}

fn linux_feed() -> RssFeed {
    RssFeed {
        url: s("http://feed/rss"),
        update_interval: 300,
        last_announce: 0,
        matcher: vec![linux_rule(None)],
    }
}

fn item(title: &str, link: &str) -> Item {
    Item { title: Some(s(title)), link: Some(s(link)), tags: None, torrent: None, enclosure: None }
}

fn doc(items: Vec<Item>) -> Document {
    Document { channel: Some(Channel { title: None, description: None, item: Some(items) }) }
}

/// Runs one tick of a worker against a client that accepts every add whose
/// address is not in `refused`, and returns the requests that were made.
fn tick(worker: &mut FeedMonitor, feed: &RssFeed, d: &Document, refused: &[&str]) -> Vec<DownloadRequest> {
    let mut calls = Vec::new();
    let batch: Vec<TorrentData> = feed.fetch_new(d).unwrap();
    for a in batch.iter() {
        if worker.run_update(FeedEvent::Matched { item_hash: a.item_hash }) == FeedAction::Dispatch {
            let request = worker.start_qbit_download(a);
            let accepted = !refused.contains(&request.urls.as_str());
            calls.push(request);
            let after = worker.run_update(FeedEvent::Added { item_hash: a.item_hash, accepted });
            assert_eq!(after, FeedAction::Skip);
        }
    }
    assert_eq!(worker.run_update(FeedEvent::Finished), FeedAction::Sleep(300));
    calls
}

#[test]
fn match_then_dispatch() {
    let feed = linux_feed();
    let mut worker = FeedMonitor::from_feed(linux_feed());
    let d = doc(vec![
        item("Linux Mint 21", "http://x/a.torrent"),
        item("Linux Cam Rip", "http://x/b.torrent"),
    ]);
    let calls = tick(&mut worker, &feed, &d, &[]);
    assert_eq!(calls.len(), 1);
    assert_eq!(calls[0].urls, "http://x/a.torrent");
    assert_eq!(calls[0].savepath, "/dl/iso");
    assert_eq!(calls[0].category, "AUTO_DL");
    assert!(!calls[0].paused);
    let batch = feed.fetch_new(&d).unwrap();
    let all = autodl_rss::rss::xml_to_torrents(&d).unwrap();
    assert!(worker.is_dispatched(batch[0].item_hash));
    assert!(worker.is_dispatched(all[0].item_hash));
    assert!(!worker.is_dispatched(all[1].item_hash));
}

#[test]
fn dedup_across_ticks() {
    let feed = linux_feed();
    let mut worker = FeedMonitor::from_feed(linux_feed());
    let d = doc(vec![item("Linux Mint 21", "http://x/a.torrent")]);
    let first = tick(&mut worker, &feed, &d, &[]);
    let second = tick(&mut worker, &feed, &d, &[]);
    assert_eq!(first.len() + second.len(), 1);
}

#[test]
fn dedup_within_one_batch() {
    let feed = linux_feed();
    let mut worker = FeedMonitor::from_feed(linux_feed());
    let d = doc(vec![
        item("Linux Mint 21", "http://x/a.torrent"),
        item("Linux Mint 21", "http://x/a.torrent"),
    ]);
    assert_eq!(tick(&mut worker, &feed, &d, &[]).len(), 1);
}

#[test]
fn refused_add_is_retried_on_the_next_tick() {
    let feed = linux_feed();
    let mut worker = FeedMonitor::from_feed(linux_feed());
    let d = doc(vec![item("Linux Mint 21", "http://x/a.torrent")]);
    let hash = feed.fetch_new(&d).unwrap()[0].item_hash;
    assert_eq!(tick(&mut worker, &feed, &d, &["http://x/a.torrent"]).len(), 1);
    assert!(!worker.is_dispatched(hash));
    assert_eq!(tick(&mut worker, &feed, &d, &[]).len(), 1);
    assert!(worker.is_dispatched(hash));
    assert_eq!(tick(&mut worker, &feed, &d, &[]).len(), 0);
}

#[test]
fn record_changes_only_on_an_accepted_add() {
    let mut worker = FeedMonitor::from_feed(linux_feed());
    assert!(!worker.is_dispatched(7));
    assert_eq!(worker.run_update(FeedEvent::Matched { item_hash: 7 }), FeedAction::Dispatch);
    assert!(!worker.is_dispatched(7));
    assert_eq!(worker.run_update(FeedEvent::Added { item_hash: 7, accepted: false }), FeedAction::Skip);
    assert!(!worker.is_dispatched(7));
    assert_eq!(worker.run_update(FeedEvent::FetchFailed), FeedAction::Sleep(60));
    assert_eq!(worker.run_update(FeedEvent::Finished), FeedAction::Sleep(300));
    assert!(!worker.is_dispatched(7));
    assert_eq!(worker.run_update(FeedEvent::Added { item_hash: 7, accepted: true }), FeedAction::Skip);
    assert!(worker.is_dispatched(7));
    assert!(!worker.is_dispatched(8));
    assert_eq!(worker.run_update(FeedEvent::Matched { item_hash: 7 }), FeedAction::Skip);
    assert_eq!(worker.run_update(FeedEvent::Added { item_hash: 7, accepted: false }), FeedAction::Skip);
    assert!(worker.is_dispatched(7));
}

#[test]
fn failed_fetch_backs_off_for_a_minute() {
    let mut worker = FeedMonitor::from_feed(linux_feed());
    assert_eq!(FAILURE_BACKOFF, 60);
    assert_eq!(worker.run_update(FeedEvent::FetchFailed), FeedAction::Sleep(60));
}

#[test]
fn finished_batch_waits_for_the_feed_interval() {
    let mut feed = linux_feed();
    feed.update_interval = u32::MAX;
    let mut worker = FeedMonitor::from_feed(feed);
    assert_eq!(worker.run_update(FeedEvent::Finished), FeedAction::Sleep(4294967295));
}

#[test]
fn worker_keeps_its_feed() {
    let worker = FeedMonitor::from_feed(linux_feed());
    assert_eq!(worker.feed().url, "http://feed/rss");
    assert_eq!(worker.feed().update_interval, 300);
    assert_eq!(worker.feed().matcher.len(), 1);
}

#[test]
fn download_request_follows_the_bound_rule() {
    let worker = FeedMonitor::from_feed(linux_feed());
    let paused_rule = linux_rule(Some(true));
    let data = TorrentData {
        title: s("linux"),
        tags: vec![],
        download_link: s("http://x/a.torrent"),
        size: None,
        item_hash: 1,
        original_matcher: &paused_rule,
    };
    let request = worker.start_qbit_download(&data);
    assert_eq!(request.urls, "http://x/a.torrent");
    assert_eq!(request.savepath, "/dl/iso");
    assert!(request.paused);
    assert_eq!(request.category, AUTODL_CATEGORY);
    let running_rule = linux_rule(Some(false));
    let data = TorrentData {
        title: s("linux"),
        tags: vec![],
        download_link: s("http://x/b.torrent"),
        size: None,
        item_hash: 2,
        original_matcher: &running_rule,
    };
    assert!(!worker.start_qbit_download(&data).paused);
}

#[test]
fn query_hands_the_four_fields_to_the_client_crate() {
    let request = DownloadRequest {
        urls: s("http://x/a.torrent"),
        savepath: s("/dl/iso"),
        paused: false,
        category: s("AUTO_DL"),
    };
    let shown = format!("{:?}", request.query());
    assert!(shown.contains("urls: Some(\"http://x/a.torrent\")"));
    assert!(shown.contains("savepath: Some(\"/dl/iso\")"));
    assert!(shown.contains("paused: Some(\"false\")"));
    assert!(shown.contains("category: Some(\"AUTO_DL\")"));
    assert!(shown.contains("torrents: None"));
    assert!(shown.contains("cookie: None"));
    let paused = DownloadRequest {
        urls: s("http://x/b.torrent"),
        savepath: s("/dl"),
        paused: true,
        category: s("AUTO_DL"),
    };
    let shown = format!("{:?}", paused.query());
    assert!(shown.contains("paused: Some(\"true\")"));
    assert!(shown.contains("urls: Some(\"http://x/b.torrent\")"));
}
