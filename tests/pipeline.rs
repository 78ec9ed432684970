use page_resolver::cache::{resolve, CacheLookupResult, StoreReply};
use page_resolver::governor::PermitPool;
use page_resolver::pipeline::{
    accept_headless, artifact_for, select, Action, Event, FetchError, Outcome, ResolvedContent,
    Selection, Source, Stage, UrlTask,
};
use page_resolver::tally::RunTally;

fn converted(c: &ResolvedContent) -> Event {
    Event::Converted(Some(html2md::parse_html(&c.html)))
}

fn started(url: &str) -> UrlTask {
    let mut t = UrlTask::new(url.to_string());
    assert!(matches!(t.step(Event::Start), Action::AcquirePermit));
    match t.step(Event::PermitGranted) {
        Action::LookupCache(k) => assert_eq!(k, format!("GET:{}", url)),
        other => panic!("unexpected action {:?}", other),
    }
    t
}

#[test]
fn static_hit_is_saved() {
    let mut tally = RunTally::new();
    let mut t = started("https://x.com/a");
    let c = match t.step(Event::LookupReplied(StoreReply::Found(b"<p>Hello</p>".to_vec()))) {
        Action::Convert(c) => c,
        other => panic!("unexpected action {:?}", other),
    };
    assert_eq!(c.html, "<p>Hello</p>");
    assert_eq!(c.source, Source::Cache);
    assert_eq!(t.stage, Stage::Convert);
    match t.step(converted(&c)) {
        Action::Persist(art) => {
            assert_eq!(art.url, "https://x.com/a");
            assert!(art.markdown.contains("Hello"));
            assert_eq!(art.sequence_number, None);
        }
        other => panic!("unexpected action {:?}", other),
    }
    assert_eq!(t.stage, Stage::Persist);
    match t.step(Event::PersistFinished) {
        Action::Release(o) => {
            assert_eq!(o, Outcome::Saved);
            tally.record(o);
        }
        other => panic!("unexpected action {:?}", other),
    }
    assert_eq!(t.stage, Stage::Done);
    assert!(t.is_finished());
    assert_eq!(tally.processed, 1);
    assert_eq!(tally.saved, 1);
}

#[test]
fn dynamic_hit_is_fetched_again() {
    let mut t = started("https://x.com/b");
    let cached = b"<div id=root>cached shell</div><script>ReactDOM.hydrate(); window.__INITIAL_STATE__={}</script>";
    match t.step(Event::LookupReplied(StoreReply::Found(cached.to_vec()))) {
        Action::HeadlessFetch(u) => assert_eq!(u, "https://x.com/b"),
        other => panic!("unexpected action {:?}", other),
    }
    assert_eq!(t.stage, Stage::DynamicRefetch);
    let c = match t.step(Event::FetchReplied(Some(b"<p>Rendered</p>".to_vec()))) {
        Action::Convert(c) => c,
        other => panic!("unexpected action {:?}", other),
    };
    assert_eq!(c.html, "<p>Rendered</p>");
    assert_eq!(c.source, Source::HeadlessFetch);
    match t.step(converted(&c)) {
        Action::Persist(art) => {
            assert!(art.markdown.contains("Rendered"));
            assert!(!art.markdown.contains("cached shell"));
        }
        other => panic!("unexpected action {:?}", other),
    }
    assert!(matches!(t.step(Event::PersistFinished), Action::Release(Outcome::Saved)));
}

#[test]
fn miss_is_unresolved_and_counted() {
    let mut tally = RunTally::new();
    let mut t = started("https://x.com/c");
    match t.step(Event::LookupReplied(StoreReply::NotFound)) {
        Action::Release(o) => {
            assert_eq!(o, Outcome::CacheMiss);
            tally.record(o);
        }
        other => panic!("unexpected action {:?}", other),
    }
    assert_eq!(t.stage, Stage::Unresolved);
    assert!(t.is_finished());
    assert_eq!(tally.processed, 1);
    assert_eq!(tally.saved, 0);
    assert_eq!(tally.unresolved, 1);
}

#[test]
fn timeout_acts_as_cache_error() {
    let mut a = started("https://x.com/d");
    let mut b = started("https://x.com/d");
    let ra = a.step(Event::LookupReplied(StoreReply::TimedOut));
    let rb = b.step(Event::LookupReplied(StoreReply::Failed));
    assert!(matches!(ra, Action::Release(Outcome::CacheError)));
    assert!(matches!(rb, Action::Release(Outcome::CacheError)));
    assert_eq!(a.stage, b.stage);
    assert!(matches!(resolve(StoreReply::TimedOut), CacheLookupResult::Error));
    assert!(matches!(resolve(StoreReply::Failed), CacheLookupResult::Error));
    assert!(matches!(resolve(StoreReply::NotFound), CacheLookupResult::Miss));
    assert!(matches!(resolve(StoreReply::Found(vec![1, 2])), CacheLookupResult::Hit(b) if b == vec![1, 2]));
}

#[test]
fn failed_refetch_is_unresolved() {
    let mut t = started("https://x.com/e");
    t.step(Event::LookupReplied(StoreReply::Found(b"<script>fetch('/a')</script>".to_vec())));
    assert!(matches!(t.step(Event::FetchReplied(None)), Action::Release(Outcome::FetchFailed)));
    assert_eq!(t.stage, Stage::Unresolved);
}

#[test]
fn undecodable_body_is_unresolved() {
    let mut t = started("https://x.com/f");
    let a = t.step(Event::LookupReplied(StoreReply::Found(vec![0xff, 0xfe, 0x41])));
    assert!(matches!(a, Action::Release(Outcome::UndecodableBody)));
}

#[test]
fn every_path_releases_once_and_persists_at_most_once() {
    let replies = vec![
        (StoreReply::Found(b"<p>s</p>".to_vec()), None),
        (StoreReply::Found(b"fetch(1)".to_vec()), Some(Some(b"<p>d</p>".to_vec()))),
        (StoreReply::Found(b"fetch(1)".to_vec()), Some(None)),
        (StoreReply::NotFound, None),
        (StoreReply::Failed, None),
        (StoreReply::TimedOut, None),
    ];
    for (reply, fetched) in replies {
        let mut t = UrlTask::new("https://x.com/g".to_string());
        let mut events = vec![Event::Start, Event::PermitGranted, Event::LookupReplied(reply)];
        if let Some(f) = fetched {
            events.push(Event::FetchReplied(f));
        }
        events.push(Event::Converted(Some("md".to_string())));
        events.push(Event::PersistFinished);
        events.push(Event::PersistFinished);
        let mut grants = 0;
        let mut releases = 0;
        let mut persists = 0;
        for e in events {
            let granted = matches!(e, Event::PermitGranted) && t.stage == Stage::AwaitingPermit;
            match t.step(e) {
                Action::Release(_) => releases += 1,
                Action::Persist(_) => persists += 1,
                _ => {}
            }
            if granted {
                grants += 1;
            }
        }
        assert!(t.is_finished());
        assert_eq!(grants, 1);
        assert_eq!(releases, 1);
        assert!(persists <= 1);
        assert_eq!(persists == 1, t.stage == Stage::Done);
    }
}

#[test]
fn out_of_place_events_are_ignored() {
    let mut t = UrlTask::new("https://x.com/h".to_string());
    assert!(matches!(t.step(Event::PermitGranted), Action::Ignore));
    assert!(matches!(t.step(Event::PersistFinished), Action::Ignore));
    assert_eq!(t.stage, Stage::Received);
    t.step(Event::Start);
    assert!(matches!(t.step(Event::Start), Action::Ignore));
    assert_eq!(t.stage, Stage::AwaitingPermit);
}

#[test]
fn budget_of_one_serialises_lookups() {
    let mut pool = PermitPool::new(1);
    let mut first = UrlTask::new("https://x.com/1".to_string());
    let mut second = UrlTask::new("https://x.com/2".to_string());
    first.step(Event::Start);
    second.step(Event::Start);
    assert!(pool.try_acquire());
    assert!(matches!(first.step(Event::PermitGranted), Action::LookupCache(_)));
    assert!(!pool.try_acquire());
    assert_eq!(second.stage, Stage::AwaitingPermit);
    assert_eq!(pool.available(), 0);
    if let Action::Release(_) = first.step(Event::LookupReplied(StoreReply::NotFound)) {
        pool.release();
    }
    assert_eq!(pool.available(), 1);
    assert!(pool.try_acquire());
    assert!(matches!(second.step(Event::PermitGranted), Action::LookupCache(_)));
    assert_eq!(second.stage, Stage::CacheLookup);
}

#[test]
fn pool_counts_permits() {
    let mut pool = PermitPool::new(3);
    assert_eq!(pool.available(), 3);
    assert!(pool.try_acquire());
    assert!(pool.try_acquire());
    assert_eq!(pool.in_use, 2);
    pool.release();
    assert_eq!(pool.available(), 2);
    let mut empty = PermitPool::new(0);
    assert!(!empty.try_acquire());
}

#[test]
fn select_follows_decision_table() {
    let url = "https://x.com/s".to_string();
    match select(&url, CacheLookupResult::Hit(b"<p>ok</p>".to_vec())) {
        Selection::Accept(c) => {
            assert_eq!(c.html, "<p>ok</p>");
            assert_eq!(c.source, Source::Cache);
        }
        _ => panic!("expected the cached body to be accepted"),
    }
    assert!(matches!(select(&url, CacheLookupResult::Hit(b"XMLHttpRequest".to_vec())), Selection::Refetch));
    assert!(matches!(select(&url, CacheLookupResult::Miss), Selection::Unresolved(Outcome::CacheMiss)));
    assert!(matches!(select(&url, CacheLookupResult::Error), Selection::Unresolved(Outcome::CacheError)));
}

#[test]
fn headless_body_is_decoded_lossily() {
    let url = "https://x.com/l".to_string();
    let c = accept_headless(&url, Some(vec![b'a', 0xff, b'b'])).unwrap();
    assert_eq!(c.html, "a\u{FFFD}b");
    assert_eq!(c.source, Source::HeadlessFetch);
    assert_eq!(accept_headless(&url, None).unwrap_err(), FetchError::Failed);
}

#[test]
fn tally_saturates() {
    let mut t = RunTally { processed: u64::MAX, saved: 0, unresolved: u64::MAX };
    t.record(Outcome::CacheError);
    assert_eq!(t.processed, u64::MAX);
    assert_eq!(t.unresolved, u64::MAX);
    t.record(Outcome::Saved);
    assert_eq!(t.saved, 1);
}

#[test]
fn converter_breakdown_gives_empty_document() {
    let mut t = started("https://x.com/m");
    t.step(Event::LookupReplied(StoreReply::Found(b"<p></p><b><li>x</li></b>".to_vec())));
    assert_eq!(t.stage, Stage::Convert);
    match t.step(Event::Converted(None)) {
        Action::Persist(art) => {
            assert_eq!(art.url, "https://x.com/m");
            assert_eq!(art.markdown, "");
        }
        other => panic!("unexpected action {:?}", other),
    }
    assert!(matches!(t.step(Event::PersistFinished), Action::Release(Outcome::Saved)));
}

#[test]
fn artifact_keeps_converted_markdown() {
    let url = "https://x.com/n".to_string();
    let a = artifact_for(&url, Some("# Title".to_string()));
    assert_eq!(a.url, url);
    assert_eq!(a.markdown, "# Title");
    assert_eq!(a.sequence_number, None);
    assert_eq!(artifact_for(&url, None).markdown, "");
}

#[test]
fn conversion_event_ignored_outside_convert_stage() {
    let mut t = started("https://x.com/o");
    assert!(matches!(t.step(Event::Converted(Some("x".to_string()))), Action::Ignore));
    assert_eq!(t.stage, Stage::CacheLookup);
}
