use feed_relay::compose::PipelineResult;
use feed_relay::feed::ParseError;
use feed_relay::fetch::FetchError;
use feed_relay::memory::ingest;
use feed_relay::pipeline::{Action, Event, Pipeline, PipelineError, Stage};
use feed_relay::store::{DedupStore, Expiry, Lookup};

fn document(entries: &[(Option<&str>, &str)]) -> Vec<u8> {
    let mut text = String::from(
        "<rss version=\"2.0\"><channel><title>News</title><link>http://example.org/</link>\
         <description>All of it</description>",
    );
    for (title, link) in entries {
        text.push_str("<item>");
        if let Some(title) = title {
            text.push_str(&format!("<title>{}</title>", title));
        }
        text.push_str(&format!("<link>{}</link></item>", link));
    }
    text.push_str("</channel></rss>");
    text.into_bytes()
}

fn drive(
    pipeline: &mut Pipeline,
    bodies: &mut Vec<Result<Vec<u8>, String>>,
    store: &mut DedupStore,
    failing_writes: &[&str],
    now: u64,
) -> (Result<PipelineResult, PipelineError>, Vec<String>) {
    let mut log = Vec::new();
    loop {
        match pipeline.pending(now) {
            Action::Fetch(url) => {
                log.push(format!("fetch {}", url));
                pipeline.step(Event::Fetched(bodies.remove(0)), now);
            }
            Action::Lookup(title) => {
                log.push(format!("lookup {}", title));
                pipeline.step(Event::Answered(store.lookup(&title)), now);
            }
            Action::Record(title, expiry) => {
                log.push(format!("record {}", title));
                let taken = !failing_writes.contains(&title.as_str());
                if taken {
                    match expiry {
                        Expiry::At(t) => store.record(&title, t, 0),
                        Expiry::Never => store.record(&title, now, -1),
                    }
                }
                pipeline.step(Event::Recorded(taken), now);
            }
            Action::Finish(result) => return (Ok(result), log),
            Action::Abort(error) => return (Err(error), log),
        }
    }
}

#[test]
fn fresh_run_owes_a_fetch() {
    let pipeline = Pipeline::new("http://example.org/feed", 60, 4, 4096);
    assert_eq!(pipeline.stage(), Stage::Start);
    assert!(!pipeline.is_over());
    assert_eq!(pipeline.pending(0), Action::Fetch(String::from("http://example.org/feed")));
}

#[test]
fn run_fetches_parses_composes_and_commits() {
    let mut pipeline = Pipeline::new("http://example.org/feed", 60, 4, 4096);
    let mut store = DedupStore::new();
    store.record("Old", 900, 500);
    let mut bodies = vec![Ok(document(&[
        (Some("One"), "http://example.org/1"),
        (Some("Old"), "http://example.org/old"),
        (None, "http://example.org/untitled"),
        (Some("Two"), "http://example.org/2"),
    ]))];
    let (result, log) = drive(&mut pipeline, &mut bodies, &mut store, &[], 1_000);
    assert_eq!(
        result,
        Ok(PipelineResult {
            message: String::from(
                "<a href=\"http://example.org/1\">One</a>\n\n<a href=\"http://example.org/2\">Two</a>\n\n"
            ),
            accepted: vec![String::from("One"), String::from("Two")],
        })
    );
    assert_eq!(
        log,
        vec![
            "fetch http://example.org/feed",
            "lookup One",
            "lookup Old",
            "lookup Two",
            "record One",
            "record Two",
        ]
    );
    assert_eq!(pipeline.stage(), Stage::Committed);
    assert!(pipeline.is_over());
    assert_eq!(store.lookup("One"), Lookup::Present(Expiry::At(1_060)));
    assert_eq!(store.lookup("Two"), Lookup::Present(Expiry::At(1_060)));
    assert_eq!(store.lookup("Old"), Lookup::Present(Expiry::At(1_400)));
}

#[test]
fn stages_follow_one_another() {
    let mut pipeline = Pipeline::new("u", 60, 4, 4096);
    assert_eq!(pipeline.stage(), Stage::Start);
    pipeline.step(Event::Fetched(Ok(document(&[(Some("One"), "http://1")]))), 5);
    assert_eq!(pipeline.stage(), Stage::Parsed);
    assert_eq!(pipeline.pending(5), Action::Lookup(String::from("One")));
    pipeline.step(Event::Answered(Lookup::Absent), 5);
    assert_eq!(pipeline.stage(), Stage::Composed);
    assert_eq!(pipeline.pending(5), Action::Record(String::from("One"), Expiry::At(65)));
    assert_eq!(pipeline.pending(7), Action::Record(String::from("One"), Expiry::At(67)));
    pipeline.step(Event::Recorded(true), 5);
    assert_eq!(pipeline.stage(), Stage::Committed);
    assert_eq!(
        pipeline.pending(5),
        Action::Finish(PipelineResult {
            message: String::from("<a href=\"http://1\">One</a>\n\n"),
            accepted: vec![String::from("One")],
        })
    );
}

#[test]
fn negative_delay_records_for_ever() {
    let mut pipeline = Pipeline::new("u", -1, 4, 4096);
    pipeline.step(Event::Fetched(Ok(document(&[(Some("One"), "http://1")]))), 5);
    pipeline.step(Event::Answered(Lookup::Absent), 5);
    assert_eq!(pipeline.pending(5), Action::Record(String::from("One"), Expiry::Never));
}

#[test]
fn failed_fetch_is_tried_again_at_once() {
    let mut pipeline = Pipeline::new("u", 60, 2, 4096);
    let mut store = DedupStore::new();
    let mut bodies = vec![
        Err(String::from("timeout")),
        Err(String::from("reset")),
        Ok(document(&[(Some("One"), "http://1")])),
    ];
    let (result, log) = drive(&mut pipeline, &mut bodies, &mut store, &[], 0);
    assert_eq!(result.unwrap().accepted, vec![String::from("One")]);
    assert_eq!(log, vec!["fetch u", "fetch u", "fetch u", "lookup One", "record One"]);
}

#[test]
fn fetch_that_keeps_failing_aborts_the_run_with_the_last_cause() {
    let mut pipeline = Pipeline::new("u", 60, 2, 4096);
    let mut store = DedupStore::new();
    let mut bodies = vec![
        Err(String::from("first")),
        Err(String::from("second")),
        Err(String::from("third")),
        Ok(document(&[(Some("One"), "http://1")])),
    ];
    let (result, log) = drive(&mut pipeline, &mut bodies, &mut store, &[], 0);
    assert_eq!(result, Err(PipelineError::Fetch(FetchError { cause: String::from("third") })));
    assert_eq!(log, vec!["fetch u", "fetch u", "fetch u"]);
    assert_eq!(pipeline.stage(), Stage::Failed);
    assert!(pipeline.is_over());
    assert_eq!(store.len(), 0);
    assert_eq!(bodies.len(), 1);
}

#[test]
fn document_that_is_no_feed_aborts_the_run() {
    let mut pipeline = Pipeline::new("u", 60, 2, 4096);
    let mut store = DedupStore::new();
    let mut bodies = vec![Ok(b"<html></html>".to_vec())];
    let (result, log) = drive(&mut pipeline, &mut bodies, &mut store, &[], 0);
    assert!(matches!(result, Err(PipelineError::Parse(ParseError { .. }))));
    assert_eq!(log, vec!["fetch u"]);
    assert_eq!(pipeline.stage(), Stage::Failed);
    assert_eq!(store.len(), 0);
}

#[test]
fn failed_write_does_not_hold_up_the_others() {
    let mut pipeline = Pipeline::new("u", 60, 4, 4096);
    let mut store = DedupStore::new();
    let mut bodies = vec![Ok(document(&[
        (Some("One"), "http://1"),
        (Some("Two"), "http://2"),
        (Some("Three"), "http://3"),
    ]))];
    let (result, log) = drive(&mut pipeline, &mut bodies, &mut store, &["Two"], 100);
    let result = result.unwrap();
    assert_eq!(
        result.accepted,
        vec![String::from("One"), String::from("Two"), String::from("Three")]
    );
    assert_eq!(
        result.message,
        "<a href=\"http://1\">One</a>\n\n<a href=\"http://2\">Two</a>\n\n<a href=\"http://3\">Three</a>\n\n"
    );
    assert_eq!(
        log,
        vec![
            "fetch u",
            "lookup One",
            "lookup Two",
            "lookup Three",
            "record One",
            "record Two",
            "record Three"
        ]
    );
    assert_eq!(store.lookup("One"), Lookup::Present(Expiry::At(160)));
    assert_eq!(store.lookup("Two"), Lookup::Absent);
    assert_eq!(store.lookup("Three"), Lookup::Present(Expiry::At(160)));
    assert_eq!(pipeline.stage(), Stage::Committed);
}

#[test]
fn store_that_cannot_be_read_makes_nothing_new() {
    let mut pipeline = Pipeline::new("u", 60, 4, 4096);
    pipeline.step(
        Event::Fetched(Ok(document(&[(Some("One"), "http://1"), (Some("Two"), "http://2")]))),
        0,
    );
    assert_eq!(pipeline.pending(0), Action::Lookup(String::from("One")));
    pipeline.step(Event::Answered(Lookup::Failed), 0);
    assert_eq!(pipeline.pending(0), Action::Lookup(String::from("Two")));
    pipeline.step(Event::Answered(Lookup::Failed), 0);
    assert_eq!(pipeline.stage(), Stage::Committed);
    assert_eq!(
        pipeline.pending(0),
        Action::Finish(PipelineResult { message: String::new(), accepted: vec![] })
    );
}

#[test]
fn lapsed_record_makes_the_item_new_again() {
    let mut pipeline = Pipeline::new("u", 60, 4, 4096);
    pipeline.step(Event::Fetched(Ok(document(&[(Some("One"), "http://1")]))), 500);
    pipeline.step(Event::Answered(Lookup::Present(Expiry::At(500))), 500);
    assert_eq!(pipeline.stage(), Stage::Composed);
    let mut other = Pipeline::new("u", 60, 4, 4096);
    other.step(Event::Fetched(Ok(document(&[(Some("One"), "http://1")]))), 499);
    other.step(Event::Answered(Lookup::Present(Expiry::At(500))), 499);
    assert_eq!(other.stage(), Stage::Committed);
}

#[test]
fn empty_feed_finishes_with_an_empty_result() {
    let mut pipeline = Pipeline::new("u", 60, 4, 4096);
    pipeline.step(Event::Fetched(Ok(document(&[]))), 0);
    assert_eq!(pipeline.stage(), Stage::Committed);
    assert_eq!(
        pipeline.pending(0),
        Action::Finish(PipelineResult { message: String::new(), accepted: vec![] })
    );
}

#[test]
fn no_lookup_is_made_for_what_cannot_fit_or_has_no_title() {
    let mut pipeline = Pipeline::new("u", 60, 4, 40);
    let mut store = DedupStore::new();
    let mut bodies = vec![Ok(document(&[
        (None, "http://none"),
        (Some("A title that is far too long for this budget"), "http://long"),
        (Some("Fits"), "http://example.org/"),
        (Some("Late"), "http://late"),
    ]))];
    let (result, log) = drive(&mut pipeline, &mut bodies, &mut store, &[], 0);
    assert_eq!(result.unwrap().accepted, vec![String::from("Fits")]);
    assert_eq!(log, vec!["fetch u", "lookup Fits", "record Fits"]);
}

#[test]
fn event_that_is_not_awaited_changes_nothing() {
    let mut pipeline = Pipeline::new("u", 60, 4, 4096);
    pipeline.step(Event::Answered(Lookup::Absent), 0);
    pipeline.step(Event::Recorded(true), 0);
    assert_eq!(pipeline.stage(), Stage::Start);
    assert_eq!(pipeline.pending(0), Action::Fetch(String::from("u")));
    pipeline.step(Event::Fetched(Ok(document(&[(Some("One"), "http://1")]))), 0);
    pipeline.step(Event::Fetched(Ok(document(&[]))), 0);
    pipeline.step(Event::Recorded(false), 0);
    assert_eq!(pipeline.pending(0), Action::Lookup(String::from("One")));
    pipeline.step(Event::Answered(Lookup::Absent), 0);
    pipeline.step(Event::Answered(Lookup::Absent), 0);
    assert_eq!(pipeline.pending(0), Action::Record(String::from("One"), Expiry::At(60)));
    pipeline.step(Event::Recorded(true), 0);
    pipeline.step(Event::Recorded(true), 0);
    pipeline.step(Event::Fetched(Err(String::from("late"))), 0);
    assert_eq!(pipeline.stage(), Stage::Committed);
}

#[test]
fn second_run_on_an_unchanged_feed_yields_nothing() {
    let feed = document(&[(Some("One"), "http://1"), (Some("Two"), "http://2")]);
    let mut store = DedupStore::new();
    let mut first = Pipeline::new("u", 60, 4, 4096);
    let (result, _) = drive(&mut first, &mut vec![Ok(feed.clone())], &mut store, &[], 100);
    assert_eq!(result.unwrap().accepted.len(), 2);
    let mut second = Pipeline::new("u", 60, 4, 4096);
    let (result, log) = drive(&mut second, &mut vec![Ok(feed.clone())], &mut store, &[], 159);
    assert_eq!(result, Ok(PipelineResult { message: String::new(), accepted: vec![] }));
    assert_eq!(log, vec!["fetch u", "lookup One", "lookup Two"]);
    let mut third = Pipeline::new("u", 60, 4, 4096);
    let (result, _) = drive(&mut third, &mut vec![Ok(feed)], &mut store, &[], 160);
    assert_eq!(result.unwrap().accepted.len(), 2);
}

#[test]
fn title_that_comes_twice_in_one_feed_is_asked_about_and_recorded_once() {
    let mut pipeline = Pipeline::new("u", 60, 4, 4096);
    let mut store = DedupStore::new();
    let mut bodies = vec![Ok(document(&[
        (Some("One"), "http://1"),
        (Some("Two"), "http://2"),
        (Some("One"), "http://1-again"),
    ]))];
    let (result, log) = drive(&mut pipeline, &mut bodies, &mut store, &[], 0);
    assert_eq!(result.unwrap().accepted, vec![String::from("One"), String::from("Two")]);
    assert_eq!(
        log,
        vec!["fetch u", "lookup One", "lookup Two", "record One", "record Two"]
    );
    assert_eq!(store.len(), 2);
}

#[test]
fn driven_run_and_plain_run_agree() {
    let feed = document(&[
        (Some("One"), "http://1"),
        (None, "http://none"),
        (Some("Kept"), "http://kept"),
        (Some("A title that is far too long to go into a message of this size"), "http://long"),
        (Some("Two"), "http://2"),
        (Some("One"), "http://1-again"),
    ]);
    for cap in [0usize, 30, 60, 90, 4096] {
        let mut driven = DedupStore::new();
        let mut plain = DedupStore::new();
        driven.record("Kept", 0, 1_000);
        plain.record("Kept", 0, 1_000);
        let mut pipeline = Pipeline::new("u", 60, 4, cap);
        let (by_steps, _) = drive(&mut pipeline, &mut vec![Ok(feed.clone())], &mut driven, &[], 100);
        let at_once = ingest(&mut plain, &feed, 100, 60, cap).unwrap();
        assert_eq!(by_steps, Ok(at_once));
        assert_eq!(driven.len(), plain.len());
        for title in ["One", "Two", "Kept"] {
            assert_eq!(driven.lookup(title), plain.lookup(title));
        }
    }
}
