use upi::config::{resolve_global, Config, Task};
use upi::detect::detect;
use upi::outcome::{
    classify_extract, classify_fetch, status_is_success, ExtractError, ExtractOutcome, FetchError,
    FetchOutcome,
};
use upi::schedule::{should_persist, sweep_should_persist};
use upi::store::ResultStore;
use upi::text::{extracted_text, output_text};
use upi::tick::{Event, Phase, Request, TaskRun, TickEnd, TickError};

fn task(url: &str) -> Task {
    Task {
        url: url.to_string(),
        parse: "cat".to_string(),
        command: "echo $UPI_PARSED".to_string(),
        check_every: 5,
    }
}

fn ok_response(body: &str) -> Event {
    Event::Fetched(FetchOutcome::Response { status: 200, body: body.to_string() })
}

fn extracted(stdout: &str) -> Event {
    Event::Extracted(ExtractOutcome::Exited {
        success: true,
        stdout: stdout.as_bytes().to_vec(),
        stderr: Vec::new(),
    })
}

/// Runs one tick in which the extraction program echoes its input, and
/// reports the action value asked for (if any) and how the tick ended.
fn echo_tick(t: &Task, store: &mut ResultStore, body: &str, action_ok: bool) -> (Option<String>, TickEnd) {
    let (mut run, req) = TaskRun::start(t);
    match req {
        Request::Fetch { url } => assert_eq!(url, t.url),
        _ => panic!("a tick starts with a fetch"),
    }
    let req = run.handle(t, store, ok_response(body));
    let input = match req {
        Request::Extract { program, input } => {
            assert_eq!(program, t.parse);
            input
        }
        _ => panic!("a successful fetch asks for extraction"),
    };
    let req = run.handle(t, store, extracted(&input));
    match req {
        Request::RunAction { program, parsed } => {
            assert_eq!(program, t.command);
            assert_eq!(run.phase, Phase::Acting);
            match run.handle(t, store, Event::ActionExited(action_ok)) {
                Request::Done(end) => (Some(parsed), end),
                _ => panic!("the action ends the tick"),
            }
        }
        Request::Done(end) => (None, end),
        _ => panic!("unexpected request after extraction"),
    }
}

#[test]
fn scenario_three_fetches() {
    let t = task("http://x/a");
    let mut store = ResultStore::new();

    let (action, end) = echo_tick(&t, &mut store, "v1", true);
    assert_eq!(action, Some("v1".to_string()));
    assert!(end.is_changed());
    assert_eq!(store.get(&t.url), Some(&"v1".to_string()));
    assert_eq!(store.len(), 1);

    let (action, end) = echo_tick(&t, &mut store, "v1", true);
    assert_eq!(action, None);
    assert!(matches!(end, TickEnd::Unchanged));
    assert_eq!(store.get(&t.url), Some(&"v1".to_string()));

    let (action, end) = echo_tick(&t, &mut store, "v2", true);
    assert_eq!(action, Some("v2".to_string()));
    assert!(end.is_changed());
    assert_eq!(store.get(&t.url), Some(&"v2".to_string()));
    assert_eq!(store.len(), 1);
}

#[test]
fn first_tick_is_a_change() {
    let t = task("http://x/new");
    let mut store = ResultStore::new();
    store.insert("http://x/other".to_string(), "v".to_string());
    let (action, end) = echo_tick(&t, &mut store, "  first \n", true);
    assert_eq!(action, Some("first".to_string()));
    assert!(should_persist(&end));
    assert_eq!(store.get(&t.url), Some(&"first".to_string()));
    assert_eq!(store.len(), 2);
}

#[test]
fn failing_fetch_status_leaves_store() {
    let t = task("http://x/a");
    let mut store = ResultStore::new();
    store.insert(t.url.clone(), "old".to_string());
    let (mut run, _) = TaskRun::start(&t);
    let ev = Event::Fetched(FetchOutcome::Response { status: 404, body: "new".to_string() });
    match run.handle(&t, &mut store, ev) {
        Request::Done(TickEnd::Failed(TickError::Fetch(FetchError::Status(s)))) => assert_eq!(s, 404),
        _ => panic!("a 404 fails the tick"),
    }
    assert_eq!(run.phase, Phase::Finished);
    assert_eq!(store.get(&t.url), Some(&"old".to_string()));
}

#[test]
fn failing_fetch_transport_leaves_store() {
    let t = task("http://x/a");
    let mut store = ResultStore::new();
    let (mut run, _) = TaskRun::start(&t);
    let ev = Event::Fetched(FetchOutcome::Transport("dns".to_string()));
    match run.handle(&t, &mut store, ev) {
        Request::Done(TickEnd::Failed(TickError::Fetch(FetchError::Transport(m)))) => {
            assert_eq!(m, "dns")
        }
        _ => panic!("a transport error fails the tick"),
    }
    assert_eq!(store.len(), 0);
}

#[test]
fn failing_extractor_leaves_store() {
    let t = task("http://x/a");
    let mut store = ResultStore::new();
    let (mut run, _) = TaskRun::start(&t);
    run.handle(&t, &mut store, ok_response("body"));
    let ev = Event::Extracted(ExtractOutcome::Exited {
        success: false,
        stdout: b"partial".to_vec(),
        stderr: b"boom".to_vec(),
    });
    match run.handle(&t, &mut store, ev) {
        Request::Done(TickEnd::Failed(TickError::Extract(ExtractError::NonZeroExit(e)))) => {
            assert_eq!(e, "boom")
        }
        _ => panic!("a failing extractor fails the tick"),
    }
    assert_eq!(store.len(), 0);
    assert_eq!(store.get(&t.url), None);
}

#[test]
fn extractor_not_run_leaves_store() {
    let t = task("http://x/a");
    let mut store = ResultStore::new();
    let (mut run, _) = TaskRun::start(&t);
    run.handle(&t, &mut store, ok_response("body"));
    let ev = Event::Extracted(ExtractOutcome::NotRun("no shell".to_string()));
    match run.handle(&t, &mut store, ev) {
        Request::Done(TickEnd::Failed(TickError::Extract(ExtractError::NotRun(m)))) => {
            assert_eq!(m, "no shell")
        }
        _ => panic!("an extractor that cannot start fails the tick"),
    }
    assert_eq!(store.len(), 0);
}

#[test]
fn failing_action_keeps_update() {
    let t = task("http://x/a");
    let mut store = ResultStore::new();
    let (action, end) = echo_tick(&t, &mut store, "v1", false);
    assert_eq!(action, Some("v1".to_string()));
    assert!(matches!(end, TickEnd::Changed { action_succeeded: false }));
    assert!(should_persist(&end));
    assert_eq!(store.get(&t.url), Some(&"v1".to_string()));
}

#[test]
fn accepts_only_the_awaited_event() {
    let t = task("http://x/a");
    let (run, _) = TaskRun::start(&t);
    assert!(run.accepts(&ok_response("x")));
    assert!(!run.accepts(&extracted("x")));
    assert!(!run.accepts(&Event::ActionExited(true)));
}

#[test]
fn store_round_trip() {
    let mut store = ResultStore::new();
    store.insert("a".to_string(), "1".to_string());
    store.insert("b".to_string(), "2".to_string());
    store.insert("a".to_string(), "3".to_string());
    let saved = store.to_entries();
    assert_eq!(saved, vec![("a".to_string(), "3".to_string()), ("b".to_string(), "2".to_string())]);
    let back = ResultStore::from_entries(&saved);
    assert_eq!(back.len(), 2);
    assert_eq!(back.get(&"a".to_string()), Some(&"3".to_string()));
    assert_eq!(back.get(&"b".to_string()), Some(&"2".to_string()));
    assert_eq!(back.to_entries(), saved);
}

#[test]
fn from_entries_last_duplicate_wins() {
    let pairs = vec![
        ("k".to_string(), "x".to_string()),
        ("k".to_string(), "y".to_string()),
    ];
    let s = ResultStore::from_entries(&pairs);
    assert_eq!(s.len(), 1);
    assert_eq!(s.get(&"k".to_string()), Some(&"y".to_string()));
    assert_eq!(ResultStore::from_entries(&Vec::new()).len(), 0);
}

#[test]
fn detect_rules() {
    let mut store = ResultStore::new();
    let id = "u".to_string();
    assert!(detect(&store, &id, &"v".to_string()));
    store.insert(id.clone(), "v".to_string());
    assert!(!detect(&store, &id, &"v".to_string()));
    assert!(detect(&store, &id, &"w".to_string()));
    assert!(detect(&store, &id, &"".to_string()));
}

#[test]
fn serialized_ticks_keep_last_values() {
    let mut store = ResultStore::new();
    let tasks = [task("http://x/1"), task("http://x/2"), task("http://x/3")];
    let bodies = ["a", "b", "c", "d", "e", "f", "g"];
    for (n, body) in bodies.iter().enumerate() {
        let t = &tasks[n % 3];
        echo_tick(t, &mut store, body, true);
    }
    let reloaded = ResultStore::from_entries(&store.to_entries());
    assert_eq!(reloaded.get(&tasks[0].url), Some(&"g".to_string()));
    assert_eq!(reloaded.get(&tasks[1].url), Some(&"e".to_string()));
    assert_eq!(reloaded.get(&tasks[2].url), Some(&"f".to_string()));
    assert_eq!(reloaded.to_entries(), store.to_entries());
}

#[test]
fn fetch_classification() {
    assert!(status_is_success(200));
    assert!(status_is_success(299));
    assert!(!status_is_success(199));
    assert!(!status_is_success(300));
    assert!(!status_is_success(500));
    let ok = classify_fetch(FetchOutcome::Response { status: 204, body: "b".to_string() });
    assert_eq!(ok.unwrap(), "b");
    let err = classify_fetch(FetchOutcome::Response { status: 301, body: "b".to_string() });
    assert!(matches!(err, Err(FetchError::Status(301))));
}

#[test]
fn extraction_trims_output() {
    assert_eq!(extracted_text(&b"\t v1 \r\n".to_vec()), "v1");
    assert_eq!(extracted_text(&b"a b".to_vec()), "a b");
    assert_eq!(extracted_text(&b"   ".to_vec()), "");
    assert_eq!(output_text(&vec![b'o', b'k', 0xff]), "ok\u{fffd}");
    let r = classify_extract(ExtractOutcome::Exited {
        success: true,
        stdout: b" x\n".to_vec(),
        stderr: Vec::new(),
    });
    assert_eq!(r.unwrap(), "x");
}

#[test]
fn sweep_persistence() {
    let none: Vec<TickEnd> = vec![TickEnd::Unchanged, TickEnd::Unchanged];
    assert!(!sweep_should_persist(&none));
    assert!(!sweep_should_persist(&Vec::new()));
    let some = vec![
        TickEnd::Unchanged,
        TickEnd::Failed(TickError::Fetch(FetchError::Status(500))),
        TickEnd::Changed { action_succeeded: false },
    ];
    assert!(sweep_should_persist(&some));
    assert!(!should_persist(&TickEnd::Unchanged));
}

#[test]
fn global_interval_resolution() {
    assert_eq!(resolve_global(Some(10), Some(30)), Some(10));
    assert_eq!(resolve_global(None, Some(30)), Some(30));
    assert_eq!(resolve_global(None, None), None);
    let c = Config { global_check_every: Some(30), tasks: vec![task("http://x/a")] };
    let c = c.with_cli_global(Some(0));
    assert_eq!(c.global_check_every, Some(0));
    assert_eq!(c.global_sweep_period(), None);
    assert!(c.has_tasks());
    let d = Config::without_file(Some(7));
    assert_eq!(d.global_sweep_period(), Some(7));
    assert!(!d.has_tasks());
}

#[test]
fn unreadable_save_starts_empty() {
    assert_eq!(ResultStore::from_saved(None).len(), 0);
    let s = ResultStore::from_saved(Some(vec![("u".to_string(), "v".to_string())]));
    assert_eq!(s.get(&"u".to_string()), Some(&"v".to_string()));
}
