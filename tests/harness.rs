use request_harness::error::ErrorWrapper;
use request_harness::run::{Action, Outcome, Run};
use request_harness::strategy::{Strategy, DEFAULT_POOL_SIZE};
use request_harness::target::{parse_target, target_string};
use request_harness::text::{format_line, push_decimal};

const BASE: &str = "http://localhost:8000";

/// Drives a run to its end, answering each request with `answer(index, url)`.
fn drive<F>(run: &mut Run, elapsed_ms: u128, mut answer: F) -> Vec<String>
where
    F: FnMut(usize, Result<reqwest::Url, ErrorWrapper>) -> Outcome,
{
    let mut pending: Vec<Option<Outcome>> = Vec::new();
    let mut order: Vec<String> = Vec::new();
    loop {
        match run.next_action() {
            Action::Send { index, target } => {
                order.push(format!("send {}", index));
                assert_eq!(index, pending.len());
                pending.push(Some(answer(index, target)));
                run.sent();
            }
            Action::Collect { index } => {
                order.push(format!("collect {}", index));
                let outcome = pending[index].take().unwrap();
                run.record(outcome);
            }
            Action::Finish => run.finish(elapsed_ms),
            Action::Done => return order,
        }
    }
}

fn echo(context: &str) -> impl FnMut(usize, Result<reqwest::Url, ErrorWrapper>) -> Outcome + '_ {
    move |index, target| match target {
        Ok(url) => {
            assert_eq!(url.as_str(), format!("{}/{}", BASE, index));
            Outcome::Response { context: context.to_string(), body: format!("ok-{}", index) }
        }
        Err(error) => Outcome::Failure { error },
    }
}

fn transport_error() -> ErrorWrapper {
    let client = reqwest::Client::new();
    let error = client.get("not a url").send().unwrap_err();
    ErrorWrapper::from(error)
}

#[test]
fn sequential_echo_five_lines_in_order() {
    let mut run = Run::new(Strategy::Sequential, 5, BASE, "ThreadId(1)");
    drive(&mut run, 42, echo("ThreadId(1)"));
    let expected = vec![
        "[ThreadId(1)] => START SINGLE THREAD",
        "[ThreadId(1)] => ok-0",
        "[ThreadId(1)] => ok-1",
        "[ThreadId(1)] => ok-2",
        "[ThreadId(1)] => ok-3",
        "[ThreadId(1)] => ok-4",
        "[ThreadId(1)] => END: 42",
    ];
    assert_eq!(run.output(), &expected);
}

#[test]
fn sequential_issues_one_at_a_time() {
    let mut run = Run::new(Strategy::Sequential, 3, BASE, "main");
    let order = drive(&mut run, 0, |index, target| {
        let url = target.ok().unwrap();
        assert_eq!(url.as_str(), format!("{}/{}", BASE, index));
        Outcome::Response { context: "main".to_string(), body: String::new() }
    });
    assert_eq!(
        order,
        vec!["send 0", "collect 0", "send 1", "collect 1", "send 2", "collect 2"]
    );
}

#[test]
fn sequential_with_no_requests() {
    let mut run = Run::new(Strategy::Sequential, 0, BASE, "main");
    let order = drive(&mut run, 7, echo("main"));
    assert!(order.is_empty());
    assert_eq!(
        run.output(),
        &vec!["[main] => START SINGLE THREAD", "[main] => END: 7"]
    );
}

#[test]
fn pooled_issues_all_before_collecting() {
    let strategy = Strategy::PooledThreads { pool_size: 2 };
    let mut run = Run::new(strategy, 3, BASE, "main");
    let order = drive(&mut run, 5, echo("worker"));
    assert_eq!(
        order,
        vec!["send 0", "send 1", "send 2", "collect 0", "collect 1", "collect 2"]
    );
    assert_eq!(
        run.output(),
        &vec![
            "[main] => START MULTI THREAD",
            "[worker] => ok-0",
            "[worker] => ok-1",
            "[worker] => ok-2",
            "[main] => END: 5",
        ]
    );
}

#[test]
fn async_await_makes_two_requests_whatever_the_count() {
    for count in [0usize, 1, 2, 50] {
        let mut run = Run::new(Strategy::AsyncAwait, count, BASE, "main");
        let order = drive(&mut run, 3, |index, target| {
            let url = target.ok().unwrap();
            assert_eq!(url.as_str(), format!("http://localhost:8000/{}", index));
            Outcome::Response { context: "main".to_string(), body: "root".to_string() }
        });
        assert_eq!(order, vec!["send 0", "collect 0", "send 1", "collect 1"]);
        assert_eq!(
            run.output(),
            &vec![
                "[main] => START ASYNC AWAIT",
                "[main] => root",
                "[main] => root",
                "[main] => END: 3",
            ]
        );
    }
}

#[test]
fn one_line_per_request_for_every_strategy() {
    for strategy in [
        Strategy::Sequential,
        Strategy::PooledThreads { pool_size: DEFAULT_POOL_SIZE },
        Strategy::AsyncAwait,
    ] {
        let count = 17;
        let mut run = Run::new(strategy, count, BASE, "main");
        drive(&mut run, 1, echo("w"));
        assert_eq!(run.output().len(), strategy.request_count(count) + 2);
    }
}

#[test]
fn sequential_twice_gives_same_bodies() {
    let mut first = Run::new(Strategy::Sequential, 4, BASE, "ThreadId(1)");
    drive(&mut first, 10, echo("ThreadId(1)"));
    let mut second = Run::new(Strategy::Sequential, 4, BASE, "ThreadId(2)");
    drive(&mut second, 11, echo("ThreadId(2)"));
    let bodies = |run: &Run| -> Vec<String> {
        run.output()[1..5]
            .iter()
            .map(|l| l.split(" => ").nth(1).unwrap().to_string())
            .collect()
    };
    assert_eq!(bodies(&first), bodies(&second));
    assert_eq!(bodies(&first), vec!["ok-0", "ok-1", "ok-2", "ok-3"]);
}

#[test]
fn failures_still_give_every_line_and_the_end() {
    for strategy in [
        Strategy::Sequential,
        Strategy::PooledThreads { pool_size: DEFAULT_POOL_SIZE },
        Strategy::AsyncAwait,
    ] {
        let count = 3;
        let mut run = Run::new(strategy, count, BASE, "main");
        drive(&mut run, 0, |_, _| Outcome::Failure { error: transport_error() });
        let lines = run.output();
        let n = strategy.request_count(count);
        assert_eq!(lines.len(), n + 2);
        for l in &lines[1..n + 1] {
            assert!(l.starts_with("[main] => HttpRequestError { error: "), "{}", l);
            assert!(l.ends_with(" }"), "{}", l);
        }
        assert_eq!(lines[n + 1], "[main] => END: 0");
    }
}

#[test]
fn malformed_base_fails_each_request_alone() {
    let mut run = Run::new(Strategy::Sequential, 2, "not a url", "main");
    drive(&mut run, 9, |_, target| match target {
        Ok(_) => panic!("a malformed address parsed"),
        Err(error) => Outcome::Failure { error },
    });
    assert_eq!(
        run.output(),
        &vec![
            "[main] => START SINGLE THREAD",
            "[main] => invalid URL: not a url/0",
            "[main] => invalid URL: not a url/1",
            "[main] => END: 9",
        ]
    );
}

#[test]
fn selector_picks_strategy() {
    assert_eq!(
        Strategy::from_selector(1),
        Strategy::PooledThreads { pool_size: 10 }
    );
    assert_eq!(Strategy::from_selector(2), Strategy::AsyncAwait);
    assert_eq!(Strategy::from_selector(0), Strategy::Sequential);
    assert_eq!(Strategy::from_selector(3), Strategy::Sequential);
    assert_eq!(Strategy::from_selector(-1), Strategy::Sequential);
}

#[test]
fn start_labels() {
    assert_eq!(Strategy::Sequential.start_label(), "START SINGLE THREAD");
    assert_eq!(
        Strategy::PooledThreads { pool_size: 4 }.start_label(),
        "START MULTI THREAD"
    );
    assert_eq!(Strategy::AsyncAwait.start_label(), "START ASYNC AWAIT");
}

#[test]
fn decimal_notation() {
    for n in [0u128, 7, 10, 99, 100, 1234567890, u128::MAX] {
        let mut s = String::new();
        push_decimal(&mut s, n);
        assert_eq!(s, n.to_string());
    }
    let mut s = String::from("n=");
    push_decimal(&mut s, 305);
    assert_eq!(s, "n=305");
}

#[test]
fn line_format() {
    assert_eq!(format_line("ThreadId(3)", "hello"), "[ThreadId(3)] => hello");
    assert_eq!(format_line("", ""), "[] => ");
}

#[test]
fn target_addresses() {
    assert_eq!(target_string(BASE, 0), "http://localhost:8000/0");
    assert_eq!(target_string(BASE, 1), "http://localhost:8000/1");
    assert_eq!(target_string(BASE, 499), "http://localhost:8000/499");
}

#[test]
fn parse_accepts_and_rejects() {
    let url = parse_target("http://localhost:8000/12").ok().unwrap();
    assert_eq!(url.as_str(), "http://localhost:8000/12");
    assert_eq!(url.path(), "/12");
    match parse_target("not a url") {
        Ok(_) => panic!("accepted"),
        Err(ErrorWrapper::InvalidUrl { text }) => assert_eq!(text, "not a url"),
        Err(_) => panic!("wrong error"),
    }
}

#[test]
fn error_descriptions() {
    let invalid = ErrorWrapper::InvalidUrl { text: "x y".to_string() };
    assert_eq!(invalid.description(), "invalid URL: x y");
    let d = transport_error().description();
    assert!(d.starts_with("HttpRequestError { error: Error("), "{}", d);
    assert!(d.ends_with(") }"), "{}", d);
}
