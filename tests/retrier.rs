use backoff_retry::{backoff_delay_secs, Retrier, Step, MAX_DELAY_SECS};

/// Runs the loop as a caller would, without sleeping: returns the result, the
/// number of invocations and the waits asked for.
fn drive<T, E>(
    mut retrier: Retrier,
    mut op: impl FnMut() -> Result<T, E>,
) -> (Result<T, E>, usize, Vec<u64>) {
    let mut calls = 0usize;
    let mut waits = Vec::new();
    loop {
        calls += 1;
        match retrier.on_outcome(op()) {
            Step::Done(r) => return (r, calls, waits),
            Step::RetryAfter(secs) => waits.push(secs),
        }
    }
}

/// An operation that returns `script[i]` on its call `i + 1`, and the last
/// entry from then on.
fn scripted<T: Clone, E: Clone>(script: Vec<Result<T, E>>) -> impl FnMut() -> Result<T, E> {
    let mut i = 0usize;
    move || {
        let r = script[i.min(script.len() - 1)].clone();
        i += 1;
        r
    }
}

#[test]
fn delay_schedule_doubles_then_caps() {
    let got: Vec<u64> = (0..6).map(backoff_delay_secs).collect();
    assert_eq!(got, vec![1, 2, 4, 8, 10, 10]);
}

#[test]
fn delay_stays_at_cap_for_large_counts() {
    assert_eq!(backoff_delay_secs(63), MAX_DELAY_SECS);
    assert_eq!(backoff_delay_secs(64), MAX_DELAY_SECS);
    assert_eq!(backoff_delay_secs(u32::MAX), MAX_DELAY_SECS);
    assert_eq!(MAX_DELAY_SECS, 10);
}

#[test]
fn success_after_three_failures() {
    let op = scripted(vec![Err("E1"), Err("E2"), Err("E3"), Ok("V")]);
    let (r, calls, waits) = drive(Retrier::new(3), op);
    assert_eq!(r, Ok("V"));
    assert_eq!(calls, 4);
    assert_eq!(waits, vec![1, 2, 4]);
}

#[test]
fn always_failing_with_two_retries() {
    let op = scripted::<u8, &str>(vec![Err("E")]);
    let (r, calls, waits) = drive(Retrier::new(2), op);
    assert_eq!(r, Err("E"));
    assert_eq!(calls, 3);
    assert_eq!(waits, vec![1, 2]);
}

#[test]
fn no_budget_invokes_once() {
    let op = scripted::<u8, &str>(vec![Err("only"), Ok(1)]);
    let (r, calls, waits) = drive(Retrier::new(0), op);
    assert_eq!(r, Err("only"));
    assert_eq!(calls, 1);
    assert!(waits.is_empty());
}

#[test]
fn always_failing_returns_last_error() {
    let mut n = 0u32;
    let op = || -> Result<(), u32> {
        n += 1;
        Err(n)
    };
    let (r, calls, waits) = drive(Retrier::new(5), op);
    assert_eq!(r, Err(6));
    assert_eq!(calls, 6);
    assert_eq!(waits, vec![1, 2, 4, 8, 10]);
}

#[test]
fn success_on_attempt_k_stops_there() {
    let op = scripted(vec![Err(1), Err(2), Ok("ok"), Err(4)]);
    let (r, calls, waits) = drive(Retrier::new(5), op);
    assert_eq!(r, Ok("ok"));
    assert_eq!(calls, 3);
    assert_eq!(waits, vec![1, 2]);
}

#[test]
fn success_on_last_allowed_attempt() {
    let op = scripted(vec![Err(1), Err(2), Ok(3)]);
    let (r, calls, waits) = drive(Retrier::new(2), op);
    assert_eq!(r, Ok(3));
    assert_eq!(calls, 3);
    assert_eq!(waits, vec![1, 2]);
}

#[test]
fn first_attempt_success_has_no_wait() {
    let mut retrier = Retrier::new(4);
    match retrier.on_outcome::<u8, ()>(Ok(9)) {
        Step::Done(r) => assert_eq!(r, Ok(9)),
        Step::RetryAfter(_) => panic!("a success must end the run"),
    }
    assert_eq!(retrier.retries(), 0);
}

#[test]
fn config_failure_never_invokes() {
    let mut calls = 0u32;
    let started = Retrier::from_config::<&str>(Err("no config"));
    match started {
        Err(c) => assert_eq!(c, "no config"),
        Ok(retrier) => {
            drive(retrier, || -> Result<(), ()> {
                calls += 1;
                Err(())
            });
        }
    }
    assert_eq!(calls, 0);
}

#[test]
fn config_budget_is_used() {
    let retrier = match Retrier::from_config::<()>(Ok(1)) {
        Ok(r) => r,
        Err(()) => panic!("configuration was given"),
    };
    assert_eq!(retrier.max_retries(), 1);
    assert_eq!(retrier.retries(), 0);
    let (r, calls, waits) = drive(retrier, scripted::<u8, char>(vec![Err('x')]));
    assert_eq!(r, Err('x'));
    assert_eq!(calls, 2);
    assert_eq!(waits, vec![1]);
}

#[test]
fn retries_count_up_to_budget() {
    let mut retrier = Retrier::new(2);
    assert!(matches!(retrier.on_outcome::<(), u8>(Err(0)), Step::RetryAfter(1)));
    assert_eq!(retrier.retries(), 1);
    assert!(matches!(retrier.on_outcome::<(), u8>(Err(0)), Step::RetryAfter(2)));
    assert_eq!(retrier.retries(), 2);
    assert!(matches!(retrier.on_outcome::<(), u8>(Err(5)), Step::Done(Err(5))));
    assert_eq!(retrier.retries(), 2);
    assert_eq!(retrier.max_retries(), 2);
}

#[test]
fn huge_budget_caps_waits() {
    let mut n = 0u32;
    let op = || -> Result<u32, u32> {
        n += 1;
        if n == 12 {
            Ok(n)
        } else {
            Err(n)
        }
    };
    let (r, calls, waits) = drive(Retrier::new(u32::MAX), op);
    assert_eq!(r, Ok(12));
    assert_eq!(calls, 12);
    assert_eq!(waits, vec![1, 2, 4, 8, 10, 10, 10, 10, 10, 10, 10]);
}
