use incoming::IntoIncoming;
use incoming::accept_step;
use incoming::scripted::ScriptedListener;
use incoming::scripted::drive;
use std::task::Poll;

#[test]
fn step_wraps_reports_and_never_closes() {
    assert_eq!(accept_step(Poll::Ready(Ok::<u8, u8>(4))), Poll::Ready(Some(Ok(4))));
    assert_eq!(accept_step(Poll::Ready(Err::<u8, u8>(5))), Poll::Ready(Some(Err(5))));
    assert_eq!(accept_step(Poll::<Result<u8, u8>>::Pending), Poll::Pending);
}

#[test]
fn scripted_liveness_single_ready_connection() {
    let script: Vec<Poll<Result<u32, String>>> = vec![Poll::Ready(Ok(7))];
    let mut inc = ScriptedListener::new(script).into_incoming();
    assert_eq!(inc.poll_next(), Poll::Ready(Some(Ok(7))));
    assert_eq!(inc.poll_next(), Poll::Pending);
}

#[test]
fn scripted_error_does_not_close_sequence() {
    let script: Vec<Poll<Result<u32, String>>> = vec![
        Poll::Ready(Err(String::from("denied"))),
        Poll::Ready(Ok(9)),
    ];
    let mut inc = ScriptedListener::new(script).into_incoming();
    assert_eq!(inc.poll_next(), Poll::Ready(Some(Err(String::from("denied")))));
    assert_eq!(inc.poll_next(), Poll::Ready(Some(Ok(9))));
}

#[test]
fn scripted_empty_script_stays_pending() {
    let script: Vec<Poll<Result<u32, String>>> = Vec::new();
    let mut inc = ScriptedListener::new(script).into_incoming();
    assert_eq!(inc.poll_next(), Poll::Pending);
    assert_eq!(inc.poll_next(), Poll::Pending);
}

#[test]
fn scripted_yields_in_order_across_gaps_and_errors() {
    let script: Vec<Poll<Result<u32, String>>> = vec![
        Poll::Ready(Ok(1)),
        Poll::Ready(Err(String::from("boom"))),
        Poll::Pending,
        Poll::Ready(Ok(2)),
        Poll::Ready(Ok(3)),
    ];
    let mut inc = ScriptedListener::new(script).into_incoming();
    let collected = drive(&mut inc, 10);
    assert_eq!(
        collected,
        vec![Ok(1), Err(String::from("boom")), Ok(2), Ok(3)],
    );
    assert_eq!(inc.poll_next(), Poll::Pending);
}

#[test]
fn scripted_drive_consumes_only_requested_polls() {
    let script: Vec<Poll<Result<u32, String>>> = vec![
        Poll::Ready(Ok(1)),
        Poll::Pending,
        Poll::Ready(Ok(2)),
    ];
    let mut inc = ScriptedListener::new(script).into_incoming();
    let collected = drive(&mut inc, 2);
    assert_eq!(collected, vec![Ok(1)]);
    assert_eq!(inc.poll_next(), Poll::Ready(Some(Ok(2))));
}
