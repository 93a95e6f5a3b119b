use fa_control::driver::{CONNECT_LIMIT_MS, ENUMERATION_LIMIT_MS, QUERY_LIMIT_MS};
use fa_control::{Action, AudioError, Driver, LinkState, Observation, OpState, Stage, WaitMode};

fn obs(link: LinkState, op: OpState, has_result: bool, now_ms: u64) -> Observation {
    Observation { pumped: true, link, op, has_result, succeeded: true, now_ms }
}

fn ready(mode: WaitMode) -> Driver {
    let mut d = Driver::new(mode, 0);
    assert_eq!(d.step(obs(LinkState::Ready, OpState::Running, false, 10)), Action::Submit);
    assert_eq!(d.stage, Stage::Awaiting);
    assert_eq!(d.stage_start_ms, 10);
    d
}

#[test]
fn unreachable_service_fails_with_connection_error() {
    let mut d = Driver::new(WaitMode::FirstResult, 0);
    assert_eq!(d.step(obs(LinkState::Failed, OpState::Running, false, 3)), Action::Fail(AudioError::ConnectionError));
    assert_eq!(d.stage, Stage::Finished);
}

#[test]
fn connection_that_never_gets_ready_times_out() {
    let mut d = Driver::new(WaitMode::FirstResult, 1000);
    assert_eq!(d.step(obs(LinkState::Pending, OpState::Running, false, 1000 + CONNECT_LIMIT_MS)), Action::Pump);
    assert_eq!(
        d.step(obs(LinkState::Pending, OpState::Running, false, 1001 + CONNECT_LIMIT_MS)),
        Action::Fail(AudioError::ConnectionError)
    );
}

#[test]
fn stopped_event_loop_fails() {
    let mut d = Driver::new(WaitMode::Completion, 0);
    let o = Observation { pumped: false, link: LinkState::Ready, op: OpState::Running, has_result: false, succeeded: true, now_ms: 0 };
    assert_eq!(d.step(o), Action::Fail(AudioError::ConnectionError));
    let mut d = ready(WaitMode::Completion);
    assert_eq!(d.step(o), Action::Fail(AudioError::ConnectionError));
}

#[test]
fn first_result_is_delivered_at_once() {
    let mut d = ready(WaitMode::FirstResult);
    assert_eq!(d.step(obs(LinkState::Ready, OpState::Running, false, 20)), Action::Pump);
    assert_eq!(d.step(obs(LinkState::Ready, OpState::Running, true, 30)), Action::Deliver);
    assert_eq!(d.stage, Stage::Finished);
}

#[test]
fn ended_lookup_drains_before_not_found() {
    let mut d = ready(WaitMode::FirstResult);
    assert_eq!(d.step(obs(LinkState::Ready, OpState::Done, false, 20)), Action::Recheck);
    assert_eq!(d.stage, Stage::Draining);
    assert_eq!(d.step(obs(LinkState::Ready, OpState::Done, true, 21)), Action::Deliver);

    let mut d = ready(WaitMode::FirstResult);
    assert_eq!(d.step(obs(LinkState::Ready, OpState::Cancelled, false, 20)), Action::Recheck);
    assert_eq!(d.step(obs(LinkState::Ready, OpState::Cancelled, false, 21)), Action::Fail(AudioError::NotFound));
}

#[test]
fn lookup_past_limit_drains_before_timeout() {
    let mut d = ready(WaitMode::FirstResult);
    assert_eq!(d.step(obs(LinkState::Ready, OpState::Running, false, 11 + QUERY_LIMIT_MS)), Action::Recheck);
    assert_eq!(d.step(obs(LinkState::Ready, OpState::Running, false, 12 + QUERY_LIMIT_MS)), Action::Fail(AudioError::Timeout));

    let mut d = ready(WaitMode::FirstResult);
    assert_eq!(d.step(obs(LinkState::Ready, OpState::Running, false, 11 + QUERY_LIMIT_MS)), Action::Recheck);
    assert_eq!(d.step(obs(LinkState::Ready, OpState::Running, true, 12 + QUERY_LIMIT_MS)), Action::Deliver);
}

#[test]
fn enumeration_delivers_on_end_or_limit() {
    let mut d = ready(WaitMode::AllResults);
    assert_eq!(d.step(obs(LinkState::Ready, OpState::Running, true, 20)), Action::Pump);
    assert_eq!(d.step(obs(LinkState::Ready, OpState::Done, true, 30)), Action::Deliver);

    let mut d = ready(WaitMode::AllResults);
    assert_eq!(d.step(obs(LinkState::Ready, OpState::Running, false, 10 + ENUMERATION_LIMIT_MS)), Action::Pump);
    assert_eq!(d.step(obs(LinkState::Ready, OpState::Running, false, 11 + ENUMERATION_LIMIT_MS)), Action::Deliver);
}

#[test]
fn command_waits_for_completion() {
    let mut d = ready(WaitMode::Completion);
    assert_eq!(d.step(obs(LinkState::Ready, OpState::Running, true, 20)), Action::Pump);
    assert_eq!(d.step(obs(LinkState::Ready, OpState::Done, false, 30)), Action::Deliver);

    let mut d = ready(WaitMode::Completion);
    assert_eq!(d.step(obs(LinkState::Ready, OpState::Running, false, 11 + QUERY_LIMIT_MS)), Action::Fail(AudioError::Timeout));
}

#[test]
fn cancelled_or_rejected_command_fails() {
    let mut d = ready(WaitMode::Completion);
    assert_eq!(d.step(obs(LinkState::Ready, OpState::Cancelled, false, 20)), Action::Fail(AudioError::ConnectionError));

    let mut d = ready(WaitMode::Completion);
    let rejected = Observation { succeeded: false, ..obs(LinkState::Ready, OpState::Done, false, 20) };
    assert_eq!(d.step(rejected), Action::Fail(AudioError::ConnectionError));
    assert_eq!(d.stage, Stage::Finished);
}

#[test]
fn cancelled_enumeration_fails() {
    let mut d = ready(WaitMode::AllResults);
    assert_eq!(d.step(obs(LinkState::Ready, OpState::Cancelled, true, 20)), Action::Fail(AudioError::ConnectionError));
    let mut d = ready(WaitMode::AllResults);
    let done = Observation { succeeded: false, ..obs(LinkState::Ready, OpState::Done, true, 20) };
    assert_eq!(d.step(done), Action::Deliver);
}

#[test]
fn finished_driver_stays_finished() {
    let mut d = ready(WaitMode::FirstResult);
    assert_eq!(d.step(obs(LinkState::Ready, OpState::Running, true, 20)), Action::Deliver);
    assert_eq!(d.step(obs(LinkState::Ready, OpState::Running, true, 30)), Action::Fail(AudioError::ConnectionError));
    assert_eq!(d.stage, Stage::Finished);
}

#[test]
fn limits_by_mode() {
    assert_eq!(Driver::new(WaitMode::AllResults, 0).request_limit_ms, ENUMERATION_LIMIT_MS);
    assert_eq!(Driver::new(WaitMode::FirstResult, 0).request_limit_ms, QUERY_LIMIT_MS);
    assert_eq!(Driver::new(WaitMode::Completion, 5).connect_limit_ms, CONNECT_LIMIT_MS);
    assert!(CONNECT_LIMIT_MS + ENUMERATION_LIMIT_MS < 2000);
}
