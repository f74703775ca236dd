use winvcon::client::{
    next_connect_step, ConnectStep, FILE_NOT_FOUND, PIPE_BUSY, RETRY_INTERVAL_MS,
};

/// Makes attempts as they come out, and returns how many were made and how
/// long was paused in all, with the step that ended them.
fn connect(outcomes: &[Option<Option<i32>>]) -> (usize, u64, ConnectStep) {
    let mut attempts = 0;
    let mut paused = 0;
    for outcome in outcomes {
        attempts += 1;
        match next_connect_step(*outcome) {
            ConnectStep::RetryAfter(millis) => paused += millis,
            settled => return (attempts, paused, settled),
        }
    }
    panic!("the attempts did not settle");
}

#[test]
fn an_open_channel_is_connected() {
    assert_eq!(next_connect_step(None), ConnectStep::Connected);
}

#[test]
fn a_busy_channel_is_tried_again_after_fifty_milliseconds() {
    assert_eq!(next_connect_step(Some(Some(231))), ConnectStep::RetryAfter(50));
    assert_eq!(PIPE_BUSY, 231);
    assert_eq!(RETRY_INTERVAL_MS, 50);
}

#[test]
fn a_channel_that_is_not_there_yet_is_tried_again() {
    assert_eq!(next_connect_step(Some(Some(2))), ConnectStep::RetryAfter(50));
    assert_eq!(FILE_NOT_FOUND, 2);
}

#[test]
fn any_other_failure_is_final() {
    assert_eq!(next_connect_step(Some(Some(1168))), ConnectStep::Fail);
    assert_eq!(next_connect_step(Some(Some(5))), ConnectStep::Fail);
    assert_eq!(next_connect_step(Some(Some(3))), ConnectStep::Fail);
    assert_eq!(next_connect_step(Some(Some(0))), ConnectStep::Fail);
    assert_eq!(next_connect_step(Some(Some(-2))), ConnectStep::Fail);
    assert_eq!(next_connect_step(Some(Some(-231))), ConnectStep::Fail);
    assert_eq!(next_connect_step(Some(Some(232))), ConnectStep::Fail);
    assert_eq!(next_connect_step(Some(None)), ConnectStep::Fail);
}

#[test]
fn a_server_that_comes_up_late_is_waited_for() {
    let outcomes = [Some(Some(2)), Some(Some(2)), Some(Some(231)), Some(Some(2)), None, None];
    assert_eq!(connect(&outcomes), (5, 200, ConnectStep::Connected));
}

#[test]
fn another_failure_ends_the_attempts_at_once() {
    let outcomes = [Some(Some(231)), Some(Some(2)), Some(Some(5)), None];
    assert_eq!(connect(&outcomes), (3, 100, ConnectStep::Fail));
    assert_eq!(connect(&[Some(Some(5)), None]), (1, 0, ConnectStep::Fail));
    assert_eq!(connect(&[None]), (1, 0, ConnectStep::Connected));
}
