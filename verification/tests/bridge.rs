use bridge::link::{
    poll_outcome, serve_command, serve_next, submit_outcome, CHANNEL_CAPACITY,
};
use bridge::protocol::{process_commands, response_to};
use bridge::{Command, ErrorCode, Link, PollOutcome, Response};

#[test]
fn response_to_values() {
    assert_eq!(response_to(&Command::ComA), Some(Response::ResA));
    assert_eq!(response_to(&Command::ComB), Some(Response::ResB));
    assert_eq!(response_to(&Command::Exit), None);
}

#[test]
fn process_commands_answers_in_order() {
    let cmds = vec![Command::ComA, Command::ComB, Command::ComA, Command::ComB];
    let rs = process_commands(&cmds);
    assert_eq!(
        rs,
        vec![Response::ResA, Response::ResB, Response::ResA, Response::ResB]
    );
}

#[test]
fn process_commands_stops_at_exit() {
    let cmds = vec![Command::ComA, Command::Exit, Command::ComB];
    let rs = process_commands(&cmds);
    assert_eq!(rs, vec![Response::ResA]);

    let only_exit = vec![Command::Exit];
    assert_eq!(process_commands(&only_exit), vec![]);

    let empty: Vec<Command> = vec![];
    assert_eq!(process_commands(&empty), vec![]);
}

#[test]
fn submit_outcome_values() {
    assert_eq!(submit_outcome(true), ErrorCode::Success);
    assert_eq!(submit_outcome(false), ErrorCode::Failure);
}

#[test]
fn poll_outcome_values() {
    assert_eq!(
        poll_outcome(PollOutcome::Ready(Response::ResB)),
        (ErrorCode::Success, Some(Response::ResB))
    );
    assert_eq!(poll_outcome(PollOutcome::Empty), (ErrorCode::TryLater, None));
    assert_eq!(poll_outcome(PollOutcome::Closed), (ErrorCode::Failure, None));
}

#[test]
fn unwrap_accepts_success() {
    ErrorCode::Success.unwrap();
}

#[test]
fn ordered_responses_across_the_bridge() {
    let (mut link, loop_tx, mut loop_rx) = Link::open();

    assert_eq!(link.submit(Command::ComA), ErrorCode::Success);
    assert_eq!(link.submit(Command::ComB), ErrorCode::Success);
    assert_eq!(link.submit(Command::ComA), ErrorCode::Success);
    assert_eq!(link.submit(Command::ComB), ErrorCode::Success);
    assert_eq!(link.submit(Command::Exit), ErrorCode::Success);

    while serve_next(&loop_tx, &mut loop_rx) {}

    assert_eq!(link.poll(), (ErrorCode::Success, Some(Response::ResA)));
    assert_eq!(link.poll(), (ErrorCode::Success, Some(Response::ResB)));
    assert_eq!(link.poll(), (ErrorCode::Success, Some(Response::ResA)));
    assert_eq!(link.poll(), (ErrorCode::Success, Some(Response::ResB)));

    // The loop has stopped, but this side still holds the response sender,
    // so the queue reads as open and empty.
    assert_eq!(link.poll(), (ErrorCode::TryLater, None));
    drop(loop_tx);
    assert_eq!(link.poll(), (ErrorCode::Failure, None));
}

#[test]
fn poll_empty_is_try_later_and_repeatable() {
    let (mut link, loop_tx, mut loop_rx) = Link::open();

    assert_eq!(link.poll(), (ErrorCode::TryLater, None));
    assert_eq!(link.poll(), (ErrorCode::TryLater, None));
    assert_eq!(link.poll(), (ErrorCode::TryLater, None));

    // The earlier polls had no side effect: the next command still gets
    // its response.
    assert_eq!(link.submit(Command::ComA), ErrorCode::Success);
    assert!(serve_next(&loop_tx, &mut loop_rx));
    assert_eq!(link.poll(), (ErrorCode::Success, Some(Response::ResA)));
    assert_eq!(link.poll(), (ErrorCode::TryLater, None));
}

#[test]
fn exit_produces_no_response() {
    let (mut link, loop_tx, mut loop_rx) = Link::open();

    assert_eq!(link.submit(Command::ComA), ErrorCode::Success);
    assert_eq!(link.submit(Command::ComB), ErrorCode::Success);
    assert_eq!(link.submit(Command::Exit), ErrorCode::Success);

    while serve_next(&loop_tx, &mut loop_rx) {}

    assert_eq!(link.poll(), (ErrorCode::Success, Some(Response::ResA)));
    assert_eq!(link.poll(), (ErrorCode::Success, Some(Response::ResB)));
    drop(loop_tx);
    assert_eq!(link.poll(), (ErrorCode::Failure, None));
}

#[test]
fn submit_after_termination_fails() {
    let (link, _loop_tx, loop_rx) = Link::open();

    // The consuming side going away is how a terminated loop looks from
    // the submission path.
    drop(loop_rx);
    assert_eq!(link.submit(Command::ComA), ErrorCode::Failure);
    assert_eq!(link.submit(Command::Exit), ErrorCode::Failure);
}

#[test]
fn drained_responses_survive_termination() {
    let (mut link, loop_tx, mut loop_rx) = Link::open();

    assert_eq!(link.submit(Command::ComA), ErrorCode::Success);
    assert_eq!(link.submit(Command::Exit), ErrorCode::Success);
    while serve_next(&loop_tx, &mut loop_rx) {}
    drop(loop_tx);

    // Already-queued responses drain first; only then comes Failure.
    assert_eq!(link.poll(), (ErrorCode::Success, Some(Response::ResA)));
    assert_eq!(link.poll(), (ErrorCode::Failure, None));
    assert_eq!(link.poll(), (ErrorCode::Failure, None));
}

#[test]
fn full_command_queue_accepts_its_capacity() {
    let (mut link, loop_tx, mut loop_rx) = Link::open();

    // Fill the command queue to its exact capacity; every entry is
    // accepted, nothing dropped, nothing erroring.
    for _ in 0..(CHANNEL_CAPACITY - 1) {
        assert_eq!(link.submit(Command::ComA), ErrorCode::Success);
    }
    assert_eq!(link.submit(Command::Exit), ErrorCode::Success);

    while serve_next(&loop_tx, &mut loop_rx) {}

    for _ in 0..(CHANNEL_CAPACITY - 1) {
        assert_eq!(link.poll(), (ErrorCode::Success, Some(Response::ResA)));
    }
    assert_eq!(link.poll(), (ErrorCode::TryLater, None));
}

#[test]
fn serve_command_stops_on_exit() {
    let (mut link, loop_tx, _loop_rx) = Link::open();

    assert!(!serve_command(&loop_tx, &Command::Exit));
    // Exit produced nothing on the response queue.
    assert_eq!(link.poll(), (ErrorCode::TryLater, None));

    assert!(serve_command(&loop_tx, &Command::ComB));
    assert_eq!(link.poll(), (ErrorCode::Success, Some(Response::ResB)));
}
