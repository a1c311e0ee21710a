use modbus_plc::frame::{
    dialogue_step, request_frame_len, DialogueAction, DialogueEvent, DialogueState, FrameError,
};
use modbus_plc::server::{
    acceptor_on_accept, acceptor_poll, combine_outcomes, AcceptOutcome, AcceptorAction,
    ACCEPT_POLL_MS,
};

#[test]
fn frame_length_comes_from_the_header() {
    assert_eq!(request_frame_len(&[0, 1, 0, 0, 0, 6, 1, 3]), Ok(12));
    assert_eq!(request_frame_len(&[0, 1, 0, 0, 0, 249, 1, 16]), Ok(255));
    assert_eq!(request_frame_len(&[0, 1, 0, 0, 0, 2, 1, 3]), Ok(8));
    // a wrong protocol id still delimits a frame, which is then answered
    assert_eq!(request_frame_len(&[0, 1, 0, 1, 0, 6, 1, 3]), Ok(12));
}

#[test]
fn broken_headers_are_refused() {
    assert_eq!(request_frame_len(&[0, 1, 0, 0, 0, 1, 1, 3]), Err(FrameError::Broken));
    assert_eq!(request_frame_len(&[0, 1, 0, 0, 0, 250, 1, 3]), Err(FrameError::Broken));
    assert_eq!(request_frame_len(&[0, 1, 0, 0, 1, 0, 1, 3]), Err(FrameError::Broken));
    assert_eq!(request_frame_len(&[0, 1, 0, 0, 255, 255, 1, 3]), Err(FrameError::Broken));
}

#[test]
fn read_request_cycle() {
    let (s, a) = dialogue_step(DialogueState::AwaitingHeader, DialogueEvent::Poll { must_quit: false });
    assert_eq!((s, a), (DialogueState::AwaitingHeader, DialogueAction::ReadHeader));
    let (s, a) = dialogue_step(s, DialogueEvent::HeaderRead { header: vec![0, 7, 0, 0, 0, 6, 1, 3] });
    assert_eq!((s, a), (DialogueState::AwaitingBody { len: 12 }, DialogueAction::ReadBody { len: 12 }));
    let (s, a) = dialogue_step(s, DialogueEvent::BodyRead);
    assert_eq!(a, DialogueAction::Parse { len: 12 });
    let parsed = DialogueEvent::Parsed { processing_required: true, readonly: true, response_required: true };
    let (s, a) = dialogue_step(s, parsed);
    assert_eq!(a, DialogueAction::ProcessRead);
    let (s, a) = dialogue_step(s, DialogueEvent::Processed);
    assert_eq!((s, a), (DialogueState::Responding, DialogueAction::Respond));
    let (s, a) = dialogue_step(s, DialogueEvent::Sent);
    assert_eq!((s, a), (DialogueState::AwaitingHeader, DialogueAction::Poll));
}

#[test]
fn write_request_takes_the_exclusive_lock() {
    let parsed = DialogueEvent::Parsed { processing_required: true, readonly: false, response_required: true };
    let (s, a) = dialogue_step(DialogueState::Processing { respond: false }, parsed);
    assert_eq!((s, a), (DialogueState::Processing { respond: true }, DialogueAction::ProcessWrite));
}

#[test]
fn exception_is_answered_without_processing() {
    let parsed = DialogueEvent::Parsed { processing_required: false, readonly: true, response_required: true };
    let (s, a) = dialogue_step(DialogueState::Processing { respond: false }, parsed);
    assert_eq!((s, a), (DialogueState::Responding, DialogueAction::Respond));
}

#[test]
fn malformed_frame_is_answered_and_connection_goes_on() {
    let (s, a) = dialogue_step(DialogueState::AwaitingHeader, DialogueEvent::HeaderRead { header: vec![0, 1, 0, 9, 0, 6, 1, 3] });
    assert_eq!((s, a), (DialogueState::AwaitingBody { len: 12 }, DialogueAction::ReadBody { len: 12 }));
    let (s, _) = dialogue_step(s, DialogueEvent::BodyRead);
    let (s, a) = dialogue_step(s, DialogueEvent::Malformed);
    assert_eq!((s, a), (DialogueState::Responding, DialogueAction::Respond));
    let (s, a) = dialogue_step(s, DialogueEvent::Sent);
    assert_eq!((s, a), (DialogueState::AwaitingHeader, DialogueAction::Poll));
}

#[test]
fn frame_for_another_unit_gets_no_answer() {
    let parsed = DialogueEvent::Parsed { processing_required: false, readonly: true, response_required: false };
    let (s, a) = dialogue_step(DialogueState::Processing { respond: false }, parsed);
    assert_eq!((s, a), (DialogueState::AwaitingHeader, DialogueAction::Poll));
}

#[test]
fn connection_ends_on_close_quit_or_failure() {
    assert_eq!(
        dialogue_step(DialogueState::AwaitingHeader, DialogueEvent::EndOfStream),
        (DialogueState::Closed, DialogueAction::Close)
    );
    assert_eq!(
        dialogue_step(DialogueState::AwaitingHeader, DialogueEvent::Poll { must_quit: true }),
        (DialogueState::Closed, DialogueAction::Close)
    );
    assert_eq!(
        dialogue_step(DialogueState::AwaitingBody { len: 12 }, DialogueEvent::Failed),
        (DialogueState::Closed, DialogueAction::Abort)
    );
    assert_eq!(
        dialogue_step(DialogueState::AwaitingHeader, DialogueEvent::HeaderRead { header: vec![0, 1, 0, 0, 0, 1, 1, 3] }),
        (DialogueState::Closed, DialogueAction::Abort)
    );
    assert_eq!(
        dialogue_step(DialogueState::Responding, DialogueEvent::BodyRead),
        (DialogueState::Closed, DialogueAction::Abort)
    );
    assert_eq!(
        dialogue_step(DialogueState::Closed, DialogueEvent::Sent),
        (DialogueState::Closed, DialogueAction::Close)
    );
}

#[test]
fn acceptor_decisions() {
    assert_eq!(acceptor_poll(true), AcceptorAction::Stop);
    assert_eq!(acceptor_poll(false), AcceptorAction::Accept);
    assert_eq!(acceptor_on_accept(AcceptOutcome::Connection), AcceptorAction::Spawn);
    assert_eq!(acceptor_on_accept(AcceptOutcome::WouldBlock), AcceptorAction::Sleep { ms: 200 });
    assert_eq!(ACCEPT_POLL_MS, 200);
    assert_eq!(acceptor_on_accept(AcceptOutcome::Failed), AcceptorAction::Fail);
}

#[test]
fn outcomes_are_combined_without_masking() {
    assert_eq!(combine_outcomes::<String>(Ok(()), Ok(())), Ok(()));
    assert_eq!(combine_outcomes(Err("server".to_string()), Ok(())), Err(vec!["server".to_string()]));
    assert_eq!(combine_outcomes(Ok(()), Err("plc".to_string())), Err(vec!["plc".to_string()]));
    assert_eq!(
        combine_outcomes(Err("server".to_string()), Err("plc".to_string())),
        Err(vec!["server".to_string(), "plc".to_string()])
    );
}
