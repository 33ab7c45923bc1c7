use thoth_query::dispatch::{Call, Delivery, FetchAction};
use thoth_query::error::{ErrorDetail, ErrorKind, FetchError};
use thoth_query::language_relations::LanguageRelationsResponseData;

#[test]
fn start_emits_fetching() {
    let (call, fetching) = Call::start::<u32>(11);
    assert_eq!(call.id(), 11);
    assert!(!call.is_finished());
    assert_eq!(fetching, Delivery { call: 11, action: FetchAction::Fetching });
}

#[test]
fn exactly_one_terminal_action() {
    let (mut call, _) = Call::start::<u32>(1);
    assert_eq!(call.finish(Ok(5)), Some(Delivery { call: 1, action: FetchAction::Success(5) }));
    assert!(call.is_finished());
    assert_eq!(call.finish(Ok(6)), None);
    let late: Result<u32, FetchError> = Err(FetchError { kind: ErrorKind::Network, details: vec![] });
    assert_eq!(call.finish(late), None);
}

#[test]
fn failure_becomes_terminal_failure() {
    let (mut call, _) = Call::start::<LanguageRelationsResponseData>(3);
    let err = FetchError {
        kind: ErrorKind::Protocol,
        details: vec![ErrorDetail { message: "bad input".to_string(), location: None }],
    };
    assert_eq!(
        call.finish::<LanguageRelationsResponseData>(Err(err.clone())),
        Some(Delivery { call: 3, action: FetchAction::Failure(err) })
    );
}

#[test]
fn concurrent_calls_receive_their_own_results() {
    let (mut first, _) = Call::start::<u32>(100);
    let (mut second, _) = Call::start::<u32>(101);
    let b = second.finish(Ok(2)).unwrap();
    let a = first.finish(Ok(1)).unwrap();
    assert_eq!(a, Delivery { call: 100, action: FetchAction::Success(1) });
    assert_eq!(b, Delivery { call: 101, action: FetchAction::Success(2) });
}
