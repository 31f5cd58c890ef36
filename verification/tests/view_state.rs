use auracle::view_state::{Load, ViewState};

#[test]
fn pending_load_is_loading() {
    let state: ViewState<Vec<u8>> = Load::Pending.into_view(Vec::is_empty, "no rows yet");
    assert_eq!(state, ViewState::Loading);
}

#[test]
fn failed_load_is_a_retryable_error_carrying_the_message() {
    let state: ViewState<Vec<u8>> =
        Load::Failed("engine unreachable".into()).into_view(Vec::is_empty, "no rows yet");
    assert_eq!(state, ViewState::retryable_error("engine unreachable"));
}

#[test]
fn done_load_with_a_non_empty_payload_is_ready_with_the_value() {
    let state = Load::Done(vec![1, 2, 3]).into_view(Vec::is_empty, "no rows yet");
    assert_eq!(state, ViewState::Ready(vec![1, 2, 3]));
}

#[test]
fn done_load_with_an_empty_payload_is_empty_with_the_hint() {
    let state: ViewState<Vec<u8>> = Load::Done(vec![]).into_view(Vec::is_empty, "no rows yet");
    assert_eq!(state, ViewState::Empty { hint: "no rows yet".into() });
}

#[test]
fn emptiness_follows_the_supplied_predicate_not_the_payload_shape() {
    let scalar_empty = Load::Done(0u32).into_view(|n| *n == 0, "zero");
    assert_eq!(scalar_empty, ViewState::Empty { hint: "zero".into() });

    let forced_empty = Load::Done(vec![1, 2, 3]).into_view(|_| true, "forced");
    assert_eq!(forced_empty, ViewState::Empty { hint: "forced".into() });

    let forced_ready = Load::Done(Vec::<i32>::new()).into_view(|_| false, "unused");
    assert_eq!(forced_ready, ViewState::Ready(vec![]));
}

#[test]
fn into_list_view_uses_vec_emptiness() {
    let empty: ViewState<Vec<i32>> = Load::Done(vec![]).into_list_view("no runs yet");
    assert_eq!(empty, ViewState::Empty { hint: "no runs yet".into() });

    let filled: ViewState<Vec<i32>> = Load::Done(vec![7]).into_list_view("no runs yet");
    assert_eq!(filled, ViewState::Ready(vec![7]));
}

#[test]
fn only_a_retryable_error_should_show_retry() {
    assert!(ViewState::<()>::retryable_error("timed out").should_retry());
    assert!(!ViewState::<()>::permanent_error("unsupported platform").should_retry());
    assert!(!ViewState::<()>::Loading.should_retry());
    assert!(!ViewState::<()>::Empty { hint: "x".into() }.should_retry());
    assert!(!ViewState::Ready(()).should_retry());
}

#[test]
fn list_view_keeps_pending_and_failures() {
    let pending: ViewState<Vec<i32>> = Load::Pending.into_list_view("x");
    assert_eq!(pending, ViewState::Loading);
    let failed: ViewState<Vec<i32>> = Load::Failed("down".into()).into_list_view("x");
    assert_eq!(failed, ViewState::Error { message: "down".into(), retryable: true });
    assert_eq!(
        ViewState::<()>::permanent_error("no"),
        ViewState::Error { message: "no".into(), retryable: false }
    );
}
