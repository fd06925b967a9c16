use dashboard::app::{App, Card, Effect, Msg, Panel};
use dashboard::decode::{decode_cache_list, decode_entry, CacheEntry};
use dashboard::fetch::{completion_state, decode_dashboard, response_outcome, ErrorKind, FetchError, FetchState, DashboardData};

fn entry(id: u64, data_size: u64) -> CacheEntry {
    CacheEntry { id, data_size }
}

#[test]
fn decodes_double_encoded_list_in_order() {
    let body = r#"["{\"id\":1,\"data_size\":10}", "{\"id\":2,\"data_size\":20}"]"#;
    let data = decode_dashboard(body).unwrap();
    assert_eq!(data.cache_list, vec![entry(1, 10), entry(2, 20)]);
}

#[test]
fn object_instead_of_array_fails() {
    let err = decode_dashboard(r#"{"id":1}"#).unwrap_err();
    assert_eq!(err.kind, ErrorKind::Decode);
    assert!(!err.describe().is_empty());
}

#[test]
fn array_of_numbers_fails() {
    assert!(decode_dashboard("[1, 2]").is_err());
}

#[test]
fn malformed_element_fails_fast() {
    let body = r#"["{\"id\":1}", "not-json"]"#;
    assert!(decode_dashboard(body).is_err());
    assert_eq!(decode_cache_list(body), None);
}

#[test]
fn one_bad_element_among_good_ones_fails() {
    let body = r#"["{\"id\":1,\"data_size\":10}", "not-json"]"#;
    assert!(decode_dashboard(body).is_err());
}

#[test]
fn empty_array_gives_empty_list() {
    let data = decode_dashboard("[]").unwrap();
    assert!(data.cache_list.is_empty());
}

#[test]
fn body_that_is_not_json_fails() {
    assert!(decode_dashboard("not-json").is_err());
}

#[test]
fn entry_needs_both_members() {
    assert_eq!(decode_entry(r#"{"id":7,"data_size":3,"extra":"x"}"#), Some(entry(7, 3)));
    assert_eq!(decode_entry(r#"{"id":7}"#), None);
    assert_eq!(decode_entry(r#"{"data_size":3}"#), None);
    assert_eq!(decode_entry(r#"{"id":-1,"data_size":3}"#), None);
    assert_eq!(decode_entry(r#"{"id":"a","data_size":3}"#), None);
}

#[test]
fn create_starts_idle_at_zero() {
    let app = App::create();
    assert_eq!(app.value, 0);
    assert!(matches!(app.dashboard_data, FetchState::NotFetching));
    assert!(matches!(app.view(), Panel::Prompt));
}

#[test]
fn increment_then_decrement_returns_to_zero() {
    let mut app = App::create();
    assert_eq!(app.update(Msg::Increment), (true, Effect::Nothing));
    assert_eq!(app.value, 1);
    assert_eq!(app.update(Msg::Decrement), (true, Effect::Nothing));
    assert_eq!(app.value, 0);
}

#[test]
fn increments_count_across_fetch_events() {
    let mut app = App::create();
    for n in 0..5 {
        app.update(Msg::Increment);
        if n == 1 {
            app.update(Msg::FetchDashboard);
        }
        if n == 3 {
            app.update(Msg::SetDashboardFetchState(FetchState::Failed(FetchError::transport(
                String::from("refused"),
            ))));
        }
    }
    assert_eq!(app.value, 5);
}

#[test]
fn trigger_moves_to_fetching_and_names_request() {
    let mut app = App::create();
    let (rerender, effect) = app.update(Msg::FetchDashboard);
    assert!(rerender);
    assert_eq!(effect, Effect::Fetch("/cache_list"));
    assert!(matches!(app.dashboard_data, FetchState::Fetching));
    assert!(matches!(app.view(), Panel::Loading));
}

#[test]
fn trigger_discards_previous_success() {
    let mut app = App::create();
    app.update(Msg::SetDashboardFetchState(FetchState::Success(DashboardData {
        cache_list: vec![entry(1, 10)],
    })));
    app.update(Msg::FetchDashboard);
    assert!(matches!(app.dashboard_data, FetchState::Fetching));
}

#[test]
fn retrigger_keeps_fetching_and_last_completion_wins() {
    let mut app = App::create();
    app.update(Msg::FetchDashboard);
    app.update(Msg::FetchDashboard);
    assert!(matches!(app.dashboard_data, FetchState::Fetching));
    let body = r#"["{\"id\":2,\"data_size\":20}"]"#;
    app.update(Msg::SetDashboardFetchState(completion_state(Ok(String::from(body)))));
    app.update(Msg::SetDashboardFetchState(completion_state(Err(FetchError::transport(
        String::from("timeout"),
    )))));
    assert!(matches!(app.dashboard_data, FetchState::Failed(_)));
    assert!(matches!(app.view(), Panel::Failure));
}

#[test]
fn success_renders_one_card_per_entry_in_order() {
    let mut app = App::create();
    let body = r#"["{\"id\":1,\"data_size\":10}", "{\"id\":2,\"data_size\":20}"]"#;
    app.update(Msg::SetDashboardFetchState(completion_state(Ok(String::from(body)))));
    match app.view() {
        Panel::Cards(cards) => assert_eq!(
            cards,
            vec![Card { id: 1, data_size: 10 }, Card { id: 2, data_size: 20 }]
        ),
        _ => panic!("expected cards"),
    }
}

#[test]
fn transport_error_is_kept_as_failure() {
    match completion_state(Err(FetchError::transport(String::from("connection refused")))) {
        FetchState::Failed(e) => {
            assert_eq!(e.kind, ErrorKind::Transport);
            assert_eq!(e.describe(), "connection refused");
        }
        _ => panic!("expected failure"),
    }
}

#[test]
fn decode_error_completion_is_failure() {
    match completion_state(Ok(String::from(r#"{"id":1}"#))) {
        FetchState::Failed(e) => assert_eq!(e.kind, ErrorKind::Decode),
        _ => panic!("expected failure"),
    }
}

#[test]
fn only_status_200_passes_the_body_on() {
    assert_eq!(response_outcome(200, String::from("[]")).unwrap(), "[]");
    let err = response_outcome(404, String::from("[]")).unwrap_err();
    assert_eq!(err.kind, ErrorKind::Transport);
    assert!(matches!(
        completion_state(response_outcome(500, String::from("[]"))),
        FetchState::Failed(_)
    ));
}
