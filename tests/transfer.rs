use fetch_store::collectionstate::{
    collection_state, combine_collection_states_2, combine_collection_states_3,
};
use fetch_store::CollectionState::{Empty, NotEmpty, Pending};
use fetch_store::{MediaType, Method, StatusCode, TransferState};

#[test]
fn loaded_follows_the_last_finished_verb() {
    let mut state = TransferState::Empty;
    assert!(!state.loaded());
    state.start_load();
    assert!(state.pending());
    assert!(!state.loaded());
    state.stop(StatusCode::Okay);
    assert!(state.loaded());
    assert_eq!(state.loaded_status(), Some(StatusCode::Okay));
    state.start_store();
    state.stop(StatusCode::Created);
    assert!(!state.loaded());
    assert!(state.stored());
    assert_eq!(state.stored_status(), Some(StatusCode::Created));
    assert_eq!(state.loaded_status(), None);
    state.start_load();
    state.stop(StatusCode::NotFound);
    assert!(!state.loaded());
    assert_eq!(state, TransferState::Loaded(StatusCode::NotFound));
    state.start_load();
    state.stop(StatusCode::NotModified);
    assert!(state.loaded());
}

#[test]
fn stop_without_a_pending_verb_falls_back_to_a_failed_load() {
    let mut state = TransferState::Empty;
    state.stop(StatusCode::Okay);
    assert_eq!(state, TransferState::Loaded(StatusCode::FetchFailed));
    let mut stored = TransferState::Stored(StatusCode::Okay);
    stored.stop(StatusCode::Conflict);
    assert_eq!(stored, TransferState::Stored(StatusCode::Conflict));
}

#[test]
fn reset_error_clears_finished_failures_only() {
    let mut state = TransferState::Loaded(StatusCode::InternalServerError);
    assert!(!state.not_error());
    state.reset_error();
    assert_eq!(state, TransferState::Loaded(StatusCode::Okay));
    assert!(state.not_error());
    let mut stored = TransferState::Stored(StatusCode::FetchTimeout);
    stored.reset_error();
    assert_eq!(stored, TransferState::Stored(StatusCode::Okay));
    for mut other in [TransferState::Empty, TransferState::PendingLoad, TransferState::PendingStore] {
        let before = other;
        other.reset_error();
        assert_eq!(other, before);
        assert!(other.not_completed());
    }
}

#[test]
fn status_codes_map_from_numbers() {
    assert_eq!(StatusCode::from(200u16), StatusCode::Okay);
    assert_eq!(StatusCode::from(201u16), StatusCode::Created);
    assert_eq!(StatusCode::from(204u16), StatusCode::NoContent);
    assert_eq!(StatusCode::from(304u16), StatusCode::NotModified);
    assert_eq!(StatusCode::from(415u16), StatusCode::UnsupportedMediaType);
    assert_eq!(StatusCode::from(429u16), StatusCode::RateLimited);
    assert_eq!(StatusCode::from(501u16), StatusCode::NotImplemented);
    assert_eq!(StatusCode::from(902u16), StatusCode::FetchTimeout);
    assert_eq!(StatusCode::from(302u16), StatusCode::Undefined);
    assert_eq!(StatusCode::from(true), StatusCode::Okay);
    assert_eq!(StatusCode::from(false), StatusCode::BadRequest);
}

#[test]
fn status_code_classes() {
    assert!(StatusCode::NotModified.is_success());
    assert!(StatusCode::BadRequest.is_failure());
    assert!(StatusCode::Undefined.is_failure());
    assert!(StatusCode::FetchFailed.is_local());
    assert!(StatusCode::FetchTimeout.is_local());
    assert!(!StatusCode::DecodeFailed.is_local());
}

#[test]
fn media_types_read_and_write_their_names() {
    assert_eq!(MediaType::from_mime("application/json"), MediaType::Json);
    assert_eq!(MediaType::from_mime("application/x-zip-compressed"), MediaType::Zip);
    assert_eq!(MediaType::from_mime("text/plain"), MediaType::ByteStream);
    assert_eq!(MediaType::from_mime("nonsense"), MediaType::ByteStream);
    assert_eq!(MediaType::Json.as_str(), "application/json");
    assert_eq!(MediaType::Svg.as_str(), "image/svg+xml");
    assert_eq!(MediaType::from_mime(MediaType::Xlsx.as_str()), MediaType::Xlsx);
}

#[test]
fn methods_split_into_load_and_store_verbs() {
    assert!(Method::Get.is_load());
    assert!(Method::Head.is_load());
    assert!(Method::Options.is_load());
    assert!(!Method::Put.is_load());
    assert_eq!(Method::Delete.as_str(), "Delete");
    assert_eq!(Method::Delete.http_name(), "DELETE");
}

#[test]
fn collection_states_combine() {
    assert_eq!(collection_state(true, true), Pending);
    assert_eq!(collection_state(false, true), Empty);
    assert_eq!(collection_state(false, false), NotEmpty);
    assert_eq!(combine_collection_states_2(Empty, NotEmpty), NotEmpty);
    assert_eq!(combine_collection_states_2(NotEmpty, Pending), Pending);
    assert_eq!(combine_collection_states_2(Empty, Empty), Empty);
    assert_eq!(combine_collection_states_3(Empty, Empty, Pending), Pending);
    assert_eq!(combine_collection_states_3(Empty, NotEmpty, Empty), NotEmpty);
    assert_eq!(combine_collection_states_3(Empty, Empty, Empty), Empty);
    assert!(Pending.empty_pending() && Pending.not_empty_pending() && Pending.pending());
    assert!(Empty.empty() && !Empty.not_empty());
}
