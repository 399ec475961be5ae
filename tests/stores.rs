use fetch_store::{
    execute_fetch, CollectionResponse, CollectionStore, DecodedResponse, EntityResponse,
    EntityStore, MacSign, MacVerify, MediaType, Messages, NoMac, Paging, PendingFetch,
    RawResponse, Request, StatusCode, TransferState, TransportOutcome, HEADER_SIGNATURE,
};

#[derive(Debug, Clone, PartialEq)]
struct Item {
    id: u64,
}

struct FixedSigner;

impl MacSign for FixedSigner {
    fn sign(_message: &[u8]) -> Option<String> {
        Some("sig".to_string())
    }
}

struct RejectAll;

impl MacVerify for RejectAll {
    fn verify(_message: &[u8], _signature: Option<&str>) -> Result<bool, String> {
        Ok(false)
    }
}

fn json_response(status: u16, body: &str) -> RawResponse {
    RawResponse {
        status,
        ok: true,
        error_type: false,
        content_type: Ok(Some("application/json".to_string())),
        signature: Ok(None),
        body: Some(body.as_bytes().to_vec()),
    }
}

/// Reads an entity envelope with serde_json, as an application would.
fn parse_entity(bytes: &[u8]) -> Result<EntityResponse<Item>, String> {
    let value: serde_json::Value = serde_json::from_slice(bytes).map_err(|e| e.to_string())?;
    let envelope = EntityResponse::new(Messages::new());
    Ok(match value.get("entity").and_then(|e| e.get("id")).and_then(|id| id.as_u64()) {
        Some(id) => envelope.with_entity(Item { id }),
        None => envelope,
    })
}

fn run_entity_fetch<MV: MacVerify>(
    store: &mut EntityStore<Item>,
    pending: PendingFetch,
    outcome: TransportOutcome,
) -> StatusCode {
    let done = pending.wait_completion(outcome);
    let step = execute_fetch::<MV>(done.response);
    let result = match step.response.clone() {
        Some(bytes) => step.into_parsed(parse_entity(&bytes)),
        None => step.cast_failure(),
    };
    store.complete(result)
}

#[test]
fn entity_load_applies_the_received_entity() {
    let mut store: EntityStore<Item> = EntityStore::new(None);
    let pending = store.load(Request::new("http://host/item/1").json()).unwrap();
    assert!(store.pending());
    let response = json_response(200, r#"{"messages":{},"entity":{"id":1}}"#);
    let mut received = None;
    let status =
        run_entity_fetch::<NoMac>(&mut store, pending, TransportOutcome::Responded(response));
    let mut callback = |status: StatusCode| received = Some(status);
    callback(status);
    assert_eq!(store.entity(), &Some(Item { id: 1 }));
    assert_eq!(store.transfer_state(), TransferState::Loaded(StatusCode::Okay));
    assert_eq!(received, Some(StatusCode::Okay));
    assert!(!store.messages().error());
}

#[test]
fn second_load_after_success_sends_nothing() {
    let mut store: EntityStore<Item> = EntityStore::new(None);
    let mut sent = 0;
    if let Some(pending) = store.load(Request::new("http://host/item/1")) {
        sent += 1;
        let response = json_response(200, r#"{"messages":{},"entity":{"id":7}}"#);
        run_entity_fetch::<NoMac>(&mut store, pending, TransportOutcome::Responded(response));
    }
    if store.load(Request::new("http://host/item/1")).is_some() {
        sent += 1;
    }
    assert_eq!(sent, 1);
    assert_eq!(store.entity(), &Some(Item { id: 7 }));
    store.invalidate();
    assert!(store.load(Request::new("http://host/item/1")).is_some());
    assert!(store.load_skip_cache(Request::new("http://host/item/1")).url() == "http://host/item/1");
}

#[test]
fn failed_signature_leaves_the_entity_alone() {
    let mut store = EntityStore::new(Some(Item { id: 3 }));
    let pending = store.load(Request::new("http://host/item/3")).unwrap();
    let response = json_response(200, r#"{"messages":{},"entity":{"id":4}}"#);
    let status =
        run_entity_fetch::<RejectAll>(&mut store, pending, TransportOutcome::Responded(response));
    assert_eq!(status, StatusCode::DecodeFailed);
    assert_eq!(store.entity(), &Some(Item { id: 3 }));
    assert_eq!(store.transfer_state(), TransferState::Loaded(StatusCode::DecodeFailed));
}

#[test]
fn store_sends_the_signed_entity() {
    let mut store = EntityStore::new(Some(Item { id: 5 }));
    let pending = store
        .store::<FixedSigner>(Request::new("http://host/item").update().json(), Ok(b"{\"id\":5}".to_vec()))
        .unwrap();
    assert_eq!(store.transfer_state(), TransferState::PendingStore);
    assert_eq!(pending.body(), Some(&b"{\"id\":5}"[..]));
    assert!(!pending.is_load());
    assert_eq!(pending.method().http_name(), "PUT");
    let last = pending.headers().last().unwrap();
    assert_eq!(last.0, HEADER_SIGNATURE);
    assert_eq!(last.1, "sig");
    let status = run_entity_fetch::<NoMac>(
        &mut store,
        pending,
        TransportOutcome::Responded(json_response(204, "")),
    );
    assert_eq!(status, StatusCode::NoContent);
    assert!(store.stored());
}

#[test]
fn store_refuses_unsupported_media_before_sending() {
    let mut store = EntityStore::new(Some(Item { id: 5 }));
    let request = Request::new("http://host/item").with_media_type(MediaType::Pdf);
    assert!(store.store::<NoMac>(request, Ok(vec![1])).is_none());
    assert_eq!(store.transfer_state(), TransferState::Stored(StatusCode::UnsupportedMediaType));
    assert_eq!(
        store.messages().to_debug_string(),
        "service: [E: Request failed as unsupported media type is requested]"
    );
    assert_eq!(store.entity(), &Some(Item { id: 5 }));
}

#[test]
fn store_without_entity_or_serialization_sends_nothing() {
    let mut empty: EntityStore<Item> = EntityStore::new(None);
    assert!(empty.store::<NoMac>(Request::new("http://h").json(), Ok(vec![1])).is_none());
    assert_eq!(empty.transfer_state(), TransferState::Empty);
    let mut full = EntityStore::new(Some(Item { id: 1 }));
    assert!(full.store::<NoMac>(Request::new("http://h").json(), Err("cycle".to_string())).is_none());
    assert_eq!(full.transfer_state(), TransferState::Empty);
}

#[test]
fn execute_with_response_hands_the_entity_back() {
    let mut store = EntityStore::new(Some(Item { id: 1 }));
    let pending = store.execute_with_response(Request::new("http://host/act").execute().json_with_response());
    assert_eq!(store.transfer_state(), TransferState::PendingStore);
    assert_eq!(pending.method().http_name(), "POST");
    let result = DecodedResponse {
        status: StatusCode::Okay,
        hint: None,
        response: Some(EntityResponse::new(Messages::from_entity_error("taken")).with_entity(9u32)),
    };
    let (status, received) = store.complete_detached(result);
    assert_eq!(status, StatusCode::Okay);
    assert_eq!(received, Some(9));
    assert_eq!(store.entity(), &Some(Item { id: 1 }));
    assert!(store.messages().error());
    assert!(store.stored());
}

#[test]
fn fetch_that_cannot_start_is_a_failed_load() {
    let mut store = EntityStore::new(Some(Item { id: 1 }));
    let _pending = store.execute(Request::new("http://h"));
    assert_eq!(store.fetch_not_started(), StatusCode::BadRequest);
    assert_eq!(store.transfer_state(), TransferState::Loaded(StatusCode::FetchFailed));
}

#[test]
fn collection_store_of_nothing_sends_no_body_and_no_signature() {
    let mut store: CollectionStore<Item> = CollectionStore::new_empty();
    let pending = store.store::<FixedSigner>(Request::new("http://host/items").json(), Ok(vec![1])).unwrap();
    assert!(pending.body().is_none());
    assert!(pending.headers().iter().all(|h| h.0 != HEADER_SIGNATURE));
    assert_eq!(store.transfer_state(), TransferState::PendingStore);
}

#[test]
fn collection_store_sends_the_whole_collection() {
    let mut store = CollectionStore::new_value(vec![Item { id: 1 }, Item { id: 2 }]);
    let pending = store
        .store::<FixedSigner>(Request::new("http://host/items").update().json(), Ok(b"[1,2]".to_vec()))
        .unwrap();
    assert_eq!(pending.body(), Some(&b"[1,2]"[..]));
    assert!(pending.headers().iter().any(|h| h.0 == HEADER_SIGNATURE && h.1 == "sig"));
    let mut refused = CollectionStore::new_value(vec![Item { id: 1 }]);
    assert!(refused.store::<NoMac>(Request::new("http://h"), Ok(vec![1])).is_none());
    assert_eq!(refused.transfer_state(), TransferState::Stored(StatusCode::UnsupportedMediaType));
    assert!(refused.messages().error());
}

#[test]
fn collection_load_times_out() {
    let mut store: CollectionStore<Item> = CollectionStore::new_empty();
    let pending = store.load(Request::new("http://host/items")).unwrap();
    assert_eq!(pending.wait_limit_ms(), 5000);
    let mut aborts = 0;
    let done = pending.wait_completion(TransportOutcome::TimedOut);
    if done.abort {
        aborts += 1;
    }
    let step = execute_fetch::<NoMac>(done.response);
    let status = store.complete(step.cast_failure());
    assert_eq!(status, StatusCode::FetchTimeout);
    assert_eq!(store.transfer_state(), TransferState::Loaded(StatusCode::FetchTimeout));
    assert_eq!(aborts, 1);
}

#[test]
fn collection_load_replaces_collection_and_paging() {
    let mut store = CollectionStore::new_value(vec![Item { id: 9 }]);
    let _pending = store.load(Request::new("http://host/items")).unwrap();
    let response = CollectionResponse::new(Messages::new())
        .with_collection(vec![Item { id: 2 }, Item { id: 1 }])
        .with_paging(Paging::new(10, None, Some("n2".to_string())));
    let status = store.complete(DecodedResponse { status: StatusCode::Okay, hint: None, response: Some(response) });
    assert_eq!(status, StatusCode::Okay);
    assert_eq!(store.collection(), &vec![Item { id: 2 }, Item { id: 1 }]);
    assert_eq!(store.paging().limit(), 10);
    assert_eq!(store.paging().next(), Some("n2"));
    assert!(store.loaded());
    assert!(store.load(Request::new("http://host/items")).is_none());

    let _again = store.load_skip_cache(Request::new("http://host/items"));
    let plain = CollectionResponse::<Item>::new(Messages::from_service_error("slow"));
    store.complete(DecodedResponse { status: StatusCode::RateLimited, hint: None, response: Some(plain) });
    assert_eq!(store.collection(), &vec![Item { id: 2 }, Item { id: 1 }]);
    assert_eq!(store.paging().limit(), 25);
    assert_eq!(store.paging().next(), None);
    assert_eq!(store.loaded_status(), Some(StatusCode::RateLimited));
    assert!(store.messages().error());
    store.reset_to_empty();
    assert!(store.is_empty());
    assert_eq!(store.transfer_state(), TransferState::Empty);
}

struct Counter(u32);

impl fetch_store::FetchDeserializable for Counter {
    fn try_from_json(json: &[u8]) -> Result<Self, String> {
        std::str::from_utf8(json)
            .ok()
            .and_then(|s| s.trim().parse().ok())
            .map(Counter)
            .ok_or_else(|| "not a number".to_string())
    }
}

#[test]
fn payload_is_deserialized_by_the_target_type() {
    let ok: DecodedResponse<Vec<u8>> =
        DecodedResponse { status: StatusCode::Okay, hint: None, response: Some(b"42".to_vec()) };
    let parsed = ok.deserialize::<Counter>();
    assert_eq!(parsed.status, StatusCode::Okay);
    assert_eq!(parsed.response.map(|c| c.0), Some(42));
    let bad: DecodedResponse<Vec<u8>> =
        DecodedResponse { status: StatusCode::Okay, hint: None, response: Some(b"x".to_vec()) };
    let parsed = bad.deserialize::<Counter>();
    assert_eq!(parsed.status, StatusCode::DecodeFailed);
    assert_eq!(parsed.hint.as_deref(), Some("Deserialization failed: not a number"));
    let none: DecodedResponse<Vec<u8>> = DecodedResponse::new(StatusCode::NoContent);
    let parsed = none.deserialize::<Counter>();
    assert_eq!(parsed.status, StatusCode::NoContent);
    assert!(parsed.response.is_none());
}

#[derive(Debug, Clone, PartialEq)]
struct Draft {
    dirty: bool,
}

impl fetch_store::Dirty for Draft {
    fn is_dirty(&self) -> bool {
        self.dirty
    }

    fn take_dirty(&mut self) -> bool {
        std::mem::take(&mut self.dirty)
    }

    fn with_dirty(self) -> Self {
        Draft { dirty: true }
    }

    fn mark_as_dirty(&mut self) {
        self.dirty = true;
    }
}

#[test]
fn commit_needs_changes_and_no_errors() {
    let mut store = EntityStore::new(Some(Draft { dirty: true }));
    assert!(store.can_commit());
    let mut messages = Messages::new();
    messages.add_entity_error("invalid");
    store.set_messages(messages);
    assert!(!store.can_commit());
    let clean = EntityStore::new(Some(Draft { dirty: false }));
    assert!(!clean.can_commit());
    let empty: EntityStore<Draft> = EntityStore::new(None);
    assert!(!empty.can_commit());
}
