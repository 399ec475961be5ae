use vstd::prelude::*;

use crate::fetch::{DecodedResponse, PendingFetch, PendingFetchView};
use crate::mac::MacSign;
use crate::mediatype::MediaType;
use crate::new_dirty::Dirty;
use crate::messages::{
    CategoryView, MessageType, Messages, absorbed_all, has_error, plain_message,
};
use crate::request::{HEADER_SIGNATURE, HeaderView, Request, RequestView};
use crate::statuscode::StatusCode;
use crate::transferstate::TransferState;
use crate::transport::EntityResponse;

verus! {

/// Text recorded when a store is asked to send a media type that no codec of
/// this library writes.
pub const UNSUPPORTED_MEDIA_TEXT: &'static str = "Request failed as unsupported media type is requested";

/// A store as a value: its transfer state, its messages and its entity.
pub struct EntityStoreView<E> {
    pub state: TransferState,
    pub messages: Seq<CategoryView>,
    pub entity: Option<E>,
}

/// A single optional entity, coupled to the fetches that load and store it.
///
/// Network work happens outside: the methods that start a fetch update the
/// transfer state and return the `PendingFetch` to send (or `None` when
/// nothing is sent), and the `complete` methods apply the decoded response
/// and move the transfer state to its terminal form. They return the status
/// for the caller's result callback, so a callback invoked with it already
/// observes the terminal state.
pub struct EntityStore<E> {
    transfer_state: TransferState,
    messages: Messages,
    entity: Option<E>,
}

impl<E> View for EntityStore<E> {
    type V = EntityStoreView<E>;

    closed spec fn view(&self) -> EntityStoreView<E> {
        EntityStoreView { state: self.transfer_state, messages: self.messages@, entity: self.entity }
    }
}

/// The request as `start` hands it to the transport, with the given intent.
pub open spec fn started(req: RequestView, is_load: bool) -> PendingFetchView {
    PendingFetchView {
        method: req.method,
        is_load,
        url: req.url,
        headers: match req.headers {
            Some(h) => h,
            None => Seq::<HeaderView>::empty(),
        },
        body: req.body,
        timeout_ms: req.timeout_ms,
    }
}

/// The request with a body: the header list gets the signature last when
/// there is one.
pub open spec fn signed_with_body(req: RequestView, is_load: bool, body: Seq<u8>, p: PendingFetchView) -> bool {
    let base = started(RequestView { body: Some(body), ..req }, is_load);
    p == base || exists|s: Seq<char>|
        p == (PendingFetchView { headers: #[trigger] base.headers.push(("Content-Signature"@, s)), ..base })
}

/// The statuses after which a response is not applied.
pub open spec fn transfer_failure(s: StatusCode) -> bool {
    matches!(s, StatusCode::FetchTimeout | StatusCode::FetchFailed | StatusCode::DecodeFailed)
}

/// The messages a store holds after a response.
pub open spec fn response_messages(old_messages: Seq<CategoryView>, status: StatusCode, response_messages: Option<Seq<CategoryView>>) -> Seq<CategoryView> {
    match response_messages {
        Some(m) if !transfer_failure(status) => absorbed_all(Seq::<CategoryView>::empty(), m),
        _ => old_messages,
    }
}

pub open spec fn unsupported_media_messages() -> Seq<CategoryView> {
    seq![("service"@, seq![plain_message(MessageType::Error, UNSUPPORTED_MEDIA_TEXT@)])]
}

/// Adds the signature that `MS` gives for `bytes`, if any, and the body.
pub fn sign_and_attach<MS: MacSign>(request: Request, bytes: Vec<u8>) -> (r: Request)
    ensures
        r@ == (RequestView { body: Some(bytes@), ..request@ }) || exists|s: Seq<char>|
            r@ == (RequestView {
                body: Some(bytes@),
                headers: #[trigger] crate::request::pushed_header(request@.headers, "Content-Signature"@, s),
                ..request@
            }),
{
    let signed = match MS::sign(bytes.as_slice()) {
        Some(signature) => request.with_header(HEADER_SIGNATURE, signature.as_str()),
        None => request,
    };
    signed.with_body(bytes)
}

/// What a store that sends `payload` does: an unsupported media type
/// records a service error and finishes with UnsupportedMediaType on the
/// side of the intent; no payload, or one that could not be serialized,
/// sends nothing and changes nothing; otherwise the body (signed where the signer gives a
/// signature) is sent and the state is pending by `is_load`.
pub open spec fn store_effect<E>(
    before: EntityStoreView<E>,
    after: EntityStoreView<E>,
    req: RequestView,
    is_load: bool,
    payload: Option<Result<Vec<u8>, String>>,
    r: Option<PendingFetch>,
) -> bool {
    if req.media_type != Some(MediaType::Json) {
        r is None && after == (EntityStoreView {
            messages: unsupported_media_messages(),
            state: if is_load {
                TransferState::Loaded(StatusCode::UnsupportedMediaType)
            } else {
                TransferState::Stored(StatusCode::UnsupportedMediaType)
            },
            ..before
        })
    } else {
        match payload {
            Some(Ok(bytes)) => r is Some && signed_with_body(req, is_load, bytes@, r->Some_0@)
                && after == (EntityStoreView {
                state: if is_load { TransferState::PendingLoad } else { TransferState::PendingStore },
                ..before
            }),
            _ => r is None && after == before,
        }
    }
}

impl<E> EntityStore<E> {
    pub closed spec fn wf(&self) -> bool {
        self.messages.wf()
    }

    /// An empty transfer state, no messages, and the given entity.
    pub fn new(entity: Option<E>) -> (r: EntityStore<E>)
        ensures
            r.wf(),
            r@ == (EntityStoreView { state: TransferState::Empty, messages: Seq::empty(), entity }),
    {
        EntityStore { transfer_state: TransferState::Empty, messages: Messages::new(), entity }
    }

    /// Back to an empty transfer state without messages, holding `entity`.
    pub fn reset(&mut self, entity: Option<E>)
        ensures
            final(self).wf(),
            final(self)@ == (EntityStoreView { state: TransferState::Empty, messages: Seq::empty(), entity }),
    {
        self.transfer_state = TransferState::Empty;
        self.messages.clear_all();
        self.entity = entity;
    }

    /// As `reset`, returning the entity held before.
    pub fn replace(&mut self, entity: Option<E>) -> (r: Option<E>)
        ensures
            final(self).wf(),
            r == old(self)@.entity,
            final(self)@ == (EntityStoreView { state: TransferState::Empty, messages: Seq::empty(), entity }),
    {
        self.transfer_state = TransferState::Empty;
        self.messages.clear_all();
        let mut entity = entity;
        std::mem::swap(&mut self.entity, &mut entity);
        entity
    }

    pub fn empty(&self) -> (r: bool)
        ensures
            r == self@.entity is None,
    {
        self.entity.is_none()
    }

    pub fn not_empty(&self) -> (r: bool)
        ensures
            r == self@.entity is Some,
    {
        self.entity.is_some()
    }

    /// Forgets the last fetch, so that the next `load` fetches again.
    pub fn invalidate(&mut self)
        requires
            old(self).wf(),
        ensures
            final(self).wf(),
            final(self)@ == (EntityStoreView { state: TransferState::Empty, ..old(self)@ }),
    {
        self.transfer_state = TransferState::Empty;
    }

    pub fn transfer_state(&self) -> (r: TransferState)
        ensures
            r == self@.state,
    {
        self.transfer_state
    }

    pub fn set_transfer_state(&mut self, transfer_state: TransferState)
        requires
            old(self).wf(),
        ensures
            final(self).wf(),
            final(self)@ == (EntityStoreView { state: transfer_state, ..old(self)@ }),
    {
        self.transfer_state = transfer_state;
    }

    pub fn reset_transfer_error(&mut self)
        requires
            old(self).wf(),
        ensures
            final(self).wf(),
            final(self)@ == (EntityStoreView { state: old(self)@.state.spec_reset_error(), ..old(self)@ }),
    {
        self.transfer_state.reset_error();
    }

    pub fn loaded(&self) -> (r: bool)
        ensures
            r == self@.state.spec_loaded(),
    {
        self.transfer_state.loaded()
    }

    pub fn loaded_status(&self) -> (r: Option<StatusCode>)
        ensures
            r == (match self@.state {
                TransferState::Loaded(s) => Some(s),
                _ => None,
            }),
    {
        self.transfer_state.loaded_status()
    }

    pub fn stored(&self) -> (r: bool)
        ensures
            r == self@.state.spec_stored(),
    {
        self.transfer_state.stored()
    }

    pub fn stored_status(&self) -> (r: Option<StatusCode>)
        ensures
            r == (match self@.state {
                TransferState::Stored(s) => Some(s),
                _ => None,
            }),
    {
        self.transfer_state.stored_status()
    }

    pub fn pending(&self) -> (r: bool)
        ensures
            r == self@.state.spec_pending(),
    {
        self.transfer_state.pending()
    }

    pub fn entity(&self) -> (r: &Option<E>)
        ensures
            *r == self@.entity,
    {
        &self.entity
    }

    pub fn messages(&self) -> (r: &Messages)
        requires
            self.wf(),
        ensures
            r.wf(),
            r@ == self@.messages,
    {
        &self.messages
    }

    /// Replaces the messages, as client-side validation does between fetches.
    pub fn set_messages(&mut self, messages: Messages)
        requires
            messages.wf(),
        ensures
            final(self).wf(),
            final(self)@ == (EntityStoreView { messages: messages@, ..old(self)@ }),
    {
        self.messages = messages;
    }

    /// Replaces the entity, leaving the transfer state and messages alone.
    pub fn set(&mut self, entity: Option<E>)
        requires
            old(self).wf(),
        ensures
            final(self).wf(),
            final(self)@ == (EntityStoreView { entity, ..old(self)@ }),
    {
        self.entity = entity;
    }

    /// Replaces the entity with one obtained elsewhere and marks it loaded.
    pub fn set_externally_loaded(&mut self, entity: Option<E>)
        requires
            old(self).wf(),
        ensures
            final(self).wf(),
            final(self)@ == (EntityStoreView {
                entity,
                state: TransferState::Loaded(StatusCode::Okay),
                ..old(self)@
            }),
    {
        self.entity = entity;
        self.transfer_state = TransferState::Loaded(StatusCode::Okay);
    }

    /// The entity has unsaved changes and no message reports an error.
    pub fn can_commit(&self) -> (r: bool) where E: Dirty
        requires
            self.wf(),
        ensures
            r ==> self@.entity is Some && !has_error(self@.messages),
    {
        match &self.entity {
            Some(entity) => entity.is_dirty() && !self.messages.error(),
            None => false,
        }
    }

    /// Marks the fetch as pending by its intent and hands it to the transport.
    fn fetch(&mut self, request: Request) -> (r: PendingFetch)
        requires
            old(self).wf(),
        ensures
            final(self).wf(),
            r@ == started(request@, request@.is_load),
            final(self)@ == (EntityStoreView {
                state: if request@.is_load { TransferState::PendingLoad } else { TransferState::PendingStore },
                ..old(self)@
            }),
    {
        if request.is_load() {
            self.transfer_state.start_load();
        } else {
            self.transfer_state.start_store();
        }
        request.start()
    }

    /// The transport could not even start the fetch: the state becomes a
    /// failed load whatever the intent, and the callback gets BadRequest.
    pub fn fetch_not_started(&mut self) -> (r: StatusCode)
        requires
            old(self).wf(),
        ensures
            final(self).wf(),
            r == StatusCode::BadRequest,
            final(self)@ == (EntityStoreView {
                state: TransferState::Loaded(StatusCode::FetchFailed),
                ..old(self)@
            }),
    {
        self.transfer_state = TransferState::Loaded(StatusCode::FetchFailed);
        StatusCode::BadRequest
    }

    /// Loads unless a load has already succeeded: then nothing is sent and
    /// nothing changes.
    pub fn load(&mut self, request: Request) -> (r: Option<PendingFetch>)
        requires
            old(self).wf(),
        ensures
            final(self).wf(),
            r is None <==> old(self)@.state.spec_loaded(),
            r is None ==> final(self)@ == old(self)@,
            r is Some ==> r->Some_0@ == started(request@, true) && final(self)@ == (EntityStoreView {
                state: TransferState::PendingLoad,
                ..old(self)@
            }),
    {
        if self.transfer_state.loaded() {
            None
        } else {
            Some(self.load_skip_cache(request))
        }
    }

    /// Loads whatever the transfer state says.
    pub fn load_skip_cache(&mut self, request: Request) -> (r: PendingFetch)
        requires
            old(self).wf(),
        ensures
            final(self).wf(),
            r@ == started(request@, true),
            final(self)@ == (EntityStoreView { state: TransferState::PendingLoad, ..old(self)@ }),
    {
        self.fetch(request.with_is_load(true))
    }

    /// Sends serialized data of a request entity and loads the response.
    /// `payload` is `None` where there is no request entity, and otherwise
    /// the outcome of serializing it in the request's media type.
    pub fn load_with_request<MS: MacSign>(
        &mut self,
        request: Request,
        payload: Option<Result<Vec<u8>, String>>,
    ) -> (r: Option<PendingFetch>)
        requires
            old(self).wf(),
        ensures
            final(self).wf(),
            store_effect(old(self)@, final(self)@, request@, true, payload, r),
    {
        self.send_payload::<MS>(request.with_is_load(true), payload)
    }

    fn send_payload<MS: MacSign>(&mut self, request: Request, payload: Option<Result<Vec<u8>, String>>) -> (r:
        Option<PendingFetch>)
        requires
            old(self).wf(),
        ensures
            final(self).wf(),
            store_effect(old(self)@, final(self)@, request@, request@.is_load, payload, r),
    {
        if request.media_type() != Some(MediaType::Json) {
            self.messages.replace(Messages::from_service_error(UNSUPPORTED_MEDIA_TEXT));
            self.transfer_state = if request.is_load() {
                TransferState::Loaded(StatusCode::UnsupportedMediaType)
            } else {
                TransferState::Stored(StatusCode::UnsupportedMediaType)
            };
            return None;
        }
        let bytes = match payload {
            Some(Ok(bytes)) => bytes,
            _ => return None,
        };
        let ghost req = request@;
        let request = sign_and_attach::<MS>(request, bytes);
        let ghost attached = request@;
        let r = self.fetch(request);
        proof {
            let base = started(RequestView { body: Some(bytes@), ..req }, req.is_load);
            if attached != (RequestView { body: Some(bytes@), ..req }) {
                let s = choose|s: Seq<char>|
                    attached == (RequestView {
                        body: Some(bytes@),
                        headers: crate::request::pushed_header(req.headers, "Content-Signature"@, s),
                        ..req
                    });
                assert(r@ == (PendingFetchView { headers: base.headers.push(("Content-Signature"@, s)), ..base }));
            }
        }
        Some(r)
    }

    /// Stores the entity: `serialized` is the outcome of serializing it in
    /// the request's media type, and is not read when the store holds no
    /// entity.
    pub fn store<MS: MacSign>(&mut self, request: Request, serialized: Result<Vec<u8>, String>) -> (r:
        Option<PendingFetch>)
        requires
            old(self).wf(),
        ensures
            final(self).wf(),
            store_effect(
                old(self)@,
                final(self)@,
                request@,
                false,
                if old(self)@.entity is Some { Some(serialized) } else { None },
                r,
            ),
    {
        let payload = if self.entity.is_some() {
            Some(serialized)
        } else {
            None
        };
        self.send_payload::<MS>(request.with_is_load(false), payload)
    }

    /// As `store`; the response is then completed with `complete_detached`
    /// and goes to a value the caller holds.
    pub fn store_with_response<MS: MacSign>(&mut self, request: Request, serialized: Result<Vec<u8>, String>) -> (r:
        Option<PendingFetch>)
        requires
            old(self).wf(),
        ensures
            final(self).wf(),
            store_effect(
                old(self)@,
                final(self)@,
                request@,
                false,
                if old(self)@.entity is Some { Some(serialized) } else { None },
                r,
            ),
    {
        self.store::<MS>(request, serialized)
    }

    /// Sends a store-verb request without a payload of the store's own.
    pub fn execute(&mut self, request: Request) -> (r: PendingFetch)
        requires
            old(self).wf(),
        ensures
            final(self).wf(),
            r@ == started(request@, false),
            final(self)@ == (EntityStoreView { state: TransferState::PendingStore, ..old(self)@ }),
    {
        self.fetch(request.with_is_load(false))
    }

    /// As `execute`; the response is then completed with
    /// `complete_detached` and goes to a value the caller holds.
    pub fn execute_with_response(&mut self, request: Request) -> (r: PendingFetch)
        requires
            old(self).wf(),
        ensures
            final(self).wf(),
            r@ == started(request@, false),
            final(self)@ == (EntityStoreView { state: TransferState::PendingStore, ..old(self)@ }),
    {
        self.execute(request)
    }

    /// Applies a decoded response whose entity, if any, is handed back
    /// rather than stored: the messages are replaced by the response's,
    /// and the transfer state stops with the response's status.
    pub fn complete_detached<R>(&mut self, result: DecodedResponse<EntityResponse<R>>) -> (r: (StatusCode, Option<R>))
        requires
            old(self).wf(),
        ensures
            final(self).wf(),
            r.0 == result.status,
            final(self)@.state == old(self)@.state.spec_stop(result.status),
            final(self)@.entity == old(self)@.entity,
            final(self)@.messages == response_messages(
                old(self)@.messages,
                result.status,
                match result.response {
                    Some(resp) => Some(resp.spec_messages()),
                    None => None,
                },
            ),
            r.1 == match result.response {
                Some(resp) if !transfer_failure(result.status) => resp.spec_entity(),
                _ => None,
            },
    {
        let status = result.status;
        let received = match result.response {
            Some(response) => {
                if matches!(status, StatusCode::FetchTimeout | StatusCode::FetchFailed | StatusCode::DecodeFailed) {
                    None
                } else {
                    let (entity, messages) = response.take();
                    self.messages.replace(messages);
                    entity
                }
            },
            None => None,
        };
        self.transfer_state.stop(status);
        (status, received)
    }

    /// Applies a decoded response to the store: as `complete_detached`, and
    /// an entity in the response replaces the store's own.
    pub fn complete(&mut self, result: DecodedResponse<EntityResponse<E>>) -> (r: StatusCode)
        requires
            old(self).wf(),
        ensures
            final(self).wf(),
            r == result.status,
            final(self)@.state == old(self)@.state.spec_stop(result.status),
            final(self)@.messages == response_messages(
                old(self)@.messages,
                result.status,
                match result.response {
                    Some(resp) => Some(resp.spec_messages()),
                    None => None,
                },
            ),
            final(self)@.entity == match result.response {
                Some(resp) if !transfer_failure(result.status) && resp.spec_entity() is Some => resp.spec_entity(),
                _ => old(self)@.entity,
            },
    {
        let (status, received) = self.complete_detached(result);
        if received.is_some() {
            self.entity = received;
        }
        status
    }
}

impl<E> Default for EntityStore<E> {
    fn default() -> (r: EntityStore<E>)
        ensures
            r.wf(),
            r@ == (EntityStoreView { state: TransferState::Empty, messages: Seq::empty(), entity: None::<E> }),
    {
        EntityStore::new(None)
    }
}

/// Once a load has finished with a success code, a further `load` sends
/// nothing until the store is invalidated or reset.
pub proof fn lemma_loaded_store_skips_load(status: StatusCode)
    requires
        status.spec_is_success(),
    ensures
        TransferState::PendingLoad.spec_stop(status).spec_loaded(),
{
}

} // verus!
