use vstd::prelude::*;

use crate::collectionstate::{CollectionState, collection_state, spec_collection_state};
use crate::entity::{UNSUPPORTED_MEDIA_TEXT, response_messages, sign_and_attach, signed_with_body, started, transfer_failure, unsupported_media_messages};
use crate::fetch::{DecodedResponse, PendingFetch, PendingFetchView};
use crate::mac::MacSign;
use crate::mediatype::MediaType;
use crate::messages::{CategoryView, Messages};
use crate::request::{Request, RequestView};
use crate::statuscode::StatusCode;
use crate::transferstate::TransferState;
use crate::transport::{CollectionResponse, Paging, PagingView, default_paging};

verus! {

/// A collection store as a value.
pub struct CollectionStoreView<E> {
    pub state: TransferState,
    pub messages: Seq<CategoryView>,
    pub paging: PagingView,
    pub collection: Seq<E>,
}

/// An ordered collection with paging metadata, coupled to the fetches that
/// load it and store it whole. As with `EntityStore`, the methods that start
/// a fetch return what to send, and `complete` applies the response and
/// moves the transfer state to its terminal form before the status is
/// handed to the caller's callback.
pub struct CollectionStore<E> {
    transfer_state: TransferState,
    messages: Messages,
    paging: Paging,
    collection: Vec<E>,
}

impl<E> View for CollectionStore<E> {
    type V = CollectionStoreView<E>;

    closed spec fn view(&self) -> CollectionStoreView<E> {
        CollectionStoreView {
            state: self.transfer_state,
            messages: self.messages@,
            paging: self.paging@,
            collection: self.collection@,
        }
    }
}

/// What storing a collection does: a non-empty collection needs a supported
/// media type (else a service error is recorded and the state becomes
/// `Stored(UnsupportedMediaType)`) and its serialization (else nothing is sent), and
/// goes as the signed body; an empty collection is sent without body or
/// signature. The state is then a pending store.
pub open spec fn collection_store_effect<E>(
    before: CollectionStoreView<E>,
    after: CollectionStoreView<E>,
    req: RequestView,
    serialized: Result<Vec<u8>, String>,
    r: Option<PendingFetch>,
) -> bool {
    let pending = CollectionStoreView { state: TransferState::PendingStore, ..before };
    if before.collection.len() == 0 {
        r is Some && r->Some_0@ == started(req, false) && after == pending
    } else if req.media_type != Some(MediaType::Json) {
        r is None && after == (CollectionStoreView {
            messages: unsupported_media_messages(),
            state: TransferState::Stored(StatusCode::UnsupportedMediaType),
            ..before
        })
    } else {
        match serialized {
            Ok(bytes) => r is Some && signed_with_body(req, false, bytes@, r->Some_0@) && after == pending,
            Err(_) => r is None && after == before,
        }
    }
}

impl<E> CollectionStore<E> {
    pub closed spec fn wf(&self) -> bool {
        self.messages.wf()
    }

    /// An empty collection with nothing fetched.
    pub fn new_empty() -> (r: CollectionStore<E>)
        ensures
            r.wf(),
            r@ == (CollectionStoreView {
                state: TransferState::Empty,
                messages: Seq::empty(),
                paging: default_paging(),
                collection: Seq::<E>::empty(),
            }),
    {
        CollectionStore::new_value(Vec::new())
    }

    /// The given collection with nothing fetched.
    pub fn new_value(collection: Vec<E>) -> (r: CollectionStore<E>)
        ensures
            r.wf(),
            r@ == (CollectionStoreView {
                state: TransferState::Empty,
                messages: Seq::empty(),
                paging: default_paging(),
                collection: collection@,
            }),
    {
        CollectionStore {
            transfer_state: TransferState::Empty,
            messages: Messages::new(),
            paging: Paging::default(),
            collection,
        }
    }

    /// Back to an empty collection with nothing fetched.
    pub fn reset_to_empty(&mut self)
        ensures
            final(self).wf(),
            final(self)@ == (CollectionStoreView {
                state: TransferState::Empty,
                messages: Seq::empty(),
                paging: default_paging(),
                collection: Seq::<E>::empty(),
            }),
    {
        self.transfer_state = TransferState::Empty;
        self.messages.clear_all();
        self.paging = Paging::default();
        self.reset();
    }

    /// Empties the collection, leaving the rest alone.
    pub fn reset(&mut self)
        ensures
            final(self)@ == (CollectionStoreView { collection: Seq::<E>::empty(), ..old(self)@ }),
            old(self).wf() ==> final(self).wf(),
    {
        self.collection.clear();
    }

    /// Forgets the last fetch, so that the next `load` fetches again.
    pub fn invalidate(&mut self)
        requires
            old(self).wf(),
        ensures
            final(self).wf(),
            final(self)@ == (CollectionStoreView { state: TransferState::Empty, ..old(self)@ }),
    {
        self.transfer_state = TransferState::Empty;
    }

    pub fn transfer_state(&self) -> (r: TransferState)
        ensures
            r == self@.state,
    {
        self.transfer_state
    }

    pub fn set_transfer_state(&mut self, transfer_state: TransferState)
        requires
            old(self).wf(),
        ensures
            final(self).wf(),
            final(self)@ == (CollectionStoreView { state: transfer_state, ..old(self)@ }),
    {
        self.transfer_state = transfer_state;
    }

    pub fn reset_transfer_error(&mut self)
        requires
            old(self).wf(),
        ensures
            final(self).wf(),
            final(self)@ == (CollectionStoreView { state: old(self)@.state.spec_reset_error(), ..old(self)@ }),
    {
        self.transfer_state.reset_error();
    }

    pub fn loaded(&self) -> (r: bool)
        ensures
            r == self@.state.spec_loaded(),
    {
        self.transfer_state.loaded()
    }

    pub fn loaded_status(&self) -> (r: Option<StatusCode>)
        ensures
            r == (match self@.state {
                TransferState::Loaded(s) => Some(s),
                _ => None,
            }),
    {
        self.transfer_state.loaded_status()
    }

    pub fn stored(&self) -> (r: bool)
        ensures
            r == self@.state.spec_stored(),
    {
        self.transfer_state.stored()
    }

    pub fn stored_status(&self) -> (r: Option<StatusCode>)
        ensures
            r == (match self@.state {
                TransferState::Stored(s) => Some(s),
                _ => None,
            }),
    {
        self.transfer_state.stored_status()
    }

    pub fn pending(&self) -> (r: bool)
        ensures
            r == self@.state.spec_pending(),
    {
        self.transfer_state.pending()
    }

    pub fn collection(&self) -> (r: &Vec<E>)
        ensures
            r@ == self@.collection,
    {
        &self.collection
    }

    pub fn messages(&self) -> (r: &Messages)
        requires
            self.wf(),
        ensures
            r.wf(),
            r@ == self@.messages,
    {
        &self.messages
    }

    /// Replaces the messages, as client-side validation does between fetches.
    pub fn set_messages(&mut self, messages: Messages)
        requires
            messages.wf(),
        ensures
            final(self).wf(),
            final(self)@ == (CollectionStoreView { messages: messages@, ..old(self)@ }),
    {
        self.messages = messages;
    }

    pub fn paging(&self) -> (r: &Paging)
        ensures
            r@ == self@.paging,
    {
        &self.paging
    }

    pub fn is_empty(&self) -> (r: bool)
        ensures
            r == (self@.collection.len() == 0),
    {
        self.collection.len() == 0
    }

    /// Pending while a fetch runs, otherwise empty or not by the collection.
    pub fn collection_state(&self) -> (r: CollectionState)
        ensures
            r == spec_collection_state(self@.state.spec_pending(), self@.collection.len() == 0),
    {
        collection_state(self.transfer_state.pending(), self.collection.len() == 0)
    }

    /// Replaces the whole collection, returning the one held before.
    pub fn replace(&mut self, values: Vec<E>) -> (r: Vec<E>)
        requires
            old(self).wf(),
        ensures
            final(self).wf(),
            r@ == old(self)@.collection,
            final(self)@ == (CollectionStoreView { collection: values@, ..old(self)@ }),
    {
        let mut values = values;
        std::mem::swap(&mut self.collection, &mut values);
        values
    }

    /// Marks the fetch as pending by its intent and hands it to the transport.
    fn fetch(&mut self, request: Request) -> (r: PendingFetch)
        requires
            old(self).wf(),
        ensures
            final(self).wf(),
            r@ == started(request@, request@.is_load),
            final(self)@ == (CollectionStoreView {
                state: if request@.is_load { TransferState::PendingLoad } else { TransferState::PendingStore },
                ..old(self)@
            }),
    {
        if request.is_load() {
            self.transfer_state.start_load();
        } else {
            self.transfer_state.start_store();
        }
        request.start()
    }

    /// The transport could not even start the fetch: the state becomes a
    /// failed load whatever the intent, and the callback gets BadRequest.
    pub fn fetch_not_started(&mut self) -> (r: StatusCode)
        requires
            old(self).wf(),
        ensures
            final(self).wf(),
            r == StatusCode::BadRequest,
            final(self)@ == (CollectionStoreView {
                state: TransferState::Loaded(StatusCode::FetchFailed),
                ..old(self)@
            }),
    {
        self.transfer_state = TransferState::Loaded(StatusCode::FetchFailed);
        StatusCode::BadRequest
    }

    /// Loads unless a load has already succeeded: then nothing is sent and
    /// nothing changes.
    pub fn load(&mut self, request: Request) -> (r: Option<PendingFetch>)
        requires
            old(self).wf(),
        ensures
            final(self).wf(),
            r is None <==> old(self)@.state.spec_loaded(),
            r is None ==> final(self)@ == old(self)@,
            r is Some ==> r->Some_0@ == started(request@, true) && final(self)@ == (CollectionStoreView {
                state: TransferState::PendingLoad,
                ..old(self)@
            }),
    {
        if self.transfer_state.loaded() {
            None
        } else {
            Some(self.load_skip_cache(request))
        }
    }

    /// Loads whatever the transfer state says.
    pub fn load_skip_cache(&mut self, request: Request) -> (r: PendingFetch)
        requires
            old(self).wf(),
        ensures
            final(self).wf(),
            r@ == started(request@, true),
            final(self)@ == (CollectionStoreView { state: TransferState::PendingLoad, ..old(self)@ }),
    {
        self.fetch(request.with_is_load(true))
    }

    /// Stores the whole collection: `serialized` is the outcome of
    /// serializing it in the request's media type, and is not read when the
    /// collection is empty.
    pub fn store<MS: MacSign>(&mut self, request: Request, serialized: Result<Vec<u8>, String>) -> (r:
        Option<PendingFetch>)
        requires
            old(self).wf(),
        ensures
            final(self).wf(),
            collection_store_effect(old(self)@, final(self)@, request@, serialized, r),
    {
        let ghost req = request@;
        let request = request.with_is_load(false);
        if self.collection.len() == 0 {
            return Some(self.fetch(request));
        }
        if request.media_type() != Some(MediaType::Json) {
            self.messages.replace(Messages::from_service_error(UNSUPPORTED_MEDIA_TEXT));
            self.transfer_state = TransferState::Stored(StatusCode::UnsupportedMediaType);
            return None;
        }
        let bytes = match serialized {
            Ok(bytes) => bytes,
            Err(_) => return None,
        };
        let ghost unsigned = request@;
        let request = sign_and_attach::<MS>(request, bytes);
        let ghost attached = request@;
        let r = self.fetch(request);
        proof {
            let base = started(RequestView { body: Some(bytes@), ..req }, false);
            if attached != (RequestView { body: Some(bytes@), ..unsigned }) {
                let s = choose|s: Seq<char>|
                    attached == (RequestView {
                        body: Some(bytes@),
                        headers: crate::request::pushed_header(unsigned.headers, "Content-Signature"@, s),
                        ..unsigned
                    });
                assert(r@ == (PendingFetchView { headers: base.headers.push(("Content-Signature"@, s)), ..base }));
            }
        }
        Some(r)
    }

    /// Applies a decoded response: the messages are replaced by the
    /// response's, a collection in it replaces the local one in server
    /// order, the paging is replaced by the response's, and the transfer
    /// state stops with the response's status.
    pub fn complete(&mut self, result: DecodedResponse<CollectionResponse<E>>) -> (r: StatusCode)
        requires
            old(self).wf(),
        ensures
            final(self).wf(),
            r == result.status,
            final(self)@.state == old(self)@.state.spec_stop(result.status),
            final(self)@.messages == response_messages(
                old(self)@.messages,
                result.status,
                match result.response {
                    Some(resp) => Some(resp.spec_messages()),
                    None => None,
                },
            ),
            final(self)@.collection == match result.response {
                Some(resp) if !transfer_failure(result.status) && resp.spec_collection() is Some =>
                    resp.spec_collection()->Some_0,
                _ => old(self)@.collection,
            },
            final(self)@.paging == match result.response {
                Some(resp) if !transfer_failure(result.status) => resp.spec_paging(),
                _ => old(self)@.paging,
            },
    {
        let status = result.status;
        match result.response {
            Some(response) => {
                if !matches!(status, StatusCode::FetchTimeout | StatusCode::FetchFailed | StatusCode::DecodeFailed) {
                    let (collection, messages, paging) = response.take();
                    self.messages.replace(messages);
                    match collection {
                        Some(c) => {
                            self.collection = c;
                        },
                        None => {},
                    }
                    self.paging = paging;
                }
            },
            None => {},
        }
        self.transfer_state.stop(status);
        status
    }
}

impl<E> Default for CollectionStore<E> {
    fn default() -> (r: CollectionStore<E>)
        ensures
            r.wf(),
            r@ == (CollectionStoreView {
                state: TransferState::Empty,
                messages: Seq::empty(),
                paging: default_paging(),
                collection: Seq::<E>::empty(),
            }),
    {
        CollectionStore::new_empty()
    }
}

} // verus!
