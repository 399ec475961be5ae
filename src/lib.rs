use vstd::prelude::*;

pub mod collection;
pub mod collectionstate;
pub mod entity;
pub mod fetch;
pub mod mac;
pub mod mediatype;
pub mod messages;
pub mod new_dirty;
pub mod request;
pub mod statuscode;
pub mod transferstate;
pub mod transport;

pub use crate::collection::CollectionStore;
pub use crate::collectionstate::CollectionState;
pub use crate::entity::EntityStore;
pub use crate::fetch::{
    Completion, DecodedResponse, FetchDeserializable, PendingFetch, RawResponse, TransportOutcome, decode_content,
    execute_fetch, none,
};
pub use crate::mac::{MacSign, MacVerify, NoMac};
pub use crate::mediatype::MediaType;
pub use crate::messages::{Message, MessageType, Messages};
pub use crate::new_dirty::{Dirty, New};
pub use crate::request::{HEADER_SIGNATURE, HEADER_WANTS_RESPONSE, Method, Request};
pub use crate::statuscode::StatusCode;
pub use crate::transferstate::TransferState;
pub use crate::transport::{CollectionResponse, EntityResponse, Paging};

verus! {

} // verus!
