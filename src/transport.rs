use vstd::prelude::*;

use crate::messages::{
    CategoryView, Message, Messages, absorbed_all, categories_view, lemma_absorb_distinct,
};

verus! {

/// Size of a page when the server names none.
pub const DEFAULT_PAGE_LIMIT: usize = 25;

/// Paging metadata of a collection: the page size and the tokens of the
/// neighbouring pages.
pub struct Paging {
    limit: usize,
    prev: Option<String>,
    next: Option<String>,
}

pub open spec fn text_view(t: Option<String>) -> Option<Seq<char>> {
    match t {
        Some(s) => Some(s@),
        None => None,
    }
}

/// Paging as a value.
pub struct PagingView {
    pub limit: usize,
    pub prev: Option<Seq<char>>,
    pub next: Option<Seq<char>>,
}

impl View for Paging {
    type V = PagingView;

    closed spec fn view(&self) -> PagingView {
        PagingView { limit: self.limit, prev: text_view(self.prev), next: text_view(self.next) }
    }
}

pub open spec fn default_paging() -> PagingView {
    PagingView { limit: DEFAULT_PAGE_LIMIT, prev: None, next: None }
}

impl Default for Paging {
    fn default() -> (r: Paging)
        ensures
            r@ == default_paging(),
    {
        Paging { limit: DEFAULT_PAGE_LIMIT, prev: None, next: None }
    }
}

impl Paging {
    pub fn new(limit: usize, prev: Option<String>, next: Option<String>) -> (r: Paging)
        ensures
            r@ == (PagingView { limit, prev: text_view(prev), next: text_view(next) }),
    {
        Paging { limit, prev, next }
    }

    pub fn limit(&self) -> (r: usize)
        ensures
            r == self@.limit,
    {
        self.limit
    }

    pub fn prev(&self) -> (r: Option<&str>)
        ensures
            match r {
                Some(s) => self@.prev == Some(s@),
                None => self@.prev is None,
            },
    {
        match &self.prev {
            Some(s) => Some(s.as_str()),
            None => None,
        }
    }

    pub fn next(&self) -> (r: Option<&str>)
        ensures
            match r {
                Some(s) => self@.next == Some(s@),
                None => self@.next is None,
            },
    {
        match &self.next {
            Some(s) => Some(s.as_str()),
            None => None,
        }
    }
}

/// The envelope of a response about one entity: messages by category and,
/// optionally, the entity.
pub struct EntityResponse<E> {
    messages: Vec<(String, Vec<Message>)>,
    entity: Option<E>,
}

impl<E> EntityResponse<E> {
    pub closed spec fn spec_messages(&self) -> Seq<CategoryView> {
        categories_view(self.messages@)
    }

    pub closed spec fn spec_entity(&self) -> Option<E> {
        self.entity
    }

    /// An envelope with these messages and no entity.
    pub fn new(messages: Messages) -> (r: EntityResponse<E>)
        ensures
            r.spec_messages() == messages@,
            r.spec_entity() is None,
    {
        EntityResponse { messages: messages.into_inner(), entity: None }
    }

    /// An envelope read from its parts: categories in order, and the entity.
    pub fn from_parts(messages: Vec<(String, Vec<Message>)>, entity: Option<E>) -> (r: EntityResponse<E>)
        ensures
            r.spec_messages() == categories_view(messages@),
            r.spec_entity() == entity,
    {
        EntityResponse { messages, entity }
    }

    pub fn with_entity(self, entity: E) -> (r: EntityResponse<E>)
        ensures
            r.spec_messages() == self.spec_messages(),
            r.spec_entity() == Some(entity),
    {
        EntityResponse { messages: self.messages, entity: Some(entity) }
    }

    /// The entity and the messages of the envelope.
    pub fn take(self) -> (r: (Option<E>, Messages))
        ensures
            r.0 == self.spec_entity(),
            r.1.wf(),
            r.1@ == absorbed_all(Seq::<CategoryView>::empty(), self.spec_messages()),
    {
        (self.entity, Messages::from_inner(self.messages))
    }

    /// The parts of the envelope, as `from_parts` takes them.
    pub fn into_parts(self) -> (r: (Vec<(String, Vec<Message>)>, Option<E>))
        ensures
            categories_view(r.0@) == self.spec_messages(),
            r.1 == self.spec_entity(),
    {
        (self.messages, self.entity)
    }
}

/// The envelope of a response about a collection: messages by category,
/// paging, and optionally the collection in server order.
pub struct CollectionResponse<E> {
    messages: Vec<(String, Vec<Message>)>,
    paging: Paging,
    collection: Option<Vec<E>>,
}

impl<E> CollectionResponse<E> {
    pub closed spec fn spec_messages(&self) -> Seq<CategoryView> {
        categories_view(self.messages@)
    }

    pub closed spec fn spec_paging(&self) -> PagingView {
        self.paging@
    }

    pub closed spec fn spec_collection(&self) -> Option<Seq<E>> {
        match self.collection {
            Some(c) => Some(c@),
            None => None,
        }
    }

    /// An envelope with these messages, default paging and no collection.
    pub fn new(messages: Messages) -> (r: CollectionResponse<E>)
        ensures
            r.spec_messages() == messages@,
            r.spec_paging() == default_paging(),
            r.spec_collection() is None,
    {
        CollectionResponse { messages: messages.into_inner(), paging: Paging::default(), collection: None }
    }

    /// An envelope read from its parts.
    pub fn from_parts(
        messages: Vec<(String, Vec<Message>)>,
        paging: Paging,
        collection: Option<Vec<E>>,
    ) -> (r: CollectionResponse<E>)
        ensures
            r.spec_messages() == categories_view(messages@),
            r.spec_paging() == paging@,
            r.spec_collection() == match collection {
                Some(c) => Some(c@),
                None => None::<Seq<E>>,
            },
    {
        CollectionResponse { messages, paging, collection }
    }

    pub fn with_collection(self, collection: Vec<E>) -> (r: CollectionResponse<E>)
        ensures
            r.spec_messages() == self.spec_messages(),
            r.spec_paging() == self.spec_paging(),
            r.spec_collection() == Some(collection@),
    {
        CollectionResponse { messages: self.messages, paging: self.paging, collection: Some(collection) }
    }

    pub fn with_paging(self, paging: Paging) -> (r: CollectionResponse<E>)
        ensures
            r.spec_messages() == self.spec_messages(),
            r.spec_paging() == paging@,
            r.spec_collection() == self.spec_collection(),
    {
        CollectionResponse { messages: self.messages, paging, collection: self.collection }
    }

    /// The collection, the messages and the paging of the envelope.
    pub fn take(self) -> (r: (Option<Vec<E>>, Messages, Paging))
        ensures
            match r.0 {
                Some(c) => self.spec_collection() == Some(c@),
                None => self.spec_collection() is None,
            },
            r.1.wf(),
            r.1@ == absorbed_all(Seq::<CategoryView>::empty(), self.spec_messages()),
            r.2@ == self.spec_paging(),
    {
        (self.collection, Messages::from_inner(self.messages), self.paging)
    }

    /// The parts of the envelope, as `from_parts` takes them.
    pub fn into_parts(self) -> (r: (Vec<(String, Vec<Message>)>, Paging, Option<Vec<E>>))
        ensures
            categories_view(r.0@) == self.spec_messages(),
            r.1@ == self.spec_paging(),
            match r.2 {
                Some(c) => self.spec_collection() == Some(c@),
                None => self.spec_collection() is None,
            },
    {
        (self.messages, self.paging, self.collection)
    }
}

/// Putting messages into a response envelope and taking them out again
/// gives back the same categories, each with its messages in order.
pub proof fn lemma_envelope_round_trip<E>(m: Messages, r: EntityResponse<E>, c: CollectionResponse<E>)
    requires
        m.wf(),
        r.spec_messages() == m@,
        c.spec_messages() == m@,
    ensures
        absorbed_all(Seq::<CategoryView>::empty(), r.spec_messages()) == m@,
        absorbed_all(Seq::<CategoryView>::empty(), c.spec_messages()) == m@,
{
    m.lemma_unique_keys();
    lemma_absorb_distinct(m@);
}

} // verus!
