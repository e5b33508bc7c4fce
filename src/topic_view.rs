use vstd::prelude::*;

use crate::hydration::{distinct_authors, join_authors, joined, author_set};
use crate::ident::{is_object_id_text, object_id_bytes, RecordId};
use crate::model::{Message, Topic, TopicWithMessages, UserWithoutPassword};
use crate::paging::{skip_of, PageWindow, PAGE_SIZE};

verus! {

/// Why a topic could not be viewed or posted to.
#[derive(Clone, Copy, Debug, PartialEq, Eq, Structural)]
pub enum ViewError {
    /// The topic identifier is not in the store's canonical text form.
    InvalidIdentifier,
    /// No topic has that identifier.
    NotFound,
    /// A store call failed.
    StoreUnavailable,
}

/// A failed store call, with the store's own description of it.
#[derive(Clone, Debug)]
pub struct StoreError {
    pub detail: String,
}

/// A scan of the messages of one topic, oldest publication first.
#[derive(Clone, Copy, Debug, PartialEq, Eq)]
pub struct MessageQuery {
    pub topic: RecordId,
    pub window: PageWindow,
}

/// What the caller is to do next on behalf of a topic view.
#[derive(Debug)]
pub enum ViewAction {
    /// Look up the topic of this identifier.
    LoadTopic(RecordId),
    /// Scan one page of a topic's messages.
    LoadMessages(MessageQuery),
    /// Look up the users of these identifiers, in one query.
    LoadAuthors(Vec<RecordId>),
    /// The view is complete: hand this back.
    Respond(Result<TopicWithMessages, ViewError>),
}

/// What a store call returned.
#[derive(Debug)]
pub enum ViewEvent {
    TopicLoaded(Result<Option<Topic>, StoreError>),
    MessagesLoaded(Result<Vec<Message>, StoreError>),
    AuthorsLoaded(Result<Vec<UserWithoutPassword>, StoreError>),
}

/// Progress of the assembly of one topic view.
#[derive(Debug)]
pub enum TopicView {
    AwaitingTopic { id: RecordId, page: u64 },
    AwaitingMessages { topic: Topic },
    AwaitingAuthors { topic: Topic, messages: Vec<Message> },
    Finished,
}

/// `action` hands back the error `e`, and `next` is final.
pub open spec fn fails_with(next: TopicView, action: ViewAction, e: ViewError) -> bool {
    next is Finished && action == ViewAction::Respond(Err(e))
}

/// `action` hands back `topic` with the annotated messages `entries`, and
/// `next` is final.
pub open spec fn responds_with(
    next: TopicView,
    action: ViewAction,
    topic: Topic,
    entries: Seq<crate::model::MessageWithAuthor>,
) -> bool {
    next is Finished && match action {
        ViewAction::Respond(Ok(v)) => v.topic == topic && v.messages@ == entries,
        _ => false,
    }
}

/// The first state and action of a view of the topic whose identifier text is
/// `text`, page `page`.
pub open spec fn starts(text: Seq<char>, page: u64, next: TopicView, action: ViewAction) -> bool {
    if is_object_id_text(text) {
        exists|id: RecordId|
            id.bytes@ == object_id_bytes(text) && next == (TopicView::AwaitingTopic { id, page })
                && action == ViewAction::LoadTopic(id)
    } else {
        fails_with(next, action, ViewError::InvalidIdentifier)
    }
}

impl TopicView {
    /// Whether this state waits for an event of the kind of `event`.
    pub open spec fn awaits(&self, event: ViewEvent) -> bool {
        match (self, event) {
            (TopicView::AwaitingTopic { .. }, ViewEvent::TopicLoaded(_)) => true,
            (TopicView::AwaitingMessages { .. }, ViewEvent::MessagesLoaded(_)) => true,
            (TopicView::AwaitingAuthors { .. }, ViewEvent::AuthorsLoaded(_)) => true,
            _ => false,
        }
    }

    /// The state and action that follow `self` on `event`.
    pub open spec fn steps_to(self, event: ViewEvent, next: TopicView, action: ViewAction) -> bool {
        match (self, event) {
            (TopicView::AwaitingTopic { id, page }, ViewEvent::TopicLoaded(found)) => match found {
                Ok(Some(topic)) => next == (TopicView::AwaitingMessages { topic })
                    && action == ViewAction::LoadMessages(
                    MessageQuery { topic: id, window: PageWindow { skip: skip_of(page), limit: PAGE_SIZE } },
                ),
                Ok(None) => fails_with(next, action, ViewError::NotFound),
                Err(_) => fails_with(next, action, ViewError::StoreUnavailable),
            },
            (TopicView::AwaitingMessages { topic }, ViewEvent::MessagesLoaded(found)) => match found {
                Ok(messages) => if messages@.len() == 0 {
                    responds_with(next, action, topic, Seq::empty())
                } else {
                    match (next, action) {
                        (
                            TopicView::AwaitingAuthors { topic: t, messages: kept },
                            ViewAction::LoadAuthors(ids),
                        ) => t == topic && kept@ == messages@ && ids@.no_duplicates()
                            && ids@.to_set() == author_set(messages@),
                        _ => false,
                    }
                },
                Err(_) => fails_with(next, action, ViewError::StoreUnavailable),
            },
            (TopicView::AwaitingAuthors { topic, messages }, ViewEvent::AuthorsLoaded(found)) => match found {
                Ok(authors) => responds_with(next, action, topic, joined(messages@, authors@)),
                Err(_) => fails_with(next, action, ViewError::StoreUnavailable),
            },
            _ => false,
        }
    }

    /// Begins the view of page `page` of the topic whose identifier text is
    /// `topic_id`.
    pub fn start(topic_id: &str, page: u64) -> (r: (TopicView, ViewAction))
        ensures
            starts(topic_id@, page, r.0, r.1),
    {
        match RecordId::parse(topic_id) {
            Some(id) => (TopicView::AwaitingTopic { id, page }, ViewAction::LoadTopic(id)),
            None => (TopicView::Finished, ViewAction::Respond(Err(ViewError::InvalidIdentifier))),
        }
    }

    /// Whether this state waits for an event of the kind of `event`.
    pub fn expects(&self, event: &ViewEvent) -> (r: bool)
        ensures
            r == self.awaits(*event),
    {
        match (self, event) {
            (TopicView::AwaitingTopic { .. }, ViewEvent::TopicLoaded(_)) => true,
            (TopicView::AwaitingMessages { .. }, ViewEvent::MessagesLoaded(_)) => true,
            (TopicView::AwaitingAuthors { .. }, ViewEvent::AuthorsLoaded(_)) => true,
            _ => false,
        }
    }

    /// Takes in the answer of the store call that this state waits for.
    pub fn step(self, event: ViewEvent) -> (r: (TopicView, ViewAction))
        requires
            self.awaits(event),
        ensures
            self.steps_to(event, r.0, r.1),
    {
        match (self, event) {
            (TopicView::AwaitingTopic { id, page }, ViewEvent::TopicLoaded(found)) => match found {
                Ok(Some(topic)) => (
                    TopicView::AwaitingMessages { topic },
                    ViewAction::LoadMessages(MessageQuery { topic: id, window: PageWindow::of_page(page) }),
                ),
                Ok(None) => (TopicView::Finished, ViewAction::Respond(Err(ViewError::NotFound))),
                Err(_) => (TopicView::Finished, ViewAction::Respond(Err(ViewError::StoreUnavailable))),
            },
            (TopicView::AwaitingMessages { topic }, ViewEvent::MessagesLoaded(found)) => match found {
                Ok(messages) => if messages.len() == 0 {
                    (TopicView::Finished, ViewAction::Respond(Ok(topic.with_messages(Vec::new()))))
                } else {
                    let ids = distinct_authors(&messages);
                    (TopicView::AwaitingAuthors { topic, messages }, ViewAction::LoadAuthors(ids))
                },
                Err(_) => (TopicView::Finished, ViewAction::Respond(Err(ViewError::StoreUnavailable))),
            },
            (TopicView::AwaitingAuthors { topic, messages }, ViewEvent::AuthorsLoaded(found)) => match found {
                Ok(authors) => {
                    let entries = join_authors(&messages, &authors);
                    (TopicView::Finished, ViewAction::Respond(Ok(topic.with_messages(entries))))
                },
                Err(_) => (TopicView::Finished, ViewAction::Respond(Err(ViewError::StoreUnavailable))),
            },
            _ => (TopicView::Finished, ViewAction::Respond(Err(ViewError::StoreUnavailable))),
        }
    }
}

} // verus!
