use vstd::prelude::*;

use crate::ident::{is_object_id_text, object_id_bytes, RecordId};
use crate::model::{Message, Topic, User};
use crate::topic_view::{StoreError, ViewError};

verus! {

/// Relies on bson's `DateTime::now` and `DateTime::timestamp_millis`: the
/// current time in milliseconds since the Unix epoch. Nothing is stated of it.
#[verifier::external_body]
fn now_millis() -> (r: i64) {
    mongodb::bson::DateTime::now().timestamp_millis()
}

impl User {
    /// The record stored for a registration: the submitted user under the
    /// identifier `id`.
    pub fn new_record(self, id: RecordId) -> (r: User)
        ensures
            r.id == Some(id),
            r.username == self.username,
            r.password == self.password,
    {
        User { id: Some(id), username: self.username, password: self.password }
    }
}

impl Topic {
    /// The record stored for a submitted topic: its title, with the author,
    /// identifier and creation time given here, whatever the submission held.
    pub fn new_record(self, author: RecordId, id: RecordId, now: i64) -> (r: Topic)
        ensures
            r.id == Some(id),
            r.author == Some(author),
            r.title == self.title,
            r.creation == Some(now),
    {
        Topic { id: Some(id), author: Some(author), title: self.title, creation: Some(now) }
    }
}

impl Message {
    /// The record stored for a submitted message: its content, with the
    /// topic, author, identifier and publication time given here, whatever the
    /// submission held.
    pub fn new_record(self, topic: RecordId, author: RecordId, id: RecordId, now: i64) -> (r:
        Message)
        ensures
            r.id == Some(id),
            r.topic == Some(topic),
            r.author == Some(author),
            r.content == self.content,
            r.publication == Some(now),
    {
        Message {
            id: Some(id),
            topic: Some(topic),
            author: Some(author),
            content: self.content,
            publication: Some(now),
        }
    }
}

/// The record to store for a registration, under a fresh identifier.
pub fn prepare_user(to_create: User) -> (r: User)
    ensures
        r.id.is_some(),
        r.username == to_create.username,
        r.password == to_create.password,
{
    to_create.new_record(RecordId::fresh())
}

/// The record to store for a topic submitted by the principal `author`: a
/// fresh identifier, the current time, and `author` as its author.
pub fn prepare_topic(to_create: Topic, author: RecordId) -> (r: Topic)
    ensures
        r.id.is_some(),
        r.creation.is_some(),
        r.author == Some(author),
        r.title == to_create.title,
{
    let id = RecordId::fresh();
    let now = now_millis();
    to_create.new_record(author, id, now)
}

/// The record to store for a message submitted by the principal `author`
/// under the topic `topic`: a fresh identifier, the current time, `topic` and
/// `author`.
pub fn prepare_message(to_create: Message, topic: RecordId, author: RecordId) -> (r: Message)
    ensures
        r.id.is_some(),
        r.publication.is_some(),
        r.topic == Some(topic),
        r.author == Some(author),
        r.content == to_create.content,
{
    let id = RecordId::fresh();
    let now = now_millis();
    to_create.new_record(topic, author, id, now)
}

/// What the caller is to do next on behalf of a message post.
#[derive(Debug)]
pub enum PostAction {
    /// Look up the topic of this identifier.
    LoadTopic(RecordId),
    /// Store this record.
    Insert(Message),
    /// The post is complete: hand this back.
    Respond(Result<Message, ViewError>),
}

/// What a store call returned.
#[derive(Debug)]
pub enum PostEvent {
    TopicLoaded(Result<Option<Topic>, StoreError>),
    Inserted(Result<(), StoreError>),
}

/// Progress of a message post by an authenticated principal.
#[derive(Debug)]
pub enum MessagePost {
    AwaitingTopic { topic: RecordId, author: RecordId, to_create: Message },
    AwaitingInsert { record: Message },
    Finished,
}

/// The first state and action of a post of `to_create` by `author` under the
/// topic whose identifier text is `text`: a lookup of that topic, or
/// `InvalidIdentifier` and no record.
pub open spec fn post_starts(
    text: Seq<char>,
    author: RecordId,
    to_create: Message,
    next: MessagePost,
    action: PostAction,
) -> bool {
    if is_object_id_text(text) {
        exists|id: RecordId|
            id.bytes@ == object_id_bytes(text) && next == (MessagePost::AwaitingTopic {
                topic: id,
                author,
                to_create,
            }) && action == PostAction::LoadTopic(id)
    } else {
        next is Finished && action == PostAction::Respond(Err(ViewError::InvalidIdentifier))
    }
}

impl MessagePost {
    /// Whether this state waits for an event of the kind of `event`.
    pub open spec fn awaits(&self, event: PostEvent) -> bool {
        match (self, event) {
            (MessagePost::AwaitingTopic { .. }, PostEvent::TopicLoaded(_)) => true,
            (MessagePost::AwaitingInsert { .. }, PostEvent::Inserted(_)) => true,
            _ => false,
        }
    }

    /// The state and action that follow `self` on `event`. A record is
    /// handed to the store only once its topic was found, and it carries that
    /// topic and the principal as its author.
    pub open spec fn steps_to(self, event: PostEvent, next: MessagePost, action: PostAction) -> bool {
        match (self, event) {
            (
                MessagePost::AwaitingTopic { topic, author, to_create },
                PostEvent::TopicLoaded(found),
            ) => match found {
                Ok(Some(_)) => match (next, action) {
                    (MessagePost::AwaitingInsert { record }, PostAction::Insert(stored)) => record
                        == stored && stored.id.is_some() && stored.publication.is_some()
                        && stored.topic == Some(topic) && stored.author == Some(author)
                        && stored.content == to_create.content,
                    _ => false,
                },
                Ok(None) => next is Finished && action == PostAction::Respond(
                    Err(ViewError::NotFound),
                ),
                Err(_) => next is Finished && action == PostAction::Respond(
                    Err(ViewError::StoreUnavailable),
                ),
            },
            (MessagePost::AwaitingInsert { record }, PostEvent::Inserted(done)) => match done {
                Ok(_) => next is Finished && action == PostAction::Respond(Ok(record)),
                Err(_) => next is Finished && action == PostAction::Respond(
                    Err(ViewError::StoreUnavailable),
                ),
            },
            _ => false,
        }
    }

    /// Begins the post of `to_create` by the principal `author` under the
    /// topic whose identifier text is `topic_id`.
    pub fn start(topic_id: &str, author: RecordId, to_create: Message) -> (r: (
        MessagePost,
        PostAction,
    ))
        ensures
            post_starts(topic_id@, author, to_create, r.0, r.1),
    {
        match RecordId::parse(topic_id) {
            Some(id) => (
                MessagePost::AwaitingTopic { topic: id, author, to_create },
                PostAction::LoadTopic(id),
            ),
            None => (MessagePost::Finished, PostAction::Respond(Err(ViewError::InvalidIdentifier))),
        }
    }

    /// Whether this state waits for an event of the kind of `event`.
    pub fn expects(&self, event: &PostEvent) -> (r: bool)
        ensures
            r == self.awaits(*event),
    {
        match (self, event) {
            (MessagePost::AwaitingTopic { .. }, PostEvent::TopicLoaded(_)) => true,
            (MessagePost::AwaitingInsert { .. }, PostEvent::Inserted(_)) => true,
            _ => false,
        }
    }

    /// Takes in the answer of the store call that this state waits for.
    pub fn step(self, event: PostEvent) -> (r: (MessagePost, PostAction))
        requires
            self.awaits(event),
        ensures
            self.steps_to(event, r.0, r.1),
    {
        match (self, event) {
            (
                MessagePost::AwaitingTopic { topic, author, to_create },
                PostEvent::TopicLoaded(found),
            ) => match found {
                Ok(Some(_)) => {
                    let record = prepare_message(to_create, topic, author);
                    let stored = record.duplicate();
                    (MessagePost::AwaitingInsert { record }, PostAction::Insert(stored))
                },
                Ok(None) => (MessagePost::Finished, PostAction::Respond(Err(ViewError::NotFound))),
                Err(_) => (
                    MessagePost::Finished,
                    PostAction::Respond(Err(ViewError::StoreUnavailable)),
                ),
            },
            (MessagePost::AwaitingInsert { record }, PostEvent::Inserted(done)) => match done {
                Ok(_) => (MessagePost::Finished, PostAction::Respond(Ok(record))),
                Err(_) => (
                    MessagePost::Finished,
                    PostAction::Respond(Err(ViewError::StoreUnavailable)),
                ),
            },
            _ => (MessagePost::Finished, PostAction::Respond(Err(ViewError::StoreUnavailable))),
        }
    }
}

} // verus!
