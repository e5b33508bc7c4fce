use vstd::prelude::*;

use crate::ident::RecordId;

verus! {

/// A registered user, as stored.
#[derive(Clone, Debug)]
pub struct User {
    pub id: Option<RecordId>,
    pub username: String,
    pub password: String,
}

/// The public summary of a user: no credential.
#[derive(Clone, Debug)]
pub struct UserWithoutPassword {
    pub id: RecordId,
    pub username: String,
}

/// A topic of discussion.
#[derive(Clone, Debug)]
pub struct Topic {
    pub id: Option<RecordId>,
    pub author: Option<RecordId>,
    pub title: String,
    /// Milliseconds since the Unix epoch.
    pub creation: Option<i64>,
}

/// A message posted under a topic.
#[derive(Clone, Debug)]
pub struct Message {
    pub id: Option<RecordId>,
    pub topic: Option<RecordId>,
    pub author: Option<RecordId>,
    pub content: String,
    /// Milliseconds since the Unix epoch.
    pub publication: Option<i64>,
}

/// A message together with the summary of its author.
#[derive(Clone, Debug)]
pub struct MessageWithAuthor {
    pub message: Message,
    pub author: UserWithoutPassword,
}

/// A topic together with an ordered page of its annotated messages.
#[derive(Clone, Debug)]
pub struct TopicWithMessages {
    pub topic: Topic,
    pub messages: Vec<MessageWithAuthor>,
}

impl User {
    /// The public summary of a stored user.
    pub fn without_password(self) -> (r: UserWithoutPassword)
        requires
            self.id.is_some(),
        ensures
            r.id == self.id.unwrap(),
            r.username == self.username,
    {
        UserWithoutPassword { id: self.id.unwrap(), username: self.username }
    }
}

impl UserWithoutPassword {
    pub(crate) fn duplicate(&self) -> (r: UserWithoutPassword)
        ensures
            r == *self,
    {
        UserWithoutPassword { id: self.id, username: self.username.clone() }
    }
}

impl Message {
    /// Pairs this message with the summary of its author.
    pub fn with_author(self, author: &UserWithoutPassword) -> (r: MessageWithAuthor)
        ensures
            r.message == self,
            r.author == *author,
    {
        MessageWithAuthor { message: self, author: author.duplicate() }
    }

    pub(crate) fn duplicate(&self) -> (r: Message)
        ensures
            r == *self,
    {
        Message {
            id: self.id,
            topic: self.topic,
            author: self.author,
            content: self.content.clone(),
            publication: self.publication,
        }
    }
}

impl Topic {
    /// Wraps this topic with a page of annotated messages, in the given order.
    pub fn with_messages(self, messages: Vec<MessageWithAuthor>) -> (r: TopicWithMessages)
        ensures
            r.topic == self,
            r.messages@ == messages@,
    {
        TopicWithMessages { topic: self, messages }
    }
}

} // verus!
