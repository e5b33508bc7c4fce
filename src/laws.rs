use vstd::prelude::*;

use crate::creation::{MessagePost, PostAction, PostEvent};
use crate::hydration::{author_set, is_first_match, joined, paired, resolves, summary_for};
use crate::ident::{is_object_id_text, RecordId};
use crate::model::{Message, MessageWithAuthor, Topic, UserWithoutPassword};
use crate::topic_view::{fails_with, responds_with, starts, TopicView, ViewAction, ViewError, ViewEvent};

verus! {

/// Two actions of a topic view ask for the same work or hand back the same
/// result: the same topic and the same annotated messages in the same order,
/// or the same error. Author lookups are compared as sets of identifiers.
pub open spec fn same_action(a1: ViewAction, a2: ViewAction) -> bool {
    match (a1, a2) {
        (ViewAction::LoadTopic(x), ViewAction::LoadTopic(y)) => x == y,
        (ViewAction::LoadMessages(x), ViewAction::LoadMessages(y)) => x == y,
        (ViewAction::LoadAuthors(x), ViewAction::LoadAuthors(y)) => x@.to_set() == y@.to_set(),
        (ViewAction::Respond(Ok(x)), ViewAction::Respond(Ok(y))) => x.topic == y.topic
            && x.messages@ == y.messages@,
        (ViewAction::Respond(Err(x)), ViewAction::Respond(Err(y))) => x == y,
        _ => false,
    }
}

/// A page with no messages on a topic that exists gives that topic with an
/// empty sequence of messages, not an error.
pub proof fn lemma_empty_page_gives_empty_view(
    topic: Topic,
    messages: Vec<Message>,
    next: TopicView,
    action: ViewAction,
)
    requires
        messages@.len() == 0,
        (TopicView::AwaitingMessages { topic }).steps_to(
            ViewEvent::MessagesLoaded(Ok(messages)),
            next,
            action,
        ),
    ensures
        responds_with(next, action, topic, Seq::empty()),
        action matches ViewAction::Respond(Ok(v)) && v.messages@.len() == 0,
{
}

/// A topic identifier that is not in canonical form is reported as
/// `InvalidIdentifier`, never as `NotFound`, and nothing is looked up.
pub proof fn lemma_malformed_id_is_invalid(
    text: Seq<char>,
    page: u64,
    next: TopicView,
    action: ViewAction,
)
    requires
        !is_object_id_text(text),
        starts(text, page, next, action),
    ensures
        fails_with(next, action, ViewError::InvalidIdentifier),
        action != ViewAction::Respond(Err(ViewError::NotFound)),
{
}

/// A lookup that finds no topic is reported as `NotFound`.
pub proof fn lemma_absent_topic_is_not_found(
    id: RecordId,
    page: u64,
    next: TopicView,
    action: ViewAction,
)
    requires
        (TopicView::AwaitingTopic { id, page }).steps_to(
            ViewEvent::TopicLoaded(Ok(None)),
            next,
            action,
        ),
    ensures
        fails_with(next, action, ViewError::NotFound),
{
}

/// Beginning a view twice on the same input asks for the same topic.
pub proof fn lemma_start_repeatable(
    text: Seq<char>,
    page: u64,
    n1: TopicView,
    a1: ViewAction,
    n2: TopicView,
    a2: ViewAction,
)
    requires
        starts(text, page, n1, a1),
        starts(text, page, n2, a2),
    ensures
        n1 == n2,
        a1 == a2,
{
    if is_object_id_text(text) {
        let x = choose|id: RecordId|
            id.bytes@ == crate::ident::object_id_bytes(text) && n1 == (TopicView::AwaitingTopic {
                id,
                page,
            }) && a1 == ViewAction::LoadTopic(id);
        let y = choose|id: RecordId|
            id.bytes@ == crate::ident::object_id_bytes(text) && n2 == (TopicView::AwaitingTopic {
                id,
                page,
            }) && a2 == ViewAction::LoadTopic(id);
        assert(x.bytes =~= y.bytes);
    }
}

/// With no write in between, the same store answers give the same outcome:
/// each step of a view, taken twice from the same state on the same answer,
/// asks for the same work or hands back the same topic with the same messages
/// in the same order.
pub proof fn lemma_step_repeatable(
    state: TopicView,
    event: ViewEvent,
    n1: TopicView,
    a1: ViewAction,
    n2: TopicView,
    a2: ViewAction,
)
    requires
        state.awaits(event),
        state.steps_to(event, n1, a1),
        state.steps_to(event, n2, a2),
    ensures
        same_action(a1, a2),
{
}

/// The messages of a joined page are exactly the fetched messages whose
/// author resolves, in the order in which they were fetched.
pub proof fn lemma_join_keeps_order(messages: Seq<Message>, authors: Seq<UserWithoutPassword>)
    ensures
        joined(messages, authors).map_values(|p: MessageWithAuthor| p.message) == messages.filter(
            |m: Message| resolves(m, authors),
        ),
    decreases messages.len(),
{
    reveal(Seq::filter);
    if messages.len() > 0 {
        lemma_join_keeps_order(messages.drop_last(), authors);
        assert(joined(messages, authors).map_values(|p: MessageWithAuthor| p.message)
            =~= messages.filter(|m: Message| resolves(m, authors)));
    }
}

/// Where every fetched author resolves, the joined page holds every fetched
/// message, in the order of the fetch.
pub proof fn lemma_join_keeps_every_resolved_message(
    messages: Seq<Message>,
    authors: Seq<UserWithoutPassword>,
)
    requires
        forall|i: int| 0 <= i < messages.len() ==> resolves(#[trigger] messages[i], authors),
    ensures
        joined(messages, authors).map_values(|p: MessageWithAuthor| p.message) == messages,
    decreases messages.len(),
{
    reveal(Seq::filter);
    if messages.len() > 0 {
        let rest = messages.drop_last();
        assert forall|i: int| 0 <= i < rest.len() implies resolves(#[trigger] rest[i], authors) by {
            assert(rest[i] == messages[i]);
        }
        lemma_join_keeps_every_resolved_message(rest, authors);
        let last = messages.last();
        assert(resolves(messages[messages.len() - 1], authors));
        let p = paired(last, authors).unwrap();
        assert(p.message == last);
        assert(joined(messages, authors) == joined(rest, authors).push(p));
        let before = joined(rest, authors).map_values(|q: MessageWithAuthor| q.message);
        assert(before == rest);
        assert(joined(messages, authors).map_values(|q: MessageWithAuthor| q.message)
            =~= rest.push(last));
        assert(rest.push(last) =~= messages);
    }
}

/// Both messages carry a publication time, and `a`'s is not after `b`'s.
pub open spec fn published_no_later(a: Message, b: Message) -> bool {
    a.publication is Some && b.publication is Some && a.publication.unwrap()
        <= b.publication.unwrap()
}

/// Messages whose publication times never decrease along the sequence.
pub open spec fn published_in_order(s: Seq<Message>) -> bool {
    forall|i: int, j: int|
        0 <= i < j < s.len() ==> published_no_later(#[trigger] s[i], #[trigger] s[j])
}

/// A page fetched oldest first comes out of the join oldest first: the join
/// neither reverses nor shuffles it, and each pair carries a fetched message.
pub proof fn lemma_join_keeps_publication_order(
    messages: Seq<Message>,
    authors: Seq<UserWithoutPassword>,
)
    requires
        published_in_order(messages),
    ensures
        published_in_order(joined(messages, authors).map_values(|p: MessageWithAuthor| p.message)),
        forall|k: int|
            0 <= k < joined(messages, authors).len() ==> messages.contains(
                (#[trigger] joined(messages, authors)[k]).message,
            ),
    decreases messages.len(),
{
    if messages.len() > 0 {
        let rest = messages.drop_last();
        assert(published_in_order(rest)) by {
            assert forall|i: int, j: int| 0 <= i < j < rest.len() implies published_no_later(
                #[trigger] rest[i],
                #[trigger] rest[j],
            ) by {
                assert(rest[i] == messages[i] && rest[j] == messages[j]);
            }
        }
        lemma_join_keeps_publication_order(rest, authors);
        let before = joined(rest, authors);
        let after = joined(messages, authors);
        let last = messages.last();
        assert forall|k: int| 0 <= k < before.len() implies messages.contains(
            (#[trigger] before[k]).message,
        ) by {
            assert(rest.contains(before[k].message));
            let i = choose|i: int| 0 <= i < rest.len() && rest[i] == before[k].message;
            assert(messages[i] == before[k].message);
        }
        match paired(last, authors) {
            Some(p) => {
                assert(after == before.push(p));
                assert(p.message == last);
                assert(messages.contains(last)) by {
                    assert(messages[messages.len() - 1] == last);
                }
                let out = after.map_values(|q: MessageWithAuthor| q.message);
                assert forall|i: int, j: int| 0 <= i < j < out.len() implies published_no_later(
                    #[trigger] out[i],
                    #[trigger] out[j],
                ) by {
                    if j < before.len() {
                        let earlier = before.map_values(|q: MessageWithAuthor| q.message);
                        assert(out[i] == earlier[i] && out[j] == earlier[j]);
                    } else {
                        assert(out[j] == last);
                        assert(rest.contains(before[i].message));
                        let x = choose|x: int| 0 <= x < rest.len() && rest[x] == before[i].message;
                        assert(messages[x] == out[i]);
                        assert(messages[messages.len() - 1] == out[j]);
                    }
                }
                assert forall|k: int| 0 <= k < after.len() implies messages.contains(
                    (#[trigger] after[k]).message,
                ) by {
                    if k < before.len() {
                        assert(after[k] == before[k]);
                    }
                }
            },
            None => {
                assert(after == before);
            },
        }
    }
}

/// Every pair of a joined page carries the summary whose identifier is the
/// message's author, and a message whose author does not resolve (its user
/// deleted, say) is left out while the others stay: the page is as long as
/// the number of messages whose author resolves.
pub proof fn lemma_join_matches_authors(messages: Seq<Message>, authors: Seq<UserWithoutPassword>)
    ensures
        forall|i: int|
            0 <= i < joined(messages, authors).len() ==> {
                let p = #[trigger] joined(messages, authors)[i];
                &&& p.message.author == Some(p.author.id)
                &&& resolves(p.message, authors)
                &&& summary_for(authors, p.author.id) == Some(p.author)
            },
        joined(messages, authors).len() == messages.filter(|m: Message| resolves(m, authors)).len(),
    decreases messages.len(),
{
    lemma_join_keeps_order(messages, authors);
    if messages.len() > 0 {
        lemma_join_matches_authors(messages.drop_last(), authors);
        let m = messages.last();
        if let Some(a) = m.author {
            if exists|i: int| is_first_match(authors, a, i) {
                let k = choose|i: int| is_first_match(authors, a, i);
                assert(authors[k].id == a);
            }
        }
    }
    assert(joined(messages, authors).map_values(|p: MessageWithAuthor| p.message).len()
        == joined(messages, authors).len());
}

/// The author lookup of a page asks for each distinct author once: with
/// messages by exactly two distinct users, exactly two identifiers.
pub proof fn lemma_author_lookup_counts_distinct(messages: Seq<Message>, ids: Seq<RecordId>)
    requires
        ids.no_duplicates(),
        ids.to_set() == author_set(messages),
    ensures
        ids.len() == author_set(messages).len(),
{
    ids.unique_seq_to_set();
}

/// A posted message is stored with the principal as its author and the looked
/// up topic as its topic, whatever author or topic the submission carried.
pub proof fn lemma_post_author_is_principal(
    topic: RecordId,
    author: RecordId,
    to_create: Message,
    found: Topic,
    next: MessagePost,
    action: PostAction,
)
    requires
        (MessagePost::AwaitingTopic { topic, author, to_create }).steps_to(
            PostEvent::TopicLoaded(Ok(Some(found))),
            next,
            action,
        ),
    ensures
        action matches PostAction::Insert(stored) && stored.author == Some(author) && stored.topic
            == Some(topic) && stored.content == to_create.content,
{
}

} // verus!
