use forum_core::{
    prepare_topic, Message, MessagePost, MessageQuery, PageWindow, PostAction, PostEvent,
    RecordId, StoreError, Topic, TopicView, TopicWithMessages, UserWithoutPassword, ViewAction,
    ViewError, ViewEvent,
};

fn id(n: u8) -> RecordId {
    RecordId { bytes: [n; 12] }
}

fn hex(id: &RecordId) -> String {
    id.bytes.iter().map(|b| format!("{:02x}", b)).collect()
}

fn topic(n: u8) -> Topic {
    Topic { id: Some(id(n)), author: Some(id(50)), title: "Intro".to_string(), creation: Some(1) }
}

fn message(n: u8, author: u8, publication: i64) -> Message {
    Message {
        id: Some(id(100 + n)),
        topic: Some(id(1)),
        author: Some(id(author)),
        content: format!("message {}", n),
        publication: Some(publication),
    }
}

fn down() -> StoreError {
    StoreError { detail: "connection refused".to_string() }
}

fn respond(action: ViewAction) -> Result<TopicWithMessages, ViewError> {
    match action {
        ViewAction::Respond(r) => r,
        other => panic!("expected a response, got {:?}", other),
    }
}

/// Drives a view through the store answers given, checking the queries.
fn view(page: u64, messages: Vec<Message>, authors: Vec<UserWithoutPassword>) -> TopicWithMessages {
    let (state, action) = TopicView::start(&hex(&id(1)), page);
    assert!(matches!(action, ViewAction::LoadTopic(t) if t == id(1)));
    let (state, action) = state.step(ViewEvent::TopicLoaded(Ok(Some(topic(1)))));
    match action {
        ViewAction::LoadMessages(q) => {
            assert_eq!(q, MessageQuery { topic: id(1), window: PageWindow::of_page(page) })
        }
        other => panic!("expected a message scan, got {:?}", other),
    }
    let empty = messages.is_empty();
    let (state, action) = state.step(ViewEvent::MessagesLoaded(Ok(messages)));
    if empty {
        return respond(action).expect("a view");
    }
    assert!(matches!(action, ViewAction::LoadAuthors(_)));
    let (_, action) = state.step(ViewEvent::AuthorsLoaded(Ok(authors)));
    respond(action).expect("a view")
}

#[test]
fn empty_page_gives_topic_with_no_messages() {
    let v = view(0, Vec::new(), Vec::new());
    assert_eq!(v.topic.id, Some(id(1)));
    assert!(v.messages.is_empty());
}

#[test]
fn malformed_identifier_is_invalid_not_missing() {
    for text in ["", "abc", "zzzzzzzzzzzzzzzzzzzzzzzz", "0123456789abcdef012345678"] {
        let (state, action) = TopicView::start(text, 0);
        assert!(matches!(state, TopicView::Finished));
        assert!(matches!(action, ViewAction::Respond(Err(ViewError::InvalidIdentifier))));
    }
}

#[test]
fn absent_topic_is_not_found() {
    let (state, _) = TopicView::start(&hex(&id(9)), 0);
    let (state, action) = state.step(ViewEvent::TopicLoaded(Ok(None)));
    assert!(matches!(state, TopicView::Finished));
    assert!(matches!(action, ViewAction::Respond(Err(ViewError::NotFound))));
}

#[test]
fn store_failures_are_reported_as_unavailable() {
    let (state, _) = TopicView::start(&hex(&id(1)), 0);
    let (_, action) = state.step(ViewEvent::TopicLoaded(Err(down())));
    assert!(matches!(action, ViewAction::Respond(Err(ViewError::StoreUnavailable))));

    let (state, _) = TopicView::start(&hex(&id(1)), 0);
    let (state, _) = state.step(ViewEvent::TopicLoaded(Ok(Some(topic(1)))));
    let (_, action) = state.step(ViewEvent::MessagesLoaded(Err(down())));
    assert!(matches!(action, ViewAction::Respond(Err(ViewError::StoreUnavailable))));

    let (state, _) = TopicView::start(&hex(&id(1)), 0);
    let (state, _) = state.step(ViewEvent::TopicLoaded(Ok(Some(topic(1)))));
    let (state, _) = state.step(ViewEvent::MessagesLoaded(Ok(vec![message(1, 10, 1)])));
    let (_, action) = state.step(ViewEvent::AuthorsLoaded(Err(down())));
    assert!(matches!(action, ViewAction::Respond(Err(ViewError::StoreUnavailable))));
}

#[test]
fn view_is_repeatable() {
    let messages = vec![message(1, 10, 1), message(2, 20, 2)];
    let authors = vec![
        UserWithoutPassword { id: id(10), username: "alice".to_string() },
        UserWithoutPassword { id: id(20), username: "bob".to_string() },
    ];
    let a = view(0, messages.clone(), authors.clone());
    let b = view(0, messages, authors);
    assert_eq!(format!("{:?}", a), format!("{:?}", b));
}

#[test]
fn view_keeps_publication_order() {
    let messages = vec![message(1, 10, 10), message(2, 10, 20), message(3, 10, 30)];
    let authors = vec![UserWithoutPassword { id: id(10), username: "alice".to_string() }];
    let v = view(0, messages, authors);
    let ids: Vec<Option<RecordId>> = v.messages.iter().map(|p| p.message.id).collect();
    assert_eq!(ids, vec![Some(id(101)), Some(id(102)), Some(id(103))]);
}

#[test]
fn view_asks_once_per_distinct_author() {
    let messages: Vec<Message> = (0..25u8).map(|n| message(n, if n < 5 { 10 } else { 20 }, n as i64)).collect();
    let (state, _) = TopicView::start(&hex(&id(1)), 0);
    let (state, _) = state.step(ViewEvent::TopicLoaded(Ok(Some(topic(1)))));
    let (state, action) = state.step(ViewEvent::MessagesLoaded(Ok(messages)));
    match action {
        ViewAction::LoadAuthors(ids) => {
            assert_eq!(ids.len(), 2);
            assert!(ids.contains(&id(10)) && ids.contains(&id(20)));
        }
        other => panic!("expected an author lookup, got {:?}", other),
    }
    let authors = vec![
        UserWithoutPassword { id: id(20), username: "bob".to_string() },
        UserWithoutPassword { id: id(10), username: "alice".to_string() },
    ];
    let v = respond(state.step(ViewEvent::AuthorsLoaded(Ok(authors))).1).unwrap();
    assert_eq!(v.messages.len(), 25);
    assert!(v.messages.iter().all(|p| p.message.author == Some(p.author.id)));
}

#[test]
fn view_omits_message_of_deleted_author() {
    let messages = vec![message(1, 10, 1), message(2, 30, 2), message(3, 10, 3)];
    let authors = vec![UserWithoutPassword { id: id(10), username: "alice".to_string() }];
    let v = view(0, messages, authors);
    assert_eq!(v.messages.len(), 2);
    assert_eq!(v.messages[0].message.id, Some(id(101)));
    assert_eq!(v.messages[1].message.id, Some(id(103)));
}

#[test]
fn second_page_scans_from_twenty_five() {
    let (state, _) = TopicView::start(&hex(&id(1)), 1);
    let (state, action) = state.step(ViewEvent::TopicLoaded(Ok(Some(topic(1)))));
    match action {
        ViewAction::LoadMessages(q) => {
            assert_eq!(q.window, PageWindow { skip: 25, limit: 25 });
        }
        other => panic!("expected a message scan, got {:?}", other),
    }
    let page: Vec<Message> = (25..28u8).map(|n| message(n, 10, n as i64)).collect();
    let (state, _) = state.step(ViewEvent::MessagesLoaded(Ok(page)));
    let authors = vec![UserWithoutPassword { id: id(10), username: "alice".to_string() }];
    let v = respond(state.step(ViewEvent::AuthorsLoaded(Ok(authors))).1).unwrap();
    let ids: Vec<Option<RecordId>> = v.messages.iter().map(|p| p.message.id).collect();
    assert_eq!(ids, vec![Some(id(125)), Some(id(126)), Some(id(127))]);
}

#[test]
fn expects_only_the_awaited_answer() {
    let (state, _) = TopicView::start(&hex(&id(1)), 0);
    assert!(state.expects(&ViewEvent::TopicLoaded(Ok(None))));
    assert!(!state.expects(&ViewEvent::MessagesLoaded(Ok(Vec::new()))));
    assert!(!TopicView::Finished.expects(&ViewEvent::AuthorsLoaded(Ok(Vec::new()))));
}

#[test]
fn topic_then_message_then_view() {
    let alice = id(10);
    let bob = id(20);
    let submitted = Topic { id: None, author: Some(bob), title: "Intro".to_string(), creation: None };
    let created = prepare_topic(submitted, alice);
    assert_eq!(created.author, Some(alice));
    assert_eq!(created.title, "Intro");
    assert!(created.creation.is_some());
    let topic_id = created.id.expect("an identifier");

    let payload = Message {
        id: None,
        topic: None,
        author: Some(alice),
        content: "hi".to_string(),
        publication: None,
    };
    let (post, action) = MessagePost::start(&hex(&topic_id), bob, payload);
    assert!(matches!(action, PostAction::LoadTopic(t) if t == topic_id));
    let (post, action) = post.step(PostEvent::TopicLoaded(Ok(Some(created.clone()))));
    let stored = match action {
        PostAction::Insert(m) => m,
        other => panic!("expected an insert, got {:?}", other),
    };
    assert_eq!(stored.author, Some(bob));
    assert_eq!(stored.topic, Some(topic_id));
    assert_eq!(stored.content, "hi");
    assert!(stored.publication.is_some());
    let (_, action) = post.step(PostEvent::Inserted(Ok(())));
    let posted = match action {
        PostAction::Respond(Ok(m)) => m,
        other => panic!("expected the stored message, got {:?}", other),
    };
    assert_eq!(posted.id, stored.id);

    let (state, _) = TopicView::start(&hex(&topic_id), 0);
    let (state, _) = state.step(ViewEvent::TopicLoaded(Ok(Some(created))));
    let (state, action) = state.step(ViewEvent::MessagesLoaded(Ok(vec![posted])));
    assert!(matches!(&action, ViewAction::LoadAuthors(ids) if ids == &vec![bob]));
    let authors = vec![UserWithoutPassword { id: bob, username: "bob".to_string() }];
    let v = respond(state.step(ViewEvent::AuthorsLoaded(Ok(authors))).1).unwrap();
    assert_eq!(v.topic.id, Some(topic_id));
    assert_eq!(v.messages.len(), 1);
    assert_eq!(v.messages[0].message.content, "hi");
    assert_eq!(v.messages[0].author.id, bob);
    assert_eq!(v.messages[0].author.username, "bob");
}
