use forum_core::{
    distinct_authors, find_summary, join_authors, Message, RecordId, UserWithoutPassword,
};

fn id(n: u8) -> RecordId {
    RecordId { bytes: [n; 12] }
}

fn message(n: u8, author: Option<RecordId>, publication: i64) -> Message {
    Message {
        id: Some(id(100 + n)),
        topic: Some(id(1)),
        author,
        content: format!("message {}", n),
        publication: Some(publication),
    }
}

fn summary(n: u8, name: &str) -> UserWithoutPassword {
    UserWithoutPassword { id: id(n), username: name.to_string() }
}

#[test]
fn distinct_authors_of_many_messages_by_two_users() {
    let messages: Vec<Message> = (0..25u8)
        .map(|n| message(n, Some(if n % 3 == 0 { id(10) } else { id(20) }), n as i64))
        .collect();
    let ids = distinct_authors(&messages);
    assert_eq!(ids.len(), 2);
    assert!(ids.contains(&id(10)));
    assert!(ids.contains(&id(20)));
}

#[test]
fn distinct_authors_skips_absent_authors() {
    let messages = vec![message(0, None, 1), message(1, Some(id(3)), 2), message(2, Some(id(3)), 3)];
    assert_eq!(distinct_authors(&messages), vec![id(3)]);
    assert!(distinct_authors(&Vec::new()).is_empty());
}

#[test]
fn join_pairs_every_message_with_its_author() {
    let messages: Vec<Message> = (0..25u8)
        .map(|n| message(n, Some(if n % 2 == 0 { id(10) } else { id(20) }), n as i64))
        .collect();
    let authors = vec![summary(20, "bob"), summary(10, "alice")];
    let joined = join_authors(&messages, &authors);
    assert_eq!(joined.len(), 25);
    for (n, pair) in joined.iter().enumerate() {
        assert_eq!(pair.message.id, Some(id(100 + n as u8)));
        assert_eq!(pair.message.author, Some(pair.author.id));
        let expected = if n % 2 == 0 { "alice" } else { "bob" };
        assert_eq!(pair.author.username, expected);
    }
}

#[test]
fn join_keeps_publication_order() {
    let messages = vec![message(1, Some(id(10)), 100), message(2, Some(id(20)), 200), message(3, Some(id(10)), 300)];
    let authors = vec![summary(10, "alice"), summary(20, "bob")];
    let joined = join_authors(&messages, &authors);
    let order: Vec<Option<i64>> = joined.iter().map(|p| p.message.publication).collect();
    assert_eq!(order, vec![Some(100), Some(200), Some(300)]);
}

#[test]
fn join_drops_message_of_deleted_author() {
    let messages = vec![message(1, Some(id(10)), 1), message(2, Some(id(30)), 2), message(3, Some(id(10)), 3)];
    let authors = vec![summary(10, "alice")];
    let joined = join_authors(&messages, &authors);
    assert_eq!(joined.len(), 2);
    assert_eq!(joined[0].message.id, Some(id(101)));
    assert_eq!(joined[1].message.id, Some(id(103)));
}

#[test]
fn join_drops_message_without_author() {
    let messages = vec![message(1, None, 1)];
    let authors = vec![summary(10, "alice")];
    assert!(join_authors(&messages, &authors).is_empty());
}

#[test]
fn find_summary_takes_first_match() {
    let authors = vec![summary(1, "first"), summary(2, "second"), summary(2, "again")];
    assert_eq!(find_summary(&authors, &id(2)).unwrap().username, "second");
    assert!(find_summary(&authors, &id(3)).is_none());
}
