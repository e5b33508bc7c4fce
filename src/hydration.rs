use vstd::prelude::*;

use crate::ident::RecordId;
use crate::model::{Message, MessageWithAuthor, UserWithoutPassword};

verus! {

/// The identifiers of the authors named by the messages.
pub open spec fn author_set(messages: Seq<Message>) -> Set<RecordId> {
    Set::new(|a: RecordId| exists|i: int| 0 <= i < messages.len() && messages[i].author == Some(a))
}

/// `i` is the first position in `authors` whose identifier is `id`.
pub open spec fn is_first_match(authors: Seq<UserWithoutPassword>, id: RecordId, i: int) -> bool {
    0 <= i < authors.len() && authors[i].id == id && forall|j: int|
        0 <= j < i ==> authors[j].id != id
}

/// The summary that the identifier `id` resolves to: the first one of that
/// identifier.
pub open spec fn summary_for(authors: Seq<UserWithoutPassword>, id: RecordId) -> Option<
    UserWithoutPassword,
> {
    if exists|i: int| is_first_match(authors, id, i) {
        Some(authors[choose|i: int| is_first_match(authors, id, i)])
    } else {
        None
    }
}

/// A message paired with its author's summary, where the author resolves.
pub open spec fn paired(m: Message, authors: Seq<UserWithoutPassword>) -> Option<MessageWithAuthor> {
    match m.author {
        Some(a) => match summary_for(authors, a) {
            Some(u) => Some(MessageWithAuthor { message: m, author: u }),
            None => None,
        },
        None => None,
    }
}

/// Whether the author of `m` resolves to a summary.
pub open spec fn resolves(m: Message, authors: Seq<UserWithoutPassword>) -> bool {
    paired(m, authors).is_some()
}

/// Each message whose author resolves, paired with that author, in the order
/// of the messages; the others are left out.
pub open spec fn joined(messages: Seq<Message>, authors: Seq<UserWithoutPassword>) -> Seq<
    MessageWithAuthor,
>
    decreases messages.len(),
{
    if messages.len() == 0 {
        Seq::empty()
    } else {
        let earlier = joined(messages.drop_last(), authors);
        match paired(messages.last(), authors) {
            Some(p) => earlier.push(p),
            None => earlier,
        }
    }
}

/// The distinct author identifiers of a page of messages, each once.
pub fn distinct_authors(messages: &Vec<Message>) -> (r: Vec<RecordId>)
    ensures
        r@.no_duplicates(),
        r@.to_set() == author_set(messages@),
{
    let mut out: Vec<RecordId> = Vec::new();
    let mut i: usize = 0;
    while i < messages.len()
        invariant
            0 <= i <= messages.len(),
            out@.no_duplicates(),
            forall|a: RecordId|
                out@.contains(a) <==> exists|k: int|
                    0 <= k < i && messages@[k].author == Some(a),
        decreases messages.len() - i,
    {
        let ghost before = out@;
        if let Some(a) = messages[i].author {
            let mut seen = false;
            let mut j: usize = 0;
            while j < out.len()
                invariant
                    0 <= j <= out.len(),
                    seen == exists|k: int| 0 <= k < j && out@[k] == a,
                decreases out.len() - j,
            {
                if out[j].same_as(&a) {
                    seen = true;
                }
                j = j + 1;
            }
            if !seen {
                out.push(a);
                assert(out@ == before.push(a));
            }
            assert(out@.contains(a)) by {
                if !seen {
                    assert(out@[out@.len() - 1] == a);
                }
            }
            assert forall|b: RecordId|
                out@.contains(b) <==> exists|k: int|
                    0 <= k < i + 1 && messages@[k].author == Some(b) by {
                if exists|k: int| 0 <= k < i + 1 && messages@[k].author == Some(b) {
                    if b != a {
                        let k = choose|k: int| 0 <= k < i + 1 && messages@[k].author == Some(b);
                        assert(k < i);
                        assert(before.contains(b));
                        let m = choose|m: int| 0 <= m < before.len() && before[m] == b;
                        assert(out@[m] == b);
                    } else {
                        assert(messages@[i as int].author == Some(b));
                    }
                }
                if out@.contains(b) {
                    if b != a {
                        let m = choose|m: int| 0 <= m < out@.len() && out@[m] == b;
                        assert(before.contains(b)) by {
                            assert(before[m] == b);
                        }
                    } else {
                        assert(messages@[i as int].author == Some(b));
                    }
                }
            }
        } else {
            assert forall|b: RecordId|
                out@.contains(b) <==> exists|k: int|
                    0 <= k < i + 1 && messages@[k].author == Some(b) by {
                if exists|k: int| 0 <= k < i + 1 && messages@[k].author == Some(b) {
                    let k = choose|k: int| 0 <= k < i + 1 && messages@[k].author == Some(b);
                    assert(k < i);
                }
            }
        }
        i = i + 1;
    }
    assert(out@.to_set() =~= author_set(messages@));
    out
}

/// The summary that `id` resolves to among `authors`.
pub fn find_summary(authors: &Vec<UserWithoutPassword>, id: &RecordId) -> (r: Option<
    UserWithoutPassword,
>)
    ensures
        r == summary_for(authors@, *id),
{
    let mut i: usize = 0;
    while i < authors.len()
        invariant
            0 <= i <= authors.len(),
            forall|j: int| 0 <= j < i ==> authors@[j].id != *id,
        decreases authors.len() - i,
    {
        if authors[i].id.same_as(id) {
            proof {
                assert(is_first_match(authors@, *id, i as int));
                let k = choose|k: int| is_first_match(authors@, *id, k);
                assert(k == i) by {
                    if k < i {
                    } else if k > i {
                    }
                }
            }
            return Some(authors[i].duplicate());
        }
        i = i + 1;
    }
    None
}

/// Pairs each message with its author's summary, keeping the order of the
/// messages and leaving out each message whose author does not resolve.
pub fn join_authors(messages: &Vec<Message>, authors: &Vec<UserWithoutPassword>) -> (r: Vec<
    MessageWithAuthor,
>)
    ensures
        r@ == joined(messages@, authors@),
{
    let mut out: Vec<MessageWithAuthor> = Vec::new();
    let mut i: usize = 0;
    while i < messages.len()
        invariant
            0 <= i <= messages.len(),
            out@ == joined(messages@.subrange(0, i as int), authors@),
        decreases messages.len() - i,
    {
        let ghost prefix = messages@.subrange(0, i as int + 1);
        assert(prefix.drop_last() =~= messages@.subrange(0, i as int));
        assert(prefix.last() == messages@[i as int]);
        if let Some(a) = messages[i].author {
            match find_summary(authors, &a) {
                Some(u) => {
                    out.push(messages[i].duplicate().with_author(&u));
                },
                None => {},
            }
        }
        i = i + 1;
    }
    assert(messages@.subrange(0, messages.len() as int) =~= messages@);
    out
}

} // verus!
