//! Core of a small forum backend: identifiers, records, the credential
//! check, record construction on the write paths, and the pipeline that
//! assembles a topic with an author-annotated page of its messages.

mod ident;
mod model;
mod paging;
mod hydration;
mod topic_view;
mod authorization;
mod creation;
mod laws;

pub use ident::{hex_digit_value, is_hex_digit, is_object_id_text, object_id_bytes, RecordId};

pub use model::{Message, MessageWithAuthor, Topic, TopicWithMessages, User, UserWithoutPassword};
pub use paging::{skip_of, PageWindow, PAGE_SIZE};
pub use hydration::{
    author_set, distinct_authors, find_summary, is_first_match, join_authors, joined, paired,
    resolves, summary_for,
};
pub use topic_view::{
    fails_with, responds_with, starts, MessageQuery, StoreError, TopicView, ViewAction, ViewError,
    ViewEvent,
};
pub use authorization::{credentials_match, AuthorizationError, BasicAuthorization};
pub use creation::{
    post_starts, prepare_message, prepare_topic, prepare_user, MessagePost, PostAction, PostEvent,
};
pub use laws::{
    lemma_absent_topic_is_not_found, lemma_author_lookup_counts_distinct,
    lemma_empty_page_gives_empty_view, lemma_join_keeps_every_resolved_message,
    lemma_join_keeps_order, lemma_join_keeps_publication_order, lemma_join_matches_authors,
    lemma_malformed_id_is_invalid, lemma_post_author_is_principal, lemma_start_repeatable,
    lemma_step_repeatable, published_in_order, published_no_later, same_action,
};
