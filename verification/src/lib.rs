//! A document that moves through a fixed set of editorial states — Draft,
//! PendingReview, Published — where the visible content and the effect of each
//! operation depend on the current state.
//!
//! The `Post` type owns an append-only content buffer and exactly one active
//! `State`. Text may be appended in any state, but a reader sees the content
//! only once the post is Published. Redaction rewrites the stored content by a
//! whitespace-token rule; in Draft it leaves the content untouched.

pub mod post;
pub mod redaction;
pub mod state;

pub use post::Post;
pub use state::State;
