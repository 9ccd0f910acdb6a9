//! The document type: an append-only content buffer together with exactly one
//! active editorial state. Every state-sensitive operation is dispatched to
//! the current state, and the state handle the transition returns immediately
//! becomes the post's new active state.

use vstd::prelude::*;
use crate::state::State;

verus! {

/// A post with its content buffer and its single current state.
pub struct Post {
    state: State,
    content: String,
}

impl Post {
    /// The full stored content, whether or not it is visible yet.
    pub closed spec fn spec_content(self) -> Seq<char> {
        self.content@
    }

    /// The current editorial state.
    pub closed spec fn spec_state(self) -> State {
        self.state
    }

    /// What a reader of `content` sees: the stored text once Published, an
    /// empty view before.
    pub open spec fn spec_visible_content(self) -> Seq<char> {
        self.spec_state().spec_visible(self.spec_content())
    }

    /// A fresh post: Draft state, empty content.
    pub fn new() -> (post: Post)
        ensures
            post.spec_state() == State::Draft,
            post.spec_content() == Seq::<char>::empty(),
    {
        Post { state: State::Draft, content: String::new() }
    }

    /// Appends `text` to the content buffer. Allowed in every state, and never
    /// changes the state.
    pub fn add_text(&mut self, text: &str)
        ensures
            final(self).spec_state() == old(self).spec_state(),
            final(self).spec_content() == old(self).spec_content() + text@,
    {
        self.content.append(text);
    }

    /// The content as the current state permits: the stored text once
    /// Published, an empty string before.
    pub fn content(&self) -> (visible: &str)
        ensures
            visible@ == self.spec_visible_content(),
    {
        match self.state {
            State::Published => self.content.as_str(),
            State::Draft | State::PendingReview => {
                proof {
                    reveal_strlit("");
                    assert(""@ =~= Seq::<char>::empty());
                }
                ""
            },
        }
    }

    /// Advances the state by the review-request rule; the content is untouched.
    pub fn request_review(&mut self)
        ensures
            final(self).spec_state() == old(self).spec_state().spec_request_review(),
            final(self).spec_content() == old(self).spec_content(),
    {
        self.state = self.state.request_review();
    }

    /// Advances the state by the approval rule; the content is untouched.
    pub fn approve(&mut self)
        ensures
            final(self).spec_state() == old(self).spec_state().spec_approve(),
            final(self).spec_content() == old(self).spec_content(),
    {
        self.state = self.state.approve();
    }

    /// Overwrites the content with the current state's redaction of it; the
    /// state is untouched.
    pub fn redact(&mut self)
        ensures
            final(self).spec_state() == old(self).spec_state(),
            final(self).spec_content() == old(self).spec_state().spec_redact(
                old(self).spec_content(),
            ),
    {
        let new_content = self.state.redact(self.content.clone());
        self.content = new_content;
    }
}

/// However much text has been added, and however often review was requested,
/// nothing is visible until the post is Published.
pub proof fn lemma_content_hidden_unless_published(post: Post)
    requires
        post.spec_state() != State::Published,
    ensures
        post.spec_visible_content() == Seq::<char>::empty(),
{
}

/// Adding `a` and then `b` to a post's content leaves the same content as
/// adding `a + b` in a single call, so every later read agrees: appending is
/// associative on the content buffer.
pub proof fn lemma_add_text_in_pieces(content: Seq<char>, a: Seq<char>, b: Seq<char>)
    ensures
        (content + a) + b == content + (a + b),
{
    assert((content + a) + b =~= content + (a + b));
}

} // verus!
