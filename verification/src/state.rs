//! The editorial state machine: Draft, PendingReview and Published, with one
//! total transition function per operation. Transitions only ever move forward
//! along Draft -> PendingReview -> Published; every other (state, operation)
//! pair is a self-loop, never an error.

use vstd::prelude::*;
use crate::redaction::create_redaction;
use crate::redaction::redaction;

verus! {

/// The states a post moves through. A tag selecting behavior; it carries no data.
#[derive(Clone, Copy, PartialEq, Eq, Structural, Debug)]
pub enum State {
    Draft,
    PendingReview,
    Published,
}

impl State {
    /// Where a review request leads: Draft advances to PendingReview; the
    /// other states keep themselves.
    pub open spec fn spec_request_review(self) -> State {
        match self {
            State::Draft => State::PendingReview,
            State::PendingReview => State::PendingReview,
            State::Published => State::Published,
        }
    }

    /// Where an approval leads: PendingReview advances to Published; the other
    /// states keep themselves. In particular approval of a Draft is a no-op.
    pub open spec fn spec_approve(self) -> State {
        match self {
            State::Draft => State::Draft,
            State::PendingReview => State::Published,
            State::Published => State::Published,
        }
    }

    /// The content a reader may see in this state: everything once Published,
    /// an empty view before.
    pub open spec fn spec_visible(self, content: Seq<char>) -> Seq<char> {
        match self {
            State::Published => content,
            State::Draft => Seq::empty(),
            State::PendingReview => Seq::empty(),
        }
    }

    /// How redaction treats content in this state: Draft leaves it unchanged;
    /// PendingReview and Published apply the redaction rule.
    pub open spec fn spec_redact(self, content: Seq<char>) -> Seq<char> {
        match self {
            State::Draft => content,
            State::PendingReview => redaction(content),
            State::Published => redaction(content),
        }
    }

    /// Consumes the current state handle and returns the state after a review
    /// request.
    pub fn request_review(self) -> (next: State)
        ensures
            next == self.spec_request_review(),
    {
        match self {
            State::Draft => State::PendingReview,
            State::PendingReview => State::PendingReview,
            State::Published => State::Published,
        }
    }

    /// Consumes the current state handle and returns the state after an
    /// approval.
    pub fn approve(self) -> (next: State)
        ensures
            next == self.spec_approve(),
    {
        match self {
            State::Draft => State::Draft,
            State::PendingReview => State::Published,
            State::Published => State::Published,
        }
    }

    /// Applies this state's redaction rule to `input`.
    pub fn redact(self, input: String) -> (out: String)
        ensures
            out@ == self.spec_redact(input@),
    {
        match self {
            State::Draft => input,
            State::PendingReview | State::Published => {
                let mut new_content = String::new();
                create_redaction(input, &mut new_content);
                proof {
                    assert(Seq::<char>::empty() + redaction(input@) =~= redaction(input@));
                }
                new_content
            },
        }
    }
}

/// Requesting review twice lands in the same state as requesting it once: the
/// second request is always a self-loop.
pub proof fn lemma_request_review_idempotent(s: State)
    ensures
        s.spec_request_review().spec_request_review() == s.spec_request_review(),
{
}

/// Approving twice lands in the same state as approving once: the second
/// approval is always a self-loop.
pub proof fn lemma_approve_idempotent(s: State)
    ensures
        s.spec_approve().spec_approve() == s.spec_approve(),
{
}

/// Requesting review never publishes: a post is Published after the request
/// only if it already was, so content becomes visible through approval alone.
pub proof fn lemma_request_review_never_publishes(s: State)
    ensures
        s.spec_request_review() == State::Published <==> s == State::Published,
{
}

/// Approval cannot skip review: on a Draft it is a no-op.
pub proof fn lemma_draft_approve_noop()
    ensures
        State::Draft.spec_approve() == State::Draft,
{
}

/// In Draft, redaction is the identity on any content.
pub proof fn lemma_draft_redact_identity(content: Seq<char>)
    ensures
        State::Draft.spec_redact(content) == content,
{
}

} // verus!
