use blog::post::Post;
use blog::redaction::create_redaction;
use blog::state::State;

#[test]
fn new_post_content_is_empty() {
    let post = Post::new();
    assert_eq!("", post.content());
}

#[test]
fn content_stays_hidden_while_unpublished() {
    let mut post = Post::new();
    assert_eq!("", post.content());
    post.add_text("first");
    assert_eq!("", post.content());
    post.add_text(" second");
    assert_eq!("", post.content());
    post.request_review();
    assert_eq!("", post.content());
    post.add_text(" third");
    assert_eq!("", post.content());
    post.approve();
    assert_eq!("first second third", post.content());
}

#[test]
fn request_review_is_idempotent() {
    let mut post = Post::new();
    post.add_text("pending text");
    post.request_review();
    post.request_review();
    assert_eq!("", post.content());
    post.approve();
    assert_eq!("pending text", post.content());
}

#[test]
fn approve_is_idempotent() {
    let mut post = Post::new();
    post.add_text("approved text");
    post.request_review();
    post.approve();
    assert_eq!("approved text", post.content());
    post.approve();
    assert_eq!("approved text", post.content());
}

#[test]
fn approving_a_draft_is_a_noop() {
    let mut post = Post::new();
    post.add_text("not yet reviewed");
    post.approve();
    assert_eq!("", post.content());
    post.request_review();
    post.approve();
    assert_eq!("not yet reviewed", post.content());
}

#[test]
fn redacting_a_draft_leaves_content_unchanged() {
    let mut post = Post::new();
    post.add_text("salad for lunch");
    post.redact();
    post.request_review();
    post.approve();
    assert_eq!("salad for lunch", post.content());
}

#[test]
fn redacting_in_pending_review_applies_the_rule() {
    let mut post = Post::new();
    post.add_text("salad");
    post.request_review();
    post.redact();
    assert_eq!("", post.content());
    post.approve();
    assert_eq!("=====  ", post.content());
}

#[test]
fn published_walkthrough_with_redaction() {
    let mut post = Post::new();

    post.add_text("I ate a salad for lunch today");
    assert_eq!("", post.content());

    post.request_review();
    assert_eq!("", post.content());

    post.approve();
    assert_eq!("I ate a salad for lunch today", post.content());

    post.redact();
    assert_eq!("I ate a =====  for =====  =====  ", post.content());
}

#[test]
fn redacting_a_draft_never_advances_the_state() {
    let mut post = Post::new();
    post.add_text("I am a big fan of the movie The Shining");

    post.redact();
    assert_eq!("", post.content());
}

#[test]
fn adding_text_in_pieces_matches_a_single_add() {
    let mut in_pieces = Post::new();
    in_pieces.add_text("I ate a salad");
    in_pieces.add_text(" for lunch today");

    let mut at_once = Post::new();
    at_once.add_text("I ate a salad for lunch today");

    in_pieces.request_review();
    in_pieces.approve();
    at_once.request_review();
    at_once.approve();
    assert_eq!(in_pieces.content(), at_once.content());
}

#[test]
fn state_transition_table() {
    assert_eq!(State::Draft.request_review(), State::PendingReview);
    assert_eq!(State::PendingReview.request_review(), State::PendingReview);
    assert_eq!(State::Published.request_review(), State::Published);
    assert_eq!(State::Draft.approve(), State::Draft);
    assert_eq!(State::PendingReview.approve(), State::Published);
    assert_eq!(State::Published.approve(), State::Published);
}

#[test]
fn state_redact_dispatch() {
    assert_eq!(State::Draft.redact(String::from("salad")), "salad");
    assert_eq!(State::PendingReview.redact(String::from("salad")), "=====  ");
    assert_eq!(State::Published.redact(String::from("salad")), "=====  ");
}

#[test]
fn redaction_of_empty_input_is_empty() {
    let mut out = String::new();
    create_redaction(String::new(), &mut out);
    assert_eq!("", out);
}

#[test]
fn redaction_replaces_five_byte_tokens() {
    let mut out = String::new();
    create_redaction(String::from("hi there"), &mut out);
    assert_eq!("hi =====  ", out);
}

#[test]
fn redaction_counts_bytes_not_characters() {
    let mut out = String::new();
    create_redaction(String::from("café"), &mut out);
    assert_eq!("=====  ", out);
}

#[test]
fn redaction_splits_on_any_whitespace() {
    let mut out = String::new();
    create_redaction(String::from("ab\tcde\nfghij"), &mut out);
    assert_eq!("ab cde =====  ", out);
}

#[test]
fn redaction_collapses_runs_of_whitespace() {
    let mut out = String::new();
    create_redaction(String::from("  ab   cd  "), &mut out);
    assert_eq!("ab cd ", out);
}

#[test]
fn redaction_hits_the_marker_itself_again() {
    let mut out = String::new();
    create_redaction(String::from("====="), &mut out);
    assert_eq!("=====  ", out);

    let mut again = String::new();
    create_redaction(out, &mut again);
    assert_eq!("=====  ", again);
}

#[test]
fn redaction_appends_to_existing_output() {
    let mut out = String::from("seen: ");
    create_redaction(String::from("token"), &mut out);
    assert_eq!("seen: =====  ", out);
}
