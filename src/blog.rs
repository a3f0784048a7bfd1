//! A blog post that moves through review states.
use vstd::prelude::*;
use vstd::string::StringExecFns;

verus! {

/// The stage a post is at.
#[derive(Clone, Copy, Debug, PartialEq, Eq, Structural)]
pub enum PostState {
    Draft,
    PendingReview,
    Published,
}

impl PostState {
    /// A draft goes to review; a post under review or published stays where it is.
    pub open spec fn after_review_request(self) -> PostState {
        match self {
            PostState::Draft => PostState::PendingReview,
            other => other,
        }
    }

    /// Approval leaves every stage as it is.
    pub open spec fn after_approval(self) -> PostState {
        self
    }

    fn request_review(self) -> (r: PostState)
        ensures
            r == self.after_review_request(),
    {
        match self {
            PostState::Draft => PostState::PendingReview,
            PostState::PendingReview => PostState::PendingReview,
            PostState::Published => PostState::Published,
        }
    }

    fn approve(self) -> (r: PostState)
        ensures
            r == self.after_approval(),
    {
        self
    }
}

/// A post: its text and its stage.
pub struct Post {
    state: PostState,
    content: String,
}

impl Post {
    /// The stage the post is at.
    pub closed spec fn stage(&self) -> PostState {
        self.state
    }

    /// The text written so far.
    pub closed spec fn text(&self) -> Seq<char> {
        self.content@
    }

    /// An empty draft.
    pub fn new() -> (r: Post)
        ensures
            r.stage() == PostState::Draft,
            r.text() == Seq::<char>::empty(),
    {
        Post { state: PostState::Draft, content: String::new() }
    }

    /// Appends `text` to the post.
    pub fn add_text(&mut self, text: &str)
        ensures
            final(self).text() == old(self).text() + text@,
            final(self).stage() == old(self).stage(),
    {
        self.content.append(text);
    }

    /// The text shown to readers: nothing is shown at any stage.
    pub fn content(&self) -> (r: &str)
        ensures
            r@ == Seq::<char>::empty(),
    {
        proof {
            reveal_strlit("");
        }
        ""
    }

    /// The stage the post is at.
    pub fn state(&self) -> (r: PostState)
        ensures
            r == self.stage(),
    {
        self.state
    }

    /// Asks for review.
    pub fn request_review(&mut self)
        ensures
            final(self).stage() == old(self).stage().after_review_request(),
            final(self).text() == old(self).text(),
    {
        self.state = self.state.request_review();
    }

    /// Approves the post.
    pub fn approve(&mut self)
        ensures
            final(self).stage() == old(self).stage().after_approval(),
            final(self).text() == old(self).text(),
    {
        self.state = self.state.approve();
    }
}

} // verus!
