//! An editorial state machine for a post: a draft gathers text, a review
//! is requested, and two approvals publish it. Every operation is total:
//! a transition that does not apply in the current state is a silent no-op,
//! never an error. The buffer is append-only and is shown to readers only
//! once the post is published with two recorded approvals.

use vstd::prelude::*;
use vstd::string::StringExecFns;

verus! {

/// The phases a post can occupy. `Published` carries a flag that becomes
/// `true` once a second approval has been recorded; only then is the
/// content visible.
#[derive(Copy, Clone, Debug, PartialEq, Eq, Structural)]
pub enum States {
    Draft,
    PendingReview,
    Published(bool),
}

/// Whether text may be appended in state `s`: only while drafting.
pub open spec fn accepts_text(s: States) -> bool {
    s is Draft
}

/// Whether the buffer is shown in state `s`: published and approved twice.
pub open spec fn content_visible(s: States) -> bool {
    s == States::Published(true)
}

/// The state after a review request: a draft moves to pending review;
/// every other state is left as it is.
pub open spec fn spec_request_review(s: States) -> States {
    match s {
        States::Draft => States::PendingReview,
        _ => s,
    }
}

/// The state after one approval: pending review becomes published with one
/// approval recorded, a second approval sets the flag, and a draft or a
/// twice-approved post is left as it is.
pub open spec fn spec_approve(s: States) -> States {
    match s {
        States::Draft => s,
        States::PendingReview => States::Published(false),
        States::Published(_) => States::Published(true),
    }
}

/// The state after a rejection: back to a draft from anywhere, discarding
/// any approval progress.
pub open spec fn spec_reject(s: States) -> States {
    States::Draft
}

/// What a reader is shown: the buffer when the state makes it visible,
/// and nothing otherwise.
pub open spec fn visible_content(s: States, buffer: Seq<char>) -> Seq<char> {
    if content_visible(s) {
        buffer
    } else {
        Seq::<char>::empty()
    }
}

impl States {
    /// The transition taken by a review request.
    pub fn request_review(self) -> (next: States)
        ensures
            next == spec_request_review(self),
    {
        match self {
            States::Draft => States::PendingReview,
            _ => self,
        }
    }

    /// The transition taken by one approval.
    pub fn approve(self) -> (next: States)
        ensures
            next == spec_approve(self),
    {
        match self {
            States::Draft => self,
            States::PendingReview => States::Published(false),
            States::Published(b) => {
                if !b {
                    States::Published(true)
                } else {
                    self
                }
            },
        }
    }

    /// The transition taken by a rejection.
    pub fn reject(self) -> (next: States)
        ensures
            next == spec_reject(self),
    {
        match self {
            States::Draft => self,
            _ => States::Draft,
        }
    }

    /// A snapshot of this state value.
    pub fn get_state(&self) -> (s: States)
        ensures
            s == *self,
    {
        *self
    }

    /// Whether this state lets text be appended.
    pub fn add_text(&self) -> (allowed: bool)
        ensures
            allowed == accepts_text(*self),
    {
        match *self {
            States::Draft => true,
            _ => false,
        }
    }

    /// The text of `post` that this state lets a reader see: the whole
    /// buffer when published with two approvals, and the empty string
    /// otherwise.
    pub fn content<'a>(&self, post: &'a Post) -> (text: &'a str)
        ensures
            text@ == visible_content(*self, post@.content),
    {
        if *self == States::Published(true) {
            post.content.as_str()
        } else {
            proof {
                reveal_strlit("");
                assert(""@ =~= Seq::<char>::empty());
            }
            ""
        }
    }
}

/// A post: a state value and an append-only text buffer.
pub struct Post {
    state: States,
    content: String,
}

/// The mathematical value of a `Post`: its state and what the buffer holds.
pub struct PostView {
    pub state: States,
    pub content: Seq<char>,
}

impl View for Post {
    type V = PostView;

    closed spec fn view(&self) -> PostView {
        PostView { state: self.state, content: self.content@ }
    }
}

impl Post {
    /// A fresh post: a draft with an empty buffer.
    pub fn new() -> (post: Post)
        ensures
            post@.state == States::Draft,
            post@.content == Seq::<char>::empty(),
    {
        Post { state: States::Draft, content: String::new() }
    }

    /// The text a reader sees: the buffer once the post is published with
    /// two approvals, and the empty string in every other state.
    pub fn content(&self) -> (text: &str)
        ensures
            text@ == visible_content(self@.state, self@.content),
    {
        self.state.content(self)
    }

    /// Appends `text` to the buffer while the post is a draft; in any
    /// other state the call changes nothing. The state never changes.
    pub fn add_text(&mut self, text: &str)
        ensures
            final(self)@.state == old(self)@.state,
            accepts_text(old(self)@.state) ==> final(self)@.content == old(self)@.content
                + text@,
            !accepts_text(old(self)@.state) ==> final(self)@.content == old(self)@.content,
    {
        if self.state.add_text() {
            self.content.append(text);
        }
    }

    /// Moves a draft to pending review; in any other state the call
    /// changes nothing. The buffer is untouched.
    pub fn request_review(&mut self)
        ensures
            final(self)@.state == spec_request_review(old(self)@.state),
            final(self)@.content == old(self)@.content,
    {
        self.state = self.state.request_review();
    }

    /// Records one approval: pending review becomes published, and a
    /// second approval makes the content visible; a draft or a
    /// twice-approved post is unchanged. The buffer is untouched.
    pub fn approve(&mut self)
        ensures
            final(self)@.state == spec_approve(old(self)@.state),
            final(self)@.content == old(self)@.content,
    {
        self.state = self.state.approve();
    }

    /// Returns the post to a draft from any state, discarding approval
    /// progress. The buffer is untouched.
    pub fn reject(&mut self)
        ensures
            final(self)@.state == spec_reject(old(self)@.state),
            final(self)@.state == States::Draft,
            final(self)@.content == old(self)@.content,
    {
        self.state = self.state.reject();
    }

    /// A snapshot of the current state, for inspection.
    pub fn get_state(&self) -> (s: States)
        ensures
            s == self@.state,
    {
        self.state.get_state()
    }
}

/// Law: for a post whose buffer holds any text, what a reader sees is
/// non-empty exactly when the post is published with two recorded
/// approvals. (A fully approved post with an empty buffer shows nothing,
/// so the buffer is required to be non-empty.)
pub proof fn lemma_visibility(p: PostView)
    requires
        p.content.len() > 0,
    ensures
        visible_content(p.state, p.content).len() > 0 <==> content_visible(p.state),
{
}

/// Law: a review request changes the state exactly when the post is a
/// draft; from every other state it is a no-op.
pub proof fn lemma_request_review_only_from_draft(s: States)
    ensures
        spec_request_review(s) != s <==> s is Draft,
{
}

/// Law: from pending review, one approval does not yet make the content
/// visible, and a second one does.
pub proof fn lemma_two_approvals_publish(s: States)
    requires
        s is PendingReview,
    ensures
        !content_visible(spec_approve(s)),
        content_visible(spec_approve(spec_approve(s))),
{
}

/// Law: a rejection returns any state to a draft and discards approval
/// progress: publishing again takes a fresh review request and again two
/// approvals, of which one alone is not enough.
pub proof fn lemma_reject_resets(s: States)
    ensures
        spec_reject(s) == States::Draft,
        !content_visible(spec_approve(spec_request_review(spec_reject(s)))),
        content_visible(spec_approve(spec_approve(spec_request_review(spec_reject(s))))),
{
}

/// Law: rejecting a post that is already a draft leaves it unchanged.
pub proof fn lemma_reject_idempotent_on_draft(s: States)
    requires
        s is Draft,
    ensures
        spec_reject(s) == s,
{
}

} // verus!
