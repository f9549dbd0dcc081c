use vstd::prelude::*;

verus! {

/// A comment on a post.
#[derive(Clone, Debug)]
pub struct CreatePostCommentRequest {
    pub post_id: Option<i32>,
    pub body: String,
}

/// A reply to a comment on a post.
#[derive(Clone, Debug)]
pub struct CreateReplyPostCommentRequest {
    pub post_id: Option<i32>,
    pub comment_id: Option<i32>,
    pub body: String,
}

} // verus!
