//! Issues: their states and the comments attached to them.

use vstd::prelude::*;
use crate::error::RepoError;
use crate::model::{is_present, lift, present};

verus! {

/// Where an issue stands.
#[derive(Debug, Clone, Copy, PartialEq, Eq, Structural)]
pub enum Status {
    Open,
    InProgress,
    Resolved,
    Closed,
}

impl Status {
    /// The sentence that describes each state.
    pub open spec fn description(self) -> Seq<char> {
        match self {
            Status::Open => "Issue đang mở"@,
            Status::InProgress => "Issue đang được xử lý"@,
            Status::Resolved => "Issue đã được giải quyết"@,
            Status::Closed => "Issue đã bị đóng"@,
        }
    }

    /// The sentence that describes this state.
    pub fn describe(&self) -> (r: &'static str)
        ensures
            r@ == self.description(),
    {
        match self {
            Status::Open => "Issue đang mở",
            Status::InProgress => "Issue đang được xử lý",
            Status::Resolved => "Issue đã được giải quyết",
            Status::Closed => "Issue đã bị đóng",
        }
    }
}

/// What a comment is: who wrote it, what it says and when it was written.
pub struct CommentView {
    pub author: Seq<char>,
    pub content: Seq<char>,
    pub timestamp: u64,
}

impl CommentView {
    /// Author and content are both present.
    pub open spec fn wf(self) -> bool {
        present(self.author) && present(self.content)
    }

    /// The outcome of building a comment from its parts.
    pub open spec fn create(author: Seq<char>, content: Seq<char>, timestamp: u64) -> Result<
        CommentView,
        RepoError,
    > {
        if present(author) && present(content) {
            Ok(CommentView { author, content, timestamp })
        } else {
            Err(RepoError::InvalidArgument)
        }
    }
}

/// A remark on an issue.
pub struct Comment {
    pub(crate) author: String,
    pub(crate) content: String,
    pub(crate) timestamp: u64,
}

impl View for Comment {
    type V = CommentView;

    closed spec fn view(&self) -> CommentView {
        CommentView { author: self.author@, content: self.content@, timestamp: self.timestamp }
    }
}

impl Comment {
    /// Builds a comment; an empty author or content is refused.
    pub fn new(author: String, content: String, timestamp: u64) -> (r: Result<Comment, RepoError>)
        ensures
            lift(r) == CommentView::create(author@, content@, timestamp),
            r matches Ok(v) ==> v@.wf(),
    {
        if !is_present(&author) || !is_present(&content) {
            return Err(RepoError::InvalidArgument);
        }
        Ok(Comment { author, content, timestamp })
    }

    pub fn get_author(&self) -> (r: &String)
        ensures
            r@ == self@.author,
    {
        &self.author
    }

    pub fn get_content(&self) -> (r: &String)
        ensures
            r@ == self@.content,
    {
        &self.content
    }

    pub fn get_timestamp(&self) -> (r: u64)
        ensures
            r == self@.timestamp,
    {
        self.timestamp
    }
}

} // verus!
