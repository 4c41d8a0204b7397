//! What the page of a single post is told.

use crate::app::{AppMsg, AppMsgData};
use crate::data::GetPostResponse;
use vstd::prelude::*;

verus! {

/// A message to the page of a post.
#[derive(Debug, PartialEq, Eq)]
pub enum PostInput {
    /// Show this post.
    UpdatePost(GetPostResponse),
    /// Hand this message on to the main window.
    PassAppMessage(AppMsg),
}

/// What a [`PostInput`] holds.
pub enum PostInputData {
    UpdatePost(GetPostResponse),
    PassAppMessage(AppMsgData),
}

impl View for PostInput {
    type V = PostInputData;

    open spec fn view(&self) -> PostInputData {
        match *self {
            PostInput::UpdatePost(post) => PostInputData::UpdatePost(post),
            PostInput::PassAppMessage(msg) => PostInputData::PassAppMessage(msg@),
        }
    }
}

} // verus!
