//! One row of a list of posts.

use crate::app::{AppMsg, AppMsgData};
use crate::data::{answer_of, PostId, PostView};
use crate::util::{get_web_image_url, image_url};
use vstd::prelude::*;

verus! {

/// A post in a list, with the addresses its two pictures are loaded from.
#[derive(Debug, PartialEq, Eq)]
pub struct PostRow {
    pub post: PostView,
    pub author_image: String,
    pub community_image: String,
}

/// What the buttons of a row send.
#[derive(Debug, Clone, Copy, PartialEq, Eq, Structural)]
pub enum PostViewMsg {
    OpenPost,
    OpenCommunity,
    OpenPerson,
    DeletePost,
}

/// What has to happen outside a row after a message.
#[derive(Debug, PartialEq, Eq)]
pub enum PostRowAction {
    /// Hand this message to the main window.
    Output(AppMsg),
    /// Ask the service to delete the post, and hand what
    /// [`PostRow::deleted`] makes of its answer to the main window.
    Delete(PostId),
}

/// What a [`PostRowAction`] holds.
pub enum PostRowActionData {
    Output(AppMsgData),
    Delete(PostId),
}

impl View for PostRowAction {
    type V = PostRowActionData;

    open spec fn view(&self) -> PostRowActionData {
        match *self {
            PostRowAction::Output(msg) => PostRowActionData::Output(msg@),
            PostRowAction::Delete(id) => PostRowActionData::Delete(id),
        }
    }
}

/// What a row answers to `message`: a button opens what it names or has
/// the post deleted.
pub open spec fn post_row_step(post: PostView, message: PostViewMsg) -> PostRowActionData {
    match message {
        PostViewMsg::OpenCommunity => PostRowActionData::Output(
            AppMsgData::OpenCommunity(post.community.id),
        ),
        PostViewMsg::OpenPerson => PostRowActionData::Output(
            AppMsgData::OpenPerson(post.creator.id),
        ),
        PostViewMsg::OpenPost => PostRowActionData::Output(AppMsgData::OpenPost(post.post.id)),
        PostViewMsg::DeletePost => PostRowActionData::Delete(post.post.id),
    }
}

/// What the main window is told once the service has answered a delete: to
/// fetch the posts anew, or to show why the delete failed.
pub open spec fn post_deleted(answer: Result<(), Seq<char>>) -> AppMsgData {
    match answer {
        Ok(_) => AppMsgData::StartFetchPosts(None, true),
        Err(reason) => AppMsgData::ShowMessage(reason),
    }
}

impl PostRow {
    /// Everything a row sends goes on to the main window.
    pub fn forward_to_parent(output: AppMsg) -> (r: Option<AppMsg>)
        ensures
            r == Some(output),
    {
        Some(output)
    }

    /// The row for `value`; a picture that the post does not name has the
    /// empty address.
    pub fn init_model(value: PostView) -> (row: PostRow)
        ensures
            row.post == value,
            row.author_image@ == image_url(value.creator.avatar),
            row.community_image@ == image_url(value.community.icon),
    {
        let author_image = get_web_image_url(value.creator.avatar.clone());
        let community_image = get_web_image_url(value.community.icon.clone());
        PostRow { post: value, author_image, community_image }
    }

    /// Whether the account numbered `account_id` wrote the post, and so may delete it.
    pub fn is_own(&self, account_id: i32) -> (b: bool)
        ensures
            b == (self.post.creator.id.0 == account_id),
    {
        self.post.creator.id.0 == account_id
    }

    /// Takes one message: [`post_row_step`]. The row stays as it is.
    pub fn update(&mut self, message: PostViewMsg) -> (action: PostRowAction)
        ensures
            *final(self) == *old(self),
            action@ == post_row_step(old(self).post, message),
    {
        match message {
            PostViewMsg::OpenCommunity => PostRowAction::Output(
                AppMsg::OpenCommunity(self.post.community.id),
            ),
            PostViewMsg::OpenPerson => PostRowAction::Output(
                AppMsg::OpenPerson(self.post.creator.id),
            ),
            PostViewMsg::OpenPost => PostRowAction::Output(AppMsg::OpenPost(self.post.post.id)),
            PostViewMsg::DeletePost => PostRowAction::Delete(self.post.post.id),
        }
    }

    /// Carries on once the service has answered a delete: [`post_deleted`].
    /// `answer` says why the delete failed, if it did.
    pub fn deleted(answer: Result<(), String>) -> (msg: AppMsg)
        ensures
            msg@ == post_deleted(answer_of(answer)),
    {
        match answer {
            Ok(_) => AppMsg::StartFetchPosts(None, true),
            Err(reason) => AppMsg::ShowMessage(reason),
        }
    }
}

} // verus!
