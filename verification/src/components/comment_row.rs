//! One comment below a post.

use crate::app::{AppMsg, AppMsgData};
use crate::components::post_page::{PostInput, PostInputData};
use crate::data::{answer_of, CommentId, CommentView, EditorData};
use crate::util::{get_web_image_url, image_url};
use vstd::prelude::*;

verus! {

/// A comment below a post, with the address its author's picture is loaded from.
#[derive(Debug, PartialEq, Eq)]
pub struct CommentRow {
    pub comment: CommentView,
    pub avatar: String,
}

/// A message to a comment: from its buttons, from its editor, or from the service.
#[derive(Debug, PartialEq, Eq)]
pub enum CommentRowMsg {
    OpenPerson,
    DeleteComment,
    OpenEditCommentDialog,
    /// The editor was confirmed with this content.
    EditCommentRequest(EditorData),
    /// The comment as the service has it now.
    UpdateComment(CommentView),
}

/// What has to happen outside a comment after a message.
#[derive(Debug, PartialEq, Eq)]
pub enum CommentRowAction {
    /// Nothing.
    Idle,
    /// Hand this message to the page of the post.
    Output(PostInput),
    /// Hand this message to the comment itself.
    Input(CommentRowMsg),
    /// Ask the service to delete the comment, and hand what
    /// [`CommentRow::deleted`] makes of its answer to the page of the post.
    Delete(CommentId),
    /// Fill the editor with this content, set it up for editing a comment
    /// and show it.
    ShowEditor(EditorData),
    /// Ask the service to give the comment with this number this text, and
    /// do what [`CommentRow::edited`] makes of its answer.
    Edit(String, i32),
}

/// What a [`CommentRowAction`] holds.
pub enum CommentRowActionData {
    Idle,
    Output(PostInputData),
    Input(CommentRowMsg),
    Delete(CommentId),
    ShowEditor(EditorData),
    Edit(String, i32),
}

impl View for CommentRowAction {
    type V = CommentRowActionData;

    open spec fn view(&self) -> CommentRowActionData {
        match *self {
            CommentRowAction::Idle => CommentRowActionData::Idle,
            CommentRowAction::Output(input) => CommentRowActionData::Output(input@),
            CommentRowAction::Input(message) => CommentRowActionData::Input(message),
            CommentRowAction::Delete(id) => CommentRowActionData::Delete(id),
            CommentRowAction::ShowEditor(data) => CommentRowActionData::ShowEditor(data),
            CommentRowAction::Edit(body, id) => CommentRowActionData::Edit(body, id),
        }
    }
}

/// Whether `data` is what the editor opens with for `comment`: its text and
/// its number, no title and no link.
pub open spec fn edits(data: EditorData, comment: CommentView) -> bool {
    &&& data.name@.len() == 0
    &&& data.body == comment.comment.content
    &&& data.url is None
    &&& data.id == Some(comment.comment.id.0)
}

/// The comment a row shows after `message`: what the service sent, if it sent one.
pub open spec fn comment_after(comment: CommentView, message: CommentRowMsg) -> CommentView {
    match message {
        CommentRowMsg::UpdateComment(sent) => sent,
        _ => comment,
    }
}

/// Whether `action` is what a row showing `comment` answers to `message`.
/// An edit that names no comment is answered with nothing.
pub open spec fn comment_row_answers(
    comment: CommentView,
    message: CommentRowMsg,
    action: CommentRowActionData,
) -> bool {
    match message {
        CommentRowMsg::OpenPerson => action == CommentRowActionData::Output(
            PostInputData::PassAppMessage(AppMsgData::OpenPerson(comment.creator.id)),
        ),
        CommentRowMsg::DeleteComment => action == CommentRowActionData::Delete(comment.comment.id),
        CommentRowMsg::OpenEditCommentDialog => action matches CommentRowActionData::ShowEditor(
            data,
        ) && edits(data, comment),
        CommentRowMsg::UpdateComment(_) => action == CommentRowActionData::Idle,
        CommentRowMsg::EditCommentRequest(data) => action == match data.id {
            Some(id) => CommentRowActionData::Edit(data.body, id),
            None => CommentRowActionData::Idle,
        },
    }
}

/// What the page of the post is told once the service has answered a
/// delete: to fetch the posts anew, or to show why the delete failed.
pub open spec fn comment_deleted(answer: Result<(), Seq<char>>) -> PostInputData {
    match answer {
        Ok(_) => PostInputData::PassAppMessage(AppMsgData::StartFetchPosts(None, true)),
        Err(reason) => PostInputData::PassAppMessage(AppMsgData::ShowMessage(reason)),
    }
}

/// What follows once the service has answered an edit: the comment is told
/// what it is now, or the page of the post is told to show why the edit
/// failed.
pub open spec fn comment_edited(answer: Result<CommentView, Seq<char>>) -> CommentRowActionData {
    match answer {
        Ok(comment) => CommentRowActionData::Input(CommentRowMsg::UpdateComment(comment)),
        Err(reason) => CommentRowActionData::Output(
            PostInputData::PassAppMessage(AppMsgData::ShowMessage(reason)),
        ),
    }
}

impl CommentRow {
    /// Everything a comment sends goes on to the page of the post.
    pub fn forward_to_parent(output: PostInput) -> (r: Option<PostInput>)
        ensures
            r == Some(output),
    {
        Some(output)
    }

    /// The row for `value`; an author without a picture has the empty address.
    pub fn init_model(value: CommentView) -> (row: CommentRow)
        ensures
            row.comment == value,
            row.avatar@ == image_url(value.creator.avatar),
    {
        let avatar = get_web_image_url(value.creator.avatar.clone());
        CommentRow { comment: value, avatar }
    }

    /// Whether the account numbered `account_id` wrote the comment, and so
    /// may edit and delete it.
    pub fn is_own(&self, account_id: i32) -> (b: bool)
        ensures
            b == (self.comment.creator.id.0 == account_id),
    {
        self.comment.creator.id.0 == account_id
    }

    /// Takes one message: [`comment_after`] and [`comment_row_answers`].
    /// Only the comment itself can change.
    pub fn update(&mut self, message: CommentRowMsg) -> (action: CommentRowAction)
        ensures
            final(self).comment == comment_after(old(self).comment, message),
            final(self).avatar == old(self).avatar,
            comment_row_answers(old(self).comment, message, action@),
    {
        match message {
            CommentRowMsg::OpenPerson => CommentRowAction::Output(
                PostInput::PassAppMessage(AppMsg::OpenPerson(self.comment.creator.id)),
            ),
            CommentRowMsg::DeleteComment => CommentRowAction::Delete(self.comment.comment.id),
            CommentRowMsg::OpenEditCommentDialog => {
                let data = EditorData {
                    name: String::new(),
                    body: self.comment.comment.content.clone(),
                    url: None,
                    id: Some(self.comment.comment.id.0),
                };
                CommentRowAction::ShowEditor(data)
            },
            CommentRowMsg::UpdateComment(comment) => {
                self.comment = comment;
                CommentRowAction::Idle
            },
            CommentRowMsg::EditCommentRequest(data) => {
                match data.id {
                    Some(id) => CommentRowAction::Edit(data.body, id),
                    None => CommentRowAction::Idle,
                }
            },
        }
    }

    /// Carries on once the service has answered a delete:
    /// [`comment_deleted`]. `answer` says why the delete failed, if it did.
    pub fn deleted(answer: Result<(), String>) -> (output: PostInput)
        ensures
            output@ == comment_deleted(answer_of(answer)),
    {
        match answer {
            Ok(_) => PostInput::PassAppMessage(AppMsg::StartFetchPosts(None, true)),
            Err(reason) => PostInput::PassAppMessage(AppMsg::ShowMessage(reason)),
        }
    }

    /// Carries on once the service has answered an edit: [`comment_edited`].
    /// `answer` is the comment as it is now, or why the edit failed.
    pub fn edited(answer: Result<CommentView, String>) -> (action: CommentRowAction)
        ensures
            action@ == comment_edited(answer_of(answer)),
    {
        match answer {
            Ok(comment) => CommentRowAction::Input(CommentRowMsg::UpdateComment(comment)),
            Err(reason) => CommentRowAction::Output(
                PostInput::PassAppMessage(AppMsg::ShowMessage(reason)),
            ),
        }
    }
}

} // verus!
