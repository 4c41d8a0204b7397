//! The page of a person.

use crate::data::{GetPersonDetailsResponse, PostView, WebImageMsg};
use crate::util::{get_web_image_msg, image_msg};
use vstd::prelude::*;

verus! {

/// The person a page shows, and the posts its rows are made of.
#[derive(Debug, PartialEq, Eq)]
pub struct ProfilePage {
    pub info: GetPersonDetailsResponse,
    pub posts: Vec<PostView>,
}

/// A message to the page of a person.
#[derive(Debug, PartialEq, Eq)]
pub enum ProfileInput {
    /// Show this person.
    UpdatePerson(GetPersonDetailsResponse),
}

impl ProfilePage {
    /// The page as it opens: it shows `init`, and no posts yet.
    pub fn init(init: GetPersonDetailsResponse) -> (page: ProfilePage)
        ensures
            page.info == init,
            page.posts@.len() == 0,
    {
        ProfilePage { info: init, posts: Vec::new() }
    }

    /// Takes one message: the page shows the person sent, with their posts
    /// in place of the posts before. The answer tells the picture widget
    /// what to show: the person's picture, or nothing.
    pub fn update(&mut self, message: ProfileInput) -> (avatar: WebImageMsg)
        ensures
            message matches ProfileInput::UpdatePerson(person) && {
                &&& final(self).info@ == person@
                &&& final(self).posts@ == person.posts@
                &&& avatar == image_msg(person.person_view.person.avatar)
            },
    {
        match message {
            ProfileInput::UpdatePerson(person) => {
                self.info = person.clone();
                let avatar = get_web_image_msg(person.person_view.person.avatar);
                let mut posts = person.posts;
                self.posts.clear();
                self.posts.append(&mut posts);
                avatar
            },
        }
    }
}

} // verus!
