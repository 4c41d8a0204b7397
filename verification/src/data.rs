//! The values that travel between the service, the screens and the settings.
//!
//! Records that come from the service are carried as they are; only the parts
//! that a screen reads are kept. Every record can be copied, and a copy equals
//! what it was copied from.

use vstd::prelude::*;

verus! {

/// Identifies a person on the instance.
#[derive(Debug, Clone, Copy, PartialEq, Eq, Structural)]
pub struct PersonId(pub i32);

/// Identifies a community on the instance.
#[derive(Debug, Clone, Copy, PartialEq, Eq, Structural)]
pub struct CommunityId(pub i32);

/// Identifies a post on the instance.
#[derive(Debug, Clone, Copy, PartialEq, Eq, Structural)]
pub struct PostId(pub i32);

/// Identifies a comment on the instance.
#[derive(Debug, Clone, Copy, PartialEq, Eq, Structural)]
pub struct CommentId(pub i32);

/// Which communities a listing draws from.
#[derive(Debug, Clone, Copy, PartialEq, Eq, Structural)]
pub enum ListingType {
    /// This instance and every instance it federates with.
    All,
    /// This instance only.
    Local,
    /// The communities the account has joined.
    Subscribed,
}

/// The order of a listing.
#[derive(Debug, Clone, Copy, PartialEq, Eq, Structural)]
pub enum SortType {
    Active,
    Hot,
    New,
    Old,
    TopDay,
    TopWeek,
    TopMonth,
    TopYear,
    TopAll,
    MostComments,
    NewComments,
    TopHour,
    TopSixHour,
    TopTwelveHour,
    TopThreeMonths,
    TopSixMonths,
    TopNineMonths,
}

/// What a search looks for.
#[derive(Debug, Clone, Copy, PartialEq, Eq, Structural)]
pub enum SearchType {
    All,
    Comments,
    Posts,
    Communities,
    Users,
    Url,
}

/// A person as the service describes them.
#[derive(Debug, PartialEq, Eq)]
pub struct Person {
    pub id: PersonId,
    pub name: String,
    /// Address of the person's picture.
    pub avatar: Option<String>,
    /// Self-description, in Markdown.
    pub bio: Option<String>,
}

impl Clone for Person {
    fn clone(&self) -> (r: Self)
        ensures
            r == *self,
    {
        Person {
            id: self.id,
            name: self.name.clone(),
            avatar: self.avatar.clone(),
            bio: self.bio.clone(),
        }
    }
}

/// Totals kept for a person.
#[derive(Debug, Clone, Copy, PartialEq, Eq, Structural)]
pub struct PersonAggregates {
    pub post_count: i64,
    pub comment_count: i64,
}

/// A person together with their totals.
#[derive(Debug, PartialEq, Eq)]
pub struct PersonView {
    pub person: Person,
    pub counts: PersonAggregates,
}

impl Clone for PersonView {
    fn clone(&self) -> (r: Self)
        ensures
            r == *self,
    {
        PersonView { person: self.person.clone(), counts: self.counts }
    }
}

/// A community as the service describes it.
#[derive(Debug, PartialEq, Eq)]
pub struct Community {
    pub id: CommunityId,
    pub title: String,
    /// Address of the community's picture.
    pub icon: Option<String>,
}

impl Clone for Community {
    fn clone(&self) -> (r: Self)
        ensures
            r == *self,
    {
        Community { id: self.id, title: self.title.clone(), icon: self.icon.clone() }
    }
}

/// A community as a listing shows it.
#[derive(Debug, PartialEq, Eq)]
pub struct CommunityView {
    pub community: Community,
}

impl Clone for CommunityView {
    fn clone(&self) -> (r: Self)
        ensures
            r == *self,
    {
        CommunityView { community: self.community.clone() }
    }
}

/// A post as the service describes it.
#[derive(Debug, PartialEq, Eq)]
pub struct Post {
    pub id: PostId,
    /// The post's title.
    pub name: String,
}

impl Clone for Post {
    fn clone(&self) -> (r: Self)
        ensures
            r == *self,
    {
        Post { id: self.id, name: self.name.clone() }
    }
}

/// Totals kept for a post.
#[derive(Debug, Clone, Copy, PartialEq, Eq, Structural)]
pub struct PostAggregates {
    pub comments: i64,
    pub score: i64,
    pub upvotes: i64,
    pub downvotes: i64,
}

/// A post as a listing shows it.
#[derive(Debug, PartialEq, Eq)]
pub struct PostView {
    pub post: Post,
    pub creator: Person,
    pub community: Community,
    pub counts: PostAggregates,
    /// The account's own vote, if it cast one.
    pub my_vote: Option<i16>,
}

impl Clone for PostView {
    fn clone(&self) -> (r: Self)
        ensures
            r == *self,
    {
        PostView {
            post: self.post.clone(),
            creator: self.creator.clone(),
            community: self.community.clone(),
            counts: self.counts,
            my_vote: self.my_vote,
        }
    }
}

/// A comment as the service describes it.
#[derive(Debug, PartialEq, Eq)]
pub struct Comment {
    pub id: CommentId,
    /// The comment's text, in Markdown.
    pub content: String,
}

impl Clone for Comment {
    fn clone(&self) -> (r: Self)
        ensures
            r == *self,
    {
        Comment { id: self.id, content: self.content.clone() }
    }
}

/// Totals kept for a comment.
#[derive(Debug, Clone, Copy, PartialEq, Eq, Structural)]
pub struct CommentAggregates {
    pub score: i64,
    pub upvotes: i64,
    pub downvotes: i64,
}

/// A comment as a post's page shows it.
#[derive(Debug, PartialEq, Eq)]
pub struct CommentView {
    pub comment: Comment,
    pub creator: Person,
    pub counts: CommentAggregates,
    /// The account's own vote, if it cast one.
    pub my_vote: Option<i16>,
}

impl Clone for CommentView {
    fn clone(&self) -> (r: Self)
        ensures
            r == *self,
    {
        CommentView {
            comment: self.comment.clone(),
            creator: self.creator.clone(),
            counts: self.counts,
            my_vote: self.my_vote,
        }
    }
}

/// The service's answer to a request for a community.
#[derive(Debug, PartialEq, Eq)]
pub struct GetCommunityResponse {
    pub community_view: CommunityView,
}

impl Clone for GetCommunityResponse {
    fn clone(&self) -> (r: Self)
        ensures
            r == *self,
    {
        GetCommunityResponse { community_view: self.community_view.clone() }
    }
}

/// The service's answer to a request for a post.
#[derive(Debug, PartialEq, Eq)]
pub struct GetPostResponse {
    pub post_view: PostView,
}

impl Clone for GetPostResponse {
    fn clone(&self) -> (r: Self)
        ensures
            r == *self,
    {
        GetPostResponse { post_view: self.post_view.clone() }
    }
}

/// The service's answer to a request for a person: the person and their posts.
#[derive(Debug, PartialEq, Eq)]
pub struct GetPersonDetailsResponse {
    pub person_view: PersonView,
    pub posts: Vec<PostView>,
}

/// What a [`GetPersonDetailsResponse`] holds.
pub struct PersonDetails {
    pub person_view: PersonView,
    pub posts: Seq<PostView>,
}

impl View for GetPersonDetailsResponse {
    type V = PersonDetails;

    open spec fn view(&self) -> PersonDetails {
        PersonDetails { person_view: self.person_view, posts: self.posts@ }
    }
}

impl Clone for GetPersonDetailsResponse {
    fn clone(&self) -> (r: Self)
        ensures
            r@ == self@,
    {
        GetPersonDetailsResponse {
            person_view: self.person_view.clone(),
            posts: self.posts.clone(),
        }
    }
}

/// The account the client acts for, as the settings keep it.
#[derive(Debug, PartialEq, Eq)]
pub struct Account {
    /// Address of the instance, less the last character of its full form;
    /// empty while none is chosen.
    pub instance_url: String,
    /// The login token; absent while logged out.
    pub jwt: Option<String>,
    pub id: i32,
    pub name: String,
}

/// What an [`Account`] holds.
pub struct AccountData {
    pub instance_url: Seq<char>,
    pub jwt: Option<Seq<char>>,
    pub id: i32,
    pub name: Seq<char>,
}

/// The characters of an optional string.
pub open spec fn text_of(s: Option<String>) -> Option<Seq<char>> {
    match s {
        Some(s) => Some(s@),
        None => None,
    }
}

/// An answer of the service, with the characters of the reason where it failed.
pub open spec fn answer_of<T>(answer: Result<T, String>) -> Result<T, Seq<char>> {
    match answer {
        Ok(value) => Ok(value),
        Err(reason) => Err(reason@),
    }
}

impl View for Account {
    type V = AccountData;

    open spec fn view(&self) -> AccountData {
        AccountData {
            instance_url: self.instance_url@,
            jwt: text_of(self.jwt),
            id: self.id,
            name: self.name@,
        }
    }
}

impl Clone for Account {
    fn clone(&self) -> (r: Self)
        ensures
            r@ == self@,
    {
        Account {
            instance_url: self.instance_url.clone(),
            jwt: self.jwt.clone(),
            id: self.id,
            name: self.name.clone(),
        }
    }
}

/// What the editor dialog holds while a post or comment is written.
#[derive(Debug, PartialEq, Eq)]
pub struct EditorData {
    pub name: String,
    pub body: String,
    pub url: Option<String>,
    /// The post or comment being edited; absent for a new one.
    pub id: Option<i32>,
}

/// An instruction to a picture widget.
#[derive(Debug, PartialEq, Eq)]
pub enum WebImageMsg {
    /// Show the picture at this address.
    LoadImage(String),
    /// Show nothing.
    Unload,
}

} // verus!
