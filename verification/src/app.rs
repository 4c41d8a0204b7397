//! The main window: which screen it shows, what it remembers of the screens
//! shown before, and what it asks for next.
//!
//! The window is driven by messages. [`App::update`] takes one message and
//! says, as an [`AppAction`], what has to happen outside: a request to the
//! service, a change of the settings, a message to a page or back to the
//! window itself. Whatever comes back arrives as the next message.

use crate::address::{addressed, parse_url, parsed_text, url_parse, with_scheme};
use crate::data::{
    text_of, Account, AccountData, CommunityId, CommunityView, GetCommunityResponse,
    GetPersonDetailsResponse, GetPostResponse, ListingType, Person, PersonDetails, PersonId,
    PostId, PostView,
};
use crate::text::{blank, is_blank, without_last};
use vstd::prelude::*;

verus! {

/// The screen the window shows.
#[derive(Debug, Clone, Copy, PartialEq, Eq, Structural)]
pub enum AppState {
    Loading,
    Posts,
    ChooseInstance,
    Communities,
    Community,
    Person,
    Post,
    Login,
    Message,
    Inbox,
}

/// A message to the window.
#[derive(Debug, PartialEq, Eq)]
pub enum AppMsg {
    ChooseInstance,
    ShowLogin,
    /// User name, password and one-time token as typed; the token may be empty.
    Login(String, String, String),
    LoggedIn,
    Logout,
    ShowMessage(String),
    /// The address of an instance as typed.
    DoneChoosingInstance(String),
    /// Ask for posts; `true` starts over at the first page, `false` asks for the next.
    StartFetchPosts(Option<ListingType>, bool),
    DoneFetchPosts(Vec<PostView>),
    DoneFetchCommunities(Vec<CommunityView>),
    /// Ask for communities; `true` starts over at the first page, `false` asks for the next.
    FetchCommunities(Option<ListingType>, bool),
    OpenCommunity(CommunityId),
    DoneFetchCommunity(GetCommunityResponse),
    OpenPerson(PersonId),
    DoneFetchPerson(GetPersonDetailsResponse),
    OpenPost(PostId),
    DoneFetchPost(GetPostResponse),
    OpenInbox,
    PopBackStack,
    ShowAbout,
}

/// What an [`AppMsg`] holds.
pub enum AppMsgData {
    ChooseInstance,
    ShowLogin,
    Login(Seq<char>, Seq<char>, Seq<char>),
    LoggedIn,
    Logout,
    ShowMessage(Seq<char>),
    DoneChoosingInstance(Seq<char>),
    StartFetchPosts(Option<ListingType>, bool),
    DoneFetchPosts(Seq<PostView>),
    DoneFetchCommunities(Seq<CommunityView>),
    FetchCommunities(Option<ListingType>, bool),
    OpenCommunity(CommunityId),
    DoneFetchCommunity(GetCommunityResponse),
    OpenPerson(PersonId),
    DoneFetchPerson(PersonDetails),
    OpenPost(PostId),
    DoneFetchPost(GetPostResponse),
    OpenInbox,
    PopBackStack,
    ShowAbout,
}

impl View for AppMsg {
    type V = AppMsgData;

    open spec fn view(&self) -> AppMsgData {
        match *self {
            AppMsg::ChooseInstance => AppMsgData::ChooseInstance,
            AppMsg::ShowLogin => AppMsgData::ShowLogin,
            AppMsg::Login(name, password, token) => AppMsgData::Login(name@, password@, token@),
            AppMsg::LoggedIn => AppMsgData::LoggedIn,
            AppMsg::Logout => AppMsgData::Logout,
            AppMsg::ShowMessage(text) => AppMsgData::ShowMessage(text@),
            AppMsg::DoneChoosingInstance(address) => AppMsgData::DoneChoosingInstance(address@),
            AppMsg::StartFetchPosts(listing, restart) => AppMsgData::StartFetchPosts(
                listing,
                restart,
            ),
            AppMsg::DoneFetchPosts(posts) => AppMsgData::DoneFetchPosts(posts@),
            AppMsg::DoneFetchCommunities(communities) => AppMsgData::DoneFetchCommunities(
                communities@,
            ),
            AppMsg::FetchCommunities(listing, restart) => AppMsgData::FetchCommunities(
                listing,
                restart,
            ),
            AppMsg::OpenCommunity(id) => AppMsgData::OpenCommunity(id),
            AppMsg::DoneFetchCommunity(community) => AppMsgData::DoneFetchCommunity(community),
            AppMsg::OpenPerson(id) => AppMsgData::OpenPerson(id),
            AppMsg::DoneFetchPerson(person) => AppMsgData::DoneFetchPerson(person@),
            AppMsg::OpenPost(id) => AppMsgData::OpenPost(id),
            AppMsg::DoneFetchPost(post) => AppMsgData::DoneFetchPost(post),
            AppMsg::OpenInbox => AppMsgData::OpenInbox,
            AppMsg::PopBackStack => AppMsgData::PopBackStack,
            AppMsg::ShowAbout => AppMsgData::ShowAbout,
        }
    }
}

impl Clone for AppMsg {
    fn clone(&self) -> (r: Self)
        ensures
            r@ == self@,
    {
        match self {
            AppMsg::ChooseInstance => AppMsg::ChooseInstance,
            AppMsg::ShowLogin => AppMsg::ShowLogin,
            AppMsg::Login(name, password, token) => AppMsg::Login(
                name.clone(),
                password.clone(),
                token.clone(),
            ),
            AppMsg::LoggedIn => AppMsg::LoggedIn,
            AppMsg::Logout => AppMsg::Logout,
            AppMsg::ShowMessage(text) => AppMsg::ShowMessage(text.clone()),
            AppMsg::DoneChoosingInstance(address) => AppMsg::DoneChoosingInstance(address.clone()),
            AppMsg::StartFetchPosts(listing, restart) => AppMsg::StartFetchPosts(
                *listing,
                *restart,
            ),
            AppMsg::DoneFetchPosts(posts) => AppMsg::DoneFetchPosts(posts.clone()),
            AppMsg::DoneFetchCommunities(communities) => AppMsg::DoneFetchCommunities(
                communities.clone(),
            ),
            AppMsg::FetchCommunities(listing, restart) => AppMsg::FetchCommunities(
                *listing,
                *restart,
            ),
            AppMsg::OpenCommunity(id) => AppMsg::OpenCommunity(*id),
            AppMsg::DoneFetchCommunity(community) => AppMsg::DoneFetchCommunity(community.clone()),
            AppMsg::OpenPerson(id) => AppMsg::OpenPerson(*id),
            AppMsg::DoneFetchPerson(person) => AppMsg::DoneFetchPerson(person.clone()),
            AppMsg::OpenPost(id) => AppMsg::OpenPost(*id),
            AppMsg::DoneFetchPost(post) => AppMsg::DoneFetchPost(post.clone()),
            AppMsg::OpenInbox => AppMsg::OpenInbox,
            AppMsg::PopBackStack => AppMsg::PopBackStack,
            AppMsg::ShowAbout => AppMsg::ShowAbout,
        }
    }
}

/// What has to happen outside the window after a message.
#[derive(Debug, PartialEq, Eq)]
pub enum AppAction {
    /// Nothing.
    Idle,
    /// Hand this message to the window next.
    Send(AppMsg),
    /// Write the account to the settings.
    SaveAccount(Account),
    /// Write the account to the settings, then hand the message to the window.
    SaveAccountThenSend(Account, AppMsg),
    /// Write the account to the settings, then ask the service who is logged in.
    SaveAccountThenFetchSite(Account),
    /// Tell the instances page to fetch the known instances.
    FetchInstances,
    /// Tell the inbox page to fetch the inbox.
    FetchInbox,
    /// Ask the service for this page of posts from this listing.
    FetchPosts(i64, Option<ListingType>),
    /// Ask the service for this page of the communities that match the query.
    FetchCommunities(i64, Option<String>, Option<ListingType>),
    /// Ask the service for a person and this page of what they wrote.
    FetchPerson(PersonId, i64),
    /// Ask the service for a community.
    FetchCommunity(CommunityId),
    /// Ask the service for a post.
    FetchPost(PostId),
    /// Log in with user name, password and, if one was typed, a one-time token.
    Login(String, String, Option<String>),
    /// Show this person on the profile page.
    UpdatePerson(GetPersonDetailsResponse),
    /// Show this community on the community page.
    UpdateCommunity(CommunityView),
    /// Show this post on the post page.
    UpdatePost(GetPostResponse),
}

/// What an [`AppAction`] holds.
pub enum AppActionData {
    Idle,
    Send(AppMsgData),
    SaveAccount(AccountData),
    SaveAccountThenSend(AccountData, AppMsgData),
    SaveAccountThenFetchSite(AccountData),
    FetchInstances,
    FetchInbox,
    FetchPosts(i64, Option<ListingType>),
    FetchCommunities(i64, Option<Seq<char>>, Option<ListingType>),
    FetchPerson(PersonId, i64),
    FetchCommunity(CommunityId),
    FetchPost(PostId),
    Login(Seq<char>, Seq<char>, Option<Seq<char>>),
    UpdatePerson(PersonDetails),
    UpdateCommunity(CommunityView),
    UpdatePost(GetPostResponse),
}

impl View for AppAction {
    type V = AppActionData;

    open spec fn view(&self) -> AppActionData {
        match *self {
            AppAction::Idle => AppActionData::Idle,
            AppAction::Send(msg) => AppActionData::Send(msg@),
            AppAction::SaveAccount(account) => AppActionData::SaveAccount(account@),
            AppAction::SaveAccountThenSend(account, msg) => AppActionData::SaveAccountThenSend(
                account@,
                msg@,
            ),
            AppAction::SaveAccountThenFetchSite(account) => AppActionData::SaveAccountThenFetchSite(
                account@,
            ),
            AppAction::FetchInstances => AppActionData::FetchInstances,
            AppAction::FetchInbox => AppActionData::FetchInbox,
            AppAction::FetchPosts(page, listing) => AppActionData::FetchPosts(page, listing),
            AppAction::FetchCommunities(page, query, listing) => AppActionData::FetchCommunities(
                page,
                text_of(query),
                listing,
            ),
            AppAction::FetchPerson(id, page) => AppActionData::FetchPerson(id, page),
            AppAction::FetchCommunity(id) => AppActionData::FetchCommunity(id),
            AppAction::FetchPost(id) => AppActionData::FetchPost(id),
            AppAction::Login(name, password, token) => AppActionData::Login(
                name@,
                password@,
                text_of(token),
            ),
            AppAction::UpdatePerson(person) => AppActionData::UpdatePerson(person@),
            AppAction::UpdateCommunity(community) => AppActionData::UpdateCommunity(community),
            AppAction::UpdatePost(post) => AppActionData::UpdatePost(post),
        }
    }
}

/// The state of the main window.
#[derive(Debug, PartialEq, Eq)]
pub struct App {
    pub state: AppState,
    /// The text of the message screen.
    pub message: Option<String>,
    /// The screens shown so far, oldest first, each as the message that
    /// brought it up. It grows with every screen; going back takes two off.
    pub back_queue: Vec<AppMsg>,
    /// The rows of the posts screen.
    pub posts: Vec<PostView>,
    /// The rows of the communities screen.
    pub communities: Vec<CommunityView>,
    pub logged_in: bool,
    pub current_communities_type: Option<ListingType>,
    pub current_posts_type: Option<ListingType>,
    pub current_communities_page: i64,
    pub current_posts_page: i64,
}

/// What an [`App`] holds.
pub struct AppData {
    pub state: AppState,
    pub message: Option<Seq<char>>,
    pub back_queue: Seq<AppMsgData>,
    pub posts: Seq<PostView>,
    pub communities: Seq<CommunityView>,
    pub logged_in: bool,
    pub current_communities_type: Option<ListingType>,
    pub current_posts_type: Option<ListingType>,
    pub current_communities_page: i64,
    pub current_posts_page: i64,
}

impl View for App {
    type V = AppData;

    open spec fn view(&self) -> AppData {
        AppData {
            state: self.state,
            message: text_of(self.message),
            back_queue: self.back_queue@.map_values(|msg: AppMsg| msg@),
            posts: self.posts@,
            communities: self.communities@,
            logged_in: self.logged_in,
            current_communities_type: self.current_communities_type,
            current_posts_type: self.current_posts_type,
            current_communities_page: self.current_communities_page,
            current_posts_page: self.current_posts_page,
        }
    }
}

/// What an optional message holds.
pub open spec fn message_of(msg: Option<AppMsg>) -> Option<AppMsgData> {
    match msg {
        Some(msg) => Some(msg@),
        None => None,
    }
}

/// Whether a message brings up a screen that the back button returns to:
/// an answer of the service, or a text to show.
pub open spec fn opens_screen(msg: AppMsgData) -> bool {
    msg is DoneFetchCommunities || msg is DoneFetchCommunity || msg is DoneFetchPerson
        || msg is DoneFetchPost || msg is DoneFetchPosts || msg is ShowMessage
}

/// The history once `msg` has arrived.
pub open spec fn recorded(history: Seq<AppMsgData>, msg: AppMsgData) -> Seq<AppMsgData> {
    if opens_screen(msg) {
        history.push(msg)
    } else {
        history
    }
}

/// The page to ask for: the first when starting over, else the one after `current`.
pub open spec fn page_after(current: i64, restart: bool) -> int {
    if restart {
        1
    } else {
        current + 1
    }
}

/// The rows of a listing once a page has arrived: the first page replaces
/// what was there, a later one is put below it.
pub open spec fn listed<T>(rows: Seq<T>, page: i64, arrived: Seq<T>) -> Seq<T> {
    if page == 1 {
        arrived
    } else {
        rows + arrived
    }
}

/// An empty text field stands for no value.
pub open spec fn typed(text: Seq<char>) -> Option<Seq<char>> {
    if text.len() == 0 {
        None
    } else {
        Some(text)
    }
}

/// Whether the window can take `msg`: there is a next page to count to, and
/// going back needs a screen to leave and one to return to.
pub open spec fn handles(app: AppData, msg: AppMsgData) -> bool {
    match msg {
        AppMsgData::StartFetchPosts(_, restart) => restart || app.current_posts_page < i64::MAX,
        AppMsgData::FetchCommunities(_, restart) => restart || app.current_communities_page
            < i64::MAX,
        AppMsgData::PopBackStack => app.back_queue.len() >= 2,
        _ => true,
    }
}

/// What follows once the address of an instance has been parsed. A valid
/// address is kept as the parser writes it out, less its last character,
/// which is a slash where the address names no path; the login token is
/// dropped, and the posts are fetched anew. An invalid address is answered
/// with the parser's complaint.
pub open spec fn instance_chosen(
    app: AppData,
    parsed: Result<Seq<char>, Seq<char>>,
    account: AccountData,
) -> (AppData, AppActionData) {
    match parsed {
        Ok(url) => (
            AppData { state: AppState::Loading, logged_in: false, ..app },
            AppActionData::SaveAccountThenSend(
                AccountData { instance_url: url.drop_last(), jwt: None, ..account },
                AppMsgData::StartFetchPosts(None, true),
            ),
        ),
        Err(reason) => (app, AppActionData::Send(AppMsgData::ShowMessage(reason))),
    }
}

/// The window after `msg`, and what has to happen outside. `account` is what
/// the settings hold, `search` what the search field of the communities
/// screen holds, at the time the message arrives.
pub open spec fn step(app: AppData, msg: AppMsgData, account: AccountData, search: Seq<char>) -> (
    AppData,
    AppActionData,
) {
    let app = AppData { back_queue: recorded(app.back_queue, msg), ..app };
    match msg {
        AppMsgData::DoneChoosingInstance(address) => if blank(address) {
            (app, AppActionData::Idle)
        } else {
            instance_chosen(app, url_parse(addressed(address)), account)
        },
        AppMsgData::ChooseInstance => (
            AppData { state: AppState::ChooseInstance, ..app },
            AppActionData::FetchInstances,
        ),
        AppMsgData::StartFetchPosts(listing, restart) => {
            let page = page_after(app.current_posts_page, restart) as i64;
            (
                AppData { current_posts_type: listing, current_posts_page: page, ..app },
                AppActionData::FetchPosts(page, listing),
            )
        },
        AppMsgData::DoneFetchPosts(posts) => (
            AppData {
                state: AppState::Posts,
                posts: listed(app.posts, app.current_posts_page, posts),
                ..app
            },
            AppActionData::Idle,
        ),
        AppMsgData::FetchCommunities(listing, restart) => {
            let page = page_after(app.current_communities_page, restart) as i64;
            (
                AppData {
                    state: AppState::Communities,
                    current_communities_type: listing,
                    current_communities_page: page,
                    ..app
                },
                AppActionData::FetchCommunities(page, typed(search), listing),
            )
        },
        AppMsgData::DoneFetchCommunities(communities) => (
            AppData {
                state: AppState::Communities,
                communities: listed(app.communities, app.current_communities_page, communities),
                ..app
            },
            AppActionData::Idle,
        ),
        AppMsgData::OpenPerson(id) => (
            AppData { state: AppState::Loading, ..app },
            AppActionData::FetchPerson(id, 1),
        ),
        AppMsgData::DoneFetchPerson(person) => (
            AppData { state: AppState::Person, ..app },
            AppActionData::UpdatePerson(person),
        ),
        AppMsgData::OpenCommunity(id) => (
            AppData { state: AppState::Loading, ..app },
            AppActionData::FetchCommunity(id),
        ),
        AppMsgData::DoneFetchCommunity(community) => (
            AppData { state: AppState::Community, ..app },
            AppActionData::UpdateCommunity(community.community_view),
        ),
        AppMsgData::OpenPost(id) => (
            AppData { state: AppState::Loading, ..app },
            AppActionData::FetchPost(id),
        ),
        AppMsgData::DoneFetchPost(post) => (
            AppData { state: AppState::Post, ..app },
            AppActionData::UpdatePost(post),
        ),
        AppMsgData::ShowLogin => (AppData { state: AppState::Login, ..app }, AppActionData::Idle),
        AppMsgData::Login(name, password, token) => if account.instance_url.len() == 0 {
            (app, AppActionData::Idle)
        } else {
            (
                AppData { state: AppState::Loading, ..app },
                AppActionData::Login(name, password, typed(token)),
            )
        },
        AppMsgData::Logout => (
            AppData { logged_in: false, ..app },
            AppActionData::SaveAccount(AccountData { jwt: None, ..account }),
        ),
        AppMsgData::ShowMessage(text) => (
            AppData { message: Some(text), state: AppState::Message, ..app },
            AppActionData::Idle,
        ),
        AppMsgData::OpenInbox => (
            AppData { state: AppState::Inbox, ..app },
            AppActionData::FetchInbox,
        ),
        AppMsgData::LoggedIn => (
            AppData { logged_in: true, ..app },
            AppActionData::Send(AppMsgData::StartFetchPosts(None, true)),
        ),
        AppMsgData::PopBackStack => (
            AppData { back_queue: app.back_queue.take(app.back_queue.len() - 2), ..app },
            AppActionData::Send(app.back_queue[app.back_queue.len() - 2]),
        ),
        AppMsgData::ShowAbout => (app, AppActionData::Idle),
    }
}

/// The window as it opens, and the first message to it, if any. With an
/// instance chosen it loads the posts; with none it asks for one.
pub open spec fn opened(account: AccountData) -> (AppData, Option<AppMsgData>) {
    let chosen = account.instance_url.len() > 0;
    (
        AppData {
            state: if chosen {
                AppState::Loading
            } else {
                AppState::ChooseInstance
            },
            message: None,
            back_queue: Seq::empty(),
            posts: Seq::empty(),
            communities: Seq::empty(),
            logged_in: account.jwt is Some,
            current_communities_type: None,
            current_posts_type: None,
            current_communities_page: 1,
            current_posts_page: 1,
        },
        if chosen {
            Some(AppMsgData::StartFetchPosts(None, true))
        } else {
            None
        },
    )
}

/// What the profile entry of the menu sends: the account's own page, if the
/// account has a name.
pub open spec fn own_profile(account: AccountData) -> Option<AppMsgData> {
    if account.name.len() > 0 {
        Some(AppMsgData::OpenPerson(PersonId(account.id)))
    } else {
        None
    }
}

/// What follows the service's answer to a login: the token it gave is kept
/// and the service is asked who is logged in; without a token, or without an
/// answer, the user is told why.
pub open spec fn login_answered(
    answer: Result<Option<Seq<char>>, Seq<char>>,
    account: AccountData,
) -> AppActionData {
    match answer {
        Ok(Some(token)) => AppActionData::SaveAccountThenFetchSite(
            AccountData { jwt: Some(token), ..account },
        ),
        Ok(None) => AppActionData::Send(AppMsgData::ShowMessage("Wrong credentials!"@)),
        Err(reason) => AppActionData::Send(AppMsgData::ShowMessage(reason)),
    }
}

/// What follows the service's answer to who is logged in: the login is
/// complete either way, and the person's name and number are kept if they came.
pub open spec fn site_answered(account: AccountData, user: Option<Person>) -> AppActionData {
    match user {
        Some(person) => AppActionData::SaveAccountThenSend(
            AccountData { name: person.name@, id: person.id.0, ..account },
            AppMsgData::LoggedIn,
        ),
        None => AppActionData::Send(AppMsgData::LoggedIn),
    }
}

/// Whether every entry of the history brought up a screen.
pub open spec fn history_of_screens(app: AppData) -> bool {
    forall|i: int| 0 <= i < app.back_queue.len() ==> opens_screen(#[trigger] app.back_queue[i])
}

/// The history holds nothing but screens, whatever message arrives.
pub proof fn history_stays_of_screens(
    app: AppData,
    msg: AppMsgData,
    account: AccountData,
    search: Seq<char>,
)
    requires
        history_of_screens(app),
        handles(app, msg),
    ensures
        history_of_screens(step(app, msg, account, search).0),
{
}

/// Going back shows the screen before: the back button hands the window the
/// message of that screen, and once the window has taken it, the history has
/// lost its last entry and nothing else.
pub proof fn going_back_drops_last(
    app: AppData,
    account: AccountData,
    search: Seq<char>,
    later_account: AccountData,
    later_search: Seq<char>,
)
    requires
        history_of_screens(app),
        app.back_queue.len() >= 2,
    ensures
        ({
            let (left, action) = step(app, AppMsgData::PopBackStack, account, search);
            action matches AppActionData::Send(msg) && step(
                left,
                msg,
                later_account,
                later_search,
            ).0.back_queue == app.back_queue.drop_last()
        }),
{
    let msg = app.back_queue[app.back_queue.len() - 2];
    assert(opens_screen(msg));
}

impl AppMsg {
    /// Decides [`opens_screen`].
    pub fn opens_screen(&self) -> (b: bool)
        ensures
            b == opens_screen(self@),
    {
        match self {
            AppMsg::DoneFetchCommunities(_) => true,
            AppMsg::DoneFetchCommunity(_) => true,
            AppMsg::DoneFetchPerson(_) => true,
            AppMsg::DoneFetchPost(_) => true,
            AppMsg::DoneFetchPosts(_) => true,
            AppMsg::ShowMessage(_) => true,
            _ => false,
        }
    }

    /// The message for the service's answer to a request for posts.
    pub fn posts_fetched(answer: Result<Vec<PostView>, String>) -> (msg: AppMsg)
        ensures
            msg@ == match answer {
                Ok(posts) => AppMsgData::DoneFetchPosts(posts@),
                Err(reason) => AppMsgData::ShowMessage(reason@),
            },
    {
        match answer {
            Ok(posts) => AppMsg::DoneFetchPosts(posts),
            Err(reason) => AppMsg::ShowMessage(reason),
        }
    }

    /// The message for the service's answer to a request for communities.
    pub fn communities_fetched(answer: Result<Vec<CommunityView>, String>) -> (msg: AppMsg)
        ensures
            msg@ == match answer {
                Ok(communities) => AppMsgData::DoneFetchCommunities(communities@),
                Err(reason) => AppMsgData::ShowMessage(reason@),
            },
    {
        match answer {
            Ok(communities) => AppMsg::DoneFetchCommunities(communities),
            Err(reason) => AppMsg::ShowMessage(reason),
        }
    }

    /// The message for the service's answer to a request for a person.
    pub fn person_fetched(answer: Result<GetPersonDetailsResponse, String>) -> (msg: AppMsg)
        ensures
            msg@ == match answer {
                Ok(person) => AppMsgData::DoneFetchPerson(person@),
                Err(reason) => AppMsgData::ShowMessage(reason@),
            },
    {
        match answer {
            Ok(person) => AppMsg::DoneFetchPerson(person),
            Err(reason) => AppMsg::ShowMessage(reason),
        }
    }

    /// The message for the service's answer to a request for a community.
    pub fn community_fetched(answer: Result<GetCommunityResponse, String>) -> (msg: AppMsg)
        ensures
            msg@ == match answer {
                Ok(community) => AppMsgData::DoneFetchCommunity(community),
                Err(reason) => AppMsgData::ShowMessage(reason@),
            },
    {
        match answer {
            Ok(community) => AppMsg::DoneFetchCommunity(community),
            Err(reason) => AppMsg::ShowMessage(reason),
        }
    }

    /// The message for the service's answer to a request for a post.
    pub fn post_fetched(answer: Result<GetPostResponse, String>) -> (msg: AppMsg)
        ensures
            msg@ == match answer {
                Ok(post) => AppMsgData::DoneFetchPost(post),
                Err(reason) => AppMsgData::ShowMessage(reason@),
            },
    {
        match answer {
            Ok(post) => AppMsg::DoneFetchPost(post),
            Err(reason) => AppMsg::ShowMessage(reason),
        }
    }
}

/// The characters of a login answer.
pub open spec fn answer_text(answer: Result<Option<String>, String>) -> Result<
    Option<Seq<char>>,
    Seq<char>,
> {
    match answer {
        Ok(token) => Ok(text_of(token)),
        Err(reason) => Err(reason@),
    }
}

/// An empty text field stands for no value: computes [`typed`].
fn typed_text(text: String) -> (r: Option<String>)
    ensures
        text_of(r) == typed(text@),
{
    if text.as_str().is_empty() {
        None
    } else {
        Some(text)
    }
}

/// The page to ask for: computes [`page_after`].
fn next_page(current: i64, restart: bool) -> (page: i64)
    requires
        restart || current < i64::MAX,
    ensures
        page == page_after(current, restart),
{
    if restart {
        1
    } else {
        current + 1
    }
}

/// Puts a page that has arrived into a listing: computes [`listed`].
fn list_page<T>(rows: &mut Vec<T>, page: i64, arrived: Vec<T>)
    ensures
        final(rows)@ == listed(old(rows)@, page, arrived@),
{
    let mut arrived = arrived;
    if page == 1 {
        rows.clear();
    }
    rows.append(&mut arrived);
}

impl App {
    /// Opens the window: [`opened`].
    pub fn init(account: &Account) -> (r: (App, Option<AppMsg>))
        ensures
            (r.0@, message_of(r.1)) == opened(account@),
    {
        let chosen = !account.instance_url.as_str().is_empty();
        let app = App {
            state: if chosen {
                AppState::Loading
            } else {
                AppState::ChooseInstance
            },
            message: None,
            back_queue: Vec::new(),
            posts: Vec::new(),
            communities: Vec::new(),
            logged_in: account.jwt.is_some(),
            current_communities_type: None,
            current_posts_type: None,
            current_communities_page: 1,
            current_posts_page: 1,
        };
        assert(app@.back_queue =~= Seq::empty());
        let first = if chosen {
            Some(AppMsg::StartFetchPosts(None, true))
        } else {
            None
        };
        (app, first)
    }

    /// What the profile entry of the menu sends: [`own_profile`].
    pub fn own_profile(account: &Account) -> (r: Option<AppMsg>)
        ensures
            message_of(r) == own_profile(account@),
    {
        if !account.name.as_str().is_empty() {
            Some(AppMsg::OpenPerson(PersonId(account.id)))
        } else {
            None
        }
    }

    /// Whether the back button is shown: there is a screen to return to.
    pub fn can_go_back(&self) -> (b: bool)
        ensures
            b == (self@.back_queue.len() > 1),
    {
        self.back_queue.len() > 1
    }

    /// Carries on once the service has answered a login: [`login_answered`].
    /// `answer` is the token, if the service gave one, or why there was no answer.
    pub fn login_answered(answer: Result<Option<String>, String>, account: &Account) -> (action:
        AppAction)
        ensures
            action@ == login_answered(answer_text(answer), account@),
    {
        match answer {
            Ok(Some(token)) => {
                let mut account = account.clone();
                account.jwt = Some(token);
                AppAction::SaveAccountThenFetchSite(account)
            },
            Ok(None) => AppAction::Send(AppMsg::ShowMessage(String::from_str("Wrong credentials!"))),
            Err(reason) => AppAction::Send(AppMsg::ShowMessage(reason)),
        }
    }

    /// Completes a login once the service has said who is logged in:
    /// [`site_answered`]. `user` is absent if the service gave no answer.
    pub fn site_answered(account: Account, user: Option<Person>) -> (action: AppAction)
        ensures
            action@ == site_answered(account@, user),
    {
        match user {
            Some(person) => {
                let mut account = account;
                account.name = person.name;
                account.id = person.id.0;
                AppAction::SaveAccountThenSend(account, AppMsg::LoggedIn)
            },
            None => AppAction::Send(AppMsg::LoggedIn),
        }
    }

    /// Decides [`handles`].
    pub fn handles(&self, msg: &AppMsg) -> (b: bool)
        ensures
            b == handles(self@, msg@),
    {
        match msg {
            AppMsg::StartFetchPosts(_, restart) => *restart || self.current_posts_page < i64::MAX,
            AppMsg::FetchCommunities(_, restart) => *restart || self.current_communities_page
                < i64::MAX,
            AppMsg::PopBackStack => self.back_queue.len() >= 2,
            _ => true,
        }
    }

    /// Carries on once the address of an instance has been parsed; `parsed`
    /// is the URL written out in full, or the parser's complaint.
    pub fn choose_instance(&mut self, parsed: Result<String, String>, account: &Account) -> (action:
        AppAction)
        requires
            parsed matches Ok(url) ==> url@.len() > 0,
        ensures
            (final(self)@, action@) == instance_chosen(old(self)@, parsed_text(parsed), account@),
    {
        match parsed {
            Ok(url) => {
                let mut account = account.clone();
                account.instance_url = without_last(url.as_str());
                account.jwt = None;
                self.state = AppState::Loading;
                self.logged_in = false;
                AppAction::SaveAccountThenSend(account, AppMsg::StartFetchPosts(None, true))
            },
            Err(reason) => AppAction::Send(AppMsg::ShowMessage(reason)),
        }
    }

    /// Takes one message: [`step`].
    pub fn update(&mut self, msg: AppMsg, account: &Account, search: &str) -> (action: AppAction)
        requires
            handles(old(self)@, msg@),
        ensures
            (final(self)@, action@) == step(old(self)@, msg@, account@, search@),
    {
        if msg.opens_screen() {
            let copy = msg.clone();
            self.back_queue.push(copy);
            assert(self@.back_queue =~= old(self)@.back_queue.push(msg@));
        }
        match msg {
            AppMsg::DoneChoosingInstance(address) => {
                if is_blank(address.as_str()) {
                    AppAction::Idle
                } else {
                    let parsed = parse_url(with_scheme(address).as_str());
                    self.choose_instance(parsed, account)
                }
            },
            AppMsg::ChooseInstance => {
                self.state = AppState::ChooseInstance;
                AppAction::FetchInstances
            },
            AppMsg::StartFetchPosts(listing, restart) => {
                self.current_posts_type = listing;
                let page = next_page(self.current_posts_page, restart);
                self.current_posts_page = page;
                AppAction::FetchPosts(page, listing)
            },
            AppMsg::DoneFetchPosts(posts) => {
                self.state = AppState::Posts;
                list_page(&mut self.posts, self.current_posts_page, posts);
                AppAction::Idle
            },
            AppMsg::FetchCommunities(listing, restart) => {
                let query = typed_text(search.to_owned());
                self.state = AppState::Communities;
                let page = next_page(self.current_communities_page, restart);
                self.current_communities_page = page;
                self.current_communities_type = listing;
                AppAction::FetchCommunities(page, query, listing)
            },
            AppMsg::DoneFetchCommunities(communities) => {
                self.state = AppState::Communities;
                list_page(&mut self.communities, self.current_communities_page, communities);
                AppAction::Idle
            },
            AppMsg::OpenPerson(id) => {
                self.state = AppState::Loading;
                AppAction::FetchPerson(id, 1)
            },
            AppMsg::DoneFetchPerson(person) => {
                self.state = AppState::Person;
                AppAction::UpdatePerson(person)
            },
            AppMsg::OpenCommunity(id) => {
                self.state = AppState::Loading;
                AppAction::FetchCommunity(id)
            },
            AppMsg::DoneFetchCommunity(community) => {
                self.state = AppState::Community;
                AppAction::UpdateCommunity(community.community_view)
            },
            AppMsg::OpenPost(id) => {
                self.state = AppState::Loading;
                AppAction::FetchPost(id)
            },
            AppMsg::DoneFetchPost(post) => {
                self.state = AppState::Post;
                AppAction::UpdatePost(post)
            },
            AppMsg::ShowLogin => {
                self.state = AppState::Login;
                AppAction::Idle
            },
            AppMsg::Login(name, password, token) => {
                if account.instance_url.as_str().is_empty() {
                    AppAction::Idle
                } else {
                    let token = typed_text(token);
                    self.state = AppState::Loading;
                    AppAction::Login(name, password, token)
                }
            },
            AppMsg::Logout => {
                let mut account = account.clone();
                account.jwt = None;
                self.logged_in = false;
                AppAction::SaveAccount(account)
            },
            AppMsg::ShowMessage(text) => {
                self.message = Some(text);
                self.state = AppState::Message;
                AppAction::Idle
            },
            AppMsg::OpenInbox => {
                self.state = AppState::Inbox;
                AppAction::FetchInbox
            },
            AppMsg::LoggedIn => {
                self.logged_in = true;
                AppAction::Send(AppMsg::StartFetchPosts(None, true))
            },
            AppMsg::PopBackStack => {
                self.back_queue.pop();
                let previous = self.back_queue.pop();
                assert(self@.back_queue =~= old(self)@.back_queue.take(
                    old(self)@.back_queue.len() - 2,
                ));
                match previous {
                    Some(msg) => AppAction::Send(msg),
                    None => AppAction::Idle,
                }
            },
            AppMsg::ShowAbout => AppAction::Idle,
        }
    }
}

} // verus!
