use lemoa::app::{App, AppAction, AppMsg, AppState};
use lemoa::data::{
    Account, Community, CommunityId, CommunityView, GetCommunityResponse,
    GetPersonDetailsResponse, GetPostResponse, ListingType, Person, PersonAggregates, PersonId,
    PersonView, Post, PostAggregates, PostId, PostView,
};

fn account(instance_url: &str, jwt: Option<&str>, id: i32, name: &str) -> Account {
    Account {
        instance_url: instance_url.to_string(),
        jwt: jwt.map(|t| t.to_string()),
        id,
        name: name.to_string(),
    }
}

fn member() -> Account {
    account("https://lemmy.example", Some("token"), 7, "ada")
}

fn person(id: i32, name: &str) -> Person {
    Person { id: PersonId(id), name: name.to_string(), avatar: None, bio: None }
}

fn post(id: i32, title: &str) -> PostView {
    PostView {
        post: Post { id: PostId(id), name: title.to_string() },
        creator: person(7, "ada"),
        community: Community { id: CommunityId(3), title: "Rust".to_string(), icon: None },
        counts: PostAggregates { comments: 2, score: 5, upvotes: 6, downvotes: 1 },
        my_vote: None,
    }
}

fn community(id: i32, title: &str) -> CommunityView {
    CommunityView {
        community: Community { id: CommunityId(id), title: title.to_string(), icon: None },
    }
}

fn details(id: i32, name: &str) -> GetPersonDetailsResponse {
    GetPersonDetailsResponse {
        person_view: PersonView {
            person: person(id, name),
            counts: PersonAggregates { post_count: 1, comment_count: 0 },
        },
        posts: vec![post(1, "first")],
    }
}

fn window() -> App {
    App::init(&member()).0
}

#[test]
fn window_opens_loading_where_an_instance_is_chosen() {
    let (app, first) = App::init(&member());
    assert_eq!(
        app,
        App {
            state: AppState::Loading,
            message: None,
            back_queue: vec![],
            posts: vec![],
            communities: vec![],
            logged_in: true,
            current_communities_type: None,
            current_posts_type: None,
            current_communities_page: 1,
            current_posts_page: 1,
        }
    );
    assert_eq!(first, Some(AppMsg::StartFetchPosts(None, true)));
}

#[test]
fn window_opens_asking_for_an_instance_where_none_is_chosen() {
    let (app, first) = App::init(&account("", None, 0, ""));
    assert_eq!(app.state, AppState::ChooseInstance);
    assert!(!app.logged_in);
    assert_eq!(first, None);
}

#[test]
fn window_opens_logged_out_without_a_token() {
    let (app, first) = App::init(&account("https://lemmy.example", None, 0, ""));
    assert_eq!(app.state, AppState::Loading);
    assert!(!app.logged_in);
    assert_eq!(first, Some(AppMsg::StartFetchPosts(None, true)));
}

#[test]
fn profile_entry_opens_the_accounts_own_page() {
    assert_eq!(App::own_profile(&member()), Some(AppMsg::OpenPerson(PersonId(7))));
    assert_eq!(App::own_profile(&account("https://lemmy.example", None, 0, "")), None);
}

#[test]
fn choosing_an_instance_keeps_its_address_without_the_slash() {
    let mut app = window();
    let before = member();
    let action =
        app.update(AppMsg::DoneChoosingInstance("lemmy.ml".to_string()), &before, "");
    assert_eq!(
        action,
        AppAction::SaveAccountThenSend(
            account("https://lemmy.ml", None, 7, "ada"),
            AppMsg::StartFetchPosts(None, true)
        )
    );
    assert_eq!(app.state, AppState::Loading);
    assert!(!app.logged_in);
    assert!(app.back_queue.is_empty());
}

#[test]
fn choosing_an_instance_keeps_a_named_scheme_and_port() {
    let mut app = window();
    let action = app.update(
        AppMsg::DoneChoosingInstance("http://localhost:8536".to_string()),
        &account("", None, 0, ""),
        "",
    );
    assert_eq!(
        action,
        AppAction::SaveAccountThenSend(
            account("http://localhost:8536", None, 0, ""),
            AppMsg::StartFetchPosts(None, true)
        )
    );
}

#[test]
fn choosing_an_instance_writes_the_address_as_the_parser_does() {
    let mut app = window();
    let action = app.update(
        AppMsg::DoneChoosingInstance("HTTPS://Lemmy.ML:443/".to_string()),
        &member(),
        "",
    );
    assert_eq!(
        action,
        AppAction::SaveAccountThenSend(
            account("https://https//Lemmy.ML:443", None, 7, "ada"),
            AppMsg::StartFetchPosts(None, true)
        )
    );
}

#[test]
fn choosing_an_instance_cuts_the_last_character_of_a_path() {
    let mut app = window();
    let action = app.update(
        AppMsg::DoneChoosingInstance("https://lemmy.ml/c/rust".to_string()),
        &member(),
        "",
    );
    assert_eq!(
        action,
        AppAction::SaveAccountThenSend(
            account("https://lemmy.ml/c/rus", None, 7, "ada"),
            AppMsg::StartFetchPosts(None, true)
        )
    );
}

#[test]
fn choosing_a_blank_instance_does_nothing() {
    for typed in ["", "   ", "\t\n", "\u{a0}"] {
        let mut app = window();
        app.state = AppState::ChooseInstance;
        let action = app.update(AppMsg::DoneChoosingInstance(typed.to_string()), &member(), "");
        assert_eq!(action, AppAction::Idle);
        assert_eq!(app.state, AppState::ChooseInstance);
        assert!(app.logged_in);
    }
}

#[test]
fn choosing_an_invalid_instance_shows_why() {
    let mut app = window();
    app.state = AppState::ChooseInstance;
    let action =
        app.update(AppMsg::DoneChoosingInstance("exa mple.com".to_string()), &member(), "");
    assert_eq!(
        action,
        AppAction::Send(AppMsg::ShowMessage("invalid international domain name".to_string()))
    );
    assert_eq!(app.state, AppState::ChooseInstance);
    assert!(app.logged_in);
    let action = app.update(AppMsg::DoneChoosingInstance("http://".to_string()), &member(), "");
    assert_eq!(action, AppAction::Send(AppMsg::ShowMessage("empty host".to_string())));
    let action = app.update(AppMsg::DoneChoosingInstance("[::1".to_string()), &member(), "");
    assert_eq!(action, AppAction::Send(AppMsg::ShowMessage("invalid IPv6 address".to_string())));
    let action = app.update(AppMsg::DoneChoosingInstance("x:99999".to_string()), &member(), "");
    assert_eq!(action, AppAction::Send(AppMsg::ShowMessage("invalid port number".to_string())));
}

#[test]
fn choose_instance_message_shows_the_instances() {
    let mut app = window();
    let action = app.update(AppMsg::ChooseInstance, &member(), "");
    assert_eq!(action, AppAction::FetchInstances);
    assert_eq!(app.state, AppState::ChooseInstance);
}

#[test]
fn fetching_posts_counts_pages() {
    let mut app = window();
    app.current_posts_page = 4;
    let action =
        app.update(AppMsg::StartFetchPosts(Some(ListingType::Subscribed), false), &member(), "");
    assert_eq!(action, AppAction::FetchPosts(5, Some(ListingType::Subscribed)));
    assert_eq!(app.current_posts_page, 5);
    assert_eq!(app.current_posts_type, Some(ListingType::Subscribed));
    assert_eq!(app.state, AppState::Loading);
    let action = app.update(AppMsg::StartFetchPosts(None, true), &member(), "");
    assert_eq!(action, AppAction::FetchPosts(1, None));
    assert_eq!(app.current_posts_page, 1);
    assert_eq!(app.current_posts_type, None);
}

#[test]
fn fetching_posts_stops_at_the_last_page() {
    let mut app = window();
    app.current_posts_page = i64::MAX;
    assert!(!app.handles(&AppMsg::StartFetchPosts(None, false)));
    assert!(app.handles(&AppMsg::StartFetchPosts(None, true)));
    app.current_posts_page = i64::MAX - 1;
    assert!(app.handles(&AppMsg::StartFetchPosts(None, false)));
    let action = app.update(AppMsg::StartFetchPosts(None, false), &member(), "");
    assert_eq!(action, AppAction::FetchPosts(i64::MAX, None));
    app.current_communities_page = i64::MAX;
    assert!(!app.handles(&AppMsg::FetchCommunities(None, false)));
    assert!(app.handles(&AppMsg::FetchCommunities(None, true)));
}

#[test]
fn first_page_of_posts_replaces_the_rows() {
    let mut app = window();
    app.posts = vec![post(1, "old")];
    let arrived = vec![post(2, "new"), post(3, "newer")];
    let action = app.update(AppMsg::DoneFetchPosts(arrived.clone()), &member(), "");
    assert_eq!(action, AppAction::Idle);
    assert_eq!(app.state, AppState::Posts);
    assert_eq!(app.posts, arrived);
    assert_eq!(app.back_queue, vec![AppMsg::DoneFetchPosts(arrived)]);
}

#[test]
fn later_page_of_posts_is_put_below() {
    let mut app = window();
    app.posts = vec![post(1, "old")];
    app.current_posts_page = 2;
    let action = app.update(AppMsg::DoneFetchPosts(vec![post(2, "new")]), &member(), "");
    assert_eq!(action, AppAction::Idle);
    assert_eq!(app.posts, vec![post(1, "old"), post(2, "new")]);
}

#[test]
fn fetching_communities_asks_with_what_is_typed() {
    let mut app = window();
    let action =
        app.update(AppMsg::FetchCommunities(Some(ListingType::Local), true), &member(), "rust");
    assert_eq!(
        action,
        AppAction::FetchCommunities(1, Some("rust".to_string()), Some(ListingType::Local))
    );
    assert_eq!(app.state, AppState::Communities);
    assert_eq!(app.current_communities_type, Some(ListingType::Local));
    assert_eq!(app.current_communities_page, 1);
    let action = app.update(AppMsg::FetchCommunities(None, false), &member(), "");
    assert_eq!(action, AppAction::FetchCommunities(2, None, None));
    assert_eq!(app.current_communities_page, 2);
    let action = app.update(AppMsg::FetchCommunities(None, false), &member(), " ");
    assert_eq!(action, AppAction::FetchCommunities(3, Some(" ".to_string()), None));
    assert!(app.back_queue.is_empty());
}

#[test]
fn pages_of_communities_fill_the_rows() {
    let mut app = window();
    app.communities = vec![community(1, "old")];
    let action =
        app.update(AppMsg::DoneFetchCommunities(vec![community(2, "new")]), &member(), "");
    assert_eq!(action, AppAction::Idle);
    assert_eq!(app.state, AppState::Communities);
    assert_eq!(app.communities, vec![community(2, "new")]);
    app.current_communities_page = 2;
    app.update(AppMsg::DoneFetchCommunities(vec![community(3, "more")]), &member(), "");
    assert_eq!(app.communities, vec![community(2, "new"), community(3, "more")]);
    assert_eq!(app.back_queue.len(), 2);
}

#[test]
fn opening_asks_the_service_and_shows_loading() {
    let mut app = window();
    app.state = AppState::Posts;
    assert_eq!(
        app.update(AppMsg::OpenPerson(PersonId(9)), &member(), ""),
        AppAction::FetchPerson(PersonId(9), 1)
    );
    assert_eq!(app.state, AppState::Loading);
    app.state = AppState::Posts;
    assert_eq!(
        app.update(AppMsg::OpenCommunity(CommunityId(3)), &member(), ""),
        AppAction::FetchCommunity(CommunityId(3))
    );
    assert_eq!(app.state, AppState::Loading);
    app.state = AppState::Posts;
    assert_eq!(
        app.update(AppMsg::OpenPost(PostId(5)), &member(), ""),
        AppAction::FetchPost(PostId(5))
    );
    assert_eq!(app.state, AppState::Loading);
    assert!(app.back_queue.is_empty());
}

#[test]
fn answers_are_shown_on_their_pages() {
    let mut app = window();
    assert_eq!(
        app.update(AppMsg::DoneFetchPerson(details(9, "bob")), &member(), ""),
        AppAction::UpdatePerson(details(9, "bob"))
    );
    assert_eq!(app.state, AppState::Person);
    let answer = GetCommunityResponse { community_view: community(3, "Rust") };
    assert_eq!(
        app.update(AppMsg::DoneFetchCommunity(answer), &member(), ""),
        AppAction::UpdateCommunity(community(3, "Rust"))
    );
    assert_eq!(app.state, AppState::Community);
    assert_eq!(
        app.update(
            AppMsg::DoneFetchPost(GetPostResponse { post_view: post(5, "five") }),
            &member(),
            ""
        ),
        AppAction::UpdatePost(GetPostResponse { post_view: post(5, "five") })
    );
    assert_eq!(app.state, AppState::Post);
    assert_eq!(
        app.back_queue,
        vec![
            AppMsg::DoneFetchPerson(details(9, "bob")),
            AppMsg::DoneFetchCommunity(GetCommunityResponse {
                community_view: community(3, "Rust")
            }),
            AppMsg::DoneFetchPost(GetPostResponse { post_view: post(5, "five") }),
        ]
    );
}

#[test]
fn login_screen_is_shown_on_request() {
    let mut app = window();
    assert_eq!(app.update(AppMsg::ShowLogin, &member(), ""), AppAction::Idle);
    assert_eq!(app.state, AppState::Login);
}

#[test]
fn login_is_sent_with_the_token_only_if_one_is_typed() {
    let mut app = window();
    app.state = AppState::Login;
    let msg = AppMsg::Login("ada".to_string(), "secret".to_string(), "".to_string());
    assert_eq!(
        app.update(msg, &member(), ""),
        AppAction::Login("ada".to_string(), "secret".to_string(), None)
    );
    assert_eq!(app.state, AppState::Loading);
    let msg = AppMsg::Login("ada".to_string(), "secret".to_string(), "123456".to_string());
    assert_eq!(
        app.update(msg, &member(), ""),
        AppAction::Login("ada".to_string(), "secret".to_string(), Some("123456".to_string()))
    );
}

#[test]
fn login_without_an_instance_does_nothing() {
    let mut app = window();
    app.state = AppState::Login;
    let msg = AppMsg::Login("ada".to_string(), "secret".to_string(), "".to_string());
    assert_eq!(app.update(msg, &account("", None, 0, ""), ""), AppAction::Idle);
    assert_eq!(app.state, AppState::Login);
}

#[test]
fn login_answer_with_a_token_is_kept() {
    assert_eq!(
        App::login_answered(
            Ok(Some("fresh".to_string())),
            &account("https://lemmy.example", None, 0, "")
        ),
        AppAction::SaveAccountThenFetchSite(account("https://lemmy.example", Some("fresh"), 0, ""))
    );
}

#[test]
fn login_answer_without_a_token_means_wrong_credentials() {
    assert_eq!(
        App::login_answered(Ok(None), &member()),
        AppAction::Send(AppMsg::ShowMessage("Wrong credentials!".to_string()))
    );
}

#[test]
fn login_failure_is_shown() {
    assert_eq!(
        App::login_answered(Err("connection refused".to_string()), &member()),
        AppAction::Send(AppMsg::ShowMessage("connection refused".to_string()))
    );
}

#[test]
fn site_answer_names_the_account() {
    assert_eq!(
        App::site_answered(
            account("https://lemmy.example", Some("fresh"), 0, ""),
            Some(person(12, "bob"))
        ),
        AppAction::SaveAccountThenSend(
            account("https://lemmy.example", Some("fresh"), 12, "bob"),
            AppMsg::LoggedIn
        )
    );
    assert_eq!(App::site_answered(member(), None), AppAction::Send(AppMsg::LoggedIn));
}

#[test]
fn logged_in_fetches_the_posts_anew() {
    let mut app = App::init(&account("https://lemmy.example", None, 0, "")).0;
    assert_eq!(
        app.update(AppMsg::LoggedIn, &member(), ""),
        AppAction::Send(AppMsg::StartFetchPosts(None, true))
    );
    assert!(app.logged_in);
}

#[test]
fn logout_drops_the_token() {
    let mut app = window();
    app.state = AppState::Posts;
    assert_eq!(
        app.update(AppMsg::Logout, &member(), ""),
        AppAction::SaveAccount(account("https://lemmy.example", None, 7, "ada"))
    );
    assert!(!app.logged_in);
    assert_eq!(app.state, AppState::Posts);
}

#[test]
fn message_is_shown_and_remembered() {
    let mut app = window();
    assert_eq!(app.update(AppMsg::ShowMessage("oops".to_string()), &member(), ""), AppAction::Idle);
    assert_eq!(app.state, AppState::Message);
    assert_eq!(app.message, Some("oops".to_string()));
    assert_eq!(app.back_queue, vec![AppMsg::ShowMessage("oops".to_string())]);
}

#[test]
fn inbox_is_fetched_when_opened() {
    let mut app = window();
    assert_eq!(app.update(AppMsg::OpenInbox, &member(), ""), AppAction::FetchInbox);
    assert_eq!(app.state, AppState::Inbox);
}

#[test]
fn about_changes_nothing() {
    let mut app = window();
    app.state = AppState::Posts;
    let before = App::init(&member()).0;
    assert_eq!(app.update(AppMsg::ShowAbout, &member(), ""), AppAction::Idle);
    assert_eq!(app.state, AppState::Posts);
    assert_eq!(app.back_queue, before.back_queue);
}

#[test]
fn only_screens_are_remembered() {
    assert!(AppMsg::DoneFetchPosts(vec![]).opens_screen());
    assert!(AppMsg::DoneFetchCommunities(vec![]).opens_screen());
    assert!(AppMsg::DoneFetchPerson(details(1, "a")).opens_screen());
    assert!(AppMsg::DoneFetchPost(GetPostResponse { post_view: post(1, "a") }).opens_screen());
    assert!(AppMsg::DoneFetchCommunity(GetCommunityResponse {
        community_view: community(1, "a")
    })
    .opens_screen());
    assert!(AppMsg::ShowMessage(String::new()).opens_screen());
    for msg in [
        AppMsg::ChooseInstance,
        AppMsg::ShowLogin,
        AppMsg::Login(String::new(), String::new(), String::new()),
        AppMsg::LoggedIn,
        AppMsg::Logout,
        AppMsg::DoneChoosingInstance(String::new()),
        AppMsg::StartFetchPosts(None, true),
        AppMsg::FetchCommunities(None, true),
        AppMsg::OpenCommunity(CommunityId(1)),
        AppMsg::OpenPerson(PersonId(1)),
        AppMsg::OpenPost(PostId(1)),
        AppMsg::OpenInbox,
        AppMsg::PopBackStack,
        AppMsg::ShowAbout,
    ] {
        assert!(!msg.opens_screen(), "{:?}", msg);
    }
}

#[test]
fn back_button_needs_two_screens() {
    let mut app = window();
    assert!(!app.can_go_back());
    assert!(!app.handles(&AppMsg::PopBackStack));
    app.update(AppMsg::DoneFetchPosts(vec![]), &member(), "");
    assert!(!app.can_go_back());
    assert!(!app.handles(&AppMsg::PopBackStack));
    app.update(AppMsg::ShowMessage("oops".to_string()), &member(), "");
    assert!(app.can_go_back());
    assert!(app.handles(&AppMsg::PopBackStack));
}

#[test]
fn going_back_shows_the_screen_before() {
    let mut app = window();
    let first = AppMsg::DoneFetchPosts(vec![post(1, "one")]);
    let second = AppMsg::DoneFetchPerson(details(9, "bob"));
    let third = AppMsg::ShowMessage("oops".to_string());
    app.update(first.clone(), &member(), "");
    app.update(second.clone(), &member(), "");
    app.update(third, &member(), "");
    assert_eq!(app.state, AppState::Message);

    let action = app.update(AppMsg::PopBackStack, &member(), "");
    assert_eq!(action, AppAction::Send(second.clone()));
    assert_eq!(app.back_queue, vec![first.clone()]);
    assert_eq!(app.state, AppState::Message);
    let action = app.update(second.clone(), &member(), "");
    assert_eq!(action, AppAction::UpdatePerson(details(9, "bob")));
    assert_eq!(app.state, AppState::Person);
    assert_eq!(app.back_queue, vec![first.clone(), second]);

    let action = app.update(AppMsg::PopBackStack, &member(), "");
    assert_eq!(action, AppAction::Send(first.clone()));
    assert!(app.back_queue.is_empty());
    app.update(first.clone(), &member(), "");
    assert_eq!(app.state, AppState::Posts);
    assert_eq!(app.posts, vec![post(1, "one")]);
    assert_eq!(app.back_queue, vec![first]);
    assert!(!app.can_go_back());
}

#[test]
fn answers_of_the_service_become_messages() {
    assert_eq!(AppMsg::posts_fetched(Ok(vec![post(1, "a")])), AppMsg::DoneFetchPosts(vec![post(1, "a")]));
    assert_eq!(
        AppMsg::communities_fetched(Ok(vec![community(1, "a")])),
        AppMsg::DoneFetchCommunities(vec![community(1, "a")])
    );
    assert_eq!(
        AppMsg::person_fetched(Ok(details(1, "a"))),
        AppMsg::DoneFetchPerson(details(1, "a"))
    );
    assert_eq!(
        AppMsg::community_fetched(Ok(GetCommunityResponse { community_view: community(1, "a") })),
        AppMsg::DoneFetchCommunity(GetCommunityResponse { community_view: community(1, "a") })
    );
    assert_eq!(
        AppMsg::post_fetched(Ok(GetPostResponse { post_view: post(1, "a") })),
        AppMsg::DoneFetchPost(GetPostResponse { post_view: post(1, "a") })
    );
}

#[test]
fn failures_of_the_service_become_messages_to_show() {
    let shown = AppMsg::ShowMessage("timed out".to_string());
    assert_eq!(AppMsg::posts_fetched(Err("timed out".to_string())), shown);
    assert_eq!(AppMsg::communities_fetched(Err("timed out".to_string())), shown);
    assert_eq!(AppMsg::person_fetched(Err("timed out".to_string())), shown);
    assert_eq!(AppMsg::community_fetched(Err("timed out".to_string())), shown);
    assert_eq!(AppMsg::post_fetched(Err("timed out".to_string())), shown);
}

#[test]
fn copies_equal_what_they_copy() {
    let msg = AppMsg::DoneFetchPerson(details(9, "bob"));
    assert_eq!(msg.clone(), msg);
    let msg = AppMsg::Login("a".to_string(), "b".to_string(), "c".to_string());
    assert_eq!(msg.clone(), msg);
    assert_eq!(member().clone(), member());
    assert_eq!(post(1, "a").clone(), post(1, "a"));
}

#[test]
fn parsed_instance_is_kept_without_its_last_character() {
    let mut app = window();
    app.state = AppState::ChooseInstance;
    app.update(AppMsg::ShowMessage("before".to_string()), &member(), "");
    let action = app.choose_instance(Ok("https://lemmy.example/".to_string()), &member());
    assert_eq!(
        action,
        AppAction::SaveAccountThenSend(
            account("https://lemmy.example", None, 7, "ada"),
            AppMsg::StartFetchPosts(None, true)
        )
    );
    assert_eq!(app.state, AppState::Loading);
    assert!(!app.logged_in);
    assert_eq!(app.message, Some("before".to_string()));
    assert_eq!(app.back_queue.len(), 1);
    let action = app.choose_instance(Ok("x".to_string()), &account("old", Some("t"), 1, "n"));
    assert_eq!(
        action,
        AppAction::SaveAccountThenSend(account("", None, 1, "n"), AppMsg::StartFetchPosts(None, true))
    );
}

#[test]
fn unparsed_instance_is_answered_with_the_complaint() {
    let mut app = window();
    app.state = AppState::ChooseInstance;
    let action = app.choose_instance(Err("empty host".to_string()), &member());
    assert_eq!(action, AppAction::Send(AppMsg::ShowMessage("empty host".to_string())));
    assert_eq!(app, {
        let mut same = window();
        same.state = AppState::ChooseInstance;
        same
    });
}
