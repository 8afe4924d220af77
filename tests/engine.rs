use code_review_bot::engine::{
    begin_pull_request_closed, begin_pull_request_opened, begin_review_command,
    begin_review_submitted, finish_message_update, finish_pull_request_opened, finish_reaction,
    github_id, handles_review, new_pull_request, next_state, reviews_reply, reviews_text,
    route_pull_request, PullRequestRoute, ReviewCommand, SkipReason, Step,
};
use code_review_bot::error::{DatabaseError, Error};
use code_review_bot::github::{
    Base, PRAction, PRResult, PRReview, PRReviewState, PRState, PullRequestEvent, Repo,
    RepoPermissions, ReviewAction, ReviewEvent, ReviewPR, User,
};
use code_review_bot::slack::{
    Reaction, SlackCreateCommentResponse, SlackMessagePostResponse, SlackMessageUpdateResponse,
    SlackRequest,
};
use code_review_bot::store::{NewUser, PullRequest, Store, User as Account};

fn gh_user(id: i32, login: &str) -> User {
    User {
        id,
        login: login.to_string(),
        avatar_url: format!("https://avatars.example.com/{}", login),
        html_url: format!("https://github.com/{}", login),
    }
}

fn base() -> Base {
    Base {
        repo: Repo {
            id: 1,
            owner: gh_user(100, "acme"),
            name: "widgets".to_string(),
            full_name: "acme/widgets".to_string(),
            permissions: RepoPermissions::default(),
        },
    }
}

fn pr(number: u32, draft: bool) -> PRResult {
    PRResult {
        url: format!("https://api.github.com/repos/acme/widgets/pulls/{}", number),
        html_url: format!("https://github.com/acme/widgets/pull/{}", number),
        title: "Add sprockets".to_string(),
        body: "Please look".to_string(),
        state: PRState::Open,
        merged: false,
        review_comments: 0,
        additions: 12,
        deletions: 3,
        number,
        draft,
        user: gh_user(7, "alice"),
        base: base(),
    }
}

fn pr_event(action: PRAction, number: u32, draft: bool) -> PullRequestEvent {
    PullRequestEvent { number, action, pull_request: pr(number, draft) }
}

fn review_event(number: u32, reviewer: User, state: PRReviewState) -> ReviewEvent {
    ReviewEvent {
        action: ReviewAction::Submitted,
        pull_request: ReviewPR {
            url: String::new(),
            html_url: String::new(),
            title: "Add sprockets".to_string(),
            body: String::new(),
            state: PRState::Open,
            number,
            draft: false,
            user: gh_user(7, "alice"),
            base: base(),
        },
        review: PRReview { state, user: reviewer },
    }
}

fn posted(ok: bool) -> SlackMessagePostResponse {
    SlackMessagePostResponse {
        channel: Some("C123".to_string()),
        ts: Some("1700000000.000100".to_string()),
        ok,
        error: if ok { None } else { Some("channel_not_found".to_string()) },
    }
}

fn open_pr(store: &mut Store, number: u32) {
    let event = pr_event(PRAction::Opened, number, false);
    let opening = proceed(begin_pull_request_opened(store, &event));
    let response = posted(true);
    let record = new_pull_request(&event, &opening.requester, &response);
    finish_pull_request_opened(store, record, response).unwrap();
}

fn proceed<T: std::fmt::Debug>(step: Step<T>) -> T {
    match step {
        Step::Proceed(t) => t,
        other => panic!("unexpected {:?}", other),
    }
}

fn find(store: &Store, gid: &str) -> Vec<PullRequest> {
    store.pull_requests.iter().filter(|p| p.github_id == gid).map(|p| p.duplicate()).collect()
}

#[test]
fn external_id_joins_repo_and_number() {
    assert_eq!(github_id("acme/widgets", 42), "acme/widgets-42");
    assert_eq!(github_id("a/b", 0), "a/b-0");
    assert_eq!(github_id("a/b", u32::MAX), "a/b-4294967295");
}

#[test]
fn next_state_only_moves_open_to_approved() {
    assert_eq!(next_state("open", true), "approved");
    assert_eq!(next_state("open", false), "open");
    assert_eq!(next_state("approved", false), "approved");
    assert_eq!(next_state("approved", true), "approved");
    assert_eq!(next_state("closed", true), "closed");
}

#[test]
fn lifecycle_actions_are_routed() {
    assert_eq!(route_pull_request(PRAction::Opened).unwrap(), PullRequestRoute::Opened);
    assert_eq!(route_pull_request(PRAction::ReadyForReview).unwrap(), PullRequestRoute::Opened);
    assert_eq!(route_pull_request(PRAction::Closed).unwrap(), PullRequestRoute::Closed);
    match route_pull_request(PRAction::Synchronize) {
        Err(Error::GithubError(m)) => assert_eq!(m, "Unhandled PR Action: Synchronize"),
        other => panic!("unexpected {:?}", other),
    }
}

#[test]
fn only_submitted_reviews_are_handled() {
    assert!(handles_review(ReviewAction::Submitted));
    assert!(!handles_review(ReviewAction::Editied));
    assert!(!handles_review(ReviewAction::Dismissed));
}

#[test]
fn opened_twice_records_one_pull_request() {
    let mut store = Store::new();
    open_pr(&mut store, 42);
    let event = pr_event(PRAction::Opened, 42, false);
    let opening = proceed(begin_pull_request_opened(&mut store, &event));
    let mut second = posted(true);
    second.ts = Some("1700000099.000200".to_string());
    let record = new_pull_request(&event, &opening.requester, &second);
    assert!(finish_pull_request_opened(&mut store, record, second).is_ok());
    let rows = find(&store, "acme/widgets-42");
    assert_eq!(rows.len(), 1);
    assert_eq!(rows[0].slack_message_id, "1700000000.000100");
    assert_eq!(store.github_users.len(), 1);
}

#[test]
fn draft_is_ignored() {
    let mut store = Store::new();
    let event = pr_event(PRAction::Opened, 5, true);
    assert!(matches!(begin_pull_request_opened(&mut store, &event), Step::Skipped(SkipReason::Draft)));
    assert_eq!(SkipReason::Draft.name(), "draft");
    assert_eq!(store.pull_requests.len(), 0);
    assert_eq!(store.github_users.len(), 0);
}

#[test]
fn failed_post_records_nothing() {
    let mut store = Store::new();
    let event = pr_event(PRAction::Opened, 6, false);
    let opening = proceed(begin_pull_request_opened(&mut store, &event));
    let response = posted(false);
    let record = new_pull_request(&event, &opening.requester, &response);
    match finish_pull_request_opened(&mut store, record, response) {
        Err(Error::SlackError(m)) => assert_eq!(m, "channel_not_found"),
        other => panic!("unexpected {:?}", other),
    }
    assert_eq!(store.pull_requests.len(), 0);
}

#[test]
fn self_review_changes_nothing() {
    let mut store = Store::new();
    open_pr(&mut store, 8);
    let event = review_event(8, gh_user(7, "alice"), PRReviewState::Approved);
    assert!(matches!(begin_review_submitted(&mut store, &event), Ok(Step::Skipped(SkipReason::SelfReview))));
    assert_eq!(SkipReason::SelfReview.name(), "self-review");
    assert_eq!(store.reviews.len(), 0);
    assert_eq!(find(&store, "acme/widgets-8")[0].state, "open");
}

#[test]
fn approved_stays_approved_after_a_comment() {
    let mut store = Store::new();
    open_pr(&mut store, 9);
    let bob = gh_user(8, "bob");
    let plan = proceed(begin_review_submitted(&mut store, &review_event(9, bob.clone(), PRReviewState::Approved)).unwrap());
    assert_eq!(plan.reaction, Reaction::Approve);
    let carol = gh_user(9, "carol");
    let plan = proceed(begin_review_submitted(&mut store, &review_event(9, carol, PRReviewState::Commented)).unwrap());
    assert_eq!(plan.reaction, Reaction::Comment);
    assert_eq!(plan.comment.name, "eyes");
    assert_eq!(find(&store, "acme/widgets-9")[0].state, "approved");
    let plan = proceed(begin_review_submitted(&mut store, &review_event(9, bob, PRReviewState::ChangesRequested)).unwrap());
    assert_eq!(plan.reaction, Reaction::Comment);
    assert_eq!(find(&store, "acme/widgets-9")[0].state, "approved");
    assert_eq!(store.reviews.len(), 2);
    assert_eq!(store.reviews[0].state, "changes_requested");
    assert_eq!(store.reviews[1].state, "commented");
}

#[test]
fn review_of_unknown_pull_request_is_not_found() {
    let mut store = Store::new();
    let event = review_event(77, gh_user(8, "bob"), PRReviewState::Approved);
    assert!(matches!(begin_review_submitted(&mut store, &event), Err(Error::DatabaseError(DatabaseError::NotFound))));
    assert_eq!(store.reviews.len(), 0);
}

#[test]
fn closing_unknown_pull_request_is_not_found() {
    let mut store = Store::new();
    let event = pr_event(PRAction::Closed, 3, false);
    assert!(matches!(begin_pull_request_closed(&mut store, &event), Err(Error::DatabaseError(DatabaseError::NotFound))));
}

#[test]
fn end_to_end_open_approve_close() {
    let mut store = Store::new();
    let event = pr_event(PRAction::Opened, 42, false);
    assert_eq!(route_pull_request(event.action).unwrap(), PullRequestRoute::Opened);
    let opening = proceed(begin_pull_request_opened(&mut store, &event));
    assert!(opening.account.is_none());
    let response = posted(true);
    let record = new_pull_request(&event, &opening.requester, &response);
    finish_pull_request_opened(&mut store, record, response).unwrap();
    let row = &find(&store, "acme/widgets-42")[0];
    assert_eq!(row.state, "open");
    assert_eq!(row.channel, "C123");
    assert_eq!(row.slack_message_id, "1700000000.000100");
    assert_eq!(row.display_text, "(+12 -3) <https://github.com/acme/widgets/pull/42|acme/widgets: Add sprockets> by alice");

    let review = review_event(42, gh_user(8, "bob"), PRReviewState::Approved);
    let plan = proceed(begin_review_submitted(&mut store, &review).unwrap());
    assert_eq!(find(&store, "acme/widgets-42")[0].state, "approved");
    assert_eq!(store.reviews.len(), 1);
    assert_eq!(store.reviews[0].state, "approved");
    assert_eq!(plan.reaction, Reaction::Approve);
    assert_eq!(plan.comment.name, "white_check_mark");
    assert_eq!(plan.comment.timestamp, "1700000000.000100");
    assert_eq!(plan.comment.channel, "C123");
    assert!(finish_reaction(SlackCreateCommentResponse { ok: true, error: None }).is_ok());

    let closed = pr_event(PRAction::Closed, 42, false);
    assert_eq!(route_pull_request(closed.action).unwrap(), PullRequestRoute::Closed);
    let closing = begin_pull_request_closed(&mut store, &closed).unwrap();
    assert_eq!(closing.pull_request.state, "closed");
    assert_eq!(closing.pull_request.slack_message_id, "1700000000.000100");
    assert_eq!(find(&store, "acme/widgets-42")[0].state, "closed");
    let update = SlackMessageUpdateResponse { channel: None, ts: None, ok: false, error: None };
    match finish_message_update(update) {
        Err(Error::SlackError(m)) => assert_eq!(m, "Unkown Error"),
        other => panic!("unexpected {:?}", other),
    }
    assert_eq!(find(&store, "acme/widgets-42")[0].state, "closed");
}

#[test]
fn linked_account_is_used_for_attribution() {
    let mut store = Store::new();
    let (_, account) = Account::create_or_update(
        NewUser { slack_user_id: "U1".to_string(), slack_access_token: "xoxp-1".to_string() },
        &mut store,
    );
    account.connect_to_github_user("gh-token", &gh_user(7, "alice"), &mut store).unwrap();
    let event = pr_event(PRAction::Opened, 11, false);
    let opening = proceed(begin_pull_request_opened(&mut store, &event));
    let linked = opening.account.unwrap();
    assert_eq!(linked.slack_access_token, "xoxp-1");
    assert_eq!(linked.github_access_token.as_deref(), Some("gh-token"));
}

#[test]
fn reviews_lists_only_open_pull_requests() {
    let mut store = Store::new();
    assert_eq!(reviews_text(&store), "All PRs Reviewed! :partyparrot:");
    open_pr(&mut store, 1);
    open_pr(&mut store, 2);
    open_pr(&mut store, 3);
    begin_pull_request_closed(&mut store, &pr_event(PRAction::Closed, 2, false)).unwrap();
    proceed(begin_review_submitted(&mut store, &review_event(3, gh_user(8, "bob"), PRReviewState::Approved)).unwrap());
    open_pr(&mut store, 4);
    assert_eq!(
        reviews_text(&store),
        "(+12 -3) <https://github.com/acme/widgets/pull/1|acme/widgets: Add sprockets> by alice\n(+12 -3) <https://github.com/acme/widgets/pull/4|acme/widgets: Add sprockets> by alice"
    );
    let reply = reviews_reply(&store, "C9");
    assert_eq!(reply.channel.as_deref(), Some("C9"));
    assert_eq!(reply.response_type, "in_channel");
    assert_eq!(reply.username.as_deref(), Some("Waiting for Review"));
}

#[test]
fn reviews_placeholder_when_none_open() {
    let mut store = Store::new();
    open_pr(&mut store, 1);
    begin_pull_request_closed(&mut store, &pr_event(PRAction::Closed, 1, false)).unwrap();
    assert_eq!(reviews_text(&store), "All PRs Reviewed! :partyparrot:");
}

fn command(user_id: &str, text: &str) -> SlackRequest {
    SlackRequest {
        text: text.to_string(),
        token: String::new(),
        response_url: String::new(),
        channel_id: "C1".to_string(),
        user_id: user_id.to_string(),
    }
}

#[test]
fn review_command_asks_unlinked_users_to_sign_in() {
    let store = Store::new();
    match begin_review_command(&store, &command("U1", "http://github.com/a/b/pulls/1"), "https://bot.example.com").unwrap() {
        ReviewCommand::Reply(r) => {
            assert_eq!(r.response_type, "ephemeral");
            assert_eq!(
                r.text.unwrap(),
                "To submit a pull request you must first sign in and connect your account to github here https://bot.example.com."
            );
        }
        other => panic!("unexpected {:?}", other),
    }
}

#[test]
fn review_command_usage_and_fetch() {
    let mut store = Store::new();
    let (_, account) = Account::create_or_update(
        NewUser { slack_user_id: "U1".to_string(), slack_access_token: "xoxp-1".to_string() },
        &mut store,
    );
    account.connect_to_github_user("gh-token", &gh_user(7, "alice"), &mut store).unwrap();
    match begin_review_command(&store, &command("U1", "  \t "), "https://bot").unwrap() {
        ReviewCommand::Reply(r) => assert_eq!(
            r.text.unwrap(),
            "Specify pull request For example: /code_review_bot http://github.com/facebook/react/pulls/123"
        ),
        other => panic!("unexpected {:?}", other),
    }
    match begin_review_command(&store, &command("U1", "HTTP://GitHub.com/Facebook/React/pulls/123"), "https://bot").unwrap() {
        ReviewCommand::Fetch { token, request } => {
            assert_eq!(token, "gh-token");
            assert_eq!(request.owner, "facebook");
            assert_eq!(request.name, "react");
            assert_eq!(request.id, "123");
        }
        other => panic!("unexpected {:?}", other),
    }
    assert!(matches!(
        begin_review_command(&store, &command("U1", "not a url"), "https://bot"),
        Err(Error::UrlParseError(_))
    ));
}
