use code_review_bot::error::Error;
use code_review_bot::github::{
    api_url, files_url, hook_url, hooks_url, pull_request_url, repos_url, signed_decimal_string,
    token_authorization, user_url,
};
use code_review_bot::links::{PaginationParams, ReviewRequest};
use code_review_bot::github::{
    additions_string, event_hook_index, Base, ContentType, FileResult, NewWebhook, PRFiles,
    PRResult, PRReviewState, PRState, Repo, RepoPermissions, User, Webhook, WebhookConfig,
};
use code_review_bot::slack::{
    account_authorization, basic_authorization, handle_response, Block, Elements, Reaction,
    SlackCreateComment, SlackEventWrapper, SlackMessagePost, SlackMessagePostResponse,
    SlackMessageResponse, SlackMessageUpdate,
};
use code_review_bot::store::{IconMapping, User as Account};
use code_review_bot::web::{AppSettings, Flash, FlashType, SetupData};

fn user(login: &str) -> User {
    User { id: 1, login: login.to_string(), avatar_url: "https://a/x.png".to_string(), html_url: String::new() }
}

fn pr(state: PRState, merged: bool) -> PRResult {
    PRResult {
        url: String::new(),
        html_url: "https://github.com/acme/widgets/pull/42".to_string(),
        title: "Add sprockets".to_string(),
        body: String::new(),
        state,
        merged,
        review_comments: 0,
        additions: 120,
        deletions: 0,
        number: 42,
        draft: false,
        user: user("alice"),
        base: Base {
            repo: Repo {
                id: 1,
                owner: user("acme"),
                name: "widgets".to_string(),
                full_name: "acme/widgets".to_string(),
                permissions: RepoPermissions::default(),
            },
        },
    }
}

fn icon(id: usize, kind: &str, file: &str) -> IconMapping {
    IconMapping { id, file_type: kind.to_string(), image_file: file.to_string() }
}

fn file(name: &str) -> FileResult {
    FileResult { filename: name.to_string() }
}

#[test]
fn display_and_images() {
    let open = pr(PRState::Open, false);
    assert_eq!(open.display_text(), "(+120 -0) <https://github.com/acme/widgets/pull/42|acme/widgets: Add sprockets> by alice");
    assert_eq!(open.image_path(), "/public/images/open.png");
    assert!(open.open());
    assert_eq!(pr(PRState::Closed, true).image_path(), "/public/images/merged.png");
    assert_eq!(pr(PRState::Closed, false).image_path(), "/public/images/closed.png");
    assert!(!pr(PRState::Closed, false).open());
    assert_eq!(additions_string(7, 1234567), "(+7 -1234567)");
}

#[test]
fn file_names_and_extensions() {
    assert_eq!(file("src/main.rs").filename().unwrap(), "main.rs");
    assert_eq!(file("src/main.rs").extension().unwrap(), ".rs");
    assert_eq!(file("Makefile").extension(), None);
    assert_eq!(file("a/.gitignore").extension(), None);
    assert_eq!(file("a/..").filename(), None);
}

#[test]
fn pr_files_collects_and_dedups_neighbouring_extensions() {
    let files = vec![file("a/x.rs"), file("b/y.rs"), file("Makefile"), file("z.js"), file("w.rs")];
    let collected = PRFiles::new(Some(files));
    assert_eq!(collected.filenames, vec!["x.rs", "y.rs", "Makefile", "z.js", "w.rs"]);
    assert_eq!(collected.extensions, vec![".rs", ".js", ".rs"]);
    let none = PRFiles::new(None);
    assert!(none.filenames.is_empty() && none.extensions.is_empty());
}

#[test]
fn blocks_hold_at_most_three_elements() {
    let pull = pr(PRState::Open, false);
    let blocks = Block::from_pull_request(&pull, vec![icon(1, "rust", "rust.svg"), icon(2, "js", "js.svg")], "(+1 -2)", "https://bot");
    assert_eq!(blocks.len(), 2);
    match &blocks[0] {
        Block::Section(s) => {
            assert_eq!(s.text.text, "*Add sprockets*\n<https://github.com/acme/widgets/pull/42|acme/widgets> by alice");
            assert_eq!(s.text.text_type, "mrkdwn");
        }
        _ => panic!("section expected"),
    }
    match &blocks[1] {
        Block::Context(c) => {
            assert_eq!(c.elements.len(), 3);
            match &c.elements[0] {
                Elements::Image(i) => {
                    assert_eq!(i.image_url, "https://bot/public/images/open.png");
                    assert_eq!(i.alt_text, "pull request status");
                    assert_eq!(i.image_type, "image");
                }
                _ => panic!("image expected"),
            }
            match &c.elements[1] {
                Elements::Text(t) => assert_eq!(t.text, "(+1 -2)"),
                _ => panic!("text expected"),
            }
            match &c.elements[2] {
                Elements::Image(i) => {
                    assert_eq!(i.image_url, "https://bot/public/icons/rust.svg");
                    assert_eq!(i.alt_text, "rust");
                }
                _ => panic!("image expected"),
            }
        }
        _ => panic!("context expected"),
    }
    let bare = Block::from_pull_request(&pull, vec![], "(+1 -2)", "https://bot");
    match &bare[1] {
        Block::Context(c) => assert_eq!(c.elements.len(), 2),
        _ => panic!("context expected"),
    }
}

#[test]
fn post_as_bot_or_as_account() {
    let pull = pr(PRState::Open, false);
    let bot = SlackMessagePost::new(&pull, vec![], "C1", "https://bot", false);
    assert_eq!(bot.username.as_deref(), Some("alice"));
    assert_eq!(bot.icon_url.as_deref(), Some("https://a/x.png"));
    assert_eq!(bot.channel, "C1");
    let as_account = SlackMessagePost::new(&pull, vec![], "C1", "https://bot", true);
    assert!(as_account.username.is_none() && as_account.icon_url.is_none());
    let update = SlackMessageUpdate::new(&pull, vec![], "123.4", "C1", "https://bot");
    assert_eq!(update.ts, "123.4");
    let comment = SlackCreateComment::new(Reaction::Approve, "123.4", "C1");
    assert_eq!(comment.name, "white_check_mark");
    assert_eq!(Reaction::Comment.name(), "eyes");
}

#[test]
fn authorizations() {
    let account = Account {
        id: 0,
        username: String::new(),
        slack_user_id: "U1".to_string(),
        slack_access_token: "xoxp-9".to_string(),
        github_access_token: None,
    };
    assert_eq!(account_authorization(&Some(account)).unwrap(), "Bearer xoxp-9");
    assert!(account_authorization(&None).is_none());
    assert_eq!(basic_authorization("id", "secret"), "Basic aWQ6c2VjcmV0");
}

#[test]
fn soft_failures_become_errors() {
    let ok = SlackMessagePostResponse { channel: None, ts: None, ok: true, error: None };
    assert!(handle_response(ok).is_ok());
    let failed = SlackMessagePostResponse { channel: None, ts: None, ok: false, error: Some("invalid_auth".to_string()) };
    match handle_response(failed) {
        Err(Error::SlackError(m)) => assert_eq!(m, "invalid_auth"),
        other => panic!("unexpected {:?}", other),
    }
}

#[test]
fn replies() {
    let r = SlackMessageResponse::ephemeral("hi".to_string());
    assert_eq!(r.response_type, "ephemeral");
    assert!(r.as_user);
    let v = SlackEventWrapper::UrlVerification { token: "t".to_string(), challenge: "abc".to_string() }.respond();
    assert_eq!(v.challenge, "abc");
}

#[test]
fn webhooks() {
    let hook = NewWebhook::new("https://bot/github_event");
    assert_eq!(hook.events, vec!["pull_request", "pull_request_review"]);
    assert_eq!(hook.config.content_type, ContentType::Json);
    assert_eq!(hook.config.secret.as_deref(), Some("update-only"));
    let listed = |id: i32, url: &str| Webhook {
        id,
        config: WebhookConfig { url: url.to_string(), content_type: ContentType::Json, secret: None },
        events: vec![],
    };
    let hooks = vec![listed(1, "https://ci.example.com/hook"), listed(2, "https://bot/github_event"), listed(3, "https://other/github_event")];
    assert_eq!(event_hook_index(&hooks), Some(1));
    assert_eq!(event_hook_index(&hooks[..1].to_vec()), None);
    assert_eq!(PRReviewState::ChangesRequested.name(), "changes_requested");
}

#[test]
fn flashes_and_settings() {
    let ok: Result<(), Error> = Ok(());
    let f = Flash::from_result(ok, "Setup Complete!");
    assert_eq!(f.message_type, FlashType::Info);
    assert_eq!(f.message, "Setup Complete!");
    let failed: Result<(), Error> = Err(Error::NotFoundError);
    let f = Flash::from_result(failed, "Setup Complete!");
    assert_eq!(f.message_type, FlashType::Error);
    assert_eq!(f.message, "Something went wrong!");
    assert_eq!(FlashType::Warn.name(), "warning");
    let setup = SetupData {
        slack_client_id: "sid".to_string(),
        slack_client_secret: "ssec".to_string(),
        slack_token: "stok".to_string(),
        slack_channel: "chan".to_string(),
        github_client_id: "gid".to_string(),
        github_client_secret: "gsec".to_string(),
        app_url: "https://bot".to_string(),
    };
    let mut configs = setup.configs();
    assert_eq!(configs.len(), 7);
    assert_eq!(configs[3].key, "slack_token");
    let settings = AppSettings::from_configs(&configs).unwrap();
    assert_eq!(settings.github_oauth.client_id, "gid");
    assert_eq!(settings.webhook_url(), "https://bot/github_event");
    configs.push(code_review_bot::store::Config::new("app_url", "https://new"));
    assert_eq!(AppSettings::from_configs(&configs).unwrap().app_url, "https://new");
    configs.retain(|c| c.key != "slack_token");
    assert!(AppSettings::from_configs(&configs).is_none());
    assert_eq!(Error::NotFoundError.message(), "Record not found");
}

#[test]
fn code_host_requests() {
    let api = api_url();
    assert_eq!(api, "https://api.github.com");
    let request = ReviewRequest { owner: "facebook".to_string(), name: "react".to_string(), id: "123".to_string() };
    assert_eq!(pull_request_url(&api, &request), "https://api.github.com/repos/facebook/react/pulls/123");
    let mut pull = pr(PRState::Open, false);
    pull.url = "https://api.github.com/repos/acme/widgets/pulls/42".to_string();
    assert_eq!(files_url(&pull), "https://api.github.com/repos/acme/widgets/pulls/42/files");
    assert_eq!(hooks_url(&api, "acme", "widgets"), "https://api.github.com/repos/acme/widgets/hooks");
    let hook = code_review_bot::store::Webhook { id: 0, hook_id: "77".to_string(), name: "widgets".to_string(), owner: "acme".to_string() };
    assert_eq!(hook_url(&api, &hook), "https://api.github.com/repos/acme/widgets/hooks/77");
    assert_eq!(user_url(&api), "https://api.github.com/user");
    assert_eq!(repos_url(&api, &PaginationParams { page: None }), "https://api.github.com/user/repos?sort=updated&page=1");
    assert_eq!(repos_url(&api, &PaginationParams { page: Some("4".to_string()) }), "https://api.github.com/user/repos?sort=updated&page=4");
    assert_eq!(token_authorization("abc"), "token abc");
    assert_eq!(signed_decimal_string(-12), "-12");
    assert_eq!(signed_decimal_string(i32::MIN), "-2147483648");
    assert_eq!(signed_decimal_string(305), "305");
    let listed = Webhook {
        id: 9001,
        config: WebhookConfig { url: "https://bot/github_event".to_string(), content_type: ContentType::Json, secret: None },
        events: vec![],
    };
    let registration = listed.registration("acme", "widgets");
    assert_eq!(registration.hook_id, "9001");
    assert_eq!(registration.owner, "acme");
}

#[test]
fn error_responses() {
    let r = Error::DatabaseError(code_review_bot::error::DatabaseError::NotFound).response();
    assert_eq!(r.status, 404);
    assert_eq!(r.body, r#"{ "error": "Record not found" }"#);
    let r = Error::SlackError("bad \"token\"\n".to_string()).response();
    assert_eq!(r.status, 502);
    assert_eq!(r.body, r#"{ "error": "Slack Error: bad \"token\"\u000a" }"#);
    assert_eq!(Error::GithubError("Unhandled PR Action: Edited".to_string()).response().status, 422);
    assert_eq!(Error::JsonError("x".to_string()).response().status, 400);
    assert_eq!(Error::ServerError("x".to_string()).response().body, r#"{ "error": "Something went wrong" }"#);
    assert_eq!(Error::ServerError("x".to_string()).response().status, 500);
    assert_eq!(Error::SlackError("bad".to_string()).message(), "Slack Error: bad");
}
