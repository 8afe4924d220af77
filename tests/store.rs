use code_review_bot::error::DatabaseError;
use code_review_bot::github::{Repo, RepoPermissions, User};
use code_review_bot::store::{
    GithubUser, IconMapping, IconRule, NewPullRequest, NewUser, NewWebhook, PullRequest, Review,
    Store, User as Account, Webhook,
};

fn gh(id: i32, login: &str) -> User {
    User { id, login: login.to_string(), avatar_url: String::new(), html_url: String::new() }
}

fn new_pr(gid: &str) -> NewPullRequest {
    NewPullRequest {
        github_id: gid.to_string(),
        state: "open".to_string(),
        slack_message_id: "1.0".to_string(),
        channel: "C".to_string(),
        display_text: "text".to_string(),
        github_user_id: 0,
    }
}

#[test]
fn create_find_update() {
    let mut store = Store::new();
    let row = PullRequest::create(new_pr("a/b-1"), &mut store).unwrap();
    assert_eq!(row.id, 0);
    assert!(matches!(PullRequest::create(new_pr("a/b-1"), &mut store), Err(DatabaseError::Conflict)));
    assert_eq!(store.pull_requests.len(), 1);
    assert!(matches!(PullRequest::find("a/b-2", &store), Err(DatabaseError::NotFound)));
    let found = PullRequest::find("a/b-1", &store).unwrap();
    let updated = found.update("closed", &mut store).unwrap();
    assert_eq!(updated.state, "closed");
    assert_eq!(PullRequest::by_state("closed", &store).len(), 1);
    assert_eq!(PullRequest::by_state("open", &store).len(), 0);
}

#[test]
fn identities_are_created_once() {
    let mut store = Store::new();
    let first = GithubUser::find_or_create(&gh(5, "eve"), &mut store, Some(3));
    let again = GithubUser::find_or_create(&gh(5, "eve-renamed"), &mut store, None);
    assert_eq!(store.github_users.len(), 1);
    assert_eq!(again.login, "eve-renamed");
    assert_eq!(store.github_users[0].login, "eve-renamed");
    assert_eq!(again.user_id, Some(3));
    assert_eq!(first.id, again.id);
}

#[test]
fn reviews_are_upserted() {
    let mut store = Store::new();
    let reviewer = GithubUser::find_or_create(&gh(5, "eve"), &mut store, None);
    let pr = PullRequest::create(new_pr("a/b-1"), &mut store).unwrap();
    let first = Review::create_or_update(&reviewer, &pr, "commented", &mut store);
    let second = Review::create_or_update(&reviewer, &pr, "approved", &mut store);
    assert_eq!(first.id, second.id);
    assert_eq!(store.reviews.len(), 1);
    assert_eq!(store.reviews[0].state, "approved");
}

#[test]
fn accounts() {
    let mut store = Store::new();
    let (updated, account) = Account::create_or_update(
        NewUser { slack_user_id: "U1".to_string(), slack_access_token: "t1".to_string() },
        &mut store,
    );
    assert!(!updated);
    let (updated, again) = Account::create_or_update(
        NewUser { slack_user_id: "U1".to_string(), slack_access_token: "t2".to_string() },
        &mut store,
    );
    assert!(updated);
    assert_eq!(again.id, account.id);
    assert_eq!(store.users.len(), 1);
    assert_eq!(Account::find_by_slack_id("U1", &store).unwrap().slack_access_token, "t2");
    let linked = account.connect_to_github_user("gh", &gh(9, "zed"), &mut store).unwrap();
    assert!(linked.is_gh_authed());
    assert_eq!(store.github_users[0].user_id, Some(account.id));
    linked.logout(&mut store).unwrap();
    assert!(!Account::find(account.id, &store).unwrap().is_gh_authed());
    assert!(Account::find(42, &store).is_none());
}

#[test]
fn webhook_registrations() {
    let mut store = Store::new();
    let hook = Webhook::create(
        NewWebhook { hook_id: "77".to_string(), name: "widgets".to_string(), owner: "acme".to_string() },
        &mut store,
    )
    .unwrap();
    Webhook::create(
        NewWebhook { hook_id: "78".to_string(), name: "gears".to_string(), owner: "acme".to_string() },
        &mut store,
    )
    .unwrap();
    let repo = Repo {
        id: 1,
        owner: gh(1, "acme"),
        name: "widgets".to_string(),
        full_name: "acme/widgets".to_string(),
        permissions: RepoPermissions::default(),
    };
    let found = Webhook::for_repos(&[repo.clone()], &store);
    assert_eq!(found.len(), 1);
    assert_eq!(found[0].hook_id, "77");
    assert_eq!(code_review_bot::store::webhook_for_repo(&store.webhooks, &repo), Some(0));
    assert_eq!(Webhook::find(hook.id, &store).unwrap().hook_id, "77");
    hook.delete(&mut store);
    assert!(matches!(Webhook::find(hook.id, &store), Err(DatabaseError::NotFound)));
    assert_eq!(store.webhooks.len(), 1);
}

#[test]
fn icons_match_names_or_extensions_once_per_image() {
    let mut store = Store::new();
    let rule = |id: usize, kind: &str, image: &str, names: &[&str], exts: &[&str]| IconRule {
        mapping: IconMapping { id, file_type: kind.to_string(), image_file: image.to_string() },
        file_names: names.iter().map(|s| s.to_string()).collect(),
        extensions: exts.iter().map(|s| s.to_string()).collect(),
    };
    store.icons.push(rule(1, "rust", "rust.svg", &["Cargo.toml"], &[".rs"]));
    store.icons.push(rule(2, "javascript", "js.svg", &[], &[".js"]));
    store.icons.push(rule(3, "rust-lock", "rust.svg", &["Cargo.lock"], &[]));
    store.icons.push(rule(4, "docker", "docker.svg", &["Dockerfile"], &[]));
    let icons = IconMapping::from(vec!["Cargo.lock".to_string(), "README".to_string()], vec![".rs".to_string()], &store);
    assert_eq!(icons.len(), 1);
    assert_eq!(icons[0].file_type, "rust");
    assert_eq!(icons[0].image_path(), "/public/icons/rust.svg");
    let icons = IconMapping::from(vec!["Dockerfile".to_string()], vec![".js".to_string()], &store);
    assert_eq!(icons.iter().map(|i| i.id).collect::<Vec<_>>(), vec![2, 4]);
}
