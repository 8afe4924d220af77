use vstd::prelude::*;
use vstd::string::*;

use crate::error::DatabaseError;
use crate::github;
use crate::text::{owned, str_eq};

verus! {

/// A setting collected by the setup form.
#[derive(Debug)]
pub struct Config {
    pub key: String,
    pub value: String,
}

impl Config {
    pub fn new(key: &str, value: &str) -> (r: Config)
        ensures
            r.key@ == key@,
            r.value@ == value@,
    {
        Config { key: owned(key), value: owned(value) }
    }
}

/// The fields of a pull request's record that are fixed at creation.
#[derive(Debug)]
pub struct NewPullRequest {
    pub github_id: String,
    pub state: String,
    pub slack_message_id: String,
    pub channel: String,
    pub display_text: String,
    pub github_user_id: usize,
}

/// The stored state of a pull request, keyed by `owner/repo-number`.
#[derive(Debug)]
pub struct PullRequest {
    pub id: usize,
    pub github_id: String,
    pub state: String,
    pub slack_message_id: String,
    pub channel: String,
    pub display_text: String,
    pub github_user_id: usize,
}

/// A code-host identity, linked to at most one local account.
#[derive(Debug)]
pub struct GithubUser {
    pub id: usize,
    pub login: String,
    pub avatar_url: String,
    pub github_id: i32,
    pub user_id: Option<usize>,
}

/// The latest review one identity gave one pull request.
#[derive(Debug)]
pub struct Review {
    pub id: usize,
    pub github_user_id: usize,
    pub pull_request_id: usize,
    pub state: String,
}

/// What the chat login hands over for an account.
#[derive(Debug)]
pub struct NewUser {
    pub slack_user_id: String,
    pub slack_access_token: String,
}

/// A local account: a chat user and, once linked, a code-host token.
#[derive(Debug)]
pub struct User {
    pub id: usize,
    pub username: String,
    pub slack_user_id: String,
    pub slack_access_token: String,
    pub github_access_token: Option<String>,
}

/// The fields of a webhook registration fixed at creation.
#[derive(Debug)]
pub struct NewWebhook {
    pub hook_id: String,
    pub name: String,
    pub owner: String,
}

/// A webhook this service registered on a repository.
#[derive(Debug)]
pub struct Webhook {
    pub id: usize,
    pub hook_id: String,
    pub name: String,
    pub owner: String,
}

/// An icon shown beside pull requests that touch files of one kind.
#[derive(Debug)]
pub struct IconMapping {
    pub id: usize,
    pub file_type: String,
    pub image_file: String,
}

pub open spec fn icon_path(image_file: Seq<char>) -> Seq<char> {
    "/public/icons/"@ + image_file
}

impl IconMapping {
    /// Where the icon's image is served.
    pub fn image_path(&self) -> (r: String)
        ensures
            r@ == icon_path(self.image_file@),
    {
        let mut r = owned("/public/icons/");
        r.append(self.image_file.as_str());
        r
    }
}

/// The records the engine keeps: accounts, identities, pull requests,
/// reviews, webhook registrations and settings. A record's id is its
/// position among the records of its kind.
pub struct Store {
    pub users: Vec<User>,
    pub github_users: Vec<GithubUser>,
    pub pull_requests: Vec<PullRequest>,
    pub reviews: Vec<Review>,
    pub webhooks: Vec<Webhook>,
    pub configs: Vec<Config>,
    pub icons: Vec<IconRule>,
    /// The id the next webhook registration gets.
    pub next_webhook_id: u64,
}

/// An icon and the file names and extensions it stands for.
#[derive(Debug)]
pub struct IconRule {
    pub mapping: IconMapping,
    pub file_names: Vec<String>,
    pub extensions: Vec<String>,
}

pub open spec fn listed_any(candidates: Seq<Seq<char>>, listed: Seq<Seq<char>>) -> bool {
    exists|i: int| 0 <= i < candidates.len() && listed.contains(#[trigger] candidates[i])
}

/// An icon applies when one of its file names or extensions is among those given.
pub open spec fn rule_applies(rule: IconRule, names: Seq<Seq<char>>, exts: Seq<Seq<char>>) -> bool {
    listed_any(crate::text::all_chars(rule.file_names@), names) || listed_any(
        crate::text::all_chars(rule.extensions@),
        exts,
    )
}

pub open spec fn shows_image(icons: Seq<IconMapping>, image_file: Seq<char>) -> bool {
    exists|k: int| 0 <= k < icons.len() && (#[trigger] icons[k]).image_file@ == image_file
}

/// The icons that apply, in table order, each image once (its first icon).
pub open spec fn icons_for(rules: Seq<IconRule>, names: Seq<Seq<char>>, exts: Seq<Seq<char>>) -> Seq<IconMapping>
    decreases rules.len(),
{
    if rules.len() == 0 {
        Seq::empty()
    } else {
        let prev = icons_for(rules.drop_last(), names, exts);
        let r = rules.last();
        if rule_applies(r, names, exts) && !shows_image(prev, r.mapping.image_file@) {
            prev.push(r.mapping)
        } else {
            prev
        }
    }
}

pub open spec fn has_pr(prs: Seq<PullRequest>, gid: Seq<char>) -> bool {
    exists|i: int| 0 <= i < prs.len() && (#[trigger] prs[i]).github_id@ == gid
}

/// No two pull requests share an external id.
pub open spec fn unique_prs(prs: Seq<PullRequest>) -> bool {
    forall|i: int, j: int|
        0 <= i < prs.len() && 0 <= j < prs.len() && (#[trigger] prs[i]).github_id@ == (
        #[trigger] prs[j]).github_id@ ==> i == j
}

/// The pull requests recorded under an external id.
pub open spec fn prs_with_id(prs: Seq<PullRequest>, gid: Seq<char>) -> Seq<PullRequest> {
    prs.filter(|p: PullRequest| p.github_id@ == gid)
}

/// The position of the pull request with the external id.
pub open spec fn pr_index(prs: Seq<PullRequest>, gid: Seq<char>) -> int {
    choose|i: int| 0 <= i < prs.len() && (#[trigger] prs[i]).github_id@ == gid
}

pub open spec fn has_identity(ids: Seq<GithubUser>, github_id: i32) -> bool {
    exists|i: int| 0 <= i < ids.len() && (#[trigger] ids[i]).github_id == github_id
}

pub open spec fn identity_index(ids: Seq<GithubUser>, github_id: i32) -> int {
    choose|i: int| 0 <= i < ids.len() && (#[trigger] ids[i]).github_id == github_id
}

pub open spec fn has_review(reviews: Seq<Review>, reviewer: usize, pr: usize) -> bool {
    exists|i: int|
        0 <= i < reviews.len() && (#[trigger] reviews[i]).github_user_id == reviewer
            && reviews[i].pull_request_id == pr
}

pub open spec fn review_index(reviews: Seq<Review>, reviewer: usize, pr: usize) -> int {
    choose|i: int|
        0 <= i < reviews.len() && (#[trigger] reviews[i]).github_user_id == reviewer
            && reviews[i].pull_request_id == pr
}

/// The identities after looking one up: a known one takes the display
/// fields given (login and avatar) and keeps its id and account link; an
/// unknown one is added.
pub open spec fn with_identity(ids: Seq<GithubUser>, user: github::User, u_id: Option<usize>) -> Seq<GithubUser> {
    if has_identity(ids, user.id) {
        let k = identity_index(ids, user.id);
        ids.update(k, GithubUser { login: user.login, avatar_url: user.avatar_url, ..ids[k] })
    } else {
        ids.push(
            GithubUser {
                id: ids.len() as usize,
                login: user.login,
                avatar_url: user.avatar_url,
                github_id: user.id,
                user_id: u_id,
            },
        )
    }
}

/// The reviews after recording `state` as the latest verdict of one identity on the pull request.
pub open spec fn review_recorded(before: Seq<Review>, after: Seq<Review>, reviewer: usize, pr: usize, state: Seq<char>) -> bool {
    if has_review(before, reviewer, pr) {
        let k = review_index(before, reviewer, pr);
        &&& after.len() == before.len()
        &&& forall|i: int| 0 <= i < before.len() && i != k ==> after[i] == before[i]
        &&& after[k].id == before[k].id
        &&& after[k].github_user_id == reviewer
        &&& after[k].pull_request_id == pr
        &&& after[k].state@ == state
    } else {
        &&& after.len() == before.len() + 1
        &&& after.drop_last() == before
        &&& after.last().id == before.len()
        &&& after.last().github_user_id == reviewer
        &&& after.last().pull_request_id == pr
        &&& after.last().state@ == state
    }
}

/// The pull request rows after recording a new one, unless one with the same
/// external id is already there.
pub open spec fn record_once(prs: Seq<PullRequest>, row: PullRequest) -> Seq<PullRequest> {
    if has_pr(prs, row.github_id@) {
        prs
    } else {
        prs.push(row)
    }
}

/// The pull request rows of the given state.
pub open spec fn prs_in_state(prs: Seq<PullRequest>, state: Seq<char>) -> Seq<PullRequest> {
    prs.filter(|p: PullRequest| p.state@ == state)
}

/// The account of the chat user, if there is one (there is at most one).
pub open spec fn account_with_slack_id(users: Seq<User>, slack_id: Seq<char>) -> Option<User> {
    if exists|i: int| 0 <= i < users.len() && (#[trigger] users[i]).slack_user_id@ == slack_id {
        Some(users[choose|i: int| 0 <= i < users.len() && (#[trigger] users[i]).slack_user_id@ == slack_id])
    } else {
        None
    }
}

/// The account linked to an identity, if the link points at one.
pub open spec fn account_of(users: Seq<User>, identity: GithubUser) -> Option<User> {
    match identity.user_id {
        Some(u) => if u < users.len() {
            Some(users[u as int])
        } else {
            None
        },
        None => None,
    }
}

impl Store {
    pub open spec fn wf(&self) -> bool {
        &&& forall|i: int| 0 <= i < self.users@.len() ==> (#[trigger] self.users@[i]).id == i
        &&& forall|i: int|
            0 <= i < self.github_users@.len() ==> (#[trigger] self.github_users@[i]).id == i
        &&& forall|i: int|
            0 <= i < self.pull_requests@.len() ==> (#[trigger] self.pull_requests@[i]).id == i
        &&& forall|i: int| 0 <= i < self.reviews@.len() ==> (#[trigger] self.reviews@[i]).id == i
        &&& unique_prs(self.pull_requests@)
        &&& forall|i: int, j: int|
            0 <= i < self.users@.len() && 0 <= j < self.users@.len() && (
            #[trigger] self.users@[i]).slack_user_id@ == (#[trigger] self.users@[j]).slack_user_id@
                ==> i == j
        &&& forall|i: int, j: int|
            0 <= i < self.github_users@.len() && 0 <= j < self.github_users@.len() && (
            #[trigger] self.github_users@[i]).github_id == (#[trigger] self.github_users@[j]).github_id
                ==> i == j
        &&& forall|i: int, j: int|
            0 <= i < self.reviews@.len() && 0 <= j < self.reviews@.len() && (
            #[trigger] self.reviews@[i]).github_user_id == (#[trigger] self.reviews@[j]).github_user_id
                && self.reviews@[i].pull_request_id == self.reviews@[j].pull_request_id ==> i == j
    }

    /// An empty store.
    pub fn new() -> (r: Store)
        ensures
            r.wf(),
            r.users@.len() == 0,
            r.github_users@.len() == 0,
            r.pull_requests@.len() == 0,
            r.reviews@.len() == 0,
            r.webhooks@.len() == 0,
            r.configs@.len() == 0,
    {
        Store {
            users: Vec::new(),
            github_users: Vec::new(),
            pull_requests: Vec::new(),
            reviews: Vec::new(),
            webhooks: Vec::new(),
            configs: Vec::new(),
            icons: Vec::new(),
            next_webhook_id: 1,
        }
    }
}

/// Whether the text is one of the strings.
pub fn contains_string(v: &Vec<String>, s: &str) -> (r: bool)
    ensures
        r == crate::text::all_chars(v@).contains(s@),
{
    let ghost views = crate::text::all_chars(v@);
    let mut i: usize = 0;
    while i < v.len()
        invariant
            views == crate::text::all_chars(v@),
            i <= v@.len(),
            forall|j: int| 0 <= j < i ==> views[j] != s@,
        decreases v@.len() - i,
    {
        if str_eq(v[i].as_str(), s) {
            assert(views[i as int] == s@);
            return true;
        }
        i = i + 1;
    }
    false
}

/// Whether one of the candidates is listed.
fn any_listed(candidates: &Vec<String>, listed: &Vec<String>) -> (r: bool)
    ensures
        r == listed_any(crate::text::all_chars(candidates@), crate::text::all_chars(listed@)),
{
    let ghost cs = crate::text::all_chars(candidates@);
    let mut i: usize = 0;
    while i < candidates.len()
        invariant
            cs == crate::text::all_chars(candidates@),
            i <= candidates@.len(),
            forall|j: int| 0 <= j < i ==> !crate::text::all_chars(listed@).contains(#[trigger] cs[j]),
        decreases candidates@.len() - i,
    {
        if contains_string(listed, candidates[i].as_str()) {
            assert(crate::text::all_chars(listed@).contains(cs[i as int]));
            return true;
        }
        i = i + 1;
    }
    false
}

impl IconMapping {
    /// A field-by-field copy.
    pub fn duplicate(&self) -> (r: IconMapping)
        ensures
            r == *self,
    {
        IconMapping { id: self.id, file_type: self.file_type.clone(), image_file: self.image_file.clone() }
    }

    /// The icons for a pull request's changed files.
    pub fn from(filenames: Vec<String>, extensions: Vec<String>, store: &Store) -> (r: Vec<IconMapping>)
        ensures
            r@ == icons_for(store.icons@, crate::text::all_chars(filenames@), crate::text::all_chars(extensions@)),
    {
        let ghost names = crate::text::all_chars(filenames@);
        let ghost exts = crate::text::all_chars(extensions@);
        let ghost rules = store.icons@;
        let mut out: Vec<IconMapping> = Vec::new();
        let mut i: usize = 0;
        while i < store.icons.len()
            invariant
                rules == store.icons@,
                names == crate::text::all_chars(filenames@),
                exts == crate::text::all_chars(extensions@),
                i <= rules.len(),
                out@ == icons_for(rules.subrange(0, i as int), names, exts),
            decreases rules.len() - i,
        {
            let rule = &store.icons[i];
            proof {
                assert(rules.subrange(0, i + 1).drop_last() =~= rules.subrange(0, i as int));
                assert(rules.subrange(0, i + 1).last() == rules[i as int]);
            }
            let applies = any_listed(&rule.file_names, &filenames) || any_listed(&rule.extensions, &extensions);
            if applies {
                let mut seen = false;
                let mut k: usize = 0;
                while k < out.len()
                    invariant
                        k <= out@.len(),
                        seen == exists|m: int| 0 <= m < k && (#[trigger] out@[m]).image_file@ == rule.mapping.image_file@,
                    decreases out@.len() - k,
                {
                    if str_eq(out[k].image_file.as_str(), rule.mapping.image_file.as_str()) {
                        seen = true;
                    }
                    k = k + 1;
                }
                if !seen {
                    out.push(rule.mapping.duplicate());
                }
            }
            i = i + 1;
        }
        assert(rules.subrange(0, rules.len() as int) =~= rules);
        out
    }
}

impl Webhook {
    /// A field-by-field copy.
    pub fn duplicate(&self) -> (r: Webhook)
        ensures
            r == *self,
    {
        Webhook { id: self.id, hook_id: self.hook_id.clone(), name: self.name.clone(), owner: self.owner.clone() }
    }

    /// Records a webhook registration under a fresh id.
    pub fn create(new_webhook: NewWebhook, store: &mut Store) -> (r: Result<Webhook, DatabaseError>)
        requires
            old(store).wf(),
        ensures
            final(store).wf(),
            final(store).icons == old(store).icons,
            old(store).next_webhook_id == u64::MAX ==> r == Err::<Webhook, DatabaseError>(DatabaseError::Conflict) && *final(store) == *old(store),
            old(store).next_webhook_id < u64::MAX ==> r is Ok && r->Ok_0 == (Webhook {
                id: old(store).next_webhook_id as usize,
                hook_id: new_webhook.hook_id,
                name: new_webhook.name,
                owner: new_webhook.owner,
            }) && final(store).webhooks@ == old(store).webhooks@.push(r->Ok_0)
                && final(store).next_webhook_id == old(store).next_webhook_id + 1,
            final(store).users == old(store).users,
            final(store).github_users == old(store).github_users,
            final(store).pull_requests == old(store).pull_requests,
            final(store).reviews == old(store).reviews,
    {
        if store.next_webhook_id == u64::MAX {
            return Err(DatabaseError::Conflict);
        }
        let row = Webhook {
            id: store.next_webhook_id as usize,
            hook_id: new_webhook.hook_id,
            name: new_webhook.name,
            owner: new_webhook.owner,
        };
        let out = row.duplicate();
        store.webhooks.push(row);
        store.next_webhook_id = store.next_webhook_id + 1;
        Ok(out)
    }

    /// The registration with the id.
    pub fn find(find_id: usize, store: &Store) -> (r: Result<Webhook, DatabaseError>)
        ensures
            r is Err <==> forall|i: int| 0 <= i < store.webhooks@.len() ==> (#[trigger] store.webhooks@[i]).id != find_id,
            r is Err ==> r->Err_0 == DatabaseError::NotFound,
            r is Ok ==> r->Ok_0.id == find_id && store.webhooks@.contains(r->Ok_0),
    {
        let mut i: usize = 0;
        while i < store.webhooks.len()
            invariant
                i <= store.webhooks@.len(),
                forall|j: int| 0 <= j < i ==> (#[trigger] store.webhooks@[j]).id != find_id,
            decreases store.webhooks@.len() - i,
        {
            if store.webhooks[i].id == find_id {
                let w = store.webhooks[i].duplicate();
                assert(store.webhooks@[i as int] == w);
                return Ok(w);
            }
            i = i + 1;
        }
        Err(DatabaseError::NotFound)
    }

    /// Removes the registration.
    pub fn delete(&self, store: &mut Store)
        requires
            old(store).wf(),
        ensures
            final(store).wf(),
            final(store).icons == old(store).icons,
            final(store).next_webhook_id == old(store).next_webhook_id,
            final(store).webhooks@ == old(store).webhooks@.filter(|w: Webhook| w.id != self.id),
            final(store).users == old(store).users,
            final(store).github_users == old(store).github_users,
            final(store).pull_requests == old(store).pull_requests,
            final(store).reviews == old(store).reviews,
    {
        let ghost before = store.webhooks@;
        let mut kept: Vec<Webhook> = Vec::new();
        let mut i: usize = 0;
        while i < store.webhooks.len()
            invariant
                before == store.webhooks@,
                i <= before.len(),
                kept@ == before.subrange(0, i as int).filter(|w: Webhook| w.id != self.id),
            decreases before.len() - i,
        {
            proof {
                assert(before.subrange(0, i + 1).drop_last() =~= before.subrange(0, i as int));
                reveal(Seq::filter);
            }
            if store.webhooks[i].id != self.id {
                kept.push(store.webhooks[i].duplicate());
            }
            i = i + 1;
        }
        assert(before.subrange(0, before.len() as int) =~= before);
        store.webhooks = kept;
    }

    /// The registrations of the given repositories.
    pub fn for_repos(repos: &[github::Repo], store: &Store) -> (r: Vec<Webhook>)
        ensures
            r@ == store.webhooks@.filter(|w: Webhook| registered_for_any(w, repos@)),
    {
        let ghost hooks = store.webhooks@;
        let mut out: Vec<Webhook> = Vec::new();
        let mut i: usize = 0;
        while i < store.webhooks.len()
            invariant
                hooks == store.webhooks@,
                i <= hooks.len(),
                out@ == hooks.subrange(0, i as int).filter(|w: Webhook| registered_for_any(w, repos@)),
            decreases hooks.len() - i,
        {
            proof {
                assert(hooks.subrange(0, i + 1).drop_last() =~= hooks.subrange(0, i as int));
                reveal(Seq::filter);
            }
            if repo_position(&store.webhooks[i], repos).is_some() {
                out.push(store.webhooks[i].duplicate());
            }
            i = i + 1;
        }
        assert(hooks.subrange(0, hooks.len() as int) =~= hooks);
        out
    }
}

/// The registration belongs to the repository.
pub open spec fn registered_for(w: Webhook, repo: github::Repo) -> bool {
    w.owner@ == repo.owner.login@ && w.name@ == repo.name@
}

pub open spec fn registered_for_any(w: Webhook, repos: Seq<github::Repo>) -> bool {
    exists|i: int| 0 <= i < repos.len() && registered_for(w, #[trigger] repos[i])
}

fn repo_position(w: &Webhook, repos: &[github::Repo]) -> (r: Option<usize>)
    ensures
        r is None <==> !registered_for_any(*w, repos@),
{
    let mut i: usize = 0;
    while i < repos.len()
        invariant
            i <= repos@.len(),
            forall|j: int| 0 <= j < i ==> !registered_for(*w, #[trigger] repos@[j]),
        decreases repos@.len() - i,
    {
        if str_eq(w.owner.as_str(), repos[i].owner.login.as_str()) && str_eq(w.name.as_str(), repos[i].name.as_str()) {
            assert(registered_for(*w, repos@[i as int]));
            return Some(i);
        }
        i = i + 1;
    }
    None
}

/// The position of the first registration of the repository, if any: what a
/// repository listing shows beside it.
pub fn webhook_for_repo(webhooks: &Vec<Webhook>, repo: &github::Repo) -> (r: Option<usize>)
    ensures
        r is None ==> forall|i: int| 0 <= i < webhooks@.len() ==> !registered_for(#[trigger] webhooks@[i], *repo),
        r is Some ==> r->Some_0 < webhooks@.len() && registered_for(webhooks@[r->Some_0 as int], *repo)
            && forall|i: int| 0 <= i < r->Some_0 ==> !registered_for(#[trigger] webhooks@[i], *repo),
{
    let mut i: usize = 0;
    while i < webhooks.len()
        invariant
            i <= webhooks@.len(),
            forall|j: int| 0 <= j < i ==> !registered_for(#[trigger] webhooks@[j], *repo),
        decreases webhooks@.len() - i,
    {
        if str_eq(webhooks[i].owner.as_str(), repo.owner.login.as_str()) && str_eq(webhooks[i].name.as_str(), repo.name.as_str()) {
            return Some(i);
        }
        i = i + 1;
    }
    None
}

impl Config {
    /// A field-by-field copy.
    pub fn duplicate(&self) -> (r: Config)
        ensures
            r == *self,
    {
        Config { key: self.key.clone(), value: self.value.clone() }
    }

    /// Every stored setting.
    pub fn all(store: &Store) -> (r: Vec<Config>)
        ensures
            r@ == store.configs@,
    {
        let mut out: Vec<Config> = Vec::new();
        let mut i: usize = 0;
        while i < store.configs.len()
            invariant
                i <= store.configs@.len(),
                out@ == store.configs@.subrange(0, i as int),
            decreases store.configs@.len() - i,
        {
            out.push(store.configs[i].duplicate());
            proof {
                assert(store.configs@.subrange(0, i + 1) =~= store.configs@.subrange(0, i as int).push(store.configs@[i as int]));
            }
            i = i + 1;
        }
        assert(store.configs@.subrange(0, store.configs@.len() as int) =~= store.configs@);
        out
    }

    /// Stores the settings after those already there.
    pub fn create(new_configs: Vec<Config>, store: &mut Store)
        requires
            old(store).wf(),
        ensures
            final(store).wf(),
            final(store).icons == old(store).icons,
            final(store).next_webhook_id == old(store).next_webhook_id,
            final(store).configs@ == old(store).configs@ + new_configs@,
            final(store).users == old(store).users,
            final(store).github_users == old(store).github_users,
            final(store).pull_requests == old(store).pull_requests,
            final(store).reviews == old(store).reviews,
            final(store).webhooks == old(store).webhooks,
    {
        let mut rest = new_configs;
        let ghost start = store.configs@;
        let ghost all_new = rest@;
        let mut i: usize = 0;
        let n = rest.len();
        while i < n
            invariant
                n == all_new.len(),
                i <= n,
                store.wf(),
                store.configs@ == start + all_new.subrange(0, i as int),
                store.users == old(store).users,
                store.github_users == old(store).github_users,
                store.pull_requests == old(store).pull_requests,
                store.reviews == old(store).reviews,
                store.webhooks == old(store).webhooks,
                store.icons == old(store).icons,
                store.next_webhook_id == old(store).next_webhook_id,
                rest@ == all_new,
            decreases n - i,
        {
            let c = rest[i].duplicate();
            store.configs.push(c);
            proof {
                assert(all_new.subrange(0, i + 1) =~= all_new.subrange(0, i as int).push(all_new[i as int]));
                assert(start + all_new.subrange(0, i + 1) =~= (start + all_new.subrange(0, i as int)).push(all_new[i as int]));
            }
            i = i + 1;
        }
        assert(all_new.subrange(0, n as int) =~= all_new);
    }
}

impl PullRequest {
    /// A field-by-field copy.
    pub fn duplicate(&self) -> (r: PullRequest)
        ensures
            r == *self,
    {
        PullRequest {
            id: self.id,
            github_id: self.github_id.clone(),
            state: self.state.clone(),
            slack_message_id: self.slack_message_id.clone(),
            channel: self.channel.clone(),
            display_text: self.display_text.clone(),
            github_user_id: self.github_user_id,
        }
    }

    /// Position of the pull request with the external id, if recorded.
    fn position(gh_id: &str, store: &Store) -> (r: Option<usize>)
        requires
            store.wf(),
        ensures
            r is None <==> !has_pr(store.pull_requests@, gh_id@),
            r is Some ==> r->Some_0 == pr_index(store.pull_requests@, gh_id@),
            r is Some ==> r->Some_0 < store.pull_requests@.len(),
    {
        let mut i: usize = 0;
        while i < store.pull_requests.len()
            invariant
                store.wf(),
                i <= store.pull_requests@.len(),
                forall|j: int| 0 <= j < i ==> (#[trigger] store.pull_requests@[j]).github_id@ != gh_id@,
            decreases store.pull_requests@.len() - i,
        {
            if str_eq(store.pull_requests[i].github_id.as_str(), gh_id) {
                proof {
                    let prs = store.pull_requests@;
                    assert(prs[i as int].github_id@ == gh_id@);
                    assert(has_pr(prs, gh_id@));
                    let k = pr_index(prs, gh_id@);
                    assert(0 <= k < prs.len() && prs[k].github_id@ == gh_id@);
                    assert(unique_prs(prs));
                    assert(prs[k].github_id@ == prs[i as int].github_id@);
                    assert(k == i as int);
                }
                return Some(i);
            }
            i = i + 1;
        }
        None
    }

    /// Records a new pull request; an existing record with the same external
    /// id is kept and reported as a conflict.
    pub fn create(pr: NewPullRequest, store: &mut Store) -> (r: Result<PullRequest, DatabaseError>)
        requires
            old(store).wf(),
        ensures
            final(store).wf(),
            final(store).icons == old(store).icons,
            final(store).next_webhook_id == old(store).next_webhook_id,
            final(store).users == old(store).users,
            final(store).github_users == old(store).github_users,
            final(store).reviews == old(store).reviews,
            final(store).webhooks == old(store).webhooks,
            final(store).configs == old(store).configs,
            has_pr(old(store).pull_requests@, pr.github_id@) ==> r == Err::<PullRequest, DatabaseError>(DatabaseError::Conflict)
                && final(store).pull_requests@ == old(store).pull_requests@,
            !has_pr(old(store).pull_requests@, pr.github_id@) ==> r is Ok && r->Ok_0 == (PullRequest {
                id: old(store).pull_requests@.len() as usize,
                github_id: pr.github_id,
                state: pr.state,
                slack_message_id: pr.slack_message_id,
                channel: pr.channel,
                display_text: pr.display_text,
                github_user_id: pr.github_user_id,
            }) && final(store).pull_requests@ == old(store).pull_requests@.push(r->Ok_0),
            final(store).pull_requests@ == record_once(
                old(store).pull_requests@,
                PullRequest {
                    id: old(store).pull_requests@.len() as usize,
                    github_id: pr.github_id,
                    state: pr.state,
                    slack_message_id: pr.slack_message_id,
                    channel: pr.channel,
                    display_text: pr.display_text,
                    github_user_id: pr.github_user_id,
                },
            ),
    {
        if PullRequest::position(pr.github_id.as_str(), store).is_some() {
            return Err(DatabaseError::Conflict);
        }
        let row = PullRequest {
            id: store.pull_requests.len(),
            github_id: pr.github_id,
            state: pr.state,
            slack_message_id: pr.slack_message_id,
            channel: pr.channel,
            display_text: pr.display_text,
            github_user_id: pr.github_user_id,
        };
        let out = row.duplicate();
        store.pull_requests.push(row);
        proof {
            let prs = store.pull_requests@;
            assert forall|i: int, j: int|
                0 <= i < prs.len() && 0 <= j < prs.len() && (#[trigger] prs[i]).github_id@ == (
                #[trigger] prs[j]).github_id@ implies i == j by {
                let n = prs.len() - 1;
                if i < n && j < n {
                    assert(old(store).pull_requests@[i] == prs[i]);
                    assert(old(store).pull_requests@[j] == prs[j]);
                } else if i < n {
                    assert(old(store).pull_requests@[i] == prs[i]);
                } else if j < n {
                    assert(old(store).pull_requests@[j] == prs[j]);
                }
            }
        }
        Ok(out)
    }

    /// The pull request recorded under the external id.
    pub fn find(gh_id: &str, store: &Store) -> (r: Result<PullRequest, DatabaseError>)
        requires
            store.wf(),
        ensures
            !has_pr(store.pull_requests@, gh_id@) <==> r == Err::<PullRequest, DatabaseError>(DatabaseError::NotFound),
            has_pr(store.pull_requests@, gh_id@) ==> r == Ok::<PullRequest, DatabaseError>(
                store.pull_requests@[pr_index(store.pull_requests@, gh_id@)],
            ),
    {
        match PullRequest::position(gh_id, store) {
            Some(i) => Ok(store.pull_requests[i].duplicate()),
            None => Err(DatabaseError::NotFound),
        }
    }

    /// The pull requests in the given state, in the order they were recorded.
    pub fn by_state(query_state: &str, store: &Store) -> (r: Vec<PullRequest>)
        ensures
            r@ == prs_in_state(store.pull_requests@, query_state@),
    {
        let ghost prs = store.pull_requests@;
        let mut out: Vec<PullRequest> = Vec::new();
        let mut i: usize = 0;
        while i < store.pull_requests.len()
            invariant
                prs == store.pull_requests@,
                i <= prs.len(),
                out@ == prs_in_state(prs.subrange(0, i as int), query_state@),
            decreases prs.len() - i,
        {
            proof {
                assert(prs.subrange(0, i + 1).drop_last() =~= prs.subrange(0, i as int));
                reveal(Seq::filter);
            }
            if str_eq(store.pull_requests[i].state.as_str(), query_state) {
                out.push(store.pull_requests[i].duplicate());
            }
            i = i + 1;
        }
        assert(prs.subrange(0, prs.len() as int) =~= prs);
        assert(out@ == prs_in_state(prs, query_state@));
        out
    }

    /// Moves the recorded pull request to a new state; the rest of its record stays.
    pub fn update(&self, new_state: &str, store: &mut Store) -> (r: Result<PullRequest, DatabaseError>)
        requires
            old(store).wf(),
        ensures
            final(store).wf(),
            final(store).icons == old(store).icons,
            final(store).next_webhook_id == old(store).next_webhook_id,
            final(store).users == old(store).users,
            final(store).github_users == old(store).github_users,
            final(store).reviews == old(store).reviews,
            final(store).webhooks == old(store).webhooks,
            final(store).configs == old(store).configs,
            !(self.id < old(store).pull_requests@.len()) ==> r == Err::<PullRequest, DatabaseError>(DatabaseError::NotFound)
                && final(store).pull_requests == old(store).pull_requests,
            self.id < old(store).pull_requests@.len() ==> ({
                let before = old(store).pull_requests@[self.id as int];
                &&& r is Ok
                &&& r->Ok_0.state@ == new_state@
                &&& r->Ok_0 == PullRequest { state: r->Ok_0.state, ..before }
                &&& final(store).pull_requests@ == old(store).pull_requests@.update(self.id as int, r->Ok_0)
            }),
    {
        if self.id >= store.pull_requests.len() {
            return Err(DatabaseError::NotFound);
        }
        let before = store.pull_requests[self.id].duplicate();
        let row = PullRequest { state: owned(new_state), ..before };
        let out = row.duplicate();
        store.pull_requests.set(self.id, row);
        proof {
            let prs = store.pull_requests@;
            let o = old(store).pull_requests@;
            assert forall|i: int, j: int|
                0 <= i < prs.len() && 0 <= j < prs.len() && (#[trigger] prs[i]).github_id@ == (
                #[trigger] prs[j]).github_id@ implies i == j by {
                assert(prs[i].github_id == o[i].github_id);
                assert(prs[j].github_id == o[j].github_id);
            }
            assert forall|i: int| 0 <= i < prs.len() implies (#[trigger] prs[i]).id == i by {
                assert(prs[i].id == o[i].id);
            }
        }
        Ok(out)
    }

    /// The account linked to the identity that opened the pull request.
    pub fn user(&self, store: &Store) -> (r: Result<Option<User>, DatabaseError>)
        ensures
            !(self.github_user_id < store.github_users@.len()) ==> r == Err::<Option<User>, DatabaseError>(DatabaseError::NotFound),
            self.github_user_id < store.github_users@.len() ==> r == Ok::<Option<User>, DatabaseError>(
                account_of(store.users@, store.github_users@[self.github_user_id as int]),
            ),
    {
        if self.github_user_id >= store.github_users.len() {
            return Err(DatabaseError::NotFound);
        }
        Ok(store.github_users[self.github_user_id].user(store))
    }
}

impl User {
    /// A field-by-field copy.
    pub fn duplicate(&self) -> (r: User)
        ensures
            r == *self,
    {
        User {
            id: self.id,
            username: self.username.clone(),
            slack_user_id: self.slack_user_id.clone(),
            slack_access_token: self.slack_access_token.clone(),
            github_access_token: match &self.github_access_token {
                Some(t) => Some(t.clone()),
                None => None,
            },
        }
    }

    /// The account with the id, if there is one.
    pub fn find(find_id: usize, store: &Store) -> (r: Option<User>)
        ensures
            find_id < store.users@.len() ==> r == Some(store.users@[find_id as int]),
            !(find_id < store.users@.len()) ==> r is None,
    {
        if find_id < store.users.len() {
            Some(store.users[find_id].duplicate())
        } else {
            None
        }
    }

    /// The account of the chat user, if there is one.
    pub fn find_by_slack_id(slack_id: &str, store: &Store) -> (r: Option<User>)
        requires
            store.wf(),
        ensures
            r == account_with_slack_id(store.users@, slack_id@),
    {
        let mut i: usize = 0;
        while i < store.users.len()
            invariant
                store.wf(),
                i <= store.users@.len(),
                forall|j: int| 0 <= j < i ==> (#[trigger] store.users@[j]).slack_user_id@ != slack_id@,
            decreases store.users@.len() - i,
        {
            if str_eq(store.users[i].slack_user_id.as_str(), slack_id) {
                let u = store.users[i].duplicate();
                proof {
                    let us = store.users@;
                    assert(us[i as int].slack_user_id@ == slack_id@);
                    let k = choose|k: int| 0 <= k < us.len() && (#[trigger] us[k]).slack_user_id@ == slack_id@;
                    assert(us[k].slack_user_id@ == us[i as int].slack_user_id@);
                }
                return Some(u);
            }
            i = i + 1;
        }
        None
    }

    /// Records a chat login: an account of the chat user gets the new chat
    /// token, and a chat user without one gets a new account. The flag is
    /// true when an existing account was updated.
    pub fn create_or_update(new_user: NewUser, store: &mut Store) -> (r: (bool, User))
        requires
            old(store).wf(),
        ensures
            final(store).wf(),
            final(store).icons == old(store).icons,
            final(store).next_webhook_id == old(store).next_webhook_id,
            final(store).github_users == old(store).github_users,
            final(store).pull_requests == old(store).pull_requests,
            final(store).reviews == old(store).reviews,
            final(store).webhooks == old(store).webhooks,
            final(store).configs == old(store).configs,
            r.1.slack_user_id@ == new_user.slack_user_id@,
            r.1.slack_access_token == new_user.slack_access_token,
            r.1.id < final(store).users@.len(),
            final(store).users@[r.1.id as int] == r.1,
            r.0 ==> r.1.id < old(store).users@.len() && final(store).users@ == old(store).users@.update(
                r.1.id as int,
                r.1,
            ) && r.1 == (User {
                slack_access_token: new_user.slack_access_token,
                ..old(store).users@[r.1.id as int]
            }),
            r.0 <==> exists|i: int| 0 <= i < old(store).users@.len() && (#[trigger] old(store).users@[i]).slack_user_id@ == new_user.slack_user_id@,
            !r.0 ==> r.1.id == old(store).users@.len() && final(store).users@ == old(store).users@.push(r.1)
                && r.1.github_access_token is None && r.1.username@.len() == 0,
    {
        let mut i: usize = 0;
        while i < store.users.len()
            invariant
                *store == *old(store),
                old(store).wf(),
                i <= store.users@.len(),
                forall|j: int| 0 <= j < i ==> (#[trigger] store.users@[j]).slack_user_id@ != new_user.slack_user_id@,
            decreases store.users@.len() - i,
        {
            if str_eq(store.users[i].slack_user_id.as_str(), new_user.slack_user_id.as_str()) {
                let before = store.users[i].duplicate();
                let row = User { slack_access_token: new_user.slack_access_token, ..before };
                let out = row.duplicate();
                store.users.set(i, row);
                proof {
                    let us = store.users@;
                    assert(old(store).users@[i as int].slack_user_id@ == new_user.slack_user_id@);
                    assert forall|a: int| 0 <= a < us.len() implies (#[trigger] us[a]).id == a by {
                        assert(us[a].id == old(store).users@[a].id);
                    }
                }
                return (true, out);
            }
            i = i + 1;
        }
        let row = User {
            id: store.users.len(),
            username: String::new(),
            slack_user_id: new_user.slack_user_id,
            slack_access_token: new_user.slack_access_token,
            github_access_token: None,
        };
        let out = row.duplicate();
        store.users.push(row);
        proof {
            let us = store.users@;
            assert forall|a: int| 0 <= a < us.len() implies (#[trigger] us[a]).id == a by {
                if a < old(store).users@.len() {
                    assert(us[a] == old(store).users@[a]);
                }
            }
        }
        (false, out)
    }

    /// Links the account to a code-host identity and keeps the code-host
    /// token. An identity already recorded keeps the link it has.
    pub fn connect_to_github_user(&self, access_token: &str, github_user: &github::User, store: &mut Store) -> (r: Result<User, DatabaseError>)
        requires
            old(store).wf(),
        ensures
            final(store).wf(),
            final(store).icons == old(store).icons,
            final(store).next_webhook_id == old(store).next_webhook_id,
            final(store).pull_requests == old(store).pull_requests,
            final(store).reviews == old(store).reviews,
            final(store).webhooks == old(store).webhooks,
            final(store).configs == old(store).configs,
            !(self.id < old(store).users@.len()) ==> r == Err::<User, DatabaseError>(DatabaseError::NotFound) && *final(store) == *old(store),
            self.id < old(store).users@.len() ==> ({
                let before = old(store).users@[self.id as int];
                &&& final(store).github_users@ == with_identity(old(store).github_users@, *github_user, Some(self.id))
                &&& r is Ok
                &&& r->Ok_0.github_access_token is Some
                &&& r->Ok_0.github_access_token->Some_0@ == access_token@
                &&& r->Ok_0 == User { github_access_token: r->Ok_0.github_access_token, ..before }
                &&& final(store).users@ == old(store).users@.update(self.id as int, r->Ok_0)
            }),
    {
        if self.id >= store.users.len() {
            return Err(DatabaseError::NotFound);
        }
        let _ = GithubUser::find_or_create(github_user, store, Some(self.id));
        let before = store.users[self.id].duplicate();
        let row = User { github_access_token: Some(owned(access_token)), ..before };
        let out = row.duplicate();
        store.users.set(self.id, row);
        proof {
            let us = store.users@;
            assert forall|a: int| 0 <= a < us.len() implies (#[trigger] us[a]).id == a by {
                assert(us[a].id == old(store).users@[a].id);
            }
        }
        Ok(out)
    }

    /// Forgets the account's code-host token.
    pub fn logout(&self, store: &mut Store) -> (r: Result<(), DatabaseError>)
        requires
            old(store).wf(),
        ensures
            final(store).wf(),
            final(store).icons == old(store).icons,
            final(store).next_webhook_id == old(store).next_webhook_id,
            final(store).github_users == old(store).github_users,
            final(store).pull_requests == old(store).pull_requests,
            final(store).reviews == old(store).reviews,
            final(store).webhooks == old(store).webhooks,
            final(store).configs == old(store).configs,
            !(self.id < old(store).users@.len()) ==> r is Err && *final(store) == *old(store),
            self.id < old(store).users@.len() ==> r is Ok && final(store).users@ == old(store).users@.update(
                self.id as int,
                User { github_access_token: None, ..old(store).users@[self.id as int] },
            ),
    {
        if self.id >= store.users.len() {
            return Err(DatabaseError::NotFound);
        }
        let before = store.users[self.id].duplicate();
        let row = User { github_access_token: None, ..before };
        store.users.set(self.id, row);
        proof {
            let us = store.users@;
            assert forall|a: int| 0 <= a < us.len() implies (#[trigger] us[a]).id == a by {
                assert(us[a].id == old(store).users@[a].id);
            }
        }
        Ok(())
    }

    /// Whether the account holds a code-host token.
    pub fn is_gh_authed(&self) -> (r: bool)
        ensures
            r == self.github_access_token is Some,
    {
        self.github_access_token.is_some()
    }
}

impl GithubUser {
    /// A field-by-field copy.
    pub fn duplicate(&self) -> (r: GithubUser)
        ensures
            r == *self,
    {
        GithubUser {
            id: self.id,
            login: self.login.clone(),
            avatar_url: self.avatar_url.clone(),
            github_id: self.github_id,
            user_id: self.user_id,
        }
    }

    /// The identity with the code host's id; created, linked to `u_id`, if
    /// there is none yet. An existing identity is returned as it is.
    pub fn find_or_create(user: &github::User, store: &mut Store, u_id: Option<usize>) -> (r: GithubUser)
        requires
            old(store).wf(),
        ensures
            final(store).wf(),
            final(store).icons == old(store).icons,
            final(store).next_webhook_id == old(store).next_webhook_id,
            final(store).users == old(store).users,
            final(store).pull_requests == old(store).pull_requests,
            final(store).reviews == old(store).reviews,
            final(store).webhooks == old(store).webhooks,
            final(store).configs == old(store).configs,
            has_identity(old(store).github_users@, user.id) ==> ({
                let k = identity_index(old(store).github_users@, user.id);
                r == (GithubUser { login: user.login, avatar_url: user.avatar_url, ..old(store).github_users@[k] })
            }),
            !has_identity(old(store).github_users@, user.id) ==> r == (GithubUser {
                id: old(store).github_users@.len() as usize,
                login: user.login,
                avatar_url: user.avatar_url,
                github_id: user.id,
                user_id: u_id,
            }) && final(store).github_users@ == old(store).github_users@.push(r),
            final(store).github_users@ == with_identity(old(store).github_users@, *user, u_id),
            r == final(store).github_users@[identity_index(final(store).github_users@, user.id)],
            r.github_id == user.id,
            r.id < final(store).github_users@.len(),
            final(store).github_users@[r.id as int] == r,
    {
        let mut i: usize = 0;
        while i < store.github_users.len()
            invariant
                *store == *old(store),
                old(store).wf(),
                i <= store.github_users@.len(),
                forall|j: int| 0 <= j < i ==> (#[trigger] store.github_users@[j]).github_id != user.id,
            decreases store.github_users@.len() - i,
        {
            if store.github_users[i].github_id == user.id {
                proof {
                    let k = identity_index(store.github_users@, user.id);
                    assert(store.github_users@[i as int].github_id == user.id);
                    assert(store.github_users@[k].github_id == store.github_users@[i as int].github_id);
                }
                let before = store.github_users[i].duplicate();
                let row = GithubUser { login: user.login.clone(), avatar_url: user.avatar_url.clone(), ..before };
                let out = row.duplicate();
                store.github_users.set(i, row);
                proof {
                    let ids = store.github_users@;
                    let o = old(store).github_users@;
                    assert(ids == o.update(i as int, out));
                    assert forall|a: int, b: int|
                        0 <= a < ids.len() && 0 <= b < ids.len() && (#[trigger] ids[a]).github_id == (
                        #[trigger] ids[b]).github_id implies a == b by {
                        assert(ids[a].github_id == o[a].github_id);
                        assert(ids[b].github_id == o[b].github_id);
                    }
                    assert forall|a: int| 0 <= a < ids.len() implies (#[trigger] ids[a]).id == a by {
                        assert(ids[a].id == o[a].id);
                    }
                    assert(ids[i as int].github_id == user.id);
                    let k2 = identity_index(ids, user.id);
                    assert(ids[k2].github_id == ids[i as int].github_id);
                }
                return out;
            }
            i = i + 1;
        }
        let row = GithubUser {
            id: store.github_users.len(),
            login: user.login.clone(),
            avatar_url: user.avatar_url.clone(),
            github_id: user.id,
            user_id: u_id,
        };
        let out = row.duplicate();
        store.github_users.push(row);
        proof {
            let ids = store.github_users@;
            let o = old(store).github_users@;
            assert forall|a: int, b: int|
                0 <= a < ids.len() && 0 <= b < ids.len() && (#[trigger] ids[a]).github_id == (
                #[trigger] ids[b]).github_id implies a == b by {
                if a < o.len() {
                    assert(ids[a] == o[a]);
                }
                if b < o.len() {
                    assert(ids[b] == o[b]);
                }
            }
            let n = o.len() as int;
            assert(ids[n].github_id == user.id);
            let k = identity_index(ids, user.id);
            assert(ids[k].github_id == ids[n].github_id);
        }
        out
    }

    /// The account the identity is linked to, if any.
    pub fn user(&self, store: &Store) -> (r: Option<User>)
        ensures
            r == account_of(store.users@, *self),
    {
        match self.user_id {
            Some(u) => User::find(u, store),
            None => None,
        }
    }
}

impl Review {
    /// Records the latest verdict of the identity on the pull request, replacing an
    /// earlier one.
    pub fn create_or_update(
        reviewer: &GithubUser,
        pull_request: &PullRequest,
        review_state: &str,
        store: &mut Store,
    ) -> (r: Review)
        requires
            old(store).wf(),
        ensures
            final(store).wf(),
            final(store).icons == old(store).icons,
            final(store).next_webhook_id == old(store).next_webhook_id,
            final(store).users == old(store).users,
            final(store).github_users == old(store).github_users,
            final(store).pull_requests == old(store).pull_requests,
            final(store).webhooks == old(store).webhooks,
            final(store).configs == old(store).configs,
            r.github_user_id == reviewer.id,
            r.pull_request_id == pull_request.id,
            r.state@ == review_state@,
            has_review(old(store).reviews@, reviewer.id, pull_request.id) ==> ({
                let k = review_index(old(store).reviews@, reviewer.id, pull_request.id);
                &&& r.id == k
                &&& final(store).reviews@ == old(store).reviews@.update(k, r)
            }),
            !has_review(old(store).reviews@, reviewer.id, pull_request.id) ==> r.id
                == old(store).reviews@.len() && final(store).reviews@ == old(store).reviews@.push(r),
            review_recorded(old(store).reviews@, final(store).reviews@, reviewer.id, pull_request.id, review_state@),
    {
        let mut i: usize = 0;
        while i < store.reviews.len()
            invariant
                i <= store.reviews@.len(),
                *store == *old(store),
                old(store).wf(),
                forall|j: int|
                    0 <= j < i ==> !((#[trigger] store.reviews@[j]).github_user_id == reviewer.id
                        && store.reviews@[j].pull_request_id == pull_request.id),
            decreases store.reviews@.len() - i,
        {
            if store.reviews[i].github_user_id == reviewer.id && store.reviews[i].pull_request_id
                == pull_request.id {
                proof {
                    let o = old(store).reviews@;
                    assert(o[i as int].github_user_id == reviewer.id && o[i as int].pull_request_id == pull_request.id);
                    let k = review_index(o, reviewer.id, pull_request.id);
                    assert(o[k].github_user_id == o[i as int].github_user_id);
                    assert(k == i);
                }
                let row = Review {
                    id: i,
                    github_user_id: reviewer.id,
                    pull_request_id: pull_request.id,
                    state: owned(review_state),
                };
                let out = Review {
                    id: i,
                    github_user_id: reviewer.id,
                    pull_request_id: pull_request.id,
                    state: row.state.clone(),
                };
                store.reviews.set(i, row);
                proof {
                    let rs = store.reviews@;
                    let o = old(store).reviews@;
                    assert(rs == o.update(i as int, out));
                    assert forall|a: int, b: int|
                        0 <= a < rs.len() && 0 <= b < rs.len() && (#[trigger] rs[a]).github_user_id
                            == (#[trigger] rs[b]).github_user_id && rs[a].pull_request_id
                            == rs[b].pull_request_id implies a == b by {
                        assert(rs[a].github_user_id == o[a].github_user_id);
                        assert(rs[b].github_user_id == o[b].github_user_id);
                        assert(rs[a].pull_request_id == o[a].pull_request_id);
                        assert(rs[b].pull_request_id == o[b].pull_request_id);
                    }
                    assert forall|a: int| 0 <= a < rs.len() implies (#[trigger] rs[a]).id == a by {
                        assert(rs[a].id == o[a].id);
                    }
                }
                return out;
            }
            i = i + 1;
        }
        let row = Review {
            id: store.reviews.len(),
            github_user_id: reviewer.id,
            pull_request_id: pull_request.id,
            state: owned(review_state),
        };
        let out = Review {
            id: row.id,
            github_user_id: reviewer.id,
            pull_request_id: pull_request.id,
            state: row.state.clone(),
        };
        store.reviews.push(row);
        proof {
            let rs = store.reviews@;
            let o = old(store).reviews@;
            assert(rs == o.push(out));
            assert(rs.drop_last() =~= o);
            assert(!has_review(o, reviewer.id, pull_request.id));
            assert forall|a: int, b: int|
                0 <= a < rs.len() && 0 <= b < rs.len() && (#[trigger] rs[a]).github_user_id == (
                #[trigger] rs[b]).github_user_id && rs[a].pull_request_id == rs[b].pull_request_id implies a
                == b by {
                if a < o.len() {
                    assert(rs[a] == o[a]);
                }
                if b < o.len() {
                    assert(rs[b] == o[b]);
                }
            }
        }
        out
    }
}

} // verus!
