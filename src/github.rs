use vstd::prelude::*;
use vstd::string::*;

use crate::text::{all_chars, contains, contains_seq, decimal, opt_chars, owned, push_char, push_decimal, str_eq};

verus! {

/// A pull-request lifecycle event as the code host delivers it.
#[derive(Debug)]
pub struct PullRequestEvent {
    pub number: u32,
    pub action: PRAction,
    pub pull_request: PRResult,
}

#[derive(Clone, Copy, Debug, PartialEq, Eq, Structural)]
pub enum PRAction {
    Assigned,
    Unassigned,
    ReviewRequested,
    ReviewRequestRemoved,
    Labeled,
    Unlabled,
    Opened,
    ReadyForReview,
    Reopened,
    Closed,
    Edited,
    Synchronize,
}

pub open spec fn pr_action_name(a: PRAction) -> Seq<char> {
    match a {
        PRAction::Assigned => "Assigned"@,
        PRAction::Unassigned => "Unassigned"@,
        PRAction::ReviewRequested => "ReviewRequested"@,
        PRAction::ReviewRequestRemoved => "ReviewRequestRemoved"@,
        PRAction::Labeled => "Labeled"@,
        PRAction::Unlabled => "Unlabled"@,
        PRAction::Opened => "Opened"@,
        PRAction::ReadyForReview => "ReadyForReview"@,
        PRAction::Reopened => "Reopened"@,
        PRAction::Closed => "Closed"@,
        PRAction::Edited => "Edited"@,
        PRAction::Synchronize => "Synchronize"@,
    }
}

impl PRAction {
    /// The variant's name, as it appears in diagnostics.
    pub fn name(&self) -> (r: String)
        ensures
            r@ == pr_action_name(*self),
    {
        match self {
            PRAction::Assigned => owned("Assigned"),
            PRAction::Unassigned => owned("Unassigned"),
            PRAction::ReviewRequested => owned("ReviewRequested"),
            PRAction::ReviewRequestRemoved => owned("ReviewRequestRemoved"),
            PRAction::Labeled => owned("Labeled"),
            PRAction::Unlabled => owned("Unlabled"),
            PRAction::Opened => owned("Opened"),
            PRAction::ReadyForReview => owned("ReadyForReview"),
            PRAction::Reopened => owned("Reopened"),
            PRAction::Closed => owned("Closed"),
            PRAction::Edited => owned("Edited"),
            PRAction::Synchronize => owned("Synchronize"),
        }
    }
}

/// A review event as the code host delivers it.
#[derive(Debug)]
pub struct ReviewEvent {
    pub action: ReviewAction,
    pub pull_request: ReviewPR,
    pub review: PRReview,
}

#[derive(Clone, Copy, Debug, PartialEq, Eq, Structural)]
pub enum ReviewAction {
    Submitted,
    Editied,
    Dismissed,
}

#[derive(Debug)]
pub struct PRReview {
    pub state: PRReviewState,
    pub user: User,
}

#[derive(Clone, Copy, Debug, PartialEq, Eq, Structural)]
pub enum PRReviewState {
    ChangesRequested,
    Approved,
    Commented,
}

pub open spec fn review_state_name(s: PRReviewState) -> Seq<char> {
    match s {
        PRReviewState::ChangesRequested => "changes_requested"@,
        PRReviewState::Approved => "approved"@,
        PRReviewState::Commented => "commented"@,
    }
}

impl PRReviewState {
    /// The wire name of the state, which is also what a stored review holds.
    pub fn name(&self) -> (r: String)
        ensures
            r@ == review_state_name(*self),
    {
        match self {
            PRReviewState::ChangesRequested => owned("changes_requested"),
            PRReviewState::Approved => owned("approved"),
            PRReviewState::Commented => owned("commented"),
        }
    }
}

/// The pull request as carried by a review event.
#[derive(Debug)]
pub struct ReviewPR {
    pub url: String,
    pub html_url: String,
    pub title: String,
    pub body: String,
    pub state: PRState,
    pub number: u32,
    pub draft: bool,
    pub user: User,
    pub base: Base,
}

/// A code-host user.
#[derive(Clone, Debug)]
pub struct User {
    pub id: i32,
    pub login: String,
    pub avatar_url: String,
    pub html_url: String,
}

#[derive(Clone, Debug)]
pub struct Repo {
    pub id: i32,
    pub owner: User,
    pub name: String,
    pub full_name: String,
    pub permissions: RepoPermissions,
}

#[derive(Clone, Copy, Debug, Default)]
pub struct RepoPermissions {
    pub admin: bool,
    pub push: bool,
    pub pull: bool,
}

#[derive(Clone, Debug)]
pub struct Base {
    pub repo: Repo,
}

/// A pull request as the code host describes it.
#[derive(Clone, Debug)]
pub struct PRResult {
    pub url: String,
    pub html_url: String,
    pub title: String,
    pub body: String,
    pub state: PRState,
    pub merged: bool,
    pub review_comments: u32,
    pub additions: u32,
    pub deletions: u32,
    pub number: u32,
    pub draft: bool,
    pub user: User,
    pub base: Base,
}

#[derive(Clone, Copy, Debug, PartialEq, Eq, Structural)]
pub enum PRState {
    Open,
    Closed,
}

/// `(+a -d)`: the size of the change.
pub open spec fn additions_text(additions: u32, deletions: u32) -> Seq<char> {
    "(+"@ + decimal(additions as nat) + " -"@ + decimal(deletions as nat) + ")"@
}

/// The one-line description of a pull request that a listing shows.
pub open spec fn pr_display(pr: PRResult) -> Seq<char> {
    additions_text(pr.additions, pr.deletions) + " <"@ + pr.html_url@ + "|"@
        + pr.base.repo.full_name@ + ": "@ + pr.title@ + "> by "@ + pr.user.login@
}

pub open spec fn pr_image_path(pr: PRResult) -> Seq<char> {
    if pr.state == PRState::Open {
        "/public/images/open.png"@
    } else if pr.merged {
        "/public/images/merged.png"@
    } else {
        "/public/images/closed.png"@
    }
}

/// Builds `(+a -d)`.
pub fn additions_string(additions: u32, deletions: u32) -> (r: String)
    ensures
        r@ == additions_text(additions, deletions),
{
    let mut r = owned("(+");
    push_decimal(&mut r, additions);
    r.append(" -");
    push_decimal(&mut r, deletions);
    r.append(")");
    r
}

impl PRResult {
    /// The frozen display string of a pull request:
    /// `(+a -d) <url|repo: title> by login`.
    pub fn display_text(&self) -> (r: String)
        ensures
            r@ == pr_display(*self),
    {
        let mut r = additions_string(self.additions, self.deletions);
        r.append(" <");
        r.append(self.html_url.as_str());
        r.append("|");
        r.append(self.base.repo.full_name.as_str());
        r.append(": ");
        r.append(self.title.as_str());
        r.append("> by ");
        r.append(self.user.login.as_str());
        r
    }

    /// The status image: open, merged, or closed.
    pub fn image_path(&self) -> (r: String)
        ensures
            r@ == pr_image_path(*self),
    {
        if self.open() {
            owned("/public/images/open.png")
        } else if self.merged {
            owned("/public/images/merged.png")
        } else {
            owned("/public/images/closed.png")
        }
    }

    pub fn open(&self) -> (r: bool)
        ensures
            r == (self.state == PRState::Open),
    {
        match self.state {
            PRState::Open => true,
            PRState::Closed => false,
        }
    }
}

/// The parts of a path between its `/` separators, empty ones included.
pub open spec fn path_parts(s: Seq<char>) -> Seq<Seq<char>>
    decreases s.len(),
{
    if s.len() == 0 {
        seq![Seq::<char>::empty()]
    } else {
        let p = path_parts(s.drop_last());
        if s.last() == '/' {
            p.push(Seq::empty())
        } else {
            p.update(p.len() - 1, p.last().push(s.last()))
        }
    }
}

/// A part that names something: neither empty nor `.`.
pub open spec fn is_named(p: Seq<char>) -> bool {
    p.len() > 0 && p != "."@
}

pub open spec fn last_named(parts: Seq<Seq<char>>) -> Option<Seq<char>>
    decreases parts.len(),
{
    if parts.len() == 0 {
        None
    } else if is_named(parts.last()) {
        Some(parts.last())
    } else {
        last_named(parts.drop_last())
    }
}

/// The last component of a path, as `Path::file_name` gives it on a system
/// with `/` as separator: empty and `.` parts are passed over, and a last
/// part `..` names no file.
pub open spec fn file_name_of(path: Seq<char>) -> Option<Seq<char>> {
    match last_named(path_parts(path)) {
        Some(n) => if n == ".."@ {
            None
        } else {
            Some(n)
        },
        None => None,
    }
}

/// Position of the last `.` in a text, or -1.
pub open spec fn last_dot(n: Seq<char>) -> int
    decreases n.len(),
{
    if n.len() == 0 {
        -1
    } else if n.last() == '.' {
        n.len() - 1
    } else {
        last_dot(n.drop_last())
    }
}

/// The extension of a path, as `Path::extension` gives it: what follows the
/// last `.` of the file name, unless that `.` is its first character.
pub open spec fn extension_of(path: Seq<char>) -> Option<Seq<char>> {
    match file_name_of(path) {
        Some(n) => if last_dot(n) > 0 {
            Some(n.subrange(last_dot(n) + 1, n.len() as int))
        } else {
            None
        },
        None => None,
    }
}

proof fn lemma_path_parts_nonempty(s: Seq<char>)
    ensures
        path_parts(s).len() >= 1,
    decreases s.len(),
{
    if s.len() > 0 {
        lemma_path_parts_nonempty(s.drop_last());
    }
}

fn is_named_part(p: &str) -> (r: bool)
    ensures
        r == is_named(p@),
{
    p.unicode_len() > 0 && !str_eq(p, ".")
}

/// The last component of a path.
fn path_file_name(path: &str) -> (r: Option<String>)
    ensures
        opt_chars(r) == file_name_of(path@),
{
    let n = path.unicode_len();
    let mut cur = String::new();
    let mut best: Option<String> = None;
    let mut i: usize = 0;
    proof {
        assert(path@.subrange(0, 0) =~= Seq::<char>::empty());
    }
    while i < n
        invariant
            n == path@.len(),
            i <= n,
            path_parts(path@.subrange(0, i as int)).len() >= 1,
            path_parts(path@.subrange(0, i as int)).last() == cur@,
            last_named(path_parts(path@.subrange(0, i as int)).drop_last()) == opt_chars(best),
        decreases n - i,
    {
        let c = path.get_char(i);
        let ghost pre = path@.subrange(0, i as int);
        let ghost post = path@.subrange(0, i + 1);
        proof {
            assert(post.drop_last() =~= pre);
            assert(post.last() == c);
            lemma_path_parts_nonempty(pre);
        }
        if c == '/' {
            if is_named_part(cur.as_str()) {
                best = Some(cur);
            }
            cur = String::new();
            proof {
                let p = path_parts(pre);
                assert(path_parts(post) == p.push(Seq::<char>::empty()));
                assert(path_parts(post).drop_last() =~= p);
                assert(cur@ =~= Seq::<char>::empty());
            }
        } else {
            push_char(&mut cur, c);
            proof {
                let p = path_parts(pre);
                assert(path_parts(post).drop_last() =~= p.drop_last());
            }
        }
        i = i + 1;
    }
    proof {
        assert(path@.subrange(0, n as int) =~= path@);
    }
    let name = if is_named_part(cur.as_str()) { Some(cur) } else { best };
    match name {
        Some(m) => if str_eq(m.as_str(), "..") {
            None
        } else {
            Some(m)
        },
        None => None,
    }
}

/// The extension of a path, without its dot.
fn path_extension(path: &str) -> (r: Option<String>)
    ensures
        opt_chars(r) == extension_of(path@),
{
    let name = match path_file_name(path) {
        Some(m) => m,
        None => {
            return None;
        },
    };
    let len = name.as_str().unicode_len();
    let mut dot: Option<usize> = None;
    let mut i: usize = 0;
    proof {
        assert(name@.subrange(0, 0) =~= Seq::<char>::empty());
    }
    while i < len
        invariant
            len == name@.len(),
            i <= len,
            last_dot(name@.subrange(0, i as int)) == (match dot {
                Some(k) => k as int,
                None => -1,
            }),
            dot is Some ==> dot->Some_0 < i,
        decreases len - i,
    {
        proof {
            assert(name@.subrange(0, i + 1).drop_last() =~= name@.subrange(0, i as int));
        }
        if name.as_str().get_char(i) == '.' {
            dot = Some(i);
        }
        i = i + 1;
    }
    proof {
        assert(name@.subrange(0, len as int) =~= name@);
    }
    match dot {
        Some(k) => if k > 0 {
            let ext = name.as_str().substring_char(k + 1, len);
            Some(owned(ext))
        } else {
            None
        },
        None => None,
    }
}

/// A file changed by a pull request.
#[derive(Clone, Debug)]
pub struct FileResult {
    pub filename: String,
}

pub open spec fn dotted(e: Option<Seq<char>>) -> Option<Seq<char>> {
    match e {
        Some(x) => Some("."@ + x),
        None => None,
    }
}

impl FileResult {
    /// The extension with its dot (`.rs`), if the file has one.
    pub fn extension(&self) -> (r: Option<String>)
        ensures
            opt_chars(r) == dotted(extension_of(self.filename@)),
    {
        match path_extension(self.filename.as_str()) {
            Some(e) => {
                let mut r = owned(".");
                r.append(e.as_str());
                Some(r)
            },
            None => None,
        }
    }

    /// The last component of the file's path.
    pub fn filename(&self) -> (r: Option<String>)
        ensures
            opt_chars(r) == file_name_of(self.filename@),
    {
        path_file_name(self.filename.as_str())
    }
}

/// The entries of a sequence that are present, in order.
pub open spec fn present(s: Seq<Option<Seq<char>>>) -> Seq<Seq<char>>
    decreases s.len(),
{
    if s.len() == 0 {
        Seq::empty()
    } else {
        match s.last() {
            Some(x) => present(s.drop_last()).push(x),
            None => present(s.drop_last()),
        }
    }
}

/// The sequence with each run of equal neighbours kept once, as `Vec::dedup` does.
pub open spec fn dedup_adjacent(s: Seq<Seq<char>>) -> Seq<Seq<char>>
    decreases s.len(),
{
    if s.len() <= 1 {
        s
    } else if s.last() == s[s.len() - 2] {
        dedup_adjacent(s.drop_last())
    } else {
        dedup_adjacent(s.drop_last()).push(s.last())
    }
}

pub proof fn lemma_dedup_last(s: Seq<Seq<char>>)
    requires
        s.len() > 0,
    ensures
        dedup_adjacent(s).len() > 0,
        dedup_adjacent(s).last() == s.last(),
    decreases s.len(),
{
    if s.len() > 1 {
        lemma_dedup_last(s.drop_last());
    }
}

pub open spec fn changed_file_names(files: Seq<FileResult>) -> Seq<Option<Seq<char>>> {
    files.map_values(|f: FileResult| file_name_of(f.filename@))
}

pub open spec fn changed_file_extensions(files: Seq<FileResult>) -> Seq<Option<Seq<char>>> {
    files.map_values(|f: FileResult| dotted(extension_of(f.filename@)))
}

/// The file names and extensions of a pull request's changed files,
/// which select the icons shown beside its message.
#[derive(Clone, Debug, Default)]
pub struct PRFiles {
    pub extensions: Vec<String>,
    pub filenames: Vec<String>,
}

impl PRFiles {
    /// Collects names and extensions from the changed files; `None` (no token
    /// to ask with, or the listing failed) gives no names and no extensions.
    /// Extensions that repeat their neighbour are kept once.
    pub fn new(files: Option<Vec<FileResult>>) -> (r: PRFiles)
        ensures
            files is None ==> r.filenames@.len() == 0 && r.extensions@.len() == 0,
            files is Some ==> all_chars(r.filenames@) == present(
                changed_file_names(files->Some_0@),
            ) && all_chars(r.extensions@) == dedup_adjacent(
                present(changed_file_extensions(files->Some_0@)),
            ),
    {
        let mut filenames: Vec<String> = Vec::new();
        let mut extensions: Vec<String> = Vec::new();
        match files {
            None => PRFiles { extensions, filenames },
            Some(files) => {
                let ghost names = changed_file_names(files@);
                let ghost exts = changed_file_extensions(files@);
                let ghost mut raw: Seq<Seq<char>> = Seq::empty();
                let mut i: usize = 0;
                while i < files.len()
                    invariant
                        i <= files.len(),
                        names == changed_file_names(files@),
                        exts == changed_file_extensions(files@),
                        all_chars(filenames@) == present(names.subrange(0, i as int)),
                        raw == present(exts.subrange(0, i as int)),
                        all_chars(extensions@) == dedup_adjacent(raw),
                    decreases files.len() - i,
                {
                    let name = files[i].filename();
                    let ext = files[i].extension();
                    proof {
                        assert(names.subrange(0, i + 1).drop_last() =~= names.subrange(0, i as int));
                        assert(exts.subrange(0, i + 1).drop_last() =~= exts.subrange(0, i as int));
                    }
                    match name {
                        Some(n) => {
                            filenames.push(n);
                        },
                        None => {},
                    }
                    assert(all_chars(filenames@) =~= present(names.subrange(0, i + 1)));
                    match ext {
                        Some(e) => {
                            let len = extensions.len();
                            let repeat = len > 0 && str_eq(extensions[len - 1].as_str(), e.as_str());
                            proof {
                                if raw.len() > 0 {
                                    lemma_dedup_last(raw);
                                }
                                let nraw = raw.push(e@);
                                assert(nraw.drop_last() =~= raw);
                                if raw.len() == 0 {
                                    assert(dedup_adjacent(nraw) =~= seq![e@]);
                                }
                            }
                            if !repeat {
                                extensions.push(e);
                            }
                            proof {
                                raw = raw.push(e@);
                            }
                            assert(all_chars(extensions@) =~= dedup_adjacent(raw));
                        },
                        None => {},
                    }
                    i = i + 1;
                }
                assert(names.subrange(0, files@.len() as int) =~= names);
                assert(exts.subrange(0, files@.len() as int) =~= exts);
                PRFiles { extensions, filenames }
            },
        }
    }
}

/// The delivery settings of a code-host webhook.
#[derive(Clone, Debug)]
pub struct WebhookConfig {
    pub url: String,
    pub content_type: ContentType,
    pub secret: Option<String>,
}

#[derive(Clone, Copy, Debug, PartialEq, Eq, Structural)]
pub enum ContentType {
    Json,
    Form,
}

/// A webhook as the code host lists it.
#[derive(Clone, Debug)]
pub struct Webhook {
    pub id: i32,
    pub config: WebhookConfig,
    pub events: Vec<String>,
}

/// The body that registers a new webhook.
#[derive(Clone, Debug)]
pub struct NewWebhook {
    pub config: WebhookConfig,
    pub events: Vec<String>,
}

impl NewWebhook {
    /// A JSON webhook to `webhook_url` for pull-request and review events,
    /// marked with the `update-only` secret.
    pub fn new(webhook_url: &str) -> (r: NewWebhook)
        ensures
            r.config.url@ == webhook_url@,
            r.config.content_type == ContentType::Json,
            opt_chars(r.config.secret) == Some("update-only"@),
            all_chars(r.events@) == seq!["pull_request"@, "pull_request_review"@],
    {
        let mut events: Vec<String> = Vec::new();
        events.push(owned("pull_request"));
        events.push(owned("pull_request_review"));
        assert(all_chars(events@) =~= seq!["pull_request"@, "pull_request_review"@]);
        NewWebhook {
            config: WebhookConfig {
                url: owned(webhook_url),
                content_type: ContentType::Json,
                secret: Some(owned("update-only")),
            },
            events,
        }
    }
}

/// A hook already delivers to this service when its URL names the event endpoint.
pub open spec fn is_event_hook(h: Webhook) -> bool {
    contains_seq(h.config.url@, "github_event"@)
}

/// The position of the first listed hook that already delivers to this
/// service's event endpoint, so that setting up a repository twice does not
/// register a second hook.
pub fn event_hook_index(hooks: &Vec<Webhook>) -> (r: Option<usize>)
    ensures
        r is None ==> forall|i: int| 0 <= i < hooks@.len() ==> !is_event_hook(#[trigger] hooks@[i]),
        r is Some ==> r->Some_0 < hooks@.len() && is_event_hook(hooks@[r->Some_0 as int])
            && forall|i: int| 0 <= i < r->Some_0 ==> !is_event_hook(#[trigger] hooks@[i]),
{
    let mut i: usize = 0;
    while i < hooks.len()
        invariant
            i <= hooks@.len(),
            forall|j: int| 0 <= j < i ==> !is_event_hook(#[trigger] hooks@[j]),
        decreases hooks.len() - i,
    {
        if contains(hooks[i].config.url.as_str(), "github_event") {
            return Some(i);
        }
        i = i + 1;
    }
    None
}

/// The code host's API root.
pub open spec fn api_root() -> Seq<char> {
    "https://api.github.com"@
}

pub fn api_url() -> (r: String)
    ensures
        r@ == api_root(),
{
    owned("https://api.github.com")
}

/// `Authorization` value for a call made with a user's code-host token.
pub fn token_authorization(token: &str) -> (r: String)
    ensures
        r@ == "token "@ + token@,
{
    let mut r = owned("token ");
    r.append(token);
    r
}

/// `{api}/repos/{owner}/{repo}/pulls/{id}`
pub fn pull_request_url(api: &str, request: &crate::links::ReviewRequest) -> (r: String)
    ensures
        r@ == api@ + "/repos/"@ + request.owner@ + "/"@ + request.name@ + "/pulls/"@ + request.id@,
{
    let mut r = owned(api);
    r.append("/repos/");
    r.append(request.owner.as_str());
    r.append("/");
    r.append(request.name.as_str());
    r.append("/pulls/");
    r.append(request.id.as_str());
    r
}

/// `{pull request url}/files`
pub fn files_url(pull_request: &PRResult) -> (r: String)
    ensures
        r@ == pull_request.url@ + "/files"@,
{
    let mut r = pull_request.url.clone();
    r.append("/files");
    r
}

/// `{api}/repos/{owner}/{repo}/hooks`
pub fn hooks_url(api: &str, owner: &str, name: &str) -> (r: String)
    ensures
        r@ == api@ + "/repos/"@ + owner@ + "/"@ + name@ + "/hooks"@,
{
    let mut r = owned(api);
    r.append("/repos/");
    r.append(owner);
    r.append("/");
    r.append(name);
    r.append("/hooks");
    r
}

/// `{api}/repos/{owner}/{repo}/hooks/{hook id}`
pub fn hook_url(api: &str, hook: &crate::store::Webhook) -> (r: String)
    ensures
        r@ == api@ + "/repos/"@ + hook.owner@ + "/"@ + hook.name@ + "/hooks/"@ + hook.hook_id@,
{
    let mut r = hooks_url(api, hook.owner.as_str(), hook.name.as_str());
    r.append("/");
    r.append(hook.hook_id.as_str());
    proof {
        assert(r@ =~= api@ + "/repos/"@ + hook.owner@ + "/"@ + hook.name@ + "/hooks/"@ + hook.hook_id@) by {
            reveal_strlit("/hooks");
            reveal_strlit("/hooks/");
            reveal_strlit("/");
        }
    }
    r
}

/// `{api}/user`
pub fn user_url(api: &str) -> (r: String)
    ensures
        r@ == api@ + "/user"@,
{
    let mut r = owned(api);
    r.append("/user");
    r
}

/// `{api}/user/repos?sort=updated&page={page}`, the first page when none is asked for.
pub fn repos_url(api: &str, params: &crate::links::PaginationParams) -> (r: String)
    ensures
        r@ == api@ + "/user/repos?sort=updated&page="@ + (match params.page {
            Some(p) => p@,
            None => "1"@,
        }),
{
    let mut r = owned(api);
    r.append("/user/repos?sort=updated&page=");
    match &params.page {
        Some(p) => r.append(p.as_str()),
        None => r.append("1"),
    }
    r
}

/// Decimal digits of an integer, with a leading `-` when it is negative.
pub open spec fn signed_decimal(n: i32) -> Seq<char> {
    if n < 0 {
        "-"@ + decimal((-(n as int)) as nat)
    } else {
        decimal(n as nat)
    }
}

pub fn signed_decimal_string(n: i32) -> (r: String)
    ensures
        r@ == signed_decimal(n),
{
    let mut r = String::new();
    if n < 0 {
        r.append("-");
        let m: u32 = if n == i32::MIN { 2147483648u32 } else { (-n) as u32 };
        push_decimal(&mut r, m);
    } else {
        push_decimal(&mut r, n as u32);
    }
    r
}

impl Webhook {
    /// The registration to keep for a hook the code host reports for a repository.
    pub fn registration(&self, owner: &str, name: &str) -> (r: crate::store::NewWebhook)
        ensures
            r.hook_id@ == signed_decimal(self.id),
            r.owner@ == owner@,
            r.name@ == name@,
    {
        crate::store::NewWebhook { hook_id: signed_decimal_string(self.id), name: owned(name), owner: owned(owner) }
    }
}

} // verus!
