use vstd::prelude::*;
use vstd::string::*;

use crate::error::{DatabaseError, Error};
use crate::github::{pr_display, PRAction, PRReviewState, PullRequestEvent, ReviewAction, ReviewEvent};
use crate::links::ReviewRequest;
use crate::slack::{
    error_text, handle_response, reaction_name, Reaction, SlackCreateComment,
    SlackCreateCommentResponse, SlackMessagePostResponse, SlackMessageResponse,
    SlackMessageUpdateResponse, SlackRequest,
};
use crate::store::{
    account_of, has_pr, identity_index, pr_index, prs_in_state, record_once, review_recorded,
    with_identity, GithubUser, NewPullRequest, PullRequest, Review, Store, User,
};
use crate::text::{decimal, is_blank, is_blank_seq, join_lines, join_with_newlines, lowercase, owned, push_decimal, str_eq};

verus! {

/// The external id of a pull request: `owner/repo-number`.
pub open spec fn github_id_of(repo: Seq<char>, number: u32) -> Seq<char> {
    repo + "-"@ + decimal(number as nat)
}

pub open spec fn event_github_id(e: PullRequestEvent) -> Seq<char> {
    github_id_of(e.pull_request.base.repo.full_name@, e.pull_request.number)
}

pub open spec fn review_github_id(e: ReviewEvent) -> Seq<char> {
    github_id_of(e.pull_request.base.repo.full_name@, e.pull_request.number)
}

/// A review moves an open pull request to approved when it approves; any
/// other state stays as it is.
pub open spec fn next_state_of(state: Seq<char>, approved: bool) -> Seq<char> {
    if state == "open"@ && approved {
        "approved"@
    } else {
        state
    }
}

pub fn github_id(repo: &str, number: u32) -> (r: String)
    ensures
        r@ == github_id_of(repo@, number),
{
    let mut r = owned(repo);
    r.append("-");
    push_decimal(&mut r, number);
    r
}

pub fn next_state(state: &str, approved: bool) -> (r: String)
    ensures
        r@ == next_state_of(state@, approved),
{
    if str_eq(state, "open") && approved {
        owned("approved")
    } else {
        owned(state)
    }
}

/// What a pull-request lifecycle event leads to.
#[derive(Clone, Copy, Debug, PartialEq, Eq, Structural)]
pub enum PullRequestRoute {
    Opened,
    Closed,
}

/// Opened and ready-for-review events open a pull request, closed events
/// close it; any other action is reported, not passed over.
pub fn route_pull_request(action: PRAction) -> (r: Result<PullRequestRoute, Error>)
    ensures
        (action == PRAction::Opened || action == PRAction::ReadyForReview) ==> r == Ok::<PullRequestRoute, Error>(PullRequestRoute::Opened),
        action == PRAction::Closed ==> r == Ok::<PullRequestRoute, Error>(PullRequestRoute::Closed),
        !(action == PRAction::Opened || action == PRAction::ReadyForReview || action == PRAction::Closed) ==> r is Err
            && r->Err_0 is GithubError && r->Err_0->GithubError_0@ == "Unhandled PR Action: "@ + crate::github::pr_action_name(action),
{
    match action {
        PRAction::Opened | PRAction::ReadyForReview => Ok(PullRequestRoute::Opened),
        PRAction::Closed => Ok(PullRequestRoute::Closed),
        _ => {
            let mut m = owned("Unhandled PR Action: ");
            let name = action.name();
            m.append(name.as_str());
            Err(Error::GithubError(m))
        },
    }
}

/// Only submitted reviews lead to work; edits and dismissals are accepted
/// and left alone.
pub fn handles_review(action: ReviewAction) -> (r: bool)
    ensures
        r == (action == ReviewAction::Submitted),
{
    match action {
        ReviewAction::Submitted => true,
        _ => false,
    }
}

/// Why an event was skipped on purpose. A skip is a success: nothing is
/// recorded and nothing is posted.
#[derive(Clone, Copy, Debug, PartialEq, Eq, Structural)]
pub enum SkipReason {
    /// The pull request is a draft.
    Draft,
    /// The review is by the pull request's own author.
    SelfReview,
}

pub open spec fn skip_reason_name(r: SkipReason) -> Seq<char> {
    match r {
        SkipReason::Draft => "draft"@,
        SkipReason::SelfReview => "self-review"@,
    }
}

impl SkipReason {
    pub fn name(&self) -> (r: String)
        ensures
            r@ == skip_reason_name(*self),
    {
        match self {
            SkipReason::Draft => owned("draft"),
            SkipReason::SelfReview => owned("self-review"),
        }
    }
}

/// The outcome of a first step: skipped by a guard, or work to carry on with.
#[derive(Debug)]
pub enum Step<T> {
    Skipped(SkipReason),
    Proceed(T),
}

/// Who opened a pull request, and the account the announcement is posted as.
#[derive(Debug)]
pub struct Opening {
    pub requester: GithubUser,
    pub account: Option<User>,
}

/// The code-host token of an account, with which its pull request's files are listed.
pub fn files_token(account: &Option<User>) -> (r: Option<String>)
    ensures
        account is None ==> r is None,
        account is Some ==> r == account->Some_0.github_access_token,
{
    match account {
        Some(u) => match &u.github_access_token {
            Some(t) => Some(t.clone()),
            None => None,
        },
        None => None,
    }
}

/// First step of an opened event: drafts are skipped, with nothing recorded
/// and nothing to post; otherwise the
/// author's identity is found or recorded, with its linked account.
pub fn begin_pull_request_opened(store: &mut Store, event: &PullRequestEvent) -> (r: Step<Opening>)
    requires
        old(store).wf(),
    ensures
        final(store).wf(),
        event.pull_request.draft ==> *final(store) == *old(store) && r == Step::<Opening>::Skipped(SkipReason::Draft),
        !event.pull_request.draft ==> ({
            let ids = with_identity(old(store).github_users@, event.pull_request.user, None);
            let requester = ids[identity_index(ids, event.pull_request.user.id)];
            &&& final(store).github_users@ == ids
            &&& final(store).users == old(store).users
            &&& final(store).pull_requests == old(store).pull_requests
            &&& final(store).reviews == old(store).reviews
            &&& final(store).webhooks == old(store).webhooks
            &&& final(store).configs == old(store).configs
            &&& final(store).icons == old(store).icons
            &&& final(store).next_webhook_id == old(store).next_webhook_id
            &&& r is Proceed
            &&& r->Proceed_0.requester == requester
            &&& r->Proceed_0.account == account_of(final(store).users@, requester)
        }),
{
    if event.pull_request.draft {
        return Step::Skipped(SkipReason::Draft);
    }
    let requester = GithubUser::find_or_create(&event.pull_request.user, store, None);
    let account = requester.user(store);
    Step::Proceed(Opening { requester, account })
}

/// The record of a newly announced pull request: open, pointing at the
/// posted message, with its frozen display text.
pub fn new_pull_request(event: &PullRequestEvent, requester: &GithubUser, posted: &SlackMessagePostResponse) -> (r: NewPullRequest)
    ensures
        r.github_id@ == event_github_id(*event),
        r.state@ == "open"@,
        r.slack_message_id@ == (match posted.ts {
            Some(t) => t@,
            None => Seq::<char>::empty(),
        }),
        r.channel@ == (match posted.channel {
            Some(c) => c@,
            None => Seq::<char>::empty(),
        }),
        r.display_text@ == pr_display(event.pull_request),
        r.github_user_id == requester.id,
{
    NewPullRequest {
        github_id: github_id(event.pull_request.base.repo.full_name.as_str(), event.pull_request.number),
        state: owned("open"),
        slack_message_id: match &posted.ts {
            Some(t) => t.clone(),
            None => String::new(),
        },
        channel: match &posted.channel {
            Some(c) => c.clone(),
            None => String::new(),
        },
        display_text: event.pull_request.display_text(),
        github_user_id: requester.id,
    }
}

/// Last step of an opened event, after the announcement was posted: a
/// failed post is reported; otherwise the pull request is recorded, and a
/// record already there (a repeated delivery) is kept as it is.
pub fn finish_pull_request_opened(store: &mut Store, record: NewPullRequest, posted: SlackMessagePostResponse) -> (r: Result<(), Error>)
    requires
        old(store).wf(),
    ensures
        final(store).wf(),
        final(store).icons == old(store).icons,
        final(store).next_webhook_id == old(store).next_webhook_id,
        !posted.ok ==> *final(store) == *old(store) && r is Err && r->Err_0 is SlackError
            && r->Err_0->SlackError_0@ == error_text(posted.error),
        posted.ok ==> r is Ok && final(store).pull_requests@ == record_once(
            old(store).pull_requests@,
            PullRequest {
                id: old(store).pull_requests@.len() as usize,
                github_id: record.github_id,
                state: record.state,
                slack_message_id: record.slack_message_id,
                channel: record.channel,
                display_text: record.display_text,
                github_user_id: record.github_user_id,
            },
        ),
        final(store).users == old(store).users,
        final(store).github_users == old(store).github_users,
        final(store).reviews == old(store).reviews,
        final(store).webhooks == old(store).webhooks,
        final(store).configs == old(store).configs,
{
    match handle_response(posted) {
        Err(e) => Err(e),
        Ok(_) => {
            match PullRequest::create(record, store) {
                Ok(_) => Ok(()),
                Err(DatabaseError::Conflict) => Ok(()),
                Err(e) => Err(Error::DatabaseError(e)),
            }
        },
    }
}

/// A closed pull request's record, and the account its message is updated as.
#[derive(Debug)]
pub struct Closing {
    pub pull_request: PullRequest,
    pub account: Option<User>,
}

/// First step of a closed event: the recorded pull request moves to
/// `closed`, whatever its state was.
pub fn begin_pull_request_closed(store: &mut Store, event: &PullRequestEvent) -> (r: Result<Closing, Error>)
    requires
        old(store).wf(),
    ensures
        final(store).wf(),
        final(store).icons == old(store).icons,
        final(store).next_webhook_id == old(store).next_webhook_id,
        final(store).users == old(store).users,
        final(store).github_users == old(store).github_users,
        final(store).reviews == old(store).reviews,
        final(store).webhooks == old(store).webhooks,
        final(store).configs == old(store).configs,
        !has_pr(old(store).pull_requests@, event_github_id(*event)) ==> *final(store) == *old(store)
            && r is Err && r->Err_0 == Error::DatabaseError(DatabaseError::NotFound),
        has_pr(old(store).pull_requests@, event_github_id(*event)) ==> ({
            let k = pr_index(old(store).pull_requests@, event_github_id(*event));
            let before = old(store).pull_requests@[k];
            let after = final(store).pull_requests@[k];
            &&& after.state@ == "closed"@
            &&& after == PullRequest { state: after.state, ..before }
            &&& final(store).pull_requests@ == old(store).pull_requests@.update(k, after)
            &&& before.github_user_id < old(store).github_users@.len() ==> r is Ok
                && r->Ok_0.pull_request == after
                && r->Ok_0.account == account_of(old(store).users@, old(store).github_users@[before.github_user_id as int])
            &&& !(before.github_user_id < old(store).github_users@.len()) ==> r is Err
                && r->Err_0 == Error::DatabaseError(DatabaseError::NotFound)
        }),
{
    let gid = github_id(event.pull_request.base.repo.full_name.as_str(), event.pull_request.number);
    let found = match PullRequest::find(gid.as_str(), store) {
        Ok(p) => p,
        Err(e) => {
            return Err(Error::DatabaseError(e));
        },
    };
    let closed = match found.update("closed", store) {
        Ok(p) => p,
        Err(e) => {
            return Err(Error::DatabaseError(e));
        },
    };
    match closed.user(store) {
        Ok(account) => Ok(Closing { pull_request: closed, account }),
        Err(e) => Err(Error::DatabaseError(e)),
    }
}

/// Last step of a closed event: a failed message update is reported. The
/// record stays closed either way.
pub fn finish_message_update(updated: SlackMessageUpdateResponse) -> (r: Result<(), Error>)
    ensures
        updated.ok ==> r is Ok,
        !updated.ok ==> r is Err && r->Err_0 is SlackError && r->Err_0->SlackError_0@ == error_text(updated.error),
{
    match handle_response(updated) {
        Ok(_) => Ok(()),
        Err(e) => Err(e),
    }
}

/// The reaction to add to a reviewed pull request's message, and the
/// account it is added as.
#[derive(Debug)]
pub struct ReactionPlan {
    pub reaction: Reaction,
    pub comment: SlackCreateComment,
    pub account: Option<User>,
}

pub open spec fn is_self_review(e: ReviewEvent) -> bool {
    e.review.user.login@ == e.pull_request.user.login@
}

/// First step of a submitted review. A review by the pull request's own
/// author is skipped: nothing is recorded and no reaction is planned. Otherwise the reviewing
/// identity is found or recorded, the pull request's state follows
/// `next_state_of`, the latest review of that identity is recorded, and the
/// plan names the reaction: a check mark for an approval, eyes otherwise.
pub fn begin_review_submitted(store: &mut Store, event: &ReviewEvent) -> (r: Result<Step<ReactionPlan>, Error>)
    requires
        old(store).wf(),
    ensures
        final(store).wf(),
        final(store).users == old(store).users,
        final(store).webhooks == old(store).webhooks,
        final(store).configs == old(store).configs,
        final(store).icons == old(store).icons,
        final(store).next_webhook_id == old(store).next_webhook_id,
        is_self_review(*event) ==> *final(store) == *old(store) && r == Ok::<Step<ReactionPlan>, Error>(Step::Skipped(SkipReason::SelfReview)),
        !is_self_review(*event) ==> ({
            let ids = with_identity(old(store).github_users@, event.review.user, None);
            let reviewer = ids[identity_index(ids, event.review.user.id)];
            let gid = review_github_id(*event);
            let approved = event.review.state == PRReviewState::Approved;
            &&& final(store).github_users@ == ids
            &&& !has_pr(old(store).pull_requests@, gid) ==> r is Err
                && r->Err_0 == Error::DatabaseError(DatabaseError::NotFound)
                && final(store).pull_requests == old(store).pull_requests
                && final(store).reviews == old(store).reviews
            &&& has_pr(old(store).pull_requests@, gid) ==> ({
                let k = pr_index(old(store).pull_requests@, gid);
                let before = old(store).pull_requests@[k];
                let after = final(store).pull_requests@[k];
                &&& after.state@ == next_state_of(before.state@, approved)
                &&& after == PullRequest { state: after.state, ..before }
                &&& final(store).pull_requests@ == old(store).pull_requests@.update(k, after)
                &&& review_recorded(old(store).reviews@, final(store).reviews@, reviewer.id, before.id,
                    crate::github::review_state_name(event.review.state))
                &&& r is Ok && r->Ok_0 is Proceed
                &&& r->Ok_0->Proceed_0.reaction == (if approved { Reaction::Approve } else { Reaction::Comment })
                &&& r->Ok_0->Proceed_0.comment.name@ == reaction_name(r->Ok_0->Proceed_0.reaction)
                &&& r->Ok_0->Proceed_0.comment.timestamp@ == before.slack_message_id@
                &&& r->Ok_0->Proceed_0.comment.channel@ == before.channel@
                &&& r->Ok_0->Proceed_0.account == account_of(old(store).users@, reviewer)
            })
        }),
{
    if str_eq(event.review.user.login.as_str(), event.pull_request.user.login.as_str()) {
        return Ok(Step::Skipped(SkipReason::SelfReview));
    }
    let approved = match event.review.state {
        PRReviewState::Approved => true,
        _ => false,
    };
    let reaction = if approved { Reaction::Approve } else { Reaction::Comment };
    let reviewer = GithubUser::find_or_create(&event.review.user, store, None);
    let account = reviewer.user(store);
    let gid = github_id(event.pull_request.base.repo.full_name.as_str(), event.pull_request.number);
    let found = match PullRequest::find(gid.as_str(), store) {
        Ok(p) => p,
        Err(e) => {
            return Err(Error::DatabaseError(e));
        },
    };
    let state = next_state(found.state.as_str(), approved);
    let updated = match found.update(state.as_str(), store) {
        Ok(p) => p,
        Err(e) => {
            return Err(Error::DatabaseError(e));
        },
    };
    let review_state = event.review.state.name();
    let _ = Review::create_or_update(&reviewer, &updated, review_state.as_str(), store);
    let comment = SlackCreateComment::new(reaction, updated.slack_message_id.as_str(), updated.channel.as_str());
    Ok(Step::Proceed(ReactionPlan { reaction, comment, account }))
}

/// Last step of a submitted review: a reaction the chat platform refused is reported.
pub fn finish_reaction(added: SlackCreateCommentResponse) -> (r: Result<(), Error>)
    ensures
        added.ok ==> r is Ok,
        !added.ok ==> r is Err && r->Err_0 is SlackError && r->Err_0->SlackError_0@ == error_text(added.error),
{
    match handle_response(added) {
        Ok(_) => Ok(()),
        Err(e) => Err(e),
    }
}

/// What a `/review <url>` command leads to: an immediate reply, or the pull
/// request to fetch with the invoking account's code-host token.
#[derive(Debug)]
pub enum ReviewCommand {
    Reply(SlackMessageResponse),
    Fetch { token: String, request: ReviewRequest },
}

pub open spec fn sign_in_prompt(app_url: Seq<char>) -> Seq<char> {
    "To submit a pull request you must first sign in and connect your account to github here "@
        + app_url + "."@
}

pub open spec fn usage_help() -> Seq<char> {
    "Specify pull request For example: /code_review_bot http://github.com/facebook/react/pulls/123"@
}

/// The code-host token of the first account of the chat user, if it has one.
pub open spec fn command_token(users: Seq<User>, slack_id: Seq<char>) -> Option<String> {
    if exists|i: int| 0 <= i < users.len() && (#[trigger] users[i]).slack_user_id@ == slack_id {
        let i = choose|i: int|
            0 <= i < users.len() && (#[trigger] users[i]).slack_user_id@ == slack_id && forall|j: int|
                0 <= j < i ==> (#[trigger] users[j]).slack_user_id@ != slack_id;
        users[i].github_access_token
    } else {
        None
    }
}

/// First step of `/review <url>`: an account without a code-host token is
/// asked to sign in, an empty command gets usage help, and otherwise the
/// lower-cased text must name a pull request.
pub fn begin_review_command(store: &Store, form: &SlackRequest, app_url: &str) -> (r: Result<ReviewCommand, Error>)
    ensures
        command_token(store.users@, form.user_id@) is None ==> r is Ok && r->Ok_0 is Reply
            && r->Ok_0->Reply_0.response_type@ == "ephemeral"@
            && r->Ok_0->Reply_0.text is Some
            && r->Ok_0->Reply_0.text->Some_0@ == sign_in_prompt(app_url@),
        command_token(store.users@, form.user_id@) is Some && is_blank_seq(form.text@) ==> r is Ok
            && r->Ok_0 is Reply
            && r->Ok_0->Reply_0.response_type@ == "ephemeral"@
            && r->Ok_0->Reply_0.text is Some
            && r->Ok_0->Reply_0.text->Some_0@ == usage_help(),
        command_token(store.users@, form.user_id@) is Some && !is_blank_seq(form.text@) ==> ({
            let lowered = crate::text::lowercase_of(form.text@);
            let parsed = crate::links::parsed_url_of(lowered);
            &&& parsed is None ==> r is Err && r->Err_0 is UrlParseError
            &&& parsed is Some ==> match parsed->Some_0.segments {
                Some(seg) => if seg.len() >= 4 {
                    r is Ok && r->Ok_0 is Fetch
                        && r->Ok_0->token == command_token(store.users@, form.user_id@)->Some_0
                        && r->Ok_0->request.owner@ == seg[0]
                        && r->Ok_0->request.name@ == seg[1]
                        && r->Ok_0->request.id@ == seg[3]
                } else {
                    r is Err && r->Err_0 is UrlParseError
                },
                None => r is Err && r->Err_0 is UrlParseError,
            }
        }),
{
    let token = match find_command_token(store, form.user_id.as_str()) {
        Some(t) => t,
        None => {
            let mut text = owned(
                "To submit a pull request you must first sign in and connect your account to github here ",
            );
            text.append(app_url);
            text.append(".");
            return Ok(ReviewCommand::Reply(SlackMessageResponse::ephemeral(text)));
        },
    };
    if is_blank(form.text.as_str()) {
        let text = owned(
            "Specify pull request For example: /code_review_bot http://github.com/facebook/react/pulls/123",
        );
        return Ok(ReviewCommand::Reply(SlackMessageResponse::ephemeral(text)));
    }
    let lowered = lowercase(form.text.as_str());
    match ReviewRequest::parse_url(lowered.as_str()) {
        Ok(request) => Ok(ReviewCommand::Fetch { token, request }),
        Err(e) => Err(Error::UrlParseError(e)),
    }
}

fn find_command_token(store: &Store, slack_id: &str) -> (r: Option<String>)
    ensures
        r == command_token(store.users@, slack_id@),
{
    let mut i: usize = 0;
    while i < store.users.len()
        invariant
            i <= store.users@.len(),
            forall|j: int| 0 <= j < i ==> (#[trigger] store.users@[j]).slack_user_id@ != slack_id@,
        decreases store.users@.len() - i,
    {
        if str_eq(store.users[i].slack_user_id.as_str(), slack_id) {
            proof {
                let users = store.users@;
                assert(users[i as int].slack_user_id@ == slack_id@);
                let k = choose|k: int|
                    0 <= k < users.len() && (#[trigger] users[k]).slack_user_id@ == slack_id@ && forall|j: int|
                        0 <= j < k ==> (#[trigger] users[j]).slack_user_id@ != slack_id@;
                if k < i {
                } else if k > i {
                    assert(users[i as int].slack_user_id@ != slack_id@);
                }
                assert(k == i);
            }
            return match &store.users[i].github_access_token {
                Some(t) => Some(t.clone()),
                None => None,
            };
        }
        i = i + 1;
    }
    None
}

pub open spec fn reviews_placeholder() -> Seq<char> {
    "All PRs Reviewed! :partyparrot:"@
}

/// The display texts of the given pull requests.
pub open spec fn display_texts(prs: Seq<PullRequest>) -> Seq<Seq<char>> {
    prs.map_values(|p: PullRequest| p.display_text@)
}

/// The text of the `reviews` command: the frozen display text of each open
/// pull request, one per line, or a placeholder when none is open.
pub open spec fn reviews_listing(prs: Seq<PullRequest>) -> Seq<char> {
    let open = prs_in_state(prs, "open"@);
    if open.len() == 0 {
        reviews_placeholder()
    } else {
        join_lines(display_texts(open))
    }
}

pub fn reviews_text(store: &Store) -> (r: String)
    ensures
        r@ == reviews_listing(store.pull_requests@),
{
    let prs = PullRequest::by_state("open", store);
    let mut lines: Vec<String> = Vec::new();
    if prs.len() == 0 {
        lines.push(owned("All PRs Reviewed! :partyparrot:"));
        proof {
            assert(crate::text::all_chars(lines@) =~= seq![reviews_placeholder()]);
            assert(join_lines(seq![reviews_placeholder()]) == reviews_placeholder());
        }
    } else {
        let mut i: usize = 0;
        while i < prs.len()
            invariant
                i <= prs@.len(),
                crate::text::all_chars(lines@) =~= display_texts(prs@.subrange(0, i as int)),
            decreases prs@.len() - i,
        {
            let ghost before = lines@;
            lines.push(prs[i].display_text.clone());
            proof {
                assert(prs@.subrange(0, i + 1) =~= prs@.subrange(0, i as int).push(prs@[i as int]));
                assert(lines@ == before.push(prs@[i as int].display_text));
                assert(crate::text::all_chars(lines@) =~= crate::text::all_chars(before).push(prs@[i as int].display_text@));
                assert(display_texts(prs@.subrange(0, i + 1)) =~= display_texts(prs@.subrange(0, i as int)).push(prs@[i as int].display_text@));
            }
            i = i + 1;
        }
        assert(prs@.subrange(0, prs@.len() as int) =~= prs@);
    }
    join_with_newlines(&lines)
}

/// The `reviews` command's message to the invoking channel.
pub fn reviews_reply(store: &Store, channel_id: &str) -> (r: SlackMessageResponse)
    ensures
        r.text is Some && r.text->Some_0@ == reviews_listing(store.pull_requests@),
        r.response_type@ == "in_channel"@,
        r.channel is Some && r.channel->Some_0@ == channel_id@,
{
    let text = reviews_text(store);
    SlackMessageResponse::in_channel(text.as_str(), channel_id)
}

/// A pull request announced twice (the same opened event delivered again)
/// is recorded once: the second record leaves the rows as the first left
/// them, and exactly one row carries the external id.
pub proof fn lemma_opened_twice(prs: Seq<PullRequest>, first: PullRequest, second: PullRequest)
    requires
        crate::store::unique_prs(prs),
        first.github_id@ == second.github_id@,
    ensures
        record_once(record_once(prs, first), second) == record_once(prs, first),
        crate::store::prs_with_id(record_once(prs, first), first.github_id@).len() == 1,
{
    let gid = first.github_id@;
    let once = record_once(prs, first);
    if has_pr(prs, gid) {
        let k = pr_index(prs, gid);
        assert(has_pr(once, second.github_id@));
        lemma_single_match(prs, gid, k);
    } else {
        let n = prs.len() as int;
        assert(once[n] == first);
        assert(has_pr(once, second.github_id@));
        assert(once.drop_last() =~= prs);
        reveal(Seq::filter);
        lemma_no_match(prs, gid);
        assert(crate::store::prs_with_id(once, gid) == crate::store::prs_with_id(prs, gid).push(first));
    }
}

proof fn lemma_no_match(prs: Seq<PullRequest>, gid: Seq<char>)
    requires
        !has_pr(prs, gid),
    ensures
        crate::store::prs_with_id(prs, gid).len() == 0,
    decreases prs.len(),
{
    reveal(Seq::filter);
    if prs.len() > 0 {
        let d = prs.drop_last();
        assert(!has_pr(d, gid)) by {
            if has_pr(d, gid) {
                let i = choose|i: int| 0 <= i < d.len() && (#[trigger] d[i]).github_id@ == gid;
                assert(prs[i] == d[i]);
            }
        }
        lemma_no_match(d, gid);
        assert(prs[prs.len() - 1].github_id@ != gid);
    }
}

proof fn lemma_single_match(prs: Seq<PullRequest>, gid: Seq<char>, k: int)
    requires
        crate::store::unique_prs(prs),
        0 <= k < prs.len(),
        prs[k].github_id@ == gid,
    ensures
        crate::store::prs_with_id(prs, gid).len() == 1,
    decreases prs.len(),
{
    reveal(Seq::filter);
    let d = prs.drop_last();
    let n = prs.len() - 1;
    assert(crate::store::unique_prs(d)) by {
        assert forall|i: int, j: int|
            0 <= i < d.len() && 0 <= j < d.len() && (#[trigger] d[i]).github_id@ == (#[trigger] d[j]).github_id@ implies i == j by {
            assert(prs[i] == d[i] && prs[j] == d[j]);
        }
    }
    if k == n {
        assert(!has_pr(d, gid)) by {
            if has_pr(d, gid) {
                let i = choose|i: int| 0 <= i < d.len() && (#[trigger] d[i]).github_id@ == gid;
                assert(prs[i] == d[i]);
                assert(prs[i].github_id@ == prs[n].github_id@);
            }
        }
        lemma_no_match(d, gid);
    } else {
        assert(d[k] == prs[k]);
        lemma_single_match(d, gid, k);
        assert(prs[n].github_id@ != gid) by {
            assert(prs[k].github_id@ == gid);
            if prs[n].github_id@ == gid {
                assert(prs[n].github_id@ == prs[k].github_id@);
            }
        }
    }
}

/// A review never moves a pull request back to open: any state but `open`
/// is kept, so an approved pull request stays approved, whatever the review.
pub proof fn lemma_no_backward_transition(state: Seq<char>, approved: bool)
    ensures
        state != "open"@ ==> next_state_of(state, approved) == state,
        state == "approved"@ ==> next_state_of(state, approved) == "approved"@,
        next_state_of(state, approved) == "open"@ ==> state == "open"@,
{
    reveal_strlit("open");
    reveal_strlit("approved");
    assert("approved"@ != "open"@) by {
        assert("approved"@[0] != "open"@[0]);
    }
}

} // verus!
