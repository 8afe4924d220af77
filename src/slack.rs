use vstd::prelude::*;
use vstd::string::*;

use crate::error::Error;
use crate::github::{pr_image_path, PRResult};
use crate::store::{icon_path, IconMapping, User};
use crate::text::owned;

verus! {

/// The reaction added to a pull request's message when a review comes in.
#[derive(Clone, Copy, Debug, PartialEq, Eq, Structural)]
pub enum Reaction {
    Comment,
    Approve,
}

pub open spec fn reaction_name(r: Reaction) -> Seq<char> {
    match r {
        Reaction::Approve => "white_check_mark"@,
        Reaction::Comment => "eyes"@,
    }
}

impl Reaction {
    /// The emoji name the chat platform knows the reaction by.
    pub fn name(&self) -> (r: String)
        ensures
            r@ == reaction_name(*self),
    {
        match self {
            Reaction::Approve => owned("white_check_mark"),
            Reaction::Comment => owned("eyes"),
        }
    }
}

/// A block of a chat message.
#[derive(Debug)]
pub enum Block {
    Context(Context),
    Section(Section),
}

#[derive(Debug)]
pub enum Elements {
    Text(Text),
    Image(Image),
}

#[derive(Debug)]
pub struct Context {
    pub elements: Vec<Elements>,
}

#[derive(Debug)]
pub struct Section {
    pub text: Text,
}

#[derive(Debug)]
pub struct Text {
    pub text_type: String,
    pub text: String,
}

#[derive(Debug)]
pub struct Image {
    pub image_type: String,
    pub image_url: String,
    pub alt_text: String,
}

pub fn text_type() -> (r: String)
    ensures
        r@ == "mrkdwn"@,
{
    owned("mrkdwn")
}

pub fn image_type() -> (r: String)
    ensures
        r@ == "image"@,
{
    owned("image")
}

impl Image {
    pub fn new(alt_text: String, image_url: String) -> (r: Image)
        ensures
            r.image_type@ == "image"@,
            r.alt_text == alt_text,
            r.image_url == image_url,
    {
        Image { image_type: image_type(), image_url, alt_text }
    }
}

pub open spec fn is_image(e: Elements, alt: Seq<char>, url: Seq<char>) -> bool {
    &&& e is Image
    &&& e->Image_0.image_type@ == "image"@
    &&& e->Image_0.alt_text@ == alt
    &&& e->Image_0.image_url@ == url
}

pub open spec fn is_text(e: Elements, text: Seq<char>) -> bool {
    &&& e is Text
    &&& e->Text_0.text_type@ == "mrkdwn"@
    &&& e->Text_0.text@ == text
}

/// The headline of a pull request's message.
pub open spec fn headline(pr: PRResult) -> Seq<char> {
    "*"@ + pr.title@ + "*\n<"@ + pr.html_url@ + "|"@ + pr.base.repo.full_name@ + "> by "@
        + pr.user.login@
}

/// The blocks of a pull request's message are its headline, then its status
/// image, its size, and the first icon of its files, if any.
pub open spec fn pr_blocks(r: Seq<Block>, pr: PRResult, files: Seq<IconMapping>, additions: Seq<char>, url: Seq<char>) -> bool {
    &&& r.len() == 2
    &&& r[0] is Section
    &&& r[0]->Section_0.text.text_type@ == "mrkdwn"@
    &&& r[0]->Section_0.text.text@ == headline(pr)
    &&& r[1] is Context
    &&& ({
        let el = r[1]->Context_0.elements@;
        &&& el.len() == if files.len() == 0 { 2int } else { 3int }
        &&& is_image(el[0], "pull request status"@, url + pr_image_path(pr))
        &&& is_text(el[1], additions)
        &&& files.len() > 0 ==> is_image(el[2], files[0].file_type@, url + icon_path(files[0].image_file@))
    })
}

impl Block {
    /// The message blocks for a pull request: a section with its title and
    /// link, and a context of at most three elements (status image, size, and
    /// the first file icon).
    pub fn from_pull_request(pull_request: &PRResult, files: Vec<IconMapping>, additions: &str, url: &str) -> (r: Vec<Block>)
        ensures
            pr_blocks(r@, *pull_request, files@, additions@, url@),
    {
        let mut heading = owned("*");
        heading.append(pull_request.title.as_str());
        heading.append("*\n<");
        heading.append(pull_request.html_url.as_str());
        heading.append("|");
        heading.append(pull_request.base.repo.full_name.as_str());
        heading.append("> by ");
        heading.append(pull_request.user.login.as_str());

        let mut status_url = owned(url);
        let path = pull_request.image_path();
        status_url.append(path.as_str());
        let mut elements: Vec<Elements> = Vec::new();
        elements.push(Elements::Image(Image::new(owned("pull request status"), status_url)));
        elements.push(Elements::Text(Text { text_type: text_type(), text: owned(additions) }));
        if files.len() > 0 {
            let mut icon_url = owned(url);
            let icon = files[0].image_path();
            icon_url.append(icon.as_str());
            elements.push(Elements::Image(Image::new(files[0].file_type.clone(), icon_url)));
        }
        let mut blocks: Vec<Block> = Vec::new();
        blocks.push(Block::Section(Section { text: Text { text_type: text_type(), text: heading } }));
        blocks.push(Block::Context(Context { elements }));
        blocks
    }
}

/// A message posted to a channel.
#[derive(Debug)]
pub struct SlackMessagePost {
    pub text: Option<String>,
    pub channel: String,
    pub blocks: Option<Vec<Block>>,
    pub username: Option<String>,
    pub icon_url: Option<String>,
}

/// New blocks for a message already posted.
#[derive(Debug)]
pub struct SlackMessageUpdate {
    pub blocks: Option<Vec<Block>>,
    pub channel: String,
    pub text: Option<String>,
    pub ts: String,
}

/// A reaction added to a posted message.
#[derive(Debug)]
pub struct SlackCreateComment {
    pub timestamp: String,
    pub channel: String,
    pub name: String,
}

/// A reply to a slash command.
#[derive(Debug)]
pub struct SlackMessageResponse {
    pub text: Option<String>,
    pub blocks: Option<Vec<Block>>,
    pub response_type: String,
    pub username: Option<String>,
    pub as_user: bool,
    pub channel: Option<String>,
}

impl SlackMessagePost {
    /// The message announcing a pull request. Posted as an account, it
    /// carries neither name nor icon of its own; posted by the bot, it shows
    /// the author's login and avatar.
    pub fn new(pull_request: &PRResult, files: Vec<IconMapping>, channel: &str, url: &str, as_account: bool) -> (r: SlackMessagePost)
        ensures
            r.text is None,
            r.channel@ == channel@,
            r.blocks is Some,
            pr_blocks(r.blocks->Some_0@, *pull_request, files@, crate::github::additions_text(pull_request.additions, pull_request.deletions), url@),
            as_account ==> r.username is None && r.icon_url is None,
            !as_account ==> r.username == Some(pull_request.user.login) && r.icon_url == Some(pull_request.user.avatar_url),
    {
        let additions = crate::github::additions_string(pull_request.additions, pull_request.deletions);
        let blocks = Block::from_pull_request(pull_request, files, additions.as_str(), url);
        let (username, icon_url) = if as_account {
            (None, None)
        } else {
            (Some(pull_request.user.login.clone()), Some(pull_request.user.avatar_url.clone()))
        };
        SlackMessagePost { text: None, channel: owned(channel), blocks: Some(blocks), username, icon_url }
    }
}

impl SlackMessageUpdate {
    /// The refreshed message of a pull request.
    pub fn new(pull_request: &PRResult, files: Vec<IconMapping>, ts: &str, channel: &str, url: &str) -> (r: SlackMessageUpdate)
        ensures
            r.text is None,
            r.channel@ == channel@,
            r.ts@ == ts@,
            r.blocks is Some,
            pr_blocks(r.blocks->Some_0@, *pull_request, files@, crate::github::additions_text(pull_request.additions, pull_request.deletions), url@),
    {
        let additions = crate::github::additions_string(pull_request.additions, pull_request.deletions);
        let blocks = Block::from_pull_request(pull_request, files, additions.as_str(), url);
        SlackMessageUpdate { blocks: Some(blocks), channel: owned(channel), text: None, ts: owned(ts) }
    }
}

impl SlackCreateComment {
    pub fn new(reaction: Reaction, ts: &str, channel: &str) -> (r: SlackCreateComment)
        ensures
            r.timestamp@ == ts@,
            r.channel@ == channel@,
            r.name@ == reaction_name(reaction),
    {
        SlackCreateComment { timestamp: owned(ts), channel: owned(channel), name: reaction.name() }
    }
}

impl SlackMessageResponse {
    /// A reply only the invoking user sees.
    pub fn ephemeral(text: String) -> (r: SlackMessageResponse)
        ensures
            r.text == Some(text),
            r.blocks is None,
            r.response_type@ == "ephemeral"@,
            r.username is None,
            r.as_user,
            r.channel is None,
    {
        SlackMessageResponse { text: Some(text), blocks: None, response_type: owned("ephemeral"), username: None, as_user: true, channel: None }
    }

    /// The list of pull requests waiting for review, posted to a channel.
    pub fn in_channel(text: &str, channel_id: &str) -> (r: SlackMessageResponse)
        ensures
            r.text is Some && r.text->Some_0@ == text@,
            r.blocks is None,
            r.response_type@ == "in_channel"@,
            r.username is Some && r.username->Some_0@ == "Waiting for Review"@,
            !r.as_user,
            r.channel is Some && r.channel->Some_0@ == channel_id@,
    {
        SlackMessageResponse {
            text: Some(owned(text)),
            blocks: None,
            response_type: owned("in_channel"),
            username: Some(owned("Waiting for Review")),
            as_user: false,
            channel: Some(owned(channel_id)),
        }
    }
}

/// The authorization a chat call carries when it acts as an account.
pub fn account_authorization(user: &Option<User>) -> (r: Option<String>)
    ensures
        user is None ==> r is None,
        user is Some ==> r is Some && r->Some_0@ == "Bearer "@ + user->Some_0.slack_access_token@,
{
    match user {
        Some(u) => {
            let mut r = owned("Bearer ");
            r.append(u.slack_access_token.as_str());
            Some(r)
        },
        None => None,
    }
}

/// What `base64::encode` gives for the UTF-8 bytes of a text.
pub uninterp spec fn base64_of(s: Seq<char>) -> Seq<char>;

/// Relies on `base64::encode`: the standard, padded encoding of the bytes.
#[verifier::external_body]
fn encode_base64(s: &str) -> (r: String)
    ensures
        r@ == base64_of(s@),
{
    base64::encode(s)
}

/// `Basic` authorization with the app's client id and secret, for the
/// chat platform's token exchange.
pub fn basic_authorization(client_id: &str, client_secret: &str) -> (r: String)
    ensures
        r@ == "Basic "@ + base64_of(client_id@ + ":"@ + client_secret@),
{
    let mut pair = owned(client_id);
    pair.append(":");
    pair.append(client_secret);
    let encoded = encode_base64(pair.as_str());
    let mut r = owned("Basic ");
    r.append(encoded.as_str());
    r
}

/// The text of a failed chat response: its error, or a stand-in.
pub open spec fn error_text(e: Option<String>) -> Seq<char> {
    match e {
        Some(s) => s@,
        None => "Unkown Error"@,
    }
}

/// A chat platform's answer, which reports failure inside a success status.
pub trait SlackResponse {
    spec fn ok_spec(&self) -> bool;

    spec fn error_spec(&self) -> Option<String>;

    fn ok(&self) -> (r: bool)
        ensures
            r == self.ok_spec(),
    ;

    fn error(&self) -> (r: String)
        ensures
            r@ == error_text(self.error_spec()),
    ;
}

fn error_string(e: &Option<String>) -> (r: String)
    ensures
        r@ == error_text(*e),
{
    match e {
        Some(s) => s.clone(),
        None => owned("Unkown Error"),
    }
}

#[derive(Debug)]
pub struct SlackMessagePostResponse {
    pub channel: Option<String>,
    pub ts: Option<String>,
    pub ok: bool,
    pub error: Option<String>,
}

#[derive(Debug)]
pub struct SlackMessageUpdateResponse {
    pub channel: Option<String>,
    pub ts: Option<String>,
    pub ok: bool,
    pub error: Option<String>,
}

#[derive(Debug)]
pub struct SlackCreateCommentResponse {
    pub ok: bool,
    pub error: Option<String>,
}

#[derive(Debug)]
pub struct SlackAuthResponse {
    pub ok: bool,
    pub error: Option<String>,
    pub authed_user: AuthedUser,
}

#[derive(Debug)]
pub struct AuthedUser {
    pub id: String,
    pub scope: String,
    pub access_token: String,
    pub token_type: String,
}

#[derive(Debug)]
pub struct SlackUserData {
    pub name: String,
    pub id: String,
}

impl SlackResponse for SlackMessagePostResponse {
    open spec fn ok_spec(&self) -> bool {
        self.ok
    }

    open spec fn error_spec(&self) -> Option<String> {
        self.error
    }

    fn ok(&self) -> (r: bool) {
        self.ok
    }

    fn error(&self) -> (r: String) {
        error_string(&self.error)
    }
}

impl SlackResponse for SlackMessageUpdateResponse {
    open spec fn ok_spec(&self) -> bool {
        self.ok
    }

    open spec fn error_spec(&self) -> Option<String> {
        self.error
    }

    fn ok(&self) -> (r: bool) {
        self.ok
    }

    fn error(&self) -> (r: String) {
        error_string(&self.error)
    }
}

impl SlackResponse for SlackCreateCommentResponse {
    open spec fn ok_spec(&self) -> bool {
        self.ok
    }

    open spec fn error_spec(&self) -> Option<String> {
        self.error
    }

    fn ok(&self) -> (r: bool) {
        self.ok
    }

    fn error(&self) -> (r: String) {
        error_string(&self.error)
    }
}

impl SlackResponse for SlackAuthResponse {
    open spec fn ok_spec(&self) -> bool {
        self.ok
    }

    open spec fn error_spec(&self) -> Option<String> {
        self.error
    }

    fn ok(&self) -> (r: bool) {
        self.ok
    }

    fn error(&self) -> (r: String) {
        error_string(&self.error)
    }
}

/// Turns a response that reports failure into a chat error.
pub fn handle_response<T: SlackResponse>(resp: T) -> (r: Result<T, Error>)
    ensures
        resp.ok_spec() ==> r == Ok::<T, Error>(resp),
        !resp.ok_spec() ==> r is Err && r->Err_0 is SlackError && r->Err_0->SlackError_0@ == error_text(resp.error_spec()),
{
    if resp.ok() {
        Ok(resp)
    } else {
        Err(Error::SlackError(resp.error()))
    }
}

/// A slash command as the chat platform sends it.
#[derive(Debug)]
pub struct SlackRequest {
    pub text: String,
    pub token: String,
    pub response_url: String,
    pub channel_id: String,
    pub user_id: String,
}

/// An event callback of the chat platform.
#[derive(Debug)]
pub enum SlackEventWrapper {
    UrlVerification { token: String, challenge: String },
}

#[derive(Debug)]
pub enum SlackEvent {
    Message {
        channel: String,
        user: Option<String>,
        subtype: Option<String>,
        attachments: Option<Vec<Attachment>>,
        text: String,
        ts: String,
    },
}

/// The answer to a URL verification: the challenge, echoed.
#[derive(Debug)]
pub struct UrlVerification {
    pub challenge: String,
}

impl SlackEventWrapper {
    /// Echoes the challenge of a URL verification.
    pub fn respond(self) -> (r: UrlVerification)
        ensures
            self is UrlVerification ==> r.challenge == self->challenge,
    {
        match self {
            SlackEventWrapper::UrlVerification { challenge, .. } => UrlVerification { challenge },
        }
    }
}

#[derive(Debug)]
pub struct Field {
    pub title: String,
    pub value: String,
    pub short: Option<bool>,
}

#[derive(Debug)]
pub struct Attachment {
    pub fallback: String,
    pub color: Option<String>,
    pub pretext: Option<String>,
    pub author_name: Option<String>,
    pub author_link: Option<String>,
    pub author_icon: Option<String>,
    pub title: Option<String>,
    pub title_link: Option<String>,
    pub text: String,
    pub fields: Option<Vec<Field>>,
    pub image_url: Option<String>,
    pub thumb_url: Option<String>,
    pub footer: Option<String>,
    pub footer_icon: Option<String>,
    pub ts: Option<u64>,
}

} // verus!
