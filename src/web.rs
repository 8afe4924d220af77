use vstd::prelude::*;
use vstd::string::*;

use crate::error::Error;
use crate::store::Config;
use crate::text::{all_chars, owned, str_eq};

verus! {

/// A one-time notice shown on the next page.
#[derive(Debug)]
pub struct Flash {
    pub message_type: FlashType,
    pub message: String,
}

#[derive(Clone, Copy, Debug, PartialEq, Eq, Structural)]
pub enum FlashType {
    Info,
    Warn,
    Error,
}

pub open spec fn flash_type_name(t: FlashType) -> Seq<char> {
    match t {
        FlashType::Info => "info"@,
        FlashType::Warn => "warning"@,
        FlashType::Error => "error"@,
    }
}

impl FlashType {
    /// The style name a page gives the notice.
    pub fn name(&self) -> (r: String)
        ensures
            r@ == flash_type_name(*self),
    {
        match self {
            FlashType::Info => owned("info"),
            FlashType::Warn => owned("warning"),
            FlashType::Error => owned("error"),
        }
    }
}

impl Flash {
    pub fn info(message: &str) -> (r: Flash)
        ensures
            r.message_type == FlashType::Info,
            r.message@ == message@,
    {
        Flash { message_type: FlashType::Info, message: owned(message) }
    }

    pub fn err(message: &str) -> (r: Flash)
        ensures
            r.message_type == FlashType::Error,
            r.message@ == message@,
    {
        Flash { message_type: FlashType::Error, message: owned(message) }
    }

    /// The given message on success; a generic failure notice otherwise.
    pub fn from_result<T>(result: Result<T, Error>, message: &str) -> (r: Flash)
        ensures
            result is Ok ==> r.message_type == FlashType::Info && r.message@ == message@,
            result is Err ==> r.message_type == FlashType::Error && r.message@ == "Something went wrong!"@,
    {
        match result {
            Ok(_) => Flash::info(message),
            Err(_) => Flash::err("Something went wrong!"),
        }
    }
}

/// The OAuth redirect's query.
#[derive(Debug)]
pub struct AuthRedirect {
    pub code: String,
}

/// The repository a webhook is set up for.
#[derive(Debug)]
pub struct WebhookParams {
    pub owner: String,
    pub name: String,
}

/// The code host's OAuth application.
#[derive(Clone, Debug)]
pub struct GithubOauthClient {
    pub client_id: String,
    pub client_secret: String,
}

impl GithubOauthClient {
    pub fn new(client_id: &str, client_secret: &str) -> (r: GithubOauthClient)
        ensures
            r.client_id@ == client_id@,
            r.client_secret@ == client_secret@,
    {
        GithubOauthClient { client_id: owned(client_id), client_secret: owned(client_secret) }
    }

    /// The form that exchanges an OAuth code for a token.
    pub fn token_params<'a>(&'a self, code: &'a str) -> (r: GHTokenParams<'a>)
        ensures
            r.client_id@ == self.client_id@,
            r.client_secret@ == self.client_secret@,
            r.code@ == code@,
    {
        GHTokenParams { client_id: self.client_id.as_str(), client_secret: self.client_secret.as_str(), code }
    }
}

/// The form of the code host's token exchange.
#[derive(Debug)]
pub struct GHTokenParams<'a> {
    pub client_id: &'a str,
    pub client_secret: &'a str,
    pub code: &'a str,
}

/// The code host's answer to the token exchange.
#[derive(Debug)]
pub struct GHAuthResponse {
    pub access_token: String,
}

/// The integration settings the setup form collects.
#[derive(Debug)]
pub struct SetupData {
    pub slack_client_id: String,
    pub slack_client_secret: String,
    pub slack_token: String,
    pub slack_channel: String,
    pub github_client_id: String,
    pub github_client_secret: String,
    pub app_url: String,
}

pub open spec fn setting(c: Config, key: Seq<char>, value: Seq<char>) -> bool {
    c.key@ == key && c.value@ == value
}

impl SetupData {
    /// The settings to store, one per field.
    pub fn configs(&self) -> (r: Vec<Config>)
        ensures
            r@.len() == 7,
            setting(r@[0], "slack_client_id"@, self.slack_client_id@),
            setting(r@[1], "slack_client_secret"@, self.slack_client_secret@),
            setting(r@[2], "slack_channel"@, self.slack_channel@),
            setting(r@[3], "slack_token"@, self.slack_token@),
            setting(r@[4], "github_client_id"@, self.github_client_id@),
            setting(r@[5], "github_client_secret"@, self.github_client_secret@),
            setting(r@[6], "app_url"@, self.app_url@),
    {
        let mut r: Vec<Config> = Vec::new();
        r.push(Config::new("slack_client_id", self.slack_client_id.as_str()));
        r.push(Config::new("slack_client_secret", self.slack_client_secret.as_str()));
        r.push(Config::new("slack_channel", self.slack_channel.as_str()));
        r.push(Config::new("slack_token", self.slack_token.as_str()));
        r.push(Config::new("github_client_id", self.github_client_id.as_str()));
        r.push(Config::new("github_client_secret", self.github_client_secret.as_str()));
        r.push(Config::new("app_url", self.app_url.as_str()));
        r
    }
}

/// The value of the last setting with the key: a later setting overrides an earlier one.
pub open spec fn config_value(configs: Seq<Config>, key: Seq<char>) -> Option<Seq<char>>
    decreases configs.len(),
{
    if configs.len() == 0 {
        None
    } else if configs.last().key@ == key {
        Some(configs.last().value@)
    } else {
        config_value(configs.drop_last(), key)
    }
}

pub fn lookup(configs: &Vec<Config>, key: &str) -> (r: Option<String>)
    ensures
        crate::text::opt_chars(r) == config_value(configs@, key@),
{
    let mut i: usize = configs.len();
    assert(configs@.subrange(0, i as int) =~= configs@);
    while i > 0
        invariant
            i <= configs@.len(),
            config_value(configs@, key@) == config_value(configs@.subrange(0, i as int), key@),
        decreases i,
    {
        proof {
            assert(configs@.subrange(0, i as int).drop_last() =~= configs@.subrange(0, i - 1));
        }
        if str_eq(configs[i - 1].key.as_str(), key) {
            return Some(configs[i - 1].value.clone());
        }
        i = i - 1;
    }
    None
}

/// The service's settings once setup is complete.
#[derive(Debug)]
pub struct AppSettings {
    pub github_oauth: GithubOauthClient,
    pub slack_client_id: String,
    pub slack_client_secret: String,
    pub slack_channel: String,
    pub slack_token: String,
    pub app_url: String,
}

impl AppSettings {
    /// The settings, when every one of them is stored; `None` means setup is
    /// not complete.
    pub fn from_configs(configs: &Vec<Config>) -> (r: Option<AppSettings>)
        ensures
            r is Some <==> (config_value(configs@, "github_client_id"@) is Some && config_value(configs@, "github_client_secret"@) is Some
                && config_value(configs@, "slack_client_id"@) is Some && config_value(configs@, "slack_client_secret"@) is Some
                && config_value(configs@, "slack_channel"@) is Some && config_value(configs@, "slack_token"@) is Some
                && config_value(configs@, "app_url"@) is Some),
            r is Some ==> ({
                let s = r->Some_0;
                &&& Some(s.github_oauth.client_id@) == config_value(configs@, "github_client_id"@)
                &&& Some(s.github_oauth.client_secret@) == config_value(configs@, "github_client_secret"@)
                &&& Some(s.slack_client_id@) == config_value(configs@, "slack_client_id"@)
                &&& Some(s.slack_client_secret@) == config_value(configs@, "slack_client_secret"@)
                &&& Some(s.slack_channel@) == config_value(configs@, "slack_channel"@)
                &&& Some(s.slack_token@) == config_value(configs@, "slack_token"@)
                &&& Some(s.app_url@) == config_value(configs@, "app_url"@)
            }),
    {
        let gh_id = lookup(configs, "github_client_id");
        let gh_secret = lookup(configs, "github_client_secret");
        let sl_id = lookup(configs, "slack_client_id");
        let sl_secret = lookup(configs, "slack_client_secret");
        let channel = lookup(configs, "slack_channel");
        let token = lookup(configs, "slack_token");
        let url = lookup(configs, "app_url");
        match (gh_id, gh_secret, sl_id, sl_secret, channel, token, url) {
            (Some(a), Some(b), Some(c), Some(d), Some(e), Some(f), Some(g)) => Some(AppSettings {
                github_oauth: GithubOauthClient::new(a.as_str(), b.as_str()),
                slack_client_id: c,
                slack_client_secret: d,
                slack_channel: e,
                slack_token: f,
                app_url: g,
            }),
            _ => None,
        }
    }

    /// Where the code host delivers events.
    pub fn webhook_url(&self) -> (r: String)
        ensures
            r@ == self.app_url@ + "/github_event"@,
    {
        let mut r = self.app_url.clone();
        r.append("/github_event");
        r
    }
}

} // verus!
