//! Channel configuration: its fields, their defaults, and what the channel declares at start.
use vstd::prelude::*;

verus! {

/// Default base URL of the QQ Bot open API.
pub open spec fn default_api_base_text() -> Seq<char> {
    "https://api.sgroup.qq.com"@
}

/// Default URL of the access-token endpoint.
pub open spec fn default_token_url_text() -> Seq<char> {
    "https://bots.qq.com/app/getAppAccessToken"@
}

/// Default path on which the webhook listens.
pub open spec fn default_webhook_path_text() -> Seq<char> {
    "/webhook/qqbot"@
}

/// Direct-message policy used when the configuration names none.
pub open spec fn default_dm_policy_text() -> Seq<char> {
    "pairing"@
}

/// The channel's configuration.
pub struct QQBotConfig {
    pub app_id: String,
    pub app_secret: String,
    pub api_base: String,
    pub token_url: String,
    pub webhook_path: String,
    pub reply_to_message: bool,
    pub verify_signature: bool,
    pub markdown_support: bool,
    pub enable_input_notify: bool,
    pub input_notify_seconds: u32,
    pub owner_id: Option<String>,
    pub dm_policy: Option<String>,
    pub allow_from: Vec<String>,
}

pub fn default_api_base() -> (s: String)
    ensures
        s@ == default_api_base_text(),
{
    String::from_str("https://api.sgroup.qq.com")
}

pub fn default_token_url() -> (s: String)
    ensures
        s@ == default_token_url_text(),
{
    String::from_str("https://bots.qq.com/app/getAppAccessToken")
}

pub fn default_webhook_path() -> (s: String)
    ensures
        s@ == default_webhook_path_text(),
{
    String::from_str("/webhook/qqbot")
}

pub fn default_reply_to_message() -> (b: bool)
    ensures
        b,
{
    true
}

pub fn default_verify_signature() -> (b: bool)
    ensures
        b,
{
    true
}

pub fn default_enable_input_notify() -> (b: bool)
    ensures
        b,
{
    true
}

pub fn default_input_notify_seconds() -> (n: u32)
    ensures
        n == 60,
{
    60
}

/// The configuration used when none could be read: every field at its default,
/// no credentials, no owner, no allow list, and the pairing policy for direct messages.
pub open spec fn is_default_config(c: QQBotConfig) -> bool {
    &&& c.app_id@.len() == 0
    &&& c.app_secret@.len() == 0
    &&& c.api_base@ == default_api_base_text()
    &&& c.token_url@ == default_token_url_text()
    &&& c.webhook_path@ == default_webhook_path_text()
    &&& c.reply_to_message
    &&& c.verify_signature
    &&& !c.markdown_support
    &&& c.enable_input_notify
    &&& c.input_notify_seconds == 60
    &&& c.owner_id is None
    &&& c.dm_policy matches Some(p) && p@ == default_dm_policy_text()
    &&& c.allow_from@.len() == 0
}

pub fn default_config() -> (c: QQBotConfig)
    ensures
        is_default_config(c),
{
    QQBotConfig {
        app_id: String::new(),
        app_secret: String::new(),
        api_base: default_api_base(),
        token_url: default_token_url(),
        webhook_path: default_webhook_path(),
        reply_to_message: default_reply_to_message(),
        verify_signature: default_verify_signature(),
        markdown_support: false,
        enable_input_notify: default_enable_input_notify(),
        input_notify_seconds: default_input_notify_seconds(),
        owner_id: None,
        dm_policy: Some(String::from_str("pairing")),
        allow_from: Vec::new(),
    }
}

/// The configuration the channel runs with, given the result of reading its JSON.
pub open spec fn is_settled_config(parsed: Option<QQBotConfig>, c: QQBotConfig) -> bool {
    match parsed {
        None => is_default_config(c),
        Some(p) => {
            &&& c.app_id == p.app_id
            &&& c.app_secret == p.app_secret
            &&& c.api_base == p.api_base
            &&& c.token_url == p.token_url
            &&& c.webhook_path == p.webhook_path
            &&& c.reply_to_message == p.reply_to_message
            &&& c.verify_signature == p.verify_signature
            &&& c.markdown_support == p.markdown_support
            &&& c.enable_input_notify == p.enable_input_notify
            &&& c.input_notify_seconds == p.input_notify_seconds
            &&& c.owner_id == p.owner_id
            &&& c.allow_from == p.allow_from
            &&& p.dm_policy is Some ==> c.dm_policy == p.dm_policy
            &&& p.dm_policy is None ==> (c.dm_policy matches Some(d) && d@
                == default_dm_policy_text())
        }
    }
}

/// The configuration the channel runs with, given the result of reading its JSON:
/// a configuration that was read keeps every field, and gets the pairing policy when it
/// names no direct-message policy; when reading failed, the defaults are used.
pub fn settle_config(parsed: Option<QQBotConfig>) -> (c: QQBotConfig)
    ensures
        is_settled_config(parsed, c),
{
    match parsed {
        Some(mut config) => {
            if config.dm_policy.is_none() {
                config.dm_policy = Some(String::from_str("pairing"));
            }
            config
        },
        None => default_config(),
    }
}

/// One HTTP endpoint that the channel asks its host to route to it.
pub struct HttpEndpoint {
    pub path: String,
    pub methods: Vec<String>,
    pub require_secret: bool,
}

/// What the channel declares to its host when it starts.
pub struct ChannelSetup {
    pub display_name: String,
    pub endpoint: HttpEndpoint,
    /// The configuration lacks the app id or the app secret, so validation and replies will fail.
    pub credentials_missing: bool,
}

/// The channel's declaration at start: named "QQ Bot", one POST endpoint on the webhook
/// path that needs no host secret, and whether the credentials are missing.
pub open spec fn is_channel_setup(config: QQBotConfig, s: ChannelSetup) -> bool {
    &&& s.display_name@ == "QQ Bot"@
    &&& s.endpoint.path@ == config.webhook_path@
    &&& s.endpoint.methods@.len() == 1
    &&& s.endpoint.methods@[0]@ == "POST"@
    &&& !s.endpoint.require_secret
    &&& s.credentials_missing == (config.app_id@.len() == 0 || config.app_secret@.len() == 0)
}

pub fn channel_setup(config: &QQBotConfig) -> (s: ChannelSetup)
    ensures
        is_channel_setup(*config, s),
{
    let mut methods: Vec<String> = Vec::new();
    methods.push(String::from_str("POST"));
    ChannelSetup {
        display_name: String::from_str("QQ Bot"),
        endpoint: HttpEndpoint {
            path: config.webhook_path.clone(),
            methods,
            require_secret: false,
        },
        credentials_missing: config.app_id.as_str().is_empty() || config.app_secret.as_str().is_empty(),
    }
}

/// When its configuration cannot be read, the channel runs with no credentials, the QQ Bot
/// API at `https://api.sgroup.qq.com`, tokens from `https://bots.qq.com/app/getAppAccessToken`,
/// the webhook at `/webhook/qqbot`, replies, signature checks and 60-second typing notices
/// on, no owner, an empty allow list and the `pairing` policy for direct messages.
pub proof fn lemma_unreadable_config_defaults(c: QQBotConfig)
    requires
        is_settled_config(None, c),
    ensures
        c.app_id@.len() == 0,
        c.app_secret@.len() == 0,
        c.api_base@ == "https://api.sgroup.qq.com"@,
        c.token_url@ == "https://bots.qq.com/app/getAppAccessToken"@,
        c.webhook_path@ == "/webhook/qqbot"@,
        c.reply_to_message,
        c.verify_signature,
        !c.markdown_support,
        c.enable_input_notify,
        c.input_notify_seconds == 60,
        c.owner_id is None,
        c.dm_policy matches Some(d) && d@ == "pairing"@,
        c.allow_from@.len() == 0,
{
}

/// A configuration that was read is kept as it is, except that a missing direct-message
/// policy becomes `pairing`.
pub proof fn lemma_read_config_kept(p: QQBotConfig, c: QQBotConfig)
    requires
        is_settled_config(Some(p), c),
    ensures
        c.app_id == p.app_id,
        c.app_secret == p.app_secret,
        c.api_base == p.api_base,
        c.token_url == p.token_url,
        c.webhook_path == p.webhook_path,
        c.reply_to_message == p.reply_to_message,
        c.verify_signature == p.verify_signature,
        c.enable_input_notify == p.enable_input_notify,
        c.input_notify_seconds == p.input_notify_seconds,
        c.owner_id == p.owner_id,
        c.allow_from == p.allow_from,
        p.dm_policy is Some ==> c.dm_policy == p.dm_policy,
        p.dm_policy is None ==> (c.dm_policy matches Some(d) && d@ == "pairing"@),
{
}

/// At start the channel declares itself as "QQ Bot" with one endpoint, on its webhook path,
/// for POST only and without a host secret, and reports missing credentials exactly when
/// the app id or the app secret is empty.
pub proof fn lemma_channel_setup_declares(config: QQBotConfig, s: ChannelSetup)
    requires
        is_channel_setup(config, s),
    ensures
        s.display_name@ == "QQ Bot"@,
        s.endpoint.path@ == config.webhook_path@,
        s.endpoint.methods@.len() == 1 && s.endpoint.methods@[0]@ == "POST"@,
        !s.endpoint.require_secret,
        s.credentials_missing <==> (config.app_id@.len() == 0 || config.app_secret@.len() == 0),
{
}

} // verus!
