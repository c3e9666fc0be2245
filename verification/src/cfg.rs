//! The configuration document and runtime configuration types.
//!
//! A [`Config`] is one configuration document: a tree of optional sections in
//! which every scalar field is itself optional. Absence of a field is
//! distinct from any value; a section is present only when its source
//! document supplied it. A [`RuntimeConfig`] is the fully resolved result:
//! no optional fields remain.

use vstd::prelude::*;

verus! {

/// One configuration document, as one tier (default, server or portal)
/// supplies it, or as the merge of the three tiers produces it.
#[derive(Debug, Clone)]
pub struct Config {
    pub bot: Option<BotConfig>,
    pub server: Option<ServerConfig>,
    pub proxy: Option<ProxyConfig>,
    pub delay: Option<DelayConfig>,
}

/// The bot identity section of a document: who the bot presents itself
/// as, including the client version string it identifies with.
#[derive(Debug, Clone)]
pub struct BotConfig {
    pub nickname: Option<String>,
    pub password: Option<String>,
    pub warp: Option<String>,
    pub version: Option<String>,
}

/// The server endpoint section of a document.
#[derive(Debug, Clone)]
pub struct ServerConfig {
    pub host: Option<String>,
    pub port: Option<u16>,
}

/// The outbound proxy endpoint section of a document.
#[derive(Debug, Clone)]
pub struct ProxyConfig {
    pub host: Option<String>,
    pub port: Option<u16>,
}

/// The delay section of a document: two optional bands of delay budgets.
#[derive(Debug, Clone)]
pub struct DelayConfig {
    pub min: Option<Delay>,
    pub max: Option<Delay>,
}

/// One delay band: three optional rates, one per action class.
#[derive(Debug, Clone)]
pub struct Delay {
    pub global: Option<i32>,
    pub discord: Option<i32>,
    pub invite: Option<i32>,
}

/// The fully resolved configuration: every field is populated.
#[derive(Debug, Clone)]
pub struct RuntimeConfig {
    pub bot: BotConfigResolved,
    pub delay: DelayResolved,
}

/// The resolved bot identity. `portal` is the portal name taken verbatim
/// from the caller, never from a document field.
#[derive(Debug, Clone)]
pub struct BotConfigResolved {
    pub nickname: String,
    pub password: String,
    pub warp: String,
    pub portal: String,
}

/// The resolved delay bands.
#[derive(Debug, Clone)]
pub struct DelayResolved {
    pub min: DelayValues,
    pub max: DelayValues,
}

/// One resolved delay band: all three rates populated.
#[derive(Debug, Clone)]
pub struct DelayValues {
    pub global: i32,
    pub discord: i32,
    pub invite: i32,
}

/// The view of an `Option` of a viewable value: the option of the view.
pub open spec fn opt_view<T: View>(o: Option<T>) -> Option<<T as View>::V> {
    match o {
        Some(t) => Some(t@),
        None => None,
    }
}

/// Mathematical model of a [`Config`] document.
#[verifier::ext_equal]
pub struct ConfigView {
    pub bot: Option<BotConfigView>,
    pub server: Option<ServerConfigView>,
    pub proxy: Option<ProxyConfigView>,
    pub delay: Option<DelayConfigView>,
}

/// Mathematical model of a [`BotConfig`] section.
#[verifier::ext_equal]
pub struct BotConfigView {
    pub nickname: Option<Seq<char>>,
    pub password: Option<Seq<char>>,
    pub warp: Option<Seq<char>>,
    pub version: Option<Seq<char>>,
}

/// Mathematical model of a [`ServerConfig`] section.
#[verifier::ext_equal]
pub struct ServerConfigView {
    pub host: Option<Seq<char>>,
    pub port: Option<u16>,
}

/// Mathematical model of a [`ProxyConfig`] section.
#[verifier::ext_equal]
pub struct ProxyConfigView {
    pub host: Option<Seq<char>>,
    pub port: Option<u16>,
}

/// Mathematical model of a [`DelayConfig`] section.
#[verifier::ext_equal]
pub struct DelayConfigView {
    pub min: Option<DelayView>,
    pub max: Option<DelayView>,
}

/// Mathematical model of a [`Delay`] band.
#[verifier::ext_equal]
pub struct DelayView {
    pub global: Option<i32>,
    pub discord: Option<i32>,
    pub invite: Option<i32>,
}

/// Mathematical model of a [`RuntimeConfig`].
#[verifier::ext_equal]
pub struct RuntimeConfigView {
    pub bot: BotConfigResolvedView,
    pub delay: DelayResolvedView,
}

/// Mathematical model of a [`BotConfigResolved`].
#[verifier::ext_equal]
pub struct BotConfigResolvedView {
    pub nickname: Seq<char>,
    pub password: Seq<char>,
    pub warp: Seq<char>,
    pub portal: Seq<char>,
}

/// Mathematical model of a [`DelayResolved`].
#[verifier::ext_equal]
pub struct DelayResolvedView {
    pub min: DelayValuesView,
    pub max: DelayValuesView,
}

/// Mathematical model of a [`DelayValues`] band.
#[verifier::ext_equal]
pub struct DelayValuesView {
    pub global: i32,
    pub discord: i32,
    pub invite: i32,
}

impl View for BotConfig {
    type V = BotConfigView;

    open spec fn view(&self) -> BotConfigView {
        BotConfigView {
            nickname: opt_view(self.nickname),
            password: opt_view(self.password),
            warp: opt_view(self.warp),
            version: opt_view(self.version),
        }
    }
}

impl View for ServerConfig {
    type V = ServerConfigView;

    open spec fn view(&self) -> ServerConfigView {
        ServerConfigView { host: opt_view(self.host), port: self.port }
    }
}

impl View for ProxyConfig {
    type V = ProxyConfigView;

    open spec fn view(&self) -> ProxyConfigView {
        ProxyConfigView { host: opt_view(self.host), port: self.port }
    }
}

impl View for Delay {
    type V = DelayView;

    open spec fn view(&self) -> DelayView {
        DelayView { global: self.global, discord: self.discord, invite: self.invite }
    }
}

impl View for DelayConfig {
    type V = DelayConfigView;

    open spec fn view(&self) -> DelayConfigView {
        DelayConfigView { min: opt_view(self.min), max: opt_view(self.max) }
    }
}

impl View for Config {
    type V = ConfigView;

    open spec fn view(&self) -> ConfigView {
        ConfigView {
            bot: opt_view(self.bot),
            server: opt_view(self.server),
            proxy: opt_view(self.proxy),
            delay: opt_view(self.delay),
        }
    }
}

impl View for BotConfigResolved {
    type V = BotConfigResolvedView;

    open spec fn view(&self) -> BotConfigResolvedView {
        BotConfigResolvedView {
            nickname: self.nickname@,
            password: self.password@,
            warp: self.warp@,
            portal: self.portal@,
        }
    }
}

impl View for DelayValues {
    type V = DelayValuesView;

    open spec fn view(&self) -> DelayValuesView {
        DelayValuesView { global: self.global, discord: self.discord, invite: self.invite }
    }
}

impl View for DelayResolved {
    type V = DelayResolvedView;

    open spec fn view(&self) -> DelayResolvedView {
        DelayResolvedView { min: self.min@, max: self.max@ }
    }
}

impl View for RuntimeConfig {
    type V = RuntimeConfigView;

    open spec fn view(&self) -> RuntimeConfigView {
        RuntimeConfigView { bot: self.bot@, delay: self.delay@ }
    }
}

/// The model of a document with every section absent, as an unsupplied tier
/// contributes it.
pub open spec fn empty_config_view() -> ConfigView {
    ConfigView { bot: None, server: None, proxy: None, delay: None }
}

impl Default for Config {
    /// The empty document: every section absent.
    fn default() -> (r: Config)
        ensures
            r@ == empty_config_view(),
    {
        Config { bot: None, server: None, proxy: None, delay: None }
    }
}

impl Default for ProxyConfig {
    /// The empty proxy section: no host, no port.
    fn default() -> (r: ProxyConfig)
        ensures
            r@ == (ProxyConfigView { host: None, port: None }),
    {
        ProxyConfig { host: None, port: None }
    }
}

impl Default for BotConfig {
    /// The empty bot section: every field absent.
    fn default() -> (r: BotConfig)
        ensures
            r@ == (BotConfigView { nickname: None, password: None, warp: None, version: None }),
    {
        BotConfig { nickname: None, password: None, warp: None, version: None }
    }
}

impl Default for ServerConfig {
    /// The empty server section: every field absent.
    fn default() -> (r: ServerConfig)
        ensures
            r@ == (ServerConfigView { host: None, port: None }),
    {
        ServerConfig { host: None, port: None }
    }
}

impl Default for DelayConfig {
    /// The empty delay section: neither band supplied.
    fn default() -> (r: DelayConfig)
        ensures
            r@ == (DelayConfigView { min: None, max: None }),
    {
        DelayConfig { min: None, max: None }
    }
}

impl Default for Delay {
    /// The empty delay band: every rate absent.
    fn default() -> (r: Delay)
        ensures
            r@ == (DelayView { global: None, discord: None, invite: None }),
    {
        Delay { global: None, discord: None, invite: None }
    }
}

} // verus!
