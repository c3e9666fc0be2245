//! Merging the three configuration tiers into one document.
//!
//! The three tiers are ordered `default`, `server`, `portal`, lowest to
//! highest precedence. Each leaf scalar field is merged independently: the
//! portal tier's value wins when present, else the server tier's, else the
//! default tier's. A composite section is present in the merged document
//! exactly when at least one of its fields resolved to a present value; an
//! empty section therefore behaves identically to an absent one.

use vstd::prelude::*;

use crate::cfg::BotConfig;
use crate::cfg::BotConfigView;
use crate::cfg::Config;
use crate::cfg::ConfigView;
use crate::cfg::Delay;
use crate::cfg::DelayConfig;
use crate::cfg::DelayConfigView;
use crate::cfg::DelayView;
use crate::cfg::ProxyConfig;
use crate::cfg::ProxyConfigView;
use crate::cfg::ServerConfig;
use crate::cfg::ServerConfigView;
use crate::cfg::opt_view;

verus! {

/// The tier precedence rule for one leaf field: the portal tier's value when
/// present, else the server tier's, else the default tier's.
pub open spec fn pick<A>(portal: Option<A>, server: Option<A>, default: Option<A>) -> Option<A> {
    if portal is Some {
        portal
    } else if server is Some {
        server
    } else {
        default
    }
}

/// The nickname field of an optional bot section; absent when the section is.
pub open spec fn nickname_of(bot: Option<BotConfigView>) -> Option<Seq<char>> {
    match bot {
        Some(b) => b.nickname,
        None => None,
    }
}

/// The password field of an optional bot section; absent when the section is.
pub open spec fn password_of(bot: Option<BotConfigView>) -> Option<Seq<char>> {
    match bot {
        Some(b) => b.password,
        None => None,
    }
}

/// The warp field of an optional bot section; absent when the section is.
pub open spec fn warp_of(bot: Option<BotConfigView>) -> Option<Seq<char>> {
    match bot {
        Some(b) => b.warp,
        None => None,
    }
}

/// The version field of an optional bot section; absent when the section is.
pub open spec fn version_of(bot: Option<BotConfigView>) -> Option<Seq<char>> {
    match bot {
        Some(b) => b.version,
        None => None,
    }
}

/// The host field of an optional server section; absent when the section is.
pub open spec fn server_host_of(server: Option<ServerConfigView>) -> Option<Seq<char>> {
    match server {
        Some(s) => s.host,
        None => None,
    }
}

/// The port field of an optional server section; absent when the section is.
pub open spec fn server_port_of(server: Option<ServerConfigView>) -> Option<u16> {
    match server {
        Some(s) => s.port,
        None => None,
    }
}

/// The host field of an optional proxy section; absent when the section is.
pub open spec fn proxy_host_of(proxy: Option<ProxyConfigView>) -> Option<Seq<char>> {
    match proxy {
        Some(p) => p.host,
        None => None,
    }
}

/// The port field of an optional proxy section; absent when the section is.
pub open spec fn proxy_port_of(proxy: Option<ProxyConfigView>) -> Option<u16> {
    match proxy {
        Some(p) => p.port,
        None => None,
    }
}

/// The min band of an optional delay section; absent when the section is.
pub open spec fn min_of(delay: Option<DelayConfigView>) -> Option<DelayView> {
    match delay {
        Some(d) => d.min,
        None => None,
    }
}

/// The max band of an optional delay section; absent when the section is.
pub open spec fn max_of(delay: Option<DelayConfigView>) -> Option<DelayView> {
    match delay {
        Some(d) => d.max,
        None => None,
    }
}

/// The global rate of an optional delay band; absent when the band is.
pub open spec fn global_of(band: Option<DelayView>) -> Option<i32> {
    match band {
        Some(b) => b.global,
        None => None,
    }
}

/// The discord rate of an optional delay band; absent when the band is.
pub open spec fn discord_of(band: Option<DelayView>) -> Option<i32> {
    match band {
        Some(b) => b.discord,
        None => None,
    }
}

/// The invite rate of an optional delay band; absent when the band is.
pub open spec fn invite_of(band: Option<DelayView>) -> Option<i32> {
    match band {
        Some(b) => b.invite,
        None => None,
    }
}

/// The merged bot section: each field merged by precedence, the section
/// present exactly when some field is.
pub open spec fn merge_bot_spec(
    d: Option<BotConfigView>,
    s: Option<BotConfigView>,
    p: Option<BotConfigView>,
) -> Option<BotConfigView> {
    let nickname = pick(nickname_of(p), nickname_of(s), nickname_of(d));
    let password = pick(password_of(p), password_of(s), password_of(d));
    let warp = pick(warp_of(p), warp_of(s), warp_of(d));
    let version = pick(version_of(p), version_of(s), version_of(d));
    if nickname is Some || password is Some || warp is Some || version is Some {
        Some(BotConfigView { nickname, password, warp, version })
    } else {
        None
    }
}

/// The merged server section: each field merged by precedence, the section
/// present exactly when some field is.
pub open spec fn merge_server_spec(
    d: Option<ServerConfigView>,
    s: Option<ServerConfigView>,
    p: Option<ServerConfigView>,
) -> Option<ServerConfigView> {
    let host = pick(server_host_of(p), server_host_of(s), server_host_of(d));
    let port = pick(server_port_of(p), server_port_of(s), server_port_of(d));
    if host is Some || port is Some {
        Some(ServerConfigView { host, port })
    } else {
        None
    }
}

/// The merged proxy section: each field merged by precedence, the section
/// present exactly when some field is.
pub open spec fn merge_proxy_spec(
    d: Option<ProxyConfigView>,
    s: Option<ProxyConfigView>,
    p: Option<ProxyConfigView>,
) -> Option<ProxyConfigView> {
    let host = pick(proxy_host_of(p), proxy_host_of(s), proxy_host_of(d));
    let port = pick(proxy_port_of(p), proxy_port_of(s), proxy_port_of(d));
    if host is Some || port is Some {
        Some(ProxyConfigView { host, port })
    } else {
        None
    }
}

/// One merged delay band: each rate merged by precedence, the band present
/// exactly when some rate is.
pub open spec fn merge_band_spec(
    d: Option<DelayView>,
    s: Option<DelayView>,
    p: Option<DelayView>,
) -> Option<DelayView> {
    let global = pick(global_of(p), global_of(s), global_of(d));
    let discord = pick(discord_of(p), discord_of(s), discord_of(d));
    let invite = pick(invite_of(p), invite_of(s), invite_of(d));
    if global is Some || discord is Some || invite is Some {
        Some(DelayView { global, discord, invite })
    } else {
        None
    }
}

/// The merged delay section: both bands merged rate by rate, the section
/// present exactly when some band is.
pub open spec fn merge_delay_spec(
    d: Option<DelayConfigView>,
    s: Option<DelayConfigView>,
    p: Option<DelayConfigView>,
) -> Option<DelayConfigView> {
    let min = merge_band_spec(min_of(d), min_of(s), min_of(p));
    let max = merge_band_spec(max_of(d), max_of(s), max_of(p));
    if min is Some || max is Some {
        Some(DelayConfigView { min, max })
    } else {
        None
    }
}

/// The merge of three document tiers, section by section.
pub open spec fn merge_spec(d: ConfigView, s: ConfigView, p: ConfigView) -> ConfigView {
    ConfigView {
        bot: merge_bot_spec(d.bot, s.bot, p.bot),
        server: merge_server_spec(d.server, s.server, p.server),
        proxy: merge_proxy_spec(d.proxy, s.proxy, p.proxy),
        delay: merge_delay_spec(d.delay, s.delay, p.delay),
    }
}

/// Clones an optional string field.
pub(crate) fn clone_opt_string(o: &Option<String>) -> (r: Option<String>)
    ensures
        r == *o,
{
    match o {
        Some(s) => Some(s.clone()),
        None => None,
    }
}

/// Merges one optional string field across the three tiers by precedence.
fn pick_string(portal: &Option<String>, server: &Option<String>, default: &Option<String>) -> (r:
    Option<String>)
    ensures
        opt_view(r) == pick(opt_view(*portal), opt_view(*server), opt_view(*default)),
{
    if portal.is_some() {
        clone_opt_string(portal)
    } else if server.is_some() {
        clone_opt_string(server)
    } else {
        clone_opt_string(default)
    }
}

/// Merges one optional port field across the three tiers by precedence.
fn pick_u16(portal: &Option<u16>, server: &Option<u16>, default: &Option<u16>) -> (r: Option<u16>)
    ensures
        r == pick(*portal, *server, *default),
{
    if portal.is_some() {
        *portal
    } else if server.is_some() {
        *server
    } else {
        *default
    }
}

/// Merges one optional rate field across the three tiers by precedence.
fn pick_i32(portal: &Option<i32>, server: &Option<i32>, default: &Option<i32>) -> (r: Option<i32>)
    ensures
        r == pick(*portal, *server, *default),
{
    if portal.is_some() {
        *portal
    } else if server.is_some() {
        *server
    } else {
        *default
    }
}

/// The bot section of one tier, or an all-absent section when the tier
/// does not supply one.
fn bot_or_empty(o: &Option<BotConfig>) -> (r: BotConfig)
    ensures
        r@ == (match opt_view(*o) {
            Some(v) => v,
            None => BotConfigView { nickname: None, password: None, warp: None, version: None },
        }),
{
    match o {
        Some(b) => BotConfig {
            nickname: clone_opt_string(&b.nickname),
            password: clone_opt_string(&b.password),
            warp: clone_opt_string(&b.warp),
            version: clone_opt_string(&b.version),
        },
        None => BotConfig { nickname: None, password: None, warp: None, version: None },
    }
}

/// The server section of one tier, or an all-absent section.
fn server_or_empty(o: &Option<ServerConfig>) -> (r: ServerConfig)
    ensures
        r@ == (match opt_view(*o) {
            Some(v) => v,
            None => ServerConfigView { host: None, port: None },
        }),
{
    match o {
        Some(s) => ServerConfig { host: clone_opt_string(&s.host), port: s.port },
        None => ServerConfig { host: None, port: None },
    }
}

/// The proxy section of one tier, or an all-absent section.
fn proxy_or_empty(o: &Option<ProxyConfig>) -> (r: ProxyConfig)
    ensures
        r@ == (match opt_view(*o) {
            Some(v) => v,
            None => ProxyConfigView { host: None, port: None },
        }),
{
    match o {
        Some(p) => ProxyConfig { host: clone_opt_string(&p.host), port: p.port },
        None => ProxyConfig { host: None, port: None },
    }
}

/// Copies an optional delay band.
fn copy_opt_band(o: &Option<Delay>) -> (r: Option<Delay>)
    ensures
        opt_view(r) == opt_view(*o),
{
    match o {
        Some(b) => Some(Delay { global: b.global, discord: b.discord, invite: b.invite }),
        None => None,
    }
}

/// The delay section of one tier, or an all-absent section.
fn delay_or_empty(o: &Option<DelayConfig>) -> (r: DelayConfig)
    ensures
        r@ == (match opt_view(*o) {
            Some(v) => v,
            None => DelayConfigView { min: None, max: None },
        }),
{
    match o {
        Some(d) => DelayConfig { min: copy_opt_band(&d.min), max: copy_opt_band(&d.max) },
        None => DelayConfig { min: None, max: None },
    }
}

/// One delay band of one tier, or an all-absent band.
fn band_or_empty(o: &Option<Delay>) -> (r: Delay)
    ensures
        r@ == (match opt_view(*o) {
            Some(v) => v,
            None => DelayView { global: None, discord: None, invite: None },
        }),
{
    match o {
        Some(b) => Delay { global: b.global, discord: b.discord, invite: b.invite },
        None => Delay { global: None, discord: None, invite: None },
    }
}

/// Merges the bot sections of the three tiers.
fn merge_bot(default: &Option<BotConfig>, server: &Option<BotConfig>, portal: &Option<BotConfig>)
    -> (r: Option<BotConfig>)
    ensures
        opt_view(r) == merge_bot_spec(opt_view(*default), opt_view(*server), opt_view(*portal)),
{
    let d = bot_or_empty(default);
    let s = bot_or_empty(server);
    let p = bot_or_empty(portal);
    let nickname = pick_string(&p.nickname, &s.nickname, &d.nickname);
    let password = pick_string(&p.password, &s.password, &d.password);
    let warp = pick_string(&p.warp, &s.warp, &d.warp);
    let version = pick_string(&p.version, &s.version, &d.version);
    if nickname.is_some() || password.is_some() || warp.is_some() || version.is_some() {
        Some(BotConfig { nickname, password, warp, version })
    } else {
        None
    }
}

/// Merges the server sections of the three tiers.
fn merge_server(
    default: &Option<ServerConfig>,
    server: &Option<ServerConfig>,
    portal: &Option<ServerConfig>,
) -> (r: Option<ServerConfig>)
    ensures
        opt_view(r) == merge_server_spec(opt_view(*default), opt_view(*server), opt_view(*portal)),
{
    let d = server_or_empty(default);
    let s = server_or_empty(server);
    let p = server_or_empty(portal);
    let host = pick_string(&p.host, &s.host, &d.host);
    let port = pick_u16(&p.port, &s.port, &d.port);
    if host.is_some() || port.is_some() {
        Some(ServerConfig { host, port })
    } else {
        None
    }
}

/// Merges the proxy sections of the three tiers.
fn merge_proxy(
    default: &Option<ProxyConfig>,
    server: &Option<ProxyConfig>,
    portal: &Option<ProxyConfig>,
) -> (r: Option<ProxyConfig>)
    ensures
        opt_view(r) == merge_proxy_spec(opt_view(*default), opt_view(*server), opt_view(*portal)),
{
    let d = proxy_or_empty(default);
    let s = proxy_or_empty(server);
    let p = proxy_or_empty(portal);
    let host = pick_string(&p.host, &s.host, &d.host);
    let port = pick_u16(&p.port, &s.port, &d.port);
    if host.is_some() || port.is_some() {
        Some(ProxyConfig { host, port })
    } else {
        None
    }
}

/// Merges one delay band across the three tiers, rate by rate.
fn merge_band(default: &Option<Delay>, server: &Option<Delay>, portal: &Option<Delay>) -> (r:
    Option<Delay>)
    ensures
        opt_view(r) == merge_band_spec(opt_view(*default), opt_view(*server), opt_view(*portal)),
{
    let d = band_or_empty(default);
    let s = band_or_empty(server);
    let p = band_or_empty(portal);
    let global = pick_i32(&p.global, &s.global, &d.global);
    let discord = pick_i32(&p.discord, &s.discord, &d.discord);
    let invite = pick_i32(&p.invite, &s.invite, &d.invite);
    if global.is_some() || discord.is_some() || invite.is_some() {
        Some(Delay { global, discord, invite })
    } else {
        None
    }
}

/// Merges the delay sections of the three tiers.
fn merge_delay(
    default: &Option<DelayConfig>,
    server: &Option<DelayConfig>,
    portal: &Option<DelayConfig>,
) -> (r: Option<DelayConfig>)
    ensures
        opt_view(r) == merge_delay_spec(opt_view(*default), opt_view(*server), opt_view(*portal)),
{
    let d = delay_or_empty(default);
    let s = delay_or_empty(server);
    let p = delay_or_empty(portal);
    let min = merge_band(&d.min, &s.min, &p.min);
    let max = merge_band(&d.max, &s.max, &p.max);
    if min.is_some() || max.is_some() {
        Some(DelayConfig { min, max })
    } else {
        None
    }
}

/// Merges three document tiers, ordered lowest to highest precedence, into
/// one document.
pub fn merge_configs(default: &Config, server: &Config, portal: &Config) -> (r: Config)
    ensures
        r@ == merge_spec(default@, server@, portal@),
{
    Config {
        bot: merge_bot(&default.bot, &server.bot, &portal.bot),
        server: merge_server(&default.server, &server.server, &portal.server),
        proxy: merge_proxy(&default.proxy, &server.proxy, &portal.proxy),
        delay: merge_delay(&default.delay, &server.delay, &portal.delay),
    }
}

/// Precedence law: every leaf scalar field of the merged document equals the
/// portal tier's value when present, else the server tier's, else the
/// default tier's — whichever tiers define it.
pub proof fn lemma_merge_precedence(d: ConfigView, s: ConfigView, p: ConfigView)
    ensures
        nickname_of(merge_spec(d, s, p).bot) == pick(
            nickname_of(p.bot),
            nickname_of(s.bot),
            nickname_of(d.bot),
        ),
        password_of(merge_spec(d, s, p).bot) == pick(
            password_of(p.bot),
            password_of(s.bot),
            password_of(d.bot),
        ),
        warp_of(merge_spec(d, s, p).bot) == pick(warp_of(p.bot), warp_of(s.bot), warp_of(d.bot)),
        version_of(merge_spec(d, s, p).bot) == pick(
            version_of(p.bot),
            version_of(s.bot),
            version_of(d.bot),
        ),
        server_host_of(merge_spec(d, s, p).server) == pick(
            server_host_of(p.server),
            server_host_of(s.server),
            server_host_of(d.server),
        ),
        server_port_of(merge_spec(d, s, p).server) == pick(
            server_port_of(p.server),
            server_port_of(s.server),
            server_port_of(d.server),
        ),
        proxy_host_of(merge_spec(d, s, p).proxy) == pick(
            proxy_host_of(p.proxy),
            proxy_host_of(s.proxy),
            proxy_host_of(d.proxy),
        ),
        proxy_port_of(merge_spec(d, s, p).proxy) == pick(
            proxy_port_of(p.proxy),
            proxy_port_of(s.proxy),
            proxy_port_of(d.proxy),
        ),
        global_of(min_of(merge_spec(d, s, p).delay)) == pick(
            global_of(min_of(p.delay)),
            global_of(min_of(s.delay)),
            global_of(min_of(d.delay)),
        ),
        discord_of(min_of(merge_spec(d, s, p).delay)) == pick(
            discord_of(min_of(p.delay)),
            discord_of(min_of(s.delay)),
            discord_of(min_of(d.delay)),
        ),
        invite_of(min_of(merge_spec(d, s, p).delay)) == pick(
            invite_of(min_of(p.delay)),
            invite_of(min_of(s.delay)),
            invite_of(min_of(d.delay)),
        ),
        global_of(max_of(merge_spec(d, s, p).delay)) == pick(
            global_of(max_of(p.delay)),
            global_of(max_of(s.delay)),
            global_of(max_of(d.delay)),
        ),
        discord_of(max_of(merge_spec(d, s, p).delay)) == pick(
            discord_of(max_of(p.delay)),
            discord_of(max_of(s.delay)),
            discord_of(max_of(d.delay)),
        ),
        invite_of(max_of(merge_spec(d, s, p).delay)) == pick(
            invite_of(max_of(p.delay)),
            invite_of(max_of(s.delay)),
            invite_of(max_of(d.delay)),
        ),
{
}

/// Group presence law: a composite section of the merged document is present
/// exactly when at least one of its leaf fields resolved to a present value
/// across the three tiers; the delay section is present exactly when one of
/// its bands is.
pub proof fn lemma_merge_group_presence(d: ConfigView, s: ConfigView, p: ConfigView)
    ensures
        merge_spec(d, s, p).bot is Some <==> {
            ||| pick(nickname_of(p.bot), nickname_of(s.bot), nickname_of(d.bot)) is Some
            ||| pick(password_of(p.bot), password_of(s.bot), password_of(d.bot)) is Some
            ||| pick(warp_of(p.bot), warp_of(s.bot), warp_of(d.bot)) is Some
            ||| pick(version_of(p.bot), version_of(s.bot), version_of(d.bot)) is Some
        },
        merge_spec(d, s, p).server is Some <==> {
            ||| pick(server_host_of(p.server), server_host_of(s.server), server_host_of(d.server))
                is Some
            ||| pick(server_port_of(p.server), server_port_of(s.server), server_port_of(d.server))
                is Some
        },
        merge_spec(d, s, p).proxy is Some <==> {
            ||| pick(proxy_host_of(p.proxy), proxy_host_of(s.proxy), proxy_host_of(d.proxy))
                is Some
            ||| pick(proxy_port_of(p.proxy), proxy_port_of(s.proxy), proxy_port_of(d.proxy))
                is Some
        },
        min_of(merge_spec(d, s, p).delay) is Some <==> {
            ||| pick(global_of(min_of(p.delay)), global_of(min_of(s.delay)), global_of(min_of(d.delay)))
                is Some
            ||| pick(
                discord_of(min_of(p.delay)),
                discord_of(min_of(s.delay)),
                discord_of(min_of(d.delay)),
            ) is Some
            ||| pick(invite_of(min_of(p.delay)), invite_of(min_of(s.delay)), invite_of(min_of(d.delay)))
                is Some
        },
        max_of(merge_spec(d, s, p).delay) is Some <==> {
            ||| pick(global_of(max_of(p.delay)), global_of(max_of(s.delay)), global_of(max_of(d.delay)))
                is Some
            ||| pick(
                discord_of(max_of(p.delay)),
                discord_of(max_of(s.delay)),
                discord_of(max_of(d.delay)),
            ) is Some
            ||| pick(invite_of(max_of(p.delay)), invite_of(max_of(s.delay)), invite_of(max_of(d.delay)))
                is Some
        },
        merge_spec(d, s, p).delay is Some <==> (min_of(merge_spec(d, s, p).delay) is Some || max_of(
            merge_spec(d, s, p).delay,
        ) is Some),
{
}

} // verus!
