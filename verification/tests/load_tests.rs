use mrsbot::cfg::BotConfig;
use mrsbot::cfg::Config;
use mrsbot::cfg::Delay;
use mrsbot::cfg::DelayConfig;
use mrsbot::cfg::ServerConfig;
use mrsbot::error::CfgError;
use mrsbot::load::assemble_cfg;
use mrsbot::paths::derive_tier_paths;
use mrsbot::types::Counters;
use mrsbot::types::Flags;

fn full_portal_doc() -> Config {
    Config {
        bot: Some(BotConfig {
            nickname: Some("nick".to_string()),
            password: Some("pw".to_string()),
            warp: Some("hub".to_string()),
            version: Some("1.20".to_string()),
        }),
        server: Some(ServerConfig { host: Some("mc.example".to_string()), port: Some(25565) }),
        proxy: None,
        delay: Some(DelayConfig {
            min: Some(Delay { global: Some(1), discord: Some(2), invite: Some(3) }),
            max: None,
        }),
    }
}

#[test]
fn assemble_happy_path() {
    let d = Config {
        bot: Some(BotConfig {
            nickname: None,
            password: Some("default_pw".to_string()),
            warp: None,
            version: None,
        }),
        server: None,
        proxy: None,
        delay: None,
    };
    let s = Config::default();
    let p = full_portal_doc();
    let (merged, runtime, server, proxy) = assemble_cfg(&d, &s, &p, "profileX").unwrap();
    assert_eq!(merged.bot.as_ref().unwrap().password.as_deref(), Some("pw"));
    assert_eq!(runtime.bot.nickname, "nick");
    assert_eq!(runtime.bot.portal, "profileX");
    assert_eq!(runtime.delay.max.invite, 3);
    assert_eq!(server.host.as_deref(), Some("mc.example"));
    assert_eq!(server.port, Some(25565));
    assert!(proxy.host.is_none());
    assert!(proxy.port.is_none());
}

#[test]
fn assemble_requires_server_section() {
    let mut p = full_portal_doc();
    p.server = None;
    let e = assemble_cfg(&Config::default(), &Config::default(), &p, "x").unwrap_err();
    assert_eq!(e, CfgError::MissingServerSection);
    assert_eq!(e.message(), "Merged configuration is missing 'server' section");
}

#[test]
fn assemble_surfaces_resolution_failure_first() {
    let mut p = full_portal_doc();
    p.bot = None;
    let e = assemble_cfg(&Config::default(), &Config::default(), &p, "x").unwrap_err();
    assert_eq!(e, CfgError::MissingBotSection);
}

#[test]
fn missing_tiers_equal_leaf_alone() {
    // Empty default and server tiers change nothing: the runtime
    // configuration equals the one resolved from the portal document alone.
    let p = full_portal_doc();
    let (_, runtime, _, _) =
        assemble_cfg(&Config::default(), &Config::default(), &p, "profileX").unwrap();
    let alone = p.resolve("profileX").unwrap();
    assert_eq!(runtime.bot.nickname, alone.bot.nickname);
    assert_eq!(runtime.bot.password, alone.bot.password);
    assert_eq!(runtime.bot.warp, alone.bot.warp);
    assert_eq!(runtime.bot.portal, alone.bot.portal);
    assert_eq!(runtime.delay.min.global, alone.delay.min.global);
    assert_eq!(runtime.delay.min.discord, alone.delay.min.discord);
    assert_eq!(runtime.delay.min.invite, alone.delay.min.invite);
    assert_eq!(runtime.delay.max.global, alone.delay.max.global);
    assert_eq!(runtime.delay.max.discord, alone.delay.max.discord);
    assert_eq!(runtime.delay.max.invite, alone.delay.max.invite);
}

#[test]
fn profile_name_comes_from_the_path_not_the_documents() {
    let tp = derive_tier_paths("cfgs/serverA/profileX.toml").unwrap();
    let (_, runtime, _, _) = assemble_cfg(
        &Config::default(),
        &Config::default(),
        &full_portal_doc(),
        &tp.portal_name,
    )
    .unwrap();
    assert_eq!(runtime.bot.portal, "profileX");
}

#[test]
fn proxy_section_passes_through_when_present() {
    let mut p = full_portal_doc();
    p.proxy = Some(mrsbot::cfg::ProxyConfig {
        host: Some("127.0.0.1".to_string()),
        port: Some(1080),
    });
    let (_, _, _, proxy) =
        assemble_cfg(&Config::default(), &Config::default(), &p, "x").unwrap();
    assert_eq!(proxy.host.as_deref(), Some("127.0.0.1"));
    assert_eq!(proxy.port, Some(1080));
}

#[test]
fn process_state_starts_cleared() {
    let c = Counters::default();
    assert_eq!(c.spawn, 0);
    let f = Flags::default();
    assert!(!f.init);
    assert!(!f.login);
}
