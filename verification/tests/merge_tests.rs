use mrsbot::cfg::BotConfig;
use mrsbot::cfg::Config;
use mrsbot::cfg::Delay;
use mrsbot::cfg::DelayConfig;
use mrsbot::cfg::ProxyConfig;
use mrsbot::cfg::ServerConfig;
use mrsbot::merge::merge_configs;

fn empty() -> Config {
    Config { bot: None, server: None, proxy: None, delay: None }
}

fn with_nickname(n: &str) -> Config {
    Config {
        bot: Some(BotConfig {
            nickname: Some(n.to_string()),
            password: None,
            warp: None,
            version: None,
        }),
        server: None,
        proxy: None,
        delay: None,
    }
}

#[test]
fn precedence_portal_wins_over_all() {
    let d = with_nickname("from_default");
    let s = with_nickname("from_server");
    let p = with_nickname("from_portal");
    let m = merge_configs(&d, &s, &p);
    assert_eq!(m.bot.unwrap().nickname.unwrap(), "from_portal");
}

#[test]
fn precedence_server_wins_over_default() {
    let d = with_nickname("from_default");
    let s = with_nickname("from_server");
    let m = merge_configs(&d, &s, &empty());
    assert_eq!(m.bot.unwrap().nickname.unwrap(), "from_server");
}

#[test]
fn precedence_default_alone_survives() {
    let d = with_nickname("from_default");
    let m = merge_configs(&d, &empty(), &empty());
    assert_eq!(m.bot.unwrap().nickname.unwrap(), "from_default");
}

#[test]
fn precedence_all_permutations_of_one_field() {
    // Each case lists whether default, server, portal define the field,
    // and which tier's value must win.
    let cases: [(bool, bool, bool, Option<&str>); 8] = [
        (false, false, false, None),
        (true, false, false, Some("d")),
        (false, true, false, Some("s")),
        (true, true, false, Some("s")),
        (false, false, true, Some("p")),
        (true, false, true, Some("p")),
        (false, true, true, Some("p")),
        (true, true, true, Some("p")),
    ];
    for (in_d, in_s, in_p, expect) in cases {
        let d = if in_d { with_nickname("d") } else { empty() };
        let s = if in_s { with_nickname("s") } else { empty() };
        let p = if in_p { with_nickname("p") } else { empty() };
        let m = merge_configs(&d, &s, &p);
        match expect {
            None => assert!(m.bot.is_none()),
            Some(v) => assert_eq!(m.bot.unwrap().nickname.unwrap(), v),
        }
    }
}

#[test]
fn present_but_empty_higher_tier_does_not_mask_lower() {
    // The portal tier supplies the section but leaves the field unset: the
    // server tier's value must still come through.
    let s = with_nickname("from_server");
    let p = Config {
        bot: Some(BotConfig {
            nickname: None,
            password: Some("pw".to_string()),
            warp: None,
            version: None,
        }),
        server: None,
        proxy: None,
        delay: None,
    };
    let m = merge_configs(&empty(), &s, &p);
    let bot = m.bot.unwrap();
    assert_eq!(bot.nickname.unwrap(), "from_server");
    assert_eq!(bot.password.unwrap(), "pw");
}

#[test]
fn group_presence_no_fields_means_absent() {
    // Every tier supplies the bot section, none supplies a field: the
    // merged section must be absent, not empty.
    let tier = Config {
        bot: Some(BotConfig { nickname: None, password: None, warp: None, version: None }),
        server: None,
        proxy: None,
        delay: None,
    };
    let m = merge_configs(&tier, &tier, &tier);
    assert!(m.bot.is_none());
    assert!(m.server.is_none());
    assert!(m.proxy.is_none());
    assert!(m.delay.is_none());
}

#[test]
fn group_presence_single_field_means_present() {
    let d = Config {
        bot: Some(BotConfig {
            nickname: None,
            password: None,
            warp: Some("hub".to_string()),
            version: None,
        }),
        server: None,
        proxy: None,
        delay: None,
    };
    let m = merge_configs(&d, &empty(), &empty());
    let bot = m.bot.expect("one set field must make the section present");
    assert!(bot.nickname.is_none());
    assert!(bot.password.is_none());
    assert_eq!(bot.warp.unwrap(), "hub");
}

#[test]
fn server_and_proxy_sections_merge_per_field() {
    let d = Config {
        bot: Some(BotConfig {
            nickname: None,
            password: None,
            warp: None,
            version: Some("1.19".to_string()),
        }),
        server: Some(ServerConfig { host: Some("default.example".to_string()), port: Some(25565) }),
        proxy: Some(ProxyConfig { host: Some("proxy.example".to_string()), port: None }),
        delay: None,
    };
    let p = Config {
        bot: Some(BotConfig {
            nickname: None,
            password: None,
            warp: None,
            version: Some("1.20".to_string()),
        }),
        server: Some(ServerConfig { host: Some("portal.example".to_string()), port: None }),
        proxy: Some(ProxyConfig { host: None, port: Some(1080) }),
        delay: None,
    };
    let m = merge_configs(&d, &empty(), &p);
    let server = m.server.unwrap();
    assert_eq!(server.host.unwrap(), "portal.example");
    assert_eq!(server.port.unwrap(), 25565);
    assert_eq!(m.bot.unwrap().version.unwrap(), "1.20");
    let proxy = m.proxy.unwrap();
    assert_eq!(proxy.host.unwrap(), "proxy.example");
    assert_eq!(proxy.port.unwrap(), 1080);
}

#[test]
fn delay_bands_merge_rate_by_rate() {
    let d = Config {
        bot: None,
        server: None,
        proxy: None,
        delay: Some(DelayConfig {
            min: Some(Delay { global: Some(10), discord: Some(20), invite: None }),
            max: None,
        }),
    };
    let s = Config {
        bot: None,
        server: None,
        proxy: None,
        delay: Some(DelayConfig {
            min: Some(Delay { global: Some(11), discord: None, invite: Some(31) }),
            max: Some(Delay { global: Some(100), discord: None, invite: None }),
        }),
    };
    let m = merge_configs(&d, &s, &empty());
    let delay = m.delay.unwrap();
    let min = delay.min.unwrap();
    assert_eq!(min.global.unwrap(), 11);
    assert_eq!(min.discord.unwrap(), 20);
    assert_eq!(min.invite.unwrap(), 31);
    let max = delay.max.unwrap();
    assert_eq!(max.global.unwrap(), 100);
    assert!(max.discord.is_none());
    assert!(max.invite.is_none());
}

#[test]
fn delay_section_absent_when_no_band_has_a_rate() {
    let tier = Config {
        bot: None,
        server: None,
        proxy: None,
        delay: Some(DelayConfig {
            min: Some(Delay { global: None, discord: None, invite: None }),
            max: None,
        }),
    };
    let m = merge_configs(&tier, &tier, &tier);
    assert!(m.delay.is_none());
}
