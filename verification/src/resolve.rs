//! Resolving a merged document into a runtime configuration.
//!
//! Resolution validates the merged document against the required-field
//! contract and produces a fully populated [`RuntimeConfig`], or the first
//! failure encountered. The bot section and all three of its fields must be
//! present; the delay section must be present with at least one band. When
//! only one band is supplied it serves as both the effective min and the
//! effective max band; each effective band must then be complete. Resolution
//! is all-or-nothing: no partial result is ever returned.

use vstd::prelude::*;
use vstd::string::StringExecFns;

use crate::cfg::BotConfigResolved;
use crate::cfg::BotConfigResolvedView;
use crate::cfg::Config;
use crate::cfg::ConfigView;
use crate::cfg::Delay;
use crate::cfg::DelayConfigView;
use crate::cfg::DelayResolved;
use crate::cfg::DelayResolvedView;
use crate::cfg::DelayValues;
use crate::cfg::DelayValuesView;
use crate::cfg::DelayView;
use crate::cfg::RuntimeConfig;
use crate::cfg::RuntimeConfigView;
use crate::cfg::empty_config_view;
use crate::error::Band;
use crate::error::BotField;
use crate::error::CfgError;
use crate::error::DelayField;
use crate::merge::merge_spec;

verus! {

/// Validates one effective delay band: all three rates must be present.
/// `which` is the band name a failure is reported under.
pub open spec fn resolve_band_spec(band: DelayView, which: Band) -> Result<
    DelayValuesView,
    CfgError,
> {
    match band.global {
        None => Err(CfgError::MissingDelayField(which, DelayField::Global)),
        Some(global) => match band.discord {
            None => Err(CfgError::MissingDelayField(which, DelayField::Discord)),
            Some(discord) => match band.invite {
                None => Err(CfgError::MissingDelayField(which, DelayField::Invite)),
                Some(invite) => Ok(DelayValuesView { global, discord, invite }),
            },
        },
    }
}

/// Validates the two effective bands in order and assembles the result.
pub open spec fn resolve_bands_spec(
    min_band: DelayView,
    max_band: DelayView,
    bot: BotConfigResolvedView,
) -> Result<RuntimeConfigView, CfgError> {
    match resolve_band_spec(min_band, Band::Min) {
        Err(e) => Err(e),
        Ok(min) => match resolve_band_spec(max_band, Band::Max) {
            Err(e) => Err(e),
            Ok(max) => Ok(RuntimeConfigView { bot, delay: DelayResolvedView { min, max } }),
        },
    }
}

/// Resolution of a merged document, checked in order: the bot section and
/// each of its fields, then the delay section and its bands. A band absent
/// from the document takes the other band's values as the effective band;
/// the fields of an effective band must all be present. The portal name is
/// taken verbatim from the caller, never from the document.
pub open spec fn resolve_spec(c: ConfigView, portal_name: Seq<char>) -> Result<
    RuntimeConfigView,
    CfgError,
> {
    match c.bot {
        None => Err(CfgError::MissingBotSection),
        Some(bot) => match bot.nickname {
            None => Err(CfgError::MissingBotField(BotField::Nickname)),
            Some(nickname) => match bot.password {
                None => Err(CfgError::MissingBotField(BotField::Password)),
                Some(password) => match bot.warp {
                    None => Err(CfgError::MissingBotField(BotField::Warp)),
                    Some(warp) => {
                        let resolved_bot = BotConfigResolvedView {
                            nickname,
                            password,
                            warp,
                            portal: portal_name,
                        };
                        match c.delay {
                            None => Err(CfgError::MissingDelaySection),
                            Some(delay) => match (delay.min, delay.max) {
                                (None, None) => Err(CfgError::MissingDelayBands),
                                (Some(m), None) => resolve_bands_spec(m, m, resolved_bot),
                                (None, Some(x)) => resolve_bands_spec(x, x, resolved_bot),
                                (Some(m), Some(x)) => resolve_bands_spec(m, x, resolved_bot),
                            },
                        }
                    },
                },
            },
        },
    }
}

/// Validates one effective delay band, reporting a failure under the band
/// name `which`.
fn resolve_band(band: &Delay, which: Band) -> (r: Result<DelayValues, CfgError>)
    ensures
        (match r {
            Ok(v) => resolve_band_spec(band@, which) == Ok::<DelayValuesView, CfgError>(v@),
            Err(e) => resolve_band_spec(band@, which) == Err::<DelayValuesView, CfgError>(e),
        }),
{
    let global = match band.global {
        Some(v) => v,
        None => {
            return Err(CfgError::MissingDelayField(which, DelayField::Global));
        },
    };
    let discord = match band.discord {
        Some(v) => v,
        None => {
            return Err(CfgError::MissingDelayField(which, DelayField::Discord));
        },
    };
    let invite = match band.invite {
        Some(v) => v,
        None => {
            return Err(CfgError::MissingDelayField(which, DelayField::Invite));
        },
    };
    Ok(DelayValues { global, discord, invite })
}

impl Config {
    /// Resolves this merged document into a runtime configuration, under
    /// the given portal name, or reports the first missing section or
    /// field.
    pub fn resolve(&self, portal_name: &str) -> (r: Result<RuntimeConfig, CfgError>)
        ensures
            (match r {
                Ok(rc) => resolve_spec(self@, portal_name@) == Ok::<RuntimeConfigView, CfgError>(
                    rc@,
                ),
                Err(e) => resolve_spec(self@, portal_name@) == Err::<RuntimeConfigView, CfgError>(
                    e,
                ),
            }),
    {
        let bot = match &self.bot {
            Some(b) => b,
            None => {
                return Err(CfgError::MissingBotSection);
            },
        };
        let nickname = match &bot.nickname {
            Some(s) => s.clone(),
            None => {
                return Err(CfgError::MissingBotField(BotField::Nickname));
            },
        };
        let password = match &bot.password {
            Some(s) => s.clone(),
            None => {
                return Err(CfgError::MissingBotField(BotField::Password));
            },
        };
        let warp = match &bot.warp {
            Some(s) => s.clone(),
            None => {
                return Err(CfgError::MissingBotField(BotField::Warp));
            },
        };
        let delay = match &self.delay {
            Some(d) => d,
            None => {
                return Err(CfgError::MissingDelaySection);
            },
        };
        let (min_band, max_band): (&Delay, &Delay) = match (&delay.min, &delay.max) {
            (None, None) => {
                return Err(CfgError::MissingDelayBands);
            },
            (Some(m), None) => (m, m),
            (None, Some(x)) => (x, x),
            (Some(m), Some(x)) => (m, x),
        };
        let min = match resolve_band(min_band, Band::Min) {
            Ok(v) => v,
            Err(e) => {
                return Err(e);
            },
        };
        let max = match resolve_band(max_band, Band::Max) {
            Ok(v) => v,
            Err(e) => {
                return Err(e);
            },
        };
        Ok(
            RuntimeConfig {
                bot: BotConfigResolved {
                    nickname,
                    password,
                    warp,
                    portal: String::from_str(portal_name),
                },
                delay: DelayResolved { min, max },
            },
        )
    }
}

/// Band fallback symmetry: when only the min band is supplied and it is
/// fully populated, resolution succeeds and the max band takes the min
/// band's values exactly.
pub proof fn lemma_band_fallback_min_only(
    c: ConfigView,
    portal_name: Seq<char>,
    g: i32,
    dc: i32,
    iv: i32,
)
    requires
        c.bot matches Some(b) && b.nickname is Some && b.password is Some && b.warp is Some,
        c.delay == Some(
            DelayConfigView {
                min: Some(DelayView { global: Some(g), discord: Some(dc), invite: Some(iv) }),
                max: None,
            },
        ),
    ensures
        resolve_spec(c, portal_name) matches Ok(rv) && rv.delay.min == (DelayValuesView {
            global: g,
            discord: dc,
            invite: iv,
        }) && rv.delay.max == rv.delay.min,
{
}

/// Band fallback symmetry, mirrored: when only the max band is supplied and
/// it is fully populated, resolution succeeds and the min band takes the
/// max band's values exactly.
pub proof fn lemma_band_fallback_max_only(
    c: ConfigView,
    portal_name: Seq<char>,
    g: i32,
    dc: i32,
    iv: i32,
)
    requires
        c.bot matches Some(b) && b.nickname is Some && b.password is Some && b.warp is Some,
        c.delay == Some(
            DelayConfigView {
                min: None,
                max: Some(DelayView { global: Some(g), discord: Some(dc), invite: Some(iv) }),
            },
        ),
    ensures
        resolve_spec(c, portal_name) matches Ok(rv) && rv.delay.max == (DelayValuesView {
            global: g,
            discord: dc,
            invite: iv,
        }) && rv.delay.min == rv.delay.max,
{
}

/// Neither band: a document whose delay section is wholly absent, or
/// present with both bands absent, fails resolution with the matching
/// missing-section failure (assuming the bot section passed its checks,
/// which run first).
pub proof fn lemma_neither_band(c: ConfigView, portal_name: Seq<char>)
    requires
        c.bot matches Some(b) && b.nickname is Some && b.password is Some && b.warp is Some,
        c.delay matches Some(dl) ==> dl.min is None && dl.max is None,
    ensures
        c.delay is None ==> resolve_spec(c, portal_name) == Err::<RuntimeConfigView, CfgError>(
            CfgError::MissingDelaySection,
        ),
        c.delay is Some ==> resolve_spec(c, portal_name) == Err::<RuntimeConfigView, CfgError>(
            CfgError::MissingDelayBands,
        ),
{
}

/// Missing identity field: a document whose bot section lacks only the warp
/// field fails resolution naming exactly that field.
pub proof fn lemma_missing_warp(c: ConfigView, portal_name: Seq<char>)
    requires
        c.bot matches Some(b) && b.nickname is Some && b.password is Some && b.warp is None,
    ensures
        resolve_spec(c, portal_name) == Err::<RuntimeConfigView, CfgError>(
            CfgError::MissingBotField(BotField::Warp),
        ),
{
}

/// Portal name derivation: whenever resolution succeeds, the portal field
/// of the result is the caller-supplied portal name verbatim, whatever the
/// document holds.
pub proof fn lemma_portal_name_verbatim(c: ConfigView, portal_name: Seq<char>)
    requires
        resolve_spec(c, portal_name) is Ok,
    ensures
        resolve_spec(c, portal_name) matches Ok(rv) && rv.bot.portal == portal_name,
{
}

/// Missing file tiers are not errors: when the portal document alone
/// resolves successfully, merging it over two empty tiers resolves to
/// exactly the same result.
pub proof fn lemma_leaf_tier_alone(p: ConfigView, portal_name: Seq<char>)
    requires
        resolve_spec(p, portal_name) is Ok,
    ensures
        resolve_spec(merge_spec(empty_config_view(), empty_config_view(), p), portal_name)
            == resolve_spec(p, portal_name),
{
}

} // verus!
