//! Validation and path-derivation failures.
//!
//! Every failure names the exact section or field that was found missing,
//! and for delay rates the band it belongs to, so that an operator can
//! diagnose a rejected configuration without inspecting internals.

use vstd::prelude::*;
use vstd::string::StringExecFns;

verus! {

/// A field of the bot identity section.
#[derive(Debug, Clone, Copy, PartialEq, Eq, Structural)]
pub enum BotField {
    Nickname,
    Password,
    Warp,
}

/// One of the two delay bands.
#[derive(Debug, Clone, Copy, PartialEq, Eq, Structural)]
pub enum Band {
    Min,
    Max,
}

/// A rate field of a delay band.
#[derive(Debug, Clone, Copy, PartialEq, Eq, Structural)]
pub enum DelayField {
    Global,
    Discord,
    Invite,
}

/// A validation failure of a merged document.
#[derive(Debug, Clone, Copy, PartialEq, Eq, Structural)]
pub enum CfgError {
    /// The bot section is absent from the merged document.
    MissingBotSection,
    /// The bot section is present but the named field is absent.
    MissingBotField(BotField),
    /// The delay section is absent from the merged document.
    MissingDelaySection,
    /// The delay section is present but neither band is.
    MissingDelayBands,
    /// The named rate is absent from the band that was chosen as the
    /// named effective band.
    MissingDelayField(Band, DelayField),
    /// The merged document has no server section to hand to the caller.
    MissingServerSection,
}

/// A failure to derive the tier paths from a portal path.
#[derive(Debug, Clone, Copy, PartialEq, Eq, Structural)]
pub enum PathError {
    /// The portal path has no base name to take the portal name from.
    MissingBaseName,
    /// The portal path has no parent directory.
    MissingParent,
    /// The portal directory has no parent of its own, so the default-tier
    /// path cannot be derived.
    MissingGrandparent,
}

/// The diagnostic line of a validation failure.
pub open spec fn cfg_error_message(e: CfgError) -> Seq<char> {
    match e {
        CfgError::MissingBotSection => "Bot config is missing"@,
        CfgError::MissingBotField(BotField::Nickname) => "Bot nickname is missing"@,
        CfgError::MissingBotField(BotField::Password) => "Bot password is missing"@,
        CfgError::MissingBotField(BotField::Warp) => "Bot warp is missing"@,
        CfgError::MissingDelaySection => "Delay config is missing"@,
        CfgError::MissingDelayBands => "Delay configuration requires at least 'min' or 'max' section to be specified after merging configs."@,
        CfgError::MissingDelayField(Band::Min, DelayField::Global) => "Min global delay value is missing"@,
        CfgError::MissingDelayField(Band::Min, DelayField::Discord) => "Min discord delay value is missing"@,
        CfgError::MissingDelayField(Band::Min, DelayField::Invite) => "Min invite delay value is missing"@,
        CfgError::MissingDelayField(Band::Max, DelayField::Global) => "Max global delay value is missing"@,
        CfgError::MissingDelayField(Band::Max, DelayField::Discord) => "Max discord delay value is missing"@,
        CfgError::MissingDelayField(Band::Max, DelayField::Invite) => "Max invite delay value is missing"@,
        CfgError::MissingServerSection => "Merged configuration is missing 'server' section"@,
    }
}

/// The diagnostic line of a path-derivation failure.
pub open spec fn path_error_message(e: PathError) -> Seq<char> {
    match e {
        PathError::MissingBaseName => "Could not extract portal name from path"@,
        PathError::MissingParent => "Invalid portal path (no parent directory)"@,
        PathError::MissingGrandparent => "Could not find server directory (parent of portal dir)"@,
    }
}

impl CfgError {
    /// The diagnostic line naming the missing section or field.
    pub fn message(&self) -> (r: String)
        ensures
            r@ == cfg_error_message(*self),
    {
        match self {
            CfgError::MissingBotSection => String::from_str("Bot config is missing"),
            CfgError::MissingBotField(BotField::Nickname) => String::from_str(
                "Bot nickname is missing",
            ),
            CfgError::MissingBotField(BotField::Password) => String::from_str(
                "Bot password is missing",
            ),
            CfgError::MissingBotField(BotField::Warp) => String::from_str("Bot warp is missing"),
            CfgError::MissingDelaySection => String::from_str("Delay config is missing"),
            CfgError::MissingDelayBands => String::from_str(
                "Delay configuration requires at least 'min' or 'max' section to be specified after merging configs.",
            ),
            CfgError::MissingDelayField(Band::Min, DelayField::Global) => String::from_str(
                "Min global delay value is missing",
            ),
            CfgError::MissingDelayField(Band::Min, DelayField::Discord) => String::from_str(
                "Min discord delay value is missing",
            ),
            CfgError::MissingDelayField(Band::Min, DelayField::Invite) => String::from_str(
                "Min invite delay value is missing",
            ),
            CfgError::MissingDelayField(Band::Max, DelayField::Global) => String::from_str(
                "Max global delay value is missing",
            ),
            CfgError::MissingDelayField(Band::Max, DelayField::Discord) => String::from_str(
                "Max discord delay value is missing",
            ),
            CfgError::MissingDelayField(Band::Max, DelayField::Invite) => String::from_str(
                "Max invite delay value is missing",
            ),
            CfgError::MissingServerSection => String::from_str(
                "Merged configuration is missing 'server' section",
            ),
        }
    }
}

impl PathError {
    /// The diagnostic line naming what the path lacked.
    pub fn message(&self) -> (r: String)
        ensures
            r@ == path_error_message(*self),
    {
        match self {
            PathError::MissingBaseName => String::from_str(
                "Could not extract portal name from path",
            ),
            PathError::MissingParent => String::from_str(
                "Invalid portal path (no parent directory)",
            ),
            PathError::MissingGrandparent => String::from_str(
                "Could not find server directory (parent of portal dir)",
            ),
        }
    }
}

} // verus!
