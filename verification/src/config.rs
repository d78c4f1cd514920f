//! Per-community policy configuration.
//!
//! One `GuildPolicyConfig` exists per community (guild). Absence of a field
//! means that policy is disabled, not zero. The record is written by an
//! administrator configuration path outside this crate; the pipeline holds a
//! read-only view of it per invocation.

use vstd::prelude::*;

verus! {

/// Number of warnings at which escalation moves from a plain notice to a
/// notice plus timeout. The threshold is fixed platform-wide.
pub const WARN_THRESHOLD: u64 = 3;

/// Timeout duration applied when a guild has not configured one. A zero
/// duration makes the timeout a no-op, which is the degraded behaviour for a
/// missing configuration; the gap is still reported to operators.
pub const DEFAULT_TIMEOUT_SECS: u64 = 0;

/// The policy configuration of one guild.
pub struct GuildPolicyConfig {
    pub guild_id: u64,
    /// Mentioning this user triggers the forbidden-user policy.
    pub forbidden_user_id: Option<u64>,
    /// Mentioning a user who holds this role triggers the forbidden-role policy.
    pub forbidden_role_id: Option<u64>,
    /// First of up to two roles whose holders are exempt from escalation.
    pub admin_role_id: Option<u64>,
    /// Second of up to two roles whose holders are exempt from escalation.
    pub admin_role_id_2: Option<u64>,
    /// Warning count at which a timeout is applied; always `WARN_THRESHOLD`.
    pub warn_threshold: u64,
    /// Whether a user's warning count starts over after a completed timeout
    /// escalation. Off by default: the count then persists until an
    /// administrator resets it. Kept as an explicit choice per guild.
    pub auto_reset_on_timeout: bool,
    /// Duration of an applied timeout, in seconds.
    pub timeout_secs: Option<u64>,
    /// Template for the warning notice; a default is used when absent.
    pub warn_message: Option<String>,
    /// Template for the timeout notice; a default is used when absent.
    pub timeout_message: Option<String>,
    pub log_channel_id: Option<u64>,
    pub welcome_channel_id: Option<u64>,
    pub ooc_channel_id: Option<u64>,
}

impl GuildPolicyConfig {
    /// A configuration is well formed when its threshold is the fixed
    /// platform-wide value.
    pub open spec fn wf(self) -> bool {
        self.warn_threshold == WARN_THRESHOLD
    }

    /// The configuration of a guild for which nothing has been set: every
    /// policy is disabled and every template falls back to its default.
    pub fn unconfigured(guild_id: u64) -> (c: Self)
        ensures
            c.wf(),
            c.guild_id == guild_id,
            c.forbidden_user_id is None,
            c.forbidden_role_id is None,
            c.admin_role_id is None,
            c.admin_role_id_2 is None,
            !c.auto_reset_on_timeout,
            c.timeout_secs is None,
            c.warn_message is None,
            c.timeout_message is None,
            c.log_channel_id is None,
            c.welcome_channel_id is None,
            c.ooc_channel_id is None,
    {
        GuildPolicyConfig {
            guild_id,
            forbidden_user_id: None,
            forbidden_role_id: None,
            admin_role_id: None,
            admin_role_id_2: None,
            warn_threshold: WARN_THRESHOLD,
            auto_reset_on_timeout: false,
            timeout_secs: None,
            warn_message: None,
            timeout_message: None,
            log_channel_id: None,
            welcome_channel_id: None,
            ooc_channel_id: None,
        }
    }
}

/// Text of the warning notice sent when a guild has no template configured.
pub open spec fn default_warn_notice() -> Seq<char> {
    "Please do not mention this user. If you are replying to a message, consider replying without using a mention."@
}

/// Text of the timeout notice sent when a guild has no template configured.
pub open spec fn default_timeout_notice() -> Seq<char> {
    "You have been timed out for repeatedly mentioning a protected user or role."@
}

/// The warning notice a guild's configuration calls for: its template when
/// one is set, the default text otherwise.
pub open spec fn spec_warn_notice(c: GuildPolicyConfig) -> Seq<char> {
    match c.warn_message {
        Some(t) => t@,
        None => default_warn_notice(),
    }
}

/// The timeout notice a guild's configuration calls for.
pub open spec fn spec_timeout_notice(c: GuildPolicyConfig) -> Seq<char> {
    match c.timeout_message {
        Some(t) => t@,
        None => default_timeout_notice(),
    }
}

/// The timeout duration a guild's configuration calls for.
pub open spec fn spec_timeout_secs(c: GuildPolicyConfig) -> u64 {
    match c.timeout_secs {
        Some(d) => d,
        None => DEFAULT_TIMEOUT_SECS,
    }
}

/// Builds the warning notice for a guild, falling back to the default text
/// when no template is configured.
pub fn warn_notice_text(config: &GuildPolicyConfig) -> (s: String)
    ensures
        s@ == spec_warn_notice(*config),
{
    match &config.warn_message {
        Some(t) => t.clone(),
        None => "Please do not mention this user. If you are replying to a message, consider replying without using a mention.".to_owned(),
    }
}

/// Builds the timeout notice for a guild, falling back to the default text
/// when no template is configured.
pub fn timeout_notice_text(config: &GuildPolicyConfig) -> (s: String)
    ensures
        s@ == spec_timeout_notice(*config),
{
    match &config.timeout_message {
        Some(t) => t.clone(),
        None => "You have been timed out for repeatedly mentioning a protected user or role.".to_owned(),
    }
}

/// The timeout duration to apply, falling back to the default when none is
/// configured.
pub fn timeout_secs(config: &GuildPolicyConfig) -> (d: u64)
    ensures
        d == spec_timeout_secs(*config),
{
    match config.timeout_secs {
        Some(d) => d,
        None => DEFAULT_TIMEOUT_SECS,
    }
}

/// Reads the configured log channel of a guild, if a configuration record
/// exists and sets one.
pub fn get_log_channel(config: Option<&GuildPolicyConfig>) -> (r: Option<u64>)
    ensures
        r == (match config {
            Some(c) => c.log_channel_id,
            None => None::<u64>,
        }),
{
    match config {
        Some(c) => c.log_channel_id,
        None => None,
    }
}

/// Reads the configured welcome channel of a guild, if a configuration
/// record exists and sets one.
pub fn get_welcome_channel(config: Option<&GuildPolicyConfig>) -> (r: Option<u64>)
    ensures
        r == (match config {
            Some(c) => c.welcome_channel_id,
            None => None::<u64>,
        }),
{
    match config {
        Some(c) => c.welcome_channel_id,
        None => None,
    }
}

/// The create-or-update step of the administrator command that sets a
/// guild's out-of-context channel: a fresh record with only that channel
/// set when the guild has none, otherwise the existing record with the
/// channel replaced and everything else kept.
pub fn set_ooc_channel(
    existing: Option<GuildPolicyConfig>,
    guild_id: u64,
    channel_id: u64,
) -> (c: GuildPolicyConfig)
    ensures
        c.ooc_channel_id == Some(channel_id),
        match existing {
            Some(e) => {
                &&& c.guild_id == e.guild_id
                &&& c.forbidden_user_id == e.forbidden_user_id
                &&& c.forbidden_role_id == e.forbidden_role_id
                &&& c.admin_role_id == e.admin_role_id
                &&& c.admin_role_id_2 == e.admin_role_id_2
                &&& c.warn_threshold == e.warn_threshold
                &&& c.auto_reset_on_timeout == e.auto_reset_on_timeout
                &&& c.timeout_secs == e.timeout_secs
                &&& c.warn_message == e.warn_message
                &&& c.timeout_message == e.timeout_message
                &&& c.log_channel_id == e.log_channel_id
                &&& c.welcome_channel_id == e.welcome_channel_id
            },
            None => {
                &&& c.wf()
                &&& c.guild_id == guild_id
                &&& c.forbidden_user_id is None
                &&& c.forbidden_role_id is None
                &&& c.admin_role_id is None
                &&& c.admin_role_id_2 is None
                &&& !c.auto_reset_on_timeout
                &&& c.timeout_secs is None
                &&& c.warn_message is None
                &&& c.timeout_message is None
                &&& c.log_channel_id is None
                &&& c.welcome_channel_id is None
            },
        },
        existing is Some ==> (existing->0.wf() ==> c.wf()),
{
    match existing {
        Some(mut e) => {
            e.ooc_channel_id = Some(channel_id);
            e
        },
        None => {
            let mut c = GuildPolicyConfig::unconfigured(guild_id);
            c.ooc_channel_id = Some(channel_id);
            c
        },
    }
}

/// A configuration field the guild has not set. Each gap degrades to a
/// default and is reported to the operator log rather than failing the
/// message-processing path.
#[derive(Clone, Copy, PartialEq, Eq, Structural, Debug)]
pub enum ConfigGap {
    WarnTemplateMissing,
    TimeoutTemplateMissing,
    TimeoutDurationMissing,
}

/// The gaps a configuration has, in a fixed reporting order.
pub open spec fn spec_config_gaps(c: GuildPolicyConfig) -> Seq<ConfigGap> {
    (if c.warn_message is None {
        seq![ConfigGap::WarnTemplateMissing]
    } else {
        Seq::<ConfigGap>::empty()
    }) + (if c.timeout_message is None {
        seq![ConfigGap::TimeoutTemplateMissing]
    } else {
        Seq::<ConfigGap>::empty()
    }) + (if c.timeout_secs is None {
        seq![ConfigGap::TimeoutDurationMissing]
    } else {
        Seq::<ConfigGap>::empty()
    })
}

/// Lists the configuration fields for which a default had to stand in, so
/// the caller can surface them to operators.
pub fn config_gaps(config: &GuildPolicyConfig) -> (gaps: Vec<ConfigGap>)
    ensures
        gaps@ == spec_config_gaps(*config),
{
    let mut gaps: Vec<ConfigGap> = Vec::new();
    if config.warn_message.is_none() {
        gaps.push(ConfigGap::WarnTemplateMissing);
    }
    if config.timeout_message.is_none() {
        gaps.push(ConfigGap::TimeoutTemplateMissing);
    }
    if config.timeout_secs.is_none() {
        gaps.push(ConfigGap::TimeoutDurationMissing);
    }
    proof {
        assert(gaps@ =~= spec_config_gaps(*config));
    }
    gaps
}

} // verus!
