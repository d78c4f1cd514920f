//! Policy evaluation: classifying a message against a guild's policies.
//!
//! `evaluate` tests every policy category independently, without
//! short-circuiting across categories, and returns the full set of triggered
//! policies with the context downstream stages need. It is a pure function
//! of the message, the configuration, and the results of the two external
//! lookups (role membership of the mentioned users, link extraction) that
//! the surrounding application supplies.

use vstd::prelude::*;

use crate::config::GuildPolicyConfig;
use crate::message::MessageInput;
use crate::message::has_broadcast_mention;

verus! {

/// One triggered policy, carrying the matched entity for downstream stages.
pub enum TriggeredPolicy {
    /// The message mentions the guild's forbidden user.
    ForbiddenUserMention { user_id: u64 },
    /// The message mentions a user who holds the guild's forbidden role.
    ForbiddenRoleMention { role_id: u64 },
    /// The message contains `@everyone` or `@here`.
    BroadcastMention,
    /// The message contains a recognized link pattern.
    LinkSpam,
}

/// The set of policies one message triggers. Each category is independent;
/// a message can trigger several at once.
pub struct TriggeredPolicies {
    /// The forbidden user that was mentioned, when that policy triggered.
    pub forbidden_user: Option<u64>,
    /// The forbidden role a mentioned user holds, when that policy triggered.
    pub forbidden_role: Option<u64>,
    /// The message contains a broadcast mention.
    pub broadcast: bool,
    /// The message contains a recognized link.
    pub link: bool,
}

/// The forbidden-user policy triggers exactly when a forbidden user is
/// configured and the message mentions that user.
pub open spec fn spec_user_trigger(m: MessageInput, c: GuildPolicyConfig) -> Option<u64> {
    match c.forbidden_user_id {
        Some(u) => if m.spec_mentions(u) {
            Some(u)
        } else {
            None
        },
        None => None,
    }
}

/// The forbidden-role policy triggers exactly when a forbidden role is
/// configured and a mentioned user holds it. Whether a mentioned user holds
/// the role is a platform lookup whose result is passed in.
pub open spec fn spec_role_trigger(c: GuildPolicyConfig, role_holder_mentioned: bool) -> Option<
    u64,
> {
    match c.forbidden_role_id {
        Some(r) => if role_holder_mentioned {
            Some(r)
        } else {
            None
        },
        None => None,
    }
}

/// Classifies a message against the guild's configured policies.
///
/// `role_holder_mentioned` is the platform's answer to whether a mentioned
/// user holds the configured forbidden role; `link_found` is the external
/// link extractor's answer. An unconfigured category never triggers.
pub fn evaluate(
    msg: &MessageInput,
    config: &GuildPolicyConfig,
    role_holder_mentioned: bool,
    link_found: bool,
) -> (t: TriggeredPolicies)
    ensures
        t.forbidden_user == spec_user_trigger(*msg, *config),
        t.forbidden_role == spec_role_trigger(*config, role_holder_mentioned),
        t.broadcast == has_broadcast_mention(msg.content@),
        t.link == link_found,
{
    let forbidden_user: Option<u64> = match config.forbidden_user_id {
        Some(u) => if msg.mentions_user(u) {
            Some(u)
        } else {
            None
        },
        None => None,
    };
    let forbidden_role: Option<u64> = match config.forbidden_role_id {
        Some(r) => if role_holder_mentioned {
            Some(r)
        } else {
            None
        },
        None => None,
    };
    let broadcast = msg.has_broadcast();
    TriggeredPolicies { forbidden_user, forbidden_role, broadcast, link: link_found }
}

} // verus!
