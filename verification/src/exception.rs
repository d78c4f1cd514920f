//! Exemption resolution: who bypasses a triggered policy.
//!
//! An actor is exempt from a forbidden-mention policy when the actor is the
//! forbidden entity itself (self-mention never escalates), when the actor
//! holds a standing opt-out for that policy, or when the actor holds one of
//! the guild's two admin roles. The self-mention and opt-out checks come
//! first and need no platform data: `needs_role_lookup` tells the caller
//! whether the member/role fetch is needed at all, so those two checks
//! short-circuit before any network call.

use vstd::prelude::*;

use crate::config::GuildPolicyConfig;
use crate::message::contains_id;
use crate::policy::TriggeredPolicy;

verus! {

/// The actor's roles include one of the guild's configured admin roles.
pub open spec fn spec_holds_admin_role(roles: Seq<u64>, c: GuildPolicyConfig) -> bool {
    ||| match c.admin_role_id {
        Some(r) => roles.contains(r),
        None => false,
    }
    ||| match c.admin_role_id_2 {
        Some(r) => roles.contains(r),
        None => false,
    }
}

/// The exemption rule: self-mention, standing opt-out (forbidden-mention
/// policies only), or an admin role.
pub open spec fn spec_is_exempt(
    actor_id: u64,
    policy: TriggeredPolicy,
    c: GuildPolicyConfig,
    has_opt_out: bool,
    roles: Seq<u64>,
) -> bool {
    match policy {
        TriggeredPolicy::ForbiddenUserMention { user_id } => {
            ||| actor_id == user_id
            ||| has_opt_out
            ||| spec_holds_admin_role(roles, c)
        },
        TriggeredPolicy::ForbiddenRoleMention { .. } => {
            ||| has_opt_out
            ||| spec_holds_admin_role(roles, c)
        },
        TriggeredPolicy::BroadcastMention => spec_holds_admin_role(roles, c),
        TriggeredPolicy::LinkSpam => spec_holds_admin_role(roles, c),
    }
}

/// Resolving the exemption needs the platform member/role fetch only when
/// neither the self-mention check nor the standing opt-out already settles
/// it. A caller that fetches only when this returns true never makes an
/// unnecessary network call.
pub open spec fn spec_needs_role_lookup(
    actor_id: u64,
    policy: TriggeredPolicy,
    has_opt_out: bool,
) -> bool {
    match policy {
        TriggeredPolicy::ForbiddenUserMention { user_id } => actor_id != user_id && !has_opt_out,
        TriggeredPolicy::ForbiddenRoleMention { .. } => !has_opt_out,
        TriggeredPolicy::BroadcastMention => true,
        TriggeredPolicy::LinkSpam => true,
    }
}

/// Whether the actor's roles include one of the guild's admin roles.
pub fn holds_admin_role(roles: &Vec<u64>, config: &GuildPolicyConfig) -> (r: bool)
    ensures
        r == spec_holds_admin_role(roles@, *config),
{
    let first = match config.admin_role_id {
        Some(r) => contains_id(roles, r),
        None => false,
    };
    let second = match config.admin_role_id_2 {
        Some(r) => contains_id(roles, r),
        None => false,
    };
    first || second
}

/// Whether the actor is exempt from the given triggered policy.
///
/// `has_opt_out` is the exception store's answer for this actor and policy;
/// `roles` is the actor's role list as fetched from the platform (checked
/// only when the earlier conditions do not already exempt the actor).
pub fn is_exempt(
    actor_id: u64,
    policy: &TriggeredPolicy,
    config: &GuildPolicyConfig,
    has_opt_out: bool,
    roles: &Vec<u64>,
) -> (r: bool)
    ensures
        r == spec_is_exempt(actor_id, *policy, *config, has_opt_out, roles@),
{
    match policy {
        TriggeredPolicy::ForbiddenUserMention { user_id } => {
            actor_id == *user_id || has_opt_out || holds_admin_role(roles, config)
        },
        TriggeredPolicy::ForbiddenRoleMention { .. } => {
            has_opt_out || holds_admin_role(roles, config)
        },
        TriggeredPolicy::BroadcastMention => holds_admin_role(roles, config),
        TriggeredPolicy::LinkSpam => holds_admin_role(roles, config),
    }
}

/// Whether resolving the exemption for this actor and policy needs the
/// platform member/role fetch at all.
pub fn needs_role_lookup(actor_id: u64, policy: &TriggeredPolicy, has_opt_out: bool) -> (r: bool)
    ensures
        r == spec_needs_role_lookup(actor_id, *policy, has_opt_out),
{
    match policy {
        TriggeredPolicy::ForbiddenUserMention { user_id } => {
            actor_id != *user_id && !has_opt_out
        },
        TriggeredPolicy::ForbiddenRoleMention { .. } => !has_opt_out,
        TriggeredPolicy::BroadcastMention => true,
        TriggeredPolicy::LinkSpam => true,
    }
}

/// Self-mention never escalates: when the actor is the forbidden user, the
/// exemption holds for every configuration, opt-out state, and role list.
pub proof fn lemma_self_mention_always_exempt(
    actor_id: u64,
    c: GuildPolicyConfig,
    has_opt_out: bool,
    roles: Seq<u64>,
)
    ensures
        spec_is_exempt(
            actor_id,
            TriggeredPolicy::ForbiddenUserMention { user_id: actor_id },
            c,
            has_opt_out,
            roles,
        ),
        !spec_needs_role_lookup(
            actor_id,
            TriggeredPolicy::ForbiddenUserMention { user_id: actor_id },
            has_opt_out,
        ),
{
}

} // verus!
