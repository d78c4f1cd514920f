//! Escalation: deciding and planning the warn/timeout response.
//!
//! `decide` compares the new warning count against the guild's threshold and
//! yields the action. `plan_escalation` turns the action into the ordered
//! list of platform calls for the application to execute; the order encodes
//! the side-effect invariant that the offending message is deleted only
//! after the warning notice is sent.

use vstd::prelude::*;

use crate::config::GuildPolicyConfig;
use crate::config::spec_timeout_notice;
use crate::config::spec_timeout_secs;
use crate::config::spec_warn_notice;
use crate::config::timeout_notice_text;
use crate::config::timeout_secs;
use crate::config::warn_notice_text;
use crate::message::MessageInput;

verus! {

/// The escalation response to a violation.
#[derive(Clone, Copy, PartialEq, Eq, Structural, Debug)]
pub enum EscalationAction {
    /// Post the warning notice only.
    Notify,
    /// Post the warning notice, time the member out, and delete the message.
    NotifyAndTimeout,
}

/// The escalation rule: a notice below the threshold, a notice plus timeout
/// at or above it.
pub open spec fn spec_decide(new_count: u64, c: GuildPolicyConfig) -> EscalationAction {
    if new_count < c.warn_threshold {
        EscalationAction::Notify
    } else {
        EscalationAction::NotifyAndTimeout
    }
}

/// Decides the escalation response for a user's new warning count.
pub fn decide(new_count: u64, config: &GuildPolicyConfig) -> (a: EscalationAction)
    ensures
        a == spec_decide(new_count, *config),
        (a == EscalationAction::Notify) <==> new_count < config.warn_threshold,
        (a == EscalationAction::NotifyAndTimeout) <==> new_count >= config.warn_threshold,
{
    if new_count < config.warn_threshold {
        EscalationAction::Notify
    } else {
        EscalationAction::NotifyAndTimeout
    }
}

/// The escalation decision is monotonic in the warning count: below the
/// threshold the action is always `Notify`, at or above it always
/// `NotifyAndTimeout`, and once a count calls for a timeout every larger
/// count does too. For a well-formed configuration the threshold is the
/// fixed value three, so two warnings give a notice and the third a
/// timeout.
pub proof fn lemma_decide_monotonic(count: u64, larger: u64, c: GuildPolicyConfig)
    requires
        count <= larger,
    ensures
        spec_decide(count, c) == EscalationAction::Notify <==> count < c.warn_threshold,
        spec_decide(count, c) == EscalationAction::NotifyAndTimeout <==> count
            >= c.warn_threshold,
        spec_decide(count, c) == EscalationAction::NotifyAndTimeout ==> spec_decide(larger, c)
            == EscalationAction::NotifyAndTimeout,
        c.wf() ==> (spec_decide(count, c) == EscalationAction::Notify <==> count < 3),
{
}

/// One platform call the application must make on the pipeline's behalf.
#[derive(Clone, PartialEq, Eq, Debug)]
pub enum PlatformAction {
    /// Post a notice to a channel.
    SendNotice { channel_id: u64, text: String },
    /// Apply a timed mute to a member.
    ApplyTimeout { guild_id: u64, user_id: u64, duration_secs: u64, text: String },
    /// Delete a message from a channel.
    DeleteMessage { channel_id: u64, message_id: u64 },
}

/// The mathematical shape of a platform call, with the text as a character
/// sequence.
pub enum ActionModel {
    SendNotice { channel_id: u64, text: Seq<char> },
    ApplyTimeout { guild_id: u64, user_id: u64, duration_secs: u64, text: Seq<char> },
    DeleteMessage { channel_id: u64, message_id: u64 },
}

impl View for PlatformAction {
    type V = ActionModel;

    open spec fn view(&self) -> ActionModel {
        match *self {
            PlatformAction::SendNotice { channel_id, text } => ActionModel::SendNotice {
                channel_id,
                text: text@,
            },
            PlatformAction::ApplyTimeout {
                guild_id,
                user_id,
                duration_secs,
                text,
            } => ActionModel::ApplyTimeout { guild_id, user_id, duration_secs, text: text@ },
            PlatformAction::DeleteMessage { channel_id, message_id } => {
                ActionModel::DeleteMessage { channel_id, message_id }
            },
        }
    }
}

/// The views of a list of platform actions.
pub open spec fn actions_model(acts: Seq<PlatformAction>) -> Seq<ActionModel> {
    acts.map_values(|a: PlatformAction| a@)
}

/// The ordered platform calls that execute one escalation action against
/// the author of `m` in guild `g`: the warning notice always comes first,
/// and on a timeout the mute and the deletion of the offending message
/// follow it.
pub open spec fn spec_escalation_plan(
    a: EscalationAction,
    m: MessageInput,
    g: u64,
    c: GuildPolicyConfig,
) -> Seq<ActionModel> {
    match a {
        EscalationAction::Notify => seq![
            ActionModel::SendNotice { channel_id: m.channel_id, text: spec_warn_notice(c) },
        ],
        EscalationAction::NotifyAndTimeout => seq![
            ActionModel::SendNotice { channel_id: m.channel_id, text: spec_warn_notice(c) },
            ActionModel::ApplyTimeout {
                guild_id: g,
                user_id: m.author_id,
                duration_secs: spec_timeout_secs(c),
                text: spec_timeout_notice(c),
            },
            ActionModel::DeleteMessage {
                channel_id: m.channel_id,
                message_id: m.message_id,
            },
        ],
    }
}

/// Builds the ordered platform calls for one escalation action.
pub fn plan_escalation(
    action: EscalationAction,
    msg: &MessageInput,
    guild_id: u64,
    config: &GuildPolicyConfig,
) -> (acts: Vec<PlatformAction>)
    ensures
        actions_model(acts@) == spec_escalation_plan(action, *msg, guild_id, *config),
{
    let mut acts: Vec<PlatformAction> = Vec::new();
    acts.push(
        PlatformAction::SendNotice {
            channel_id: msg.channel_id,
            text: warn_notice_text(config),
        },
    );
    if matches!(action, EscalationAction::NotifyAndTimeout) {
        acts.push(
            PlatformAction::ApplyTimeout {
                guild_id,
                user_id: msg.author_id,
                duration_secs: timeout_secs(config),
                text: timeout_notice_text(config),
            },
        );
        acts.push(
            PlatformAction::DeleteMessage {
                channel_id: msg.channel_id,
                message_id: msg.message_id,
            },
        );
    }
    proof {
        assert(actions_model(acts@) =~= spec_escalation_plan(action, *msg, guild_id, *config));
    }
    acts
}

/// Side-effect ordering: in every escalation plan, a deletion of the
/// offending message comes only after a warning notice, so the channel sees
/// the warning before the message disappears.
pub proof fn lemma_notice_before_delete(
    a: EscalationAction,
    m: MessageInput,
    g: u64,
    c: GuildPolicyConfig,
)
    ensures
        forall|i: int|
            0 <= i < spec_escalation_plan(a, m, g, c).len() && spec_escalation_plan(
                a,
                m,
                g,
                c,
            )[i] is DeleteMessage ==> exists|j: int|
                0 <= j < i && spec_escalation_plan(a, m, g, c)[j] is SendNotice,
{
    let plan = spec_escalation_plan(a, m, g, c);
    assert forall|i: int| 0 <= i < plan.len() && plan[i] is DeleteMessage implies exists|j: int|
        0 <= j < i && plan[j] is SendNotice by {
        assert(plan[0] is SendNotice);
    }
}

} // verus!
