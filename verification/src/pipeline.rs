//! The moderation pipeline: one pass over one inbound message.
//!
//! `process` classifies the message, resolves exemptions, advances the
//! warning ledger for each non-exempt violation, decides the escalation
//! response, and returns the audit-trail snapshot together with the ordered
//! platform calls to execute. Bot messages are discarded at once; every
//! other processed message yields exactly one snapshot, whatever the policy
//! outcome, and a failed attachment inspection is only logged — it never
//! stops the other checks or the snapshot.

use vstd::prelude::*;

use crate::config::GuildPolicyConfig;
use crate::config::spec_timeout_notice;
use crate::config::spec_timeout_secs;
use crate::config::timeout_notice_text;
use crate::config::timeout_secs;
use crate::escalation::ActionModel;
use crate::escalation::EscalationAction;
use crate::escalation::PlatformAction;
use crate::escalation::actions_model;
use crate::escalation::decide;
use crate::escalation::plan_escalation;
use crate::escalation::spec_decide;
use crate::escalation::spec_escalation_plan;
use crate::exception::holds_admin_role;
use crate::exception::is_exempt;
use crate::exception::spec_holds_admin_role;
use crate::exception::spec_is_exempt;
use crate::ledger::WarnLedger;
use crate::ledger::bump;
use crate::message::MessageInput;
use crate::message::MessageRecord;
use crate::message::is_record_of;
use crate::policy::TriggeredPolicy;
use crate::policy::evaluate;
use crate::policy::spec_role_trigger;
use crate::policy::spec_user_trigger;

verus! {

/// Results of the external lookups one message needs, gathered by the
/// application before the pipeline runs: the exception store, the platform
/// member fetch, the role check for the mentioned users, the link
/// extractor, and the attachment inspector.
pub struct ExternalFacts {
    /// A mentioned user holds the guild's forbidden role (platform lookup).
    pub role_holder_mentioned: bool,
    /// The external link extractor recognized a link in the content.
    pub link_found: bool,
    /// The author holds a standing opt-out for the forbidden-user policy.
    pub opt_out_user_policy: bool,
    /// The author holds a standing opt-out for the forbidden-role policy.
    pub opt_out_role_policy: bool,
    /// The author's role list, as fetched from the platform.
    pub author_role_ids: Vec<u64>,
    /// The external attachment inspection reported a failure.
    pub attachment_inspection_failed: bool,
}

/// The mathematical shape of `ExternalFacts`.
pub struct FactsModel {
    pub role_holder_mentioned: bool,
    pub link_found: bool,
    pub opt_out_user_policy: bool,
    pub opt_out_role_policy: bool,
    pub author_role_ids: Seq<u64>,
    pub attachment_inspection_failed: bool,
}

impl View for ExternalFacts {
    type V = FactsModel;

    open spec fn view(&self) -> FactsModel {
        FactsModel {
            role_holder_mentioned: self.role_holder_mentioned,
            link_found: self.link_found,
            opt_out_user_policy: self.opt_out_user_policy,
            opt_out_role_policy: self.opt_out_role_policy,
            author_role_ids: self.author_role_ids@,
            attachment_inspection_failed: self.attachment_inspection_failed,
        }
    }
}

/// How one warn-counted policy ended for this message.
#[derive(Clone, Copy, PartialEq, Eq, Structural, Debug)]
pub enum PolicyResult {
    /// The policy did not trigger.
    NotTriggered,
    /// The policy triggered but the author is exempt; it is dropped.
    Exempt,
    /// The policy triggered and escalated: the warning count advanced to
    /// `new_count` and the action was decided from it.
    Escalated { new_count: u64, action: EscalationAction },
}

/// How the broadcast-mention policy ended: a lighter parallel path that
/// times the author out on first occurrence without touching the ledger.
#[derive(Clone, Copy, PartialEq, Eq, Structural, Debug)]
pub enum BroadcastResult {
    NotTriggered,
    /// Triggered, but the author holds an admin role.
    Exempt,
    /// Triggered; the author is timed out with the configured timer.
    TimedOut { duration_secs: u64 },
}

/// The overall escalation taken for one message.
#[derive(Clone, Copy, PartialEq, Eq, Structural, Debug)]
pub enum EscalationOutcome {
    NoAction,
    Warned,
    TimedOut,
}

/// The pipeline's per-message output: which policies triggered, the
/// exemption result for each, the resulting warn counts, and the broadcast
/// and link outcomes. Transient: it drives side effects and logging only.
#[derive(Clone, Copy, PartialEq, Eq, Structural, Debug)]
pub struct ModerationDecision {
    pub user_policy: PolicyResult,
    pub role_policy: PolicyResult,
    pub broadcast: BroadcastResult,
    /// The message carries a link the external spam checker should examine.
    pub link_flagged: bool,
    /// Attachment inspection failed and is to be logged; nothing else.
    pub attachment_failure_logged: bool,
}

/// Why a message could not be processed at all.
#[derive(Clone, Copy, PartialEq, Eq, Structural, Debug)]
pub enum ModerationError {
    /// The message belongs to no guild, so no guild policy can apply.
    MissingGuild,
}

/// Everything one `process` call hands back: the audit snapshot (absent
/// only for discarded bot messages), the decision, and the ordered platform
/// calls to execute.
pub struct ModerationOutcome {
    pub record: Option<MessageRecord>,
    pub decision: ModerationDecision,
    pub actions: Vec<PlatformAction>,
}

/// The decision for a message that was discarded or triggered nothing.
pub open spec fn spec_empty_decision() -> ModerationDecision {
    ModerationDecision {
        user_policy: PolicyResult::NotTriggered,
        role_policy: PolicyResult::NotTriggered,
        broadcast: BroadcastResult::NotTriggered,
        link_flagged: false,
        attachment_failure_logged: false,
    }
}

/// The forbidden-user outcome, given the author's warning count before it.
pub open spec fn spec_user_policy_result(
    m: MessageInput,
    c: GuildPolicyConfig,
    f: FactsModel,
    start: u64,
) -> PolicyResult {
    match spec_user_trigger(m, c) {
        None => PolicyResult::NotTriggered,
        Some(u) => if spec_is_exempt(
            m.author_id,
            TriggeredPolicy::ForbiddenUserMention { user_id: u },
            c,
            f.opt_out_user_policy,
            f.author_role_ids,
        ) {
            PolicyResult::Exempt
        } else {
            PolicyResult::Escalated {
                new_count: (start + 1) as u64,
                action: spec_decide((start + 1) as u64, c),
            }
        },
    }
}

/// The forbidden-role outcome, given the author's warning count before it.
pub open spec fn spec_role_policy_result(
    m: MessageInput,
    c: GuildPolicyConfig,
    f: FactsModel,
    start: u64,
) -> PolicyResult {
    match spec_role_trigger(c, f.role_holder_mentioned) {
        None => PolicyResult::NotTriggered,
        Some(r) => if spec_is_exempt(
            m.author_id,
            TriggeredPolicy::ForbiddenRoleMention { role_id: r },
            c,
            f.opt_out_role_policy,
            f.author_role_ids,
        ) {
            PolicyResult::Exempt
        } else {
            PolicyResult::Escalated {
                new_count: (start + 1) as u64,
                action: spec_decide((start + 1) as u64, c),
            }
        },
    }
}

/// The broadcast-mention outcome.
pub open spec fn spec_broadcast_result(
    m: MessageInput,
    c: GuildPolicyConfig,
    f: FactsModel,
) -> BroadcastResult {
    if !crate::message::has_broadcast_mention(m.content@) {
        BroadcastResult::NotTriggered
    } else if spec_holds_admin_role(f.author_role_ids, c) {
        BroadcastResult::Exempt
    } else {
        BroadcastResult::TimedOut { duration_secs: spec_timeout_secs(c) }
    }
}

/// The whole decision for one guild message, given the author's warning
/// count before the message. The two warn-counted policies run in
/// sequence, so a message that escalates both advances the count twice.
pub open spec fn spec_decision(
    m: MessageInput,
    c: GuildPolicyConfig,
    f: FactsModel,
    start: u64,
) -> ModerationDecision {
    let user_policy = spec_user_policy_result(m, c, f, start);
    let after_user: u64 = if user_policy is Escalated {
        (start + 1) as u64
    } else {
        start
    };
    ModerationDecision {
        user_policy,
        role_policy: spec_role_policy_result(m, c, f, after_user),
        broadcast: spec_broadcast_result(m, c, f),
        link_flagged: f.link_found,
        attachment_failure_logged: f.attachment_inspection_failed,
    }
}

/// The platform calls one warn-counted policy outcome contributes.
pub open spec fn spec_policy_plan(
    r: PolicyResult,
    m: MessageInput,
    g: u64,
    c: GuildPolicyConfig,
) -> Seq<ActionModel> {
    match r {
        PolicyResult::Escalated { new_count, action } => spec_escalation_plan(action, m, g, c),
        _ => Seq::<ActionModel>::empty(),
    }
}

/// The platform calls the broadcast outcome contributes.
pub open spec fn spec_broadcast_plan(
    r: BroadcastResult,
    m: MessageInput,
    g: u64,
    c: GuildPolicyConfig,
) -> Seq<ActionModel> {
    match r {
        BroadcastResult::TimedOut { duration_secs } => seq![
            ActionModel::ApplyTimeout {
                guild_id: g,
                user_id: m.author_id,
                duration_secs,
                text: spec_timeout_notice(c),
            },
        ],
        _ => Seq::<ActionModel>::empty(),
    }
}

/// The ordered platform calls for a whole decision: the forbidden-user
/// plan, then the forbidden-role plan, then the broadcast timeout.
pub open spec fn spec_pipeline_plan(
    d: ModerationDecision,
    m: MessageInput,
    g: u64,
    c: GuildPolicyConfig,
) -> Seq<ActionModel> {
    spec_policy_plan(d.user_policy, m, g, c) + spec_policy_plan(d.role_policy, m, g, c)
        + spec_broadcast_plan(d.broadcast, m, g, c)
}

/// The ledger after a decision: one increment of the author's counter per
/// escalated warn-counted policy, and — only when the guild chose the
/// auto-reset behaviour — a fresh start after a completed timeout
/// escalation.
pub open spec fn spec_ledger_after(
    m0: Map<u64, u64>,
    author_id: u64,
    d: ModerationDecision,
    c: GuildPolicyConfig,
) -> Map<u64, u64> {
    let m1 = if d.user_policy is Escalated {
        bump(m0, author_id)
    } else {
        m0
    };
    let m2 = if d.role_policy is Escalated {
        bump(m1, author_id)
    } else {
        m1
    };
    if c.auto_reset_on_timeout && (spec_policy_timed_out(d.user_policy)
        || spec_policy_timed_out(d.role_policy)) {
        m2.insert(author_id, 0)
    } else {
        m2
    }
}

/// The overall escalation a decision amounts to.
pub open spec fn spec_overall_outcome(d: ModerationDecision) -> EscalationOutcome {
    if spec_policy_timed_out(d.user_policy) || spec_policy_timed_out(d.role_policy)
        || d.broadcast is TimedOut {
        EscalationOutcome::TimedOut
    } else if d.user_policy is Escalated || d.role_policy is Escalated {
        EscalationOutcome::Warned
    } else {
        EscalationOutcome::NoAction
    }
}

/// The warn-counted policy ended in a timeout.
pub open spec fn spec_policy_timed_out(r: PolicyResult) -> bool {
    match r {
        PolicyResult::Escalated { new_count, action } => action
            == EscalationAction::NotifyAndTimeout,
        _ => false,
    }
}

/// The overall escalation a decision amounts to: timed out when any path
/// applied a timeout, warned when a warn-counted policy escalated short of
/// one, nothing otherwise.
pub fn overall_outcome(d: &ModerationDecision) -> (o: EscalationOutcome)
    ensures
        o == spec_overall_outcome(*d),
{
    let user_timeout = match d.user_policy {
        PolicyResult::Escalated { new_count: _, action } => matches!(
            action,
            EscalationAction::NotifyAndTimeout
        ),
        _ => false,
    };
    let role_timeout = match d.role_policy {
        PolicyResult::Escalated { new_count: _, action } => matches!(
            action,
            EscalationAction::NotifyAndTimeout
        ),
        _ => false,
    };
    if user_timeout || role_timeout || matches!(d.broadcast, BroadcastResult::TimedOut { .. }) {
        EscalationOutcome::TimedOut
    } else if matches!(d.user_policy, PolicyResult::Escalated { .. }) || matches!(
        d.role_policy,
        PolicyResult::Escalated { .. },
    ) {
        EscalationOutcome::Warned
    } else {
        EscalationOutcome::NoAction
    }
}

/// Processes one inbound message: the single pass the platform's message
/// event drives.
///
/// Bot messages are discarded at once, with no snapshot and no actions.
/// A message outside any guild cannot be processed and is the one error.
/// Every other message yields exactly one audit snapshot — whatever the
/// policies, exemptions, or attachment inspection did — together with the
/// decision and the ordered platform calls, and advances the author's
/// warning count once per escalated warn-counted policy.
#[verifier::rlimit(50)]
pub fn process(
    msg: &MessageInput,
    config: &GuildPolicyConfig,
    facts: &ExternalFacts,
    ledger: &mut WarnLedger,
) -> (r: Result<ModerationOutcome, ModerationError>)
    requires
        config.wf(),
        old(ledger).spec_current(msg.author_id) + 2 <= u64::MAX,
    ensures
        msg.author_is_bot ==> {
            &&& r is Ok
            &&& r->Ok_0.record is None
            &&& r->Ok_0.decision == spec_empty_decision()
            &&& r->Ok_0.actions@.len() == 0
            &&& final(ledger)@ == old(ledger)@
        },
        !msg.author_is_bot && msg.guild_id is None ==> {
            &&& r == Result::<ModerationOutcome, ModerationError>::Err(
                ModerationError::MissingGuild,
            )
            &&& final(ledger)@ == old(ledger)@
        },
        !msg.author_is_bot && msg.guild_id is Some ==> ({
            let g = msg.guild_id->0;
            let d = spec_decision(*msg, *config, facts@, old(ledger).spec_current(msg.author_id));
            &&& r is Ok
            &&& r->Ok_0.record is Some
            &&& is_record_of(r->Ok_0.record->0, *msg)
            &&& r->Ok_0.decision == d
            &&& actions_model(r->Ok_0.actions@) == spec_pipeline_plan(d, *msg, g, *config)
            &&& final(ledger)@ == spec_ledger_after(old(ledger)@, msg.author_id, d, *config)
        }),
{
    if msg.author_is_bot {
        return Ok(
            ModerationOutcome {
                record: None,
                decision: ModerationDecision {
                    user_policy: PolicyResult::NotTriggered,
                    role_policy: PolicyResult::NotTriggered,
                    broadcast: BroadcastResult::NotTriggered,
                    link_flagged: false,
                    attachment_failure_logged: false,
                },
                actions: Vec::new(),
            },
        );
    }
    let guild_id = match msg.guild_id {
        Some(g) => g,
        None => {
            return Err(ModerationError::MissingGuild);
        },
    };
    let ghost start = ledger.spec_current(msg.author_id);
    let triggered = evaluate(msg, config, facts.role_holder_mentioned, facts.link_found);
    let mut actions: Vec<PlatformAction> = Vec::new();

    let user_policy: PolicyResult = match triggered.forbidden_user {
        Some(u) => {
            let pol = TriggeredPolicy::ForbiddenUserMention { user_id: u };
            if is_exempt(
                msg.author_id,
                &pol,
                config,
                facts.opt_out_user_policy,
                &facts.author_role_ids,
            ) {
                PolicyResult::Exempt
            } else {
                let new_count = ledger.increment(msg.author_id);
                let action = decide(new_count, config);
                let mut plan = plan_escalation(action, msg, guild_id, config);
                actions.append(&mut plan);
                PolicyResult::Escalated { new_count, action }
            }
        },
        None => PolicyResult::NotTriggered,
    };

    let role_policy: PolicyResult = match triggered.forbidden_role {
        Some(role_id) => {
            let pol = TriggeredPolicy::ForbiddenRoleMention { role_id };
            if is_exempt(
                msg.author_id,
                &pol,
                config,
                facts.opt_out_role_policy,
                &facts.author_role_ids,
            ) {
                PolicyResult::Exempt
            } else {
                let new_count = ledger.increment(msg.author_id);
                let action = decide(new_count, config);
                let mut plan = plan_escalation(action, msg, guild_id, config);
                actions.append(&mut plan);
                PolicyResult::Escalated { new_count, action }
            }
        },
        None => PolicyResult::NotTriggered,
    };

    let broadcast: BroadcastResult = if triggered.broadcast {
        if holds_admin_role(&facts.author_role_ids, config) {
            BroadcastResult::Exempt
        } else {
            let duration_secs = timeout_secs(config);
            actions.push(
                PlatformAction::ApplyTimeout {
                    guild_id,
                    user_id: msg.author_id,
                    duration_secs,
                    text: timeout_notice_text(config),
                },
            );
            BroadcastResult::TimedOut { duration_secs }
        }
    } else {
        BroadcastResult::NotTriggered
    };

    let user_timed_out = matches!(
        user_policy,
        PolicyResult::Escalated { new_count: _, action: EscalationAction::NotifyAndTimeout },
    );
    let role_timed_out = matches!(
        role_policy,
        PolicyResult::Escalated { new_count: _, action: EscalationAction::NotifyAndTimeout },
    );
    if config.auto_reset_on_timeout && (user_timed_out || role_timed_out) {
        ledger.reset(msg.author_id);
    }
    let decision = ModerationDecision {
        user_policy,
        role_policy,
        broadcast,
        link_flagged: triggered.link,
        attachment_failure_logged: facts.attachment_inspection_failed,
    };
    let record = msg.snapshot();
    proof {
        assert(decision == spec_decision(*msg, *config, facts@, start));
        assert(actions_model(actions@) =~= spec_pipeline_plan(
            decision,
            *msg,
            guild_id,
            *config,
        ));
    }
    Ok(ModerationOutcome { record: Some(record), decision, actions })
}

/// Self-mention never escalates: when the guild's forbidden user is the
/// author, the forbidden-user policy never advances the author's warning
/// count — for every configuration, opt-out state, role list, and starting
/// count. The message is still snapshotted like any other.
pub proof fn lemma_self_mention_never_escalates(
    m: MessageInput,
    c: GuildPolicyConfig,
    f: FactsModel,
    start: u64,
)
    requires
        c.forbidden_user_id == Some(m.author_id),
    ensures
        !(spec_decision(m, c, f, start).user_policy is Escalated),
        spec_user_trigger(m, c) is Some ==> spec_decision(m, c, f, start).user_policy
            is Exempt,
{
}

/// Admin role holders never advance their warning count: with an admin
/// role among the author's roles, neither warn-counted policy escalates and
/// the ledger is left exactly as it was — even though the message may still
/// be snapshotted for the audit trail and flagged for other policies.
pub proof fn lemma_admin_never_escalates(
    m: MessageInput,
    c: GuildPolicyConfig,
    f: FactsModel,
    start: u64,
    m0: Map<u64, u64>,
)
    requires
        spec_holds_admin_role(f.author_role_ids, c),
    ensures
        !(spec_decision(m, c, f, start).user_policy is Escalated),
        !(spec_decision(m, c, f, start).role_policy is Escalated),
        spec_ledger_after(m0, m.author_id, spec_decision(m, c, f, start), c) == m0,
{
}

/// A standing opt-out exempts the author from exactly the policy it was
/// registered for: the opted-out policy never escalates, while the other
/// policies are unaffected by it.
pub proof fn lemma_opt_out_blocks_its_policy(
    m: MessageInput,
    c: GuildPolicyConfig,
    f: FactsModel,
    start: u64,
)
    ensures
        f.opt_out_user_policy ==> !(spec_decision(m, c, f, start).user_policy is Escalated),
        f.opt_out_role_policy ==> !(spec_decision(m, c, f, start).role_policy is Escalated),
{
}

/// Side-effect ordering for the whole pipeline: in the plan of any
/// decision, the offending message is deleted only after a warning notice
/// was sent, so the channel sees the warning before the message
/// disappears.
pub proof fn lemma_pipeline_notice_before_delete(
    d: ModerationDecision,
    m: MessageInput,
    g: u64,
    c: GuildPolicyConfig,
)
    ensures
        forall|i: int|
            0 <= i < spec_pipeline_plan(d, m, g, c).len() && spec_pipeline_plan(
                d,
                m,
                g,
                c,
            )[i] is DeleteMessage ==> exists|j: int|
                0 <= j < i && spec_pipeline_plan(d, m, g, c)[j] is SendNotice,
{
    let plan = spec_pipeline_plan(d, m, g, c);
    let p1 = spec_policy_plan(d.user_policy, m, g, c);
    let p2 = spec_policy_plan(d.role_policy, m, g, c);
    let p3 = spec_broadcast_plan(d.broadcast, m, g, c);
    assert forall|i: int| 0 <= i < plan.len() && plan[i] is DeleteMessage implies exists|j: int|
        0 <= j < i && plan[j] is SendNotice by {
        if i < p1.len() {
            assert(plan[i] == p1[i]);
            assert(p1[0] is SendNotice);
            assert(plan[0] == p1[0]);
            assert(0 < i && plan[0] is SendNotice);
        } else if i < p1.len() + p2.len() {
            assert(plan[i] == p2[i - p1.len()]);
            assert(p2[0] is SendNotice);
            assert(plan[p1.len() as int] == p2[0]);
            assert(p1.len() < i && plan[p1.len() as int] is SendNotice);
        } else {
            assert(plan[i] == p3[i - p1.len() - p2.len()]);
            assert(!(p3[i - p1.len() - p2.len()] is DeleteMessage));
        }
    }
}

/// Failure isolation for attachment inspection: a failed inspection flips
/// only the logged flag of the decision. Every policy outcome — including
/// the broadcast-mention timeout — and the link flag are exactly what they
/// would have been had the inspection succeeded.
pub proof fn lemma_attachment_failure_isolated(
    m: MessageInput,
    c: GuildPolicyConfig,
    f: FactsModel,
    start: u64,
)
    ensures
        ({
            let d_ok = spec_decision(
                m,
                c,
                FactsModel { attachment_inspection_failed: false, ..f },
                start,
            );
            let d_failed = spec_decision(
                m,
                c,
                FactsModel { attachment_inspection_failed: true, ..f },
                start,
            );
            &&& d_failed.user_policy == d_ok.user_policy
            &&& d_failed.role_policy == d_ok.role_policy
            &&& d_failed.broadcast == d_ok.broadcast
            &&& d_failed.link_flagged == d_ok.link_flagged
            &&& d_failed.attachment_failure_logged
            &&& !d_ok.attachment_failure_logged
        }),
{
}

} // verus!
