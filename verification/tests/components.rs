use moderation_core::config::ConfigGap;
use moderation_core::config::GuildPolicyConfig;
use moderation_core::config::WARN_THRESHOLD;
use moderation_core::config::config_gaps;
use moderation_core::config::get_log_channel;
use moderation_core::config::get_welcome_channel;
use moderation_core::config::set_ooc_channel;
use moderation_core::config::timeout_notice_text;
use moderation_core::config::timeout_secs;
use moderation_core::config::warn_notice_text;
use moderation_core::escalation::EscalationAction;
use moderation_core::escalation::decide;
use moderation_core::exception::holds_admin_role;
use moderation_core::exception::is_exempt;
use moderation_core::exception::needs_role_lookup;
use moderation_core::ledger::WarnLedger;
use moderation_core::ledger::WarnRecord;
use moderation_core::message::MessageInput;
use moderation_core::message::MessageRecord;
use moderation_core::message::contains_id;
use moderation_core::message::str_contains_pattern;
use moderation_core::policy::TriggeredPolicy;
use moderation_core::policy::evaluate;

fn message(author_id: u64, content: &str, mentions: Vec<u64>) -> MessageInput {
    MessageInput {
        message_id: 2002,
        content: content.to_string(),
        author_id,
        channel_id: 11,
        guild_id: Some(3),
        author_is_bot: false,
        mentioned_user_ids: mentions,
    }
}

#[test]
fn repeated_increments_are_all_counted() {
    // increment(U) called N times leaves current(U) == N, interleaved
    // arbitrarily with other users' increments.
    let mut ledger = WarnLedger::new();
    assert_eq!(ledger.current(7), 0);
    let mut last = 0;
    for step in 1..=25u64 {
        last = ledger.increment(7);
        assert_eq!(last, step);
        // another user's event lands in between
        ledger.increment(8);
    }
    assert_eq!(last, 25);
    assert_eq!(ledger.current(7), 25);
    assert_eq!(ledger.current(8), 25);
    assert_eq!(ledger.current(9), 0);
}

#[test]
fn the_store_row_reflects_the_count() {
    let mut ledger = WarnLedger::new();
    assert_eq!(ledger.record_for(7), WarnRecord { user_id: 7, warn_count: 0 });
    ledger.increment(7);
    ledger.increment(7);
    assert_eq!(ledger.record_for(7), WarnRecord { user_id: 7, warn_count: 2 });
    assert_eq!(ledger.record_for(8), WarnRecord { user_id: 8, warn_count: 0 });
}

#[test]
fn reset_clears_one_user_only() {
    let mut ledger = WarnLedger::new();
    ledger.increment(7);
    ledger.increment(7);
    ledger.increment(8);
    ledger.reset(7);
    assert_eq!(ledger.current(7), 0);
    assert_eq!(ledger.current(8), 1);
    // the counter starts over after a reset
    assert_eq!(ledger.increment(7), 1);
}

#[test]
fn decide_has_a_fixed_boundary_at_three() {
    let cfg = GuildPolicyConfig::unconfigured(3);
    assert_eq!(WARN_THRESHOLD, 3);
    assert_eq!(decide(0, &cfg), EscalationAction::Notify);
    assert_eq!(decide(1, &cfg), EscalationAction::Notify);
    assert_eq!(decide(2, &cfg), EscalationAction::Notify);
    assert_eq!(decide(3, &cfg), EscalationAction::NotifyAndTimeout);
    assert_eq!(decide(4, &cfg), EscalationAction::NotifyAndTimeout);
    assert_eq!(decide(u64::MAX, &cfg), EscalationAction::NotifyAndTimeout);
}

#[test]
fn broadcast_patterns_are_found_as_substrings() {
    assert!(str_contains_pattern("hey @everyone look", "@everyone"));
    assert!(str_contains_pattern("@here", "@here"));
    assert!(str_contains_pattern("tail@everyone", "@everyone"));
    assert!(!str_contains_pattern("hey everyone", "@everyone"));
    assert!(!str_contains_pattern("@every one", "@everyone"));
    assert!(!str_contains_pattern("", "@here"));
    assert!(str_contains_pattern("anything", ""));
    // multi-byte characters around the pattern do not confuse the search
    assert!(str_contains_pattern("héllo @here déjà", "@here"));

    let msg = message(7, "wake up @here", vec![]);
    assert!(msg.has_broadcast());
    let quiet = message(7, "wake up here", vec![]);
    assert!(!quiet.has_broadcast());
}

#[test]
fn evaluate_tests_every_category_independently() {
    let mut cfg = GuildPolicyConfig::unconfigured(3);
    cfg.forbidden_user_id = Some(42);
    cfg.forbidden_role_id = Some(300);

    // one message triggers all four categories at once
    let msg = message(7, "spam @everyone", vec![42, 43]);
    let t = evaluate(&msg, &cfg, true, true);
    assert_eq!(t.forbidden_user, Some(42));
    assert_eq!(t.forbidden_role, Some(300));
    assert!(t.broadcast);
    assert!(t.link);

    // and none when nothing matches
    let calm = message(7, "all fine", vec![43]);
    let t2 = evaluate(&calm, &cfg, false, false);
    assert_eq!(t2.forbidden_user, None);
    assert_eq!(t2.forbidden_role, None);
    assert!(!t2.broadcast);
    assert!(!t2.link);

    // an unconfigured category never triggers
    let bare = GuildPolicyConfig::unconfigured(3);
    let t3 = evaluate(&msg, &bare, true, false);
    assert_eq!(t3.forbidden_user, None);
    assert_eq!(t3.forbidden_role, None);
}

#[test]
fn exemption_prefers_the_checks_that_need_no_lookup() {
    let mut cfg = GuildPolicyConfig::unconfigured(3);
    cfg.admin_role_id = Some(500);
    let user_policy = TriggeredPolicy::ForbiddenUserMention { user_id: 42 };

    // self-mention and opt-out settle the question without the role fetch
    assert!(!needs_role_lookup(42, &user_policy, false));
    assert!(!needs_role_lookup(7, &user_policy, true));
    assert!(needs_role_lookup(7, &user_policy, false));

    assert!(is_exempt(42, &user_policy, &cfg, false, &vec![]));
    assert!(is_exempt(7, &user_policy, &cfg, true, &vec![]));
    assert!(!is_exempt(7, &user_policy, &cfg, false, &vec![]));
    assert!(is_exempt(7, &user_policy, &cfg, false, &vec![500]));

    let role_policy = TriggeredPolicy::ForbiddenRoleMention { role_id: 300 };
    assert!(!needs_role_lookup(7, &role_policy, true));
    assert!(needs_role_lookup(7, &role_policy, false));
    assert!(is_exempt(7, &role_policy, &cfg, true, &vec![]));
    assert!(!is_exempt(7, &role_policy, &cfg, false, &vec![77]));
}

#[test]
fn either_admin_role_exempts() {
    let mut cfg = GuildPolicyConfig::unconfigured(3);
    cfg.admin_role_id = Some(500);
    cfg.admin_role_id_2 = Some(501);
    assert!(holds_admin_role(&vec![500], &cfg));
    assert!(holds_admin_role(&vec![1, 501], &cfg));
    assert!(!holds_admin_role(&vec![502], &cfg));
    assert!(!holds_admin_role(&vec![], &cfg));

    let none = GuildPolicyConfig::unconfigured(3);
    assert!(!holds_admin_role(&vec![500, 501], &none));
}

#[test]
fn missing_templates_fall_back_to_defaults_and_are_reported() {
    let bare = GuildPolicyConfig::unconfigured(3);
    assert_eq!(
        warn_notice_text(&bare),
        "Please do not mention this user. If you are replying to a message, consider replying without using a mention."
    );
    assert_eq!(
        timeout_notice_text(&bare),
        "You have been timed out for repeatedly mentioning a protected user or role."
    );
    assert_eq!(timeout_secs(&bare), 0);
    assert_eq!(
        config_gaps(&bare),
        vec![
            ConfigGap::WarnTemplateMissing,
            ConfigGap::TimeoutTemplateMissing,
            ConfigGap::TimeoutDurationMissing,
        ]
    );

    let mut full = GuildPolicyConfig::unconfigured(3);
    full.warn_message = Some("mind the rules".to_string());
    full.timeout_message = Some("muted".to_string());
    full.timeout_secs = Some(300);
    assert_eq!(warn_notice_text(&full), "mind the rules");
    assert_eq!(timeout_notice_text(&full), "muted");
    assert_eq!(timeout_secs(&full), 300);
    assert!(config_gaps(&full).is_empty());
}

#[test]
fn channel_getters_read_the_record_if_any() {
    assert_eq!(get_log_channel(None), None);
    assert_eq!(get_welcome_channel(None), None);

    let mut cfg = GuildPolicyConfig::unconfigured(3);
    assert_eq!(get_log_channel(Some(&cfg)), None);
    cfg.log_channel_id = Some(800);
    cfg.welcome_channel_id = Some(801);
    assert_eq!(get_log_channel(Some(&cfg)), Some(800));
    assert_eq!(get_welcome_channel(Some(&cfg)), Some(801));
}

#[test]
fn setting_the_ooc_channel_creates_or_updates() {
    // no record yet: a fresh one is created with just that channel set
    let created = set_ooc_channel(None, 3, 900);
    assert_eq!(created.guild_id, 3);
    assert_eq!(created.ooc_channel_id, Some(900));
    assert_eq!(created.forbidden_user_id, None);
    assert_eq!(created.log_channel_id, None);

    // an existing record keeps every other field
    let mut existing = GuildPolicyConfig::unconfigured(3);
    existing.forbidden_user_id = Some(42);
    existing.log_channel_id = Some(800);
    let updated = set_ooc_channel(Some(existing), 3, 901);
    assert_eq!(updated.ooc_channel_id, Some(901));
    assert_eq!(updated.forbidden_user_id, Some(42));
    assert_eq!(updated.log_channel_id, Some(800));
}

#[test]
fn record_constructor_keeps_its_parts() {
    let rec = MessageRecord::new(10, "hello".to_string(), 7, 11, Some(3));
    assert_eq!(rec.message_id, 10);
    assert_eq!(rec.content, "hello");
    assert_eq!(rec.author_id, 7);
    assert_eq!(rec.channel_id, 11);
    assert_eq!(rec.guild_id, Some(3));
    let direct = MessageRecord::new(10, "hello".to_string(), 7, 11, None);
    assert_eq!(direct.guild_id, None);
}

#[test]
fn mention_lookup_and_snapshot_keep_the_fields() {
    let msg = message(7, "hola <@42>", vec![42, 43]);
    assert!(msg.mentions_user(42));
    assert!(msg.mentions_user(43));
    assert!(!msg.mentions_user(44));
    assert!(contains_id(&vec![1, 2, 3], 2));
    assert!(!contains_id(&vec![1, 2, 3], 4));
    assert!(!contains_id(&vec![], 1));

    let rec = msg.snapshot();
    assert_eq!(rec.message_id, 2002);
    assert_eq!(rec.content, "hola <@42>");
    assert_eq!(rec.author_id, 7);
    assert_eq!(rec.channel_id, 11);
    assert_eq!(rec.guild_id, Some(3));
}
