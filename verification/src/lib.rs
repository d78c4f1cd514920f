//! A verified moderation pipeline for a multi-tenant chat platform.
//!
//! For every inbound message the pipeline decides, in a single pass, which of
//! the community's content policies the message violates (forbidden user or
//! role mentions, broadcast mentions, spam links, disallowed attachments),
//! applies an escalating warning/timeout response through a per-user warning
//! ledger, and records the message for the audit trail.
//!
//! The library is pure decision logic over plain values: the surrounding
//! application performs the platform calls (send, delete, timeout, member
//! fetch) and the persistence, feeding their results in as inputs and
//! executing the returned action plans in order.

pub mod config;
pub mod escalation;
pub mod exception;
pub mod ledger;
pub mod message;
pub mod pipeline;
pub mod policy;
