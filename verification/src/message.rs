//! Inbound messages and their audit-trail snapshots.
//!
//! `MessageInput` carries what the pipeline reads of a platform message:
//! plain identifiers, the content, and the list of mentioned users.
//! `MessageRecord` is the immutable snapshot persisted once per processed
//! message. Broadcast-mention detection is a verified substring search over
//! the content.

use vstd::prelude::*;

verus! {

/// The pattern occurs in `s` starting exactly at index `i`.
pub open spec fn contains_pattern_at(s: Seq<char>, pat: Seq<char>, i: int) -> bool {
    0 <= i && i + pat.len() <= s.len() && s.subrange(i, i + pat.len()) == pat
}

/// The pattern occurs somewhere in `s`.
pub open spec fn contains_pattern(s: Seq<char>, pat: Seq<char>) -> bool {
    exists|i: int| contains_pattern_at(s, pat, i)
}

/// The content addresses the whole audience: it contains `@everyone` or
/// `@here`.
pub open spec fn has_broadcast_mention(s: Seq<char>) -> bool {
    contains_pattern(s, "@everyone"@) || contains_pattern(s, "@here"@)
}

/// Substring search: whether `pat` occurs anywhere in `s`.
pub fn str_contains_pattern(s: &str, pat: &str) -> (r: bool)
    ensures
        r == contains_pattern(s@, pat@),
{
    let n: usize = s.unicode_len();
    let m: usize = pat.unicode_len();
    if m > n {
        proof {
            assert forall|i: int| !contains_pattern_at(s@, pat@, i) by {}
        }
        return false;
    }
    if m == 0 {
        proof {
            assert(s@.subrange(0, 0) =~= pat@);
            assert(contains_pattern_at(s@, pat@, 0));
        }
        return true;
    }
    let mut i: usize = 0;
    while i <= n - m
        invariant
            1 <= m <= n,
            n == s@.len(),
            m == pat@.len(),
            i <= n - m + 1,
            forall|j: int| 0 <= j < i ==> !contains_pattern_at(s@, pat@, j),
        decreases n - m + 1 - i,
    {
        let mut k: usize = 0;
        let mut mismatch = false;
        while k < m && !mismatch
            invariant
                m <= n,
                n == s@.len(),
                m == pat@.len(),
                i + m <= n,
                k <= m,
                !mismatch ==> forall|t: int| 0 <= t < k ==> s@[i + t] == pat@[t],
                mismatch ==> !contains_pattern_at(s@, pat@, i as int),
            decreases m - k + (if mismatch { 0int } else { 1int }),
        {
            let sc = s.get_char(i + k);
            let pc = pat.get_char(k);
            if sc != pc {
                proof {
                    if contains_pattern_at(s@, pat@, i as int) {
                        assert(s@.subrange(i as int, i + m as int)[k as int] == s@[i + k]);
                    }
                }
                mismatch = true;
            } else {
                k = k + 1;
            }
        }
        if !mismatch {
            proof {
                assert(s@.subrange(i as int, i + m as int) =~= pat@);
                assert(contains_pattern_at(s@, pat@, i as int));
            }
            return true;
        }
        i = i + 1;
    }
    proof {
        assert forall|j: int| !contains_pattern_at(s@, pat@, j) by {}
    }
    false
}

/// What the pipeline reads of one inbound platform message.
#[derive(Clone, Debug)]
pub struct MessageInput {
    pub message_id: u64,
    pub content: String,
    pub author_id: u64,
    pub channel_id: u64,
    pub guild_id: Option<u64>,
    /// Whether the author is a bot account; bot messages are discarded.
    pub author_is_bot: bool,
    /// Users the message mentions, in order of appearance.
    pub mentioned_user_ids: Vec<u64>,
}

/// The immutable audit-trail snapshot of a processed message. Created
/// exactly once per processed message, never mutated or deleted here.
#[derive(Clone, PartialEq, Eq, Debug)]
pub struct MessageRecord {
    pub message_id: u64,
    pub content: String,
    pub author_id: u64,
    pub channel_id: u64,
    pub guild_id: Option<u64>,
}

impl MessageRecord {
    /// Assembles a record from its parts.
    pub fn new(
        message_id: u64,
        content: String,
        author_id: u64,
        channel_id: u64,
        guild_id: Option<u64>,
    ) -> (rec: MessageRecord)
        ensures
            rec.message_id == message_id,
            rec.content == content,
            rec.author_id == author_id,
            rec.channel_id == channel_id,
            rec.guild_id == guild_id,
    {
        MessageRecord { message_id, content, author_id, channel_id, guild_id }
    }
}

/// The snapshot `rec` is exactly the snapshot of message `m`.
pub open spec fn is_record_of(rec: MessageRecord, m: MessageInput) -> bool {
    &&& rec.message_id == m.message_id
    &&& rec.content@ == m.content@
    &&& rec.author_id == m.author_id
    &&& rec.channel_id == m.channel_id
    &&& rec.guild_id == m.guild_id
}

impl MessageInput {
    /// The message mentions the given user.
    pub open spec fn spec_mentions(self, user_id: u64) -> bool {
        self.mentioned_user_ids@.contains(user_id)
    }

    /// Whether the message mentions the given user.
    pub fn mentions_user(&self, user_id: u64) -> (r: bool)
        ensures
            r == self.spec_mentions(user_id),
    {
        contains_id(&self.mentioned_user_ids, user_id)
    }

    /// Whether the message contains a broadcast (`@everyone`/`@here`)
    /// mention.
    pub fn has_broadcast(&self) -> (r: bool)
        ensures
            r == has_broadcast_mention(self.content@),
    {
        str_contains_pattern(self.content.as_str(), "@everyone")
            || str_contains_pattern(self.content.as_str(), "@here")
    }

    /// The audit-trail snapshot of this message.
    pub fn snapshot(&self) -> (rec: MessageRecord)
        ensures
            is_record_of(rec, *self),
    {
        MessageRecord {
            message_id: self.message_id,
            content: self.content.clone(),
            author_id: self.author_id,
            channel_id: self.channel_id,
            guild_id: self.guild_id,
        }
    }
}

/// Whether the list of identifiers contains the given one.
pub fn contains_id(ids: &Vec<u64>, id: u64) -> (r: bool)
    ensures
        r == ids@.contains(id),
{
    let mut i: usize = 0;
    while i < ids.len()
        invariant
            i <= ids@.len(),
            forall|j: int| 0 <= j < i ==> ids@[j] != id,
        decreases ids@.len() - i,
    {
        if ids[i] == id {
            return true;
        }
        i = i + 1;
    }
    false
}

} // verus!
