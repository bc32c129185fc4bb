//! Per-user conversational context with lazy expiry.  The store remembers
//! that a user is mid volunteer-conversation; an entry whose last activity
//! is older than the session timeout is evicted as a side effect of every
//! read or write, never by a background timer.

use vstd::prelude::*;

verus! {

/// Short-lived memory of one user's conversation with the bot.
#[derive(Debug, Clone)]
pub struct ConversationContext {
    pub user_id: String,
    pub user_name: String,
    pub session_start: i64,
    pub last_activity: i64,
    pub volunteer_intent: bool,
    pub mentioned_bot: bool,
}

/// An entry is live at `now` while less than the timeout has passed since
/// its last activity.  Times are milliseconds since the Unix epoch.
pub open spec fn ctx_live(c: ConversationContext, now: i64, timeout_minutes: i64) -> bool {
    now - c.last_activity < timeout_minutes * 60000
}

/// The entries still live at `now`, in order.
pub open spec fn evict_from(
    s: Seq<ConversationContext>,
    now: i64,
    tm: i64,
    i: int,
) -> Seq<ConversationContext>
    decreases s.len() - i,
    when 0 <= i <= s.len()
{
    if i >= s.len() {
        Seq::empty()
    } else if ctx_live(s[i], now, tm) {
        seq![s[i]] + evict_from(s, now, tm, i + 1)
    } else {
        evict_from(s, now, tm, i + 1)
    }
}

pub open spec fn evicted(s: Seq<ConversationContext>, now: i64, tm: i64) -> Seq<
    ConversationContext,
> {
    evict_from(s, now, tm, 0)
}

/// The entries with the given user dropped, in order.
pub open spec fn drop_user_from(
    s: Seq<ConversationContext>,
    uid: Seq<char>,
    i: int,
) -> Seq<ConversationContext>
    decreases s.len() - i,
    when 0 <= i <= s.len()
{
    if i >= s.len() {
        Seq::empty()
    } else if s[i].user_id@ == uid {
        drop_user_from(s, uid, i + 1)
    } else {
        seq![s[i]] + drop_user_from(s, uid, i + 1)
    }
}

pub open spec fn drop_user(s: Seq<ConversationContext>, uid: Seq<char>) -> Seq<
    ConversationContext,
> {
    drop_user_from(s, uid, 0)
}

/// `c` with its last activity refreshed to `now`.
pub open spec fn with_activity(c: ConversationContext, now: i64) -> ConversationContext {
    ConversationContext {
        user_id: c.user_id,
        user_name: c.user_name,
        session_start: c.session_start,
        last_activity: now,
        volunteer_intent: c.volunteer_intent,
        mentioned_bot: c.mentioned_bot,
    }
}

/// The entries of the given user with their last activity refreshed.
pub open spec fn refresh_from(
    s: Seq<ConversationContext>,
    uid: Seq<char>,
    now: i64,
    i: int,
) -> Seq<ConversationContext>
    decreases s.len() - i,
    when 0 <= i <= s.len()
{
    if i >= s.len() {
        Seq::empty()
    } else if s[i].user_id@ == uid {
        seq![with_activity(s[i], now)] + refresh_from(s, uid, now, i + 1)
    } else {
        seq![s[i]] + refresh_from(s, uid, now, i + 1)
    }
}

pub open spec fn refreshed(s: Seq<ConversationContext>, uid: Seq<char>, now: i64) -> Seq<
    ConversationContext,
> {
    refresh_from(s, uid, now, 0)
}

/// First index at or after `i` belonging to the given user.
pub open spec fn find_from(s: Seq<ConversationContext>, uid: Seq<char>, i: int) -> Option<int>
    decreases s.len() - i,
    when 0 <= i <= s.len()
{
    if i >= s.len() {
        None
    } else if s[i].user_id@ == uid {
        Some(i)
    } else {
        find_from(s, uid, i + 1)
    }
}

/// The context the store yields for a user at `now`: the first live entry.
pub open spec fn active_of(
    s: Seq<ConversationContext>,
    uid: Seq<char>,
    now: i64,
    tm: i64,
) -> Option<ConversationContext> {
    let e = evicted(s, now, tm);
    match find_from(e, uid, 0) {
        Some(i) => Some(e[i]),
        None => None,
    }
}

/// The user holds a live volunteer-intent context.
pub open spec fn has_volunteer_ctx(
    s: Seq<ConversationContext>,
    uid: Seq<char>,
    now: i64,
    tm: i64,
) -> bool {
    match active_of(s, uid, now, tm) {
        Some(c) => c.volunteer_intent,
        None => false,
    }
}

// ---------------------------------------------------------------------------
// Laws of eviction
// ---------------------------------------------------------------------------

/// Everything that survives eviction is live.
pub proof fn lemma_evicted_live(s: Seq<ConversationContext>, now: i64, tm: i64, i: int)
    requires
        0 <= i <= s.len(),
    ensures
        forall|j: int|
            0 <= j < evict_from(s, now, tm, i).len() ==> ctx_live(
                #[trigger] evict_from(s, now, tm, i)[j],
                now,
                tm,
            ),
    decreases s.len() - i,
{
    if i < s.len() {
        lemma_evicted_live(s, now, tm, i + 1);
        assert forall|j: int|
            0 <= j < evict_from(s, now, tm, i).len() implies ctx_live(
            #[trigger] evict_from(s, now, tm, i)[j],
            now,
            tm,
        ) by {
            if ctx_live(s[i], now, tm) {
                if j > 0 {
                    assert(evict_from(s, now, tm, i)[j] == evict_from(s, now, tm, i + 1)[j - 1]);
                }
            } else {
                assert(evict_from(s, now, tm, i)[j] == evict_from(s, now, tm, i + 1)[j]);
            }
        }
    }
}

/// Eviction leaves a sequence of live entries unchanged.
pub proof fn lemma_evict_stable(s: Seq<ConversationContext>, now: i64, tm: i64, i: int)
    requires
        0 <= i <= s.len(),
        forall|j: int| 0 <= j < s.len() ==> ctx_live(#[trigger] s[j], now, tm),
    ensures
        evict_from(s, now, tm, i) == s.subrange(i, s.len() as int),
    decreases s.len() - i,
{
    if i >= s.len() {
        assert(s.subrange(i, s.len() as int) =~= Seq::empty());
    } else {
        lemma_evict_stable(s, now, tm, i + 1);
        assert(seq![s[i]] + s.subrange(i + 1, s.len() as int) =~= s.subrange(i, s.len() as int));
    }
}

/// Evicting twice at the same instant is the same as evicting once.
pub proof fn lemma_evict_idempotent(s: Seq<ConversationContext>, now: i64, tm: i64)
    ensures
        evicted(evicted(s, now, tm), now, tm) == evicted(s, now, tm),
{
    lemma_evicted_live(s, now, tm, 0);
    lemma_evict_stable(evicted(s, now, tm), now, tm, 0);
    assert(evicted(s, now, tm).subrange(0, evicted(s, now, tm).len() as int) =~= evicted(
        s,
        now,
        tm,
    ));
}

proof fn lemma_find_none(s: Seq<ConversationContext>, uid: Seq<char>, i: int)
    requires
        0 <= i <= s.len(),
        forall|j: int| 0 <= j < s.len() ==> (#[trigger] s[j]).user_id@ != uid,
    ensures
        find_from(s, uid, i) is None,
    decreases s.len() - i,
{
    if i < s.len() {
        lemma_find_none(s, uid, i + 1);
    }
}

proof fn lemma_evict_drops_stale_user(
    s: Seq<ConversationContext>,
    uid: Seq<char>,
    now: i64,
    tm: i64,
    i: int,
)
    requires
        0 <= i <= s.len(),
        forall|j: int|
            0 <= j < s.len() && (#[trigger] s[j]).user_id@ == uid ==> !ctx_live(s[j], now, tm),
    ensures
        forall|j: int|
            0 <= j < evict_from(s, now, tm, i).len() ==> (#[trigger] evict_from(
                s,
                now,
                tm,
                i,
            )[j]).user_id@ != uid,
    decreases s.len() - i,
{
    if i < s.len() {
        lemma_evict_drops_stale_user(s, uid, now, tm, i + 1);
        assert forall|j: int|
            0 <= j < evict_from(s, now, tm, i).len() implies (#[trigger] evict_from(
            s,
            now,
            tm,
            i,
        )[j]).user_id@ != uid by {
            if ctx_live(s[i], now, tm) {
                if j > 0 {
                    assert(evict_from(s, now, tm, i)[j] == evict_from(s, now, tm, i + 1)[j - 1]);
                }
            } else {
                assert(evict_from(s, now, tm, i)[j] == evict_from(s, now, tm, i + 1)[j]);
            }
        }
    }
}

/// Context expiry: when every entry of a user is at least the timeout old —
/// in particular, a context created at some time `t` with no activity
/// since, queried at `now >= t + timeout` — the store treats the user as
/// absent.
pub proof fn lemma_context_expiry(s: Seq<ConversationContext>, uid: Seq<char>, now: i64, tm: i64)
    requires
        forall|j: int|
            0 <= j < s.len() && (#[trigger] s[j]).user_id@ == uid ==> now - s[j].last_activity
                >= tm * 60000,
    ensures
        active_of(s, uid, now, tm) is None,
        !has_volunteer_ctx(s, uid, now, tm),
{
    lemma_evict_drops_stale_user(s, uid, now, tm, 0);
    lemma_find_none(evicted(s, now, tm), uid, 0);
}

// ---------------------------------------------------------------------------
// The store
// ---------------------------------------------------------------------------

/// A time-expiring map from user identity to conversation context, one
/// entry per user: a new entry overwrites, never merges.
pub struct ConversationContextStore {
    pub contexts: Vec<ConversationContext>,
    pub session_timeout_minutes: i64,
}

fn ctx_is_live(c: &ConversationContext, now: i64, tm: i64) -> (r: bool)
    ensures
        r == ctx_live(*c, now, tm),
{
    (now as i128) - (c.last_activity as i128) < (tm as i128) * 60000
}

fn clone_ctx(c: &ConversationContext) -> (r: ConversationContext)
    ensures
        r == *c,
{
    ConversationContext {
        user_id: c.user_id.clone(),
        user_name: c.user_name.clone(),
        session_start: c.session_start,
        last_activity: c.last_activity,
        volunteer_intent: c.volunteer_intent,
        mentioned_bot: c.mentioned_bot,
    }
}

impl ConversationContextStore {
    pub fn new(session_timeout_minutes: i64) -> (r: Self)
        ensures
            r.contexts@.len() == 0,
            r.session_timeout_minutes == session_timeout_minutes,
    {
        ConversationContextStore { contexts: Vec::new(), session_timeout_minutes }
    }

    /// Drop every entry whose last activity is at least the timeout old.
    fn cleanup_expired_contexts(&mut self, now: i64)
        ensures
            final(self).contexts@ == evicted(
                old(self).contexts@,
                now,
                old(self).session_timeout_minutes,
            ),
            final(self).session_timeout_minutes == old(self).session_timeout_minutes,
    {
        let ghost s = self.contexts@;
        let ghost tm = self.session_timeout_minutes;
        let len = self.contexts.len();
        let mut out: Vec<ConversationContext> = Vec::new();
        let mut i: usize = 0;
        proof {
            assert(out@ + evict_from(s, now, tm, 0) =~= evict_from(s, now, tm, 0));
        }
        while i < len
            invariant
                i <= len,
                len == s.len(),
                tm == self.session_timeout_minutes,
                s == self.contexts@,
                out@ + evict_from(s, now, tm, i as int) == evict_from(s, now, tm, 0),
            decreases len - i,
        {
            if ctx_is_live(&self.contexts[i], now, self.session_timeout_minutes) {
                let c = clone_ctx(&self.contexts[i]);
                let ghost o0 = out@;
                out.push(c);
                proof {
                    assert(o0 + (seq![s[i as int]] + evict_from(s, now, tm, i + 1)) =~= out@
                        + evict_from(s, now, tm, i + 1));
                }
            }
            i = i + 1;
        }
        proof {
            assert(out@ + evict_from(s, now, tm, len as int) =~= out@);
        }
        self.contexts = out;
    }

    /// Create or overwrite the user's context: fresh timestamps, the given
    /// flags.  Stale entries are evicted first.
    pub fn create_or_update_context(
        &mut self,
        user_id: String,
        user_name: String,
        volunteer_intent: bool,
        mentioned_bot: bool,
        now: i64,
    )
        ensures
            final(self).contexts@ == drop_user(
                evicted(old(self).contexts@, now, old(self).session_timeout_minutes),
                user_id@,
            ).push(
                ConversationContext {
                    user_id,
                    user_name,
                    session_start: now,
                    last_activity: now,
                    volunteer_intent,
                    mentioned_bot,
                },
            ),
            final(self).session_timeout_minutes == old(self).session_timeout_minutes,
    {
        self.cleanup_expired_contexts(now);
        let ghost s = self.contexts@;
        let len = self.contexts.len();
        let mut out: Vec<ConversationContext> = Vec::new();
        let mut i: usize = 0;
        proof {
            assert(out@ + drop_user_from(s, user_id@, 0) =~= drop_user_from(s, user_id@, 0));
        }
        while i < len
            invariant
                i <= len,
                len == s.len(),
                s == self.contexts@,
                out@ + drop_user_from(s, user_id@, i as int) == drop_user_from(s, user_id@, 0),
            decreases len - i,
        {
            if !crate::text::str_eq_str(self.contexts[i].user_id.as_str(), user_id.as_str()) {
                let c = clone_ctx(&self.contexts[i]);
                let ghost o0 = out@;
                out.push(c);
                proof {
                    assert(o0 + (seq![s[i as int]] + drop_user_from(s, user_id@, i + 1)) =~= out@
                        + drop_user_from(s, user_id@, i + 1));
                }
            }
            i = i + 1;
        }
        proof {
            assert(out@ + drop_user_from(s, user_id@, len as int) =~= out@);
        }
        out.push(
            ConversationContext {
                user_id,
                user_name,
                session_start: now,
                last_activity: now,
                volunteer_intent,
                mentioned_bot,
            },
        );
        self.contexts = out;
    }

    /// The user's live context, if any.  Stale entries are evicted first.
    pub fn get_active_context(&mut self, user_id: &str, now: i64) -> (r: Option<
        ConversationContext,
    >)
        ensures
            final(self).contexts@ == evicted(
                old(self).contexts@,
                now,
                old(self).session_timeout_minutes,
            ),
            final(self).session_timeout_minutes == old(self).session_timeout_minutes,
            r == active_of(old(self).contexts@, user_id@, now, old(self).session_timeout_minutes),
    {
        self.cleanup_expired_contexts(now);
        let ghost s = self.contexts@;
        let len = self.contexts.len();
        let mut i: usize = 0;
        while i < len
            invariant
                i <= len,
                len == s.len(),
                s == self.contexts@,
                self.contexts@ == evicted(
                    old(self).contexts@,
                    now,
                    old(self).session_timeout_minutes,
                ),
                self.session_timeout_minutes == old(self).session_timeout_minutes,
                find_from(s, user_id@, 0) == find_from(s, user_id@, i as int),
            decreases len - i,
        {
            if crate::text::str_eq_str(self.contexts[i].user_id.as_str(), user_id) {
                return Some(clone_ctx(&self.contexts[i]));
            }
            i = i + 1;
        }
        None
    }

    /// Refresh the user's last activity.  Stale entries are evicted first.
    pub fn update_activity(&mut self, user_id: &str, now: i64)
        ensures
            final(self).contexts@ == refreshed(
                evicted(old(self).contexts@, now, old(self).session_timeout_minutes),
                user_id@,
                now,
            ),
            final(self).session_timeout_minutes == old(self).session_timeout_minutes,
    {
        self.cleanup_expired_contexts(now);
        let ghost s = self.contexts@;
        let len = self.contexts.len();
        let mut out: Vec<ConversationContext> = Vec::new();
        let mut i: usize = 0;
        proof {
            assert(out@ + refresh_from(s, user_id@, now, 0) =~= refresh_from(s, user_id@, now, 0));
        }
        while i < len
            invariant
                i <= len,
                len == s.len(),
                s == self.contexts@,
                out@ + refresh_from(s, user_id@, now, i as int) == refresh_from(
                    s,
                    user_id@,
                    now,
                    0,
                ),
            decreases len - i,
        {
            let c = clone_ctx(&self.contexts[i]);
            let ghost o0 = out@;
            if crate::text::str_eq_str(self.contexts[i].user_id.as_str(), user_id) {
                let c2 = ConversationContext {
                    user_id: c.user_id,
                    user_name: c.user_name,
                    session_start: c.session_start,
                    last_activity: now,
                    volunteer_intent: c.volunteer_intent,
                    mentioned_bot: c.mentioned_bot,
                };
                out.push(c2);
                proof {
                    assert(o0 + (seq![with_activity(s[i as int], now)] + refresh_from(
                        s,
                        user_id@,
                        now,
                        i + 1,
                    )) =~= out@ + refresh_from(s, user_id@, now, i + 1));
                }
            } else {
                out.push(c);
                proof {
                    assert(o0 + (seq![s[i as int]] + refresh_from(s, user_id@, now, i + 1)) =~= out@
                        + refresh_from(s, user_id@, now, i + 1));
                }
            }
            i = i + 1;
        }
        proof {
            assert(out@ + refresh_from(s, user_id@, now, len as int) =~= out@);
        }
        self.contexts = out;
    }

    /// Forget the user's context.  Stale entries are evicted first.
    pub fn clear_context(&mut self, user_id: &str, now: i64)
        ensures
            final(self).contexts@ == drop_user(
                evicted(old(self).contexts@, now, old(self).session_timeout_minutes),
                user_id@,
            ),
            final(self).session_timeout_minutes == old(self).session_timeout_minutes,
    {
        self.cleanup_expired_contexts(now);
        let ghost s = self.contexts@;
        let len = self.contexts.len();
        let mut out: Vec<ConversationContext> = Vec::new();
        let mut i: usize = 0;
        proof {
            assert(out@ + drop_user_from(s, user_id@, 0) =~= drop_user_from(s, user_id@, 0));
        }
        while i < len
            invariant
                i <= len,
                len == s.len(),
                s == self.contexts@,
                out@ + drop_user_from(s, user_id@, i as int) == drop_user_from(s, user_id@, 0),
            decreases len - i,
        {
            if !crate::text::str_eq_str(self.contexts[i].user_id.as_str(), user_id) {
                let c = clone_ctx(&self.contexts[i]);
                let ghost o0 = out@;
                out.push(c);
                proof {
                    assert(o0 + (seq![s[i as int]] + drop_user_from(s, user_id@, i + 1)) =~= out@
                        + drop_user_from(s, user_id@, i + 1));
                }
            }
            i = i + 1;
        }
        proof {
            assert(out@ + drop_user_from(s, user_id@, len as int) =~= out@);
        }
        self.contexts = out;
    }
}

} // verus!
