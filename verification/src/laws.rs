//! General properties of the parser, stated and proved once for all
//! inputs.  Context expiry has its law beside the store, in the context
//! module.

use vstd::prelude::*;
use crate::text::{
    contains_seq, occurs_at, lower_seq, trim_seq, trim_front, trim_back, strip_all,
    join_sp, join_sp_from, is_space_char, lemma_absent_char, lemma_absent_pair,
    lemma_strip_all_absent,
};
use crate::extract::{
    roles_spec, extract_date_idx, weekday_pick, days_ahead, has_snacks_kw, has_livestream_kw,
    has_scoreboard_kw, has_pitchcount_kw,
};
use crate::intent::{
    parse_message_spec, classify_spec, mention_of, IntentView, detect_intent_spec,
    volunteer_intent_spec, game_query_spec, volunteer_query_spec, team_spirit_spec, help_spec,
    conversational_spec,
};
use crate::command::{
    gate, mentioned_in, has_ctx_opt, confidence_spec, negation_marker, translation,
};
use crate::context::ConversationContext;
use crate::models::{Attachment, CommandView};
use crate::dates::{Date, valid_date, day_index, weekday_of};

verus! {

/// A message that neither mentions the bot nor comes from a sender with a
/// live volunteer context is never processed: with `parse_message`'s
/// contract, it yields no command and no error.
pub proof fn lemma_unaddressed_silence(
    bot: Seq<char>,
    text: Seq<char>,
    s: Seq<ConversationContext>,
    tm: i64,
    uid: Option<Seq<char>>,
    now: i64,
)
    requires
        !mentioned_in(bot, text),
        !has_ctx_opt(s, tm, uid, now),
    ensures
        !gate(bot, text, s, tm, uid, now),
{
}

/// No classification translates to silence: every intent yields a command
/// or an error carrying reply text, so with `parse_message`'s contract a
/// gate-passing message — mentioned or a confident continuation — is never
/// ignored, and `Ok(None)` comes exactly from a failed gate.
pub proof fn lemma_translation_never_silent(iv: IntentView)
    ensures
        translation(iv) != Ok::<Option<CommandView>, Seq<char>>(None),
{
}

/// A message that contains the mention token and nothing else once the
/// token is stripped classifies as the help intent, and help translates to
/// the commands overview.
pub proof fn lemma_bare_mention_is_help(
    bot: Seq<char>,
    text: Seq<char>,
    sender: Option<Seq<char>>,
    atts: Seq<Attachment>,
    today: Date,
)
    requires
        contains_seq(lower_seq(trim_seq(text)), mention_of(bot)),
        trim_seq(strip_all(lower_seq(trim_seq(text)), mention_of(bot))).len() == 0,
    ensures
        parse_message_spec(bot, text, sender, atts, today) == Some(IntentView::Help),
        translation(IntentView::Help) == Ok::<Option<CommandView>, Seq<char>>(
            Some(CommandView::Commands),
        ),
{
}

/// The rank of a canonical role in the fixed family-check order.
pub open spec fn role_rank(r: Seq<char>) -> int {
    if r == "snacks"@ {
        0int
    } else if r == "livestream"@ {
        1int
    } else if r == "scoreboard"@ {
        2int
    } else {
        3int
    }
}

/// Role extraction is order-preserving and duplicate-free: the extracted
/// roles appear in strictly increasing family-check order (snacks,
/// livestream, scoreboard, pitchcount), never reordered or repeated.
/// Idempotence is immediate: the extractor is a pure function of the text.
pub proof fn lemma_roles_canonical_order(t: Seq<char>)
    ensures
        forall|i: int, j: int|
            0 <= i < j < roles_spec(t).len() ==> role_rank(#[trigger] roles_spec(t)[i]) < role_rank(
                #[trigger] roles_spec(t)[j],
            ),
        forall|i: int, j: int|
            0 <= i < j < roles_spec(t).len() ==> #[trigger] roles_spec(t)[i] != #[trigger] roles_spec(
                t,
            )[j],
{
    reveal_strlit("snacks");
    reveal_strlit("livestream");
    reveal_strlit("scoreboard");
    reveal_strlit("pitchcount");
    assert("snacks"@.len() == 6);
    assert("livestream"@.len() == 10);
    assert("scoreboard"@.len() == 10);
    assert("pitchcount"@.len() == 10);
    assert("livestream"@[0] == 'l');
    assert("scoreboard"@[0] == 's');
    assert("pitchcount"@[0] == 'p');
    assert("snacks"@ != "livestream"@);
    assert("snacks"@ != "scoreboard"@);
    assert("snacks"@ != "pitchcount"@);
    assert("livestream"@ != "scoreboard"@);
    assert("livestream"@ != "pitchcount"@);
    assert("scoreboard"@ != "pitchcount"@);
    let r = roles_spec(t);
    assert forall|i: int, j: int| 0 <= i < j < r.len() implies role_rank(#[trigger] r[i])
        < role_rank(#[trigger] r[j]) by {
        assert(role_rank("snacks"@) == 0);
        assert(role_rank("livestream"@) == 1);
        assert(role_rank("scoreboard"@) == 2);
        assert(role_rank("pitchcount"@) == 3);
    }
}

#[verifier::rlimit(100)]
proof fn lemma_tomorrow_in_itself()
    ensures
        contains_seq("tomorrow"@, "tomorrow"@),
{
    reveal_strlit("tomorrow");
    let t = "tomorrow"@;
    assert(t.subrange(0, t.len() as int) =~= t);
    assert(occurs_at(t, t, 0));
}

#[verifier::rlimit(100)]
proof fn lemma_tomorrow_without_today()
    ensures
        !contains_seq("tomorrow"@, "today"@),
{
    reveal_strlit("tomorrow");
    reveal_strlit("today");
    let t = "tomorrow"@;
    let d = "today"@;
    assert(t.len() == 8);
    assert(d.len() == 5);
    assert(d[2] == 'd');
    assert(t[2] == 'm' && t[3] == 'o' && t[4] == 'r' && t[5] == 'r');
    assert forall|i: int| !occurs_at(t, d, i) by {
        if 0 <= i && i + 5 <= 8 {
            assert(t.subrange(i, i + 5)[2] == t[i + 2]);
            assert(t[i + 2] != 'd');
        }
    }
}

/// "tomorrow" names the day after `today`: the word does not contain
/// "today", so the tomorrow rule fires.
pub proof fn lemma_tomorrow_is_next_day(today: Date)
    ensures
        extract_date_idx("tomorrow"@, today) == Some(day_index(today) + 1),
{
    lemma_tomorrow_in_itself();
    lemma_tomorrow_without_today();
}

/// With "next" beside a weekday name, the extracted date lies a full week
/// beyond that weekday's next occurrence: strictly more than six days
/// ahead of the same-week day.
pub proof fn lemma_next_weekday_adds_a_week(t: Seq<char>, today: Date)
    requires
        valid_date(today),
        !contains_seq(t, "today"@),
        !contains_seq(t, "tomorrow"@),
        weekday_pick(t) is Some,
        contains_seq(t, "next"@),
    ensures
        ({
            let w = weekday_pick(t)->Some_0;
            let base = days_ahead(w, weekday_of(today), false);
            &&& 1 <= base <= 7
            &&& extract_date_idx(t, today) == Some(day_index(today) + base + 7)
        }),
{
    assert(day_index(today) >= 0);
    assert(0 <= weekday_of(today) < 7) by {
        assert(day_index(today) % 7 == weekday_of(today));
    }
}


// ---------------------------------------------------------------------------
// Idempotence of role extraction
// ---------------------------------------------------------------------------

#[verifier::rlimit(100)]
proof fn lemma_roles_flags_tttt()
    ensures
        has_snacks_kw("snacks livestream scoreboard pitchcount"@) == true,
        has_livestream_kw("snacks livestream scoreboard pitchcount"@) == true,
        has_scoreboard_kw("snacks livestream scoreboard pitchcount"@) == true,
        has_pitchcount_kw("snacks livestream scoreboard pitchcount"@) == true,
{
    let t = "snacks livestream scoreboard pitchcount"@;
    reveal_strlit("snacks livestream scoreboard pitchcount");
    assert(t.len() == 39);
    reveal_strlit("snacks");
    assert(t.subrange(0, 6) =~= "snacks"@);
    assert(occurs_at(t, "snacks"@, 0));
    reveal_strlit("livestream");
    assert(t.subrange(7, 17) =~= "livestream"@);
    assert(occurs_at(t, "livestream"@, 7));
    reveal_strlit("scoreboard");
    assert(t.subrange(18, 28) =~= "scoreboard"@);
    assert(occurs_at(t, "scoreboard"@, 18));
    reveal_strlit("pitchcount");
    assert(t.subrange(29, 39) =~= "pitchcount"@);
    assert(occurs_at(t, "pitchcount"@, 29));
}

#[verifier::rlimit(100)]
proof fn lemma_roles_flags_tttf()
    ensures
        has_snacks_kw("snacks livestream scoreboard"@) == true,
        has_livestream_kw("snacks livestream scoreboard"@) == true,
        has_scoreboard_kw("snacks livestream scoreboard"@) == true,
        has_pitchcount_kw("snacks livestream scoreboard"@) == false,
{
    let t = "snacks livestream scoreboard"@;
    reveal_strlit("snacks livestream scoreboard");
    assert(t.len() == 28);
    reveal_strlit("snacks");
    assert(t.subrange(0, 6) =~= "snacks"@);
    assert(occurs_at(t, "snacks"@, 0));
    reveal_strlit("livestream");
    assert(t.subrange(7, 17) =~= "livestream"@);
    assert(occurs_at(t, "livestream"@, 7));
    reveal_strlit("scoreboard");
    assert(t.subrange(18, 28) =~= "scoreboard"@);
    assert(occurs_at(t, "scoreboard"@, 18));
    assert(forall|i: int| 0 <= i < t.len() ==> #[trigger] t[i] != 'p');
    reveal_strlit("pitchcount");
    lemma_absent_char(t, "pitchcount"@, 0, 'p');
    reveal_strlit("pitch count");
    lemma_absent_char(t, "pitch count"@, 0, 'p');
    reveal_strlit("pitch");
    lemma_absent_char(t, "pitch"@, 0, 'p');
    reveal_strlit("pitches");
    lemma_absent_char(t, "pitches"@, 0, 'p');
}

#[verifier::rlimit(100)]
proof fn lemma_roles_flags_ttft()
    ensures
        has_snacks_kw("snacks livestream pitchcount"@) == true,
        has_livestream_kw("snacks livestream pitchcount"@) == true,
        has_scoreboard_kw("snacks livestream pitchcount"@) == false,
        has_pitchcount_kw("snacks livestream pitchcount"@) == true,
{
    let t = "snacks livestream pitchcount"@;
    reveal_strlit("snacks livestream pitchcount");
    assert(t.len() == 28);
    reveal_strlit("snacks");
    assert(t.subrange(0, 6) =~= "snacks"@);
    assert(occurs_at(t, "snacks"@, 0));
    reveal_strlit("livestream");
    assert(t.subrange(7, 17) =~= "livestream"@);
    assert(occurs_at(t, "livestream"@, 7));
    reveal_strlit("pitchcount");
    assert(t.subrange(18, 28) =~= "pitchcount"@);
    assert(occurs_at(t, "pitchcount"@, 18));
    assert(forall|i: int| 0 <= i < t.len() ==> #[trigger] t[i] != 'b');
    assert(forall|i: int| 0 <= i < t.len() ==> #[trigger] t[i] != 'g');
    assert(forall|i: int|
        0 <= i < t.len() - 1 ==> !((#[trigger] t[i]) == 's' && t[i + 1] == 'c'));
    reveal_strlit("scoreboard");
    lemma_absent_char(t, "scoreboard"@, 5, 'b');
    reveal_strlit("score");
    lemma_absent_pair(t, "score"@, 0, 's', 'c');
    reveal_strlit("scoring");
    lemma_absent_char(t, "scoring"@, 6, 'g');
    reveal_strlit("gamechanger");
    lemma_absent_char(t, "gamechanger"@, 0, 'g');
    reveal_strlit("game changer");
    lemma_absent_char(t, "game changer"@, 0, 'g');
}

#[verifier::rlimit(100)]
proof fn lemma_roles_flags_ttff()
    ensures
        has_snacks_kw("snacks livestream"@) == true,
        has_livestream_kw("snacks livestream"@) == true,
        has_scoreboard_kw("snacks livestream"@) == false,
        has_pitchcount_kw("snacks livestream"@) == false,
{
    let t = "snacks livestream"@;
    reveal_strlit("snacks livestream");
    assert(t.len() == 17);
    reveal_strlit("snacks");
    assert(t.subrange(0, 6) =~= "snacks"@);
    assert(occurs_at(t, "snacks"@, 0));
    reveal_strlit("livestream");
    assert(t.subrange(7, 17) =~= "livestream"@);
    assert(occurs_at(t, "livestream"@, 7));
    assert(forall|i: int| 0 <= i < t.len() ==> #[trigger] t[i] != 'b');
    assert(forall|i: int| 0 <= i < t.len() ==> #[trigger] t[i] != 'g');
    assert(forall|i: int| 0 <= i < t.len() ==> #[trigger] t[i] != 'p');
    assert(forall|i: int|
        0 <= i < t.len() - 1 ==> !((#[trigger] t[i]) == 's' && t[i + 1] == 'c'));
    reveal_strlit("scoreboard");
    lemma_absent_char(t, "scoreboard"@, 5, 'b');
    reveal_strlit("score");
    lemma_absent_pair(t, "score"@, 0, 's', 'c');
    reveal_strlit("scoring");
    lemma_absent_char(t, "scoring"@, 6, 'g');
    reveal_strlit("gamechanger");
    lemma_absent_char(t, "gamechanger"@, 0, 'g');
    reveal_strlit("game changer");
    lemma_absent_char(t, "game changer"@, 0, 'g');
    reveal_strlit("pitchcount");
    lemma_absent_char(t, "pitchcount"@, 0, 'p');
    reveal_strlit("pitch count");
    lemma_absent_char(t, "pitch count"@, 0, 'p');
    reveal_strlit("pitch");
    lemma_absent_char(t, "pitch"@, 0, 'p');
    reveal_strlit("pitches");
    lemma_absent_char(t, "pitches"@, 0, 'p');
}

#[verifier::rlimit(100)]
proof fn lemma_roles_flags_tftt()
    ensures
        has_snacks_kw("snacks scoreboard pitchcount"@) == true,
        has_livestream_kw("snacks scoreboard pitchcount"@) == false,
        has_scoreboard_kw("snacks scoreboard pitchcount"@) == true,
        has_pitchcount_kw("snacks scoreboard pitchcount"@) == true,
{
    let t = "snacks scoreboard pitchcount"@;
    reveal_strlit("snacks scoreboard pitchcount");
    assert(t.len() == 28);
    reveal_strlit("snacks");
    assert(t.subrange(0, 6) =~= "snacks"@);
    assert(occurs_at(t, "snacks"@, 0));
    reveal_strlit("scoreboard");
    assert(t.subrange(7, 17) =~= "scoreboard"@);
    assert(occurs_at(t, "scoreboard"@, 7));
    reveal_strlit("pitchcount");
    assert(t.subrange(18, 28) =~= "pitchcount"@);
    assert(occurs_at(t, "pitchcount"@, 18));
    assert(forall|i: int| 0 <= i < t.len() ==> #[trigger] t[i] != 'g');
    assert(forall|i: int| 0 <= i < t.len() ==> #[trigger] t[i] != 'v');
    assert(forall|i: int|
        0 <= i < t.len() - 1 ==> !((#[trigger] t[i]) == 's' && t[i + 1] == 't'));
    reveal_strlit("livestream");
    lemma_absent_char(t, "livestream"@, 2, 'v');
    reveal_strlit("stream");
    lemma_absent_pair(t, "stream"@, 0, 's', 't');
    reveal_strlit("streaming");
    lemma_absent_char(t, "streaming"@, 8, 'g');
    reveal_strlit("live");
    lemma_absent_char(t, "live"@, 2, 'v');
}

#[verifier::rlimit(100)]
proof fn lemma_roles_flags_tftf()
    ensures
        has_snacks_kw("snacks scoreboard"@) == true,
        has_livestream_kw("snacks scoreboard"@) == false,
        has_scoreboard_kw("snacks scoreboard"@) == true,
        has_pitchcount_kw("snacks scoreboard"@) == false,
{
    let t = "snacks scoreboard"@;
    reveal_strlit("snacks scoreboard");
    assert(t.len() == 17);
    reveal_strlit("snacks");
    assert(t.subrange(0, 6) =~= "snacks"@);
    assert(occurs_at(t, "snacks"@, 0));
    reveal_strlit("scoreboard");
    assert(t.subrange(7, 17) =~= "scoreboard"@);
    assert(occurs_at(t, "scoreboard"@, 7));
    assert(forall|i: int| 0 <= i < t.len() ==> #[trigger] t[i] != 'g');
    assert(forall|i: int| 0 <= i < t.len() ==> #[trigger] t[i] != 'p');
    assert(forall|i: int| 0 <= i < t.len() ==> #[trigger] t[i] != 'v');
    assert(forall|i: int|
        0 <= i < t.len() - 1 ==> !((#[trigger] t[i]) == 's' && t[i + 1] == 't'));
    reveal_strlit("livestream");
    lemma_absent_char(t, "livestream"@, 2, 'v');
    reveal_strlit("stream");
    lemma_absent_pair(t, "stream"@, 0, 's', 't');
    reveal_strlit("streaming");
    lemma_absent_char(t, "streaming"@, 8, 'g');
    reveal_strlit("live");
    lemma_absent_char(t, "live"@, 2, 'v');
    reveal_strlit("pitchcount");
    lemma_absent_char(t, "pitchcount"@, 0, 'p');
    reveal_strlit("pitch count");
    lemma_absent_char(t, "pitch count"@, 0, 'p');
    reveal_strlit("pitch");
    lemma_absent_char(t, "pitch"@, 0, 'p');
    reveal_strlit("pitches");
    lemma_absent_char(t, "pitches"@, 0, 'p');
}

#[verifier::rlimit(100)]
proof fn lemma_roles_flags_tfft()
    ensures
        has_snacks_kw("snacks pitchcount"@) == true,
        has_livestream_kw("snacks pitchcount"@) == false,
        has_scoreboard_kw("snacks pitchcount"@) == false,
        has_pitchcount_kw("snacks pitchcount"@) == true,
{
    let t = "snacks pitchcount"@;
    reveal_strlit("snacks pitchcount");
    assert(t.len() == 17);
    reveal_strlit("snacks");
    assert(t.subrange(0, 6) =~= "snacks"@);
    assert(occurs_at(t, "snacks"@, 0));
    reveal_strlit("pitchcount");
    assert(t.subrange(7, 17) =~= "pitchcount"@);
    assert(occurs_at(t, "pitchcount"@, 7));
    assert(forall|i: int| 0 <= i < t.len() ==> #[trigger] t[i] != 'b');
    assert(forall|i: int| 0 <= i < t.len() ==> #[trigger] t[i] != 'g');
    assert(forall|i: int| 0 <= i < t.len() ==> #[trigger] t[i] != 'v');
    assert(forall|i: int|
        0 <= i < t.len() - 1 ==> !((#[trigger] t[i]) == 's' && t[i + 1] == 'c'));
    assert(forall|i: int|
        0 <= i < t.len() - 1 ==> !((#[trigger] t[i]) == 's' && t[i + 1] == 't'));
    reveal_strlit("livestream");
    lemma_absent_char(t, "livestream"@, 2, 'v');
    reveal_strlit("stream");
    lemma_absent_pair(t, "stream"@, 0, 's', 't');
    reveal_strlit("streaming");
    lemma_absent_char(t, "streaming"@, 8, 'g');
    reveal_strlit("live");
    lemma_absent_char(t, "live"@, 2, 'v');
    reveal_strlit("scoreboard");
    lemma_absent_char(t, "scoreboard"@, 5, 'b');
    reveal_strlit("score");
    lemma_absent_pair(t, "score"@, 0, 's', 'c');
    reveal_strlit("scoring");
    lemma_absent_char(t, "scoring"@, 6, 'g');
    reveal_strlit("gamechanger");
    lemma_absent_char(t, "gamechanger"@, 0, 'g');
    reveal_strlit("game changer");
    lemma_absent_char(t, "game changer"@, 0, 'g');
}

#[verifier::rlimit(100)]
proof fn lemma_roles_flags_tfff()
    ensures
        has_snacks_kw("snacks"@) == true,
        has_livestream_kw("snacks"@) == false,
        has_scoreboard_kw("snacks"@) == false,
        has_pitchcount_kw("snacks"@) == false,
{
    let t = "snacks"@;
    reveal_strlit("snacks");
    assert(t.len() == 6);
    reveal_strlit("snacks");
    assert(t.subrange(0, 6) =~= "snacks"@);
    assert(occurs_at(t, "snacks"@, 0));
    assert(forall|i: int| 0 <= i < t.len() ==> #[trigger] t[i] != 'b');
    assert(forall|i: int| 0 <= i < t.len() ==> #[trigger] t[i] != 'g');
    assert(forall|i: int| 0 <= i < t.len() ==> #[trigger] t[i] != 'p');
    assert(forall|i: int| 0 <= i < t.len() ==> #[trigger] t[i] != 'v');
    assert(forall|i: int|
        0 <= i < t.len() - 1 ==> !((#[trigger] t[i]) == 's' && t[i + 1] == 'c'));
    assert(forall|i: int|
        0 <= i < t.len() - 1 ==> !((#[trigger] t[i]) == 's' && t[i + 1] == 't'));
    reveal_strlit("livestream");
    lemma_absent_char(t, "livestream"@, 2, 'v');
    reveal_strlit("stream");
    lemma_absent_pair(t, "stream"@, 0, 's', 't');
    reveal_strlit("streaming");
    lemma_absent_char(t, "streaming"@, 8, 'g');
    reveal_strlit("live");
    lemma_absent_char(t, "live"@, 2, 'v');
    reveal_strlit("scoreboard");
    lemma_absent_char(t, "scoreboard"@, 5, 'b');
    reveal_strlit("score");
    lemma_absent_pair(t, "score"@, 0, 's', 'c');
    reveal_strlit("scoring");
    lemma_absent_char(t, "scoring"@, 6, 'g');
    reveal_strlit("gamechanger");
    lemma_absent_char(t, "gamechanger"@, 0, 'g');
    reveal_strlit("game changer");
    lemma_absent_char(t, "game changer"@, 0, 'g');
    reveal_strlit("pitchcount");
    lemma_absent_char(t, "pitchcount"@, 0, 'p');
    reveal_strlit("pitch count");
    lemma_absent_char(t, "pitch count"@, 0, 'p');
    reveal_strlit("pitch");
    lemma_absent_char(t, "pitch"@, 0, 'p');
    reveal_strlit("pitches");
    lemma_absent_char(t, "pitches"@, 0, 'p');
}

#[verifier::rlimit(100)]
proof fn lemma_roles_flags_fttt()
    ensures
        has_snacks_kw("livestream scoreboard pitchcount"@) == false,
        has_livestream_kw("livestream scoreboard pitchcount"@) == true,
        has_scoreboard_kw("livestream scoreboard pitchcount"@) == true,
        has_pitchcount_kw("livestream scoreboard pitchcount"@) == true,
{
    let t = "livestream scoreboard pitchcount"@;
    reveal_strlit("livestream scoreboard pitchcount");
    assert(t.len() == 32);
    reveal_strlit("livestream");
    assert(t.subrange(0, 10) =~= "livestream"@);
    assert(occurs_at(t, "livestream"@, 0));
    reveal_strlit("scoreboard");
    assert(t.subrange(11, 21) =~= "scoreboard"@);
    assert(occurs_at(t, "scoreboard"@, 11));
    reveal_strlit("pitchcount");
    assert(t.subrange(22, 32) =~= "pitchcount"@);
    assert(occurs_at(t, "pitchcount"@, 22));
    assert(forall|i: int| 0 <= i < t.len() ==> #[trigger] t[i] != 'f');
    assert(forall|i: int| 0 <= i < t.len() ==> #[trigger] t[i] != 'k');
    assert(forall|i: int|
        0 <= i < t.len() - 1 ==> !((#[trigger] t[i]) == 'a' && t[i + 1] == 't'));
    reveal_strlit("snacks");
    lemma_absent_char(t, "snacks"@, 4, 'k');
    reveal_strlit("snack");
    lemma_absent_char(t, "snack"@, 4, 'k');
    reveal_strlit("food");
    lemma_absent_char(t, "food"@, 0, 'f');
    reveal_strlit("treats");
    lemma_absent_pair(t, "treats"@, 3, 'a', 't');
}

#[verifier::rlimit(100)]
proof fn lemma_roles_flags_fttf()
    ensures
        has_snacks_kw("livestream scoreboard"@) == false,
        has_livestream_kw("livestream scoreboard"@) == true,
        has_scoreboard_kw("livestream scoreboard"@) == true,
        has_pitchcount_kw("livestream scoreboard"@) == false,
{
    let t = "livestream scoreboard"@;
    reveal_strlit("livestream scoreboard");
    assert(t.len() == 21);
    reveal_strlit("livestream");
    assert(t.subrange(0, 10) =~= "livestream"@);
    assert(occurs_at(t, "livestream"@, 0));
    reveal_strlit("scoreboard");
    assert(t.subrange(11, 21) =~= "scoreboard"@);
    assert(occurs_at(t, "scoreboard"@, 11));
    assert(forall|i: int| 0 <= i < t.len() ==> #[trigger] t[i] != 'f');
    assert(forall|i: int| 0 <= i < t.len() ==> #[trigger] t[i] != 'k');
    assert(forall|i: int| 0 <= i < t.len() ==> #[trigger] t[i] != 'p');
    assert(forall|i: int|
        0 <= i < t.len() - 1 ==> !((#[trigger] t[i]) == 'a' && t[i + 1] == 't'));
    reveal_strlit("snacks");
    lemma_absent_char(t, "snacks"@, 4, 'k');
    reveal_strlit("snack");
    lemma_absent_char(t, "snack"@, 4, 'k');
    reveal_strlit("food");
    lemma_absent_char(t, "food"@, 0, 'f');
    reveal_strlit("treats");
    lemma_absent_pair(t, "treats"@, 3, 'a', 't');
    reveal_strlit("pitchcount");
    lemma_absent_char(t, "pitchcount"@, 0, 'p');
    reveal_strlit("pitch count");
    lemma_absent_char(t, "pitch count"@, 0, 'p');
    reveal_strlit("pitch");
    lemma_absent_char(t, "pitch"@, 0, 'p');
    reveal_strlit("pitches");
    lemma_absent_char(t, "pitches"@, 0, 'p');
}

#[verifier::rlimit(100)]
proof fn lemma_roles_flags_ftft()
    ensures
        has_snacks_kw("livestream pitchcount"@) == false,
        has_livestream_kw("livestream pitchcount"@) == true,
        has_scoreboard_kw("livestream pitchcount"@) == false,
        has_pitchcount_kw("livestream pitchcount"@) == true,
{
    let t = "livestream pitchcount"@;
    reveal_strlit("livestream pitchcount");
    assert(t.len() == 21);
    reveal_strlit("livestream");
    assert(t.subrange(0, 10) =~= "livestream"@);
    assert(occurs_at(t, "livestream"@, 0));
    reveal_strlit("pitchcount");
    assert(t.subrange(11, 21) =~= "pitchcount"@);
    assert(occurs_at(t, "pitchcount"@, 11));
    assert(forall|i: int| 0 <= i < t.len() ==> #[trigger] t[i] != 'b');
    assert(forall|i: int| 0 <= i < t.len() ==> #[trigger] t[i] != 'f');
    assert(forall|i: int| 0 <= i < t.len() ==> #[trigger] t[i] != 'g');
    assert(forall|i: int| 0 <= i < t.len() ==> #[trigger] t[i] != 'k');
    assert(forall|i: int|
        0 <= i < t.len() - 1 ==> !((#[trigger] t[i]) == 'a' && t[i + 1] == 't'));
    assert(forall|i: int|
        0 <= i < t.len() - 1 ==> !((#[trigger] t[i]) == 's' && t[i + 1] == 'c'));
    reveal_strlit("snacks");
    lemma_absent_char(t, "snacks"@, 4, 'k');
    reveal_strlit("snack");
    lemma_absent_char(t, "snack"@, 4, 'k');
    reveal_strlit("food");
    lemma_absent_char(t, "food"@, 0, 'f');
    reveal_strlit("treats");
    lemma_absent_pair(t, "treats"@, 3, 'a', 't');
    reveal_strlit("scoreboard");
    lemma_absent_char(t, "scoreboard"@, 5, 'b');
    reveal_strlit("score");
    lemma_absent_pair(t, "score"@, 0, 's', 'c');
    reveal_strlit("scoring");
    lemma_absent_char(t, "scoring"@, 6, 'g');
    reveal_strlit("gamechanger");
    lemma_absent_char(t, "gamechanger"@, 0, 'g');
    reveal_strlit("game changer");
    lemma_absent_char(t, "game changer"@, 0, 'g');
}

#[verifier::rlimit(100)]
proof fn lemma_roles_flags_ftff()
    ensures
        has_snacks_kw("livestream"@) == false,
        has_livestream_kw("livestream"@) == true,
        has_scoreboard_kw("livestream"@) == false,
        has_pitchcount_kw("livestream"@) == false,
{
    let t = "livestream"@;
    reveal_strlit("livestream");
    assert(t.len() == 10);
    reveal_strlit("livestream");
    assert(t.subrange(0, 10) =~= "livestream"@);
    assert(occurs_at(t, "livestream"@, 0));
    assert(forall|i: int| 0 <= i < t.len() ==> #[trigger] t[i] != 'b');
    assert(forall|i: int| 0 <= i < t.len() ==> #[trigger] t[i] != 'f');
    assert(forall|i: int| 0 <= i < t.len() ==> #[trigger] t[i] != 'g');
    assert(forall|i: int| 0 <= i < t.len() ==> #[trigger] t[i] != 'k');
    assert(forall|i: int| 0 <= i < t.len() ==> #[trigger] t[i] != 'p');
    assert(forall|i: int|
        0 <= i < t.len() - 1 ==> !((#[trigger] t[i]) == 'a' && t[i + 1] == 't'));
    assert(forall|i: int|
        0 <= i < t.len() - 1 ==> !((#[trigger] t[i]) == 's' && t[i + 1] == 'c'));
    reveal_strlit("snacks");
    lemma_absent_char(t, "snacks"@, 4, 'k');
    reveal_strlit("snack");
    lemma_absent_char(t, "snack"@, 4, 'k');
    reveal_strlit("food");
    lemma_absent_char(t, "food"@, 0, 'f');
    reveal_strlit("treats");
    lemma_absent_pair(t, "treats"@, 3, 'a', 't');
    reveal_strlit("scoreboard");
    lemma_absent_char(t, "scoreboard"@, 5, 'b');
    reveal_strlit("score");
    lemma_absent_pair(t, "score"@, 0, 's', 'c');
    reveal_strlit("scoring");
    lemma_absent_char(t, "scoring"@, 6, 'g');
    reveal_strlit("gamechanger");
    lemma_absent_char(t, "gamechanger"@, 0, 'g');
    reveal_strlit("game changer");
    lemma_absent_char(t, "game changer"@, 0, 'g');
    reveal_strlit("pitchcount");
    lemma_absent_char(t, "pitchcount"@, 0, 'p');
    reveal_strlit("pitch count");
    lemma_absent_char(t, "pitch count"@, 0, 'p');
    reveal_strlit("pitch");
    lemma_absent_char(t, "pitch"@, 0, 'p');
    reveal_strlit("pitches");
    lemma_absent_char(t, "pitches"@, 0, 'p');
}

#[verifier::rlimit(100)]
proof fn lemma_roles_flags_fftt()
    ensures
        has_snacks_kw("scoreboard pitchcount"@) == false,
        has_livestream_kw("scoreboard pitchcount"@) == false,
        has_scoreboard_kw("scoreboard pitchcount"@) == true,
        has_pitchcount_kw("scoreboard pitchcount"@) == true,
{
    let t = "scoreboard pitchcount"@;
    reveal_strlit("scoreboard pitchcount");
    assert(t.len() == 21);
    reveal_strlit("scoreboard");
    assert(t.subrange(0, 10) =~= "scoreboard"@);
    assert(occurs_at(t, "scoreboard"@, 0));
    reveal_strlit("pitchcount");
    assert(t.subrange(11, 21) =~= "pitchcount"@);
    assert(occurs_at(t, "pitchcount"@, 11));
    assert(forall|i: int| 0 <= i < t.len() ==> #[trigger] t[i] != 'f');
    assert(forall|i: int| 0 <= i < t.len() ==> #[trigger] t[i] != 'g');
    assert(forall|i: int| 0 <= i < t.len() ==> #[trigger] t[i] != 'k');
    assert(forall|i: int| 0 <= i < t.len() ==> #[trigger] t[i] != 'v');
    assert(forall|i: int|
        0 <= i < t.len() - 1 ==> !((#[trigger] t[i]) == 'a' && t[i + 1] == 't'));
    assert(forall|i: int|
        0 <= i < t.len() - 1 ==> !((#[trigger] t[i]) == 's' && t[i + 1] == 't'));
    reveal_strlit("snacks");
    lemma_absent_char(t, "snacks"@, 4, 'k');
    reveal_strlit("snack");
    lemma_absent_char(t, "snack"@, 4, 'k');
    reveal_strlit("food");
    lemma_absent_char(t, "food"@, 0, 'f');
    reveal_strlit("treats");
    lemma_absent_pair(t, "treats"@, 3, 'a', 't');
    reveal_strlit("livestream");
    lemma_absent_char(t, "livestream"@, 2, 'v');
    reveal_strlit("stream");
    lemma_absent_pair(t, "stream"@, 0, 's', 't');
    reveal_strlit("streaming");
    lemma_absent_char(t, "streaming"@, 8, 'g');
    reveal_strlit("live");
    lemma_absent_char(t, "live"@, 2, 'v');
}

#[verifier::rlimit(100)]
proof fn lemma_roles_flags_fftf()
    ensures
        has_snacks_kw("scoreboard"@) == false,
        has_livestream_kw("scoreboard"@) == false,
        has_scoreboard_kw("scoreboard"@) == true,
        has_pitchcount_kw("scoreboard"@) == false,
{
    let t = "scoreboard"@;
    reveal_strlit("scoreboard");
    assert(t.len() == 10);
    reveal_strlit("scoreboard");
    assert(t.subrange(0, 10) =~= "scoreboard"@);
    assert(occurs_at(t, "scoreboard"@, 0));
    assert(forall|i: int| 0 <= i < t.len() ==> #[trigger] t[i] != 'f');
    assert(forall|i: int| 0 <= i < t.len() ==> #[trigger] t[i] != 'g');
    assert(forall|i: int| 0 <= i < t.len() ==> #[trigger] t[i] != 'k');
    assert(forall|i: int| 0 <= i < t.len() ==> #[trigger] t[i] != 'p');
    assert(forall|i: int| 0 <= i < t.len() ==> #[trigger] t[i] != 'v');
    assert(forall|i: int|
        0 <= i < t.len() - 1 ==> !((#[trigger] t[i]) == 'a' && t[i + 1] == 't'));
    assert(forall|i: int|
        0 <= i < t.len() - 1 ==> !((#[trigger] t[i]) == 's' && t[i + 1] == 't'));
    reveal_strlit("snacks");
    lemma_absent_char(t, "snacks"@, 4, 'k');
    reveal_strlit("snack");
    lemma_absent_char(t, "snack"@, 4, 'k');
    reveal_strlit("food");
    lemma_absent_char(t, "food"@, 0, 'f');
    reveal_strlit("treats");
    lemma_absent_pair(t, "treats"@, 3, 'a', 't');
    reveal_strlit("livestream");
    lemma_absent_char(t, "livestream"@, 2, 'v');
    reveal_strlit("stream");
    lemma_absent_pair(t, "stream"@, 0, 's', 't');
    reveal_strlit("streaming");
    lemma_absent_char(t, "streaming"@, 8, 'g');
    reveal_strlit("live");
    lemma_absent_char(t, "live"@, 2, 'v');
    reveal_strlit("pitchcount");
    lemma_absent_char(t, "pitchcount"@, 0, 'p');
    reveal_strlit("pitch count");
    lemma_absent_char(t, "pitch count"@, 0, 'p');
    reveal_strlit("pitch");
    lemma_absent_char(t, "pitch"@, 0, 'p');
    reveal_strlit("pitches");
    lemma_absent_char(t, "pitches"@, 0, 'p');
}

#[verifier::rlimit(100)]
proof fn lemma_roles_flags_ffft()
    ensures
        has_snacks_kw("pitchcount"@) == false,
        has_livestream_kw("pitchcount"@) == false,
        has_scoreboard_kw("pitchcount"@) == false,
        has_pitchcount_kw("pitchcount"@) == true,
{
    let t = "pitchcount"@;
    reveal_strlit("pitchcount");
    assert(t.len() == 10);
    reveal_strlit("pitchcount");
    assert(t.subrange(0, 10) =~= "pitchcount"@);
    assert(occurs_at(t, "pitchcount"@, 0));
    assert(forall|i: int| 0 <= i < t.len() ==> #[trigger] t[i] != 'b');
    assert(forall|i: int| 0 <= i < t.len() ==> #[trigger] t[i] != 'f');
    assert(forall|i: int| 0 <= i < t.len() ==> #[trigger] t[i] != 'g');
    assert(forall|i: int| 0 <= i < t.len() ==> #[trigger] t[i] != 'k');
    assert(forall|i: int| 0 <= i < t.len() ==> #[trigger] t[i] != 'v');
    assert(forall|i: int|
        0 <= i < t.len() - 1 ==> !((#[trigger] t[i]) == 'a' && t[i + 1] == 't'));
    assert(forall|i: int|
        0 <= i < t.len() - 1 ==> !((#[trigger] t[i]) == 's' && t[i + 1] == 'c'));
    assert(forall|i: int|
        0 <= i < t.len() - 1 ==> !((#[trigger] t[i]) == 's' && t[i + 1] == 't'));
    reveal_strlit("snacks");
    lemma_absent_char(t, "snacks"@, 4, 'k');
    reveal_strlit("snack");
    lemma_absent_char(t, "snack"@, 4, 'k');
    reveal_strlit("food");
    lemma_absent_char(t, "food"@, 0, 'f');
    reveal_strlit("treats");
    lemma_absent_pair(t, "treats"@, 3, 'a', 't');
    reveal_strlit("livestream");
    lemma_absent_char(t, "livestream"@, 2, 'v');
    reveal_strlit("stream");
    lemma_absent_pair(t, "stream"@, 0, 's', 't');
    reveal_strlit("streaming");
    lemma_absent_char(t, "streaming"@, 8, 'g');
    reveal_strlit("live");
    lemma_absent_char(t, "live"@, 2, 'v');
    reveal_strlit("scoreboard");
    lemma_absent_char(t, "scoreboard"@, 5, 'b');
    reveal_strlit("score");
    lemma_absent_pair(t, "score"@, 0, 's', 'c');
    reveal_strlit("scoring");
    lemma_absent_char(t, "scoring"@, 6, 'g');
    reveal_strlit("gamechanger");
    lemma_absent_char(t, "gamechanger"@, 0, 'g');
    reveal_strlit("game changer");
    lemma_absent_char(t, "game changer"@, 0, 'g');
}

#[verifier::rlimit(100)]
proof fn lemma_roles_flags_ffff()
    ensures
        has_snacks_kw(""@) == false,
        has_livestream_kw(""@) == false,
        has_scoreboard_kw(""@) == false,
        has_pitchcount_kw(""@) == false,
{
    let t = ""@;
    reveal_strlit("");
    assert(t.len() == 0);
    assert(forall|i: int| 0 <= i < t.len() ==> #[trigger] t[i] != 'b');
    assert(forall|i: int| 0 <= i < t.len() ==> #[trigger] t[i] != 'f');
    assert(forall|i: int| 0 <= i < t.len() ==> #[trigger] t[i] != 'g');
    assert(forall|i: int| 0 <= i < t.len() ==> #[trigger] t[i] != 'k');
    assert(forall|i: int| 0 <= i < t.len() ==> #[trigger] t[i] != 'p');
    assert(forall|i: int| 0 <= i < t.len() ==> #[trigger] t[i] != 'v');
    assert(forall|i: int|
        0 <= i < t.len() - 1 ==> !((#[trigger] t[i]) == 'a' && t[i + 1] == 't'));
    assert(forall|i: int|
        0 <= i < t.len() - 1 ==> !((#[trigger] t[i]) == 's' && t[i + 1] == 'c'));
    assert(forall|i: int|
        0 <= i < t.len() - 1 ==> !((#[trigger] t[i]) == 's' && t[i + 1] == 't'));
    reveal_strlit("snacks");
    lemma_absent_char(t, "snacks"@, 4, 'k');
    reveal_strlit("snack");
    lemma_absent_char(t, "snack"@, 4, 'k');
    reveal_strlit("food");
    lemma_absent_char(t, "food"@, 0, 'f');
    reveal_strlit("treats");
    lemma_absent_pair(t, "treats"@, 3, 'a', 't');
    reveal_strlit("livestream");
    lemma_absent_char(t, "livestream"@, 2, 'v');
    reveal_strlit("stream");
    lemma_absent_pair(t, "stream"@, 0, 's', 't');
    reveal_strlit("streaming");
    lemma_absent_char(t, "streaming"@, 8, 'g');
    reveal_strlit("live");
    lemma_absent_char(t, "live"@, 2, 'v');
    reveal_strlit("scoreboard");
    lemma_absent_char(t, "scoreboard"@, 5, 'b');
    reveal_strlit("score");
    lemma_absent_pair(t, "score"@, 0, 's', 'c');
    reveal_strlit("scoring");
    lemma_absent_char(t, "scoring"@, 6, 'g');
    reveal_strlit("gamechanger");
    lemma_absent_char(t, "gamechanger"@, 0, 'g');
    reveal_strlit("game changer");
    lemma_absent_char(t, "game changer"@, 0, 'g');
    reveal_strlit("pitchcount");
    lemma_absent_char(t, "pitchcount"@, 0, 'p');
    reveal_strlit("pitch count");
    lemma_absent_char(t, "pitch count"@, 0, 'p');
    reveal_strlit("pitch");
    lemma_absent_char(t, "pitch"@, 0, 'p');
    reveal_strlit("pitches");
    lemma_absent_char(t, "pitches"@, 0, 'p');
}

/// Role extraction is idempotent: feeding the extracted canonical roles,
/// joined with spaces, back through the extractor yields them unchanged —
/// each canonical name is a keyword of its own family and of no other, and
/// the family-check order is preserved.
pub proof fn lemma_roles_idempotent(t: Seq<char>)
    ensures
        roles_spec(join_sp(roles_spec(t))) == roles_spec(t),
{
    if has_snacks_kw(t) && has_livestream_kw(t) && has_scoreboard_kw(t) && has_pitchcount_kw(t) {
        assert(roles_spec(t) =~= seq!["snacks"@, "livestream"@, "scoreboard"@, "pitchcount"@]);
        let parts = seq!["snacks"@, "livestream"@, "scoreboard"@, "pitchcount"@];
        assert(join_sp_from(parts, 3) == parts[3]);
        assert(join_sp_from(parts, 2) == parts[2] + seq![' '] + join_sp_from(parts, 3));
        assert(join_sp_from(parts, 1) == parts[1] + seq![' '] + join_sp_from(parts, 2));
        assert(join_sp_from(parts, 0) == parts[0] + seq![' '] + join_sp_from(parts, 1));
        assert(join_sp(roles_spec(t)) =~= "snacks livestream scoreboard pitchcount"@) by {
            reveal_strlit("snacks");
            reveal_strlit("livestream");
            reveal_strlit("scoreboard");
            reveal_strlit("pitchcount");
            reveal_strlit("snacks livestream scoreboard pitchcount");
        }
        lemma_roles_flags_tttt();
        assert(roles_spec(join_sp(roles_spec(t))) =~= roles_spec(t));
    }
    if has_snacks_kw(t) && has_livestream_kw(t) && has_scoreboard_kw(t) && !has_pitchcount_kw(t) {
        assert(roles_spec(t) =~= seq!["snacks"@, "livestream"@, "scoreboard"@]);
        let parts = seq!["snacks"@, "livestream"@, "scoreboard"@];
        assert(join_sp_from(parts, 2) == parts[2]);
        assert(join_sp_from(parts, 1) == parts[1] + seq![' '] + join_sp_from(parts, 2));
        assert(join_sp_from(parts, 0) == parts[0] + seq![' '] + join_sp_from(parts, 1));
        assert(join_sp(roles_spec(t)) =~= "snacks livestream scoreboard"@) by {
            reveal_strlit("snacks");
            reveal_strlit("livestream");
            reveal_strlit("scoreboard");
            reveal_strlit("snacks livestream scoreboard");
        }
        lemma_roles_flags_tttf();
        assert(roles_spec(join_sp(roles_spec(t))) =~= roles_spec(t));
    }
    if has_snacks_kw(t) && has_livestream_kw(t) && !has_scoreboard_kw(t) && has_pitchcount_kw(t) {
        assert(roles_spec(t) =~= seq!["snacks"@, "livestream"@, "pitchcount"@]);
        let parts = seq!["snacks"@, "livestream"@, "pitchcount"@];
        assert(join_sp_from(parts, 2) == parts[2]);
        assert(join_sp_from(parts, 1) == parts[1] + seq![' '] + join_sp_from(parts, 2));
        assert(join_sp_from(parts, 0) == parts[0] + seq![' '] + join_sp_from(parts, 1));
        assert(join_sp(roles_spec(t)) =~= "snacks livestream pitchcount"@) by {
            reveal_strlit("snacks");
            reveal_strlit("livestream");
            reveal_strlit("pitchcount");
            reveal_strlit("snacks livestream pitchcount");
        }
        lemma_roles_flags_ttft();
        assert(roles_spec(join_sp(roles_spec(t))) =~= roles_spec(t));
    }
    if has_snacks_kw(t) && has_livestream_kw(t) && !has_scoreboard_kw(t) && !has_pitchcount_kw(t) {
        assert(roles_spec(t) =~= seq!["snacks"@, "livestream"@]);
        let parts = seq!["snacks"@, "livestream"@];
        assert(join_sp_from(parts, 1) == parts[1]);
        assert(join_sp_from(parts, 0) == parts[0] + seq![' '] + join_sp_from(parts, 1));
        assert(join_sp(roles_spec(t)) =~= "snacks livestream"@) by {
            reveal_strlit("snacks");
            reveal_strlit("livestream");
            reveal_strlit("snacks livestream");
        }
        lemma_roles_flags_ttff();
        assert(roles_spec(join_sp(roles_spec(t))) =~= roles_spec(t));
    }
    if has_snacks_kw(t) && !has_livestream_kw(t) && has_scoreboard_kw(t) && has_pitchcount_kw(t) {
        assert(roles_spec(t) =~= seq!["snacks"@, "scoreboard"@, "pitchcount"@]);
        let parts = seq!["snacks"@, "scoreboard"@, "pitchcount"@];
        assert(join_sp_from(parts, 2) == parts[2]);
        assert(join_sp_from(parts, 1) == parts[1] + seq![' '] + join_sp_from(parts, 2));
        assert(join_sp_from(parts, 0) == parts[0] + seq![' '] + join_sp_from(parts, 1));
        assert(join_sp(roles_spec(t)) =~= "snacks scoreboard pitchcount"@) by {
            reveal_strlit("snacks");
            reveal_strlit("scoreboard");
            reveal_strlit("pitchcount");
            reveal_strlit("snacks scoreboard pitchcount");
        }
        lemma_roles_flags_tftt();
        assert(roles_spec(join_sp(roles_spec(t))) =~= roles_spec(t));
    }
    if has_snacks_kw(t) && !has_livestream_kw(t) && has_scoreboard_kw(t) && !has_pitchcount_kw(t) {
        assert(roles_spec(t) =~= seq!["snacks"@, "scoreboard"@]);
        let parts = seq!["snacks"@, "scoreboard"@];
        assert(join_sp_from(parts, 1) == parts[1]);
        assert(join_sp_from(parts, 0) == parts[0] + seq![' '] + join_sp_from(parts, 1));
        assert(join_sp(roles_spec(t)) =~= "snacks scoreboard"@) by {
            reveal_strlit("snacks");
            reveal_strlit("scoreboard");
            reveal_strlit("snacks scoreboard");
        }
        lemma_roles_flags_tftf();
        assert(roles_spec(join_sp(roles_spec(t))) =~= roles_spec(t));
    }
    if has_snacks_kw(t) && !has_livestream_kw(t) && !has_scoreboard_kw(t) && has_pitchcount_kw(t) {
        assert(roles_spec(t) =~= seq!["snacks"@, "pitchcount"@]);
        let parts = seq!["snacks"@, "pitchcount"@];
        assert(join_sp_from(parts, 1) == parts[1]);
        assert(join_sp_from(parts, 0) == parts[0] + seq![' '] + join_sp_from(parts, 1));
        assert(join_sp(roles_spec(t)) =~= "snacks pitchcount"@) by {
            reveal_strlit("snacks");
            reveal_strlit("pitchcount");
            reveal_strlit("snacks pitchcount");
        }
        lemma_roles_flags_tfft();
        assert(roles_spec(join_sp(roles_spec(t))) =~= roles_spec(t));
    }
    if has_snacks_kw(t) && !has_livestream_kw(t) && !has_scoreboard_kw(t) && !has_pitchcount_kw(t) {
        assert(roles_spec(t) =~= seq!["snacks"@]);
        let parts = seq!["snacks"@];
        assert(join_sp_from(parts, 0) == parts[0]);
        assert(join_sp(roles_spec(t)) =~= "snacks"@) by {
            reveal_strlit("snacks");
            reveal_strlit("snacks");
        }
        lemma_roles_flags_tfff();
        assert(roles_spec(join_sp(roles_spec(t))) =~= roles_spec(t));
    }
    if !has_snacks_kw(t) && has_livestream_kw(t) && has_scoreboard_kw(t) && has_pitchcount_kw(t) {
        assert(roles_spec(t) =~= seq!["livestream"@, "scoreboard"@, "pitchcount"@]);
        let parts = seq!["livestream"@, "scoreboard"@, "pitchcount"@];
        assert(join_sp_from(parts, 2) == parts[2]);
        assert(join_sp_from(parts, 1) == parts[1] + seq![' '] + join_sp_from(parts, 2));
        assert(join_sp_from(parts, 0) == parts[0] + seq![' '] + join_sp_from(parts, 1));
        assert(join_sp(roles_spec(t)) =~= "livestream scoreboard pitchcount"@) by {
            reveal_strlit("livestream");
            reveal_strlit("scoreboard");
            reveal_strlit("pitchcount");
            reveal_strlit("livestream scoreboard pitchcount");
        }
        lemma_roles_flags_fttt();
        assert(roles_spec(join_sp(roles_spec(t))) =~= roles_spec(t));
    }
    if !has_snacks_kw(t) && has_livestream_kw(t) && has_scoreboard_kw(t) && !has_pitchcount_kw(t) {
        assert(roles_spec(t) =~= seq!["livestream"@, "scoreboard"@]);
        let parts = seq!["livestream"@, "scoreboard"@];
        assert(join_sp_from(parts, 1) == parts[1]);
        assert(join_sp_from(parts, 0) == parts[0] + seq![' '] + join_sp_from(parts, 1));
        assert(join_sp(roles_spec(t)) =~= "livestream scoreboard"@) by {
            reveal_strlit("livestream");
            reveal_strlit("scoreboard");
            reveal_strlit("livestream scoreboard");
        }
        lemma_roles_flags_fttf();
        assert(roles_spec(join_sp(roles_spec(t))) =~= roles_spec(t));
    }
    if !has_snacks_kw(t) && has_livestream_kw(t) && !has_scoreboard_kw(t) && has_pitchcount_kw(t) {
        assert(roles_spec(t) =~= seq!["livestream"@, "pitchcount"@]);
        let parts = seq!["livestream"@, "pitchcount"@];
        assert(join_sp_from(parts, 1) == parts[1]);
        assert(join_sp_from(parts, 0) == parts[0] + seq![' '] + join_sp_from(parts, 1));
        assert(join_sp(roles_spec(t)) =~= "livestream pitchcount"@) by {
            reveal_strlit("livestream");
            reveal_strlit("pitchcount");
            reveal_strlit("livestream pitchcount");
        }
        lemma_roles_flags_ftft();
        assert(roles_spec(join_sp(roles_spec(t))) =~= roles_spec(t));
    }
    if !has_snacks_kw(t) && has_livestream_kw(t) && !has_scoreboard_kw(t) && !has_pitchcount_kw(t) {
        assert(roles_spec(t) =~= seq!["livestream"@]);
        let parts = seq!["livestream"@];
        assert(join_sp_from(parts, 0) == parts[0]);
        assert(join_sp(roles_spec(t)) =~= "livestream"@) by {
            reveal_strlit("livestream");
            reveal_strlit("livestream");
        }
        lemma_roles_flags_ftff();
        assert(roles_spec(join_sp(roles_spec(t))) =~= roles_spec(t));
    }
    if !has_snacks_kw(t) && !has_livestream_kw(t) && has_scoreboard_kw(t) && has_pitchcount_kw(t) {
        assert(roles_spec(t) =~= seq!["scoreboard"@, "pitchcount"@]);
        let parts = seq!["scoreboard"@, "pitchcount"@];
        assert(join_sp_from(parts, 1) == parts[1]);
        assert(join_sp_from(parts, 0) == parts[0] + seq![' '] + join_sp_from(parts, 1));
        assert(join_sp(roles_spec(t)) =~= "scoreboard pitchcount"@) by {
            reveal_strlit("scoreboard");
            reveal_strlit("pitchcount");
            reveal_strlit("scoreboard pitchcount");
        }
        lemma_roles_flags_fftt();
        assert(roles_spec(join_sp(roles_spec(t))) =~= roles_spec(t));
    }
    if !has_snacks_kw(t) && !has_livestream_kw(t) && has_scoreboard_kw(t) && !has_pitchcount_kw(t) {
        assert(roles_spec(t) =~= seq!["scoreboard"@]);
        let parts = seq!["scoreboard"@];
        assert(join_sp_from(parts, 0) == parts[0]);
        assert(join_sp(roles_spec(t)) =~= "scoreboard"@) by {
            reveal_strlit("scoreboard");
            reveal_strlit("scoreboard");
        }
        lemma_roles_flags_fftf();
        assert(roles_spec(join_sp(roles_spec(t))) =~= roles_spec(t));
    }
    if !has_snacks_kw(t) && !has_livestream_kw(t) && !has_scoreboard_kw(t) && has_pitchcount_kw(t) {
        assert(roles_spec(t) =~= seq!["pitchcount"@]);
        let parts = seq!["pitchcount"@];
        assert(join_sp_from(parts, 0) == parts[0]);
        assert(join_sp(roles_spec(t)) =~= "pitchcount"@) by {
            reveal_strlit("pitchcount");
            reveal_strlit("pitchcount");
        }
        lemma_roles_flags_ffft();
        assert(roles_spec(join_sp(roles_spec(t))) =~= roles_spec(t));
    }
    if !has_snacks_kw(t) && !has_livestream_kw(t) && !has_scoreboard_kw(t) && !has_pitchcount_kw(t) {
        assert(roles_spec(t) =~= Seq::<Seq<char>>::empty());
        assert(join_sp(roles_spec(t)) =~= ""@) by {
            reveal_strlit("");
        }
        lemma_roles_flags_ffff();
        assert(roles_spec(join_sp(roles_spec(t))) =~= roles_spec(t));
    }
}


// ---------------------------------------------------------------------------
// The unrecognized-input scenario
// ---------------------------------------------------------------------------

proof fn lemma_gibberish_absent(c: char)
    requires
        c != 'b' && c != 'l' && c != 'a' && c != 'h' && c != ' ' && c != 'r' && c != 'n' && c
            != 'd' && c != 'o' && c != 'm' && c != 's' && c != 't' && c != 'u' && c != 'f',
    ensures
        forall|i: int|
            0 <= i < "blah blah random stuff"@.len() ==> #[trigger] "blah blah random stuff"@[i] != c,
{
    reveal_strlit("blah blah random stuff");
}

#[verifier::rlimit(100)]
proof fn lemma_gibberish_not_admin()
    ensures
        !contains_seq("blah blah random stuff"@, "remove"@),
        !contains_seq("blah blah random stuff"@, "assign"@),
        !contains_seq("blah blah random stuff"@, "add moderator"@),
        !contains_seq("blah blah random stuff"@, "add mod"@),
        !contains_seq("blah blah random stuff"@, "remove moderator"@),
        !contains_seq("blah blah random stuff"@, "remove mod"@),
        !contains_seq("blah blah random stuff"@, "list moderator"@),
        !contains_seq("blah blah random stuff"@, "show moderator"@),
        !contains_seq("blah blah random stuff"@, "list"@),
        !contains_seq("blah blah random stuff"@, "delete"@),
        !contains_seq("blah blah random stuff"@, "clean"@),
{
    let t = "blah blah random stuff"@;
    reveal_strlit("blah blah random stuff");
    lemma_gibberish_absent('c');
    lemma_gibberish_absent('e');
    lemma_gibberish_absent('i');
    lemma_gibberish_absent('w');
    reveal_strlit("remove");
    lemma_absent_char(t, "remove"@, 1, 'e');
    reveal_strlit("assign");
    lemma_absent_char(t, "assign"@, 3, 'i');
    reveal_strlit("remove moderator");
    lemma_absent_char(t, "remove moderator"@, 1, 'e');
    reveal_strlit("remove mod");
    lemma_absent_char(t, "remove mod"@, 1, 'e');
    reveal_strlit("list moderator");
    lemma_absent_char(t, "list moderator"@, 1, 'i');
    reveal_strlit("show moderator");
    lemma_absent_char(t, "show moderator"@, 3, 'w');
    reveal_strlit("list");
    lemma_absent_char(t, "list"@, 1, 'i');
    reveal_strlit("delete");
    lemma_absent_char(t, "delete"@, 1, 'e');
    reveal_strlit("clean");
    lemma_absent_char(t, "clean"@, 0, 'c');
    reveal_strlit("add moderator");
    lemma_absent_char(t, "add moderator"@, 7, 'e');
    reveal_strlit("add mod");
    assert(forall|i: int|
        0 <= i < t.len() - 1 ==> !((#[trigger] t[i]) == 'd' && t[i + 1] == 'd'));
    lemma_absent_pair(t, "add mod"@, 1, 'd', 'd');
}

#[verifier::rlimit(100)]
proof fn lemma_gibberish_not_volunteer()
    ensures
        !volunteer_intent_spec("blah blah random stuff"@),
{
    let t = "blah blah random stuff"@;
    reveal_strlit("blah blah random stuff");
    lemma_gibberish_absent('c');
    lemma_gibberish_absent('e');
    lemma_gibberish_absent('g');
    lemma_gibberish_absent('i');
    lemma_gibberish_absent('p');
    lemma_gibberish_absent('v');
    lemma_gibberish_absent('w');
    reveal_strlit("i've got");
    lemma_absent_char(t, "i've got"@, 0, 'i');
    reveal_strlit("i have");
    lemma_absent_char(t, "i have"@, 0, 'i');
    reveal_strlit("i'll bring");
    lemma_absent_char(t, "i'll bring"@, 0, 'i');
    reveal_strlit("i can do");
    lemma_absent_char(t, "i can do"@, 0, 'i');
    reveal_strlit("i can bring");
    lemma_absent_char(t, "i can bring"@, 0, 'i');
    reveal_strlit("put me down");
    lemma_absent_char(t, "put me down"@, 0, 'p');
    reveal_strlit("sign me up");
    lemma_absent_char(t, "sign me up"@, 1, 'i');
    reveal_strlit("i'll do");
    lemma_absent_char(t, "i'll do"@, 0, 'i');
    reveal_strlit("i'll take");
    lemma_absent_char(t, "i'll take"@, 0, 'i');
    reveal_strlit("count me in");
    lemma_absent_char(t, "count me in"@, 0, 'c');
    reveal_strlit("i got");
    lemma_absent_char(t, "i got"@, 0, 'i');
    reveal_strlit("i'm doing");
    lemma_absent_char(t, "i'm doing"@, 0, 'i');
    reveal_strlit("volunteer");
    lemma_absent_char(t, "volunteer"@, 0, 'v');
    reveal_strlit("i can");
    lemma_absent_char(t, "i can"@, 0, 'i');
    reveal_strlit("have got");
    lemma_absent_char(t, "have got"@, 2, 'v');
    reveal_strlit("has got");
    lemma_absent_char(t, "has got"@, 4, 'g');
    reveal_strlit("will bring");
    lemma_absent_char(t, "will bring"@, 0, 'w');
    reveal_strlit("will do");
    lemma_absent_char(t, "will do"@, 0, 'w');
    reveal_strlit("snacks");
    lemma_absent_char(t, "snacks"@, 3, 'c');
    reveal_strlit("snack");
    lemma_absent_char(t, "snack"@, 3, 'c');
    reveal_strlit("livestream");
    lemma_absent_char(t, "livestream"@, 1, 'i');
    reveal_strlit("stream");
    lemma_absent_char(t, "stream"@, 3, 'e');
    reveal_strlit("scoreboard");
    lemma_absent_char(t, "scoreboard"@, 1, 'c');
    reveal_strlit("score");
    lemma_absent_char(t, "score"@, 1, 'c');
    reveal_strlit("pitchcount");
    lemma_absent_char(t, "pitchcount"@, 0, 'p');
    reveal_strlit("pitch count");
    lemma_absent_char(t, "pitch count"@, 0, 'p');
    reveal_strlit("gamechanger");
    lemma_absent_char(t, "gamechanger"@, 0, 'g');
    reveal_strlit("game changer");
    lemma_absent_char(t, "game changer"@, 0, 'g');
}

#[verifier::rlimit(100)]
proof fn lemma_gibberish_not_game_query()
    ensures
        !game_query_spec("blah blah random stuff"@),
        !volunteer_query_spec("blah blah random stuff"@),
{
    let t = "blah blah random stuff"@;
    reveal_strlit("blah blah random stuff");
    lemma_gibberish_absent('c');
    lemma_gibberish_absent('e');
    lemma_gibberish_absent('g');
    lemma_gibberish_absent('p');
    lemma_gibberish_absent('w');
    reveal_strlit("next game");
    lemma_absent_char(t, "next game"@, 1, 'e');
    reveal_strlit("next");
    lemma_absent_char(t, "next"@, 1, 'e');
    reveal_strlit("when");
    lemma_absent_char(t, "when"@, 0, 'w');
    reveal_strlit("what time");
    lemma_absent_char(t, "what time"@, 0, 'w');
    reveal_strlit("where");
    lemma_absent_char(t, "where"@, 0, 'w');
    reveal_strlit("location");
    lemma_absent_char(t, "location"@, 2, 'c');
    reveal_strlit("schedule");
    lemma_absent_char(t, "schedule"@, 1, 'c');
    reveal_strlit("upcoming");
    lemma_absent_char(t, "upcoming"@, 1, 'p');
    reveal_strlit("games");
    lemma_absent_char(t, "games"@, 0, 'g');
    lemma_gibberish_absent('e');
    lemma_gibberish_absent('i');
    lemma_gibberish_absent('p');
    lemma_gibberish_absent('v');
    lemma_gibberish_absent('w');
    reveal_strlit("who");
    lemma_absent_char(t, "who"@, 0, 'w');
    reveal_strlit("who's");
    lemma_absent_char(t, "who's"@, 0, 'w');
    reveal_strlit("volunteers");
    lemma_absent_char(t, "volunteers"@, 0, 'v');
    reveal_strlit("volunteer status");
    lemma_absent_char(t, "volunteer status"@, 0, 'v');
    reveal_strlit("need");
    lemma_absent_char(t, "need"@, 1, 'e');
    reveal_strlit("needed");
    lemma_absent_char(t, "needed"@, 1, 'e');
    reveal_strlit("available");
    lemma_absent_char(t, "available"@, 1, 'v');
    reveal_strlit("open");
    lemma_absent_char(t, "open"@, 1, 'p');
    reveal_strlit("assignments");
    lemma_absent_char(t, "assignments"@, 3, 'i');
}

#[verifier::rlimit(100)]
proof fn lemma_gibberish_not_small_talk()
    ensures
        !team_spirit_spec("blah blah random stuff"@),
        !help_spec("blah blah random stuff"@),
        !conversational_spec("blah blah random stuff"@),
{
    let t = "blah blah random stuff"@;
    reveal_strlit("blah blah random stuff");
    lemma_gibberish_absent('c');
    lemma_gibberish_absent('e');
    lemma_gibberish_absent('g');
    lemma_gibberish_absent('i');
    lemma_gibberish_absent('k');
    lemma_gibberish_absent('p');
    lemma_gibberish_absent('w');
    lemma_gibberish_absent('y');
    reveal_strlit("let's go");
    lemma_absent_char(t, "let's go"@, 1, 'e');
    reveal_strlit("lets go");
    lemma_absent_char(t, "lets go"@, 1, 'e');
    reveal_strlit("go pirates");
    lemma_absent_char(t, "go pirates"@, 0, 'g');
    reveal_strlit("pirates");
    lemma_absent_char(t, "pirates"@, 0, 'p');
    reveal_strlit("spirit");
    lemma_absent_char(t, "spirit"@, 1, 'p');
    reveal_strlit("hype");
    lemma_absent_char(t, "hype"@, 1, 'y');
    reveal_strlit("pump");
    lemma_absent_char(t, "pump"@, 0, 'p');
    reveal_strlit("motivation");
    lemma_absent_char(t, "motivation"@, 3, 'i');
    reveal_strlit("fact");
    lemma_absent_char(t, "fact"@, 2, 'c');
    reveal_strlit("help");
    lemma_absent_char(t, "help"@, 1, 'e');
    reveal_strlit("commands");
    lemma_absent_char(t, "commands"@, 0, 'c');
    reveal_strlit("what can you do");
    lemma_absent_char(t, "what can you do"@, 0, 'w');
    reveal_strlit("how");
    lemma_absent_char(t, "how"@, 2, 'w');
    reveal_strlit("scared");
    lemma_absent_char(t, "scared"@, 1, 'c');
    reveal_strlit("fear");
    lemma_absent_char(t, "fear"@, 1, 'e');
    reveal_strlit("thank");
    lemma_absent_char(t, "thank"@, 4, 'k');
    reveal_strlit("thanks");
    lemma_absent_char(t, "thanks"@, 4, 'k');
    reveal_strlit("hi");
    lemma_absent_char(t, "hi"@, 1, 'i');
    reveal_strlit("hello");
    lemma_absent_char(t, "hello"@, 1, 'e');
    reveal_strlit("funny");
    lemma_absent_char(t, "funny"@, 4, 'y');
    reveal_strlit("lol");
    assert(forall|i: int|
        0 <= i < t.len() - 1 ==> !((#[trigger] t[i]) == 'l' && t[i + 1] == 'o'));
    lemma_absent_pair(t, "lol"@, 0, 'l', 'o');
}

/// Unrecognized input stays unrecognized: the end-to-end scenario's message
/// matches no rule of the dispatch, so it classifies as the unknown intent —
/// which the translator answers with one of the fixed friendly non-answers,
/// never a panic and never silence, by `parse_message`'s contract.
pub proof fn lemma_gibberish_is_unknown(
    orig: Seq<char>,
    sender: Option<Seq<char>>,
    atts: Seq<Attachment>,
    today: Date,
)
    ensures
        detect_intent_spec("blah blah random stuff"@, orig, sender, atts, today) == IntentView::Unknown,
{
    lemma_gibberish_not_admin();
    lemma_gibberish_not_volunteer();
    lemma_gibberish_not_game_query();
    lemma_gibberish_not_small_talk();
}


#[verifier::rlimit(100)]
proof fn lemma_gibberish_cleaned()
    ensures
        trim_seq(
            strip_all(
                lower_seq(trim_seq("@PirateBot blah blah random stuff"@)),
                mention_of("PirateBot"@),
            ),
        ) == "blah blah random stuff"@,
        contains_seq(
            lower_seq(trim_seq("@PirateBot blah blah random stuff"@)),
            mention_of("PirateBot"@),
        ),
{
    reveal_strlit("@PirateBot blah blah random stuff");
    reveal_strlit("@piratebot blah blah random stuff");
    reveal_strlit("PirateBot");
    reveal_strlit("@piratebot");
    reveal_strlit(" blah blah random stuff");
    reveal_strlit("blah blah random stuff");
    let text = "@PirateBot blah blah random stuff"@;
    assert(text.len() == 33);
    // no edge whitespace, so the text is its own trim
    assert(!is_space_char(text[0]));
    assert(!is_space_char(text.last()));
    assert(trim_seq(text) == text);
    // lower-casing, element by element
    let low = "@piratebot blah blah random stuff"@;
    assert(lower_seq(text) =~= low);
    // the mention token
    let m = mention_of("PirateBot"@);
    assert(m =~= "@piratebot"@);
    assert(m.len() == 10);
    // it occurs at the start, and nowhere in the rest
    assert(low.subrange(0, 10) =~= m);
    assert(occurs_at(low, m, 0));
    let rest = " blah blah random stuff"@;
    assert(low.subrange(10, 33) =~= rest);
    assert(forall|i: int| 0 <= i < rest.len() ==> #[trigger] rest[i] != '@');
    assert(m[0] == '@');
    lemma_absent_char(rest, m, 0, '@');
    lemma_strip_all_absent(rest, m);
    assert(strip_all(low, m) == rest);
    // trimming drops the leading space the mention left behind
    let cleaned = "blah blah random stuff"@;
    assert(rest.drop_first() =~= cleaned);
    assert(!is_space_char(cleaned[0]));
    assert(trim_front(cleaned) == cleaned);
    assert(trim_front(rest) == cleaned);
    assert(!is_space_char(cleaned.last()));
    assert(trim_back(cleaned) == cleaned);
    assert(trim_seq(rest) == cleaned);
}

/// The end-to-end scenario for unrecognized input, whole: the message
/// mentions the bot, strips down to text matching no rule, and classifies
/// as the unknown intent — which `parse_message`'s contract answers with
/// one of the fixed friendly non-answers, never a panic and never silence.
pub proof fn lemma_gibberish_scenario(
    sender: Option<Seq<char>>,
    atts: Seq<Attachment>,
    today: Date,
)
    ensures
        classify_spec(
            "PirateBot"@,
            "@PirateBot blah blah random stuff"@,
            sender,
            atts,
            today,
        ) == IntentView::Unknown,
        parse_message_spec(
            "PirateBot"@,
            "@PirateBot blah blah random stuff"@,
            sender,
            atts,
            today,
        ) == Some(IntentView::Unknown),
{
    lemma_gibberish_cleaned();
    reveal_strlit("blah blah random stuff");
    assert("blah blah random stuff"@.len() == 22);
    lemma_gibberish_is_unknown(
        trim_seq("@PirateBot blah blah random stuff"@),
        sender,
        atts,
        today,
    );
}

/// A negation marker overrides every other signal: the confidence is zero,
/// whatever else the text contains.
pub proof fn lemma_negation_zeroes_confidence(t: Seq<char>, has_context: bool, mentioned_bot: bool)
    requires
        negation_marker(lower_seq(t)),
    ensures
        confidence_spec(t, has_context, mentioned_bot) == 0,
{
}

} // verus!
