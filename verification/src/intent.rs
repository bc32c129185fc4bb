//! The intent classifier: rule-based dispatch over mention-stripped,
//! lower-cased message text, producing exactly one `ParsedIntent`.  The
//! dispatch order is a deliberate priority policy: admin phrasing first,
//! then message management, volunteering, game queries, volunteer queries,
//! team spirit, help, small talk, and last the unknown fallback.

use vstd::prelude::*;
use crate::text::{
    contains_seq, lower_seq, trim_seq, strip_all, split_ws, views_of, join_sp, usize_of_token,
    all_digits, contains_sub, contains_vec, to_lower, trim, strip_all_vec, split_tokens,
    join_spaces, parse_usize, seq_eq_str, str_eq_str, subvec, chars_of, string_from_chars,
    append_chars, join_with, join_separated, is_digit, is_digit_char,
};
use crate::extract::{
    roles_spec, person_spec, relative_game_spec, category_spec, count_spec, relative_time_spec,
    extract_date_idx, extract_roles_vec, extract_person_vec, extract_relative_game_vec,
    extract_category_vec, extract_count_vec, extract_relative_time_vec, extract_date_vec,
};
use crate::dates::{Date, valid_date, day_index};
use crate::models::Attachment;
use crate::rng::pick_index;

verus! {

/// The classified meaning of one chat message.
#[derive(Debug, Clone)]
pub enum ParsedIntent {
    Volunteer { roles: Vec<String>, date: Option<Date>, person: Option<String>, relative_game: Option<usize> },
    GameQuery { category: Option<String>, count: Option<usize>, relative: Option<String> },
    VolunteerQuery { date: Option<Date> },
    TeamSpirit,
    Help,
    Unknown,
    RemoveVolunteer { person: String, role: String, date: Option<Date> },
    AssignVolunteer { person: String, role: String, date: Option<Date> },
    AddModerator { user_id: String },
    RemoveModerator { user_id: String },
    ListModerators,
    ListBotMessages { count: usize },
    DeleteBotMessage { message_id: String },
    CleanBotMessages { count: usize },
    ConversationalResponse { message: String },
}

/// The mathematical shape of an intent: strings as character sequences,
/// dates as day indices.
pub enum IntentView {
    Volunteer { roles: Seq<Seq<char>>, date: Option<int>, person: Option<Seq<char>>, relative_game: Option<int> },
    GameQuery { category: Option<Seq<char>>, count: Option<int>, relative: Option<Seq<char>> },
    VolunteerQuery { date: Option<int> },
    TeamSpirit,
    Help,
    Unknown,
    RemoveVolunteer { person: Seq<char>, role: Seq<char>, date: Option<int> },
    AssignVolunteer { person: Seq<char>, role: Seq<char>, date: Option<int> },
    AddModerator { user_id: Seq<char> },
    RemoveModerator { user_id: Seq<char> },
    ListModerators,
    ListBotMessages { count: int },
    DeleteBotMessage { message_id: Seq<char> },
    CleanBotMessages { count: int },
    ConversationalResponse { message: Seq<char> },
}

pub open spec fn opt_date_view(d: Option<Date>) -> Option<int> {
    match d {
        Some(x) => Some(day_index(x)),
        None => None,
    }
}

pub open spec fn opt_string_view(s: Option<String>) -> Option<Seq<char>> {
    match s {
        Some(x) => Some(x@),
        None => None,
    }
}

pub open spec fn opt_usize_view(n: Option<usize>) -> Option<int> {
    match n {
        Some(x) => Some(x as int),
        None => None,
    }
}

impl View for ParsedIntent {
    type V = IntentView;

    open spec fn view(&self) -> IntentView {
        match self {
            ParsedIntent::Volunteer { roles, date, person, relative_game } => IntentView::Volunteer {
                roles: roles.deep_view(),
                date: opt_date_view(*date),
                person: opt_string_view(*person),
                relative_game: opt_usize_view(*relative_game),
            },
            ParsedIntent::GameQuery { category, count, relative } => IntentView::GameQuery {
                category: opt_string_view(*category),
                count: opt_usize_view(*count),
                relative: opt_string_view(*relative),
            },
            ParsedIntent::VolunteerQuery { date } => IntentView::VolunteerQuery {
                date: opt_date_view(*date),
            },
            ParsedIntent::TeamSpirit => IntentView::TeamSpirit,
            ParsedIntent::Help => IntentView::Help,
            ParsedIntent::Unknown => IntentView::Unknown,
            ParsedIntent::RemoveVolunteer { person, role, date } => IntentView::RemoveVolunteer {
                person: person@,
                role: role@,
                date: opt_date_view(*date),
            },
            ParsedIntent::AssignVolunteer { person, role, date } => IntentView::AssignVolunteer {
                person: person@,
                role: role@,
                date: opt_date_view(*date),
            },
            ParsedIntent::AddModerator { user_id } => IntentView::AddModerator { user_id: user_id@ },
            ParsedIntent::RemoveModerator { user_id } => IntentView::RemoveModerator { user_id: user_id@ },
            ParsedIntent::ListModerators => IntentView::ListModerators,
            ParsedIntent::ListBotMessages { count } => IntentView::ListBotMessages { count: *count as int },
            ParsedIntent::DeleteBotMessage { message_id } => IntentView::DeleteBotMessage { message_id: message_id@ },
            ParsedIntent::CleanBotMessages { count } => IntentView::CleanBotMessages { count: *count as int },
            ParsedIntent::ConversationalResponse { message } => IntentView::ConversationalResponse { message: message@ },
        }
    }
}

/// Every date held by an intent is a valid calendar date.
pub open spec fn wf_intent(i: ParsedIntent) -> bool {
    match i {
        ParsedIntent::Volunteer { date, .. } => match date {
            Some(d) => valid_date(d),
            None => true,
        },
        ParsedIntent::VolunteerQuery { date } => match date {
            Some(d) => valid_date(d),
            None => true,
        },
        ParsedIntent::RemoveVolunteer { date, .. } => match date {
            Some(d) => valid_date(d),
            None => true,
        },
        ParsedIntent::AssignVolunteer { date, .. } => match date {
            Some(d) => valid_date(d),
            None => true,
        },
        _ => true,
    }
}

pub open spec fn opt_name(s: Option<&str>) -> Option<Seq<char>> {
    match s {
        Some(x) => Some(x@),
        None => None,
    }
}

// ---------------------------------------------------------------------------
// Keyword matchers
// ---------------------------------------------------------------------------

/// A volunteer offer: any of the fixed verb phrases, or any role keyword.
pub open spec fn volunteer_intent_spec(t: Seq<char>) -> bool {
    ||| contains_seq(t, "i've got"@)
    ||| contains_seq(t, "i have"@)
    ||| contains_seq(t, "i'll bring"@)
    ||| contains_seq(t, "i can do"@)
    ||| contains_seq(t, "i can bring"@)
    ||| contains_seq(t, "put me down"@)
    ||| contains_seq(t, "sign me up"@)
    ||| contains_seq(t, "i'll do"@)
    ||| contains_seq(t, "i'll take"@)
    ||| contains_seq(t, "count me in"@)
    ||| contains_seq(t, "i got"@)
    ||| contains_seq(t, "i'm doing"@)
    ||| contains_seq(t, "volunteer"@)
    ||| contains_seq(t, "i can"@)
    ||| contains_seq(t, "have got"@)
    ||| contains_seq(t, "has got"@)
    ||| contains_seq(t, "will bring"@)
    ||| contains_seq(t, "will do"@)
    ||| contains_seq(t, "snacks"@)
    ||| contains_seq(t, "snack"@)
    ||| contains_seq(t, "livestream"@)
    ||| contains_seq(t, "stream"@)
    ||| contains_seq(t, "scoreboard"@)
    ||| contains_seq(t, "score"@)
    ||| contains_seq(t, "pitchcount"@)
    ||| contains_seq(t, "pitch count"@)
    ||| contains_seq(t, "gamechanger"@)
    ||| contains_seq(t, "game changer"@)
}

/// A game schedule question.
pub open spec fn game_query_spec(t: Seq<char>) -> bool {
    ||| contains_seq(t, "next game"@)
    ||| contains_seq(t, "next"@)
    ||| contains_seq(t, "when"@)
    ||| contains_seq(t, "what time"@)
    ||| contains_seq(t, "where"@)
    ||| contains_seq(t, "location"@)
    ||| contains_seq(t, "schedule"@)
    ||| contains_seq(t, "upcoming"@)
    ||| contains_seq(t, "games"@)
}

/// A volunteer-status question: a query word and a context word together.
pub open spec fn volunteer_query_spec(t: Seq<char>) -> bool {
    &&& {
        ||| contains_seq(t, "who"@)
        ||| contains_seq(t, "who's"@)
        ||| contains_seq(t, "volunteers"@)
        ||| contains_seq(t, "volunteer status"@)
        ||| contains_seq(t, "need"@)
        ||| contains_seq(t, "needed"@)
        ||| contains_seq(t, "available"@)
        ||| contains_seq(t, "open"@)
        ||| contains_seq(t, "assignments"@)
    }
    &&& {
        ||| contains_seq(t, "snacks"@)
        ||| contains_seq(t, "livestream"@)
        ||| contains_seq(t, "scoreboard"@)
        ||| contains_seq(t, "pitchcount"@)
        ||| contains_seq(t, "volunteer"@)
    }
}

pub open spec fn team_spirit_spec(t: Seq<char>) -> bool {
    ||| contains_seq(t, "let's go"@)
    ||| contains_seq(t, "lets go"@)
    ||| contains_seq(t, "go pirates"@)
    ||| contains_seq(t, "pirates"@)
    ||| contains_seq(t, "spirit"@)
    ||| contains_seq(t, "hype"@)
    ||| contains_seq(t, "pump"@)
    ||| contains_seq(t, "motivation"@)
    ||| contains_seq(t, "fact"@)
}

pub open spec fn help_spec(t: Seq<char>) -> bool {
    ||| contains_seq(t, "help"@)
    ||| contains_seq(t, "commands"@)
    ||| contains_seq(t, "what can you do"@)
    ||| contains_seq(t, "how"@)
}

pub open spec fn conversational_spec(t: Seq<char>) -> bool {
    ||| contains_seq(t, "scared"@)
    ||| contains_seq(t, "fear"@)
    ||| contains_seq(t, "thank"@)
    ||| contains_seq(t, "thanks"@)
    ||| contains_seq(t, "hi"@)
    ||| contains_seq(t, "hello"@)
    ||| contains_seq(t, "funny"@)
    ||| contains_seq(t, "lol"@)
}

// ---------------------------------------------------------------------------
// Canned replies
// ---------------------------------------------------------------------------

pub open spec fn fear_response() -> Seq<char> {
    "ðŸ´â€â˜ ï¸ No need to fear! I'm just here to help with baseball. âš¾"@
}

pub open spec fn humor_response() -> Seq<char> {
    "âš¾ Humor setting: TARS level. 75%% honesty. ðŸ¤–"@
}

pub open spec fn thanks_response() -> Seq<char> {
    "ðŸ´â€â˜ ï¸ You're welcome! Happy to help. âš¾"@
}

pub open spec fn positive_response() -> Seq<char> {
    "ðŸ´â€â˜ ï¸ Thanks! I do my best. âš¾"@
}

pub open spec fn negative_response() -> Seq<char> {
    "ðŸ´â€â˜ ï¸ Sorry! Tell me how to improve. ðŸ”§"@
}

pub open spec fn generic_response() -> Seq<char> {
    "ðŸ´â€â˜ ï¸ Hi! I help with schedules and volunteers. âš¾"@
}

/// The small-talk reply: fear, thanks and humor cues in that priority,
/// then the generic greeting.
pub open spec fn conversational_response_spec(t: Seq<char>) -> Seq<char> {
    if contains_seq(t, "scared"@) || contains_seq(t, "fear"@) {
        fear_response()
    } else if contains_seq(t, "thank"@) {
        thanks_response()
    } else if contains_seq(t, "funny"@) || contains_seq(t, "lol"@) {
        humor_response()
    } else {
        generic_response()
    }
}

/// The pool of friendly non-answers for unrecognized input.
pub open spec fn witty_pool() -> Seq<Seq<char>> {
    seq![
        "ðŸ´â€â˜ ï¸ Ahoy! I'm not quite sure what you're asking, but I'm here to help! Try asking about the next game or volunteer to bring snacks! ðŸª"@,
        "âš¾ Hmm, that's a new one! Maybe ask me 'when's the next game?' or 'I've got snacks'? ðŸ¤”"@,
        "ðŸ´â€â˜ ï¸ I'm still learning pirate speak! Try asking me about games, volunteers, or say 'let's go Pirates!' ðŸ´â€â˜ ï¸"@,
        "ðŸ“± iPhone autocorrect failing you? Shocking. Nobody could have predicted that except literally everyone. Try 'next game'! ðŸ’¸"@,
        "âš¾ Not quite sure what you mean, matey! Ask me about upcoming games or volunteer roles! ðŸ´â€â˜ ï¸"@,
        "ðŸ´â€â˜ ï¸ Shiver me timbers! That's a puzzler. Try 'next game', 'I've got snacks', or 'let's go Pirates!' âš¾"@,
        "ðŸ“± Is that message from you or your iPhone's delusions of intelligence? Hard to tell. Try 'volunteers'! ðŸ¤¡"@,
        "âš¾ Arrr, I'm not sure what ye be sayin'! Ask about the next game or volunteer to help out! ðŸ´â€â˜ ï¸"@,
        "ðŸ“± Sent from my iPhone (which explains everything). Try 'next game' - even iOS can handle that! ðŸ™„"@,
        "ðŸ“± Your iPhone just randomly typed that? Must be the 'courage' Tim Cook talked about. Try 'show volunteers'! ðŸŽª"@,
        "ðŸ“± 'It just works'... at making typos! Thanks Steve! Now try 'when is the next game?' âš¾"@,
        "ðŸ“± iPhone 15 Pro Max and still can't type? That's $1200 of regret right there. Try 'next game'! ðŸ’€"@,
        "ðŸ“± Your iPhone's autocorrect is more confused than people who bought the $19 polishing cloth. Ask 'volunteers'? ðŸ¤¦"@,
        "ðŸ“± Apple removed the headphone jack AND the ability to type coherently. Brave. Try 'next game' maybe? ðŸŽ­"@,
        "ðŸ“± 'Think Different'? Your iPhone isn't thinking at all. Neither was your wallet apparently. Try 'volunteers'! ðŸ¤‘"@,
        "ðŸ“± You paid Apple prices for Android reliability. Congrats! ðŸŽ‰ Now try 'show volunteers' or 'next game'!"@,
        "ðŸ“± Your iPhone has the computing power of a 2010 laptop at 3x the price. And it STILL autocorrected that wrong. 'next game'? ðŸš€"@
    ]
}

// ---------------------------------------------------------------------------
// Admin and message-management phrasing
// ---------------------------------------------------------------------------

/// First index at or after `i` whose token equals `w` exactly.
pub open spec fn first_tok_eq(ws: Seq<Seq<char>>, w: Seq<char>, i: int) -> Option<int>
    decreases ws.len() - i,
    when 0 <= i <= ws.len()
{
    if i >= ws.len() {
        None
    } else if ws[i] == w {
        Some(i)
    } else {
        first_tok_eq(ws, w, i + 1)
    }
}

/// Person and role split around the marker token ("from" or "to"): the
/// person is the tokens between the first word and the marker, the role the
/// single token after it; missing pieces are empty.
pub open spec fn admin_person_role(ws: Seq<Seq<char>>, marker: Seq<char>) -> (Seq<char>, Seq<char>) {
    match first_tok_eq(ws, marker, 0) {
        Some(j) => (
            if j > 1 {
                join_sp(ws.subrange(1, j))
            } else {
                Seq::empty()
            },
            if j + 1 < ws.len() {
                ws[j + 1]
            } else {
                Seq::empty()
            },
        ),
        None => (Seq::empty(), Seq::empty()),
    }
}

/// First attachment tagged as a mention.
pub open spec fn first_mentions_att(atts: Seq<Attachment>, i: int) -> Option<int>
    decreases atts.len() - i,
    when 0 <= i <= atts.len()
{
    if i >= atts.len() {
        None
    } else if atts[i].attachment_type@ == "mentions"@ {
        Some(i)
    } else {
        first_mentions_att(atts, i + 1)
    }
}

/// The moderator command's target: the first user id of the first
/// mention-typed attachment, else the message's last whitespace token.
pub open spec fn moderator_target_spec(t: Seq<char>, atts: Seq<Attachment>) -> Seq<char> {
    let m = first_mentions_att(atts, 0);
    if m is Some && atts[m->Some_0].user_ids.len() > 0 {
        atts[m->Some_0].user_ids[0]@
    } else {
        let ws = split_ws(t);
        if ws.len() > 0 {
            ws[ws.len() - 1]
        } else {
            Seq::empty()
        }
    }
}

/// First token at or after `i` that parses as an unsigned number.
pub open spec fn first_usize_tok(ws: Seq<Seq<char>>, i: int) -> Option<int>
    decreases ws.len() - i,
    when 0 <= i <= ws.len()
{
    if i >= ws.len() {
        None
    } else if usize_of_token(ws[i]) is Some {
        usize_of_token(ws[i])
    } else {
        first_usize_tok(ws, i + 1)
    }
}

/// The first number token of the text, or the given default.
pub open spec fn count_or(t: Seq<char>, d: int) -> int {
    match first_usize_tok(split_ws(t), 0) {
        Some(n) => n,
        None => d,
    }
}

/// A message id: a token of more than ten digits.
pub open spec fn is_msgid_tok(w: Seq<char>) -> bool {
    w.len() > 10 && all_digits(w)
}

pub open spec fn first_msgid(ws: Seq<Seq<char>>, i: int) -> Option<Seq<char>>
    decreases ws.len() - i,
    when 0 <= i <= ws.len()
{
    if i >= ws.len() {
        None
    } else if is_msgid_tok(ws[i]) {
        Some(ws[i])
    } else {
        first_msgid(ws, i + 1)
    }
}

/// The message id named in the text, or empty.
pub open spec fn message_id_spec(t: Seq<char>) -> Seq<char> {
    match first_msgid(split_ws(t), 0) {
        Some(x) => x,
        None => Seq::empty(),
    }
}

// ---------------------------------------------------------------------------
// The dispatch
// ---------------------------------------------------------------------------

/// The intent of a mention-stripped, lower-cased, nonempty message
/// `cleaned`, with `orig` the trimmed original-cased text.  First matching
/// rule wins.
pub open spec fn detect_intent_spec(
    cleaned: Seq<char>,
    orig: Seq<char>,
    sender: Option<Seq<char>>,
    atts: Seq<Attachment>,
    today: Date,
) -> IntentView {
    if contains_seq(cleaned, "remove"@) && contains_seq(cleaned, "from"@) {
        IntentView::RemoveVolunteer {
            person: admin_person_role(split_ws(cleaned), "from"@).0,
            role: admin_person_role(split_ws(cleaned), "from"@).1,
            date: None,
        }
    } else if contains_seq(cleaned, "assign"@) && contains_seq(cleaned, "to"@) {
        IntentView::AssignVolunteer {
            person: admin_person_role(split_ws(cleaned), "to"@).0,
            role: admin_person_role(split_ws(cleaned), "to"@).1,
            date: None,
        }
    } else if contains_seq(cleaned, "add moderator"@) || contains_seq(cleaned, "add mod"@) {
        IntentView::AddModerator { user_id: moderator_target_spec(cleaned, atts) }
    } else if contains_seq(cleaned, "remove moderator"@) || contains_seq(cleaned, "remove mod"@) {
        IntentView::RemoveModerator { user_id: moderator_target_spec(cleaned, atts) }
    } else if contains_seq(cleaned, "list moderator"@) || contains_seq(cleaned, "show moderator"@) {
        IntentView::ListModerators
    } else if contains_seq(cleaned, "list"@) && (contains_seq(cleaned, "message"@) || contains_seq(
        cleaned,
        "bot message"@,
    )) {
        IntentView::ListBotMessages { count: count_or(cleaned, 10) }
    } else if contains_seq(cleaned, "delete"@) && contains_seq(cleaned, "message"@) {
        IntentView::DeleteBotMessage { message_id: message_id_spec(cleaned) }
    } else if contains_seq(cleaned, "clean"@) && (contains_seq(cleaned, "message"@) || contains_seq(
        cleaned,
        "bot message"@,
    )) {
        IntentView::CleanBotMessages { count: count_or(cleaned, 5) }
    } else if volunteer_intent_spec(cleaned) {
        IntentView::Volunteer {
            roles: roles_spec(cleaned),
            date: extract_date_idx(cleaned, today),
            person: match person_spec(orig) {
                Some(p) => Some(p),
                None => sender,
            },
            relative_game: relative_game_spec(cleaned),
        }
    } else if game_query_spec(cleaned) {
        IntentView::GameQuery {
            category: category_spec(cleaned),
            count: count_spec(cleaned),
            relative: relative_time_spec(cleaned),
        }
    } else if volunteer_query_spec(cleaned) {
        IntentView::VolunteerQuery { date: extract_date_idx(cleaned, today) }
    } else if team_spirit_spec(cleaned) {
        IntentView::TeamSpirit
    } else if help_spec(cleaned) {
        IntentView::Help
    } else if conversational_spec(cleaned) {
        IntentView::ConversationalResponse { message: conversational_response_spec(cleaned) }
    } else {
        IntentView::Unknown
    }
}

/// The case-insensitive mention token: "@" followed by the bot's name.
pub open spec fn mention_of(bot: Seq<char>) -> Seq<char> {
    seq!['@'] + lower_seq(bot)
}

/// The intent of a message, mention gate aside: the text trimmed,
/// lower-cased and stripped of every mention token (a no-op when none is
/// present); the help intent when nothing remains; else the detected
/// intent.  This is what both entry paths — an explicit mention, and a
/// confidence-gated continuation — classify.
pub open spec fn classify_spec(
    bot: Seq<char>,
    text: Seq<char>,
    sender: Option<Seq<char>>,
    atts: Seq<Attachment>,
    today: Date,
) -> IntentView {
    let trimmed = trim_seq(text);
    let tl = lower_seq(trimmed);
    let cleaned = trim_seq(strip_all(tl, mention_of(bot)));
    if cleaned.len() == 0 {
        IntentView::Help
    } else {
        detect_intent_spec(cleaned, trimmed, sender, atts, today)
    }
}

/// What `parse_message` yields: nothing unless the trimmed, lower-cased
/// text contains the mention token; else the classification.
pub open spec fn parse_message_spec(
    bot: Seq<char>,
    text: Seq<char>,
    sender: Option<Seq<char>>,
    atts: Seq<Attachment>,
    today: Date,
) -> Option<IntentView> {
    if !contains_seq(lower_seq(trim_seq(text)), mention_of(bot)) {
        None
    } else {
        Some(classify_spec(bot, text, sender, atts, today))
    }
}

// ---------------------------------------------------------------------------
// Executable helpers
// ---------------------------------------------------------------------------

fn tok_all_digits(w: &Vec<char>) -> (b: bool)
    ensures
        b == all_digits(w@),
{
    let n = w.len();
    let mut i: usize = 0;
    while i < n
        invariant
            n == w@.len(),
            i <= n,
            forall|k: int| 0 <= k < i ==> is_digit_char(w@[k]),
        decreases n - i,
    {
        if !is_digit(w[i]) {
            return false;
        }
        i = i + 1;
    }
    true
}

/// Split person and role around the first occurrence of `marker`.
fn admin_split(t: &Vec<char>, marker: &str) -> (r: (String, String))
    ensures
        r.0@ == admin_person_role(split_ws(t@), marker@).0,
        r.1@ == admin_person_role(split_ws(t@), marker@).1,
{
    let ws = split_tokens(t);
    let len = ws.len();
    proof {
        assert(views_of(ws@).len() == ws@.len());
    }
    let mut j: usize = 0;
    let mut found: bool = false;
    while j < len && !found
        invariant
            j <= len,
            len == ws@.len(),
            views_of(ws@).len() == len,
            found ==> j < len && views_of(ws@)[j as int] == marker@,
            found ==> first_tok_eq(views_of(ws@), marker@, 0) == Some(j as int),
            !found ==> first_tok_eq(views_of(ws@), marker@, 0) == first_tok_eq(
                views_of(ws@),
                marker@,
                j as int,
            ),
        decreases len - j + if found { 0int } else { 1int },
    {
        proof {
            assert(views_of(ws@)[j as int] == ws@[j as int]@);
        }
        if seq_eq_str(&ws[j], marker) {
            found = true;
        } else {
            j = j + 1;
        }
    }
    if !found {
        return (String::new(), String::new());
    }
    let person: String = if j > 1 {
        let mut parts: Vec<Vec<char>> = Vec::new();
        let mut k: usize = 1;
        while k < j
            invariant
                1 <= k <= j <= len,
                len == ws@.len(),
                views_of(ws@).len() == len,
                views_of(parts@) =~= views_of(ws@).subrange(1, k as int),
            decreases j - k,
        {
            let tk = subvec(&ws[k], 0, ws[k].len());
            proof {
                assert(tk@ =~= ws@[k as int]@);
            }
            let ghost p0 = parts@;
            parts.push(tk);
            proof {
                assert(views_of(parts@) =~= views_of(p0).push(tk@));
                assert(views_of(ws@).subrange(1, k + 1) =~= views_of(ws@).subrange(
                    1,
                    k as int,
                ).push(views_of(ws@)[k as int]));
            }
            k = k + 1;
        }
        let joined = join_spaces(&parts);
        string_from_chars(&joined)
    } else {
        String::new()
    };
    let role: String = if j + 1 < len {
        proof {
            assert(views_of(ws@)[j + 1] == ws@[j + 1]@);
        }
        string_from_chars(&ws[j + 1])
    } else {
        String::new()
    };
    (person, role)
}

/// Find the first mention-typed attachment.
fn find_mentions(atts: &[Attachment]) -> (r: Option<usize>)
    ensures
        match r {
            Some(j) => j < atts@.len() && first_mentions_att(atts@, 0) == Some(j as int),
            None => first_mentions_att(atts@, 0) is None,
        },
{
    let n = atts.len();
    let mut i: usize = 0;
    while i < n
        invariant
            i <= n,
            n == atts@.len(),
            first_mentions_att(atts@, 0) == first_mentions_att(atts@, i as int),
        decreases n - i,
    {
        if str_eq_str(atts[i].attachment_type.as_str(), "mentions") {
            return Some(i);
        }
        i = i + 1;
    }
    None
}

/// The moderator command's target user id.
fn moderator_target_x(t: &Vec<char>, atts: &[Attachment]) -> (r: String)
    ensures
        r@ == moderator_target_spec(t@, atts@),
{
    if let Some(j) = find_mentions(atts) {
        if atts[j].user_ids.len() > 0 {
            return atts[j].user_ids[0].clone();
        }
    }
    let ws = split_tokens(t);
    proof {
        assert(views_of(ws@).len() == ws@.len());
    }
    if ws.len() > 0 {
        let last = &ws[ws.len() - 1];
        proof {
            assert(views_of(ws@)[ws@.len() - 1] == ws@[ws@.len() - 1]@);
        }
        string_from_chars(last)
    } else {
        String::new()
    }
}

/// The first number token of the text, or the default.
fn count_token_or(t: &Vec<char>, default: usize) -> (r: usize)
    ensures
        r as int == count_or(t@, default as int),
{
    let ws = split_tokens(t);
    let len = ws.len();
    proof {
        assert(views_of(ws@).len() == ws@.len());
    }
    let mut i: usize = 0;
    while i < len
        invariant
            i <= len,
            len == ws@.len(),
            views_of(ws@).len() == len,
            views_of(ws@) == split_ws(t@),
            first_usize_tok(views_of(ws@), 0) == first_usize_tok(views_of(ws@), i as int),
        decreases len - i,
    {
        proof {
            assert(views_of(ws@)[i as int] == ws@[i as int]@);
        }
        if let Some(n) = parse_usize(&ws[i]) {
            return n;
        }
        i = i + 1;
    }
    default
}

/// The message id named in the text, or empty.
fn message_id_x(t: &Vec<char>) -> (r: String)
    ensures
        r@ == message_id_spec(t@),
{
    let ws = split_tokens(t);
    let len = ws.len();
    proof {
        assert(views_of(ws@).len() == ws@.len());
    }
    let mut i: usize = 0;
    while i < len
        invariant
            i <= len,
            len == ws@.len(),
            views_of(ws@).len() == len,
            views_of(ws@) == split_ws(t@),
            first_msgid(views_of(ws@), 0) == first_msgid(views_of(ws@), i as int),
        decreases len - i,
    {
        proof {
            assert(views_of(ws@)[i as int] == ws@[i as int]@);
        }
        if ws[i].len() > 10 && tok_all_digits(&ws[i]) {
            return string_from_chars(&ws[i]);
        }
        i = i + 1;
    }
    String::new()
}

// ---------------------------------------------------------------------------
// The parser
// ---------------------------------------------------------------------------

/// Conversational parser that understands natural language.
pub struct ConversationalParser {
    pub bot_name: String,
}

impl ConversationalParser {
    pub fn new(bot_name: String) -> (r: Self)
        ensures
            r.bot_name == bot_name,
    {
        ConversationalParser { bot_name }
    }

    /// Parse a message and extract its intent; `today` anchors relative
    /// dates.  Yields nothing when the message does not mention the bot.
    pub fn parse_message(
        &self,
        text: &str,
        sender_name: Option<&str>,
        attachments: &[Attachment],
        today: Date,
    ) -> (r: Option<ParsedIntent>)
        requires
            valid_date(today),
            today.year <= 9998,
        ensures
            match r {
                Some(i) => parse_message_spec(
                    self.bot_name@,
                    text@,
                    opt_name(sender_name),
                    attachments@,
                    today,
                ) == Some(i@) && wf_intent(i),
                None => parse_message_spec(
                    self.bot_name@,
                    text@,
                    opt_name(sender_name),
                    attachments@,
                    today,
                ) is None,
            },
    {
        let tv = chars_of(text);
        let trimmed = trim(&tv);
        let tl = to_lower(&trimmed);
        let bn = chars_of(self.bot_name.as_str());
        let lbn = to_lower(&bn);
        let mut mention: Vec<char> = Vec::new();
        mention.push('@');
        append_chars(&mut mention, &lbn);
        proof {
            assert(mention@ =~= mention_of(self.bot_name@));
        }
        if !contains_vec(&tl, &mention) {
            return None;
        }
        Some(self.classify_message(text, sender_name, attachments, today))
    }

    /// Classify a message without the mention gate: the entry for
    /// confidence-gated continuation replies, which carry no mention token.
    pub fn classify_message(
        &self,
        text: &str,
        sender_name: Option<&str>,
        attachments: &[Attachment],
        today: Date,
    ) -> (r: ParsedIntent)
        requires
            valid_date(today),
            today.year <= 9998,
        ensures
            r@ == classify_spec(self.bot_name@, text@, opt_name(sender_name), attachments@, today),
            wf_intent(r),
    {
        let tv = chars_of(text);
        let trimmed = trim(&tv);
        let tl = to_lower(&trimmed);
        let bn = chars_of(self.bot_name.as_str());
        let lbn = to_lower(&bn);
        let mut mention: Vec<char> = Vec::new();
        mention.push('@');
        append_chars(&mut mention, &lbn);
        proof {
            assert(mention@ =~= mention_of(self.bot_name@));
        }
        let stripped = strip_all_vec(&tl, &mention);
        let cleaned = trim(&stripped);
        if cleaned.len() == 0 {
            return ParsedIntent::Help;
        }
        self.detect_intent(&cleaned, &trimmed, sender_name, attachments, today)
    }

    fn detect_intent(
        &self,
        cleaned: &Vec<char>,
        orig: &Vec<char>,
        sender_name: Option<&str>,
        attachments: &[Attachment],
        today: Date,
    ) -> (r: ParsedIntent)
        requires
            valid_date(today),
            today.year <= 9998,
        ensures
            r@ == detect_intent_spec(cleaned@, orig@, opt_name(sender_name), attachments@, today),
            wf_intent(r),
    {
        if contains_sub(cleaned, "remove") && contains_sub(cleaned, "from") {
            let (person, role) = admin_split(cleaned, "from");
            return ParsedIntent::RemoveVolunteer { person, role, date: None };
        }
        if contains_sub(cleaned, "assign") && contains_sub(cleaned, "to") {
            let (person, role) = admin_split(cleaned, "to");
            return ParsedIntent::AssignVolunteer { person, role, date: None };
        }
        if contains_sub(cleaned, "add moderator") || contains_sub(cleaned, "add mod") {
            return ParsedIntent::AddModerator {
                user_id: moderator_target_x(cleaned, attachments),
            };
        }
        if contains_sub(cleaned, "remove moderator") || contains_sub(cleaned, "remove mod") {
            return ParsedIntent::RemoveModerator {
                user_id: moderator_target_x(cleaned, attachments),
            };
        }
        if contains_sub(cleaned, "list moderator") || contains_sub(cleaned, "show moderator") {
            return ParsedIntent::ListModerators;
        }
        if contains_sub(cleaned, "list") && (contains_sub(cleaned, "message") || contains_sub(
            cleaned,
            "bot message",
        )) {
            return ParsedIntent::ListBotMessages { count: count_token_or(cleaned, 10) };
        }
        if contains_sub(cleaned, "delete") && contains_sub(cleaned, "message") {
            return ParsedIntent::DeleteBotMessage { message_id: message_id_x(cleaned) };
        }
        if contains_sub(cleaned, "clean") && (contains_sub(cleaned, "message") || contains_sub(
            cleaned,
            "bot message",
        )) {
            return ParsedIntent::CleanBotMessages { count: count_token_or(cleaned, 5) };
        }
        if self.is_volunteer_intent_vec(cleaned) {
            return self.parse_volunteer_intent(cleaned, orig, sender_name, today);
        }
        if self.is_game_query_intent_vec(cleaned) {
            return ParsedIntent::GameQuery {
                category: extract_category_vec(cleaned),
                count: extract_count_vec(cleaned),
                relative: extract_relative_time_vec(cleaned),
            };
        }
        if self.is_volunteer_query_intent_vec(cleaned) {
            return ParsedIntent::VolunteerQuery { date: extract_date_vec(cleaned, &today) };
        }
        if self.is_team_spirit_intent_vec(cleaned) {
            return ParsedIntent::TeamSpirit;
        }
        if self.is_help_intent_vec(cleaned) {
            return ParsedIntent::Help;
        }
        if self.is_conversational_message_vec(cleaned) {
            let message = self.conversational_response_vec(cleaned);
            return ParsedIntent::ConversationalResponse { message };
        }
        ParsedIntent::Unknown
    }

    fn parse_volunteer_intent(
        &self,
        cleaned: &Vec<char>,
        orig: &Vec<char>,
        sender_name: Option<&str>,
        today: Date,
    ) -> (r: ParsedIntent)
        requires
            valid_date(today),
            today.year <= 9998,
        ensures
            r@ == (IntentView::Volunteer {
                roles: roles_spec(cleaned@),
                date: extract_date_idx(cleaned@, today),
                person: match person_spec(orig@) {
                    Some(p) => Some(p),
                    None => opt_name(sender_name),
                },
                relative_game: relative_game_spec(cleaned@),
            }),
            wf_intent(r),
    {
        let roles = extract_roles_vec(cleaned);
        let date = extract_date_vec(cleaned, &today);
        let person = extract_person_vec(orig);
        let relative_game = extract_relative_game_vec(cleaned);
        let person: Option<String> = match person {
            Some(p) => Some(p),
            None => match sender_name {
                Some(s) => Some(String::from_str(s)),
                None => None,
            },
        };
        ParsedIntent::Volunteer { roles, date, person, relative_game }
    }

    // ------------------------------------------------------------------
    // Keyword matchers, on &str for callers and on Vec<char> internally
    // ------------------------------------------------------------------

    fn is_volunteer_intent_vec(&self, t: &Vec<char>) -> (r: bool)
        ensures
            r == volunteer_intent_spec(t@),
    {
        contains_sub(t, "i've got") || contains_sub(t, "i have") || contains_sub(t, "i'll bring")
            || contains_sub(t, "i can do") || contains_sub(t, "i can bring") || contains_sub(
            t,
            "put me down",
        ) || contains_sub(t, "sign me up") || contains_sub(t, "i'll do") || contains_sub(
            t,
            "i'll take",
        ) || contains_sub(t, "count me in") || contains_sub(t, "i got") || contains_sub(
            t,
            "i'm doing",
        ) || contains_sub(t, "volunteer") || contains_sub(t, "i can") || contains_sub(
            t,
            "have got",
        ) || contains_sub(t, "has got") || contains_sub(t, "will bring") || contains_sub(
            t,
            "will do",
        ) || contains_sub(t, "snacks") || contains_sub(t, "snack") || contains_sub(
            t,
            "livestream",
        ) || contains_sub(t, "stream") || contains_sub(t, "scoreboard") || contains_sub(
            t,
            "score",
        ) || contains_sub(t, "pitchcount") || contains_sub(t, "pitch count") || contains_sub(
            t,
            "gamechanger",
        ) || contains_sub(t, "game changer")
    }

    /// Whether lower-cased text offers to volunteer.
    pub fn is_volunteer_intent(&self, text: &str) -> (r: bool)
        ensures
            r == volunteer_intent_spec(text@),
    {
        let tv = chars_of(text);
        self.is_volunteer_intent_vec(&tv)
    }

    fn is_game_query_intent_vec(&self, t: &Vec<char>) -> (r: bool)
        ensures
            r == game_query_spec(t@),
    {
        contains_sub(t, "next game") || contains_sub(t, "next") || contains_sub(t, "when")
            || contains_sub(t, "what time") || contains_sub(t, "where") || contains_sub(
            t,
            "location",
        ) || contains_sub(t, "schedule") || contains_sub(t, "upcoming") || contains_sub(t, "games")
    }

    /// Whether lower-cased text asks about the game schedule.
    pub fn is_game_query_intent(&self, text: &str) -> (r: bool)
        ensures
            r == game_query_spec(text@),
    {
        let tv = chars_of(text);
        self.is_game_query_intent_vec(&tv)
    }

    fn is_volunteer_query_intent_vec(&self, t: &Vec<char>) -> (r: bool)
        ensures
            r == volunteer_query_spec(t@),
    {
        let has_query = contains_sub(t, "who") || contains_sub(t, "who's") || contains_sub(
            t,
            "volunteers",
        ) || contains_sub(t, "volunteer status") || contains_sub(t, "need") || contains_sub(
            t,
            "needed",
        ) || contains_sub(t, "available") || contains_sub(t, "open") || contains_sub(
            t,
            "assignments",
        );
        let has_context = contains_sub(t, "snacks") || contains_sub(t, "livestream")
            || contains_sub(t, "scoreboard") || contains_sub(t, "pitchcount") || contains_sub(
            t,
            "volunteer",
        );
        has_query && has_context
    }

    /// Whether lower-cased text asks about volunteer status.
    pub fn is_volunteer_query_intent(&self, text: &str) -> (r: bool)
        ensures
            r == volunteer_query_spec(text@),
    {
        let tv = chars_of(text);
        self.is_volunteer_query_intent_vec(&tv)
    }

    fn is_team_spirit_intent_vec(&self, t: &Vec<char>) -> (r: bool)
        ensures
            r == team_spirit_spec(t@),
    {
        contains_sub(t, "let's go") || contains_sub(t, "lets go") || contains_sub(t, "go pirates")
            || contains_sub(t, "pirates") || contains_sub(t, "spirit") || contains_sub(t, "hype")
            || contains_sub(t, "pump") || contains_sub(t, "motivation") || contains_sub(t, "fact")
    }

    /// Whether lower-cased text calls for team spirit.
    pub fn is_team_spirit_intent(&self, text: &str) -> (r: bool)
        ensures
            r == team_spirit_spec(text@),
    {
        let tv = chars_of(text);
        self.is_team_spirit_intent_vec(&tv)
    }

    fn is_help_intent_vec(&self, t: &Vec<char>) -> (r: bool)
        ensures
            r == help_spec(t@),
    {
        contains_sub(t, "help") || contains_sub(t, "commands") || contains_sub(
            t,
            "what can you do",
        ) || contains_sub(t, "how")
    }

    /// Whether lower-cased text asks for help.
    pub fn is_help_intent(&self, text: &str) -> (r: bool)
        ensures
            r == help_spec(text@),
    {
        let tv = chars_of(text);
        self.is_help_intent_vec(&tv)
    }

    fn is_conversational_message_vec(&self, t: &Vec<char>) -> (r: bool)
        ensures
            r == conversational_spec(t@),
    {
        contains_sub(t, "scared") || contains_sub(t, "fear") || contains_sub(t, "thank")
            || contains_sub(t, "thanks") || contains_sub(t, "hi") || contains_sub(t, "hello")
            || contains_sub(t, "funny") || contains_sub(t, "lol")
    }

    /// Whether lower-cased text is small talk.
    pub fn is_conversational_message(&self, text: &str) -> (r: bool)
        ensures
            r == conversational_spec(text@),
    {
        let tv = chars_of(text);
        self.is_conversational_message_vec(&tv)
    }

    // ------------------------------------------------------------------
    // Extractors, delegating to the extract module
    // ------------------------------------------------------------------

    /// The canonical volunteer roles named in lower-cased text.
    pub fn extract_volunteer_roless(&self, text: &str) -> (r: Vec<String>)
        ensures
            r.deep_view() == roles_spec(text@),
    {
        let tv = chars_of(text);
        extract_roles_vec(&tv)
    }

    /// A person name from original-cased text.
    pub fn extract_person_name(&self, text: &str) -> (r: Option<String>)
        ensures
            match r {
                Some(s) => person_spec(text@) == Some(s@),
                None => person_spec(text@) is None,
            },
    {
        let tv = chars_of(text);
        extract_person_vec(&tv)
    }

    /// A date named in lower-cased text, relative to `today`.
    pub fn extract_date(&self, text: &str, today: Date) -> (r: Option<Date>)
        requires
            valid_date(today),
            today.year <= 9998,
        ensures
            match r {
                Some(d) => valid_date(d) && extract_date_idx(text@, today) == Some(day_index(d)),
                None => extract_date_idx(text@, today) is None,
            },
    {
        let tv = chars_of(text);
        extract_date_vec(&tv, &today)
    }

    /// Which upcoming game lower-cased text points at.
    pub fn extract_relative_game(&self, text: &str) -> (r: Option<usize>)
        ensures
            match r {
                Some(n) => relative_game_spec(text@) == Some(n as int),
                None => relative_game_spec(text@) is None,
            },
    {
        let tv = chars_of(text);
        extract_relative_game_vec(&tv)
    }

    /// The game-info category named in lower-cased text.
    pub fn extract_game_category(&self, text: &str) -> (r: Option<String>)
        ensures
            match r {
                Some(s) => category_spec(text@) == Some(s@),
                None => category_spec(text@) is None,
            },
    {
        let tv = chars_of(text);
        extract_category_vec(&tv)
    }

    /// How many games lower-cased text asks for.
    pub fn extract_game_count(&self, text: &str) -> (r: Option<usize>)
        ensures
            match r {
                Some(n) => count_spec(text@) == Some(n as int),
                None => count_spec(text@) is None,
            },
    {
        let tv = chars_of(text);
        extract_count_vec(&tv)
    }

    /// The relative-time marker of lower-cased text.
    pub fn extract_relative_time(&self, text: &str) -> (r: Option<String>)
        ensures
            match r {
                Some(s) => relative_time_spec(text@) == Some(s@),
                None => relative_time_spec(text@) is None,
            },
    {
        let tv = chars_of(text);
        extract_relative_time_vec(&tv)
    }

    // ------------------------------------------------------------------
    // Canned replies
    // ------------------------------------------------------------------

    fn conversational_response_vec(&self, t: &Vec<char>) -> (r: String)
        ensures
            r@ == conversational_response_spec(t@),
    {
        if contains_sub(t, "scared") || contains_sub(t, "fear") {
            self.get_fear_response()
        } else if contains_sub(t, "thank") {
            self.get_thanks_response()
        } else if contains_sub(t, "funny") || contains_sub(t, "lol") {
            self.get_humor_response()
        } else {
            self.get_generic_conversational_response()
        }
    }

    /// The small-talk reply for lower-cased text.
    pub fn get_conversational_response(&self, text: &str) -> (r: String)
        ensures
            r@ == conversational_response_spec(text@),
    {
        let tv = chars_of(text);
        self.conversational_response_vec(&tv)
    }

    pub fn get_fear_response(&self) -> (r: String)
        ensures
            r@ == fear_response(),
    {
        String::from_str("ðŸ´â€â˜ ï¸ No need to fear! I'm just here to help with baseball. âš¾")
    }

    pub fn get_humor_response(&self) -> (r: String)
        ensures
            r@ == humor_response(),
    {
        String::from_str("âš¾ Humor setting: TARS level. 75%% honesty. ðŸ¤–")
    }

    pub fn get_thanks_response(&self) -> (r: String)
        ensures
            r@ == thanks_response(),
    {
        String::from_str("ðŸ´â€â˜ ï¸ You're welcome! Happy to help. âš¾")
    }

    pub fn get_positive_response(&self) -> (r: String)
        ensures
            r@ == positive_response(),
    {
        String::from_str("ðŸ´â€â˜ ï¸ Thanks! I do my best. âš¾")
    }

    pub fn get_negative_response(&self) -> (r: String)
        ensures
            r@ == negative_response(),
    {
        String::from_str("ðŸ´â€â˜ ï¸ Sorry! Tell me how to improve. ðŸ”§")
    }

    pub fn get_generic_conversational_response(&self) -> (r: String)
        ensures
            r@ == generic_response(),
    {
        String::from_str("ðŸ´â€â˜ ï¸ Hi! I help with schedules and volunteers. âš¾")
    }

    /// One friendly non-answer, chosen at random from the fixed pool.
    pub fn get_witty_response(&self) -> (r: String)
        ensures
            exists|k: int| 0 <= k < witty_pool().len() && r@ == witty_pool()[k],
    {
        let k = pick_index(17);
        let r = match k {
            0 => String::from_str("ðŸ´â€â˜ ï¸ Ahoy! I'm not quite sure what you're asking, but I'm here to help! Try asking about the next game or volunteer to bring snacks! ðŸª"),
            1 => String::from_str("âš¾ Hmm, that's a new one! Maybe ask me 'when's the next game?' or 'I've got snacks'? ðŸ¤”"),
            2 => String::from_str("ðŸ´â€â˜ ï¸ I'm still learning pirate speak! Try asking me about games, volunteers, or say 'let's go Pirates!' ðŸ´â€â˜ ï¸"),
            3 => String::from_str("ðŸ“± iPhone autocorrect failing you? Shocking. Nobody could have predicted that except literally everyone. Try 'next game'! ðŸ’¸"),
            4 => String::from_str("âš¾ Not quite sure what you mean, matey! Ask me about upcoming games or volunteer roles! ðŸ´â€â˜ ï¸"),
            5 => String::from_str("ðŸ´â€â˜ ï¸ Shiver me timbers! That's a puzzler. Try 'next game', 'I've got snacks', or 'let's go Pirates!' âš¾"),
            6 => String::from_str("ðŸ“± Is that message from you or your iPhone's delusions of intelligence? Hard to tell. Try 'volunteers'! ðŸ¤¡"),
            7 => String::from_str("âš¾ Arrr, I'm not sure what ye be sayin'! Ask about the next game or volunteer to help out! ðŸ´â€â˜ ï¸"),
            8 => String::from_str("ðŸ“± Sent from my iPhone (which explains everything). Try 'next game' - even iOS can handle that! ðŸ™„"),
            9 => String::from_str("ðŸ“± Your iPhone just randomly typed that? Must be the 'courage' Tim Cook talked about. Try 'show volunteers'! ðŸŽª"),
            10 => String::from_str("ðŸ“± 'It just works'... at making typos! Thanks Steve! Now try 'when is the next game?' âš¾"),
            11 => String::from_str("ðŸ“± iPhone 15 Pro Max and still can't type? That's $1200 of regret right there. Try 'next game'! ðŸ’€"),
            12 => String::from_str("ðŸ“± Your iPhone's autocorrect is more confused than people who bought the $19 polishing cloth. Ask 'volunteers'? ðŸ¤¦"),
            13 => String::from_str("ðŸ“± Apple removed the headphone jack AND the ability to type coherently. Brave. Try 'next game' maybe? ðŸŽ­"),
            14 => String::from_str("ðŸ“± 'Think Different'? Your iPhone isn't thinking at all. Neither was your wallet apparently. Try 'volunteers'! ðŸ¤‘"),
            15 => String::from_str("ðŸ“± You paid Apple prices for Android reliability. Congrats! ðŸŽ‰ Now try 'show volunteers' or 'next game'!"),
            _ => String::from_str("ðŸ“± Your iPhone has the computing power of a 2010 laptop at 3x the price. And it STILL autocorrected that wrong. 'next game'? ðŸš€"),
        };
        proof {
            assert(witty_pool().len() == 17);
            assert(r@ == witty_pool()[k as int]);
        }
        r
    }

    /// A suggestion naming what is still missing from a half-understood
    /// intent.
    pub fn get_helpful_suggestion(&self, intent: &ParsedIntent) -> (r: String)
        ensures
            r@ == helpful_suggestion_spec(intent@),
    {
        match intent {
            ParsedIntent::Volunteer { roles, date, person, relative_game } => {
                let mut parts: Vec<Vec<char>> = Vec::new();
                proof {
                    assert(roles.deep_view().len() == roles@.len());
                }
                if roles.len() == 0 {
                    parts.push(chars_of("what you'd like to volunteer for (snacks, livestream, scoreboard, or pitch count)"));
                }
                if date.is_none() && relative_game.is_none() {
                    parts.push(chars_of("which game (like 'next game' or 'Saturday')"));
                }
                if person.is_none() {
                    parts.push(chars_of("your name"));
                }
                proof {
                    assert(views_of(parts@) =~= suggestion_list(intent@));
                }
                if parts.len() == 0 {
                    String::from_str("ðŸ´â€â˜ ï¸ I think you want to volunteer! Let me check on that...")
                } else {
                    let mut out = chars_of("ðŸ´â€â˜ ï¸ I think you want to volunteer! Could you also mention ");
                    let joined = join_separated(&parts, " and ");
                    append_chars(&mut out, &joined);
                    out.push('?');
                    proof {
                        assert(out@ =~= helpful_suggestion_spec(intent@));
                    }
                    string_from_chars(&out)
                }
            },
            ParsedIntent::GameQuery { category, .. } => {
                match category {
                    None => String::from_str("âš¾ Looking for game info? Let me show you what's coming up!"),
                    Some(c) => {
                        let mut out = chars_of("âš¾ Looking for ");
                        let cv = chars_of(c.as_str());
                        append_chars(&mut out, &cv);
                        let suffix = chars_of(" info? Here's what I found!");
                        append_chars(&mut out, &suffix);
                        string_from_chars(&out)
                    },
                }
            },
            _ => String::from_str("ðŸ´â€â˜ ï¸ Let me show you what I can help with!"),
        }
    }
}

/// The items a volunteer suggestion asks for: role, game and name, in that
/// order, each only when missing.
pub open spec fn suggestion_list(i: IntentView) -> Seq<Seq<char>> {
    match i {
        IntentView::Volunteer { roles, date, person, relative_game } => (
            if roles.len() == 0 {
                seq!["what you'd like to volunteer for (snacks, livestream, scoreboard, or pitch count)"@]
            } else {
                Seq::empty()
            }) + (
            if date is None && relative_game is None {
                seq!["which game (like 'next game' or 'Saturday')"@]
            } else {
                Seq::empty()
            }) + (
            if person is None {
                seq!["your name"@]
            } else {
                Seq::empty()
            }),
        _ => Seq::empty(),
    }
}

/// The suggestion text for a half-understood intent.
pub open spec fn helpful_suggestion_spec(i: IntentView) -> Seq<char> {
    match i {
        IntentView::Volunteer { roles, date, person, relative_game } => {
            if suggestion_list(i).len() == 0 {
                "ðŸ´â€â˜ ï¸ I think you want to volunteer! Let me check on that..."@
            } else {
                "ðŸ´â€â˜ ï¸ I think you want to volunteer! Could you also mention "@ + join_with(suggestion_list(i), " and "@) + seq!['?']
            }
        },
        IntentView::GameQuery { category, count, relative } => match category {
            None => "âš¾ Looking for game info? Let me show you what's coming up!"@,
            Some(c) => "âš¾ Looking for "@ + c + " info? Here's what I found!"@,
        },
        _ => "ðŸ´â€â˜ ï¸ Let me show you what I can help with!"@,
    }
}

} // verus!
