//! The confidence gate and the intent-to-command translator, and the
//! parser that strings them together: gate, classify, update the
//! conversation context, translate.

use vstd::prelude::*;
use crate::text::{
    contains_seq, lower_seq, trim_seq, contains_sub, contains_vec, to_lower, trim, chars_of,
    string_from_chars, append_chars,
};
use crate::extract::is_upper_char;
use crate::intent::{
    ParsedIntent, IntentView, ConversationalParser, classify_spec, mention_of, opt_name,
    witty_pool, wf_intent,
};
use crate::context::{
    ConversationContextStore, ConversationContext, evicted, drop_user, refreshed,
    has_volunteer_ctx, lemma_evict_idempotent,
};
use crate::models::{Attachment, BotCommand, CommandView};
use crate::error::BotError;
use crate::dates::{Date, valid_date};

verus! {

// ---------------------------------------------------------------------------
// The confidence gate
// ---------------------------------------------------------------------------

pub open spec fn high_conf(tl: Seq<char>) -> bool {
    ||| contains_seq(tl, "i'll do"@)
    ||| contains_seq(tl, "i've got"@)
    ||| contains_seq(tl, "i can do"@)
    ||| contains_seq(tl, "i'll bring"@)
    ||| contains_seq(tl, "put me down"@)
    ||| contains_seq(tl, "sign me up"@)
    ||| contains_seq(tl, "i got"@)
    ||| contains_seq(tl, "i will do"@)
}

pub open spec fn medium_conf(tl: Seq<char>) -> bool {
    ||| contains_seq(tl, "will do"@)
    ||| contains_seq(tl, "can do"@)
    ||| contains_seq(tl, "doing"@)
    ||| contains_seq(tl, "bringing"@)
}

pub open spec fn question_marker(tl: Seq<char>) -> bool {
    ||| contains_seq(tl, "who"@)
    ||| contains_seq(tl, "what"@)
    ||| contains_seq(tl, "when"@)
    ||| contains_seq(tl, "where"@)
    ||| contains_seq(tl, "?"@)
}

pub open spec fn negation_marker(tl: Seq<char>) -> bool {
    ||| contains_seq(tl, "can't"@)
    ||| contains_seq(tl, "won't"@)
    ||| contains_seq(tl, "not doing"@)
    ||| contains_seq(tl, "unable"@)
}

pub open spec fn has_upper(t: Seq<char>) -> bool {
    exists|i: int| 0 <= i < t.len() && is_upper_char(t[i])
}

/// The volunteer-reply confidence of trimmed text `t`: mention and live
/// context add 50 and 30; a high-confidence verb phrase adds 40; else a
/// medium-confidence phrase adds 20, or 40 when a live context and a
/// capital letter reinforce it; a question marker subtracts 30, floored at
/// zero; a negation marker overrides everything to zero.
pub open spec fn confidence_spec(t: Seq<char>, has_context: bool, mentioned_bot: bool) -> int {
    let tl = lower_seq(t);
    let base: int = (if mentioned_bot {
        50int
    } else {
        0int
    }) + (if has_context {
        30int
    } else {
        0int
    });
    let c1: int = base + if high_conf(tl) {
        40int
    } else if medium_conf(tl) {
        if has_context && has_upper(t) {
            40int
        } else {
            20int
        }
    } else {
        0int
    };
    let c2: int = if question_marker(tl) {
        if c1 >= 30 {
            c1 - 30
        } else {
            0
        }
    } else {
        c1
    };
    if negation_marker(tl) {
        0
    } else {
        c2
    }
}

fn has_upper_x(t: &Vec<char>) -> (r: bool)
    ensures
        r == has_upper(t@),
{
    let len = t.len();
    let mut i: usize = 0;
    while i < len
        invariant
            i <= len,
            len == t@.len(),
            forall|k: int| 0 <= k < i ==> !is_upper_char(t@[k]),
        decreases len - i,
    {
        let u = t[i] as u32;
        if 65 <= u && u <= 90 {
            return true;
        }
        i = i + 1;
    }
    false
}

fn confidence_vec(t: &Vec<char>, has_context: bool, mentioned_bot: bool) -> (r: u32)
    ensures
        r as int == confidence_spec(t@, has_context, mentioned_bot),
{
    let tl = to_lower(t);
    let mut confidence: u32 = 0;
    if mentioned_bot {
        confidence = confidence + 50;
    }
    if has_context {
        confidence = confidence + 30;
    }
    if contains_sub(&tl, "i'll do") || contains_sub(&tl, "i've got") || contains_sub(
        &tl,
        "i can do",
    ) || contains_sub(&tl, "i'll bring") || contains_sub(&tl, "put me down") || contains_sub(
        &tl,
        "sign me up",
    ) || contains_sub(&tl, "i got") || contains_sub(&tl, "i will do") {
        confidence = confidence + 40;
    } else if contains_sub(&tl, "will do") || contains_sub(&tl, "can do") || contains_sub(
        &tl,
        "doing",
    ) || contains_sub(&tl, "bringing") {
        if has_context && has_upper_x(t) {
            confidence = confidence + 40;
        } else {
            confidence = confidence + 20;
        }
    }
    if contains_sub(&tl, "who") || contains_sub(&tl, "what") || contains_sub(&tl, "when")
        || contains_sub(&tl, "where") || contains_sub(&tl, "?") {
        if confidence >= 30 {
            confidence = confidence - 30;
        } else {
            confidence = 0;
        }
    }
    if contains_sub(&tl, "can't") || contains_sub(&tl, "won't") || contains_sub(&tl, "not doing")
        || contains_sub(&tl, "unable") {
        confidence = 0;
    }
    confidence
}

// ---------------------------------------------------------------------------
// Translation
// ---------------------------------------------------------------------------

pub open spec fn res_view(r: Result<Option<BotCommand>, BotError>) -> Result<
    Option<CommandView>,
    Seq<char>,
> {
    match r {
        Ok(c) => Ok(
            match c {
                Some(cmd) => Some(cmd@),
                None => None,
            },
        ),
        Err(e) => Err(e.text()),
    }
}

/// The clarification asking a named person for the role.
pub open spec fn clarify_role_msg(p: Seq<char>) -> Seq<char> {
    "🏴‍☠️ Thanks "@ + p + "! What would you like to volunteer for? (snacks, livestream, scoreboard, or pitch count)"@
}

/// The clarification asking for the volunteer's name.
pub open spec fn clarify_person_msg(role: Seq<char>) -> Seq<char> {
    "🏴‍☠️ Great! Someone wants to do "@ + role + "! Could you tell me your name?"@
}

pub open spec fn generic_volunteer_msg() -> Seq<char> {
    "🏴‍☠️ I think you want to volunteer! Tell me what role you'd like and your name, and I'll sign you up for the next game! 😊"@
}

pub open spec fn delete_id_msg() -> Seq<char> {
    "⚾ Please provide a message ID to delete. Use 'list messages' to see message IDs."@
}

/// Resolution of a volunteer intent: a dated command when role, date and
/// person are all present; the next-game command when only the date is
/// missing, whatever the relative-game index said; otherwise the
/// clarification naming what is missing.
pub open spec fn volunteer_translation(
    roles: Seq<Seq<char>>,
    date: Option<int>,
    person: Option<Seq<char>>,
) -> Result<Option<CommandView>, Seq<char>> {
    if roles.len() > 0 && date is Some && person is Some {
        Ok(Some(CommandView::Volunteer(date->Some_0, roles[0], person->Some_0)))
    } else if roles.len() > 0 && date is None && person is Some {
        Ok(Some(CommandView::VolunteerNextGame(roles[0], person->Some_0)))
    } else if roles.len() == 0 && person is Some {
        Err(clarify_role_msg(person->Some_0))
    } else if roles.len() > 0 && person is None {
        Err(clarify_person_msg(roles[0]))
    } else {
        Err(generic_volunteer_msg())
    }
}

/// Resolution of a game query: a category lookup when one was named, else
/// the asked-for number of games (one through ten; out of range falls back
/// to three), else the next game.
pub open spec fn game_query_translation(category: Option<Seq<char>>, count: Option<int>) -> Result<
    Option<CommandView>,
    Seq<char>,
> {
    match category {
        Some(c) => Ok(Some(CommandView::NextGameCategory(c))),
        None => match count {
            Some(n) => if 0 < n <= 10 {
                Ok(Some(CommandView::NextGames(n)))
            } else {
                Ok(Some(CommandView::NextGames(3)))
            },
            None => Ok(Some(CommandView::NextGame)),
        },
    }
}

/// The deterministic part of the translator; the unknown intent instead
/// draws a random friendly non-answer and is specified at its call sites.
pub open spec fn translation(i: IntentView) -> Result<Option<CommandView>, Seq<char>> {
    match i {
        IntentView::Volunteer { roles, date, person, relative_game } => volunteer_translation(
            roles,
            date,
            person,
        ),
        IntentView::GameQuery { category, count, relative } => game_query_translation(
            category,
            count,
        ),
        IntentView::VolunteerQuery { date } => Ok(Some(CommandView::ShowVolunteers(date))),
        IntentView::TeamSpirit => Ok(Some(CommandView::LetsGo("pirates"@))),
        IntentView::Help => Ok(Some(CommandView::Commands)),
        IntentView::ConversationalResponse { message } => Err(message),
        IntentView::RemoveVolunteer { person, role, date } => Ok(
            Some(CommandView::RemoveVolunteer(person, role, date)),
        ),
        IntentView::AssignVolunteer { person, role, date } => Ok(
            Some(CommandView::AssignVolunteer(person, role, date)),
        ),
        IntentView::AddModerator { user_id } => Ok(Some(CommandView::AddModerator(user_id))),
        IntentView::RemoveModerator { user_id } => Ok(Some(CommandView::RemoveModerator(user_id))),
        IntentView::ListModerators => Ok(Some(CommandView::ListModerators)),
        IntentView::ListBotMessages { count } => Ok(Some(CommandView::ListBotMessages(count))),
        IntentView::DeleteBotMessage { message_id } => if message_id.len() == 0 {
            Err(delete_id_msg())
        } else {
            Ok(Some(CommandView::DeleteBotMessage(message_id)))
        },
        IntentView::CleanBotMessages { count } => Ok(Some(CommandView::CleanBotMessages(count))),
        IntentView::Unknown => Err(Seq::empty()),
    }
}

// ---------------------------------------------------------------------------
// The processing decision
// ---------------------------------------------------------------------------

/// The message mentions the bot.
pub open spec fn mentioned_in(bot: Seq<char>, text: Seq<char>) -> bool {
    contains_seq(lower_seq(trim_seq(text)), mention_of(bot))
}

pub open spec fn has_ctx_opt(
    s: Seq<ConversationContext>,
    tm: i64,
    uid: Option<Seq<char>>,
    now: i64,
) -> bool {
    match uid {
        Some(u) => has_volunteer_ctx(s, u, now, tm),
        None => false,
    }
}

/// A message is processed when it mentions the bot, or scores at least 60
/// while its sender holds a live volunteer context.
pub open spec fn gate(
    bot: Seq<char>,
    text: Seq<char>,
    s: Seq<ConversationContext>,
    tm: i64,
    uid: Option<Seq<char>>,
    now: i64,
) -> bool {
    let mentioned = mentioned_in(bot, text);
    let has_ctx = has_ctx_opt(s, tm, uid, now);
    mentioned || (confidence_spec(trim_seq(text), has_ctx, mentioned) >= 60 && has_ctx)
}

pub open spec fn ctx_fields(
    c: ConversationContext,
    uid: Seq<char>,
    name: Seq<char>,
    ss: int,
    la: int,
    vi: bool,
    mb: bool,
) -> bool {
    c.user_id@ == uid && c.user_name@ == name && c.session_start == ss && c.last_activity == la
        && c.volunteer_intent == vi && c.mentioned_bot == mb
}

/// How one processed message changes the context store: a bot-mentioning
/// volunteer message overwrites the sender's context; any other processed
/// message from a sender with a live volunteer context refreshes its last
/// activity; everything else leaves the store as eviction left it.
pub open spec fn store_evolution(
    old_s: Seq<ConversationContext>,
    new_s: Seq<ConversationContext>,
    tm: i64,
    bot: Seq<char>,
    text: Seq<char>,
    sender: Option<Seq<char>>,
    uid: Option<Seq<char>>,
    atts: Seq<Attachment>,
    today: Date,
    now: i64,
) -> bool {
    let s1 = match uid {
        Some(u) => evicted(old_s, now, tm),
        None => old_s,
    };
    let processed = gate(bot, text, old_s, tm, uid, now);
    let iv = classify_spec(bot, text, sender, atts, today);
    if processed {
        if mentioned_in(bot, text) && iv is Volunteer {
            if uid is Some && sender is Some {
                &&& new_s.len() == drop_user(s1, uid->Some_0).len() + 1
                &&& new_s.subrange(0, new_s.len() - 1) == drop_user(s1, uid->Some_0)
                &&& ctx_fields(
                    new_s.last(),
                    uid->Some_0,
                    sender->Some_0,
                    now as int,
                    now as int,
                    true,
                    true,
                )
            } else {
                new_s == s1
            }
        } else if has_ctx_opt(old_s, tm, uid, now) && uid is Some {
            new_s == refreshed(s1, uid->Some_0, now)
        } else {
            new_s == s1
        }
    } else {
        new_s == s1
    }
}

// ---------------------------------------------------------------------------
// The parser
// ---------------------------------------------------------------------------

/// Parses inbound messages into commands, consulting and updating the
/// per-user conversation context.
pub struct CommandParser {
    pub bot_name: String,
    pub context_store: ConversationContextStore,
    pub conversational_parser: ConversationalParser,
}

impl CommandParser {
    /// A parser for the given bot name, with an empty context store and a
    /// three-minute session timeout.
    pub fn new(bot_name: String) -> (r: Self)
        ensures
            r.bot_name@ == bot_name@,
            r.conversational_parser.bot_name@ == bot_name@,
            r.context_store.contexts@.len() == 0,
            r.context_store.session_timeout_minutes == 3,
    {
        let conversational_parser = ConversationalParser::new(bot_name.clone());
        CommandParser {
            bot_name,
            conversational_parser,
            context_store: ConversationContextStore::new(3),
        }
    }

    /// The volunteer-reply confidence of the text.
    pub fn calculate_volunteer_confidence(
        &self,
        text: &str,
        has_context: bool,
        mentioned_bot: bool,
    ) -> (r: u32)
        ensures
            r as int == confidence_spec(text@, has_context, mentioned_bot),
    {
        let tv = chars_of(text);
        confidence_vec(&tv, has_context, mentioned_bot)
    }

    fn handle_volunteer_intent(
        &self,
        roles: Vec<String>,
        date: Option<Date>,
        person: Option<String>,
        relative_game: Option<usize>,
    ) -> (r: Result<Option<BotCommand>, BotError>)
        ensures
            res_view(r) == volunteer_translation(
                roles.deep_view(),
                crate::intent::opt_date_view(date),
                crate::intent::opt_string_view(person),
            ),
            (match date {
                Some(d) => valid_date(d),
                None => true,
            }) ==> (r matches Ok(Some(c)) ==> crate::models::command_dates_valid(c)),
    {
        proof {
            assert(roles.deep_view().len() == roles@.len());
        }
        if roles.len() > 0 {
            let role = roles[0].clone();
            proof {
                assert(roles.deep_view()[0] == roles@[0]@);
            }
            match (date, person) {
                (Some(d), Some(p)) => Ok(Some(BotCommand::Volunteer(d, role, p))),
                (None, Some(p)) => Ok(Some(BotCommand::VolunteerNextGame(role, p))),
                (_, None) => {
                    let mut msg = chars_of("🏴‍☠️ Great! Someone wants to do ");
                    let rv = chars_of(role.as_str());
                    append_chars(&mut msg, &rv);
                    let suf = chars_of("! Could you tell me your name?");
                    append_chars(&mut msg, &suf);
                    Err(BotError::InvalidCommand(string_from_chars(&msg)))
                },
            }
        } else {
            match person {
                Some(p) => {
                    let mut msg = chars_of("🏴‍☠️ Thanks ");
                    let pv = chars_of(p.as_str());
                    append_chars(&mut msg, &pv);
                    let suf = chars_of("! What would you like to volunteer for? (snacks, livestream, scoreboard, or pitch count)");
                    append_chars(&mut msg, &suf);
                    Err(BotError::InvalidCommand(string_from_chars(&msg)))
                },
                None => Err(BotError::InvalidCommand(String::from_str("🏴‍☠️ I think you want to volunteer! Tell me what role you'd like and your name, and I'll sign you up for the next game! 😊"))),
            }
        }
    }

    fn handle_game_query_intent(&self, category: Option<String>, count: Option<usize>) -> (r:
        Result<Option<BotCommand>, BotError>)
        ensures
            res_view(r) == game_query_translation(
                crate::intent::opt_string_view(category),
                crate::intent::opt_usize_view(count),
            ),
            r matches Ok(Some(c)) ==> crate::models::command_dates_valid(c),
    {
        match category {
            Some(cat) => Ok(Some(BotCommand::NextGameCategory(cat))),
            None => match count {
                Some(n) => if 0 < n && n <= 10 {
                    Ok(Some(BotCommand::NextGames(n)))
                } else {
                    Ok(Some(BotCommand::NextGames(3)))
                },
                None => Ok(Some(BotCommand::NextGame)),
            },
        }
    }

    /// Translate a classified intent into a command or a clarification.
    /// The unknown intent draws one of the fixed friendly non-answers.
    pub fn intent_to_command(&self, intent: ParsedIntent) -> (r: Result<Option<BotCommand>, BotError>)
        ensures
            intent@ is Unknown ==> r is Err && exists|k: int|
                0 <= k < witty_pool().len() && r->Err_0.text() == witty_pool()[k],
            !(intent@ is Unknown) ==> res_view(r) == translation(intent@),
            wf_intent(intent) ==> (r matches Ok(Some(c)) ==> crate::models::command_dates_valid(
                c,
            )),
    {
        match intent {
            ParsedIntent::Volunteer { roles, date, person, relative_game } => self
                .handle_volunteer_intent(roles, date, person, relative_game),
            ParsedIntent::GameQuery { category, count, relative } => self.handle_game_query_intent(
                category,
                count,
            ),
            ParsedIntent::VolunteerQuery { date } => Ok(Some(BotCommand::ShowVolunteers(date))),
            ParsedIntent::TeamSpirit => Ok(
                Some(BotCommand::LetsGo(String::from_str("pirates"))),
            ),
            ParsedIntent::Help => Ok(Some(BotCommand::Commands)),
            ParsedIntent::ConversationalResponse { message } => Err(
                BotError::InvalidCommand(message),
            ),
            ParsedIntent::RemoveVolunteer { person, role, date } => Ok(
                Some(BotCommand::RemoveVolunteer(person, role, date)),
            ),
            ParsedIntent::AssignVolunteer { person, role, date } => Ok(
                Some(BotCommand::AssignVolunteer(person, role, date)),
            ),
            ParsedIntent::AddModerator { user_id } => Ok(Some(BotCommand::AddModerator(user_id))),
            ParsedIntent::RemoveModerator { user_id } => Ok(
                Some(BotCommand::RemoveModerator(user_id)),
            ),
            ParsedIntent::ListModerators => Ok(Some(BotCommand::ListModerators)),
            ParsedIntent::ListBotMessages { count } => Ok(
                Some(BotCommand::ListBotMessages(count)),
            ),
            ParsedIntent::DeleteBotMessage { message_id } => {
                if message_id.as_str().is_empty() {
                    Err(BotError::InvalidCommand(String::from_str("⚾ Please provide a message ID to delete. Use 'list messages' to see message IDs.")))
                } else {
                    Ok(Some(BotCommand::DeleteBotMessage(message_id)))
                }
            },
            ParsedIntent::CleanBotMessages { count } => Ok(
                Some(BotCommand::CleanBotMessages(count)),
            ),
            ParsedIntent::Unknown => Err(
                BotError::InvalidCommand(self.conversational_parser.get_witty_response()),
            ),
        }
    }

    /// Parse one inbound message end to end: gate it on mention or
    /// confidence, classify it, update the sender's conversation context,
    /// and translate the intent.  A confidence-gated continuation carries
    /// no mention token but is classified and answered all the same, and
    /// keeps its sender's context alive.  An ignored message yields
    /// nothing; a clarification or the friendly non-answer travels on the
    /// error side, as reply text.
    pub fn parse_message(
        &mut self,
        text: &str,
        sender_name: Option<&str>,
        user_id: Option<&str>,
        attachments: &[Attachment],
        today: Date,
        now: i64,
    ) -> (r: Result<Option<BotCommand>, BotError>)
        requires
            valid_date(today),
            today.year <= 9998,
            old(self).conversational_parser.bot_name@ == old(self).bot_name@,
        ensures
            final(self).bot_name == old(self).bot_name,
            final(self).conversational_parser == old(self).conversational_parser,
            final(self).context_store.session_timeout_minutes == old(
                self,
            ).context_store.session_timeout_minutes,
            store_evolution(
                old(self).context_store.contexts@,
                final(self).context_store.contexts@,
                old(self).context_store.session_timeout_minutes,
                old(self).bot_name@,
                text@,
                opt_name(sender_name),
                opt_name(user_id),
                attachments@,
                today,
                now,
            ),
            ({
                let processed = gate(
                    old(self).bot_name@,
                    text@,
                    old(self).context_store.contexts@,
                    old(self).context_store.session_timeout_minutes,
                    opt_name(user_id),
                    now,
                );
                let iv = classify_spec(
                    old(self).bot_name@,
                    text@,
                    opt_name(sender_name),
                    attachments@,
                    today,
                );
                if !processed {
                    r matches Ok(None)
                } else if iv is Unknown {
                    r is Err && exists|k: int|
                        0 <= k < witty_pool().len() && r->Err_0.text() == witty_pool()[k]
                } else {
                    res_view(r) == translation(iv)
                }
            }),
    {
        let ghost old_s = self.context_store.contexts@;
        let ghost tm = self.context_store.session_timeout_minutes;
        let tv = chars_of(text);
        let trimmed = trim(&tv);
        let tl = to_lower(&trimmed);
        let bn = chars_of(self.bot_name.as_str());
        let lbn = to_lower(&bn);
        let mut mention: Vec<char> = Vec::new();
        mention.push('@');
        append_chars(&mut mention, &lbn);
        proof {
            assert(mention@ =~= mention_of(self.bot_name@));
        }
        let mentioned = contains_vec(&tl, &mention);
        let has_ctx: bool = match user_id {
            Some(u) => {
                let c = self.context_store.get_active_context(u, now);
                match c {
                    Some(cc) => cc.volunteer_intent,
                    None => false,
                }
            },
            None => false,
        };
        let conf = confidence_vec(&trimmed, has_ctx, mentioned);
        let should_process = mentioned || (conf >= 60 && has_ctx);
        if !should_process {
            return Ok(None);
        }
        let intent = self.conversational_parser.classify_message(
            text,
            sender_name,
            attachments,
            today,
        );
        let is_vol = match &intent {
            ParsedIntent::Volunteer { .. } => true,
            _ => false,
        };
        if mentioned && is_vol {
            if let (Some(u), Some(nm)) = (user_id, sender_name) {
                proof {
                    lemma_evict_idempotent(old_s, now, tm);
                }
                self.context_store.create_or_update_context(
                    String::from_str(u),
                    String::from_str(nm),
                    true,
                    true,
                    now,
                );
                proof {
                    let ns = self.context_store.contexts@;
                    let base = drop_user(evicted(old_s, now, tm), u@);
                    assert(ns.subrange(0, ns.len() - 1) =~= base);
                    assert(ns.last() == ns[ns.len() - 1]);
                }
            }
        } else if has_ctx {
            if let Some(u) = user_id {
                proof {
                    lemma_evict_idempotent(old_s, now, tm);
                }
                self.context_store.update_activity(u, now);
            }
        }
        self.intent_to_command(intent)
    }
}

} // verus!
