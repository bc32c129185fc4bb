//! Plain data carried between the chat webhook, the parser and the
//! command executor, together with the command type the translator
//! produces and its mathematical view.

use vstd::prelude::*;
use crate::dates::{Date, day_index, valid_date};

verus! {

/// One attachment of a chat message.  For mention-typed attachments,
/// `user_ids` lists the mentioned users.
#[derive(Debug, Clone)]
pub struct Attachment {
    pub attachment_type: String,
    pub user_ids: Vec<String>,
    pub loci: Vec<Vec<i32>>,
}

/// An inbound chat message as the webhook delivers it.
#[derive(Debug)]
pub struct GroupMeMessage {
    pub text: String,
    pub sender_type: String,
    pub name: String,
    pub user_id: String,
    pub attachments: Vec<Attachment>,
}

/// A message record as the chat history API returns it.
#[derive(Debug, Clone)]
pub struct GroupMeMessageInfo {
    pub id: String,
    pub text: String,
    pub name: String,
    pub user_id: String,
    pub sender_type: String,
    pub created_at: i64,
}

/// An outbound bot message.
#[derive(Debug)]
pub struct GroupMePostMessage {
    pub bot_id: String,
    pub text: String,
}

/// The cell grid of a spreadsheet range.
#[derive(Debug)]
pub struct SheetsResponse {
    pub values: Option<Vec<Vec<String>>>,
}

/// Credentials of a service account, as its key file holds them.
#[derive(Debug)]
pub struct ServiceAccountKey {
    pub client_email: String,
    pub private_key: String,
    pub token_uri: String,
}

/// Runtime configuration; the process edge fills it from the environment.
#[derive(Debug, Clone)]
pub struct Config {
    pub groupme_bot_id: String,
    pub groupme_bot_name: String,
    pub sheet_id: String,
    pub google_api_key: String,
    pub port: u16,
    pub reminder_start_hour: u32,
    pub reminder_end_hour: u32,
    pub admin_user_id: String,
    pub groupme_access_token: Option<String>,
    pub groupme_group_id: Option<String>,
    pub team_name: String,
    pub team_emoji: String,
    pub enable_team_facts: bool,
    pub team_facts_file: Option<String>,
}

/// The first complaint the configuration earns, if any: the checks run in
/// a fixed order and the first failure wins.
pub open spec fn config_complaint(c: Config) -> Option<Seq<char>> {
    if c.groupme_bot_id@.len() == 0 {
        Some("GROUPME_BOT_ID cannot be empty"@)
    } else if c.google_api_key@.len() == 0 {
        Some("GOOGLE_API_KEY cannot be empty"@)
    } else if c.reminder_start_hour >= 24 {
        Some("REMINDER_START_HOUR must be between 0 and 23"@)
    } else if c.reminder_end_hour > 24 {
        Some("REMINDER_END_HOUR must be between 1 and 24"@)
    } else if c.reminder_start_hour >= c.reminder_end_hour {
        Some("REMINDER_START_HOUR must be less than REMINDER_END_HOUR"@)
    } else {
        None
    }
}

impl Config {
    /// Validate the configuration: required values present, reminder
    /// hours in range and ordered.
    pub fn check(&self) -> (r: Result<(), crate::error::BotError>)
        ensures
            match r {
                Ok(_) => config_complaint(*self) is None,
                Err(e) => config_complaint(*self) == Some(e.text()),
            },
    {
        if self.groupme_bot_id.as_str().is_empty() {
            Err(crate::error::BotError::EnvVar(String::from_str("GROUPME_BOT_ID cannot be empty")))
        } else if self.google_api_key.as_str().is_empty() {
            Err(crate::error::BotError::EnvVar(String::from_str("GOOGLE_API_KEY cannot be empty")))
        } else if self.reminder_start_hour >= 24 {
            Err(
                crate::error::BotError::EnvVar(
                    String::from_str("REMINDER_START_HOUR must be between 0 and 23"),
                ),
            )
        } else if self.reminder_end_hour > 24 {
            Err(
                crate::error::BotError::EnvVar(
                    String::from_str("REMINDER_END_HOUR must be between 1 and 24"),
                ),
            )
        } else if self.reminder_start_hour >= self.reminder_end_hour {
            Err(
                crate::error::BotError::EnvVar(
                    String::from_str("REMINDER_START_HOUR must be less than REMINDER_END_HOUR"),
                ),
            )
        } else {
            Ok(())
        }
    }
}

/// A fully specified executable request, produced only by the translator.
#[derive(Debug)]
pub enum BotCommand {
    NextGame,
    NextGames(usize),
    NextGameCategory(String),
    LetsGo(String),
    Volunteer(Date, String, String),
    ShowVolunteers(Option<Date>),
    Commands,
    VolunteerNextGame(String, String),
    RemoveVolunteer(String, String, Option<Date>),
    AssignVolunteer(String, String, Option<Date>),
    AddModerator(String),
    RemoveModerator(String),
    ListModerators,
    ListBotMessages(usize),
    DeleteBotMessage(String),
    CleanBotMessages(usize),
}

/// The mathematical shape of a command: strings as character sequences,
/// dates as day indices.
pub enum CommandView {
    NextGame,
    NextGames(int),
    NextGameCategory(Seq<char>),
    LetsGo(Seq<char>),
    Volunteer(int, Seq<char>, Seq<char>),
    ShowVolunteers(Option<int>),
    Commands,
    VolunteerNextGame(Seq<char>, Seq<char>),
    RemoveVolunteer(Seq<char>, Seq<char>, Option<int>),
    AssignVolunteer(Seq<char>, Seq<char>, Option<int>),
    AddModerator(Seq<char>),
    RemoveModerator(Seq<char>),
    ListModerators,
    ListBotMessages(int),
    DeleteBotMessage(Seq<char>),
    CleanBotMessages(int),
}

pub open spec fn opt_date_idx(d: Option<Date>) -> Option<int> {
    match d {
        Some(x) => Some(day_index(x)),
        None => None,
    }
}

impl View for BotCommand {
    type V = CommandView;

    open spec fn view(&self) -> CommandView {
        match self {
            BotCommand::NextGame => CommandView::NextGame,
            BotCommand::NextGames(n) => CommandView::NextGames(*n as int),
            BotCommand::NextGameCategory(c) => CommandView::NextGameCategory(c@),
            BotCommand::LetsGo(t) => CommandView::LetsGo(t@),
            BotCommand::Volunteer(d, r, p) => CommandView::Volunteer(day_index(*d), r@, p@),
            BotCommand::ShowVolunteers(d) => CommandView::ShowVolunteers(opt_date_idx(*d)),
            BotCommand::Commands => CommandView::Commands,
            BotCommand::VolunteerNextGame(r, p) => CommandView::VolunteerNextGame(r@, p@),
            BotCommand::RemoveVolunteer(p, r, d) => CommandView::RemoveVolunteer(
                p@,
                r@,
                opt_date_idx(*d),
            ),
            BotCommand::AssignVolunteer(p, r, d) => CommandView::AssignVolunteer(
                p@,
                r@,
                opt_date_idx(*d),
            ),
            BotCommand::AddModerator(u) => CommandView::AddModerator(u@),
            BotCommand::RemoveModerator(u) => CommandView::RemoveModerator(u@),
            BotCommand::ListModerators => CommandView::ListModerators,
            BotCommand::ListBotMessages(n) => CommandView::ListBotMessages(*n as int),
            BotCommand::DeleteBotMessage(m) => CommandView::DeleteBotMessage(m@),
            BotCommand::CleanBotMessages(n) => CommandView::CleanBotMessages(*n as int),
        }
    }
}

/// Every date held by a command is a valid calendar date.
pub open spec fn command_dates_valid(c: BotCommand) -> bool {
    match c {
        BotCommand::Volunteer(d, _, _) => valid_date(d),
        BotCommand::ShowVolunteers(d) => match d {
            Some(x) => valid_date(x),
            None => true,
        },
        BotCommand::RemoveVolunteer(_, _, d) => match d {
            Some(x) => valid_date(x),
            None => true,
        },
        BotCommand::AssignVolunteer(_, _, d) => match d {
            Some(x) => valid_date(x),
            None => true,
        },
        _ => true,
    }
}

} // verus!
