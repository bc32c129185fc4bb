//! The commands overview: the text the bot answers with when asked what
//! it can do, assembled from the bot's name and the team branding.

use vstd::prelude::*;
use crate::text::{lower_seq, to_lower, chars_of, string_from_chars, append_chars};

verus! {

/// The team-spirit line of the overview: a fact teaser when facts are on.
pub open spec fn spirit_line(team: Seq<char>, enable_facts: bool) -> Seq<char> {
    if enable_facts {
        "Get a "@ + team + " fact!"@
    } else {
        "Show team spirit!"@
    }
}

/// The full commands overview text.
pub open spec fn overview_spec(
    bot: Seq<char>,
    team: Seq<char>,
    emoji: Seq<char>,
    enable_facts: bool,
) -> Seq<char> {
    let team_lower = lower_seq(team);
    let spirit = spirit_line(team, enable_facts);
    "⚾ "@ + bot + " Commands:

                     "@ + emoji + " Game Info:
                     • @"@ + bot + " next game - Full details for next game
                     • @"@ + bot + " next 3 games - Show next 3 games
                     • @"@ + bot + " next game snacks - Get snacks info for next game

                     "@ + emoji + " Team Spirit:
                     • @"@ + bot + " lets go "@ + team_lower + " - "@ + spirit + "

                     "@ + emoji + " Volunteers:
                     • @"@ + bot + " volunteer snacks 2025-01-15 John - Sign up to volunteer
                     • @"@ + bot + " volunteers - Show all volunteer needs
                     • @"@ + bot + " volunteers 2025-01-15 - Show needs for specific date

                     📋 Categories: time, location, home, snacks, livestream, scoreboard, pitchcount, gamechanger

                     "@ + emoji + " Let's go "@ + team + "! ⚾"@
}

/// Build the commands overview for the given bot name and team branding.
pub fn commands_overview(
    bot_name: &str,
    team_name: &str,
    team_emoji: &str,
    enable_facts: bool,
) -> (r: String)
    ensures
        r@ == overview_spec(bot_name@, team_name@, team_emoji@, enable_facts),
{
    let botv = chars_of(bot_name);
    let teamv = chars_of(team_name);
    let emojiv = chars_of(team_emoji);
    let team_lowerv = to_lower(&teamv);
    let spiritv: Vec<char> = if enable_facts {
        let mut sp = chars_of("Get a ");
        append_chars(&mut sp, &teamv);
        let tail = chars_of(" fact!");
        append_chars(&mut sp, &tail);
        sp
    } else {
        chars_of("Show team spirit!")
    };
    let mut out = chars_of("⚾ ");
    append_chars(&mut out, &botv);
    let s1 = chars_of(" Commands:

                     ");
    append_chars(&mut out, &s1);
    append_chars(&mut out, &emojiv);
    let s2 = chars_of(" Game Info:
                     • @");
    append_chars(&mut out, &s2);
    append_chars(&mut out, &botv);
    let s3 = chars_of(" next game - Full details for next game
                     • @");
    append_chars(&mut out, &s3);
    append_chars(&mut out, &botv);
    let s4 = chars_of(" next 3 games - Show next 3 games
                     • @");
    append_chars(&mut out, &s4);
    append_chars(&mut out, &botv);
    let s5 = chars_of(" next game snacks - Get snacks info for next game

                     ");
    append_chars(&mut out, &s5);
    append_chars(&mut out, &emojiv);
    let s6 = chars_of(" Team Spirit:
                     • @");
    append_chars(&mut out, &s6);
    append_chars(&mut out, &botv);
    let s7 = chars_of(" lets go ");
    append_chars(&mut out, &s7);
    append_chars(&mut out, &team_lowerv);
    let s8 = chars_of(" - ");
    append_chars(&mut out, &s8);
    append_chars(&mut out, &spiritv);
    let s9 = chars_of("

                     ");
    append_chars(&mut out, &s9);
    append_chars(&mut out, &emojiv);
    let s10 = chars_of(" Volunteers:
                     • @");
    append_chars(&mut out, &s10);
    append_chars(&mut out, &botv);
    let s11 = chars_of(" volunteer snacks 2025-01-15 John - Sign up to volunteer
                     • @");
    append_chars(&mut out, &s11);
    append_chars(&mut out, &botv);
    let s12 = chars_of(" volunteers - Show all volunteer needs
                     • @");
    append_chars(&mut out, &s12);
    append_chars(&mut out, &botv);
    let s13 = chars_of(" volunteers 2025-01-15 - Show needs for specific date

                     📋 Categories: time, location, home, snacks, livestream, scoreboard, pitchcount, gamechanger

                     ");
    append_chars(&mut out, &s13);
    append_chars(&mut out, &emojiv);
    let s14 = chars_of(" Let's go ");
    append_chars(&mut out, &s14);
    append_chars(&mut out, &teamv);
    let s15 = chars_of("! ⚾");
    append_chars(&mut out, &s15);
    string_from_chars(&out)
}

} // verus!
