//! Game events: one spreadsheet row's worth of schedule and volunteer
//! data, and the calendar-summary matchup parser that names the two teams.

use vstd::prelude::*;
use crate::text::{
    contains_seq, lower_seq, trim_seq, join_with, find_idx, rfind_idx, dec_digits, to_lower, trim,
    chars_of, string_from_chars, append_chars, seq_eq_str, subvec, find_sub, rfind_char,
    join_separated, render_padded,
};
use crate::intent::opt_string_view;
use crate::dates::{Date, valid_date};

verus! {

/// One game: date, time and place, plus who has each volunteer role.
#[derive(Debug, Clone)]
pub struct EventData {
    pub date: Date,
    pub time: String,
    pub location: String,
    pub home_team: String,
    pub snacks: Option<String>,
    pub livestream: Option<String>,
    pub scoreboard: Option<String>,
    pub pitch_count: Option<String>,
}

/// A calendar event joined with its spreadsheet row.
#[derive(Debug, Clone)]
pub struct CorrelatedEvent {
    pub event_date: Date,
    pub event_summary: String,
    pub data: EventData,
}

/// The volunteer slot a role name denotes: snacks 0, livestream 1,
/// scoreboard 2, pitch count 3; anything else is no slot.
pub open spec fn slot_of_role(rl: Seq<char>) -> int {
    if rl == "snacks"@ {
        0int
    } else if rl == "livestream"@ {
        1int
    } else if rl == "scoreboard"@ {
        2int
    } else if rl == "pitchcount"@ || rl == "pitch_count"@ {
        3int
    } else {
        -1int
    }
}

pub open spec fn get_slot(e: EventData, k: int) -> Option<Seq<char>> {
    if k == 0 {
        opt_string_view(e.snacks)
    } else if k == 1 {
        opt_string_view(e.livestream)
    } else if k == 2 {
        opt_string_view(e.scoreboard)
    } else {
        opt_string_view(e.pitch_count)
    }
}

/// The field a game-info category names.
pub open spec fn field_of(e: EventData, name: Seq<char>) -> Option<Seq<char>> {
    let fl = lower_seq(name);
    if fl == "time"@ {
        Some(e.time@)
    } else if fl == "location"@ {
        Some(e.location@)
    } else if fl == "hometeam"@ || fl == "home_team"@ || fl == "home"@ {
        Some(e.home_team@)
    } else if fl == "snacks"@ {
        opt_string_view(e.snacks)
    } else if fl == "livestream"@ {
        opt_string_view(e.livestream)
    } else if fl == "scoreboard"@ {
        opt_string_view(e.scoreboard)
    } else if fl == "pitchcount"@ || fl == "pitch_count"@ {
        opt_string_view(e.pitch_count)
    } else {
        None
    }
}

/// The result of percent-encoding a string for a URL, as
/// `urlencoding::encode` computes it.
pub uninterp spec fn url_encoded_of(s: Seq<char>) -> Seq<char>;

/// Relies on `urlencoding::encode`: percent-encoding, a function of the
/// characters alone; an empty string stays empty.
#[verifier::external_body]
fn url_encode(s: &str) -> (r: String)
    ensures
        r@ == url_encoded_of(s@),
        s@.len() == 0 ==> r@.len() == 0,
{
    urlencoding::encode(s).into_owned()
}

/// A location rendered with its map link, or "TBD" when empty.
pub open spec fn location_link(loc: Seq<char>) -> Seq<char> {
    if loc.len() == 0 {
        "TBD"@
    } else {
        loc + " (https://maps.google.com/?q="@ + url_encoded_of(loc) + ")"@
    }
}

/// The roles still unfilled, in display order.
pub open spec fn needs_list(e: EventData) -> Seq<Seq<char>> {
    (if e.snacks is None {
        seq!["snacks"@]
    } else {
        Seq::empty()
    }) + (if e.livestream is None {
        seq!["livestream"@]
    } else {
        Seq::empty()
    }) + (if e.scoreboard is None {
        seq!["scoreboard"@]
    } else {
        Seq::empty()
    }) + (if e.pitch_count is None {
        seq!["pitch_count"@]
    } else {
        Seq::empty()
    })
}

pub open spec fn volunteer_needs_msg(e: EventData) -> Seq<char> {
    if needs_list(e).len() == 0 {
        "✅ All volunteer roles are filled!"@
    } else {
        "⚠️ Still needed: "@ + join_with(needs_list(e), ", "@)
    }
}

/// A date as YYYY-MM-DD.
pub open spec fn date_str(d: Date) -> Seq<char> {
    dec_digits(d.year as int, 4) + seq!['-'] + dec_digits(d.month as int, 2) + seq!['-']
        + dec_digits(d.day as int, 2)
}

pub open spec fn opt_or_needed(o: Option<Seq<char>>) -> Seq<char> {
    match o {
        Some(s) => s,
        None => "⚠️ NEEDED"@,
    }
}

/// The full multi-line rendering of one game's details.
pub open spec fn format_all_spec(e: EventData) -> Seq<char> {
    "Date: "@ + date_str(e.date) + "\nTime: "@ + e.time@ + "\nLocation: "@ + location_link(
        e.location@,
    ) + "\nHome Team: "@ + e.home_team@ + "\nSnacks: "@ + opt_or_needed(opt_string_view(e.snacks))
        + "\nLivestream: "@ + opt_or_needed(opt_string_view(e.livestream)) + "\nScoreboard: "@
        + opt_or_needed(opt_string_view(e.scoreboard)) + "\nPitch Count: "@ + opt_or_needed(
        opt_string_view(e.pitch_count),
    ) + "\n"@
}

impl EventData {
    /// A row's event: empty volunteer cells become unfilled slots.
    pub fn new(
        date: Date,
        time: String,
        location: String,
        home_team: String,
        snacks: String,
        livestream: String,
        scoreboard: String,
        pitch_count: String,
    ) -> (r: EventData)
        ensures
            r.date == date,
            r.time == time,
            r.location == location,
            r.home_team == home_team,
            opt_string_view(r.snacks) == (if snacks@.len() == 0 {
                None::<Seq<char>>
            } else {
                Some(snacks@)
            }),
            opt_string_view(r.livestream) == (if livestream@.len() == 0 {
                None::<Seq<char>>
            } else {
                Some(livestream@)
            }),
            opt_string_view(r.scoreboard) == (if scoreboard@.len() == 0 {
                None::<Seq<char>>
            } else {
                Some(scoreboard@)
            }),
            opt_string_view(r.pitch_count) == (if pitch_count@.len() == 0 {
                None::<Seq<char>>
            } else {
                Some(pitch_count@)
            }),
    {
        EventData {
            date,
            time,
            location,
            home_team,
            snacks: if snacks.as_str().is_empty() {
                None
            } else {
                Some(snacks)
            },
            livestream: if livestream.as_str().is_empty() {
                None
            } else {
                Some(livestream)
            },
            scoreboard: if scoreboard.as_str().is_empty() {
                None
            } else {
                Some(scoreboard)
            },
            pitch_count: if pitch_count.as_str().is_empty() {
                None
            } else {
                Some(pitch_count)
            },
        }
    }

    /// Format the location as a map hyperlink.
    pub fn format_location_with_link(&self) -> (r: String)
        ensures
            r@ == location_link(self.location@),
    {
        if self.location.as_str().is_empty() {
            String::from_str("TBD")
        } else {
            let mut out = chars_of(self.location.as_str());
            let mid = chars_of(" (https://maps.google.com/?q=");
            append_chars(&mut out, &mid);
            let enc = url_encode(self.location.as_str());
            let encv = chars_of(enc.as_str());
            append_chars(&mut out, &encv);
            out.push(')');
            proof {
                reveal_strlit(")");
                assert(")"@ =~= seq![')']);
                assert(out@ =~= location_link(self.location@));
            }
            string_from_chars(&out)
        }
    }

    /// The field a category names, when present.
    pub fn get_field(&self, field_name: &str) -> (r: Option<&String>)
        ensures
            match r {
                Some(s) => field_of(*self, field_name@) == Some(s@),
                None => field_of(*self, field_name@) is None,
            },
    {
        let fv = chars_of(field_name);
        let fl = to_lower(&fv);
        if seq_eq_str(&fl, "time") {
            Some(&self.time)
        } else if seq_eq_str(&fl, "location") {
            Some(&self.location)
        } else if seq_eq_str(&fl, "hometeam") || seq_eq_str(&fl, "home_team") || seq_eq_str(
            &fl,
            "home",
        ) {
            Some(&self.home_team)
        } else if seq_eq_str(&fl, "snacks") {
            self.snacks.as_ref()
        } else if seq_eq_str(&fl, "livestream") {
            self.livestream.as_ref()
        } else if seq_eq_str(&fl, "scoreboard") {
            self.scoreboard.as_ref()
        } else if seq_eq_str(&fl, "pitchcount") || seq_eq_str(&fl, "pitch_count") {
            self.pitch_count.as_ref()
        } else {
            None
        }
    }

    /// Whether the role names a slot nobody has taken yet.
    pub fn is_role_available(&self, role: &str) -> (r: bool)
        ensures
            r == ({
                let k = slot_of_role(lower_seq(role@));
                k >= 0 && get_slot(*self, k) is None
            }),
    {
        let rv = chars_of(role);
        let rl = to_lower(&rv);
        if seq_eq_str(&rl, "snacks") {
            self.snacks.is_none()
        } else if seq_eq_str(&rl, "livestream") {
            self.livestream.is_none()
        } else if seq_eq_str(&rl, "scoreboard") {
            self.scoreboard.is_none()
        } else if seq_eq_str(&rl, "pitchcount") || seq_eq_str(&rl, "pitch_count") {
            self.pitch_count.is_none()
        } else {
            false
        }
    }

    /// Put the person into the role's slot when it is free; report whether
    /// anything changed.
    pub fn assign_volunteer(&mut self, role: &str, person: &str) -> (r: bool)
        ensures
            r == ({
                let k = slot_of_role(lower_seq(role@));
                k >= 0 && get_slot(*old(self), k) is None
            }),
            r ==> ({
                let k = slot_of_role(lower_seq(role@));
                &&& get_slot(*final(self), k) == Some(person@)
                &&& forall|k2: int| 0 <= k2 < 4 && k2 != k ==> get_slot(*final(self), k2)
                    == get_slot(*old(self), k2)
                &&& final(self).date == old(self).date
                &&& final(self).time == old(self).time
                &&& final(self).location == old(self).location
                &&& final(self).home_team == old(self).home_team
            }),
            !r ==> *final(self) == *old(self),
    {
        proof {
            lemma_role_literals();
        }
        let rv = chars_of(role);
        let rl = to_lower(&rv);
        if seq_eq_str(&rl, "snacks") && self.snacks.is_none() {
            self.snacks = Some(String::from_str(person));
            true
        } else if seq_eq_str(&rl, "livestream") && self.livestream.is_none() {
            self.livestream = Some(String::from_str(person));
            true
        } else if seq_eq_str(&rl, "scoreboard") && self.scoreboard.is_none() {
            self.scoreboard = Some(String::from_str(person));
            true
        } else if (seq_eq_str(&rl, "pitchcount") || seq_eq_str(&rl, "pitch_count"))
            && self.pitch_count.is_none() {
            self.pitch_count = Some(String::from_str(person));
            true
        } else {
            false
        }
    }

    /// List the roles still needing a volunteer.
    pub fn format_volunteer_needs(&self) -> (r: String)
        ensures
            r@ == volunteer_needs_msg(*self),
    {
        let mut parts: Vec<Vec<char>> = Vec::new();
        if self.snacks.is_none() {
            parts.push(chars_of("snacks"));
        }
        if self.livestream.is_none() {
            parts.push(chars_of("livestream"));
        }
        if self.scoreboard.is_none() {
            parts.push(chars_of("scoreboard"));
        }
        if self.pitch_count.is_none() {
            parts.push(chars_of("pitch_count"));
        }
        proof {
            assert(crate::text::views_of(parts@) =~= needs_list(*self));
        }
        if parts.len() == 0 {
            String::from_str("✅ All volunteer roles are filled!")
        } else {
            let mut out = chars_of("⚠️ Still needed: ");
            let joined = join_separated(&parts, ", ");
            append_chars(&mut out, &joined);
            string_from_chars(&out)
        }
    }

    /// Render every detail of the game, one line per field.
    pub fn format_all(&self) -> (r: String)
        requires
            valid_date(self.date),
        ensures
            r@ == format_all_spec(*self),
    {
        let mut out = chars_of("Date: ");
        let y = render_padded(self.date.year, 4);
        append_chars(&mut out, &y);
        out.push('-');
        let m = render_padded(self.date.month as u32, 2);
        append_chars(&mut out, &m);
        out.push('-');
        let d = render_padded(self.date.day as u32, 2);
        append_chars(&mut out, &d);
        let t1 = chars_of("\nTime: ");
        append_chars(&mut out, &t1);
        let tv = chars_of(self.time.as_str());
        append_chars(&mut out, &tv);
        let t2 = chars_of("\nLocation: ");
        append_chars(&mut out, &t2);
        let link = self.format_location_with_link();
        let lv = chars_of(link.as_str());
        append_chars(&mut out, &lv);
        let t3 = chars_of("\nHome Team: ");
        append_chars(&mut out, &t3);
        let hv = chars_of(self.home_team.as_str());
        append_chars(&mut out, &hv);
        let t4 = chars_of("\nSnacks: ");
        append_chars(&mut out, &t4);
        let sv = opt_or_needed_x(&self.snacks);
        append_chars(&mut out, &sv);
        let t5 = chars_of("\nLivestream: ");
        append_chars(&mut out, &t5);
        let lsv = opt_or_needed_x(&self.livestream);
        append_chars(&mut out, &lsv);
        let t6 = chars_of("\nScoreboard: ");
        append_chars(&mut out, &t6);
        let sbv = opt_or_needed_x(&self.scoreboard);
        append_chars(&mut out, &sbv);
        let t7 = chars_of("\nPitch Count: ");
        append_chars(&mut out, &t7);
        let pcv = opt_or_needed_x(&self.pitch_count);
        append_chars(&mut out, &pcv);
        out.push('\n');
        proof {
            reveal_strlit("\n");
            assert("\n"@ =~= seq!['\n']);
            assert(out@ =~= format_all_spec(*self));
        }
        string_from_chars(&out)
    }
}

proof fn lemma_role_literals()
    ensures
        "snacks"@ != "livestream"@,
        "snacks"@ != "scoreboard"@,
        "snacks"@ != "pitchcount"@,
        "snacks"@ != "pitch_count"@,
        "livestream"@ != "scoreboard"@,
        "livestream"@ != "pitchcount"@,
        "livestream"@ != "pitch_count"@,
        "scoreboard"@ != "pitchcount"@,
        "scoreboard"@ != "pitch_count"@,
        "pitchcount"@ != "pitch_count"@,
{
    reveal_strlit("snacks");
    reveal_strlit("livestream");
    reveal_strlit("scoreboard");
    reveal_strlit("pitchcount");
    reveal_strlit("pitch_count");
    assert("snacks"@.len() == 6);
    assert("livestream"@.len() == 10);
    assert("scoreboard"@.len() == 10);
    assert("pitchcount"@.len() == 10);
    assert("pitch_count"@.len() == 11);
    assert("livestream"@[0] == 'l');
    assert("scoreboard"@[0] == 's');
    assert("pitchcount"@[0] == 'p');
}

fn opt_or_needed_x(o: &Option<String>) -> (r: Vec<char>)
    ensures
        r@ == opt_or_needed(opt_string_view(*o)),
{
    match o {
        Some(s) => chars_of(s.as_str()),
        None => chars_of("⚠️ NEEDED"),
    }
}

// ---------------------------------------------------------------------------
// Matchup parsing
// ---------------------------------------------------------------------------

/// A team name cleaned of a trailing parenthetical.
pub open spec fn clean_name_spec(t0: Seq<char>) -> Seq<char> {
    let t = trim_seq(t0);
    match find_idx(t, "("@) {
        Some(p) => trim_seq(t.subrange(0, p)),
        None => t,
    }
}

/// A team name from one side of "vs": the part after the last dash, when
/// one leaves anything, else the whole side; parentheticals dropped.
pub open spec fn team_name_spec(t0: Seq<char>) -> Seq<char> {
    let t = trim_seq(t0);
    match rfind_idx(t, '-') {
        Some(dp) => {
            let after = trim_seq(t.subrange(dp + 1, t.len() as int));
            if after.len() > 0 {
                clean_name_spec(after)
            } else {
                clean_name_spec(t)
            }
        },
        None => clean_name_spec(t),
    }
}

/// The league calendar's own shape: "Vs Opponent - Field (Home - Coach)".
/// Yields (home, opponent).  Malformed pieces yield nothing here, and the
/// older "Team1 vs Team2" shape is tried instead.
pub open spec fn teamsideline_spec(s: Seq<char>, sl: Seq<char>) -> Option<(Seq<char>, Seq<char>)> {
    if sl.len() >= 3 && sl.subrange(0, 3) == "vs "@ {
        match find_idx(s, " - "@) {
            Some(d1) => if d1 >= 3 {
                let opponent = trim_seq(s.subrange(3, d1));
                match find_idx(s, "("@) {
                    Some(p1) => match find_idx(s, ")"@) {
                        Some(p2) => if p1 + 1 <= p2 {
                            let content = s.subrange(p1 + 1, p2);
                            match find_idx(content, " - "@) {
                                Some(d2) => {
                                    let home = trim_seq(content.subrange(0, d2));
                                    if opponent.len() > 0 && home.len() > 0 {
                                        Some((home, opponent))
                                    } else {
                                        None
                                    }
                                },
                                None => None,
                            }
                        } else {
                            None
                        },
                        None => None,
                    },
                    None => None,
                }
            } else {
                None
            },
            None => None,
        }
    } else {
        None
    }
}

/// The older calendar shape: "Team1 vs Team2", each side cleaned.
pub open spec fn oldform_spec(s: Seq<char>, sl: Seq<char>) -> Option<(Seq<char>, Seq<char>)> {
    match find_idx(sl, " vs "@) {
        Some(v) => {
            let t1 = team_name_spec(s.subrange(0, v));
            let t2 = team_name_spec(s.subrange(v + 4, s.len() as int));
            if t1.len() > 0 && t2.len() > 0 {
                Some((t1, t2))
            } else {
                None
            }
        },
        None => None,
    }
}

/// The (home, opponent) pair a calendar summary names, if any.
pub open spec fn matchup_spec(sum0: Seq<char>) -> Option<(Seq<char>, Seq<char>)> {
    let s = trim_seq(sum0);
    let sl = lower_seq(s);
    if teamsideline_spec(s, sl) is Some {
        teamsideline_spec(s, sl)
    } else {
        oldform_spec(s, sl)
    }
}

/// The one-line matchup heading: the parsed teams with the home side
/// marked, or the friendliest fallback the row offers.
pub open spec fn matchup_display(
    summary: Seq<char>,
    home: Seq<char>,
    time: Seq<char>,
    loc: Seq<char>,
) -> Seq<char> {
    match matchup_spec(summary) {
        Some((t1, t2)) => {
            let hl = lower_seq(home);
            if contains_seq(lower_seq(t1), hl) || contains_seq(hl, lower_seq(t1)) {
                t1 + " (Home) vs "@ + t2
            } else if contains_seq(lower_seq(t2), hl) || contains_seq(hl, lower_seq(t2)) {
                t1 + " vs "@ + t2 + " (Home)"@
            } else {
                t1 + " vs "@ + t2
            }
        },
        None => {
            if home.len() > 0 && lower_seq(home) != "home"@ {
                home + " Game"@
            } else if time.len() > 0 && loc.len() > 0 {
                time + " at "@ + loc
            } else if summary.len() > 0 {
                summary
            } else {
                "Game"@
            }
        },
    }
}

fn clean_name_x(t0: &Vec<char>) -> (r: Vec<char>)
    ensures
        r@ == clean_name_spec(t0@),
{
    let t = trim(t0);
    match find_sub(&t, "(") {
        Some(p) => trim(&subvec(&t, 0, p)),
        None => t,
    }
}

fn team_name_x(t0: &Vec<char>) -> (r: Vec<char>)
    ensures
        r@ == team_name_spec(t0@),
{
    let t = trim(t0);
    let tlen = t.len();
    match rfind_char(&t, '-') {
        Some(dp) => {
            let after = trim(&subvec(&t, dp + 1, tlen));
            if after.len() > 0 {
                clean_name_x(&after)
            } else {
                clean_name_x(&t)
            }
        },
        None => clean_name_x(&t),
    }
}

/// Parse a calendar summary into its (home, opponent) team names.
fn matchup_of(sum: &Vec<char>) -> (r: Option<(Vec<char>, Vec<char>)>)
    ensures
        match r {
            Some(p) => matchup_spec(sum@) == Some((p.0@, p.1@)),
            None => matchup_spec(sum@) is None,
        },
{
    let s = trim(sum);
    let sl = to_lower(&s);
    let slen = s.len();
    if sl.len() >= 3 && seq_eq_str(&subvec(&sl, 0, 3), "vs ") {
        if let Some(d1) = find_sub(&s, " - ") {
            if d1 >= 3 {
                let opponent = trim(&subvec(&s, 3, d1));
                if let Some(p1) = find_sub(&s, "(") {
                    if let Some(p2) = find_sub(&s, ")") {
                        if p1 + 1 <= p2 {
                            let content = subvec(&s, p1 + 1, p2);
                            if let Some(d2) = find_sub(&content, " - ") {
                                let home = trim(&subvec(&content, 0, d2));
                                if opponent.len() > 0 && home.len() > 0 {
                                    return Some((home, opponent));
                                }
                            }
                        }
                    }
                }
            }
        }
    }
    if let Some(v) = find_sub(&sl, " vs ") {
        proof {
            reveal_strlit(" vs ");
            assert(" vs "@.len() == 4);
        }
        let t1 = team_name_x(&subvec(&s, 0, v));
        let t2 = team_name_x(&subvec(&s, v + 4, slen));
        if t1.len() > 0 && t2.len() > 0 {
            return Some((t1, t2));
        }
    }
    None
}

impl CorrelatedEvent {
    /// The matchup heading for this event.
    pub fn format_matchup(&self) -> (r: String)
        ensures
            r@ == matchup_display(
                self.event_summary@,
                self.data.home_team@,
                self.data.time@,
                self.data.location@,
            ),
    {
        let sv = chars_of(self.event_summary.as_str());
        match matchup_of(&sv) {
            Some((t1, t2)) => {
                let hv = chars_of(self.data.home_team.as_str());
                let hl = to_lower(&hv);
                let t1l = to_lower(&t1);
                let t2l = to_lower(&t2);
                let mut out = subvec(&t1, 0, t1.len());
                if crate::text::contains_vec(&t1l, &hl) || crate::text::contains_vec(&hl, &t1l) {
                    let mid = chars_of(" (Home) vs ");
                    append_chars(&mut out, &mid);
                    append_chars(&mut out, &t2);
                } else if crate::text::contains_vec(&t2l, &hl) || crate::text::contains_vec(
                    &hl,
                    &t2l,
                ) {
                    let mid = chars_of(" vs ");
                    append_chars(&mut out, &mid);
                    append_chars(&mut out, &t2);
                    let tail = chars_of(" (Home)");
                    append_chars(&mut out, &tail);
                } else {
                    let mid = chars_of(" vs ");
                    append_chars(&mut out, &mid);
                    append_chars(&mut out, &t2);
                }
                string_from_chars(&out)
            },
            None => {
                let hv = chars_of(self.data.home_team.as_str());
                let hl = to_lower(&hv);
                if !self.data.home_team.as_str().is_empty() && !seq_eq_str(&hl, "home") {
                    let mut out = hv;
                    let tail = chars_of(" Game");
                    append_chars(&mut out, &tail);
                    string_from_chars(&out)
                } else if !self.data.time.as_str().is_empty()
                    && !self.data.location.as_str().is_empty() {
                    let mut out = chars_of(self.data.time.as_str());
                    let mid = chars_of(" at ");
                    append_chars(&mut out, &mid);
                    let lv = chars_of(self.data.location.as_str());
                    append_chars(&mut out, &lv);
                    string_from_chars(&out)
                } else if !self.event_summary.as_str().is_empty() {
                    self.event_summary.clone()
                } else {
                    String::from_str("Game")
                }
            },
        }
    }
}

} // verus!
