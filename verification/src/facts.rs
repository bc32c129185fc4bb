//! Team spirit facts: a canned fact pool per known team name, a generic
//! cheer otherwise, one entry chosen at random.

use vstd::prelude::*;
use crate::text::{lower_seq, to_lower, chars_of, string_from_chars, append_chars, seq_eq_str};
use crate::rng::pick_index;

verus! {

/// A team's custom fact pool, as its facts file holds it.
#[derive(Debug, Clone)]
pub struct CustomTeamFacts {
    pub team_name: String,
    pub facts: Vec<String>,
}

/// Serves one team fact per request.
pub struct TeamFactsProvider {
    pub team_name: String,
    pub team_emoji: String,
    pub custom_facts: Option<CustomTeamFacts>,
    pub enabled: bool,
}

pub open spec fn disabled_fact(emoji: Seq<char>) -> Seq<char> {
    emoji + " Let's go team! âš¾"@
}

pub open spec fn generic_team_fact(emoji: Seq<char>, name: Seq<char>) -> Seq<char> {
    emoji + " Go "@ + name + "! Let's bring the energy and win this game! âš¾"@
}

pub open spec fn pirates_pool() -> Seq<Seq<char>> {
    seq![
        "ğŸ´â€â˜ ï¸ The Pittsburgh Pirates were the first professional sports team to win a championship via walk-off home run in 1960!"@,
        "âš¾ The Pirates were the first MLB team to field an all-minority starting lineup on September 1, 1971!"@,
        "ğŸ´â€â˜ ï¸ Roberto Clemente was the first Latino player to reach 3,000 hits and was inducted into the Baseball Hall of Fame in 1973!"@,
        "âš¾ Three Rivers Stadium was home to the Pirates from 1970-2000 and hosted the 1979 World Series championship!"@,
        "ğŸ´â€â˜ ï¸ The Pirates' 'We Are Family' team of 1979 came back from a 3-1 deficit to win the World Series!"@,
        "âš¾ PNC Park opened in 2001 and is consistently ranked as one of the most beautiful ballparks in baseball!"@,
        "ğŸ´â€â˜ ï¸ Honus Wagner, the 'Flying Dutchman', played shortstop for the Pirates and led them to their first World Series title in 1909!"@,
        "âš¾ The Pirates were founded in 1881, making them one of the oldest franchises in Major League Baseball!"@,
        "ğŸ´â€â˜ ï¸ The team is called 'Pirates' because they 'pirated' a player from another team in 1891!"@,
        "âš¾ The Pirates have won 5 World Series championships: 1909, 1925, 1960, 1971, and 1979!"@
    ]
}
pub open spec fn yankees_pool() -> Seq<Seq<char>> {
    seq![
        "ğŸ—½ The New York Yankees have won 27 World Series championships, more than any other MLB team!"@,
        "âš¾ Babe Ruth hit 714 home runs in his career, with 659 of them as a Yankee!"@,
        "ğŸ—½ The Yankees' pinstripe uniforms have been iconic since 1912!"@,
        "âš¾ Yankees Stadium is known as 'The House That Ruth Built' and opened in 1923!"@,
        "ğŸ—½ Derek Jeter played his entire 20-year career with the Yankees and got 3,465 hits!"@,
        "âš¾ The Yankees retired more numbers than any other team - 22 different players and managers!"@,
        "ğŸ—½ Joe DiMaggio's 56-game hitting streak in 1941 is still an MLB record!"@,
        "âš¾ The Yankees have had 44 players inducted into the Baseball Hall of Fame!"@
    ]
}
pub open spec fn red_sox_pool() -> Seq<Seq<char>> {
    seq![
        "ğŸ§¦ The Boston Red Sox won their first World Series in 1903!"@,
        "âš¾ Fenway Park opened in 1912 and is the oldest ballpark in Major League Baseball!"@,
        "ğŸ§¦ The Green Monster at Fenway is 37 feet tall and one of baseball's most iconic features!"@,
        "âš¾ Ted Williams was the last player to bat over .400 in a season, hitting .406 in 1941!"@,
        "ğŸ§¦ The Red Sox broke the 'Curse of the Bambino' by winning the 2004 World Series!"@,
        "âš¾ David Ortiz, 'Big Papi', hit 541 career home runs, all with the Red Sox!"@,
        "ğŸ§¦ The Red Sox have won 9 World Series championships!"@,
        "âš¾ Carl Yastrzemski won the Triple Crown in 1967, leading in batting average, home runs, and RBIs!"@
    ]
}
pub open spec fn cubs_pool() -> Seq<Seq<char>> {
    seq![
        "ğŸ» The Chicago Cubs broke a 108-year championship drought by winning the 2016 World Series!"@,
        "âš¾ Wrigley Field opened in 1914 and is the second-oldest ballpark in MLB!"@,
        "ğŸ» The Cubs' ivy-covered outfield walls at Wrigley are iconic!"@,
        "âš¾ Ernie Banks, 'Mr. Cub', hit 512 home runs all with the Cubs!"@,
        "ğŸ» The Cubs were founded in 1876, making them one of the oldest teams in baseball!"@,
        "âš¾ The Cubs have won 3 World Series championships: 1907, 1908, and 2016!"@,
        "ğŸ» Sammy Sosa hit 609 home runs in his career, with 545 as a Cub!"@,
        "âš¾ The famous 'Curse of the Billy Goat' was believed to hex the Cubs for 71 years!"@
    ]
}
pub open spec fn dodgers_pool() -> Seq<Seq<char>> {
    seq![
        "âš¾ The Los Angeles Dodgers have won 7 World Series championships!"@,
        "ğŸ’™ Jackie Robinson broke baseball's color barrier with the Dodgers in 1947!"@,
        "âš¾ Dodger Stadium opened in 1962 and is the third-oldest ballpark in MLB!"@,
        "ğŸ’™ Sandy Koufax pitched 4 no-hitters including a perfect game in 1965!"@,
        "âš¾ The Dodgers moved from Brooklyn to Los Angeles in 1958!"@,
        "ğŸ’™ Clayton Kershaw has won 3 Cy Young Awards with the Dodgers!"@,
        "âš¾ Vin Scully announced Dodgers games for 67 years from 1950-2016!"@,
        "ğŸ’™ The Dodgers have had 55,000+ attendance records at Dodger Stadium!"@
    ]
}
pub open spec fn giants_pool() -> Seq<Seq<char>> {
    seq![
        "ğŸ§¡ The San Francisco Giants have won 8 World Series championships!"@,
        "âš¾ Willie Mays, 'The Say Hey Kid', hit 660 home runs and is considered one of the greatest players ever!"@,
        "ğŸ§¡ The Giants moved from New York to San Francisco in 1958!"@,
        "âš¾ Barry Bonds hit a record 762 career home runs!"@,
        "ğŸ§¡ Oracle Park (formerly AT&T Park) opened in 2000 with views of San Francisco Bay!"@,
        "âš¾ The Giants won 3 World Series in 5 years (2010, 2012, 2014)!"@,
        "ğŸ§¡ The Giants were founded in 1883 as the New York Gothams!"@,
        "âš¾ Juan Marichal was inducted into the Hall of Fame in 1983 after winning 238 games!"@
    ]
}
pub open spec fn braves_pool() -> Seq<Seq<char>> {
    seq![
        "ğŸª“ The Atlanta Braves franchise is the oldest continuously operating professional sports franchise in America!"@,
        "âš¾ Hank Aaron hit 755 home runs, most of them with the Braves!"@,
        "ğŸª“ The Braves won 14 consecutive division titles from 1991-2005!"@,
        "âš¾ The Braves have won 4 World Series championships!"@,
        "ğŸª“ Greg Maddux won 4 consecutive Cy Young Awards (1992-1995) with the Braves!"@,
        "âš¾ The Braves franchise has played in Boston, Milwaukee, and Atlanta!"@,
        "ğŸª“ Chipper Jones played his entire 19-year career with the Braves!"@,
        "âš¾ The 'Tomahawk Chop' has been a Braves tradition since 1991!"@
    ]
}

/// A correct built-in fact for the team: one of the team's pool when the
/// lower-cased name is known, the generic cheer otherwise.
pub open spec fn builtin_fact_ok(r: Seq<char>, name: Seq<char>, emoji: Seq<char>) -> bool {
    let tl = lower_seq(name);
    if false {
        false
    } else if tl == "pirates"@ {
        exists|k: int| 0 <= k < pirates_pool().len() && r == pirates_pool()[k]
    } else if tl == "yankees"@ {
        exists|k: int| 0 <= k < yankees_pool().len() && r == yankees_pool()[k]
    } else if tl == "red sox"@ || tl == "redsox"@ {
        exists|k: int| 0 <= k < red_sox_pool().len() && r == red_sox_pool()[k]
    } else if tl == "cubs"@ {
        exists|k: int| 0 <= k < cubs_pool().len() && r == cubs_pool()[k]
    } else if tl == "dodgers"@ {
        exists|k: int| 0 <= k < dodgers_pool().len() && r == dodgers_pool()[k]
    } else if tl == "giants"@ {
        exists|k: int| 0 <= k < giants_pool().len() && r == giants_pool()[k]
    } else if tl == "braves"@ {
        exists|k: int| 0 <= k < braves_pool().len() && r == braves_pool()[k]
    } else {
        r == generic_team_fact(emoji, name)
    }
}

fn pick_pirates_fact() -> (r: String)
    ensures
        exists|k: int| 0 <= k < pirates_pool().len() && r@ == pirates_pool()[k],
{
    let k = pick_index(10);
    let r = match k {
            0 => String::from_str("ğŸ´â€â˜ ï¸ The Pittsburgh Pirates were the first professional sports team to win a championship via walk-off home run in 1960!"),
            1 => String::from_str("âš¾ The Pirates were the first MLB team to field an all-minority starting lineup on September 1, 1971!"),
            2 => String::from_str("ğŸ´â€â˜ ï¸ Roberto Clemente was the first Latino player to reach 3,000 hits and was inducted into the Baseball Hall of Fame in 1973!"),
            3 => String::from_str("âš¾ Three Rivers Stadium was home to the Pirates from 1970-2000 and hosted the 1979 World Series championship!"),
            4 => String::from_str("ğŸ´â€â˜ ï¸ The Pirates' 'We Are Family' team of 1979 came back from a 3-1 deficit to win the World Series!"),
            5 => String::from_str("âš¾ PNC Park opened in 2001 and is consistently ranked as one of the most beautiful ballparks in baseball!"),
            6 => String::from_str("ğŸ´â€â˜ ï¸ Honus Wagner, the 'Flying Dutchman', played shortstop for the Pirates and led them to their first World Series title in 1909!"),
            7 => String::from_str("âš¾ The Pirates were founded in 1881, making them one of the oldest franchises in Major League Baseball!"),
            8 => String::from_str("ğŸ´â€â˜ ï¸ The team is called 'Pirates' because they 'pirated' a player from another team in 1891!"),
            _ => String::from_str("âš¾ The Pirates have won 5 World Series championships: 1909, 1925, 1960, 1971, and 1979!"),
    };
    proof {
        assert(pirates_pool().len() == 10);
        assert(r@ == pirates_pool()[k as int]);
    }
    r
}
fn pick_yankees_fact() -> (r: String)
    ensures
        exists|k: int| 0 <= k < yankees_pool().len() && r@ == yankees_pool()[k],
{
    let k = pick_index(8);
    let r = match k {
            0 => String::from_str("ğŸ—½ The New York Yankees have won 27 World Series championships, more than any other MLB team!"),
            1 => String::from_str("âš¾ Babe Ruth hit 714 home runs in his career, with 659 of them as a Yankee!"),
            2 => String::from_str("ğŸ—½ The Yankees' pinstripe uniforms have been iconic since 1912!"),
            3 => String::from_str("âš¾ Yankees Stadium is known as 'The House That Ruth Built' and opened in 1923!"),
            4 => String::from_str("ğŸ—½ Derek Jeter played his entire 20-year career with the Yankees and got 3,465 hits!"),
            5 => String::from_str("âš¾ The Yankees retired more numbers than any other team - 22 different players and managers!"),
            6 => String::from_str("ğŸ—½ Joe DiMaggio's 56-game hitting streak in 1941 is still an MLB record!"),
            _ => String::from_str("âš¾ The Yankees have had 44 players inducted into the Baseball Hall of Fame!"),
    };
    proof {
        assert(yankees_pool().len() == 8);
        assert(r@ == yankees_pool()[k as int]);
    }
    r
}
fn pick_red_sox_fact() -> (r: String)
    ensures
        exists|k: int| 0 <= k < red_sox_pool().len() && r@ == red_sox_pool()[k],
{
    let k = pick_index(8);
    let r = match k {
            0 => String::from_str("ğŸ§¦ The Boston Red Sox won their first World Series in 1903!"),
            1 => String::from_str("âš¾ Fenway Park opened in 1912 and is the oldest ballpark in Major League Baseball!"),
            2 => String::from_str("ğŸ§¦ The Green Monster at Fenway is 37 feet tall and one of baseball's most iconic features!"),
            3 => String::from_str("âš¾ Ted Williams was the last player to bat over .400 in a season, hitting .406 in 1941!"),
            4 => String::from_str("ğŸ§¦ The Red Sox broke the 'Curse of the Bambino' by winning the 2004 World Series!"),
            5 => String::from_str("âš¾ David Ortiz, 'Big Papi', hit 541 career home runs, all with the Red Sox!"),
            6 => String::from_str("ğŸ§¦ The Red Sox have won 9 World Series championships!"),
            _ => String::from_str("âš¾ Carl Yastrzemski won the Triple Crown in 1967, leading in batting average, home runs, and RBIs!"),
    };
    proof {
        assert(red_sox_pool().len() == 8);
        assert(r@ == red_sox_pool()[k as int]);
    }
    r
}
fn pick_cubs_fact() -> (r: String)
    ensures
        exists|k: int| 0 <= k < cubs_pool().len() && r@ == cubs_pool()[k],
{
    let k = pick_index(8);
    let r = match k {
            0 => String::from_str("ğŸ» The Chicago Cubs broke a 108-year championship drought by winning the 2016 World Series!"),
            1 => String::from_str("âš¾ Wrigley Field opened in 1914 and is the second-oldest ballpark in MLB!"),
            2 => String::from_str("ğŸ» The Cubs' ivy-covered outfield walls at Wrigley are iconic!"),
            3 => String::from_str("âš¾ Ernie Banks, 'Mr. Cub', hit 512 home runs all with the Cubs!"),
            4 => String::from_str("ğŸ» The Cubs were founded in 1876, making them one of the oldest teams in baseball!"),
            5 => String::from_str("âš¾ The Cubs have won 3 World Series championships: 1907, 1908, and 2016!"),
            6 => String::from_str("ğŸ» Sammy Sosa hit 609 home runs in his career, with 545 as a Cub!"),
            _ => String::from_str("âš¾ The famous 'Curse of the Billy Goat' was believed to hex the Cubs for 71 years!"),
    };
    proof {
        assert(cubs_pool().len() == 8);
        assert(r@ == cubs_pool()[k as int]);
    }
    r
}
fn pick_dodgers_fact() -> (r: String)
    ensures
        exists|k: int| 0 <= k < dodgers_pool().len() && r@ == dodgers_pool()[k],
{
    let k = pick_index(8);
    let r = match k {
            0 => String::from_str("âš¾ The Los Angeles Dodgers have won 7 World Series championships!"),
            1 => String::from_str("ğŸ’™ Jackie Robinson broke baseball's color barrier with the Dodgers in 1947!"),
            2 => String::from_str("âš¾ Dodger Stadium opened in 1962 and is the third-oldest ballpark in MLB!"),
            3 => String::from_str("ğŸ’™ Sandy Koufax pitched 4 no-hitters including a perfect game in 1965!"),
            4 => String::from_str("âš¾ The Dodgers moved from Brooklyn to Los Angeles in 1958!"),
            5 => String::from_str("ğŸ’™ Clayton Kershaw has won 3 Cy Young Awards with the Dodgers!"),
            6 => String::from_str("âš¾ Vin Scully announced Dodgers games for 67 years from 1950-2016!"),
            _ => String::from_str("ğŸ’™ The Dodgers have had 55,000+ attendance records at Dodger Stadium!"),
    };
    proof {
        assert(dodgers_pool().len() == 8);
        assert(r@ == dodgers_pool()[k as int]);
    }
    r
}
fn pick_giants_fact() -> (r: String)
    ensures
        exists|k: int| 0 <= k < giants_pool().len() && r@ == giants_pool()[k],
{
    let k = pick_index(8);
    let r = match k {
            0 => String::from_str("ğŸ§¡ The San Francisco Giants have won 8 World Series championships!"),
            1 => String::from_str("âš¾ Willie Mays, 'The Say Hey Kid', hit 660 home runs and is considered one of the greatest players ever!"),
            2 => String::from_str("ğŸ§¡ The Giants moved from New York to San Francisco in 1958!"),
            3 => String::from_str("âš¾ Barry Bonds hit a record 762 career home runs!"),
            4 => String::from_str("ğŸ§¡ Oracle Park (formerly AT&T Park) opened in 2000 with views of San Francisco Bay!"),
            5 => String::from_str("âš¾ The Giants won 3 World Series in 5 years (2010, 2012, 2014)!"),
            6 => String::from_str("ğŸ§¡ The Giants were founded in 1883 as the New York Gothams!"),
            _ => String::from_str("âš¾ Juan Marichal was inducted into the Hall of Fame in 1983 after winning 238 games!"),
    };
    proof {
        assert(giants_pool().len() == 8);
        assert(r@ == giants_pool()[k as int]);
    }
    r
}
fn pick_braves_fact() -> (r: String)
    ensures
        exists|k: int| 0 <= k < braves_pool().len() && r@ == braves_pool()[k],
{
    let k = pick_index(8);
    let r = match k {
            0 => String::from_str("ğŸª“ The Atlanta Braves franchise is the oldest continuously operating professional sports franchise in America!"),
            1 => String::from_str("âš¾ Hank Aaron hit 755 home runs, most of them with the Braves!"),
            2 => String::from_str("ğŸª“ The Braves won 14 consecutive division titles from 1991-2005!"),
            3 => String::from_str("âš¾ The Braves have won 4 World Series championships!"),
            4 => String::from_str("ğŸª“ Greg Maddux won 4 consecutive Cy Young Awards (1992-1995) with the Braves!"),
            5 => String::from_str("âš¾ The Braves franchise has played in Boston, Milwaukee, and Atlanta!"),
            6 => String::from_str("ğŸª“ Chipper Jones played his entire 19-year career with the Braves!"),
            _ => String::from_str("âš¾ The 'Tomahawk Chop' has been a Braves tradition since 1991!"),
    };
    proof {
        assert(braves_pool().len() == 8);
        assert(r@ == braves_pool()[k as int]);
    }
    r
}

impl TeamFactsProvider {
    /// A provider for the team; callers that keep facts in a file load
    /// them first and hand them in.
    pub fn new(
        team_name: String,
        team_emoji: String,
        enabled: bool,
        custom_facts: Option<CustomTeamFacts>,
    ) -> (r: Self)
        ensures
            r.team_name == team_name,
            r.team_emoji == team_emoji,
            r.enabled == enabled,
            r.custom_facts == custom_facts,
    {
        TeamFactsProvider { team_name, team_emoji, custom_facts, enabled }
    }

    /// One team fact: the quiet cheer when facts are disabled, a custom
    /// fact when a nonempty pool was provided, else a built-in one.
    pub fn get_fact(&self) -> (r: String)
        ensures
            !self.enabled ==> r@ == disabled_fact(self.team_emoji@),
            self.enabled ==> ({
                if self.custom_facts is Some && self.custom_facts->Some_0.facts@.len() > 0 {
                    exists|k: int|
                        0 <= k < self.custom_facts->Some_0.facts@.len() && r@
                            == self.custom_facts->Some_0.facts.deep_view()[k]
                } else {
                    builtin_fact_ok(r@, self.team_name@, self.team_emoji@)
                }
            }),
    {
        if !self.enabled {
            let mut out = chars_of(self.team_emoji.as_str());
            let suffix = chars_of(" Let's go team! âš¾");
            append_chars(&mut out, &suffix);
            return string_from_chars(&out);
        }
        if let Some(custom) = &self.custom_facts {
            if custom.facts.len() > 0 {
                proof {
                    assert(custom.facts.deep_view().len() == custom.facts@.len());
                }
                let k = pick_index(custom.facts.len());
                let r = custom.facts[k].clone();
                proof {
                    assert(custom.facts.deep_view()[k as int] == custom.facts@[k as int]@);
                }
                return r;
            }
        }
        self.get_builtin_fact()
    }

    fn get_builtin_fact(&self) -> (r: String)
        ensures
            builtin_fact_ok(r@, self.team_name@, self.team_emoji@),
    {
        let nv = chars_of(self.team_name.as_str());
        let tl = to_lower(&nv);
        let r = if false {
            String::new()
        } else if seq_eq_str(&tl, "pirates") {
            pick_pirates_fact()
        } else if seq_eq_str(&tl, "yankees") {
            pick_yankees_fact()
        } else if seq_eq_str(&tl, "red sox") || seq_eq_str(&tl, "redsox") {
            pick_red_sox_fact()
        } else if seq_eq_str(&tl, "cubs") {
            pick_cubs_fact()
        } else if seq_eq_str(&tl, "dodgers") {
            pick_dodgers_fact()
        } else if seq_eq_str(&tl, "giants") {
            pick_giants_fact()
        } else if seq_eq_str(&tl, "braves") {
            pick_braves_fact()
        } else {
            let mut out = chars_of(self.team_emoji.as_str());
            let go = chars_of(" Go ");
            append_chars(&mut out, &go);
            let nm = chars_of(self.team_name.as_str());
            append_chars(&mut out, &nm);
            let tail = chars_of("! Let's bring the energy and win this game! âš¾");
            append_chars(&mut out, &tail);
            string_from_chars(&out)
        };
        r
    }
}

} // verus!
