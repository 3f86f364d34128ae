use vstd::prelude::*;
use vstd::string::*;

verus! {

/// The sport a league plays; its number is the code the phone sends and the
/// index of the sport's icon.
#[derive(Clone, Copy, Debug, PartialEq, Eq, Structural)]
pub enum Sport {
    Other,
    Baseball,
    Basketball,
    Football,
    Hockey,
    Soccer,
}

/// The sport with the given code, if there is one.
pub open spec fn sport_of_code(v: int) -> Option<Sport> {
    if v == 0 {
        Some(Sport::Other)
    } else if v == 1 {
        Some(Sport::Baseball)
    } else if v == 2 {
        Some(Sport::Basketball)
    } else if v == 3 {
        Some(Sport::Football)
    } else if v == 4 {
        Some(Sport::Hockey)
    } else if v == 5 {
        Some(Sport::Soccer)
    } else {
        None
    }
}

impl Sport {
    /// The code of this sport.
    pub open spec fn spec_code(self) -> int {
        match self {
            Sport::Other => 0,
            Sport::Baseball => 1,
            Sport::Basketball => 2,
            Sport::Football => 3,
            Sport::Hockey => 4,
            Sport::Soccer => 5,
        }
    }

    /// The code of this sport, as the phone sends it.
    pub fn code(&self) -> (r: i32)
        ensures
            r == self.spec_code(),
    {
        match self {
            Sport::Other => 0,
            Sport::Baseball => 1,
            Sport::Basketball => 2,
            Sport::Football => 3,
            Sport::Hockey => 4,
            Sport::Soccer => 5,
        }
    }
}

impl TryFrom<i32> for Sport {
    type Error = ();

    fn try_from(v: i32) -> (r: Result<Sport, ()>) {
        match v {
            0 => Ok(Sport::Other),
            1 => Ok(Sport::Baseball),
            2 => Ok(Sport::Basketball),
            3 => Ok(Sport::Football),
            4 => Ok(Sport::Hockey),
            5 => Ok(Sport::Soccer),
            _ => Err(()),
        }
    }
}

impl vstd::std_specs::convert::TryFromSpecImpl<i32> for Sport {
    open spec fn obeys_try_from_spec() -> bool {
        true
    }

    open spec fn try_from_spec(v: i32) -> Result<Sport, ()> {
        match sport_of_code(v as int) {
            Some(s) => Ok(s),
            None => Err(()),
        }
    }
}


impl Sport {
    /// The sport with the given code, or `Other` where the code names none.
    pub fn from_code_or_other(v: i32) -> (r: Sport)
        ensures
            r == (match sport_of_code(v as int) {
                Some(s) => s,
                None => Sport::Other,
            }),
    {
        match Sport::try_from(v) {
            Ok(s) => s,
            Err(_) => Sport::Other,
        }
    }

    /// Which of the sport icons belongs to this sport: the one whose index
    /// is the sport's code.
    pub fn icon_index(&self) -> (r: usize)
        ensures
            r == self.spec_code(),
    {
        match self {
            Sport::Other => 0,
            Sport::Baseball => 1,
            Sport::Basketball => 2,
            Sport::Football => 3,
            Sport::Hockey => 4,
            Sport::Soccer => 5,
        }
    }
}

/// The text in `o`, or `default` where there is none.
pub open spec fn text_or(o: Option<String>, default: Seq<char>) -> Seq<char> {
    match o {
        Some(s) => s@,
        None => default,
    }
}

/// The number in `o`, or `default` where there is none.
pub open spec fn number_or(o: Option<i32>, default: i32) -> i32 {
    match o {
        Some(v) => v,
        None => default,
    }
}

fn string_or(o: Option<String>, default: &str) -> (r: String)
    ensures
        r@ == text_or(o, default@),
{
    match o {
        Some(s) => s,
        None => String::from_str(default),
    }
}

fn clone_string(s: &String) -> (r: String)
    ensures
        r@ == s@,
{
    s.clone()
}

/// A league: its identifier, its name and its sport.
#[derive(Clone, Debug)]
pub struct League {
    pub id: i32,
    pub name: String,
    pub icon: Sport,
}

/// What a league holds, its name as characters.
pub struct LeagueView {
    pub id: i32,
    pub name: Seq<char>,
    pub icon: Sport,
}

impl View for League {
    type V = LeagueView;

    open spec fn view(&self) -> LeagueView {
        LeagueView { id: self.id, name: self.name@, icon: self.icon }
    }
}

/// The league that the phone describes by the given fields, each of which
/// may be missing: an unknown identifier is -1, an unknown name "Untitled
/// League", and an unknown or unrecognised sport `Other`.
pub open spec fn league_of_fields(id: Option<i32>, name: Option<String>, sport: Option<i32>) -> LeagueView {
    LeagueView {
        id: number_or(id, -1i32),
        name: text_or(name, "Untitled League"@),
        icon: match sport_of_code(number_or(sport, 0i32) as int) {
            Some(s) => s,
            None => Sport::Other,
        },
    }
}

impl League {
    /// The league that the phone describes by the given fields; see
    /// `league_of_fields` for the defaults of missing fields.
    pub fn from_fields(id: Option<i32>, name: Option<String>, sport: Option<i32>) -> (r: League)
        ensures
            r@ == league_of_fields(id, name, sport),
            r.id == number_or(id, -1i32),
            r.name@ == text_or(name, "Untitled League"@),
            sport_of_code(number_or(sport, 0i32) as int) matches Some(s) ==> r.icon == s,
            sport_of_code(number_or(sport, 0i32) as int) is None ==> r.icon == Sport::Other,
    {
        let id = match id {
            Some(v) => v,
            None => -1,
        };
        let code = match sport {
            Some(v) => v,
            None => 0,
        };
        League { id, name: string_or(name, "Untitled League"), icon: Sport::from_code_or_other(code) }
    }

    /// A copy of this league.
    pub fn copied(&self) -> (r: League)
        ensures
            r@ == self@,
    {
        League { id: self.id, name: clone_string(&self.name), icon: self.icon }
    }
}

/// A team: its identifier, its name and its record of wins and losses.
#[derive(Clone, Debug)]
pub struct Team {
    pub id: i32,
    pub name: String,
    pub record: String,
}

/// What a team holds, its texts as characters.
pub struct TeamView {
    pub id: i32,
    pub name: Seq<char>,
    pub record: Seq<char>,
}

impl View for Team {
    type V = TeamView;

    open spec fn view(&self) -> TeamView {
        TeamView { id: self.id, name: self.name@, record: self.record@ }
    }
}

/// A team as it stands in one game: its score and whether it has the ball.
#[derive(Clone, Debug)]
pub struct TeamState {
    pub team: Team,
    pub score: String,
    pub posession: bool,
}

/// What a team's standing in a game holds.
pub struct TeamStateView {
    pub team: TeamView,
    pub score: Seq<char>,
    pub posession: bool,
}

impl View for TeamState {
    type V = TeamStateView;

    open spec fn view(&self) -> TeamStateView {
        TeamStateView { team: self.team@, score: self.score@, posession: self.posession }
    }
}

/// Where a game stands: not yet begun, over, or under way.
#[derive(Clone, Debug)]
pub enum GameState {
    Scheduled { datestamp: String, timestamp: String },
    Final { datestamp: String },
    Active { time: String, details: String },
}

/// Where a game stands, its texts as characters.
pub enum GameStateView {
    Scheduled { datestamp: Seq<char>, timestamp: Seq<char> },
    Final { datestamp: Seq<char> },
    Active { time: Seq<char>, details: Seq<char> },
}

impl View for GameState {
    type V = GameStateView;

    open spec fn view(&self) -> GameStateView {
        match self {
            GameState::Scheduled { datestamp, timestamp } => GameStateView::Scheduled {
                datestamp: datestamp@,
                timestamp: timestamp@,
            },
            GameState::Final { datestamp } => GameStateView::Final { datestamp: datestamp@ },
            GameState::Active { time, details } => GameStateView::Active { time: time@, details: details@ },
        }
    }
}

/// The two texts under the teams of a game's large row: the left one and
/// the right one.
pub open spec fn footer_of(state: GameStateView) -> (Seq<char>, Seq<char>) {
    match state {
        GameStateView::Final { datestamp } => (datestamp, "Final"@),
        GameStateView::Scheduled { datestamp, timestamp } => (datestamp, timestamp),
        GameStateView::Active { time, details } => (details, time),
    }
}

impl GameState {
    /// The two texts under the teams of a game's large row: for a game that
    /// is over its date and "Final", for one not yet begun its date and
    /// time, for one under way the details of play and the game clock.
    pub fn footer(&self) -> (r: (String, String))
        ensures
            (r.0@, r.1@) == footer_of(self@),
            self matches GameState::Final { datestamp } ==> r.0@ == datestamp@ && r.1@ == "Final"@,
            self matches GameState::Scheduled { datestamp, timestamp } ==> r.0@ == datestamp@ && r.1@ == timestamp@,
            self matches GameState::Active { time, details } ==> r.0@ == details@ && r.1@ == time@,
    {
        match self {
            GameState::Final { datestamp } => (clone_string(datestamp), String::from_str("Final")),
            GameState::Scheduled { datestamp, timestamp } => (clone_string(datestamp), clone_string(timestamp)),
            GameState::Active { time, details } => (clone_string(details), clone_string(time)),
        }
    }
}

/// A game of a league between two teams.
#[derive(Clone, Debug)]
pub struct Game {
    pub id: i32,
    pub league: League,
    pub timestamp: u32,
    pub state: GameState,
    pub home_team: TeamState,
    pub away_team: TeamState,
}

/// What a game holds.
pub struct GameView {
    pub id: i32,
    pub league: LeagueView,
    pub timestamp: u32,
    pub state: GameStateView,
    pub home_team: TeamStateView,
    pub away_team: TeamStateView,
}

impl View for Game {
    type V = GameView;

    open spec fn view(&self) -> GameView {
        GameView {
            id: self.id,
            league: self.league@,
            timestamp: self.timestamp,
            state: self.state@,
            home_team: self.home_team@,
            away_team: self.away_team@,
        }
    }
}

/// The one-line summary of a game: "away - home" before it begins, and
/// "away awayscore - homescore home" once it has.
pub open spec fn summary_of(game: GameView) -> Seq<char> {
    let away = game.away_team;
    let home = game.home_team;
    match game.state {
        GameStateView::Scheduled { .. } => away.team.name + " - "@ + home.team.name,
        _ => away.team.name + " "@ + away.score + " - "@ + home.score + " "@ + home.team.name,
    }
}

impl Game {
    /// The one-line summary of this game, as its small row shows it.
    pub fn summary(&self) -> (r: String)
        ensures
            r@ == summary_of(self@),
            self.state is Scheduled ==> r@ == self.away_team.team.name@ + " - "@ + self.home_team.team.name@,
            !(self.state is Scheduled) ==> r@ == self.away_team.team.name@ + " "@ + self.away_team.score@ + " - "@
                + self.home_team.score@ + " "@ + self.home_team.team.name@,
    {
        let mut s = clone_string(&self.away_team.team.name);
        match &self.state {
            GameState::Scheduled { .. } => {
                s.append(" - ");
                s.append(self.home_team.team.name.as_str());
            },
            _ => {
                s.append(" ");
                s.append(self.away_team.score.as_str());
                s.append(" - ");
                s.append(self.home_team.score.as_str());
                s.append(" ");
                s.append(self.home_team.team.name.as_str());
            },
        }
        s
    }
}

/// Every sport is read back from its own code, and a code that names a
/// sport is that sport's code.
pub proof fn law_sport_code_round_trip(s: Sport, v: i32)
    ensures
        <Sport as vstd::std_specs::convert::TryFromSpec<i32>>::try_from_spec(s.spec_code() as i32) == Ok::<Sport, ()>(s),
        <Sport as vstd::std_specs::convert::TryFromSpec<i32>>::try_from_spec(v) matches Ok(t) ==> t.spec_code() == v,
        sport_of_code(v as int) is None ==> <Sport as vstd::std_specs::convert::TryFromSpec<i32>>::try_from_spec(v) == Err::<Sport, ()>(()),
{
}

/// A league sent as its own fields is read back as that same league.
pub proof fn law_league_fields_round_trip(l: League)
    ensures
        league_of_fields(Some(l.id), Some(l.name), Some(l.icon.spec_code() as i32)) == l@,
{
}

/// A game's one-line summary begins with the away team's name and ends with
/// the home team's name.
pub proof fn law_summary_away_first_home_last(game: GameView)
    ensures
        game.away_team.team.name.is_prefix_of(summary_of(game)),
        summary_of(game).subrange(
            summary_of(game).len() - game.home_team.team.name.len(),
            summary_of(game).len() as int,
        ) == game.home_team.team.name,
        summary_of(game).len() >= game.away_team.team.name.len() + game.home_team.team.name.len(),
{
    let s = summary_of(game);
    let a = game.away_team.team.name;
    let h = game.home_team.team.name;
    assert(s.subrange(0, a.len() as int) =~= a);
    assert(s.subrange(s.len() - h.len(), s.len() as int) =~= h);
}

/// The footer of a game that is over ends in "Final"; otherwise the footer
/// holds the game's own texts: its date and start time before it begins,
/// and its details of play and clock while under way.
pub proof fn law_footer_parts(state: GameStateView)
    ensures
        state matches GameStateView::Final { datestamp } ==> footer_of(state) == (datestamp, "Final"@),
        state matches GameStateView::Scheduled { datestamp, timestamp } ==> footer_of(state) == (datestamp, timestamp),
        state matches GameStateView::Active { time, details } ==> footer_of(state) == (details, time),
{
}

/// The league read from a message takes its id and name from the message's
/// fields (-1 and "Untitled League" where missing), and the sport whose
/// code the message gives, `Other` where it gives none or an unknown one.
pub proof fn law_league_reads_its_fields(id: Option<i32>, name: Option<String>, sport: Option<i32>, s: Sport)
    ensures
        league_of_fields(id, name, sport).id == number_or(id, -1i32),
        league_of_fields(id, name, sport).name == text_or(name, "Untitled League"@),
        sport == Some(s.spec_code() as i32) ==> league_of_fields(id, name, sport).icon == s,
        sport is None ==> league_of_fields(id, name, sport).icon == Sport::Other,
        (sport matches Some(v) && (v < 0 || v > 5)) ==> league_of_fields(id, name, sport).icon == Sport::Other,
{
}

} // verus!
