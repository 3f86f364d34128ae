use vstd::prelude::*;
use vstd::string::*;

use crate::geometry::row_count;
use crate::message::{message_type_of_code, MessageType};
use crate::model::{
    number_or, text_or, Game, GameState, GameStateView, GameView, League, LeagueView, TeamState,
    TeamStateView, Team, TeamView, league_of_fields,
};
use crate::text::{drop_last_three_chars, without_last_three};

verus! {

/// The fields of a message that describes one game of the list, as the
/// phone sent them; any of them may be missing.
pub struct GameInfoFields {
    pub game_id: Option<i32>,
    pub league_id: Option<i32>,
    pub league_name: Option<String>,
    pub sport: Option<i32>,
    pub timestamp: Option<i32>,
    pub status: Option<i32>,
    pub time: Option<String>,
    pub details: Option<String>,
}

/// The start time of the game, in seconds since the epoch; 0 where the
/// phone sent none, and the bits of a negative number read as unsigned.
pub open spec fn timestamp_of(fields: GameInfoFields) -> u32 {
    number_or(fields.timestamp, 0i32) as u32
}

/// Where a game stands, from the status code the phone sent (2: under way,
/// 1: over, anything else: not yet begun), the game clock and the details
/// of play, and the game's start as a local date and a local time of day.
/// Dates drop their year and times their seconds: the last three
/// characters of each.
pub open spec fn game_state_of(
    status: i32,
    time: Option<String>,
    details: Option<String>,
    local_date: Seq<char>,
    local_time: Seq<char>,
) -> GameStateView {
    if status == 2 {
        GameStateView::Active { time: text_or(time, ""@), details: text_or(details, ""@) }
    } else if status == 1 {
        GameStateView::Final { datestamp: without_last_three(local_date) }
    } else {
        GameStateView::Scheduled {
            datestamp: without_last_three(local_date),
            timestamp: without_last_three(local_time),
        }
    }
}

/// A game whose teams may not have arrived yet.
pub struct PartialGame {
    pub id: i32,
    pub league: League,
    pub timestamp: u32,
    pub state: GameState,
    pub home_team: Option<TeamState>,
    pub away_team: Option<TeamState>,
}

/// What a game in the making holds.
pub struct PartialGameView {
    pub id: i32,
    pub league: LeagueView,
    pub timestamp: u32,
    pub state: GameStateView,
    pub home_team: Option<TeamStateView>,
    pub away_team: Option<TeamStateView>,
}

/// The view of a team's standing that may be missing.
pub open spec fn team_state_view(t: Option<TeamState>) -> Option<TeamStateView> {
    match t {
        Some(t) => Some(t@),
        None => None,
    }
}

impl View for PartialGame {
    type V = PartialGameView;

    open spec fn view(&self) -> PartialGameView {
        PartialGameView {
            id: self.id,
            league: self.league@,
            timestamp: self.timestamp,
            state: self.state@,
            home_team: team_state_view(self.home_team),
            away_team: team_state_view(self.away_team),
        }
    }
}

/// The game, still without teams, that a game-info message describes, for
/// a start time that reads as `local_date` and `local_time` on the watch:
/// an unknown game is -1, and the league is read as `league_of_fields`
/// reads it.
pub open spec fn partial_game_of(fields: GameInfoFields, local_date: Seq<char>, local_time: Seq<char>) -> PartialGameView {
    PartialGameView {
        id: number_or(fields.game_id, -1i32),
        league: league_of_fields(fields.league_id, fields.league_name, fields.sport),
        timestamp: timestamp_of(fields),
        state: game_state_of(number_or(fields.status, 0i32), fields.time, fields.details, local_date, local_time),
        home_team: None,
        away_team: None,
    }
}

fn string_or_empty(o: Option<String>) -> (r: String)
    ensures
        r@ == text_or(o, ""@),
{
    match o {
        Some(s) => s,
        None => String::from_str(""),
    }
}

impl GameInfoFields {
    /// The start time of the game; see `timestamp_of`.
    pub fn game_timestamp(&self) -> (r: u32)
        ensures
            r == timestamp_of(*self),
            self.timestamp is None ==> r == 0,
            self.timestamp is Some && self.timestamp->0 >= 0 ==> r == self.timestamp->0,
            self.timestamp is Some && self.timestamp->0 < 0 ==> r == self.timestamp->0 + 4294967296,
    {
        match self.timestamp {
            Some(v) => {
                assert(v < 0 ==> v as u32 == v + 4294967296) by (bit_vector);
                v as u32
            },
            None => 0,
        }
    }
}

impl PartialGame {
    /// The game, still without teams, that a game-info message describes;
    /// `local_date` and `local_time` are its start time as the watch shows
    /// a date and a time of day.
    pub fn from_fields(fields: GameInfoFields, local_date: &str, local_time: &str) -> (r: PartialGame)
        ensures
            r@ == partial_game_of(fields, local_date@, local_time@),
            r.id == number_or(fields.game_id, -1i32),
            r.timestamp == timestamp_of(fields),
            r.league@ == league_of_fields(fields.league_id, fields.league_name, fields.sport),
            r.home_team is None,
            r.away_team is None,
            fields.status == Some(2i32) ==> r.state@ == (GameStateView::Active {
                time: text_or(fields.time, ""@),
                details: text_or(fields.details, ""@),
            }),
            fields.status == Some(1i32) ==> r.state@ == (GameStateView::Final {
                datestamp: without_last_three(local_date@),
            }),
            fields.status != Some(1i32) && fields.status != Some(2i32) ==> r.state@ == (GameStateView::Scheduled {
                datestamp: without_last_three(local_date@),
                timestamp: without_last_three(local_time@),
            }),
    {
        let timestamp = fields.game_timestamp();
        let id = match fields.game_id {
            Some(v) => v,
            None => -1,
        };
        let status = match fields.status {
            Some(v) => v,
            None => 0,
        };
        let league = League::from_fields(fields.league_id, fields.league_name, fields.sport);
        let state = if status == 2 {
            GameState::Active { time: string_or_empty(fields.time), details: string_or_empty(fields.details) }
        } else if status == 1 {
            GameState::Final { datestamp: drop_last_three_chars(local_date) }
        } else {
            GameState::Scheduled {
                datestamp: drop_last_three_chars(local_date),
                timestamp: drop_last_three_chars(local_time),
            }
        };
        PartialGame { id, league, timestamp, state, home_team: None, away_team: None }
    }
}

/// The fields of a message that says how one team stands in one game of
/// the list, as the phone sent them; any of them may be missing.
pub struct TeamStateFields {
    pub game_index: Option<i32>,
    pub team_index: Option<i32>,
    pub team_id: Option<i32>,
    pub team_name: Option<String>,
    pub team_record: Option<String>,
    pub score: Option<String>,
    pub posession: Option<i32>,
}

/// Whether the message is about the home team: its team index is 0.
pub open spec fn is_home_of(fields: TeamStateFields) -> bool {
    fields.team_index == Some(0i32)
}

/// The team's standing that the message describes: an unknown team is -1,
/// an unknown name "Untitled Team", an unknown record or score empty, and
/// the team has the ball only where the message says 1.
pub open spec fn team_state_of(fields: TeamStateFields) -> TeamStateView {
    TeamStateView {
        team: TeamView {
            id: number_or(fields.team_id, -1i32),
            name: text_or(fields.team_name, "Untitled Team"@),
            record: text_or(fields.team_record, ""@),
        },
        score: text_or(fields.score, ""@),
        posession: fields.posession == Some(1i32),
    }
}

impl TeamStateFields {
    /// Whether the message is about the home team.
    pub fn is_home(&self) -> (r: bool)
        ensures
            r == is_home_of(*self),
            r == (self.team_index == Some(0i32)),
    {
        match self.team_index {
            Some(i) => i == 0,
            None => false,
        }
    }

    /// The team's standing that the message describes.
    pub fn into_team_state(self) -> (r: TeamState)
        ensures
            r@ == team_state_of(self),
            r.team.id == number_or(self.team_id, -1i32),
            r.team.name@ == text_or(self.team_name, "Untitled Team"@),
            r.team.record@ == text_or(self.team_record, ""@),
            r.score@ == text_or(self.score, ""@),
            r.posession == (self.posession == Some(1i32)),
    {
        let id = match self.team_id {
            Some(v) => v,
            None => -1,
        };
        let name = match self.team_name {
            Some(s) => s,
            None => String::from_str("Untitled Team"),
        };
        let posession = match self.posession {
            Some(b) => b == 1,
            None => false,
        };
        TeamState {
            team: Team { id, name, record: string_or_empty(self.team_record) },
            score: string_or_empty(self.score),
            posession,
        }
    }
}

/// The games of the list as they arrive, each slot empty until the game
/// itself has come.
pub struct ScoreMessageState {
    pub games: Vec<Option<PartialGame>>,
}

/// The view of a slot of the list.
pub open spec fn slot_view(slot: Option<PartialGame>) -> Option<PartialGameView> {
    match slot {
        Some(g) => Some(g@),
        None => None,
    }
}

impl View for ScoreMessageState {
    type V = Seq<Option<PartialGameView>>;

    open spec fn view(&self) -> Seq<Option<PartialGameView>> {
        Seq::new(self.games@.len(), |i: int| slot_view(self.games@[i]))
    }
}

/// `game` with `team` as its home team or as its away team.
pub open spec fn with_team(game: PartialGameView, home: bool, team: TeamStateView) -> PartialGameView {
    if home {
        PartialGameView { home_team: Some(team), ..game }
    } else {
        PartialGameView { away_team: Some(team), ..game }
    }
}

/// The list after a team-state message: the game at the message's index
/// takes the team as its home or away team, where there is such a game;
/// otherwise (no index, an index out of range, or a game that has not yet
/// come) nothing changes.
pub open spec fn team_applied(slots: Seq<Option<PartialGameView>>, fields: TeamStateFields) -> Seq<Option<PartialGameView>> {
    let i = number_or(fields.game_index, -1i32) as int;
    if 0 <= i < slots.len() && slots[i] is Some {
        slots.update(i, Some(with_team(slots[i]->0, is_home_of(fields), team_state_of(fields))))
    } else {
        slots
    }
}

/// Whether a slot holds a game that has both of its teams.
pub open spec fn is_complete(slot: Option<PartialGameView>) -> bool {
    &&& slot is Some
    &&& slot->0.home_team is Some
    &&& slot->0.away_team is Some
}

/// Whether every slot of the list holds a game with both of its teams.
pub open spec fn ready_of(slots: Seq<Option<PartialGameView>>) -> bool {
    forall|i: int| 0 <= i < slots.len() ==> #[trigger] is_complete(slots[i])
}

/// The finished game that a complete game in the making becomes.
pub open spec fn finished(game: PartialGameView) -> GameView {
    GameView {
        id: game.id,
        league: game.league,
        timestamp: game.timestamp,
        state: game.state,
        home_team: game.home_team->0,
        away_team: game.away_team->0,
    }
}

/// The finished games of a complete list, in its order.
pub open spec fn committed(slots: Seq<Option<PartialGameView>>) -> Seq<GameView> {
    Seq::new(slots.len(), |i: int| finished(slots[i]->0))
}

/// The views of a list of games.
pub open spec fn games_view(games: Seq<Game>) -> Seq<GameView> {
    Seq::new(games.len(), |i: int| games[i]@)
}

impl ScoreMessageState {
    /// An empty list.
    pub fn new() -> (r: ScoreMessageState)
        ensures
            r@.len() == 0,
    {
        ScoreMessageState { games: Vec::new() }
    }

    /// Takes in a team-state message; see `team_applied`.
    pub fn apply_team_state(&mut self, fields: TeamStateFields)
        ensures
            final(self)@ == team_applied(old(self)@, fields),
            final(self).games@.len() == old(self).games@.len(),
            forall|k: int|
                0 <= k < old(self).games@.len() && k != number_or(fields.game_index, -1i32) as int
                    ==> #[trigger] final(self).games@[k] == old(self).games@[k],
            ({
                let i = number_or(fields.game_index, -1i32) as int;
                0 <= i < old(self).games@.len() && old(self).games@[i] is Some ==> {
                    let before = old(self).games@[i]->0;
                    let after = final(self).games@[i]->0;
                    &&& final(self).games@[i] is Some
                    &&& after.id == before.id
                    &&& after.league@ == before.league@
                    &&& after.timestamp == before.timestamp
                    &&& after.state@ == before.state@
                    &&& fields.team_index == Some(0i32) ==> {
                        &&& after.home_team is Some
                        &&& after.home_team->0@ == team_state_of(fields)
                        &&& team_state_view(after.away_team) == team_state_view(before.away_team)
                    }
                    &&& fields.team_index != Some(0i32) ==> {
                        &&& after.away_team is Some
                        &&& after.away_team->0@ == team_state_of(fields)
                        &&& team_state_view(after.home_team) == team_state_view(before.home_team)
                    }
                }
            }),
            ({
                let i = number_or(fields.game_index, -1i32) as int;
                !(0 <= i < old(self).games@.len() && old(self).games@[i] is Some) ==> final(self).games@ == old(self).games@
            }),
    {
        let ghost before = self@;
        let ghost f = fields;
        let index: i32 = match fields.game_index {
            Some(v) => v,
            None => -1,
        };
        if index < 0 {
            return;
        }
        let i = index as usize;
        if i >= self.games.len() {
            return;
        }
        if self.games[i].is_none() {
            return;
        }
        let is_home = fields.is_home();
        let team = fields.into_team_state();
        let mut slot: Option<PartialGame> = None;
        std::mem::swap(&mut self.games[i], &mut slot);
        let mut game = slot.unwrap();
        if is_home {
            game.home_team = Some(team);
        } else {
            game.away_team = Some(team);
        }
        self.games[i] = Some(game);
        assert(self@ =~= team_applied(before, f));
    }

    /// Whether every game of the list has come with both of its teams.
    pub fn ready_to_commit(&self) -> (r: bool)
        ensures
            r == ready_of(self@),
            r == (forall|i: int|
                0 <= i < self.games@.len() ==> {
                    &&& #[trigger] self.games@[i] is Some
                    &&& self.games@[i]->0.home_team is Some
                    &&& self.games@[i]->0.away_team is Some
                }),
    {
        let mut i: usize = 0;
        while i < self.games.len()
            invariant
                i <= self.games@.len(),
                forall|k: int|
                    0 <= k < i ==> {
                        &&& #[trigger] self.games@[k] is Some
                        &&& self.games@[k]->0.home_team is Some
                        &&& self.games@[k]->0.away_team is Some
                    },
            decreases self.games@.len() - i,
        {
            let complete = match &self.games[i] {
                Some(g) => g.home_team.is_some() && g.away_team.is_some(),
                None => false,
            };
            if !complete {
                assert(!is_complete(self@[i as int]));
                return false;
            }
            i = i + 1;
        }
        assert forall|k: int| 0 <= k < self@.len() implies #[trigger] is_complete(self@[k]) by {
            assert(self.games@[k] is Some);
        }
        true
    }

    /// Takes the finished games out of a complete list, in its order; every
    /// slot is left empty.
    pub fn commit(&mut self) -> (r: Vec<Game>)
        requires
            ready_of(old(self)@),
        ensures
            games_view(r@) == committed(old(self)@),
            final(self)@.len() == old(self)@.len(),
            forall|i: int| 0 <= i < final(self)@.len() ==> final(self)@[i] is None,
            r@.len() == old(self).games@.len(),
            forall|i: int|
                0 <= i < r@.len() ==> {
                    let p = old(self).games@[i]->0;
                    &&& (#[trigger] r@[i]).id == p.id
                    &&& r@[i].league@ == p.league@
                    &&& r@[i].timestamp == p.timestamp
                    &&& r@[i].state@ == p.state@
                    &&& r@[i].home_team@ == p.home_team->0@
                    &&& r@[i].away_team@ == p.away_team->0@
                },
    {
        let ghost before = self@;
        let ghost orig = self.games@;
        let mut out: Vec<Game> = Vec::new();
        let mut i: usize = 0;
        while i < self.games.len()
            invariant
                i <= self.games@.len(),
                self.games@.len() == orig.len(),
                before == Seq::new(orig.len(), |k: int| slot_view(orig[k])),
                ready_of(before),
                out@.len() == i,
                forall|k: int| 0 <= k < i ==> #[trigger] out@[k]@ == finished(before[k]->0),
                forall|k: int|
                    0 <= k < i ==> {
                        let p = orig[k]->0;
                        &&& (#[trigger] out@[k]).id == p.id
                        &&& out@[k].league@ == p.league@
                        &&& out@[k].timestamp == p.timestamp
                        &&& out@[k].state@ == p.state@
                        &&& out@[k].home_team@ == p.home_team->0@
                        &&& out@[k].away_team@ == p.away_team->0@
                    },
                forall|k: int| 0 <= k < i ==> self.games@[k] is None,
                forall|k: int| i <= k < orig.len() ==> self.games@[k] == orig[k],
            decreases self.games@.len() - i,
        {
            assert(is_complete(before[i as int]));
            let mut slot: Option<PartialGame> = None;
            std::mem::swap(&mut self.games[i], &mut slot);
            let partial = slot.unwrap();
            let game = Game {
                id: partial.id,
                league: partial.league,
                timestamp: partial.timestamp,
                state: partial.state,
                home_team: partial.home_team.unwrap(),
                away_team: partial.away_team.unwrap(),
            };
            out.push(game);
            i = i + 1;
        }
        assert(forall|k: int| 0 <= k < self@.len() ==> self@[k] == slot_view(self.games@[k]));
        assert(games_view(out@) =~= committed(before));
        out
    }
}

impl Default for ScoreMessageState {
    /// An empty list.
    fn default() -> (r: ScoreMessageState)
        ensures
            r@.len() == 0,
    {
        ScoreMessageState::new()
    }
}

/// The score list of one league.
pub struct ScoreListScreen;

impl ScoreListScreen {
    /// The kind of a message to the score list, from the message-type field
    /// (-1 where the message has none).
    pub fn message_kind(message_type: Option<i32>) -> (r: Option<MessageType>)
        ensures
            r == message_type_of_code(number_or(message_type, -1i32) as int),
            message_type == Some(1i32) ==> r == Some(MessageType::GameInfo),
            message_type == Some(2i32) ==> r == Some(MessageType::GameTeamState),
            message_type != Some(1i32) && message_type != Some(2i32) ==> r is None,
    {
        let code = match message_type {
            Some(v) => v,
            None => -1,
        };
        MessageType::from_code(code)
    }

    /// What follows a message once it has been taken in: where every game
    /// of the list has come with both teams, the finished games (and the
    /// list is emptied slot by slot); otherwise nothing, and the list stays
    /// as it is.
    pub fn finish_message(temp: &mut ScoreMessageState) -> (r: Option<Vec<Game>>)
        ensures
            r is Some <==> ready_of(old(temp)@),
            r matches Some(games) ==> {
                &&& games_view(games@) == committed(old(temp)@)
                &&& final(temp)@.len() == old(temp)@.len()
                &&& forall|i: int| 0 <= i < final(temp)@.len() ==> final(temp)@[i] is None
            },
            r is None ==> final(temp)@ == old(temp)@,
    {
        if temp.ready_to_commit() {
            Some(temp.commit())
        } else {
            None
        }
    }

    /// The number of rows of the list.
    pub fn num_rows(games: &Vec<Game>) -> (r: u16)
        ensures
            r == games@.len() % 65536,
    {
        row_count(games.len())
    }

    /// The game at row `row` of the list, if there is one.
    pub fn game_at(games: &Vec<Game>, row: usize) -> (r: Option<&Game>)
        ensures
            match r {
                Some(g) => row < games@.len() && *g == games@[row as int],
                None => row >= games@.len(),
            },
    {
        if row < games.len() {
            Some(&games[row])
        } else {
            None
        }
    }

    /// Whether a row is drawn in full (both teams, scores and the state of
    /// play) rather than as a one-line summary: always on a rectangular
    /// screen, and on a round one for the selected row.
    pub fn use_large_row(is_selected: bool, is_rect: bool) -> (r: bool)
        ensures
            r == (is_selected || is_rect),
    {
        is_selected || is_rect
    }

    /// The height of a row: 58 on a rectangular screen; on a round one 66
    /// for the selected row and 26 for the others.
    pub fn cell_height(is_rect: bool, is_selected: bool) -> (r: i16)
        ensures
            r == (if is_rect { 58int } else if is_selected { 66 } else { 26 }),
    {
        if is_rect {
            58
        } else if is_selected {
            66
        } else {
            26
        }
    }

    /// Whether the league header reaches under the status bar: while the
    /// first row is selected.
    pub fn header_under_status_bar(selected_row: u16) -> (r: bool)
        ensures
            r == (selected_row == 0),
    {
        selected_row == 0
    }

    /// Whether the status bar is hidden: once a row below the first is
    /// selected.
    pub fn status_bar_hidden(selected_row: u16) -> (r: bool)
        ensures
            r == (selected_row != 0),
    {
        selected_row != 0
    }

    /// Whether the indicator that more rows follow is shown: while the
    /// selected row comes before the last one. The row count is taken in
    /// 16 bits and wraps, so an empty list shows the indicator too.
    pub fn has_more_below(selected_row: u16, len: usize) -> (r: bool)
        ensures
            r == (selected_row < (if len % 65536 == 0 { 65535 } else { len % 65536 - 1 })),
    {
        let rows = row_count(len);
        selected_row < rows.wrapping_sub(1)
    }

    /// How far below the top the list starts: under the header on a
    /// rectangular screen, at the top on a round one.
    pub fn menu_top_inset(is_rect: bool, header_height: i16) -> (r: i16)
        ensures
            r == (if is_rect { header_height } else { 0 }),
    {
        if is_rect {
            header_height
        } else {
            0
        }
    }
}

/// A team-state message changes at most the one slot that it names, and
/// never the length of the list.
pub proof fn law_team_state_touches_one_slot(slots: Seq<Option<PartialGameView>>, fields: TeamStateFields, k: int)
    requires
        0 <= k < slots.len(),
        k != number_or(fields.game_index, -1i32) as int,
    ensures
        team_applied(slots, fields).len() == slots.len(),
        team_applied(slots, fields)[k] == slots[k],
{
}

/// Once a game has received a home team and an away team, in either
/// order, it is complete, and the order did not matter.
pub proof fn law_home_and_away_complete_a_game(
    slots: Seq<Option<PartialGameView>>,
    home: TeamStateFields,
    away: TeamStateFields,
)
    requires
        home.game_index == away.game_index,
        0 <= number_or(home.game_index, -1i32) < slots.len(),
        slots[number_or(home.game_index, -1i32) as int] is Some,
        is_home_of(home),
        !is_home_of(away),
    ensures
        is_complete(team_applied(team_applied(slots, home), away)[number_or(home.game_index, -1i32) as int]),
        team_applied(team_applied(slots, home), away) == team_applied(team_applied(slots, away), home),
{
    let i = number_or(home.game_index, -1i32) as int;
    assert(team_applied(team_applied(slots, home), away) =~= team_applied(team_applied(slots, away), home));
}

/// A list whose every game has both teams is ready; a list with a slot
/// still empty, or a game still missing a team, is not.
pub proof fn law_ready_exactly_when_all_complete(slots: Seq<Option<PartialGameView>>, k: int)
    requires
        0 <= k < slots.len(),
        !is_complete(slots[k]),
    ensures
        !ready_of(slots),
{
}

/// The standing read from a team-state message takes each of its parts from
/// the matching field of the message: the team's id from the team-id field
/// (-1 where there is none, whatever the team index), its name and record
/// from the name and record fields, the score from the score field, and
/// possession from the possession field being 1.
pub proof fn law_team_state_reads_its_fields(fields: TeamStateFields)
    ensures
        team_state_of(fields).team.id == number_or(fields.team_id, -1i32),
        team_state_of(fields).team.name == text_or(fields.team_name, "Untitled Team"@),
        team_state_of(fields).team.record == text_or(fields.team_record, ""@),
        team_state_of(fields).score == text_or(fields.score, ""@),
        team_state_of(fields).posession == (fields.posession == Some(1i32)),
        forall|t: Option<i32>|
            team_state_of(TeamStateFields { team_index: t, ..fields }) == team_state_of(fields),
{
}

/// A list is ready to commit exactly when every slot holds a game whose home
/// team and away team have both arrived.
pub proof fn law_ready_means_both_teams(slots: Seq<Option<PartialGameView>>)
    ensures
        ready_of(slots) <==> (forall|i: int|
            0 <= i < slots.len() ==> {
                &&& #[trigger] slots[i] is Some
                &&& slots[i]->0.home_team is Some
                &&& slots[i]->0.away_team is Some
            }),
{
    if ready_of(slots) {
        assert forall|i: int| 0 <= i < slots.len() implies {
            &&& #[trigger] slots[i] is Some
            &&& slots[i]->0.home_team is Some
            &&& slots[i]->0.away_team is Some
        } by {
            assert(is_complete(slots[i]));
        }
    }
}

/// Committing a ready list keeps each game's own home and away teams, in
/// the list's order.
pub proof fn law_commit_keeps_each_games_teams(slots: Seq<Option<PartialGameView>>, i: int)
    requires
        ready_of(slots),
        0 <= i < slots.len(),
    ensures
        committed(slots).len() == slots.len(),
        slots[i] is Some,
        slots[i]->0.home_team == Some(committed(slots)[i].home_team),
        slots[i]->0.away_team == Some(committed(slots)[i].away_team),
        committed(slots)[i].id == slots[i]->0.id,
        committed(slots)[i].state == slots[i]->0.state,
{
    assert(is_complete(slots[i]));
}

/// A team-state message for a game in the list puts the team it describes
/// on the side it names (home for team index 0, away otherwise), replacing
/// whatever that side held, and leaves the other side and the rest of the
/// game as they were.
pub proof fn law_team_message_sets_named_side(slots: Seq<Option<PartialGameView>>, fields: TeamStateFields)
    requires
        0 <= number_or(fields.game_index, -1i32) < slots.len(),
        slots[number_or(fields.game_index, -1i32) as int] is Some,
    ensures
        ({
            let i = number_or(fields.game_index, -1i32) as int;
            let before = slots[i]->0;
            let after = team_applied(slots, fields)[i];
            &&& after is Some
            &&& after->0.id == before.id
            &&& after->0.league == before.league
            &&& after->0.timestamp == before.timestamp
            &&& after->0.state == before.state
            &&& fields.team_index == Some(0i32) ==> after->0.home_team == Some(team_state_of(fields))
                && after->0.away_team == before.away_team
            &&& fields.team_index != Some(0i32) ==> after->0.away_team == Some(team_state_of(fields))
                && after->0.home_team == before.home_team
        }),
{
}

/// A game-info message with status 2 gives a game under way, one with
/// status 1 a finished game, and one with any other status or none at all
/// a game not yet begun; a status of 0 reads the same as no status.
pub proof fn law_game_status_selects_state(fields: GameInfoFields, local_date: Seq<char>, local_time: Seq<char>)
    ensures
        fields.status == Some(2i32) ==> partial_game_of(fields, local_date, local_time).state
            == (GameStateView::Active { time: text_or(fields.time, ""@), details: text_or(fields.details, ""@) }),
        fields.status == Some(1i32) ==> partial_game_of(fields, local_date, local_time).state
            == (GameStateView::Final { datestamp: without_last_three(local_date) }),
        fields.status != Some(1i32) && fields.status != Some(2i32) ==> partial_game_of(fields, local_date, local_time).state
            == (GameStateView::Scheduled {
                datestamp: without_last_three(local_date),
                timestamp: without_last_three(local_time),
            }),
        partial_game_of(GameInfoFields { status: Some(0i32), ..fields }, local_date, local_time)
            == partial_game_of(GameInfoFields { status: None, ..fields }, local_date, local_time),
{
}

} // verus!
