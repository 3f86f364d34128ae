use scoreboard::message::{MessageKey, MessageType};
use scoreboard::model::{Game, GameState, League, Sport, Team, TeamState};
use scoreboard::text::drop_last_three_chars;

#[test]
fn sport_try_from_known_codes() {
    assert_eq!(Sport::try_from(0), Ok(Sport::Other));
    assert_eq!(Sport::try_from(1), Ok(Sport::Baseball));
    assert_eq!(Sport::try_from(2), Ok(Sport::Basketball));
    assert_eq!(Sport::try_from(3), Ok(Sport::Football));
    assert_eq!(Sport::try_from(4), Ok(Sport::Hockey));
    assert_eq!(Sport::try_from(5), Ok(Sport::Soccer));
}

#[test]
fn sport_try_from_unknown_codes() {
    assert_eq!(Sport::try_from(6), Err(()));
    assert_eq!(Sport::try_from(-1), Err(()));
}

#[test]
fn sport_code_round_trip() {
    for s in [Sport::Other, Sport::Baseball, Sport::Basketball, Sport::Football, Sport::Hockey, Sport::Soccer] {
        assert_eq!(Sport::try_from(s.code()), Ok(s));
        assert_eq!(s.icon_index() as i32, s.code());
    }
}

#[test]
fn sport_or_other() {
    assert_eq!(Sport::from_code_or_other(4), Sport::Hockey);
    assert_eq!(Sport::from_code_or_other(42), Sport::Other);
}

#[test]
fn league_defaults() {
    let l = League::from_fields(None, None, None);
    assert_eq!(l.id, -1);
    assert_eq!(l.name, "Untitled League");
    assert_eq!(l.icon, Sport::Other);
}

#[test]
fn league_fields() {
    let l = League::from_fields(Some(7), Some("NHL".to_string()), Some(4));
    assert_eq!(l.id, 7);
    assert_eq!(l.name, "NHL");
    assert_eq!(l.icon, Sport::Hockey);
    let c = l.copied();
    assert_eq!(c.id, 7);
    assert_eq!(c.name, "NHL");
    assert_eq!(c.icon, Sport::Hockey);
}

#[test]
fn league_round_trip() {
    let l = League::from_fields(Some(3), Some("MLS".to_string()), Some(5));
    let again = League::from_fields(Some(l.id), Some(l.name.clone()), Some(l.icon.code()));
    assert_eq!(again.id, l.id);
    assert_eq!(again.name, l.name);
    assert_eq!(again.icon, l.icon);
}

#[test]
fn message_type_codes() {
    assert_eq!(MessageType::GameInfo.code(), 1);
    assert_eq!(MessageType::GameTeamState.code(), 2);
    assert_eq!(MessageType::from_code(1), Some(MessageType::GameInfo));
    assert_eq!(MessageType::from_code(2), Some(MessageType::GameTeamState));
    assert_eq!(MessageType::from_code(0), None);
    assert_eq!(MessageType::from_code(-1), None);
}

#[test]
fn message_key_codes() {
    assert_eq!(MessageKey::MessageType.code(), 0);
    assert_eq!(MessageKey::SportIconIndex.code(), 1);
    assert_eq!(MessageKey::LeagueId.code(), 2);
    assert_eq!(MessageKey::LeagueName.code(), 3);
    assert_eq!(MessageKey::GameId.code(), 4);
    assert_eq!(MessageKey::GameTimestamp.code(), 5);
    assert_eq!(MessageKey::GameStatus.code(), 6);
    assert_eq!(MessageKey::GameDetails.code(), 7);
    assert_eq!(MessageKey::GameTime.code(), 8);
    assert_eq!(MessageKey::GameTeamIndex.code(), 9);
    assert_eq!(MessageKey::TeamScore.code(), 10);
    assert_eq!(MessageKey::TeamPosession.code(), 11);
    assert_eq!(MessageKey::TeamId.code(), 12);
    assert_eq!(MessageKey::TeamName.code(), 13);
    assert_eq!(MessageKey::TeamRecord.code(), 14);
}

#[test]
fn drop_three_chars() {
    assert_eq!(drop_last_three_chars("10/12/26"), "10/12");
    assert_eq!(drop_last_three_chars("19:30:00"), "19:30");
    assert_eq!(drop_last_three_chars("abc"), "");
    assert_eq!(drop_last_three_chars("ab"), "");
    assert_eq!(drop_last_three_chars(""), "");
    assert_eq!(drop_last_three_chars("é1/2/ü"), "é1/");
}

fn team(name: &str, score: &str) -> TeamState {
    TeamState {
        team: Team { id: 1, name: name.to_string(), record: String::new() },
        score: score.to_string(),
        posession: false,
    }
}

fn game(state: GameState) -> Game {
    Game {
        id: 1,
        league: League::from_fields(Some(1), Some("NBA".to_string()), Some(2)),
        timestamp: 0,
        state,
        home_team: team("Celtics", "101"),
        away_team: team("Knicks", "99"),
    }
}

#[test]
fn summary_scheduled() {
    let g = game(GameState::Scheduled { datestamp: "10/12".to_string(), timestamp: "19:30".to_string() });
    assert_eq!(g.summary(), "Knicks - Celtics");
}

#[test]
fn summary_active_and_final() {
    let g = game(GameState::Active { time: "Q4 2:00".to_string(), details: "Timeout".to_string() });
    assert_eq!(g.summary(), "Knicks 99 - 101 Celtics");
    let f = game(GameState::Final { datestamp: "10/12".to_string() });
    assert_eq!(f.summary(), "Knicks 99 - 101 Celtics");
}

#[test]
fn footers() {
    let f = GameState::Final { datestamp: "10/12".to_string() };
    assert_eq!(f.footer(), ("10/12".to_string(), "Final".to_string()));
    let s = GameState::Scheduled { datestamp: "10/12".to_string(), timestamp: "19:30".to_string() };
    assert_eq!(s.footer(), ("10/12".to_string(), "19:30".to_string()));
    let a = GameState::Active { time: "Q4 2:00".to_string(), details: "Timeout".to_string() };
    assert_eq!(a.footer(), ("Timeout".to_string(), "Q4 2:00".to_string()));
}
