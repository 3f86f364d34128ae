use scoreboard::message::MessageType;
use scoreboard::model::{GameState, Sport};
use scoreboard::scorelist::{GameInfoFields, PartialGame, ScoreListScreen, ScoreMessageState, TeamStateFields};

fn info(id: i32, status: Option<i32>) -> GameInfoFields {
    GameInfoFields {
        game_id: Some(id),
        league_id: Some(9),
        league_name: Some("NFL".to_string()),
        sport: Some(3),
        timestamp: Some(1_700_000_000),
        status,
        time: Some("Q2 5:12".to_string()),
        details: Some("1st & 10".to_string()),
    }
}

fn team_fields(game: Option<i32>, team_index: Option<i32>, name: &str) -> TeamStateFields {
    TeamStateFields {
        game_index: game,
        team_index,
        team_id: Some(5),
        team_name: Some(name.to_string()),
        team_record: Some("3-1".to_string()),
        score: Some("14".to_string()),
        posession: Some(1),
    }
}

#[test]
fn partial_game_scheduled_trims_date_and_time() {
    let g = PartialGame::from_fields(info(4, None), "11/14/23", "22:13:20");
    assert_eq!(g.id, 4);
    assert_eq!(g.timestamp, 1_700_000_000);
    assert_eq!(g.league.id, 9);
    assert_eq!(g.league.name, "NFL");
    assert_eq!(g.league.icon, Sport::Football);
    match g.state {
        GameState::Scheduled { datestamp, timestamp } => {
            assert_eq!(datestamp, "11/14");
            assert_eq!(timestamp, "22:13");
        },
        _ => panic!("expected a scheduled game"),
    }
    assert!(g.home_team.is_none());
    assert!(g.away_team.is_none());
}

#[test]
fn partial_game_final_and_active() {
    let f = PartialGame::from_fields(info(1, Some(1)), "11/14/23", "22:13:20");
    match f.state {
        GameState::Final { datestamp } => assert_eq!(datestamp, "11/14"),
        _ => panic!("expected a final game"),
    }
    let a = PartialGame::from_fields(info(1, Some(2)), "11/14/23", "22:13:20");
    match a.state {
        GameState::Active { time, details } => {
            assert_eq!(time, "Q2 5:12");
            assert_eq!(details, "1st & 10");
        },
        _ => panic!("expected a game under way"),
    }
}

#[test]
fn partial_game_defaults() {
    let fields = GameInfoFields {
        game_id: None,
        league_id: None,
        league_name: None,
        sport: None,
        timestamp: Some(-1),
        status: Some(2),
        time: None,
        details: None,
    };
    assert_eq!(fields.game_timestamp(), u32::MAX);
    let g = PartialGame::from_fields(fields, "", "");
    assert_eq!(g.id, -1);
    assert_eq!(g.league.name, "Untitled League");
    assert_eq!(g.league.icon, Sport::Other);
    match g.state {
        GameState::Active { time, details } => {
            assert_eq!(time, "");
            assert_eq!(details, "");
        },
        _ => panic!("expected a game under way"),
    }
}

#[test]
fn team_state_defaults() {
    let f = TeamStateFields {
        game_index: None,
        team_index: None,
        team_id: None,
        team_name: None,
        team_record: None,
        score: None,
        posession: Some(2),
    };
    assert!(!f.is_home());
    let t = f.into_team_state();
    assert_eq!(t.team.id, -1);
    assert_eq!(t.team.name, "Untitled Team");
    assert_eq!(t.team.record, "");
    assert_eq!(t.score, "");
    assert!(!t.posession);
}

#[test]
fn message_kinds() {
    assert_eq!(ScoreListScreen::message_kind(Some(1)), Some(MessageType::GameInfo));
    assert_eq!(ScoreListScreen::message_kind(Some(2)), Some(MessageType::GameTeamState));
    assert_eq!(ScoreListScreen::message_kind(Some(3)), None);
    assert_eq!(ScoreListScreen::message_kind(None), None);
}

fn two_games() -> ScoreMessageState {
    let mut s = ScoreMessageState::new();
    s.games.push(Some(PartialGame::from_fields(info(10, None), "1/2/24", "12:00:00")));
    s.games.push(Some(PartialGame::from_fields(info(11, Some(1)), "1/2/24", "12:00:00")));
    s
}

#[test]
fn teams_fill_games_then_commit() {
    let mut s = two_games();
    assert!(!s.ready_to_commit());
    s.apply_team_state(team_fields(Some(0), Some(0), "Bears"));
    s.apply_team_state(team_fields(Some(0), Some(1), "Lions"));
    assert!(!s.ready_to_commit());
    assert!(ScoreListScreen::finish_message(&mut s).is_none());
    s.apply_team_state(team_fields(Some(1), Some(1), "Jets"));
    s.apply_team_state(team_fields(Some(1), Some(0), "Bills"));
    assert!(s.ready_to_commit());
    let games = ScoreListScreen::finish_message(&mut s).unwrap();
    assert_eq!(games.len(), 2);
    assert_eq!(games[0].id, 10);
    assert_eq!(games[0].home_team.team.name, "Bears");
    assert_eq!(games[0].away_team.team.name, "Lions");
    assert_eq!(games[1].id, 11);
    assert_eq!(games[1].home_team.team.name, "Bills");
    assert_eq!(games[1].away_team.team.name, "Jets");
    assert!(games[1].home_team.posession);
    assert_eq!(s.games.len(), 2);
    assert!(s.games.iter().all(|g| g.is_none()));
}

#[test]
fn team_state_for_missing_game_is_ignored() {
    let mut s = two_games();
    s.games.push(None);
    s.apply_team_state(team_fields(Some(2), Some(0), "Bears"));
    s.apply_team_state(team_fields(Some(7), Some(0), "Bears"));
    s.apply_team_state(team_fields(Some(-1), Some(0), "Bears"));
    s.apply_team_state(team_fields(None, Some(0), "Bears"));
    assert!(s.games[0].as_ref().unwrap().home_team.is_none());
    assert!(s.games[1].as_ref().unwrap().home_team.is_none());
    assert!(s.games[2].is_none());
}

#[test]
fn later_team_state_replaces_earlier() {
    let mut s = two_games();
    s.apply_team_state(team_fields(Some(0), Some(0), "Bears"));
    s.apply_team_state(team_fields(Some(0), Some(0), "Packers"));
    assert_eq!(s.games[0].as_ref().unwrap().home_team.as_ref().unwrap().team.name, "Packers");
    assert!(s.games[0].as_ref().unwrap().away_team.is_none());
}

#[test]
fn empty_list_is_ready() {
    let mut s = ScoreMessageState::new();
    assert!(s.ready_to_commit());
    assert_eq!(ScoreListScreen::finish_message(&mut s).unwrap().len(), 0);
}

#[test]
fn list_with_empty_slot_is_not_ready() {
    let mut s = ScoreMessageState::new();
    s.games.push(None);
    assert!(!s.ready_to_commit());
}

#[test]
fn score_list_rows() {
    assert!(ScoreListScreen::use_large_row(true, false));
    assert!(ScoreListScreen::use_large_row(false, true));
    assert!(!ScoreListScreen::use_large_row(false, false));
    assert_eq!(ScoreListScreen::cell_height(true, false), 58);
    assert_eq!(ScoreListScreen::cell_height(true, true), 58);
    assert_eq!(ScoreListScreen::cell_height(false, true), 66);
    assert_eq!(ScoreListScreen::cell_height(false, false), 26);
    assert!(ScoreListScreen::header_under_status_bar(0));
    assert!(!ScoreListScreen::header_under_status_bar(3));
    assert!(!ScoreListScreen::status_bar_hidden(0));
    assert!(ScoreListScreen::status_bar_hidden(3));
    assert_eq!(ScoreListScreen::menu_top_inset(true, 44), 44);
    assert_eq!(ScoreListScreen::menu_top_inset(false, 44), 0);
}

#[test]
fn more_rows_indicator() {
    assert!(ScoreListScreen::has_more_below(0, 3));
    assert!(ScoreListScreen::has_more_below(1, 3));
    assert!(!ScoreListScreen::has_more_below(2, 3));
    assert!(!ScoreListScreen::has_more_below(0, 1));
    assert!(ScoreListScreen::has_more_below(0, 0));
}

#[test]
fn game_lookup() {
    let mut s = two_games();
    s.apply_team_state(team_fields(Some(0), Some(0), "A"));
    s.apply_team_state(team_fields(Some(0), Some(1), "B"));
    s.apply_team_state(team_fields(Some(1), Some(0), "C"));
    s.apply_team_state(team_fields(Some(1), Some(1), "D"));
    let games = s.commit();
    assert_eq!(ScoreListScreen::num_rows(&games), 2);
    assert_eq!(ScoreListScreen::game_at(&games, 1).unwrap().id, 11);
    assert!(ScoreListScreen::game_at(&games, 2).is_none());
}

#[test]
fn default_list_is_empty() {
    let s = ScoreMessageState::default();
    assert!(s.games.is_empty());
}

#[test]
fn home_and_away_in_either_order() {
    let mut a = two_games();
    a.apply_team_state(team_fields(Some(1), Some(0), "Home"));
    a.apply_team_state(team_fields(Some(1), Some(1), "Away"));
    let mut b = two_games();
    b.apply_team_state(team_fields(Some(1), Some(1), "Away"));
    b.apply_team_state(team_fields(Some(1), Some(0), "Home"));
    for s in [&a, &b] {
        let g = s.games[1].as_ref().unwrap();
        assert_eq!(g.home_team.as_ref().unwrap().team.name, "Home");
        assert_eq!(g.away_team.as_ref().unwrap().team.name, "Away");
        assert!(s.games[0].as_ref().unwrap().home_team.is_none());
    }
}
