use vstd::prelude::*;

use crate::geometry::row_count;
use crate::model::League;

verus! {

/// The screen that lists the leagues.
pub struct LeaguesScreen;

/// The league at row `row` of the list, where that row holds one.
pub open spec fn league_at_row(leagues: Seq<Option<League>>, row: int) -> Option<League> {
    if 0 <= row < leagues.len() {
        leagues[row]
    } else {
        None
    }
}

impl LeaguesScreen {
    /// The height of each row of the list.
    pub const CELL_HEIGHT: i16 = 64;

    /// The number of rows of the list.
    pub fn num_rows(leagues: &Vec<Option<League>>) -> (r: u16)
        ensures
            r == leagues@.len() % 65536,
    {
        row_count(leagues.len())
    }

    /// The league at row `row` of the list, where that row holds one yet.
    pub fn league_at(leagues: &Vec<Option<League>>, row: usize) -> (r: Option<&League>)
        ensures
            match r {
                Some(l) => league_at_row(leagues@, row as int) == Some(*l),
                None => league_at_row(leagues@, row as int) is None,
            },
    {
        if row < leagues.len() {
            match &leagues[row] {
                Some(l) => Some(l),
                None => None,
            }
        } else {
            None
        }
    }

    /// What choosing row `row` opens: the league there and the index of its
    /// sport's icon, where the row holds a league and there are more than
    /// that many icons.
    pub fn selection(leagues: &Vec<Option<League>>, row: usize, icon_count: usize) -> (r: Option<(&League, usize)>)
        ensures
            match r {
                Some((l, icon)) => {
                    &&& league_at_row(leagues@, row as int) == Some(*l)
                    &&& icon == l.icon.spec_code()
                    &&& icon < icon_count
                },
                None => match league_at_row(leagues@, row as int) {
                    Some(l) => l.icon.spec_code() >= icon_count,
                    None => true,
                },
            },
    {
        match LeaguesScreen::league_at(leagues, row) {
            Some(l) => {
                let icon = l.icon.icon_index();
                if icon < icon_count {
                    Some((l, icon))
                } else {
                    None
                }
            },
            None => None,
        }
    }
}

} // verus!
