//! The verified core of a watch app that lists sports leagues and the live
//! scores of their games.
//!
//! Screens, drawing, time formatting and the phone link live outside this
//! crate; what they decide is here, as functions from plain values to plain
//! values with contracts:
//! - `model`: leagues, teams and games, and how the phone's fields read as them;
//! - `message`: the kinds and keys of the messages the phone sends;
//! - `scorelist`: how the score list is assembled from its messages;
//! - `leagues`: the league list's rows and selection;
//! - `geometry`: where the header and the rows are drawn;
//! - `text`: shortening the watch's date and time texts;
//! - `mem`: the byte copies, fills and comparisons the firmware needs.

pub mod geometry;
pub mod leagues;
pub mod mem;
pub mod message;
pub mod model;
pub mod scorelist;
pub mod text;
