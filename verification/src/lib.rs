//! A single combat-sports match: two competitors, a score sheet and a
//! pausable countdown timer.

pub mod bout;
pub mod clock;
pub mod newtype;
pub mod render;
pub mod roster;
pub mod score;
pub mod score_laws;
pub mod timer;
pub mod timer_laws;

pub use crate::bout::{Match, MatchView};
pub use crate::newtype::W;
pub use crate::roster::{Competitor, CompetitorView, Team, TeamView};
pub use crate::score::{CompetitorNumber, CompetitorScore, MatchScore, Points, WinMethod};
pub use crate::timer::{MatchTimer, TimerState};
