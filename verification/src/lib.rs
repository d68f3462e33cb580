//! The rules behind the arena's tournament, leaderboard and page handlers.

pub mod bracket;
pub mod entry_page;
pub mod flow;
pub mod forms;
pub mod ids;
pub mod import;
pub mod leaderboard_page;
pub mod lifecycle;
pub mod lists;
pub mod markup;
pub mod membership;
pub mod model;
pub mod page;
pub mod paging;
pub mod registration;
pub mod rules;
pub mod runs;
pub mod settings;
pub mod text;
pub mod time;
pub mod tournament_forms;
pub mod tournament_page;
