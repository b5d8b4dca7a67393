//! Core engine of a per-tab record-keeping dashboard.
//!
//! Each tab tracks timestamped records and derives aggregates from them:
//! counts per hour of the day, counts per day over a sliding window of
//! dates, and counts per month over a trailing year, together with a
//! trend indicator comparing the viewed day against a recent baseline.
//! The tab also keeps an undo/redo journal of record additions and
//! deletions, a sliding date window with a bounded cursor, and a
//! cursor-bearing selectable list used for both the tab bar and the
//! per-day record list.
//!
//! Persistence and presentation are collaborators outside this crate: a
//! record store performs the actual reads and writes, and a front end
//! renders published state snapshots.  The functions here take the
//! store's answers as plain values and return the decisions and derived
//! state, so the whole of the engine's logic is verified.

pub mod app;
pub mod args_parse;
pub mod date;
pub mod days_frame;
pub mod level;
pub mod selectable_list;
pub mod tab;

pub use date::Record;
pub use days_frame::DaysFrame;
pub use level::Level;
pub use selectable_list::SelectableList;
