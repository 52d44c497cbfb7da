//! A verified core for a game-update notification bot: feed decoding,
//! freshness tracking, presence correlation, and per-community routing
//! of alert and announcement messages.

pub mod cycle;
pub mod feed;
pub mod fresh;
pub mod item;
pub mod notify;
pub mod presence;
pub mod route;
pub mod text;
