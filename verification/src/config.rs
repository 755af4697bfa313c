//! The display strings of the panels, as the configuration file supplies them.

use vstd::prelude::*;

verus! {

/// The text of each panel. It is read once when the bot starts and never
/// changes afterwards.
#[derive(Debug, Clone, PartialEq, Eq)]
pub struct Config {
    pub home: String,
    pub about_me: String,
    pub social_media: String,
    pub jobs: String,
    pub skills: String,
    pub alelo: String,
}

} // verus!
