use vstd::prelude::*;

verus! {

/// The properties of a server that reports one version only.
#[derive(Debug, Clone, PartialEq, Eq)]
pub struct GameInfo {
    /// Name of the game the server runs.
    pub game: String,
    /// Version of the rules core.
    pub version: String,
}

/// What such a server reports of itself.
#[derive(Debug, Clone, PartialEq, Eq)]
pub struct WhistInfo {
    pub info: GameInfo,
}

impl WhistInfo {
    pub fn new(game: String, version: String) -> (report: WhistInfo)
        ensures
            report.info.game == game,
            report.info.version == version,
    {
        WhistInfo { info: GameInfo { game, version } }
    }
}

/// Makes reports.
#[derive(Debug, Clone, Copy, PartialEq, Eq, Structural)]
pub struct WhistInfoFactory;

impl WhistInfoFactory {
    pub fn new_info(game: String, version: String) -> (report: WhistInfo)
        ensures
            report.info.game == game,
            report.info.version == version,
    {
        WhistInfo::new(game, version)
    }
}

} // verus!
