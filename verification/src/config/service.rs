//! The settings of each integrated service.

use vstd::prelude::*;
use crate::config::AssetSourceEntry;

pub mod format;
pub mod nintendo;
pub mod playstation;
pub mod steam;
pub mod twitch;
pub mod xbox;

verus! {

/// The settings of the Nintendo integration.
#[derive(Clone, Debug, PartialEq, Eq)]
pub struct Nintendo {
    pub disclaimer_acknowledged: bool,
    pub enabled: bool,
    pub assets_priorities: Vec<AssetSourceEntry>,
    pub data: Option<nintendo::Data>,
}

/// A [`Nintendo`] as plain values.
pub struct NintendoView {
    pub disclaimer_acknowledged: bool,
    pub enabled: bool,
    pub assets_priorities: Seq<AssetSourceEntry>,
    pub data: Option<nintendo::DataView>,
}

impl View for Nintendo {
    type V = NintendoView;

    open spec fn view(&self) -> NintendoView {
        NintendoView {
            disclaimer_acknowledged: self.disclaimer_acknowledged,
            enabled: self.enabled,
            assets_priorities: self.assets_priorities@,
            data: match self.data {
                Some(data) => Some(data@),
                None => None,
            },
        }
    }
}

impl NintendoView {
    /// The settings of a fresh installation: switched off, native assets only.
    pub open spec fn initial() -> NintendoView {
        NintendoView {
            disclaimer_acknowledged: false,
            enabled: false,
            assets_priorities: seq![AssetSourceEntry::Native],
            data: None,
        }
    }
}

impl Default for Nintendo {
    fn default() -> (r: Nintendo)
        ensures
            r@ == NintendoView::initial(),
    {
        let disclaimer_acknowledged = false;
        let enabled = false;
        let assets_priorities = vec![AssetSourceEntry::default()];
        assert(assets_priorities@ =~= seq![AssetSourceEntry::Native]);
        let data = None;
        Nintendo { disclaimer_acknowledged, enabled, assets_priorities, data }
    }
}

/// The settings of the PlayStation integration.
#[derive(Clone, Debug, PartialEq, Eq)]
pub struct Playstation {
    pub enabled: bool,
    pub assets_priorities: Vec<AssetSourceEntry>,
    pub data: Option<playstation::Data>,
}

/// A [`Playstation`] as plain values.
pub struct PlaystationView {
    pub enabled: bool,
    pub assets_priorities: Seq<AssetSourceEntry>,
    pub data: Option<playstation::DataView>,
}

impl View for Playstation {
    type V = PlaystationView;

    open spec fn view(&self) -> PlaystationView {
        PlaystationView {
            enabled: self.enabled,
            assets_priorities: self.assets_priorities@,
            data: match self.data {
                Some(data) => Some(data@),
                None => None,
            },
        }
    }
}

impl PlaystationView {
    /// The settings of a fresh installation: switched off, native assets only.
    pub open spec fn initial() -> PlaystationView {
        PlaystationView { enabled: false, assets_priorities: seq![AssetSourceEntry::Native], data: None }
    }
}

impl Default for Playstation {
    fn default() -> (r: Playstation)
        ensures
            r@ == PlaystationView::initial(),
    {
        let enabled = false;
        let assets_priorities = vec![AssetSourceEntry::default()];
        assert(assets_priorities@ =~= seq![AssetSourceEntry::Native]);
        let data = None;
        Playstation { enabled, assets_priorities, data }
    }
}

/// The settings of the Steam integration.
#[derive(Clone, Debug, PartialEq, Eq)]
pub struct Steam {
    pub enabled: bool,
    pub assets_priorities: Vec<AssetSourceEntry>,
    pub data: Option<steam::Data>,
}

/// A [`Steam`] as plain values.
pub struct SteamView {
    pub enabled: bool,
    pub assets_priorities: Seq<AssetSourceEntry>,
    pub data: Option<steam::DataView>,
}

impl View for Steam {
    type V = SteamView;

    open spec fn view(&self) -> SteamView {
        SteamView {
            enabled: self.enabled,
            assets_priorities: self.assets_priorities@,
            data: match self.data {
                Some(data) => Some(data@),
                None => None,
            },
        }
    }
}

impl SteamView {
    /// The settings of a fresh installation: switched off, native assets only.
    pub open spec fn initial() -> SteamView {
        SteamView { enabled: false, assets_priorities: seq![AssetSourceEntry::Native], data: None }
    }
}

impl Default for Steam {
    fn default() -> (r: Steam)
        ensures
            r@ == SteamView::initial(),
    {
        let enabled = false;
        let assets_priorities = vec![AssetSourceEntry::default()];
        assert(assets_priorities@ =~= seq![AssetSourceEntry::Native]);
        let data = None;
        Steam { enabled, assets_priorities, data }
    }
}

/// The settings of the Twitch integration, which supplies artwork only.
#[derive(Clone, Debug, PartialEq, Eq)]
pub struct Twitch {
    pub enabled: bool,
    pub data: Option<twitch::Data>,
}

/// A [`Twitch`] as plain values.
pub struct TwitchView {
    pub enabled: bool,
    pub data: Option<twitch::DataView>,
}

impl View for Twitch {
    type V = TwitchView;

    open spec fn view(&self) -> TwitchView {
        TwitchView {
            enabled: self.enabled,
            data: match self.data {
                Some(data) => Some(data@),
                None => None,
            },
        }
    }
}

impl TwitchView {
    /// The settings of a fresh installation: switched off.
    pub open spec fn initial() -> TwitchView {
        TwitchView { enabled: false, data: None }
    }
}

impl Default for Twitch {
    fn default() -> (r: Twitch)
        ensures
            r@ == TwitchView::initial(),
    {
        Twitch { enabled: false, data: None }
    }
}

/// The settings of the Xbox integration.
#[derive(Clone, Debug, PartialEq, Eq)]
pub struct Xbox {
    pub enabled: bool,
    pub assets_priorities: Vec<AssetSourceEntry>,
    pub data: Option<xbox::Data>,
}

/// A [`Xbox`] as plain values.
pub struct XboxView {
    pub enabled: bool,
    pub assets_priorities: Seq<AssetSourceEntry>,
    pub data: Option<xbox::DataView>,
}

impl View for Xbox {
    type V = XboxView;

    open spec fn view(&self) -> XboxView {
        XboxView {
            enabled: self.enabled,
            assets_priorities: self.assets_priorities@,
            data: match self.data {
                Some(data) => Some(data@),
                None => None,
            },
        }
    }
}

impl XboxView {
    /// The settings of a fresh installation: switched off, native assets only.
    pub open spec fn initial() -> XboxView {
        XboxView { enabled: false, assets_priorities: seq![AssetSourceEntry::Native], data: None }
    }
}

impl Default for Xbox {
    fn default() -> (r: Xbox)
        ensures
            r@ == XboxView::initial(),
    {
        let enabled = false;
        let assets_priorities = vec![AssetSourceEntry::default()];
        assert(assets_priorities@ =~= seq![AssetSourceEntry::Native]);
        let data = None;
        Xbox { enabled, assets_priorities, data }
    }
}

} // verus!
