//! The persisted settings document.

use vstd::prelude::*;

pub mod format;
pub mod service;
pub mod store;

verus! {

/// Why reading or writing the settings failed, by the step that failed.
#[derive(Clone, Copy, Debug, PartialEq, Eq, Structural)]
pub enum Error {
    DirectoriesBaseDirsNew,
    SerdeJsonFromStr,
    SerdeJsonFromValue,
    SerdeJsonToVec,
    StdFsCreateDirAll,
    StdFsMetadata,
    TokioFsOpenOptions,
    TokioIoReadToString,
    StdFsSyncAll,
    TokioIoWriteAll,
    StdFsRename,
}

/// The whole settings document.
#[derive(Clone, Debug, PartialEq, Eq)]
pub struct Config {
    pub services: Services,
    pub activity: Activity,
    pub games: Games,
}

/// A [`Config`] as plain values.
pub struct ConfigView {
    pub services: ServicesView,
    pub activity: ActivityView,
    pub games: Games,
}

impl View for Config {
    type V = ConfigView;

    open spec fn view(&self) -> ConfigView {
        ConfigView { services: self.services@, activity: self.activity@, games: self.games }
    }
}

impl ConfigView {
    /// The document of a fresh installation.
    pub open spec fn initial() -> ConfigView {
        ConfigView {
            services: ServicesView::initial(),
            activity: ActivityView::initial(),
            games: Games {  },
        }
    }
}

impl Default for Config {
    fn default() -> (r: Config)
        ensures
            r@ == ConfigView::initial(),
    {
        Config {
            services: Services::default(),
            activity: Activity::default(),
            games: Games::default(),
        }
    }
}

/// One slot of settings for each integrated service.
#[derive(Clone, Debug, PartialEq, Eq)]
pub struct Services {
    pub nintendo: self::service::Nintendo,
    pub playstation: self::service::Playstation,
    pub steam: self::service::Steam,
    pub twitch: self::service::Twitch,
    pub xbox: self::service::Xbox,
}

/// A [`Services`] as plain values.
pub struct ServicesView {
    pub nintendo: self::service::NintendoView,
    pub playstation: self::service::PlaystationView,
    pub steam: self::service::SteamView,
    pub twitch: self::service::TwitchView,
    pub xbox: self::service::XboxView,
}

impl View for Services {
    type V = ServicesView;

    open spec fn view(&self) -> ServicesView {
        ServicesView {
            nintendo: self.nintendo@,
            playstation: self.playstation@,
            steam: self.steam@,
            twitch: self.twitch@,
            xbox: self.xbox@,
        }
    }
}

impl ServicesView {
    /// Every service in its fresh state.
    pub open spec fn initial() -> ServicesView {
        ServicesView {
            nintendo: self::service::NintendoView::initial(),
            playstation: self::service::PlaystationView::initial(),
            steam: self::service::SteamView::initial(),
            twitch: self::service::TwitchView::initial(),
            xbox: self::service::XboxView::initial(),
        }
    }
}

impl Default for Services {
    fn default() -> (r: Services)
        ensures
            r@ == ServicesView::initial(),
    {
        Services {
            nintendo: self::service::Nintendo::default(),
            playstation: self::service::Playstation::default(),
            steam: self::service::Steam::default(),
            twitch: self::service::Twitch::default(),
            xbox: self::service::Xbox::default(),
        }
    }
}

/// Where the artwork of a game is fetched from.
#[derive(Clone, Copy, Debug, PartialEq, Eq, Structural)]
pub enum AssetSourceEntry {
    Native,
    Twitch,
}

impl Default for AssetSourceEntry {
    fn default() -> (r: AssetSourceEntry)
        ensures
            r == AssetSourceEntry::Native,
    {
        AssetSourceEntry::Native
    }
}

/// The settings of presence publication.
#[derive(Clone, Debug, PartialEq, Eq)]
pub struct Activity {
    pub polling_active: bool,
    pub discord_display_presence: bool,
    pub games_require_whitelisting: bool,
    pub service_priorities: Vec<ServicePrioritiesEntry>,
}

/// An [`Activity`] as plain values.
pub struct ActivityView {
    pub polling_active: bool,
    pub discord_display_presence: bool,
    pub games_require_whitelisting: bool,
    pub service_priorities: Seq<ServicePrioritiesEntry>,
}

impl View for Activity {
    type V = ActivityView;

    open spec fn view(&self) -> ActivityView {
        ActivityView {
            polling_active: self.polling_active,
            discord_display_presence: self.discord_display_presence,
            games_require_whitelisting: self.games_require_whitelisting,
            service_priorities: self.service_priorities@,
        }
    }
}

impl ActivityView {
    /// Everything off, and no service preferred.
    pub open spec fn initial() -> ActivityView {
        ActivityView {
            polling_active: false,
            discord_display_presence: false,
            games_require_whitelisting: false,
            service_priorities: Seq::empty(),
        }
    }
}

impl Default for Activity {
    fn default() -> (r: Activity)
        ensures
            r@ == ActivityView::initial(),
    {
        Activity {
            polling_active: false,
            discord_display_presence: false,
            games_require_whitelisting: false,
            service_priorities: Vec::new(),
        }
    }
}

/// A service that can report what is being played.
#[derive(Clone, Copy, Debug, PartialEq, Eq, Structural)]
pub enum ServicePrioritiesEntry {
    Nintendo,
    Playstation,
    Steam,
    Xbox,
}

/// Settings per game; none exist so far.
#[derive(Clone, Copy, Debug, PartialEq, Eq, Structural)]
pub struct Games {}

impl Default for Games {
    fn default() -> (r: Games)
        ensures
            r == (Games {  }),
    {
        Games {  }
    }
}

/// An optional text as plain values.
pub open spec fn text_view(text: Option<String>) -> Option<Seq<char>> {
    match text {
        Some(text) => Some(text@),
        None => None,
    }
}

} // verus!
