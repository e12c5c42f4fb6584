//! The validated runtime state, derived from the settings document.

use vstd::prelude::*;
use crate::config::ActivityView as ActivitySettings;
use crate::config::Config;
use crate::config::ConfigView;
use crate::config::ServicePrioritiesEntry;
use crate::config::ServicesView as ServicesSettings;
use crate::config::service::TwitchView;

pub mod service;

verus! {

/// An integrated service.
#[derive(Clone, Copy, Debug, PartialEq, Eq, Structural)]
pub enum Service {
    Nintendo,
    Playstation,
    Steam,
    Twitch,
    Xbox,
}

/// Why a settings document is not usable as it stands.
#[derive(Clone, Copy, Debug, PartialEq, Eq, Structural)]
pub enum Error {
    /// The service is switched on, and the credentials it needs are absent.
    MissingCredentials { service: Service },
    /// The service's list of asset sources is empty.
    EmptyAssetPriorityList { service: Service },
    /// A service occurs twice in the order of preference.
    DuplicatePriorityEntry,
}

/// The runtime state: one profile for the one settings document.
#[derive(Clone, Debug, PartialEq, Eq)]
pub struct State {
    pub profiles: Vec<Profile>,
}

/// A [`State`] as plain values.
pub struct StateView {
    pub profiles: Seq<ProfileView>,
}

impl View for State {
    type V = StateView;

    open spec fn view(&self) -> StateView {
        StateView { profiles: Seq::new(self.profiles@.len(), |i: int| self.profiles@[i]@) }
    }
}

/// What one settings document derives to.
#[derive(Clone, Debug, PartialEq, Eq)]
pub struct Profile {
    pub services: Services,
    pub activity: Activity,
    pub games: Games,
}

/// A [`Profile`] as plain values.
pub struct ProfileView {
    pub services: ServicesView,
    pub activity: Activity,
    pub games: Games,
}

impl View for Profile {
    type V = ProfileView;

    open spec fn view(&self) -> ProfileView {
        ProfileView { services: self.services@, activity: self.activity, games: self.games }
    }
}

/// The record of each service that reports presence; absent where the service
/// is switched off.
#[derive(Clone, Debug, PartialEq, Eq)]
pub struct Services {
    pub nintendo: Option<self::service::Nintendo>,
    pub playstation: Option<self::service::Playstation>,
    pub steam: Option<self::service::Steam>,
    pub xbox: Option<self::service::Xbox>,
}

/// A [`Services`] as plain values.
pub struct ServicesView {
    pub nintendo: Option<self::service::Nintendo>,
    pub playstation: Option<self::service::Playstation>,
    pub steam: Option<self::service::SteamView>,
    pub xbox: Option<self::service::Xbox>,
}

impl View for Services {
    type V = ServicesView;

    open spec fn view(&self) -> ServicesView {
        ServicesView {
            nintendo: self.nintendo,
            playstation: self.playstation,
            steam: match self.steam {
                Some(steam) => Some(steam@),
                None => None,
            },
            xbox: self.xbox,
        }
    }
}

/// The validated switches of presence publication.
#[derive(Clone, Copy, Debug, PartialEq, Eq, Structural)]
pub struct Activity {
    pub discord_display_presence: bool,
    pub twitch_assets_enabled: bool,
    pub games_require_whitelisting: bool,
}

/// State per game; none exists so far.
#[derive(Clone, Copy, Debug, PartialEq, Eq, Structural)]
pub struct Games {}

/// Whether some entry occurs at two places of the list.
pub open spec fn has_duplicates(entries: Seq<ServicePrioritiesEntry>) -> bool {
    exists|i: int, j: int| 0 <= i < j < entries.len() && entries[i] == entries[j]
}

/// Finds out whether some entry occurs at two places of the list.
pub fn contains_duplicates(entries: &Vec<ServicePrioritiesEntry>) -> (r: bool)
    ensures
        r == has_duplicates(entries@),
{
    let mut upper: usize = 0;
    while upper < entries.len()
        invariant
            upper <= entries.len(),
            forall|i: int, j: int| 0 <= i < j < upper ==> entries@[i] != entries@[j],
        decreases entries.len() - upper,
    {
        let mut lower: usize = 0;
        while lower < upper
            invariant
                lower <= upper < entries.len(),
                forall|i: int| 0 <= i < lower ==> entries@[i] != entries@[upper as int],
            decreases upper - lower,
        {
            if entries[lower] == entries[upper] {
                return true;
            }
            lower += 1;
        }
        upper += 1;
    }
    false
}

impl Services {
    /// What the services' settings derive to: the first refusal among
    /// Nintendo, PlayStation, Steam and Xbox, in this order, or else the
    /// record of each.
    pub open spec fn derived(settings: ServicesSettings) -> Result<ServicesView, Error> {
        match self::service::Nintendo::derived(settings.nintendo) {
            Err(e) => Err(e),
            Ok(nintendo) => match self::service::Playstation::derived(settings.playstation) {
                Err(e) => Err(e),
                Ok(playstation) => match self::service::Steam::derived(settings.steam) {
                    Err(e) => Err(e),
                    Ok(steam) => match self::service::Xbox::derived(settings.xbox) {
                        Err(e) => Err(e),
                        Ok(xbox) => Ok(ServicesView { nintendo, playstation, steam, xbox }),
                    },
                },
            },
        }
    }

    /// A result of validation as plain values.
    pub open spec fn outcome(r: Result<Services, Error>) -> Result<ServicesView, Error> {
        match r {
            Ok(services) => Ok(services@),
            Err(e) => Err(e),
        }
    }

    /// Validates the settings of the services that report presence. Twitch's
    /// settings are read by [`Activity::try_from`].
    pub fn try_from(services: crate::config::Services) -> (r: Result<Services, Error>)
        ensures
            Services::outcome(r) == Services::derived(services@),
    {
        let nintendo = match self::service::Nintendo::try_from(services.nintendo) {
            Ok(nintendo) => nintendo,
            Err(e) => return Err(e),
        };
        let playstation = match self::service::Playstation::try_from(services.playstation) {
            Ok(playstation) => playstation,
            Err(e) => return Err(e),
        };
        let steam = match self::service::Steam::try_from(services.steam) {
            Ok(steam) => steam,
            Err(e) => return Err(e),
        };
        let xbox = match self::service::Xbox::try_from(services.xbox) {
            Ok(xbox) => xbox,
            Err(e) => return Err(e),
        };
        Ok(Services { nintendo, playstation, steam, xbox })
    }
}

impl Activity {
    /// What the activity settings derive to. Twitch switched on without its
    /// account is refused, then a service that occurs twice in the order of
    /// preference. Otherwise the switches are taken over, and Twitch artwork
    /// is on exactly if Twitch is.
    pub open spec fn derived(settings: ActivitySettings, twitch: TwitchView) -> Result<
        Activity,
        Error,
    > {
        if twitch.enabled && twitch.data is None {
            Err(Error::MissingCredentials { service: Service::Twitch })
        } else if has_duplicates(settings.service_priorities) {
            Err(Error::DuplicatePriorityEntry)
        } else {
            Ok(
                Activity {
                    discord_display_presence: settings.discord_display_presence,
                    twitch_assets_enabled: twitch.enabled,
                    games_require_whitelisting: settings.games_require_whitelisting,
                },
            )
        }
    }

    /// Validates the activity settings together with Twitch's.
    pub fn try_from(activity: crate::config::Activity, twitch: &crate::config::service::Twitch) -> (r:
        Result<Activity, Error>)
        ensures
            r == Activity::derived(activity@, twitch@),
    {
        if twitch.enabled && twitch.data.is_none() {
            Err(Error::MissingCredentials { service: Service::Twitch })
        } else if contains_duplicates(&activity.service_priorities) {
            Err(Error::DuplicatePriorityEntry)
        } else {
            Ok(
                Activity {
                    discord_display_presence: activity.discord_display_presence,
                    twitch_assets_enabled: twitch.enabled,
                    games_require_whitelisting: activity.games_require_whitelisting,
                },
            )
        }
    }
}

impl Games {
    /// Takes the settings per game over; there are none to validate.
    pub fn try_from(games: crate::config::Games) -> (r: Result<Games, Error>)
        ensures
            r == Ok::<Games, Error>(Games {  }),
    {
        Ok(Games {  })
    }
}

impl Profile {
    /// What a settings document derives to: the first refusal among those of
    /// the services and of the activity settings, in this order, or else the
    /// profile made of what they derive to.
    pub open spec fn derived(config: ConfigView) -> Result<ProfileView, Error> {
        match Services::derived(config.services) {
            Err(e) => Err(e),
            Ok(services) => match Activity::derived(config.activity, config.services.twitch) {
                Err(e) => Err(e),
                Ok(activity) => Ok(ProfileView { services, activity, games: Games {  } }),
            },
        }
    }

    /// A result of validation as plain values.
    pub open spec fn outcome(r: Result<Profile, Error>) -> Result<ProfileView, Error> {
        match r {
            Ok(profile) => Ok(profile@),
            Err(e) => Err(e),
        }
    }

    /// Validates a settings document.
    pub fn try_from(config: Config) -> (r: Result<Profile, Error>)
        ensures
            Profile::outcome(r) == Profile::derived(config@),
    {
        let activity = Activity::try_from(config.activity, &config.services.twitch);
        let services = match Services::try_from(config.services) {
            Ok(services) => services,
            Err(e) => return Err(e),
        };
        let activity = match activity {
            Ok(activity) => activity,
            Err(e) => return Err(e),
        };
        let games = match Games::try_from(config.games) {
            Ok(games) => games,
            Err(e) => return Err(e),
        };
        Ok(Profile { services, activity, games })
    }
}

impl State {
    /// What a settings document derives to: its one profile, or the refusal.
    pub open spec fn derived(config: ConfigView) -> Result<StateView, Error> {
        match Profile::derived(config) {
            Ok(profile) => Ok(StateView { profiles: seq![profile] }),
            Err(e) => Err(e),
        }
    }

    /// A result of validation as plain values.
    pub open spec fn outcome(r: Result<State, Error>) -> Result<StateView, Error> {
        match r {
            Ok(state) => Ok(state@),
            Err(e) => Err(e),
        }
    }

    /// Derives the runtime state from a settings document. The result is a
    /// function of the document's values alone.
    pub fn try_from(config: Config) -> (r: Result<State, Error>)
        ensures
            State::outcome(r) == State::derived(config@),
    {
        match Profile::try_from(config) {
            Ok(profile) => {
                let profiles = vec![profile];
                assert(Seq::new(profiles@.len(), |i: int| profiles@[i]@) =~= seq![profile@]);
                Ok(State { profiles })
            },
            Err(e) => Err(e),
        }
    }
}

} // verus!
