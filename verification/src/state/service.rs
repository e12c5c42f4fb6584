//! The validated record of each service that reports presence.

use vstd::prelude::*;
use crate::config::service::NintendoView;
use crate::config::service::PlaystationView;
use crate::config::service::SteamView as SteamSettings;
use crate::config::service::XboxView;
use crate::state::Error;
use crate::state::Service;

verus! {

/// Nintendo, switched on.
#[derive(Clone, Copy, Debug, PartialEq, Eq, Structural)]
pub struct Nintendo {
    pub enabled: bool,
}

impl Nintendo {
    /// What Nintendo's settings derive to: an empty list of asset sources is
    /// refused; otherwise there is a record exactly if the service is on.
    pub open spec fn derived(settings: NintendoView) -> Result<Option<Nintendo>, Error> {
        if settings.assets_priorities.len() == 0 {
            Err(Error::EmptyAssetPriorityList { service: Service::Nintendo })
        } else if settings.enabled {
            Ok(Some(Nintendo { enabled: true }))
        } else {
            Ok(None)
        }
    }

    /// Validates Nintendo's settings.
    pub fn try_from(nintendo: crate::config::service::Nintendo) -> (r: Result<Option<Nintendo>, Error>)
        ensures
            r == Nintendo::derived(nintendo@),
    {
        if nintendo.assets_priorities.len() == 0 {
            Err(Error::EmptyAssetPriorityList { service: Service::Nintendo })
        } else if nintendo.enabled {
            Ok(Some(Nintendo { enabled: true }))
        } else {
            Ok(None)
        }
    }
}

/// PlayStation, switched on.
#[derive(Clone, Copy, Debug, PartialEq, Eq, Structural)]
pub struct Playstation {
    pub enabled: bool,
}

impl Playstation {
    /// What PlayStation's settings derive to: an empty list of asset sources is
    /// refused; otherwise there is a record exactly if the service is on.
    pub open spec fn derived(settings: PlaystationView) -> Result<Option<Playstation>, Error> {
        if settings.assets_priorities.len() == 0 {
            Err(Error::EmptyAssetPriorityList { service: Service::Playstation })
        } else if settings.enabled {
            Ok(Some(Playstation { enabled: true }))
        } else {
            Ok(None)
        }
    }

    /// Validates PlayStation's settings.
    pub fn try_from(playstation: crate::config::service::Playstation) -> (r: Result<
        Option<Playstation>,
        Error,
    >)
        ensures
            r == Playstation::derived(playstation@),
    {
        if playstation.assets_priorities.len() == 0 {
            Err(Error::EmptyAssetPriorityList { service: Service::Playstation })
        } else if playstation.enabled {
            Ok(Some(Playstation { enabled: true }))
        } else {
            Ok(None)
        }
    }
}

/// Steam, switched on, with the credentials that its polling needs.
#[derive(Clone, Debug, PartialEq, Eq)]
pub struct Steam {
    pub enabled: bool,
    pub id: String,
    pub key: String,
}

/// A [`Steam`] as plain values.
pub struct SteamView {
    pub enabled: bool,
    pub id: Seq<char>,
    pub key: Seq<char>,
}

impl View for Steam {
    type V = SteamView;

    open spec fn view(&self) -> SteamView {
        SteamView { enabled: self.enabled, id: self.id@, key: self.key@ }
    }
}

impl Steam {
    /// What Steam's settings derive to: an empty list of asset sources is
    /// refused, and so is the service switched on without credentials;
    /// otherwise there is a record exactly if the service is on, and it
    /// carries the identifier and the key.
    pub open spec fn derived(settings: SteamSettings) -> Result<Option<SteamView>, Error> {
        if settings.assets_priorities.len() == 0 {
            Err(Error::EmptyAssetPriorityList { service: Service::Steam })
        } else if !settings.enabled {
            Ok(None)
        } else {
            match settings.data {
                Some(data) => Ok(Some(SteamView { enabled: true, id: data.id, key: data.key })),
                None => Err(Error::MissingCredentials { service: Service::Steam }),
            }
        }
    }

    /// A result of validation as plain values.
    pub open spec fn outcome(r: Result<Option<Steam>, Error>) -> Result<Option<SteamView>, Error> {
        match r {
            Ok(Some(steam)) => Ok(Some(steam@)),
            Ok(None) => Ok(None),
            Err(e) => Err(e),
        }
    }

    /// Validates Steam's settings.
    pub fn try_from(steam: crate::config::service::Steam) -> (r: Result<Option<Steam>, Error>)
        ensures
            Steam::outcome(r) == Steam::derived(steam@),
    {
        if steam.assets_priorities.len() == 0 {
            Err(Error::EmptyAssetPriorityList { service: Service::Steam })
        } else if !steam.enabled {
            Ok(None)
        } else {
            match steam.data {
                Some(data) => Ok(Some(Steam { enabled: true, id: data.id, key: data.key })),
                None => Err(Error::MissingCredentials { service: Service::Steam }),
            }
        }
    }
}

/// Xbox, switched on.
#[derive(Clone, Copy, Debug, PartialEq, Eq, Structural)]
pub struct Xbox {
    pub enabled: bool,
}

impl Xbox {
    /// What Xbox's settings derive to: an empty list of asset sources is
    /// refused; otherwise there is a record exactly if the service is on.
    pub open spec fn derived(settings: XboxView) -> Result<Option<Xbox>, Error> {
        if settings.assets_priorities.len() == 0 {
            Err(Error::EmptyAssetPriorityList { service: Service::Xbox })
        } else if settings.enabled {
            Ok(Some(Xbox { enabled: true }))
        } else {
            Ok(None)
        }
    }

    /// Validates Xbox's settings.
    pub fn try_from(xbox: crate::config::service::Xbox) -> (r: Result<Option<Xbox>, Error>)
        ensures
            r == Xbox::derived(xbox@),
    {
        if xbox.assets_priorities.len() == 0 {
            Err(Error::EmptyAssetPriorityList { service: Service::Xbox })
        } else if xbox.enabled {
            Ok(Some(Xbox { enabled: true }))
        } else {
            Ok(None)
        }
    }
}

} // verus!
