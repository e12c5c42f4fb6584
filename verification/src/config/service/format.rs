//! The JSON form of each service's settings.

use vstd::prelude::*;
use crate::config::format::decoded_assets;
use crate::config::format::encoded_assets;
use crate::config::format::lemma_assets_round_trip;
use crate::config::format::lemma_names;
use crate::config::format::read_assets;
use crate::config::format::read_bool;
use crate::config::format::required_bool;
use crate::config::format::write_assets;
use crate::config::service::Nintendo;
use crate::config::service::NintendoView;
use crate::config::service::Playstation;
use crate::config::service::PlaystationView;
use crate::config::service::Steam;
use crate::config::service::SteamView;
use crate::config::service::Twitch;
use crate::config::service::TwitchView;
use crate::config::service::Xbox;
use crate::config::service::XboxView;
use crate::config::service::nintendo;
use crate::config::service::playstation;
use crate::config::service::steam;
use crate::config::service::twitch;
use crate::config::service::xbox;
use crate::json::Json;
use crate::json::json_of;
use crate::json::lemma_lookup_push;

verus! {

impl NintendoView {
    /// The tree of Nintendo's settings: an object with the acknowledgement,
    /// the switch and the asset sources, and with the account's settings
    /// where there are any.
    pub open spec fn encoded(self) -> Json {
        let required = Seq::<(Seq<char>, Json)>::empty()
            .push(("disclaimerAcknowledged"@, Json::Bool(self.disclaimer_acknowledged)))
            .push(("enabled"@, Json::Bool(self.enabled)))
            .push(("assetsPriorities"@, encoded_assets(self.assets_priorities)));
        match self.data {
            Some(data) => Json::Object(required.push(("data"@, data.encoded()))),
            None => Json::Object(required),
        }
    }

    /// The settings of Nintendo that a tree spells.
    pub open spec fn decoded(tree: Json) -> Option<NintendoView> {
        match (
            required_bool(tree.member("disclaimerAcknowledged"@)),
            required_bool(tree.member("enabled"@)),
            decoded_assets(tree.member("assetsPriorities"@)),
            nintendo::DataView::decoded_optional(tree.member("data"@)),
        ) {
            (
                Some(disclaimer_acknowledged),
                Some(enabled),
                Some(assets_priorities),
                Some(data),
            ) => Some(
                NintendoView { disclaimer_acknowledged, enabled, assets_priorities, data },
            ),
            _ => None,
        }
    }

    /// Written settings of Nintendo read back as themselves.
    pub proof fn lemma_round_trip(self)
        ensures
            NintendoView::decoded(self.encoded()) == Some(self),
    {
        lemma_names();
        lemma_lookup_push();
        lemma_assets_round_trip(self.assets_priorities);
        if let Some(data) = self.data {
            data.lemma_round_trip();
        }
    }
}

impl Nintendo {
    /// Writes Nintendo's settings.
    pub fn to_value(&self) -> (r: serde_json::Value)
        ensures
            json_of(r) == self@.encoded(),
    {
        proof {
            lemma_names();
        lemma_lookup_push();
        }
        let mut fields = crate::json::no_fields();
        crate::json::put(
            &mut fields,
            "disclaimerAcknowledged",
            crate::json::boolean(self.disclaimer_acknowledged),
        );
        crate::json::put(&mut fields, "enabled", crate::json::boolean(self.enabled));
        crate::json::put(&mut fields, "assetsPriorities", write_assets(&self.assets_priorities));
        match &self.data {
            Some(data) => {
                crate::json::put(&mut fields, "data", data.to_value());
            },
            None => {},
        }
        crate::json::object(fields)
    }

    /// Reads Nintendo's settings.
    pub fn from_value(value: &serde_json::Value) -> (r: Option<Nintendo>)
        ensures
            match r {
                Some(settings) => NintendoView::decoded(json_of(*value)) == Some(settings@),
                None => NintendoView::decoded(json_of(*value)) is None,
            },
    {
        let disclaimer_acknowledged = match read_bool(value, "disclaimerAcknowledged") {
            Some(disclaimer_acknowledged) => disclaimer_acknowledged,
            None => return None,
        };
        let enabled = match read_bool(value, "enabled") {
            Some(enabled) => enabled,
            None => return None,
        };
        let assets_priorities = match read_assets(value, "assetsPriorities") {
            Some(assets_priorities) => assets_priorities,
            None => return None,
        };
        let data = match nintendo::Data::read_optional(value, "data") {
            Some(data) => data,
            None => return None,
        };
        Some(Nintendo { disclaimer_acknowledged, enabled, assets_priorities, data })
    }
}

impl PlaystationView {
    /// The tree of PlayStation's settings: an object with the switch and the asset
    /// sources, and with the account's settings where there are any.
    pub open spec fn encoded(self) -> Json {
        let required = Seq::<(Seq<char>, Json)>::empty()
            .push(("enabled"@, Json::Bool(self.enabled)))
            .push(("assetsPriorities"@, encoded_assets(self.assets_priorities)));
        match self.data {
            Some(data) => Json::Object(required.push(("data"@, data.encoded()))),
            None => Json::Object(required),
        }
    }

    /// The settings of PlayStation that a tree spells.
    pub open spec fn decoded(tree: Json) -> Option<PlaystationView> {
        match (
            required_bool(tree.member("enabled"@)),
            decoded_assets(tree.member("assetsPriorities"@)),
            playstation::DataView::decoded_optional(tree.member("data"@)),
        ) {
            (Some(enabled), Some(assets_priorities), Some(data)) => Some(
                PlaystationView { enabled, assets_priorities, data },
            ),
            _ => None,
        }
    }

    /// Written settings of PlayStation read back as themselves.
    pub proof fn lemma_round_trip(self)
        ensures
            PlaystationView::decoded(self.encoded()) == Some(self),
    {
        lemma_names();
        lemma_lookup_push();
        lemma_assets_round_trip(self.assets_priorities);
        if let Some(data) = self.data {
            data.lemma_round_trip();
        }
    }
}

impl Playstation {
    /// Writes PlayStation's settings.
    pub fn to_value(&self) -> (r: serde_json::Value)
        ensures
            json_of(r) == self@.encoded(),
    {
        proof {
            lemma_names();
        lemma_lookup_push();
        }
        let mut fields = crate::json::no_fields();
        crate::json::put(&mut fields, "enabled", crate::json::boolean(self.enabled));
        crate::json::put(&mut fields, "assetsPriorities", write_assets(&self.assets_priorities));
        match &self.data {
            Some(data) => {
                crate::json::put(&mut fields, "data", data.to_value());
            },
            None => {},
        }
        crate::json::object(fields)
    }

    /// Reads PlayStation's settings.
    pub fn from_value(value: &serde_json::Value) -> (r: Option<Playstation>)
        ensures
            match r {
                Some(settings) => PlaystationView::decoded(json_of(*value)) == Some(settings@),
                None => PlaystationView::decoded(json_of(*value)) is None,
            },
    {
        let enabled = match read_bool(value, "enabled") {
            Some(enabled) => enabled,
            None => return None,
        };
        let assets_priorities = match read_assets(value, "assetsPriorities") {
            Some(assets_priorities) => assets_priorities,
            None => return None,
        };
        let data = match playstation::Data::read_optional(value, "data") {
            Some(data) => data,
            None => return None,
        };
        Some(Playstation { enabled, assets_priorities, data })
    }
}

impl SteamView {
    /// The tree of Steam's settings: an object with the switch and the asset
    /// sources, and with the account's settings where there are any.
    pub open spec fn encoded(self) -> Json {
        let required = Seq::<(Seq<char>, Json)>::empty()
            .push(("enabled"@, Json::Bool(self.enabled)))
            .push(("assetsPriorities"@, encoded_assets(self.assets_priorities)));
        match self.data {
            Some(data) => Json::Object(required.push(("data"@, data.encoded()))),
            None => Json::Object(required),
        }
    }

    /// The settings of Steam that a tree spells.
    pub open spec fn decoded(tree: Json) -> Option<SteamView> {
        match (
            required_bool(tree.member("enabled"@)),
            decoded_assets(tree.member("assetsPriorities"@)),
            steam::DataView::decoded_optional(tree.member("data"@)),
        ) {
            (Some(enabled), Some(assets_priorities), Some(data)) => Some(
                SteamView { enabled, assets_priorities, data },
            ),
            _ => None,
        }
    }

    /// Written settings of Steam read back as themselves.
    pub proof fn lemma_round_trip(self)
        ensures
            SteamView::decoded(self.encoded()) == Some(self),
    {
        lemma_names();
        lemma_lookup_push();
        lemma_assets_round_trip(self.assets_priorities);
        if let Some(data) = self.data {
            data.lemma_round_trip();
        }
    }
}

impl Steam {
    /// Writes Steam's settings.
    pub fn to_value(&self) -> (r: serde_json::Value)
        ensures
            json_of(r) == self@.encoded(),
    {
        proof {
            lemma_names();
        lemma_lookup_push();
        }
        let mut fields = crate::json::no_fields();
        crate::json::put(&mut fields, "enabled", crate::json::boolean(self.enabled));
        crate::json::put(&mut fields, "assetsPriorities", write_assets(&self.assets_priorities));
        match &self.data {
            Some(data) => {
                crate::json::put(&mut fields, "data", data.to_value());
            },
            None => {},
        }
        crate::json::object(fields)
    }

    /// Reads Steam's settings.
    pub fn from_value(value: &serde_json::Value) -> (r: Option<Steam>)
        ensures
            match r {
                Some(settings) => SteamView::decoded(json_of(*value)) == Some(settings@),
                None => SteamView::decoded(json_of(*value)) is None,
            },
    {
        let enabled = match read_bool(value, "enabled") {
            Some(enabled) => enabled,
            None => return None,
        };
        let assets_priorities = match read_assets(value, "assetsPriorities") {
            Some(assets_priorities) => assets_priorities,
            None => return None,
        };
        let data = match steam::Data::read_optional(value, "data") {
            Some(data) => data,
            None => return None,
        };
        Some(Steam { enabled, assets_priorities, data })
    }
}

impl TwitchView {
    /// The tree of Twitch's settings: an object with the switch, and
    /// with the account's settings where there are any.
    pub open spec fn encoded(self) -> Json {
        let required = Seq::<(Seq<char>, Json)>::empty()
            .push(("enabled"@, Json::Bool(self.enabled)));
        match self.data {
            Some(data) => Json::Object(required.push(("data"@, data.encoded()))),
            None => Json::Object(required),
        }
    }

    /// The settings of Twitch that a tree spells.
    pub open spec fn decoded(tree: Json) -> Option<TwitchView> {
        match (
            required_bool(tree.member("enabled"@)),
            twitch::DataView::decoded_optional(tree.member("data"@)),
        ) {
            (Some(enabled), Some(data)) => Some(
                TwitchView { enabled, data },
            ),
            _ => None,
        }
    }

    /// Written settings of Twitch read back as themselves.
    pub proof fn lemma_round_trip(self)
        ensures
            TwitchView::decoded(self.encoded()) == Some(self),
    {
        lemma_names();
        lemma_lookup_push();
        if let Some(data) = self.data {
            data.lemma_round_trip();
        }
    }
}

impl Twitch {
    /// Writes Twitch's settings.
    pub fn to_value(&self) -> (r: serde_json::Value)
        ensures
            json_of(r) == self@.encoded(),
    {
        proof {
            lemma_names();
        lemma_lookup_push();
        }
        let mut fields = crate::json::no_fields();
        crate::json::put(&mut fields, "enabled", crate::json::boolean(self.enabled));
        match &self.data {
            Some(data) => {
                crate::json::put(&mut fields, "data", data.to_value());
            },
            None => {},
        }
        crate::json::object(fields)
    }

    /// Reads Twitch's settings.
    pub fn from_value(value: &serde_json::Value) -> (r: Option<Twitch>)
        ensures
            match r {
                Some(settings) => TwitchView::decoded(json_of(*value)) == Some(settings@),
                None => TwitchView::decoded(json_of(*value)) is None,
            },
    {
        let enabled = match read_bool(value, "enabled") {
            Some(enabled) => enabled,
            None => return None,
        };
        let data = match twitch::Data::read_optional(value, "data") {
            Some(data) => data,
            None => return None,
        };
        Some(Twitch { enabled, data })
    }
}

impl XboxView {
    /// The tree of Xbox's settings: an object with the switch and the asset
    /// sources, and with the account's settings where there are any.
    pub open spec fn encoded(self) -> Json {
        let required = Seq::<(Seq<char>, Json)>::empty()
            .push(("enabled"@, Json::Bool(self.enabled)))
            .push(("assetsPriorities"@, encoded_assets(self.assets_priorities)));
        match self.data {
            Some(data) => Json::Object(required.push(("data"@, data.encoded()))),
            None => Json::Object(required),
        }
    }

    /// The settings of Xbox that a tree spells.
    pub open spec fn decoded(tree: Json) -> Option<XboxView> {
        match (
            required_bool(tree.member("enabled"@)),
            decoded_assets(tree.member("assetsPriorities"@)),
            xbox::DataView::decoded_optional(tree.member("data"@)),
        ) {
            (Some(enabled), Some(assets_priorities), Some(data)) => Some(
                XboxView { enabled, assets_priorities, data },
            ),
            _ => None,
        }
    }

    /// Written settings of Xbox read back as themselves.
    pub proof fn lemma_round_trip(self)
        ensures
            XboxView::decoded(self.encoded()) == Some(self),
    {
        lemma_names();
        lemma_lookup_push();
        lemma_assets_round_trip(self.assets_priorities);
        if let Some(data) = self.data {
            data.lemma_round_trip();
        }
    }
}

impl Xbox {
    /// Writes Xbox's settings.
    pub fn to_value(&self) -> (r: serde_json::Value)
        ensures
            json_of(r) == self@.encoded(),
    {
        proof {
            lemma_names();
        lemma_lookup_push();
        }
        let mut fields = crate::json::no_fields();
        crate::json::put(&mut fields, "enabled", crate::json::boolean(self.enabled));
        crate::json::put(&mut fields, "assetsPriorities", write_assets(&self.assets_priorities));
        match &self.data {
            Some(data) => {
                crate::json::put(&mut fields, "data", data.to_value());
            },
            None => {},
        }
        crate::json::object(fields)
    }

    /// Reads Xbox's settings.
    pub fn from_value(value: &serde_json::Value) -> (r: Option<Xbox>)
        ensures
            match r {
                Some(settings) => XboxView::decoded(json_of(*value)) == Some(settings@),
                None => XboxView::decoded(json_of(*value)) is None,
            },
    {
        let enabled = match read_bool(value, "enabled") {
            Some(enabled) => enabled,
            None => return None,
        };
        let assets_priorities = match read_assets(value, "assetsPriorities") {
            Some(assets_priorities) => assets_priorities,
            None => return None,
        };
        let data = match xbox::Data::read_optional(value, "data") {
            Some(data) => data,
            None => return None,
        };
        Some(Xbox { enabled, assets_priorities, data })
    }
}

} // verus!
