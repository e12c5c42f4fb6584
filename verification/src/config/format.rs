//! The JSON form of the settings document: objects with camel-case keys,
//! lower-case tokens for the enumerations.
//!
//! Each type has a spec function `encoded`, its JSON tree, and a spec function
//! `decoded`, the value that a JSON tree spells, if any. A tree spells a
//! record if it is an object that has every required member in its form;
//! members that the record does not know are passed over. An optional member
//! may be missing or `null`.

use vstd::prelude::*;
use crate::config::Activity;
use crate::config::ActivityView;
use crate::config::AssetSourceEntry;
use crate::config::Config;
use crate::config::ConfigView;
use crate::config::Games;
use crate::config::Services;
use crate::config::ServicesView;
use crate::config::ServicePrioritiesEntry;
use crate::json::Json;
use crate::json::json_of;
use crate::json::lemma_lookup_push;
use crate::json::trees;
use crate::config::service::Nintendo;
use crate::config::service::NintendoView;
use crate::config::service::Playstation;
use crate::config::service::PlaystationView;
use crate::config::service::Steam;
use crate::config::service::SteamView;
use crate::config::service::Twitch;
use crate::config::service::TwitchView;
use crate::config::service::Xbox;
use crate::config::service::XboxView;

verus! {

/// The lengths of the keys and tokens of the format, and the first letter of
/// those that share a length with another of the same record.
pub proof fn lemma_names()
    ensures
        "services"@.len() == 8 && "services"@[0] == 's',
        "activity"@.len() == 8 && "activity"@[0] == 'a',
        "games"@.len() == 5,
        "nintendo"@.len() == 8,
        "playstation"@.len() == 11,
        "steam"@.len() == 5,
        "twitch"@.len() == 6 && "twitch"@[0] == 't',
        "xbox"@.len() == 4,
        "native"@.len() == 6 && "native"@[0] == 'n',
        "disclaimerAcknowledged"@.len() == 22,
        "enabled"@.len() == 7,
        "assetsPriorities"@.len() == 16,
        "data"@.len() == 4,
        "username"@.len() == 8,
        "id"@.len() == 2,
        "key"@.len() == 3,
        "pollingActive"@.len() == 13,
        "discordDisplayPresence"@.len() == 22,
        "gamesRequireWhitelisting"@.len() == 24,
        "servicePriorities"@.len() == 17,
{
    reveal_strlit("services");
    reveal_strlit("activity");
    reveal_strlit("games");
    reveal_strlit("nintendo");
    reveal_strlit("playstation");
    reveal_strlit("steam");
    reveal_strlit("twitch");
    reveal_strlit("xbox");
    reveal_strlit("native");
    reveal_strlit("disclaimerAcknowledged");
    reveal_strlit("enabled");
    reveal_strlit("assetsPriorities");
    reveal_strlit("data");
    reveal_strlit("username");
    reveal_strlit("id");
    reveal_strlit("key");
    reveal_strlit("pollingActive");
    reveal_strlit("discordDisplayPresence");
    reveal_strlit("gamesRequireWhitelisting");
    reveal_strlit("servicePriorities");
}

/// The boolean that a required member spells.
pub open spec fn required_bool(member: Option<Json>) -> Option<bool> {
    match member {
        Some(tree) => tree.boolean(),
        None => None,
    }
}

/// The text that a required member spells.
pub open spec fn required_text(member: Option<Json>) -> Option<Seq<char>> {
    match member {
        Some(tree) => tree.text(),
        None => None,
    }
}

/// The text that an optional member spells: none where the member is missing
/// or `null`. The outer `None` says that the member spells no optional text.
pub open spec fn optional_text(member: Option<Json>) -> Option<Option<Seq<char>>> {
    match member {
        None => Some(None),
        Some(Json::Null) => Some(None),
        Some(Json::Text(text)) => Some(Some(text)),
        Some(_) => None,
    }
}

/// The tree of an optional text: `null` where there is none.
pub open spec fn text_or_null(text: Option<Seq<char>>) -> Json {
    match text {
        Some(text) => Json::Text(text),
        None => Json::Null,
    }
}

/// Reads a required boolean member.
pub(crate) fn read_bool(value: &serde_json::Value, key: &str) -> (r: Option<bool>)
    ensures
        r == required_bool(json_of(*value).member(key@)),
{
    match crate::json::member(value, key) {
        Some(found) => found.as_bool(),
        None => None,
    }
}

/// Reads a required text member.
pub(crate) fn read_text(value: &serde_json::Value, key: &str) -> (r: Option<String>)
    ensures
        crate::config::text_view(r) == required_text(json_of(*value).member(key@)),
{
    match crate::json::member(value, key) {
        Some(found) => match found.as_str() {
            Some(text) => Some(text.to_owned()),
            None => None,
        },
        None => None,
    }
}

/// Reads an optional text member.
pub(crate) fn read_optional_text(value: &serde_json::Value, key: &str) -> (r: Option<
    Option<String>,
>)
    ensures
        match r {
            Some(text) => optional_text(json_of(*value).member(key@)) == Some(
                crate::config::text_view(text),
            ),
            None => optional_text(json_of(*value).member(key@)) is None,
        },
{
    match crate::json::member(value, key) {
        None => Some(None),
        Some(found) => if found.is_null() {
            Some(None)
        } else {
            match found.as_str() {
                Some(text) => Some(Some(text.to_owned())),
                None => None,
            }
        },
    }
}

/// Writes an optional text.
pub(crate) fn write_optional_text(text: &Option<String>) -> (r: serde_json::Value)
    ensures
        json_of(r) == text_or_null(crate::config::text_view(*text)),
{
    match text {
        Some(text) => crate::json::text(text.clone()),
        None => crate::json::null(),
    }
}

impl AssetSourceEntry {
    /// The token of an asset source.
    pub open spec fn encoded(self) -> Json {
        match self {
            AssetSourceEntry::Native => Json::Text("native"@),
            AssetSourceEntry::Twitch => Json::Text("twitch"@),
        }
    }

    /// The asset source that a tree spells.
    pub open spec fn decoded(tree: Json) -> Option<AssetSourceEntry> {
        match tree {
            Json::Text(text) => if text == "native"@ {
                Some(AssetSourceEntry::Native)
            } else if text == "twitch"@ {
                Some(AssetSourceEntry::Twitch)
            } else {
                None
            },
            _ => None,
        }
    }

    /// Writes the token of an asset source.
    pub fn to_value(self) -> (r: serde_json::Value)
        ensures
            json_of(r) == self.encoded(),
    {
        match self {
            AssetSourceEntry::Native => crate::json::text("native".to_owned()),
            AssetSourceEntry::Twitch => crate::json::text("twitch".to_owned()),
        }
    }

    /// Reads the token of an asset source.
    pub fn from_value(value: &serde_json::Value) -> (r: Option<AssetSourceEntry>)
        ensures
            r == AssetSourceEntry::decoded(json_of(*value)),
    {
        match value.as_str() {
            Some(text) => if crate::json::same_text(text, "native") {
                Some(AssetSourceEntry::Native)
            } else if crate::json::same_text(text, "twitch") {
                Some(AssetSourceEntry::Twitch)
            } else {
                None
            },
            None => None,
        }
    }
}

impl ServicePrioritiesEntry {
    /// The token of a service.
    pub open spec fn encoded(self) -> Json {
        match self {
            ServicePrioritiesEntry::Nintendo => Json::Text("nintendo"@),
            ServicePrioritiesEntry::Playstation => Json::Text("playstation"@),
            ServicePrioritiesEntry::Steam => Json::Text("steam"@),
            ServicePrioritiesEntry::Xbox => Json::Text("xbox"@),
        }
    }

    /// The service that a tree spells.
    pub open spec fn decoded(tree: Json) -> Option<ServicePrioritiesEntry> {
        match tree {
            Json::Text(text) => if text == "nintendo"@ {
                Some(ServicePrioritiesEntry::Nintendo)
            } else if text == "playstation"@ {
                Some(ServicePrioritiesEntry::Playstation)
            } else if text == "steam"@ {
                Some(ServicePrioritiesEntry::Steam)
            } else if text == "xbox"@ {
                Some(ServicePrioritiesEntry::Xbox)
            } else {
                None
            },
            _ => None,
        }
    }

    /// Writes the token of a service.
    pub fn to_value(self) -> (r: serde_json::Value)
        ensures
            json_of(r) == self.encoded(),
    {
        match self {
            ServicePrioritiesEntry::Nintendo => crate::json::text("nintendo".to_owned()),
            ServicePrioritiesEntry::Playstation => crate::json::text("playstation".to_owned()),
            ServicePrioritiesEntry::Steam => crate::json::text("steam".to_owned()),
            ServicePrioritiesEntry::Xbox => crate::json::text("xbox".to_owned()),
        }
    }

    /// Reads the token of a service.
    pub fn from_value(value: &serde_json::Value) -> (r: Option<ServicePrioritiesEntry>)
        ensures
            r == ServicePrioritiesEntry::decoded(json_of(*value)),
    {
        match value.as_str() {
            Some(text) => if crate::json::same_text(text, "nintendo") {
                Some(ServicePrioritiesEntry::Nintendo)
            } else if crate::json::same_text(text, "playstation") {
                Some(ServicePrioritiesEntry::Playstation)
            } else if crate::json::same_text(text, "steam") {
                Some(ServicePrioritiesEntry::Steam)
            } else if crate::json::same_text(text, "xbox") {
                Some(ServicePrioritiesEntry::Xbox)
            } else {
                None
            },
            None => None,
        }
    }
}

/// The array of the tokens of a list of asset sources.
pub open spec fn encoded_assets(entries: Seq<AssetSourceEntry>) -> Json {
    Json::Array(Seq::new(entries.len(), |i: int| entries[i].encoded()))
}

/// The list of asset sources that a required member spells: an array, each
/// element of which spells an asset source.
pub open spec fn decoded_assets(member: Option<Json>) -> Option<Seq<AssetSourceEntry>> {
    match member {
        Some(Json::Array(items)) => if forall|i: int|
            0 <= i < items.len() ==> (#[trigger] AssetSourceEntry::decoded(items[i])) is Some {
            Some(Seq::new(items.len(), |i: int| AssetSourceEntry::decoded(items[i]).unwrap()))
        } else {
            None
        },
        _ => None,
    }
}

/// Writes a list of asset sources.
pub(crate) fn write_assets(entries: &Vec<AssetSourceEntry>) -> (r: serde_json::Value)
    ensures
        json_of(r) == encoded_assets(entries@),
{
    let mut elements: Vec<serde_json::Value> = Vec::new();
    let mut i: usize = 0;
    while i < entries.len()
        invariant
            i <= entries.len(),
            elements@.len() == i,
            forall|k: int| 0 <= k < i ==> json_of(#[trigger] elements@[k]) == entries@[k].encoded(),
        decreases entries.len() - i,
    {
        elements.push(entries[i].to_value());
        i += 1;
    }
    assert(trees(elements@) =~= Seq::new(entries@.len(), |i: int| entries@[i].encoded()));
    crate::json::array(elements)
}

/// Reads a list of asset sources from a required member.
pub(crate) fn read_assets(value: &serde_json::Value, key: &str) -> (r: Option<
    Vec<AssetSourceEntry>,
>)
    ensures
        match r {
            Some(entries) => decoded_assets(json_of(*value).member(key@)) == Some(entries@),
            None => decoded_assets(json_of(*value).member(key@)) is None,
        },
{
    let found = match crate::json::member(value, key) {
        Some(found) => found,
        None => return None,
    };
    let elements = match found.as_array() {
        Some(elements) => elements,
        None => return None,
    };
    let ghost items = trees(elements@);
    let mut entries: Vec<AssetSourceEntry> = Vec::new();
    let mut i: usize = 0;
    while i < elements.len()
        invariant
            i <= elements.len(),
            entries@.len() == i,
            items == trees(elements@),
            json_of(*value).member(key@) == Some(Json::Array(items)),
            forall|k: int|
                0 <= k < i ==> (#[trigger] AssetSourceEntry::decoded(items[k])) == Some(entries@[k]),
        decreases elements.len() - i,
    {
        match AssetSourceEntry::from_value(&elements[i]) {
            Some(entry) => entries.push(entry),
            None => {
                assert(AssetSourceEntry::decoded(items[i as int]) is None);
                return None;
            },
        }
        i += 1;
    }
    assert(entries@ =~= Seq::new(
        items.len(),
        |i: int| AssetSourceEntry::decoded(items[i]).unwrap(),
    ));
    Some(entries)
}

/// The array of the tokens of an order of preference.
pub open spec fn encoded_priorities(entries: Seq<ServicePrioritiesEntry>) -> Json {
    Json::Array(Seq::new(entries.len(), |i: int| entries[i].encoded()))
}

/// The order of preference that a required member spells: an array, each
/// element of which spells a service.
pub open spec fn decoded_priorities(member: Option<Json>) -> Option<Seq<ServicePrioritiesEntry>> {
    match member {
        Some(Json::Array(items)) => if forall|i: int|
            0 <= i < items.len() ==> (#[trigger] ServicePrioritiesEntry::decoded(items[i]))
                is Some {
            Some(
                Seq::new(items.len(), |i: int| ServicePrioritiesEntry::decoded(items[i]).unwrap()),
            )
        } else {
            None
        },
        _ => None,
    }
}

/// Writes an order of preference.
pub(crate) fn write_priorities(entries: &Vec<ServicePrioritiesEntry>) -> (r: serde_json::Value)
    ensures
        json_of(r) == encoded_priorities(entries@),
{
    let mut elements: Vec<serde_json::Value> = Vec::new();
    let mut i: usize = 0;
    while i < entries.len()
        invariant
            i <= entries.len(),
            elements@.len() == i,
            forall|k: int| 0 <= k < i ==> json_of(#[trigger] elements@[k]) == entries@[k].encoded(),
        decreases entries.len() - i,
    {
        elements.push(entries[i].to_value());
        i += 1;
    }
    assert(trees(elements@) =~= Seq::new(entries@.len(), |i: int| entries@[i].encoded()));
    crate::json::array(elements)
}

/// Reads an order of preference from a required member.
pub(crate) fn read_priorities(value: &serde_json::Value, key: &str) -> (r: Option<
    Vec<ServicePrioritiesEntry>,
>)
    ensures
        match r {
            Some(entries) => decoded_priorities(json_of(*value).member(key@)) == Some(entries@),
            None => decoded_priorities(json_of(*value).member(key@)) is None,
        },
{
    let found = match crate::json::member(value, key) {
        Some(found) => found,
        None => return None,
    };
    let elements = match found.as_array() {
        Some(elements) => elements,
        None => return None,
    };
    let ghost items = trees(elements@);
    let mut entries: Vec<ServicePrioritiesEntry> = Vec::new();
    let mut i: usize = 0;
    while i < elements.len()
        invariant
            i <= elements.len(),
            entries@.len() == i,
            items == trees(elements@),
            json_of(*value).member(key@) == Some(Json::Array(items)),
            forall|k: int|
                0 <= k < i ==> (#[trigger] ServicePrioritiesEntry::decoded(items[k])) == Some(
                    entries@[k],
                ),
        decreases elements.len() - i,
    {
        match ServicePrioritiesEntry::from_value(&elements[i]) {
            Some(entry) => entries.push(entry),
            None => {
                assert(ServicePrioritiesEntry::decoded(items[i as int]) is None);
                return None;
            },
        }
        i += 1;
    }
    assert(entries@ =~= Seq::new(
        items.len(),
        |i: int| ServicePrioritiesEntry::decoded(items[i]).unwrap(),
    ));
    Some(entries)
}

/// A written list of asset sources reads back as itself.
pub proof fn lemma_assets_round_trip(entries: Seq<AssetSourceEntry>)
    ensures
        decoded_assets(Some(encoded_assets(entries))) == Some(entries),
{
    lemma_names();
    let items = Seq::new(entries.len(), |i: int| entries[i].encoded());
    assert forall|i: int| 0 <= i < items.len() implies (#[trigger] AssetSourceEntry::decoded(
        items[i],
    )) == Some(entries[i]) by {}
    assert(Seq::new(items.len(), |i: int| AssetSourceEntry::decoded(items[i]).unwrap())
        =~= entries);
}

/// A written order of preference reads back as itself.
pub proof fn lemma_priorities_round_trip(entries: Seq<ServicePrioritiesEntry>)
    ensures
        decoded_priorities(Some(encoded_priorities(entries))) == Some(entries),
{
    lemma_names();
    let items = Seq::new(entries.len(), |i: int| entries[i].encoded());
    assert forall|i: int| 0 <= i < items.len() implies (
    #[trigger] ServicePrioritiesEntry::decoded(items[i])) == Some(entries[i]) by {}
    assert(Seq::new(items.len(), |i: int| ServicePrioritiesEntry::decoded(items[i]).unwrap())
        =~= entries);
}

impl ActivityView {
    /// The tree of the activity settings: an object with the three switches
    /// and the order of preference.
    pub open spec fn encoded(self) -> Json {
        Json::Object(
            Seq::<(Seq<char>, Json)>::empty()
                .push(("pollingActive"@, Json::Bool(self.polling_active)))
                .push(("discordDisplayPresence"@, Json::Bool(self.discord_display_presence)))
                .push(("gamesRequireWhitelisting"@, Json::Bool(self.games_require_whitelisting)))
                .push(("servicePriorities"@, encoded_priorities(self.service_priorities))),
        )
    }

    /// The activity settings that a tree spells.
    pub open spec fn decoded(tree: Json) -> Option<ActivityView> {
        match (
            required_bool(tree.member("pollingActive"@)),
            required_bool(tree.member("discordDisplayPresence"@)),
            required_bool(tree.member("gamesRequireWhitelisting"@)),
            decoded_priorities(tree.member("servicePriorities"@)),
        ) {
            (
                Some(polling_active),
                Some(discord_display_presence),
                Some(games_require_whitelisting),
                Some(service_priorities),
            ) => Some(
                ActivityView {
                    polling_active,
                    discord_display_presence,
                    games_require_whitelisting,
                    service_priorities,
                },
            ),
            _ => None,
        }
    }

    /// Written activity settings read back as themselves.
    pub proof fn lemma_round_trip(self)
        ensures
            ActivityView::decoded(self.encoded()) == Some(self),
    {
        lemma_names();
        lemma_lookup_push();
        lemma_priorities_round_trip(self.service_priorities);
    }
}

impl Activity {
    /// Writes the activity settings.
    pub fn to_value(&self) -> (r: serde_json::Value)
        ensures
            json_of(r) == self@.encoded(),
    {
        proof {
            lemma_names();
        lemma_lookup_push();
        }
        let mut fields = crate::json::no_fields();
        crate::json::put(&mut fields, "pollingActive", crate::json::boolean(self.polling_active));
        crate::json::put(
            &mut fields,
            "discordDisplayPresence",
            crate::json::boolean(self.discord_display_presence),
        );
        crate::json::put(
            &mut fields,
            "gamesRequireWhitelisting",
            crate::json::boolean(self.games_require_whitelisting),
        );
        crate::json::put(
            &mut fields,
            "servicePriorities",
            write_priorities(&self.service_priorities),
        );
        crate::json::object(fields)
    }

    /// Reads the activity settings.
    pub fn from_value(value: &serde_json::Value) -> (r: Option<Activity>)
        ensures
            match r {
                Some(activity) => ActivityView::decoded(json_of(*value)) == Some(activity@),
                None => ActivityView::decoded(json_of(*value)) is None,
            },
    {
        let polling_active = match read_bool(value, "pollingActive") {
            Some(polling_active) => polling_active,
            None => return None,
        };
        let discord_display_presence = match read_bool(value, "discordDisplayPresence") {
            Some(discord_display_presence) => discord_display_presence,
            None => return None,
        };
        let games_require_whitelisting = match read_bool(value, "gamesRequireWhitelisting") {
            Some(games_require_whitelisting) => games_require_whitelisting,
            None => return None,
        };
        let service_priorities = match read_priorities(value, "servicePriorities") {
            Some(service_priorities) => service_priorities,
            None => return None,
        };
        Some(
            Activity {
                polling_active,
                discord_display_presence,
                games_require_whitelisting,
                service_priorities,
            },
        )
    }
}

impl Games {
    /// The tree of the settings per game: an object without members.
    pub open spec fn encoded(self) -> Json {
        Json::Object(Seq::empty())
    }

    /// The settings per game that a tree spells: any object does.
    pub open spec fn decoded(tree: Json) -> Option<Games> {
        if tree is Object {
            Some(Games {  })
        } else {
            None
        }
    }

    /// Writes the settings per game.
    pub fn to_value(&self) -> (r: serde_json::Value)
        ensures
            json_of(r) == self.encoded(),
    {
        let fields = crate::json::no_fields();
        crate::json::object(fields)
    }

    /// Reads the settings per game.
    pub fn from_value(value: &serde_json::Value) -> (r: Option<Games>)
        ensures
            r == Games::decoded(json_of(*value)),
    {
        if value.is_object() {
            Some(Games {  })
        } else {
            None
        }
    }
}

/// The tree under a required member, where there is one and `decoded`
/// accepts it.
pub open spec fn required<T>(member: Option<Json>, decoded: spec_fn(Json) -> Option<T>) -> Option<
    T,
> {
    match member {
        Some(tree) => decoded(tree),
        None => None,
    }
}

impl ServicesView {
    /// The tree of the services' settings: an object with one member for each
    /// service.
    pub open spec fn encoded(self) -> Json {
        Json::Object(
            Seq::<(Seq<char>, Json)>::empty()
                .push(("nintendo"@, self.nintendo.encoded()))
                .push(("playstation"@, self.playstation.encoded()))
                .push(("steam"@, self.steam.encoded()))
                .push(("twitch"@, self.twitch.encoded()))
                .push(("xbox"@, self.xbox.encoded())),
        )
    }

    /// The services' settings that a tree spells.
    pub open spec fn decoded(tree: Json) -> Option<ServicesView> {
        match (
            required(tree.member("nintendo"@), |t: Json| NintendoView::decoded(t)),
            required(tree.member("playstation"@), |t: Json| PlaystationView::decoded(t)),
            required(tree.member("steam"@), |t: Json| SteamView::decoded(t)),
            required(tree.member("twitch"@), |t: Json| TwitchView::decoded(t)),
            required(tree.member("xbox"@), |t: Json| XboxView::decoded(t)),
        ) {
            (Some(nintendo), Some(playstation), Some(steam), Some(twitch), Some(xbox)) => Some(
                ServicesView { nintendo, playstation, steam, twitch, xbox },
            ),
            _ => None,
        }
    }

    /// Written settings of the services read back as themselves.
    pub proof fn lemma_round_trip(self)
        ensures
            ServicesView::decoded(self.encoded()) == Some(self),
    {
        lemma_names();
        lemma_lookup_push();
        self.nintendo.lemma_round_trip();
        self.playstation.lemma_round_trip();
        self.steam.lemma_round_trip();
        self.twitch.lemma_round_trip();
        self.xbox.lemma_round_trip();
    }
}

impl Services {
    /// Writes the services' settings.
    pub fn to_value(&self) -> (r: serde_json::Value)
        ensures
            json_of(r) == self@.encoded(),
    {
        proof {
            lemma_names();
        lemma_lookup_push();
        }
        let mut fields = crate::json::no_fields();
        crate::json::put(&mut fields, "nintendo", self.nintendo.to_value());
        crate::json::put(&mut fields, "playstation", self.playstation.to_value());
        crate::json::put(&mut fields, "steam", self.steam.to_value());
        crate::json::put(&mut fields, "twitch", self.twitch.to_value());
        crate::json::put(&mut fields, "xbox", self.xbox.to_value());
        crate::json::object(fields)
    }

    /// Reads the services' settings.
    pub fn from_value(value: &serde_json::Value) -> (r: Option<Services>)
        ensures
            match r {
                Some(services) => ServicesView::decoded(json_of(*value)) == Some(services@),
                None => ServicesView::decoded(json_of(*value)) is None,
            },
    {
        let nintendo = match crate::json::member(value, "nintendo") {
            Some(found) => match Nintendo::from_value(found) {
                Some(nintendo) => nintendo,
                None => return None,
            },
            None => return None,
        };
        let playstation = match crate::json::member(value, "playstation") {
            Some(found) => match Playstation::from_value(found) {
                Some(playstation) => playstation,
                None => return None,
            },
            None => return None,
        };
        let steam = match crate::json::member(value, "steam") {
            Some(found) => match Steam::from_value(found) {
                Some(steam) => steam,
                None => return None,
            },
            None => return None,
        };
        let twitch = match crate::json::member(value, "twitch") {
            Some(found) => match Twitch::from_value(found) {
                Some(twitch) => twitch,
                None => return None,
            },
            None => return None,
        };
        let xbox = match crate::json::member(value, "xbox") {
            Some(found) => match Xbox::from_value(found) {
                Some(xbox) => xbox,
                None => return None,
            },
            None => return None,
        };
        Some(Services { nintendo, playstation, steam, twitch, xbox })
    }
}

impl ConfigView {
    /// The tree of the settings document: an object with the services, the
    /// activity settings and the settings per game.
    pub open spec fn encoded(self) -> Json {
        Json::Object(
            Seq::<(Seq<char>, Json)>::empty()
                .push(("services"@, self.services.encoded()))
                .push(("activity"@, self.activity.encoded()))
                .push(("games"@, self.games.encoded())),
        )
    }

    /// The settings document that a tree spells.
    pub open spec fn decoded(tree: Json) -> Option<ConfigView> {
        match (
            required(tree.member("services"@), |t: Json| ServicesView::decoded(t)),
            required(tree.member("activity"@), |t: Json| ActivityView::decoded(t)),
            required(tree.member("games"@), |t: Json| Games::decoded(t)),
        ) {
            (Some(services), Some(activity), Some(games)) => Some(
                ConfigView { services, activity, games },
            ),
            _ => None,
        }
    }

    /// Every settings document, written as a tree, reads back as itself.
    pub proof fn lemma_round_trip(self)
        ensures
            ConfigView::decoded(self.encoded()) == Some(self),
    {
        lemma_names();
        lemma_lookup_push();
        self.services.lemma_round_trip();
        self.activity.lemma_round_trip();
    }
}

impl Config {
    /// Writes the settings document as a JSON document.
    pub fn to_value(&self) -> (r: serde_json::Value)
        ensures
            json_of(r) == self@.encoded(),
    {
        proof {
            lemma_names();
        lemma_lookup_push();
        }
        let mut fields = crate::json::no_fields();
        crate::json::put(&mut fields, "services", self.services.to_value());
        crate::json::put(&mut fields, "activity", self.activity.to_value());
        crate::json::put(&mut fields, "games", self.games.to_value());
        crate::json::object(fields)
    }

    /// Reads the settings document that a JSON document spells, if it spells
    /// one.
    pub fn from_value(value: &serde_json::Value) -> (r: Option<Config>)
        ensures
            match r {
                Some(config) => ConfigView::decoded(json_of(*value)) == Some(config@),
                None => ConfigView::decoded(json_of(*value)) is None,
            },
    {
        let services = match crate::json::member(value, "services") {
            Some(found) => match Services::from_value(found) {
                Some(services) => services,
                None => return None,
            },
            None => return None,
        };
        let activity = match crate::json::member(value, "activity") {
            Some(found) => match Activity::from_value(found) {
                Some(activity) => activity,
                None => return None,
            },
            None => return None,
        };
        let games = match crate::json::member(value, "games") {
            Some(found) => match Games::from_value(found) {
                Some(games) => games,
                None => return None,
            },
            None => return None,
        };
        Some(Config { services, activity, games })
    }
}

} // verus!
