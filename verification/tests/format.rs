use game_presence::config::service::nintendo;
use game_presence::config::service::playstation;
use game_presence::config::service::steam;
use game_presence::config::service::twitch;
use game_presence::config::service::xbox;
use game_presence::config::service::Nintendo;
use game_presence::config::service::Steam;
use game_presence::config::service::Twitch;
use game_presence::config::Activity;
use game_presence::config::AssetSourceEntry;
use game_presence::config::Config;
use game_presence::config::Games;
use game_presence::config::ServicePrioritiesEntry;
use game_presence::config::Services;
use serde_json::Value;

fn tree(text: &str) -> Value {
    serde_json::from_str::<Value>(text).unwrap()
}

fn populated() -> Config {
    let mut config = Config::default();
    config.services.nintendo.disclaimer_acknowledged = true;
    config.services.nintendo.enabled = true;
    config.services.nintendo.assets_priorities =
        vec![AssetSourceEntry::Twitch, AssetSourceEntry::Native];
    config.services.nintendo.data = Some(nintendo::Data { username: Some("mario".to_string()) });
    config.services.playstation.data = Some(playstation::Data { username: None });
    config.services.steam.enabled = true;
    config.services.steam.data = Some(steam::Data {
        id: "1".to_string(),
        key: "k".to_string(),
        username: "u \"quoted\" \u{e9}".to_string(),
    });
    config.services.twitch.enabled = true;
    config.services.twitch.data = Some(twitch::Data { username: "t".to_string() });
    config.services.xbox.data = Some(xbox::Data { username: Some(String::new()) });
    config.activity.polling_active = true;
    config.activity.games_require_whitelisting = true;
    config.activity.service_priorities = vec![
        ServicePrioritiesEntry::Steam,
        ServicePrioritiesEntry::Nintendo,
        ServicePrioritiesEntry::Xbox,
        ServicePrioritiesEntry::Playstation,
    ];
    config
}

#[test]
fn tokens_are_lower_case() {
    assert_eq!(AssetSourceEntry::Native.to_value(), Value::String("native".to_string()));
    assert_eq!(AssetSourceEntry::Twitch.to_value(), Value::String("twitch".to_string()));
    assert_eq!(ServicePrioritiesEntry::Nintendo.to_value(), Value::String("nintendo".to_string()));
    assert_eq!(
        ServicePrioritiesEntry::Playstation.to_value(),
        Value::String("playstation".to_string())
    );
    assert_eq!(ServicePrioritiesEntry::Steam.to_value(), Value::String("steam".to_string()));
    assert_eq!(ServicePrioritiesEntry::Xbox.to_value(), Value::String("xbox".to_string()));
}

#[test]
fn tokens_are_read_exactly() {
    assert_eq!(AssetSourceEntry::from_value(&tree("\"native\"")), Some(AssetSourceEntry::Native));
    assert_eq!(AssetSourceEntry::from_value(&tree("\"twitch\"")), Some(AssetSourceEntry::Twitch));
    assert_eq!(AssetSourceEntry::from_value(&tree("\"Native\"")), None);
    assert_eq!(AssetSourceEntry::from_value(&tree("\"steam\"")), None);
    assert_eq!(AssetSourceEntry::from_value(&tree("0")), None);
    assert_eq!(AssetSourceEntry::from_value(&tree("null")), None);
    assert_eq!(
        ServicePrioritiesEntry::from_value(&tree("\"nintendo\"")),
        Some(ServicePrioritiesEntry::Nintendo)
    );
    assert_eq!(
        ServicePrioritiesEntry::from_value(&tree("\"playstation\"")),
        Some(ServicePrioritiesEntry::Playstation)
    );
    assert_eq!(
        ServicePrioritiesEntry::from_value(&tree("\"steam\"")),
        Some(ServicePrioritiesEntry::Steam)
    );
    assert_eq!(
        ServicePrioritiesEntry::from_value(&tree("\"xbox\"")),
        Some(ServicePrioritiesEntry::Xbox)
    );
    assert_eq!(ServicePrioritiesEntry::from_value(&tree("\"twitch\"")), None);
    assert_eq!(ServicePrioritiesEntry::from_value(&tree("[\"xbox\"]")), None);
}

#[test]
fn fresh_document_has_camel_case_keys() {
    let expected = tree(
        r#"{
            "services": {
                "nintendo": {
                    "disclaimerAcknowledged": false,
                    "enabled": false,
                    "assetsPriorities": ["native"]
                },
                "playstation": { "enabled": false, "assetsPriorities": ["native"] },
                "steam": { "enabled": false, "assetsPriorities": ["native"] },
                "twitch": { "enabled": false },
                "xbox": { "enabled": false, "assetsPriorities": ["native"] }
            },
            "activity": {
                "pollingActive": false,
                "discordDisplayPresence": false,
                "gamesRequireWhitelisting": false,
                "servicePriorities": []
            },
            "games": {}
        }"#,
    );
    assert_eq!(Config::default().to_value(), expected);
}

#[test]
fn populated_document_is_written_in_full() {
    let expected = tree(
        r#"{
            "services": {
                "nintendo": {
                    "disclaimerAcknowledged": true,
                    "enabled": true,
                    "assetsPriorities": ["twitch", "native"],
                    "data": { "username": "mario" }
                },
                "playstation": {
                    "enabled": false,
                    "assetsPriorities": ["native"],
                    "data": { "username": null }
                },
                "steam": {
                    "enabled": true,
                    "assetsPriorities": ["native"],
                    "data": { "id": "1", "key": "k", "username": "u \"quoted\" é" }
                },
                "twitch": { "enabled": true, "data": { "username": "t" } },
                "xbox": {
                    "enabled": false,
                    "assetsPriorities": ["native"],
                    "data": { "username": "" }
                }
            },
            "activity": {
                "pollingActive": true,
                "discordDisplayPresence": false,
                "gamesRequireWhitelisting": true,
                "servicePriorities": ["steam", "nintendo", "xbox", "playstation"]
            },
            "games": {}
        }"#,
    );
    assert_eq!(populated().to_value(), expected);
}

#[test]
fn written_documents_read_back() {
    assert_eq!(Config::from_value(&Config::default().to_value()), Some(Config::default()));
    assert_eq!(Config::from_value(&populated().to_value()), Some(populated()));
}

#[test]
fn parts_read_back() {
    let config = populated();
    assert_eq!(Services::from_value(&config.services.to_value()), Some(config.services.clone()));
    assert_eq!(Activity::from_value(&config.activity.to_value()), Some(config.activity.clone()));
    assert_eq!(Games::from_value(&config.games.to_value()), Some(Games {}));
    assert_eq!(
        Nintendo::from_value(&config.services.nintendo.to_value()),
        Some(config.services.nintendo.clone())
    );
    assert_eq!(
        Steam::from_value(&config.services.steam.to_value()),
        Some(config.services.steam.clone())
    );
    assert_eq!(
        Twitch::from_value(&config.services.twitch.to_value()),
        Some(config.services.twitch.clone())
    );
    let credentials = config.services.steam.data.unwrap();
    assert_eq!(steam::Data::from_value(&credentials.to_value()), Some(credentials));
}

#[test]
fn missing_or_null_account_is_absent() {
    let expected = Steam { enabled: true, assets_priorities: vec![AssetSourceEntry::Twitch], data: None };
    assert_eq!(
        Steam::from_value(&tree(r#"{"enabled": true, "assetsPriorities": ["twitch"]}"#)),
        Some(expected.clone())
    );
    assert_eq!(
        Steam::from_value(&tree(
            r#"{"enabled": true, "assetsPriorities": ["twitch"], "data": null}"#
        )),
        Some(expected)
    );
    assert_eq!(
        Twitch::from_value(&tree(r#"{"enabled": false, "data": null}"#)),
        Some(Twitch { enabled: false, data: None })
    );
}

#[test]
fn optional_name_may_be_missing_or_null() {
    assert_eq!(nintendo::Data::from_value(&tree("{}")), Some(nintendo::Data { username: None }));
    assert_eq!(
        playstation::Data::from_value(&tree(r#"{"username": null}"#)),
        Some(playstation::Data { username: None })
    );
    assert_eq!(
        xbox::Data::from_value(&tree(r#"{"username": "x"}"#)),
        Some(xbox::Data { username: Some("x".to_string()) })
    );
    assert_eq!(nintendo::Data::from_value(&tree(r#"{"username": 5}"#)), None);
    assert_eq!(nintendo::Data::from_value(&tree("[]")), None);
    assert_eq!(nintendo::Data::from_value(&tree("\"mario\"")), None);
}

#[test]
fn required_members_must_be_there() {
    assert_eq!(Steam::from_value(&tree(r#"{"assetsPriorities": ["native"]}"#)), None);
    assert_eq!(Steam::from_value(&tree(r#"{"enabled": true}"#)), None);
    assert_eq!(Steam::from_value(&tree(r#"{"enabled": 1, "assetsPriorities": []}"#)), None);
    assert_eq!(
        Steam::from_value(&tree(r#"{"enabled": true, "assetsPriorities": "native"}"#)),
        None
    );
    assert_eq!(
        Steam::from_value(&tree(r#"{"enabled": true, "assetsPriorities": ["native", "x"]}"#)),
        None
    );
    assert_eq!(
        Steam::from_value(&tree(
            r#"{"enabled": true, "assetsPriorities": [], "data": {"id": "1", "key": "k"}}"#
        )),
        None
    );
    assert_eq!(
        Nintendo::from_value(&tree(r#"{"enabled": true, "assetsPriorities": []}"#)),
        None
    );
    assert_eq!(twitch::Data::from_value(&tree("{}")), None);
    assert_eq!(twitch::Data::from_value(&tree(r#"{"username": null}"#)), None);
    assert_eq!(Games::from_value(&tree("null")), None);
    assert_eq!(Games::from_value(&tree("[]")), None);
    assert_eq!(Config::from_value(&tree("{}")), None);
    assert_eq!(Config::from_value(&tree("[]")), None);
    assert_eq!(Config::from_value(&tree(r#"{"services": {}, "activity": {}, "games": {}}"#)), None);
}

#[test]
fn empty_lists_are_read_as_they_are() {
    assert_eq!(
        Steam::from_value(&tree(r#"{"enabled": false, "assetsPriorities": []}"#)),
        Some(Steam { enabled: false, assets_priorities: vec![], data: None })
    );
}

#[test]
fn unknown_members_are_passed_over() {
    let mut value = Config::default().to_value();
    value.as_object_mut().unwrap().insert("theme".to_string(), Value::Bool(true));
    value["games"].as_object_mut().unwrap().insert("doom".to_string(), Value::Null);
    value["services"]["steam"].as_object_mut().unwrap().insert("extra".to_string(), tree("[1, 2.5]"));
    assert_eq!(Config::from_value(&value), Some(Config::default()));
}

#[test]
fn a_document_with_one_bad_part_is_refused() {
    let mut value = populated().to_value();
    value["activity"]["servicePriorities"] = tree(r#"["steam", "twitch"]"#);
    assert_eq!(Config::from_value(&value), None);
    let mut value = populated().to_value();
    value["services"]["twitch"]["data"] = tree("{}");
    assert_eq!(Config::from_value(&value), None);
    let mut value = populated().to_value();
    value.as_object_mut().unwrap().remove("games");
    assert_eq!(Config::from_value(&value), None);
}
