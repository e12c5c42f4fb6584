use game_presence::config::service::Nintendo;
use game_presence::config::service::Playstation;
use game_presence::config::service::Steam;
use game_presence::config::service::Twitch;
use game_presence::config::service::Xbox;
use game_presence::config::Activity;
use game_presence::config::AssetSourceEntry;
use game_presence::config::Config;
use game_presence::config::Games;
use game_presence::config::Services;

#[test]
fn fresh_services_are_off_with_native_assets() {
    assert_eq!(
        Nintendo::default(),
        Nintendo {
            disclaimer_acknowledged: false,
            enabled: false,
            assets_priorities: vec![AssetSourceEntry::Native],
            data: None,
        }
    );
    assert_eq!(
        Playstation::default(),
        Playstation { enabled: false, assets_priorities: vec![AssetSourceEntry::Native], data: None }
    );
    assert_eq!(
        Steam::default(),
        Steam { enabled: false, assets_priorities: vec![AssetSourceEntry::Native], data: None }
    );
    assert_eq!(
        Xbox::default(),
        Xbox { enabled: false, assets_priorities: vec![AssetSourceEntry::Native], data: None }
    );
    assert_eq!(Twitch::default(), Twitch { enabled: false, data: None });
}

#[test]
fn fresh_document_is_made_of_fresh_parts() {
    assert_eq!(AssetSourceEntry::default(), AssetSourceEntry::Native);
    assert_eq!(
        Config::default(),
        Config {
            services: Services {
                nintendo: Nintendo::default(),
                playstation: Playstation::default(),
                steam: Steam::default(),
                twitch: Twitch::default(),
                xbox: Xbox::default(),
            },
            activity: Activity {
                polling_active: false,
                discord_display_presence: false,
                games_require_whitelisting: false,
                service_priorities: vec![],
            },
            games: Games {},
        }
    );
}
