use game_presence::config::service::steam;
use game_presence::config::store::Progress;
use game_presence::config::store::ReadStage;
use game_presence::config::store::Reading;
use game_presence::config::store::Reply;
use game_presence::config::store::Request;
use game_presence::config::store::WriteStage;
use game_presence::config::store::Writing;
use game_presence::config::store::DIRECTORY_NAME;
use game_presence::config::store::FILE_NAME;
use game_presence::config::store::SCRATCH_NAME;
use game_presence::config::AssetSourceEntry;
use game_presence::config::Config;
use game_presence::config::Error;
use game_presence::config::ServicePrioritiesEntry;

const FRESH: &str = r#"{
  "services": {
    "nintendo": {
      "disclaimerAcknowledged": false,
      "enabled": false,
      "assetsPriorities": [
        "native"
      ]
    },
    "playstation": {
      "enabled": false,
      "assetsPriorities": [
        "native"
      ]
    },
    "steam": {
      "enabled": false,
      "assetsPriorities": [
        "native"
      ]
    },
    "twitch": {
      "enabled": false
    },
    "xbox": {
      "enabled": false,
      "assetsPriorities": [
        "native"
      ]
    }
  },
  "activity": {
    "pollingActive": false,
    "discordDisplayPresence": false,
    "gamesRequireWhitelisting": false,
    "servicePriorities": []
  },
  "games": {}
}"#;

fn edited() -> Config {
    let mut config = Config::default();
    config.services.steam.enabled = true;
    config.services.steam.assets_priorities =
        vec![AssetSourceEntry::Twitch, AssetSourceEntry::Native];
    config.services.steam.data = Some(steam::Data {
        id: "1".to_string(),
        key: "k".to_string(),
        username: "line\nbreak \\ \u{1f3ae}".to_string(),
    });
    config.activity.discord_display_presence = true;
    config.activity.service_priorities =
        vec![ServicePrioritiesEntry::Playstation, ServicePrioritiesEntry::Steam];
    config
}

/// A file system in memory, which makes the calls that the store asks for.
struct Disk {
    platform: bool,
    directory: bool,
    file: Option<Vec<u8>>,
    scratch: Option<Vec<u8>>,
    failing: Option<Request>,
    log: Vec<Request>,
}

fn empty_disk() -> Disk {
    Disk { platform: true, directory: false, file: None, scratch: None, failing: None, log: vec![] }
}

fn disk_with(content: &[u8]) -> Disk {
    let mut disk = empty_disk();
    disk.directory = true;
    disk.file = Some(content.to_vec());
    disk
}

fn perform(disk: &mut Disk, request: Request, bytes: &[u8]) -> Reply {
    disk.log.push(request);
    if disk.failing == Some(request) {
        return Reply::Failed;
    }
    match request {
        Request::ResolveDirectory => {
            if !disk.platform {
                return Reply::Failed;
            }
        }
        Request::CreateDirectory => disk.directory = true,
        Request::OpenFile => {
            if !disk.directory {
                return Reply::Failed;
            }
            if disk.file.is_none() {
                disk.file = Some(vec![]);
            }
        }
        Request::ReadFile => {
            return match String::from_utf8(disk.file.clone().unwrap()) {
                Ok(text) => Reply::Text(text),
                Err(_) => Reply::Failed,
            };
        }
        Request::OpenScratch => {
            if !disk.directory {
                return Reply::Failed;
            }
            disk.scratch = Some(vec![]);
        }
        Request::WriteScratch => disk.scratch.as_mut().unwrap().extend_from_slice(bytes),
        Request::SyncScratch => assert!(disk.scratch.is_some()),
        Request::InstallScratch => disk.file = Some(disk.scratch.take().unwrap()),
    }
    Reply::Done
}

fn write_on(disk: &mut Disk, config: &Config) -> Result<(), Error> {
    let mut progress = config.write(Writing::new(), &Reply::Done);
    loop {
        match progress {
            Progress::Finished(result) => return result,
            Progress::Next(writing, request) => {
                let reply = perform(disk, request, &writing.bytes);
                progress = config.write(writing, &reply);
            }
        }
    }
}

fn read_on(disk: &mut Disk) -> Result<Config, Error> {
    let mut progress = Config::read(Reading::new(), &Reply::Done);
    loop {
        match progress {
            Progress::Finished(result) => return result,
            Progress::Next(reading, request) => {
                let reply = match &reading {
                    Reading::Fetching(_) => perform(disk, request, &[]),
                    Reading::Healing(_, writing) => perform(disk, request, &writing.bytes),
                };
                progress = Config::read(reading, &reply);
            }
        }
    }
}

fn write_calls() -> Vec<Request> {
    vec![
        Request::ResolveDirectory,
        Request::CreateDirectory,
        Request::OpenScratch,
        Request::WriteScratch,
        Request::SyncScratch,
        Request::InstallScratch,
    ]
}

fn fetch_calls() -> Vec<Request> {
    vec![
        Request::ResolveDirectory,
        Request::CreateDirectory,
        Request::OpenFile,
        Request::ReadFile,
    ]
}

#[test]
fn the_store_has_its_place() {
    assert_eq!(DIRECTORY_NAME, "game-presence");
    assert_eq!(FILE_NAME, "config.json");
    assert_eq!(SCRATCH_NAME, "config.json.tmp");
}

#[test]
fn fresh_document_is_pretty_printed() {
    let bytes = Config::default().print().unwrap();
    assert_eq!(String::from_utf8(bytes).unwrap(), FRESH);
}

#[test]
fn printed_text_parses_back() {
    for config in [Config::default(), edited()] {
        let text = String::from_utf8(config.print().unwrap()).unwrap();
        assert_eq!(Config::parse(&text), Some(config));
    }
}

#[test]
fn compact_text_in_another_key_order_is_parsed() {
    let text = [
        r#"{"games":{},"activity":{"servicePriorities":["xbox"],"pollingActive":false,"#,
        r#""discordDisplayPresence":false,"gamesRequireWhitelisting":false},"#,
        r#""services":{"xbox":{"assetsPriorities":["native"],"enabled":false},"#,
        r#""twitch":{"enabled":false},"steam":{"data":{"username":"u","key":"k","id":"1"},"#,
        r#""enabled":true,"assetsPriorities":["native"]},"#,
        r#""playstation":{"enabled":false,"assetsPriorities":["twitch"]},"#,
        r#""nintendo":{"enabled":false,"disclaimerAcknowledged":true,"assetsPriorities":["native"]}}}"#,
    ]
    .join("");
    let mut expected = Config::default();
    expected.services.nintendo.disclaimer_acknowledged = true;
    expected.services.playstation.assets_priorities = vec![AssetSourceEntry::Twitch];
    expected.services.steam.enabled = true;
    expected.services.steam.data = Some(steam::Data {
        id: "1".to_string(),
        key: "k".to_string(),
        username: "u".to_string(),
    });
    expected.activity.service_priorities = vec![ServicePrioritiesEntry::Xbox];
    assert_eq!(Config::parse(&text), Some(expected));
}

#[test]
fn texts_that_spell_no_document_parse_to_nothing() {
    let wrong_token = FRESH.replace("\"native\"", "\"Native\"");
    let missing_member = FRESH.replace("\"pollingActive\": false,", "");
    assert!(missing_member.len() < FRESH.len());
    let texts = [
        "",
        "{",
        "not json",
        "{\"services\": }",
        "{} trailing",
        "\u{feff}{}",
        "{}",
        "null",
        "[]",
        "42",
        wrong_token.as_str(),
        missing_member.as_str(),
    ];
    for text in texts {
        assert_eq!(Config::parse(text), None);
    }
}

#[test]
fn printer_failure_is_reported() {
    assert_eq!(Config::printing(None), Err(Error::SerdeJsonToVec));
    assert_eq!(Config::printing(Some(vec![123, 125])), Ok(vec![123, 125]));
}

#[test]
fn a_write_makes_its_calls_in_order() {
    let mut disk = empty_disk();
    assert_eq!(write_on(&mut disk, &Config::default()), Ok(()));
    assert_eq!(disk.log, write_calls());
    assert!(disk.directory);
    assert_eq!(disk.scratch, None);
    assert_eq!(disk.file, Some(FRESH.as_bytes().to_vec()));
}

#[test]
fn a_write_steps_through_its_stages() {
    let config = edited();
    let bytes = config.print().unwrap();
    let begun = config.write(Writing::new(), &Reply::Done);
    assert_eq!(
        begun,
        Progress::Next(
            Writing { stage: WriteStage::Resolve, bytes: vec![] },
            Request::ResolveDirectory
        )
    );
    let created = config.write(Writing { stage: WriteStage::Resolve, bytes: vec![] }, &Reply::Done);
    assert_eq!(
        created,
        Progress::Next(
            Writing { stage: WriteStage::Create, bytes: vec![] },
            Request::CreateDirectory
        )
    );
    let opened = config.write(Writing { stage: WriteStage::Create, bytes: vec![] }, &Reply::Done);
    assert_eq!(
        opened,
        Progress::Next(
            Writing { stage: WriteStage::Open, bytes: bytes.clone() },
            Request::OpenScratch
        )
    );
    let stored =
        config.write(Writing { stage: WriteStage::Open, bytes: bytes.clone() }, &Reply::Done);
    assert_eq!(
        stored,
        Progress::Next(
            Writing { stage: WriteStage::Store, bytes: bytes.clone() },
            Request::WriteScratch
        )
    );
    let synced =
        config.write(Writing { stage: WriteStage::Store, bytes: bytes.clone() }, &Reply::Done);
    assert_eq!(
        synced,
        Progress::Next(
            Writing { stage: WriteStage::Sync, bytes: bytes.clone() },
            Request::SyncScratch
        )
    );
    let installed =
        config.write(Writing { stage: WriteStage::Sync, bytes: bytes.clone() }, &Reply::Done);
    assert_eq!(
        installed,
        Progress::Next(
            Writing { stage: WriteStage::Install, bytes: bytes.clone() },
            Request::InstallScratch
        )
    );
    let finished = config.write(Writing { stage: WriteStage::Install, bytes }, &Reply::Done);
    assert_eq!(finished, Progress::Finished(Ok(())));
}

#[test]
fn a_failed_call_ends_a_write_with_its_error() {
    let cases = [
        (Request::ResolveDirectory, Error::DirectoriesBaseDirsNew, 1),
        (Request::CreateDirectory, Error::StdFsCreateDirAll, 2),
        (Request::OpenScratch, Error::TokioFsOpenOptions, 3),
        (Request::WriteScratch, Error::TokioIoWriteAll, 4),
        (Request::SyncScratch, Error::StdFsSyncAll, 5),
        (Request::InstallScratch, Error::StdFsRename, 6),
    ];
    for (failing, error, calls) in cases {
        let mut disk = disk_with(b"kept");
        disk.failing = Some(failing);
        assert_eq!(write_on(&mut disk, &edited()), Err(error));
        assert_eq!(disk.log, write_calls()[..calls].to_vec());
        assert_eq!(disk.file, Some(b"kept".to_vec()));
    }
}

#[test]
fn a_platform_without_configuration_directory_ends_both_runs() {
    let mut disk = empty_disk();
    disk.platform = false;
    assert_eq!(write_on(&mut disk, &Config::default()), Err(Error::DirectoriesBaseDirsNew));
    assert_eq!(read_on(&mut disk), Err(Error::DirectoriesBaseDirsNew));
    assert_eq!(disk.file, None);
    assert!(!disk.directory);
}

#[test]
fn what_was_written_is_read() {
    for config in [Config::default(), edited()] {
        let mut disk = empty_disk();
        assert_eq!(write_on(&mut disk, &config), Ok(()));
        let written = disk.file.clone();
        disk.log.clear();
        assert_eq!(read_on(&mut disk), Ok(config));
        assert_eq!(disk.log, fetch_calls());
        assert_eq!(disk.file, written);
    }
}

#[test]
fn a_missing_file_is_healed() {
    let mut disk = empty_disk();
    assert_eq!(read_on(&mut disk), Ok(Config::default()));
    assert!(disk.directory);
    assert_eq!(disk.file, Some(FRESH.as_bytes().to_vec()));
    let mut calls = fetch_calls();
    calls.extend(write_calls());
    assert_eq!(disk.log, calls);
}

#[test]
fn invalid_json_is_healed() {
    for text in ["{", "not json", "{\"services\": }", "{} trailing"] {
        let mut disk = disk_with(text.as_bytes());
        assert_eq!(read_on(&mut disk), Ok(Config::default()));
        assert_eq!(disk.file, Some(FRESH.as_bytes().to_vec()));
    }
}

#[test]
fn schema_mismatch_is_healed() {
    let wrong_token = FRESH.replace("\"native\"", "\"Native\"");
    for text in ["{}", "null", "[]", "42", wrong_token.as_str()] {
        let mut disk = disk_with(text.as_bytes());
        assert_eq!(read_on(&mut disk), Ok(Config::default()));
        assert_eq!(disk.file, Some(FRESH.as_bytes().to_vec()));
    }
}

#[test]
fn healing_is_stable() {
    let mut disk = disk_with(b"garbage");
    assert_eq!(read_on(&mut disk), Ok(Config::default()));
    disk.log.clear();
    assert_eq!(read_on(&mut disk), Ok(Config::default()));
    assert_eq!(disk.log, fetch_calls());
}

#[test]
fn a_read_steps_through_its_stages() {
    assert_eq!(
        Config::read(Reading::new(), &Reply::Done),
        Progress::Next(Reading::Fetching(ReadStage::Resolve), Request::ResolveDirectory)
    );
    assert_eq!(
        Config::read(Reading::Fetching(ReadStage::Resolve), &Reply::Done),
        Progress::Next(Reading::Fetching(ReadStage::Create), Request::CreateDirectory)
    );
    assert_eq!(
        Config::read(Reading::Fetching(ReadStage::Create), &Reply::Done),
        Progress::Next(Reading::Fetching(ReadStage::Open), Request::OpenFile)
    );
    assert_eq!(
        Config::read(Reading::Fetching(ReadStage::Open), &Reply::Done),
        Progress::Next(Reading::Fetching(ReadStage::Fetch), Request::ReadFile)
    );
    assert_eq!(
        Config::read(Reading::Fetching(ReadStage::Fetch), &Reply::Text(FRESH.to_string())),
        Progress::Finished(Ok(Config::default()))
    );
    assert_eq!(
        Config::read(Reading::Fetching(ReadStage::Fetch), &Reply::Text(String::new())),
        Progress::Next(
            Reading::Healing(
                Config::default(),
                Writing { stage: WriteStage::Resolve, bytes: vec![] }
            ),
            Request::ResolveDirectory
        )
    );
    assert_eq!(
        Config::read(
            Reading::Healing(
                Config::default(),
                Writing { stage: WriteStage::Create, bytes: vec![] }
            ),
            &Reply::Done
        ),
        Progress::Next(
            Reading::Healing(
                Config::default(),
                Writing { stage: WriteStage::Open, bytes: FRESH.as_bytes().to_vec() }
            ),
            Request::OpenScratch
        )
    );
    assert_eq!(
        Config::read(
            Reading::Healing(
                Config::default(),
                Writing { stage: WriteStage::Install, bytes: FRESH.as_bytes().to_vec() }
            ),
            &Reply::Done
        ),
        Progress::Finished(Ok(Config::default()))
    );
}

#[test]
fn a_failed_call_ends_a_read_with_its_error() {
    let cases = [
        (Request::ResolveDirectory, Error::DirectoriesBaseDirsNew),
        (Request::CreateDirectory, Error::StdFsCreateDirAll),
        (Request::OpenFile, Error::TokioFsOpenOptions),
        (Request::ReadFile, Error::TokioIoReadToString),
        (Request::OpenScratch, Error::TokioFsOpenOptions),
        (Request::WriteScratch, Error::TokioIoWriteAll),
        (Request::SyncScratch, Error::StdFsSyncAll),
        (Request::InstallScratch, Error::StdFsRename),
    ];
    for (failing, error) in cases {
        let mut disk = disk_with(b"spells nothing");
        disk.failing = Some(failing);
        assert_eq!(read_on(&mut disk), Err(error));
        assert_eq!(disk.file, Some(b"spells nothing".to_vec()));
    }
}

#[test]
fn a_file_that_is_no_text_ends_the_read() {
    let mut disk = disk_with(&[0xff, 0xfe]);
    assert_eq!(read_on(&mut disk), Err(Error::TokioIoReadToString));
    assert_eq!(disk.file, Some(vec![0xff, 0xfe]));
}

#[test]
fn a_reply_of_the_wrong_kind_counts_as_failure() {
    assert_eq!(
        Config::read(Reading::Fetching(ReadStage::Fetch), &Reply::Done),
        Progress::Finished(Err(Error::TokioIoReadToString))
    );
    assert_eq!(
        Config::read(Reading::Fetching(ReadStage::Open), &Reply::Text(FRESH.to_string())),
        Progress::Finished(Err(Error::TokioFsOpenOptions))
    );
    assert_eq!(
        Config::default().write(
            Writing { stage: WriteStage::Sync, bytes: vec![] },
            &Reply::Text(String::new())
        ),
        Progress::Finished(Err(Error::StdFsSyncAll))
    );
}

#[test]
fn a_run_begins_whatever_the_first_reply() {
    for reply in [Reply::Failed, Reply::Done, Reply::Text("x".to_string())] {
        assert_eq!(
            Config::read(Reading::new(), &reply),
            Progress::Next(Reading::Fetching(ReadStage::Resolve), Request::ResolveDirectory)
        );
        assert_eq!(
            Config::default().write(Writing::new(), &reply),
            Progress::Next(
                Writing { stage: WriteStage::Resolve, bytes: vec![] },
                Request::ResolveDirectory
            )
        );
    }
}
