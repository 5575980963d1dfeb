use bluos_api::{Attribute, Discovery, Element, Error, Fault, Phase, SyncStatus};

fn player(mac: &str, name: &str) -> SyncStatus {
    SyncStatus {
        mac: mac.to_string(),
        id: "192.168.1.20:11000".to_string(),
        brand: "Bluesound".to_string(),
        db: "-24.5".to_string(),
        volume: 40,
        group: None,
        icon: "/images/players/N125_nt.png".to_string(),
        model: "N125".to_string(),
        model_name: "NODE 2i".to_string(),
        name: name.to_string(),
        schema_version: "25".to_string(),
    }
}

fn records(mac: &str) -> Element {
    let mut e = Element::new("SyncStatus");
    e.push_attribute("icon", "/images/players/N125_nt.png".to_string());
    e.push_attribute("db", "-24.5".to_string());
    e.push_attribute("volume", "40".to_string());
    e.push_attribute("brand", "Bluesound".to_string());
    e.push_attribute("etag", "23".to_string());
    e.push_attribute("schemaVersion", "25".to_string());
    e.push_attribute("modelName", "NODE 2i".to_string());
    e.push_attribute("model", "N125".to_string());
    e.push_attribute("mac", mac.to_string());
    e.push_attribute("id", "192.168.1.20:11000".to_string());
    e.push_attribute("name", "Kitchen".to_string());
    e
}

#[test]
fn new_coordinator_is_at_rest() {
    let d = Discovery::new();
    assert_eq!(d.phase(), Phase::Idle);
    assert!(d.found().is_empty());
    assert_eq!(d.timeout(), 0);
}

#[test]
fn start_is_granted_once() {
    let mut d = Discovery::new();
    assert_eq!(d.start(5), Ok(()));
    assert_eq!(d.phase(), Phase::Searching);
    assert_eq!(d.timeout(), 5);
    assert_eq!(d.start(9), Err(Error::AlreadyDiscovering));
    assert_eq!(d.phase(), Phase::Searching);
    assert_eq!(d.timeout(), 5);
}

#[test]
fn second_start_does_not_disturb_the_search() {
    let mut d = Discovery::new();
    d.start(5).unwrap();
    assert!(d.advertise(player("AA", "Kitchen")));
    assert_eq!(d.start(5), Err(Error::AlreadyDiscovering));
    assert_eq!(d.found().len(), 1);
    assert_eq!(d.finish(), Ok(vec![player("AA", "Kitchen")]));
}

#[test]
fn start_is_refused_while_cancelling() {
    let mut d = Discovery::new();
    d.start(5).unwrap();
    d.cancel().unwrap();
    assert_eq!(d.start(5), Err(Error::AlreadyDiscovering));
    assert_eq!(d.phase(), Phase::Cancelling);
}

#[test]
fn silent_search_finds_nothing() {
    let mut d = Discovery::new();
    d.start(3).unwrap();
    assert_eq!(d.finish(), Err(Error::NoBluOSError));
    assert_eq!(d.phase(), Phase::Idle);
}

#[test]
fn same_player_twice_is_one_entry_last_seen_wins() {
    let mut d = Discovery::new();
    d.start(3).unwrap();
    assert!(d.advertise(player("AA:BB", "Kitchen")));
    assert!(d.advertise(player("AA:BB", "Kitchen, renamed")));
    assert_eq!(d.found().len(), 1);
    assert_eq!(d.finish(), Ok(vec![player("AA:BB", "Kitchen, renamed")]));
    assert_eq!(d.phase(), Phase::Idle);
}

#[test]
fn players_are_kept_in_order_of_first_sight() {
    let mut d = Discovery::new();
    d.start(3).unwrap();
    d.advertise(player("AA", "Kitchen"));
    d.advertise(player("BB", "Study"));
    d.advertise(player("CC", "Attic"));
    d.advertise(player("BB", "Study, moved"));
    d.advertise(player("AA", "Kitchen"));
    assert_eq!(
        d.finish(),
        Ok(vec![player("AA", "Kitchen"), player("BB", "Study, moved"), player("CC", "Attic")])
    );
}

#[test]
fn cancel_after_natural_end_fails() {
    let mut d = Discovery::new();
    d.start(3).unwrap();
    d.advertise(player("AA", "Kitchen"));
    assert!(d.finish().is_ok());
    assert_eq!(d.cancel(), Err(Error::CancelError));
    assert_eq!(d.phase(), Phase::Idle);
}

#[test]
fn cancel_without_a_search_fails() {
    let mut d = Discovery::new();
    assert_eq!(d.cancel(), Err(Error::CancelError));
    assert_eq!(d.phase(), Phase::Idle);
}

#[test]
fn cancel_is_one_shot() {
    let mut d = Discovery::new();
    d.start(3).unwrap();
    assert_eq!(d.cancel(), Ok(()));
    assert_eq!(d.phase(), Phase::Cancelling);
    assert_eq!(d.cancel(), Err(Error::CancelError));
    assert_eq!(d.phase(), Phase::Cancelling);
}

#[test]
fn cancelled_search_stops_listening_and_comes_to_rest() {
    let mut d = Discovery::new();
    d.start(3).unwrap();
    assert!(d.advertise(player("AA", "Kitchen")));
    d.cancel().unwrap();
    assert!(!d.advertise(player("BB", "Study")));
    assert_eq!(d.found().len(), 1);
    assert_eq!(d.finish(), Ok(vec![player("AA", "Kitchen")]));
    assert_eq!(d.phase(), Phase::Idle);
    assert_eq!(d.start(1), Ok(()));
}

#[test]
fn cancelled_empty_search_finds_nothing() {
    let mut d = Discovery::new();
    d.start(3).unwrap();
    d.cancel().unwrap();
    assert_eq!(d.finish(), Err(Error::NoBluOSError));
    assert_eq!(d.phase(), Phase::Idle);
}

#[test]
fn advertisement_at_rest_is_passed_over() {
    let mut d = Discovery::new();
    assert!(!d.advertise(player("AA", "Kitchen")));
    assert!(d.found().is_empty());
    assert_eq!(d.finish(), Err(Error::NoBluOSError));
}

#[test]
fn a_failed_search_can_be_tried_again() {
    let mut d = Discovery::new();
    d.start(3).unwrap();
    assert_eq!(d.finish(), Err(Error::NoBluOSError));
    assert_eq!(d.start(4), Ok(()));
    d.advertise(player("AA", "Kitchen"));
    assert_eq!(d.finish(), Ok(vec![player("AA", "Kitchen")]));
    d.start(4).unwrap();
    assert!(d.found().is_empty());
}

#[test]
fn coordinators_are_independent() {
    let mut a = Discovery::new();
    let mut b = Discovery::new();
    assert_eq!(a.start(1), Ok(()));
    assert_eq!(b.start(2), Ok(()));
    a.advertise(player("AA", "Kitchen"));
    assert!(b.found().is_empty());
}

#[test]
fn descriptor_is_built_from_records() {
    let descriptor = SyncStatus::decode(&records("90:56:82:00:11:22")).unwrap();
    assert_eq!(descriptor, SyncStatus { name: "Kitchen".to_string(), ..player("90:56:82:00:11:22", "") });
    assert_eq!(descriptor.group, None);
    assert_eq!(descriptor.volume, 40);
    assert_eq!(descriptor.db, "-24.5");
}

#[test]
fn descriptor_faults() {
    let mut e = records("AA");
    e.attributes.remove(8);
    assert_eq!(SyncStatus::decode(&e), Err(Fault::MissingField("mac".to_string())));
    let mut e = records("AA");
    e.attributes[2].value = "40000".to_string();
    assert_eq!(SyncStatus::decode(&e), Err(Fault::InvalidValue("volume".to_string())));
    let mut e = records("AA");
    e.attributes[2].value = "-1".to_string();
    assert_eq!(SyncStatus::decode(&e).unwrap().volume, -1);
}

#[test]
fn descriptor_round_trips() {
    let plain = player("AA", "Kitchen");
    assert_eq!(SyncStatus::decode(&plain.encode()), Ok(plain.clone()));
    let grouped = SyncStatus { group: Some("Downstairs".to_string()), volume: -1, ..plain };
    assert_eq!(SyncStatus::decode(&grouped.encode()), Ok(grouped.clone()));
    assert_eq!(grouped.encode().field("modelName").map(|s| s.as_str()), Some("NODE 2i"));
    assert_eq!(grouped.encode().field("schemaVersion").map(|s| s.as_str()), Some("25"));
}

fn txt(records: &[(&str, &str)]) -> Vec<Attribute> {
    records
        .iter()
        .map(|(n, v)| Attribute { name: n.to_string(), value: v.to_string() })
        .collect()
}

#[test]
fn descriptor_from_advertisement() {
    let records = txt(&[
        ("mac", "90:56:82:00:11:22"),
        ("brand", "Bluesound"),
        ("db", "-24.5"),
        ("volume", "40"),
        ("icon", "/images/players/N125_nt.png"),
        ("model", "N125"),
        ("modelName", "NODE 2i"),
        ("name", "Kitchen"),
        ("schemaVersion", "25"),
        ("id", "10.9.9.9:1"),
        ("extra", "dropped"),
    ]);
    let found = SyncStatus::from_advertisement("192.168.1.20", 11000, &records).unwrap();
    assert_eq!(found, player("90:56:82:00:11:22", "Kitchen"));
    assert_eq!(found.id, "192.168.1.20:11000");
    let found = SyncStatus::from_advertisement("fe80::1", 0, &records).unwrap();
    assert_eq!(found.id, "fe80::1:0");
    let found = SyncStatus::from_advertisement("h", 65535, &records).unwrap();
    assert_eq!(found.id, "h:65535");
}

#[test]
fn advertisement_without_an_id_describes_no_player() {
    assert_eq!(
        SyncStatus::from_advertisement("192.168.1.20", 11000, &txt(&[("brand", "Bluesound")])),
        Err(Fault::MissingField("mac".to_string()))
    );
    assert_eq!(
        SyncStatus::from_advertisement("192.168.1.20", 11000, &vec![]),
        Err(Fault::MissingField("mac".to_string()))
    );
}

#[test]
fn search_fed_with_advertisements() {
    let records = |mac: &str, name: &str| {
        txt(&[
            ("mac", mac),
            ("brand", "Bluesound"),
            ("db", "-24.5"),
            ("volume", "40"),
            ("icon", "/images/players/N125_nt.png"),
            ("model", "N125"),
            ("modelName", "NODE 2i"),
            ("name", name),
            ("schemaVersion", "25"),
        ])
    };
    let mut d = Discovery::new();
    d.start(3000).unwrap();
    for (mac, name) in [("AA", "Kitchen"), ("BB", "Study"), ("AA", "Kitchen 2")] {
        let found = SyncStatus::from_advertisement("192.168.1.20", 11000, &records(mac, name)).unwrap();
        assert!(d.advertise(found));
    }
    let players = d.finish().unwrap();
    assert_eq!(players.len(), 2);
    assert_eq!(players[0].mac, "AA");
    assert_eq!(players[0].name, "Kitchen 2");
    assert_eq!(players[1].mac, "BB");
}
