use controller::bomb::{entity_class, player_name_from_bytes, BombDefuser, BombState, EntityClass, PlantedC4State};
use controller::bomb_scan::{BombScanner, ScanRequest};

type Scanner = BombScanner<f32, [f32; 3]>;

#[test]
fn entity_class_by_name() {
    assert_eq!(entity_class(Some(&"C_PlantedC4".to_string())), EntityClass::PlantedC4);
    assert_eq!(entity_class(Some(&"C_C4".to_string())), EntityClass::C4);
    assert_eq!(entity_class(Some(&"C_CSPlayerPawn".to_string())), EntityClass::Other);
    assert_eq!(entity_class(Some(&"c_c4".to_string())), EntityClass::Other);
    assert_eq!(entity_class(None), EntityClass::Other);
}

#[test]
fn player_name_stops_at_nul() {
    let mut bytes = [0u8; 16];
    bytes[..5].copy_from_slice(b"alice");
    bytes[6] = b'x';
    assert_eq!(player_name_from_bytes(&bytes), "alice");
}

#[test]
fn player_name_empty_when_first_byte_is_nul() {
    assert_eq!(player_name_from_bytes(&[0, b'a', b'b']), "");
}

#[test]
fn player_name_without_nul_is_name_error() {
    assert_eq!(player_name_from_bytes(b"no terminator"), "Name Error");
    assert_eq!(player_name_from_bytes(&[]), "Name Error");
}

#[test]
fn player_name_replaces_invalid_utf8() {
    assert_eq!(player_name_from_bytes(&[b'a', 0xff, b'b', 0]), "a\u{FFFD}b");
    assert_eq!(player_name_from_bytes("Zoë\0".as_bytes()), "Zoë");
}

#[test]
fn scan_of_no_entities_is_unknown() {
    let scan = Scanner::new();
    assert_eq!(scan.request(), ScanRequest::NextEntity);
    let bomb = scan.finish();
    assert_eq!(bomb.state, BombState::Unknown);
    assert!(bomb.planted_c4.is_none());
    assert!(bomb.c4.is_none());
}

#[test]
fn scan_skips_other_entities() {
    let mut scan = Scanner::new();
    scan.on_class(EntityClass::Other);
    assert_eq!(scan.request(), ScanRequest::NextEntity);
    scan.on_class(EntityClass::Other);
    let bomb = scan.finish();
    assert_eq!(bomb.state, BombState::Unknown);
}

#[test]
fn scan_planted_defused() {
    let mut scan = Scanner::new();
    scan.on_class(EntityClass::PlantedC4);
    assert_eq!(scan.request(), ScanRequest::Position);
    scan.on_position([1.0, 2.0, 3.0], false);
    assert_eq!(scan.request(), ScanRequest::PlantedC4);
    scan.on_planted_c4(1, true);
    assert_eq!(scan.request(), ScanRequest::Done);
    let bomb = scan.finish();
    assert_eq!(bomb.state, BombState::Planted);
    let planted = bomb.planted_c4.unwrap();
    assert_eq!(planted.bomb_site, 1);
    assert_eq!(planted.position, [1.0, 2.0, 3.0]);
    assert!(matches!(planted.state, PlantedC4State::Defused));
    assert!(planted.defuser.is_none());
    assert!(bomb.c4.is_none());
}

#[test]
fn scan_planted_detonated() {
    let mut scan = Scanner::new();
    scan.on_class(EntityClass::PlantedC4);
    scan.on_position([0.0, 0.0, 0.0], true);
    scan.on_planted_c4(0, false);
    assert_eq!(scan.request(), ScanRequest::BlowTime);
    scan.on_blow_time(true, -1.5);
    assert_eq!(scan.request(), ScanRequest::Done);
    let bomb = scan.finish();
    assert_eq!(bomb.state, BombState::Planted);
    let planted = bomb.planted_c4.unwrap();
    assert_eq!(planted.bomb_site, 0);
    assert!(matches!(planted.state, PlantedC4State::Detonated));
}

#[test]
fn scan_planted_ticking_without_defuser() {
    let mut scan = Scanner::new();
    scan.on_class(EntityClass::PlantedC4);
    scan.on_position([5.0, 6.0, 7.0], false);
    scan.on_planted_c4(1, false);
    scan.on_blow_time(false, 12.25);
    assert_eq!(scan.request(), ScanRequest::DefusingFlag);
    scan.on_defusing(false);
    assert_eq!(scan.request(), ScanRequest::Done);
    let bomb = scan.finish();
    let planted = bomb.planted_c4.unwrap();
    match planted.state {
        PlantedC4State::Active { time_detonation } => assert_eq!(time_detonation, 12.25),
        _ => panic!("bomb should be ticking"),
    }
    assert!(planted.defuser.is_none());
}

#[test]
fn scan_planted_ticking_with_defuser() {
    let mut scan = Scanner::new();
    scan.on_class(EntityClass::PlantedC4);
    scan.on_position([5.0, 6.0, 7.0], false);
    scan.on_planted_c4(0, false);
    scan.on_blow_time(false, 20.0);
    scan.on_defusing(true);
    assert_eq!(scan.request(), ScanRequest::Defuser);
    scan.on_defuser(BombDefuser { time_remaining: 4.5, player_name: "bob".to_string() });
    let bomb = scan.finish();
    assert_eq!(bomb.state, BombState::Planted);
    let planted = bomb.planted_c4.unwrap();
    assert!(matches!(planted.state, PlantedC4State::Active { .. }));
    let defuser = planted.defuser.unwrap();
    assert_eq!(defuser.time_remaining, 4.5);
    assert_eq!(defuser.player_name, "bob");
}

#[test]
fn scan_truncates_bomb_site_to_a_byte() {
    let mut scan = Scanner::new();
    scan.on_class(EntityClass::PlantedC4);
    scan.on_position([0.0; 3], false);
    scan.on_planted_c4(257, true);
    assert_eq!(scan.finish().planted_c4.unwrap().bomb_site, 1);
}

#[test]
fn scan_carried_c4_with_owner_is_not_planted() {
    let mut scan = Scanner::new();
    scan.on_class(EntityClass::C4);
    scan.on_position([9.0, 9.0, 9.0], false);
    assert_eq!(scan.request(), ScanRequest::CarriedC4);
    scan.on_carried_c4(false, Some(7));
    assert_eq!(scan.request(), ScanRequest::Done);
    let bomb = scan.finish();
    assert_eq!(bomb.state, BombState::NotPlanted);
    let c4 = bomb.c4.unwrap();
    assert_eq!(c4.owner_entity_id, Some(7));
    assert_eq!(c4.position, [9.0, 9.0, 9.0]);
    assert!(bomb.planted_c4.is_none());
}

#[test]
fn scan_c4_without_owner_is_dropped() {
    let mut scan = Scanner::new();
    scan.on_class(EntityClass::C4);
    scan.on_position([3.0, 2.0, 1.0], false);
    scan.on_carried_c4(false, None);
    let bomb = scan.finish();
    assert_eq!(bomb.state, BombState::Dropped);
    assert_eq!(bomb.c4.unwrap().owner_entity_id, None);
}

#[test]
fn scan_skips_c4_at_origin() {
    let mut scan = Scanner::new();
    scan.on_class(EntityClass::C4);
    scan.on_position([0.0; 3], true);
    assert_eq!(scan.request(), ScanRequest::NextEntity);
    let bomb = scan.finish();
    assert_eq!(bomb.state, BombState::Unknown);
    assert!(bomb.c4.is_none());
}

#[test]
fn scan_skips_c4_flagged_planted_and_keeps_state() {
    let mut scan = Scanner::new();
    scan.on_class(EntityClass::C4);
    scan.on_position([4.0; 3], false);
    scan.on_carried_c4(true, Some(3));
    assert_eq!(scan.request(), ScanRequest::NextEntity);
    let bomb = scan.finish();
    assert_eq!(bomb.state, BombState::Unknown);
    assert!(bomb.c4.is_none());
    assert!(bomb.planted_c4.is_none());
}

#[test]
fn scan_planted_after_skipped_c4() {
    let mut scan = Scanner::new();
    scan.on_class(EntityClass::C4);
    scan.on_position([4.0; 3], false);
    scan.on_carried_c4(true, None);
    scan.on_class(EntityClass::PlantedC4);
    scan.on_position([8.0; 3], false);
    scan.on_planted_c4(0, true);
    let bomb = scan.finish();
    assert_eq!(bomb.state, BombState::Planted);
    assert!(bomb.planted_c4.is_some());
    assert!(bomb.c4.is_none());
}

#[test]
fn scan_skipped_entities_change_nothing_law() {
    let run = |with_skips: bool| {
        let mut scan = Scanner::new();
        if with_skips {
            scan.on_class(EntityClass::Other);
            scan.on_class(EntityClass::C4);
            scan.on_position([0.0; 3], true);
        }
        scan.on_class(EntityClass::C4);
        scan.on_position([2.0; 3], false);
        scan.on_carried_c4(false, None);
        scan.finish()
    };
    let plain = run(false);
    let skipped = run(true);
    assert_eq!(plain.state, skipped.state);
    assert_eq!(plain.c4.unwrap().position, skipped.c4.unwrap().position);
}
