use controller::bomb::{Bomb, BombDefuser, BombState, PlantedC4, PlantedC4State, C4};
use controller::overlay::{
    bomb_site_name, defuse_in_time_color, defuse_too_late_color, dropped_label_color,
    planted_label_color, BombInfoIndicator, BombLabelIndicator, DistanceBand, InfoLine,
    LabelKind, Rgba,
};

type TestBomb = Bomb<f32, [f32; 3]>;

fn planted(state: PlantedC4State<f32>, defuser: Option<BombDefuser<f32>>) -> TestBomb {
    Bomb {
        planted_c4: Some(PlantedC4 { bomb_site: 1, state, position: [1.0, 2.0, 3.0], defuser }),
        c4: None,
        state: BombState::Planted,
    }
}

fn carried(owner: Option<u32>) -> TestBomb {
    Bomb {
        planted_c4: None,
        c4: Some(C4 { owner_entity_id: owner, position: [4.0, 5.0, 6.0] }),
        state: if owner.is_none() { BombState::Dropped } else { BombState::NotPlanted },
    }
}

#[test]
fn bomb_site_names() {
    assert_eq!(bomb_site_name(0), "A");
    assert_eq!(bomb_site_name(1), "B");
    assert_eq!(bomb_site_name(200), "B");
}

#[test]
fn line_counts() {
    assert_eq!(BombInfoIndicator::line_count(&PlantedC4State::Active { time_detonation: 3.0f32 }), 3);
    assert_eq!(BombInfoIndicator::line_count(&PlantedC4State::<f32>::Defused), 2);
    assert_eq!(BombInfoIndicator::line_count(&PlantedC4State::<f32>::Detonated), 2);
}

#[test]
fn info_lines_of_ticking_bomb_without_defuser() {
    let indicator = BombInfoIndicator::new();
    let bomb = planted(PlantedC4State::Active { time_detonation: 31.5 }, None);
    let lines = indicator.lines(true, &bomb).unwrap();
    assert_eq!(lines.len(), 3);
    assert!(matches!(lines[0], InfoLine::BombPlanted { bomb_site: 1 }));
    match lines[1] {
        InfoLine::Time { time_detonation } => assert_eq!(*time_detonation, 31.5),
        _ => panic!("second line should be the time"),
    }
    assert!(matches!(lines[2], InfoLine::NotDefusing));
}

#[test]
fn info_lines_of_ticking_bomb_with_defuser() {
    let indicator = BombInfoIndicator::new();
    let bomb = planted(
        PlantedC4State::Active { time_detonation: 8.0 },
        Some(BombDefuser { time_remaining: 5.0, player_name: "carol".to_string() }),
    );
    let lines = indicator.lines(true, &bomb).unwrap();
    assert_eq!(lines.len(), 3);
    match lines[2] {
        InfoLine::DefusedIn { defuser } => {
            assert_eq!(defuser.player_name, "carol");
            assert_eq!(defuser.time_remaining, 5.0);
        }
        _ => panic!("third line should be the defuser"),
    }
}

#[test]
fn info_lines_of_defused_and_detonated_bomb() {
    let indicator = BombInfoIndicator::new();
    let defused = planted(PlantedC4State::Defused, None);
    let lines = indicator.lines(true, &defused).unwrap();
    assert_eq!(lines.len(), 2);
    assert!(matches!(lines[1], InfoLine::Defused));
    let detonated = planted(PlantedC4State::Detonated, None);
    let lines = indicator.lines(true, &detonated).unwrap();
    assert_eq!(lines.len(), 2);
    assert!(matches!(lines[1], InfoLine::Detonated));
}

#[test]
fn info_panel_hidden() {
    let indicator = BombInfoIndicator::new();
    let bomb = planted(PlantedC4State::Defused, None);
    assert!(indicator.lines(false, &bomb).is_none());
    assert!(indicator.lines(true, &carried(None)).is_none());
    assert!(indicator.lines(true, &carried(Some(2))).is_none());
    let inconsistent: TestBomb = Bomb { planted_c4: None, c4: None, state: BombState::Planted };
    assert!(indicator.lines(true, &inconsistent).is_none());
}

#[test]
fn info_panel_shown_iff_planted_law() {
    let indicator = BombInfoIndicator::new();
    let unknown: TestBomb = Bomb { planted_c4: None, c4: None, state: BombState::Unknown };
    for timer in [false, true] {
        assert_eq!(indicator.lines(timer, &planted(PlantedC4State::Detonated, None)).is_some(), timer);
        assert!(indicator.lines(timer, &unknown).is_none());
        assert!(indicator.lines(timer, &carried(None)).is_none());
    }
}

#[test]
fn label_for_planted_bomb() {
    let indicator = BombLabelIndicator::new();
    let bomb = planted(PlantedC4State::Detonated, None);
    let label = indicator.label_target(true, &bomb).unwrap();
    assert_eq!(label.kind, LabelKind::Planted);
    assert_eq!(*label.position, [1.0, 2.0, 3.0]);
    assert_eq!(label.color, Rgba { r: 255, g: 0, b: 0, a: 255 });
}

#[test]
fn label_for_dropped_bomb() {
    let indicator = BombLabelIndicator::new();
    let bomb = carried(None);
    let label = indicator.label_target(true, &bomb).unwrap();
    assert_eq!(label.kind, LabelKind::Dropped);
    assert_eq!(*label.position, [4.0, 5.0, 6.0]);
    assert_eq!(label.color, Rgba { r: 255, g: 165, b: 0, a: 255 });
}

#[test]
fn no_label_when_off_unknown_or_carried() {
    let indicator = BombLabelIndicator::new();
    assert!(indicator.label_target(false, &carried(None)).is_none());
    assert!(indicator.label_target(true, &carried(Some(4))).is_none());
    let unknown: TestBomb = Bomb { planted_c4: None, c4: None, state: BombState::Unknown };
    assert!(indicator.label_target(true, &unknown).is_none());
    let planted_without_details: TestBomb =
        Bomb { planted_c4: None, c4: None, state: BombState::Planted };
    assert!(indicator.label_target(true, &planted_without_details).is_none());
}

#[test]
fn label_alpha_by_band() {
    assert_eq!(BombLabelIndicator::label_alpha(DistanceBand::Close, 120, false), 255);
    assert_eq!(BombLabelIndicator::label_alpha(DistanceBand::Close, 120, true), 255);
    assert_eq!(BombLabelIndicator::label_alpha(DistanceBand::Fading, 120, false), 120);
    assert_eq!(BombLabelIndicator::label_alpha(DistanceBand::Fading, 120, true), 50);
    assert_eq!(BombLabelIndicator::label_alpha(DistanceBand::Far, 120, false), 80);
    assert_eq!(BombLabelIndicator::label_alpha(DistanceBand::Far, 120, true), 80);
}

#[test]
fn hover_never_raises_alpha_law() {
    for band in [DistanceBand::Close, DistanceBand::Fading, DistanceBand::Far] {
        for fade in [50u8, 80, 167, 255] {
            assert!(
                BombLabelIndicator::label_alpha(band, fade, true)
                    <= BombLabelIndicator::label_alpha(band, fade, false)
            );
        }
    }
}

#[test]
fn colors() {
    assert_eq!(planted_label_color(), Rgba::from_rgba(255, 0, 0, 255));
    assert_eq!(dropped_label_color(), Rgba::from_rgba(255, 165, 0, 255));
    assert_eq!(defuse_too_late_color(), Rgba { r: 201, g: 28, b: 28, a: 255 });
    assert_eq!(defuse_in_time_color(), Rgba { r: 28, g: 201, b: 66, a: 255 });
    assert_eq!(planted_label_color().with_alpha(80), Rgba { r: 255, g: 0, b: 0, a: 80 });
}
