use point_quaffer::point::{Classification, ScanDirection};

#[test]
fn named_classes_are_labelled_by_name() {
    let names = [
        (0u8, "CreatedNeverClassified"),
        (1, "Unclassified"),
        (2, "Ground"),
        (3, "LowVegetation"),
        (4, "MediumVegetation"),
        (5, "HighVegetation"),
        (6, "Building"),
        (7, "LowPoint"),
        (8, "ModelKeyPoint"),
        (9, "Water"),
        (10, "Rail"),
        (11, "RoadSurface"),
        (13, "WireGuard"),
        (14, "WireConductor"),
        (15, "TransmissionTower"),
        (16, "WireStructureConnector"),
        (17, "BridgeDeck"),
        (18, "HighNoise"),
    ];
    for (code, name) in names {
        assert_eq!(Classification::new(code).unwrap().label(), name);
    }
}

#[test]
fn reserved_and_user_definable_classes_show_their_code() {
    assert_eq!(Classification::new(19).unwrap().label(), "Reserved(19)");
    assert_eq!(Classification::new(63).unwrap().label(), "Reserved(63)");
    assert_eq!(Classification::new(64).unwrap().label(), "UserDefinable(64)");
    assert_eq!(Classification::new(100).unwrap().label(), "UserDefinable(100)");
    assert_eq!(Classification::new(255).unwrap().label(), "UserDefinable(255)");
}

#[test]
fn every_code_but_overlap_is_a_classification() {
    for code in 0..=255u8 {
        match Classification::new(code) {
            Some(c) => {
                assert_ne!(code, 12);
                assert_eq!(c.code(), code);
                assert_eq!(c.is_ground(), code == 2);
            }
            None => assert_eq!(code, 12),
        }
    }
}

#[test]
fn scan_directions_are_labelled_by_name() {
    assert_eq!(ScanDirection::LeftToRight.label(), "LeftToRight");
    assert_eq!(ScanDirection::RightToLeft.label(), "RightToLeft");
}
