use mikaboshi::compass::{
    get_direction_positions_in_chart,
    get_opposite_direction,
    get_twentyfour_data_from_direction,
    get_twentyfour_data_from_index,
    get_twentyfour_direction_from_direction,
    get_twentyfour_direction_from_half_degrees,
    get_twentyfour_direction_from_index,
    get_twentyfour_index_from_direction,
    twentyfour_index_from_half_degrees,
    Compass,
    Direction,
    TwentyFourType,
};
use mikaboshi::error::InputError;

const LABELS: [&str; 8] = ["n", "ne", "e", "se", "s", "sw", "w", "nw"];

#[test]
fn test_get_direction_positions_in_chart() {
    let exp = ["nw", "n", "ne", "w", "", "e", "sw", "s", "se"];
    assert_eq!(get_direction_positions_in_chart("n").unwrap(), exp);
}

#[test]
fn direction_positions_turn_with_the_device() {
    assert_eq!(
        get_direction_positions_in_chart("ne").unwrap(),
        ["n", "ne", "e", "nw", "", "se", "w", "sw", "s"]
    );
    assert_eq!(
        get_direction_positions_in_chart("sw").unwrap(),
        ["s", "sw", "w", "se", "", "nw", "e", "ne", "n"]
    );
    assert_eq!(
        get_direction_positions_in_chart("nw").unwrap(),
        ["w", "nw", "n", "sw", "", "ne", "s", "se", "e"]
    );
    assert_eq!(get_direction_positions_in_chart("north"), None);
    assert_eq!(get_direction_positions_in_chart(""), None);
}

#[test]
fn test_constant_twentyfour_index_to_directions() {
    assert_eq!(
        get_twentyfour_direction_from_index(0).unwrap(),
        Direction {
            direction: String::from("n"),
            sector: 2,
        }
    );
}

#[test]
fn test_get_twentyfour_direction_from_index() {
    let exp = Direction {
        direction: String::from("n"),
        sector: 2,
    };
    assert_eq!(get_twentyfour_direction_from_index(0).unwrap(), exp);
}

#[test]
fn twentyfour_directions_run_clockwise_from_north_two() {
    assert_eq!(get_twentyfour_direction_from_index(1).unwrap(), Direction::new("n", 3));
    assert_eq!(get_twentyfour_direction_from_index(2).unwrap(), Direction::new("ne", 1));
    assert_eq!(get_twentyfour_direction_from_index(12).unwrap(), Direction::new("s", 2));
    assert_eq!(get_twentyfour_direction_from_index(23).unwrap(), Direction::new("n", 1));
    assert_eq!(get_twentyfour_direction_from_index(24), Err(InputError::IndexOutOfRange));
}

#[test]
fn test_constant_twentyfour_directions_to_index() {
    assert_eq!(get_twentyfour_index_from_direction("n", 2), Ok(0_usize));
}

#[test]
fn twentyfour_index_from_direction_values_and_errors() {
    assert_eq!(get_twentyfour_index_from_direction("n", 1), Ok(23));
    assert_eq!(get_twentyfour_index_from_direction("n", 3), Ok(1));
    assert_eq!(get_twentyfour_index_from_direction("ne", 1), Ok(2));
    assert_eq!(get_twentyfour_index_from_direction("nw", 3), Ok(22));
    assert_eq!(get_twentyfour_index_from_direction("x", 1), Err(InputError::UnknownDirection));
    assert_eq!(get_twentyfour_index_from_direction("n", 0), Err(InputError::SectorOutOfRange));
    assert_eq!(get_twentyfour_index_from_direction("n", 4), Err(InputError::SectorOutOfRange));
}

#[test]
fn twentyfour_round_trip_for_all_sectors() {
    for label in LABELS {
        for sector in 1..4 {
            let index = get_twentyfour_index_from_direction(label, sector).unwrap();
            let dir = get_twentyfour_direction_from_index(index).unwrap();
            assert_eq!(dir, Direction::new(label, sector));
            assert_eq!(get_twentyfour_direction_from_direction(label, sector).unwrap(), dir);
        }
    }
    for index in 0..24 {
        let dir = get_twentyfour_direction_from_index(index).unwrap();
        assert_eq!(get_twentyfour_index_from_direction(&dir.direction, dir.sector), Ok(index));
    }
}

#[test]
fn test_get_twentyfour_data_from_index() {
    assert!(matches!(get_twentyfour_data_from_index(0), Ok(TwentyFourType::Branch(_))));
}

#[test]
fn twentyfour_data_table() {
    assert_eq!(get_twentyfour_data_from_index(0), Ok(TwentyFourType::Branch(0)));
    assert_eq!(get_twentyfour_data_from_index(1), Ok(TwentyFourType::Stem(9)));
    assert_eq!(get_twentyfour_data_from_index(3), Ok(TwentyFourType::Bagua(7)));
    assert_eq!(get_twentyfour_data_from_index(22), Ok(TwentyFourType::Branch(11)));
    assert_eq!(get_twentyfour_data_from_index(23), Ok(TwentyFourType::Stem(8)));
    assert_eq!(get_twentyfour_data_from_index(24), Err(InputError::IndexOutOfRange));
    assert_eq!(get_twentyfour_data_from_direction("n", 1), Ok(TwentyFourType::Stem(8)));
    assert_eq!(get_twentyfour_data_from_direction("ne", 2), Ok(TwentyFourType::Bagua(7)));
    assert_eq!(get_twentyfour_data_from_direction("q", 2), Err(InputError::UnknownDirection));
}

#[test]
fn test_get_twentyfour_direction_from_degrees() {
    assert_eq!(
        get_twentyfour_direction_from_half_degrees(0).unwrap(),
        Direction {
            direction: String::from("n"),
            sector: 2,
        }
    );
}

#[test]
fn degrees_fall_in_exactly_one_slot_of_fifteen() {
    for h in 0..720_u32 {
        let index = twentyfour_index_from_half_degrees(h).unwrap();
        assert!(index < 24);
        let lower = 30 * index as i64 - 15;
        let upper = 30 * index as i64 + 15;
        let inside = if index == 0 {
            h < 15 || h >= 705
        } else {
            lower <= h as i64 && (h as i64) < upper
        };
        assert!(inside, "half degrees {} fell outside slot {}", h, index);
    }
    // 7.5 degrees starts "n" 3; 352.5 degrees starts "n" 2 again.
    assert_eq!(get_twentyfour_direction_from_half_degrees(14).unwrap(), Direction::new("n", 2));
    assert_eq!(get_twentyfour_direction_from_half_degrees(15).unwrap(), Direction::new("n", 3));
    assert_eq!(get_twentyfour_direction_from_half_degrees(704).unwrap(), Direction::new("n", 1));
    assert_eq!(get_twentyfour_direction_from_half_degrees(705).unwrap(), Direction::new("n", 2));
    assert_eq!(get_twentyfour_direction_from_half_degrees(719).unwrap(), Direction::new("n", 2));
    assert_eq!(get_twentyfour_direction_from_half_degrees(360).unwrap(), Direction::new("s", 2));
    assert_eq!(get_twentyfour_direction_from_half_degrees(720), Err(InputError::AngleOutOfRange));
}

#[test]
fn opposite_of_opposite_is_the_direction() {
    for label in LABELS {
        let opposite = get_opposite_direction(label).unwrap();
        assert_ne!(opposite, label);
        assert_eq!(get_opposite_direction(opposite).unwrap(), label);
    }
    assert_eq!(get_opposite_direction("n"), Ok("s"));
    assert_eq!(get_opposite_direction("se"), Ok("nw"));
    assert_eq!(get_opposite_direction("up"), Err(InputError::UnknownDirection));
}

#[test]
fn compass_parse_and_labels() {
    for (i, label) in LABELS.iter().enumerate() {
        let d = Compass::parse(label).unwrap();
        assert_eq!(d.index(), i);
        assert_eq!(d.as_str(), *label);
        assert_eq!(d.opposite_of().index(), (i + 4) % 8);
    }
    assert_eq!(Compass::parse("N"), None);
    assert_eq!(Compass::N.turn(3), Compass::SE);
}
