use bitwa_o_tortuge::board::neighbor;
use bitwa_o_tortuge::field::move_ship;
use bitwa_o_tortuge::field::Field;
use bitwa_o_tortuge::funcs::can_move;
use bitwa_o_tortuge::funcs::random_fields_indexes;
use bitwa_o_tortuge::funcs::shuffle_indexes;
use bitwa_o_tortuge::ship::Ship;

/// The legality table written out: for each rotation the two directions
/// open to values over 1 and the one direction open to values other than 2.
fn expected_legal(rotate: u8, value: u8, direction: u8) -> bool {
    let (big_a, big_b, not_two) = match rotate {
        0 => (1, 7, 4),
        1 => (7, 9, 8),
        2 => (3, 9, 6),
        _ => (1, 3, 2),
    };
    if direction == big_a || direction == big_b {
        value > 1
    } else if direction == not_two {
        value != 2
    } else {
        false
    }
}

#[test]
fn can_move_matches_table_everywhere() {
    for rotate in 0u8..4 {
        for &direction in &[1u8, 2, 3, 4, 6, 7, 8, 9] {
            for value in 1u8..4 {
                assert_eq!(
                    can_move(rotate, value, direction),
                    expected_legal(rotate, value, direction),
                    "rotate {} value {} direction {}",
                    rotate,
                    value,
                    direction
                );
            }
        }
    }
}

#[test]
fn can_move_spot_values() {
    // rotation 0: only 1, 7 (value > 1) and 4 (value != 2) are open
    assert!(can_move(0, 3, 1));
    assert!(can_move(0, 2, 7));
    assert!(!can_move(0, 1, 1));
    assert!(can_move(0, 1, 4));
    assert!(can_move(0, 3, 4));
    assert!(!can_move(0, 2, 4));
    assert!(!can_move(0, 3, 6));
    assert!(!can_move(0, 3, 8));
    // rotation 1 direction 8 wants a value other than 2
    assert!(!can_move(1, 2, 8));
    assert!(can_move(1, 1, 8));
    // rotation 2
    assert!(can_move(2, 2, 3));
    assert!(!can_move(2, 2, 6));
    assert!(!can_move(2, 3, 1));
    // rotation 3
    assert!(can_move(3, 2, 1));
    assert!(can_move(3, 1, 2));
    assert!(!can_move(3, 2, 2));
}

#[test]
fn neighbor_matches_grid() {
    // rows of 2, 4, 4 and 2 cells; deltas as in the board tables
    let expect = |origin: usize, dir: u8| -> Option<usize> {
        match dir {
            1 => match origin {
                0 | 1 | 8 | 9 => Some(origin + 2),
                3 | 4 | 5 => Some(origin + 3),
                _ => None,
            },
            2 => match origin {
                0 | 1 | 7 | 8 => Some(origin + 3),
                3 | 4 | 5 => Some(origin + 4),
                _ => None,
            },
            3 => match origin {
                0 | 1 | 6 | 7 => Some(origin + 4),
                2 | 3 | 4 => Some(origin + 5),
                _ => None,
            },
            4 => match origin {
                1 | 3 | 4 | 5 | 7 | 8 | 9 | 11 => Some(origin - 1),
                _ => None,
            },
            6 => match origin {
                0 | 2 | 3 | 4 | 6 | 7 | 8 | 10 => Some(origin + 1),
                _ => None,
            },
            7 => match origin {
                4 | 5 | 10 | 11 => Some(origin - 4),
                7 | 8 | 9 => Some(origin - 5),
                _ => None,
            },
            8 => match origin {
                3 | 4 | 10 | 11 => Some(origin - 3),
                6 | 7 | 8 | 9 => Some(origin - 4),
                _ => None,
            },
            9 => match origin {
                2 | 3 | 10 | 11 => Some(origin - 2),
                6 | 7 | 8 => Some(origin - 3),
                _ => None,
            },
            _ => None,
        }
    };
    for origin in 0usize..12 {
        for &dir in &[1u8, 2, 3, 4, 6, 7, 8, 9] {
            assert_eq!(neighbor(origin, dir), expect(origin, dir), "origin {} dir {}", origin, dir);
        }
    }
    // cells 0 and 1 are east-west neighbours
    assert_eq!(neighbor(0, 6), Some(1));
    assert_eq!(neighbor(1, 4), Some(0));
    // the board ends north-west of cell 0
    assert_eq!(neighbor(0, 7), None);
}

#[test]
fn shuffle_indexes_follows_the_draws() {
    // a zero draw swaps position i with itself: the order stays
    let identity: Vec<usize> = (0..12).collect();
    assert_eq!(shuffle_indexes(&vec![0; 12]), identity);

    // first draw 1: positions 0 and 1 swap; the rest stays
    let mut draws = vec![0; 12];
    draws[0] = 1;
    assert_eq!(shuffle_indexes(&draws), vec![1, 0, 2, 3, 4, 5, 6, 7, 8, 9, 10, 11]);

    // first draw 11: positions 0 and 11 swap
    let mut draws = vec![0; 12];
    draws[0] = 11;
    assert_eq!(shuffle_indexes(&draws), vec![11, 1, 2, 3, 4, 5, 6, 7, 8, 9, 10, 0]);

    // two steps: swap 0 with 2, then 1 with 3
    let mut draws = vec![0; 12];
    draws[0] = 2;
    draws[1] = 2;
    assert_eq!(shuffle_indexes(&draws), vec![2, 3, 0, 1, 4, 5, 6, 7, 8, 9, 10, 11]);

    // draws only count modulo the places that are left
    let mut draws = vec![0; 12];
    draws[0] = 13;
    assert_eq!(shuffle_indexes(&draws), vec![1, 0, 2, 3, 4, 5, 6, 7, 8, 9, 10, 11]);
}

#[test]
fn random_indexes_form_permutation() {
    for _ in 0..20 {
        let mut indexes = random_fields_indexes();
        assert_eq!(indexes.len(), 12);
        indexes.sort();
        let identity: Vec<usize> = (0..12).collect();
        assert_eq!(indexes, identity);
    }
}

#[test]
fn ship_new_and_getters() {
    let s = Ship::new(3, true, String::from("/images/b3.jpg"), String::from("/images/b3d.jpg"));
    assert_eq!(s.score(), 3);
    assert!(s.is_pirate());
    assert!(s.rev());
    assert!(s.show());
    assert!(!s.is_sunk());
    assert_eq!(s.background_src_l(), "/images/b3.jpg");
    assert_eq!(s.background_src_d(), "/images/b3d.jpg");
    assert_eq!(s.rev_src_l(), "/images/rewers.jpg");
    assert_eq!(s.rev_src_d(), "/images/rewers2.jpg");
}

#[test]
fn ship_placeholder_is_sunk_and_empty() {
    let s = Ship::empty_ship();
    assert_eq!(s.score(), 0);
    assert!(s.is_sunk());
    assert!(!s.show());
    assert!(s.rev());
    assert_eq!(s.background_src_l(), "");
    assert_eq!(s.rev_src_l(), "");
}

#[test]
fn ship_flags_toggle() {
    let mut s = Ship::new(2, false, String::from("/images/r2.jpg"), String::from("/images/r2d.jpg"));
    s.set_rev(false);
    assert!(!s.rev());
    s.set_show(false);
    assert!(!s.show());
    s.set_show(true);
    s.sunk();
    assert!(s.is_sunk());
    assert!(!s.show());
}

#[test]
fn field_new_holds_placeholder_below() {
    let s = Ship::new(1, false, String::from("/images/r1.jpg"), String::from("/images/r1d.jpg"));
    let f = Field::new(5, s);
    assert_eq!(f.number(), 5);
    assert_eq!(f.rotation(), 0);
    assert!(f.is_light());
    assert_eq!(f.outdoor().score(), 1);
    assert!(f.hidden().is_sunk());
    assert_eq!(f.hidden().score(), 0);
}

#[test]
fn field_hit_test_bounds_inclusive() {
    let s = Ship::new(1, false, String::from("/images/r1.jpg"), String::from("/images/r1d.jpg"));
    let f = Field::new(0, s);
    // cell 0 spans x 185..=265, y 88..=172
    assert!(f.is_on_field(185, 88));
    assert!(f.is_on_field(265, 172));
    assert!(f.is_on_field(200, 100));
    assert!(!f.is_on_field(184, 100));
    assert!(!f.is_on_field(266, 100));
    assert!(!f.is_on_field(200, 87));
    assert!(!f.is_on_field(200, 173));
}

#[test]
fn field_image_src_faces() {
    let s = Ship::new(2, true, String::from("/images/b2.jpg"), String::from("/images/b2d.jpg"));
    let mut f = Field::new(0, s);
    // face down: the back face, light variant
    assert_eq!(f.image_src(), "/images/rewers.jpg");
    f.set_light(false);
    assert_eq!(f.image_src(), "/images/rewers2.jpg");
    // face up and shown: the identity face
    f.set_rev_outdoor(false);
    assert_eq!(f.image_src(), "/images/b2d.jpg");
    f.set_light(true);
    assert_eq!(f.image_src(), "/images/b2.jpg");
    // a sunk outdoor token draws nothing
    let mut g = Field::new(1, Ship::empty_ship());
    g.set_rev_outdoor(false);
    assert_eq!(g.image_src(), "");
}

#[test]
fn move_ship_capture_onto_enemy() {
    let pirate = Ship::new(3, true, String::from("/images/b3.jpg"), String::from("/images/b3d.jpg"));
    let navy = Ship::new(2, false, String::from("/images/r2.jpg"), String::from("/images/r2d.jpg"));
    let mut fields = vec![Field::new(0, pirate), Field::new(1, navy)];
    fields[0].set_rotation(2);
    move_ship(&mut fields, 0, 1);
    // the mover arrived on top at the mover's rotation
    assert_eq!(fields[1].outdoor().score(), 3);
    assert!(fields[1].outdoor().is_pirate());
    assert_eq!(fields[1].rotation(), 2);
    // the previous occupant is concealed beneath
    assert_eq!(fields[1].hidden().score(), 2);
    assert!(!fields[1].hidden().is_pirate());
    // the origin is reset to the placeholder, its hidden slot untouched
    assert!(fields[0].outdoor().is_sunk());
    assert_eq!(fields[0].outdoor().score(), 0);
    assert!(fields[0].hidden().is_sunk());
    assert_eq!(fields[0].rotation(), 2);
}

#[test]
fn move_ship_blocked_by_friend() {
    let a = Ship::new(3, true, String::from("/images/b3.jpg"), String::from("/images/b3d.jpg"));
    let b = Ship::new(1, true, String::from("/images/b1.jpg"), String::from("/images/b1d.jpg"));
    let mut fields = vec![Field::new(0, a), Field::new(1, b)];
    move_ship(&mut fields, 0, 1);
    assert_eq!(fields[0].outdoor().score(), 3);
    assert_eq!(fields[1].outdoor().score(), 1);
    assert!(fields[1].hidden().is_sunk());
}

#[test]
fn move_ship_onto_placeholder() {
    let a = Ship::new(2, false, String::from("/images/r2.jpg"), String::from("/images/r2d.jpg"));
    let mut fields = vec![Field::new(0, a), Field::new(1, Ship::empty_ship())];
    move_ship(&mut fields, 0, 1);
    assert_eq!(fields[1].outdoor().score(), 2);
    assert!(fields[1].hidden().is_sunk());
    assert!(fields[0].outdoor().is_sunk());
}
