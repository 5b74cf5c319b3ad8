//! The control codec: the bijection between controls and action ids.

use boxing::control::{Control, MoveX, MoveY};

fn all_controls() -> Vec<Control> {
    let xs = [MoveX::Left, MoveX::Stay, MoveX::Right];
    let ys = [MoveY::Back, MoveY::Stay];
    let flags = [false, true];
    let mut out = Vec::new();
    for &move_x in &xs {
        for &move_y in &ys {
            for &left_punch in &flags {
                for &right_punch in &flags {
                    out.push(Control { move_x, move_y, left_punch, right_punch });
                }
            }
        }
    }
    out
}

#[test]
fn action_roundtrip_all_ids() {
    for i in 0..24usize {
        assert_eq!(Control::from_int(i).to_int(), i);
    }
}

#[test]
fn control_roundtrip_all_controls() {
    let controls = all_controls();
    assert_eq!(controls.len(), 24);
    for c in controls {
        let back = Control::from_int(c.to_int());
        assert_eq!(back, c);
    }
}

#[test]
fn ids_are_dense_and_distinct() {
    let mut seen = [false; 24];
    for c in all_controls() {
        let id = c.to_int();
        assert!(id < 24);
        assert!(!seen[id]);
        seen[id] = true;
    }
    assert!(seen.iter().all(|&s| s));
}

#[test]
fn out_of_range_decodes_neutral() {
    let neutral = Control::default();
    assert_eq!(Control::from_int(24), neutral);
    assert_eq!(Control::from_int(1000), neutral);
    assert_eq!(Control::from_int(usize::MAX), neutral);
}

#[test]
fn specific_encodings() {
    let left_jab = Control {
        move_x: MoveX::Stay,
        move_y: MoveY::Stay,
        left_punch: true,
        right_punch: false,
    };
    assert_eq!(left_jab.to_int(), 1);
    let right_jab = Control {
        move_x: MoveX::Stay,
        move_y: MoveY::Stay,
        left_punch: false,
        right_punch: true,
    };
    assert_eq!(right_jab.to_int(), 2);
    let retreat_cross = Control {
        move_x: MoveX::Right,
        move_y: MoveY::Back,
        left_punch: false,
        right_punch: true,
    };
    assert_eq!(retreat_cross.to_int(), 22);
    assert_eq!(Control::default().to_int(), 0);
}

#[test]
fn move_factors() {
    assert_eq!(MoveX::Left.to_num(), -1);
    assert_eq!(MoveX::Stay.to_num(), 0);
    assert_eq!(MoveX::Right.to_num(), 1);
    assert_eq!(MoveY::Back.to_num(), -1);
    assert_eq!(MoveY::Stay.to_num(), 0);
}
