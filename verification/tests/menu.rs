use trash_the_tower::constants::Rgb;
use trash_the_tower::main_menu::{button_system, on_btn_interact, Interaction};
use trash_the_tower::targets::TargetSet;

#[test]
fn a_click_among_the_changes_counts() {
    assert!(on_btn_interact(&vec![Interaction::Clicked]));
    assert!(on_btn_interact(&vec![Interaction::Hovered, Interaction::Idle, Interaction::Clicked]));
    assert!(on_btn_interact(&vec![Interaction::Clicked, Interaction::Hovered]));
}

#[test]
fn no_click_no_action() {
    assert!(!on_btn_interact(&vec![]));
    assert!(!on_btn_interact(&vec![Interaction::Hovered, Interaction::Idle]));
}

#[test]
fn buttons_take_the_colour_of_their_state() {
    let colors = button_system(&vec![Interaction::Idle, Interaction::Hovered, Interaction::Clicked]);
    assert_eq!(
        colors,
        vec![
            Rgb { r: 150, g: 150, b: 150 },
            Rgb { r: 250, g: 250, b: 250 },
            Rgb { r: 250, g: 250, b: 250 },
        ]
    );
    assert!(button_system(&vec![]).is_empty());
}

#[test]
fn a_full_target_set_holds_every_index() {
    let s = TargetSet::full(4);
    assert_eq!(s.capacity(), 4);
    assert_eq!(s.len(), 4);
    assert!(!s.is_empty());
    for t in 0..4 {
        assert!(s.contains(t));
    }
    assert!(!s.contains(4));
    assert!(!s.contains(usize::MAX));
}

#[test]
fn removing_a_target_twice_is_removing_it_once() {
    let mut s = TargetSet::full(3);
    assert!(s.remove(1));
    assert_eq!(s.len(), 2);
    assert!(!s.contains(1));
    assert!(!s.remove(1));
    assert_eq!(s.len(), 2);
    assert!(!s.remove(3));
    assert_eq!(s.len(), 2);
    assert!(s.remove(0));
    assert!(s.remove(2));
    assert_eq!(s.len(), 0);
    assert!(s.is_empty());
    assert_eq!(s.capacity(), 3);
}

#[test]
fn an_empty_target_set() {
    let mut s = TargetSet::full(0);
    assert!(s.is_empty());
    assert_eq!(s.len(), 0);
    assert!(!s.contains(0));
    assert!(!s.remove(0));
}
