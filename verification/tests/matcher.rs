//! The input matcher: determinism, longest-chord resolution, and
//! declaration-order tie breaking.

use cyancia_control::id::Id;
use cyancia_control::keys::{KeyChord, KeyCode};
use cyancia_control::matcher::{ActionMatcher, ActivationKind, Binding};

const KEY_A: KeyCode = KeyCode(65);
const KEY_B: KeyCode = KeyCode(66);
const KEY_C: KeyCode = KeyCode(67);

fn manifest() -> Vec<Binding> {
    vec![
        Binding {
            id: Id::from_str("alpha"),
            chord: KeyChord::new(vec![KEY_A]),
            kind: ActivationKind::Hold,
        },
        Binding {
            id: Id::from_str("beta"),
            chord: KeyChord::new(vec![KEY_A, KEY_B]),
            kind: ActivationKind::Hold,
        },
        Binding {
            id: Id::from_str("gamma"),
            chord: KeyChord::new(vec![KEY_B]),
            kind: ActivationKind::Toggle,
        },
    ]
}

#[test]
fn no_keys_no_match() {
    let m = ActionMatcher::new(manifest());
    assert_eq!(m.current_match(), None);
}

#[test]
fn single_key_matches_its_binding() {
    let mut m = ActionMatcher::new(manifest());
    assert!(m.key_pressed(KEY_A));
    assert_eq!(m.current_match(), Some(0));
}

#[test]
fn longest_held_chord_wins() {
    let mut m = ActionMatcher::new(manifest());
    m.key_pressed(KEY_A);
    assert_eq!(m.current_match(), Some(0));
    // With A and B held, the two-key chord beats both one-key chords.
    assert!(m.key_pressed(KEY_B));
    assert_eq!(m.current_match(), Some(1));
}

#[test]
fn two_key_chord_beats_singles_in_any_order() {
    // With only B held, "gamma" alone matches; once A joins, the
    // two-key chord is satisfied as well and beats both singles.
    let mut m = ActionMatcher::new(manifest());
    m.key_pressed(KEY_B);
    assert_eq!(m.current_match(), Some(2));
    m.key_pressed(KEY_A);
    // Both one-key chords are satisfied and the two-key chord as well;
    // the two-key chord is longest.
    assert_eq!(m.current_match(), Some(1));
}

#[test]
fn equal_length_first_declared_wins() {
    let two_equal = vec![
        Binding {
            id: Id::from_str("first"),
            chord: KeyChord::new(vec![KEY_A]),
            kind: ActivationKind::Hold,
        },
        Binding {
            id: Id::from_str("second"),
            chord: KeyChord::new(vec![KEY_A]),
            kind: ActivationKind::Hold,
        },
    ];
    let mut m = ActionMatcher::new(two_equal);
    m.key_pressed(KEY_A);
    assert_eq!(m.current_match(), Some(0));
}

#[test]
fn release_recomputes_from_post_removal_set() {
    let mut m = ActionMatcher::new(manifest());
    m.key_pressed(KEY_A);
    m.key_pressed(KEY_B);
    assert_eq!(m.current_match(), Some(1));
    assert!(m.key_released(KEY_B));
    assert_eq!(m.current_match(), Some(0));
    assert!(m.key_released(KEY_A));
    assert_eq!(m.current_match(), None);
}

#[test]
fn match_is_pure_function_of_held_set() {
    // Two different event histories that end in the same held set
    // resolve to the same match.
    let mut m1 = ActionMatcher::new(manifest());
    m1.key_pressed(KEY_A);
    m1.key_pressed(KEY_C);
    m1.key_pressed(KEY_B);
    m1.key_released(KEY_C);

    let mut m2 = ActionMatcher::new(manifest());
    m2.key_pressed(KEY_B);
    m2.key_pressed(KEY_B);
    m2.key_pressed(KEY_A);

    assert_eq!(m1.current_match(), m2.current_match());
    assert_eq!(m1.current_match(), Some(1));
}

#[test]
fn repeated_press_changes_nothing() {
    let mut m = ActionMatcher::new(manifest());
    assert!(m.key_pressed(KEY_A));
    assert!(!m.key_pressed(KEY_A));
    assert_eq!(m.current_match(), Some(0));
}

#[test]
fn unknown_key_release_is_benign() {
    let mut m = ActionMatcher::new(manifest());
    assert!(!m.key_released(KEY_C));
    assert_eq!(m.current_match(), None);
}
