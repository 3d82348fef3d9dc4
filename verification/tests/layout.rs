use nodo_tui::layout::{LayoutMode, LayoutRotator};

fn kinds(names: &[&str]) -> Vec<String> {
    names.iter().map(|name| name.to_string()).collect()
}

#[test]
fn two_slots_over_three_kinds_rotate_forward() {
    let mut layout = LayoutRotator::new(LayoutMode::Double, kinds(&["ram", "cpu", "logs"]));
    assert_eq!(layout.visible_panels(), vec!["ram", "cpu"]);
    layout.rotate_forward();
    assert_eq!(layout.visible_panels(), vec!["cpu", "logs"]);
    layout.rotate_forward();
    assert_eq!(layout.visible_panels(), vec!["logs", "ram"]);
    layout.rotate_forward();
    assert_eq!(layout.visible_panels(), vec!["ram", "cpu"]);
    assert_eq!(layout.rotation_offset(), 0);
}

#[test]
fn rotating_backward_from_the_start_wraps_to_the_end() {
    let mut layout = LayoutRotator::new(LayoutMode::Double, kinds(&["ram", "cpu", "logs"]));
    layout.rotate_backward();
    assert_eq!(layout.rotation_offset(), 2);
    assert_eq!(layout.visible_panels(), vec!["logs", "ram"]);
    layout.rotate_forward();
    assert_eq!(layout.rotation_offset(), 0);
}

#[test]
fn changing_the_mode_keeps_the_rotation() {
    let mut layout =
        LayoutRotator::new(LayoutMode::Single, kinds(&["ram-usage", "cpu-usage", "tui-logs", "logs"]));
    layout.rotate_forward();
    layout.rotate_forward();
    assert_eq!(layout.visible_panels(), vec!["tui-logs"]);
    layout.set_mode(LayoutMode::Triple);
    assert_eq!(layout.mode(), LayoutMode::Triple);
    assert_eq!(layout.rotation_offset(), 2);
    assert_eq!(layout.visible_panels(), vec!["tui-logs", "logs", "ram-usage"]);
}

#[test]
fn hidden_mode_shows_nothing() {
    let layout = LayoutRotator::new(LayoutMode::Hidden, kinds(&["ram", "cpu"]));
    assert!(layout.visible_panels().is_empty());
}

#[test]
fn more_slots_than_kinds_repeat_the_kinds() {
    let layout = LayoutRotator::new(LayoutMode::Triple, kinds(&["ram", "cpu"]));
    assert_eq!(layout.visible_panels(), vec!["ram", "cpu", "ram"]);
}

#[test]
fn each_mode_has_its_slots() {
    assert_eq!(LayoutMode::Hidden.slots(), Vec::<u16>::new());
    assert_eq!(LayoutMode::Single.slots(), vec![25]);
    assert_eq!(LayoutMode::Double.slots(), vec![25, 25]);
    assert_eq!(LayoutMode::Triple.slots(), vec![25, 25, 25]);
    assert_eq!(LayoutMode::HalfAndQuarter.slots(), vec![50, 25]);
    assert_eq!(LayoutMode::Tall.slots(), vec![75]);
    for mode in [
        LayoutMode::Hidden,
        LayoutMode::Single,
        LayoutMode::Double,
        LayoutMode::Triple,
        LayoutMode::HalfAndQuarter,
        LayoutMode::Tall,
    ] {
        assert_eq!(mode.slot_count(), mode.slots().len());
    }
}

#[test]
fn modes_follow_each_other_in_a_ring() {
    let mut mode = LayoutMode::Hidden;
    let mut seen = Vec::new();
    for _ in 0..6 {
        mode = mode.next();
        seen.push(mode);
    }
    assert_eq!(
        seen,
        vec![
            LayoutMode::Single,
            LayoutMode::Double,
            LayoutMode::Triple,
            LayoutMode::HalfAndQuarter,
            LayoutMode::Tall,
            LayoutMode::Hidden,
        ]
    );
}
