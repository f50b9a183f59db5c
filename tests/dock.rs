use edge_dock::geometry::{monitor_or_fallback, snap_position, MonitorGeometry, Position, Size};
use edge_dock::style::{click_through_style, LAYERED_STYLE, TRANSPARENT_STYLE};
use edge_dock::toggle::{
    is_toggle_event, toggle_accelerator, toggle_shortcut, KeyPhase, ModifierKeys, Resize,
    Shortcut, ShortcutEvent, ToggleAction, ToggleState,
};

fn full_hd() -> MonitorGeometry {
    MonitorGeometry::new(Position::new(0, 0), Size::new(1920, 1080))
}

fn press(shortcut: Shortcut) -> ShortcutEvent {
    ShortcutEvent { shortcut, phase: KeyPhase::Pressed }
}

/// Runs one toggle the way the application does, against a window of size
/// `window`, and returns the new size and placement.
fn run_toggle(
    state: &mut ToggleState,
    monitor: &MonitorGeometry,
    window: Size,
) -> Option<(ToggleAction, Size, Position)> {
    let action = state.on_shortcut(&press(toggle_shortcut()))?;
    let size = action.resize.target_size(Some(window)).unwrap();
    let position = snap_position(monitor, size).unwrap();
    Some((action, size, position))
}

#[test]
fn snap_places_window_against_right_edge() {
    assert_eq!(snap_position(&full_hd(), Size::new(320, 1000)), Some(Position::new(1600, 0)));
}

#[test]
fn snap_on_offset_monitor() {
    let m = MonitorGeometry::new(Position::new(-1280, 200), Size::new(1280, 1024));
    assert_eq!(snap_position(&m, Size::new(300, 50)), Some(Position::new(-300, 200)));
}

#[test]
fn snap_zero_width_window_sits_on_edge() {
    assert_eq!(snap_position(&full_hd(), Size::new(0, 1000)), Some(Position::new(1920, 0)));
}

#[test]
fn snap_window_wider_than_monitor() {
    assert_eq!(snap_position(&full_hd(), Size::new(2000, 10)), Some(Position::new(-80, 0)));
}

#[test]
fn snap_right_edge_is_flush_for_several_geometries() {
    let cases = [
        (Position::new(0, 0), Size::new(1920, 1080), Size::new(320, 1000)),
        (Position::new(1920, -300), Size::new(2560, 1440), Size::new(17, 3)),
        (Position::new(-3840, 0), Size::new(3840, 2160), Size::new(3840, 2160)),
    ];
    for (pos, msize, wsize) in cases {
        let p = snap_position(&MonitorGeometry::new(pos, msize), wsize).unwrap();
        assert_eq!(p.x as i64 + wsize.width as i64, pos.x as i64 + msize.width as i64);
        assert_eq!(p.y, pos.y);
    }
}

#[test]
fn snap_out_of_coordinate_range_is_none() {
    let m = MonitorGeometry::new(Position::new(i32::MAX, 0), Size::new(10, 10));
    assert_eq!(snap_position(&m, Size::new(5, 5)), None);
    let m = MonitorGeometry::new(Position::new(i32::MIN, 0), Size::new(0, 10));
    assert_eq!(snap_position(&m, Size::new(1, 5)), None);
}

#[test]
fn snap_at_coordinate_limits() {
    let m = MonitorGeometry::new(Position::new(i32::MAX - 10, 7), Size::new(10, 10));
    assert_eq!(snap_position(&m, Size::new(0, 5)), Some(Position::new(i32::MAX, 7)));
    let m = MonitorGeometry::new(Position::new(i32::MIN, 7), Size::new(0, 10));
    assert_eq!(snap_position(&m, Size::new(0, 5)), Some(Position::new(i32::MIN, 7)));
}

#[test]
fn missing_monitor_falls_back_to_full_hd() {
    assert_eq!(monitor_or_fallback(None), full_hd());
    assert_eq!(MonitorGeometry::fallback(), full_hd());
    let m = MonitorGeometry::new(Position::new(5, 6), Size::new(7, 8));
    assert_eq!(monitor_or_fallback(Some(m)), m);
}

#[test]
fn click_through_on_sets_layered_and_transparent() {
    assert_eq!(click_through_style(0, true), 0x0008_0020);
    assert_eq!(click_through_style(0x100, true), 0x0008_0120);
}

#[test]
fn click_through_off_clears_only_transparent() {
    assert_eq!(click_through_style(0x0008_0120, false), 0x0008_0100);
    assert_eq!(click_through_style(0x20, false), 0x0008_0000);
    assert_eq!(click_through_style(-1, false), -1 & !TRANSPARENT_STYLE);
}

#[test]
fn click_through_enable_twice_is_idempotent() {
    for style in [0, 0x20, 0x100, 0x0008_0000, -1, i32::MIN] {
        let once = click_through_style(style, true);
        let twice = click_through_style(once, true);
        assert_eq!(once, twice);
        assert_eq!(twice & TRANSPARENT_STYLE, TRANSPARENT_STYLE);
        let off = click_through_style(twice, false);
        assert_eq!(off, twice & !TRANSPARENT_STYLE);
        assert_eq!(off & LAYERED_STYLE, LAYERED_STYLE);
    }
}

#[test]
fn initial_state_is_expanded_and_interactive() {
    let s = ToggleState::new();
    assert!(s.interactive);
    assert!(!s.collapsed);
    assert!(!s.click_through());
}

#[test]
fn toggle_twice_restores_flags_and_size() {
    let monitor = full_hd();
    let start = ToggleState::new();
    let mut s = start;
    let (_, collapsed, _) = run_toggle(&mut s, &monitor, Size::new(500, 700)).unwrap();
    let (_, expanded, _) = run_toggle(&mut s, &monitor, collapsed).unwrap();
    assert_eq!(s, start);
    assert_eq!(expanded, Size::new(320, 1000));
}

#[test]
fn collapse_keeps_height() {
    let mut s = ToggleState::new();
    let action = s.on_shortcut(&press(toggle_shortcut())).unwrap();
    assert_eq!(action.resize, Resize::Collapse);
    assert_eq!(action.resize.target_size(Some(Size::new(320, 777))), Some(Size::new(0, 777)));
}

#[test]
fn collapse_without_current_size_does_nothing() {
    assert_eq!(Resize::Collapse.target_size(None), None);
}

#[test]
fn expand_is_fixed_size() {
    for prior in [Some(Size::new(0, 5)), Some(Size::new(4000, 4000)), None] {
        assert_eq!(Resize::Expand.target_size(prior), Some(Size::new(320, 1000)));
    }
}

#[test]
fn end_to_end_two_presses() {
    let monitor = monitor_or_fallback(None);
    let window = Size::new(320, 1000);
    assert_eq!(snap_position(&monitor, window), Some(Position::new(1600, 0)));

    let mut s = ToggleState::new();
    let (action, size, pos) = run_toggle(&mut s, &monitor, window).unwrap();
    assert_eq!(action, ToggleAction { click_through: true, resize: Resize::Collapse });
    assert_eq!(size, Size::new(0, 1000));
    assert_eq!(pos, Position::new(1920, 0));
    assert_eq!(s.status_line(), "Window is now click-through and collapsed");

    let (action, size, pos) = run_toggle(&mut s, &monitor, size).unwrap();
    assert_eq!(action, ToggleAction { click_through: false, resize: Resize::Expand });
    assert_eq!(size, Size::new(320, 1000));
    assert_eq!(pos, Position::new(1600, 0));
    assert_eq!(s.status_line(), "Window is now interactive and expanded");
}

#[test]
fn other_combinations_do_nothing() {
    let ctrl_shift_alt = ModifierKeys { control: true, shift: true, alt: true, meta: false };
    let others = [
        press(Shortcut { modifiers: ctrl_shift_alt, key: 'P' }),
        press(Shortcut { modifiers: ModifierKeys { meta: true, ..ctrl_shift_alt }, key: 'O' }),
        press(Shortcut { modifiers: ModifierKeys { alt: false, ..ctrl_shift_alt }, key: 'O' }),
        press(Shortcut { modifiers: ModifierKeys { control: false, ..ctrl_shift_alt }, key: 'O' }),
        press(Shortcut { modifiers: ModifierKeys { shift: false, ..ctrl_shift_alt }, key: 'O' }),
        press(Shortcut { modifiers: ctrl_shift_alt, key: 'o' }),
        ShortcutEvent { shortcut: toggle_shortcut(), phase: KeyPhase::Released },
    ];
    for start in [ToggleState::new(), ToggleState { interactive: false, collapsed: true }] {
        for e in others.iter() {
            let mut s = start;
            assert!(!is_toggle_event(e));
            assert_eq!(s.on_shortcut(e), None);
            assert_eq!(s, start);
        }
    }
}

#[test]
fn toggle_combination_is_ctrl_shift_alt_o() {
    let s = toggle_shortcut();
    assert!(s.modifiers.control && s.modifiers.shift && s.modifiers.alt && !s.modifiers.meta);
    assert_eq!(s.key, 'O');
    assert_eq!(toggle_accelerator(), "ctrl+shift+alt+o");
    assert!(is_toggle_event(&press(s)));
}

#[test]
fn labels_follow_flags() {
    let s = ToggleState::new();
    assert_eq!(s.input_label(), "interactive");
    assert_eq!(s.size_label(), "expanded");
    let t = ToggleState { interactive: false, collapsed: true };
    assert_eq!(t.input_label(), "click-through");
    assert_eq!(t.size_label(), "collapsed");
}
