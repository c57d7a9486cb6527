use lumglut::in_utils::{Colors, Semantics, TessMethod};
use lumglut::win_data::WinData;

#[test]
fn tess_method_toggle_cycles() {
    let m = TessMethod::Direct;
    let m = m.toggle();
    assert_eq!(m, TessMethod::Indexed);
    let m = m.toggle();
    assert_eq!(m, TessMethod::DirectDeinter);
    let m = m.toggle();
    assert_eq!(m, TessMethod::IndexedDeinter);
    let m = m.toggle();
    assert_eq!(m, TessMethod::Direct);
}

#[test]
fn win_data_starts_clean() {
    let d = WinData::new();
    assert!(!d.need_redraw());
    assert_eq!(d.get_mode(), TessMethod::Direct);
}

#[test]
fn win_data_redraw_round_trip() {
    let mut d = WinData::new();
    d.toggle();
    assert!(d.need_redraw());
    d.redrawed();
    assert!(!d.need_redraw());
}

#[test]
fn win_data_next_mode_keeps_redraw_flag() {
    let mut d = WinData::new();
    d.toggle();
    d.next_mode();
    assert_eq!(d.get_mode(), TessMethod::Indexed);
    assert!(d.need_redraw());
    d.next_mode();
    d.next_mode();
    d.next_mode();
    assert_eq!(d.get_mode(), TessMethod::Direct);
}

#[test]
fn vertex_semantics_are_distinct() {
    assert_ne!(Semantics::Position, Semantics::Color);
    assert_eq!(Semantics::Position, Semantics::Position);
}

#[test]
fn colors_carry_their_channels() {
    let c = Colors { color: [12, 255, 0] };
    assert_eq!(c.color, [12, 255, 0]);
    let d = c;
    assert_eq!(d, c);
}
