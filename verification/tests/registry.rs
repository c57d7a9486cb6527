use lumglut::winger::{CtxCurrWrapper, WinError, WinManager, WinSurface};

fn fresh_manager() -> WinManager {
    WinManager::new().expect("creating an empty registry cannot fail")
}

#[test]
fn insert_first_window_becomes_current() {
    let mut m = fresh_manager();
    assert_eq!(m.len(), 0);
    assert_eq!(m.current_window(), None);

    let a = WinSurface::new(1, 101);
    assert_eq!(m.insert_window(a), Ok(1));
    assert_eq!(m.len(), 1);
    assert_eq!(m.current_window(), Some(1));
    assert!(!m.needs_transition(1));
}

#[test]
fn insert_second_window_demotes_first() {
    let mut m = fresh_manager();
    m.insert_window(WinSurface::new(1, 101)).unwrap();
    m.insert_window(WinSurface::new(2, 202)).unwrap();

    assert_eq!(m.len(), 2);
    assert_eq!(m.current_window(), Some(2));
    // The first window's context is no longer usable for drawing.
    assert_eq!(m.window(1).unwrap().back_buffer(), Err(WinError::WinInternError));
    assert_eq!(m.window(2).unwrap().back_buffer(), Ok(202));
}

#[test]
fn insert_not_current_context_is_refused() {
    let mut m = fresh_manager();
    let mut s = WinSurface::new(3, 303);
    *s.ctx() = CtxCurrWrapper::NotCurrent(303);

    assert_eq!(m.insert_window(s), Err(WinError::WinInternError));
    assert_eq!(m.len(), 0);
    assert_eq!(m.current_window(), None);
}

#[test]
fn reinserting_a_window_replaces_its_entry() {
    let mut m = fresh_manager();
    m.insert_window(WinSurface::new(1, 101)).unwrap();
    assert_eq!(m.insert_window(WinSurface::new(1, 111)), Ok(1));

    assert_eq!(m.len(), 1);
    assert_eq!(m.current_window(), Some(1));
    assert_eq!(m.window(1).unwrap().back_buffer(), Ok(111));
}

#[test]
fn acquire_current_window_needs_no_transition() {
    let mut m = fresh_manager();
    m.insert_window(WinSurface::new(1, 101)).unwrap();

    assert!(!m.needs_transition(1));
    // No native call was made, so no outcome is meaningful; even a failure
    // report is ignored when no transition was needed.
    assert_eq!(m.get_current(1, false), Ok(101));
    assert_eq!(m.current_window(), Some(1));
    // A second acquire in a row behaves identically.
    assert!(!m.needs_transition(1));
    assert_eq!(m.get_current(1, false), Ok(101));
    assert_eq!(m.current_window(), Some(1));
}

#[test]
fn acquire_switches_current_on_success() {
    let mut m = fresh_manager();
    m.insert_window(WinSurface::new(1, 101)).unwrap();
    m.insert_window(WinSurface::new(2, 202)).unwrap();

    assert!(m.needs_transition(1));
    assert_eq!(m.get_current(1, true), Ok(101));
    assert_eq!(m.current_window(), Some(1));
    assert_eq!(m.window(1).unwrap().back_buffer(), Ok(101));
    assert_eq!(m.window(2).unwrap().back_buffer(), Err(WinError::WinInternError));
}

#[test]
fn acquire_failure_preserves_prior_state() {
    let mut m = fresh_manager();
    m.insert_window(WinSurface::new(1, 101)).unwrap();
    m.insert_window(WinSurface::new(2, 202)).unwrap();

    assert_eq!(m.get_current(1, false), Err(WinError::ContextError));
    // The previously current window is untouched by the failed attempt.
    assert_eq!(m.current_window(), Some(2));
    assert_eq!(m.window(2).unwrap().back_buffer(), Ok(202));
    // The target kept its handle and can still be acquired later.
    assert_eq!(m.len(), 2);
    assert_eq!(m.get_current(1, true), Ok(101));
}

#[test]
fn handles_are_conserved_across_acquires() {
    let mut m = fresh_manager();
    m.insert_window(WinSurface::new(1, 101)).unwrap();
    m.insert_window(WinSurface::new(2, 202)).unwrap();
    m.insert_window(WinSurface::new(3, 303)).unwrap();

    assert_eq!(m.get_current(1, true), Ok(101));
    assert_eq!(m.get_current(2, false), Err(WinError::ContextError));
    assert_eq!(m.get_current(2, true), Ok(202));
    assert_eq!(m.get_current(3, true), Ok(303));
    assert_eq!(m.get_current(1, true), Ok(101));
    assert_eq!(m.len(), 3);
}

#[test]
fn remove_current_window_clears_currency() {
    let mut m = fresh_manager();
    m.insert_window(WinSurface::new(1, 101)).unwrap();
    m.insert_window(WinSurface::new(2, 202)).unwrap();

    m.remove_window(2);
    assert_eq!(m.current_window(), None);
    assert_eq!(m.len(), 1);
    assert!(m.contains_window(1));
    assert!(!m.contains_window(2));
}

#[test]
fn remove_other_window_keeps_current() {
    let mut m = fresh_manager();
    m.insert_window(WinSurface::new(1, 101)).unwrap();
    m.insert_window(WinSurface::new(2, 202)).unwrap();

    m.remove_window(1);
    assert_eq!(m.current_window(), Some(2));
    assert_eq!(m.len(), 1);
}

#[test]
fn remove_unknown_window_changes_nothing() {
    let mut m = fresh_manager();
    m.insert_window(WinSurface::new(1, 101)).unwrap();

    m.remove_window(9);
    assert_eq!(m.len(), 1);
    assert_eq!(m.current_window(), Some(1));
}

#[test]
fn full_multi_window_scenario() {
    // Empty registry.
    let mut m = fresh_manager();
    assert_eq!(m.current_window(), None);

    // Insert window A, whose construction bound its context.
    m.insert_window(WinSurface::new(1, 101)).unwrap();
    assert_eq!(m.current_window(), Some(1));

    // Insert window B: A is demoted, B becomes current.
    m.insert_window(WinSurface::new(2, 202)).unwrap();
    assert_eq!(m.current_window(), Some(2));
    assert_eq!(m.window(1).unwrap().back_buffer(), Err(WinError::WinInternError));

    // Acquire A successfully: B is demoted, A becomes current.
    assert!(m.needs_transition(1));
    assert_eq!(m.get_current(1, true), Ok(101));
    assert_eq!(m.current_window(), Some(1));
    assert_eq!(m.window(2).unwrap().back_buffer(), Err(WinError::WinInternError));

    // Remove A: nothing is current, only B's (unbound) entry remains.
    m.remove_window(1);
    assert_eq!(m.current_window(), None);
    assert_eq!(m.len(), 1);
    assert!(m.contains_window(2));
    assert_eq!(m.window(2).unwrap().back_buffer(), Err(WinError::WinInternError));
}

#[test]
fn surface_accessors_report_construction_state() {
    let mut s = WinSurface::new(7, 707);
    assert_eq!(s.id(), 7);
    assert_eq!(s.back_buffer(), Ok(707));
    {
        let c = s.ctx();
        assert!(c.is_current());
        assert_eq!(c.handle(), 707);
    }
    *s.ctx() = CtxCurrWrapper::NotCurrent(707);
    assert!(!s.ctx().is_current());
    assert_eq!(s.ctx().handle(), 707);
    assert_eq!(s.back_buffer(), Err(WinError::WinInternError));
    assert_eq!(s.id(), 7);
}
