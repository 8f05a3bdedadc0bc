use mux::domain::{Domain, LocalDomain};
use mux::error::MuxError;
use mux::ids::IdAllocator;
use mux::layout::{SplitDirection, TerminalSize};
use mux::pane::{Pane, WorkingDir};
use mux::registry::Mux;

fn size(rows: u16, cols: u16) -> TerminalSize {
    TerminalSize { rows, cols, pixel_width: 0, pixel_height: 0 }
}

#[test]
fn new_registry_holds_only_its_default_domain() {
    let mut ids = IdAllocator::new();
    let domain = LocalDomain::with_pty_system("local", (), &mut ids).unwrap();
    let mux = Mux::new(domain);
    assert_eq!(mux.default_domain().domain_name(), "local");
    assert_eq!(mux.default_domain_index(), 0);
    assert_eq!(mux.tab_count(), 0);
    assert_eq!(mux.pane_count(), 0);
    assert_eq!(mux.window_count(), 0);
    assert!(mux.get_tab(0).is_none());
    assert!(mux.get_pane(0).is_none());
    assert!(mux.get_window(0).is_none());
    assert!(mux.get_active_tab_for_window(0).is_none());
}

#[test]
fn domains_are_found_by_id_and_by_name() {
    let mut ids = IdAllocator::new();
    let first = LocalDomain::with_pty_system("local", (), &mut ids).unwrap();
    let second = LocalDomain::with_pty_system("other", (), &mut ids).unwrap();
    let third = LocalDomain::with_pty_system("other", (), &mut ids).unwrap();
    let mut mux = Mux::new(first);
    assert!(mux.add_domain(second));
    assert!(mux.add_domain(third));
    assert_eq!(mux.get_domain(1).unwrap().domain_name(), "other");
    assert_eq!(mux.get_domain_by_name("other").unwrap().domain_id(), 1);
    assert_eq!(mux.get_domain_by_name("local").unwrap().domain_id(), 0);
    assert!(mux.get_domain_by_name("loca").is_none());
    assert!(mux.get_domain_by_name("Local").is_none());
    assert!(mux.get_domain(3).is_none());
    assert_eq!(mux.find_domain(2), Some(2));
    assert_eq!(mux.find_domain_named("other"), Some(1));
    assert_eq!(mux.domain_at(2).domain_id(), 2);
}

#[test]
fn domain_with_known_id_is_not_added_again() {
    let mut ids = IdAllocator::new();
    let first = LocalDomain::with_pty_system("local", (), &mut ids).unwrap();
    let mut other_ids = IdAllocator::new();
    let clash = LocalDomain::with_pty_system("clash", (), &mut other_ids).unwrap();
    let mut mux = Mux::new(first);
    assert!(!mux.add_domain(clash));
    assert!(mux.get_domain_by_name("clash").is_none());
}

#[test]
fn windows_get_increasing_ids() {
    let mut ids = IdAllocator::new();
    let mut mux = Mux::new(LocalDomain::with_pty_system("local", (), &mut ids).unwrap());
    assert_eq!(mux.new_empty_window(), Some(0));
    assert_eq!(mux.new_empty_window(), Some(1));
    assert_eq!(mux.window_count(), 2);
    assert_eq!(mux.get_window(1).unwrap().window_id(), 1);
    assert_eq!(mux.get_window(1).unwrap().len(), 0);
}

#[test]
fn pane_must_have_an_id_that_was_handed_out_and_is_free() {
    let mut ids = IdAllocator::new();
    let mut mux = Mux::new(LocalDomain::with_pty_system("local", (), &mut ids).unwrap());
    assert_eq!(mux.add_pane(Pane::new(0, 0)), Err(MuxError::InvalidId));
    let pane = mux.alloc_pane_id().unwrap();
    assert_eq!(mux.add_pane(Pane::new(pane, 0)), Ok(()));
    assert_eq!(mux.add_pane(Pane::new(pane, 0)), Err(MuxError::InvalidId));
    assert_eq!(mux.pane_count(), 1);
    assert_eq!(mux.get_pane(pane).unwrap().pane_id(), pane);
    assert_eq!(mux.get_pane(pane).unwrap().domain_id(), 0);
}

#[test]
fn tab_is_added_to_an_existing_window_only() {
    let mut ids = IdAllocator::new();
    let mut mux = Mux::new(LocalDomain::with_pty_system("local", (), &mut ids).unwrap());
    let window = mux.new_empty_window().unwrap();
    let pane = mux.alloc_pane_id().unwrap();
    let tab = mux.add_tab_and_active_pane(&size(24, 80), Pane::new(pane, 0)).unwrap();
    assert_eq!(mux.add_tab_to_window(tab, window + 1), Err(MuxError::NoSuchWindow(window + 1)));
    assert_eq!(mux.add_tab_to_window(tab + 1, window), Err(MuxError::InvalidId));
    assert_eq!(mux.add_tab_to_window(tab, window), Ok(()));
    assert_eq!(mux.add_tab_to_window(tab, window), Ok(()));
    assert_eq!(mux.get_window(window).unwrap().len(), 1);
    assert_eq!(mux.get_active_tab_for_window(window).unwrap().tab_id(), tab);
    let active = mux.get_active_tab_for_window(window).unwrap();
    assert_eq!(mux.get_active_pane(active).unwrap().pane_id, pane);
}

#[test]
fn active_tab_is_set_by_id() {
    let mut ids = IdAllocator::new();
    let mut mux = Mux::new(LocalDomain::with_pty_system("local", (), &mut ids).unwrap());
    let window = mux.new_empty_window().unwrap();
    let a = mux.alloc_pane_id().unwrap();
    let first = mux.add_tab_and_active_pane(&size(24, 80), Pane::new(a, 0)).unwrap();
    let b = mux.alloc_pane_id().unwrap();
    let second = mux.add_tab_and_active_pane(&size(24, 80), Pane::new(b, 0)).unwrap();
    mux.add_tab_to_window(first, window).unwrap();
    mux.add_tab_to_window(second, window).unwrap();
    assert_eq!(mux.get_window(window).unwrap().get_active(), Some(first));
    assert_eq!(mux.set_active_tab(window, second), Ok(()));
    assert_eq!(mux.get_window(window).unwrap().get_active(), Some(second));
    assert_eq!(mux.set_active_tab(window, 99), Ok(()));
    assert_eq!(mux.get_window(window).unwrap().get_active(), Some(second));
    assert_eq!(mux.set_active_tab(window + 1, first), Err(MuxError::NoSuchWindow(window + 1)));
}

#[test]
fn split_in_registry_names_what_is_wrong() {
    let mut ids = IdAllocator::new();
    let mut mux = Mux::new(LocalDomain::with_pty_system("local", (), &mut ids).unwrap());
    let a = mux.alloc_pane_id().unwrap();
    let tab = mux.add_tab_and_active_pane(&size(2, 80), Pane::new(a, 0)).unwrap();
    let b = mux.alloc_pane_id().unwrap();
    assert_eq!(
        mux.split_and_insert(tab, a, SplitDirection::Vertical, Pane::new(b, 0)),
        Err(MuxError::NoSpace)
    );
    assert_eq!(
        mux.split_and_insert(tab, a, SplitDirection::Horizontal, Pane::new(b + 1, 0)),
        Err(MuxError::InvalidId)
    );
    assert_eq!(
        mux.split_and_insert(tab, a, SplitDirection::Horizontal, Pane::new(b, 0)),
        Ok(1)
    );
    assert_eq!(mux.pane_count(), 2);
}

#[test]
fn attachments_and_working_directory_are_recorded() {
    let mut ids = IdAllocator::new();
    let mut mux = Mux::new(LocalDomain::with_pty_system("local", (), &mut ids).unwrap());
    let pane = mux.alloc_pane_id().unwrap();
    mux.add_pane(Pane::new(pane, 0)).unwrap();
    assert!(!mux.attach_to_pane(pane + 1, true, true, true));
    assert!(mux.attach_to_pane(pane, true, false, false));
    assert!(mux.get_pane(pane).unwrap().has_config);
    assert!(!mux.get_pane(pane).unwrap().has_clipboard);
    assert!(mux.attach_to_pane(pane, false, true, false));
    assert!(mux.get_pane(pane).unwrap().has_config);
    assert!(mux.get_pane(pane).unwrap().has_clipboard);
    assert!(!mux.get_pane(pane).unwrap().has_download_handler);
    let dir = WorkingDir { scheme: "file".to_string(), path: "/x".to_string() };
    assert!(mux.set_pane_working_dir(pane, Some(dir)));
    assert_eq!(mux.get_pane(pane).unwrap().working_dir.as_ref().unwrap().path, "/x");
    assert!(!mux.set_pane_working_dir(pane + 1, None));
}
