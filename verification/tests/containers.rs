use uproc::arena::{naive, sarena, SArena};
use uproc::cell::Cell;
use uproc::refcell::RefCell;
use uproc::scrape::{host_text, next_page_action, star_text, PageAction};

#[test]
fn naive_cycle_walk() {
    naive();
}

#[test]
fn sarena_cycle_walk() {
    sarena();
}

#[test]
fn arena_handles_stay_valid_across_growth() {
    let mut arena: SArena<usize> = SArena::new();
    let mut handles = Vec::new();
    for v in 0..25usize {
        handles.push(arena.allocate(v));
    }
    for (v, h) in handles.iter().enumerate() {
        assert_eq!(*arena.get(*h), v);
    }
    let h7 = handles[7];
    *arena.get_mut(h7) = 700;
    assert_eq!(*arena.get(h7), 700);
    assert_eq!(*arena.get(handles[6]), 6);
    assert_eq!(*arena.get(handles[8]), 8);
}

#[test]
fn cell_set_and_get() {
    let mut cell = Cell::new(1u32);
    assert_eq!(cell.get(), 1);
    cell.set(5);
    assert_eq!(cell.get(), 5);
}

#[test]
fn refcell_shared_borrows_count() {
    let mut rc = RefCell::new(10u32);
    let t1 = rc.borrow().unwrap();
    let t2 = rc.borrow().unwrap();
    assert!(rc.borrow_mut().is_none());
    assert_eq!(*rc.read(), 10);
    rc.unborrow(t1);
    assert!(rc.borrow_mut().is_none());
    rc.unborrow(t2);
    let m = rc.borrow_mut().unwrap();
    assert!(rc.borrow().is_none());
    rc.write(&m, 99);
    assert_eq!(*rc.read(), 99);
    rc.unborrow_mut(m);
    assert!(rc.borrow().is_some());
}

#[test]
fn refcell_reads_in_any_state() {
    let rc = RefCell::new(0u8);
    assert_eq!(*rc.read(), 0);
}

#[test]
fn pagination_rule() {
    assert_eq!(next_page_action(true, true), PageAction::ScrapeAndAdvance);
    assert_eq!(next_page_action(true, false), PageAction::Stop);
    assert_eq!(next_page_action(false, true), PageAction::ScrapeOnly);
    assert_eq!(next_page_action(false, false), PageAction::ScrapeOnly);
}

#[test]
fn host_text_prefers_the_nested_place() {
    assert_eq!(
        host_text(Some("inner".to_string()), Some("outer".to_string())),
        Some("inner".to_string())
    );
    assert_eq!(host_text(None, Some("outer".to_string())), Some("outer".to_string()));
    assert_eq!(host_text(None, None), None);
}

#[test]
fn star_text_defaults_when_missing() {
    assert_eq!(star_text(Some("4.93".to_string())), "4.93");
    assert_eq!(star_text(None), "no rating");
}
