use game_of_life::grid::GridError;
use game_of_life::session::{SessionError, Simulation};

fn bits(cells: &[bool]) -> String {
    cells.iter().map(|&c| if c { '1' } else { '0' }).collect()
}

fn session(width: u32, height: u32) -> Simulation {
    match Simulation::new(width, height, 112, 6432) {
        Ok(session) => session,
        Err(error) => panic!("no session: {:?}", error),
    }
}

#[test]
fn new_session_is_dead_and_paused() {
    let s = session(4, 3);
    assert_eq!((s.width(), s.height()), (4, 3));
    assert!(!s.is_running());
    assert!(!s.brush());
    assert_eq!(s.cells(), &vec![false; 12]);
}

#[test]
fn new_session_errors() {
    assert_eq!(
        Simulation::new(0, 3, 1, 1).err(),
        Some(SessionError::Grid(GridError::ZeroDimension))
    );
    assert_eq!(
        Simulation::new(u32::MAX, 3, 1, 1).err(),
        Some(SessionError::Grid(GridError::TooLarge))
    );
    assert_eq!(Simulation::new(3, 3, 0, 0).err(), Some(SessionError::ZeroSeed));
    assert_eq!(
        Simulation::new(0, 3, 0, 0).err(),
        Some(SessionError::Grid(GridError::ZeroDimension))
    );
}

#[test]
fn playback_flag() {
    let mut s = session(2, 2);
    s.set_running(true);
    assert!(s.is_running());
    assert_eq!(s.toggle_running(), false);
    assert!(!s.is_running());
    assert_eq!(s.toggle_running(), true);
    assert!(s.is_running());
    s.set_running(false);
    assert!(!s.is_running());
}

#[test]
fn every_edit_pauses() {
    let mut s = session(3, 3);
    s.set_running(true);
    s.set(1, 1, true);
    assert!(!s.is_running());
    s.set_running(true);
    s.set(9, 9, true);
    assert!(!s.is_running());
    s.set_running(true);
    s.toggle(0, 0);
    assert!(!s.is_running());
    s.set_running(true);
    s.clear();
    assert!(!s.is_running());
    s.set_running(true);
    s.randomize();
    assert!(!s.is_running());
    s.set_running(true);
    assert_eq!(s.resize(4, 4), Ok(()));
    assert!(!s.is_running());
    s.set_running(true);
    assert_eq!(s.resize(0, 4), Err(GridError::ZeroDimension));
    assert!(!s.is_running());
    s.set_running(true);
    s.begin_stroke(1, 1);
    assert!(!s.is_running());
    s.set_running(true);
    s.paint(1, 1);
    assert!(!s.is_running());
    s.set_running(true);
    s.step();
    assert!(!s.is_running());
}

#[test]
fn tick_advances_only_while_running() {
    let mut s = session(3, 3);
    for x in 0..3 {
        s.set(x, 1, true);
    }
    s.tick();
    assert_eq!(bits(s.cells()), "000111000");
    s.set_running(true);
    s.tick();
    assert_eq!(bits(s.cells()), "010010010");
    assert!(s.is_running());
    s.tick();
    assert_eq!(bits(s.cells()), "000111000");
    s.step();
    assert_eq!(bits(s.cells()), "010010010");
    assert!(!s.is_running());
    s.tick();
    assert_eq!(bits(s.cells()), "010010010");
}

#[test]
fn session_toggle_twice() {
    let mut s = session(3, 2);
    s.set(2, 1, true);
    let before = s.cells().clone();
    assert_eq!(s.toggle(2, 1), false);
    assert_eq!(s.toggle(2, 1), true);
    assert_eq!(s.cells(), &before);
    assert_eq!(s.toggle(0, 0), true);
    assert_eq!(s.toggle(0, 0), false);
    assert_eq!(s.cells(), &before);
    assert_eq!(s.toggle(3, 0), false);
    assert_eq!(s.toggle(3, 0), false);
    assert_eq!(s.cells(), &before);
}

#[test]
fn session_randomize_is_reproducible() {
    let mut a = session(6, 4);
    let mut b = session(6, 4);
    a.randomize();
    b.randomize();
    assert_eq!(a.cells(), b.cells());
    assert_eq!(bits(a.cells()), "000000100010111101101110");
    a.randomize();
    b.randomize();
    assert_eq!(a.cells(), b.cells());
    assert_ne!(bits(a.cells()), "000000100010111101101110");
}

#[test]
fn session_resize_and_get() {
    let mut s = session(2, 2);
    s.set(1, 1, true);
    assert_eq!(s.resize(3, 3), Ok(()));
    assert_eq!((s.width(), s.height()), (3, 3));
    assert_eq!(s.get(1, 1), Some(true));
    assert_eq!(s.get(2, 2), Some(false));
    assert_eq!(s.get(2, 0), Some(false));
    assert_eq!(s.get(3, 0), None);
    assert_eq!(s.resize(7, 0), Err(GridError::ZeroDimension));
    assert_eq!((s.width(), s.height()), (3, 3));
    assert_eq!(s.get(1, 1), Some(true));
}

#[test]
fn stroke_paints_with_the_opposite_of_the_pressed_cell() {
    let mut s = session(4, 1);
    s.set(2, 0, true);
    s.begin_stroke(0, 0);
    assert!(s.brush());
    assert_eq!(bits(s.cells()), "0010");
    s.paint(0, 0);
    s.paint(1, 0);
    s.paint(2, 0);
    assert_eq!(bits(s.cells()), "1110");
    s.begin_stroke(2, 0);
    assert!(!s.brush());
    s.paint(2, 0);
    s.paint(1, 0);
    s.paint(9, 0);
    assert_eq!(bits(s.cells()), "1000");
}

#[test]
fn stroke_begun_outside_erases() {
    let mut s = session(2, 1);
    s.set(0, 0, true);
    s.begin_stroke(5, 5);
    assert!(!s.brush());
    s.paint(0, 0);
    assert_eq!(bits(s.cells()), "00");
}

#[test]
fn session_clear() {
    let mut s = session(3, 3);
    s.randomize();
    s.clear();
    assert_eq!(s.cells(), &vec![false; 9]);
}
