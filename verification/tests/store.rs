use x2_feed::eeprom::{EEPROMExt, ACTIVE_PAGE_MARKER, EEPROM};
use x2_feed::flash::{Flash, FlashError, FlashOp};
use x2_feed::menu::{reload_stepper_settings, stepper_settings, Stored, StepperSettings};
use x2_feed::settings::{acceleration, is_reversed, microsteps, pitch, steps_per_inch, traversal};
use x2_feed::stepper::{Motion, State, Stepper, StepperError};

const BASE: u32 = 0x0800_d800;

fn blank(page_size: u32, pages: u32) -> Flash {
    Flash::new(BASE, page_size, vec![0xffff; (page_size / 2 * pages) as usize])
}

fn store(page_size: u32, pages: u32) -> EEPROM {
    let mut e = blank(page_size, pages).eeprom();
    e.init().unwrap();
    e
}

/// Makes the listed changes on a copy of the memory.
fn replay(cells: &mut Vec<u16>, page_size: u32, log: &[FlashOp]) {
    for op in log {
        match *op {
            FlashOp::Program { address, data } => {
                let i = ((address - BASE) / 2) as usize;
                assert_eq!(cells[i], 0xffff, "programmed a half-word that was not erased");
                cells[i] = data;
            }
            FlashOp::ErasePage { address } => {
                assert_eq!((address - BASE) % page_size, 0);
                let i = ((address - BASE) / 2) as usize;
                for c in &mut cells[i..i + (page_size / 2) as usize] {
                    *c = 0xffff;
                }
            }
        }
    }
}

#[test]
fn flash_programs_erased_half_words_only() {
    let mut f = blank(16, 2);
    assert_eq!(f.base(), BASE);
    assert_eq!(f.page_size(), 16);
    assert_eq!(f.len(), 16);
    assert_eq!(f.read(BASE + 6), 0xffff);
    assert_eq!(f.write(BASE + 6, 0x1234), Ok(()));
    assert_eq!(f.read(BASE + 6), 0x1234);
    assert_eq!(f.write(BASE + 6, 0x0000), Err(FlashError::ProgrammingError));
    assert_eq!(f.read(BASE + 6), 0x1234);
    assert_eq!(f.write(BASE + 16, 7), Ok(()));
    assert_eq!(f.page_erase(BASE), Ok(()));
    assert_eq!(f.read(BASE + 6), 0xffff);
    assert_eq!(f.read(BASE + 16), 7);
    assert_eq!(
        f.log().clone(),
        vec![
            FlashOp::Program { address: BASE + 6, data: 0x1234 },
            FlashOp::Program { address: BASE + 16, data: 7 },
            FlashOp::ErasePage { address: BASE },
        ]
    );
    assert_eq!(f.take_log().len(), 3);
    assert!(f.log().is_empty());
    assert_eq!(f.cells()[8], 7);
}

#[test]
fn an_empty_store_holds_nothing() {
    let e = store(1024, 2);
    assert_eq!(e.read(1), None);
    assert_eq!(e.read(0x7fff), None);
    assert!(e.has_room());
    assert_eq!(e.flash().cells()[0], ACTIVE_PAGE_MARKER);
    assert_eq!(
        e.flash().log().clone(),
        vec![FlashOp::Program { address: BASE, data: ACTIVE_PAGE_MARKER }]
    );
}

#[test]
fn values_are_read_as_written() {
    let mut e = store(1024, 2);
    e.write(1, 0xdead).unwrap();
    e.write(2, 0xbeef).unwrap();
    assert_eq!(e.read(1), Some(0xdead));
    assert_eq!(e.read(2), Some(0xbeef));
    assert_eq!(e.read(3), None);
    e.write(1, 0x0001).unwrap();
    assert_eq!(e.read(1), Some(0x0001));
    assert_eq!(e.read(2), Some(0xbeef));
    // The value goes in first, then the tag.
    let log = e.flash().log().clone();
    assert_eq!(log[1], FlashOp::Program { address: BASE + 6, data: 0xdead });
    assert_eq!(log[2], FlashOp::Program { address: BASE + 4, data: 1 });
}

#[test]
fn a_full_page_moves_on_to_the_next() {
    // Four items to a page: the marker and three values.
    let mut e = store(16, 3);
    let mut cells = vec![0xffffu16; 24];
    let mut expect: [Option<u16>; 3] = [None, None, None];
    for round in 0..40u16 {
        let tag = round % 2 + 1;
        assert!(e.has_room());
        e.write(tag, 100 + round).unwrap();
        expect[tag as usize] = Some(100 + round);
        assert_eq!(e.read(1), expect[1]);
        assert_eq!(e.read(2), expect[2]);
        assert_eq!(e.read(3), None);
        let log = e.take_log();
        replay(&mut cells, 16, &log);
        assert_eq!(&cells, e.flash().cells());
    }
    // Exactly one page is marked, and it is not the first any more.
    let marked: Vec<usize> =
        (0..3).filter(|p| e.flash().cells()[p * 8] == ACTIVE_PAGE_MARKER).collect();
    assert_eq!(marked.len(), 1);
}

#[test]
fn a_store_with_as_many_tags_as_items_has_no_room() {
    let mut e = store(16, 2);
    e.write(1, 10).unwrap();
    e.write(2, 20).unwrap();
    assert!(e.has_room());
    e.write(3, 30).unwrap();
    // The page is full, and as full again after its tags are copied.
    assert!(!e.has_room());
    assert_eq!(e.read(1), Some(10));
    assert_eq!(e.read(2), Some(20));
    assert_eq!(e.read(3), Some(30));
}

#[test]
fn init_keeps_the_active_page_and_cleans_the_others() {
    let mut cells = vec![0xffffu16; 24];
    // Page 1 is active and holds 5 under tag 9; the others hold leftovers.
    cells[2] = 0x1111;
    cells[8] = ACTIVE_PAGE_MARKER;
    cells[10] = 9;
    cells[11] = 5;
    cells[16] = 0x2222;
    let mut e = Flash::new(BASE, 16, cells).eeprom();
    assert!(!e.has_room());
    assert_eq!(e.read(9), Some(5));
    e.init().unwrap();
    assert_eq!(e.read(9), Some(5));
    assert!(e.has_room());
    assert_eq!(
        e.flash().log().clone(),
        vec![FlashOp::ErasePage { address: BASE }, FlashOp::ErasePage { address: BASE + 32 }]
    );
    e.write(9, 6).unwrap();
    assert_eq!(e.read(9), Some(6));
}

#[test]
fn init_without_an_active_page_starts_empty() {
    let mut cells = vec![0xffffu16; 16];
    cells[3] = 1;
    cells[9] = 2;
    let mut e = Flash::new(BASE, 16, cells).eeprom();
    assert!(!e.has_room());
    e.init().unwrap();
    assert!(e.has_room());
    assert_eq!(e.read(1), None);
    assert_eq!(e.flash().cells()[0], ACTIVE_PAGE_MARKER);
    assert!(e.flash().cells()[1..].iter().all(|c| *c == 0xffff));
}

#[test]
fn erase_empties_the_store() {
    let mut e = store(16, 2);
    e.write(1, 10).unwrap();
    e.write(2, 20).unwrap();
    e.write(1, 11).unwrap();
    e.write(1, 12).unwrap();
    assert_eq!(e.read(1), Some(12));
    e.erase().unwrap();
    assert_eq!(e.read(1), None);
    assert_eq!(e.read(2), None);
    assert!(e.has_room());
    assert_eq!(e.flash().cells()[0], ACTIVE_PAGE_MARKER);
}

#[test]
fn a_store_over_given_pages() {
    let mut e = EEPROM::new(BASE, 16, 2, blank(16, 2));
    e.init().unwrap();
    e.write(5, 55).unwrap();
    assert_eq!(e.read(5), Some(55));
}

#[test]
fn settings_in_the_store() {
    let mut e = store(1024, 10);
    assert_eq!(pitch().read(&e), 16);
    assert_eq!(steps_per_inch(&e), 16 * 16 * 200);
    pitch().write(&mut e, 20).unwrap();
    microsteps().write(&mut e, 8).unwrap();
    assert_eq!(pitch().read(&e), 20);
    assert_eq!(microsteps().read(&e), 8);
    assert_eq!(steps_per_inch(&e), 20 * 8 * 200);
    // A write is held to the range, and so is what is read.
    pitch().write(&mut e, 1000).unwrap();
    assert_eq!(e.read(4), Some(32));
    assert_eq!(pitch().read(&e), 32);
    e.write(3, 0).unwrap();
    assert_eq!(microsteps().read(&e), 1);
    assert_eq!(steps_per_inch(&e), 32 * 200);
    // The other settings are as they were.
    assert_eq!(acceleration().read(&e), 1200);
    assert_eq!(traversal().read(&e), 10);
    assert_eq!(is_reversed().read(&e), 0);
}

#[test]
fn stepper_settings_from_the_store() {
    let mut e = store(1024, 10);
    let defaults = stepper_settings(Stored::load(&e));
    assert_eq!(
        defaults,
        StepperSettings {
            reversed: false,
            acceleration: (1200 * 16) << 8,
            speed: 10 * 51200 * 256 / 60,
        }
    );
    is_reversed().write(&mut e, 1).unwrap();
    acceleration().write(&mut e, 2400).unwrap();
    microsteps().write(&mut e, 125).unwrap();
    pitch().write(&mut e, 32).unwrap();
    traversal().write(&mut e, 30).unwrap();
    let stored = Stored::load(&e);
    assert_eq!(
        stored,
        Stored {
            reversed: Some(1),
            acceleration: Some(2400),
            microsteps: Some(125),
            traversal: Some(30),
            pitch: Some(32),
        }
    );
    assert_eq!(
        stepper_settings(stored),
        StepperSettings { reversed: true, acceleration: 76_800_000, speed: 102_400_000 }
    );
}

struct NoDriver;

impl x2_feed::driver::StepperDriver for NoDriver {
    fn set_enable(&mut self, _enable: bool) {}
    fn set_timer_output(&mut self, _enable: bool) {}
    fn set_direction(&mut self, _bit: bool) {}
    fn start(&mut self, _first_delay: u16) {}
    fn preload_delay(&mut self, _delay: u16) {}
    fn set_last(&mut self) {}
    fn is_running(&self) -> bool {
        false
    }
    fn interrupt(&mut self) -> bool {
        true
    }
}

#[test]
fn a_stepper_set_up_from_the_store_runs() {
    let e = store(1024, 10);
    let mut stepper = Stepper::new(1_000_000, NoDriver, true);
    assert_eq!(reload_stepper_settings(&mut stepper, Stored::load(&e)), Ok(()));
    assert_eq!(stepper.move_to(3), Ok(()));
    while stepper.state() != State::Stopped {
        stepper.interrupt();
    }
    assert_eq!(stepper.position(), 3);
    // A traverse that the timer cannot do is refused.
    let mut slow = Stepper::new(1_000, NoDriver, true);
    assert_eq!(
        reload_stepper_settings(&mut slow, Stored::load(&e)),
        Err(StepperError::StepgenError(stepgen::Error::TooFast))
    );
    let _ = Motion::new(1_000_000, true);
}

#[test]
fn a_full_page_hands_over_to_the_page_after_it() {
    // Four items to a page: the marker and three values.
    let mut e = store(16, 3);
    assert_eq!(e.active_page(), Some(0));
    for round in 0..3u16 {
        e.write(1, round).unwrap();
        assert_eq!(e.active_page(), Some(0));
    }
    // The page is full: the next write goes to the page after it.
    e.write(2, 7).unwrap();
    assert_eq!(e.active_page(), Some(1));
    assert_eq!(e.read(1), Some(2));
    assert_eq!(e.read(2), Some(7));
    assert!(e.flash().cells()[0..8].iter().all(|c| *c == 0xffff));
    e.write(2, 8).unwrap();
    assert_eq!(e.active_page(), Some(1));
    // Page 1 holds the marker and three items: the next goes to page 2.
    e.write(1, 9).unwrap();
    assert_eq!(e.active_page(), Some(2));
    // And from the last page to the first.
    assert!(e.has_room());
    e.write(3, 1).unwrap();
    assert_eq!(e.active_page(), Some(0));
    assert_eq!(e.read(1), Some(9));
    assert_eq!(e.read(2), Some(8));
    assert_eq!(e.read(3), Some(1));
    // Three tags fill a page of three items for good.
    assert!(!e.has_room());
}
