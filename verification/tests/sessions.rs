use std::cell::RefCell;
use std::rc::Rc;
use term_session::failure::{EFAILED_TO_OPEN_TTY, EPIPE_TRAP_ERROR, EUNSUPPORTED_TERMINAL};
use term_session::{Color, Event, Face, Failure, Key, RawEvent, Request, Term};

/// Stands in for the engine: it notes the calls that reach it.
struct Engine {
    calls: Vec<Request>,
    shutdowns: usize,
    next_status: i32,
}

impl Engine {
    fn shared(next_status: i32) -> Rc<RefCell<Engine>> {
        Rc::new(RefCell::new(Engine { calls: Vec::new(), shutdowns: 0, next_status }))
    }

    fn perform(&mut self, request: Request) -> i32 {
        if request == Request::Shutdown {
            self.shutdowns += 1;
        }
        self.calls.push(request);
        self.next_status
    }
}

/// A session on the stand-in engine, which closes itself when it goes.
struct Session {
    term: Term,
    engine: Rc<RefCell<Engine>>,
}

impl Session {
    fn open(engine: &Rc<RefCell<Engine>>, status: i32) -> Result<Session, Failure> {
        Term::init(status).map(|term| Session { term, engine: engine.clone() })
    }

    fn draw(&mut self) {
        let clear = self.term.clear();
        self.engine.borrow_mut().perform(clear);
        let cell = self.term.print_char(0, 0, Face::empty(), Color::White, Color::Black, 'x');
        self.engine.borrow_mut().perform(cell);
        let present = self.term.freshen();
        self.engine.borrow_mut().perform(present);
    }

    fn wait(&mut self) -> Result<Option<Event>, ()> {
        let request = self.term.poll(None);
        let status = self.engine.borrow_mut().perform(request);
        self.term.next_event(status, blank())
    }
}

impl Drop for Session {
    fn drop(&mut self) {
        if let Some(request) = self.term.close() {
            self.engine.borrow_mut().perform(request);
        }
    }
}

fn blank() -> RawEvent {
    RawEvent { kind: 0, key_code: 0, codepoint: 0, width: 0, height: 0 }
}

fn open() -> Term {
    Term::init(0).unwrap()
}

fn draw_then_fail(engine: &Rc<RefCell<Engine>>) -> Result<(), ()> {
    let mut session = Session::open(engine, 0).map_err(|_| ())?;
    session.draw();
    session.wait()?;
    session.draw();
    Ok(())
}

#[test]
fn named_statuses() {
    assert_eq!(EUNSUPPORTED_TERMINAL, -1);
    assert_eq!(EFAILED_TO_OPEN_TTY, -2);
    assert_eq!(EPIPE_TRAP_ERROR, -3);
}

#[test]
fn failures_from_statuses() {
    assert_eq!(Failure::from_status(-1), Some(Failure::UnsupportedTerminal));
    assert_eq!(Failure::from_status(-2), Some(Failure::FailedToOpenTty));
    assert_eq!(Failure::from_status(-3), Some(Failure::PipeTrapError));
    assert_eq!(Failure::from_status(-4), Some(Failure::Unknown));
    assert_eq!(Failure::from_status(-100), Some(Failure::Unknown));
    assert_eq!(Failure::from_status(i32::MIN), Some(Failure::Unknown));
    assert_eq!(Failure::from_status(0), None);
    assert_eq!(Failure::from_status(1), None);
    assert_eq!(Failure::from_status(i32::MAX), None);
}

#[test]
fn init_fails_on_negative_statuses() {
    assert_eq!(Term::init(-1).err(), Some(Failure::UnsupportedTerminal));
    assert_eq!(Term::init(-2).err(), Some(Failure::FailedToOpenTty));
    assert_eq!(Term::init(-3).err(), Some(Failure::PipeTrapError));
    assert_eq!(Term::init(-4).err(), Some(Failure::Unknown));
    assert_eq!(Term::init(-1000).err(), Some(Failure::Unknown));
    assert_eq!(Term::init(i32::MIN).err(), Some(Failure::Unknown));
}

#[test]
fn init_succeeds_on_other_statuses() {
    for status in [0, 1, 2, 255, 4096, i32::MAX] {
        let term = Term::init(status);
        assert!(term.is_ok(), "status {}", status);
        assert!(term.ok().unwrap().is_open());
    }
}

#[test]
fn dimensions_come_from_the_engine() {
    let term = open();
    assert_eq!(term.width(80), 80);
    assert_eq!(term.height(24), 24);
    assert_eq!(term.width(0), 0);
    assert_eq!(term.height(i32::MAX), i32::MAX as usize);
    assert_eq!(term.width(-1), usize::MAX);
    assert_eq!(term.height(-2), usize::MAX - 1);
    assert_eq!(term.width(i32::MIN), usize::MAX - (i32::MAX as usize));
}

#[test]
fn clear_and_freshen() {
    let mut term = open();
    assert_eq!(term.clear(), Request::Clear);
    assert_eq!(term.freshen(), Request::Present);
    assert!(term.is_open());
}

#[test]
fn print_char_fills_the_cell() {
    let mut term = open();
    assert_eq!(
        term.print_char(3, 4, Face::bold(), Color::Red, Color::Default, 'A'),
        Request::ChangeCell { x: 3, y: 4, ch: 0x41, fg: 0x1001, bg: 0x000F }
    );
    assert_eq!(
        term.print_char(
            0,
            0,
            Face { bold: true, underline: true, reverse: true },
            Color::White,
            Color::Black,
            '\u{1F600}'
        ),
        Request::ChangeCell { x: 0, y: 0, ch: 0x1F600, fg: 0x7007, bg: 0x0000 }
    );
    assert_eq!(
        term.print_char(79, 23, Face::empty(), Color::Default, Color::Blue, ' '),
        Request::ChangeCell { x: 79, y: 23, ch: 0x20, fg: 0x000F, bg: 0x0004 }
    );
}

#[test]
fn coordinates_keep_their_low_bits() {
    let mut term = open();
    assert_eq!(
        term.set_cursor(0x7FFF_FFFF, 0x8000_0000),
        Request::SetCursor { x: i32::MAX, y: i32::MIN }
    );
    assert_eq!(
        term.set_cursor(0xFFFF_FFFF, 0xFFFF_FFFE),
        Request::SetCursor { x: -1, y: -2 }
    );
    assert_eq!(term.set_cursor(usize::MAX, 0), Request::SetCursor { x: -1, y: 0 });
    assert_eq!(
        term.print_char(usize::MAX, 0x8000_0001, Face::empty(), Color::Black, Color::Black, 'a'),
        Request::ChangeCell { x: -1, y: -0x7FFF_FFFF, ch: 0x61, fg: 0, bg: 0 }
    );
}

#[test]
fn set_cursor_moves_the_cursor() {
    let mut term = open();
    assert_eq!(term.set_cursor(10, 20), Request::SetCursor { x: 10, y: 20 });
    assert_eq!(term.set_cursor(0, 0), Request::SetCursor { x: 0, y: 0 });
}

#[test]
fn poll_with_and_without_timeout() {
    let mut term = open();
    assert_eq!(term.poll(None), Request::PollEvent);
    assert_eq!(term.poll(Some(0)), Request::PeekEvent { timeout: 0 });
    assert_eq!(term.poll(Some(250)), Request::PeekEvent { timeout: 250 });
    assert_eq!(term.poll(Some(0x7FFF_FFFF)), Request::PeekEvent { timeout: i32::MAX });
    assert_eq!(term.poll(Some(0x8000_0000)), Request::PeekEvent { timeout: i32::MIN });
    assert_eq!(term.poll(Some(u32::MAX)), Request::PeekEvent { timeout: -1 });
}

#[test]
fn next_event_reads_the_status() {
    let mut term = open();
    let key = RawEvent { kind: 0, key_code: 1, codepoint: 0, width: 120, height: 40 };
    assert_eq!(term.next_event(-1, key), Err(()));
    assert_eq!(term.next_event(i32::MIN, key), Err(()));
    assert_eq!(term.next_event(0, key), Ok(None));
    assert_eq!(term.next_event(1, key), Ok(Some(Event::Key(Key::Ctrl('a')))));
    assert_eq!(term.next_event(2, key), Ok(Some(Event::Resize(120, 40))));
    assert_eq!(term.next_event(3, key), Err(()));
    assert_eq!(term.next_event(255, key), Err(()));
    assert!(term.is_open());
}

#[test]
fn next_event_takes_the_kind_from_the_status() {
    let mut term = open();
    let resize = RawEvent { kind: 2, key_code: 0, codepoint: 0x41, width: 120, height: 40 };
    assert_eq!(term.next_event(1, resize), Ok(Some(Event::Key(Key::Char('A')))));
    assert_eq!(term.next_event(0, resize), Ok(None));
    assert_eq!(term.next_event(256, resize), Ok(None));
    assert_eq!(term.next_event(257, resize), Ok(Some(Event::Key(Key::Char('A')))));
    assert_eq!(term.next_event(258, resize), Ok(Some(Event::Resize(120, 40))));
    assert_eq!(term.next_event(259, resize), Err(()));
}

#[test]
fn next_event_rejects_what_is_no_character() {
    let mut term = open();
    let bad = RawEvent { kind: 1, key_code: 0, codepoint: 0xD800, width: 0, height: 0 };
    assert_eq!(term.next_event(1, bad), Err(()));
    let unknown = RawEvent { kind: 1, key_code: 0x41, codepoint: 0xD800, width: 0, height: 0 };
    assert_eq!(term.next_event(1, unknown), Ok(None));
}

#[test]
fn close_asks_for_one_shutdown() {
    let mut term = open();
    assert!(term.is_open());
    assert_eq!(term.close(), Some(Request::Shutdown));
    assert!(!term.is_open());
    assert_eq!(term.close(), None);
    assert_eq!(term.close(), None);
    assert!(!term.is_open());
}

#[test]
fn one_shutdown_when_a_session_goes() {
    let engine = Engine::shared(0);
    {
        let mut session = Session::open(&engine, 0).unwrap();
        session.draw();
        assert_eq!(session.wait(), Ok(None));
        assert_eq!(engine.borrow().shutdowns, 0);
    }
    assert_eq!(engine.borrow().shutdowns, 1);
    assert_eq!(engine.borrow().calls.last(), Some(&Request::Shutdown));
    assert_eq!(engine.borrow().calls.len(), 5);
}

#[test]
fn one_shutdown_when_a_session_goes_on_an_error() {
    let engine = Engine::shared(-1);
    assert_eq!(draw_then_fail(&engine), Err(()));
    assert_eq!(engine.borrow().shutdowns, 1);
    assert_eq!(
        engine.borrow().calls,
        vec![
            Request::Clear,
            Request::ChangeCell { x: 0, y: 0, ch: 0x78, fg: 0x0007, bg: 0x0000 },
            Request::Present,
            Request::PollEvent,
            Request::Shutdown,
        ]
    );
}

#[test]
fn one_shutdown_when_a_closed_session_goes() {
    let engine = Engine::shared(0);
    {
        let mut session = Session::open(&engine, 0).unwrap();
        let request = session.term.close();
        assert_eq!(request, Some(Request::Shutdown));
        engine.borrow_mut().perform(request.unwrap());
        assert_eq!(engine.borrow().shutdowns, 1);
    }
    assert_eq!(engine.borrow().shutdowns, 1);
}

#[test]
fn no_shutdown_without_a_session() {
    let engine = Engine::shared(0);
    assert_eq!(Session::open(&engine, -2).err(), Some(Failure::FailedToOpenTty));
    assert_eq!(engine.borrow().shutdowns, 0);
    assert!(engine.borrow().calls.is_empty());
}
