//! The terminal session.
//!
//! A `Term` stands for the engine's hold on the terminal. It performs no
//! I/O itself: each operation answers with the `Request` that the caller is
//! to carry out on the engine, and takes as arguments what the engine
//! returned. What is decided here is which call the engine gets, with which
//! arguments, and that it is shut down once and only once.

use crate::event::{event_of, translate, Event, RawEvent};
use crate::failure::Failure;
use crate::style::{fg_word, pack_fg, Color, Face};
use crate::wire::{
    c_int_of_u32, c_int_of_usize, low_c_int, low_u8, sign_extended, u8_of_c_int, usize_of_c_int,
};
use libc::c_int;
use vstd::prelude::*;

verus! {

/// One call of the engine, with its arguments.
#[must_use]
#[derive(PartialEq, Eq, Structural, Clone, Copy, Debug)]
pub enum Request {
    /// Blank the back buffer.
    Clear,
    /// Bring what was drawn since the last time to the terminal.
    Present,
    /// Put the character `ch` into the cell at column `x` and row `y`, with
    /// the foreground word `fg` and the background word `bg`.
    ChangeCell { x: c_int, y: c_int, ch: u32, fg: u16, bg: u16 },
    /// Move the terminal's cursor to column `x` and row `y`.
    SetCursor { x: c_int, y: c_int },
    /// Wait for the next event, however long it takes.
    PollEvent,
    /// Wait for the next event, `timeout` milliseconds at most.
    PeekEvent { timeout: c_int },
    /// Give the terminal back.
    Shutdown,
}

/// How often `requests` asks for a shutdown.
pub open spec fn shutdown_count(requests: Seq<Request>) -> nat
    decreases requests.len(),
{
    if requests.len() == 0 {
        0
    } else {
        shutdown_count(requests.drop_last()) + if requests.last() == Request::Shutdown {
            1nat
        } else {
            0nat
        }
    }
}

/// The request that asks the engine for the next event: a wait without
/// end where there is no timeout, and otherwise a wait of that many
/// milliseconds at most.
pub open spec fn poll_request(timeout: Option<u32>) -> Request {
    match timeout {
        Some(t) => Request::PeekEvent { timeout: low_c_int(t as int) },
        None => Request::PollEvent,
    }
}

/// What the outcome of a wait for an event means.
///
/// A negative status is a failure of the engine. Any other status names
/// the kind of the event in its low byte, and the record is read as one of
/// that kind. The kind that the record itself holds is not consulted: the
/// status is the engine's word on what happened.
pub open spec fn poll_outcome(status: c_int, ev: RawEvent) -> Result<Option<Event>, ()> {
    if status < 0 {
        Err(())
    } else {
        event_of(RawEvent { kind: low_u8(status as int), ..ev })
    }
}

/// An open or closed session. There is no way to copy one, and none to
/// open a closed one again.
pub struct Term {
    open: bool,
    issued: Ghost<Seq<Request>>,
}

impl Term {
    /// What holds of every session: it has not asked for a shutdown while
    /// it is open, and once it is closed the shutdown is the last thing it
    /// asked for, and the only one of its kind.
    #[verifier::type_invariant]
    pub closed spec fn wf(&self) -> bool {
        if self.open {
            shutdown_count(self.issued@) == 0
        } else {
            &&& self.issued@.len() > 0
            &&& self.issued@.last() == Request::Shutdown
            &&& shutdown_count(self.issued@.drop_last()) == 0
        }
    }

    /// Whether the session is open.
    pub closed spec fn spec_is_open(&self) -> bool {
        self.open
    }

    /// The requests that the session has issued since it was opened, in
    /// their order.
    pub closed spec fn requests(&self) -> Seq<Request> {
        self.issued@
    }

    /// Opens a session on the status that the engine's initialization
    /// returned: there is a session if and only if the status is not
    /// negative, and otherwise the failure that the status stands for.
    pub fn init(status: c_int) -> (r: Result<Term, Failure>)
        ensures
            status >= 0 ==> (r matches Ok(t) && t.spec_is_open() && t.requests()
                == Seq::<Request>::empty()),
            status < 0 ==> (r matches Err(e) && Some(e) == Failure::spec_from_status(status)),
    {
        match Failure::from_status(status) {
            None => Ok(Term { open: true, issued: Ghost(Seq::empty()) }),
            Some(e) => Err(e),
        }
    }

    /// Whether the session is open.
    #[verifier::when_used_as_spec(spec_is_open)]
    pub fn is_open(&self) -> (r: bool)
        ensures
            r == self.spec_is_open(),
    {
        self.open
    }

    /// Notes that the session asks for `request`.
    fn issue(&mut self, request: Request)
        requires
            old(self).spec_is_open(),
            request != Request::Shutdown,
        ensures
            final(self).spec_is_open(),
            final(self).requests() == old(self).requests().push(request),
    {
        proof {
            use_type_invariant(&*self);
            assert(self.issued@.push(request).drop_last() =~= self.issued@);
        }
        self.issued = Ghost(self.issued@.push(request));
    }

    /// The number of columns of the terminal, from the engine's answer to
    /// the question for its width.
    pub fn width(&self, columns: c_int) -> (r: usize)
        requires
            self.spec_is_open(),
        ensures
            r == sign_extended(columns),
            columns >= 0 ==> r == columns,
    {
        usize_of_c_int(columns)
    }

    /// The number of rows of the terminal, from the engine's answer to the
    /// question for its height.
    pub fn height(&self, rows: c_int) -> (r: usize)
        requires
            self.spec_is_open(),
        ensures
            r == sign_extended(rows),
            rows >= 0 ==> r == rows,
    {
        usize_of_c_int(rows)
    }

    /// Asks the engine to blank the back buffer.
    pub fn clear(&mut self) -> (r: Request)
        requires
            old(self).spec_is_open(),
        ensures
            r == Request::Clear,
            final(self).spec_is_open(),
            final(self).requests() == old(self).requests().push(r),
    {
        self.issue(Request::Clear);
        Request::Clear
    }

    /// Asks the engine to bring what was drawn to the terminal.
    pub fn freshen(&mut self) -> (r: Request)
        requires
            old(self).spec_is_open(),
        ensures
            r == Request::Present,
            final(self).spec_is_open(),
            final(self).requests() == old(self).requests().push(r),
    {
        self.issue(Request::Present);
        Request::Present
    }

    /// Asks the engine to put the character `x` into the cell at column
    /// `x_pos` and row `y_pos`, in the color `fg` with the attributes of
    /// `face`, on the color `bg`. Whether there is such a cell is left to
    /// the engine.
    pub fn print_char(
        &mut self,
        x_pos: usize,
        y_pos: usize,
        face: Face,
        fg: Color,
        bg: Color,
        x: char,
    ) -> (r: Request)
        requires
            old(self).spec_is_open(),
        ensures
            r == (Request::ChangeCell {
                x: low_c_int(x_pos as int),
                y: low_c_int(y_pos as int),
                ch: x as u32,
                fg: fg_word(fg, face),
                bg: bg.spec_code(),
            }),
            final(self).spec_is_open(),
            final(self).requests() == old(self).requests().push(r),
    {
        let r = Request::ChangeCell {
            x: c_int_of_usize(x_pos),
            y: c_int_of_usize(y_pos),
            ch: x as u32,
            fg: pack_fg(fg, face),
            bg: bg.code(),
        };
        self.issue(r);
        r
    }

    /// Asks the engine to move the cursor to column `x` and row `y`.
    pub fn set_cursor(&mut self, x: usize, y: usize) -> (r: Request)
        requires
            old(self).spec_is_open(),
        ensures
            r == (Request::SetCursor { x: low_c_int(x as int), y: low_c_int(y as int) }),
            final(self).spec_is_open(),
            final(self).requests() == old(self).requests().push(r),
    {
        let r = Request::SetCursor { x: c_int_of_usize(x), y: c_int_of_usize(y) };
        self.issue(r);
        r
    }

    /// Asks the engine for the next event: without a timeout it is to
    /// wait until there is one, with a timeout that many milliseconds at
    /// most.
    pub fn poll(&mut self, timeout: Option<u32>) -> (r: Request)
        requires
            old(self).spec_is_open(),
        ensures
            r == poll_request(timeout),
            final(self).spec_is_open(),
            final(self).requests() == old(self).requests().push(r),
    {
        let r = match timeout {
            Some(t) => Request::PeekEvent { timeout: c_int_of_u32(t) },
            None => Request::PollEvent,
        };
        self.issue(r);
        r
    }

    /// Reads what the engine returned from a wait for an event: its status
    /// and the record that it was given to fill. `Ok(None)` means that
    /// nothing happened; an error leaves the session open.
    pub fn next_event(&mut self, status: c_int, ev: RawEvent) -> (r: Result<Option<Event>, ()>)
        requires
            old(self).spec_is_open(),
        ensures
            r == poll_outcome(status, ev),
            status < 0 ==> r is Err,
            status == 0 ==> r == Ok::<Option<Event>, ()>(None),
            final(self).spec_is_open(),
            final(self).requests() == old(self).requests(),
    {
        if status < 0 {
            Err(())
        } else {
            translate(
                RawEvent {
                    kind: u8_of_c_int(status),
                    key_code: ev.key_code,
                    codepoint: ev.codepoint,
                    width: ev.width,
                    height: ev.height,
                },
            )
        }
    }

    /// Ends the session. The first call on a session answers with the
    /// request to shut the engine down; on a closed session there is
    /// nothing left to do.
    #[must_use]
    pub fn close(&mut self) -> (r: Option<Request>)
        ensures
            !final(self).spec_is_open(),
            old(self).spec_is_open() ==> r == Some(Request::Shutdown) && final(self).requests()
                == old(self).requests().push(Request::Shutdown),
            !old(self).spec_is_open() ==> r is None && final(self).requests() == old(
                self,
            ).requests(),
            shutdown_count(final(self).requests()) == 1,
    {
        proof {
            use_type_invariant(&*self);
            Self::lemma_shutdown_once(*self);
        }
        if self.open {
            proof {
                assert(self.issued@.push(Request::Shutdown).drop_last() =~= self.issued@);
            }
            *self = Term { open: false, issued: Ghost(self.issued@.push(Request::Shutdown)) };
            Some(Request::Shutdown)
        } else {
            None
        }
    }

    /// Over its whole life a session asks for the shutdown once: not at
    /// all while it is open, and exactly once, as its last request, by the
    /// time it is closed.
    pub proof fn lemma_shutdown_once(t: Term)
        requires
            t.wf(),
        ensures
            t.spec_is_open() ==> shutdown_count(t.requests()) == 0,
            !t.spec_is_open() ==> shutdown_count(t.requests()) == 1 && t.requests().len() > 0
                && t.requests().last() == Request::Shutdown,
    {
    }
}

} // verus!
