//! The session from the first touch of the terminal to the last, as a state
//! machine. The session decides; its caller acts. The caller carries out the
//! pending [`Action`] on the terminal, reports what came of it as an
//! [`Event`], and is told the next action in return.

use vstd::prelude::*;
use crate::boat::Boat;
use crate::draw::{draw, frame, DrawOp};
use crate::motion::{can_reach, mechanics, moved, reachable, Key, QUIT_KEY};
use crate::world::{channel, World, WorldView, CHANNEL_HALF_WIDTH};

verus! {

/// How long one wait for a key lasts, in milliseconds.
pub const POLL_MILLIS: u64 = 10;

/// What the caller is to do on the terminal.
#[derive(Clone, Copy, Debug, PartialEq, Eq, Structural)]
pub enum Action {
    /// Switch the terminal to raw input mode.
    EnableRawMode,
    /// Ask the terminal for its size.
    QuerySize,
    /// Clear the whole screen.
    ClearScreen,
    /// Wait up to [`POLL_MILLIS`] for an input event to arrive.
    PollKey,
    /// Read the input event that has arrived.
    ReadKey,
    /// Carry out the commands of [`Session::frame`].
    Paint,
    /// Switch the terminal back from raw input mode.
    DisableRawMode,
    /// Make the cursor visible.
    ShowCursor,
    /// Leave. Nothing is left to do on the terminal.
    Exit,
}

/// What came of the pending action.
#[derive(Clone, Copy, Debug, PartialEq, Eq)]
pub enum Event {
    /// The action was carried out; it has nothing to tell.
    Done,
    /// The action failed.
    Failed,
    /// The terminal's size, in answer to [`Action::QuerySize`].
    Size { width: u16, height: u16 },
    /// Whether an input event arrived before the wait ran out, in answer to
    /// [`Action::PollKey`].
    Ready(bool),
    /// The key that was read, in answer to [`Action::ReadKey`].
    Input(Key),
}

/// The state of a session. It is made by [`Session::new`] and changed by
/// [`Session::advance`] alone.
#[derive(Debug, PartialEq, Eq)]
pub struct Session {
    pending: Action,
    stop: bool,
    fault: Option<Action>,
    world: World,
    boat: Boat,
}

/// A [`Session`] as plain mathematical values.
pub struct SessionView {
    /// The action that the caller is to carry out next.
    pub pending: Action,
    /// The quit key has been seen.
    pub stop: bool,
    /// The first action that failed, if any did.
    pub fault: Option<Action>,
    pub world: WorldView,
    pub boat: Boat,
}

impl View for Session {
    type V = SessionView;

    open spec fn view(&self) -> SessionView {
        self.model()
    }
}

/// Where the boat starts: the middle column of the bottom row.
pub open spec fn berth(width: u16, height: u16) -> Boat {
    Boat { position_x: width / 2, position_y: (height - 1) as u16 }
}

impl SessionView {
    /// A session that has not touched the terminal yet.
    pub open spec fn fresh() -> SessionView {
        SessionView {
            pending: Action::EnableRawMode,
            stop: false,
            fault: None,
            world: WorldView { width: 0, height: 0, map: Seq::empty() },
            boat: Boat { position_x: 0, position_y: 0 },
        }
    }

    /// The pending action went well: `next` follows.
    pub open spec fn proceed(self, next: Action) -> SessionView {
        SessionView { pending: next, ..self }
    }

    /// The pending action did not go well: it is remembered as the fault,
    /// unless an earlier one is, and `next` follows.
    pub open spec fn fail(self, next: Action) -> SessionView {
        SessionView {
            pending: next,
            fault: if self.fault is None {
                Some(self.pending)
            } else {
                self.fault
            },
            ..self
        }
    }

    /// The wait for a key is over, with `key` or with none: the boat moves as
    /// the key says, the session is to stop if it is the quit key, and the
    /// frame is painted next.
    pub open spec fn keyed(self, key: Option<Key>) -> SessionView {
        SessionView {
            pending: Action::Paint,
            stop: key == Some(Key::Char(QUIT_KEY)),
            boat: moved(self.boat, key, self.world.width, self.world.height),
            ..self
        }
    }

    /// The session after `event` has answered the pending action. An event
    /// that is no answer to the pending action counts as its failure.
    ///
    /// Every failure leads to the way out, which leaves raw mode, shows the
    /// cursor and exits. On that way a failure is remembered and the way is
    /// gone to its end. The quit key leads to the same way out, by way of one
    /// last frame and a cleared screen.
    pub open spec fn after(self, event: Event) -> SessionView {
        match self.pending {
            Action::EnableRawMode => match event {
                Event::Done => self.proceed(Action::QuerySize),
                _ => self.fail(Action::DisableRawMode),
            },
            Action::QuerySize => match event {
                Event::Size { width, height } => SessionView {
                    pending: Action::ClearScreen,
                    world: channel(width, height),
                    boat: berth(width, height),
                    ..self
                },
                _ => self.fail(Action::DisableRawMode),
            },
            Action::ClearScreen => match event {
                Event::Done => self.proceed(
                    if self.stop {
                        Action::DisableRawMode
                    } else {
                        Action::PollKey
                    },
                ),
                _ => self.fail(Action::DisableRawMode),
            },
            Action::PollKey => match event {
                Event::Ready(true) => self.proceed(Action::ReadKey),
                Event::Ready(false) => self.keyed(None),
                _ => self.fail(Action::DisableRawMode),
            },
            Action::ReadKey => match event {
                Event::Input(key) => self.keyed(Some(key)),
                _ => self.fail(Action::DisableRawMode),
            },
            Action::Paint => match event {
                Event::Done => self.proceed(
                    if self.stop {
                        Action::ClearScreen
                    } else {
                        Action::PollKey
                    },
                ),
                _ => self.fail(Action::DisableRawMode),
            },
            Action::DisableRawMode => match event {
                Event::Done => self.proceed(Action::ShowCursor),
                _ => self.fail(Action::ShowCursor),
            },
            Action::ShowCursor => match event {
                Event::Done => self.proceed(Action::Exit),
                _ => self.fail(Action::Exit),
            },
            Action::Exit => self,
        }
    }

    /// The session can take `event`: a size that answers the size query is
    /// wide enough for the channel and has a bottom row, and a key that was
    /// read sends the boat somewhere it can be.
    pub open spec fn admits(self, event: Event) -> bool {
        match (self.pending, event) {
            (Action::QuerySize, Event::Size { width, height }) => width >= 2 * CHANNEL_HALF_WIDTH
                && height >= 1,
            (Action::ReadKey, Event::Input(key)) => reachable(
                self.boat,
                Some(key),
                self.world.width,
                self.world.height,
            ),
            _ => true,
        }
    }
}

impl Session {
    /// What the session holds, as plain mathematical values.
    pub closed spec fn model(&self) -> SessionView {
        SessionView {
            pending: self.pending,
            stop: self.stop,
            fault: self.fault,
            world: self.world@,
            boat: self.boat,
        }
    }

    /// The map has one entry for each row of the terminal.
    #[verifier::type_invariant]
    spec fn wf(&self) -> bool {
        self.world.wf()
    }

    /// A session that has not touched the terminal yet. Its first action is
    /// to enter raw mode.
    pub fn new() -> (session: Session)
        ensures
            session@ == SessionView::fresh(),
    {
        Session {
            pending: Action::EnableRawMode,
            stop: false,
            fault: None,
            world: World { width: 0, height: 0, map: Vec::new() },
            boat: Boat::new(0, 0),
        }
    }

    /// The action that the caller is to carry out next.
    pub fn pending(&self) -> (action: Action)
        ensures
            action == self@.pending,
    {
        self.pending
    }

    /// Whether the quit key has been seen.
    pub fn stop(&self) -> (stop: bool)
        ensures
            stop == self@.stop,
    {
        self.stop
    }

    /// The first action that failed, if any did.
    pub fn fault(&self) -> (fault: Option<Action>)
        ensures
            fault == self@.fault,
    {
        self.fault
    }

    /// The boat as it stands.
    pub fn boat(&self) -> (boat: Boat)
        ensures
            boat == self@.boat,
    {
        self.boat
    }

    /// The world that the session plays in: empty until the terminal has told
    /// its size.
    pub fn world(&self) -> (world: &World)
        ensures
            world@ == self@.world,
            world.wf(),
    {
        proof {
            use_type_invariant(&*self);
        }
        &self.world
    }

    /// Whether [`Session::advance`] may be called with `event`.
    pub fn can_advance(&self, event: &Event) -> (ok: bool)
        ensures
            ok <==> self@.admits(*event),
    {
        match (self.pending, event) {
            (Action::QuerySize, Event::Size { width, height }) => *width >= 2 * CHANNEL_HALF_WIDTH
                && *height >= 1,
            (Action::ReadKey, Event::Input(key)) => can_reach(
                &self.boat,
                Some(*key),
                self.world.width,
                self.world.height,
            ),
            _ => true,
        }
    }

    fn fail(&mut self, next: Action)
        ensures
            final(self)@ == old(self)@.fail(next),
    {
        proof {
            use_type_invariant(&*self);
        }
        if self.fault.is_none() {
            self.fault = Some(self.pending);
        }
        self.pending = next;
    }

    fn key(&mut self, key: Option<Key>)
        requires
            reachable(old(self)@.boat, key, old(self)@.world.width, old(self)@.world.height),
        ensures
            final(self)@ == old(self)@.keyed(key),
    {
        proof {
            use_type_invariant(&*self);
        }
        let mut boat = self.boat;
        self.stop = mechanics(&mut boat, self.world.height, self.world.width, key);
        self.boat = boat;
        self.pending = Action::Paint;
    }

    /// Takes what came of the pending action and returns the action to carry
    /// out next.
    pub fn advance(&mut self, event: Event) -> (action: Action)
        requires
            old(self)@.admits(event),
        ensures
            final(self)@ == old(self)@.after(event),
            action == final(self)@.pending,
    {
        proof {
            use_type_invariant(&*self);
        }
        match self.pending {
            Action::EnableRawMode => match event {
                Event::Done => {
                    self.pending = Action::QuerySize;
                },
                _ => {
                    self.fail(Action::DisableRawMode);
                },
            },
            Action::QuerySize => match event {
                Event::Size { width, height } => {
                    self.world = World::new(width, height);
                    self.boat = Boat::new(width / 2, height - 1);
                    self.pending = Action::ClearScreen;
                },
                _ => {
                    self.fail(Action::DisableRawMode);
                },
            },
            Action::ClearScreen => match event {
                Event::Done => {
                    self.pending = if self.stop {
                        Action::DisableRawMode
                    } else {
                        Action::PollKey
                    };
                },
                _ => {
                    self.fail(Action::DisableRawMode);
                },
            },
            Action::PollKey => match event {
                Event::Ready(true) => {
                    self.pending = Action::ReadKey;
                },
                Event::Ready(false) => {
                    self.key(None);
                },
                _ => {
                    self.fail(Action::DisableRawMode);
                },
            },
            Action::ReadKey => match event {
                Event::Input(key) => {
                    self.key(Some(key));
                },
                _ => {
                    self.fail(Action::DisableRawMode);
                },
            },
            Action::Paint => match event {
                Event::Done => {
                    self.pending = if self.stop {
                        Action::ClearScreen
                    } else {
                        Action::PollKey
                    };
                },
                _ => {
                    self.fail(Action::DisableRawMode);
                },
            },
            Action::DisableRawMode => match event {
                Event::Done => {
                    self.pending = Action::ShowCursor;
                },
                _ => {
                    self.fail(Action::ShowCursor);
                },
            },
            Action::ShowCursor => match event {
                Event::Done => {
                    self.pending = Action::Exit;
                },
                _ => {
                    self.fail(Action::Exit);
                },
            },
            Action::Exit => {},
        }
        self.pending
    }

    /// The frame that shows the session as it stands: what the caller paints
    /// when the pending action is [`Action::Paint`].
    pub fn frame(&self) -> (ops: Vec<DrawOp>)
        ensures
            ops@ == frame(self@.world.map, self@.boat),
    {
        draw(&self.world, &self.boat)
    }
}

} // verus!
