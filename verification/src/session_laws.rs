//! What holds of every session: how it ends, what the quit key and the
//! other keys do to it, and where the boat can be.

use vstd::prelude::*;
use crate::motion::{Key, QUIT_KEY};
use crate::session::{berth, Action, Event, SessionView};
use crate::world::{channel, CHANNEL_HALF_WIDTH};

verus! {

impl SessionView {
    /// The session after each of `events` in turn.
    pub open spec fn after_all(self, events: Seq<Event>) -> SessionView
        decreases events.len(),
    {
        if events.len() == 0 {
            self
        } else {
            self.after_all(events.drop_last()).after(events.last())
        }
    }

    /// The boat stands within the terminal.
    pub open spec fn aboard(self) -> bool {
        self.boat.within(self.world.width, self.world.height)
    }

    /// The terminal has been asked for its size and the answer, good or bad,
    /// has come.
    pub open spec fn past_setup(self) -> bool {
        !(self.pending is EnableRawMode) && !(self.pending is QuerySize)
    }

    /// The session is on its way out: it will not wait for a key again.
    pub open spec fn leaving(self) -> bool {
        match self.pending {
            Action::Paint | Action::ClearScreen => self.stop,
            Action::DisableRawMode | Action::ShowCursor | Action::Exit => true,
            _ => false,
        }
    }

    /// The most events that a session on its way out can take before it
    /// exits.
    pub open spec fn steps_to_exit(self) -> nat {
        match self.pending {
            Action::Paint => 4,
            Action::ClearScreen => 3,
            Action::DisableRawMode => 2,
            Action::ShowCursor => 1,
            _ => 0,
        }
    }

    /// The session is between the first clearing of the screen and the last:
    /// the boat is on show.
    pub open spec fn playing(self) -> bool {
        self.pending is ClearScreen || self.pending is PollKey || self.pending is ReadKey
            || self.pending is Paint
    }
}

/// The action that is pending once the first `n` of `events` have come in to
/// a fresh session.
pub open spec fn asked(events: Seq<Event>, n: int) -> Action {
    SessionView::fresh().after_all(events.take(n)).pending
}

/// The event, if it tells a size, tells one with room for the channel and
/// with at least two rows.
pub open spec fn roomy(event: Event) -> bool {
    match event {
        Event::Size { width, height } => width >= 2 * CHANNEL_HALF_WIDTH && height >= 2,
        _ => true,
    }
}

/// The two things about the terminal that a session changes and has to put
/// back.
pub struct Screen {
    pub raw_mode: bool,
    pub cursor_shown: bool,
}

/// The terminal after `action` was carried out on it and `event` came of it,
/// on a terminal that does what it reports: an action that reports success
/// has done what its name says, and any other has changed nothing.
pub open spec fn effect(screen: Screen, action: Action, event: Event) -> Screen {
    match (action, event) {
        (Action::EnableRawMode, Event::Done) => Screen { raw_mode: true, ..screen },
        (Action::DisableRawMode, Event::Done) => Screen { raw_mode: false, ..screen },
        (Action::ShowCursor, Event::Done) => Screen { cursor_shown: true, ..screen },
        _ => screen,
    }
}

/// The terminal after a fresh session has been through the first `n` of
/// `events` on it.
pub open spec fn screen_after(screen: Screen, events: Seq<Event>, n: nat) -> Screen
    decreases n,
{
    if n == 0 {
        screen
    } else {
        effect(
            screen_after(screen, events, (n - 1) as nat),
            asked(events, n - 1),
            events[n - 1],
        )
    }
}

proof fn lemma_after_all_step(s: SessionView, events: Seq<Event>, n: int)
    requires
        0 < n <= events.len(),
    ensures
        s.after_all(events.take(n)) == s.after_all(events.take(n - 1)).after(events[n - 1]),
{
    assert(events.take(n).drop_last() == events.take(n - 1));
}

/// The only way to the exit is through the restoring of the terminal: the
/// exit follows the showing of the cursor, which follows the leaving of raw
/// mode, whatever came of either.
pub proof fn law_way_out(s: SessionView, event: Event)
    ensures
        s.after(event).pending == Action::Exit ==> s.pending == Action::Exit || s.pending
            == Action::ShowCursor,
        s.after(event).pending == Action::ShowCursor ==> s.pending == Action::DisableRawMode,
        s.pending == Action::DisableRawMode ==> s.after(event).pending == Action::ShowCursor,
        s.pending == Action::ShowCursor ==> s.after(event).pending == Action::Exit,
{
}

/// However a session goes, and whatever fails in it, when it comes to exit
/// it has just been asked to leave raw mode and then to show the cursor, in
/// that order.
pub proof fn law_exit_follows_restore(events: Seq<Event>, n: int)
    requires
        0 < n <= events.len(),
        asked(events, n) == Action::Exit,
        asked(events, n - 1) != Action::Exit,
    ensures
        n >= 3,
        asked(events, n - 2) == Action::DisableRawMode,
        asked(events, n - 1) == Action::ShowCursor,
{
    let fresh = SessionView::fresh();
    assert(events.take(0) == Seq::<Event>::empty());
    assert(asked(events, 0) == Action::EnableRawMode);
    lemma_after_all_step(fresh, events, n);
    law_way_out(fresh.after_all(events.take(n - 1)), events[n - 1]);
    assert(asked(events, n - 1) == Action::ShowCursor);
    lemma_after_all_step(fresh, events, n - 1);
    law_way_out(fresh.after_all(events.take(n - 2)), events[n - 2]);
}

proof fn lemma_fault_stays(events: Seq<Event>, m: int, n: int)
    requires
        0 <= m <= n <= events.len(),
        SessionView::fresh().after_all(events.take(m)).fault is Some,
    ensures
        SessionView::fresh().after_all(events.take(n)).fault is Some,
    decreases n - m,
{
    if m < n {
        lemma_fault_stays(events, m, n - 1);
        lemma_after_all_step(SessionView::fresh(), events, n);
    }
}

/// On a terminal that does what it reports, a session that has come to exit
/// has left the terminal out of raw mode if its leaving of raw mode went
/// well, and with the cursor shown if its showing of the cursor went well,
/// whatever failed before and wherever the terminal started. A session that
/// exits without a fault has done both.
pub proof fn law_exit_leaves_terminal_restored(screen: Screen, events: Seq<Event>, n: int)
    requires
        0 < n <= events.len(),
        asked(events, n) == Action::Exit,
        asked(events, n - 1) != Action::Exit,
    ensures
        n >= 3,
        events[n - 2] == Event::Done ==> !screen_after(screen, events, n as nat).raw_mode,
        events[n - 1] == Event::Done ==> screen_after(screen, events, n as nat).cursor_shown,
        SessionView::fresh().after_all(events.take(n)).fault is None ==> !screen_after(
            screen,
            events,
            n as nat,
        ).raw_mode && screen_after(screen, events, n as nat).cursor_shown,
{
    let fresh = SessionView::fresh();
    law_exit_follows_restore(events, n);
    assert(screen_after(screen, events, n as nat) == effect(
        effect(
            screen_after(screen, events, (n - 2) as nat),
            Action::DisableRawMode,
            events[n - 2],
        ),
        Action::ShowCursor,
        events[n - 1],
    )) by {
        reveal_with_fuel(screen_after, 3);
    }
    lemma_after_all_step(fresh, events, n);
    lemma_after_all_step(fresh, events, n - 1);
    if events[n - 2] != Event::Done {
        lemma_fault_stays(events, n - 1, n);
    }
}

/// Once a session has come to exit, nothing that is reported to it changes
/// it or asks anything more of the terminal.
pub proof fn law_exit_is_final(s: SessionView, events: Seq<Event>)
    requires
        s.pending == Action::Exit,
    ensures
        s.after_all(events) == s,
    decreases events.len(),
{
    if events.len() > 0 {
        law_exit_is_final(s, events.drop_last());
    }
}

proof fn lemma_leaving_goes_on(s: SessionView, events: Seq<Event>)
    requires
        s.leaving(),
    ensures
        s.after_all(events).leaving(),
        s.after_all(events).boat == s.boat,
        s.after_all(events).world == s.world,
        s.after_all(events).steps_to_exit() + events.len() <= s.steps_to_exit()
            || s.after_all(events).steps_to_exit() == 0,
    decreases events.len(),
{
    if events.len() > 0 {
        lemma_leaving_goes_on(s, events.drop_last());
    }
}

/// The quit key ends the waiting for keys at once. The boat stays where it
/// was and is painted one last time; no key is waited for or read again,
/// whatever comes of the actions that follow; and after at most four more
/// events the session has exited. When nothing fails the way out is: paint,
/// clear the screen, leave raw mode, show the cursor, exit.
pub proof fn law_quit_ends_session(s: SessionView, rest: Seq<Event>)
    requires
        s.pending == Action::ReadKey,
    ensures
        ({
            let quit = s.after(Event::Input(Key::Char(QUIT_KEY)));
            let end = quit.after_all(rest);
            &&& quit.pending == Action::Paint
            &&& quit.stop
            &&& quit.boat == s.boat
            &&& end.pending != Action::PollKey
            &&& end.pending != Action::ReadKey
            &&& end.boat == s.boat
            &&& rest.len() >= 4 ==> end.pending == Action::Exit
            &&& quit.after(Event::Done).pending == Action::ClearScreen
            &&& quit.after(Event::Done).after(Event::Done).pending == Action::DisableRawMode
            &&& quit.after(Event::Done).after(Event::Done).after(Event::Done).pending
                == Action::ShowCursor
            &&& quit.after(Event::Done).after(Event::Done).after(Event::Done).after(
                Event::Done,
            ).pending == Action::Exit
        }),
{
    let quit = s.after(Event::Input(Key::Char(QUIT_KEY)));
    lemma_leaving_goes_on(quit, rest);
}

/// A failure ends the session. Whatever action fails, it is remembered as
/// the fault unless an earlier one is, no key is waited for or read again,
/// and after at most two more events the session has exited.
pub proof fn law_failure_ends_session(s: SessionView, rest: Seq<Event>)
    requires
        s.pending != Action::Exit,
    ensures
        ({
            let failed = s.after(Event::Failed);
            let end = failed.after_all(rest);
            &&& failed.fault == if s.fault is None {
                Some(s.pending)
            } else {
                s.fault
            }
            &&& failed.boat == s.boat
            &&& end.pending != Action::PollKey
            &&& end.pending != Action::ReadKey
            &&& end.boat == s.boat
            &&& rest.len() >= 2 ==> end.pending == Action::Exit
        }),
{
    lemma_leaving_goes_on(s.after(Event::Failed), rest);
}

/// A key that is neither an arrow nor the quit key does what no key at all
/// does: the boat stays where it is, the session is not stopped, and once
/// the frame is painted the next key is waited for.
pub proof fn law_other_keys_change_nothing(s: SessionView, key: Key)
    requires
        s.pending == Action::ReadKey,
        !key.is_arrow(),
        !key.is_quit(),
    ensures
        s.after(Event::Input(key)) == s.keyed(None),
        s.after(Event::Input(key)).boat == s.boat,
        !s.after(Event::Input(key)).stop,
        s.after(Event::Input(key)).pending == Action::Paint,
        s.after(Event::Input(key)).after(Event::Done).pending == Action::PollKey,
{
}

/// A wait that runs out with no key moves nothing and stops nothing: the
/// frame is painted all the same, and the next key is waited for.
pub proof fn law_idle_wait_repaints(s: SessionView)
    requires
        s.pending == Action::PollKey,
    ensures
        s.after(Event::Ready(false)) == s.keyed(None),
        s.after(Event::Ready(false)).boat == s.boat,
        !s.after(Event::Ready(false)).stop,
        s.after(Event::Ready(false)).pending == Action::Paint,
        s.after(Event::Ready(false)).after(Event::Done).pending == Action::PollKey,
        s.after(Event::Ready(true)) == s.proceed(Action::ReadKey),
{
}

/// The size that the terminal answers with puts the boat on the middle
/// column of the bottom row, within the terminal, with the banks of the
/// channel on every row.
pub proof fn law_start_is_aboard(s: SessionView, width: u16, height: u16)
    requires
        s.pending == Action::QuerySize,
        width >= 2 * CHANNEL_HALF_WIDTH,
        height >= 1,
    ensures
        s.admits((Event::Size { width, height })),
        s.after((Event::Size { width, height })).pending == Action::ClearScreen,
        s.after((Event::Size { width, height })).boat == berth(width, height),
        s.after((Event::Size { width, height })).world == channel(width, height),
        s.after((Event::Size { width, height })).aboard(),
        s.after((Event::Size { width, height })).past_setup(),
{
}

/// On a terminal of at least two cells each way, a boat within the terminal
/// stays within it whatever events come in, the world stays as it is, and
/// every event is one that the session can take.
pub proof fn law_boat_stays_aboard(s: SessionView, events: Seq<Event>)
    requires
        s.past_setup(),
        s.aboard(),
        s.world.width >= 2,
        s.world.height >= 2,
    ensures
        s.after_all(events).past_setup(),
        s.after_all(events).aboard(),
        s.after_all(events).world == s.world,
        forall|event: Event| #[trigger] s.after_all(events).admits(event),
    decreases events.len(),
{
    if events.len() > 0 {
        law_boat_stays_aboard(s, events.drop_last());
        let before = s.after_all(events.drop_last());
        assert(before.admits(events.last()));
    }
}

proof fn lemma_play_is_roomy(events: Seq<Event>, n: int)
    requires
        0 <= n <= events.len(),
        forall|i: int| 0 <= i < events.len() ==> roomy(#[trigger] events[i]),
    ensures
        ({
            let now = SessionView::fresh().after_all(events.take(n));
            now.playing() ==> now.aboard() && now.world.width >= 2 && now.world.height >= 2
        }),
    decreases n,
{
    if n > 0 {
        lemma_play_is_roomy(events, n - 1);
        lemma_after_all_step(SessionView::fresh(), events, n);
        assert(roomy(events[n - 1]));
    } else {
        assert(events.take(0) == Seq::<Event>::empty());
    }
}

/// A fresh session whose terminal has room for the channel and at least two
/// rows can take every event that comes, whatever fails and whatever keys
/// are pressed; and while the boat is on show it stands within the terminal.
pub proof fn law_roomy_terminal_is_never_refused(events: Seq<Event>, n: int)
    requires
        0 <= n <= events.len(),
        forall|i: int| 0 <= i < events.len() ==> roomy(#[trigger] events[i]),
    ensures
        forall|event: Event|
            roomy(event) ==> #[trigger] SessionView::fresh().after_all(events.take(n)).admits(
                event,
            ),
        SessionView::fresh().after_all(events.take(n)).playing() ==> SessionView::fresh().after_all(
            events.take(n),
        ).aboard(),
{
    lemma_play_is_roomy(events, n);
}

} // verus!
