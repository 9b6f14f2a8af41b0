//! What the highlighter looks at on macOS: which application, and when its window holds still.
use vstd::prelude::*;

use crate::rect::Rect;

verus! {

/// How long a window has to hold still before it counts as settled, in nanoseconds.
pub const WINDOW_MOVEMENT_SETTLE_NANOS: u64 = 150_000_000;

/// What is remembered of the window looked at last: whose it is, the frame that later ones are
/// held against, and the reading of the monotonic clock at which it last changed.
#[derive(Debug, Clone, Copy, PartialEq)]
pub struct WindowMovementState<N> {
    pub pid: i32,
    pub frame: Rect<N>,
    pub last_changed_at: u64,
}

/// Which measures of two frames lie within the tolerance of each other.
#[derive(Debug, Clone, Copy, PartialEq, Eq, Structural)]
pub struct FrameMatch {
    pub x: bool,
    pub y: bool,
    pub width: bool,
    pub height: bool,
}

/// Whether a frame has changed: one measure that lies outside the tolerance is enough.
pub open spec fn frame_changed(frames: FrameMatch) -> bool {
    !(frames.x && frames.y && frames.width && frames.height)
}

/// Tells whether a frame has changed.
pub fn window_frame_changed(frames: FrameMatch) -> (changed: bool)
    ensures
        changed == frame_changed(frames),
{
    !frames.x || !frames.y || !frames.width || !frames.height
}

/// A window as it is remembered at first sight: last changed long enough ago to be settled,
/// where the clock reaches back that far.
pub open spec fn settled<N>(pid: i32, frame: Rect<N>, now: u64) -> WindowMovementState<N> {
    WindowMovementState {
        pid,
        frame,
        last_changed_at: if now >= WINDOW_MOVEMENT_SETTLE_NANOS {
            (now - WINDOW_MOVEMENT_SETTLE_NANOS) as u64
        } else {
            now
        },
    }
}

/// The state of a window at first sight.
pub fn settled_window_state<N>(pid: i32, frame: Rect<N>, now: u64) -> (state: WindowMovementState<
    N,
>)
    ensures
        state == settled(pid, frame, now),
{
    let last_changed_at: u64 = match now.checked_sub(WINDOW_MOVEMENT_SETTLE_NANOS) {
        Some(earlier) => earlier,
        None => now,
    };
    WindowMovementState { pid, frame, last_changed_at }
}

/// Whether a window that was seen before, and has the frame that it had, is still settling.
pub open spec fn still_settling(last_changed_at: u64, now: u64) -> bool {
    now < last_changed_at + WINDOW_MOVEMENT_SETTLE_NANOS
}

/// What is remembered after a sighting of the front window of `pid`. A frame that has not
/// changed is held against the frame remembered, not against the one seen last.
pub open spec fn movement_after<N>(
    state: Option<WindowMovementState<N>>,
    pid: i32,
    frame: Option<Rect<N>>,
    changed: bool,
    now: u64,
) -> Option<WindowMovementState<N>> {
    match (frame, state) {
        (None, _) => None,
        (Some(frame), None) => Some(settled(pid, frame, now)),
        (Some(frame), Some(seen)) => if seen.pid != pid {
            Some(settled(pid, frame, now))
        } else if changed {
            Some(WindowMovementState { pid, frame, last_changed_at: now })
        } else {
            Some(seen)
        },
    }
}

/// Whether a sighting shows the window moving: one that cannot be found counts as moving, one
/// seen for the first time does not.
pub open spec fn is_moving<N>(
    state: Option<WindowMovementState<N>>,
    pid: i32,
    frame: Option<Rect<N>>,
    changed: bool,
    now: u64,
) -> bool {
    ||| frame is None
    ||| {
        &&& state is Some
        &&& state->0.pid == pid
        &&& changed || still_settling(state->0.last_changed_at, now)
    }
}

/// The application whose text is looked at: the focused one, or the one before it where the
/// highlighter itself has the focus.
pub open spec fn target(last_focused: Option<i32>, focused: i32, own: i32) -> Option<i32> {
    if focused == own {
        last_focused
    } else {
        Some(focused)
    }
}

/// Tells whether a process may be looked at, where `enabled` tells whether the integration of
/// its application is, and is `None` where the application is not known.
pub fn is_pid_approved(enabled: Option<bool>) -> (approved: bool)
    ensures
        approved == (enabled == Some(true)),
{
    match enabled {
        Some(enabled) => enabled,
        None => false,
    }
}

/// What was found out on the way to the boxes around the lints.
pub enum BoxesEvent<N> {
    /// The process of the focused application, `None` where it could not be told, and the
    /// process of the highlighter.
    Focus { focused: Option<i32>, own: i32 },
    /// Whether the integration of an application is enabled, `None` where the application of
    /// the process is not known.
    Integration { pid: i32, enabled: Option<bool> },
    /// The frame of the front window of a process, if it has one; how it compares to the frame
    /// remembered for that process, if there is one; and the reading of the monotonic clock.
    Window { pid: i32, frame: Option<Rect<N>>, frames: FrameMatch, now: u64 },
}

/// What is to be done next for the boxes around the lints.
#[derive(Debug, Clone, Copy, PartialEq, Eq, Structural)]
pub enum BoxesAction {
    /// Find out whether the integration of the process's application is enabled.
    CheckIntegration(i32),
    /// Find the front window of the process.
    FindWindow(i32),
    /// Collect the boxes from the elements of the process.
    Collect(i32),
    /// There are no boxes this time.
    NoBoxes,
}

/// What the highlighter keeps between two looks at the screen.
///
/// `integrations` is the list of applications that may be looked at; the broker only keeps it.
pub struct MacBroker<J, N> {
    pub last_focused: Option<i32>,
    pub integrations: J,
    pub window_movement: Option<WindowMovementState<N>>,
}

/// The state of a broker after an event.
pub open spec fn broker_after<J, N>(broker: MacBroker<J, N>, event: BoxesEvent<N>) -> MacBroker<
    J,
    N,
> {
    match event {
        BoxesEvent::Focus { focused: None, .. } => MacBroker { window_movement: None, ..broker },
        BoxesEvent::Focus { focused: Some(focused), own } => {
            let pid = target(broker.last_focused, focused, own);
            MacBroker {
                last_focused: pid,
                window_movement: if pid is Some { broker.window_movement } else { None },
                ..broker
            }
        },
        BoxesEvent::Integration { enabled, .. } => MacBroker {
            window_movement: if enabled == Some(true) { broker.window_movement } else { None },
            ..broker
        },
        BoxesEvent::Window { pid, frame, frames, now } => MacBroker {
            window_movement: movement_after(
                broker.window_movement,
                pid,
                frame,
                frame_changed(frames),
                now,
            ),
            ..broker
        },
    }
}

/// What follows an event.
pub open spec fn boxes_action<J, N>(broker: MacBroker<J, N>, event: BoxesEvent<N>) -> BoxesAction {
    match event {
        BoxesEvent::Focus { focused: None, .. } => BoxesAction::NoBoxes,
        BoxesEvent::Focus { focused: Some(focused), own } => match target(
            broker.last_focused,
            focused,
            own,
        ) {
            Some(pid) => BoxesAction::CheckIntegration(pid),
            None => BoxesAction::NoBoxes,
        },
        BoxesEvent::Integration { pid, enabled } => if enabled == Some(true) {
            BoxesAction::FindWindow(pid)
        } else {
            BoxesAction::NoBoxes
        },
        BoxesEvent::Window { pid, frame, frames, now } => if is_moving(
            broker.window_movement,
            pid,
            frame,
            frame_changed(frames),
            now,
        ) {
            BoxesAction::NoBoxes
        } else {
            BoxesAction::Collect(pid)
        },
    }
}

impl<J, N> MacBroker<J, N> {
    /// A broker that has not looked at anything.
    pub fn new(integrations: J) -> (broker: Self)
        ensures
            broker.last_focused is None,
            broker.integrations == integrations,
            broker.window_movement is None,
    {
        MacBroker { last_focused: None, integrations, window_movement: None }
    }

    /// The process to look at, where `focused` has the focus and `own` is the highlighter's
    /// own; it is remembered for the time when the highlighter has the focus.
    pub fn target_pid(&mut self, focused: i32, own: i32) -> (pid: Option<i32>)
        ensures
            pid == target(old(self).last_focused, focused, own),
            *final(self) == (MacBroker { last_focused: pid, ..*old(self) }),
    {
        if focused == own {
            self.last_focused
        } else {
            self.last_focused = Some(focused);
            Some(focused)
        }
    }

    /// The frame that a new one of the front window of `pid` is to be held against.
    pub fn remembered_frame(&self, pid: i32) -> (frame: Option<&Rect<N>>)
        ensures
            frame is Some <==> self.window_movement is Some && self.window_movement->0.pid == pid,
            frame matches Some(frame) ==> *frame == self.window_movement->0.frame,
    {
        match &self.window_movement {
            Some(state) => if state.pid == pid { Some(&state.frame) } else { None },
            None => None,
        }
    }

    /// Tells whether the front window of `pid` is moving, and remembers the sighting. `frames`
    /// tells how the frame compares to the one remembered for `pid`, and does not matter where
    /// there is none.
    pub fn window_is_moving(
        &mut self,
        pid: i32,
        frame: Option<Rect<N>>,
        frames: FrameMatch,
        now: u64,
    ) -> (moving: bool)
        ensures
            moving == is_moving(
                old(self).window_movement,
                pid,
                frame,
                frame_changed(frames),
                now,
            ),
            *final(self) == (MacBroker {
                window_movement: movement_after(
                    old(self).window_movement,
                    pid,
                    frame,
                    frame_changed(frames),
                    now,
                ),
                ..*old(self)
            }),
    {
        let frame = match frame {
            Some(frame) => frame,
            None => {
                self.window_movement = None;
                return true;
            },
        };
        let seen = self.window_movement.take();
        match seen {
            None => {
                self.window_movement = Some(settled_window_state(pid, frame, now));
                false
            },
            Some(state) => {
                if state.pid != pid {
                    self.window_movement = Some(settled_window_state(pid, frame, now));
                    return false;
                }
                if window_frame_changed(frames) {
                    self.window_movement = Some(
                        WindowMovementState { pid, frame, last_changed_at: now },
                    );
                    return true;
                }
                let elapsed: u64 = now.saturating_sub(state.last_changed_at);
                self.window_movement = Some(state);
                elapsed < WINDOW_MOVEMENT_SETTLE_NANOS
            },
        }
    }

    /// Decides, event by event, whether there are boxes to collect. A look that ends before
    /// the window is found forgets the window, so that it is seen afresh the next time.
    pub fn get_boxes(&mut self, event: BoxesEvent<N>) -> (action: BoxesAction)
        ensures
            action == boxes_action(*old(self), event),
            *final(self) == broker_after(*old(self), event),
    {
        match event {
            BoxesEvent::Focus { focused, own } => match focused {
                None => {
                    self.window_movement = None;
                    BoxesAction::NoBoxes
                },
                Some(focused) => match self.target_pid(focused, own) {
                    Some(pid) => BoxesAction::CheckIntegration(pid),
                    None => {
                        self.window_movement = None;
                        BoxesAction::NoBoxes
                    },
                },
            },
            BoxesEvent::Integration { pid, enabled } => {
                if !is_pid_approved(enabled) {
                    self.window_movement = None;
                    return BoxesAction::NoBoxes;
                }
                BoxesAction::FindWindow(pid)
            },
            BoxesEvent::Window { pid, frame, frames, now } => {
                if self.window_is_moving(pid, frame, frames, now) {
                    return BoxesAction::NoBoxes;
                }
                BoxesAction::Collect(pid)
            },
        }
    }
}

/// The application remembered after these have had the focus, one after the other.
pub open spec fn remembered(focuses: Seq<i32>, own: i32) -> Option<i32>
    decreases focuses.len(),
{
    if focuses.len() == 0 {
        None
    } else {
        target(remembered(focuses.drop_last(), own), focuses.last(), own)
    }
}

/// The application looked at is the last one that had the focus and was not the highlighter,
/// however often the highlighter had it since; while there was none, nothing is looked at.
pub proof fn law_target_is_last_other(focuses: Seq<i32>, own: i32)
    ensures
        match remembered(focuses, own) {
            Some(pid) => pid != own && exists|i: int|
                0 <= i < focuses.len() && #[trigger] focuses[i] == pid && forall|j: int|
                    i < j < focuses.len() ==> focuses[j] == own,
            None => forall|i: int| 0 <= i < focuses.len() ==> focuses[i] == own,
        },
    decreases focuses.len(),
{
    if focuses.len() > 0 {
        let before = focuses.drop_last();
        law_target_is_last_other(before, own);
        if focuses.last() == own {
            if let Some(pid) = remembered(before, own) {
                let i = choose|i: int|
                    0 <= i < before.len() && #[trigger] before[i] == pid && forall|j: int|
                        i < j < before.len() ==> before[j] == own;
                assert(focuses[i] == pid);
                assert(forall|j: int| i < j < before.len() ==> focuses[j] == before[j]);
            } else {
                assert(forall|i: int| 0 <= i < before.len() ==> focuses[i] == before[i]);
            }
        } else {
            assert(focuses[focuses.len() - 1] == focuses.last());
        }
    }
}

/// A window seen for the first time is not moving, and neither is it at any later sighting
/// with the frame unchanged, on a clock that reaches back as long as settling takes.
pub proof fn law_new_window_is_settled<N>(
    before: Option<WindowMovementState<N>>,
    pid: i32,
    frame: Rect<N>,
    changed: bool,
    now: u64,
    again: Rect<N>,
    later: u64,
)
    requires
        before is None || before->0.pid != pid,
        WINDOW_MOVEMENT_SETTLE_NANOS <= now <= later,
    ensures
        !is_moving(before, pid, Some(frame), changed, now),
        !is_moving(
            movement_after(before, pid, Some(frame), changed, now),
            pid,
            Some(again),
            false,
            later,
        ),
{
}

/// A window that has changed counts as moving until it has held still for as long as settling
/// takes, and no longer.
pub proof fn law_changed_window_settles<N>(
    before: WindowMovementState<N>,
    frame: Rect<N>,
    now: u64,
    again: Rect<N>,
    later: u64,
)
    requires
        now <= later,
    ensures
        is_moving(Some(before), before.pid, Some(frame), true, now),
        is_moving(
            movement_after(Some(before), before.pid, Some(frame), true, now),
            before.pid,
            Some(again),
            false,
            later,
        ) <==> later - now < WINDOW_MOVEMENT_SETTLE_NANOS,
{
}

/// Sightings with the frame unchanged leave what is remembered as it is: movements that each
/// stay within the tolerance add up against the same frame.
pub proof fn law_small_movements_add_up<N>(
    before: WindowMovementState<N>,
    frame: Rect<N>,
    now: u64,
)
    ensures
        movement_after(Some(before), before.pid, Some(frame), false, now) == Some(before),
{
}

/// Everything that is found out in one look at the screen.
pub struct Look<N> {
    pub focused: Option<i32>,
    pub own: i32,
    pub enabled: Option<bool>,
    pub frame: Option<Rect<N>>,
    pub frames: FrameMatch,
    pub now: u64,
}

/// The state and the last action of a look that begins with an event, each question answered
/// as `look` has it.
pub open spec fn look_from<J, N>(
    broker: MacBroker<J, N>,
    look: Look<N>,
    event: BoxesEvent<N>,
    questions: nat,
) -> (MacBroker<J, N>, BoxesAction)
    decreases questions,
{
    let after = broker_after(broker, event);
    let action = boxes_action(broker, event);
    if questions == 0 {
        (after, action)
    } else {
        let rest = (questions - 1) as nat;
        match action {
            BoxesAction::CheckIntegration(pid) => look_from(
                after,
                look,
                BoxesEvent::Integration { pid, enabled: look.enabled },
                rest,
            ),
            BoxesAction::FindWindow(pid) => look_from(
                after,
                look,
                BoxesEvent::Window { pid, frame: look.frame, frames: look.frames, now: look.now },
                rest,
            ),
            _ => (after, action),
        }
    }
}

/// A look at the screen ends with boxes collected from a process exactly where the focus could
/// be told, the process is the one to look at, its integration is enabled, and its front
/// window is there and not moving; else it ends with no boxes. A look that ends before the
/// window is looked for forgets the window.
pub proof fn law_look<J, N>(broker: MacBroker<J, N>, look: Look<N>)
    ensures
        ({
            let pid = match look.focused {
                Some(focused) => target(broker.last_focused, focused, look.own),
                None => None,
            };
            let reaches_window = pid is Some && look.enabled == Some(true);
            let moving = is_moving(
                broker.window_movement,
                pid->0,
                look.frame,
                frame_changed(look.frames),
                look.now,
            );
            let (after, action) = look_from(
                broker,
                look,
                BoxesEvent::Focus { focused: look.focused, own: look.own },
                2,
            );
            &&& action == (if reaches_window && !moving {
                BoxesAction::Collect(pid->0)
            } else {
                BoxesAction::NoBoxes
            })
            &&& !reaches_window ==> after.window_movement is None
            &&& after.integrations == broker.integrations
            &&& after.last_focused == (if look.focused is Some {
                pid
            } else {
                broker.last_focused
            })
        }),
{
    reveal_with_fuel(look_from, 3);
}

/// What is remembered is always the sighting that counts. A window that is seen for the first
/// time, or whose frame has changed, is remembered with the frame it was just seen with, whatever
/// was remembered before and whenever that last changed; a change is dated to its sighting, and a
/// first sight as far back as settling takes, where the clock reaches back that far. A window
/// that has not changed stays remembered as it was, and one that cannot be found is forgotten.
pub proof fn law_sighting_is_remembered<N>(
    before: WindowMovementState<N>,
    pid: i32,
    frame: Rect<N>,
    changed: bool,
    now: u64,
)
    ensures
        movement_after(Some(before), pid, None, changed, now) is None,
        movement_after(None::<WindowMovementState<N>>, pid, None, changed, now) is None,
        ({
            let after = movement_after(Some(before), pid, Some(frame), changed, now);
            &&& after is Some
            &&& after->0.pid == pid
            &&& changed || before.pid != pid ==> after->0.frame == frame
            &&& changed && before.pid == pid ==> after->0.last_changed_at == now
            &&& !changed && before.pid == pid ==> after == Some(before)
            &&& before.pid != pid && now >= 150_000_000 ==> after->0.last_changed_at + 150_000_000
                == now
            &&& before.pid != pid && now < 150_000_000 ==> after->0.last_changed_at == now
        }),
        ({
            let after = movement_after(None, pid, Some(frame), changed, now);
            &&& after is Some
            &&& after->0.pid == pid
            &&& after->0.frame == frame
            &&& now >= 150_000_000 ==> after->0.last_changed_at + 150_000_000 == now
            &&& now < 150_000_000 ==> after->0.last_changed_at == now
        }),
{
}

/// A window is moving where it cannot be found, and where it was seen before and has changed, or
/// last changed less than 150 milliseconds ago; nowhere else.
pub proof fn law_when_a_window_is_moving<N>(
    before: WindowMovementState<N>,
    pid: i32,
    frame: Rect<N>,
    changed: bool,
    now: u64,
)
    ensures
        is_moving(Some(before), pid, None, changed, now),
        is_moving(None, pid, None::<Rect<N>>, changed, now),
        !is_moving(None, pid, Some(frame), changed, now),
        before.pid != pid ==> !is_moving(Some(before), pid, Some(frame), changed, now),
        before.pid == pid && changed ==> is_moving(Some(before), pid, Some(frame), changed, now),
        before.pid == pid && !changed ==> (is_moving(Some(before), pid, Some(frame), changed, now)
            <==> now - before.last_changed_at < 150_000_000),
{
}

/// A frame has changed exactly where one of its measures lies outside the tolerance.
pub proof fn law_one_measure_makes_a_change(frames: FrameMatch)
    ensures
        frames.x && frames.y && frames.width && frames.height ==> !frame_changed(frames),
        !frames.x ==> frame_changed(frames),
        !frames.y ==> frame_changed(frames),
        !frames.width ==> frame_changed(frames),
        !frames.height ==> frame_changed(frames),
{
}

/// What is remembered after a window was seen with these frames at these times, each a change.
pub open spec fn dragged<N>(
    before: WindowMovementState<N>,
    sightings: Seq<(Rect<N>, u64)>,
) -> Option<WindowMovementState<N>>
    decreases sightings.len(),
{
    if sightings.len() == 0 {
        Some(before)
    } else {
        movement_after(
            dragged(before, sightings.drop_last()),
            before.pid,
            Some(sightings.last().0),
            true,
            sightings.last().1,
        )
    }
}

/// A window that comes to rest after a drag, however long and with whatever pauses, is held
/// against the frame that it came to rest with, and is settled 150 milliseconds after its last
/// change: sightings with that frame show it moving until then, and no longer.
pub proof fn law_dragged_window_comes_to_rest<N>(
    before: WindowMovementState<N>,
    sightings: Seq<(Rect<N>, u64)>,
    again: Rect<N>,
    later: u64,
)
    requires
        sightings.len() > 0,
    ensures
        dragged(before, sightings) is Some,
        dragged(before, sightings)->0.frame == sightings.last().0,
        dragged(before, sightings)->0.pid == before.pid,
        is_moving(dragged(before, sightings), before.pid, Some(again), false, later) <==> later
            - sightings.last().1 < 150_000_000,
        movement_after(dragged(before, sightings), before.pid, Some(again), false, later)
            == dragged(before, sightings),
    decreases sightings.len(),
{
    if sightings.len() > 1 {
        law_dragged_window_comes_to_rest(before, sightings.drop_last(), again, later);
    } else {
        assert(dragged(before, sightings.drop_last()) == Some(before));
    }
}

/// What each thing that is found out in a look leads to, and what it changes. The focused
/// application is looked at and remembered, unless it is the highlighter, which is passed over
/// for the one remembered; an integration that is not known to be enabled, and a focus that
/// cannot be told, end the look and forget the window; a window leads to boxes exactly where it
/// is not moving.
pub proof fn law_events_of_a_look<J, N>(
    broker: MacBroker<J, N>,
    focused: i32,
    own: i32,
    pid: i32,
    enabled: Option<bool>,
    frame: Option<Rect<N>>,
    frames: FrameMatch,
    now: u64,
)
    ensures
        ({
            let event = BoxesEvent::<N>::Focus { focused: None, own };
            let after = broker_after(broker, event);
            &&& boxes_action(broker, event) is NoBoxes
            &&& after.window_movement is None
            &&& after.last_focused == broker.last_focused
            &&& after.integrations == broker.integrations
        }),
        ({
            let event = BoxesEvent::<N>::Focus { focused: Some(focused), own };
            let action = boxes_action(broker, event);
            let after = broker_after(broker, event);
            &&& after.integrations == broker.integrations
            &&& focused != own ==> {
                &&& action == BoxesAction::CheckIntegration(focused)
                &&& after.last_focused == Some(focused)
                &&& after.window_movement == broker.window_movement
            }
            &&& focused == own ==> after.last_focused == broker.last_focused
            &&& focused == own && broker.last_focused is Some ==> {
                &&& action == BoxesAction::CheckIntegration(broker.last_focused->0)
                &&& after.window_movement == broker.window_movement
            }
            &&& focused == own && broker.last_focused is None ==> {
                &&& action is NoBoxes
                &&& after.window_movement is None
            }
        }),
        ({
            let event = BoxesEvent::<N>::Integration { pid, enabled };
            let action = boxes_action(broker, event);
            let after = broker_after(broker, event);
            &&& after.integrations == broker.integrations
            &&& after.last_focused == broker.last_focused
            &&& enabled == Some(true) ==> action == BoxesAction::FindWindow(pid)
                && after.window_movement == broker.window_movement
            &&& enabled != Some(true) ==> action is NoBoxes && after.window_movement is None
        }),
        ({
            let event = BoxesEvent::<N>::Window { pid, frame, frames, now };
            let action = boxes_action(broker, event);
            let after = broker_after(broker, event);
            let changed = !frames.x || !frames.y || !frames.width || !frames.height;
            let moving = is_moving(broker.window_movement, pid, frame, changed, now);
            &&& after.integrations == broker.integrations
            &&& after.last_focused == broker.last_focused
            &&& after.window_movement == movement_after(
                broker.window_movement,
                pid,
                frame,
                changed,
                now,
            )
            &&& moving ==> action is NoBoxes
            &&& !moving ==> action == BoxesAction::Collect(pid)
        }),
        focused != own ==> target(broker.last_focused, focused, own) == Some(focused),
        focused == own ==> target(broker.last_focused, focused, own) == broker.last_focused,
{
}

/// At first sight a window is remembered as it is seen, as if it had last changed 150
/// milliseconds ago, or just now where the clock does not reach back that far; and a window is
/// settling for less than 150 milliseconds after its last change.
pub proof fn law_first_sight_is_settled<N>(pid: i32, frame: Rect<N>, last_changed_at: u64, now: u64)
    ensures
        settled(pid, frame, now).pid == pid,
        settled(pid, frame, now).frame == frame,
        now >= 150_000_000 ==> settled(pid, frame, now).last_changed_at + 150_000_000 == now,
        now < 150_000_000 ==> settled(pid, frame, now).last_changed_at == now,
        still_settling(last_changed_at, now) <==> now - last_changed_at < 150_000_000,
        WINDOW_MOVEMENT_SETTLE_NANOS == 150_000_000,
{
}

} // verus!
