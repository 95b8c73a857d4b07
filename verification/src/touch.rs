use vstd::prelude::*;

use crate::time::TimeSpan;

verus! {

/// Flag of a touch point: the finger went down (NuttX `TOUCH_DOWN`).
pub const TOUCH_DOWN: u32 = 1;

/// Flag of a touch point: the finger went up (NuttX `TOUCH_UP`).
pub const TOUCH_UP: u32 = 4;

/// Two touch positions closer than this many pixels on both axes count as
/// the same place.
pub const TOUCH_MOVE_THRESHOLD: u32 = 20;

/// Milliseconds after which a lifted finger is reported as released.
pub const TOUCH_MOVE_INTERVAL_MS: u64 = 300;

/// A position on the screen, in physical pixels.
#[derive(Debug, Clone, Copy, PartialEq, Eq, Structural)]
pub struct PhysicalPosition {
    pub x: i32,
    pub y: i32,
}

/// What the touch controller reported in one sample: the number of
/// points, and the flags and coordinates of the first point.
#[derive(Debug, Clone, Copy, PartialEq, Eq, Structural)]
pub struct TouchInput {
    pub npoints: i32,
    pub flags: u8,
    pub x: i16,
    pub y: i16,
}

/// The place and time where a finger was last lifted.
#[derive(Debug, Clone, Copy, PartialEq, Eq, Structural)]
pub struct TouchSample {
    pub position: PhysicalPosition,
    pub timestamp: TimeSpan,
}

/// A pointer event for the window, with the left button.
#[derive(Debug, Clone, Copy, PartialEq, Eq, Structural)]
pub enum PointerEvent {
    Pressed(PhysicalPosition),
    Released(PhysicalPosition),
    Exited,
}

/// The gesture state of the touch screen: the last lift of a finger that
/// has not been reported yet.
pub struct Touch(pub Option<TouchSample>);

/// The release interval in nanoseconds.
pub open spec fn spec_interval_nanos() -> int {
    TOUCH_MOVE_INTERVAL_MS * 1_000_000
}

/// Whether the sample's flags say the finger went up.
pub open spec fn spec_lifted(input: TouchInput) -> bool {
    (input.flags as u32) & TOUCH_UP != 0
}

/// Whether the sample's flags say the finger went down.
pub open spec fn spec_pressed(input: TouchInput) -> bool {
    (input.flags as u32) & TOUCH_DOWN != 0
}

/// The position of the sample's first point.
pub open spec fn spec_position(input: TouchInput) -> PhysicalPosition {
    PhysicalPosition { x: input.x as i32, y: input.y as i32 }
}

/// Whether two positions are closer than the threshold on both axes.
pub open spec fn spec_near(a: PhysicalPosition, b: PhysicalPosition) -> bool {
    &&& -(TOUCH_MOVE_THRESHOLD as int) < a.x - b.x < TOUCH_MOVE_THRESHOLD
    &&& -(TOUCH_MOVE_THRESHOLD as int) < a.y - b.y < TOUCH_MOVE_THRESHOLD
}

/// One step of the gesture state: from the stored lift, a sample taken at
/// `now`, to the new stored lift and the events for the window.
///
/// With no point, a lift older than the interval is reported as a release
/// followed by the pointer leaving. With a point, a lift is stored; a
/// press then takes the stored lift: at the same place it is a tap
/// already reported and nothing is sent, elsewhere the lift is reported
/// as a release before the press.
pub open spec fn spec_touch_step(state: Option<TouchSample>, input: TouchInput, now: TimeSpan) -> (
    Option<TouchSample>,
    Seq<PointerEvent>,
) {
    if input.npoints == 0 {
        match state {
            Some(t) => if now.nanos - t.timestamp.nanos > spec_interval_nanos() {
                (None, seq![PointerEvent::Released(t.position), PointerEvent::Exited])
            } else {
                (state, seq![])
            },
            None => (None, seq![]),
        }
    } else {
        let pos = spec_position(input);
        let stored = if spec_lifted(input) {
            Some(TouchSample { position: pos, timestamp: now })
        } else {
            state
        };
        if spec_pressed(input) {
            match stored {
                Some(t) => if spec_near(t.position, pos) {
                    (None, seq![])
                } else {
                    (None, seq![PointerEvent::Released(t.position), PointerEvent::Pressed(pos)])
                },
                None => (None, seq![PointerEvent::Pressed(pos)]),
            }
        } else {
            (stored, seq![])
        }
    }
}

/// Whether `now` is no earlier than the stored lift, as the step needs
/// where it measures the time since that lift.
pub open spec fn spec_time_ok(state: Option<TouchSample>, input: TouchInput, now: TimeSpan) -> bool {
    input.npoints == 0 && state is Some ==> state->0.timestamp.nanos <= now.nanos
}

fn near(a: PhysicalPosition, b: PhysicalPosition) -> (r: bool)
    ensures
        r == spec_near(a, b),
{
    let dx: i64 = a.x as i64 - b.x as i64;
    let dy: i64 = a.y as i64 - b.y as i64;
    let t: i64 = TOUCH_MOVE_THRESHOLD as i64;
    -t < dx && dx < t && -t < dy && dy < t
}

impl Touch {
    /// No lift stored.
    pub fn new() -> (t: Touch)
        ensures
            t.0 is None,
    {
        Touch(None)
    }

    /// Takes a sample of the touch controller at `now` and returns the
    /// pointer events to dispatch to the window, in order.
    pub fn handle_touch(&mut self, input: &TouchInput, now: TimeSpan) -> (events: Vec<PointerEvent>)
        requires
            spec_time_ok(old(self).0, *input, now),
        ensures
            final(self).0 == spec_touch_step(old(self).0, *input, now).0,
            events@ == spec_touch_step(old(self).0, *input, now).1,
    {
        let mut events: Vec<PointerEvent> = Vec::new();
        if input.npoints == 0 {
            match self.0 {
                Some(touch) => {
                    let interval: TimeSpan = TimeSpan::from_millis(TOUCH_MOVE_INTERVAL_MS);
                    if now.since(&touch.timestamp).longer_than(&interval) {
                        self.0 = None;
                        events.push(PointerEvent::Released(touch.position));
                        events.push(PointerEvent::Exited);
                    }
                },
                None => {},
            }
            return events;
        }
        let position = PhysicalPosition { x: input.x as i32, y: input.y as i32 };
        let flag: u32 = input.flags as u32;
        if flag & TOUCH_UP != 0 {
            self.0 = Some(TouchSample { position, timestamp: now });
        }
        if flag & TOUCH_DOWN != 0 {
            let taken: Option<TouchSample> = self.0.take();
            match taken {
                Some(touch) => {
                    if near(touch.position, position) {
                        return events;
                    }
                    events.push(PointerEvent::Released(touch.position));
                },
                None => {},
            }
            events.push(PointerEvent::Pressed(position));
        }
        events
    }
}

/// A release is only ever the first event of a step; it reports the lift
/// that was stored before the step, and leaves no lift stored, so that a
/// lift is released at most once.
pub proof fn lemma_release_reports_stored_lift(state: Option<TouchSample>, input: TouchInput, now: TimeSpan)
    ensures
        ({
            let (next, events) = spec_touch_step(state, input, now);
            forall|i: int|
                0 <= i < events.len() && #[trigger] events[i] is Released ==> {
                    &&& i == 0
                    &&& state is Some
                    &&& events[i]->Released_0 == state->0.position
                    &&& next is None
                }
        }),
{
}

/// The pointer leaves the window only right after a release, when no
/// point is touched.
pub proof fn lemma_exit_follows_release(state: Option<TouchSample>, input: TouchInput, now: TimeSpan)
    ensures
        ({
            let (next, events) = spec_touch_step(state, input, now);
            forall|i: int|
                0 <= i < events.len() && #[trigger] events[i] is Exited ==> {
                    &&& i == 1
                    &&& events[0] is Released
                    &&& input.npoints == 0
                    &&& next is None
                }
        }),
{
}

/// A press is always the last event of a step, at the touched position,
/// and only for a sample that says the finger went down; after it no lift
/// is stored.
pub proof fn lemma_press_at_touched_position(state: Option<TouchSample>, input: TouchInput, now: TimeSpan)
    ensures
        ({
            let (next, events) = spec_touch_step(state, input, now);
            forall|i: int|
                0 <= i < events.len() && #[trigger] events[i] is Pressed ==> {
                    &&& i == events.len() - 1
                    &&& events[i]->Pressed_0 == spec_position(input)
                    &&& input.npoints != 0
                    &&& spec_pressed(input)
                    &&& next is None
                }
        }),
{
}

/// A tap: a lift, then a press at nearly the same place, sends nothing to
/// the window and leaves nothing stored, whatever was stored before.
pub proof fn lemma_tap_is_silent(
    state: Option<TouchSample>,
    lift: TouchInput,
    at: TimeSpan,
    press: TouchInput,
    later: TimeSpan,
)
    requires
        lift.npoints != 0,
        spec_lifted(lift),
        !spec_pressed(lift),
        press.npoints != 0,
        spec_pressed(press),
        !spec_lifted(press),
        spec_near(spec_position(lift), spec_position(press)),
    ensures
        ({
            let (mid, first) = spec_touch_step(state, lift, at);
            let (last, second) = spec_touch_step(mid, press, later);
            &&& mid == Some(TouchSample { position: spec_position(lift), timestamp: at })
            &&& first.len() == 0
            &&& second.len() == 0
            &&& last is None
        }),
{
}

/// A lift left alone for longer than the interval is reported, on the
/// first empty sample after it, as a release at its place followed by the
/// pointer leaving; an empty sample within the interval changes nothing.
pub proof fn lemma_idle_lift_released(t: TouchSample, input: TouchInput, now: TimeSpan)
    requires
        input.npoints == 0,
        t.timestamp.nanos <= now.nanos,
    ensures
        now.nanos - t.timestamp.nanos > spec_interval_nanos() ==> spec_touch_step(Some(t), input, now) == (
            None::<TouchSample>,
            seq![PointerEvent::Released(t.position), PointerEvent::Exited],
        ),
        now.nanos - t.timestamp.nanos <= spec_interval_nanos() ==> spec_touch_step(Some(t), input, now) == (
            Some(t),
            Seq::<PointerEvent>::empty(),
        ),
{
}

/// A stored lift is never later than the sample that produced the state:
/// so with a clock that does not go back, every later step can measure
/// the time since the stored lift.
pub proof fn lemma_stored_lift_not_in_future(
    state: Option<TouchSample>,
    input: TouchInput,
    now: TimeSpan,
    later: TimeSpan,
    next_input: TouchInput,
)
    requires
        state is Some ==> state->0.timestamp.nanos <= now.nanos,
        now.nanos <= later.nanos,
    ensures
        ({
            let next = spec_touch_step(state, input, now).0;
            &&& next is Some ==> next->0.timestamp.nanos <= now.nanos
            &&& spec_time_ok(next, next_input, later)
        }),
{
}

/// A press (a sample with a point, the `TOUCH_DOWN` bit set and the
/// `TOUCH_UP` bit clear, whatever the other bits) after a stored lift:
/// when the press lies 20 pixels or more from the lift on either axis, the
/// lift is reported as released and then the press as pressed at the
/// sample's coordinates; only when it lies within 20 pixels on both axes
/// is it taken for the same touch and nothing is sent. Either way nothing
/// stays stored.
pub proof fn lemma_press_after_lift(t: TouchSample, input: TouchInput, now: TimeSpan)
    requires
        input.npoints != 0,
        (input.flags as u32) & TOUCH_DOWN != 0,
        (input.flags as u32) & TOUCH_UP == 0,
    ensures
        ({
            let (next, events) = spec_touch_step(Some(t), input, now);
            let q = PhysicalPosition { x: input.x as i32, y: input.y as i32 };
            let dx = t.position.x - input.x;
            let dy = t.position.y - input.y;
            &&& next is None
            &&& (dx >= 20 || dx <= -20 || dy >= 20 || dy <= -20) ==> events == seq![
                PointerEvent::Released(t.position),
                PointerEvent::Pressed(q),
            ]
            &&& (-20 < dx < 20 && -20 < dy < 20) ==> events.len() == 0
            &&& events.len() == 0 ==> (-20 < dx < 20 && -20 < dy < 20)
        }),
{
}

/// A press with nothing stored is reported as pressed at the sample's
/// coordinates, for every flags byte with the `TOUCH_DOWN` bit set and the
/// `TOUCH_UP` bit clear.
pub proof fn lemma_press_without_lift(input: TouchInput, now: TimeSpan)
    requires
        input.npoints != 0,
        (input.flags as u32) & TOUCH_DOWN != 0,
        (input.flags as u32) & TOUCH_UP == 0,
    ensures
        spec_touch_step(None, input, now) == (
            None::<TouchSample>,
            seq![PointerEvent::Pressed(PhysicalPosition { x: input.x as i32, y: input.y as i32 })],
        ),
{
}

/// A lift (a sample with a point, the `TOUCH_UP` bit set and the
/// `TOUCH_DOWN` bit clear, whatever the other bits) sends nothing and
/// stores exactly its coordinates and time, whatever was stored before.
pub proof fn lemma_lift_is_stored(state: Option<TouchSample>, input: TouchInput, now: TimeSpan)
    requires
        input.npoints != 0,
        (input.flags as u32) & TOUCH_UP != 0,
        (input.flags as u32) & TOUCH_DOWN == 0,
    ensures
        spec_touch_step(state, input, now) == (
            Some(
                TouchSample {
                    position: PhysicalPosition { x: input.x as i32, y: input.y as i32 },
                    timestamp: now,
                },
            ),
            Seq::<PointerEvent>::empty(),
        ),
{
}

/// A sample with a point whose flags have neither the `TOUCH_UP` nor the
/// `TOUCH_DOWN` bit (a finger moving, say) sends nothing and leaves the
/// state as it was.
pub proof fn lemma_move_changes_nothing(state: Option<TouchSample>, input: TouchInput, now: TimeSpan)
    requires
        input.npoints != 0,
        (input.flags as u32) & TOUCH_UP == 0,
        (input.flags as u32) & TOUCH_DOWN == 0,
    ensures
        spec_touch_step(state, input, now) == (state, Seq::<PointerEvent>::empty()),
{
}

/// A sample with a point that has both the `TOUCH_UP` and the
/// `TOUCH_DOWN` bit is a lift and a press at one place: nothing is sent
/// and nothing stays stored, whatever was stored before.
pub proof fn lemma_lift_and_press_together(state: Option<TouchSample>, input: TouchInput, now: TimeSpan)
    requires
        input.npoints != 0,
        (input.flags as u32) & TOUCH_UP != 0,
        (input.flags as u32) & TOUCH_DOWN != 0,
    ensures
        spec_touch_step(state, input, now) == (None::<TouchSample>, Seq::<PointerEvent>::empty()),
{
}

} // verus!
