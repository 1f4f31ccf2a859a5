use vstd::prelude::*;

use crate::geometry::MILLI;
use crate::keys::{key_code_to_ruffle, key_of, KeyCode};

verus! {

/// The phase of a touch, as the platform reports it.
#[derive(Debug, Clone, Copy, PartialEq, Eq, Structural)]
pub enum TouchPhase {
    Began,
    Moved,
    Stationary,
    Ended,
    Cancelled,
    RegionEntered,
    RegionMoved,
    RegionExited,
}

/// One raw touch: its location in the view in thousandths of a logical
/// point, how many taps it has seen, and its phase.
#[derive(Debug, Clone, Copy, PartialEq, Eq, Structural)]
pub struct Touch {
    pub x_milli: i32,
    pub y_milli: i32,
    pub tap_count: u32,
    pub phase: TouchPhase,
}

/// The phase of a hardware key press.
#[derive(Debug, Clone, Copy, PartialEq, Eq, Structural)]
pub enum PressPhase {
    Began,
    Changed,
    Stationary,
    Ended,
    Cancelled,
}

/// The key behind a press: its keyboard usage code and the characters it
/// produces without modifiers.
#[derive(Debug, PartialEq, Eq)]
pub struct Key {
    pub code: u32,
    pub characters: Vec<char>,
}

/// One raw press; `key` is `None` for presses that come from no keyboard key.
#[derive(Debug, PartialEq, Eq)]
pub struct Press {
    pub key: Option<Key>,
    pub phase: PressPhase,
}

#[derive(Debug, Clone, Copy, PartialEq, Eq, Structural)]
pub enum MouseButton {
    Left,
    Right,
    Middle,
}

/// An input event in the engine's vocabulary. Pointer coordinates are in
/// thousandths of a device pixel.
#[derive(Debug, Clone, Copy, PartialEq, Eq, Structural)]
pub enum PlayerEvent {
    MouseDown { x: i64, y: i64, button: MouseButton, index: Option<u32> },
    MouseMove { x: i64, y: i64 },
    MouseUp { x: i64, y: i64, button: MouseButton },
    MouseLeave,
    KeyDown { key_code: KeyCode, key_char: Option<char> },
    KeyUp { key_code: KeyCode, key_char: Option<char> },
}

/// One call into the engine made while handling a touch.
#[derive(Debug, Clone, Copy, PartialEq, Eq, Structural)]
pub enum PointerStep {
    /// Tell the engine whether the pointer is over the surface.
    MouseInStage(bool),
    /// Hand the engine an event; it answers whether it consumed it.
    Send(PlayerEvent),
}

/// Integer division that rounds toward zero, as Rust's `/` does.
pub open spec fn div_toward_zero(v: int, d: int) -> int {
    if v >= 0 {
        v / d
    } else {
        -((-v) / d)
    }
}

/// A logical coordinate, in thousandths of a point, as thousandths of a
/// device pixel.
pub open spec fn pixel_coord(points_milli: i32, scale_milli: u32) -> i64 {
    div_toward_zero(points_milli as int * scale_milli as int, MILLI as int) as i64
}

/// Converts a logical coordinate to device pixels.
pub fn to_pixel_coord(points_milli: i32, scale_milli: u32) -> (r: i64)
    ensures
        r == pixel_coord(points_milli, scale_milli),
{
    let p: i64 = points_milli as i64;
    let s: i64 = scale_milli as i64;
    assert(-0x8000_0000i64 * 0xffff_ffffi64 <= p * s <= 0x7fff_ffffi64 * 0xffff_ffffi64) by (nonlinear_arith)
        requires -0x8000_0000i64 <= p <= 0x7fff_ffffi64, 0 <= s <= 0xffff_ffffi64;
    let product: i64 = p * s;
    let r: i64 = product / (MILLI as i64);
    assert(r == div_toward_zero(product as int, MILLI as int));
    r
}

/// What the engine is told for one touch: the pointer is first marked as over
/// the surface, then the touch's event is sent; a lifted touch also marks the
/// pointer as gone and sends a leave, and a cancelled one sends only the
/// leave. Other phases tell the engine nothing.
pub open spec fn touch_steps(t: Touch, scale_milli: u32) -> Seq<PointerStep> {
    let x = pixel_coord(t.x_milli, scale_milli);
    let y = pixel_coord(t.y_milli, scale_milli);
    match t.phase {
        TouchPhase::Began => seq![
            PointerStep::MouseInStage(true),
            PointerStep::Send(PlayerEvent::MouseDown { x, y, button: MouseButton::Left, index: Some(t.tap_count) }),
        ],
        TouchPhase::Moved => seq![
            PointerStep::MouseInStage(true),
            PointerStep::Send(PlayerEvent::MouseMove { x, y }),
        ],
        TouchPhase::Ended => seq![
            PointerStep::MouseInStage(true),
            PointerStep::Send(PlayerEvent::MouseUp { x, y, button: MouseButton::Left }),
            PointerStep::MouseInStage(false),
            PointerStep::Send(PlayerEvent::MouseLeave),
        ],
        TouchPhase::Cancelled => seq![
            PointerStep::MouseInStage(true),
            PointerStep::Send(PlayerEvent::MouseLeave),
        ],
        _ => seq![],
    }
}

/// Translates one touch into the calls the engine gets for it.
pub fn translate_touch(t: &Touch, scale_milli: u32) -> (r: Vec<PointerStep>)
    ensures
        r@ == touch_steps(*t, scale_milli),
{
    let x = to_pixel_coord(t.x_milli, scale_milli);
    let y = to_pixel_coord(t.y_milli, scale_milli);
    match t.phase {
        TouchPhase::Began => vec![
            PointerStep::MouseInStage(true),
            PointerStep::Send(PlayerEvent::MouseDown { x, y, button: MouseButton::Left, index: Some(t.tap_count) }),
        ],
        TouchPhase::Moved => vec![
            PointerStep::MouseInStage(true),
            PointerStep::Send(PlayerEvent::MouseMove { x, y }),
        ],
        TouchPhase::Ended => vec![
            PointerStep::MouseInStage(true),
            PointerStep::Send(PlayerEvent::MouseUp { x, y, button: MouseButton::Left }),
            PointerStep::MouseInStage(false),
            PointerStep::Send(PlayerEvent::MouseLeave),
        ],
        TouchPhase::Cancelled => vec![
            PointerStep::MouseInStage(true),
            PointerStep::Send(PlayerEvent::MouseLeave),
        ],
        _ => Vec::new(),
    }
}

/// The single logical pointer: up (idle) or pressed on the surface.
#[derive(Debug, Clone, Copy, PartialEq, Eq, Structural)]
pub enum PointerState {
    Idle,
    Down,
}

/// The pointer after a touch of phase `phase`: a touch that begins or moves
/// holds it down, one that is lifted or cancelled releases it, and other
/// phases leave it as it was.
pub open spec fn next_pointer(state: PointerState, phase: TouchPhase) -> PointerState {
    match phase {
        TouchPhase::Began | TouchPhase::Moved => PointerState::Down,
        TouchPhase::Ended | TouchPhase::Cancelled => PointerState::Idle,
        _ => state,
    }
}

/// Steps the logical pointer through one touch phase.
pub fn advance_pointer(state: PointerState, phase: TouchPhase) -> (r: PointerState)
    ensures
        r == next_pointer(state, phase),
{
    match phase {
        TouchPhase::Began | TouchPhase::Moved => PointerState::Down,
        TouchPhase::Ended | TouchPhase::Cancelled => PointerState::Idle,
        _ => state,
    }
}

/// The batch's calls: those of its first touch, which stands for all of it.
pub open spec fn batch_steps(touches: Seq<Touch>, scale_milli: u32) -> Seq<PointerStep> {
    touch_steps(touches[0], scale_milli)
}

/// Whether a touch phase moves the logical pointer.
pub open spec fn is_pointer_phase(phase: TouchPhase) -> bool {
    match phase {
        TouchPhase::Began | TouchPhase::Moved | TouchPhase::Ended | TouchPhase::Cancelled => true,
        _ => false,
    }
}

/// How many pointer transitions a run of calls holds: each one starts by
/// marking the pointer as over the surface.
pub open spec fn transitions(steps: Seq<PointerStep>) -> nat
    decreases steps.len(),
{
    if steps.len() == 0 {
        0
    } else {
        transitions(steps.drop_last()) + if steps.last() == PointerStep::MouseInStage(true) { 1nat } else { 0nat }
    }
}

/// How many times a run of calls tells the engine the pointer left.
pub open spec fn leaves(steps: Seq<PointerStep>) -> nat
    decreases steps.len(),
{
    if steps.len() == 0 {
        0
    } else {
        leaves(steps.drop_last()) + if steps.last() == PointerStep::Send(PlayerEvent::MouseLeave) { 1nat } else { 0nat }
    }
}

/// A batch of touches, however many it holds, makes exactly one pointer
/// transition when its representative touch moves the pointer, and none
/// otherwise.
pub proof fn lemma_single_pointer(touches: Seq<Touch>, scale_milli: u32)
    requires
        touches.len() > 0,
    ensures
        is_pointer_phase(touches[0].phase) ==> transitions(batch_steps(touches, scale_milli)) == 1,
        !is_pointer_phase(touches[0].phase) ==> batch_steps(touches, scale_milli).len() == 0,
{
    let s = batch_steps(touches, scale_milli);
    reveal_with_fuel(transitions, 5);
    if s.len() == 4 {
        assert(s.drop_last().drop_last().drop_last().drop_last() =~= Seq::<PointerStep>::empty());
    } else if s.len() == 2 {
        assert(s.drop_last().drop_last() =~= Seq::<PointerStep>::empty());
    }
}

/// A lifted or cancelled touch, and no other, tells the engine exactly once
/// that the pointer left, as the last of its calls, right after its primary
/// event: a lifted touch sends the release, then the leave.
pub proof fn lemma_terminal_leave(t: Touch, scale_milli: u32)
    ensures
        (t.phase == TouchPhase::Ended || t.phase == TouchPhase::Cancelled) ==> {
            &&& leaves(touch_steps(t, scale_milli)) == 1
            &&& touch_steps(t, scale_milli).last() == PointerStep::Send(PlayerEvent::MouseLeave)
        },
        t.phase == TouchPhase::Ended ==> touch_steps(t, scale_milli)[1] is Send
            && touch_steps(t, scale_milli)[1]->Send_0 is MouseUp,
        !(t.phase == TouchPhase::Ended || t.phase == TouchPhase::Cancelled) ==> leaves(touch_steps(t, scale_milli)) == 0,
{
    let s = touch_steps(t, scale_milli);
    reveal_with_fuel(leaves, 5);
    if s.len() == 4 {
        assert(s.drop_last().drop_last().drop_last().drop_last() =~= Seq::<PointerStep>::empty());
    } else if s.len() == 2 {
        assert(s.drop_last().drop_last() =~= Seq::<PointerStep>::empty());
    }
}

/// The last character of a sequence, if any.
pub open spec fn last_char(chars: Seq<char>) -> Option<char> {
    if chars.len() == 0 {
        None
    } else {
        Some(chars.last())
    }
}

/// The key event of one press: `KeyDown` when it begins, `KeyUp` when it
/// ends or is cancelled, and none for other phases or for a press without a
/// key. The character is the last one the key reports.
pub open spec fn press_event(p: Press) -> Option<PlayerEvent> {
    match p.key {
        None => None,
        Some(k) => {
            let key_code = key_of(k.code);
            let key_char = last_char(k.characters@);
            match p.phase {
                PressPhase::Began => Some(PlayerEvent::KeyDown { key_code, key_char }),
                PressPhase::Ended | PressPhase::Cancelled => Some(PlayerEvent::KeyUp { key_code, key_char }),
                _ => None,
            }
        },
    }
}

/// The key events of a batch of presses, in order, skipping presses that
/// give none.
pub open spec fn press_events(presses: Seq<Press>) -> Seq<PlayerEvent>
    decreases presses.len(),
{
    if presses.len() == 0 {
        seq![]
    } else {
        let rest = press_events(presses.drop_last());
        match press_event(presses.last()) {
            Some(e) => rest.push(e),
            None => rest,
        }
    }
}

/// Translates one press into its key event, if it has one.
pub fn translate_press(p: &Press) -> (r: Option<PlayerEvent>)
    ensures
        r == press_event(*p),
{
    match &p.key {
        None => None,
        Some(k) => {
            let key_code = key_code_to_ruffle(k.code);
            let n = k.characters.len();
            let key_char = if n == 0 {
                None
            } else {
                Some(k.characters[n - 1])
            };
            match p.phase {
                PressPhase::Began => Some(PlayerEvent::KeyDown { key_code, key_char }),
                PressPhase::Ended | PressPhase::Cancelled => Some(PlayerEvent::KeyUp { key_code, key_char }),
                _ => None,
            }
        },
    }
}

/// Translates a batch of presses into the key events the engine gets, in
/// the order of the batch.
pub fn translate_presses(presses: &Vec<Press>) -> (r: Vec<PlayerEvent>)
    ensures
        r@ == press_events(presses@),
{
    let mut events: Vec<PlayerEvent> = Vec::new();
    let mut i: usize = 0;
    while i < presses.len()
        invariant
            i <= presses.len(),
            events@ == press_events(presses@.take(i as int)),
        decreases presses.len() - i,
    {
        proof {
            assert(presses@.take(i as int + 1).drop_last() == presses@.take(i as int));
        }
        match translate_press(&presses[i]) {
            Some(e) => events.push(e),
            None => {},
        }
        i = i + 1;
    }
    assert(presses@.take(presses.len() as int) == presses@);
    events
}

/// Whether any of the engine's answers says it consumed an event.
pub fn any_consumed(answers: &Vec<bool>) -> (r: bool)
    ensures
        r == exists|i: int| 0 <= i < answers.len() && answers[i],
{
    let mut i: usize = 0;
    while i < answers.len()
        invariant
            i <= answers.len(),
            forall|j: int| 0 <= j < i ==> !answers[j],
        decreases answers.len() - i,
    {
        if answers[i] {
            return true;
        }
        i = i + 1;
    }
    false
}

} // verus!
