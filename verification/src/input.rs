//! Input events and the keys that the simulation listens to.
use crate::bounding_box::AABB;
use crate::fixed::{sat_neg, ONE, TWO};
use crate::vec2::{vec2, Vec2};
use vstd::prelude::*;
use vstd::string::*;

verus! {

/// What the player did with the mouse or the keyboard.
#[derive(Debug)]
pub enum InputEvent {
    /// The wheel was turned; the value is the direction as a fixed-point sign.
    Wheel(i64),
    LeftClick,
    RightClick,
    /// A key went down; the value is the key's name.
    KeyDown(String),
    /// A key came up; the value is the key's name.
    KeyUp(String),
}

impl Clone for InputEvent {
    fn clone(&self) -> (r: InputEvent)
        ensures
            r == *self,
    {
        match self {
            InputEvent::Wheel(d) => InputEvent::Wheel(*d),
            InputEvent::LeftClick => InputEvent::LeftClick,
            InputEvent::RightClick => InputEvent::RightClick,
            InputEvent::KeyDown(k) => InputEvent::KeyDown(k.clone()),
            InputEvent::KeyUp(k) => InputEvent::KeyUp(k.clone()),
        }
    }
}

/// Which control a key stands for, as an index into the player's controls:
/// `d` and `ArrowRight` move right (0), `a` and `ArrowLeft` move left (1), `w`
/// and `ArrowUp` jump (2). Other keys stand for nothing.
pub open spec fn spec_control_of(key: Seq<char>) -> Option<usize> {
    if key == "d"@ || key == "ArrowRight"@ {
        Some(0usize)
    } else if key == "a"@ || key == "ArrowLeft"@ {
        Some(1usize)
    } else if key == "w"@ || key == "ArrowUp"@ {
        Some(2usize)
    } else {
        None
    }
}

/// The controls after an event: a key that stands for a control sets it when it
/// goes down and clears it when it comes up; every other event changes
/// nothing.
pub open spec fn controls_after(controls: Seq<bool>, e: InputEvent) -> Seq<bool> {
    match e {
        InputEvent::KeyDown(k) => match spec_control_of(k@) {
            Some(i) => controls.update(i as int, true),
            None => controls,
        },
        InputEvent::KeyUp(k) => match spec_control_of(k@) {
            Some(i) => controls.update(i as int, false),
            None => controls,
        },
        _ => controls,
    }
}

/// Whether two strings hold the same characters.
pub fn same_text(a: &str, b: &str) -> (r: bool)
    ensures
        r == (a@ == b@),
{
    let n = a.unicode_len();
    if n != b.unicode_len() {
        return false;
    }
    let mut i: usize = 0;
    while i < n
        invariant
            i <= n,
            n == a@.len(),
            n == b@.len(),
            forall|k: int| 0 <= k < i ==> a@[k] == b@[k],
        decreases n - i,
    {
        if a.get_char(i) != b.get_char(i) {
            return false;
        }
        i += 1;
    }
    assert(a@ =~= b@);
    true
}

/// Finds the control that a key stands for.
pub fn control_of(key: &str) -> (r: Option<usize>)
    ensures
        r == spec_control_of(key@),
{
    if same_text(key, "d") || same_text(key, "ArrowRight") {
        Some(0)
    } else if same_text(key, "a") || same_text(key, "ArrowLeft") {
        Some(1)
    } else if same_text(key, "w") || same_text(key, "ArrowUp") {
        Some(2)
    } else {
        None
    }
}

/// Where the pointer is on the canvas, in coordinates that run from -1 to 1
/// across it, with y upward; nothing for a pointer that is not strictly inside.
/// The canvas is given by its corner and size, in the coordinates of `pointer`,
/// where y runs downward.
pub open spec fn spec_screen_coords(pointer: Vec2, canvas: AABB) -> Option<Vec2> {
    if canvas.contains(pointer) {
        let c = pointer.minus(canvas.pos).over(canvas.size).scale(TWO).minus(
            Vec2 { x: ONE, y: ONE },
        );
        Some(Vec2 { x: c.x, y: sat_neg(c.y) })
    } else {
        None
    }
}

/// Finds where the pointer is on the canvas.
#[verifier::when_used_as_spec(spec_screen_coords)]
pub fn screen_coords(pointer: Vec2, canvas: AABB) -> (r: Option<Vec2>)
    ensures
        r == spec_screen_coords(pointer, canvas),
{
    let far = canvas.pos.plus(canvas.size);
    if canvas.pos.x < pointer.x && far.x > pointer.x && canvas.pos.y < pointer.y && far.y
        > pointer.y {
        let c = pointer.minus(canvas.pos).over(canvas.size).scale(TWO).minus(vec2(ONE, ONE));
        Some(vec2(c.x, sat_neg(c.y)))
    } else {
        None
    }
}

/// An event that is applied twice in a row has the effect of being applied
/// once.
pub proof fn repeated_event_changes_nothing(controls: Seq<bool>, e: InputEvent)
    requires
        controls.len() == 4,
    ensures
        controls_after(controls_after(controls, e), e) == controls_after(controls, e),
{
    assert(controls_after(controls_after(controls, e), e) =~= controls_after(controls, e));
}

} // verus!
