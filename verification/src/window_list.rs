//! The windows on the screen: the frame of the front window of a process.
use vstd::prelude::*;

use crate::rect::Rect;

verus! {

/// The entries of the bounds of a window, each where it is there.
#[derive(Debug, Clone, Copy, PartialEq)]
pub struct BoundsEntries<N> {
    pub x: Option<N>,
    pub y: Option<N>,
    pub width: Option<N>,
    pub height: Option<N>,
}

/// What the window list says of one window.
#[derive(Debug, Clone, Copy, PartialEq)]
pub struct WindowInfo<N> {
    /// The number of the process that owns the window.
    pub owner_pid: Option<i64>,
    pub layer: Option<i64>,
    /// Whether the window has an alpha value, and it is above zero.
    pub visible: bool,
    pub bounds: Option<BoundsEntries<N>>,
}

/// The frame that the entries give, where all of them are there.
pub open spec fn complete_bounds<N>(bounds: Option<BoundsEntries<N>>) -> Option<Rect<N>> {
    match bounds {
        Some(BoundsEntries { x: Some(x), y: Some(y), width: Some(width), height: Some(height) }) =>
        Some(Rect { x, y, width, height }),
        _ => None,
    }
}

/// The frame of a window, where it is a visible window of `pid` on the normal layer and its
/// bounds are complete.
pub open spec fn frame_for_pid<N>(window: WindowInfo<N>, pid: i32) -> Option<Rect<N>> {
    if window.owner_pid is Some && window.owner_pid->0 as i32 == pid && window.layer == Some(0i64)
        && window.visible {
        complete_bounds(window.bounds)
    } else {
        None
    }
}

/// The process that owns a window. The window list holds a wider number than a process has,
/// and only its lower half counts.
pub fn window_pid(owner_pid: Option<i64>) -> (pid: Option<i32>)
    ensures
        pid == (match owner_pid {
            Some(number) => Some(number as i32),
            None => None::<i32>,
        }),
{
    match owner_pid {
        Some(number) => Some(
            #[verifier::truncate]
            (number as i32),
        ),
        None => None,
    }
}

/// The frame that the bounds of a window give, where they are complete.
pub fn window_bounds<N>(bounds: Option<BoundsEntries<N>>) -> (frame: Option<Rect<N>>)
    ensures
        frame == complete_bounds(bounds),
{
    let bounds = match bounds {
        Some(bounds) => bounds,
        None => return None,
    };
    let x = match bounds.x {
        Some(x) => x,
        None => return None,
    };
    let y = match bounds.y {
        Some(y) => y,
        None => return None,
    };
    let width = match bounds.width {
        Some(width) => width,
        None => return None,
    };
    let height = match bounds.height {
        Some(height) => height,
        None => return None,
    };
    Some(Rect { x, y, width, height })
}

/// The frame of the front window of `pid`: the first in the list, which runs from front to
/// back, that is a visible window of the process on the normal layer with complete bounds.
pub fn frontmost_window_frame_for_pid<N: Copy>(windows: &Vec<WindowInfo<N>>, pid: i32) -> (frame:
    Option<Rect<N>>)
    ensures
        frame is None <==> forall|i: int|
            0 <= i < windows@.len() ==> frame_for_pid(#[trigger] windows@[i], pid) is None,
        frame is Some ==> exists|i: int|
            0 <= i < windows@.len() && frame_for_pid(#[trigger] windows@[i], pid) == frame
                && forall|j: int| 0 <= j < i ==> frame_for_pid(#[trigger] windows@[j], pid) is None,
        frame matches Some(frame) ==> exists|i: int|
            0 <= i < windows@.len() && {
                let window = #[trigger] windows@[i];
                &&& window.layer == Some(0i64)
                &&& window.visible
                &&& window.owner_pid is Some
                &&& window.owner_pid->0 as i32 == pid
                &&& window.bounds == Some(
                    BoundsEntries {
                        x: Some(frame.x),
                        y: Some(frame.y),
                        width: Some(frame.width),
                        height: Some(frame.height),
                    },
                )
                &&& forall|j: int|
                    0 <= j < i ==> {
                        let earlier = #[trigger] windows@[j];
                        ||| earlier.layer != Some(0i64)
                        ||| !earlier.visible
                        ||| earlier.owner_pid is None
                        ||| earlier.owner_pid->0 as i32 != pid
                        ||| earlier.bounds is None
                        ||| earlier.bounds->0.x is None
                        ||| earlier.bounds->0.y is None
                        ||| earlier.bounds->0.width is None
                        ||| earlier.bounds->0.height is None
                    }
            },
        frame is None ==> forall|j: int|
            0 <= j < windows@.len() ==> {
                let window = #[trigger] windows@[j];
                ||| window.layer != Some(0i64)
                ||| !window.visible
                ||| window.owner_pid is None
                ||| window.owner_pid->0 as i32 != pid
                ||| window.bounds is None
                ||| window.bounds->0.x is None
                ||| window.bounds->0.y is None
                ||| window.bounds->0.width is None
                ||| window.bounds->0.height is None
            },
{
    let mut i: usize = 0;
    while i < windows.len()
        invariant
            i <= windows@.len(),
            forall|j: int| 0 <= j < i ==> frame_for_pid(#[trigger] windows@[j], pid) is None,
        decreases windows@.len() - i,
    {
        let window = windows[i];
        if let Some(owner) = window_pid(window.owner_pid) {
            if let Some(layer) = window.layer {
                if owner == pid && layer == 0 && window.visible {
                    let frame = window_bounds(window.bounds);
                    if frame.is_some() {
                        assert(frame_for_pid(windows@[i as int], pid) == frame);
                        return frame;
                    }
                }
            }
        }
        i += 1;
    }
    None
}

/// A window gives a frame to a process exactly where it lies on layer zero, is visible, is owned
/// by a number that narrows to that of the process, and has all four measures of its bounds; the
/// frame has these four measures.
pub proof fn law_which_windows_give_a_frame<N>(window: WindowInfo<N>, pid: i32)
    ensures
        frame_for_pid(window, pid) is Some <==> {
            &&& window.layer == Some(0i64)
            &&& window.visible
            &&& window.owner_pid is Some
            &&& window.owner_pid->0 as i32 == pid
            &&& window.bounds is Some
            &&& window.bounds->0.x is Some
            &&& window.bounds->0.y is Some
            &&& window.bounds->0.width is Some
            &&& window.bounds->0.height is Some
        },
        frame_for_pid(window, pid) matches Some(frame) ==> {
            &&& window.bounds->0.x == Some(frame.x)
            &&& window.bounds->0.y == Some(frame.y)
            &&& window.bounds->0.width == Some(frame.width)
            &&& window.bounds->0.height == Some(frame.height)
        },
        complete_bounds(window.bounds) is Some <==> {
            &&& window.bounds is Some
            &&& window.bounds->0.x is Some
            &&& window.bounds->0.y is Some
            &&& window.bounds->0.width is Some
            &&& window.bounds->0.height is Some
        },
        complete_bounds(window.bounds) matches Some(frame) ==> window.bounds == Some(
            BoundsEntries {
                x: Some(frame.x),
                y: Some(frame.y),
                width: Some(frame.width),
                height: Some(frame.height),
            },
        ),
{
}

} // verus!
