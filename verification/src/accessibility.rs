//! Reading the accessibility interface of macOS: what its error codes mean to the
//! highlighter, and the order in which an element is asked for the place of its text.
use vstd::prelude::*;

use crate::rect::Rect;
use crate::text::joined;
use crate::text::same_text;

verus! {

/// The error codes of the accessibility interface that are told apart.
pub const AX_ERROR_SUCCESS: i32 = 0;

pub const AX_ERROR_ILLEGAL_ARGUMENT: i32 = -25201;

pub const AX_ERROR_NO_VALUE: i32 = -25212;

pub const AX_ERROR_PARAMETERIZED_ATTRIBUTE_UNSUPPORTED: i32 = -25213;

/// Whether the process may read other applications.
#[derive(Debug, Clone, Copy, PartialEq, Eq, Structural)]
pub enum AccessibilityPermissionStatus {
    Granted,
    NotGranted,
}

/// The status of a process that the system does or does not trust.
pub fn accessibility_permission_status(trusted: bool) -> (status: AccessibilityPermissionStatus)
    ensures
        status == (if trusted {
            AccessibilityPermissionStatus::Granted
        } else {
            AccessibilityPermissionStatus::NotGranted
        }),
{
    if trusted {
        AccessibilityPermissionStatus::Granted
    } else {
        AccessibilityPermissionStatus::NotGranted
    }
}

/// Whether an attribute was read: the call must have succeeded, and the value must be there.
/// Otherwise the message says what went wrong; `error_text` is the name of `error`.
pub fn ax_element_attribute(error: i32, error_text: &str, value_is_null: bool, name: &str) -> (
    read: Result<(), String>)
    ensures
        error != AX_ERROR_SUCCESS ==> read is Err && read->Err_0@
            == "AXUIElementCopyAttributeValue failed: "@ + error_text@,
        error == AX_ERROR_SUCCESS && value_is_null ==> read is Err && read->Err_0@
            == "AXUIElementCopyAttributeValue returned null for "@ + name@,
        error == AX_ERROR_SUCCESS && !value_is_null ==> read is Ok,
{
    if error != AX_ERROR_SUCCESS {
        return Err(joined("AXUIElementCopyAttributeValue failed: ", error_text));
    }
    if value_is_null {
        return Err(joined("AXUIElementCopyAttributeValue returned null for ", name));
    }
    Ok(())
}

/// The process of the focused application, where the call that reads it has succeeded.
pub fn focused_window_pid(error: i32, error_text: &str, pid: i32) -> (focused: Result<i32, String>)
    ensures
        error == AX_ERROR_SUCCESS ==> focused == Ok::<i32, String>(pid),
        error != AX_ERROR_SUCCESS ==> focused is Err && focused->Err_0@
            == "AXUIElementGetPid failed: "@ + error_text@,
{
    if error != AX_ERROR_SUCCESS {
        return Err(joined("AXUIElementGetPid failed: ", error_text));
    }
    Ok(pid)
}

/// Whether an element is a text area, by the role that it gives, if it gives one.
pub fn is_textarea(role: Option<&str>) -> (text_area: bool)
    ensures
        text_area <==> role is Some && role->0@ == "AXTextArea"@,
{
    match role {
        Some(role) => same_text(role, "AXTextArea"),
        None => false,
    }
}

/// What an element answered while it was asked for the bounds of a range of its text.
pub enum RangeEvent<N> {
    /// The bounds of this range of the text are wanted.
    Wanted { start_index: isize, length: isize },
    /// The value that stands for a range was, or was not, created.
    RangeCreated { location: isize, length: isize, created: bool },
    /// The bounds were asked for: the error code, and whether a value came with it.
    BoundsCopied { error: i32, has_value: bool },
    /// The value is, or is not, a rectangle.
    TypeChecked(bool),
    /// The rectangle was read out of the value, or could not be.
    RectRead(Option<Rect<N>>),
}

/// What to ask an element next.
pub enum RangeAction<N> {
    /// Create the value that stands for this range.
    CreateRange { location: isize, length: isize },
    /// Ask for the bounds of this range, with the value created for it.
    CopyBounds { location: isize, length: isize },
    /// Look at the type of the value.
    CheckType,
    /// Read the rectangle out of the value.
    ReadRect,
    /// Nothing: the bounds of the range, `None` where the element has none to give, or the
    /// error code.
    Done(Result<Option<Rect<N>>, i32>),
}

/// Whether an error code says that the element has no bounds to give, which is no failure.
pub open spec fn means_no_bounds(error: i32) -> bool {
    error == AX_ERROR_NO_VALUE || error == AX_ERROR_PARAMETERIZED_ATTRIBUTE_UNSUPPORTED
}

/// The action that follows an event.
pub open spec fn range_action<N>(event: RangeEvent<N>) -> RangeAction<N> {
    match event {
        RangeEvent::Wanted { start_index, length } => RangeAction::CreateRange {
            location: start_index,
            length,
        },
        RangeEvent::RangeCreated { location, length, created } => if created {
            RangeAction::CopyBounds { location, length }
        } else {
            RangeAction::Done(Err(AX_ERROR_ILLEGAL_ARGUMENT))
        },
        RangeEvent::BoundsCopied { error, has_value } => if error == AX_ERROR_SUCCESS && has_value {
            RangeAction::CheckType
        } else if error == AX_ERROR_SUCCESS || means_no_bounds(error) {
            RangeAction::Done(Ok(None))
        } else {
            RangeAction::Done(Err(error))
        },
        RangeEvent::TypeChecked(is_rect) => if is_rect { RangeAction::ReadRect } else {
            RangeAction::Done(Ok(None))
        },
        RangeEvent::RectRead(rect) => RangeAction::Done(Ok(rect)),
    }
}

/// Decides what to ask an element next for the bounds of a range of its text.
pub fn element_rect_for_text_range<N>(event: RangeEvent<N>) -> (action: RangeAction<N>)
    ensures
        action == range_action(event),
{
    match event {
        RangeEvent::Wanted { start_index, length } => {
            RangeAction::CreateRange { location: start_index, length }
        },
        RangeEvent::RangeCreated { location, length, created } => {
            if !created {
                return RangeAction::Done(Err(AX_ERROR_ILLEGAL_ARGUMENT));
            }
            RangeAction::CopyBounds { location, length }
        },
        RangeEvent::BoundsCopied { error, has_value } => {
            if error == AX_ERROR_SUCCESS {
                if !has_value {
                    return RangeAction::Done(Ok(None));
                }
                RangeAction::CheckType
            } else if error == AX_ERROR_NO_VALUE || error
                == AX_ERROR_PARAMETERIZED_ATTRIBUTE_UNSUPPORTED {
                RangeAction::Done(Ok(None))
            } else {
                RangeAction::Done(Err(error))
            }
        },
        RangeEvent::TypeChecked(is_rect) => {
            if !is_rect {
                return RangeAction::Done(Ok(None));
            }
            RangeAction::ReadRect
        },
        RangeEvent::RectRead(rect) => RangeAction::Done(Ok(rect)),
    }
}

/// The range that stands for a part of a text, which is given by where it starts and how long it
/// is, in characters. The system counts in signed numbers.
pub fn text_range(start: usize, length: usize) -> (range: (isize, isize))
    ensures
        range == (start as isize, length as isize),
{
    (
        #[verifier::truncate]
        (start as isize),
        #[verifier::truncate]
        (length as isize),
    )
}

/// Everything that an element would answer to the questions about one range.
pub struct RangeAnswers<N> {
    pub created: bool,
    pub error: i32,
    pub has_value: bool,
    pub is_rect: bool,
    pub rect: Option<Rect<N>>,
}

/// The result of asking an element, question by question, from an event on. `answers` gives what
/// it answers for each range, by location and length, and `copied` what it answers for the
/// range whose bounds were asked for last.
pub open spec fn range_result<N>(
    answers: spec_fn(isize, isize) -> RangeAnswers<N>,
    copied: RangeAnswers<N>,
    event: RangeEvent<N>,
    questions: nat,
) -> Option<Result<Option<Rect<N>>, i32>>
    decreases questions,
{
    if questions == 0 {
        None
    } else {
        let rest = (questions - 1) as nat;
        match range_action(event) {
            RangeAction::CreateRange { location, length } => range_result(
                answers,
                copied,
                RangeEvent::RangeCreated {
                    location,
                    length,
                    created: answers(location, length).created,
                },
                rest,
            ),
            RangeAction::CopyBounds { location, length } => {
                let about = answers(location, length);
                range_result(
                    answers,
                    about,
                    RangeEvent::BoundsCopied { error: about.error, has_value: about.has_value },
                    rest,
                )
            },
            RangeAction::CheckType => range_result(
                answers,
                copied,
                RangeEvent::TypeChecked(copied.is_rect),
                rest,
            ),
            RangeAction::ReadRect => range_result(
                answers,
                copied,
                RangeEvent::RectRead(copied.rect),
                rest,
            ),
            RangeAction::Done(result) => Some(result),
        }
    }
}

/// Five steps settle the bounds of a range, and they are settled by what the element answers for
/// that very range, whatever it would answer for others. They are an error where the range
/// cannot be made or the element answers with a code that is neither success nor one for missing
/// bounds; they are a rectangle where every answer is favourable; and otherwise there are none.
pub proof fn law_range_is_settled<N>(
    answers: spec_fn(isize, isize) -> RangeAnswers<N>,
    before: RangeAnswers<N>,
    start_index: isize,
    length: isize,
)
    ensures
        ({
            let about = answers(start_index, length);
            range_result(answers, before, RangeEvent::Wanted { start_index, length }, 5) == Some(
                if !about.created {
                    Err::<Option<Rect<N>>, i32>((-25201) as i32)
                } else if about.error != 0 && about.error != -25212 && about.error != -25213 {
                    Err(about.error)
                } else if about.error == 0 && about.has_value && about.is_rect {
                    Ok(about.rect)
                } else {
                    Ok(None)
                },
            )
        }),
{
    reveal_with_fuel(range_result, 6);
}

/// What each answer of an element leads to. The range that is wanted is the one that is created
/// and asked about; a range that cannot be created is an illegal argument; an answer without a
/// value, and the codes for a missing value and for an attribute that is not supported, mean that
/// there are no bounds; any other code is the error; and only a rectangle is read.
pub proof fn law_answers_about_a_range<N>(
    start_index: isize,
    length: isize,
    error: i32,
    has_value: bool,
    rect: Option<Rect<N>>,
)
    ensures
        range_action(RangeEvent::<N>::Wanted { start_index, length }) == (
        RangeAction::<N>::CreateRange { location: start_index, length }),
        range_action(
            RangeEvent::<N>::RangeCreated { location: start_index, length, created: true },
        ) == (RangeAction::<N>::CopyBounds { location: start_index, length }),
        range_action(
            RangeEvent::<N>::RangeCreated { location: start_index, length, created: false },
        ) == RangeAction::<N>::Done(Err((-25201) as i32)),
        ({
            let action = range_action(RangeEvent::<N>::BoundsCopied { error, has_value });
            &&& error == 0 && has_value ==> action is CheckType
            &&& error == 0 && !has_value ==> action == RangeAction::<N>::Done(Ok(None))
            &&& error == -25212 || error == -25213 ==> action == RangeAction::<N>::Done(Ok(None))
            &&& error != 0 && error != -25212 && error != -25213 ==> action == RangeAction::<
                N,
            >::Done(Err(error))
        }),
        range_action(RangeEvent::<N>::TypeChecked(true)) is ReadRect,
        range_action(RangeEvent::<N>::TypeChecked(false)) == RangeAction::<N>::Done(Ok(None)),
        range_action(RangeEvent::RectRead(rect)) == RangeAction::<N>::Done(Ok(rect)),
{
}

/// The codes of the accessibility interface that are told apart.
pub proof fn law_error_codes()
    ensures
        AX_ERROR_SUCCESS == 0,
        AX_ERROR_ILLEGAL_ARGUMENT == -25201,
        AX_ERROR_NO_VALUE == -25212,
        AX_ERROR_PARAMETERIZED_ATTRIBUTE_UNSUPPORTED == -25213,
{
}

} // verus!
