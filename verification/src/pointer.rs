use vstd::prelude::*;

use crate::commands::InputCommand;

verus! {

/// The event a horizontal scroll-wheel reading decodes to: a positive
/// magnitude scrolls right, a negative one scrolls left, and exactly zero
/// produces no event.
pub open spec fn spec_scroll_command(horiz: int) -> Option<InputCommand> {
    if horiz > 0 {
        Some(InputCommand::ScrollRight)
    } else if horiz < 0 {
        Some(InputCommand::ScrollLeft)
    } else {
        None
    }
}

/// Decodes one horizontal scroll-wheel reading, handed in as a signed
/// magnitude whose sign is the scroll direction.
pub fn pointer_handle_scroll_event(horiz: i64) -> (r: Option<InputCommand>)
    ensures
        r == spec_scroll_command(horiz as int),
{
    if horiz > 0 {
        Some(InputCommand::ScrollRight)
    } else if horiz < 0 {
        Some(InputCommand::ScrollLeft)
    } else {
        None
    }
}

} // verus!
