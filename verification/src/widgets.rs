use vstd::prelude::*;

verus! {

/// Which button of a row of three was pressed.
#[derive(Clone, Copy, PartialEq, Eq, Debug, Structural)]
pub enum TripleButtonAction {
    /// The left button.
    Left,
    /// The middle button.
    Center,
    /// The right button.
    Right,
}

/// The action of a row of three buttons, given which of them were clicked
/// in one frame: the buttons are read left to right and a later click
/// replaces an earlier one, so the rightmost clicked button wins; with none
/// clicked there is no action.
pub fn clicked_action(left: bool, center: bool, right: bool) -> (action: Option<TripleButtonAction>)
    ensures
        right ==> action == Some(TripleButtonAction::Right),
        !right && center ==> action == Some(TripleButtonAction::Center),
        !right && !center && left ==> action == Some(TripleButtonAction::Left),
        !right && !center && !left ==> action is None,
{
    let mut action = None;
    if left {
        action = Some(TripleButtonAction::Left);
    }
    if center {
        action = Some(TripleButtonAction::Center);
    }
    if right {
        action = Some(TripleButtonAction::Right);
    }
    action
}

} // verus!
