use vstd::prelude::*;

verus! {

/// What a focusable widget is told to do while the widget tree is walked.
#[derive(Clone, Copy, Debug, PartialEq, Eq, Structural)]
pub enum FocusAction {
    Focus,
    Unfocus,
}

/// The action owed to a widget, given the index of the widget that holds the
/// focus at present (`None` where no widget holds it).
pub open spec fn focus_action(focused: Option<usize>) -> FocusAction {
    match focused {
        None => FocusAction::Focus,
        Some(i) => if i == 0 { FocusAction::Focus } else { FocusAction::Unfocus },
    }
}

/// Decides whether a visited widget takes or gives up the focus so that the
/// first widget ends up focused.
pub fn focus_first(focused: Option<usize>) -> (action: FocusAction)
    ensures
        action == focus_action(focused),
{
    match focused {
        None => FocusAction::Focus,
        Some(0) => FocusAction::Focus,
        Some(_) => FocusAction::Unfocus,
    }
}

} // verus!
