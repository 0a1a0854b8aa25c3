//! Focus navigation with Tab and Shift+Tab between widgets
use vstd::prelude::*;
use crate::utils::text::str_equal;

verus! {

/// Which way a key moves focus.
#[derive(Clone, Copy, Debug, PartialEq, Eq, Structural)]
pub enum FocusMove {
    /// To the next focusable element
    Next,
    /// To the previous focusable element
    Prev,
}

/// Handle tab key navigation in a key handler: Tab moves focus to the next element and
/// Shift+Tab to the previous one; any other key is not handled (`None`).
pub fn handle_tab_navigation(key: &str, shift: bool) -> (r: Option<FocusMove>)
    ensures
        key@ == "tab"@ ==> r == Some(
            if shift {
                FocusMove::Prev
            } else {
                FocusMove::Next
            },
        ),
        key@ != "tab"@ ==> r is None,
{
    if str_equal(key, "tab") {
        if shift {
            Some(FocusMove::Prev)
        } else {
            Some(FocusMove::Next)
        }
    } else {
        None
    }
}

} // verus!
