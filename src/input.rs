//! The decision of the input loop: what one key does to the viewport.
use vstd::prelude::*;
use crate::screen::Screen;

verus! {

/// What the input loop does after a key: show a viewport, or quit.
#[derive(Clone, Copy, Debug, PartialEq, Eq)]
pub enum KeyAction {
    Show(Screen),
    Quit,
}

/// Whether moving down is allowed: the selection has room to grow, and it
/// does not go past the last post of a stream that has ended.
pub open spec fn can_go_down(screen: Screen, buffered: int, ended: bool) -> bool {
    screen.line < i32::MAX && !(ended && screen.line + 1 >= buffered)
}

/// The action for one key, given how many posts are buffered and whether
/// the stream has ended: `j` moves down, `k` moves up, `q` quits, and any
/// other key leaves the viewport as it is.
pub fn on_key(screen: Screen, key: char, buffered: usize, ended: bool) -> (r: KeyAction)
    requires
        screen.wf(),
    ensures
        key == 'q' ==> r == KeyAction::Quit,
        key == 'k' ==> r == KeyAction::Show(screen.up_spec()),
        key == 'j' ==> r == KeyAction::Show(
            if can_go_down(screen, buffered as int, ended) { screen.down_spec() } else { screen },
        ),
        key != 'j' && key != 'k' && key != 'q' ==> r == KeyAction::Show(screen),
        r matches KeyAction::Show(s) ==> s.wf() && s.height == screen.height && s.width == screen.width,
{
    if key == 'q' {
        KeyAction::Quit
    } else if key == 'k' {
        KeyAction::Show(screen.up())
    } else if key == 'j' {
        if screen.line < i32::MAX && !(ended && screen.line as u64 + 1 >= buffered as u64) {
            KeyAction::Show(screen.down())
        } else {
            KeyAction::Show(screen)
        }
    } else {
        KeyAction::Show(screen)
    }
}

} // verus!
