//! Startup wiring of the application shell: which window is the main one,
//! and how a second start of the application is turned into a refocus of
//! the first one.
use vstd::prelude::*;

verus! {

/// Label of the application's main window.
pub const MAIN_WINDOW: &'static str = "main";

/// Something done to the main window.
#[derive(PartialEq, Eq, Structural, Clone, Copy, Debug)]
pub enum WindowAction {
    /// Make the window visible.
    Show,
    /// Give the window the input focus.
    Focus,
}

/// Whether only one instance of the application may run: so in release
/// builds, not in debug builds.
pub fn single_instance_enabled(debug_build: bool) -> (r: bool)
    ensures
        r == !debug_build,
{
    !debug_build
}

/// What is done, in order, when the application is started a second time
/// while it runs: the main window, if there is one, is shown and then
/// focused; without a main window nothing is done.
pub fn on_second_instance(window_found: bool) -> (r: Vec<WindowAction>)
    ensures
        window_found ==> r@ == seq![WindowAction::Show, WindowAction::Focus],
        !window_found ==> r@ == Seq::<WindowAction>::empty(),
{
    if window_found {
        let r = vec![WindowAction::Show, WindowAction::Focus];
        assert(r@ =~= seq![WindowAction::Show, WindowAction::Focus]);
        r
    } else {
        let r: Vec<WindowAction> = Vec::new();
        assert(r@ =~= Seq::<WindowAction>::empty());
        r
    }
}

} // verus!
