//! Starting Lynx on a window.
//!
//! The engine and the window belong to crates that this library does not
//! link. The two calls into them are handed in by the application; the order
//! in which they are made, and what is passed from one to the other, is fixed
//! here.

use vstd::prelude::*;

verus! {

/// Builds one Lynx and runs it on `window`.
///
/// `build` stands for the engine's constructor and `run` for its entry point.
/// Each is called once, `build` first, and `run` receives the very engine that
/// `build` returned together with the caller's window. The window is only
/// borrowed and is the caller's again afterwards; nothing is kept between calls
/// and nothing depends on which window it is.
///
/// The caller owes that `build` may be called, and that `run` accepts every
/// engine `build` can return together with this window. Nothing here catches a
/// panic: one raised by `build` or `run` is the caller's.
pub fn initialize_lynx<W, L, B, R>(window: &W, build: B, run: R)
    where
        B: FnOnce() -> L,
        R: FnOnce(L, &W),
    requires
        build.requires(()),
        forall|lynx: L| build.ensures((), lynx) ==> run.requires((lynx, window)),
    ensures
        exists|lynx: L| build.ensures((), lynx) && run.ensures((lynx, window), ()),
{
    let lynx = build();
    run(lynx, window);
}

} // verus!
