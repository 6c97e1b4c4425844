//! Startup rules of a desktop shell that shows Lynx in its main window.
//!
//! The windowing framework, the Lynx engine and the event loop belong to the
//! application. This library holds what the application decides and orders
//! while it starts: under which label it looks for the window that hosts Lynx,
//! what becomes of setup when no window carries that label, and how Lynx is
//! built and then run on the window that was found.

pub mod lynx_integration;
pub mod startup;
