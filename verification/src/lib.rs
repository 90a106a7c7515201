//! Window-identity policy for per-ticket satellite windows.
//!
//! Each ticket identifier owns at most one satellite window. The window is
//! addressed by a label derived from the identifier, created on the first
//! request and focused on every later one while it stays open. The modules
//! here derive the label, the content address and the window configuration,
//! decide between focusing and creating, and map host failures to the one
//! error kind the caller sees. The windowing host itself (the layer that owns
//! real on-screen windows) sits outside this crate: a thin shell queries it,
//! performs the planned action and reports the outcome back.

pub mod decimal;
pub mod dispatch;
pub mod greeting;
pub mod label;
pub mod window;
