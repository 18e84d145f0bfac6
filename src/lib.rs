//! Engine-independent decisions of an editor built from dockable panes.
//!
//! A node-graph pane shows an offscreen render target inside a UI node and
//! routes pointer input into it; the editor switches its system sets between
//! an editing state and a playing state. The engine-facing plugins perform
//! the actions that the functions here decide.
pub mod editor;
pub mod pane;
