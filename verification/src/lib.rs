//! Hover detection and cursor-state derivation for editable text widgets.
//!
//! The library decides, once per tick, whether the mouse pointer is over an
//! editable text widget and what the cursor should therefore look like.
//! Three stages run in a fixed order:
//!
//! 1. [`detector::SpriteHoverDetector`] hit-tests the projected pointer
//!    position against the bounding boxes of world-space text widgets and
//!    debounces the result into discrete enter/leave events.
//! 2. [`relay::hover_ui`] translates per-widget interaction-state changes of
//!    UI-rendered text widgets into the same event vocabulary.
//! 3. [`reconciler::change_cursor`] reconciles those events with raw input
//!    activity and mutates the display surface's cursor marker and
//!    visibility flag.
//!
//! [`plugin::CursorPlugin`] chains the three stages, honouring the
//! [`plugin::CursorPluginDisabled`] opt-out switch. The host (window and
//! input layer) gathers the per-tick inputs as plain values and applies the
//! resulting surface state; everything it hands in and takes back is covered
//! by the contracts here.

pub mod detector;
pub mod events;
pub mod geometry;
pub mod plugin;
pub mod reconciler;
pub mod relay;
