//! Pure decisions behind the web platform's input handling: which DOM element
//! must own focus, and how raw mouse and pointer events are classified.

pub mod focus_policy;
pub mod mouse_buttons;

pub use focus_policy::{focus_host, focus_transition, FocusHost, FocusOwner};

pub use mouse_buttons::dom_button_from_buttons;
pub use mouse_buttons::should_handle_pointer_button_event;
