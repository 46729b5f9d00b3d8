//! Interaction logic of a rotary parameter knob for plugin editors.
//!
//! The knob reads the pointer and keyboard state of one frame and decides what
//! happens to the parameter it controls: gestures are opened and closed, the
//! value is reset, dragged finely or set from the pointer, and the value text can
//! be edited. The arc the knob is drawn with is described as a mesh over ring
//! samples. Geometry, painting and the parameter itself live with the host.

pub mod action;
pub mod arc;
pub mod editor;
pub mod granular;
pub mod knob;
pub mod text_entry;
