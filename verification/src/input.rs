//! Input devices: what turns pointer events into input on the host.

pub mod mouse_device;
