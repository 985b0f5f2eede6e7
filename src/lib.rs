//! Emulation of a virtio-input device (keyboard or mouse): the config-space
//! negotiation, the binary wire records and the staging of events for the guest.
pub mod buffer;
pub mod device;
pub mod event_handler;
pub mod protocol;
