//! Decoding of raw HID interrupt reports from a PS4-style game controller
//! into structured button events, together with the delivery pipeline that
//! hands decoded event batches from an acquisition worker to a consumer.

pub mod assemble;
pub mod buttons;
pub mod channel;
pub mod decode;
pub mod pipeline;
