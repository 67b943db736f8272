//! Decoder for the framed binary protocol spoken by a spinning LIDAR sensor.
//!
//! A frame is a 12-byte header, a payload and a 12-byte tail. The payload is
//! guarded by a CRC-32/ISO-HDLC checksum stored in the tail. [`Packet::parse`]
//! decodes the frame at the start of a buffer and hands back the bytes that
//! follow it, so a caller can walk a buffer of back-to-back frames.
//!
//! The decoder keeps no state and does not look for the next frame after an
//! error. Numbers that the wire holds as IEEE 754 values are handed out as
//! their bit patterns.

pub mod ack;
pub mod checksum;
pub mod command;
pub mod cursor;
pub mod error;
pub mod frame;
pub mod imu;
pub mod info;
pub mod laws;
pub mod packet;
pub mod point_data;
pub mod user_ctrl_cmd;
pub mod version;
pub mod work_mode;

pub use error::ParseError;
pub use packet::Packet;
