//! Classification of captured Ethernet frames.
//!
//! A frame is classified by its EtherType: the decoder of the protocol that
//! the tag names is run on the frame, and what it reports is wrapped in an
//! [`network::ethernet::EthernetFrame`]. A frame of any other type is
//! classified as `Unknown`, which is a success.

pub mod network;
