//! A consumer-facing datagram socket adapter layered over a shared,
//! single-threaded, poll-driven protocol engine context.
//!
//! The shared context ([`stack::SocketStack`]) owns a pool of socket states,
//! each holding a bound endpoint and two fixed-capacity FIFO packet buffers.
//! A [`udp::UdpSocket`] is a handle into that pool; its operations translate
//! bind/send/receive requests into mutations of the pooled state, signal a
//! driver wake on every mutation, and surface only a narrow error set.
//! Exclusive access to the context is passed explicitly through every call,
//! so the non-reentrancy the design demands is enforced by ownership.

pub mod buffer;
pub mod endpoint;
pub mod laws;
pub mod stack;
pub mod udp;
