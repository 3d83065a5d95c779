//! Identities of the participants of a network (nodes, clients and apps),
//! their addresses, and a canonical text form for exchanging them.
pub mod bytes;
pub mod xor_name;
pub mod error;
pub mod threshold;
pub mod identity;
pub mod canonical;
pub mod codec;
pub mod order;
