//! The BGP configuration of VRFs and the routing policy that they refer to.
//!
//! [`bgp`] holds the candidate configuration of each VRF, the callbacks that
//! stage it, and the rules by which a running VRF hears of a change. [`policy`]
//! holds the named sets and policies, and keeps the clients that watch them up
//! to date. Neither sends anything itself: what is to be told waits in an
//! outbox, in the order in which it has to go out.

pub mod arg_laws;
pub mod args;
pub mod bgp;
pub mod net;
pub mod order;
pub mod order_laws;
pub mod policy;
pub mod rows;
pub mod sorted_map;
pub mod text;
pub mod value;
