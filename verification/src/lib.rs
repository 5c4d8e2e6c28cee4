//! Completion queues and queue pairs of RDMA verbs.
//!
//! An operation on a device object is split at the verbs call. The method that
//! starts it computes what the call is handed and returns it as a request; a
//! method of the request takes what the call gave back and computes the
//! operation's result. Operations that call more than once are small state
//! machines, which ask for one call at a time.

pub mod blocking;
pub mod connect;
pub mod cq;
pub mod device;
pub mod ints;
pub mod mr;
pub mod poll;
pub mod post;
pub mod qp;
pub mod spin;
pub mod sys;
pub mod text;
pub mod wc;
