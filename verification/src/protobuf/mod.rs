//! Wire messages of the service.

pub mod anylist;
