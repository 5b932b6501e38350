//! Cost estimation for a token swap on a decentralized-exchange router:
//! the account set, balance display, the swap deadline and the ordered
//! sequence of node queries that leads to a gas estimate.
pub mod deadline;
pub mod error;
pub mod session;
pub mod units;
