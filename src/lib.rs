//! Maintenance of a transaction pool that follows a forking chain: when to
//! revalidate pooled transactions, and the steps of one maintenance cycle.

pub mod revalidation;
pub mod maintenance;
