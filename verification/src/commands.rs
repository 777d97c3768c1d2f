pub mod deploy;
pub mod reconcile;
pub mod watch;
