//! Packages a crate's build output into archives with hash sidecars and
//! drives its deployment to local or remote targets.
pub mod collect;
pub mod config;
pub mod container;
pub mod cook;
pub mod deploy;
pub mod hash;
pub mod text;
