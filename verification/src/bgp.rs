//! Per-VRF BGP configuration.

pub mod family_laws;
pub mod intent;
pub mod laws;
pub mod leaf_laws;
pub mod name_laws;
pub mod networks;
pub mod prefix_set;
pub mod publication_laws;
pub mod staging;
pub mod state;
pub mod structure;
pub mod structure_laws;
pub mod transaction;
pub mod types;
pub mod view_laws;
pub mod vrf_config;
