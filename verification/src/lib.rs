//! The decisions of a CNI bridge plugin: which configurations are accepted, which link messages
//! are sent to the kernel and in what order, and what every outcome is answered.
//!
//! Nothing in this crate touches the host. Work that has to be done there is described by request
//! values; the caller performs a request and hands the outcome back.

pub mod behaviour;
pub mod bridge;
pub mod command;
pub mod ensure;
pub mod error;
pub mod exchange;
pub mod host;
pub mod json;
pub mod laws;
pub mod netconf;
pub mod netlink;
pub mod removal;
pub mod setup;
pub mod text;
pub mod types;
pub mod veth;
pub mod vlan;

pub use bridge::bridge_by_name;
pub use command::cmd_add;
pub use ensure::ensure_bridge;
pub use error::{AppError, CniError, VlanError};
pub use netconf::load_bri_netconf;
pub use removal::cmd_del;
pub use setup::setup_bridge;
pub use types::{Bridge, BridgeNetConf, VlanTrunk};
pub use veth::setup_veth;
pub use vlan::collect_vlan_trunk;
