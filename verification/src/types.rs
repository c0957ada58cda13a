//! The configuration the plugin works from and the things it reports.
use vstd::prelude::*;

verus! {

/// One entry of a VLAN trunk list: a range of IDs, a single ID, or both.
#[derive(Clone, Copy, Debug, PartialEq, Eq, Structural)]
pub struct VlanTrunk {
    pub min_id: Option<i32>,
    pub max_id: Option<i32>,
    pub id: Option<i32>,
}

/// A hardware address of six octets.
#[derive(Clone, Copy, Debug, PartialEq, Eq)]
pub struct MacAddr {
    pub octets: [u8; 6],
}

impl Default for MacAddr {
    /// The address of zeros.
    fn default() -> (address: MacAddr)
        ensures
            address.octets@ == seq![0u8, 0u8, 0u8, 0u8, 0u8, 0u8],
    {
        MacAddr { octets: [0, 0, 0, 0, 0, 0] }
    }
}

impl View for MacAddr {
    type V = Seq<u8>;

    open spec fn view(&self) -> Seq<u8> {
        self.octets@
    }
}

/// A network namespace. The host gives the same number to the same namespace, and different numbers
/// to different ones.
#[derive(Clone, Copy, Debug, PartialEq, Eq, Structural)]
pub struct Netns {
    pub id: u64,
}

/// The IP address management section of a network configuration.
#[derive(Clone, Debug)]
pub struct IpamConf {
    /// The name of the address management plugin; empty where none is wanted.
    pub plugin: String,
}

impl View for IpamConf {
    type V = Seq<char>;

    open spec fn view(&self) -> Seq<char> {
        self.plugin@
    }
}

/// What the container runtime adds to a network configuration.
#[derive(Clone, Debug)]
pub struct RuntimeConf {
    /// The hardware address that the runtime asks for.
    pub mac: Option<MacAddr>,
}

impl View for RuntimeConf {
    type V = Option<Seq<u8>>;

    open spec fn view(&self) -> Option<Seq<u8>> {
        option_view(self.mac)
    }
}

/// The parts of a network configuration, common to all plugins, that this plugin reads.
#[derive(Clone, Debug)]
pub struct NetConf {
    /// The version of the interface, as it is written in the configuration.
    pub cni_version: String,
    pub ipam: Option<IpamConf>,
    pub runtime: Option<RuntimeConf>,
}

/// What a `NetConf` says.
pub struct NetConfView {
    pub cni_version: Seq<char>,
    pub ipam: Option<Seq<char>>,
    pub runtime: Option<Option<Seq<u8>>>,
}

impl View for NetConf {
    type V = NetConfView;

    open spec fn view(&self) -> NetConfView {
        NetConfView {
            cni_version: self.cni_version@,
            ipam: option_view(self.ipam),
            runtime: option_view(self.runtime),
        }
    }
}

/// Arguments that an operator passes to the plugin.
#[derive(Clone, Debug)]
pub struct BridgeArgs {
    /// The hardware address that the operator asks for.
    pub mac: Option<String>,
}

impl View for BridgeArgs {
    type V = Option<Seq<char>>;

    open spec fn view(&self) -> Option<Seq<char>> {
        option_view(self.mac)
    }
}

/// The configuration of the bridge plugin.
#[derive(Clone, Debug)]
pub struct BridgeNetConf {
    pub net_conf: NetConf,
    pub br_name: Option<String>,
    pub is_gw: Option<bool>,
    pub is_default_gw: Option<bool>,
    pub force_address: Option<bool>,
    pub mtu: Option<u32>,
    pub hairpin_mode: Option<bool>,
    pub promisc_mode: Option<bool>,
    pub vlan: Option<i32>,
    pub vlan_trunk: Option<Vec<VlanTrunk>>,
    pub preserve_default_vlan: Option<bool>,
    pub mac_spoof_chk: Option<bool>,
    pub enable_dad: Option<bool>,
    pub disable_container_interface: Option<bool>,
    pub port_isolation: Option<bool>,
    pub args: Option<BridgeArgs>,
    /// The hardware address to use, settled when the configuration is loaded.
    pub mac: Option<String>,
    /// The IDs of the VLAN trunk, settled when the configuration is loaded.
    pub vlans: Option<Vec<i32>>,
}

/// What a `BridgeNetConf` says.
pub struct BridgeNetConfView {
    pub net_conf: NetConfView,
    pub br_name: Option<Seq<char>>,
    pub is_gw: Option<bool>,
    pub is_default_gw: Option<bool>,
    pub force_address: Option<bool>,
    pub mtu: Option<u32>,
    pub hairpin_mode: Option<bool>,
    pub promisc_mode: Option<bool>,
    pub vlan: Option<i32>,
    pub vlan_trunk: Option<Seq<VlanTrunk>>,
    pub preserve_default_vlan: Option<bool>,
    pub mac_spoof_chk: Option<bool>,
    pub enable_dad: Option<bool>,
    pub disable_container_interface: Option<bool>,
    pub port_isolation: Option<bool>,
    pub args: Option<Option<Seq<char>>>,
    pub mac: Option<Seq<char>>,
    pub vlans: Option<Seq<i32>>,
}

impl View for BridgeNetConf {
    type V = BridgeNetConfView;

    open spec fn view(&self) -> BridgeNetConfView {
        BridgeNetConfView {
            net_conf: self.net_conf@,
            br_name: option_view(self.br_name),
            is_gw: self.is_gw,
            is_default_gw: self.is_default_gw,
            force_address: self.force_address,
            mtu: self.mtu,
            hairpin_mode: self.hairpin_mode,
            promisc_mode: self.promisc_mode,
            vlan: self.vlan,
            vlan_trunk: option_view(self.vlan_trunk),
            preserve_default_vlan: self.preserve_default_vlan,
            mac_spoof_chk: self.mac_spoof_chk,
            enable_dad: self.enable_dad,
            disable_container_interface: self.disable_container_interface,
            port_isolation: self.port_isolation,
            args: option_view(self.args),
            mac: option_view(self.mac),
            vlans: option_view(self.vlans),
        }
    }
}

/// A bridge and the settings that the plugin cares for.
#[derive(Debug)]
pub struct Bridge {
    pub name: String,
    pub mtu: u32,
    pub vlan_filtering: bool,
}

/// What a `Bridge` says.
pub struct BridgeView {
    pub name: Seq<char>,
    pub mtu: u32,
    pub vlan_filtering: bool,
}

impl View for Bridge {
    type V = BridgeView;

    open spec fn view(&self) -> BridgeView {
        BridgeView { name: self.name@, mtu: self.mtu, vlan_filtering: self.vlan_filtering }
    }
}

impl Clone for Bridge {
    fn clone(&self) -> (copy: Bridge)
        ensures
            copy == *self,
    {
        Bridge { name: self.name.clone(), mtu: self.mtu, vlan_filtering: self.vlan_filtering }
    }
}

/// The MTU of a link where nothing else is said.
pub const DEFAULT_MTU: u32 = 1500;

impl Bridge {
    /// A bridge with the default MTU and without VLAN filtering.
    pub fn new(name: &str) -> (bridge: Bridge)
        ensures
            bridge@ == (BridgeView { name: name@, mtu: DEFAULT_MTU, vlan_filtering: false }),
    {
        Bridge { name: name.to_owned(), mtu: DEFAULT_MTU, vlan_filtering: false }
    }

    /// The same bridge with another MTU.
    pub fn mtu(self, mtu: u32) -> (bridge: Bridge)
        ensures
            bridge == (Bridge { mtu, ..self }),
    {
        Bridge { mtu, ..self }
    }

    /// The same bridge with VLAN filtering switched on or off.
    pub fn set_vlan_filtering(self, vlan_filtering: bool) -> (bridge: Bridge)
        ensures
            bridge == (Bridge { vlan_filtering, ..self }),
    {
        Bridge { vlan_filtering, ..self }
    }
}

/// A network interface as it is reported.
#[derive(Clone, Debug)]
pub struct Interface {
    pub name: String,
    pub mac: Option<MacAddr>,
    /// The path of the namespace that the interface is in; empty on the host.
    pub sandbox: String,
}

/// What an `Interface` says.
pub struct InterfaceView {
    pub name: Seq<char>,
    pub mac: Option<MacAddr>,
    pub sandbox: Seq<char>,
}

impl View for Interface {
    type V = InterfaceView;

    open spec fn view(&self) -> InterfaceView {
        InterfaceView { name: self.name@, mac: self.mac, sandbox: self.sandbox@ }
    }
}

/// A pair of virtual interfaces: one in the container, and its peer on the host.
#[derive(Clone, Debug)]
pub struct Veth {
    pub interface: Interface,
    pub peer_inf: Interface,
}

/// What a `Veth` says.
pub struct VethView {
    pub interface: InterfaceView,
    pub peer_inf: InterfaceView,
}

impl View for Veth {
    type V = VethView;

    open spec fn view(&self) -> VethView {
        VethView { interface: self.interface@, peer_inf: self.peer_inf@ }
    }
}

/// The answer to a command that succeeded. It lists no addresses, no routes and no name servers.
#[derive(Clone, Debug)]
pub struct SuccessReply {
    pub cni_version: String,
    pub interfaces: Vec<Interface>,
}

/// What a `SuccessReply` says.
pub struct SuccessReplyView {
    pub cni_version: Seq<char>,
    pub interfaces: Seq<InterfaceView>,
}

impl View for SuccessReply {
    type V = SuccessReplyView;

    open spec fn view(&self) -> SuccessReplyView {
        SuccessReplyView {
            cni_version: self.cni_version@,
            interfaces: self.interfaces@.map_values(|interface: Interface| interface@),
        }
    }
}

/// An optional value taken by its view.
pub open spec fn option_view<T: View>(value: Option<T>) -> Option<T::V> {
    match value {
        Some(value) => Some(value@),
        None => None,
    }
}

/// A result whose two sides are taken by their views.
pub open spec fn result_view<T: View, E: View>(result: Result<T, E>) -> Result<T::V, E::V> {
    match result {
        Ok(value) => Ok(value@),
        Err(error) => Err(error@),
    }
}

} // verus!
