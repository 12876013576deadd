//! The type of network the device is on.
use vstd::prelude::*;

verus! {

/// Network connection type
#[derive(Debug, Clone, Copy, PartialEq, Eq, Structural)]
pub enum NetworkType {
    Wifi,
    Cellular,
    Ethernet,
    Unknown,
}

/// Network status
#[derive(Debug)]
pub struct NetworkStatus {
    pub current_type: NetworkType,
}

impl NetworkStatus {
    /// The network type is not known yet.
    pub fn new() -> (r: Self)
        ensures
            r.current_type == NetworkType::Unknown,
    {
        NetworkStatus { current_type: NetworkType::Unknown }
    }

    /// Sets the network type.
    pub fn set_network_type(&mut self, net_type: NetworkType)
        ensures
            final(self).current_type == net_type,
    {
        self.current_type = net_type;
    }

    /// The network type.
    pub fn get_network_type(&self) -> (r: NetworkType)
        ensures
            r == self.current_type,
    {
        self.current_type
    }

    /// Whether the network is metered: cellular networks are.
    pub fn is_metered(&self) -> (r: bool)
        ensures
            r == (self.current_type == NetworkType::Cellular),
    {
        self.current_type == NetworkType::Cellular
    }
}

impl Default for NetworkStatus {
    fn default() -> (r: Self)
        ensures
            r.current_type == NetworkType::Unknown,
    {
        Self::new()
    }
}

} // verus!
