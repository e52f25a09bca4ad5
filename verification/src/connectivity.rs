//! What is known of the network once the device has joined it.

use vstd::prelude::*;
use vstd::string::*;

verus! {

/// The address under which the device is reached.  It is made once, after
/// the network has been joined, and read from then on.
#[derive(Debug)]
pub struct ConnectivityInfo {
    network_address: String,
}

impl View for ConnectivityInfo {
    type V = Seq<char>;

    closed spec fn view(&self) -> Seq<char> {
        self.network_address@
    }
}

impl ConnectivityInfo {
    /// Keeps the address that the network gave.
    pub fn new(network_address: String) -> (info: Self)
        ensures
            info@ == network_address@,
    {
        ConnectivityInfo { network_address }
    }

    /// The address, as text.
    pub fn network_address(&self) -> (address: &str)
        ensures
            address@ == self@,
    {
        self.network_address.as_str()
    }
}

} // verus!
