//! Selection of the local interface address the UDP socket binds to.

use vstd::prelude::*;

verus! {

/// The first octet of the private IPv4 range the socket binds inside.
pub const PRIVATE_FIRST_OCTET: u8 = 10;

/// What one local interface address looks like to the selection policy.
#[derive(Clone, Copy, Debug)]
pub struct IfaceAddr {
    pub loopback: bool,
    pub link_local: bool,
    pub ip: IfaceIp,
}

/// An interface's address: IPv4 with its octets, or some IPv6 address.
#[derive(Clone, Copy, Debug)]
pub enum IfaceIp {
    V4([u8; 4]),
    V6,
}

/// No interface carries an eligible address.
#[derive(Clone, Copy, Debug, PartialEq, Eq, Structural)]
pub enum SelectError {
    NoSuitableInterface,
}

impl SelectError {
    /// A descriptive rendering of the error.
    pub fn message(&self) -> (r: String)
        ensures
            r@ == "Failed to select network interface"@,
    {
        let s: String = "Failed to select network interface".to_owned();
        s
    }
}

/// Holds when an interface address may be bound to: not loopback, not
/// link-local, IPv4, and inside the chosen private range.
pub open spec fn eligible(a: IfaceAddr) -> bool {
    &&& !a.loopback
    &&& !a.link_local
    &&& a.ip matches IfaceIp::V4(oct) && oct[0] == PRIVATE_FIRST_OCTET
}

/// Picks the first eligible interface address, in the order given; fails
/// when none is eligible.
pub fn select_address(ifaces: &Vec<IfaceAddr>) -> (r: Result<[u8; 4], SelectError>)
    ensures
        r is Ok <==> exists|i: int| 0 <= i < ifaces@.len() && eligible(ifaces@[i]),
        r matches Ok(ip) ==> exists|i: int|
            {
                &&& 0 <= i < ifaces@.len()
                &&& eligible(ifaces@[i])
                &&& ifaces@[i].ip == IfaceIp::V4(ip)
                &&& forall|j: int| 0 <= j < i ==> !eligible(ifaces@[j])
            },
        r matches Err(e) ==> e == SelectError::NoSuitableInterface,
{
    let n = ifaces.len();
    let mut i: usize = 0;
    while i < n
        invariant
            n == ifaces@.len(),
            i <= n,
            forall|j: int| 0 <= j < i ==> !eligible(ifaces@[j]),
        decreases n - i,
    {
        let a = ifaces[i];
        if !a.loopback && !a.link_local {
            match a.ip {
                IfaceIp::V4(oct) => {
                    if oct[0] == PRIVATE_FIRST_OCTET {
                        proof {
                            assert(eligible(ifaces@[i as int]));
                        }
                        return Ok(oct);
                    }
                },
                IfaceIp::V6 => {},
            }
        }
        i += 1;
    }
    Err(SelectError::NoSuitableInterface)
}

} // verus!
