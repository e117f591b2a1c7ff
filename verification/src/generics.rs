//! A registry generic over a node capability. One registry instance still
//! holds exactly one concrete node type, fixed where the instance is created:
//! the generic eliminates code duplication across node kinds, but mixing two
//! kinds in one instance is rejected by the type checker, not at run time.

use vstd::prelude::*;
use vstd::string::StringExecFns;
use crate::Address;
use std::collections::HashMap;

verus! {

broadcast use vstd::std_specs::hash::group_hash_axioms;

/// The capability a type must expose to qualify as a registry entry: it
/// reports the address the registry will key it by.
pub trait Node: Sized {
    /// The address this node reports, as the contracts speak of it.
    spec fn spec_address(&self) -> Address;

    fn address(&self) -> (a: Address)
        ensures
            a == self.spec_address(),
    ;
}

/// A peer reached over a UDP-like transport.
pub struct UdpNode {
    address: Address,
}

/// A peer reached over a Bluetooth-like transport.
pub struct BluetoothNode {
    address: Address,
}

impl Node for UdpNode {
    closed spec fn spec_address(&self) -> Address {
        self.address
    }

    fn address(&self) -> Address {
        self.address
    }
}

impl Node for BluetoothNode {
    closed spec fn spec_address(&self) -> Address {
        self.address
    }

    fn address(&self) -> Address {
        self.address
    }
}

impl UdpNode {
    pub fn new(address: Address) -> (node: UdpNode)
        ensures
            node.spec_address() == address,
    {
        UdpNode { address: address }
    }

    /// Renders the UDP delivery line for `message`; writing it to a sink is
    /// the caller's business.
    pub fn send(&self, message: &str) -> (line: String)
        ensures
            line@ == "Sending via UDP: "@ + message@,
    {
        let mut line = String::from_str("Sending via UDP: ");
        line.append(message);
        proof {
            assert(line@ =~= "Sending via UDP: "@ + message@);
        }
        line
    }
}

impl BluetoothNode {
    pub fn new(address: Address) -> (node: BluetoothNode)
        ensures
            node.spec_address() == address,
    {
        BluetoothNode { address: address }
    }

    /// Renders the Bluetooth delivery line for `message`.
    pub fn send(&self, message: &str) -> (line: String)
        ensures
            line@ == "Sending via Bluetooth: "@ + message@,
    {
        let mut line = String::from_str("Sending via Bluetooth: ");
        line.append(message);
        proof {
            assert(line@ =~= "Sending via Bluetooth: "@ + message@);
        }
        line
    }
}

/// A registry from address to one owned node of the fixed kind `N`.
pub struct Bucket<N: Node> {
    nodes: HashMap<Address, N>,
}

impl<N: Node> View for Bucket<N> {
    type V = Map<Address, N>;

    closed spec fn view(&self) -> Map<Address, N> {
        self.nodes@
    }
}

impl<N: Node> Bucket<N> {
    /// Every stored node stands under its own reported address: the key is
    /// derived from the value, never supplied by the caller.
    pub open spec fn wf(self) -> bool {
        forall|a: Address| self@.contains_key(a)
            ==> (#[trigger] self@[a]).spec_address() == a
    }

    pub fn new() -> (bucket: Bucket<N>)
        ensures
            bucket@ == Map::<Address, N>::empty(),
            bucket.wf(),
    {
        Bucket { nodes: HashMap::new() }
    }

    /// Looks the registry up; absence is an explicit result, not a fault.
    /// The result can only ever be the instance's one node kind `N`, and in
    /// a well-formed registry a found node reports the queried address.
    pub fn get(&self, address: &Address) -> (found: Option<&N>)
        ensures
            match found {
                Some(node) => self@.contains_key(*address) && *node == self@[*address] && (
                self.wf() ==> node.spec_address() == *address),
                None => !self@.contains_key(*address),
            },
    {
        self.nodes.get(address)
    }

    /// Stores `node` under its own reported address, replacing any prior
    /// entry there (upsert, last write wins). Never fails.
    pub fn insert(&mut self, node: N)
        ensures
            final(self)@ == old(self)@.insert(node.spec_address(), node),
            old(self).wf() ==> final(self).wf(),
    {
        let a = node.address();
        self.nodes.insert(a, node);
        proof {
            if old(self).wf() {
                assert forall|b: Address| self@.contains_key(b)
                    implies (#[trigger] self@[b]).spec_address() == b by {
                    if b != node.spec_address() {
                        assert(old(self)@.contains_key(b));
                    }
                }
                assert(self.wf());
            }
        }
    }
}

/// A node inserted and then looked up under its own address is found and is
/// the very node that was stored, whatever the node kind `N`.
pub proof fn lemma_inserted_node_found<N: Node>(m: Map<Address, N>, node: N)
    ensures
        m.insert(node.spec_address(), node).contains_key(node.spec_address()),
        m.insert(node.spec_address(), node)[node.spec_address()] == node,
{
}

} // verus!
