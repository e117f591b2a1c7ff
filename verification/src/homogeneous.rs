//! The simplest registry: both the registry and the stored value are one
//! fixed concrete type. No polymorphism; the baseline of the design space.

use vstd::prelude::*;
use vstd::string::StringExecFns;
use crate::Address;
use std::collections::HashMap;

verus! {

broadcast use vstd::std_specs::hash::group_hash_axioms;

/// One addressable peer. Constructed with an address, immutable thereafter.
pub struct Node {
    address: Address,
}

impl Node {
    /// The address this node reports; the registry keys entries by it.
    pub closed spec fn spec_address(&self) -> Address {
        self.address
    }

    pub fn new(address: Address) -> (node: Node)
        ensures
            node.spec_address() == address,
    {
        Node { address: address }
    }

    /// Renders the delivery line for `message`; delivery itself (writing the
    /// line to a sink) is the caller's business.
    pub fn send(&self, message: &str) -> (line: String)
        ensures
            line@ == "Sending: "@ + message@,
    {
        let mut line = String::from_str("Sending: ");
        line.append(message);
        proof {
            assert(line@ =~= "Sending: "@ + message@);
        }
        line
    }
}

/// A registry from address to owned node, with at most one entry per address.
pub struct Bucket {
    nodes: HashMap<Address, Node>,
}

impl View for Bucket {
    type V = Map<Address, Node>;

    closed spec fn view(&self) -> Map<Address, Node> {
        self.nodes@
    }
}

impl Bucket {
    /// Every stored node stands under its own reported address: the key is
    /// derived from the value, never supplied by the caller.
    pub open spec fn wf(self) -> bool {
        forall|a: Address| self@.contains_key(a)
            ==> (#[trigger] self@[a]).spec_address() == a
    }

    pub fn new() -> (bucket: Bucket)
        ensures
            bucket@ == Map::<Address, Node>::empty(),
            bucket.wf(),
    {
        Bucket { nodes: HashMap::new() }
    }

    /// Looks the registry up; absence is an explicit result, not a fault.
    /// In a well-formed registry a found node reports the queried address.
    pub fn get(&self, address: &Address) -> (found: Option<&Node>)
        ensures
            match found {
                Some(node) => self@.contains_key(*address) && *node == self@[*address] && (
                self.wf() ==> node.spec_address() == *address),
                None => !self@.contains_key(*address),
            },
    {
        self.nodes.get(address)
    }

    /// Stores `node` under its own reported address, replacing any prior
    /// entry there (upsert, last write wins). Never fails.
    pub fn insert(&mut self, node: Node)
        ensures
            final(self)@ == old(self)@.insert(node.spec_address(), node),
            old(self).wf() ==> final(self).wf(),
    {
        self.nodes.insert(node.address, node);
        proof {
            if old(self).wf() {
                assert forall|a: Address| self@.contains_key(a)
                    implies (#[trigger] self@[a]).spec_address() == a by {
                    if a != node.spec_address() {
                        assert(old(self)@.contains_key(a));
                    }
                }
                assert(self.wf());
            }
        }
    }
}

/// A node inserted and then looked up under its own address is found, is the
/// very node that was stored, and reports exactly that address.
pub proof fn lemma_inserted_node_found(m: Map<Address, Node>, node: Node)
    ensures
        m.insert(node.spec_address(), node).contains_key(node.spec_address()),
        m.insert(node.spec_address(), node)[node.spec_address()] == node,
{
}

} // verus!
