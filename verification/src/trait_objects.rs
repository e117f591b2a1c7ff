//! The heterogeneous registry: one instance holds nodes of several concrete
//! transport kinds at once, behind a dynamic handle. The kind set is closed
//! (exactly two transports), so the handle is a tagged union over them: every
//! call on it resolves through one match, uniformly for all kinds, and a
//! caller of `get` sees the capability interface only.

use vstd::prelude::*;
use vstd::string::StringExecFns;
use crate::Address;
use std::collections::HashMap;

verus! {

broadcast use vstd::std_specs::hash::group_hash_axioms;

/// The full node capability: report an address and deliver a message. The
/// delivery line a node renders is the one transport-specific thing about it.
pub trait Node: Sized {
    /// The address this node reports, as the contracts speak of it.
    spec fn spec_address(&self) -> Address;

    /// The delivery line this node renders for a message.
    spec fn send_spec(&self, message: Seq<char>) -> Seq<char>;

    fn address(&self) -> (a: Address)
        ensures
            a == self.spec_address(),
    ;

    /// Renders the transport-specific delivery line for `message`; writing
    /// it to a sink is the caller's business.
    fn send(&self, message: &str) -> (line: String)
        ensures
            line@ == self.send_spec(message@),
    ;
}

/// A peer reached over a UDP-like transport.
pub struct UdpNode {
    address: Address,
}

/// A peer reached over a Bluetooth-like transport.
pub struct BluetoothNode {
    address: Address,
}

impl UdpNode {
    pub fn new(address: Address) -> (node: UdpNode)
        ensures
            node.spec_address() == address,
    {
        UdpNode { address: address }
    }
}

impl BluetoothNode {
    pub fn new(address: Address) -> (node: BluetoothNode)
        ensures
            node.spec_address() == address,
    {
        BluetoothNode { address: address }
    }
}

impl Node for UdpNode {
    closed spec fn spec_address(&self) -> Address {
        self.address
    }

    open spec fn send_spec(&self, message: Seq<char>) -> Seq<char> {
        "Sending via UDP: "@ + message
    }

    fn address(&self) -> Address {
        self.address
    }

    fn send(&self, message: &str) -> (line: String) {
        let mut line = String::from_str("Sending via UDP: ");
        line.append(message);
        proof {
            assert(line@ =~= self.send_spec(message@));
        }
        line
    }
}

impl Node for BluetoothNode {
    closed spec fn spec_address(&self) -> Address {
        self.address
    }

    open spec fn send_spec(&self, message: Seq<char>) -> Seq<char> {
        "Sending via Bluetooth: "@ + message
    }

    fn address(&self) -> Address {
        self.address
    }

    fn send(&self, message: &str) -> (line: String) {
        let mut line = String::from_str("Sending via Bluetooth: ");
        line.append(message);
        proof {
            assert(line@ =~= self.send_spec(message@));
        }
        line
    }
}

/// The dynamic handle the registry owns: any one of the known transport
/// kinds, used only through the `Node` capability. Which concrete `send`
/// runs is fixed when the handle is made, not at the call site.
pub enum AnyNode {
    Udp(UdpNode),
    Bluetooth(BluetoothNode),
}

impl Node for AnyNode {
    open spec fn spec_address(&self) -> Address {
        match self {
            AnyNode::Udp(node) => node.spec_address(),
            AnyNode::Bluetooth(node) => node.spec_address(),
        }
    }

    open spec fn send_spec(&self, message: Seq<char>) -> Seq<char> {
        match self {
            AnyNode::Udp(node) => node.send_spec(message),
            AnyNode::Bluetooth(node) => node.send_spec(message),
        }
    }

    fn address(&self) -> Address {
        match self {
            AnyNode::Udp(node) => node.address(),
            AnyNode::Bluetooth(node) => node.address(),
        }
    }

    fn send(&self, message: &str) -> (line: String) {
        match self {
            AnyNode::Udp(node) => node.send(message),
            AnyNode::Bluetooth(node) => node.send(message),
        }
    }
}

/// A registry from address to one owned node handle; a single instance may
/// hold different transport kinds under different addresses.
pub struct Bucket {
    nodes: HashMap<Address, AnyNode>,
}

impl View for Bucket {
    type V = Map<Address, AnyNode>;

    closed spec fn view(&self) -> Map<Address, AnyNode> {
        self.nodes@
    }
}

impl Bucket {
    /// Every stored node stands under its own reported address: the key is
    /// derived from the value, never supplied by the caller.
    pub open spec fn wf(self) -> bool {
        forall|a: Address| self@.contains_key(a)
            ==> (#[trigger] self@[a]).spec_address() == a
    }

    pub fn new() -> (bucket: Bucket)
        ensures
            bucket@ == Map::<Address, AnyNode>::empty(),
            bucket.wf(),
    {
        Bucket { nodes: HashMap::new() }
    }

    /// Looks the registry up; absence is an explicit result, not a fault.
    /// The caller gets the capability interface only: no downcast back to
    /// the concrete transport kind is offered. In a well-formed registry a
    /// found node reports the queried address.
    pub fn get(&self, address: &Address) -> (found: Option<&AnyNode>)
        ensures
            match found {
                Some(node) => self@.contains_key(*address) && *node == self@[*address] && (
                self.wf() ==> node.spec_address() == *address),
                None => !self@.contains_key(*address),
            },
    {
        self.nodes.get(address)
    }

    /// Takes ownership of `node` and stores it under its own reported
    /// address, replacing any prior entry there, whatever kind that entry
    /// was (upsert, last write wins). Never fails.
    pub fn insert(&mut self, node: AnyNode)
        ensures
            final(self)@ == old(self)@.insert(node.spec_address(), node),
            old(self).wf() ==> final(self).wf(),
    {
        let a = node.address();
        self.nodes.insert(a, node);
        proof {
            if old(self).wf() {
                assert forall|b: Address| self@.contains_key(b)
                    implies (#[trigger] self@[b]).spec_address() == b by {
                    if b != node.spec_address() {
                        assert(old(self)@.contains_key(b));
                    }
                }
                assert(self.wf());
            }
        }
    }
}

/// The two transports never render the same delivery line: output routed
/// through a UDP node is distinguishable from output routed through a
/// Bluetooth node, for every message.
pub proof fn lemma_transports_distinguishable(
    udp: UdpNode,
    bluetooth: BluetoothNode,
    message: Seq<char>,
)
    ensures
        udp.send_spec(message) != bluetooth.send_spec(message),
{
    reveal_strlit("Sending via UDP: ");
    reveal_strlit("Sending via Bluetooth: ");
    assert(udp.send_spec(message).len() == 17 + message.len());
    assert(bluetooth.send_spec(message).len() == 23 + message.len());
}

/// Two nodes of different transport kinds inserted under distinct addresses
/// are each found under their own address, and `send` routes to the correct
/// concrete transport: the lines the two stored handles render differ.
pub proof fn lemma_heterogeneous_routing(
    m: Map<Address, AnyNode>,
    udp: UdpNode,
    bluetooth: BluetoothNode,
    message: Seq<char>,
)
    requires
        udp.spec_address() != bluetooth.spec_address(),
    ensures
        ({
            let stored = m.insert(udp.spec_address(), AnyNode::Udp(udp)).insert(
                bluetooth.spec_address(),
                AnyNode::Bluetooth(bluetooth),
            );
            &&& stored[udp.spec_address()] == AnyNode::Udp(udp)
            &&& stored[bluetooth.spec_address()] == AnyNode::Bluetooth(bluetooth)
            &&& stored[udp.spec_address()].send_spec(message) == udp.send_spec(message)
            &&& stored[bluetooth.spec_address()].send_spec(message) == bluetooth.send_spec(
                message,
            )
            &&& stored[udp.spec_address()].send_spec(message) != stored[
                bluetooth.spec_address()
            ].send_spec(message)
        }),
{
    lemma_transports_distinguishable(udp, bluetooth, message);
}

} // verus!
