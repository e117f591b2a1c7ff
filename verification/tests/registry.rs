use bucket::generics;
use bucket::homogeneous;
use bucket::trait_objects;
use bucket::trait_objects::AnyNode;
use bucket::trait_objects::Node;

#[test]
fn homogeneous_insert_node() {
    let mut bucket = homogeneous::Bucket::new();
    let node = homogeneous::Node::new(0);
    bucket.insert(node);
    assert!(bucket.get(&0).is_some());
}

#[test]
fn homogeneous_get_node() {
    let mut bucket = homogeneous::Bucket::new();
    let node = homogeneous::Node::new(0);
    bucket.insert(node);
    let node_ptr = bucket.get(&0).unwrap();
    assert_eq!(node_ptr.send("hi!"), "Sending: hi!");
}

#[test]
fn generics_insert_node() {
    let mut udp_bucket = generics::Bucket::new();
    let udp_node = generics::UdpNode::new(0);
    udp_bucket.insert(udp_node);
    assert!(udp_bucket.get(&0).is_some());

    let mut bluetooth_bucket = generics::Bucket::new();
    let bluetooth_node = generics::BluetoothNode::new(1);
    bluetooth_bucket.insert(bluetooth_node);
    assert!(bluetooth_bucket.get(&1).is_some());
}

#[test]
fn generics_get_node() {
    let mut udp_bucket = generics::Bucket::new();
    let udp_node = generics::UdpNode::new(0);
    udp_bucket.insert(udp_node);
    let node_ptr = udp_bucket.get(&0).unwrap();
    assert_eq!(node_ptr.send("hi!"), "Sending via UDP: hi!");
}

// A generic bucket instance is fixed to one node kind: storing the other
// kind in the same instance is rejected by the type checker, so each kind
// gets an instance of its own.
#[test]
fn insert_another_kind_of_node() {
    let mut bucket = generics::Bucket::new();
    let udp_node = generics::UdpNode::new(0);
    bucket.insert(udp_node);

    let mut another_bucket = generics::Bucket::new();
    let bluetooth_node = generics::BluetoothNode::new(0);
    another_bucket.insert(bluetooth_node);

    assert!(bucket.get(&0).is_some());
    assert!(another_bucket.get(&0).is_some());
}

#[test]
fn generics_inserted_address_is_reported_address() {
    let mut bucket = generics::Bucket::new();
    bucket.insert(generics::UdpNode::new(42));
    let found = bucket.get(&42).unwrap();
    assert_eq!(bucket::generics::Node::address(found), 42);
}

#[test]
fn trait_objects_insert_node() {
    let mut bucket = trait_objects::Bucket::new();

    let udp_node = trait_objects::UdpNode::new(0);
    let bluetooth_node = trait_objects::BluetoothNode::new(1);

    bucket.insert(AnyNode::Udp(udp_node));
    bucket.insert(AnyNode::Bluetooth(bluetooth_node));

    assert!(bucket.get(&0).is_some());
    assert!(bucket.get(&1).is_some());
}

#[test]
fn trait_objects_get_node() {
    let mut bucket = trait_objects::Bucket::new();

    let udp_node = trait_objects::UdpNode::new(0);
    let bluetooth_node = trait_objects::BluetoothNode::new(1);

    bucket.insert(AnyNode::Udp(udp_node));
    bucket.insert(AnyNode::Bluetooth(bluetooth_node));

    assert_eq!(
        bucket.get(&0).unwrap().send("Sending with UDP node"),
        "Sending via UDP: Sending with UDP node"
    );
    assert_eq!(
        bucket.get(&1).unwrap().send("Sending with Bluetooth node"),
        "Sending via Bluetooth: Sending with Bluetooth node"
    );
}

// One heterogeneous instance routes each address to its own transport kind.
#[test]
fn trait_objects_routes_by_address() {
    let mut bucket = trait_objects::Bucket::new();
    bucket.insert(AnyNode::Udp(trait_objects::UdpNode::new(0)));
    bucket.insert(AnyNode::Bluetooth(trait_objects::BluetoothNode::new(1)));

    let first = bucket.get(&0).unwrap().send("x");
    let second = bucket.get(&1).unwrap().send("x");
    assert_eq!(first, "Sending via UDP: x");
    assert_eq!(second, "Sending via Bluetooth: x");
    assert_ne!(first, second);
}

// Re-inserting at an occupied address replaces the entry: the later node's
// behavior wins.
#[test]
fn trait_objects_reinsert_replaces() {
    let mut bucket = trait_objects::Bucket::new();
    bucket.insert(AnyNode::Udp(trait_objects::UdpNode::new(0)));
    bucket.insert(AnyNode::Bluetooth(trait_objects::BluetoothNode::new(0)));

    assert_eq!(bucket.get(&0).unwrap().send("x"), "Sending via Bluetooth: x");
    assert_eq!(bucket.get(&0).unwrap().address(), 0);
}

// An address never inserted is reported absent, not a fault.
#[test]
fn get_absent_address() {
    let mut bucket = homogeneous::Bucket::new();
    assert!(bucket.get(&5).is_none());
    bucket.insert(homogeneous::Node::new(0));
    assert!(bucket.get(&1).is_none());

    let empty_bucket = trait_objects::Bucket::new();
    assert!(empty_bucket.get(&0).is_none());

    let empty_generic: generics::Bucket<generics::UdpNode> = generics::Bucket::new();
    assert!(empty_generic.get(&0).is_none());
}

#[test]
fn largest_address_round_trip() {
    let mut bucket = trait_objects::Bucket::new();
    bucket.insert(AnyNode::Udp(trait_objects::UdpNode::new(u64::MAX)));
    let found = bucket.get(&u64::MAX).unwrap();
    assert_eq!(found.address(), u64::MAX);
    assert_eq!(found.send("hi!"), "Sending via UDP: hi!");
}
