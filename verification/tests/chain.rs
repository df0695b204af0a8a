use mal::buffer::Node;

#[test]
fn insert_test() {
    let mut node = Node::new(1);
    println!("{:?}", node);
    node.insert_back(2);
    println!("{:?}", node);
    node.insert_back(3);
    let v: Vec<_> = node.into_values();
    println!("{:?}", v);
    assert_eq!(v, vec![1, 3, 2]);
}

#[test]
fn new_node_holds_one_value() {
    let node = Node::new('x');
    assert_eq!(node.into_values(), vec!['x']);
}

#[test]
fn insert_back_goes_directly_behind_the_first() {
    let mut node = Node::new(10);
    node.insert_back(20);
    assert_eq!(node.into_values(), vec![10, 20]);
    let mut node = Node::new(10);
    node.insert_back(20);
    node.insert_back(30);
    node.insert_back(40);
    assert_eq!(node.into_values(), vec![10, 40, 30, 20]);
}
