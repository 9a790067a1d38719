use uuidv6::{Node, RawUUIDv6, UUIDv6};

#[test]
fn test() {
    let node = Node::new().unwrap();

    let mut st = node.uuidv6().unwrap().into_iter();

    let uid_1 = st.next();
    let uid_2 = st.next();
    let uid_3 = st.next();
    assert_ne!(uid_1, uid_2);
    assert_ne!(uid_2, uid_3);
    assert_ne!(uid_3, uid_1);
}

#[test]
fn test_raw() {
    let node = Node::new().unwrap();

    let mut st = node.uuidv6_raw().unwrap().into_iter();

    let uid_1 = st.next();
    let uid_2 = st.next();
    let uid_3 = st.next();
    assert_ne!(uid_1, uid_2);
    assert_ne!(uid_2, uid_3);
    assert_ne!(uid_3, uid_1);
}

#[test]
fn version_field_is_6() {
    let node = Node::new().unwrap();
    let mut gen = node.uuidv6_raw().unwrap();
    for _ in 0..100 {
        let buf = gen.create().unwrap();
        assert_eq!(buf[6] >> 4, 0x6);
    }
}

#[test]
fn node_bytes_fill_the_tail() {
    let node = Node::from_bytes(&[0x01, 0x02, 0x03, 0x04, 0x05, 0x06]);
    let mut gen = node.uuidv6_raw().unwrap();
    let buf = gen.create().unwrap();
    assert_eq!(&buf[10..16], &[0x01, 0x02, 0x03, 0x04, 0x05, 0x06]);
}

#[test]
fn counter_field_steps_by_one() {
    let node = Node::new().unwrap();
    let mut gen = node.uuidv6_raw().unwrap();
    let a = gen.create().unwrap();
    let b = gen.create().unwrap();
    let ca = u16::from_be_bytes([a[8], a[9]]);
    let cb = u16::from_be_bytes([b[8], b[9]]);
    assert_eq!(cb, ca.wrapping_add(1));
}

#[test]
fn distinct_nodes_never_collide() {
    let node_a = Node::from_bytes(&[1, 2, 3, 4, 5, 6]);
    let node_b = Node::from_bytes(&[6, 5, 4, 3, 2, 1]);
    let a = node_a.uuidv6_raw().unwrap().create().unwrap();
    let b = node_b.uuidv6_raw().unwrap().create().unwrap();
    assert_ne!(a[10..16], b[10..16]);
    assert_ne!(a, b);
}

#[test]
fn full_cycle_counters_and_reseed() {
    let node = Node::from_bytes(&[9, 8, 7, 6, 5, 4]);
    let mut gen = node.uuidv6_raw().unwrap();
    let first = gen.create().unwrap();
    let c0 = u16::from_be_bytes([first[8], first[9]]);
    for i in 1u32..65536 {
        let buf = gen.create().unwrap();
        let c = u16::from_be_bytes([buf[8], buf[9]]);
        assert_eq!(c, c0.wrapping_add(i as u16));
        assert_eq!(&buf[10..16], &[9, 8, 7, 6, 5, 4]);
    }
    // the 65536th production wrapped the counter onto its seed: the
    // generator reseeded and keeps producing for the same node
    let after = gen.create().unwrap();
    assert_eq!(buf_node(&after), [9, 8, 7, 6, 5, 4]);
}

fn buf_node(buf: &[u8; 16]) -> [u8; 6] {
    [buf[10], buf[11], buf[12], buf[13], buf[14], buf[15]]
}

#[test]
fn fresh_generators_share_no_first_output() {
    // two generators for different nodes built at the same instant
    let node_a = Node::from_bytes(&[0, 0, 0, 0, 0, 1]);
    let node_b = Node::from_bytes(&[0, 0, 0, 0, 0, 2]);
    let mut gen_a = node_a.uuidv6_raw().unwrap();
    let mut gen_b = node_b.uuidv6_raw().unwrap();
    assert_ne!(gen_a.create().unwrap(), gen_b.create().unwrap());
}

#[test]
fn string_iterator_yields_strings() {
    let node = Node::from_bytes(&[1, 2, 3, 4, 5, 6]);
    let mut st = UUIDv6::new(&node).unwrap().into_iter();
    let a = st.next().unwrap();
    let b = st.next().unwrap();
    assert_eq!(a.len(), 36);
    assert_eq!(b.len(), 36);
    assert_ne!(a, b);
}

#[test]
fn raw_generator_new_keeps_node() {
    let node = Node::from_bytes(&[42, 42, 42, 42, 42, 42]);
    let mut gen = RawUUIDv6::new(&node).unwrap();
    let buf = gen.create().unwrap();
    assert_eq!(buf_node(&buf), [42, 42, 42, 42, 42, 42]);
}
