use mmc_snapin::utf16::{le_bytes, utf16_units, utf16z_le_bytes, utf16z_units};
use mmc_snapin::{Node, NodeType, SnapError};

#[test]
fn new_node_is_bare() {
    let n = Node::new("Node 1".to_string(), NodeType::Folder);
    assert_eq!(n.node_type(), NodeType::Folder);
    assert_eq!(n.display_name(), "Node 1");
    assert_eq!(n.pending_buffer(), None);
    assert_eq!(n.tree_position(), None);
}

#[test]
fn second_handoff_releases_first_buffer() {
    let mut n = Node::new("Node 1".to_string(), NodeType::Folder);
    let h1 = n.start_handoff();
    assert_eq!(h1.release, None);
    assert_eq!(n.finish_handoff(0x10), Ok(0x10));
    let h2 = n.start_handoff();
    assert_eq!(h2.release, Some(0x10));
    assert_eq!(n.pending_buffer(), None);
    assert_eq!(n.finish_handoff(0x20), Ok(0x20));
    assert_eq!(n.pending_buffer(), Some(0x20));
}

#[test]
fn thousand_handoffs_release_all_but_last() {
    let mut n = Node::new("Node 1".to_string(), NodeType::Folder);
    let mut release_count = 0;
    for i in 1..=1000usize {
        let h = n.start_handoff();
        if h.release.is_some() {
            assert_eq!(h.release, Some(i - 1));
            release_count += 1;
        }
        n.finish_handoff(i).unwrap();
    }
    assert_eq!(release_count, 999);
    assert_eq!(n.pending_buffer(), Some(1000));
    assert_eq!(n.release_pcwstr(), Some(1000));
    assert_eq!(n.release_pcwstr(), None);
}

#[test]
fn failed_allocation_leaves_nothing_tracked() {
    let mut n = Node::new("a".to_string(), NodeType::Folder);
    n.start_handoff();
    assert_eq!(n.finish_handoff(0), Err(SnapError::AllocationFailure));
    assert_eq!(n.pending_buffer(), None);
}

#[test]
fn detached_copy_owns_no_buffer() {
    let mut n = Node::new("a".to_string(), NodeType::Root);
    n.start_handoff();
    n.finish_handoff(0x40).unwrap();
    n.set_tree_position(9);
    let d = n.detached();
    assert_eq!(d.pending_buffer(), None);
    assert_eq!(d.display_name(), "a");
    assert_eq!(d.node_type(), NodeType::Root);
    assert_eq!(d.tree_position(), Some(9));
    assert_eq!(n.pending_buffer(), Some(0x40));
}

#[test]
fn utf16_encoding() {
    assert_eq!(utf16_units(""), Vec::<u16>::new());
    assert_eq!(utf16_units("Ab"), vec![0x41, 0x62]);
    assert_eq!(utf16_units("a😀"), vec![0x61, 0xD83D, 0xDE00]);
    assert_eq!(utf16_units("\u{10FFFF}"), vec![0xDBFF, 0xDFFF]);
    assert_eq!(utf16_units("\u{FFFF}"), vec![0xFFFF]);
    assert_eq!(utf16z_units(""), vec![0]);
    assert_eq!(utf16z_units("Hé"), vec![0x48, 0xE9, 0]);
}

#[test]
fn little_endian_bytes() {
    assert_eq!(le_bytes(&vec![0x1234, 0xABCD]), vec![0x34, 0x12, 0xCD, 0xAB]);
    assert_eq!(utf16z_le_bytes(""), vec![0, 0]);
    assert_eq!(utf16z_le_bytes("A"), vec![0x41, 0, 0, 0]);
}
