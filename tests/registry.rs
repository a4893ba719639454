use mmc_snapin::registry::{ROOT_COOKIE, SDI_STR};
use mmc_snapin::{MmcNotifyType, NodeRegistry, NodeType, SnapError};

#[test]
fn add_returns_increasing_cookies_from_one() {
    let mut reg = NodeRegistry::new();
    let mut seen: Vec<isize> = Vec::new();
    for i in 0..50 {
        let c = reg.add_node(&format!("Folder {}", i));
        assert!(c >= 1);
        assert!(!seen.contains(&c));
        if let Some(last) = seen.last() {
            assert!(c > *last);
        }
        seen.push(c);
    }
    assert_eq!(seen[0], 1);
    assert_eq!(reg.next_cookie(), 51);
}

#[test]
fn add_after_root_keeps_counting() {
    let mut reg = NodeRegistry::new();
    assert_eq!(reg.add_node("a"), 1);
    reg.get_or_create_root();
    assert_eq!(reg.add_node("b"), 2);
    reg.set_tree_position(1, 77).unwrap();
    assert_eq!(reg.add_node("c"), 3);
}

#[test]
fn root_is_created_once() {
    let mut reg = NodeRegistry::new();
    let first_ptr = {
        let root = reg.get_or_create_root();
        assert_eq!(root.node_type(), NodeType::Root);
        assert_eq!(root.display_name(), "SMBus Snap-in");
        format!("{:p}", root)
    };
    assert_eq!(reg.len(), 1);
    let second_ptr = {
        let root = reg.get_or_create_root();
        assert_eq!(root.node_type(), NodeType::Root);
        format!("{:p}", root)
    };
    assert_eq!(first_ptr, second_ptr);
    assert_eq!(reg.len(), 1);
}

#[test]
fn add_never_takes_cookie_zero() {
    let mut reg = NodeRegistry::new();
    reg.get_or_create_root();
    for i in 0..10 {
        let c = reg.add_node(&format!("n{}", i));
        assert_ne!(c, ROOT_COOKIE);
    }
    let root = reg.get(ROOT_COOKIE).unwrap();
    assert_eq!(root.node_type(), NodeType::Root);
    assert_eq!(root.display_name(), "SMBus Snap-in");
}

#[test]
fn get_unknown_cookie_is_not_found() {
    let mut reg = NodeRegistry::new();
    assert_eq!(reg.get(0).err(), Some(SnapError::NotFound));
    assert_eq!(reg.get(1).err(), Some(SnapError::NotFound));
    reg.add_node("Node 1");
    assert!(reg.get(1).is_ok());
    assert_eq!(reg.get(2).err(), Some(SnapError::NotFound));
    assert_eq!(reg.get(-1).err(), Some(SnapError::NotFound));
    assert_eq!(reg.get(isize::MAX).err(), Some(SnapError::NotFound));
}

#[test]
fn query_data_object_makes_root_only_for_zero() {
    let mut reg = NodeRegistry::new();
    assert_eq!(reg.query_data_object(7).err(), Some(SnapError::NotFound));
    assert_eq!(reg.len(), 0);
    let root = reg.query_data_object(0).unwrap();
    assert_eq!(root.node_type(), NodeType::Root);
    assert_eq!(reg.len(), 1);
    reg.add_node("Node 1");
    assert_eq!(reg.query_data_object(1).unwrap().display_name(), "Node 1");
}

#[test]
fn unpositioned_skips_root_and_placed_nodes() {
    let mut reg = NodeRegistry::new();
    reg.get_or_create_root();
    reg.add_node("Node 1");
    reg.add_node("Node 2");
    reg.add_node("Node 3");
    assert_eq!(reg.for_each_unpositioned(), vec![1, 2, 3]);
    reg.set_tree_position(2, 500).unwrap();
    assert_eq!(reg.for_each_unpositioned(), vec![1, 3]);
    assert_eq!(reg.get(2).unwrap().tree_position(), Some(500));
    assert_eq!(reg.set_tree_position(9, 1), Err(SnapError::NotFound));
}

#[test]
fn expand_asks_to_insert_each_unplaced_node() {
    let mut reg = NodeRegistry::new();
    reg.get_or_create_root();
    reg.add_node("Node 1");
    reg.add_node("Node 2");
    let inserts = reg.notify(MmcNotifyType::Expand, 4242);
    assert_eq!(inserts.len(), 2);
    assert_eq!(inserts[0].cookie, 1);
    assert_eq!(inserts[1].cookie, 2);
    for ins in &inserts {
        assert_eq!(ins.mask, 0x62);
        assert_eq!(ins.relative_id, 4242);
    }
    reg.set_tree_position(1, 10).unwrap();
    let again = reg.notify(MmcNotifyType::Expand, 4242);
    assert_eq!(again.len(), 1);
    assert_eq!(again[0].cookie, 2);
    assert!(reg.notify(MmcNotifyType::Select, 4242).is_empty());
    assert!(reg.notify(MmcNotifyType::Unknown(0x1234), 4242).is_empty());
}

#[test]
fn display_info_without_string_bit_changes_nothing() {
    let mut reg = NodeRegistry::new();
    reg.add_node("Node 1");
    let r = reg.display_info(1, 0x4).unwrap();
    assert!(r.is_none());
    assert_eq!(reg.get(1).unwrap().pending_buffer(), None);
    assert_eq!(reg.display_info(3, SDI_STR).err(), Some(SnapError::NotFound));
}

#[test]
fn display_info_gives_terminated_name() {
    let mut reg = NodeRegistry::new();
    reg.add_node("Hi");
    let h = reg.display_info(1, SDI_STR | 0x4).unwrap().unwrap();
    assert_eq!(h.release, None);
    assert_eq!(h.units, vec![0x48u16, 0x69, 0]);
}

#[test]
fn allocation_failure_tracks_nothing() {
    let mut reg = NodeRegistry::new();
    reg.add_node("Node 1");
    reg.display_info(1, SDI_STR).unwrap();
    assert_eq!(reg.finish_handoff(1, 0), Err(SnapError::AllocationFailure));
    assert_eq!(reg.get(1).unwrap().pending_buffer(), None);
    assert_eq!(reg.finish_handoff(5, 0x1000), Err(SnapError::NotFound));
}

#[test]
fn repeated_handoffs_keep_one_buffer_outstanding() {
    let n: usize = 1000;
    let mut reg = NodeRegistry::new();
    let c = reg.add_node("Node 1");
    let mut released: Vec<usize> = Vec::new();
    let mut outstanding: Vec<usize> = Vec::new();
    for i in 0..n {
        let h = reg.display_info(c, SDI_STR).unwrap().unwrap();
        if let Some(old) = h.release {
            assert_eq!(outstanding.pop(), Some(old));
            released.push(old);
        }
        assert!(outstanding.is_empty());
        let addr = 0x1000 + 16 * i;
        outstanding.push(addr);
        assert_eq!(reg.finish_handoff(c, addr), Ok(addr));
    }
    assert_eq!(released.len(), n - 1);
    assert_eq!(outstanding.len(), 1);
    assert_eq!(reg.get(c).unwrap().pending_buffer(), Some(outstanding[0]));
}

#[test]
fn release_all_gives_each_buffer_once() {
    let mut reg = NodeRegistry::new();
    reg.get_or_create_root();
    reg.add_node("Node 1");
    reg.add_node("Node 2");
    reg.add_node("Node 3");
    for (c, addr) in [(0isize, 0x900usize), (3, 0x300), (1, 0x100)] {
        reg.display_info(c, SDI_STR).unwrap();
        reg.finish_handoff(c, addr).unwrap();
    }
    assert_eq!(reg.release_all(), vec![0x900, 0x100, 0x300]);
    assert!(reg.release_all().is_empty());
    assert_eq!(reg.get(3).unwrap().display_name(), "Node 3");
}
