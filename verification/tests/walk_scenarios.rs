//! Whole-walk scenarios driven through the traversal state machine.

use local::FsMetadata;
use local::Local;
use local::LocalError;
use local::Node;
use local::PathFacts;
use local::Timestamp;
use local::Traversal;
use local::Tree;
use local::TreeNodeId;
use local::Value;

fn file_meta() -> FsMetadata {
    FsMetadata {
        is_file: true,
        is_dir: false,
        accessed: None,
        created: None,
        modified: Some(Timestamp { secs: 1, nanos: 0 }),
    }
}

fn dir_meta() -> FsMetadata {
    FsMetadata { is_file: false, is_dir: true, accessed: None, created: None, modified: None }
}

fn marker_of(node: &Node) -> &str {
    &node.attributes.entries[1].name
}

fn accessor_size(node: &Node) -> u64 {
    match &node.attributes.entries[2].value {
        Some(Value::VFileBuilder(b)) => b.size(),
        _ => panic!("expected a content accessor"),
    }
}

#[test]
fn two_roots_with_a_subdirectory_mirror_the_hierarchy() {
    let local = Local::default();
    let mut tree = Tree::new();
    let mount = tree.add_root(Node::new(String::from("mount")));

    let roots = vec![String::from("/a/f1.txt"), String::from("/a/sub")];
    let mut walk = Traversal::new(mount, roots);

    assert_eq!(walk.next_path().unwrap(), "/a/f1.txt");
    let facts = PathFacts::Found { metadata: file_meta(), probe: Some(3), entries: None };
    local.step(&mut walk, &mut tree, facts).unwrap();

    assert_eq!(walk.next_path().unwrap(), "/a/sub");
    let facts = PathFacts::Found {
        metadata: dir_meta(),
        probe: None,
        entries: Some(vec![String::from("/a/sub/f2.txt")]),
    };
    local.step(&mut walk, &mut tree, facts).unwrap();

    assert_eq!(walk.next_path().unwrap(), "/a/sub/f2.txt");
    let facts = PathFacts::Found { metadata: file_meta(), probe: Some(5), entries: None };
    local.step(&mut walk, &mut tree, facts).unwrap();

    assert!(walk.next_path().is_none());

    let mount_kids = tree.children(mount);
    assert_eq!(mount_kids.len(), 2);
    let f1 = tree.get(mount_kids[0]).unwrap();
    assert_eq!(f1.name, "f1.txt");
    assert_eq!(marker_of(f1), "file");
    assert_eq!(accessor_size(f1), 3);

    let sub_id = mount_kids[1];
    let sub = tree.get(sub_id).unwrap();
    assert_eq!(sub.name, "sub");
    assert_eq!(marker_of(sub), "directory");

    let sub_kids = tree.children(sub_id);
    assert_eq!(sub_kids.len(), 1);
    let f2 = tree.get(sub_kids[0]).unwrap();
    assert_eq!(f2.name, "f2.txt");
    assert_eq!(marker_of(f2), "file");
    assert_eq!(accessor_size(f2), 5);
}

#[test]
fn empty_root_list_finishes_immediately_with_nothing_added() {
    let mut tree = Tree::new();
    let mount = tree.add_root(Node::new(String::from("mount")));
    let walk = Traversal::new(mount, Vec::new());
    assert!(walk.next_path().is_none());
    assert_eq!(tree.len(), 1);
    assert!(tree.children(mount).is_empty());
}

#[test]
fn missing_path_is_skipped_and_the_rest_still_processed() {
    let local = Local::default();
    let mut tree = Tree::new();
    let mount = tree.add_root(Node::new(String::from("mount")));

    let roots = vec![String::from("/gone"), String::from("/real.txt")];
    let mut walk = Traversal::new(mount, roots);

    assert_eq!(walk.next_path().unwrap(), "/gone");
    local.step(&mut walk, &mut tree, PathFacts::Missing).unwrap();
    assert_eq!(tree.len(), 1);

    assert_eq!(walk.next_path().unwrap(), "/real.txt");
    let facts = PathFacts::Found { metadata: file_meta(), probe: Some(9), entries: None };
    local.step(&mut walk, &mut tree, facts).unwrap();
    assert!(walk.next_path().is_none());

    let kids = tree.children(mount);
    assert_eq!(kids.len(), 1);
    assert_eq!(tree.get(kids[0]).unwrap().name, "real.txt");
}

#[test]
fn unopenable_file_yields_no_node_but_walk_continues() {
    let local = Local::default();
    let mut tree = Tree::new();
    let mount = tree.add_root(Node::new(String::from("mount")));

    let roots = vec![String::from("/locked.bin"), String::from("/ok.bin")];
    let mut walk = Traversal::new(mount, roots);

    let facts = PathFacts::Found { metadata: file_meta(), probe: None, entries: None };
    local.step(&mut walk, &mut tree, facts).unwrap();
    assert_eq!(tree.len(), 1);

    let facts = PathFacts::Found { metadata: file_meta(), probe: Some(2), entries: None };
    local.step(&mut walk, &mut tree, facts).unwrap();

    let kids = tree.children(mount);
    assert_eq!(kids.len(), 1);
    assert_eq!(tree.get(kids[0]).unwrap().name, "ok.bin");
}

#[test]
fn unlistable_directory_stays_present_but_childless() {
    let local = Local::default();
    let mut tree = Tree::new();
    let mount = tree.add_root(Node::new(String::from("mount")));

    let mut walk = Traversal::new(mount, vec![String::from("/secret")]);
    let facts = PathFacts::Found { metadata: dir_meta(), probe: None, entries: None };
    local.step(&mut walk, &mut tree, facts).unwrap();
    assert!(walk.next_path().is_none());

    let kids = tree.children(mount);
    assert_eq!(kids.len(), 1);
    let dir_id = kids[0];
    assert_eq!(marker_of(tree.get(dir_id).unwrap()), "directory");
    assert!(tree.children(dir_id).is_empty());
}

#[test]
fn insertion_under_unknown_mount_point_aborts_the_run() {
    let local = Local::default();
    let mut tree = Tree::new();

    let mut walk = Traversal::new(TreeNodeId { index: 99 }, vec![String::from("/a")]);
    let facts = PathFacts::Found { metadata: dir_meta(), probe: None, entries: None };
    let r = local.step(&mut walk, &mut tree, facts);
    match r {
        Err(LocalError::InvalidParent(p)) => assert_eq!(p, 99),
        _ => panic!("expected the fatal insertion error"),
    }
    assert_eq!(tree.len(), 0);
}

#[test]
fn directory_entries_are_visited_in_listing_order() {
    let local = Local::default();
    let mut tree = Tree::new();
    let mount = tree.add_root(Node::new(String::from("mount")));

    let mut walk = Traversal::new(mount, vec![String::from("/d")]);
    let facts = PathFacts::Found {
        metadata: dir_meta(),
        probe: None,
        entries: Some(vec![String::from("/d/x"), String::from("/d/y"), String::from("/d/z")]),
    };
    local.step(&mut walk, &mut tree, facts).unwrap();

    assert_eq!(walk.next_path().unwrap(), "/d/x");
    let facts = PathFacts::Found { metadata: file_meta(), probe: Some(1), entries: None };
    local.step(&mut walk, &mut tree, facts).unwrap();
    assert_eq!(walk.next_path().unwrap(), "/d/y");
    local.step(&mut walk, &mut tree, PathFacts::Missing).unwrap();
    assert_eq!(walk.next_path().unwrap(), "/d/z");
    let facts = PathFacts::Found { metadata: file_meta(), probe: Some(1), entries: None };
    local.step(&mut walk, &mut tree, facts).unwrap();
    assert!(walk.next_path().is_none());

    let d_id = tree.children(mount)[0];
    let d_kids = tree.children(d_id);
    assert_eq!(d_kids.len(), 2);
    assert_eq!(tree.get(d_kids[0]).unwrap().name, "x");
    assert_eq!(tree.get(d_kids[1]).unwrap().name, "z");
}
