//! The node factory: one node per path, or none at all.

use local::FsMetadata;
use local::Local;
use local::Timestamp;
use local::Value;

fn file_meta() -> FsMetadata {
    FsMetadata {
        is_file: true,
        is_dir: false,
        accessed: None,
        created: None,
        modified: Some(Timestamp { secs: 11, nanos: 0 }),
    }
}

fn dir_meta() -> FsMetadata {
    FsMetadata {
        is_file: false,
        is_dir: true,
        accessed: Some(Timestamp { secs: 4, nanos: 0 }),
        created: None,
        modified: None,
    }
}

#[test]
fn file_node_carries_local_file_and_data_attributes() {
    let l = Local::default();
    let node = l.create_node(String::from("/a/f1.txt"), &file_meta(), Some(10)).unwrap();
    assert_eq!(node.name, "f1.txt");
    assert_eq!(node.attributes.entries.len(), 3);

    assert_eq!(node.attributes.entries[0].name, "local");
    match &node.attributes.entries[0].value {
        Some(Value::Attributes(inner)) => {
            assert_eq!(inner.entries.len(), 1);
            assert_eq!(inner.entries[0].name, "modified");
        },
        _ => panic!("expected a nested attribute set"),
    }

    assert_eq!(node.attributes.entries[1].name, "file");
    assert!(node.attributes.entries[1].value.is_none());

    assert_eq!(node.attributes.entries[2].name, "data");
    match &node.attributes.entries[2].value {
        Some(Value::VFileBuilder(b)) => {
            assert_eq!(b.path(), "/a/f1.txt");
            assert_eq!(b.size(), 10);
        },
        _ => panic!("expected a content accessor"),
    }
}

#[test]
fn file_with_failed_probe_yields_no_node_at_all() {
    let l = Local::default();
    assert!(l.create_node(String::from("/a/f1.txt"), &file_meta(), None).is_none());
}

#[test]
fn directory_node_carries_local_and_directory_attributes() {
    let l = Local::default();
    let node = l.create_node(String::from("/a/sub"), &dir_meta(), None).unwrap();
    assert_eq!(node.name, "sub");
    assert_eq!(node.attributes.entries.len(), 2);
    assert_eq!(node.attributes.entries[0].name, "local");
    assert_eq!(node.attributes.entries[1].name, "directory");
    assert!(node.attributes.entries[1].value.is_none());
}

#[test]
fn non_file_non_directory_is_treated_as_directory() {
    let l = Local::default();
    let socket_like = FsMetadata {
        is_file: false,
        is_dir: false,
        accessed: None,
        created: None,
        modified: None,
    };
    let node = l.create_node(String::from("/dev/odd"), &socket_like, None).unwrap();
    assert_eq!(node.attributes.entries[1].name, "directory");
}
