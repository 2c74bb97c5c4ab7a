use sota::package::PackageId;
use sota::persistence::{assembly_order, concat_chunks, indices_from_names, join_path, Transfer, Transfers};

fn transfer(prefix: &str, name: &str, version: &str) -> Transfer {
    let mut t = Transfer::new(prefix);
    t.package = PackageId { name: name.to_string(), version: version.to_string() };
    t
}

fn names(ns: &[&str]) -> Vec<Option<String>> {
    ns.iter().map(|n| Some(n.to_string())).collect()
}

#[test]
fn new_transfer_is_empty() {
    let t = Transfer::new("/tmp/x");
    assert_eq!(t.package.name, "");
    assert_eq!(t.package.version, "");
    assert_eq!(t.checksum, "");
    assert!(t.transferred_chunks.is_empty());
    assert_eq!(t.prefix_dir, "/tmp/x");
}

#[test]
fn it_creates_a_tmp_directory() {
    let t = transfer("/tmp/prefix", "abc", "xyz");
    assert_eq!(t.chunk_dir(), "/tmp/prefix/downloads/abc-xyz");
}

#[test]
fn it_creates_a_persistent_directory_per_package() {
    for i in 1..20 {
        let name = "n".repeat(i);
        let version = "v".repeat(i);
        let t = transfer("/tmp/prefix", &name, &version);
        assert_eq!(t.package_path(), format!("{}/packages/{}-{}.spkg", "/tmp/prefix", name, version));
    }
}

#[test]
fn paths_follow_pathbuf_push() {
    assert_eq!(join_path("/a", "b"), "/a/b");
    assert_eq!(join_path("/a/", "b"), "/a/b");
    assert_eq!(join_path("", "b"), "b");
    assert_eq!(join_path("/a", "/b"), "/b");
    let t = transfer("", "p", "1");
    assert_eq!(t.chunk_path(7), "downloads/p-1/7");
    assert_eq!(t.package_dir(), "packages");
}

#[test]
fn it_writes_decoded_data_to_disk() {
    let t = transfer("/tmp/prefix", "pkg", "1.0");
    // "hello" base64 encoded, url safe alphabet with padding.
    let f = t.write_chunk("aGVsbG8=", 3).unwrap();
    assert_eq!(f.data, b"hello".to_vec());
    assert_eq!(f.dir, "/tmp/prefix/downloads/pkg-1.0");
    assert_eq!(f.path, "/tmp/prefix/downloads/pkg-1.0/3");
    assert!(t.write_chunk("not base64!", 3).is_none());
}

#[test]
fn recording_chunks_keeps_the_rest() {
    let mut t = transfer("/p", "a", "b");
    t.record_chunk(2);
    t.record_chunk(1);
    assert_eq!(t.transferred_chunks, vec![2, 1]);
    assert_eq!(t.package.name, "a");
}

#[test]
fn it_correctly_reads_incomplete_transfers_from_disk() {
    let mut t = transfer("/tmp/prefix", "pkg", "1");
    for i in 1..20u64 {
        t.record_chunk(i);
    }
    // a directory listing comes in no particular order
    let mut listing: Vec<Option<String>> = (1..20u64).rev().map(|i| Some(i.to_string())).collect();
    listing.push(None);
    listing.push(Some("garbage".to_string()));
    let back = Transfer::from_disk(t.package.clone(), t.checksum.clone(), t.prefix_dir.clone(), &listing);
    assert_eq!(back.transferred_chunks, t.transferred_chunks);
}

#[test]
fn chunk_names_are_decimal_numerals() {
    assert_eq!(indices_from_names(&names(&["10", "+2", "007", "x", "18446744073709551615", "18446744073709551616", "", "+", "-1"])),
               vec![2, 7, 10, 18446744073709551615]);
}

#[test]
fn it_correctly_assembles_stored_chunks() {
    assert_eq!(assembly_order(&names(&["3", "1", "2"])), Some(vec![1, 2, 3]));
    assert_eq!(assembly_order(&names(&["3", "oops"])), None);
    assert_eq!(assembly_order(&vec![Some("1".to_string()), None]), None);
    assert_eq!(assembly_order(&Vec::new()), Some(Vec::new()));
    let listed: Vec<String> = (1..20).rev().map(|i: u64| i.to_string()).collect();
    let order = assembly_order(&listed.iter().map(|n| Some(n.clone())).collect()).unwrap();
    assert_eq!(order, (1..20).collect::<Vec<u64>>());
    let parts: Vec<Vec<u8>> = order.iter().map(|i| format!("data{};", i).into_bytes()).collect();
    let expected: String = (1..20).map(|i| format!("data{};", i)).collect();
    assert_eq!(concat_chunks(&parts), expected.into_bytes());
    assert!(concat_chunks(&Vec::new()).is_empty());
}

#[test]
fn it_returns_true_for_correct_checksums() {
    let mut t = transfer("/p", "a", "b");
    t.checksum = "4e1243bd22c66e76c2ba9eddc1f91394e57f9f83".to_string();
    assert!(t.checksum_matches(b"test\n"));
    assert!(t.assemble_package(&Some(b"test\n".to_vec())));
    assert!(!t.assemble_package(&None));
}

#[test]
fn it_returns_false_for_incorrect_checksums() {
    let mut t = transfer("/p", "a", "b");
    t.checksum = "fa7c4d75bae3a641d1f9ab5df028175bfb8a69ca".to_string();
    assert!(!t.checksum_matches(b"test\n"));
}

#[test]
fn it_returns_false_for_invalid_checksums() {
    let mut t = transfer("/p", "a", "b");
    t.checksum = "invalid".to_string();
    assert!(!t.checksum_matches(b"test\n"));
    assert!(!t.assemble_package(&Some(b"test\n".to_vec())));
}

#[test]
fn transfers_by_update_id() {
    let mut ts = Transfers::new();
    assert!(!ts.contains("u1"));
    ts.push("u1".to_string(), transfer("/p", "a", "1"));
    ts.push("u2".to_string(), transfer("/p", "b", "2"));
    assert_eq!(ts.get("u1").unwrap().package.name, "a");
    ts.push("u1".to_string(), transfer("/p", "c", "3"));
    assert_eq!(ts.get("u1").unwrap().package.name, "c");
    let removed = ts.remove("u1").unwrap();
    assert_eq!(removed.package.name, "c");
    assert!(ts.get("u1").is_none());
    assert!(ts.remove("u1").is_none());
    assert!(ts.contains("u2"));
    ts.clear();
    assert!(!ts.contains("u2"));
}
