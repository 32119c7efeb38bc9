use std::collections::HashMap;
use wasm_runtime_benchmark::backend::Backend;
use wasm_runtime_benchmark::cache::{artifact_key, entry_path, is_key, ARTIFACT_KEY_LEN};

fn counting_bytes(len: usize) -> Vec<u8> {
    (0..len).map(|i| i as u8).collect()
}

fn store(dir: &mut HashMap<String, Vec<u8>>, root: &str, backend: Backend, artifact: &[u8]) -> String {
    let key = artifact_key(artifact);
    dir.insert(entry_path(root, backend, &key), artifact.to_vec());
    key
}

fn load(dir: &HashMap<String, Vec<u8>>, root: &str, backend: Backend, key: &str) -> Option<Vec<u8>> {
    dir.get(&entry_path(root, backend, key)).cloned()
}

#[test]
fn backend_names() {
    assert_eq!(Backend::Singlepass.name(), "singlepass");
    assert_eq!(Backend::Cranelift.name(), "cranelift");
    assert_eq!(Backend::LLVM.name(), "llvm");
    assert_eq!(Backend::Lucet.name(), "lucet");
}

#[test]
fn key_of_known_bytes() {
    assert_eq!(ARTIFACT_KEY_LEN, 64);
    assert_eq!(
        artifact_key(b""),
        "af1349b9f5f9a1a6a0404dea36dcc9499bcb25c9adc112b7cc9a93cae41f3262"
    );
    assert_eq!(
        artifact_key(b"abc"),
        "6437b3ac38465133ffb63b75273a8db548c558465d79db03fd359c6cd5bd9d85"
    );
}

#[test]
fn key_is_not_the_input_handed_back() {
    let bytes = counting_bytes(64);
    let key = artifact_key(&bytes);
    assert_ne!(key.as_bytes(), &bytes[..]);
    assert_eq!(key.len(), ARTIFACT_KEY_LEN);
}

#[test]
fn key_depends_on_every_byte() {
    let bytes = counting_bytes(200);
    for at in [0, 29, 30, 31, 199] {
        let mut other = bytes.clone();
        other[at] ^= 1;
        assert_ne!(artifact_key(&other), artifact_key(&bytes));
    }
    assert_ne!(artifact_key(&bytes[..30]), artifact_key(&bytes));
    assert_ne!(artifact_key(&[]), artifact_key(&[0]));
}

#[test]
fn key_is_the_same_on_every_call() {
    for len in [0, 1, 8, 29, 30, 64] {
        let bytes = counting_bytes(len);
        assert_eq!(artifact_key(&bytes), artifact_key(&bytes));
    }
}

#[test]
fn every_key_has_the_shape_of_a_key() {
    for len in 0..80 {
        let key = artifact_key(&counting_bytes(len));
        assert!(is_key(&key));
        assert!(key.chars().all(|c| matches!(c, '0'..='9' | 'a'..='f')));
    }
}

#[test]
fn what_is_no_key() {
    let key = artifact_key(b"abc");
    assert!(is_key(&key));
    assert!(!is_key(""));
    assert!(!is_key(&key[1..]));
    assert!(!is_key(&format!("{}0", key)));
    assert!(!is_key(&key.to_uppercase()));
    for intruder in ["/", "\\", ".", "\0", "g", " ", "-", "é"] {
        let mut text = String::from(intruder);
        text.push_str(&key[1..]);
        assert!(!is_key(&text));
        let mut text = String::from(&key[..63]);
        text.push_str(intruder);
        assert!(!is_key(&text));
    }
    assert!(is_key(&"0".repeat(64)));
    assert!(is_key(&"f".repeat(64)));
    assert!(is_key(&"9a".repeat(32)));
    assert!(!is_key(&"G".repeat(64)));
}

#[test]
fn path_is_root_backend_key() {
    assert_eq!(entry_path("./tmp", Backend::Lucet, "abc"), "./tmp/lucet/abc");
    assert_eq!(entry_path("/var/cache", Backend::Singlepass, "k"), "/var/cache/singlepass/k");
    assert_eq!(entry_path("", Backend::LLVM, ""), "/llvm/");
    assert_eq!(entry_path("r", Backend::Cranelift, "k"), "r/cranelift/k");
}

#[test]
fn load_after_store_finds_the_bytes() {
    let mut dir = HashMap::new();
    let artifact = counting_bytes(80);
    let key = store(&mut dir, "root", Backend::Cranelift, &artifact);
    assert_eq!(load(&dir, "root", Backend::Cranelift, &key), Some(artifact));
}

#[test]
fn load_under_another_backend_finds_nothing() {
    let mut dir = HashMap::new();
    let artifact = counting_bytes(80);
    let key = store(&mut dir, "root", Backend::Cranelift, &artifact);
    assert_eq!(load(&dir, "root", Backend::Singlepass, &key), None);
    assert_eq!(load(&dir, "root", Backend::LLVM, &key), None);
    assert_eq!(load(&dir, "root", Backend::Lucet, &key), None);
}

#[test]
fn store_twice_is_store_once() {
    let mut dir = HashMap::new();
    let artifact = counting_bytes(80);
    let first = store(&mut dir, "root", Backend::Lucet, &artifact);
    let after_first = dir.clone();
    let second = store(&mut dir, "root", Backend::Lucet, &artifact);
    assert_eq!(first, second);
    assert_eq!(dir.len(), 1);
    assert_eq!(dir, after_first);
}

#[test]
fn load_of_a_key_never_stored_finds_nothing() {
    let mut dir = HashMap::new();
    store(&mut dir, "root", Backend::Lucet, &counting_bytes(80));
    assert_eq!(load(&dir, "root", Backend::Lucet, &artifact_key(b"never")), None);
    assert_eq!(dir.len(), 1);
}
