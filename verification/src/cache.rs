//! The content-addressed cache: how an artifact gets its key, where its
//! entry lives, and what a directory of entries looks like after a store.
//!
//! Nothing here touches a file. The functions compute keys and paths; the
//! directory itself is modelled as a map from path to contents, and the laws
//! at the end of the file are stated over that model.

use crate::backend::{separator, Backend};
use vstd::prelude::*;
use vstd::string::*;

verus! {

/// The text that `wasmer_cache::Hash::generate` gives for the bytes, once
/// it is written out with `to_string`.
pub uninterp spec fn blake3_hex_text(bytes: Seq<u8>) -> Seq<char>;

/// How many characters a key has.
pub const ARTIFACT_KEY_LEN: usize = 64;

/// Whether a character is a hexadecimal digit in lower case.
pub open spec fn is_lower_hex(c: char) -> bool {
    ('0' <= c && c <= '9') || ('a' <= c && c <= 'f')
}

/// Whether a text has the shape of a key: `ARTIFACT_KEY_LEN` hexadecimal
/// digits in lower case and nothing else.
pub open spec fn spec_is_key(key: Seq<char>) -> bool {
    &&& key.len() == ARTIFACT_KEY_LEN
    &&& forall|i: int| 0 <= i < key.len() ==> is_lower_hex(#[trigger] key[i])
}

/// Calls `wasmer_cache::Hash::generate` and writes the hash out with
/// `to_string`.
///
/// Trusted: the result is a function of the bytes alone. It is the hash of
/// 32 bytes written as 64 hexadecimal digits in lower case.
#[verifier::external_body]
fn hash_hex(bytes: &[u8]) -> (text: String)
    ensures
        text@ == blake3_hex_text(bytes@),
        spec_is_key(text@),
{
    wasmer_cache::Hash::generate(bytes).to_string()
}

/// The key of a compiled artifact: the hash of its serialized bytes.
pub open spec fn spec_artifact_key(artifact: Seq<u8>) -> Seq<char> {
    blake3_hex_text(artifact)
}

/// Derives the key under which a compiled artifact is cached, from all of
/// its serialized bytes and from nothing else.
pub fn artifact_key(artifact: &[u8]) -> (key: String)
    ensures
        key@ == spec_artifact_key(artifact@),
        spec_is_key(key@),
{
    hash_hex(artifact)
}

/// Tells whether `key` has the shape of a key. Only such a text can have
/// come from `artifact_key`, and only such a text is used as a file name.
pub fn is_key(key: &str) -> (yes: bool)
    ensures
        yes == spec_is_key(key@),
{
    if key.unicode_len() != ARTIFACT_KEY_LEN {
        return false;
    }
    let mut i: usize = 0;
    while i < ARTIFACT_KEY_LEN
        invariant
            key@.len() == ARTIFACT_KEY_LEN,
            i <= ARTIFACT_KEY_LEN,
            forall|j: int| 0 <= j < i ==> is_lower_hex(#[trigger] key@[j]),
        decreases ARTIFACT_KEY_LEN - i,
    {
        let c = key.get_char(i);
        if !(('0' <= c && c <= '9') || ('a' <= c && c <= 'f')) {
            return false;
        }
        i += 1;
    }
    true
}

/// The path of a cache entry: the root, the backend's directory, the key.
pub open spec fn spec_entry_path(root: Seq<char>, backend: Backend, key: Seq<char>) -> Seq<char> {
    root + seq![separator()] + backend.spec_name() + seq![separator()] + key
}

/// Derives the path of the entry that holds `key` under `backend`.
pub fn entry_path(root: &str, backend: Backend, key: &str) -> (path: String)
    ensures
        path@ == spec_entry_path(root@, backend, key@),
{
    proof {
        reveal_strlit("/");
    }
    let mut path = String::from_str(root);
    path.append("/");
    path.append(backend.name());
    path.append("/");
    path.append(key);
    assert("/"@ =~= seq![separator()]);
    path
}

/// The directory after `artifact` was stored under `key` for `backend`.
pub open spec fn store_entry(
    dir: Map<Seq<char>, Seq<u8>>,
    root: Seq<char>,
    backend: Backend,
    key: Seq<char>,
    artifact: Seq<u8>,
) -> Map<Seq<char>, Seq<u8>> {
    dir.insert(spec_entry_path(root, backend, key), artifact)
}

/// What a load of `key` under `backend` finds in the directory.
pub open spec fn load_entry(
    dir: Map<Seq<char>, Seq<u8>>,
    root: Seq<char>,
    backend: Backend,
    key: Seq<char>,
) -> Option<Seq<u8>> {
    let path = spec_entry_path(root, backend, key);
    if dir.contains_key(path) {
        Some(dir[path])
    } else {
        None
    }
}

/// The directory after `artifact` was stored for `backend` under the key
/// that its own bytes give it.
pub open spec fn store_artifact(
    dir: Map<Seq<char>, Seq<u8>>,
    root: Seq<char>,
    backend: Backend,
    artifact: Seq<u8>,
) -> Map<Seq<char>, Seq<u8>> {
    store_entry(dir, root, backend, spec_artifact_key(artifact), artifact)
}

/// A key is a single path component and a plain file name: it is not
/// empty and holds no separator of either kind, no dot and no NUL.
pub proof fn lemma_key_is_file_name(key: Seq<char>)
    requires
        spec_is_key(key),
    ensures
        key.len() > 0,
        !key.contains(separator()),
        !key.contains('\\'),
        !key.contains('.'),
        !key.contains('\0'),
{
    assert forall|i: int| 0 <= i < key.len() implies key[i] != separator() && key[i] != '\\'
        && key[i] != '.' && key[i] != '\0' by {
        assert(is_lower_hex(key[i]));
    }
}

/// Under one root, a path names one backend and one key.
pub proof fn lemma_entry_path_injective(
    root: Seq<char>,
    b1: Backend,
    k1: Seq<char>,
    b2: Backend,
    k2: Seq<char>,
)
    requires
        spec_entry_path(root, b1, k1) == spec_entry_path(root, b2, k2),
    ensures
        b1 == b2,
        k1 == k2,
{
    let first = spec_entry_path(root, b1, k1);
    let second = spec_entry_path(root, b2, k2);
    let n1 = b1.spec_name();
    let n2 = b2.spec_name();
    let base: int = (root.len() + 1) as int;
    Backend::lemma_names(b1, b2);
    Backend::lemma_names(b2, b1);
    if n1.len() < n2.len() {
        let at: int = base + n1.len();
        assert(first[at] == separator());
        assert(second[at] == n2[n1.len() as int]);
        assert(n2.contains(n2[n1.len() as int]));
    } else if n2.len() < n1.len() {
        let at: int = base + n2.len();
        assert(second[at] == separator());
        assert(first[at] == n1[n2.len() as int]);
        assert(n1.contains(n1[n2.len() as int]));
    } else {
        let start: int = base + n1.len() + 1;
        assert(k1 =~= first.subrange(start, first.len() as int));
        assert(k2 =~= second.subrange(start, second.len() as int));
    }
}

/// A load after a store under the same backend and key finds exactly the
/// bytes that were stored.
pub proof fn lemma_load_after_store(
    dir: Map<Seq<char>, Seq<u8>>,
    root: Seq<char>,
    backend: Backend,
    key: Seq<char>,
    artifact: Seq<u8>,
)
    ensures
        load_entry(store_entry(dir, root, backend, key, artifact), root, backend, key) == Some(
            artifact,
        ),
{
}

/// A store under one backend neither creates nor changes what a load under
/// another backend finds, whatever the keys.
pub proof fn lemma_backends_isolated(
    dir: Map<Seq<char>, Seq<u8>>,
    root: Seq<char>,
    stored_under: Backend,
    stored_key: Seq<char>,
    artifact: Seq<u8>,
    loaded_under: Backend,
    loaded_key: Seq<char>,
)
    requires
        stored_under != loaded_under,
    ensures
        load_entry(
            store_entry(dir, root, stored_under, stored_key, artifact),
            root,
            loaded_under,
            loaded_key,
        ) == load_entry(dir, root, loaded_under, loaded_key),
{
    if spec_entry_path(root, stored_under, stored_key) == spec_entry_path(
        root,
        loaded_under,
        loaded_key,
    ) {
        lemma_entry_path_injective(root, stored_under, stored_key, loaded_under, loaded_key);
    }
}

/// A store leaves every entry under another key as it was.
pub proof fn lemma_keys_isolated(
    dir: Map<Seq<char>, Seq<u8>>,
    root: Seq<char>,
    backend: Backend,
    stored_key: Seq<char>,
    artifact: Seq<u8>,
    loaded_key: Seq<char>,
)
    requires
        stored_key != loaded_key,
    ensures
        load_entry(store_entry(dir, root, backend, stored_key, artifact), root, backend, loaded_key)
            == load_entry(dir, root, backend, loaded_key),
{
    if spec_entry_path(root, backend, stored_key) == spec_entry_path(root, backend, loaded_key) {
        lemma_entry_path_injective(root, backend, stored_key, backend, loaded_key);
    }
}

/// Storing the same artifact a second time changes nothing: the directory
/// holds the same paths with the same contents as after the first store.
pub proof fn lemma_store_idempotent(
    dir: Map<Seq<char>, Seq<u8>>,
    root: Seq<char>,
    backend: Backend,
    key: Seq<char>,
    artifact: Seq<u8>,
)
    ensures
        store_entry(store_entry(dir, root, backend, key, artifact), root, backend, key, artifact)
            == store_entry(dir, root, backend, key, artifact),
        store_entry(dir, root, backend, key, artifact).dom() == dir.dom().insert(
            spec_entry_path(root, backend, key),
        ),
{
    let once = store_entry(dir, root, backend, key, artifact);
    assert(store_entry(once, root, backend, key, artifact) =~= once);
}

/// Storing the same artifact twice uses the same key both times and leaves
/// the directory as the first store left it: no entry is added, and the
/// artifact is found under its key.
pub proof fn lemma_store_artifact_idempotent(
    dir: Map<Seq<char>, Seq<u8>>,
    root: Seq<char>,
    backend: Backend,
    artifact: Seq<u8>,
)
    ensures
        store_artifact(store_artifact(dir, root, backend, artifact), root, backend, artifact)
            == store_artifact(dir, root, backend, artifact),
        load_entry(
            store_artifact(dir, root, backend, artifact),
            root,
            backend,
            spec_artifact_key(artifact),
        ) == Some(artifact),
{
    lemma_store_idempotent(dir, root, backend, spec_artifact_key(artifact), artifact);
}

} // verus!
