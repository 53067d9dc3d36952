//! The record that summarises one resolved file.

use vstd::prelude::*;

verus! {

/// A resolved file: its type tag, content hash, decoded text, length in
/// bytes and source path.
pub struct Reference {
    pub reference_type: String,
    pub content_hash: String,
    pub text: String,
    pub size_bytes: usize,
    pub path: String,
}

impl Reference {
    pub fn new(
        reference_type: String,
        content_hash: String,
        text: String,
        size_bytes: usize,
        path: String,
    ) -> (r: Reference)
        ensures
            r.reference_type == reference_type,
            r.content_hash == content_hash,
            r.text == text,
            r.size_bytes == size_bytes,
            r.path == path,
    {
        Reference { reference_type, content_hash, text, size_bytes, path }
    }
}

} // verus!
