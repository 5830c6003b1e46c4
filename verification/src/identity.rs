//! The identifier of a worker.
use vstd::prelude::*;
use vstd::utf8::{decode_utf8, decode_utf8_encode_utf8, encode_utf8, valid_utf8};

use crate::path;

verus! {

/// The SHA-256 digest of `bytes`, in hexadecimal.
pub uninterp spec fn sha256_hex(bytes: Seq<u8>) -> Seq<char>;

/// What `bytes` read as, where they need not be UTF-8 throughout.
pub uninterp spec fn lossy_text(bytes: Seq<u8>) -> Seq<char>;

/// `c` is a digit of a lower-case hexadecimal number.
pub open spec fn is_hex_digit(c: char) -> bool {
    '0' <= c <= '9' || 'a' <= c <= 'f'
}

/// `text` has the form of a digest: 64 hexadecimal digits.
pub open spec fn is_digest(text: Seq<char>) -> bool {
    text.len() == 64 && forall|i: int| 0 <= i < text.len() ==> is_hex_digit(#[trigger] text[i])
}

/// Calls `sha256::digest`. It depends on the bytes alone and writes the 32 bytes
/// of the digest as lower-case hexadecimal digits.
#[verifier::external_body]
fn digest(bytes: &[u8]) -> (text: String)
    ensures
        text@ == sha256_hex(bytes@),
        is_digest(text@),
{
    sha256::digest(bytes)
}

/// Calls `String::from_utf8_lossy`. It depends on the bytes alone and changes
/// nothing where they are valid UTF-8.
#[verifier::external_body]
fn from_utf8_lossy(bytes: &[u8]) -> (text: String)
    ensures
        text@ == lossy_text(bytes@),
        valid_utf8(bytes@) ==> text@ == decode_utf8(bytes@),
{
    String::from_utf8_lossy(bytes).into_owned()
}

/// The identifier of the worker at `path` in the project at `project_root`: the
/// digest of the path as text.
pub open spec fn worker_id_of(project_root: Seq<u8>, path: Seq<u8>) -> Seq<char> {
    sha256_hex(encode_utf8(lossy_text(path::joined(project_root, path))))
}

/// Computes the identifier of the worker at `path` in the project at
/// `project_root`.
pub fn worker_id(project_root: &[u8], path: &[u8]) -> (id: String)
    ensures
        id@ == worker_id_of(project_root@, path@),
        is_digest(id@),
        valid_utf8(path::joined(project_root@, path@)) ==> id@ == sha256_hex(
            path::joined(project_root@, path@),
        ),
{
    let full = path::join(project_root, path);
    let text = from_utf8_lossy(full.as_slice());
    proof {
        if valid_utf8(full@) {
            decode_utf8_encode_utf8(full@);
        }
    }
    digest(text.as_str().as_bytes())
}

/// An absolute worker path gives the same identifier in every project.
pub proof fn law_absolute_id(root1: Seq<u8>, root2: Seq<u8>, path: Seq<u8>)
    requires
        path::is_absolute(path),
    ensures
        worker_id_of(root1, path) == worker_id_of(root2, path),
{
}

/// The identifier is the digest of the whole path as text: of the path itself where it
/// is absolute, and else of the root, a separator where the root does not end in one,
/// and the path.
pub proof fn law_id_of_full_path(project_root: Seq<u8>, path: Seq<u8>)
    ensures
        path.len() > 0 && path[0] == 47u8 ==> worker_id_of(project_root, path) == sha256_hex(
            encode_utf8(lossy_text(path)),
        ),
        (path.len() == 0 || path[0] != 47u8) && project_root.len() > 0 && project_root.last()
            != 47u8 ==> worker_id_of(project_root, path) == sha256_hex(
            encode_utf8(lossy_text(project_root + seq![47u8] + path)),
        ),
        (path.len() == 0 || path[0] != 47u8) && (project_root.len() == 0 || project_root.last()
            == 47u8) ==> worker_id_of(project_root, path) == sha256_hex(
            encode_utf8(lossy_text(project_root + path)),
        ),
{
    path::law_joined_is(project_root, path);
}

/// A worker has the same identifier whichever part of its path is taken for the root.
pub proof fn law_id_of_place(project_root: Seq<u8>, middle: Seq<u8>, path: Seq<u8>)
    ensures
        worker_id_of(path::joined(project_root, middle), path) == worker_id_of(
            project_root,
            path::joined(middle, path),
        ),
{
    path::law_joined_steps(project_root, middle, path);
}

} // verus!
