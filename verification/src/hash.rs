//! Post-copy integrity checking: digest the source and the destination and
//! compare. The digests come from outside hashing routines behind trusted
//! wrappers; encoding them and deciding equality is verified here.

use vstd::prelude::*;

use blake2::{Blake2s256, Digest};

use crate::error::CopyError;
use crate::order::sort_paths;

verus! {

/// The value of a hexadecimal digit, as a lowercase character. Meaningful
/// for values below sixteen.
pub open spec fn hex_digit(n: u8) -> char {
    if n == 0 {
        '0'
    } else if n == 1 {
        '1'
    } else if n == 2 {
        '2'
    } else if n == 3 {
        '3'
    } else if n == 4 {
        '4'
    } else if n == 5 {
        '5'
    } else if n == 6 {
        '6'
    } else if n == 7 {
        '7'
    } else if n == 8 {
        '8'
    } else if n == 9 {
        '9'
    } else if n == 10 {
        'a'
    } else if n == 11 {
        'b'
    } else if n == 12 {
        'c'
    } else if n == 13 {
        'd'
    } else if n == 14 {
        'e'
    } else {
        'f'
    }
}

/// The lowercase hexadecimal encoding of a byte sequence: two digits per
/// byte, high nibble first.
pub open spec fn hex_of(bytes: Seq<u8>) -> Seq<char> {
    Seq::new(
        bytes.len() * 2,
        |i: int|
            if i % 2 == 0 {
                hex_digit(bytes[i / 2] / 16)
            } else {
                hex_digit(bytes[i / 2] % 16)
            },
    )
}

/// Below sixteen, distinct values have distinct hexadecimal digits.
proof fn lemma_hex_digit_injective(a: u8, b: u8)
    requires
        a < 16,
        b < 16,
        hex_digit(a) == hex_digit(b),
    ensures
        a == b,
{
}

/// Two byte sequences have the same hexadecimal encoding exactly when they
/// are the same: comparing digests as lowercase hexadecimal strings decides
/// digest equality.
pub proof fn lemma_hex_of_injective(a: Seq<u8>, b: Seq<u8>)
    ensures
        hex_of(a) == hex_of(b) <==> a == b,
{
    if hex_of(a) == hex_of(b) {
        assert(hex_of(a).len() == hex_of(b).len());
        assert(a.len() == b.len());
        assert forall|i: int| 0 <= i < a.len() implies a[i] == b[i] by {
            assert(hex_of(a)[2 * i] == hex_of(b)[2 * i]);
            assert(hex_of(a)[2 * i + 1] == hex_of(b)[2 * i + 1]);
            assert(hex_of(a)[2 * i] == hex_digit(a[i] / 16));
            assert(hex_of(a)[2 * i + 1] == hex_digit(a[i] % 16));
            assert(hex_of(b)[2 * i] == hex_digit(b[i] / 16));
            assert(hex_of(b)[2 * i + 1] == hex_digit(b[i] % 16));
            lemma_hex_digit_injective(a[i] / 16, b[i] / 16);
            lemma_hex_digit_injective(a[i] % 16, b[i] % 16);
        }
        assert(a =~= b);
    }
    if a == b {
        assert(hex_of(a) =~= hex_of(b));
    }
}

/// Relies on file_hashing::get_hash_file with a blake2 `Blake2s256` hasher:
/// it streams the file's bytes into the hasher, and the finalized
/// Blake2s-256 digest is 32 bytes. The digest depends on what is on disk;
/// reading the file can fail.
#[verifier::external_body]
fn hash_file_digest(path: &String) -> (r: Result<Vec<u8>, String>)
    ensures
        r matches Ok(d) ==> d@.len() == 32,
{
    let mut hasher = Blake2s256::new();
    match file_hashing::get_hash_file(path.as_str(), &mut hasher) {
        Ok(_) => Ok(hasher.finalize().to_vec()),
        Err(e) => Err(format!("{}", e)),
    }
}

/// Relies on file_hashing::get_hash_files with a blake2 `Blake2s256` hasher:
/// it hashes the listed files, fanned out over `workers` threads, into one
/// finalized 32-byte Blake2s-256 digest. The digest depends on what is on
/// disk. An empty list fails; a listed file that cannot be read is reported
/// only to the progress callback, which is left silent here, so such a file
/// is left out of the digest rather than failing the call.
#[verifier::external_body]
fn hash_files_digest(paths: &Vec<String>, workers: usize) -> (r: Result<Vec<u8>, String>)
    requires
        workers >= 1,
    ensures
        r matches Ok(d) ==> d@.len() == 32,
{
    let mut hasher = Blake2s256::new();
    match file_hashing::get_hash_files(paths, &mut hasher, workers, |_| {}) {
        Ok(_) => Ok(hasher.finalize().to_vec()),
        Err(e) => Err(format!("{}", e)),
    }
}

/// Relies on num_cpus::get: the number of processing units available to the
/// process, always at least 1.
#[verifier::external_body]
fn worker_count() -> (r: usize)
    ensures
        r >= 1,
{
    num_cpus::get()
}

/// Relies on hex::encode: each byte becomes two lowercase hexadecimal
/// digits, high nibble first.
#[verifier::external_body]
fn to_hex(digest: &Vec<u8>) -> (r: String)
    ensures
        r@ == hex_of(digest@),
{
    hex::encode(digest)
}

/// Compare two digests the way the user sees them: encoded as lowercase
/// hexadecimal strings and tested for exact equality. Succeeds exactly when
/// the digests are equal; a mismatch reports both encodings.
pub fn check_digests(source_digest: &Vec<u8>, destination_digest: &Vec<u8>) -> (r: Result<
    (),
    CopyError,
>)
    ensures
        r is Ok <==> source_digest@ == destination_digest@,
        r matches Err(e) ==> (e matches CopyError::HashMismatch { source_hex, destination_hex }
            && source_hex@ == hex_of(source_digest@) && destination_hex@ == hex_of(
            destination_digest@,
        )),
{
    let source_hex = to_hex(source_digest);
    let destination_hex = to_hex(destination_digest);
    proof {
        lemma_hex_of_injective(source_digest@, destination_digest@);
    }
    if source_hex == destination_hex {
        Ok(())
    } else {
        Err(CopyError::HashMismatch { source_hex, destination_hex })
    }
}

/// One side of a verification: a file, digested by its path, or a
/// directory, digested over the files the caller found under it.
#[derive(Debug)]
pub enum DigestSource {
    /// A file, named by its path.
    File(String),
    /// A directory, given as the paths of every file under it, in any order.
    Folder(Vec<String>),
}

/// Digest one side: a file by streaming its bytes, a directory by hashing
/// its files in path-sorted order, whatever order the caller listed them in.
fn digest_of(subject: &DigestSource) -> (r: Result<Vec<u8>, CopyError>)
    ensures
        r matches Ok(d) ==> d@.len() == 32,
        r matches Err(e) ==> e matches CopyError::Hashing(_),
{
    match subject {
        DigestSource::File(path) => {
            match hash_file_digest(path) {
                Ok(d) => Ok(d),
                Err(m) => Err(CopyError::Hashing(m)),
            }
        },
        DigestSource::Folder(files) => {
            let sorted = sort_paths(files);
            match hash_files_digest(&sorted, worker_count()) {
                Ok(d) => Ok(d),
                Err(m) => Err(CopyError::Hashing(m)),
            }
        },
    }
}

/// Digest the source and the destination (a file directly, a directory over
/// its files in path-sorted order) and require the digests to be equal.
///
/// Success means both digests were computed and agreed. A mismatch reports
/// both 64-character hexadecimal encodings, which then differ; a failure to
/// hash reports the underlying error's message.
pub fn verify_hash(source: &DigestSource, destination: &DigestSource) -> (r: Result<
    (),
    CopyError,
>)
    ensures
        r matches Err(CopyError::HashMismatch { source_hex, destination_hex }) ==> {
            &&& source_hex@ != destination_hex@
            &&& source_hex@.len() == 64
            &&& destination_hex@.len() == 64
        },
        r is Err ==> ((r matches Err(CopyError::HashMismatch { .. })) || (r matches Err(
            CopyError::Hashing(_),
        ))),
{
    let source_digest = match digest_of(source) {
        Ok(d) => d,
        Err(e) => {
            return Err(e);
        },
    };
    let destination_digest = match digest_of(destination) {
        Ok(d) => d,
        Err(e) => {
            return Err(e);
        },
    };
    let r = check_digests(&source_digest, &destination_digest);
    proof {
        lemma_hex_of_injective(source_digest@, destination_digest@);
    }
    r
}

} // verus!
