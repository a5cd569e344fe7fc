//! Which reader a file name calls for: decided by the extension after the
//! last dot, with anything unrecognised a fatal unsupported format.
use vstd::prelude::*;
use vstd::slice::slice_subrange;
use crate::command::eq_bytes;

verus! {

/// The file formats the viewer knows of.
#[derive(Clone, Copy, PartialEq, Eq, Structural, Debug)]
pub enum FileFormat {
    Parquet,
    Csv,
    Json,
    Unsupported,
}

/// The index of the last dot in a file name, or -1 when there is none.
pub open spec fn last_dot(s: Seq<u8>) -> int
    decreases s.len(),
{
    if s.len() == 0 {
        -1
    } else if s[s.len() - 1] == 46 {
        s.len() - 1
    } else {
        last_dot(s.drop_last())
    }
}

/// The extension: what follows the last dot.
pub open spec fn ext_of(s: Seq<u8>) -> Seq<u8> {
    if last_dot(s) >= 0 {
        s.subrange(last_dot(s) + 1, s.len() as int)
    } else {
        Seq::empty()
    }
}

pub open spec fn parquet_ext() -> Seq<u8> {
    seq![112u8, 97u8, 114u8, 113u8, 117u8, 101u8, 116u8]
}

pub open spec fn csv_ext() -> Seq<u8> {
    seq![99u8, 115u8, 118u8]
}

pub open spec fn json_ext() -> Seq<u8> {
    seq![106u8, 115u8, 111u8, 110u8]
}

/// The format a file name calls for.
pub open spec fn format_of(s: Seq<u8>) -> FileFormat {
    if last_dot(s) < 0 {
        FileFormat::Unsupported
    } else if ext_of(s) == parquet_ext() {
        FileFormat::Parquet
    } else if ext_of(s) == csv_ext() {
        FileFormat::Csv
    } else if ext_of(s) == json_ext() {
        FileFormat::Json
    } else {
        FileFormat::Unsupported
    }
}

/// A position that carries a dot with none after it is the last dot; -1 is
/// the answer when no position carries one.
proof fn lemma_last_dot(s: Seq<u8>, i: int)
    requires
        -1 <= i < s.len(),
        i >= 0 ==> s[i] == 46,
        forall|k: int| i < k < s.len() ==> s[k] != 46,
    ensures
        last_dot(s) == i,
    decreases s.len(),
{
    if s.len() == 0 {
    } else if s[s.len() - 1] == 46 {
        assert(i == s.len() - 1);
    } else {
        assert(i < s.len() - 1);
        assert(forall|k: int| i < k < s.drop_last().len() ==> s.drop_last()[k] != 46);
        lemma_last_dot(s.drop_last(), i);
    }
}

/// Decides the format of the named file from its extension.
pub fn detect_format(name: &[u8]) -> (r: FileFormat)
    ensures
        r == format_of(name@),
{
    let n: usize = name.len();
    let mut i: usize = n;
    while i > 0
        invariant
            0 <= i <= n,
            n == name@.len(),
            forall|k: int| i <= k < n ==> name@[k] != 46,
        decreases i,
    {
        if name[i - 1] == 46 {
            proof {
                lemma_last_dot(name@, i as int - 1);
            }
            let ext = slice_subrange(name, i, n);
            let parquet: Vec<u8> = vec![112u8, 97, 114, 113, 117, 101, 116];
            let csv: Vec<u8> = vec![99u8, 115, 118];
            let json: Vec<u8> = vec![106u8, 115, 111, 110];
            proof {
                assert(ext@ =~= ext_of(name@));
                assert(parquet@ =~= parquet_ext());
                assert(csv@ =~= csv_ext());
                assert(json@ =~= json_ext());
            }
            if eq_bytes(ext, parquet.as_slice()) {
                return FileFormat::Parquet;
            } else if eq_bytes(ext, csv.as_slice()) {
                return FileFormat::Csv;
            } else if eq_bytes(ext, json.as_slice()) {
                return FileFormat::Json;
            } else {
                return FileFormat::Unsupported;
            }
        }
        i = i - 1;
    }
    proof {
        lemma_last_dot(name@, -1);
    }
    FileFormat::Unsupported
}

} // verus!
