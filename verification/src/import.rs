//! Model import: choosing the model files out of a directory listing and
//! dispatching on the formats that are available.
//!
//! The directory listing arrives as plain entries (a path as bytes, and
//! whether it names a regular file). A HuggingFace-style model needs a
//! `config.json` file and a file with the `safetensors` extension; when
//! several match, the one listed last wins.

use vstd::prelude::*;

use crate::error::{is_message, Error};
use crate::hf::HFModel;
use vstd::string::StringSliceAdditionalSpecFns;

verus! {

/// The path separator byte, `'/'`.
pub const SEPARATOR_BYTE: u8 = 47;

/// The extension separator byte, `'.'`.
pub const DOT_BYTE: u8 = 46;

/// One entry of a directory listing.
#[derive(Debug)]
pub struct FileEntry {
    /// The entry's path, as bytes.
    pub path: Vec<u8>,
    /// Whether the path names a regular file.
    pub is_file: bool,
}

/// The index in `p` just past the last occurrence of `b`, or 0 when `b`
/// does not occur.
pub open spec fn spec_seg_start(p: Seq<u8>, b: u8) -> int
    decreases p.len(),
{
    if p.len() == 0 {
        0
    } else if p.last() == b {
        p.len() as int
    } else {
        spec_seg_start(p.drop_last(), b)
    }
}

proof fn lemma_seg_start_characterization(p: Seq<u8>, b: u8, j: int)
    requires
        0 <= j <= p.len(),
        forall|k: int| j <= k < p.len() ==> p[k] != b,
        j == 0 || p[j - 1] == b,
    ensures
        spec_seg_start(p, b) == j,
    decreases p.len(),
{
    if p.len() == 0 {
    } else if j == p.len() {
    } else {
        assert(p.last() != b);
        lemma_seg_start_characterization(p.drop_last(), b, j);
    }
}

/// The file name of a path: whatever follows its last separator.
pub open spec fn spec_file_name(p: Seq<u8>) -> Seq<u8> {
    p.subrange(spec_seg_start(p, SEPARATOR_BYTE), p.len() as int)
}

/// The extension of a file name: whatever follows its last dot, provided
/// the dot is neither missing nor the name's first byte.
pub open spec fn spec_extension(name: Seq<u8>) -> Option<Seq<u8>> {
    if spec_seg_start(name, DOT_BYTE) >= 2 {
        Some(name.subrange(spec_seg_start(name, DOT_BYTE), name.len() as int))
    } else {
        None
    }
}

proof fn lemma_seg_start_bounds(p: Seq<u8>, b: u8)
    ensures
        0 <= spec_seg_start(p, b) <= p.len(),
    decreases p.len(),
{
    if p.len() > 0 && p.last() != b {
        lemma_seg_start_bounds(p.drop_last(), b);
    }
}

/// Whether two byte slices hold the same bytes.
fn bytes_eq(a: &[u8], b: &[u8]) -> (r: bool)
    ensures
        r == (a@ == b@),
{
    if a.len() != b.len() {
        return false;
    }
    let mut i: usize = 0;
    while i < a.len()
        invariant
            i <= a@.len(),
            a@.len() == b@.len(),
            forall|k: int| 0 <= k < i ==> a@[k] == b@[k],
        decreases a@.len() - i,
    {
        if a[i] != b[i] {
            return false;
        }
        i = i + 1;
    }
    proof {
        assert(a@ =~= b@);
    }
    true
}

/// The tail of `p` that starts just past the last occurrence of `b`.
fn tail_after_last(p: &Vec<u8>, b: u8) -> (r: Vec<u8>)
    ensures
        r@ == p@.subrange(spec_seg_start(p@, b), p@.len() as int),
        r@.len() == p@.len() - spec_seg_start(p@, b),
{
    let mut j: usize = p.len();
    while j > 0 && p[j - 1] != b
        invariant
            j <= p.len(),
            forall|k: int| j <= k < p@.len() ==> p@[k] != b,
        decreases j,
    {
        j = j - 1;
    }
    proof {
        lemma_seg_start_characterization(p@, b, j as int);
    }
    let mut r: Vec<u8> = Vec::new();
    let mut k: usize = j;
    while k < p.len()
        invariant
            j <= k <= p@.len(),
            r@ == p@.subrange(j as int, k as int),
        decreases p@.len() - k,
    {
        let byte = p[k];
        r.push(byte);
        proof {
            assert(p@.subrange(j as int, k + 1 as int) =~= p@.subrange(j as int, k as int).push(
                p@[k as int],
            ));
        }
        k = k + 1;
    }
    r
}

/// A directory entry that supplies the model config: a regular file named
/// `config.json`.
pub open spec fn spec_is_config_entry(e: FileEntry) -> bool {
    e.is_file && spec_file_name(e.path@) == "config.json".spec_bytes()
}

/// A directory entry that supplies the model variables: a regular file
/// with the `safetensors` extension.
pub open spec fn spec_is_tensors_entry(e: FileEntry) -> bool {
    e.is_file && spec_extension(spec_file_name(e.path@)) == Some("safetensors".spec_bytes())
}

fn entry_is_config(e: &FileEntry) -> (r: bool)
    ensures
        r == spec_is_config_entry(*e),
{
    if !e.is_file {
        return false;
    }
    let name = tail_after_last(&e.path, SEPARATOR_BYTE);
    bytes_eq(name.as_slice(), "config.json".as_bytes())
}

fn entry_is_tensors(e: &FileEntry) -> (r: bool)
    ensures
        r == spec_is_tensors_entry(*e),
{
    if !e.is_file {
        return false;
    }
    let name = tail_after_last(&e.path, SEPARATOR_BYTE);
    let ext = tail_after_last(&name, DOT_BYTE);
    proof {
        lemma_seg_start_bounds(name@, DOT_BYTE);
    }
    if name.len() - ext.len() < 2 {
        return false;
    }
    bytes_eq(ext.as_slice(), "safetensors".as_bytes())
}

/// The model files chosen out of a directory listing: indices into the
/// listing that was scanned.
#[derive(Debug)]
pub struct ModelFileSelection {
    /// The index of the chosen `config.json` entry.
    pub config_index: usize,
    /// The index of the chosen `*.safetensors` entry.
    pub tensors_index: usize,
}

/// Scan a directory listing for the two files a HuggingFace-style model
/// is made of. Of several candidates for a role, the one listed last is
/// chosen. A listing without a config file, or without a safetensors
/// file, is rejected.
pub fn select_model_files(entries: &Vec<FileEntry>) -> (r: Result<ModelFileSelection, Error>)
    ensures
        (forall|i: int| 0 <= i < entries@.len() ==> !spec_is_config_entry(entries@[i])) ==> (
        r matches Err(e) && is_message(e, "config file not found"@)),
        ((exists|i: int| 0 <= i < entries@.len() && spec_is_config_entry(entries@[i])) && (
        forall|i: int| 0 <= i < entries@.len() ==> !spec_is_tensors_entry(entries@[i]))) ==> (
        r matches Err(e) && is_message(e, "safetensors file not found"@)),
        r matches Ok(sel) ==> {
            &&& sel.config_index < entries@.len()
            &&& spec_is_config_entry(entries@[sel.config_index as int])
            &&& forall|k: int|
                sel.config_index < k < entries@.len() ==> !spec_is_config_entry(entries@[k])
            &&& sel.tensors_index < entries@.len()
            &&& spec_is_tensors_entry(entries@[sel.tensors_index as int])
            &&& forall|k: int|
                sel.tensors_index < k < entries@.len() ==> !spec_is_tensors_entry(entries@[k])
        },
        r is Ok <==> ((exists|i: int|
            0 <= i < entries@.len() && spec_is_config_entry(entries@[i])) && (exists|i: int|
            0 <= i < entries@.len() && spec_is_tensors_entry(entries@[i]))),
{
    let mut config: Option<usize> = None;
    let mut tensors: Option<usize> = None;
    let mut i: usize = 0;
    while i < entries.len()
        invariant
            i <= entries@.len(),
            match config {
                Some(c) => {
                    &&& c < i
                    &&& spec_is_config_entry(entries@[c as int])
                    &&& forall|k: int| c < k < i ==> !spec_is_config_entry(entries@[k])
                },
                None => forall|k: int| 0 <= k < i ==> !spec_is_config_entry(entries@[k]),
            },
            match tensors {
                Some(t) => {
                    &&& t < i
                    &&& spec_is_tensors_entry(entries@[t as int])
                    &&& forall|k: int| t < k < i ==> !spec_is_tensors_entry(entries@[k])
                },
                None => forall|k: int| 0 <= k < i ==> !spec_is_tensors_entry(entries@[k]),
            },
        decreases entries@.len() - i,
    {
        if entry_is_config(&entries[i]) {
            config = Some(i);
        }
        if entry_is_tensors(&entries[i]) {
            tensors = Some(i);
        }
        i = i + 1;
    }
    match (config, tensors) {
        (Some(config_index), Some(tensors_index)) => Ok(
            ModelFileSelection { config_index, tensors_index },
        ),
        (None, _) => Err(Error::bail("config file not found")),
        (Some(_), None) => Err(Error::bail("safetensors file not found")),
    }
}

/// Imported model
#[derive(Debug)]
pub enum Model {
    /// HuggingFace model with config
    HuggingFace(HFModel),
}

/// Import a model from the outcome of probing the available formats, the
/// preferred format first: a HuggingFace model that imported is taken,
/// and a failed probe (whatever its reason) falls through to a rejection.
pub fn import(probe: Result<HFModel, Error>) -> (r: Result<Model, Error>)
    ensures
        probe matches Ok(m) ==> {
            &&& r matches Ok(model)
            &&& model matches Model::HuggingFace(hm)
            &&& hm == m
        },
        probe is Err ==> (r matches Err(e) && is_message(e, "Supported model not found"@)),
{
    match probe {
        Ok(hf_model) => Ok(Model::HuggingFace(hf_model)),
        Err(_) => Err(Error::bail("Supported model not found")),
    }
}

} // verus!
