//! Zero-copy access to a safetensors archive.
//!
//! The archive is handed over as one read-only memory mapping of the whole
//! file. Loading deserializes only the header, keeping the tensor names as
//! owned strings; the payload bytes stay in the mapping, which the handler
//! owns for its whole lifetime, so no index can outlive the region that
//! backs it and no payload byte is copied.

use vstd::prelude::*;

use crate::error::Error;
use vstd::string::StringExecFns;

verus! {

#[verifier::external_type_specification]
#[verifier::external_body]
pub struct ExMmap(memmap2::Mmap);

#[verifier::external_type_specification]
#[verifier::external_body]
pub struct ExSafeTensorError(safetensors::SafeTensorError);

/// The bytes that a read-only memory mapping holds.
pub uninterp spec fn mapped_bytes(m: memmap2::Mmap) -> Seq<u8>;

/// Relies on `memmap2::Mmap`'s deref to `[u8]`: a read-only mapping
/// presents one fixed byte region.
#[verifier::external_body]
fn mmap_slice(m: &memmap2::Mmap) -> (r: &[u8])
    ensures
        r@ == mapped_bytes(*m),
{
    &m[..]
}

/// The set of tensor names in a safetensors archive, when the archive
/// deserializes: both depend on the bytes alone. The order in which an
/// implementation hands the names out is not part of this.
pub uninterp spec fn archive_names(data: Seq<u8>) -> Option<Set<Seq<char>>>;

/// Relies on `safetensors::SafeTensors::deserialize` and `names`: the
/// header (and nothing past it) is validated and parsed from the bytes
/// alone, and `names` yields each tensor name once, in an unspecified
/// order (it walks a hash map).
#[verifier::external_body]
fn read_archive_names(data: &[u8]) -> (r: Result<Vec<String>, safetensors::SafeTensorError>)
    ensures
        r is Ok <==> archive_names(data@) is Some,
        r matches Ok(names) ==> archive_names(data@) == Some(
            names@.map_values(|s: String| s@).to_set(),
        ),
{
    let tensors = safetensors::SafeTensors::deserialize(data)?;
    Ok(tensors.names().into_iter().map(str::to_string).collect())
}

/// Relies on the `Display` impl of `safetensors::SafeTensorError`: it
/// renders the error as text.
#[verifier::external_body]
fn safetensor_error_text(err: &safetensors::SafeTensorError) -> (r: String) {
    format!("{err}")
}

/// Wrap a safetensors failure as a toolkit error.
fn convert_err(err: safetensors::SafeTensorError) -> (r: Error)
    ensures
        r matches Error::Message(m) && (exists|t: Seq<char>| m@ == "Safetensors -> "@ + t),
{
    let text = safetensor_error_text(&err);
    let m = "Safetensors -> ".to_owned().concat(text.as_str());
    proof {
        assert(m@ == "Safetensors -> "@ + text@);
    }
    Error::Message(m)
}

/// Access to safetensors content.
///
/// The handler owns the memory mapping and the name index built over it
/// as one unit: the mapping is released only when the handler is dropped,
/// and no view of the archive is handed out separately from it.
#[derive(Debug)]
pub struct SafeTensorsHandler {
    mapping: memmap2::Mmap,
    names: Vec<String>,
}

impl SafeTensorsHandler {
    /// The set of tensor names the archive holds.
    pub closed spec fn spec_names(&self) -> Set<Seq<char>> {
        self.names@.map_values(|s: String| s@).to_set()
    }

    /// The name index matches the archive in the backing mapping.
    pub closed spec fn wf(&self) -> bool {
        archive_names(mapped_bytes(self.mapping)) == Some(self.spec_names())
    }

    /// Validate and index the archive held by a read-only mapping of a
    /// whole safetensors file. Only the header is deserialized; tensor
    /// payloads stay in the mapping, uncopied. A corrupt or truncated
    /// archive fails the whole load — no handler is returned — with the
    /// parser's message, annotated with the source path.
    pub fn load(mapping: memmap2::Mmap, path: &str) -> (r: Result<SafeTensorsHandler, Error>)
        ensures
            r is Ok <==> archive_names(mapped_bytes(mapping)) is Some,
            r matches Ok(h) ==> archive_names(mapped_bytes(mapping)) == Some(h.spec_names())
                && h.wf(),
            r matches Err(e) ==> {
                &&& e matches Error::WithPath { inner, path: p }
                &&& p@ == path@
                &&& *inner matches Error::Message(m)
                &&& exists|t: Seq<char>| m@ == "Safetensors -> "@ + t
            },
    {
        let names = match read_archive_names(mmap_slice(&mapping)) {
            Ok(names) => names,
            Err(e) => {
                return Err(convert_err(e).add_path(path.to_owned()));
            },
        };
        Ok(SafeTensorsHandler { mapping, names })
    }

    /// Whether the archive holds a tensor under exactly this name; no
    /// partial or prefix matching.
    pub fn contains(&self, tensor_name: &str) -> (r: bool)
        ensures
            r == self.spec_names().contains(tensor_name@),
    {
        let wanted: String = tensor_name.to_owned();
        let ghost mapped: Seq<Seq<char>> = self.names@.map_values(|s: String| s@);
        let mut i: usize = 0;
        while i < self.names.len()
            invariant
                i <= self.names.len(),
                wanted@ == tensor_name@,
                mapped == self.names@.map_values(|s: String| s@),
                forall|k: int| 0 <= k < i ==> mapped[k] != tensor_name@,
            decreases self.names.len() - i,
        {
            if self.names[i] == wanted {
                proof {
                    assert(mapped[i as int] == tensor_name@);
                    assert(self.spec_names().contains(tensor_name@));
                }
                return true;
            }
            i = i + 1;
        }
        proof {
            if self.spec_names().contains(tensor_name@) {
                let k = choose|k: int| 0 <= k < mapped.len() && mapped[k] == tensor_name@;
                assert(mapped[k] == tensor_name@);
            }
        }
        false
    }
}

} // verus!
