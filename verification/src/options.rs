use vstd::prelude::*;
use vstd::slice::slice_index_get;
use vstd::string::StringSliceAdditionalSpecFns;

verus! {

/// Holds when a byte sequence embeds a null byte. A C string ends at the
/// first null byte, so such text cannot cross the boundary intact.
pub open spec fn has_nul_byte(bytes: Seq<u8>) -> bool {
    exists|i: int| 0 <= i < bytes.len() && bytes[i] == 0u8
}

/// Holds when the UTF-8 encoding of `text` embeds a null byte.
pub open spec fn has_embedded_nul(text: Seq<char>) -> bool {
    has_nul_byte(vstd::utf8::encode_utf8(text))
}

/// Reports whether `s` embeds a null byte, scanning its UTF-8 bytes as the
/// C-string conversion at the boundary would.
pub fn contains_nul_byte(s: &str) -> (r: bool)
    ensures
        r == has_embedded_nul(s@),
{
    let bytes: &[u8] = s.as_bytes();
    let n: usize = bytes.len();
    let mut i: usize = 0;
    while i < n
        invariant
            0 <= i <= n,
            n == bytes@.len(),
            bytes@ == s.spec_bytes(),
            forall|j: int| 0 <= j < i ==> bytes@[j] != 0u8,
        decreases n - i,
    {
        if *slice_index_get(bytes, i) == 0u8 {
            return true;
        }
        i = i + 1;
    }
    false
}

/// Write-once configuration captured when an engine instance is created.
/// The integer parameters are passed through to the native side unchecked.
#[derive(Debug, Clone)]
pub struct LlamaOptions {
    pub model_path: String,
    pub context: i32,
    pub gpu_layers: i32,
    pub threads: i32,
    pub seed: i32,
    pub batch_size: i32,
}

impl LlamaOptions {
    /// The model path can cross the C boundary: no embedded null byte.
    pub open spec fn model_path_ok(&self) -> bool {
        !has_embedded_nul(self.model_path@)
    }
}

impl Default for LlamaOptions {
    fn default() -> (r: Self)
        ensures
            r.model_path@ == "path/to/model"@,
            r.context == 4096,
            r.gpu_layers == 20,
            r.threads == 4,
            r.seed == 777,
            r.batch_size == 8,
    {
        LlamaOptions {
            model_path: "path/to/model".to_owned(),
            context: 4096,
            gpu_layers: 20,
            threads: 4,
            seed: 777,
            batch_size: 8,
        }
    }
}

} // verus!
