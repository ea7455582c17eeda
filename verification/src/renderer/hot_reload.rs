//! Shader stage of a source file, from its extension.

use vstd::prelude::*;
use vstd::string::StringSliceAdditionalSpecFns;

verus! {

/// Pipeline stage a GLSL source compiles to.
#[derive(Debug, Clone, Copy, PartialEq, Eq)]
pub enum ShaderStage {
    Vertex,
    Fragment,
    Compute,
}

/// The path's extension names no supported stage.
#[derive(Debug, Clone, Copy, PartialEq, Eq)]
pub enum ShaderKindError {
    UnsupportedExtension,
}

/// `s` ends with `suffix`.
pub open spec fn ends_with(s: Seq<u8>, suffix: Seq<u8>) -> bool {
    s.len() >= suffix.len() && s.subrange(s.len() - suffix.len(), s.len() as int) == suffix
}

/// The bytes of ".vert".
pub open spec fn vert_ext() -> Seq<u8> {
    seq![46u8, 118u8, 101u8, 114u8, 116u8]
}

/// The bytes of ".frag".
pub open spec fn frag_ext() -> Seq<u8> {
    seq![46u8, 102u8, 114u8, 97u8, 103u8]
}

/// The bytes of ".comp".
pub open spec fn comp_ext() -> Seq<u8> {
    seq![46u8, 99u8, 111u8, 109u8, 112u8]
}

fn bytes_end_with(bytes: &[u8], suffix: [u8; 5]) -> (b: bool)
    ensures
        b == ends_with(bytes@, suffix@),
{
    let n = bytes.len();
    if n < 5 {
        return false;
    }
    let mut i: usize = 0;
    while i < 5
        invariant
            n == bytes@.len(),
            n >= 5,
            i <= 5,
            forall|j: int| 0 <= j < i ==> bytes@[n - 5 + j] == suffix@[j],
        decreases 5 - i,
    {
        if bytes[n - 5 + i] != suffix[i] {
            proof {
                assert(bytes@.subrange(n - 5, n as int)[i as int] != suffix@[i as int]);
            }
            return false;
        }
        i += 1;
    }
    assert(bytes@.subrange(n - 5, n as int) =~= suffix@);
    true
}

/// `.vert` sources are vertex shaders, `.frag` fragment shaders and
/// `.comp` compute shaders; any other extension is refused.
pub fn shader_kind(path: &str) -> (r: Result<ShaderStage, ShaderKindError>)
    ensures
        r == (if ends_with(path.spec_bytes(), vert_ext()) {
            Ok(ShaderStage::Vertex)
        } else if ends_with(path.spec_bytes(), frag_ext()) {
            Ok(ShaderStage::Fragment)
        } else if ends_with(path.spec_bytes(), comp_ext()) {
            Ok(ShaderStage::Compute)
        } else {
            Err(ShaderKindError::UnsupportedExtension)
        }),
{
    let bytes = path.as_bytes();
    let vert: [u8; 5] = [46, 118, 101, 114, 116];
    let frag: [u8; 5] = [46, 102, 114, 97, 103];
    let comp: [u8; 5] = [46, 99, 111, 109, 112];
    assert(vert@ =~= vert_ext());
    assert(frag@ =~= frag_ext());
    assert(comp@ =~= comp_ext());
    if bytes_end_with(bytes, vert) {
        Ok(ShaderStage::Vertex)
    } else if bytes_end_with(bytes, frag) {
        Ok(ShaderStage::Fragment)
    } else if bytes_end_with(bytes, comp) {
        Ok(ShaderStage::Compute)
    } else {
        Err(ShaderKindError::UnsupportedExtension)
    }
}

/// Readback slot written one frame before `current_frame` in a ring of
/// `frame_count` slots.
pub fn previous_frame_slot(current_frame: usize, frame_count: usize) -> (slot: usize)
    requires
        frame_count > 0,
    ensures
        slot == (if current_frame == 0 { frame_count - 1 } else { current_frame - 1 }),
{
    if current_frame == 0 {
        frame_count - 1
    } else {
        current_frame - 1
    }
}

} // verus!
