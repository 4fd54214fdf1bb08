//! The flat array that carries the sources to a fragment shader.
//!
//! Each source contributes four numbers (its column, its row and the cosine
//! and sine of its hue), and the shader takes all of them as one array:
//! source `i` occupies the entries `4 * i` to `4 * i + 3`.

use vstd::prelude::*;
use crate::config::ConfigError;

verus! {

/// The entries of `quads`, one quadruple after the other.
pub open spec fn interleaved<T>(quads: Seq<[T; 4]>) -> Seq<T> {
    Seq::new(4 * quads.len(), |i: int| quads[i / 4]@[i % 4])
}

/// The length of the uniform array for `num_sources` sources, if a shader
/// that offers `capacity` entries can take them.
///
/// A field without sources is refused, and so is one whose sources need more
/// than `capacity` entries.
pub fn uniform_len(num_sources: u32, capacity: u32) -> (r: Result<u32, ConfigError>)
    ensures
        r is Ok <==> num_sources > 0 && 4 * num_sources <= capacity,
        r matches Ok(len) ==> len == 4 * num_sources,
        r matches Err(e) ==> {
            &&& e == ConfigError::NoSources <==> num_sources == 0
            &&& e == ConfigError::TooManySources <==> num_sources > 0
        },
{
    if num_sources == 0 {
        Err(ConfigError::NoSources)
    } else if num_sources > capacity / 4 {
        Err(ConfigError::TooManySources)
    } else {
        Ok(num_sources * 4)
    }
}

/// Lays the quadruples out as one flat array, in their order.
pub fn flatten<T: Copy>(quads: &Vec<[T; 4]>) -> (out: Vec<T>)
    requires
        4 * quads@.len() <= usize::MAX,
    ensures
        out@ == interleaved(quads@),
{
    let n = quads.len();
    let mut out: Vec<T> = Vec::with_capacity(n * 4);
    let mut i: usize = 0;
    while i < n
        invariant
            n == quads@.len(),
            4 * n <= usize::MAX,
            i <= n,
            out@.len() == 4 * i,
            forall|j: int| 0 <= j < 4 * i ==> out@[j] == #[trigger] quads@[j / 4]@[j % 4],
        decreases n - i,
    {
        let quad = &quads[i];
        out.push(quad[0]);
        out.push(quad[1]);
        out.push(quad[2]);
        out.push(quad[3]);
        i = i + 1;
    }
    assert(out@ =~= interleaved(quads@));
    out
}

} // verus!
