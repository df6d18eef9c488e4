//! Index lists of the procedurally built surface geometry: rings, strips of
//! quads, and authored index patterns placed at a vertex offset.
use vstd::prelude::*;

verus! {

/// `n` consecutive vertices from `start`, joined as a closed loop.
pub fn loop_indices(start: u32, n: u32) -> (r: Vec<u32>)
    requires
        start + n <= u32::MAX,
    ensures
        r@ == Seq::new(n as nat, |i: int| (start + i) as u32),
{
    let mut r: Vec<u32> = Vec::new();
    let mut i: u32 = 0;
    while i < n
        invariant
            i <= n,
            start + n <= u32::MAX,
            r@ == Seq::new(i as nat, |k: int| (start + k) as u32),
        decreases n - i,
    {
        r.push(start + i);
        proof {
            assert(r@ =~= Seq::new((i + 1) as nat, |k: int| (start + k) as u32));
        }
        i = i + 1;
    }
    r
}

/// A ring of `n` divisions, two vertices each (outer then inner) from
/// `start`, joined as a triangle strip that closes on its first two
/// vertices.
pub fn ring_strip_indices(start: u32, n: u32) -> (r: Vec<u32>)
    requires
        start + 2 * n + 1 <= u32::MAX,
    ensures
        r@.len() == 2 * n + 2,
        forall|k: int| 0 <= k < 2 * n ==> #[trigger] r@[k] == start + k,
        r@[2 * n] == start,
        r@[2 * n + 1] == start + 1,
{
    let mut r: Vec<u32> = Vec::new();
    let mut i: u32 = 0;
    while i < n
        invariant
            i <= n,
            start + 2 * n + 1 <= u32::MAX,
            r@.len() == 2 * i,
            forall|k: int| 0 <= k < 2 * i ==> #[trigger] r@[k] == start + k,
        decreases n - i,
    {
        r.push(start + i * 2);
        r.push(start + i * 2 + 1);
        i = i + 1;
    }
    r.push(start);
    r.push(start + 1);
    r
}

/// A strip of `steps` quads over the vertex pairs from `start`, each pair a
/// lower and an upper vertex, as a triangle list of two triangles a quad.
pub fn quad_strip_indices(start: u32, steps: u32) -> (r: Vec<u32>)
    requires
        start + 2 * steps + 1 <= u32::MAX,
    ensures
        r@.len() == 6 * steps,
        forall|q: int|
            0 <= q < steps ==> {
                &&& #[trigger] r@[6 * q] == start + 2 * q
                &&& r@[6 * q + 1] == start + 2 * q + 1
                &&& r@[6 * q + 2] == start + 2 * q + 2
                &&& r@[6 * q + 3] == start + 2 * q + 1
                &&& r@[6 * q + 4] == start + 2 * q + 2
                &&& r@[6 * q + 5] == start + 2 * q + 3
            },
{
    let mut r: Vec<u32> = Vec::new();
    let mut i: u32 = 1;
    while i <= steps
        invariant
            1 <= i <= steps + 1,
            start + 2 * steps + 1 <= u32::MAX,
            r@.len() == 6 * (i - 1),
            forall|q: int|
                0 <= q < i - 1 ==> {
                    &&& #[trigger] r@[6 * q] == start + 2 * q
                    &&& r@[6 * q + 1] == start + 2 * q + 1
                    &&& r@[6 * q + 2] == start + 2 * q + 2
                    &&& r@[6 * q + 3] == start + 2 * q + 1
                    &&& r@[6 * q + 4] == start + 2 * q + 2
                    &&& r@[6 * q + 5] == start + 2 * q + 3
                },
        decreases steps + 1 - i,
    {
        let ghost before = r@;
        r.push(start + (i * 2 - 2));
        r.push(start + (i * 2 - 1));
        r.push(start + i * 2);
        r.push(start + (i * 2 - 1));
        r.push(start + i * 2);
        r.push(start + (i * 2 + 1));
        proof {
            assert forall|q: int| 0 <= q < i implies {
                &&& #[trigger] r@[6 * q] == start + 2 * q
                &&& r@[6 * q + 1] == start + 2 * q + 1
                &&& r@[6 * q + 2] == start + 2 * q + 2
                &&& r@[6 * q + 3] == start + 2 * q + 1
                &&& r@[6 * q + 4] == start + 2 * q + 2
                &&& r@[6 * q + 5] == start + 2 * q + 3
            } by {
                if q < i - 1 {
                    assert(r@[6 * q] == before[6 * q]);
                    assert(r@[6 * q + 1] == before[6 * q + 1]);
                    assert(r@[6 * q + 2] == before[6 * q + 2]);
                    assert(r@[6 * q + 3] == before[6 * q + 3]);
                    assert(r@[6 * q + 4] == before[6 * q + 4]);
                    assert(r@[6 * q + 5] == before[6 * q + 5]);
                }
            }
        }
        i = i + 1;
    }
    r
}

/// An authored index pattern placed at vertex offset `start`.
pub fn offset_indices(start: u32, pattern: &[u32]) -> (r: Vec<u32>)
    requires
        forall|k: int| 0 <= k < pattern@.len() ==> start + #[trigger] pattern@[k] <= u32::MAX,
    ensures
        r@ == pattern@.map_values(|x: u32| (start + x) as u32),
{
    let mut r: Vec<u32> = Vec::new();
    let mut k: usize = 0;
    while k < pattern.len()
        invariant
            k <= pattern@.len(),
            forall|j: int| 0 <= j < pattern@.len() ==> start + #[trigger] pattern@[j] <= u32::MAX,
            r@ == pattern@.take(k as int).map_values(|x: u32| (start + x) as u32),
        decreases pattern@.len() - k,
    {
        r.push(start + pattern[k]);
        proof {
            assert(pattern@.take(k + 1) =~= pattern@.take(k as int).push(pattern@[k as int]));
            assert(r@ =~= pattern@.take(k + 1).map_values(|x: u32| (start + x) as u32));
        }
        k = k + 1;
    }
    proof {
        assert(pattern@.take(pattern@.len() as int) =~= pattern@);
    }
    r
}

} // verus!
