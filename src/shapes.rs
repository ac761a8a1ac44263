//! Index lists of the scene's flat shapes.
use vstd::prelude::*;

verus! {

/// The largest number of rim segments a circle may have.
pub const MAX_CIRCLE_SEGMENTS: usize = 16777216;

/// The two triangles of a quad whose corners are numbered counterclockwise
/// from zero: (0, 1, 2) and (2, 3, 0).
pub fn quad_indices() -> (r: Vec<u32>)
    ensures
        r@ == seq![0u32, 1, 2, 2, 3, 0],
{
    let mut r: Vec<u32> = Vec::new();
    r.push(0);
    r.push(1);
    r.push(2);
    r.push(2);
    r.push(3);
    r.push(0);
    proof {
        assert(r@ =~= seq![0u32, 1, 2, 2, 3, 0]);
    }
    r
}

/// Entry `e` of the triangle fan of a circle of `n` rim segments, whose
/// centre is vertex 0 and whose rim runs through vertices 1 to `n`: triangle
/// `j` is (0, j + 1, j + 2), and the last one closes the fan at vertex 1.
pub open spec fn fan_index(n: nat, e: int) -> u32 {
    let j = e / 3;
    let c = e % 3;
    if c == 0 {
        0
    } else if c == 1 {
        (j + 1) as u32
    } else if j + 1 < n {
        (j + 2) as u32
    } else {
        1
    }
}

/// The triangle fan of a circle of `n` rim segments: `n` triangles.
pub open spec fn circle_fan(n: nat) -> Seq<u32> {
    Seq::new(3 * n, |e: int| fan_index(n, e))
}

/// The triangle list of a circle of `n` rim segments.
pub fn circle_indices(n: usize) -> (r: Vec<u32>)
    requires
        1 <= n <= MAX_CIRCLE_SEGMENTS,
    ensures
        r@ == circle_fan(n as nat),
{
    let mut r: Vec<u32> = Vec::new();
    let mut j: usize = 0;
    while j < n
        invariant
            j <= n,
            n <= MAX_CIRCLE_SEGMENTS,
            r.len() == 3 * j,
            forall|e: int| 0 <= e < r.len() ==> #[trigger] r@[e] == fan_index(n as nat, e),
        decreases n - j,
    {
        let second: u32 = (j + 1) as u32;
        let third: u32 = if j + 1 < n {
            (j + 2) as u32
        } else {
            1
        };
        r.push(0);
        r.push(second);
        r.push(third);
        proof {
            assert(fan_index(n as nat, 3 * j as int) == 0);
            assert(fan_index(n as nat, 3 * j + 1) == second);
            assert(fan_index(n as nat, 3 * j + 2) == third);
        }
        j = j + 1;
    }
    proof {
        assert(r@ =~= circle_fan(n as nat));
    }
    r
}

} // verus!
