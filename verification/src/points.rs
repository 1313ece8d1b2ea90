//! Scores in hundreds and in points.

use vstd::prelude::*;

verus! {

/// Scores and score changes, which the log counts in hundreds, in points.
pub open spec fn times_100(hundreds: Seq<i32>) -> Seq<i64> {
    hundreds.map_values(|x: i32| (x * 100) as i64)
}

/// Converts scores or score changes from hundreds to points.
pub fn scale_points(hundreds: &Vec<i32>) -> (points: Vec<i64>)
    ensures
        points@ == times_100(hundreds@),
{
    let mut points: Vec<i64> = Vec::new();
    let mut i: usize = 0;
    while i < hundreds.len()
        invariant
            0 <= i <= hundreds@.len(),
            points@ == times_100(hundreds@.take(i as int)),
        decreases hundreds@.len() - i,
    {
        let wide: i64 = hundreds[i] as i64;
        points.push(wide * 100);
        i += 1;
        proof {
            assert(points@ =~= times_100(hundreds@.take(i as int)));
        }
    }
    proof {
        assert(hundreds@.take(i as int) =~= hundreds@);
    }
    points
}

} // verus!
