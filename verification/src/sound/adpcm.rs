use vstd::prelude::*;

verus! {

/// Number of step sizes of the OKI ADPCM decoder.
pub const ADPCM_STEPS: usize = 49;

/// Size of the difference table: 16 nibbles for each step size.
pub const DIFF_LOOKUP_SIZE: usize = 784;

/// The step sizes, floor(16 * 1.1^step) for each step index.
pub const STEP_VALUES: [i32; 49] = [
    16, 17, 19, 21, 23, 25, 28, 31, 34, 37, 41, 45, 50, 55, 60, 66, 73, 80, 88, 97, 107, 118, 130,
    143, 157, 173, 190, 209, 230, 253, 279, 307, 337, 371, 408, 449, 494, 544, 598, 658, 724, 796,
    876, 963, 1060, 1166, 1282, 1411, 1552,
];

/// The step size of step index `step`.
pub open spec fn spec_step_value(step: int) -> int {
    STEP_VALUES@[step] as int
}

/// Difference that nibble `nib` adds to the signal at step index `step`.
pub open spec fn spec_diff(step: int, nib: int) -> int {
    let sv = spec_step_value(step);
    let mag = sv * ((nib / 4) % 2) + (sv / 2) * ((nib / 2) % 2) + (sv / 4) * (nib % 2) + sv / 8;
    if nib >= 8 { -mag } else { mag }
}

/// The step index change that the low three bits of a nibble call for.
pub open spec fn spec_index_shift(n: int) -> int {
    if n < 4 { -1 } else { 2 * (n - 3) }
}

/// A difference table as the decoder computes it.
pub open spec fn diff_table_computed(t: Seq<i32>) -> bool {
    &&& t.len() == DIFF_LOOKUP_SIZE
    &&& forall|s: int, n: int| 0 <= s < 49 && 0 <= n < 16 ==> #[trigger] t[s * 16 + n] == spec_diff(s, n)
}

/// A difference table whose entries a decoder can add without overflow.
pub open spec fn diff_table_bounded(t: Seq<i32>) -> bool {
    &&& t.len() == DIFF_LOOKUP_SIZE
    &&& forall|i: int| 0 <= i < DIFF_LOOKUP_SIZE ==> -3000 <= #[trigger] t[i] <= 3000
}

proof fn lemma_step_values_range()
    ensures
        forall|s: int| 0 <= s < 49 ==> 16 <= #[trigger] STEP_VALUES@[s] <= 1552,
{
    assert(STEP_VALUES@ =~= seq![
        16i32, 17, 19, 21, 23, 25, 28, 31, 34, 37, 41, 45, 50, 55, 60, 66, 73, 80, 88, 97, 107, 118, 130,
        143, 157, 173, 190, 209, 230, 253, 279, 307, 337, 371, 408, 449, 494, 544, 598, 658, 724, 796,
        876, 963, 1060, 1166, 1282, 1411, 1552,
    ]);
}

/// Fill a difference table: entry `step * 16 + nib` is the difference that
/// nibble `nib` adds to the signal at step index `step`.
pub fn fill_diff_lookup(table: &mut Vec<i32>)
    requires
        old(table)@.len() == DIFF_LOOKUP_SIZE,
    ensures
        diff_table_computed(final(table)@),
        diff_table_bounded(final(table)@),
{
    proof { lemma_step_values_range(); }
    let mut step: usize = 0;
    while step < ADPCM_STEPS
        invariant
            0 <= step <= 49,
            table@.len() == DIFF_LOOKUP_SIZE,
            forall|s: int, n: int| 0 <= s < step && 0 <= n < 16 ==> #[trigger] table@[s * 16 + n] == spec_diff(s, n),
            forall|i: int| 0 <= i < step * 16 ==> -3000 <= #[trigger] table@[i] <= 3000,
            forall|s: int| 0 <= s < 49 ==> 16 <= #[trigger] STEP_VALUES@[s] <= 1552,
        decreases ADPCM_STEPS - step,
    {
        let stepval: i32 = STEP_VALUES[step];
        let mut nib: usize = 0;
        while nib < 16
            invariant
                0 <= step < 49,
                0 <= nib <= 16,
                stepval == STEP_VALUES@[step as int],
                16 <= stepval <= 1552,
                table@.len() == DIFF_LOOKUP_SIZE,
                forall|s: int, n: int| 0 <= s < step && 0 <= n < 16 ==> #[trigger] table@[s * 16 + n] == spec_diff(s, n),
                forall|n: int| 0 <= n < nib ==> #[trigger] table@[step * 16 + n] == spec_diff(step as int, n),
                forall|i: int| 0 <= i < step * 16 + nib ==> -3000 <= #[trigger] table@[i] <= 3000,
            decreases 16 - nib,
        {
            let t1: i32 = if (nib / 4) % 2 == 1 { stepval } else { 0 };
            let t2: i32 = if (nib / 2) % 2 == 1 { stepval / 2 } else { 0 };
            let t3: i32 = if nib % 2 == 1 { stepval / 4 } else { 0 };
            let mag: i32 = t1 + t2 + t3 + stepval / 8;
            let v: i32 = if nib >= 8 { -mag } else { mag };
            proof {
                let sv = spec_step_value(step as int);
                let x1 = (nib as int / 4) % 2;
                let x2 = (nib as int / 2) % 2;
                let x3 = (nib as int) % 2;
                assert(sv * x1 == t1) by (nonlinear_arith)
                    requires x1 == 0 || x1 == 1, x1 == 1 ==> t1 == sv, x1 == 0 ==> t1 == 0;
                assert((sv / 2) * x2 == t2) by (nonlinear_arith)
                    requires x2 == 0 || x2 == 1, x2 == 1 ==> t2 == sv / 2, x2 == 0 ==> t2 == 0;
                assert((sv / 4) * x3 == t3) by (nonlinear_arith)
                    requires x3 == 0 || x3 == 1, x3 == 1 ==> t3 == sv / 4, x3 == 0 ==> t3 == 0;
                assert(v == spec_diff(step as int, nib as int));
            }
            let ghost old_t = table@;
            table.set(step * 16 + nib, v);
            proof {
                assert forall|s: int, n: int| 0 <= s < step && 0 <= n < 16 implies #[trigger] table@[s * 16 + n] == spec_diff(s, n) by {
                    assert(s * 16 + n < step * 16) by (nonlinear_arith) requires s < step, n < 16;
                    assert(old_t[s * 16 + n] == spec_diff(s, n));
                }
            }
            nib = nib + 1;
        }
        proof {
            assert forall|i: int| 0 <= i < (step + 1) * 16 implies -3000 <= #[trigger] table@[i] <= 3000 by {
                assert(i < step * 16 + 16);
            }
        }
        step = step + 1;
    }
}

} // verus!
