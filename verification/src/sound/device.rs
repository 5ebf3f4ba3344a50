use vstd::prelude::*;

verus! {

/// How a sound device feeds its data streams to the chip: each stream on
/// its own, or the streams' samples summed into one (PCM merge).
#[derive(PartialEq, Eq, Clone, Copy, Debug, Structural)]
pub enum DataStreamMode {
    Parallel,
    PCMMerge,
}

/// Whether a stream write takes part in the merged sample: it has a
/// priority above the limit.
pub open spec fn spec_merge_eligible(w: (u32, u32, Option<u32>), limit: u32) -> bool {
    w.2 is Some && limit < w.2->0
}

/// The sum of the data of the first `n` writes that take part.
pub open spec fn spec_merge_sum(ws: Seq<(u32, u32, Option<u32>)>, limit: u32, n: int) -> int
    decreases n,
{
    if n <= 0 {
        0
    } else {
        spec_merge_sum(ws, limit, n - 1) + if spec_merge_eligible(ws[n - 1], limit) { ws[n - 1].0 as int } else { 0 }
    }
}

/// Whether any of the first `n` writes takes part.
pub open spec fn spec_merge_any(ws: Seq<(u32, u32, Option<u32>)>, limit: u32, n: int) -> bool
    decreases n,
{
    if n <= 0 { false } else { spec_merge_any(ws, limit, n - 1) || spec_merge_eligible(ws[n - 1], limit) }
}

/// The register of the last of the first `n` writes that has a priority.
pub open spec fn spec_merge_reg(ws: Seq<(u32, u32, Option<u32>)>, n: int) -> Option<u32>
    decreases n,
{
    if n <= 0 { None } else if ws[n - 1].2 is Some { Some(ws[n - 1].1) } else { spec_merge_reg(ws, n - 1) }
}

proof fn lemma_merge_sum_bound(ws: Seq<(u32, u32, Option<u32>)>, limit: u32, n: int)
    requires
        0 <= n <= ws.len(),
        forall|i: int| 0 <= i < ws.len() ==> (#[trigger] ws[i]).0 <= 0xff,
    ensures
        0 <= spec_merge_sum(ws, limit, n) <= 0xff * n,
        spec_merge_any(ws, limit, n) ==> spec_merge_reg(ws, n) is Some,
    decreases n,
{
    if n > 0 {
        lemma_merge_sum_bound(ws, limit, n - 1);
    }
}

/// Merge the writes of a device's data streams in PCM merge mode: the data
/// (bytes) of the streams whose priority exceeds the limit are summed and
/// written to the register of the last stream with a priority. Returns the
/// (register, data) to write, or `None` where no stream takes part.
pub fn pcm_merge(ws: &[(u32, u32, Option<u32>)], limit: u32) -> (r: Option<(u32, u32)>)
    requires
        forall|i: int| 0 <= i < ws@.len() ==> (#[trigger] ws@[i]).0 <= 0xff,
        ws@.len() <= 0x1000000,
    ensures
        r == if spec_merge_any(ws@, limit, ws@.len() as int) {
            Some((spec_merge_reg(ws@, ws@.len() as int)->0, spec_merge_sum(ws@, limit, ws@.len() as int) as u32))
        } else {
            None
        },
{
    let mut merge_data: Option<u32> = None;
    let mut merge_reg: Option<u32> = None;
    let mut i: usize = 0;
    while i < ws.len()
        invariant
            i <= ws@.len() <= 0x1000000,
            forall|k: int| 0 <= k < ws@.len() ==> (#[trigger] ws@[k]).0 <= 0xff,
            merge_data == if spec_merge_any(ws@, limit, i as int) { Some(spec_merge_sum(ws@, limit, i as int) as u32) } else { None },
            merge_reg == spec_merge_reg(ws@, i as int),
            spec_merge_sum(ws@, limit, i as int) <= 0xff * i,
            !spec_merge_any(ws@, limit, i as int) ==> spec_merge_sum(ws@, limit, i as int) == 0,
        decreases ws@.len() - i,
    {
        proof {
            lemma_merge_sum_bound(ws@, limit, i as int);
            lemma_merge_sum_bound(ws@, limit, i as int + 1);
        }
        let (data, write_reg, priority) = ws[i];
        if let Some(priority) = priority {
            if limit < priority {
                let prev: u32 = match merge_data {
                    Some(d) => d,
                    None => 0,
                };
                merge_data = Some(data + prev);
            }
            merge_reg = Some(write_reg);
        }
        i = i + 1;
    }
    proof {
        lemma_merge_sum_bound(ws@, limit, ws@.len() as int);
    }
    match merge_data {
        Some(d) => Some((match merge_reg {
            Some(reg) => reg,
            None => 0,
        }, d)),
        None => None,
    }
}

} // verus!
