use crate::image_layout::ImageLayout;
use vstd::prelude::*;

verus! {

/// Two to the given power.
pub open spec fn pow2(e: nat) -> nat
    decreases e,
{
    if e == 0 {
        1
    } else {
        2 * pow2((e - 1) as nat)
    }
}

/// The floor of the base-two logarithm (zero for inputs below two).
pub open spec fn log2_floor(n: nat) -> nat
    decreases n,
{
    if n <= 1 {
        0
    } else {
        1 + log2_floor((n / 2) as nat)
    }
}

/// A number below a power of two has a logarithm below the exponent.
proof fn lemma_log2_floor_below(n: nat, k: nat)
    requires
        k >= 1,
        n < pow2(k),
    ensures
        log2_floor(n) < k,
    decreases k,
{
    if n > 1 {
        assert(pow2(k) == 2 * pow2((k - 1) as nat));
        assert(n / 2 < pow2((k - 1) as nat));
        assert(k >= 2) by {
            if k == 1 {
                assert(pow2(1nat) == 2);
            }
        }
        lemma_log2_floor_below((n / 2) as nat, (k - 1) as nat);
    }
}

/// The dimension of mip level `i`: the base dimension halved once per
/// level, never shrinking below one.
pub open spec fn mip_dim(d: u32, i: nat) -> u32
    decreases i,
{
    if i == 0 {
        d
    } else {
        let p = mip_dim(d, (i - 1) as nat);
        if p > 1 {
            (p / 2) as u32
        } else {
            p
        }
    }
}

/// How many mip levels an image of the given size carries: the floor of
/// the base-two logarithm of the larger dimension, plus one.
pub open spec fn spec_mip_level_count(width: u32, height: u32) -> nat {
    let m: u32 = if width >= height {
        width
    } else {
        height
    };
    log2_floor(m as nat) + 1
}

/// Computes the mip level count of an image. The result never exceeds 32,
/// since a dimension fits in 32 bits.
pub fn mip_level_count(width: u32, height: u32) -> (r: u32)
    requires
        width >= 1,
        height >= 1,
    ensures
        r == spec_mip_level_count(width, height),
        1 <= r <= 32,
{
    let m0: u32 = if width >= height {
        width
    } else {
        height
    };
    proof {
        assert(pow2(32) == 0x1_0000_0000) by {
            reveal_with_fuel(pow2, 33);
        }
        lemma_log2_floor_below(m0 as nat, 32);
    }
    let mut m: u32 = m0;
    let mut levels: u32 = 1;
    while m > 1
        invariant
            m >= 1,
            levels >= 1,
            log2_floor(m0 as nat) == log2_floor(m as nat) + levels - 1,
            log2_floor(m0 as nat) < 32,
        decreases m,
    {
        m = m / 2;
        levels = levels + 1;
    }
    levels
}

/// One command of the mip-generation sequence: a barrier moving one level
/// between layouts, or a blit reading one level and writing the next.
#[derive(Clone, Copy, PartialEq, Eq, Structural, Debug)]
pub enum MipCommand {
    Barrier { level: u32, from: ImageLayout, to: ImageLayout },
    Blit {
        src_level: u32,
        dst_level: u32,
        src_width: u32,
        src_height: u32,
        dst_width: u32,
        dst_height: u32,
    },
}

/// One command applied to the per-level layout state. A barrier demands
/// that its level currently holds the layout it moves from; a blit demands
/// its source be transfer-source and its destination transfer-destination.
/// A command whose demand fails yields no next state.
pub open spec fn mip_step(state: Seq<ImageLayout>, cmd: MipCommand) -> Option<Seq<ImageLayout>> {
    match cmd {
        MipCommand::Barrier { level, from, to } => {
            if level < state.len() && state[level as int] == from {
                Some(state.update(level as int, to))
            } else {
                None
            }
        },
        MipCommand::Blit { src_level, dst_level, .. } => {
            if src_level < state.len() && dst_level < state.len() && state[src_level as int]
                == ImageLayout::TransferSrc && state[dst_level as int] == ImageLayout::TransferDst {
                Some(state)
            } else {
                None
            }
        },
    }
}

/// A command sequence replayed in order over the per-level layout state,
/// failing if any command's demand fails.
pub open spec fn mip_replay(cmds: Seq<MipCommand>, state: Seq<ImageLayout>) -> Option<
    Seq<ImageLayout>,
>
    decreases cmds.len(),
{
    if cmds.len() == 0 {
        Some(state)
    } else {
        match mip_replay(cmds.drop_last(), state) {
            Some(s) => mip_step(s, cmds.last()),
            None => None,
        }
    }
}

/// Every level holding the same layout.
pub open spec fn all_levels(levels: nat, layout: ImageLayout) -> Seq<ImageLayout> {
    Seq::new(levels, |l: int| layout)
}

/// The state midway through generation: levels below the watermark are
/// already shader-readable, the rest still transfer destinations.
spec fn mip_partial_state(levels: nat, done: int) -> Seq<ImageLayout> {
    Seq::new(
        levels,
        |l: int|
            if l < done {
                ImageLayout::ShaderReadOnly
            } else {
                ImageLayout::TransferDst
            },
    )
}

/// Produces the command sequence that builds a mip chain: for each level
/// after the base, a barrier moving the previous level to transfer-source,
/// a blit halving it into this level, and a barrier moving the previous
/// level on to shader-read-only; finally the last level moves from
/// transfer-destination to shader-read-only directly.
///
/// The sequence is valid against the layout rules: replayed from a state
/// where every level is a transfer destination (as they are right after
/// the base copy), every barrier matches the layout its level holds, every
/// blit reads a transfer source into a transfer destination, and every
/// level ends shader-readable.
pub fn generate_mipmap_commands(width: u32, height: u32, levels: u32) -> (r: Vec<MipCommand>)
    requires
        width >= 1,
        height >= 1,
        levels >= 1,
    ensures
        r@.len() == 3 * (levels - 1) + 1,
        forall|j: int|
            0 <= j < levels - 1 ==> #[trigger] r@[3 * j] == (MipCommand::Barrier {
                level: j as u32,
                from: ImageLayout::TransferDst,
                to: ImageLayout::TransferSrc,
            }),
        forall|j: int|
            0 <= j < levels - 1 ==> #[trigger] r@[3 * j + 1] == (MipCommand::Blit {
                src_level: j as u32,
                dst_level: (j + 1) as u32,
                src_width: mip_dim(width, j as nat),
                src_height: mip_dim(height, j as nat),
                dst_width: mip_dim(width, (j + 1) as nat),
                dst_height: mip_dim(height, (j + 1) as nat),
            }),
        forall|j: int|
            0 <= j < levels - 1 ==> #[trigger] r@[3 * j + 2] == (MipCommand::Barrier {
                level: j as u32,
                from: ImageLayout::TransferSrc,
                to: ImageLayout::ShaderReadOnly,
            }),
        r@[r@.len() - 1] == (MipCommand::Barrier {
            level: (levels - 1) as u32,
            from: ImageLayout::TransferDst,
            to: ImageLayout::ShaderReadOnly,
        }),
        mip_replay(r@, all_levels(levels as nat, ImageLayout::TransferDst)) == Some(
            all_levels(levels as nat, ImageLayout::ShaderReadOnly),
        ),
{
    let ghost init = all_levels(levels as nat, ImageLayout::TransferDst);
    let mut cmds: Vec<MipCommand> = Vec::new();
    let mut mip_width: u32 = width;
    let mut mip_height: u32 = height;
    let mut i: u32 = 1;
    proof {
        assert(mip_partial_state(levels as nat, 0) =~= init);
    }
    while i < levels
        invariant
            init == all_levels(levels as nat, ImageLayout::TransferDst),
            1 <= i <= levels,
            mip_width >= 1,
            mip_height >= 1,
            mip_width == mip_dim(width, (i - 1) as nat),
            mip_height == mip_dim(height, (i - 1) as nat),
            cmds@.len() == 3 * (i - 1),
            forall|j: int|
                0 <= j < i - 1 ==> #[trigger] cmds@[3 * j] == (MipCommand::Barrier {
                    level: j as u32,
                    from: ImageLayout::TransferDst,
                    to: ImageLayout::TransferSrc,
                }),
            forall|j: int|
                0 <= j < i - 1 ==> #[trigger] cmds@[3 * j + 1] == (MipCommand::Blit {
                    src_level: j as u32,
                    dst_level: (j + 1) as u32,
                    src_width: mip_dim(width, j as nat),
                    src_height: mip_dim(height, j as nat),
                    dst_width: mip_dim(width, (j + 1) as nat),
                    dst_height: mip_dim(height, (j + 1) as nat),
                }),
            forall|j: int|
                0 <= j < i - 1 ==> #[trigger] cmds@[3 * j + 2] == (MipCommand::Barrier {
                    level: j as u32,
                    from: ImageLayout::TransferSrc,
                    to: ImageLayout::ShaderReadOnly,
                }),
            mip_replay(cmds@, all_levels(levels as nat, ImageLayout::TransferDst)) == Some(
                mip_partial_state(levels as nat, i - 1),
            ),
        decreases levels - i,
    {
        let ghost state0 = mip_partial_state(levels as nat, i - 1);
        let dst_width: u32 = if mip_width > 1 {
            mip_width / 2
        } else {
            1
        };
        let dst_height: u32 = if mip_height > 1 {
            mip_height / 2
        } else {
            1
        };
        let barrier_to_src = MipCommand::Barrier {
            level: i - 1,
            from: ImageLayout::TransferDst,
            to: ImageLayout::TransferSrc,
        };
        let blit = MipCommand::Blit {
            src_level: i - 1,
            dst_level: i,
            src_width: mip_width,
            src_height: mip_height,
            dst_width,
            dst_height,
        };
        let barrier_to_read = MipCommand::Barrier {
            level: i - 1,
            from: ImageLayout::TransferSrc,
            to: ImageLayout::ShaderReadOnly,
        };
        let ghost state1 = state0.update(i - 1, ImageLayout::TransferSrc);
        let ghost c0 = cmds@;
        cmds.push(barrier_to_src);
        proof {
            assert(cmds@.drop_last() =~= c0);
            assert(state0[i as int - 1] == ImageLayout::TransferDst);
            assert(mip_replay(cmds@, init) == Some(state1));
        }
        let ghost c1 = cmds@;
        cmds.push(blit);
        proof {
            assert(cmds@.drop_last() =~= c1);
            assert(state1[i as int - 1] == ImageLayout::TransferSrc);
            assert(state1[i as int] == ImageLayout::TransferDst);
            assert(mip_replay(cmds@, init) == Some(state1));
        }
        let ghost c2 = cmds@;
        cmds.push(barrier_to_read);
        proof {
            assert(cmds@.drop_last() =~= c2);
            assert(state1.update(i - 1, ImageLayout::ShaderReadOnly) =~= mip_partial_state(
                levels as nat,
                i as int,
            ));
            assert(mip_replay(cmds@, init) == Some(mip_partial_state(levels as nat, i as int)));
            assert(mip_dim(width, i as nat) == dst_width);
            assert(mip_dim(height, i as nat) == dst_height);
        }
        mip_width = dst_width;
        mip_height = dst_height;
        i = i + 1;
    }
    let final_barrier = MipCommand::Barrier {
        level: levels - 1,
        from: ImageLayout::TransferDst,
        to: ImageLayout::ShaderReadOnly,
    };
    let ghost c3 = cmds@;
    cmds.push(final_barrier);
    proof {
        assert(cmds@.drop_last() =~= c3);
        let state0 = mip_partial_state(levels as nat, levels - 1);
        assert(state0[levels as int - 1] == ImageLayout::TransferDst);
        assert(state0.update(levels as int - 1, ImageLayout::ShaderReadOnly) =~= all_levels(
            levels as nat,
            ImageLayout::ShaderReadOnly,
        ));
        assert(mip_replay(cmds@, init) == Some(
            all_levels(levels as nat, ImageLayout::ShaderReadOnly),
        ));
    }
    cmds
}

} // verus!
