use crate::frame_sync::{FrameRecord, FrameSync};
use crate::recorder::{record_command_sequence, spec_command_list, CommandSequence};
use crate::staging::{allocate_buffer, copy_bytes, GpuBuffer, MemoryDomain, USAGE_UNIFORM};
use crate::swap_config::{
    choose_swapchain_config, spec_choose_config, Extent2d, SurfaceCaps, SurfaceFormat,
    SwapchainConfig,
};
use vstd::prelude::*;

verus! {

/// Where the renderer stands in its lifecycle. A rebuild is demanded
/// after a resize or an out-of-date presentation, and performed at the
/// start of the next iteration.
#[derive(Clone, Copy, PartialEq, Eq, Structural, Debug)]
pub enum RendererState {
    Ready,
    NeedsRebuild,
    Destroyed,
}

/// What acquiring the next presentable image reported.
#[derive(Clone, Copy, PartialEq, Eq, Structural, Debug)]
pub enum AcquireOutcome {
    Image(u32),
    OutOfDate,
    Fatal,
}

/// What presenting the finished image reported.
#[derive(Clone, Copy, PartialEq, Eq, Structural, Debug)]
pub enum PresentOutcome {
    Presented,
    OutOfDate,
    Suboptimal,
    Fatal,
}

/// How one frame iteration ended, when it did not end in a fatal error.
/// `waited` reports whether the fence wait at the start of the frame
/// actually blocked.
#[derive(Clone, Copy, PartialEq, Eq, Structural, Debug)]
pub enum FrameOutcome {
    Rendered { waited: bool },
    RenderedNeedsRebuild { waited: bool },
    SkippedNeedsRebuild,
}

/// The fatal errors a frame can end in. Out-of-date and suboptimal
/// presentation are not here: they are recoverable and answered with a
/// rebuild.
#[derive(Clone, Copy, PartialEq, Eq, Structural, Debug)]
pub enum RenderError {
    AcquireFailed,
    PresentFailed,
    StaleImageIndex,
}

/// Whether a fence wait at the head of the ring would block right now.
pub open spec fn spec_waited(s: FrameSync) -> bool {
    s.slot_busy(s.spec_current() as int) && s.slot_completes_at(s.spec_current() as int)
        > s.spec_now()
}

/// The record one submission through the ring appends to its history.
pub open spec fn spec_submit_record(s: FrameSync, gpu_duration: u64) -> FrameRecord {
    FrameRecord {
        slot: s.spec_current() as usize,
        start: s.spec_wait_time(),
        end: (s.spec_wait_time() + gpu_duration) as u64,
    }
}

/// Every uniform buffer holds after what it held before.
pub open spec fn uniforms_unchanged(pre: Renderer, post: Renderer) -> bool {
    forall|k: int|
        0 <= k < pre.spec_uniform_count() ==> post.spec_uniform(k) == pre.spec_uniform(k)
}

/// The ring was only waited on: nothing submitted, the cursor still, the
/// clock at the point the wait on the current slot returned.
pub open spec fn sync_only_waited(pre: Renderer, post: Renderer) -> bool {
    &&& post.spec_sync().spec_history() == pre.spec_sync().spec_history()
    &&& post.spec_sync().spec_current() == pre.spec_sync().spec_current()
    &&& post.spec_sync().spec_now() == pre.spec_sync().spec_wait_time()
}

/// One frame was submitted through the ring: its record appended, the
/// cursor advanced round-robin, the clock at the point the wait returned.
pub open spec fn sync_submitted(pre: Renderer, post: Renderer, gpu_duration: u64) -> bool {
    &&& post.spec_sync().spec_history() == pre.spec_sync().spec_history().push(
        spec_submit_record(pre.spec_sync(), gpu_duration),
    )
    &&& post.spec_sync().spec_current() == (pre.spec_sync().spec_current() + 1)
        % pre.spec_sync().spec_f()
    &&& post.spec_sync().spec_now() == pre.spec_sync().spec_wait_time()
}

/// The frame driver: it owns the swapchain state, the fixed ring of frame
/// slots, the per-image uniform buffers and the per-image recorded
/// command sequences, and decides each frame what to do with the outcomes
/// the device reports. Resize events only set a flag, consumed at the
/// start of the next iteration; all swapchain-dependent state changes
/// only inside rebuild, behind a full device-idle wait.
pub struct Renderer {
    state: RendererState,
    config: SwapchainConfig,
    generation: u64,
    chains_created: u64,
    chains_destroyed: u64,
    desired_extent: Extent2d,
    resize_pending: bool,
    index_count: u32,
    sync: FrameSync,
    uniforms: Vec<GpuBuffer>,
    commands: Vec<CommandSequence>,
}

impl Renderer {
    /// Where the renderer stands in its lifecycle.
    pub closed spec fn spec_state(self) -> RendererState {
        self.state
    }

    /// The configuration the live chain was built with.
    pub closed spec fn spec_config(self) -> SwapchainConfig {
        self.config
    }

    /// The chain generation; recorded command sequences are valid only
    /// for the generation they were recorded against.
    pub closed spec fn spec_generation(self) -> u64 {
        self.generation
    }

    /// How many chains are live: ever created minus ever destroyed.
    pub closed spec fn spec_live_chains(self) -> int {
        self.chains_created - self.chains_destroyed
    }

    /// The extent asked for when the surface reports none.
    pub closed spec fn spec_desired_extent(self) -> Extent2d {
        self.desired_extent
    }

    /// Whether a resize notice awaits the next iteration.
    pub closed spec fn spec_resize_pending(self) -> bool {
        self.resize_pending
    }

    /// The draw parameter the command sequences are recorded with.
    pub closed spec fn spec_index_count(self) -> u32 {
        self.index_count
    }

    /// The ring of frame slots.
    pub closed spec fn spec_sync(self) -> FrameSync {
        self.sync
    }

    /// How many per-image uniform buffers there are.
    pub closed spec fn spec_uniform_count(self) -> nat {
        self.uniforms@.len()
    }

    /// The bytes the k-th image's uniform buffer holds.
    pub closed spec fn spec_uniform(self, k: int) -> Seq<u8> {
        self.uniforms@[k].contents@
    }

    /// The renderer's invariant: the ring is well formed; chain
    /// accounting leaks nothing (exactly one chain is live until
    /// destruction, none after); the generation counts the chains ever
    /// created; and while live, there is one uniform buffer and one
    /// command sequence per chain image, each sequence recorded against
    /// the current generation, its own image and the current extent.
    pub closed spec fn wf(self) -> bool {
        &&& self.sync.wf()
        &&& self.chains_destroyed <= self.chains_created
        &&& (self.state == RendererState::Destroyed ==> self.chains_created
            == self.chains_destroyed)
        &&& (self.state != RendererState::Destroyed ==> self.chains_created
            == self.chains_destroyed + 1)
        &&& self.generation == self.chains_created
        &&& (self.state != RendererState::Destroyed ==> {
            &&& self.uniforms@.len() == self.config.image_count
            &&& self.commands@.len() == self.config.image_count
            &&& (forall|k: int|
                0 <= k < self.commands@.len() ==> {
                    &&& (#[trigger] self.commands@[k]).generation == self.generation
                    &&& self.commands@[k].image_index == k
                    &&& self.commands@[k].commands@ == spec_command_list(
                        k as u32,
                        self.config.extent,
                        self.index_count,
                    )
                })
        })
    }

    /// Builds the renderer against one surface snapshot: chooses the
    /// chain configuration, creates the ring of frame slots with all
    /// fences signaled, one empty uniform buffer per chain image, and
    /// records one command sequence per chain image.
    pub fn initialize(
        caps: &SurfaceCaps,
        formats: &Vec<SurfaceFormat>,
        modes: &Vec<u32>,
        desired: Extent2d,
        frames_in_flight: usize,
        index_count: u32,
    ) -> (r: Renderer)
        requires
            caps.wf(),
            formats@.len() > 0,
            frames_in_flight >= 1,
        ensures
            r.wf(),
            r.spec_state() == RendererState::Ready,
            r.spec_config() == spec_choose_config(*caps, formats@, modes@, desired),
            r.spec_generation() == 1,
            r.spec_live_chains() == 1,
            r.spec_resize_pending() == false,
            r.spec_desired_extent() == desired,
            r.spec_index_count() == index_count,
            r.spec_sync().spec_f() == frames_in_flight,
            r.spec_sync().spec_history().len() == 0,
            r.spec_sync().spec_now() == 0,
            r.spec_sync().spec_current() == 0,
            forall|s: int| 0 <= s < frames_in_flight ==> !r.spec_sync().slot_busy(s),
            r.spec_uniform_count() == r.spec_config().image_count,
            forall|k: int| 0 <= k < r.spec_uniform_count() ==> r.spec_uniform(k).len() == 0,
    {
        let config = choose_swapchain_config(caps, formats, modes, desired);
        let uniforms = make_uniforms(config.image_count);
        let commands = record_all(1, config.image_count, config.extent, index_count);
        Renderer {
            state: RendererState::Ready,
            config,
            generation: 1,
            chains_created: 1,
            chains_destroyed: 0,
            desired_extent: desired,
            resize_pending: false,
            index_count,
            sync: FrameSync::new(frames_in_flight),
            uniforms,
            commands,
        }
    }

    /// Notes that the surface was resized. Nothing is torn down here: the
    /// flag is consumed at the start of the next frame iteration, so no
    /// state mutates while a frame may be under way.
    pub fn notify_resize(&mut self)
        requires
            old(self).wf(),
        ensures
            final(self).wf(),
            final(self).spec_resize_pending() == true,
            final(self).spec_state() == old(self).spec_state(),
            final(self).spec_config() == old(self).spec_config(),
            final(self).spec_generation() == old(self).spec_generation(),
            final(self).spec_live_chains() == old(self).spec_live_chains(),
            final(self).spec_desired_extent() == old(self).spec_desired_extent(),
            final(self).spec_index_count() == old(self).spec_index_count(),
            final(self).spec_sync() == old(self).spec_sync(),
            final(self).spec_uniform_count() == old(self).spec_uniform_count(),
            forall|k: int|
                0 <= k < old(self).spec_uniform_count() ==> final(self).spec_uniform(k) == old(
                    self,
                ).spec_uniform(k),
    {
        self.resize_pending = true;
    }

    /// Tears the chain down and rebuilds it wholesale from a fresh
    /// surface snapshot: first a full device-idle wait, then the old
    /// chain is destroyed and a new one created, its configuration
    /// re-derived from the snapshot, the uniform buffers re-made one per
    /// image, and every command sequence re-recorded against the new
    /// generation. However often this runs, it leaves the renderer ready
    /// with exactly one live chain and nothing leaked.
    pub fn rebuild(&mut self, caps: &SurfaceCaps, formats: &Vec<SurfaceFormat>, modes: &Vec<u32>)
        requires
            old(self).wf(),
            old(self).spec_state() != RendererState::Destroyed,
            caps.wf(),
            formats@.len() > 0,
            old(self).spec_generation() < u64::MAX,
        ensures
            final(self).wf(),
            final(self).spec_state() == RendererState::Ready,
            final(self).spec_live_chains() == 1,
            final(self).spec_generation() == old(self).spec_generation() + 1,
            final(self).spec_config() == spec_choose_config(
                *caps,
                formats@,
                modes@,
                old(self).spec_desired_extent(),
            ),
            final(self).spec_resize_pending() == false,
            final(self).spec_desired_extent() == old(self).spec_desired_extent(),
            final(self).spec_index_count() == old(self).spec_index_count(),
            final(self).spec_sync().spec_f() == old(self).spec_sync().spec_f(),
            final(self).spec_sync().spec_current() == old(self).spec_sync().spec_current(),
            final(self).spec_sync().spec_history() == old(self).spec_sync().spec_history(),
            final(self).spec_sync().spec_now() == old(self).spec_sync().spec_idle_time(),
            final(self).spec_uniform_count() == final(self).spec_config().image_count,
            forall|k: int|
                0 <= k < final(self).spec_uniform_count() ==> final(self).spec_uniform(k).len()
                    == 0,
    {
        self.sync.wait_idle();
        self.chains_destroyed = self.chains_destroyed + 1;
        self.chains_created = self.chains_created + 1;
        self.generation = self.generation + 1;
        let config = choose_swapchain_config(caps, formats, modes, self.desired_extent);
        self.config = config;
        self.uniforms = make_uniforms(config.image_count);
        self.commands = record_all(
            self.generation,
            config.image_count,
            config.extent,
            self.index_count,
        );
        self.resize_pending = false;
        self.state = RendererState::Ready;
    }

    /// Drives one frame: consume a pending resize by demanding a rebuild;
    /// else wait on the current slot's fence, and act on what acquire and
    /// present reported. On the normal path the acquired image's own
    /// uniform buffer — never another frame's — takes the new uniform
    /// bytes, the frame is submitted through the current slot, and the
    /// slot cursor advances. An out-of-date acquire abandons the frame
    /// before anything is submitted; an out-of-date or suboptimal present
    /// demands a rebuild after the already-submitted work; other device
    /// failures are fatal. An image index outside the chain is refused as
    /// a contract violation before it can touch any per-image state.
    pub fn render_frame(
        &mut self,
        acquire: AcquireOutcome,
        present: PresentOutcome,
        gpu_duration: u64,
        uniform_data: &Vec<u8>,
    ) -> (r: Result<FrameOutcome, RenderError>)
        requires
            old(self).wf(),
            old(self).spec_state() == RendererState::Ready,
            old(self).spec_sync().spec_idle_time() + gpu_duration <= u64::MAX,
        ensures
            final(self).wf(),
            final(self).spec_config() == old(self).spec_config(),
            final(self).spec_generation() == old(self).spec_generation(),
            final(self).spec_live_chains() == old(self).spec_live_chains(),
            final(self).spec_desired_extent() == old(self).spec_desired_extent(),
            final(self).spec_index_count() == old(self).spec_index_count(),
            final(self).spec_resize_pending() == old(self).spec_resize_pending(),
            final(self).spec_uniform_count() == old(self).spec_uniform_count(),
            final(self).spec_sync().spec_f() == old(self).spec_sync().spec_f(),
            old(self).spec_resize_pending() ==> {
                &&& r == Ok::<FrameOutcome, RenderError>(FrameOutcome::SkippedNeedsRebuild)
                &&& final(self).spec_state() == RendererState::NeedsRebuild
                &&& final(self).spec_sync() == old(self).spec_sync()
                &&& uniforms_unchanged(*old(self), *final(self))
            },
            !old(self).spec_resize_pending() && !(acquire matches AcquireOutcome::Image(_)) ==> {
                &&& (acquire == AcquireOutcome::OutOfDate ==> r == Ok::<
                    FrameOutcome,
                    RenderError,
                >(FrameOutcome::SkippedNeedsRebuild) && final(self).spec_state()
                    == RendererState::NeedsRebuild)
                &&& (acquire == AcquireOutcome::Fatal ==> r == Err::<FrameOutcome, RenderError>(
                    RenderError::AcquireFailed,
                ) && final(self).spec_state() == RendererState::Ready)
                &&& sync_only_waited(*old(self), *final(self))
                &&& uniforms_unchanged(*old(self), *final(self))
            },
            !old(self).spec_resize_pending() && acquire is Image && acquire->Image_0
                >= old(self).spec_config().image_count ==> {
                    &&& r == Err::<FrameOutcome, RenderError>(RenderError::StaleImageIndex)
                    &&& final(self).spec_state() == RendererState::Ready
                    &&& sync_only_waited(*old(self), *final(self))
                    &&& uniforms_unchanged(*old(self), *final(self))
                },
            !old(self).spec_resize_pending() && acquire is Image && acquire->Image_0
                < old(self).spec_config().image_count ==> {
                    &&& final(self).spec_uniform(acquire->Image_0 as int) == uniform_data@
                    &&& (forall|k: int|
                        0 <= k < old(self).spec_uniform_count() && k != acquire->Image_0
                            ==> final(self).spec_uniform(k) == old(self).spec_uniform(k))
                    &&& sync_submitted(*old(self), *final(self), gpu_duration)
                    &&& (present == PresentOutcome::Presented ==> r == Ok::<
                        FrameOutcome,
                        RenderError,
                    >(
                        FrameOutcome::Rendered { waited: spec_waited(old(self).spec_sync()) },
                    ) && final(self).spec_state() == RendererState::Ready)
                    &&& (present == PresentOutcome::OutOfDate || present
                        == PresentOutcome::Suboptimal ==> r == Ok::<FrameOutcome, RenderError>(
                        FrameOutcome::RenderedNeedsRebuild {
                            waited: spec_waited(old(self).spec_sync()),
                        },
                    ) && final(self).spec_state() == RendererState::NeedsRebuild)
                    &&& (present == PresentOutcome::Fatal ==> r == Err::<
                        FrameOutcome,
                        RenderError,
                    >(RenderError::PresentFailed) && final(self).spec_state()
                        == RendererState::Ready)
                },
    {
        if self.resize_pending {
            self.state = RendererState::NeedsRebuild;
            return Ok(FrameOutcome::SkippedNeedsRebuild);
        }
        proof {
            old(self).sync.lemma_wait_le_idle();
        }
        let waited = self.sync.begin_frame();
        match acquire {
            AcquireOutcome::OutOfDate => {
                self.state = RendererState::NeedsRebuild;
                Ok(FrameOutcome::SkippedNeedsRebuild)
            },
            AcquireOutcome::Fatal => Err(RenderError::AcquireFailed),
            AcquireOutcome::Image(i) => {
                if i >= self.config.image_count {
                    return Err(RenderError::StaleImageIndex);
                }
                let idx = i as usize;
                let usage = self.uniforms[idx].usage;
                let domain = self.uniforms[idx].domain;
                self.uniforms[idx] = GpuBuffer { contents: copy_bytes(uniform_data), usage, domain };
                self.sync.end_frame(gpu_duration);
                match present {
                    PresentOutcome::Presented => Ok(FrameOutcome::Rendered { waited }),
                    PresentOutcome::OutOfDate | PresentOutcome::Suboptimal => {
                        self.state = RendererState::NeedsRebuild;
                        Ok(FrameOutcome::RenderedNeedsRebuild { waited })
                    },
                    PresentOutcome::Fatal => Err(RenderError::PresentFailed),
                }
            },
        }
    }

    /// Shuts the renderer down: a full device-idle wait first, then the
    /// chain and every per-frame object is destroyed. Nothing stays live.
    pub fn shutdown(&mut self)
        requires
            old(self).wf(),
        ensures
            final(self).wf(),
            final(self).spec_state() == RendererState::Destroyed,
            final(self).spec_live_chains() == 0,
            final(self).spec_generation() == old(self).spec_generation(),
            final(self).spec_sync().spec_f() == old(self).spec_sync().spec_f(),
            final(self).spec_sync().spec_history() == old(self).spec_sync().spec_history(),
            final(self).spec_sync().spec_now() == old(self).spec_sync().spec_idle_time(),
    {
        self.sync.wait_idle();
        if !matches!(self.state, RendererState::Destroyed) {
            self.chains_destroyed = self.chains_destroyed + 1;
        }
        self.state = RendererState::Destroyed;
        self.uniforms = Vec::new();
        self.commands = Vec::new();
    }

    /// Where the renderer stands in its lifecycle.
    pub fn state(&self) -> (r: RendererState)
        ensures
            r == self.spec_state(),
    {
        self.state
    }

    /// The configuration the live chain was built with.
    pub fn config(&self) -> (r: SwapchainConfig)
        ensures
            r == self.spec_config(),
    {
        self.config
    }

    /// The chain generation.
    pub fn generation(&self) -> (r: u64)
        ensures
            r == self.spec_generation(),
    {
        self.generation
    }

    /// How many chains are live.
    pub fn live_chains(&self) -> (r: u64)
        requires
            self.wf(),
        ensures
            r == self.spec_live_chains(),
    {
        self.chains_created - self.chains_destroyed
    }

    /// Whether a resize notice awaits the next iteration.
    pub fn resize_pending(&self) -> (r: bool)
        ensures
            r == self.spec_resize_pending(),
    {
        self.resize_pending
    }

    /// The ring of frame slots, for inspection.
    pub fn frame_sync(&self) -> (r: &FrameSync)
        ensures
            *r == self.spec_sync(),
    {
        &self.sync
    }

    /// The bytes the k-th image's uniform buffer holds, read back.
    pub fn uniform_bytes(&self, k: usize) -> (r: Vec<u8>)
        requires
            k < self.spec_uniform_count(),
        ensures
            r@ == self.spec_uniform(k as int),
    {
        crate::staging::download(&self.uniforms[k])
    }

    /// The command sequence recorded for the k-th image.
    pub fn command_at(&self, k: usize) -> (r: &CommandSequence)
        requires
            self.wf(),
            self.spec_state() != RendererState::Destroyed,
            k < self.spec_config().image_count,
        ensures
            r.generation == self.spec_generation(),
            r.image_index == k,
            r.commands@ == spec_command_list(
                k as u32,
                self.spec_config().extent,
                self.spec_index_count(),
            ),
    {
        &self.commands[k]
    }
}

/// One empty host-visible uniform buffer per chain image, so that each
/// in-flight frame writes a region no other frame reads.
fn make_uniforms(count: u32) -> (r: Vec<GpuBuffer>)
    ensures
        r@.len() == count,
        forall|k: int|
            0 <= k < count ==> (#[trigger] r@[k]).contents@.len() == 0 && r@[k].usage
                == USAGE_UNIFORM && r@[k].domain == MemoryDomain::HostVisible,
{
    let mut v: Vec<GpuBuffer> = Vec::new();
    let mut i: u32 = 0;
    while i < count
        invariant
            i <= count,
            v@.len() == i,
            forall|k: int|
                0 <= k < i ==> (#[trigger] v@[k]).contents@.len() == 0 && v@[k].usage
                    == USAGE_UNIFORM && v@[k].domain == MemoryDomain::HostVisible,
        decreases count - i,
    {
        v.push(allocate_buffer(0, USAGE_UNIFORM, MemoryDomain::HostVisible));
        i = i + 1;
    }
    v
}

/// One command sequence per chain image, all against one generation.
fn record_all(generation: u64, count: u32, extent: Extent2d, index_count: u32) -> (r: Vec<
    CommandSequence,
>)
    ensures
        r@.len() == count,
        forall|k: int|
            0 <= k < count ==> {
                &&& (#[trigger] r@[k]).generation == generation
                &&& r@[k].image_index == k
                &&& r@[k].commands@ == spec_command_list(k as u32, extent, index_count)
            },
{
    let mut v: Vec<CommandSequence> = Vec::new();
    let mut i: u32 = 0;
    while i < count
        invariant
            i <= count,
            v@.len() == i,
            forall|k: int|
                0 <= k < i ==> {
                    &&& (#[trigger] v@[k]).generation == generation
                    &&& v@[k].image_index == k
                    &&& v@[k].commands@ == spec_command_list(k as u32, extent, index_count)
                },
        decreases count - i,
    {
        v.push(record_command_sequence(generation, i, extent, index_count));
        i = i + 1;
    }
    v
}

} // verus!
