use vstd::prelude::*;
use crate::actions::Action;

verus! {

/// Fixed extent of the depth-stencil attachment.  It is allocated once at
/// this bound and never resized; only the color attachment follows the
/// requested output size.  Outputs larger than this bound are a known latent
/// constraint carried over from the design.
pub const MAX_ATTACHMENT_EXTENT: u32 = 5000;

/// Which of the GPU binding points currently have an object bound.
/// `true` means something is bound; `false` means the binding point is clear
/// (for the framebuffer binding, `false` means the default target).
#[derive(Clone, Copy, PartialEq, Eq, Structural, Debug)]
pub struct BindState {
    pub program_bound: bool,
    pub vertex_array_bound: bool,
    pub texture_bound: bool,
    pub offscreen_framebuffer_bound: bool,
}

impl BindState {
    /// No program, vertex array, or texture is bound, and the default
    /// framebuffer is the render target.
    pub open spec fn all_unbound(self) -> bool {
        &&& !self.program_bound
        &&& !self.vertex_array_bound
        &&& !self.texture_bound
        &&& !self.offscreen_framebuffer_bound
    }
}

/// The effect of one command on the GPU binding points.  Commands that the
/// verified core issues and that do not touch a binding point leave the
/// state unchanged; what foreign code does between commands is not modeled
/// here, which is why the compositing contract quantifies over every prior
/// bind state.
pub open spec fn gl_step(s: BindState, a: Action) -> BindState {
    match a {
        Action::BindOffscreenFramebuffer => BindState {
            offscreen_framebuffer_bound: true,
            ..s
        },
        Action::BindDefaultFramebuffer => BindState { offscreen_framebuffer_bound: false, ..s },
        Action::UseCompositeProgram => BindState { program_bound: true, ..s },
        Action::ClearProgramBinding => BindState { program_bound: false, ..s },
        Action::BindQuadVertexArray => BindState { vertex_array_bound: true, ..s },
        Action::ClearVertexArrayBinding => BindState { vertex_array_bound: false, ..s },
        Action::BindColorTexture => BindState { texture_bound: true, ..s },
        Action::ClearTextureBinding => BindState { texture_bound: false, ..s },
        _ => s,
    }
}

/// The bind state after performing `cmds` in order, starting from `s`.
pub open spec fn gl_run(s: BindState, cmds: Seq<Action>) -> BindState
    decreases cmds.len(),
{
    if cmds.len() == 0 {
        s
    } else {
        gl_run(gl_step(s, cmds[0]), cmds.subrange(1, cmds.len() as int))
    }
}

/// Logical state of the GPU surface: the compositing program, the quad
/// geometry, and the offscreen framebuffer with its color and depth-stencil
/// attachments.  The real GPU object handles live with the embedding shell;
/// this records what the attachments' storage dimensions are and whether the
/// objects exist.
#[derive(Clone, Copy, PartialEq, Eq, Structural, Debug)]
pub struct GpuSurface {
    /// Width of the color attachment's storage, which always equals the most
    /// recently requested output width.
    pub width: u32,
    /// Height of the color attachment's storage.
    pub height: u32,
    /// How many times the color-attachment storage has been reallocated by
    /// `resize_if_needed` since initialization.
    pub realloc_count: u64,
    /// The GPU objects exist (between `initialize` and `release`).
    pub alive: bool,
}

/// `c`, counting one more reallocation, capped at the counter's range.
pub open spec fn saturating_inc(c: u64) -> u64 {
    if c == u64::MAX {
        c
    } else {
        (c + 1) as u64
    }
}

impl GpuSurface {
    /// The surface has storage of a positive size.
    pub open spec fn wf(self) -> bool {
        self.width > 0 && self.height > 0
    }

    /// State established by `initialize`.
    pub open spec fn initialize_spec(width: u32, height: u32) -> GpuSurface {
        GpuSurface { width, height, realloc_count: 0, alive: true }
    }

    /// The GPU work `initialize` requests: compile and link the compositing
    /// program, allocate the quad geometry, then allocate the framebuffer
    /// with a color attachment at the requested size and the depth-stencil
    /// attachment at the fixed bound.  Any failure of these is setup-fatal
    /// in the shell; there is no degraded mode.
    pub open spec fn initialize_actions(width: u32, height: u32) -> Seq<Action> {
        seq![
            Action::CreateCompositeProgram,
            Action::CreateQuadGeometry,
            Action::CreateRenderTarget { width, height, depth_extent: MAX_ATTACHMENT_EXTENT },
        ]
    }

    /// Create the surface's logical state and the ordered GPU work to
    /// perform for it.
    pub fn initialize(width: u32, height: u32) -> (r: (GpuSurface, Vec<Action>))
        requires
            width > 0,
            height > 0,
        ensures
            r.0 == Self::initialize_spec(width, height),
            r.0.wf(),
            r.0.alive,
            r.1@ == Self::initialize_actions(width, height),
    {
        let surface = GpuSurface { width, height, realloc_count: 0, alive: true };
        let mut acts: Vec<Action> = Vec::new();
        acts.push(Action::CreateCompositeProgram);
        acts.push(Action::CreateQuadGeometry);
        acts.push(
            Action::CreateRenderTarget { width, height, depth_extent: MAX_ATTACHMENT_EXTENT },
        );
        proof {
            assert(acts@ =~= Self::initialize_actions(width, height));
        }
        (surface, acts)
    }

    /// State after a resize request: unchanged when the size is already
    /// current, otherwise the new size with one more reallocation counted.
    pub open spec fn resize_spec(self, width: u32, height: u32) -> GpuSurface {
        if width == self.width && height == self.height {
            self
        } else {
            GpuSurface {
                width,
                height,
                realloc_count: saturating_inc(self.realloc_count),
                ..self
            }
        }
    }

    /// The GPU work a resize request needs: nothing when the size is already
    /// current, otherwise one reallocation of the color-attachment storage
    /// (the depth-stencil attachment keeps its fixed bound).
    pub open spec fn resize_actions(self, width: u32, height: u32) -> Seq<Action> {
        if width == self.width && height == self.height {
            Seq::empty()
        } else {
            seq![Action::ReallocColorStorage { width, height }]
        }
    }

    /// Bring the color attachment to the requested output size, doing no GPU
    /// work when it already has it.  Must run before the tick's
    /// render-into-framebuffer call, which renders at the same size.
    pub fn resize_if_needed(&mut self, width: u32, height: u32) -> (acts: Vec<Action>)
        requires
            old(self).alive,
            width > 0,
            height > 0,
        ensures
            *final(self) == old(self).resize_spec(width, height),
            acts@ == old(self).resize_actions(width, height),
            final(self).width == width,
            final(self).height == height,
            final(self).alive,
            final(self).wf(),
            acts@.len() == 0 ==> final(self).realloc_count == old(self).realloc_count,
    {
        let mut acts: Vec<Action> = Vec::new();
        if width != self.width || height != self.height {
            self.width = width;
            self.height = height;
            if self.realloc_count < u64::MAX {
                self.realloc_count = self.realloc_count + 1;
            }
            acts.push(Action::ReallocColorStorage { width, height });
        }
        proof {
            assert(acts@ =~= old(self).resize_actions(width, height));
        }
        acts
    }

    /// The fixed compositing pass: bind the default target, clear it, draw
    /// the offscreen color attachment over the fullscreen quad, then unbind
    /// every binding point used.
    pub open spec fn composite_actions() -> Seq<Action> {
        seq![
            Action::BindDefaultFramebuffer,
            Action::SetClearColorBlack,
            Action::ClearColorTarget,
            Action::UseCompositeProgram,
            Action::BindQuadVertexArray,
            Action::BindColorTexture,
            Action::DrawQuadVertices,
            Action::ClearVertexArrayBinding,
            Action::ClearTextureBinding,
            Action::ClearProgramBinding,
        ]
    }

    /// Produce the compositing pass.  By `lemma_composite_unbinds_all`, the
    /// pass leaves every binding point clear whatever was bound before it,
    /// so repeated passes are idempotent with respect to bind state and
    /// order-independent of other draw work in the same tick.
    pub fn composite(&self) -> (acts: Vec<Action>)
        requires
            self.alive,
        ensures
            acts@ == Self::composite_actions(),
    {
        let mut acts: Vec<Action> = Vec::new();
        acts.push(Action::BindDefaultFramebuffer);
        acts.push(Action::SetClearColorBlack);
        acts.push(Action::ClearColorTarget);
        acts.push(Action::UseCompositeProgram);
        acts.push(Action::BindQuadVertexArray);
        acts.push(Action::BindColorTexture);
        acts.push(Action::DrawQuadVertices);
        acts.push(Action::ClearVertexArrayBinding);
        acts.push(Action::ClearTextureBinding);
        acts.push(Action::ClearProgramBinding);
        proof {
            assert(acts@ =~= Self::composite_actions());
        }
        acts
    }

    /// The deletions `release` requests.  The objects have no dependencies
    /// among themselves once created; this keeps one fixed order.
    pub open spec fn release_actions() -> Seq<Action> {
        seq![
            Action::DeleteProgram,
            Action::DeleteQuadBuffer,
            Action::DeleteQuadVertexArray,
            Action::DeleteColorTexture,
            Action::DeleteDepthTexture,
            Action::DeleteFramebuffer,
        ]
    }

    /// Delete every GPU object of the surface.  Must run before the owning
    /// GPU context is destroyed, and after the media bridge released its
    /// render context (the frame-sync controller enforces that order).
    pub fn release(&mut self) -> (acts: Vec<Action>)
        requires
            old(self).alive,
        ensures
            !final(self).alive,
            final(self).width == old(self).width,
            final(self).height == old(self).height,
            final(self).realloc_count == old(self).realloc_count,
            acts@ == Self::release_actions(),
    {
        self.alive = false;
        let mut acts: Vec<Action> = Vec::new();
        acts.push(Action::DeleteProgram);
        acts.push(Action::DeleteQuadBuffer);
        acts.push(Action::DeleteQuadVertexArray);
        acts.push(Action::DeleteColorTexture);
        acts.push(Action::DeleteDepthTexture);
        acts.push(Action::DeleteFramebuffer);
        proof {
            assert(acts@ =~= Self::release_actions());
        }
        acts
    }
}

/// After a resize to `(width, height)`, the color-attachment storage has
/// exactly that size, and a second resize request with the same size is a
/// no-op: it performs no GPU work and leaves the reallocation counter
/// unchanged.
pub proof fn lemma_resize_idempotent(s: GpuSurface, width: u32, height: u32)
    ensures
        s.resize_spec(width, height).width == width,
        s.resize_spec(width, height).height == height,
        s.resize_spec(width, height).resize_spec(width, height) == s.resize_spec(width, height),
        s.resize_spec(width, height).resize_actions(width, height) == Seq::<Action>::empty(),
        s.resize_spec(width, height).resize_spec(width, height).realloc_count == s.resize_spec(
            width,
            height,
        ).realloc_count,
{
}

/// The compositing pass leaves every binding point clear — no program, no
/// vertex array, no texture, and the default framebuffer — from any prior
/// bind state.
pub proof fn lemma_composite_unbinds_all(prior: BindState)
    ensures
        gl_run(prior, GpuSurface::composite_actions()).all_unbound(),
{
    reveal_with_fuel(gl_run, 11);
    let cmds = GpuSurface::composite_actions();
    assert(gl_run(prior, cmds).all_unbound()) by {
        assert(cmds.len() == 10);
        let s1 = gl_step(prior, cmds[0]);
        let r1 = cmds.subrange(1, 10);
        let s2 = gl_step(s1, r1[0]);
        let r2 = r1.subrange(1, 9);
        let s3 = gl_step(s2, r2[0]);
        let r3 = r2.subrange(1, 8);
        let s4 = gl_step(s3, r3[0]);
        let r4 = r3.subrange(1, 7);
        let s5 = gl_step(s4, r4[0]);
        let r5 = r4.subrange(1, 6);
        let s6 = gl_step(s5, r5[0]);
        let r6 = r5.subrange(1, 5);
        let s7 = gl_step(s6, r6[0]);
        let r7 = r6.subrange(1, 4);
        let s8 = gl_step(s7, r7[0]);
        let r8 = r7.subrange(1, 3);
        let s9 = gl_step(s8, r8[0]);
        let r9 = r8.subrange(1, 2);
        let s10 = gl_step(s9, r9[0]);
        let r10 = r9.subrange(1, 1);
        assert(r10.len() == 0);
        assert(s10.all_unbound());
    }
}

} // verus!
