use vstd::prelude::*;

verus! {

/// One externally performed step of the render-synchronization engine.
///
/// The verified core never touches the GPU or the media engine itself: it
/// computes, per host notification, the exact ordered list of these plain-data
/// commands, and the embedding shell executes each one against the real GPU
/// context and the real media engine.  Every contract about ordering (creation
/// order, teardown order, bind-state hygiene) is stated over sequences of
/// these values.
#[derive(Clone, Copy, PartialEq, Eq, Structural, Debug)]
pub enum Action {
    /// Create the media engine's playback context.
    CreateEngineContext,
    /// Ask the engine for debug-level log verbosity.
    RequestDebugLogVerbosity,
    /// Create the engine's GPU render context, bound to the embedding GPU
    /// context through its proc-address resolver, with the OpenGL-compatible
    /// API type and advanced control enabled.
    CreateRenderContext,
    /// Disable the engine's deprecated event stream.
    DisableDeprecatedEvents,
    /// Issue the single load-and-auto-play command for the media source.
    LoadAndPlay,
    /// Forward the UI pause flag to the engine's pause property
    /// (`true` pauses, `false` resumes).
    SetPause(bool),
    /// Seek to an absolute time; the target in seconds is
    /// `target_milliseconds / 1000`, kept as an exact integer numerator.
    SeekAbsolute { target_milliseconds: i64 },
    /// Drive the engine's render-into-target call against the offscreen
    /// framebuffer at the given output size.
    RenderFrame { width: u32, height: u32, flip_vertically: bool },
    /// Destroy the engine's GPU render context (must precede
    /// `DestroyEngineContext`).
    DestroyRenderContext,
    /// Destroy the engine's playback context.
    DestroyEngineContext,
    /// Compile and link the two-stage compositing shader program.
    CreateCompositeProgram,
    /// Allocate the static fullscreen-quad vertex buffer and vertex array.
    CreateQuadGeometry,
    /// Allocate the offscreen framebuffer: a color attachment at the given
    /// size and a depth-stencil attachment at the fixed `depth_extent` bound;
    /// then verify framebuffer completeness.
    CreateRenderTarget { width: u32, height: u32, depth_extent: u32 },
    /// Reallocate only the color-attachment storage to the new size.
    ReallocColorStorage { width: u32, height: u32 },
    /// Bind the offscreen framebuffer as the render target.
    BindOffscreenFramebuffer,
    /// Set the clear color used while the offscreen target is bound.
    SetClearColorDark,
    /// Bind the default (on-screen) render target.
    BindDefaultFramebuffer,
    /// Set the clear color for the default target.
    SetClearColorBlack,
    /// Clear the currently bound color target.
    ClearColorTarget,
    /// Bind the compositing shader program.
    UseCompositeProgram,
    /// Bind the fullscreen-quad vertex array.
    BindQuadVertexArray,
    /// Bind the offscreen color attachment as the sampled texture.
    BindColorTexture,
    /// Draw the six quad vertices (two triangles).
    DrawQuadVertices,
    /// Unbind the vertex array.
    ClearVertexArrayBinding,
    /// Unbind the sampled texture.
    ClearTextureBinding,
    /// Unbind the shader program.
    ClearProgramBinding,
    /// Delete the compositing shader program.
    DeleteProgram,
    /// Delete the fullscreen-quad vertex buffer.
    DeleteQuadBuffer,
    /// Delete the fullscreen-quad vertex array.
    DeleteQuadVertexArray,
    /// Delete the color attachment texture.
    DeleteColorTexture,
    /// Delete the depth-stencil attachment texture.
    DeleteDepthTexture,
    /// Delete the offscreen framebuffer.
    DeleteFramebuffer,
    /// Ask the host for another redraw tick.
    RequestRedraw,
}

/// The command destroys one of the media engine's two contexts.
pub open spec fn is_bridge_release(a: Action) -> bool {
    a == Action::DestroyRenderContext || a == Action::DestroyEngineContext
}

/// The command deletes one of the GPU surface's objects.
pub open spec fn is_surface_release(a: Action) -> bool {
    ||| a == Action::DeleteProgram
    ||| a == Action::DeleteQuadBuffer
    ||| a == Action::DeleteQuadVertexArray
    ||| a == Action::DeleteColorTexture
    ||| a == Action::DeleteDepthTexture
    ||| a == Action::DeleteFramebuffer
}

/// The command destroys a resource of either resource domain.
pub open spec fn is_release(a: Action) -> bool {
    is_bridge_release(a) || is_surface_release(a)
}

/// The command creates one of the GPU surface's objects.
pub open spec fn is_surface_setup(a: Action) -> bool {
    ||| a == Action::CreateCompositeProgram
    ||| a == Action::CreateQuadGeometry
    ||| (a is CreateRenderTarget)
}

/// The command touches the media engine during setup.
pub open spec fn is_bridge_setup(a: Action) -> bool {
    ||| a == Action::CreateEngineContext
    ||| a == Action::RequestDebugLogVerbosity
    ||| a == Action::CreateRenderContext
    ||| a == Action::DisableDeprecatedEvents
    ||| a == Action::LoadAndPlay
}

/// No command of `s` destroys a resource.
pub open spec fn no_release(s: Seq<Action>) -> bool {
    forall|k: int| 0 <= k < s.len() ==> !is_release(#[trigger] s[k])
}

/// Freedom from destructions is preserved by concatenation.
pub proof fn lemma_no_release_concat(a: Seq<Action>, b: Seq<Action>)
    requires
        no_release(a),
        no_release(b),
    ensures
        no_release(a + b),
{
    assert forall|k: int| 0 <= k < (a + b).len() implies !is_release((a + b)[k]) by {
        if k < a.len() {
            assert((a + b)[k] == a[k]);
        } else {
            assert((a + b)[k] == b[k - a.len()]);
        }
    }
}

} // verus!
