use vstd::prelude::*;
use crate::actions::Action;
use crate::actions::is_bridge_release;

verus! {

/// Logical state of the media-render bridge: the playback session it owns.
///
/// The session consists of the engine's playback context and the engine's
/// GPU render context, which is valid only while both the playback context
/// and the embedding GPU context are alive.  The render context must be
/// destroyed strictly before the playback context, and the playback context
/// strictly before the GPU context goes away; `release` encodes the first
/// two orders, and the frame-sync controller's teardown sequence the third.
/// The real foreign handles (and the heap-allocated proc-address resolver
/// that lives exactly as long as the render context) stay with the
/// embedding shell.
#[derive(Clone, Copy, PartialEq, Eq, Structural, Debug)]
pub struct MediaRenderBridge {
    /// The engine's playback context exists.
    pub engine_context_alive: bool,
    /// The engine's GPU render context exists.
    pub render_context_alive: bool,
    /// The load-and-auto-play command for the media source was issued.
    pub source_loaded: bool,
}

impl MediaRenderBridge {
    /// The render context and the loaded source never outlive the playback
    /// context.
    pub open spec fn wf(self) -> bool {
        &&& self.render_context_alive ==> self.engine_context_alive
        &&& self.source_loaded ==> self.engine_context_alive
    }

    /// The bridge is fully set up: both contexts exist and a source plays.
    pub open spec fn ready(self) -> bool {
        self.engine_context_alive && self.render_context_alive && self.source_loaded
    }

    /// The engine work `initialize` requests, in order: create the playback
    /// context, raise its log verbosity, create the render context bound to
    /// the embedding GPU context, disable the deprecated event stream, and
    /// load-and-auto-play the source.  Any engine-reported failure of these
    /// is setup-fatal in the shell.
    pub open spec fn initialize_actions() -> Seq<Action> {
        seq![
            Action::CreateEngineContext,
            Action::RequestDebugLogVerbosity,
            Action::CreateRenderContext,
            Action::DisableDeprecatedEvents,
            Action::LoadAndPlay,
        ]
    }

    /// Create the bridge's logical state and the ordered engine work to
    /// perform for it.  The caller must only run this after the GPU surface
    /// exists, because the render context binds to the GPU context (the
    /// frame-sync controller's setup sequence keeps that order).
    pub fn initialize() -> (r: (MediaRenderBridge, Vec<Action>))
        ensures
            r.0.ready(),
            r.0.wf(),
            r.1@ == Self::initialize_actions(),
    {
        let bridge = MediaRenderBridge {
            engine_context_alive: true,
            render_context_alive: true,
            source_loaded: true,
        };
        let mut acts: Vec<Action> = Vec::new();
        acts.push(Action::CreateEngineContext);
        acts.push(Action::RequestDebugLogVerbosity);
        acts.push(Action::CreateRenderContext);
        acts.push(Action::DisableDeprecatedEvents);
        acts.push(Action::LoadAndPlay);
        proof {
            assert(acts@ =~= Self::initialize_actions());
        }
        (bridge, acts)
    }

    /// Forward a pause to the engine's pause-property setter.  Setting the
    /// property to a value it already has is a no-op in the engine, so the
    /// call is idempotent; the frame-sync controller nevertheless forwards
    /// only on an observed flag transition.
    pub fn pause(&self) -> (acts: Vec<Action>)
        requires
            self.engine_context_alive,
        ensures
            acts@ == seq![Action::SetPause(true)],
    {
        let mut acts: Vec<Action> = Vec::new();
        acts.push(Action::SetPause(true));
        proof {
            assert(acts@ =~= seq![Action::SetPause(true)]);
        }
        acts
    }

    /// Forward a resume to the engine's pause-property setter; idempotent
    /// like `pause`.
    pub fn play(&self) -> (acts: Vec<Action>)
        requires
            self.engine_context_alive,
        ensures
            acts@ == seq![Action::SetPause(false)],
    {
        let mut acts: Vec<Action> = Vec::new();
        acts.push(Action::SetPause(false));
        proof {
            assert(acts@ =~= seq![Action::SetPause(false)]);
        }
        acts
    }

    /// Forward an absolute seek, given as an exact count of milliseconds.
    /// Defined only while a source is loaded; seeking past the duration
    /// clamps to end-of-stream per engine semantics.
    pub fn seek_absolute(&self, target_milliseconds: i64) -> (acts: Vec<Action>)
        requires
            self.source_loaded,
            0 <= target_milliseconds,
        ensures
            acts@ == seq![Action::SeekAbsolute { target_milliseconds }],
    {
        let mut acts: Vec<Action> = Vec::new();
        acts.push(Action::SeekAbsolute { target_milliseconds });
        proof {
            assert(acts@ =~= seq![Action::SeekAbsolute { target_milliseconds }]);
        }
        acts
    }

    /// Drive the engine's render-into-target call against the offscreen
    /// framebuffer at the current output size, with vertical flip.  A
    /// failure of the call on a given tick is absorbed by the shell: the
    /// previous frame's texture contents remain and compositing proceeds.
    pub fn render_into(&self, width: u32, height: u32) -> (acts: Vec<Action>)
        requires
            self.render_context_alive,
            width > 0,
            height > 0,
        ensures
            acts@ == seq![Action::RenderFrame { width, height, flip_vertically: true }],
    {
        let mut acts: Vec<Action> = Vec::new();
        acts.push(Action::RenderFrame { width, height, flip_vertically: true });
        proof {
            assert(acts@ =~= seq![Action::RenderFrame { width, height, flip_vertically: true }]);
        }
        acts
    }

    /// The destructions `release` requests: the render context strictly
    /// first, then the playback context.
    pub open spec fn release_actions() -> Seq<Action> {
        seq![Action::DestroyRenderContext, Action::DestroyEngineContext]
    }

    /// Tear the playback session down.  The GPU context the render context
    /// was bound to is destroyed by the caller only afterwards.
    pub fn release(&mut self) -> (acts: Vec<Action>)
        requires
            old(self).ready(),
        ensures
            !final(self).engine_context_alive,
            !final(self).render_context_alive,
            !final(self).source_loaded,
            final(self).wf(),
            acts@ == Self::release_actions(),
    {
        self.render_context_alive = false;
        self.engine_context_alive = false;
        self.source_loaded = false;
        let mut acts: Vec<Action> = Vec::new();
        acts.push(Action::DestroyRenderContext);
        acts.push(Action::DestroyEngineContext);
        proof {
            assert(acts@ =~= Self::release_actions());
        }
        acts
    }
}

/// In the bridge's teardown sequence the render context is destroyed
/// strictly before the playback context, and nothing else is destroyed.
pub proof fn lemma_bridge_release_order()
    ensures
        MediaRenderBridge::release_actions().len() == 2,
        MediaRenderBridge::release_actions()[0] == Action::DestroyRenderContext,
        MediaRenderBridge::release_actions()[1] == Action::DestroyEngineContext,
        forall|i: int|
            0 <= i < MediaRenderBridge::release_actions().len() ==> is_bridge_release(
                #[trigger] MediaRenderBridge::release_actions()[i],
            ),
{
}

/// In the bridge's setup sequence the playback context is created strictly
/// before the render context that depends on it.
pub proof fn lemma_bridge_creation_order()
    ensures
        forall|i: int, j: int|
            {
                &&& 0 <= i < MediaRenderBridge::initialize_actions().len()
                &&& 0 <= j < MediaRenderBridge::initialize_actions().len()
                &&& #[trigger] MediaRenderBridge::initialize_actions()[i]
                    == Action::CreateEngineContext
                &&& #[trigger] MediaRenderBridge::initialize_actions()[j]
                    == Action::CreateRenderContext
            } ==> i < j,
{
}

} // verus!
