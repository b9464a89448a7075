use video_underlay::actions::Action;
use video_underlay::surface::GpuSurface;
use video_underlay::surface::MAX_ATTACHMENT_EXTENT;

#[derive(Clone, Copy, PartialEq, Eq, Debug)]
struct Binds {
    program: bool,
    vertex_array: bool,
    texture: bool,
    offscreen_framebuffer: bool,
}

fn apply_binds(mut b: Binds, acts: &[Action]) -> Binds {
    for a in acts {
        match a {
            Action::BindOffscreenFramebuffer => b.offscreen_framebuffer = true,
            Action::BindDefaultFramebuffer => b.offscreen_framebuffer = false,
            Action::UseCompositeProgram => b.program = true,
            Action::ClearProgramBinding => b.program = false,
            Action::BindQuadVertexArray => b.vertex_array = true,
            Action::ClearVertexArrayBinding => b.vertex_array = false,
            Action::BindColorTexture => b.texture = true,
            Action::ClearTextureBinding => b.texture = false,
            _ => {}
        }
    }
    b
}

#[test]
fn initialize_allocates_at_requested_size() {
    let (surface, acts) = GpuSurface::initialize(640, 480);
    assert_eq!(surface.width, 640);
    assert_eq!(surface.height, 480);
    assert_eq!(surface.realloc_count, 0);
    assert!(surface.alive);
    assert_eq!(
        acts,
        vec![
            Action::CreateCompositeProgram,
            Action::CreateQuadGeometry,
            Action::CreateRenderTarget {
                width: 640,
                height: 480,
                depth_extent: MAX_ATTACHMENT_EXTENT,
            },
        ]
    );
}

#[test]
fn resize_reallocates_only_on_change() {
    let (mut surface, _) = GpuSurface::initialize(640, 480);

    let acts = surface.resize_if_needed(640, 480);
    assert!(acts.is_empty());
    assert_eq!(surface.realloc_count, 0);

    let acts = surface.resize_if_needed(800, 600);
    assert_eq!(acts, vec![Action::ReallocColorStorage { width: 800, height: 600 }]);
    assert_eq!((surface.width, surface.height), (800, 600));
    assert_eq!(surface.realloc_count, 1);

    let acts = surface.resize_if_needed(800, 600);
    assert!(acts.is_empty());
    assert_eq!((surface.width, surface.height), (800, 600));
    assert_eq!(surface.realloc_count, 1);

    let acts = surface.resize_if_needed(800, 601);
    assert_eq!(acts.len(), 1);
    assert_eq!(surface.realloc_count, 2);
}

#[test]
fn composite_unbinds_everything_from_any_prior_state() {
    let (surface, _) = GpuSurface::initialize(640, 480);
    let pass = surface.composite();
    for mask in 0u32..16 {
        let prior = Binds {
            program: mask & 1 != 0,
            vertex_array: mask & 2 != 0,
            texture: mask & 4 != 0,
            offscreen_framebuffer: mask & 8 != 0,
        };
        let after = apply_binds(prior, &pass);
        assert_eq!(
            after,
            Binds {
                program: false,
                vertex_array: false,
                texture: false,
                offscreen_framebuffer: false,
            }
        );
    }
}

#[test]
fn composite_draws_the_quad_once() {
    let (surface, _) = GpuSurface::initialize(640, 480);
    let pass = surface.composite();
    let draws = pass.iter().filter(|a| **a == Action::DrawQuadVertices).count();
    assert_eq!(draws, 1);
    assert_eq!(pass[0], Action::BindDefaultFramebuffer);
    assert_eq!(pass[pass.len() - 1], Action::ClearProgramBinding);
}

#[test]
fn release_deletes_every_object() {
    let (mut surface, _) = GpuSurface::initialize(640, 480);
    let acts = surface.release();
    assert!(!surface.alive);
    assert_eq!(
        acts,
        vec![
            Action::DeleteProgram,
            Action::DeleteQuadBuffer,
            Action::DeleteQuadVertexArray,
            Action::DeleteColorTexture,
            Action::DeleteDepthTexture,
            Action::DeleteFramebuffer,
        ]
    );
}
