//! The scene: the two effects that the user switches between, the camera,
//! and what the renderer does on each event of the window and each frame.

use crate::camera::Camera;
use crate::camera::CameraController;
use crate::camera::ElementState;
use crate::camera::KeyboardInput;
use crate::camera::Step;
use crate::camera::VirtualKeyCode;
use crate::camera::WindowEvent;
use crate::camera::after_key;
use crate::camera::is_default_camera;
use crate::camera::flight_key;
use crate::camera::steps;
use crate::pipelines::is_camera_update;
use crate::pipelines::pbr::Pbr;
use crate::pipelines::pbr::PbrRenderPass;
use crate::pipelines::pbr::PbrState;
use crate::pipelines::simple::Simple;
use crate::pipelines::simple::SimpleRenderPass;
use crate::pipelines::simple::SimpleState;
use crate::pipelines::simple::next_index;
use crate::ratio::Ratio;
use crate::render::Color;
use crate::render::Frame;
use crate::render::Render;
use crate::render::Submission;
use crate::render_types::MvpUniforms;
use crate::texture::SwapChainDescriptor;
use crate::texture::TextureUsage;
use crate::texture::depth_format;
use vstd::prelude::*;

verus! {

/// The effects of the scene.
#[derive(Clone, Copy, Debug, PartialEq, Eq, Structural)]
pub enum Effect {
    Simple,
    Pbr,
}

/// What the renderer made of an event of the window.
#[derive(Clone, Copy, Debug, PartialEq, Eq, Structural)]
pub enum Reaction {
    /// A key that flies the camera went down or up.
    Flight,
    /// The cursor moved: the clear colour of the textured effect follows
    /// it, red with the cursor's place across the window and green with
    /// its place down the window.
    CursorTint,
    /// The surface has a new size and has to be configured anew.
    Resized { width: u32, height: u32 },
    /// The application ends.
    Exit,
    /// Nothing that the caller has to act on.
    Nothing,
}

impl Reaction {
    /// Whether the scene took the event for itself.
    pub open spec fn is_consumed(self) -> bool {
        self == Reaction::Flight || self == Reaction::CursorTint
    }

    /// Whether the scene took the event for itself.
    pub fn consumed(self) -> (b: bool)
        ensures
            b == self.is_consumed(),
    {
        match self {
            Reaction::Flight | Reaction::CursorTint => true,
            _ => false,
        }
    }
}

/// What the caller has to compute before an update: the steps of the eye,
/// and whether the model turns on by the scene's model speed.
#[derive(Clone, Debug, PartialEq, Eq)]
pub struct UpdatePlan {
    pub steps: Vec<Step>,
    pub turns_model: bool,
}

/// The scene: the surface, the two effects with their states, the camera
/// with its controller, the size of the window, and which effect is shown.
pub struct Scene {
    pub sc_desc: SwapChainDescriptor,
    pub simple: Simple,
    pub simple_state: SimpleState,
    pub pbr: Pbr,
    pub pbr_state: PbrState,
    pub camera: Camera,
    pub camera_controller: CameraController,
    pub size: (u32, u32),
    pub is_pbr: bool,
}

/// The key of a press that the scene itself reacts to.
pub open spec fn pressed_key(event: WindowEvent) -> Option<VirtualKeyCode> {
    match event {
        WindowEvent::KeyboardInput {
            input: KeyboardInput { state: ElementState::Pressed, virtual_keycode: Some(keycode) },
        } => Some(keycode),
        _ => None,
    }
}

/// The size that an event gives the surface.
pub open spec fn new_size(event: WindowEvent) -> Option<(u32, u32)> {
    match event {
        WindowEvent::Resized { width, height } => Some((width, height)),
        WindowEvent::ScaleFactorChanged { width, height } => Some((width, height)),
        _ => None,
    }
}

/// `after` is `before` with the surface resized: the size and the
/// surface are the new ones, the camera has the new aspect ratio, and the
/// depth texture of the physically based effect is made anew for the new
/// surface. Nothing else differs.
pub open spec fn is_resized(before: Scene, after: Scene, width: u32, height: u32) -> bool {
    &&& after.size == (width, height)
    &&& after.sc_desc == (SwapChainDescriptor { width, height, ..before.sc_desc })
    &&& after.camera == (Camera { aspect: (width, height), ..before.camera })
    &&& after.pbr_state.depth_texture.width == width
    &&& after.pbr_state.depth_texture.height == height
    &&& after.pbr_state.depth_texture.format == depth_format()
    &&& after.pbr_state.depth_texture.usage == TextureUsage::sampled_attachment()
    &&& after.pbr_state.depth_texture.label matches Some(l) && l@ == "pbr_depth_texture"@
    &&& after.pbr_state == (PbrState {
        depth_texture: after.pbr_state.depth_texture,
        ..before.pbr_state
    })
    &&& after == (Scene {
        size: after.size,
        sc_desc: after.sc_desc,
        camera: after.camera,
        pbr_state: after.pbr_state,
        ..before
    })
}

/// `after` is `before` with the event taken note of. A key that flies the
/// camera sets or clears its flag. Else, while the textured effect is
/// shown, a press of the space bar makes the next mesh current and a press
/// of `T` the next texture; and a press of `R` switches between the
/// effects. Any other event changes nothing.
pub open spec fn is_input_step(before: Scene, after: Scene, event: WindowEvent) -> bool {
    match flight_key(event) {
        Some((keycode, pressed)) => after == (Scene {
            camera_controller: after_key(before.camera_controller, keycode, pressed),
            ..before
        }),
        None => match pressed_key(event) {
            Some(VirtualKeyCode::Space) if !before.is_pbr => {
                &&& after.simple_state.geometry_index == next_index(
                    before.simple_state.geometry_index as int,
                    before.simple_state.geometries@.len() as int,
                )
                &&& after.simple_state == (SimpleState {
                    geometry_index: after.simple_state.geometry_index,
                    ..before.simple_state
                })
                &&& after == (Scene { simple_state: after.simple_state, ..before })
            },
            Some(VirtualKeyCode::T) if !before.is_pbr => {
                &&& after.simple_state.texture_index == next_index(
                    before.simple_state.texture_index as int,
                    before.simple_state.textures@.len() as int,
                )
                &&& after.simple_state == (SimpleState {
                    texture_index: after.simple_state.texture_index,
                    ..before.simple_state
                })
                &&& after == (Scene { simple_state: after.simple_state, ..before })
            },
            Some(VirtualKeyCode::R) => after == (Scene { is_pbr: !before.is_pbr, ..before }),
            _ => after == before,
        },
    }
}

/// The reaction to an event: the first that applies of flight, tint,
/// resize and exit.
pub open spec fn reaction_to(event: WindowEvent) -> Reaction {
    if flight_key(event) is Some {
        Reaction::Flight
    } else if event == WindowEvent::CursorMoved {
        Reaction::CursorTint
    } else {
        match new_size(event) {
            Some((width, height)) => Reaction::Resized { width, height },
            None => if event == WindowEvent::CloseRequested || pressed_key(event) == Some(
                VirtualKeyCode::Escape,
            ) {
                Reaction::Exit
            } else {
                Reaction::Nothing
            },
        }
    }
}

impl Scene {
    /// The current mesh and the current texture of the textured effect
    /// exist.
    pub open spec fn wf(&self) -> bool {
        &&& self.simple_state.geometry_index < self.simple_state.geometries@.len()
        &&& self.simple_state.texture_index < self.simple_state.textures@.len()
    }

    /// How far the camera flies with each step: a fifth.
    pub fn camera_speed() -> (speed: Ratio)
        ensures
            speed == (Ratio { num: 1, den: 5 }),
    {
        Ratio { num: 1, den: 5 }
    }

    /// The angle by which the model of the textured effect turns with each
    /// update: a fiftieth of a radian.
    pub fn model_speed() -> (speed: Ratio)
        ensures
            speed == (Ratio { num: 1, den: 50 }),
    {
        Ratio { num: 1, den: 50 }
    }

    /// The image files of the textured effect, in the order in which its
    /// textures are numbered.
    pub fn texture_assets() -> (paths: [&'static str; 2])
        ensures
            paths@.len() == 2,
            paths@[0]@ == "res/happy-tree.png"@,
            paths@[1]@ == "res/face.jpg"@,
    {
        ["res/happy-tree.png", "res/face.jpg"]
    }

    /// The colour that the textured effect clears to until the cursor
    /// moves: a dark blue.
    pub fn clear_color() -> (color: Color)
        ensures
            color == (Color {
                r: Ratio { num: 1, den: 10 },
                g: Ratio { num: 2, den: 10 },
                b: Ratio { num: 3, den: 10 },
                a: Ratio::whole(1),
            }),
    {
        Color {
            r: Ratio { num: 1, den: 10 },
            g: Ratio { num: 2, den: 10 },
            b: Ratio { num: 3, den: 10 },
            a: Ratio { num: 1, den: 1 },
        }
    }

    /// The scene of the two effects on a surface in a window of the given
    /// size. It starts with the physically based effect, a camera in its
    /// default pose for the surface, and no key down.
    pub fn new(
        sc_desc: SwapChainDescriptor,
        size: (u32, u32),
        simple: Simple,
        simple_state: SimpleState,
        pbr: Pbr,
        pbr_state: PbrState,
    ) -> (scene: Scene)
        ensures
            scene.sc_desc == sc_desc,
            scene.simple == simple,
            scene.simple_state == simple_state,
            scene.pbr == pbr,
            scene.pbr_state == pbr_state,
            is_default_camera(scene.camera, sc_desc.width, sc_desc.height),
            scene.camera_controller == (CameraController {
                speed: Ratio { num: 1, den: 5 },
                is_up_pressed: false,
                is_down_pressed: false,
                is_forward_pressed: false,
                is_backward_pressed: false,
                is_left_pressed: false,
                is_right_pressed: false,
            }),
            scene.size == size,
            scene.is_pbr,
    {
        Scene {
            sc_desc,
            simple,
            simple_state,
            pbr,
            pbr_state,
            camera: Camera::new(sc_desc.width, sc_desc.height),
            camera_controller: CameraController::new(Scene::camera_speed()),
            size,
            is_pbr: true,
        }
    }

    /// Takes the surface's new size: the depth texture is made anew for
    /// it, and the camera takes its aspect ratio. Nothing else changes.
    pub fn resize(&mut self, width: u32, height: u32)
        ensures
            is_resized(*old(self), *final(self), width, height),
    {
        self.size = (width, height);
        self.sc_desc.width = width;
        self.sc_desc.height = height;
        self.camera.aspect = (width, height);
        self.pbr_state.resize(&self.sc_desc);
    }

    /// Reacts to an event of the window as far as the scene itself is
    /// concerned. A key that flies the camera is noted. A move of the
    /// cursor tints the clear colour. While the textured effect is shown,
    /// a press of the space bar makes the next mesh current and a press of
    /// `T` the next texture; a press of `R` switches between the effects.
    /// Only the first two are consumed.
    pub fn input(&mut self, event: &WindowEvent) -> (reaction: Reaction)
        requires
            old(self).wf(),
        ensures
            final(self).wf(),
            reaction == (if flight_key(*event) is Some {
                Reaction::Flight
            } else if *event == WindowEvent::CursorMoved {
                Reaction::CursorTint
            } else {
                Reaction::Nothing
            }),
            is_input_step(*old(self), *final(self), *event),
    {
        if self.camera_controller.process_events(event) {
            return Reaction::Flight;
        }
        match event {
            WindowEvent::CursorMoved => Reaction::CursorTint,
            WindowEvent::KeyboardInput {
                input: KeyboardInput {
                    state: ElementState::Pressed,
                    virtual_keycode: Some(keycode),
                },
            } => {
                match keycode {
                    VirtualKeyCode::Space => {
                        if !self.is_pbr {
                            self.simple_state.inc_geometry_index();
                        }
                    },
                    VirtualKeyCode::T => {
                        if !self.is_pbr {
                            self.simple_state.inc_texture_index();
                        }
                    },
                    VirtualKeyCode::R => {
                        self.is_pbr = !self.is_pbr;
                    },
                    _ => {},
                }
                Reaction::Nothing
            },
            _ => Reaction::Nothing,
        }
    }

    /// Reacts to an event of the window. What the scene does not consume
    /// may resize the surface or end the application: a new size is taken
    /// over, and a request to close the window or a press of the escape
    /// key ends the application.
    pub fn window_event(&mut self, event: &WindowEvent) -> (reaction: Reaction)
        requires
            old(self).wf(),
        ensures
            final(self).wf(),
            reaction == reaction_to(*event),
            match reaction {
                Reaction::Resized { width, height } => is_resized(
                    *old(self),
                    *final(self),
                    width,
                    height,
                ),
                _ => is_input_step(*old(self), *final(self), *event),
            },
    {
        let reaction = self.input(event);
        if reaction.consumed() {
            return reaction;
        }
        match event {
            WindowEvent::Resized { width, height } => {
                self.resize(*width, *height);
                Reaction::Resized { width: *width, height: *height }
            },
            WindowEvent::ScaleFactorChanged { width, height } => {
                self.resize(*width, *height);
                Reaction::Resized { width: *width, height: *height }
            },
            WindowEvent::CloseRequested => Reaction::Exit,
            WindowEvent::KeyboardInput {
                input: KeyboardInput {
                    state: ElementState::Pressed,
                    virtual_keycode: Some(VirtualKeyCode::Escape),
                },
            } => Reaction::Exit,
            _ => Reaction::Nothing,
        }
    }

    /// What the caller computes for the next update: the eye takes the
    /// steps of the keys that are down, and the model turns on only while
    /// the textured effect is shown.
    pub fn plan_update(&self) -> (plan: UpdatePlan)
        ensures
            plan.steps@ == steps(self.camera_controller),
            plan.turns_model == !self.is_pbr,
    {
        UpdatePlan { steps: self.camera_controller.update_camera(), turns_model: !self.is_pbr }
    }

    /// Takes the camera's part of the camera block of the next frame, and
    /// the model matrix of the textured effect. The physically based
    /// effect takes the camera's part only and keeps the block until its
    /// frame is recorded; the textured effect takes all of it and uploads
    /// the block at once.
    pub fn update(&mut self, view_position: [u8; 16], view_proj: [u8; 64], model: [u8; 64]) -> (upload:
        Option<Submission>)
        ensures
            old(self).is_pbr ==> upload is None && final(self).pbr_state == (PbrState {
                mvp: MvpUniforms { view_position, view_proj, model: old(self).pbr_state.mvp.model },
                ..old(self).pbr_state
            }) && *final(self) == (Scene { pbr_state: final(self).pbr_state, ..*old(self) }),
            !old(self).is_pbr ==> (upload matches Some(update) && is_camera_update(
                update,
                &final(self).simple_state.uniforms,
            )) && final(self).simple_state == (SimpleState {
                uniforms: MvpUniforms { view_position, view_proj, model },
                ..old(self).simple_state
            }) && *final(self) == (Scene { simple_state: final(self).simple_state, ..*old(self) }),
    {
        if self.is_pbr {
            self.pbr_state.mvp.update_view_proj(view_position, view_proj);
            None
        } else {
            Some(self.simple_state.update_uniforms(view_position, view_proj, model))
        }
    }

    /// Records the frame of the effect that is shown, and says which
    /// effect's pipeline it is for.
    pub fn render(&self) -> (recorded: (Effect, Frame))
        requires
            self.wf(),
        ensures
            recorded.0 == (if self.is_pbr {
                Effect::Pbr
            } else {
                Effect::Simple
            }),
            self.is_pbr ==> is_frame_of(
                recorded.1,
                Some(self.pbr_state.mvp.bytes()),
                true,
                crate::render::draw_commands(
                    0,
                    0,
                    self.pbr_state.sphere.num_indices,
                    self.pbr_state.instances.0@.len() as u32,
                ),
            ),
            !self.is_pbr ==> is_frame_of(
                recorded.1,
                None,
                false,
                crate::render::draw_commands(
                    self.simple_state.texture_index,
                    self.simple_state.geometry_index,
                    self.simple_state.geometries@[self.simple_state.geometry_index as int].num_indices,
                    1,
                ),
            ),
    {
        if self.is_pbr {
            (Effect::Pbr, PbrRenderPass::new(&self.pbr_state).render())
        } else {
            (Effect::Simple, (SimpleRenderPass { state: &self.simple_state }).render())
        }
    }
}

/// The frame that stages `staged`, if it is some bytes, and whose pass
/// clears its targets and holds `commands`.
pub open spec fn is_frame_of(
    frame: Frame,
    staged: Option<Seq<u8>>,
    depth: bool,
    commands: Seq<crate::render::RenderCommand>,
) -> bool {
    &&& match (frame.staged, staged) {
        (Some(upload), Some(bytes)) => upload.staging.contents@ == bytes && upload.staging.usage
            == crate::gpu::BufferUsage::staging() && upload.copy == crate::render::whole_copy(
            bytes.len(),
        ),
        (None, None) => true,
        _ => false,
    }
    &&& frame.pass.color_attachment == crate::render::ColorAttachment::cleared()
    &&& frame.pass.depth_stencil_attachment == (if depth {
        Some(crate::render::DepthStencilAttachment::cleared())
    } else {
        None
    })
    &&& frame.pass.commands@ == commands
}

} // verus!
