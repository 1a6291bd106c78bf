use render_core::camera::Camera;
use render_core::camera::CameraController;
use render_core::camera::ElementState;
use render_core::camera::KeyboardInput;
use render_core::camera::Step;
use render_core::camera::VirtualKeyCode;
use render_core::camera::WindowEvent;
use render_core::gpu::TextureFormat;
use render_core::pipelines::pbr::Material;
use render_core::pipelines::pbr::Pbr;
use render_core::pipelines::pbr::PbrRenderPass;
use render_core::pipelines::pbr::PbrState;
use render_core::pipelines::pbr::PbrUploads;
use render_core::pipelines::simple::Simple;
use render_core::pipelines::simple::SimpleRenderPass;
use render_core::pipelines::simple::SimpleState;
use render_core::ratio::Ratio;
use render_core::render::Color;
use render_core::render::Render;
use render_core::render_types::MvpUniforms;
use render_core::scene::Effect;
use render_core::scene::Reaction;
use render_core::scene::Scene;
use render_core::texture::SwapChainDescriptor;
use render_core::texture::Texture;

const SPIRV: [u8; 4] = [0x03, 0x02, 0x23, 0x07];

fn ratio(num: i32, den: i32) -> Ratio {
    Ratio { num, den }
}

fn surface() -> SwapChainDescriptor {
    SwapChainDescriptor { format: TextureFormat::Bgra8UnormSrgb, width: 800, height: 600 }
}

fn block(seed: u8) -> MvpUniforms {
    MvpUniforms { view_position: [seed; 16], view_proj: [seed; 64], model: [seed; 64] }
}

fn scene() -> Scene {
    let sc_desc = surface();
    let simple = Simple::new(&sc_desc, &SPIRV, &SPIRV).unwrap();
    let mut simple_state = SimpleState::new(&simple, block(1));
    simple_state.add_texture(&simple, Texture::from_image(4, 4, false));
    simple_state.add_texture(&simple, Texture::from_image(2, 2, false));
    simple_state.add_geometry(vec![0; 100], 5, &[0, 1, 4, 1, 2, 4, 2, 3, 4]);
    simple_state.add_geometry(vec![0; 180], 9, &[0, 1, 2, 0, 2, 3]);
    let pbr = Pbr::new(&sc_desc, &SPIRV, &SPIRV).unwrap();
    let material = Material {
        albedo: Texture::from_image(1, 1, false),
        roughness: Texture::from_image(1, 1, false),
        ambient_occlusion: Texture::from_image(1, 1, false),
        normals: Texture::from_image(1, 1, true),
        metallic: Texture::from_image(1, 1, false),
    };
    let uploads = PbrUploads {
        lighting: vec![0; 144],
        transforms: vec![0; 3136],
        material_info: vec![0; 784],
        sphere_vertices: vec![0; 135200],
    };
    let pbr_state = PbrState::new(&sc_desc, &pbr, material, block(2), uploads).unwrap();
    Scene::new(sc_desc, (800, 600), simple, simple_state, pbr, pbr_state)
}

fn press(keycode: VirtualKeyCode) -> WindowEvent {
    WindowEvent::KeyboardInput {
        input: KeyboardInput { state: ElementState::Pressed, virtual_keycode: Some(keycode) },
    }
}

fn release(keycode: VirtualKeyCode) -> WindowEvent {
    WindowEvent::KeyboardInput {
        input: KeyboardInput { state: ElementState::Released, virtual_keycode: Some(keycode) },
    }
}

#[test]
fn scene_starts_with_the_physically_based_effect() {
    let scene = scene();
    assert!(scene.is_pbr);
    assert_eq!(scene.size, (800, 600));
    assert_eq!(scene.sc_desc, surface());
    assert_eq!(scene.camera, Camera::new(800, 600));
    assert_eq!(scene.camera_controller, CameraController::new(ratio(1, 5)));
    assert_eq!(scene.simple_state.geometry_index, 0);
    assert_eq!(scene.simple_state.texture_index, 0);
}

#[test]
fn scene_constants() {
    assert_eq!(Scene::texture_assets(), ["res/happy-tree.png", "res/face.jpg"]);
    assert_eq!(Scene::camera_speed(), ratio(1, 5));
    assert_eq!(Scene::model_speed(), ratio(1, 50));
    assert_eq!(
        Scene::clear_color(),
        Color { r: ratio(1, 10), g: ratio(2, 10), b: ratio(3, 10), a: ratio(1, 1) }
    );
    let as_f64 = |r: Ratio| r.num as f64 / r.den as f64;
    let color = Scene::clear_color();
    assert_eq!(
        (as_f64(color.r), as_f64(color.g), as_f64(color.b), as_f64(color.a)),
        (0.1, 0.2, 0.3, 1.0)
    );
    assert_eq!(Scene::model_speed().num as f32 / Scene::model_speed().den as f32, 0.02);
}

#[test]
fn flight_keys_are_consumed() {
    let mut scene = scene();
    assert_eq!(scene.input(&press(VirtualKeyCode::W)), Reaction::Flight);
    assert!(scene.camera_controller.is_forward_pressed);
    assert!(Reaction::Flight.consumed());
    assert_eq!(scene.input(&release(VirtualKeyCode::W)), Reaction::Flight);
    assert!(!scene.camera_controller.is_forward_pressed);
    assert_eq!(scene.window_event(&press(VirtualKeyCode::Left)), Reaction::Flight);
    assert!(scene.camera_controller.is_left_pressed);
}

#[test]
fn cursor_moves_are_consumed_as_tint() {
    let mut scene = scene();
    assert_eq!(scene.input(&WindowEvent::CursorMoved), Reaction::CursorTint);
    assert!(Reaction::CursorTint.consumed());
    assert_eq!(scene.window_event(&WindowEvent::CursorMoved), Reaction::CursorTint);
    assert!(scene.is_pbr);
}

#[test]
fn r_switches_between_the_effects() {
    let mut scene = scene();
    assert_eq!(scene.input(&press(VirtualKeyCode::R)), Reaction::Nothing);
    assert!(!Reaction::Nothing.consumed());
    assert!(!scene.is_pbr);
    assert_eq!(scene.input(&release(VirtualKeyCode::R)), Reaction::Nothing);
    assert!(!scene.is_pbr);
    assert_eq!(scene.input(&press(VirtualKeyCode::R)), Reaction::Nothing);
    assert!(scene.is_pbr);
}

#[test]
fn space_and_t_cycle_only_while_the_textured_effect_is_shown() {
    let mut scene = scene();
    scene.input(&press(VirtualKeyCode::Space));
    scene.input(&press(VirtualKeyCode::T));
    assert_eq!(scene.simple_state.geometry_index, 0);
    assert_eq!(scene.simple_state.texture_index, 0);
    scene.input(&press(VirtualKeyCode::R));
    assert_eq!(scene.input(&press(VirtualKeyCode::Space)), Reaction::Nothing);
    assert_eq!(scene.simple_state.geometry_index, 1);
    assert_eq!(scene.simple_state.texture_index, 0);
    assert_eq!(scene.input(&press(VirtualKeyCode::T)), Reaction::Nothing);
    assert_eq!(scene.simple_state.texture_index, 1);
    scene.input(&release(VirtualKeyCode::Space));
    scene.input(&release(VirtualKeyCode::T));
    assert_eq!(scene.simple_state.geometry_index, 1);
    assert_eq!(scene.simple_state.texture_index, 1);
    scene.input(&press(VirtualKeyCode::Space));
    scene.input(&press(VirtualKeyCode::T));
    assert_eq!(scene.simple_state.geometry_index, 0);
    assert_eq!(scene.simple_state.texture_index, 0);
}

#[test]
fn resize_rebuilds_the_depth_texture_and_the_aspect() {
    let mut scene = scene();
    assert_eq!(
        scene.window_event(&WindowEvent::Resized { width: 1024, height: 768 }),
        Reaction::Resized { width: 1024, height: 768 }
    );
    assert_eq!(scene.size, (1024, 768));
    assert_eq!(scene.sc_desc.width, 1024);
    assert_eq!(scene.sc_desc.height, 768);
    assert_eq!(scene.sc_desc.format, TextureFormat::Bgra8UnormSrgb);
    assert_eq!(scene.camera.aspect, (1024, 768));
    assert_eq!(scene.camera.eye, Camera::new(1, 1).eye);
    assert_eq!(scene.pbr_state.depth_texture.width, 1024);
    assert_eq!(scene.pbr_state.depth_texture.height, 768);
    assert_eq!(
        scene.window_event(&WindowEvent::ScaleFactorChanged { width: 10, height: 20 }),
        Reaction::Resized { width: 10, height: 20 }
    );
    assert_eq!(scene.pbr_state.depth_texture.width, 10);
    assert_eq!(scene.pbr_state.depth_texture.height, 20);
    assert!(!Reaction::Resized { width: 10, height: 20 }.consumed());
    scene.resize(3, 4);
    assert_eq!(scene.size, (3, 4));
    assert_eq!(scene.camera.aspect, (3, 4));
    assert_eq!(scene.pbr_state.depth_texture.width, 3);
}

#[test]
fn input_alone_does_not_resize() {
    let mut scene = scene();
    assert_eq!(scene.input(&WindowEvent::Resized { width: 1, height: 1 }), Reaction::Nothing);
    assert_eq!(scene.size, (800, 600));
    assert_eq!(scene.input(&WindowEvent::CloseRequested), Reaction::Nothing);
    assert_eq!(scene.input(&press(VirtualKeyCode::Escape)), Reaction::Nothing);
}

#[test]
fn close_and_escape_end_the_application() {
    let mut scene = scene();
    assert_eq!(scene.window_event(&WindowEvent::CloseRequested), Reaction::Exit);
    assert_eq!(scene.window_event(&press(VirtualKeyCode::Escape)), Reaction::Exit);
    assert_eq!(scene.window_event(&release(VirtualKeyCode::Escape)), Reaction::Nothing);
    assert_eq!(scene.window_event(&WindowEvent::Other), Reaction::Nothing);
    assert_eq!(scene.window_event(&press(VirtualKeyCode::Other)), Reaction::Nothing);
    assert!(!Reaction::Exit.consumed());
}

#[test]
fn window_events_still_reach_the_scene_keys() {
    let mut scene = scene();
    assert_eq!(scene.window_event(&press(VirtualKeyCode::R)), Reaction::Nothing);
    assert!(!scene.is_pbr);
    assert_eq!(scene.window_event(&press(VirtualKeyCode::Space)), Reaction::Nothing);
    assert_eq!(scene.simple_state.geometry_index, 1);
}

#[test]
fn plan_tells_steps_and_whether_the_model_turns() {
    let mut scene = scene();
    let plan = scene.plan_update();
    assert_eq!(plan.steps, Vec::<Step>::new());
    assert!(!plan.turns_model);
    scene.input(&press(VirtualKeyCode::D));
    scene.input(&press(VirtualKeyCode::S));
    scene.input(&press(VirtualKeyCode::R));
    let plan = scene.plan_update();
    assert_eq!(plan.steps, vec![Step::Backward, Step::Right]);
    assert!(plan.turns_model);
}

#[test]
fn update_keeps_the_block_for_the_frame_of_the_pbr_effect() {
    let mut scene = scene();
    assert_eq!(scene.update([50; 16], [51; 64], [52; 64]), None);
    let kept = MvpUniforms { view_position: [50; 16], view_proj: [51; 64], model: [2; 64] };
    assert_eq!(scene.pbr_state.mvp, kept);
    assert_eq!(scene.simple_state.uniforms, block(1));
    let (effect, frame) = scene.render();
    assert_eq!(effect, Effect::Pbr);
    assert_eq!(frame, PbrRenderPass::new(&scene.pbr_state).render());
    assert_eq!(frame.staged.unwrap().staging.contents, kept.to_vec());
}

#[test]
fn update_uploads_the_block_of_the_textured_effect_at_once() {
    let mut scene = scene();
    scene.input(&press(VirtualKeyCode::R));
    let update = scene.update([60; 16], [61; 64], [62; 64]).unwrap();
    assert_eq!(update.label, "update encoder");
    let taken = MvpUniforms { view_position: [60; 16], view_proj: [61; 64], model: [62; 64] };
    assert_eq!(update.staged.staging.contents, taken.to_vec());
    assert_eq!(scene.simple_state.uniforms, taken);
    assert_eq!(scene.pbr_state.mvp, block(2));
    scene.input(&press(VirtualKeyCode::Space));
    let (effect, frame) = scene.render();
    assert_eq!(effect, Effect::Simple);
    assert_eq!(frame, (SimpleRenderPass { state: &scene.simple_state }).render());
    assert_eq!(frame.staged, None);
}
