use miye::layout::{vertex_layout, VertexAttribute, VertexFormat};
use miye::render::{frame_draws, surface_recovery, DrawCall, FrameError, Recovery, SurfaceFailure};
use miye::scene::Scene;
use miye::{Instance, Material, Mesh, Model};

fn mesh(index_count: u32, material: usize) -> Mesh<u32> {
    Mesh { name: "m".to_string(), vertex_buffer: 0, index_buffer: 0, num_elements: index_count, material }
}

fn material(name: &str) -> Material<(), ()> {
    Material { name: name.to_string(), texture: (), bind_group: () }
}

fn instance(meshes: Vec<Mesh<u32>>, materials: usize) -> Instance<u32, (), ()> {
    Instance::new(Model::new(meshes, (0..materials).map(|_| material("mat")).collect()))
}

#[test]
fn instances_are_drawn_in_insertion_order() {
    let mut scene = Scene::new();
    assert!(scene.is_empty());
    scene.add_instance(instance(vec![mesh(36, 0)], 1));
    scene.add_instance(instance(vec![mesh(6, 0), mesh(12, 1)], 2));
    scene.add_instance(instance(vec![mesh(3, 0)], 1));
    assert_eq!(scene.len(), 3);
    let calls = scene.draw_calls().unwrap();
    assert_eq!(
        calls,
        vec![
            DrawCall { instance: 0, mesh: 0, material: 0, index_count: 36 },
            DrawCall { instance: 1, mesh: 0, material: 0, index_count: 6 },
            DrawCall { instance: 1, mesh: 1, material: 1, index_count: 12 },
            DrawCall { instance: 2, mesh: 0, material: 0, index_count: 3 },
        ]
    );
}

#[test]
fn two_instances_of_one_mesh_draw_independently() {
    let mut scene = Scene::new();
    scene.add_instance(instance(vec![mesh(36, 0)], 1));
    scene.add_instance(instance(vec![mesh(36, 0)], 1));
    let calls = scene.draw_calls().unwrap();
    assert_eq!(calls.len(), 2);
    assert_eq!(calls[0].instance, 0);
    assert_eq!(calls[1].instance, 1);
    assert_eq!(calls[0].index_count, calls[1].index_count);
}

#[test]
fn out_of_range_material_draws_with_material_zero() {
    let instances = vec![instance(vec![mesh(3, 5)], 2)];
    let calls = frame_draws(&instances).unwrap();
    assert_eq!(calls, vec![DrawCall { instance: 0, mesh: 0, material: 0, index_count: 3 }]);
}

#[test]
fn model_without_materials_is_reported() {
    let instances = vec![
        instance(vec![mesh(3, 0)], 1),
        instance(vec![], 0),
        instance(vec![mesh(3, 0)], 0),
    ];
    assert_eq!(frame_draws(&instances).err(), Some(FrameError::NoMaterial { instance: 2 }));
}

#[test]
fn empty_scene_draws_nothing() {
    let scene: Scene<u32, (), ()> = Scene::new();
    assert!(scene.draw_calls().unwrap().is_empty());
}

#[test]
fn vertex_layout_is_position_then_texcoords() {
    let l = vertex_layout();
    assert_eq!(l.array_stride, 20);
    assert_eq!(
        l.attributes,
        vec![
            VertexAttribute { offset: 0, shader_location: 0, format: VertexFormat::Float32x3 },
            VertexAttribute { offset: 12, shader_location: 1, format: VertexFormat::Float32x2 },
        ]
    );
}

#[test]
fn transient_surface_failures_are_retried_once() {
    for f in [SurfaceFailure::Timeout, SurfaceFailure::Outdated, SurfaceFailure::Lost] {
        assert_eq!(surface_recovery(f, false), Recovery::Reconfigure);
        assert_eq!(surface_recovery(f, true), Recovery::Fail);
    }
    assert_eq!(surface_recovery(SurfaceFailure::OutOfMemory, false), Recovery::Fail);
    assert_eq!(surface_recovery(SurfaceFailure::OutOfMemory, true), Recovery::Fail);
}
