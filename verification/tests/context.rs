use vkrender::common::instance::InstanceRegistry;
use vkrender::common::mesh::MeshRegistry;
use vkrender::common::render_batch::RenderBatch;
use vkrender::assets::loaders::common::MeshLoadInfo;
use vkrender::context::{
    choose_physical_device, draw_calls, event_response, frame_step, AcquireOutcome, DeviceCandidate,
    DeviceKind, EventResponse, FrameStep, QueueFamilySupport, WindowEventKind,
};

fn fam(graphics: bool, surface: bool) -> QueueFamilySupport {
    QueueFamilySupport { graphics, surface }
}

fn dev(ext: bool, fams: Vec<QueueFamilySupport>, kind: DeviceKind) -> DeviceCandidate {
    DeviceCandidate { supports_extensions: ext, queue_families: fams, kind }
}

#[test]
fn discrete_gpus_are_preferred() {
    let devs = vec![
        dev(true, vec![fam(true, true)], DeviceKind::Cpu),
        dev(true, vec![fam(false, true), fam(true, false), fam(true, true)], DeviceKind::DiscreteGpu),
        dev(true, vec![fam(true, true)], DeviceKind::DiscreteGpu),
    ];
    assert_eq!(choose_physical_device(&devs), Some((1, 2)));
}

#[test]
fn ineligible_devices_are_skipped() {
    let devs = vec![
        dev(false, vec![fam(true, true)], DeviceKind::DiscreteGpu),
        dev(true, vec![fam(true, false)], DeviceKind::DiscreteGpu),
        dev(true, vec![fam(true, true)], DeviceKind::Other),
        dev(true, vec![fam(true, true)], DeviceKind::Cpu),
    ];
    assert_eq!(choose_physical_device(&devs), Some((3, 0)));
    assert_eq!(choose_physical_device(&devs[..2].iter().map(|d| dev(d.supports_extensions, d.queue_families.clone(), d.kind)).collect()), None);
    assert_eq!(choose_physical_device(&vec![]), None);
}

#[test]
fn draw_calls_use_each_meshs_location() {
    let mut meshes = MeshRegistry::new();
    let info = |n: usize, idx: Vec<u32>| MeshLoadInfo {
        vertices: vec![[0; 3]; n], normals: vec![[0; 3]; n], indices: idx, uvs: vec![[0; 3]; n], submeshes: vec![],
    };
    meshes.register_mesh("a".to_string(), info(3, vec![0, 1, 2]));
    meshes.register_mesh("b".to_string(), info(2, vec![0, 1]));
    let batches = vec![
        RenderBatch { mesh_id: "b".to_string(), instances: vec![], instance_count: 4 },
        RenderBatch { mesh_id: "a".to_string(), instances: vec![], instance_count: 1 },
    ];
    let calls = draw_calls(&meshes, &batches).unwrap();
    assert_eq!(calls.len(), 2);
    assert_eq!((calls[0].index_count, calls[0].instance_count, calls[0].first_index, calls[0].vertex_offset, calls[0].first_instance), (2, 4, 3, 3, 0));
    assert_eq!((calls[1].index_count, calls[1].instance_count, calls[1].first_index, calls[1].vertex_offset), (3, 1, 0, 0));
    let missing = vec![RenderBatch { mesh_id: "c".to_string(), instances: vec![], instance_count: 1 }];
    assert!(draw_calls(&meshes, &missing).is_none());
    let all = RenderBatch::build_batches(&meshes, &InstanceRegistry::from_scene(&vkrender::common::scene::Scene {
        name: String::new(),
        mesh_paths: vkrender::common::string_map::StringMap::new(),
        instances: vkrender::common::string_map::StringMap::new(),
    }));
    assert_eq!(draw_calls(&meshes, &all).unwrap().len(), 2);
}

#[test]
fn stale_swapchains_are_recreated_and_the_frame_skipped() {
    assert_eq!(frame_step(AcquireOutcome::OutOfDate), FrameStep::RecreateAndSkip { resized: true });
    assert_eq!(frame_step(AcquireOutcome::Acquired { suboptimal: true }), FrameStep::RecreateAndSkip { resized: false });
    assert_eq!(frame_step(AcquireOutcome::Acquired { suboptimal: false }), FrameStep::Draw);
    assert_eq!(frame_step(AcquireOutcome::Failed), FrameStep::Abort);
}

#[test]
fn window_events_are_answered() {
    assert_eq!(event_response(WindowEventKind::CloseRequested, false), EventResponse::Exit);
    assert_eq!(event_response(WindowEventKind::Resized, true), EventResponse::RecreateSwapchain);
    assert_eq!(event_response(WindowEventKind::Resized, false), EventResponse::Ignore);
    assert_eq!(event_response(WindowEventKind::RedrawRequested, true), EventResponse::Redraw);
    assert_eq!(event_response(WindowEventKind::Other, true), EventResponse::Ignore);
}
