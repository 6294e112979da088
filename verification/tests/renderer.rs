use vulkan_renderer::device::{VCommandPools, VDevice, VQueues};
use vulkan_renderer::framebuffer::{
    framebuffer_create_infos, VFramebufferCreateInfo, VFramebuffers, VPhysicalSize,
};
use vulkan_renderer::mesh::{Mesh, VPrimitive, Vertex};
use vulkan_renderer::queue_family::{VQueueFamilyIndices, VQueueType};

fn indices(graphics: u32, compute: u32, present: u32) -> VQueueFamilyIndices {
    VQueueFamilyIndices {
        graphics,
        compute,
        present,
    }
}

#[test]
fn unique_indices_all_shared() {
    let r = indices(0, 0, 0).unique_indices();
    assert_eq!(r, vec![0]);
}

#[test]
fn unique_indices_all_distinct() {
    let r = indices(1, 0, 2).unique_indices();
    assert_eq!(r.len(), 3);
    assert!(r.contains(&0));
    assert!(r.contains(&1));
    assert!(r.contains(&2));
}

#[test]
fn unique_indices_present_shares_graphics() {
    let r = indices(1, 0, 1).unique_indices();
    assert_eq!(r.len(), 2);
    assert!(r.contains(&0));
    assert!(r.contains(&1));
}

#[test]
fn index_of_each_class() {
    let idx = indices(3, 5, 7);
    assert_eq!(idx.index_of(VQueueType::Graphics), 3);
    assert_eq!(idx.index_of(VQueueType::Compute), 5);
    assert_eq!(idx.index_of(VQueueType::Present), 7);
}

#[test]
fn queue_create_infos_distinct_families() {
    let r = VDevice::device_queue_create_infos(indices(1, 0, 2));
    assert_eq!(r.len(), 3);
    for info in &r {
        assert_eq!(info.queue_count, 1);
    }
    let fams: Vec<u32> = r.iter().map(|i| i.queue_family_index).collect();
    assert!(fams.contains(&0));
    assert!(fams.contains(&1));
    assert!(fams.contains(&2));
}

#[test]
fn queue_create_infos_one_family() {
    let r = VDevice::device_queue_create_infos(indices(4, 4, 4));
    assert_eq!(r.len(), 1);
    assert_eq!(r[0].queue_family_index, 4);
    assert_eq!(r[0].queue_count, 1);
}

#[test]
fn device_returns_stored_handles() {
    let queues = VQueues {
        graphics: 11,
        compute: 22,
        present: 33,
    };
    let pools = VCommandPools {
        graphics: 44,
        compute: 55,
        present: 66,
    };
    let device = VDevice::new(queues, pools);
    assert_eq!(device.get_queue(VQueueType::Graphics), 11);
    assert_eq!(device.get_queue(VQueueType::Compute), 22);
    assert_eq!(device.get_queue(VQueueType::Present), 33);
    assert_eq!(device.get_command_pool(VQueueType::Graphics), 44);
    assert_eq!(device.get_command_pool(VQueueType::Compute), 55);
    assert_eq!(device.get_command_pool(VQueueType::Present), 66);
}

#[test]
fn framebuffer_create_info_shape() {
    let dims = VPhysicalSize {
        width: 800,
        height: 600,
    };
    let info = VFramebufferCreateInfo::new(10, 20, 30, dims);
    assert_eq!(info.attachments, vec![10, 20]);
    assert_eq!(info.render_pass, 30);
    assert_eq!(info.width, 800);
    assert_eq!(info.height, 600);
    assert_eq!(info.layers, 1);
}

#[test]
fn framebuffer_create_infos_one_per_image_view() {
    let dims = VPhysicalSize {
        width: 640,
        height: 480,
    };
    let views = vec![100, 200, 300];
    let infos = framebuffer_create_infos(&views, 9, 7, dims);
    assert_eq!(infos.len(), 3);
    for (i, info) in infos.iter().enumerate() {
        assert_eq!(info.attachments, vec![views[i], 9]);
        assert_eq!(info.render_pass, 7);
        assert_eq!(info.width, 640);
        assert_eq!(info.height, 480);
        assert_eq!(info.layers, 1);
    }
}

#[test]
fn framebuffers_get_in_and_out_of_range() {
    let fbs = VFramebuffers::new(vec![5, 6, 7]);
    assert_eq!(fbs.len(), 3);
    assert_eq!(fbs.get(0), Some(5));
    assert_eq!(fbs.get(2), Some(7));
    assert_eq!(fbs.get(3), None);
    assert_eq!(fbs.get(100), None);
}

#[test]
fn mesh_stores_vertices_and_indices() {
    let v = vec![Vertex::new([1, 2, 3], [4, 5, 6], [7, 8])];
    let i = vec![0, 0, 0];
    let mesh = Mesh::new(v.clone(), i.clone());
    assert_eq!(mesh.vertices(), &v);
    assert_eq!(mesh.indices(), &i);
}

#[test]
fn from_primitives_zips_attribute_streams() {
    let prim = VPrimitive {
        positions: Some(vec![[1, 2, 3], [4, 5, 6]]),
        normals: Some(vec![[7, 8, 9], [10, 11, 12]]),
        uvs: Some(vec![[13, 14], [15, 16]]),
        indices: Some(vec![0, 1, 0]),
    };
    let mesh = Mesh::from_primitives(vec![prim]);
    assert_eq!(
        mesh.vertices(),
        &vec![
            Vertex::new([1, 2, 3], [7, 8, 9], [13, 14]),
            Vertex::new([4, 5, 6], [10, 11, 12], [15, 16]),
        ]
    );
    assert_eq!(mesh.indices(), &vec![0, 1, 0]);
}

#[test]
fn from_primitives_missing_stream_gives_no_vertices() {
    let prim = VPrimitive {
        positions: Some(vec![[1, 2, 3]]),
        normals: None,
        uvs: Some(vec![[4, 5]]),
        indices: Some(vec![2, 1]),
    };
    let mesh = Mesh::from_primitives(vec![prim]);
    assert!(mesh.vertices().is_empty());
    assert_eq!(mesh.indices(), &vec![2, 1]);
}

#[test]
fn from_primitives_stops_at_shortest_stream() {
    let prim = VPrimitive {
        positions: Some(vec![[1, 1, 1], [2, 2, 2], [3, 3, 3]]),
        normals: Some(vec![[4, 4, 4], [5, 5, 5], [6, 6, 6]]),
        uvs: Some(vec![[9, 9]]),
        indices: None,
    };
    let mesh = Mesh::from_primitives(vec![prim]);
    assert_eq!(mesh.vertices(), &vec![Vertex::new([1, 1, 1], [4, 4, 4], [9, 9])]);
    assert!(mesh.indices().is_empty());
}

#[test]
fn from_primitives_concatenates_contributions() {
    let a = VPrimitive {
        positions: Some(vec![[1, 0, 0]]),
        normals: Some(vec![[0, 1, 0]]),
        uvs: Some(vec![[0, 0]]),
        indices: Some(vec![0]),
    };
    let b = VPrimitive {
        positions: Some(vec![[2, 0, 0]]),
        normals: Some(vec![[0, 2, 0]]),
        uvs: Some(vec![[1, 1]]),
        indices: Some(vec![1, 2]),
    };
    let mesh = Mesh::from_primitives(vec![a, b]);
    assert_eq!(
        mesh.vertices(),
        &vec![
            Vertex::new([1, 0, 0], [0, 1, 0], [0, 0]),
            Vertex::new([2, 0, 0], [0, 2, 0], [1, 1]),
        ]
    );
    assert_eq!(mesh.indices(), &vec![0, 1, 2]);
}

#[test]
fn from_primitives_empty_input_gives_empty_mesh() {
    let mesh = Mesh::from_primitives(Vec::new());
    assert!(mesh.vertices().is_empty());
    assert!(mesh.indices().is_empty());
}

#[test]
fn vertex_scalars_round_trip_float_bits() {
    let position = [1.0f32.to_bits(), 2.5f32.to_bits(), (-3.0f32).to_bits()];
    let normal = [0.0f32.to_bits(), 1.0f32.to_bits(), 0.0f32.to_bits()];
    let uv = [0.25f32.to_bits(), 0.75f32.to_bits()];
    let v = Vertex::new(position, normal, uv);
    assert_eq!(f32::from_bits(v.position[1]), 2.5);
    assert_eq!(f32::from_bits(v.normal[1]), 1.0);
    assert_eq!(f32::from_bits(v.uv[0]), 0.25);
}
