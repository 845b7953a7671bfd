use ash::vk;
use b4d_core::mesh_data::index_size_for_code;
use b4d_core::mesh_data::mesh_layout;
use b4d_core::mesh_data::next_aligned;
use b4d_core::mesh_data::MeshData;
use b4d_core::mesh_data::MeshLayout;
use b4d_core::mesh_data::INDEX_TYPE_UINT16;
use b4d_core::mesh_data::INDEX_TYPE_UINT32;
use b4d_core::mesh_data::INDEX_TYPE_UINT8;

fn mesh<'a>(vertex_data: &'a [u8], index_data: &'a [u8], index_type: vk::IndexType) -> MeshData<'a> {
    MeshData {
        vertex_data,
        index_data,
        vertex_stride: 4,
        index_count: 10,
        index_type,
        primitive_topology: vk::PrimitiveTopology::TRIANGLE_LIST,
    }
}

#[test]
fn index_type_codes_are_those_of_ash() {
    assert_eq!(INDEX_TYPE_UINT16, vk::IndexType::UINT16.as_raw());
    assert_eq!(INDEX_TYPE_UINT32, vk::IndexType::UINT32.as_raw());
    assert_eq!(INDEX_TYPE_UINT8, vk::IndexType::UINT8_EXT.as_raw());
}

#[test]
fn index_size_for_each_code() {
    assert_eq!(index_size_for_code(1_000_265_000), Some(1));
    assert_eq!(index_size_for_code(0), Some(2));
    assert_eq!(index_size_for_code(1), Some(4));
}

#[test]
fn index_size_for_unknown_codes() {
    assert_eq!(index_size_for_code(2), None);
    assert_eq!(index_size_for_code(-1), None);
    assert_eq!(index_size_for_code(1_000_165_000), None);
    assert_eq!(index_size_for_code(i32::MAX), None);
    assert_eq!(index_size_for_code(i32::MIN), None);
}

#[test]
fn get_index_size_of_each_index_type() {
    assert_eq!(mesh(&[], &[], vk::IndexType::UINT8_EXT).get_index_size(), 1);
    assert_eq!(mesh(&[], &[], vk::IndexType::UINT16).get_index_size(), 2);
    assert_eq!(mesh(&[], &[], vk::IndexType::UINT32).get_index_size(), 4);
}

#[test]
fn checked_index_size_reads_the_index_type() {
    assert_eq!(mesh(&[], &[], vk::IndexType::UINT8_EXT).checked_index_size(), Some(1));
    assert_eq!(mesh(&[], &[], vk::IndexType::UINT16).checked_index_size(), Some(2));
    assert_eq!(mesh(&[], &[], vk::IndexType::UINT32).checked_index_size(), Some(4));
    assert_eq!(mesh(&[], &[], vk::IndexType::NONE_KHR).checked_index_size(), None);
    assert_eq!(mesh(&[], &[], vk::IndexType::from_raw(7)).checked_index_size(), None);
}

#[test]
fn next_aligned_keeps_aligned_values() {
    assert_eq!(next_aligned(0, 4), Some(0));
    assert_eq!(next_aligned(100, 4), Some(100));
    assert_eq!(next_aligned(8, 2), Some(8));
    assert_eq!(next_aligned(17, 1), Some(17));
}

#[test]
fn next_aligned_rounds_up() {
    assert_eq!(next_aligned(1, 4), Some(4));
    assert_eq!(next_aligned(101, 4), Some(104));
    assert_eq!(next_aligned(103, 4), Some(104));
    assert_eq!(next_aligned(7, 2), Some(8));
    assert_eq!(next_aligned(10, 16), Some(16));
    assert_eq!(next_aligned(17, 5), Some(20));
}

#[test]
fn next_aligned_rejects_zero_alignment() {
    assert_eq!(next_aligned(0, 0), None);
    assert_eq!(next_aligned(12, 0), None);
}

#[test]
fn next_aligned_at_the_end_of_the_range() {
    assert_eq!(next_aligned(u64::MAX, 4), None);
    assert_eq!(next_aligned(u64::MAX - 2, 4), None);
    assert_eq!(next_aligned(u64::MAX - 3, 4), Some(u64::MAX - 3));
    assert_eq!(next_aligned(u64::MAX, 1), Some(u64::MAX));
    assert_eq!(next_aligned(u64::MAX, u64::MAX), Some(u64::MAX));
    assert_eq!(next_aligned(1, u64::MAX), Some(u64::MAX));
}

#[test]
fn layout_of_aligned_vertex_data() {
    let vertices = [0u8; 100];
    let indices = [0u8; 40];
    let layout = mesh(&vertices, &indices, vk::IndexType::UINT32).layout();
    assert_eq!(
        layout,
        Some(MeshLayout { index_size: 4, index_offset: 100, required_size: 140, first_index: 25 })
    );
}

#[test]
fn layout_pads_unaligned_vertex_data() {
    let vertices = [0u8; 101];
    let indices = [0u8; 40];
    let layout = mesh(&vertices, &indices, vk::IndexType::UINT32).layout();
    assert_eq!(
        layout,
        Some(MeshLayout { index_size: 4, index_offset: 104, required_size: 144, first_index: 26 })
    );
    let layout = mesh(&vertices[..7], &indices[..6], vk::IndexType::UINT16).layout();
    assert_eq!(
        layout,
        Some(MeshLayout { index_size: 2, index_offset: 8, required_size: 14, first_index: 4 })
    );
    let layout = mesh(&vertices[..7], &indices[..3], vk::IndexType::UINT8_EXT).layout();
    assert_eq!(
        layout,
        Some(MeshLayout { index_size: 1, index_offset: 7, required_size: 10, first_index: 7 })
    );
}

#[test]
fn layout_of_empty_mesh() {
    let layout = mesh(&[], &[], vk::IndexType::UINT16).layout();
    assert_eq!(
        layout,
        Some(MeshLayout { index_size: 2, index_offset: 0, required_size: 0, first_index: 0 })
    );
}

#[test]
fn layout_needs_a_usable_index_type() {
    let vertices = [0u8; 12];
    let indices = [0u8; 6];
    assert_eq!(mesh(&vertices, &indices, vk::IndexType::NONE_KHR).layout(), None);
    assert_eq!(mesh(&vertices, &indices, vk::IndexType::from_raw(2)).layout(), None);
}

#[test]
fn first_index_times_index_size_is_the_index_offset() {
    let sizes: [u32; 3] = [1, 2, 4];
    for index_size in sizes {
        for vertex_len in 0u64..40 {
            let layout = mesh_layout(vertex_len, 12, index_size).unwrap();
            assert_eq!(layout.first_index as u64 * index_size as u64, layout.index_offset);
            assert_eq!(layout.index_offset % index_size as u64, 0);
            assert!(layout.index_offset >= vertex_len);
            assert!(layout.index_offset < vertex_len + index_size as u64);
            assert_eq!(layout.required_size, layout.index_offset + 12);
        }
    }
}

#[test]
fn mesh_layout_rejects_zero_index_size() {
    assert_eq!(mesh_layout(10, 10, 0), None);
}

#[test]
fn mesh_layout_rejects_a_first_index_beyond_u32() {
    // 2^34 bytes of vertices put the first 4 byte index at 2^32
    assert_eq!(mesh_layout(1 << 34, 40, 4), None);
    assert_eq!(
        mesh_layout((1 << 34) - 4, 40, 4),
        Some(MeshLayout {
            index_size: 4,
            index_offset: (1 << 34) - 4,
            required_size: (1 << 34) + 36,
            first_index: u32::MAX,
        })
    );
    assert_eq!(mesh_layout((1 << 34) - 3, 40, 4), None);
}

#[test]
fn mesh_layout_rejects_sizes_beyond_u64() {
    assert_eq!(mesh_layout(u64::MAX, 0, 4), None);
    assert_eq!(mesh_layout(100, u64::MAX - 99, 1), None);
    assert_eq!(
        mesh_layout(100, u64::MAX - 100, 1),
        Some(MeshLayout { index_size: 1, index_offset: 100, required_size: u64::MAX, first_index: 100 })
    );
}
