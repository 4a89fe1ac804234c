use pira_wgpu::helpers::geometry::sphere_indices;

/// The walk over the quads, ring by ring and segment by segment, and
/// then the reversal.
fn walked_and_reversed(rings: u32, segments: u32) -> Vec<u16> {
    let mut indices: Vec<u16> = Vec::new();
    for r in 0..rings - 1 {
        for s in 0..segments - 1 {
            indices.push((r * segments + (s + 1)) as u16);
            indices.push((r * segments + s) as u16);
            indices.push(((r + 1) * segments + (s + 1)) as u16);
            indices.push(((r + 1) * segments + s) as u16);
            indices.push(((r + 1) * segments + (s + 1)) as u16);
            indices.push((r * segments + s) as u16);
        }
    }
    indices.reverse();
    indices
}

#[test]
fn sphere_indices_of_the_smallest_sphere() {
    // One quad between two rings of two vertices.
    assert_eq!(sphere_indices(2, 2), Some(vec![0, 3, 2, 3, 0, 1]));
    assert_eq!(sphere_indices(1, 1), Some(Vec::new()));
    assert_eq!(sphere_indices(1, 9), Some(Vec::new()));
    assert_eq!(sphere_indices(9, 1), Some(Vec::new()));
}

#[test]
fn sphere_indices_walk_the_quads_in_reverse() {
    for (rings, segments) in [(2u32, 3u32), (3, 2), (3, 3), (16, 16), (7, 31), (40, 2)] {
        let indices = sphere_indices(rings, segments).unwrap();
        assert_eq!(indices.len() as u32, 6 * (rings - 1) * (segments - 1));
        assert_eq!(indices, walked_and_reversed(rings, segments));
        for index in indices {
            assert!((index as u32) < rings * segments);
        }
    }
}

#[test]
fn sphere_indices_are_cut_to_16_bits() {
    let indices = sphere_indices(300, 300).unwrap();
    assert_eq!(indices, walked_and_reversed(300, 300));
    // The last vertex is number 89999, which is 24463 in 16 bits.
    assert_eq!(indices[1], (89_999u32 % 65_536) as u16);
    assert_eq!(indices[1], 24_463);
}

#[test]
fn sphere_indices_reject_missing_rings_and_too_many_vertices() {
    assert_eq!(sphere_indices(0, 8), None);
    assert_eq!(sphere_indices(8, 0), None);
    assert_eq!(sphere_indices(0, 0), None);
    assert_eq!(sphere_indices(65_536, 65_536), None);
    assert_eq!(sphere_indices(u32::MAX, 2), None);
    assert_eq!(sphere_indices(u32::MAX, 1), Some(Vec::new()));
}
