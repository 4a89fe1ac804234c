use pira_wgpu::pipelines::sky::face::{CubeFace, IVec3, Texel, FACE_COUNT};

fn faces() -> [CubeFace; 6] {
    [
        CubeFace::PositiveX,
        CubeFace::NegativeX,
        CubeFace::PositiveY,
        CubeFace::NegativeY,
        CubeFace::PositiveZ,
        CubeFace::NegativeZ,
    ]
}

fn dot(a: IVec3, b: IVec3) -> i64 {
    a.x * b.x + a.y * b.y + a.z * b.z
}

#[test]
fn face_ordering_positive_x_reads_face_zero_at_its_centre() {
    let hit = CubeFace::locate(IVec3::new(1, 0, 0), 8).unwrap();
    assert_eq!(hit.face, CubeFace::PositiveX);
    assert_eq!(hit.face.index(), 0);
    assert_eq!((hit.x, hit.y), (4, 4));
    let centre = CubeFace::PositiveX.texel_direction(4, 4, 8).unwrap();
    assert_eq!(centre, IVec3::new(8, 0, 0));
}

#[test]
fn face_indices_follow_layer_order() {
    assert_eq!(FACE_COUNT, 6);
    for (i, face) in faces().iter().enumerate() {
        assert_eq!(face.index(), i as u32);
        assert_eq!(CubeFace::from_index(i as u32), Some(*face));
    }
    assert_eq!(CubeFace::from_index(6), None);
    assert_eq!(CubeFace::from_index(u32::MAX), None);
}

#[test]
fn face_bases_are_the_fixed_table() {
    assert_eq!(CubeFace::PositiveX.forward(), IVec3::new(1, 0, 0));
    assert_eq!(CubeFace::PositiveX.up(), IVec3::new(0, 1, 0));
    assert_eq!(CubeFace::PositiveX.right(), IVec3::new(0, 0, -1));
    assert_eq!(CubeFace::NegativeX.forward(), IVec3::new(-1, 0, 0));
    assert_eq!(CubeFace::NegativeX.right(), IVec3::new(0, 0, 1));
    assert_eq!(CubeFace::PositiveY.forward(), IVec3::new(0, -1, 0));
    assert_eq!(CubeFace::PositiveY.up(), IVec3::new(0, 0, 1));
    assert_eq!(CubeFace::PositiveY.right(), IVec3::new(1, 0, 0));
    assert_eq!(CubeFace::NegativeY.forward(), IVec3::new(0, 1, 0));
    assert_eq!(CubeFace::NegativeY.up(), IVec3::new(0, 0, -1));
    assert_eq!(CubeFace::PositiveZ.forward(), IVec3::new(0, 0, 1));
    assert_eq!(CubeFace::PositiveZ.right(), IVec3::new(1, 0, 0));
    assert_eq!(CubeFace::NegativeZ.forward(), IVec3::new(0, 0, -1));
    assert_eq!(CubeFace::NegativeZ.right(), IVec3::new(-1, 0, 0));
}

#[test]
fn face_bases_are_orthonormal() {
    for face in faces() {
        let (f, u, r) = (face.forward(), face.up(), face.right());
        assert_eq!(dot(f, f), 1);
        assert_eq!(dot(u, u), 1);
        assert_eq!(dot(r, r), 1);
        assert_eq!(dot(f, u), 0);
        assert_eq!(dot(f, r), 0);
        assert_eq!(dot(u, r), 0);
        let cross = IVec3::new(
            u.y * f.z - u.z * f.y,
            u.z * f.x - u.x * f.z,
            u.x * f.y - u.y * f.x,
        );
        assert_eq!(r, cross);
    }
}

#[test]
fn texel_direction_follows_the_face_coordinates() {
    // forward * 8 + right * (2 * 1 - 8) + up * (2 * 6 - 8)
    assert_eq!(CubeFace::PositiveX.texel_direction(1, 6, 8), Some(IVec3::new(8, 4, 6)));
    assert_eq!(CubeFace::NegativeZ.texel_direction(0, 0, 4), Some(IVec3::new(4, -4, -4)));
    assert_eq!(CubeFace::PositiveY.texel_direction(3, 2, 4), Some(IVec3::new(2, -4, 0)));
    assert_eq!(CubeFace::PositiveZ.texel_direction(4, 0, 4), None);
    assert_eq!(CubeFace::PositiveZ.texel_direction(0, 4, 4), None);
    assert_eq!(CubeFace::PositiveZ.texel_direction(0, 0, 0), None);
}

#[test]
fn texel_direction_is_never_zero_and_stays_in_its_face() {
    for face in faces() {
        for size in [1u32, 2, 3, 8] {
            for x in 0..size {
                for y in 0..size {
                    let d = face.texel_direction(x, y, size).unwrap();
                    assert_ne!(d, IVec3::new(0, 0, 0));
                    assert!(face.contains(d));
                    assert_eq!(dot(face.forward(), d), size as i64);
                }
            }
        }
    }
}

#[test]
fn locate_inverts_texel_direction_off_the_first_row_and_column() {
    for face in faces() {
        for size in [2u32, 5, 8, 16] {
            for x in 1..size {
                for y in 1..size {
                    let d = face.texel_direction(x, y, size).unwrap();
                    assert_eq!(CubeFace::locate(d, size), Some(Texel { face, x, y }));
                }
            }
        }
    }
}

#[test]
fn locate_rejects_the_zero_vector_and_empty_faces() {
    assert_eq!(CubeFace::locate(IVec3::new(0, 0, 0), 8), None);
    assert_eq!(CubeFace::locate(IVec3::new(1, 0, 0), 0), None);
    assert_eq!(CubeFace::covering(IVec3::new(0, 0, 0)), None);
}

#[test]
fn locate_picks_the_dominant_axis() {
    assert_eq!(CubeFace::covering(IVec3::new(-5, 1, 2)), Some(CubeFace::NegativeX));
    assert_eq!(CubeFace::covering(IVec3::new(1, -7, 2)), Some(CubeFace::PositiveY));
    assert_eq!(CubeFace::covering(IVec3::new(1, 7, 2)), Some(CubeFace::NegativeY));
    assert_eq!(CubeFace::covering(IVec3::new(1, 2, 9)), Some(CubeFace::PositiveZ));
    assert_eq!(CubeFace::covering(IVec3::new(1, 2, -9)), Some(CubeFace::NegativeZ));
    // On a shared edge the face that comes first in layer order wins.
    assert_eq!(CubeFace::covering(IVec3::new(3, 3, 0)), Some(CubeFace::PositiveX));
    assert_eq!(CubeFace::covering(IVec3::new(0, 3, 3)), Some(CubeFace::NegativeY));
}

#[test]
fn locate_clamps_the_far_edge_to_the_last_texel() {
    // along == forward: the far edge of the face.
    let hit = CubeFace::locate(IVec3::new(4, 4, -4), 4).unwrap();
    assert_eq!(hit, Texel { face: CubeFace::PositiveX, x: 3, y: 3 });
    let hit = CubeFace::locate(IVec3::new(4, -4, 4), 4).unwrap();
    assert_eq!(hit, Texel { face: CubeFace::PositiveX, x: 0, y: 0 });
}

#[test]
fn locate_handles_the_largest_components() {
    let hit = CubeFace::locate(IVec3::new(i64::MIN, 0, 0), u32::MAX).unwrap();
    assert_eq!(hit.face, CubeFace::NegativeX);
    assert_eq!((hit.x, hit.y), (u32::MAX / 2, u32::MAX / 2));
    let hit = CubeFace::locate(IVec3::new(i64::MAX, i64::MAX, i64::MIN + 1), u32::MAX).unwrap();
    assert_eq!(hit, Texel { face: CubeFace::PositiveX, x: u32::MAX - 1, y: u32::MAX - 1 });
}
