use std::collections::HashSet;
use voxeller::mesh::{build_terrain_mesh, face_def, TerrainMesh};
use voxeller::voxel::{rgb, Rgb, Voxel};

fn voxels(positions: &[[i32; 3]]) -> Vec<Voxel<Rgb>> {
    positions
        .iter()
        .enumerate()
        .map(|(i, p)| Voxel { position: *p, color: rgb(i as u8, 0, 100) })
        .collect()
}

fn place(mesh: &TerrainMesh<Rgb>, i: usize) -> [i32; 3] {
    let v = mesh.vertices[i];
    [v.base[0] + v.corner[0], v.base[1] + v.corner[1], v.base[2] + v.corner[2]]
}

#[test]
fn an_empty_list_has_an_empty_mesh() {
    let mesh = build_terrain_mesh::<Rgb>(&[]);
    assert!(mesh.vertices.is_empty() && mesh.indices.is_empty() && mesh.face_data.is_empty());
}

#[test]
fn a_lone_voxel_shows_six_faces() {
    let mesh = build_terrain_mesh(&voxels(&[[3, -2, 7]]));
    assert_eq!(mesh.vertices.len(), 24);
    assert_eq!(mesh.indices.len(), 36);
    let normals: Vec<u32> = mesh.face_data.iter().map(|f| f.normal_idx).collect();
    assert_eq!(normals, vec![0, 1, 2, 3, 4, 5]);
    assert_eq!(&mesh.indices[..12], &[0, 1, 2, 0, 2, 3, 4, 5, 6, 4, 6, 7]);
    assert_eq!(place(&mesh, 0), [3, -2, 7]);
    assert_eq!(place(&mesh, 1), [4, -2, 7]);
    assert_eq!(place(&mesh, 2), [4, -1, 7]);
    assert_eq!(place(&mesh, 3), [3, -1, 7]);
    assert_eq!(place(&mesh, 23), [3, -1, 8]);
}

#[test]
fn touching_voxels_hide_both_sides() {
    let mesh = build_terrain_mesh(&voxels(&[[0, 0, 0], [1, 0, 0]]));
    assert_eq!(mesh.face_data.len(), 10);
    let first: Vec<u32> = mesh.face_data[..5].iter().map(|f| f.normal_idx).collect();
    let second: Vec<u32> = mesh.face_data[5..].iter().map(|f| f.normal_idx).collect();
    assert_eq!(first, vec![0, 1, 2, 4, 5]);
    assert_eq!(second, vec![0, 1, 3, 4, 5]);
    assert_eq!(mesh.face_data[4].color, rgb(0, 0, 100));
    assert_eq!(mesh.face_data[5].color, rgb(1, 0, 100));
}

#[test]
fn diagonal_neighbours_hide_nothing() {
    let mesh = build_terrain_mesh(&voxels(&[[0, 0, 0], [1, 1, 0], [0, 1, 1]]));
    assert_eq!(mesh.face_data.len(), 18);
}

#[test]
fn a_voxel_in_the_middle_is_invisible() {
    let mut positions = Vec::new();
    for x in 0..3 {
        for y in 0..3 {
            for z in 0..3 {
                positions.push([x, y, z]);
            }
        }
    }
    let mesh = build_terrain_mesh(&voxels(&positions));
    assert_eq!(mesh.face_data.len(), 54);
    assert!(mesh.vertices.iter().all(|v| v.base != [1, 1, 1]));
}

#[test]
fn a_voxel_listed_twice_is_drawn_twice() {
    let mesh = build_terrain_mesh(&voxels(&[[0, 0, 0], [0, 0, 0]]));
    assert_eq!(mesh.face_data.len(), 12);
}

#[test]
fn distant_voxels_do_not_meet() {
    let far = i32::MAX - 1;
    let near = i32::MIN + 1;
    let mesh = build_terrain_mesh(&voxels(&[[far, far, far], [near, near, near], [0, 0, 0]]));
    assert_eq!(mesh.face_data.len(), 18);
    assert_eq!(mesh.vertices[4].base, [far, far, far]);
}

#[test]
fn triangles_find_their_face_data() {
    let positions: Vec<[i32; 3]> = (0..40).map(|i| [i % 5, i / 10, (i * 7) % 3]).collect();
    let list = voxels(&positions);
    let occupied: HashSet<[i32; 3]> = positions.iter().copied().collect();
    let mesh = build_terrain_mesh(&list);
    assert_eq!(mesh.vertices.len(), 4 * mesh.face_data.len());
    assert_eq!(mesh.indices.len(), 6 * mesh.face_data.len());
    for (triangle, indices) in mesh.indices.chunks(3).enumerate() {
        let data = mesh.face_data[triangle / 2];
        let normal = face_def(data.normal_idx as usize).offset;
        let p: Vec<[i32; 3]> = indices.iter().map(|i| place(&mesh, *i as usize)).collect();
        let v = mesh.vertices[indices[0] as usize];
        for i in indices {
            assert_eq!(*i as usize / 4, triangle / 2);
            assert_eq!(mesh.vertices[*i as usize].base, v.base);
        }
        // The face borders on air, and its winding is the same everywhere.
        let beyond = [v.base[0] + normal[0], v.base[1] + normal[1], v.base[2] + normal[2]];
        assert!(!occupied.contains(&beyond));
        let a = [p[1][0] - p[0][0], p[1][1] - p[0][1], p[1][2] - p[0][2]];
        let b = [p[2][0] - p[0][0], p[2][1] - p[0][1], p[2][2] - p[0][2]];
        let cross = [
            a[1] * b[2] - a[2] * b[1],
            a[2] * b[0] - a[0] * b[2],
            a[0] * b[1] - a[1] * b[0],
        ];
        assert_eq!(cross, [-normal[0], -normal[1], -normal[2]]);
    }
}

#[test]
fn colours_of_any_kind_are_carried_along() {
    let list = [Voxel { position: [0, 0, 0], color: [0.25f32, 0.5, 0.75] }];
    let mesh = build_terrain_mesh(&list);
    assert!(mesh.face_data.iter().all(|f| f.color == [0.25, 0.5, 0.75]));
}

#[test]
fn lower_corner_of_a_voxel() {
    assert_eq!(voxels(&[[4, 5, -6]])[0].aabb_min(), [4, 5, -6]);
}
