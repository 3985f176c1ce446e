use std::collections::HashMap;
use voxeller::noise::{domain_offsets, hash, Sample};
use voxeller::terrain::{generate_terrain, ColumnSamples, LAYERS, TREE_THRESHOLD, WORLD};
use voxeller::voxel::{rgb, Rgb};

fn sample(value: f32) -> Sample {
    Sample::from_bits(value.to_bits()).unwrap()
}

/// The numbers behind the samples of one column.
struct Numbers {
    raw_height: i32,
    grass: f32,
    dirt: f32,
    stone: Vec<f32>,
    tree: f32,
    trunk: f32,
    leaf: f32,
}

fn column(numbers: &Numbers) -> ColumnSamples {
    ColumnSamples {
        raw_height: numbers.raw_height,
        grass: sample(numbers.grass),
        dirt: sample(numbers.dirt),
        stone: numbers.stone.iter().map(|v| sample(*v)).collect(),
        tree: sample(numbers.tree),
        trunk: sample(numbers.trunk),
        leaf: sample(numbers.leaf),
    }
}

fn plain(raw_height: i32) -> Numbers {
    Numbers {
        raw_height,
        grass: 0.2,
        dirt: 0.2,
        stone: vec![0.1; 19],
        tree: 0.0,
        trunk: 0.0,
        leaf: 0.0,
    }
}

fn world(numbers: &[Numbers]) -> HashMap<[i32; 3], Rgb> {
    let columns: Vec<ColumnSamples> = numbers.iter().map(column).collect();
    let voxels = generate_terrain(&columns);
    let mut cells = HashMap::new();
    for voxel in &voxels {
        assert!(cells.insert(voxel.position, voxel.color).is_none());
    }
    cells
}

/// The same world, painted cell by cell with floating-point comparisons.
fn painted(numbers: &[Numbers]) -> HashMap<[i32; 3], Rgb> {
    let mut grid: HashMap<[i32; 3], Rgb> = HashMap::new();
    for x in 0..WORLD {
        for z in 0..WORLD {
            let c = &numbers[(x * WORLD + z) as usize];
            let h = c.raw_height.clamp(2, 18);
            for y in 0..=h {
                let sv = c.stone[y as usize];
                let color = if y == h {
                    if h >= 15 {
                        if c.grass > 0.5 { rgb(52, 47, 38) } else { rgb(58, 50, 40) }
                    } else if h >= 10 {
                        if c.grass > 0.5 { rgb(35, 60, 28) } else { rgb(42, 58, 33) }
                    } else if c.grass > 0.5 {
                        rgb(30, 65, 24)
                    } else {
                        rgb(38, 70, 28)
                    }
                } else if y >= h - 2 {
                    if c.dirt > 0.5 { rgb(58, 42, 28) } else { rgb(50, 36, 22) }
                } else if sv > 0.6 {
                    rgb(64, 50, 36)
                } else if sv > 0.3 {
                    rgb(56, 43, 30)
                } else {
                    rgb(46, 36, 24)
                };
                grid.insert([x, y, z], color);
            }
            if (5..=13).contains(&h) && c.tree > 0.82 {
                let trunk_h = 2 + (c.trunk * 2.0) as i32;
                for ty in 1..=trunk_h {
                    grid.insert([x, h + ty, z], rgb(36, 25, 14));
                }
                let leaf = if c.leaf < 0.25 {
                    rgb(86, 22, 14)
                } else if c.leaf < 0.50 {
                    rgb(88, 54, 10)
                } else if c.leaf < 0.75 {
                    rgb(86, 73, 14)
                } else {
                    rgb(26, 64, 20)
                };
                let top = h + trunk_h;
                for (dy, r) in [(0i32, 2i32), (1, 2), (2, 1)] {
                    for dx in -r..=r {
                        for dz in -r..=r {
                            let (lx, lz) = (x + dx, z + dz);
                            if (0..WORLD).contains(&lx) && (0..WORLD).contains(&lz) {
                                grid.insert([lx, top + dy, lz], leaf);
                            }
                        }
                    }
                }
            }
        }
    }
    grid
}

fn random_numbers(seed: i32) -> Vec<Numbers> {
    let mut counter = 0;
    let mut draw = || {
        counter += 1;
        hash(counter, seed) as f32 / u32::MAX as f32
    };
    let mut numbers = Vec::new();
    for _ in 0..WORLD * WORLD {
        numbers.push(Numbers {
            raw_height: (draw() * 26.0) as i32 - 3,
            grass: draw(),
            dirt: draw(),
            stone: (0..19).map(|_| draw()).collect(),
            tree: draw(),
            trunk: draw(),
            leaf: draw(),
        });
    }
    numbers
}

#[test]
fn worlds_are_painted_in_order() {
    for seed in [1, 2, 3, 99] {
        let numbers = random_numbers(seed);
        assert_eq!(world(&numbers), painted(&numbers));
    }
}

#[test]
fn worlds_stay_in_their_box() {
    let cells = world(&random_numbers(7));
    assert!(cells.len() <= (WORLD * WORLD * LAYERS) as usize);
    for [x, y, z] in cells.keys() {
        assert!((0..WORLD).contains(x) && (0..LAYERS).contains(y) && (0..WORLD).contains(z));
    }
}

#[test]
fn columns_are_solid_up_to_their_height() {
    let numbers = random_numbers(11);
    let cells = world(&numbers);
    for x in 0..WORLD {
        for z in 0..WORLD {
            let h = numbers[(x * WORLD + z) as usize].raw_height.clamp(2, 18);
            for y in 0..=h {
                assert!(cells.contains_key(&[x, y, z]));
            }
        }
    }
}

#[test]
fn bare_worlds_are_their_ground() {
    let numbers: Vec<Numbers> = (0..WORLD * WORLD).map(|i| plain(i % 30 - 5)).collect();
    let cells = world(&numbers);
    let expected: i32 = numbers.iter().map(|c| c.raw_height.clamp(2, 18) + 1).sum();
    assert_eq!(cells.len(), expected as usize);
}

#[test]
fn layers_of_a_column() {
    let mut numbers: Vec<Numbers> = (0..WORLD * WORLD).map(|_| plain(9)).collect();
    numbers[0].grass = 0.6;
    numbers[0].dirt = 0.6;
    numbers[0].stone = vec![0.7, 0.4, 0.2, 0.6, 0.3, 0.61, 0.0, 0.0, 0.0, 0.0];
    let cells = world(&numbers);
    let expected = [
        rgb(64, 50, 36),
        rgb(56, 43, 30),
        rgb(46, 36, 24),
        rgb(56, 43, 30),
        rgb(46, 36, 24),
        rgb(64, 50, 36),
        rgb(46, 36, 24),
        rgb(58, 42, 28),
        rgb(58, 42, 28),
        rgb(30, 65, 24),
    ];
    for (y, color) in expected.iter().enumerate() {
        assert_eq!(cells[&[0, y as i32, 0]], *color);
    }
    assert!(!cells.contains_key(&[0, 10, 0]));
}

#[test]
fn a_tree_in_the_corner_is_cut_off() {
    let mut numbers: Vec<Numbers> = (0..WORLD * WORLD).map(|_| plain(5)).collect();
    numbers[0].tree = 0.9;
    numbers[0].trunk = 0.5;
    numbers[0].leaf = 0.3;
    let ground = numbers.len() * 6;
    let cells = world(&numbers);
    // Trunk in layers 6 to 8; the crown starts in layer 8 and hides the topmost trunk voxel.
    assert_eq!(cells[&[0, 6, 0]], rgb(36, 25, 14));
    assert_eq!(cells[&[0, 7, 0]], rgb(36, 25, 14));
    assert_eq!(cells[&[0, 8, 0]], rgb(88, 54, 10));
    assert_eq!(cells.len(), ground + 2 + 9 + 9 + 4);
    assert!(cells.contains_key(&[2, 9, 2]));
    assert!(!cells.contains_key(&[2, 10, 2]));
    assert!(cells.contains_key(&[1, 10, 1]));
}

#[test]
fn trees_grow_at_middle_heights_only() {
    for (height, grows) in [(4, false), (5, true), (13, true), (14, false)] {
        let mut numbers: Vec<Numbers> = (0..WORLD * WORLD).map(|_| plain(height)).collect();
        numbers[(20 * WORLD + 20) as usize].tree = 0.83;
        let cells = world(&numbers);
        assert_eq!(cells.contains_key(&[20, height + 1, 20]), grows);
    }
}

#[test]
fn a_sample_at_the_threshold_grows_no_tree() {
    let mut numbers: Vec<Numbers> = (0..WORLD * WORLD).map(|_| plain(8)).collect();
    numbers[100].tree = 0.82;
    assert_eq!(world(&numbers).len(), numbers.len() * 9);
}

#[test]
fn later_ground_replaces_leaves() {
    let mut numbers: Vec<Numbers> = (0..WORLD * WORLD).map(|_| plain(5)).collect();
    numbers[(10 * WORLD + 10) as usize].tree = 1.0;
    // This column comes later and rises through the crown in layers 7 to 9.
    numbers[(11 * WORLD + 10) as usize].raw_height = 8;
    // This one comes earlier, so the crown replaces its top voxels.
    numbers[(9 * WORLD + 10) as usize].raw_height = 8;
    let cells = world(&numbers);
    assert_eq!(cells[&[11, 7, 10]], rgb(50, 36, 22));
    assert_eq!(cells[&[9, 7, 10]], rgb(86, 22, 14));
}

fn lattice(x: i32, z: i32) -> f32 {
    hash(x, z) as f32 / u32::MAX as f32
}

fn noise(x: f32, z: f32) -> f32 {
    let smooth = |t: f32| t * t * (3.0 - 2.0 * t);
    let (ix, iz) = (x.floor() as i32, z.floor() as i32);
    let (fx, fz) = (smooth(x - x.floor()), smooth(z - z.floor()));
    let ab = lattice(ix, iz) + (lattice(ix + 1, iz) - lattice(ix, iz)) * fx;
    let cd = lattice(ix, iz + 1) + (lattice(ix + 1, iz + 1) - lattice(ix, iz + 1)) * fx;
    ab + (cd - ab) * fz
}

#[test]
fn noise_grows_scattered_trees() {
    for seed in [0u32, 1, 42, 0x1234_5678, u32::MAX] {
        let (ox, oz) = domain_offsets(seed);
        let (sx, sz) = (ox as f32, oz as f32);
        let columns: Vec<ColumnSamples> = (0..WORLD * WORLD)
            .map(|i| {
                let (fx, fz) = ((i / WORLD) as f32, (i % WORLD) as f32);
                ColumnSamples {
                    raw_height: 8,
                    grass: sample(noise(fx * 3.1 + sx, fz * 3.1 + sz)),
                    dirt: sample(noise(fx * 2.3 + 7.0 + sx, fz * 2.3 + 7.0 + sz)),
                    stone: vec![sample(0.5); 9],
                    tree: sample(noise(fx * 7.31 + 1.7 + sx, fz * 7.31 + 1.7 + sz)),
                    trunk: sample(noise(fx * 13.7 + sx, fz * 13.7 + sz)),
                    leaf: sample(noise(fx * 5.1 + 2.3 + sx, fz * 5.1 + 2.3 + sz)),
                }
            })
            .collect();
        let trees = columns.iter().filter(|c| c.tree.exceeds(TREE_THRESHOLD)).count();
        assert!(0 < trees && trees < columns.len() / 4, "{trees} trees");
        let voxels = generate_terrain(&columns);
        assert!(voxels.iter().any(|v| v.position[1] > 8));
        assert!(voxels.len() > columns.len() * 9);
    }
}
