use minecraft_end_generation::biome::{classify_chunk, classify_height, in_central_island, EndBiomes};
use minecraft_end_generation::generator::{centre_of, BiomeQuery, EndGen};
use minecraft_end_generation::memo::chunk_key;
use minecraft_end_generation::seeds::{displacement_seed, noise_seed};
use minecraft_end_generation::height::{island_candidates, IslandCell};
use noise_rs::math;
use noise_rs::simplex_noise::SimplexNoise;

/// The island height at block `(x, z)`, with the generator's own float rules.
fn height(noise: &mut SimplexNoise, x: i32, z: i32) -> f32 {
    let dist: i32 = x.wrapping_mul(x).wrapping_add(z.wrapping_mul(z));
    let mut height: f32 = math::clamp(100.0f32 - math::sqrt(dist as f32) * 8.0f32, -100.0f32, 80.0f32);
    for c in island_candidates(x, z) {
        if !(noise.get_value_2d(c.cell_x as f64, c.cell_z as f64) < -0.8999999761581421) {
            continue;
        }
        let elevation: f32 = (math::abs(c.cell_x as f32) * 3439.0f32 + math::abs(c.cell_z as f32) * 147.0f32)
            % 13.0f32
            + 9.0f32;
        let smooth_x: f32 = c.dx as f32;
        let smooth_z: f32 = c.dz as f32;
        let island: f32 = 100.0f32 - math::sqrt(smooth_x * smooth_x + smooth_z * smooth_z) * elevation;
        height = math::max(height, math::clamp(island, -100.0f32, 80.0f32));
    }
    height
}

fn resolve(gen: &mut EndGen, q: BiomeQuery) -> EndBiomes {
    match q {
        BiomeQuery::Known(b) => b,
        BiomeQuery::NeedsHeight { chunk_x, chunk_z, x, z } => {
            let h: f32 = height(gen.noise(), x, z);
            gen.settle(chunk_x, chunk_z, h.to_bits())
        }
    }
}

fn biome_at(gen: &mut EndGen, x: i32, y: i32, z: i32) -> EndBiomes {
    let q = gen.get_final_biome(x, y, z);
    resolve(gen, q)
}

fn biome_at_2d(gen: &mut EndGen, x: i32, z: i32) -> EndBiomes {
    let q = gen.get_final_biome_2d(x, z);
    resolve(gen, q)
}

#[test]
fn gen1() {
    let seed: u64 = 1551515151585454u64;
    let x: i32 = 10000;
    let z: i32 = 10000;
    let mut gen: EndGen = EndGen::new(seed);
    assert_eq!(biome_at(&mut gen, x, 251, z).name(), "SmallEndIslands");
}

#[test]
fn gen_column() {
    let seed: u64 = 1551515151585454u64;
    let x: i32 = 10000;
    let z: i32 = 10000;
    let mut gen: EndGen = EndGen::new(seed);
    let mut sum: i32 = 0;
    for y in 0..256 {
        let biome: EndBiomes = biome_at(&mut gen, x, y, z);
        sum = sum.wrapping_add(biome.code() as i32);
        println!("{} {}", y, biome.name());
    }
    assert_eq!(sum, 10689);
}

#[test]
fn gen1million() {
    let seed: u64 = 1551515151585454;
    let offset_x: i32 = 10000;
    let offset_z: i32 = 10000;
    let mut gen: EndGen = EndGen::new(seed);
    let mut som: i32 = 0;
    for x in 0..1000 {
        for z in 0..1000 {
            som = som.wrapping_add(biome_at_2d(&mut gen, offset_x + x, offset_z + z).code() as i32);
        }
    }
    assert_eq!(som, 41033489);
}

#[test]
fn displacement_seed_golden() {
    assert_eq!(displacement_seed(1551515151585454) as u64, 4053242177535254290u64);
}

#[test]
fn noise_seed_golden() {
    assert_eq!(noise_seed(1551515151585454), 77510153241759u64);
    assert_eq!(noise_seed(0), 43045035388969u64);
}

#[test]
fn codes_and_names() {
    let all = [
        (EndBiomes::Default, 0u32, "Default"),
        (EndBiomes::TheEnd, 9, "TheEnd"),
        (EndBiomes::SmallEndIslands, 40, "SmallEndIslands"),
        (EndBiomes::EndMidlands, 41, "EndMidlands"),
        (EndBiomes::EndHighlands, 42, "EndHighlands"),
        (EndBiomes::EndBarrens, 43, "EndBarrens"),
    ];
    for (b, code, name) in all {
        assert_eq!(b.code(), code);
        assert_eq!(b.name(), name);
    }
}

#[test]
fn height_thresholds() {
    assert_eq!(classify_height(44.0f32.to_bits()), EndBiomes::EndHighlands);
    assert_eq!(classify_height(40.0f32.to_bits()), EndBiomes::EndMidlands);
    assert_eq!(classify_height(0.0f32.to_bits()), EndBiomes::EndMidlands);
    assert_eq!(classify_height((-0.0f32).to_bits()), EndBiomes::EndMidlands);
    assert_eq!(classify_height((-10.0f32).to_bits()), EndBiomes::EndBarrens);
    assert_eq!(classify_height((-20.0f32).to_bits()), EndBiomes::EndBarrens);
    assert_eq!(classify_height((-20.5f32).to_bits()), EndBiomes::SmallEndIslands);
    assert_eq!(classify_height((-100.0f32).to_bits()), EndBiomes::SmallEndIslands);
    assert_eq!(classify_height(f32::NAN.to_bits()), EndBiomes::EndBarrens);
}

#[test]
fn central_island_edge() {
    assert!(in_central_island(64, 0));
    assert!(in_central_island(0, -64));
    assert!(!in_central_island(65, 0));
    assert!(!in_central_island(i32::MIN, i32::MIN));
    assert_eq!(classify_chunk(64, 0, 60.0f32.to_bits()), EndBiomes::TheEnd);
    assert_eq!(classify_chunk(-40, 48, (-50.0f32).to_bits()), EndBiomes::TheEnd);
    assert_eq!(classify_chunk(65, 0, 60.0f32.to_bits()), EndBiomes::EndHighlands);
}

#[test]
fn chunk_keys() {
    assert_eq!(chunk_key(1, 2), (1u64 << 32) | 2);
    assert_eq!(chunk_key(-1, -1), u64::MAX);
    assert_eq!(chunk_key(0, -1), 0xFFFF_FFFFu64);
}

#[test]
fn memo_answers_again() {
    let mut gen = EndGen::new(7);
    assert_eq!(gen.get_biome(3, 4), BiomeQuery::Known(EndBiomes::TheEnd));
    assert_eq!(gen.get_biome(3, 4), BiomeQuery::Known(EndBiomes::TheEnd));
    assert_eq!(
        gen.get_biome(100, -100),
        BiomeQuery::NeedsHeight { chunk_x: 100, chunk_z: -100, x: 201, z: -199 }
    );
    assert_eq!(gen.settle(100, -100, 50.0f32.to_bits()), EndBiomes::EndHighlands);
    assert_eq!(gen.get_biome(100, -100), BiomeQuery::Known(EndBiomes::EndHighlands));
    assert_eq!(gen.settle(100, -100, (-50.0f32).to_bits()), EndBiomes::EndHighlands);
}

#[test]
fn reseed_forgets() {
    let mut gen = EndGen::new(7);
    let _ = gen.get_biome(100, 100);
    assert_eq!(gen.settle(100, 100, 10.0f32.to_bits()), EndBiomes::EndMidlands);
    gen.set_seed(1551515151585454);
    assert_eq!(
        gen.get_biome(100, 100),
        BiomeQuery::NeedsHeight { chunk_x: 100, chunk_z: 100, x: 201, z: 201 }
    );
    assert_eq!(gen.noise_seed(), 77510153241759u64);
    assert_eq!(gen.fuzz_seed() as u64, 4053242177535254290u64);
}

#[test]
fn same_seed_same_answers() {
    let mut a = EndGen::new(1551515151585454);
    let mut b = EndGen::new(1551515151585454);
    for i in 0..40 {
        let x: i32 = -3000 + i * 157;
        let z: i32 = 5000 - i * 263;
        assert_eq!(biome_at(&mut a, x, i, z), biome_at(&mut b, x, i, z));
    }
}

#[test]
fn fuzzing_moves_to_coarser_cells() {
    let mut gen = EndGen::new(1551515151585454);
    match gen.get_final_biome_2d(10000, 10000) {
        BiomeQuery::NeedsHeight { chunk_x, chunk_z, .. } => {
            assert!(chunk_x == 624 || chunk_x == 625);
            assert!(chunk_z == 624 || chunk_z == 625);
        }
        BiomeQuery::Known(b) => panic!("unexpected {:?}", b),
    }
}

#[test]
fn never_default() {
    let mut gen = EndGen::new(99);
    for i in 0..50 {
        let b = biome_at_2d(&mut gen, i * 40, 2000 - i * 13);
        assert_ne!(b, EndBiomes::Default);
        assert_eq!(biome_at_2d(&mut gen, i * 40, 2000 - i * 13), b);
    }
}

#[test]
fn scan_skips_central_island() {
    assert!(island_candidates(1, 1).is_empty());
    assert_eq!(island_candidates(130, 0).len(), 351);
}

#[test]
fn scan_cells_in_order() {
    let cells = island_candidates(201, 201);
    assert_eq!(cells.len(), 625);
    assert_eq!(cells[0], IslandCell { cell_x: 88, cell_z: 88, dx: 25, dz: 25 });
    assert_eq!(cells[1], IslandCell { cell_x: 88, cell_z: 89, dx: 25, dz: 23 });
    assert_eq!(cells[624], IslandCell { cell_x: 112, cell_z: 112, dx: -23, dz: -23 });
    let cells = island_candidates(-201, 5);
    assert_eq!(cells[0], IslandCell { cell_x: -112, cell_z: -10, dx: 23, dz: 25 });
}

#[test]
fn chunk_centre_wraps_to_32_bits() {
    assert_eq!(centre_of(100), 201);
    assert_eq!(centre_of(-100), -199);
    assert_eq!(centre_of(1 << 30), i32::MIN + 1);
    assert_eq!(centre_of(i32::MIN), 1);
    assert_eq!(centre_of(i32::MAX), -1);
    let mut gen = EndGen::new(5);
    assert_eq!(
        gen.get_biome(1 << 30, -(1 << 30)),
        BiomeQuery::NeedsHeight { chunk_x: 1 << 30, chunk_z: -(1 << 30), x: i32::MIN + 1, z: i32::MIN + 1 }
    );
}

#[test]
fn scan_of_extreme_points() {
    let cells = island_candidates(i32::MIN, i32::MAX);
    assert_eq!(cells.len(), 625);
    assert_eq!(cells[0], IslandCell { cell_x: -(1i64 << 30) - 12, cell_z: (1i64 << 30) - 13, dx: 24, dz: 25 });
}

#[test]
fn cloned_generator_answers_alike() {
    let mut a = EndGen::new(1551515151585454);
    let _ = biome_at(&mut a, 10000, 251, 10000);
    let mut b = a.clone();
    assert_eq!(b.noise_seed(), a.noise_seed());
    assert_eq!(biome_at(&mut b, 10000, 251, 10000), EndBiomes::SmallEndIslands);
}
