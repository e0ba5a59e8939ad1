use rust_pixel::render::adapter::gl::shader_source::{
    get_trans_fragment_src, GENERAL2D_FRAGMENT_SRC, GENERAL2D_VERTEX_SRC, TRANS_FS, VERTEX_SRC_SYMBOLS,
    VERTEX_SRC_TRANS, TRANS_FS_HEAD, TRANS_FS_HEART, TRANS_FS_SQUARES, TRANS_FS_TAIL,
};
use rust_pixel::render::adapter::wgpu::shader_source::{
    get_transition_shaders, GENERAL2D_SHADER, PIXEL_VERTEX_SHADER, SYMBOLS_INSTANCED_VERTEX_SHADER,
    TRANSITION_VERTEX_SHADER, TRANSITION_RIPPLE_SHADER, TRANSITION_SQUARES_SHADER,
};
use rust_pixel::util::objpool::{GObj, GameObjPool};
use rand::seq::SliceRandom;
use rand_xoshiro::rand_core::{RngCore, SeedableRng};
use rand_xoshiro::Xoshiro256StarStar;
use rust_pixel::util::rand::{Rand, RandLCG};
use rust_pixel::util::shape::{circle, prepare_line, LineSym};
use rust_pixel::util::shape;

#[test]
fn lcg_sequence_from_seed() {
    let mut r = RandLCG::new();
    r.srand(1);
    assert_eq!(r.rand(), 41);
    assert_eq!(r.rand(), 1970027513);
    assert_eq!(r.rand(), 5051);
    assert_eq!(r.rand(), 943411761);
}

#[test]
fn lcg_sequence_from_default() {
    let mut r = RandLCG::default();
    assert_eq!(r.rand(), 38);
    assert_eq!(r.rand(), 581120832);
    assert_eq!(r.rand(), 2970);
    assert_eq!(r.rand(), 23936128);
}

#[test]
fn lcg_shuffle_is_reproducible() {
    let mut r = RandLCG::new();
    r.srand(42);
    let mut v = [1, 2, 3, 4, 5];
    r.shuffle(&mut v);
    assert_eq!(v, [1, 4, 3, 2, 5]);
    let mut one = [9];
    r.shuffle(&mut one);
    assert_eq!(one, [9]);
}

#[test]
fn xoshiro_shuffle_keeps_elements() {
    let mut r = Rand::new();
    r.srand(7);
    let mut v: Vec<u32> = (0..50).collect();
    r.shuffle(&mut v);
    assert_ne!(v, (0..50).collect::<Vec<u32>>());
    let mut sorted = v.clone();
    sorted.sort();
    assert_eq!(sorted, (0..50).collect::<Vec<u32>>());
}

#[test]
fn xoshiro_same_seed_same_numbers() {
    let mut a = Rand::new();
    let mut b = Rand::new();
    a.srand(123);
    b.srand(123);
    for _ in 0..5 {
        let x = a.rand64();
        assert_eq!(x, b.rand64());
    }
    let mut c = Rand::default();
    let mut d = Rand::new();
    assert_eq!(c.rand(), d.rand());
}

#[test]
fn circle_of_radius_zero_and_two() {
    assert_eq!(circle(10, 10, 0), vec![(10, 10); 8]);
    assert_eq!(
        circle(10, 10, 2),
        vec![
            (10, 12), (10, 12), (10, 8), (10, 8), (12, 10), (8, 10), (12, 10), (8, 10),
            (11, 12), (9, 12), (11, 8), (9, 8), (12, 11), (8, 11), (12, 9), (8, 9)
        ]
    );
    let c = circle(100, 100, 10);
    assert_eq!(c.len(), 56);
    for (x, y) in c {
        assert!((90..=110).contains(&x) && (90..=110).contains(&y));
    }
}

#[test]
fn circle_with_negative_radius_is_empty() {
    assert!(circle(10, 10, 0xFFFF).is_empty());
}

#[test]
fn line_steps_and_symbols() {
    assert_eq!(
        shape::line(0, 0, 5, 2),
        vec![
            (0, 0, LineSym::START),
            (1, 0, LineSym::VLINE),
            (2, 1, LineSym::SLASH),
            (3, 1, LineSym::VLINE),
            (4, 2, LineSym::SLASH),
            (5, 2, LineSym::VLINE)
        ]
    );
    assert_eq!(
        shape::line(3, 3, 3, 0),
        vec![
            (3, 3, LineSym::START),
            (3, 2, LineSym::HLINE),
            (3, 1, LineSym::HLINE),
            (3, 0, LineSym::HLINE)
        ]
    );
    assert_eq!(
        shape::line(0, 0, -3, 3),
        vec![
            (0, 0, LineSym::START),
            (-1, 1, LineSym::BACKSLASH),
            (-2, 2, LineSym::BACKSLASH),
            (-3, 3, LineSym::BACKSLASH)
        ]
    );
    assert_eq!(shape::line(4, 4, 4, 4), vec![(4, 4, LineSym::START)]);
}

#[test]
fn prepare_line_orders_and_backs_off() {
    assert_eq!(prepare_line(0, 0, 10, 5), (11, 5, 0, 0));
    assert_eq!(prepare_line(10, 0, 0, 5), (-1, 5, 10, 0));
    assert_eq!(prepare_line(10, 0, 0, 1), (-1, 1, 10, 0));
    assert_eq!(prepare_line(0, 10, 5, 0), (5, -1, 0, 10));
    assert_eq!(prepare_line(0, 10, 1, 0), (1, -1, 0, 10));
    assert_eq!(prepare_line(5, 5, 5, 10), (5, 4, 5, 10));
    assert_eq!(prepare_line(5, 5, 10, 5), (4, 5, 10, 5));
    assert_eq!(prepare_line(10, 10, 0, 0), (11, 11, 0, 0));
}

struct Dummy {
    kind: u8,
    resets: u32,
}

impl GObj for Dummy {
    fn new(t: u8, _ps: &Vec<u32>) -> Self {
        Dummy { kind: t, resets: 0 }
    }

    fn reset(&mut self, t: u8, _ps: &Vec<u32>) {
        self.kind = t;
        self.resets += 1;
    }
}

#[test]
fn pool_recycles_inactive_objects() {
    let mut p: GameObjPool<Dummy> = GameObjPool::new("DUMMY", 10);
    assert_eq!(p.prefix, "DUMMY");
    assert_eq!(p.max_count, 10);
    p.create(1, &vec![]);
    p.create(2, &vec![]);
    assert_eq!(p.pool.len(), 2);
    assert_eq!(p.pool[1].id, 1);
    p.pool[0].active = false;
    p.create(3, &vec![]);
    assert_eq!(p.pool.len(), 2);
    assert!(p.pool[0].active);
    assert_eq!(p.pool[0].obj.kind, 3);
    assert_eq!(p.pool[0].obj.resets, 1);
    p.pool[1].active = false;
    let mut seen = 0;
    p.update_active(|o| {
        o.obj.kind = 9;
        seen += 1;
    });
    assert_eq!(seen, 1);
    assert_eq!(p.pool[0].obj.kind, 9);
    assert_eq!(p.pool[1].obj.kind, 2);
}

#[test]
fn transition_shader_sources() {
    let gl = get_trans_fragment_src();
    assert_eq!(gl.len(), 7);
    assert_eq!(gl[0], format!("{}{}{}", TRANS_FS_HEAD, TRANS_FS_SQUARES, TRANS_FS_TAIL));
    assert_eq!(gl[1], format!("{}{}{}", TRANS_FS_HEAD, TRANS_FS_HEART, TRANS_FS_TAIL));
    assert!(gl.iter().all(|s| s.contains("uniform float progress;") && s.contains("transition(TexCoord)")));
    let wg = get_transition_shaders();
    assert_eq!(wg.len(), 7);
    assert_eq!(wg[0], TRANSITION_SQUARES_SHADER);
    assert_eq!(wg[6], TRANSITION_RIPPLE_SHADER);
    assert!(wg.iter().all(|s| s.contains("fn fs_main")));
}

#[test]
fn audio_plays_nothing() {
    let a = rust_pixel::audio::Audio::new();
    a.play_file("assets/sound.mp3", true);
    let _b = rust_pixel::audio::Audio::default();
}

#[test]
fn xoshiro_draws_match_rand_xoshiro() {
    for seed in [0u64, 1, 7, 123, u64::MAX] {
        let mut a = Rand::new();
        a.srand(seed);
        let mut b = Xoshiro256StarStar::seed_from_u64(seed);
        for _ in 0..20 {
            assert_eq!(a.rand64(), b.next_u64());
        }
        assert_eq!(a.rand(), b.next_u64() as u32);
    }
    let mut n = Rand::new();
    let mut z = Xoshiro256StarStar::seed_from_u64(0);
    assert_eq!(n.rand64(), z.next_u64());
    assert_eq!(n.rand(), z.next_u64() as u32);
}

#[test]
fn xoshiro_shuffle_matches_rand() {
    for len in [0u32, 1, 2, 5, 50] {
        let mut a = Rand::new();
        a.srand(99);
        let mut b = Xoshiro256StarStar::seed_from_u64(99);
        let mut v: Vec<u32> = (0..len).collect();
        let mut w = v.clone();
        a.shuffle(&mut v);
        w.shuffle(&mut b);
        assert_eq!(v, w);
        assert_eq!(a.rand64(), b.next_u64());
    }
}

#[test]
fn circle_of_largest_radius() {
    let c = circle(10000, 10000, 8284);
    assert!(!c.is_empty());
    assert_eq!(c.len() % 8, 0);
    assert_eq!(c[0], (10000, 18284));
    assert!(c.iter().all(|p| (1716..=18284).contains(&p.0) && (1716..=18284).contains(&p.1)));
}

#[test]
fn pool_keeps_ids_and_activates_one_object_per_create() {
    let mut p: GameObjPool<Dummy> = GameObjPool::new("D", 4);
    for _ in 0..3 {
        p.create(1, &vec![]);
    }
    p.pool[1].active = false;
    let before = p.pool.iter().filter(|o| o.active).count();
    p.create(5, &vec![]);
    assert_eq!(p.pool.len(), 3);
    assert_eq!(p.pool.iter().filter(|o| o.active).count(), before + 1);
    assert_eq!(p.pool[1].obj.kind, 5);
    p.create(6, &vec![]);
    assert_eq!(p.pool.len(), 4);
    assert_eq!(p.pool[3].obj.kind, 6);
    assert_eq!(p.pool[3].obj.resets, 0);
    assert!(p.pool.iter().enumerate().all(|(i, o)| o.id == i && o.active));
}

#[test]
fn lcg_new_draws_like_a_generator_reseeded_after_even_draws() {
    let mut g = RandLCG::new();
    g.srand(99);
    g.rand();
    g.rand();
    g.srand(0);
    let mut n = RandLCG::new();
    for _ in 0..6 {
        assert_eq!(n.rand(), g.rand());
    }
    assert_eq!(RandLCG::new().rand(), 38);
}

#[test]
fn renderer_shader_sources() {
    let gl = get_trans_fragment_src();
    assert_eq!(TRANS_FS.len(), 7);
    for (full, body) in gl.iter().zip(TRANS_FS.iter()) {
        assert_eq!(*full, format!("{}{}{}", TRANS_FS_HEAD, body, TRANS_FS_TAIL));
    }
    assert!(VERTEX_SRC_SYMBOLS.contains("layout(location=0) in vec2 vertex;"));
    assert!(VERTEX_SRC_TRANS.contains("TexCoord = aTexCoord;"));
    assert!(GENERAL2D_VERTEX_SRC.contains("void main"));
    assert!(GENERAL2D_FRAGMENT_SRC.contains("out vec4 FragColor;"));
    assert!(PIXEL_VERTEX_SHADER.contains("@location(1) tex_coords: vec2<f32>,"));
    assert!(TRANSITION_VERTEX_SHADER.contains("fn vs_main"));
    assert!(GENERAL2D_SHADER.contains("fn vs_main") && GENERAL2D_SHADER.contains("fn fs_main"));
    assert!(SYMBOLS_INSTANCED_VERTEX_SHADER.contains("fn vs_main"));
}

#[test]
fn logo_frames_by_mode() {
    assert_eq!(rust_pixel::LOGO_FRAME, 30);
    assert_eq!(rust_pixel::GRAPHICS_LOGO_FRAME, 75);
}
