use falling_sand::grid::position_to_index;
use falling_sand::particle::{
    AcidParticle, AgitatedParticle, BaseParticle, ElectricityParticle, Particle,
    SandParticle, WaterParticle,
};

fn background_frame() -> Vec<u8> {
    vec![150u8; 200 * 150 * 4]
}

fn paint(frame: &mut Vec<u8>, x: u32, y: u32, rgba: [u8; 4]) {
    let i = position_to_index(x, y);
    frame[i..i + 4].copy_from_slice(&rgba);
}

const SAND: [u8; 4] = [0x96, 0x4b, 0x00, 0xff];
const IRON: [u8; 4] = [0x80, 0x80, 0x80, 0xff];
const WATER: [u8; 4] = [0x00, 0x00, 0xff, 0xff];

#[test]
fn base_falls_when_below_is_free() {
    let mut frame = background_frame();
    let mut p = Particle { x: 5, y: 5, rgba: [0x00, 0xef, 0x00, 0xff] };
    p.move_particle(&mut frame);
    assert_eq!((p.x, p.y), (5, 6));
}

#[test]
fn base_stays_when_below_is_occupied() {
    let mut frame = background_frame();
    paint(&mut frame, 5, 6, SAND);
    let mut p = Particle { x: 5, y: 5, rgba: [0x00, 0xef, 0x00, 0xff] };
    p.move_particle(&mut frame);
    assert_eq!((p.x, p.y), (5, 5));
}

#[test]
fn base_stays_on_bottom_row() {
    let mut frame = background_frame();
    let mut p = Particle { x: 5, y: 149, rgba: [0x00, 0xef, 0x00, 0xff] };
    p.move_particle(&mut frame);
    assert_eq!((p.x, p.y), (5, 149));
}

#[test]
fn sand_prefers_down_then_left_then_right() {
    let mut frame = background_frame();
    let mut p = SandParticle { x: 10, y: 10, rgba: SAND };
    p.move_particle(&mut frame);
    assert_eq!((p.x, p.y), (10, 11));

    let mut frame = background_frame();
    paint(&mut frame, 10, 11, IRON);
    let mut p = SandParticle { x: 10, y: 10, rgba: SAND };
    p.move_particle(&mut frame);
    assert_eq!((p.x, p.y), (9, 11));

    let mut frame = background_frame();
    paint(&mut frame, 10, 11, IRON);
    paint(&mut frame, 9, 11, IRON);
    let mut p = SandParticle { x: 10, y: 10, rgba: SAND };
    p.move_particle(&mut frame);
    assert_eq!((p.x, p.y), (11, 11));

    let mut frame = background_frame();
    paint(&mut frame, 10, 11, IRON);
    paint(&mut frame, 9, 11, IRON);
    paint(&mut frame, 11, 11, IRON);
    let mut p = SandParticle { x: 10, y: 10, rgba: SAND };
    p.move_particle(&mut frame);
    assert_eq!((p.x, p.y), (10, 10));
}

#[test]
fn sand_left_diagonal_needs_left_column() {
    let mut frame = background_frame();
    paint(&mut frame, 0, 11, IRON);
    let mut p = SandParticle { x: 0, y: 10, rgba: SAND };
    p.move_particle(&mut frame);
    assert_eq!((p.x, p.y), (1, 11));
}

#[test]
fn sand_right_diagonal_needs_right_column() {
    let mut frame = background_frame();
    paint(&mut frame, 199, 11, IRON);
    paint(&mut frame, 198, 11, IRON);
    let mut p = SandParticle { x: 199, y: 10, rgba: SAND };
    p.move_particle(&mut frame);
    assert_eq!((p.x, p.y), (199, 10));
}

#[test]
fn sand_stays_on_bottom_row() {
    let mut frame = background_frame();
    let mut p = SandParticle { x: 10, y: 149, rgba: SAND };
    p.move_particle(&mut frame);
    assert_eq!((p.x, p.y), (10, 149));
}

#[test]
fn acid_falls_exactly_like_sand() {
    let mut frame = background_frame();
    let mut p = AcidParticle { x: 10, y: 10, rgba: [0x00, 0x80, 0x00, 0xff] };
    p.move_particle(&mut frame);
    assert_eq!((p.x, p.y), (10, 11));

    let mut frame = background_frame();
    paint(&mut frame, 10, 11, IRON);
    let mut p = AcidParticle { x: 10, y: 10, rgba: [0x00, 0x80, 0x00, 0xff] };
    p.move_particle(&mut frame);
    assert_eq!((p.x, p.y), (9, 11));

    let mut frame = background_frame();
    paint(&mut frame, 10, 11, IRON);
    paint(&mut frame, 9, 11, IRON);
    let mut p = AcidParticle { x: 10, y: 10, rgba: [0x00, 0x80, 0x00, 0xff] };
    p.move_particle(&mut frame);
    assert_eq!((p.x, p.y), (11, 11));

    let mut frame = background_frame();
    let mut p = AcidParticle { x: 10, y: 149, rgba: [0x00, 0x80, 0x00, 0xff] };
    p.move_particle(&mut frame);
    assert_eq!((p.x, p.y), (10, 149));
}

#[test]
fn water_falls_whatever_direction_is_drawn() {
    for direction in 0..2u32 {
        let mut frame = background_frame();
        let mut p = WaterParticle { x: 20, y: 20, rgba: WATER };
        p.move_with_direction(&frame, direction);
        assert_eq!((p.x, p.y), (20, 21));
    }
}

#[test]
fn water_blocked_below_drifts_to_the_drawn_side() {
    let mut frame = background_frame();
    paint(&mut frame, 20, 21, IRON);
    let mut p = WaterParticle { x: 20, y: 20, rgba: WATER };
    p.move_with_direction(&frame, 0);
    assert_eq!((p.x, p.y), (19, 20));

    let mut p = WaterParticle { x: 20, y: 20, rgba: WATER };
    p.move_with_direction(&frame, 1);
    assert_eq!((p.x, p.y), (21, 20));
}

#[test]
fn water_does_not_retry_the_other_side() {
    let mut frame = background_frame();
    paint(&mut frame, 20, 21, IRON);
    paint(&mut frame, 19, 20, IRON);
    let mut p = WaterParticle { x: 20, y: 20, rgba: WATER };
    // Left is blocked and right is free, but a drawn left is not retried.
    p.move_with_direction(&frame, 0);
    assert_eq!((p.x, p.y), (20, 20));
}

#[test]
fn water_stays_on_bottom_row() {
    let frame = background_frame();
    let mut p = WaterParticle { x: 20, y: 149, rgba: WATER };
    p.move_with_direction(&frame, 0);
    assert_eq!((p.x, p.y), (20, 149));
}

#[test]
fn water_moves_sideways_when_blocked_below() {
    let mut frame = background_frame();
    paint(&mut frame, 20, 21, IRON);
    let mut p = WaterParticle { x: 20, y: 20, rgba: WATER };
    p.move_particle(&mut frame);
    // Both sides are free, so the random draw must move it one cell aside.
    assert_eq!(p.y, 20);
    assert!(p.x == 19 || p.x == 21);
}

#[test]
fn agitated_moves_the_drawn_way_on_an_empty_frame() {
    let frame = background_frame();
    let expected = [(49, 50), (51, 50), (50, 49), (50, 51)];
    for direction in 0..4u32 {
        let mut p = AgitatedParticle { x: 50, y: 50, rgba: [0x16, 0x16, 0x00, 0xff] };
        p.move_with_direction(&frame, direction);
        assert_eq!((p.x, p.y), expected[direction as usize]);
    }
}

#[test]
fn agitated_respects_boundaries_and_occupancy() {
    let frame = background_frame();
    let mut p = AgitatedParticle { x: 0, y: 0, rgba: [0x16, 0x16, 0x00, 0xff] };
    p.move_with_direction(&frame, 0);
    assert_eq!((p.x, p.y), (0, 0));
    p.move_with_direction(&frame, 2);
    assert_eq!((p.x, p.y), (0, 0));

    let mut frame = background_frame();
    paint(&mut frame, 51, 50, IRON);
    let mut p = AgitatedParticle { x: 50, y: 50, rgba: [0x16, 0x16, 0x00, 0xff] };
    p.move_with_direction(&frame, 1);
    assert_eq!((p.x, p.y), (50, 50));
}

#[test]
fn agitated_always_wanders_on_an_empty_frame() {
    let mut frame = background_frame();
    let mut p = AgitatedParticle { x: 50, y: 50, rgba: [0x16, 0x16, 0x00, 0xff] };
    p.move_particle(&mut frame);
    let moved = [(49, 50), (51, 50), (50, 49), (50, 51)];
    assert!(moved.contains(&(p.x, p.y)));
}

#[test]
fn electricity_travels_only_into_conductors() {
    let mut frame = background_frame();
    paint(&mut frame, 29, 30, WATER);
    let mut p = ElectricityParticle { x: 30, y: 30, life_time: 5, rgba: [0xff, 0xff, 0x00, 0xff] };
    p.move_with_direction(&frame, 0);
    assert_eq!((p.x, p.y), (29, 30));
    assert_eq!(p.life_time, 5);

    let mut frame = background_frame();
    paint(&mut frame, 31, 30, IRON);
    let mut p = ElectricityParticle { x: 30, y: 30, life_time: 5, rgba: [0xff, 0xff, 0x00, 0xff] };
    p.move_with_direction(&frame, 1);
    assert_eq!((p.x, p.y), (31, 30));

    // A free cell is not a conductor, nor is a sand-coloured one.
    let frame = background_frame();
    let mut p = ElectricityParticle { x: 30, y: 30, life_time: 5, rgba: [0xff, 0xff, 0x00, 0xff] };
    p.move_with_direction(&frame, 2);
    assert_eq!((p.x, p.y), (30, 30));

    let mut frame = background_frame();
    paint(&mut frame, 30, 31, SAND);
    let mut p = ElectricityParticle { x: 30, y: 30, life_time: 5, rgba: [0xff, 0xff, 0x00, 0xff] };
    p.move_with_direction(&frame, 3);
    assert_eq!((p.x, p.y), (30, 30));
}

#[test]
fn electricity_surrounded_by_conductors_always_moves() {
    let mut frame = background_frame();
    paint(&mut frame, 29, 30, WATER);
    paint(&mut frame, 31, 30, WATER);
    paint(&mut frame, 30, 29, IRON);
    paint(&mut frame, 30, 31, IRON);
    let mut p = ElectricityParticle { x: 30, y: 30, life_time: 5, rgba: [0xff, 0xff, 0x00, 0xff] };
    p.move_particle(&mut frame);
    let moved = [(29, 30), (31, 30), (30, 29), (30, 31)];
    assert!(moved.contains(&(p.x, p.y)));
    assert_eq!(p.life_time, 5);
}

#[test]
fn electricity_stays_amid_background() {
    let mut frame = background_frame();
    let mut p = ElectricityParticle { x: 30, y: 30, life_time: 5, rgba: [0xff, 0xff, 0x00, 0xff] };
    p.move_particle(&mut frame);
    assert_eq!((p.x, p.y), (30, 30));
}
