//! The tick scheduler, the render pass, and the spawn gate: everything that
//! drives the particle registry as a whole.
//!
//! The registry is an insertion-ordered, growable `Vec` of particles. One
//! tick walks it in insertion order and moves every particle against the
//! same frame buffer; the render pass then repaints the buffer from the
//! registry over a cleared background, later particles overwriting earlier
//! ones that share a cell.

use vstd::prelude::*;
use crate::grid::{
    BACKGROUND, FRAME_BYTES, in_grid, cell_index, frame_wf, cell_is, position_to_index,
};
use crate::particle::{
    ParticleType, ParticleNum, Particle, SandParticle, IronParticle, AcidParticle,
    WaterParticle, AgitatedParticle, ElectricityParticle, BaseParticle, spawn_color,
};
use crate::implparticles::{
    particle_in_bounds, particle_step_rel, particle_x, particle_y, particle_color,
};

verus! {

/// Advances every particle of the registry by one tick, in insertion
/// order, against the one shared frame buffer. No particle is added or
/// removed, no species rule writes the buffer, and each particle ends the
/// tick related to its old value by its species' one-tick relation.
pub fn update(vec: &mut Vec<ParticleType>, frame: &mut Vec<u8>)
    requires
        frame_wf(old(frame)@),
        forall|k: int| 0 <= k < old(vec)@.len() ==> particle_in_bounds(#[trigger] old(vec)@[k]),
    ensures
        final(frame)@ == old(frame)@,
        final(vec)@.len() == old(vec)@.len(),
        forall|k: int|
            0 <= k < old(vec)@.len() ==> particle_step_rel(
                old(vec)@[k],
                #[trigger] final(vec)@[k],
                old(frame)@,
            ),
        forall|k: int| 0 <= k < final(vec)@.len() ==> particle_in_bounds(#[trigger] final(vec)@[k]),
{
    let n = vec.len();
    #[verifier::loop_isolation(false)]
    for i in 0..n
        invariant
            vec@.len() == n,
            frame@ == old(frame)@,
            forall|k: int| i <= k < n ==> vec@[k] == old(vec)@[k],
            forall|k: int|
                0 <= k < i ==> particle_step_rel(old(vec)@[k], #[trigger] vec@[k], old(frame)@),
            forall|k: int| 0 <= k < n ==> particle_in_bounds(#[trigger] vec@[k]),
    {
        let partenum = vec[i];
        match partenum {
            ParticleType::SandParticle(mut part) => {
                part.move_particle(frame);
                vec[i] = ParticleType::SandParticle(part);
            },
            ParticleType::Particle(mut part) => {
                part.move_particle(frame);
                vec[i] = ParticleType::Particle(part);
            },
            ParticleType::IronParticle(mut part) => {
                part.move_particle(frame);
                vec[i] = ParticleType::IronParticle(part);
            },
            ParticleType::AcidParticle(mut part) => {
                part.move_particle(frame);
                vec[i] = ParticleType::AcidParticle(part);
            },
            ParticleType::WaterParticle(mut part) => {
                part.move_particle(frame);
                vec[i] = ParticleType::WaterParticle(part);
            },
            ParticleType::AgitatedParticle(mut part) => {
                part.move_particle(frame);
                vec[i] = ParticleType::AgitatedParticle(part);
            },
            ParticleType::ElectricityParticle(mut part) => {
                part.move_particle(frame);
                vec[i] = ParticleType::ElectricityParticle(part);
            },
        }
    }
}

/// The byte at offset `j` of a frame freshly rendered from the registry
/// `ps`: the matching colour channel of the last particle painted over the
/// cell that owns `j`, or the background sentinel when no particle covers
/// that cell.
pub open spec fn draw_byte(ps: Seq<ParticleType>, j: int) -> u8
    decreases ps.len(),
{
    if ps.len() == 0 {
        BACKGROUND
    } else {
        let p = ps.last();
        let base = cell_index(particle_x(p), particle_y(p));
        if base <= j < base + 4 {
            particle_color(p)[j - base]
        } else {
            draw_byte(ps.drop_last(), j)
        }
    }
}

/// Renders one frame: clears the whole buffer to the background sentinel,
/// then paints every registry particle's colour into its cell in insertion
/// order, so that of two particles sharing a cell the later one wins.
pub fn draw(frame: &mut Vec<u8>, vec: Vec<ParticleType>)
    requires
        frame_wf(old(frame)@),
        forall|k: int| 0 <= k < vec@.len() ==> particle_in_bounds(#[trigger] vec@[k]),
    ensures
        frame_wf(final(frame)@),
        forall|j: int| 0 <= j < FRAME_BYTES ==> final(frame)@[j] == draw_byte(vec@, j),
{
    let frame_len = frame.len();
    #[verifier::loop_isolation(false)]
    for j in 0..frame_len
        invariant
            frame@.len() == FRAME_BYTES,
            forall|t: int| 0 <= t < j ==> frame@[t] == BACKGROUND,
    {
        frame[j] = BACKGROUND;
    }
    let n = vec.len();
    #[verifier::loop_isolation(false)]
    for i in 0..n
        invariant
            frame@.len() == FRAME_BYTES,
            forall|jj: int|
                0 <= jj < FRAME_BYTES ==> frame@[jj] == draw_byte(vec@.take(i as int), jj),
    {
        let ghost prefix = vec@.take(i as int);
        let partenum = vec[i];
        match partenum {
            ParticleType::SandParticle(part) => {
                let index = position_to_index(part.x, part.y);
                frame[index] = part.rgba[0];
                frame[index + 1] = part.rgba[1];
                frame[index + 2] = part.rgba[2];
                frame[index + 3] = part.rgba[3];
            },
            ParticleType::Particle(part) => {
                let index = position_to_index(part.x, part.y);
                frame[index] = part.rgba[0];
                frame[index + 1] = part.rgba[1];
                frame[index + 2] = part.rgba[2];
                frame[index + 3] = part.rgba[3];
            },
            ParticleType::IronParticle(part) => {
                let index = position_to_index(part.x, part.y);
                frame[index] = part.rgba[0];
                frame[index + 1] = part.rgba[1];
                frame[index + 2] = part.rgba[2];
                frame[index + 3] = part.rgba[3];
            },
            ParticleType::AcidParticle(part) => {
                let index = position_to_index(part.x, part.y);
                frame[index] = part.rgba[0];
                frame[index + 1] = part.rgba[1];
                frame[index + 2] = part.rgba[2];
                frame[index + 3] = part.rgba[3];
            },
            ParticleType::WaterParticle(part) => {
                let index = position_to_index(part.x, part.y);
                frame[index] = part.rgba[0];
                frame[index + 1] = part.rgba[1];
                frame[index + 2] = part.rgba[2];
                frame[index + 3] = part.rgba[3];
            },
            ParticleType::AgitatedParticle(part) => {
                let index = position_to_index(part.x, part.y);
                frame[index] = part.rgba[0];
                frame[index + 1] = part.rgba[1];
                frame[index + 2] = part.rgba[2];
                frame[index + 3] = part.rgba[3];
            },
            ParticleType::ElectricityParticle(part) => {
                let index = position_to_index(part.x, part.y);
                frame[index] = part.rgba[0];
                frame[index + 1] = part.rgba[1];
                frame[index + 2] = part.rgba[2];
                frame[index + 3] = part.rgba[3];
            },
        }
        proof {
            let painted = vec@.take(i + 1);
            assert(painted.last() == vec@[i as int]);
            assert(painted.drop_last() =~= prefix);
            let base = cell_index(particle_x(vec@[i as int]), particle_y(vec@[i as int]));
            assert forall|jj: int| 0 <= jj < FRAME_BYTES implies frame@[jj] == draw_byte(
                painted,
                jj,
            ) by {
                if !(base <= jj < base + 4) {
                    assert(draw_byte(painted, jj) == draw_byte(prefix, jj));
                }
            }
        }
    }
    proof {
        assert(vec@.take(n as int) =~= vec@);
    }
}

/// The render pass is idempotent for a fixed registry: two frames rendered
/// from the same registry, with no tick between them, are identical.
pub proof fn lemma_render_idempotent(ps: Seq<ParticleType>, f1: Seq<u8>, f2: Seq<u8>)
    requires
        frame_wf(f1),
        frame_wf(f2),
        forall|j: int| 0 <= j < FRAME_BYTES ==> f1[j] == draw_byte(ps, j),
        forall|j: int| 0 <= j < FRAME_BYTES ==> f2[j] == draw_byte(ps, j),
    ensures
        f1 == f2,
{
    assert(f1 =~= f2);
}

/// The spawn gate's rejection test: the requested cell already shows,
/// on all four channels, exactly the spawn colour of the requested
/// species, so creating another would stack an indistinguishable
/// duplicate.
pub open spec fn spawn_rejected(f: Seq<u8>, x: int, y: int, key: ParticleNum) -> bool {
    cell_is(f, x, y, spawn_color(key))
}

/// `p` is exactly the particle the spawn gate creates for species `key`
/// at cell `(x, y)`: the right variant, that position, the species'
/// canonical colour, and for Electricity a `life_time` of 5.
pub open spec fn spawned(p: ParticleType, x: int, y: int, key: ParticleNum) -> bool {
    match (key, p) {
        (ParticleNum::Base, ParticleType::Particle(q)) => q.x == x && q.y == y && q.rgba@
            == spawn_color(key),
        (ParticleNum::Sand, ParticleType::SandParticle(q)) => q.x == x && q.y == y && q.rgba@
            == spawn_color(key),
        (ParticleNum::Iron, ParticleType::IronParticle(q)) => q.x == x && q.y == y && q.rgba@
            == spawn_color(key),
        (ParticleNum::Acid, ParticleType::AcidParticle(q)) => q.x == x && q.y == y && q.rgba@
            == spawn_color(key),
        (ParticleNum::Water, ParticleType::WaterParticle(q)) => q.x == x && q.y == y && q.rgba@
            == spawn_color(key),
        (ParticleNum::Agitated, ParticleType::AgitatedParticle(q)) => q.x == x && q.y == y
            && q.rgba@ == spawn_color(key),
        (ParticleNum::Electricity, ParticleType::ElectricityParticle(q)) => q.x == x && q.y == y
            && q.life_time == 5 && q.rgba@ == spawn_color(key),
        _ => false,
    }
}

/// The spawn gate. Given a grid cell already clamped into bounds by the
/// input layer and the requested species, reads the frame colour at that
/// cell: an exact match with the species' own spawn colour rejects the
/// spawn, anything else creates the species' canonical particle there.
pub fn instanceparticle(x: u32, y: u32, frame: &Vec<u8>, particlekey: ParticleNum) -> (r: Option<
    ParticleType,
>)
    requires
        in_grid(x as int, y as int),
        frame_wf(frame@),
    ensures
        match r {
            None => spawn_rejected(frame@, x as int, y as int, particlekey),
            Some(p) => !spawn_rejected(frame@, x as int, y as int, particlekey) && spawned(
                p,
                x as int,
                y as int,
                particlekey,
            ),
        },
{
    let index = position_to_index(x, y);
    match particlekey {
        ParticleNum::Base => {
            let is_on_base = frame[index] == 0x00 && frame[index + 1] == 0xef && frame[index + 2]
                == 0x00 && frame[index + 3] == 0xff;
            if is_on_base {
                return None;
            }
            let novaparticula = Particle { x, y, rgba: [0x00, 0xef, 0x00, 0xff] };
            return Some(ParticleType::Particle(novaparticula));
        },
        ParticleNum::Sand => {
            let is_on_sand = frame[index] == 0x96 && frame[index + 1] == 0x4b && frame[index + 2]
                == 0x00 && frame[index + 3] == 0xff;
            if is_on_sand {
                return None;
            }
            let novaparticula = SandParticle { x, y, rgba: [0x96, 0x4b, 0x00, 0xff] };
            return Some(ParticleType::SandParticle(novaparticula));
        },
        ParticleNum::Iron => {
            let is_on_iron = frame[index] == 0x80 && frame[index + 1] == 0x80 && frame[index + 2]
                == 0x80 && frame[index + 3] == 0xff;
            if is_on_iron {
                return None;
            }
            let novaparticula = IronParticle { x, y, rgba: [0x80, 0x80, 0x80, 0xff] };
            return Some(ParticleType::IronParticle(novaparticula));
        },
        ParticleNum::Acid => {
            let is_on_acid = frame[index] == 0x00 && frame[index + 1] == 0x80 && frame[index + 2]
                == 0x00 && frame[index + 3] == 0xff;
            if is_on_acid {
                return None;
            }
            let novaparticula = AcidParticle { x, y, rgba: [0x00, 0x80, 0x00, 0xff] };
            return Some(ParticleType::AcidParticle(novaparticula));
        },
        ParticleNum::Water => {
            let is_on_water = frame[index] == 0x00 && frame[index + 1] == 0x00 && frame[index + 2]
                == 0xff && frame[index + 3] == 0xff;
            if is_on_water {
                return None;
            }
            let novaparticula = WaterParticle { x, y, rgba: [0x00, 0x00, 0xff, 0xff] };
            return Some(ParticleType::WaterParticle(novaparticula));
        },
        ParticleNum::Agitated => {
            let is_on_agitated = frame[index] == 0x16 && frame[index + 1] == 0x16 && frame[index
                + 2] == 0x00 && frame[index + 3] == 0xff;
            if is_on_agitated {
                return None;
            }
            let novaparticula = AgitatedParticle { x, y, rgba: [0x16, 0x16, 0x00, 0xff] };
            return Some(ParticleType::AgitatedParticle(novaparticula));
        },
        ParticleNum::Electricity => {
            let is_on_electricity = frame[index] == 0xff && frame[index + 1] == 0xff && frame[index
                + 2] == 0x00 && frame[index + 3] == 0xff;
            if is_on_electricity {
                return None;
            }
            let novaparticula = ElectricityParticle {
                x,
                y,
                life_time: 5,
                rgba: [0xff, 0xff, 0x00, 0xff],
            };
            return Some(ParticleType::ElectricityParticle(novaparticula));
        },
    }
}

/// One spawn request against the registry: on acceptance the new particle
/// is appended, on a duplicate rejection the registry is left untouched.
/// Returns true when a particle was appended.
pub fn try_spawn(
    vec: &mut Vec<ParticleType>,
    frame: &Vec<u8>,
    x: u32,
    y: u32,
    particlekey: ParticleNum,
) -> (created: bool)
    requires
        in_grid(x as int, y as int),
        frame_wf(frame@),
    ensures
        created == !spawn_rejected(frame@, x as int, y as int, particlekey),
        !created ==> final(vec)@ == old(vec)@,
        created ==> final(vec)@.len() == old(vec)@.len() + 1 && final(vec)@.drop_last() == old(
            vec,
        )@ && spawned(final(vec)@.last(), x as int, y as int, particlekey),
{
    match instanceparticle(x, y, frame, particlekey) {
        Some(instancia) => {
            vec.push(instancia);
            proof {
                assert(vec@.drop_last() =~= old(vec)@);
            }
            true
        },
        None => false,
    }
}

/// Spawning a species and then rendering makes an immediate second spawn
/// of the same species at the same cell a rejected duplicate: the freshly
/// painted cell shows exactly the species' spawn colour, since the new
/// particle was appended last and so was painted last.
pub proof fn lemma_respawn_rejected(
    ps: Seq<ParticleType>,
    p: ParticleType,
    f: Seq<u8>,
    x: int,
    y: int,
    key: ParticleNum,
)
    requires
        in_grid(x, y),
        frame_wf(f),
        spawned(p, x, y, key),
        forall|j: int| 0 <= j < FRAME_BYTES ==> f[j] == draw_byte(ps.push(p), j),
    ensures
        spawn_rejected(f, x, y, key),
{
    let base = cell_index(x, y);
    assert(ps.push(p).last() == p);
    assert(particle_x(p) == x && particle_y(p) == y);
    assert(particle_color(p) == spawn_color(key));
    assert(f[base] == draw_byte(ps.push(p), base));
    assert(f[base + 1] == draw_byte(ps.push(p), base + 1));
    assert(f[base + 2] == draw_byte(ps.push(p), base + 2));
    assert(f[base + 3] == draw_byte(ps.push(p), base + 3));
}

} // verus!
