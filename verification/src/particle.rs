//! Particle species: one struct per species, the tag type used to select a
//! species, the canonical spawn colours, and the movement/collision trait
//! that every species implements.
//!
//! Every species shares the same base shape: a grid position `x`, `y` and a
//! 4-byte RGBA colour. Electricity additionally carries a `life_time`
//! counter that is stored but never consulted by its movement rule.

use vstd::prelude::*;
use crate::grid::frame_wf;

verus! {

/// A live particle tagged with its species: a closed tagged-variant type,
/// so that the scheduler can dispatch by exhaustive matching.
#[derive(Copy, Clone)]
pub enum ParticleType {
    Particle(Particle),
    SandParticle(SandParticle),
    IronParticle(IronParticle),
    AcidParticle(AcidParticle),
    WaterParticle(WaterParticle),
    AgitatedParticle(AgitatedParticle),
    ElectricityParticle(ElectricityParticle),
}

/// A bare species tag, used to select which species a spawn request creates.
#[derive(Copy, Clone)]
pub enum ParticleNum {
    Base,
    Sand,
    Iron,
    Acid,
    Water,
    Agitated,
    Electricity,
}

/// Base species: falls straight down, never spills sideways.
#[derive(Copy, Clone)]
pub struct Particle {
    pub x: u32,
    pub y: u32,
    pub rgba: [u8; 4],
}

/// Sand: falls, and when blocked slides to a free lower diagonal,
/// trying left before right.
#[derive(Copy, Clone)]
pub struct SandParticle {
    pub x: u32,
    pub y: u32,
    pub rgba: [u8; 4],
}

/// Iron: a static obstacle that never moves.
#[derive(Copy, Clone)]
pub struct IronParticle {
    pub x: u32,
    pub y: u32,
    pub rgba: [u8; 4],
}

/// Acid: for now it falls exactly as Sand does. The intended behaviour of
/// dissolving what it touches is deliberately left unimplemented: the
/// Sand-equivalent fallback is the behaviour to preserve.
#[derive(Copy, Clone)]
pub struct AcidParticle {
    pub x: u32,
    pub y: u32,
    pub rgba: [u8; 4],
}

/// Water: falls, and when blocked drifts one cell left or right at random.
#[derive(Copy, Clone)]
pub struct WaterParticle {
    pub x: u32,
    pub y: u32,
    pub rgba: [u8; 4],
}

/// Agitated: gravity-free, wanders one cell in a random direction.
#[derive(Copy, Clone)]
pub struct AgitatedParticle {
    pub x: u32,
    pub y: u32,
    pub rgba: [u8; 4],
}

/// Electricity: gravity-free, wanders one cell in a random direction but
/// only into cells painted with a conductor colour (Water or Iron).
/// `life_time` is stored but never read or decremented by the rule.
#[derive(Copy, Clone)]
pub struct ElectricityParticle {
    pub x: u32,
    pub y: u32,
    pub life_time: u8,
    pub rgba: [u8; 4],
}

/// The canonical RGBA colour a freshly spawned particle of species `key`
/// carries; also the colour the spawn gate tests against for duplicate
/// rejection, and (for Water and Iron) the colours Electricity recognises
/// as conductors.
///
/// Agitated's identification colour is fixed here as (0x16, 0x16, 0x00,
/// 0xff), deliberately distinct from Electricity's yellow so the two
/// species stay tellable apart on the buffer.
pub open spec fn spawn_color(key: ParticleNum) -> Seq<u8> {
    match key {
        ParticleNum::Base => seq![0x00u8, 0xefu8, 0x00u8, 0xffu8],
        ParticleNum::Sand => seq![0x96u8, 0x4bu8, 0x00u8, 0xffu8],
        ParticleNum::Iron => seq![0x80u8, 0x80u8, 0x80u8, 0xffu8],
        ParticleNum::Acid => seq![0x00u8, 0x80u8, 0x00u8, 0xffu8],
        ParticleNum::Water => seq![0x00u8, 0x00u8, 0xffu8, 0xffu8],
        ParticleNum::Agitated => seq![0x16u8, 0x16u8, 0x00u8, 0xffu8],
        ParticleNum::Electricity => seq![0xffu8, 0xffu8, 0x00u8, 0xffu8],
    }
}

/// The movement and collision interface every species implements.
///
/// A tick never writes the frame buffer: movement only changes the
/// particle's own position, and the buffer is repainted afterwards by the
/// render pass. Each implementation fixes `step_rel` to its species' exact
/// one-tick movement relation and `colision_spec` to what its collision
/// pre-check reports.
pub trait BaseParticle: Sized {
    /// The particle's position lies on the grid.
    spec fn in_bounds(&self) -> bool;

    /// The species' one-tick movement relation against the frame `f`.
    spec fn step_rel(&self, next: Self, f: Seq<u8>) -> bool;

    /// What the species' collision pre-check reports against the frame `f`.
    spec fn colision_spec(&self, f: Seq<u8>) -> bool;

    /// Advances the particle by one tick against `frame`.
    fn move_particle(&mut self, frame: &mut Vec<u8>)
        requires
            old(self).in_bounds(),
            frame_wf(old(frame)@),
        ensures
            final(self).in_bounds(),
            final(frame)@ == old(frame)@,
            old(self).step_rel(*final(self), old(frame)@),
    ;

    /// The species' collision pre-check.
    fn colision(&self, frame: &mut Vec<u8>) -> (r: bool)
        requires
            self.in_bounds(),
            frame_wf(old(frame)@),
        ensures
            final(frame)@ == old(frame)@,
            r == self.colision_spec(old(frame)@),
    ;
}

} // verus!
