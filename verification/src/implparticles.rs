//! The per-species movement and collision rules, as implementations of
//! [`BaseParticle`], together with the spec functions that state each rule's
//! exact one-tick next-position relation.
//!
//! Every species moves at most one cell per tick; there is no velocity or
//! acceleration. No rule ever writes the frame buffer: it is read as the
//! occupancy oracle and repainted later by the render pass.

use vstd::prelude::*;
use crate::grid::{
    WIDTH, HEIGHT, BACKGROUND, in_grid, cell_index, frame_wf, cell_free, cell_is,
    position_to_index,
};
use crate::particle::{
    ParticleType, ParticleNum, Particle, SandParticle, IronParticle, AcidParticle,
    WaterParticle, AgitatedParticle, ElectricityParticle, BaseParticle, spawn_color,
};
use crate::rng::random_below;

verus! {

/// Where a Base particle at `(x, y)` stands after one tick against frame
/// `f`: one cell down iff the bottom row is not reached and the cell below
/// is free, else unchanged.
pub open spec fn base_next(f: Seq<u8>, x: int, y: int) -> (int, int) {
    if y + 1 < HEIGHT && cell_free(f, x, y + 1) {
        (x, y + 1)
    } else {
        (x, y)
    }
}

/// Where a Sand particle at `(x, y)` stands after one tick against frame
/// `f`: down if free, else down-left if the grid and the frame allow it,
/// else down-right likewise, else unchanged. Left is tried before right as
/// a fixed tie-break.
pub open spec fn sand_next(f: Seq<u8>, x: int, y: int) -> (int, int) {
    if y + 1 >= HEIGHT {
        (x, y)
    } else if cell_free(f, x, y + 1) {
        (x, y + 1)
    } else if x > 0 && cell_free(f, x - 1, y + 1) {
        (x - 1, y + 1)
    } else if x + 1 < WIDTH && cell_free(f, x + 1, y + 1) {
        (x + 1, y + 1)
    } else {
        (x, y)
    }
}

/// Where a Water particle at `(x, y)` stands after one tick against frame
/// `f`, once the uniformly random bit `d` has been drawn: down if free,
/// else one cell towards the side `d` picks (0 = left, 1 = right) when the
/// grid and the frame allow it, else unchanged. A blocked chosen side is
/// not retried in the other direction.
pub open spec fn water_next(f: Seq<u8>, x: int, y: int, d: int) -> (int, int) {
    if y + 1 >= HEIGHT {
        (x, y)
    } else if cell_free(f, x, y + 1) {
        (x, y + 1)
    } else if d == 0 && x > 0 && cell_free(f, x - 1, y) {
        (x - 1, y)
    } else if d == 1 && x + 1 < WIDTH && cell_free(f, x + 1, y) {
        (x + 1, y)
    } else {
        (x, y)
    }
}

/// Where an Agitated particle at `(x, y)` stands after one tick against
/// frame `f`, once the uniformly random direction `d` has been drawn
/// (0 = left, 1 = right, 2 = up, 3 = down): one cell that way when the
/// grid boundary and the frame allow it, else unchanged.
pub open spec fn agitated_next(f: Seq<u8>, x: int, y: int, d: int) -> (int, int) {
    if d == 0 && x > 0 && cell_free(f, x - 1, y) {
        (x - 1, y)
    } else if d == 1 && x + 1 < WIDTH && cell_free(f, x + 1, y) {
        (x + 1, y)
    } else if d == 2 && y > 0 && cell_free(f, x, y - 1) {
        (x, y - 1)
    } else if d == 3 && y + 1 < HEIGHT && cell_free(f, x, y + 1) {
        (x, y + 1)
    } else {
        (x, y)
    }
}

/// Cell `(x, y)` of frame `f` is painted with a conductor colour: exactly
/// the Water spawn colour or the Iron spawn colour, all four channels.
pub open spec fn conductor(f: Seq<u8>, x: int, y: int) -> bool {
    cell_is(f, x, y, spawn_color(ParticleNum::Water)) || cell_is(
        f,
        x,
        y,
        spawn_color(ParticleNum::Iron),
    )
}

/// Where an Electricity particle at `(x, y)` stands after one tick against
/// frame `f`, once the uniformly random direction `d` has been drawn: one
/// cell that way when the grid boundary allows it and that cell is painted
/// with a conductor colour, else unchanged.
pub open spec fn electricity_next(f: Seq<u8>, x: int, y: int, d: int) -> (int, int) {
    if d == 0 && x > 0 && conductor(f, x - 1, y) {
        (x - 1, y)
    } else if d == 1 && x + 1 < WIDTH && conductor(f, x + 1, y) {
        (x + 1, y)
    } else if d == 2 && y > 0 && conductor(f, x, y - 1) {
        (x, y - 1)
    } else if d == 3 && y + 1 < HEIGHT && conductor(f, x, y + 1) {
        (x, y + 1)
    } else {
        (x, y)
    }
}

/// The particle's position lies on the grid, whatever its species.
pub open spec fn particle_in_bounds(p: ParticleType) -> bool {
    match p {
        ParticleType::Particle(q) => q.in_bounds(),
        ParticleType::SandParticle(q) => q.in_bounds(),
        ParticleType::IronParticle(q) => q.in_bounds(),
        ParticleType::AcidParticle(q) => q.in_bounds(),
        ParticleType::WaterParticle(q) => q.in_bounds(),
        ParticleType::AgitatedParticle(q) => q.in_bounds(),
        ParticleType::ElectricityParticle(q) => q.in_bounds(),
    }
}

/// One tick relates `p` to `next` against frame `f`: the species tag is
/// kept and the species' own movement relation holds.
pub open spec fn particle_step_rel(p: ParticleType, next: ParticleType, f: Seq<u8>) -> bool {
    match (p, next) {
        (ParticleType::Particle(a), ParticleType::Particle(b)) => a.step_rel(b, f),
        (ParticleType::SandParticle(a), ParticleType::SandParticle(b)) => a.step_rel(b, f),
        (ParticleType::IronParticle(a), ParticleType::IronParticle(b)) => a.step_rel(b, f),
        (ParticleType::AcidParticle(a), ParticleType::AcidParticle(b)) => a.step_rel(b, f),
        (ParticleType::WaterParticle(a), ParticleType::WaterParticle(b)) => a.step_rel(b, f),
        (ParticleType::AgitatedParticle(a), ParticleType::AgitatedParticle(b)) => a.step_rel(
            b,
            f,
        ),
        (ParticleType::ElectricityParticle(a), ParticleType::ElectricityParticle(b)) => a
            .step_rel(b, f),
        _ => false,
    }
}

/// The particle's grid column, whatever its species.
pub open spec fn particle_x(p: ParticleType) -> int {
    match p {
        ParticleType::Particle(q) => q.x as int,
        ParticleType::SandParticle(q) => q.x as int,
        ParticleType::IronParticle(q) => q.x as int,
        ParticleType::AcidParticle(q) => q.x as int,
        ParticleType::WaterParticle(q) => q.x as int,
        ParticleType::AgitatedParticle(q) => q.x as int,
        ParticleType::ElectricityParticle(q) => q.x as int,
    }
}

/// The particle's grid row, whatever its species.
pub open spec fn particle_y(p: ParticleType) -> int {
    match p {
        ParticleType::Particle(q) => q.y as int,
        ParticleType::SandParticle(q) => q.y as int,
        ParticleType::IronParticle(q) => q.y as int,
        ParticleType::AcidParticle(q) => q.y as int,
        ParticleType::WaterParticle(q) => q.y as int,
        ParticleType::AgitatedParticle(q) => q.y as int,
        ParticleType::ElectricityParticle(q) => q.y as int,
    }
}

/// The particle's stored RGBA colour, whatever its species.
pub open spec fn particle_color(p: ParticleType) -> Seq<u8> {
    match p {
        ParticleType::Particle(q) => q.rgba@,
        ParticleType::SandParticle(q) => q.rgba@,
        ParticleType::IronParticle(q) => q.rgba@,
        ParticleType::AcidParticle(q) => q.rgba@,
        ParticleType::WaterParticle(q) => q.rgba@,
        ParticleType::AgitatedParticle(q) => q.rgba@,
        ParticleType::ElectricityParticle(q) => q.rgba@,
    }
}

impl BaseParticle for Particle {
    open spec fn in_bounds(&self) -> bool {
        in_grid(self.x as int, self.y as int)
    }

    open spec fn step_rel(&self, next: Self, f: Seq<u8>) -> bool {
        &&& next.rgba == self.rgba
        &&& (next.x as int, next.y as int) == base_next(f, self.x as int, self.y as int)
    }

    open spec fn colision_spec(&self, f: Seq<u8>) -> bool {
        self.y + 1 >= HEIGHT || !cell_free(f, self.x as int, self.y + 1)
    }

    fn move_particle(&mut self, frame: &mut Vec<u8>) {
        if self.colision(frame) {
            return ;
        }
        self.y = self.y + 1;
    }

    fn colision(&self, frame: &mut Vec<u8>) -> bool {
        if self.y + 1 >= HEIGHT {
            return true;
        }
        let index = position_to_index(self.x, self.y + 1);
        if frame[index + 2] == BACKGROUND {
            return false;
        } else {
            return true;
        }
    }
}

impl BaseParticle for IronParticle {
    open spec fn in_bounds(&self) -> bool {
        in_grid(self.x as int, self.y as int)
    }

    open spec fn step_rel(&self, next: Self, f: Seq<u8>) -> bool {
        next == *self
    }

    open spec fn colision_spec(&self, f: Seq<u8>) -> bool {
        false
    }

    fn move_particle(&mut self, frame: &mut Vec<u8>) {
        if self.colision(frame) {
            return ;
        }
    }

    fn colision(&self, frame: &mut Vec<u8>) -> bool {
        return false;
    }
}

impl BaseParticle for SandParticle {
    open spec fn in_bounds(&self) -> bool {
        in_grid(self.x as int, self.y as int)
    }

    open spec fn step_rel(&self, next: Self, f: Seq<u8>) -> bool {
        &&& next.rgba == self.rgba
        &&& (next.x as int, next.y as int) == sand_next(f, self.x as int, self.y as int)
    }

    open spec fn colision_spec(&self, f: Seq<u8>) -> bool {
        self.y + 1 >= HEIGHT
    }

    fn move_particle(&mut self, frame: &mut Vec<u8>) {
        if self.colision(frame) {
            return ;
        }
        let index = position_to_index(self.x, self.y + 1);
        if frame[index + 2] != BACKGROUND {
            if self.x != 0 {
                let index_left = position_to_index(self.x - 1, self.y + 1);
                if frame[index_left + 2] == BACKGROUND {
                    self.y = self.y + 1;
                    self.x = self.x - 1;
                    return ;
                }
            }
            if self.x != WIDTH - 1 {
                let index_right = position_to_index(self.x + 1, self.y + 1);
                if frame[index_right + 2] == BACKGROUND {
                    self.y = self.y + 1;
                    self.x = self.x + 1;
                    return ;
                }
            }
        } else {
            self.y = self.y + 1;
            return ;
        }
    }

    fn colision(&self, frame: &mut Vec<u8>) -> bool {
        if self.y + 1 >= HEIGHT {
            return true;
        }
        return false;
    }
}

impl BaseParticle for AcidParticle {
    open spec fn in_bounds(&self) -> bool {
        in_grid(self.x as int, self.y as int)
    }

    open spec fn step_rel(&self, next: Self, f: Seq<u8>) -> bool {
        &&& next.rgba == self.rgba
        &&& (next.x as int, next.y as int) == sand_next(f, self.x as int, self.y as int)
    }

    open spec fn colision_spec(&self, f: Seq<u8>) -> bool {
        self.y + 1 >= HEIGHT
    }

    // Acid's dissolve-the-target behaviour is an open placeholder: until it
    // exists, the rule is exactly Sand's fall/diagonal rule.
    fn move_particle(&mut self, frame: &mut Vec<u8>) {
        if self.colision(frame) {
            return ;
        }
        let index = position_to_index(self.x, self.y + 1);
        if frame[index + 2] != BACKGROUND {
            if self.x != 0 {
                let index_left = position_to_index(self.x - 1, self.y + 1);
                if frame[index_left + 2] == BACKGROUND {
                    self.y = self.y + 1;
                    self.x = self.x - 1;
                    return ;
                }
            }
            if self.x != WIDTH - 1 {
                let index_right = position_to_index(self.x + 1, self.y + 1);
                if frame[index_right + 2] == BACKGROUND {
                    self.y = self.y + 1;
                    self.x = self.x + 1;
                    return ;
                }
            }
        } else {
            self.y = self.y + 1;
            return ;
        }
    }

    fn colision(&self, frame: &mut Vec<u8>) -> bool {
        if self.y + 1 >= HEIGHT {
            return true;
        }
        return false;
    }
}

impl WaterParticle {
    /// One Water tick with the random bit already drawn: `direction` 0
    /// tries the left neighbour when blocked below, 1 tries the right.
    pub fn move_with_direction(&mut self, frame: &Vec<u8>, direction: u32)
        requires
            direction < 2,
            old(self).in_bounds(),
            frame_wf(frame@),
        ensures
            final(self).in_bounds(),
            final(self).rgba == old(self).rgba,
            (final(self).x as int, final(self).y as int) == water_next(
                frame@,
                old(self).x as int,
                old(self).y as int,
                direction as int,
            ),
    {
        if self.y + 1 >= HEIGHT {
            return ;
        }
        let index_down = position_to_index(self.x, self.y + 1);
        if frame[index_down + 2] == BACKGROUND {
            self.y = self.y + 1;
        } else {
            let mut new_x = self.x;
            let mut new_y = self.y;
            if self.x > 0 && direction == 0 {
                let index_left = position_to_index(self.x - 1, self.y);
                if frame[index_left + 2] == BACKGROUND {
                    new_x = self.x - 1;
                    new_y = self.y;
                }
            }
            if self.x < WIDTH - 1 && direction == 1 {
                let index_right = position_to_index(self.x + 1, self.y);
                if frame[index_right + 2] == BACKGROUND {
                    new_x = self.x + 1;
                    new_y = self.y;
                }
            }
            if new_x != self.x || new_y != self.y {
                self.x = new_x;
                self.y = new_y;
            }
        }
    }
}

impl BaseParticle for WaterParticle {
    open spec fn in_bounds(&self) -> bool {
        in_grid(self.x as int, self.y as int)
    }

    open spec fn step_rel(&self, next: Self, f: Seq<u8>) -> bool {
        &&& next.rgba == self.rgba
        &&& exists|d: int|
            0 <= d < 2 && (next.x as int, next.y as int) == water_next(
                f,
                self.x as int,
                self.y as int,
                d,
            )
    }

    open spec fn colision_spec(&self, f: Seq<u8>) -> bool {
        self.y + 1 >= HEIGHT
    }

    fn move_particle(&mut self, frame: &mut Vec<u8>) {
        if self.colision(frame) {
            proof {
                assert((self.x as int, self.y as int) == water_next(
                    frame@,
                    self.x as int,
                    self.y as int,
                    0,
                ));
            }
            return ;
        }
        let direction = random_below(2);
        self.move_with_direction(frame, direction);
        proof {
            assert((self.x as int, self.y as int) == water_next(
                old(frame)@,
                old(self).x as int,
                old(self).y as int,
                direction as int,
            ));
        }
    }

    fn colision(&self, frame: &mut Vec<u8>) -> bool {
        if self.y + 1 >= HEIGHT {
            return true;
        }
        return false;
    }
}

impl AgitatedParticle {
    /// One Agitated tick with the random direction already drawn:
    /// 0 = left, 1 = right, 2 = up, 3 = down.
    pub fn move_with_direction(&mut self, frame: &Vec<u8>, direction: u32)
        requires
            direction < 4,
            old(self).in_bounds(),
            frame_wf(frame@),
        ensures
            final(self).in_bounds(),
            final(self).rgba == old(self).rgba,
            (final(self).x as int, final(self).y as int) == agitated_next(
                frame@,
                old(self).x as int,
                old(self).y as int,
                direction as int,
            ),
    {
        let mut new_x = self.x;
        let mut new_y = self.y;
        if direction == 0 && self.x > 0 {
            let index_left = position_to_index(self.x - 1, self.y);
            if frame[index_left + 2] == BACKGROUND {
                new_x = self.x - 1;
                new_y = self.y;
            }
        }
        if direction == 1 && self.x < WIDTH - 1 {
            let index_right = position_to_index(self.x + 1, self.y);
            if frame[index_right + 2] == BACKGROUND {
                new_x = self.x + 1;
                new_y = self.y;
            }
        }
        if direction == 2 && self.y > 0 {
            let index_up = position_to_index(self.x, self.y - 1);
            if frame[index_up + 2] == BACKGROUND {
                new_x = self.x;
                new_y = self.y - 1;
            }
        }
        if direction == 3 && self.y < HEIGHT - 1 {
            let index_down = position_to_index(self.x, self.y + 1);
            if frame[index_down + 2] == BACKGROUND {
                new_x = self.x;
                new_y = self.y + 1;
            }
        }
        if new_x != self.x || new_y != self.y {
            self.x = new_x;
            self.y = new_y;
        }
    }
}

impl BaseParticle for AgitatedParticle {
    open spec fn in_bounds(&self) -> bool {
        in_grid(self.x as int, self.y as int)
    }

    open spec fn step_rel(&self, next: Self, f: Seq<u8>) -> bool {
        &&& next.rgba == self.rgba
        &&& exists|d: int|
            0 <= d < 4 && (next.x as int, next.y as int) == agitated_next(
                f,
                self.x as int,
                self.y as int,
                d,
            )
    }

    open spec fn colision_spec(&self, f: Seq<u8>) -> bool {
        false
    }

    fn move_particle(&mut self, frame: &mut Vec<u8>) {
        let direction = random_below(4);
        self.move_with_direction(frame, direction);
        proof {
            assert((self.x as int, self.y as int) == agitated_next(
                old(frame)@,
                old(self).x as int,
                old(self).y as int,
                direction as int,
            ));
        }
    }

    fn colision(&self, frame: &mut Vec<u8>) -> bool {
        return false;
    }
}

/// The conductor test Electricity applies to a neighbouring cell: the cell
/// must hold exactly the Water spawn colour or the Iron spawn colour.
fn is_on_conducting_element(frame: &Vec<u8>, x: u32, y: u32) -> (r: bool)
    requires
        frame_wf(frame@),
        in_grid(x as int, y as int),
    ensures
        r == conductor(frame@, x as int, y as int),
{
    let index = position_to_index(x, y);
    let is_on_water = frame[index] == 0x00 && frame[index + 1] == 0x00 && frame[index + 2]
        == 0xff && frame[index + 3] == 0xff;
    let is_on_metal = frame[index] == 0x80 && frame[index + 1] == 0x80 && frame[index + 2]
        == 0x80 && frame[index + 3] == 0xff;
    return is_on_water || is_on_metal;
}

impl ElectricityParticle {
    /// One Electricity tick with the random direction already drawn:
    /// 0 = left, 1 = right, 2 = up, 3 = down, entered only over conductors.
    pub fn move_with_direction(&mut self, frame: &Vec<u8>, direction: u32)
        requires
            direction < 4,
            old(self).in_bounds(),
            frame_wf(frame@),
        ensures
            final(self).in_bounds(),
            final(self).rgba == old(self).rgba,
            final(self).life_time == old(self).life_time,
            (final(self).x as int, final(self).y as int) == electricity_next(
                frame@,
                old(self).x as int,
                old(self).y as int,
                direction as int,
            ),
    {
        let mut new_x = self.x;
        let mut new_y = self.y;
        if direction == 0 && self.x > 0 {
            if is_on_conducting_element(frame, self.x - 1, self.y) {
                new_x = self.x - 1;
                new_y = self.y;
            }
        }
        if direction == 1 && self.x < WIDTH - 1 {
            if is_on_conducting_element(frame, self.x + 1, self.y) {
                new_x = self.x + 1;
                new_y = self.y;
            }
        }
        if direction == 2 && self.y > 0 {
            if is_on_conducting_element(frame, self.x, self.y - 1) {
                new_x = self.x;
                new_y = self.y - 1;
            }
        }
        if direction == 3 && self.y < HEIGHT - 1 {
            if is_on_conducting_element(frame, self.x, self.y + 1) {
                new_x = self.x;
                new_y = self.y + 1;
            }
        }
        if new_x != self.x || new_y != self.y {
            self.x = new_x;
            self.y = new_y;
        }
    }
}

impl BaseParticle for ElectricityParticle {
    open spec fn in_bounds(&self) -> bool {
        in_grid(self.x as int, self.y as int)
    }

    open spec fn step_rel(&self, next: Self, f: Seq<u8>) -> bool {
        &&& next.rgba == self.rgba
        &&& next.life_time == self.life_time
        &&& exists|d: int|
            0 <= d < 4 && (next.x as int, next.y as int) == electricity_next(
                f,
                self.x as int,
                self.y as int,
                d,
            )
    }

    open spec fn colision_spec(&self, f: Seq<u8>) -> bool {
        false
    }

    fn move_particle(&mut self, frame: &mut Vec<u8>) {
        let direction = random_below(4);
        self.move_with_direction(frame, direction);
        proof {
            assert((self.x as int, self.y as int) == electricity_next(
                old(frame)@,
                old(self).x as int,
                old(self).y as int,
                direction as int,
            ));
        }
    }

    fn colision(&self, frame: &mut Vec<u8>) -> bool {
        return false;
    }
}

/// An Iron particle never changes across any number of ticks: along any
/// trace whose consecutive entries are related by Iron's one-tick relation,
/// every entry equals the first, whatever frames were observed on the way.
pub proof fn lemma_iron_never_moves(trace: Seq<IronParticle>, frames: Seq<Seq<u8>>)
    requires
        trace.len() == frames.len() + 1,
        forall|i: int|
            1 <= i < trace.len() ==> #[trigger] trace[i - 1].step_rel(trace[i], frames[i - 1]),
    ensures
        forall|i: int| 0 <= i < trace.len() ==> #[trigger] trace[i] == trace[0],
{
    assert forall|i: int| 0 <= i < trace.len() implies #[trigger] trace[i] == trace[0] by {
        lemma_iron_never_moves_prefix(trace, frames, i);
    }
}

proof fn lemma_iron_never_moves_prefix(trace: Seq<IronParticle>, frames: Seq<Seq<u8>>, i: int)
    requires
        trace.len() == frames.len() + 1,
        forall|k: int|
            1 <= k < trace.len() ==> #[trigger] trace[k - 1].step_rel(trace[k], frames[k - 1]),
        0 <= i < trace.len(),
    ensures
        trace[i] == trace[0],
    decreases i,
{
    if i > 0 {
        lemma_iron_never_moves_prefix(trace, frames, i - 1);
        assert(trace[i - 1].step_rel(trace[i], frames[i - 1]));
    }
}

/// The row a Base particle reaches after `i` unobstructed ticks starting
/// from row `y`: one row per tick, stopping on the bottom row.
pub open spec fn fallen_row(y: int, i: int) -> int {
    if y + i < HEIGHT - 1 {
        y + i
    } else {
        HEIGHT - 1
    }
}

/// A Base particle with nothing below it falls exactly one row per tick
/// until it rests on the bottom row, and then stays fixed forever: along
/// any trace of rows in column `x` where each step follows Base's rule
/// against a frame whose cells below the particle are all free, the row
/// after `i` ticks is exactly `fallen_row(rows[0], i)` - so the bottom row
/// `HEIGHT - 1` is reached after `HEIGHT - 1 - rows[0]` ticks and kept.
pub proof fn lemma_base_falls(x: int, rows: Seq<int>, frames: Seq<Seq<u8>>)
    requires
        rows.len() == frames.len() + 1,
        rows.len() >= 1,
        in_grid(x, rows[0]),
        forall|i: int, yy: int|
            0 <= i < frames.len() && rows[i] < yy < HEIGHT ==> #[trigger] cell_free(
                frames[i],
                x,
                yy,
            ),
        forall|i: int|
            1 <= i < rows.len() ==> #[trigger] rows[i] == base_next(
                frames[i - 1],
                x,
                rows[i - 1],
            ).1,
    ensures
        forall|i: int| 0 <= i < rows.len() ==> #[trigger] rows[i] == fallen_row(rows[0], i),
{
    assert forall|i: int| 0 <= i < rows.len() implies #[trigger] rows[i] == fallen_row(
        rows[0],
        i,
    ) by {
        lemma_base_falls_prefix(x, rows, frames, i);
    }
}

proof fn lemma_base_falls_prefix(x: int, rows: Seq<int>, frames: Seq<Seq<u8>>, i: int)
    requires
        rows.len() == frames.len() + 1,
        in_grid(x, rows[0]),
        forall|k: int, yy: int|
            0 <= k < frames.len() && rows[k] < yy < HEIGHT ==> #[trigger] cell_free(
                frames[k],
                x,
                yy,
            ),
        forall|k: int|
            1 <= k < rows.len() ==> #[trigger] rows[k] == base_next(
                frames[k - 1],
                x,
                rows[k - 1],
            ).1,
        0 <= i < rows.len(),
    ensures
        rows[i] == fallen_row(rows[0], i),
        in_grid(x, rows[i]),
    decreases i,
{
    if i > 0 {
        lemma_base_falls_prefix(x, rows, frames, i - 1);
        let y = rows[i - 1];
        assert(rows[i] == base_next(frames[i - 1], x, rows[i - 1]).1);
        if y < HEIGHT - 1 {
            assert(cell_free(frames[i - 1], x, y + 1));
        }
    }
}

/// Sand's fixed tie-break: blocked straight below, with the down-left
/// diagonal on the grid and free, it always moves down-left, whatever the
/// down-right diagonal holds.
pub proof fn lemma_sand_prefers_left(f: Seq<u8>, x: int, y: int)
    requires
        in_grid(x, y),
        y + 1 < HEIGHT,
        !cell_free(f, x, y + 1),
        x > 0,
        cell_free(f, x - 1, y + 1),
    ensures
        sand_next(f, x, y) == (x - 1, y + 1),
{
}

} // verus!
