//! A simulator of crafting in Final Fantasy XIV: the crafting state, the actions that
//! change it, the buffs and conditions that modify those actions, and the maps from
//! the final quality to the chance of a high-quality result.
use std::marker::PhantomData;

use vstd::prelude::*;

pub mod actions;
pub mod buffs;
pub mod conditions;
pub mod grid;
pub mod lookups;
pub mod quality_map;
pub mod recipe;
pub mod rolls;
pub mod table_reader;

use crate::actions::engine::lemma_completed_quality_fits;
use crate::buffs::Buff;
use crate::actions::{ActionOutcome, RandomAction, RollOutcome, StateDelta};
use crate::conditions::sample;
use rand::rngs::StdRng;
use crate::buffs::BuffState;
use crate::conditions::Condition;
use crate::quality_map::QualityMap;
use crate::recipe::Recipe;

verus! {

/// A crafter's stats.
#[derive(Clone, Copy, Debug, Hash, PartialEq, Eq, Structural)]
pub struct CharacterStats {
    pub craftsmanship: u16,
    pub control: u16,
    pub max_cp: i16,
    /// The crafter's class level, from 1 to 90.
    pub char_level: u8,
}

impl CharacterStats {
    /// Stats a craft can be run with: a class level from 1 to 90 and a nonnegative CP
    /// pool.
    pub open spec fn wf(&self) -> bool {
        &&& 1 <= self.char_level <= 90
        &&& self.max_cp >= 0
    }

    /// The crafter's level on the scale of recipe levels.
    pub open spec fn spec_clvl(&self) -> u16 {
        (self.char_level + 17) as u16
    }

    /// The crafter's level on the scale of recipe levels.
    pub fn clvl(&self) -> (r: u16)
        requires
            1 <= self.char_level <= 90,
        ensures
            r == self.spec_clvl(),
    {
        self.char_level as u16 + 17
    }
}

/// The definition of a crafting problem: a crafter, a recipe, and the map from final
/// quality to outcome.
#[derive(Debug, Hash, PartialEq, Eq)]
pub struct CraftingSimulator<C: Condition, M: QualityMap> {
    pub character: CharacterStats,
    pub recipe: Recipe<C>,
    pub quality_map: PhantomData<M>,
}

impl<C: Condition, M: QualityMap> CraftingSimulator<C, M> {
    /// A problem a craft can be run on.
    pub open spec fn wf(&self) -> bool {
        &&& self.character.wf()
        &&& self.recipe.wf()
    }

    /// A problem whose base progress and quality can be computed: a class level from 1
    /// to 90 and positive dividers. Every row of the recipe level table has positive
    /// dividers, so every recipe built from the table has them; a zero divider would
    /// make the base infinite, which no integer can hold.
    pub open spec fn computable(&self) -> bool {
        &&& 1 <= self.character.char_level <= 90
        &&& self.recipe.progress_divider > 0
        &&& self.recipe.quality_divider > 0
    }

    /// Sets up the problem of crafting `recipe` with `character`.
    pub fn from_character_recipe(character: CharacterStats, recipe: Recipe<C>) -> (r: Self)
        ensures
            r.character == character,
            r.recipe == recipe,
    {
        CraftingSimulator { character, recipe, quality_map: PhantomData }
    }

    /// Base progress before the action's efficiency: a tenth of craftsmanship per unit
    /// of the recipe's progress divider plus 2, scaled by the recipe's progress
    /// modifier (in percent) unless the crafter is above the recipe's level; each step
    /// rounds down.
    pub open spec fn spec_base_progress(&self) -> int {
        let p = self.character.craftsmanship * 10 / self.recipe.progress_divider as int + 2;
        if self.character.spec_clvl() <= self.recipe.rlvl.0 {
            p * self.recipe.progress_modifier / 100
        } else {
            p
        }
    }

    /// Base quality before the action's efficiency: a tenth of control per unit of the
    /// recipe's quality divider plus 35, scaled by the recipe's quality modifier (in
    /// percent) unless the crafter is above the recipe's level; each step rounds down.
    pub open spec fn spec_base_quality(&self) -> int {
        let q = self.character.control * 10 / self.recipe.quality_divider as int + 35;
        if self.character.spec_clvl() <= self.recipe.rlvl.0 {
            q * self.recipe.quality_modifier / 100
        } else {
            q
        }
    }

    /// Base progress of the crafter on the recipe.
    pub fn base_progress(&self) -> (r: u32)
        requires
            self.computable(),
        ensures
            r == self.spec_base_progress(),
    {
        let p: u32 = self.character.craftsmanship as u32 * 10
            / self.recipe.progress_divider as u32 + 2;
        if self.character.clvl() <= self.recipe.rlvl.0 {
            assert(p * self.recipe.progress_modifier <= 655352 * 65535) by (nonlinear_arith)
                requires
                    p <= 655352,
            ;
            ((p as u64) * (self.recipe.progress_modifier as u64) / 100) as u32
        } else {
            p
        }
    }

    /// Base quality of the crafter on the recipe.
    pub fn base_quality(&self) -> (r: u32)
        requires
            self.computable(),
        ensures
            r == self.spec_base_quality(),
    {
        let q: u32 = self.character.control as u32 * 10 / self.recipe.quality_divider as u32 + 35;
        if self.character.clvl() <= self.recipe.rlvl.0 {
            assert(q * self.recipe.quality_modifier <= 655385 * 65535) by (nonlinear_arith)
                requires
                    q <= 655385,
            ;
            ((q as u64) * (self.recipe.quality_modifier as u64) / 100) as u32
        } else {
            q
        }
    }
}

/// The state of a craft in progress.
#[derive(Clone, Copy, Debug)]
pub struct CraftingState<'a, C: Condition, M: QualityMap> {
    pub problem_def: &'a CraftingSimulator<C, M>,
    pub condition: C,
    pub curr_quality: u32,
    pub curr_progress: u32,
    pub curr_durability: i8,
    pub curr_cp: i16,
    pub buffs: BuffState,
    /// Whether no action that passes time has been taken yet.
    pub first_step: bool,
}

impl<'a, C: Condition, M: QualityMap> CraftingState<'a, C, M> {
    /// A state an action can be taken in: a well-formed problem and buffs, CP within
    /// the pool, durability left, and progress short of the goal.
    pub open spec fn valid(&self) -> bool {
        &&& self.problem_def.wf()
        &&& self.buffs.wf()
        &&& 0 <= self.curr_cp <= self.problem_def.character.max_cp
        &&& 0 < self.curr_durability <= self.problem_def.recipe.max_durability
        &&& self.curr_progress < self.problem_def.recipe.max_progress
    }

    /// A state an action can be worked out in, whatever its CP, durability, quality
    /// or progress: a computable problem, well-formed buffs, and, while Final Appraisal
    /// is active, progress short of the goal.
    pub open spec fn actionable(&self) -> bool {
        &&& self.problem_def.computable()
        &&& self.buffs.wf()
        &&& self.buffs.progress.final_appraisal.spec_active() ==> self.curr_progress
            < self.problem_def.recipe.max_progress
    }

    pub open spec fn spec_new_simulation(problem_def: &'a CraftingSimulator<C, M>) -> Self {
        CraftingState {
            problem_def,
            condition: problem_def.recipe.initial_condition,
            curr_quality: 0,
            curr_progress: 0,
            curr_durability: problem_def.recipe.max_durability,
            curr_cp: problem_def.character.max_cp,
            buffs: BuffState::spec_new(),
            first_step: true,
        }
    }

    /// The state at the start of a craft: the recipe's starting condition, no quality
    /// or progress, full durability and CP, no buffs, and no step taken.
    pub fn new_simulation(problem_def: &'a CraftingSimulator<C, M>) -> (r: Self)
        ensures
            r == Self::spec_new_simulation(problem_def),
            problem_def.wf() ==> r.valid(),
            problem_def.computable() ==> r.actionable(),
    {
        CraftingState {
            problem_def,
            condition: problem_def.recipe.initial_condition,
            curr_quality: 0,
            curr_progress: 0,
            curr_durability: problem_def.recipe.max_durability,
            curr_cp: problem_def.character.max_cp,
            buffs: BuffState::new(),
            first_step: true,
        }
    }

    /// Base progress of the crafter on the recipe (see
    /// [`CraftingSimulator::spec_base_progress`]).
    pub fn base_progress(&self) -> (r: u32)
        requires
            self.problem_def.computable(),
        ensures
            r == self.problem_def.spec_base_progress(),
    {
        self.problem_def.base_progress()
    }

    /// Base quality of the crafter on the recipe (see
    /// [`CraftingSimulator::spec_base_quality`]).
    pub fn base_quality(&self) -> (r: u32)
        requires
            self.problem_def.computable(),
        ensures
            r == self.problem_def.spec_base_quality(),
    {
        self.problem_def.base_quality()
    }
}

impl<'a, C: Condition, M: QualityMap> CraftingState<'a, C, M> {
    /// Whether `delta` can be applied to the state without leaving the ranges of the
    /// state's numbers.
    pub open spec fn spec_can_apply(&self, delta: StateDelta) -> bool {
        &&& self.curr_quality + delta.added_quality <= u32::MAX
        &&& self.curr_progress + delta.added_progress <= u32::MAX
        &&& self.curr_durability + delta.buff_repair + delta.action_durability >= i8::MIN
        &&& self.curr_cp + delta.added_cp >= i16::MIN
    }

    /// The state after `delta`: quality and progress added, the new buffs, durability
    /// and CP changed but capped at the recipe's durability and the crafter's CP pool,
    /// and the first step over once a turn has passed. The condition is kept.
    pub open spec fn spec_apply(self, delta: StateDelta) -> Self {
        let durability = self.curr_durability + delta.buff_repair + delta.action_durability;
        let cp = self.curr_cp + delta.added_cp;
        CraftingState {
            curr_quality: (self.curr_quality + delta.added_quality) as u32,
            curr_progress: (self.curr_progress + delta.added_progress) as u32,
            buffs: delta.new_buffs,
            curr_durability: (if durability < self.problem_def.recipe.max_durability {
                durability
            } else {
                self.problem_def.recipe.max_durability as int
            }) as i8,
            curr_cp: (if cp < self.problem_def.character.max_cp {
                cp
            } else {
                self.problem_def.character.max_cp as int
            }) as i16,
            first_step: self.first_step && !delta.time_passed,
            ..self
        }
    }

    /// Applies `delta` to the state.
    pub fn apply(self, delta: StateDelta) -> (r: Self)
        requires
            self.spec_can_apply(delta),
        ensures
            r == self.spec_apply(delta),
    {
        let durability = self.curr_durability as i16 + delta.buff_repair as i16
            + delta.action_durability as i16;
        let cp = self.curr_cp as i32 + delta.added_cp as i32;
        let max_durability = self.problem_def.recipe.max_durability;
        let max_cp = self.problem_def.character.max_cp;
        CraftingState {
            curr_quality: self.curr_quality + delta.added_quality,
            curr_progress: self.curr_progress + delta.added_progress,
            buffs: delta.new_buffs,
            curr_durability: if durability < max_durability as i16 {
                durability as i8
            } else {
                max_durability
            },
            curr_cp: if cp < max_cp as i32 {
                cp as i16
            } else {
                max_cp
            },
            first_step: self.first_step && !delta.time_passed,
            ..self
        }
    }

    /// The successor state: `delta` applied, and the next condition drawn from
    /// `condition_rng`. The condition moves on after every action of a craft that goes
    /// on, including those that take no time.
    pub fn gen_succ(self, delta: StateDelta, condition_rng: &mut StdRng) -> (r: Self)
        requires
            self.spec_can_apply(delta),
        ensures
            r == (CraftingState { condition: r.condition, ..self.spec_apply(delta) }),
            exists|roll: int| 0 <= roll < 100 && r.condition == self.condition.spec_next(roll),
            !self.condition.spec_needs_roll() ==> *final(condition_rng) == *old(condition_rng),
    {
        let condition = sample(self.condition, condition_rng);
        CraftingState { condition, ..self.apply(delta) }
    }

    /// Whether `r` is what [`CraftingState::act`] gives when the action `kind` succeeds
    /// (`failed` false) or fails (`failed` true): the outcome of the action, with the
    /// delta applied and, for a craft that goes on, a condition that follows the
    /// current one.
    pub open spec fn spec_act_result(
        self,
        kind: crate::actions::FfxivCraftingActions,
        failed: bool,
        r: Outcome<'a, C, M>,
    ) -> bool {
        let delta = kind.spec_delta(failed, self);
        match kind.spec_outcome(failed, self) {
            ActionOutcome::Completed(d) => r matches Outcome::Completed { state, delta: rd, outcome }
                && rd == d && state == self.spec_apply(d) && Some(outcome)
                == ActionOutcome::Completed(d).spec_map_quality(self),
            ActionOutcome::Failure(d) => r matches Outcome::Failure { state, delta: rd } && rd == d
                && state == self.spec_apply(d),
            ActionOutcome::InProgress(d) => r matches Outcome::InProgress { state, delta: rd }
                && rd == d && state == (CraftingState {
                condition: state.condition,
                ..self.spec_apply(d)
            }) && exists|roll: int|
                0 <= roll < 100 && state.condition == self.condition.spec_next(roll),
        }
    }

    /// Takes `action`: rolls for its success with `action_rng` (a failure exactly when
    /// the roll falls below the fail rate), applies the change of the action or of its
    /// failure, and for a craft that goes on draws the next condition from
    /// `condition_rng`, which is left alone when the craft ends. A completed craft also
    /// reports the outcome of its final quality.
    pub fn act<A: RandomAction>(
        self,
        action: A,
        action_rng: &mut StdRng,
        condition_rng: &mut StdRng,
    ) -> (r: Outcome<'a, C, M>)
        requires
            self.actionable(),
            A::spec_kind().spec_cp_ok(self),
            A::spec_kind().spec_can_execute(self),
            M::spec_accepts(self.problem_def.recipe.max_quality),
            self.spec_can_apply(A::spec_kind().spec_outcome(A::spec_failed(), self).spec_outcome()),
            self.spec_can_apply(A::spec_kind().spec_outcome(true, self).spec_outcome()),
        ensures
            exists|p: int|
                0 <= p < 100 && self.spec_act_result(
                    A::spec_kind(),
                    if A::spec_kind().spec_roll_fails(self, p) {
                        true
                    } else {
                        A::spec_failed()
                    },
                    r,
                ),
            A::spec_kind().spec_fail_rate(self) == 0 ==> *final(action_rng) == *old(action_rng),
            !(r is InProgress) ==> *final(condition_rng) == *old(condition_rng),
    {
        let rolled = action.act_random(action_rng, &self);
        let ghost p = choose|p: int|
            0 <= p < 100 && rolled == (if A::spec_kind().spec_roll_fails(self, p) {
                RollOutcome::<ActionOutcome, ActionOutcome>::Failure(
                    A::spec_kind().spec_outcome(true, self),
                )
            } else {
                RollOutcome::<ActionOutcome, ActionOutcome>::Success(
                    A::spec_kind().spec_outcome(A::spec_failed(), self),
                )
            });
        let ghost failed = if A::spec_kind().spec_roll_fails(self, p) {
            true
        } else {
            A::spec_failed()
        };
        let outcome = match rolled {
            RollOutcome::Success(o) => o,
            RollOutcome::Failure(o) => o,
        };
        assert(outcome == A::spec_kind().spec_outcome(failed, self));
        proof {
            lemma_completed_quality_fits(A::spec_kind(), failed, self);
        }
        let r = match outcome {
            ActionOutcome::Completed(delta) => {
                let state = self.apply(delta);
                let mapped = outcome.map_quality(&self);
                Outcome::Completed { state, delta, outcome: mapped.unwrap() }
            },
            ActionOutcome::Failure(delta) => Outcome::Failure { state: self.apply(delta), delta },
            ActionOutcome::InProgress(delta) => Outcome::InProgress {
                state: self.gen_succ(delta, condition_rng),
                delta,
            },
        };
        assert(self.spec_act_result(A::spec_kind(), failed, r));
        r
    }
}

impl<'a, C: Condition, M: QualityMap> std::ops::Add<StateDelta> for CraftingState<'a, C, M> {
    type Output = Self;

    /// Applies `other` to the state (see [`CraftingState::spec_apply`]).
    fn add(self, other: StateDelta) -> (r: Self)
        ensures
            r == self.spec_apply(other),
    {
        self.apply(other)
    }
}

impl<'a, C: Condition, M: QualityMap> vstd::std_specs::ops::AddSpecImpl<StateDelta> for CraftingState<'a, C, M> {
    open spec fn obeys_add_spec() -> bool {
        true
    }

    open spec fn add_req(self, rhs: StateDelta) -> bool {
        self.spec_can_apply(rhs)
    }

    open spec fn add_spec(self, rhs: StateDelta) -> Self {
        self.spec_apply(rhs)
    }
}

impl<'a, C: Condition, M: QualityMap> std::ops::Add<StateDelta> for &'a CraftingState<'a, C, M> {
    type Output = CraftingState<'a, C, M>;

    /// Applies `other` to a copy of the state (see [`CraftingState::spec_apply`]).
    fn add(self, other: StateDelta) -> (r: CraftingState<'a, C, M>)
        ensures
            r == self.spec_apply(other),
    {
        self.apply(other)
    }
}

impl<'a, C: Condition, M: QualityMap> vstd::std_specs::ops::AddSpecImpl<StateDelta> for &'a CraftingState<'a, C, M> {
    open spec fn obeys_add_spec() -> bool {
        true
    }

    open spec fn add_req(self, rhs: StateDelta) -> bool {
        self.spec_can_apply(rhs)
    }

    open spec fn add_spec(self, rhs: StateDelta) -> CraftingState<'a, C, M> {
        self.spec_apply(rhs)
    }
}

impl<'a, C: Condition, M: QualityMap> CraftingState<'a, C, M> {
    /// The state after `delta` is added in place: the sums wrap around where they leave
    /// the range of their type, and durability and CP are then capped at the recipe's
    /// durability and the crafter's CP pool.
    pub open spec fn spec_accumulate(self, delta: StateDelta) -> Self {
        let cp = self.curr_cp.wrapping_add(delta.added_cp);
        let durability = self.curr_durability.wrapping_add(
            delta.buff_repair.wrapping_add(delta.action_durability),
        );
        CraftingState {
            curr_quality: self.curr_quality.wrapping_add(delta.added_quality),
            curr_progress: self.curr_progress.wrapping_add(delta.added_progress),
            curr_cp: if cp < self.problem_def.character.max_cp {
                cp
            } else {
                self.problem_def.character.max_cp
            },
            curr_durability: if durability < self.problem_def.recipe.max_durability {
                durability
            } else {
                self.problem_def.recipe.max_durability
            },
            buffs: delta.new_buffs,
            first_step: self.first_step && !delta.time_passed,
            ..self
        }
    }

    /// Whether adding `delta` in place keeps every sum in the range of its type.
    pub open spec fn spec_accumulates_exactly(self, delta: StateDelta) -> bool {
        &&& self.curr_quality + delta.added_quality <= u32::MAX
        &&& self.curr_progress + delta.added_progress <= u32::MAX
        &&& i16::MIN <= self.curr_cp + delta.added_cp <= i16::MAX
        &&& i8::MIN <= delta.buff_repair + delta.action_durability <= i8::MAX
        &&& i8::MIN <= self.curr_durability + delta.buff_repair + delta.action_durability <= i8::MAX
    }
}

impl<'a, C: Condition, M: QualityMap> std::ops::AddAssign<StateDelta> for CraftingState<'a, C, M> {
    /// Adds `rhs` to the state in place (see [`CraftingState::spec_accumulate`]).
    fn add_assign(&mut self, rhs: StateDelta)
        ensures
            *final(self) == old(self).spec_accumulate(rhs),
    {
        let max_cp = self.problem_def.character.max_cp;
        let max_durability = self.problem_def.recipe.max_durability;
        self.curr_quality = self.curr_quality.wrapping_add(rhs.added_quality);
        self.curr_progress = self.curr_progress.wrapping_add(rhs.added_progress);
        let cp = self.curr_cp.wrapping_add(rhs.added_cp);
        self.curr_cp = if cp < max_cp {
            cp
        } else {
            max_cp
        };
        let durability = self.curr_durability.wrapping_add(
            rhs.buff_repair.wrapping_add(rhs.action_durability),
        );
        self.curr_durability = if durability < max_durability {
            durability
        } else {
            max_durability
        };
        self.buffs = rhs.new_buffs;
        self.first_step = self.first_step && !rhs.time_passed;
    }
}

/// Adding a delta to a state with `+` gives the state that adding it in place with `+=`
/// leaves, wherever neither wraps around.
pub proof fn law_add_matches_add_assign<'a, C: Condition, M: QualityMap>(
    state: CraftingState<'a, C, M>,
    delta: StateDelta,
)
    requires
        state.spec_accumulates_exactly(delta),
    ensures
        state.spec_can_apply(delta),
        state.spec_apply(delta) == state.spec_accumulate(delta),
{
}

impl<'a, C: Condition, M: QualityMap> CraftingState<'a, C, M> {
    /// Whether two states of a craft are the same: everything but the problem they
    /// belong to is compared.
    pub open spec fn spec_same_state(&self, other: &Self) -> bool {
        &&& self.condition == other.condition
        &&& self.curr_quality == other.curr_quality
        &&& self.curr_progress == other.curr_progress
        &&& self.curr_durability == other.curr_durability
        &&& self.curr_cp == other.curr_cp
        &&& self.buffs == other.buffs
        &&& self.first_step == other.first_step
    }
}

impl<'a, C: Condition, M: QualityMap> PartialEq for CraftingState<'a, C, M> {
    /// Compares everything but the problem the states belong to.
    fn eq(&self, other: &Self) -> (r: bool) {
        self.condition.same(other.condition) && self.curr_quality == other.curr_quality
            && self.curr_progress == other.curr_progress && self.curr_durability
            == other.curr_durability && self.curr_cp == other.curr_cp && self.buffs
            == other.buffs && self.first_step == other.first_step
    }
}

impl<'a, C: Condition, M: QualityMap> vstd::std_specs::cmp::PartialEqSpecImpl for CraftingState<'a, C, M> {
    open spec fn obeys_eq_spec() -> bool {
        true
    }

    open spec fn eq_spec(&self, other: &Self) -> bool {
        self.spec_same_state(other)
    }
}

impl<'a, C: Condition, M: QualityMap> Eq for CraftingState<'a, C, M> {

}

/// The result of taking an action in a state.
pub enum Outcome<'a, C: Condition, M: QualityMap> {
    /// The craft goes on.
    InProgress { state: CraftingState<'a, C, M>, delta: StateDelta },
    /// The craft completed; `outcome` is what its final quality maps to.
    Completed { state: CraftingState<'a, C, M>, delta: StateDelta, outcome: M::Outcome },
    /// The craft failed.
    Failure { state: CraftingState<'a, C, M>, delta: StateDelta },
}

} // verus!
