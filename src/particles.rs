use vstd::prelude::*;

use crate::yoshida::{yoshida_plan, yoshida_stages, Stage, Weight};

verus! {

/// What a particle table holds: particle `i` is the row
/// `(positions[i], velocities[i], masses[i])`, and `potential` is the
/// optional external force field.
pub struct ParticlesModel<V, M, P> {
    pub positions: Seq<V>,
    pub velocities: Seq<V>,
    pub masses: Seq<M>,
    pub potential: Option<P>,
}

impl<V, M, P> ParticlesModel<V, M, P> {
    /// The three per-particle sequences are aligned row by row.
    pub open spec fn wf(self) -> bool {
        &&& self.velocities.len() == self.positions.len()
        &&& self.masses.len() == self.positions.len()
    }

    pub open spec fn len(self) -> nat {
        self.positions.len()
    }
}

/// Why an integration step stopped before its last sub-stage.
#[derive(Debug, PartialEq, Eq)]
pub enum StepError<E> {
    /// The force field reported a failure (for instance the external potential failed).
    Field(E),
    /// The force field returned a number of forces other than the number of particles.
    FieldLength { expected: usize, found: usize },
}

/// A run that stopped: `step` steps had completed when step number `step`
/// (counting from zero) failed with `error`.
#[derive(Debug, PartialEq, Eq)]
pub struct RunFailure<E> {
    pub step: usize,
    pub error: StepError<E>,
}

/// `out` is a possible result of evaluating the force field on the positions
/// and the potential of `s`.
pub open spec fn field_gives<V, M, P, E, F: Fn(&Vec<V>, &Option<P>) -> Result<Vec<V>, E>>(
    field: F,
    s: ParticlesModel<V, M, P>,
    out: Result<Vec<V>, E>,
) -> bool {
    exists|pv: Vec<V>| pv@ == s.positions && #[trigger] field.ensures((&pv, &s.potential), out)
}

/// `t` is `s` after a drift with weight `w`: every position is advanced along
/// its own velocity, and nothing else changes.
pub open spec fn drifted<V, M, P, U: Fn(Weight, &V, &V) -> V>(
    advance: U,
    w: Weight,
    s: ParticlesModel<V, M, P>,
    t: ParticlesModel<V, M, P>,
) -> bool {
    &&& t.positions.len() == s.positions.len()
    &&& forall|i: int|
        0 <= i < s.positions.len() ==> advance.ensures(
            (w, &s.positions[i], &s.velocities[i]),
            #[trigger] t.positions[i],
        )
    &&& t.velocities == s.velocities
    &&& t.masses == s.masses
    &&& t.potential == s.potential
}

/// `t` is `s` after a kick with weight `w` under `forces`: every velocity is
/// advanced along the force on its own particle, and nothing else changes.
pub open spec fn kicked<V, M, P, U: Fn(Weight, &V, &V) -> V>(
    advance: U,
    w: Weight,
    forces: Seq<V>,
    s: ParticlesModel<V, M, P>,
    t: ParticlesModel<V, M, P>,
) -> bool {
    &&& t.velocities.len() == s.velocities.len()
    &&& forall|i: int|
        0 <= i < s.velocities.len() ==> advance.ensures(
            (w, &s.velocities[i], &forces[i]),
            #[trigger] t.velocities[i],
        )
    &&& t.positions == s.positions
    &&& t.masses == s.masses
    &&& t.potential == s.potential
}

/// `t` is `s` after the sub-stage `stage`; a kick uses one force field
/// evaluated on `s` itself, with one force per particle.
pub open spec fn stage_done<V, M, P, E, U: Fn(Weight, &V, &V) -> V, F: Fn(&Vec<V>, &Option<P>) -> Result<Vec<V>, E>>(
    advance: U,
    field: F,
    stage: Stage,
    s: ParticlesModel<V, M, P>,
    t: ParticlesModel<V, M, P>,
) -> bool {
    match stage {
        Stage::Drift(w) => drifted(advance, w, s, t),
        Stage::Kick(w) => exists|fv: Vec<V>|
            #[trigger] field_gives(field, s, Ok::<Vec<V>, E>(fv)) && fv@.len() == s.len() && kicked(
                advance,
                w,
                fv@,
                s,
                t,
            ),
    }
}

/// `trace` lists the states before and after each of `stages`, in order.
pub open spec fn follows_stages<V, M, P, E, U: Fn(Weight, &V, &V) -> V, F: Fn(&Vec<V>, &Option<P>) -> Result<Vec<V>, E>>(
    advance: U,
    field: F,
    stages: Seq<Stage>,
    trace: Seq<ParticlesModel<V, M, P>>,
) -> bool {
    &&& trace.len() == stages.len() + 1
    &&& forall|k: int|
        0 <= k < stages.len() ==> stage_done(advance, field, #[trigger] stages[k], trace[k], trace[k + 1])
}

/// `t` is `s` after one full integration step: the seven sub-stages of
/// `yoshida_plan`, applied in order.
pub open spec fn yoshida_step<V, M, P, E, U: Fn(Weight, &V, &V) -> V, F: Fn(&Vec<V>, &Option<P>) -> Result<Vec<V>, E>>(
    advance: U,
    field: F,
    s: ParticlesModel<V, M, P>,
    t: ParticlesModel<V, M, P>,
) -> bool {
    exists|trace: Seq<ParticlesModel<V, M, P>>|
        #[trigger] follows_stages(advance, field, yoshida_plan(), trace) && trace[0] == s && trace[7]
            == t
}

/// Evaluating the force field on `t` ends the step with `err`.
pub open spec fn field_failed<V, M, P, E, F: Fn(&Vec<V>, &Option<P>) -> Result<Vec<V>, E>>(
    field: F,
    t: ParticlesModel<V, M, P>,
    err: StepError<E>,
) -> bool {
    match err {
        StepError::Field(e) => field_gives(field, t, Err::<Vec<V>, E>(e)),
        StepError::FieldLength { expected, found } => {
            &&& expected == t.len()
            &&& found != expected
            &&& exists|fv: Vec<V>|
                #[trigger] field_gives(field, t, Ok::<Vec<V>, E>(fv)) && fv@.len() == found
        },
    }
}

/// A step from `s` stopped in state `t` with `err`: the sub-stages before some
/// kick were applied, and the force field evaluated for that kick failed.
pub open spec fn step_failed<V, M, P, E, U: Fn(Weight, &V, &V) -> V, F: Fn(&Vec<V>, &Option<P>) -> Result<Vec<V>, E>>(
    advance: U,
    field: F,
    s: ParticlesModel<V, M, P>,
    t: ParticlesModel<V, M, P>,
    err: StepError<E>,
) -> bool {
    exists|trace: Seq<ParticlesModel<V, M, P>>, k: int|
        0 <= k < 7 && yoshida_plan()[k] is Kick && #[trigger] follows_stages(
            advance,
            field,
            yoshida_plan().take(k),
            trace,
        ) && trace[0] == s && trace[k] == t && field_failed(field, t, err)
}

/// `t` is `s` after `n` full integration steps, one after the other.
pub open spec fn steps_done<V, M, P, E, U: Fn(Weight, &V, &V) -> V, F: Fn(&Vec<V>, &Option<P>) -> Result<Vec<V>, E>>(
    advance: U,
    field: F,
    n: nat,
    s: ParticlesModel<V, M, P>,
    t: ParticlesModel<V, M, P>,
) -> bool {
    exists|trace: Seq<ParticlesModel<V, M, P>>|
        #[trigger] steps_trace(advance, field, trace) && trace.len() == n + 1 && trace[0] == s
            && trace[n as int] == t
}

/// Each state of `trace` is one integration step after the one before it.
pub open spec fn steps_trace<V, M, P, E, U: Fn(Weight, &V, &V) -> V, F: Fn(&Vec<V>, &Option<P>) -> Result<Vec<V>, E>>(
    advance: U,
    field: F,
    trace: Seq<ParticlesModel<V, M, P>>,
) -> bool {
    forall|k: int| 0 <= k < trace.len() - 1 ==> yoshida_step(advance, field, #[trigger] trace[k], trace[k + 1])
}

/// Every closure a step calls accepts every argument.
pub open spec fn total<V, P, E, U: Fn(Weight, &V, &V) -> V, F: Fn(&Vec<V>, &Option<P>) -> Result<Vec<V>, E>>(
    advance: U,
    field: F,
) -> bool {
    &&& forall|w: Weight, a: &V, b: &V| #[trigger] advance.requires((w, a, b))
    &&& forall|pv: &Vec<V>, pot: &Option<P>| #[trigger] field.requires((pv, pot))
}

/// A sub-stage keeps the masses, the potential and the number of particles.
proof fn lemma_stage_keeps_rows<V, M, P, E, U: Fn(Weight, &V, &V) -> V, F: Fn(&Vec<V>, &Option<P>) -> Result<Vec<V>, E>>(
    advance: U,
    field: F,
    stage: Stage,
    s: ParticlesModel<V, M, P>,
    t: ParticlesModel<V, M, P>,
)
    requires
        s.wf(),
        stage_done(advance, field, stage, s, t),
    ensures
        t.wf(),
        t.masses == s.masses,
        t.potential == s.potential,
        t.len() == s.len(),
        s.len() == 0 ==> t == s,
{
    if s.len() == 0 {
        assert(t.positions =~= s.positions);
        assert(t.velocities =~= s.velocities);
    }
}

/// Every state of a trace of sub-stages keeps the rows of the first state.
proof fn lemma_trace_keeps_rows<V, M, P, E, U: Fn(Weight, &V, &V) -> V, F: Fn(&Vec<V>, &Option<P>) -> Result<Vec<V>, E>>(
    advance: U,
    field: F,
    stages: Seq<Stage>,
    trace: Seq<ParticlesModel<V, M, P>>,
    k: int,
)
    requires
        trace[0].wf(),
        follows_stages(advance, field, stages, trace),
        0 <= k < trace.len(),
    ensures
        trace[k].wf(),
        trace[k].masses == trace[0].masses,
        trace[k].potential == trace[0].potential,
        trace[k].len() == trace[0].len(),
        trace[0].len() == 0 ==> trace[k] == trace[0],
    decreases k,
{
    if k > 0 {
        lemma_trace_keeps_rows(advance, field, stages, trace, k - 1);
        assert(stage_done(advance, field, stages[k - 1], trace[k - 1], trace[k]));
        lemma_stage_keeps_rows(advance, field, stages[k - 1], trace[k - 1], trace[k]);
    }
}

/// An integration step never changes the masses, the external potential or
/// the number of particles, whether it completes or fails part way.
pub proof fn lemma_step_keeps_rows<V, M, P, E, U: Fn(Weight, &V, &V) -> V, F: Fn(&Vec<V>, &Option<P>) -> Result<Vec<V>, E>>(
    advance: U,
    field: F,
    s: ParticlesModel<V, M, P>,
    t: ParticlesModel<V, M, P>,
    err: StepError<E>,
)
    requires
        s.wf(),
        yoshida_step(advance, field, s, t) || step_failed(advance, field, s, t, err),
    ensures
        t.wf(),
        t.masses == s.masses,
        t.potential == s.potential,
        t.len() == s.len(),
{
    if yoshida_step(advance, field, s, t) {
        let trace = choose|trace: Seq<ParticlesModel<V, M, P>>|
            #[trigger] follows_stages(advance, field, yoshida_plan(), trace) && trace[0] == s
                && trace[7] == t;
        lemma_trace_keeps_rows(advance, field, yoshida_plan(), trace, 7);
    } else {
        let (trace, k) = choose|trace: Seq<ParticlesModel<V, M, P>>, k: int|
            0 <= k < 7 && yoshida_plan()[k] is Kick && #[trigger] follows_stages(
                advance,
                field,
                yoshida_plan().take(k),
                trace,
            ) && trace[0] == s && trace[k] == t && field_failed(field, t, err);
        lemma_trace_keeps_rows(advance, field, yoshida_plan().take(k), trace, k);
    }
}

/// On a system without particles an integration step changes nothing.
pub proof fn lemma_empty_step_is_noop<V, M, P, E, U: Fn(Weight, &V, &V) -> V, F: Fn(&Vec<V>, &Option<P>) -> Result<Vec<V>, E>>(
    advance: U,
    field: F,
    s: ParticlesModel<V, M, P>,
    t: ParticlesModel<V, M, P>,
)
    requires
        s.wf(),
        s.len() == 0,
        yoshida_step(advance, field, s, t),
    ensures
        t == s,
{
    let trace = choose|trace: Seq<ParticlesModel<V, M, P>>|
        #[trigger] follows_stages(advance, field, yoshida_plan(), trace) && trace[0] == s
            && trace[7] == t;
    lemma_trace_keeps_rows(advance, field, yoshida_plan(), trace, 7);
}

/// A data-oriented N-particle system: positions, velocities and masses are
/// kept in three equal-length vectors indexed by the implicit particle number,
/// next to an optional external potential `P`.
pub struct Particles<V, M, P> {
    positions: Vec<V>,
    velocities: Vec<V>,
    masses: Vec<M>,
    potential: Option<P>,
}

impl<V, M, P> View for Particles<V, M, P> {
    type V = ParticlesModel<V, M, P>;

    closed spec fn view(&self) -> ParticlesModel<V, M, P> {
        ParticlesModel {
            positions: self.positions@,
            velocities: self.velocities@,
            masses: self.masses@,
            potential: self.potential,
        }
    }
}

impl<V, M, P> Default for Particles<V, M, P> {
    /// An empty system without external potential.
    fn default() -> (r: Self)
        ensures
            r.wf(),
            r@.positions == Seq::<V>::empty(),
            r@.velocities == Seq::<V>::empty(),
            r@.masses == Seq::<M>::empty(),
            r@.potential is None,
    {
        Self::new()
    }
}

impl<V, M, P> Particles<V, M, P> {
    pub open spec fn wf(&self) -> bool {
        self@.wf()
    }

    /// An empty system without external potential.
    pub fn new() -> (r: Self)
        ensures
            r.wf(),
            r@.positions == Seq::<V>::empty(),
            r@.velocities == Seq::<V>::empty(),
            r@.masses == Seq::<M>::empty(),
            r@.potential is None,
    {
        Particles { positions: Vec::new(), velocities: Vec::new(), masses: Vec::new(), potential: None }
    }

    /// Installs `potential` as the external force field, replacing any earlier one.
    pub fn set_potential(&mut self, potential: P)
        ensures
            final(self)@ == (ParticlesModel { potential: Some(potential), ..old(self)@ }),
    {
        self.potential = Some(potential);
    }

    pub fn has_potential(&self) -> (r: bool)
        ensures
            r == self@.potential is Some,
    {
        self.potential.is_some()
    }

    /// Removes the external force field.
    pub fn unset_potential(&mut self)
        ensures
            final(self)@ == (ParticlesModel { potential: None::<P>, ..old(self)@ }),
    {
        self.potential = None;
    }

    /// Appends one particle; returns the new number of particles.
    pub fn add_particle(&mut self, x: V, v: V, m: M) -> (r: usize)
        requires
            old(self).wf(),
        ensures
            final(self).wf(),
            final(self)@ == (ParticlesModel {
                positions: old(self)@.positions.push(x),
                velocities: old(self)@.velocities.push(v),
                masses: old(self)@.masses.push(m),
                potential: old(self)@.potential,
            }),
            r == final(self)@.len(),
    {
        self.particle(x, v, m);
        self.positions.len()
    }

    /// Builder form of `add_particle`: appends one particle and hands the
    /// system back for further calls.
    pub fn particle(&mut self, x: V, v: V, m: M) -> (r: &mut Self)
        requires
            old(self).wf(),
        ensures
            r.wf(),
            r@ == (ParticlesModel {
                positions: old(self)@.positions.push(x),
                velocities: old(self)@.velocities.push(v),
                masses: old(self)@.masses.push(m),
                potential: old(self)@.potential,
            }),
            *final(self) == *final(r),
    {
        self.positions.push(x);
        self.velocities.push(v);
        self.masses.push(m);
        self
    }

    /// Positions in the order the particles were added.
    pub fn positions(&self) -> (r: &Vec<V>)
        ensures
            r@ == self@.positions,
    {
        &self.positions
    }

    /// Velocities in the order the particles were added.
    pub fn velocities(&self) -> (r: &Vec<V>)
        ensures
            r@ == self@.velocities,
    {
        &self.velocities
    }

    /// Masses in the order the particles were added.
    pub fn masses(&self) -> (r: &Vec<M>)
        ensures
            r@ == self@.masses,
    {
        &self.masses
    }

    pub fn num_particles(&self) -> (r: usize)
        ensures
            r == self@.len(),
    {
        self.positions.len()
    }
}

impl<V, M, P> Particles<V, M, P> {
    /// Drift with weight `w`: position `i` becomes `advance(w, positions[i], velocities[i])`.
    fn update_positions<E, U: Fn(Weight, &V, &V) -> V, F: Fn(&Vec<V>, &Option<P>) -> Result<Vec<V>, E>>(
        &mut self,
        w: Weight,
        advance: &U,
        field: &F,
    )
        requires
            old(self).wf(),
            total(*advance, *field),
        ensures
            final(self).wf(),
            drifted(*advance, w, old(self)@, final(self)@),
    {
        let n = self.positions.len();
        let mut next: Vec<V> = Vec::new();
        let mut i: usize = 0;
        while i < n
            invariant
                self.wf(),
                n == self.positions.len(),
                total(*advance, *field),
                i <= n,
                next@.len() == i,
                forall|j: int|
                    0 <= j < i ==> advance.ensures(
                        (w, &self.positions@[j], &self.velocities@[j]),
                        #[trigger] next@[j],
                    ),
            decreases n - i,
        {
            let p = advance(w, &self.positions[i], &self.velocities[i]);
            next.push(p);
            i = i + 1;
        }
        self.positions = next;
    }

    /// Kick with weight `w`: evaluates the force field once on the current
    /// state, then velocity `i` becomes `advance(w, velocities[i], forces[i])`.
    /// On failure nothing changes.
    fn update_velocities<E, U: Fn(Weight, &V, &V) -> V, F: Fn(&Vec<V>, &Option<P>) -> Result<Vec<V>, E>>(
        &mut self,
        w: Weight,
        advance: &U,
        field: &F,
    ) -> (r: Result<(), StepError<E>>)
        requires
            old(self).wf(),
            total(*advance, *field),
        ensures
            final(self).wf(),
            r is Ok ==> stage_done(*advance, *field, Stage::Kick(w), old(self)@, final(self)@),
            r matches Err(e) ==> final(self)@ == old(self)@ && field_failed(*field, old(self)@, e),
    {
        let ghost s = self@;
        let computed = field(&self.positions, &self.potential);
        assert(field_gives(*field, s, computed));
        let forces = match computed {
            Ok(f) => f,
            Err(e) => {
                return Err(StepError::Field(e));
            },
        };
        let n = self.velocities.len();
        if forces.len() != n {
            return Err(StepError::FieldLength { expected: n, found: forces.len() });
        }
        let mut next: Vec<V> = Vec::new();
        let mut i: usize = 0;
        while i < n
            invariant
                self.wf(),
                self@ == s,
                n == self.velocities.len(),
                forces@.len() == n,
                total(*advance, *field),
                i <= n,
                next@.len() == i,
                forall|j: int|
                    0 <= j < i ==> advance.ensures(
                        (w, &self.velocities@[j], &forces@[j]),
                        #[trigger] next@[j],
                    ),
            decreases n - i,
        {
            let v = advance(w, &self.velocities[i], &forces[i]);
            next.push(v);
            i = i + 1;
        }
        self.velocities = next;
        assert(kicked(*advance, w, forces@, s, self@));
        Ok(())
    }
}

impl<V, M, P> Particles<V, M, P> {
    /// One integration step: the seven sub-stages of `yoshida_plan` in order,
    /// where `advance(w, a, b)` computes `a + w·b·h` for the time step `h` and
    /// `field` computes the force on every particle. The first failing force
    /// evaluation ends the step; the sub-stages before it stay applied.
    pub fn update_yoshida<E, U: Fn(Weight, &V, &V) -> V, F: Fn(&Vec<V>, &Option<P>) -> Result<Vec<V>, E>>(
        &mut self,
        advance: &U,
        field: &F,
    ) -> (r: Result<(), StepError<E>>)
        requires
            old(self).wf(),
            total(*advance, *field),
        ensures
            final(self).wf(),
            r is Ok ==> yoshida_step(*advance, *field, old(self)@, final(self)@),
            r matches Err(e) ==> step_failed(*advance, *field, old(self)@, final(self)@, e),
    {
        let ghost s = self@;
        let ghost mut trace: Seq<ParticlesModel<V, M, P>> = seq![s];
        let stages = yoshida_stages();
        let mut k: usize = 0;
        while k < stages.len()
            invariant
                stages@ == yoshida_plan(),
                self.wf(),
                total(*advance, *field),
                k <= 7,
                trace.len() == k + 1,
                s == old(self)@,
                trace[0] == s,
                trace[k as int] == self@,
                follows_stages(*advance, *field, yoshida_plan().take(k as int), trace),
            decreases 7 - k,
        {
            let ghost before = self@;
            match stages[k] {
                Stage::Drift(w) => {
                    self.update_positions(w, advance, field);
                },
                Stage::Kick(w) => {
                    let done = self.update_velocities(w, advance, field);
                    if let Err(e) = done {
                        assert(step_failed(*advance, *field, s, self@, e)) by {
                            assert(yoshida_plan()[k as int] is Kick);
                        }
                        return Err(e);
                    }
                },
            }
            let ghost next = trace.push(self@);
            assert(stage_done(*advance, *field, yoshida_plan()[k as int], before, self@));
            assert forall|j: int| 0 <= j < k + 1 implies stage_done(
                *advance,
                *field,
                #[trigger] yoshida_plan().take(k + 1)[j],
                next[j],
                next[j + 1],
            ) by {
                if j < k {
                    assert(yoshida_plan().take(k as int)[j] == yoshida_plan().take(k + 1)[j]);
                }
            }
            proof {
                trace = next;
            }
            k = k + 1;
        }
        assert(yoshida_plan().take(7) =~= yoshida_plan());
        Ok(())
    }

    /// Performs `n` integration steps one after the other, calling
    /// `report(k)` after the `k`-th step has completed. Stops at the first
    /// failed step and reports how many steps had completed before it.
    pub fn run<E, U: Fn(Weight, &V, &V) -> V, F: Fn(&Vec<V>, &Option<P>) -> Result<Vec<V>, E>, O: Fn(usize)>(
        &mut self,
        n: usize,
        advance: &U,
        field: &F,
        report: &O,
    ) -> (r: Result<(), RunFailure<E>>)
        requires
            old(self).wf(),
            total(*advance, *field),
            forall|k: usize| #[trigger] report.requires((k,)),
        ensures
            final(self).wf(),
            r is Ok ==> steps_done(*advance, *field, n as nat, old(self)@, final(self)@),
            r matches Err(f) ==> f.step < n && exists|mid: ParticlesModel<V, M, P>|
                #[trigger] steps_done(*advance, *field, f.step as nat, old(self)@, mid) && step_failed(
                    *advance,
                    *field,
                    mid,
                    final(self)@,
                    f.error,
                ),
    {
        let ghost s = self@;
        let ghost mut trace: Seq<ParticlesModel<V, M, P>> = seq![s];
        let mut k: usize = 0;
        while k < n
            invariant
                self.wf(),
                total(*advance, *field),
                forall|j: usize| #[trigger] report.requires((j,)),
                k <= n,
                trace.len() == k + 1,
                s == old(self)@,
                trace[0] == s,
                trace[k as int] == self@,
                steps_trace(*advance, *field, trace),
            decreases n - k,
        {
            let ghost before = self@;
            match self.update_yoshida(advance, field) {
                Ok(()) => {},
                Err(e) => {
                    assert(steps_done(*advance, *field, k as nat, s, before));
                    return Err(RunFailure { step: k, error: e });
                },
            }
            let ghost next = trace.push(self@);
            assert forall|j: int| 0 <= j < next.len() - 1 implies yoshida_step(
                *advance,
                *field,
                #[trigger] next[j],
                next[j + 1],
            ) by {
                if j < k {
                    assert(trace[j] == next[j] && trace[j + 1] == next[j + 1]);
                }
            }
            proof {
                trace = next;
            }
            k = k + 1;
            report(k);
        }
        assert(steps_done(*advance, *field, n as nat, s, self@));
        Ok(())
    }
}

} // verus!
