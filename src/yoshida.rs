use vstd::prelude::*;

verus! {

/// The four distinct coefficients of the fourth-order Yoshida composition:
/// position weights `C1 = C4` and `C2 = C3`, velocity weights `D1 = D3` and `D2`.
#[derive(Clone, Copy, Debug, PartialEq, Eq, Structural)]
pub enum Weight {
    C1,
    C2,
    D1,
    D2,
}

/// One sub-stage of an integration step: a drift moves every position along
/// its velocity, a kick evaluates the force field and moves every velocity
/// along its force; both scaled by the weight and the time step.
#[derive(Clone, Copy, Debug, PartialEq, Eq, Structural)]
pub enum Stage {
    Drift(Weight),
    Kick(Weight),
}

/// The seven sub-stages of one step, in the order they are applied.
pub open spec fn yoshida_plan() -> Seq<Stage> {
    seq![
        Stage::Drift(Weight::C1),
        Stage::Kick(Weight::D1),
        Stage::Drift(Weight::C2),
        Stage::Kick(Weight::D2),
        Stage::Drift(Weight::C2),
        Stage::Kick(Weight::D1),
        Stage::Drift(Weight::C1),
    ]
}

/// The sub-stages of one step, as `yoshida_plan` lists them.
pub fn yoshida_stages() -> (r: Vec<Stage>)
    ensures
        r@ == yoshida_plan(),
{
    let r = vec![
        Stage::Drift(Weight::C1),
        Stage::Kick(Weight::D1),
        Stage::Drift(Weight::C2),
        Stage::Kick(Weight::D2),
        Stage::Drift(Weight::C2),
        Stage::Kick(Weight::D1),
        Stage::Drift(Weight::C1),
    ];
    assert(r@ =~= yoshida_plan());
    r
}

/// The plan alternates drifts and kicks, starting and ending with a drift,
/// so a step evaluates the force field exactly three times; and it reads the
/// same backwards, which makes the composition time-symmetric.
pub proof fn lemma_plan_shape()
    ensures
        yoshida_plan().len() == 7,
        forall|k: int| 0 <= k < 7 ==> (#[trigger] yoshida_plan()[k] is Kick <==> k % 2 == 1),
        yoshida_plan().filter(|s: Stage| s is Kick).len() == 3,
        forall|k: int| 0 <= k < 7 ==> #[trigger] yoshida_plan()[k] == yoshida_plan()[6 - k],
{
    let p = yoshida_plan();
    reveal_with_fuel(Seq::filter, 8);
    assert(p.filter(|s: Stage| s is Kick) =~= seq![Stage::Kick(Weight::D1), Stage::Kick(Weight::D2), Stage::Kick(Weight::D1)]);
}

} // verus!
