//! An ordered stack of effects drawn as one.

use vstd::prelude::*;
use crate::draw::DrawCommand;
use super::{Effect, GenericVisualEffect};

verus! {

/// The commands of the first `count` effects at `phase`, one effect after the other.
pub open spec fn commands_of(effects: Seq<Effect>, phase: u64, count: nat) -> Seq<DrawCommand>
    decreases count,
{
    if count == 0 || count > effects.len() {
        Seq::empty()
    } else {
        commands_of(effects, phase, (count - 1) as nat) + effects[count - 1].commands(phase)
    }
}

/// Effects in registration order. Later effects draw on top of earlier ones.
/// The composite owns its effects; none is ever removed.
pub struct VisualEffectComposite {
    effects: Vec<Effect>,
}

impl VisualEffectComposite {
    /// The registered effects, oldest first.
    pub closed spec fn effects(&self) -> Seq<Effect> {
        self.effects@
    }

    /// A composite with no effects.
    pub fn new() -> (composite: Self)
        ensures
            composite.effects() == Seq::<Effect>::empty(),
    {
        VisualEffectComposite { effects: Vec::new() }
    }

    /// Number of registered effects.
    pub fn len(&self) -> (n: usize)
        ensures
            n == self.effects().len(),
    {
        self.effects.len()
    }

    /// Registers `effect` behind all effects registered so far.
    pub fn add_effect(&mut self, effect: Effect)
        ensures
            final(self).effects() == old(self).effects().push(effect),
    {
        self.effects.push(effect);
    }

    /// Draws every registered effect once at `phase`, in registration order.
    pub fn draw_all(&self, phase: u64) -> (out: Vec<DrawCommand>)
        ensures
            out@ == commands_of(self.effects(), phase, self.effects().len()),
    {
        let mut out: Vec<DrawCommand> = Vec::new();
        let mut i: usize = 0;
        while i < self.effects.len()
            invariant
                i <= self.effects.len(),
                out@ == commands_of(self.effects@, phase, i as nat),
            decreases self.effects.len() - i,
        {
            let mut part = self.effects[i].draw(phase);
            out.append(&mut part);
            i = i + 1;
        }
        out
    }
}

/// What the first `count` effects draw is the beginning of what any larger
/// number of them draws.
pub proof fn lemma_commands_prefix(
    effects: Seq<Effect>,
    phase: u64,
    count: nat,
    more: nat,
)
    requires
        count <= more <= effects.len(),
    ensures
        commands_of(effects, phase, count).is_prefix_of(commands_of(effects, phase, more)),
    decreases more,
{
    if count < more {
        lemma_commands_prefix(effects, phase, count, (more - 1) as nat);
    }
}

/// Drawing the composite runs every registered effect exactly once, in
/// registration order: the commands of effect `i` stand in the output as one
/// block, directly behind the commands of the effects registered before it.
pub proof fn lemma_draw_all_in_registration_order(
    composite: VisualEffectComposite,
    phase: u64,
    i: int,
)
    requires
        0 <= i < composite.effects().len(),
    ensures
        ({
            let all = commands_of(composite.effects(), phase, composite.effects().len());
            let before = commands_of(composite.effects(), phase, i as nat);
            let own = composite.effects()[i].commands(phase);
            &&& before.len() + own.len() <= all.len()
            &&& all.subrange(0, before.len() as int) == before
            &&& all.subrange(before.len() as int, (before.len() + own.len()) as int) == own
        }),
{
    let effects = composite.effects();
    let all = commands_of(effects, phase, effects.len());
    let before = commands_of(effects, phase, i as nat);
    let own = effects[i].commands(phase);
    let through = commands_of(effects, phase, (i + 1) as nat);
    assert(through == before + own);
    lemma_commands_prefix(effects, phase, (i + 1) as nat, effects.len());
    assert(through.len() <= all.len());
    assert forall|k: int| 0 <= k < through.len() implies all[k] == through[k] by {}
    assert forall|k: int| 0 <= k < own.len() implies all[before.len() + k] == own[k] by {
        assert(through[before.len() + k] == own[k]);
    }
    assert(all.subrange(0, before.len() as int) =~= before);
    assert(all.subrange(before.len() as int, (before.len() + own.len()) as int) =~= own);
}

/// The output is as long as the outputs of all the effects together, and an
/// empty composite draws nothing.
pub proof fn lemma_draw_all_length(composite: VisualEffectComposite, phase: u64, count: nat)
    requires
        count < composite.effects().len(),
    ensures
        commands_of(composite.effects(), phase, 0).len() == 0,
        commands_of(composite.effects(), phase, count + 1).len() == commands_of(
            composite.effects(),
            phase,
            count,
        ).len() + composite.effects()[count as int].commands(phase).len(),
{
}

/// Registering an effect leaves what the earlier effects draw untouched and
/// puts the newcomer's commands behind them.
pub proof fn lemma_added_effect_draws_last(effects: Seq<Effect>, added: Effect, phase: u64)
    ensures
        commands_of(effects.push(added), phase, effects.len() + 1) == commands_of(
            effects,
            phase,
            effects.len(),
        ) + added.commands(phase),
{
    lemma_commands_keep(effects, effects.push(added), phase, effects.len());
}

/// What the first `count` effects draw depends on those effects alone.
pub proof fn lemma_commands_keep(
    effects: Seq<Effect>,
    others: Seq<Effect>,
    phase: u64,
    count: nat,
)
    requires
        count <= effects.len(),
        count <= others.len(),
        forall|k: int| 0 <= k < count ==> effects[k] == others[k],
    ensures
        commands_of(effects, phase, count) == commands_of(others, phase, count),
    decreases count,
{
    if count > 0 {
        lemma_commands_keep(effects, others, phase, (count - 1) as nat);
    }
}

} // verus!
