//! Stacking, expiring status effects. Each carries a remaining-application
//! counter; one application pass decrements it, and a counted effect with no
//! applications left is inactive and must be purged before the next pass.
//!
//! Self-targeted effects change the target's own stat block; an aura wraps a
//! self-targeted effect and rebroadcasts it to the other units in sight,
//! which the arena layer carries out.

use vstd::prelude::*;
use crate::bud_data::BudData;

verus! {

/// The no-op placeholder effect: always active, changes nothing.
#[derive(Clone, Copy, PartialEq, Eq, Structural, Debug)]
pub struct SelfEffect {}

impl SelfEffect {
    pub fn new() -> (e: SelfEffect)
        ensures
            e == (SelfEffect {}),
    {
        SelfEffect {}
    }
}

/// Subtracts from the target's health, floored at zero.
#[derive(Clone, Copy, PartialEq, Eq, Structural, Debug)]
pub struct DamageEffect {
    pub applications: i32,
    pub damage: u16,
}

impl DamageEffect {
    pub fn new(damage: u16) -> (e: DamageEffect)
        ensures
            e.applications == 1,
            e.damage == damage,
    {
        DamageEffect { applications: 1, damage }
    }
}

/// Adds to the target's bonus damage.
#[derive(Clone, Copy, PartialEq, Eq, Structural, Debug)]
pub struct FighterEffect {
    pub applications: i32,
    pub damage: u16,
}

impl FighterEffect {
    pub fn new() -> (e: FighterEffect)
        ensures
            e.applications == 1,
            e.damage == 1,
    {
        FighterEffect { applications: 1, damage: 1 }
    }
}

/// Adds to the target's maximum health.
#[derive(Clone, Copy, PartialEq, Eq, Structural, Debug)]
pub struct BulwarkEffect {
    pub applications: i32,
    pub health: u16,
}

impl BulwarkEffect {
    pub fn new() -> (e: BulwarkEffect)
        ensures
            e.applications == 1,
            e.health == 1,
    {
        BulwarkEffect { applications: 1, health: 1 }
    }
}

/// Adds to the target's movement budget.
#[derive(Clone, Copy, PartialEq, Eq, Structural, Debug)]
pub struct ScoutEffect {
    pub applications: i32,
    pub speed: u16,
}

impl ScoutEffect {
    pub fn new() -> (e: ScoutEffect)
        ensures
            e.applications == 1,
            e.speed == 1,
    {
        ScoutEffect { applications: 1, speed: 1 }
    }
}

/// Heals the target, capped at its maximum health.
#[derive(Clone, Copy, PartialEq, Eq, Structural, Debug)]
pub struct MendingEffect {
    pub applications: i32,
    pub healing: u16,
}

impl MendingEffect {
    pub fn new() -> (e: MendingEffect)
        ensures
            e.applications == 1,
            e.healing == 1,
    {
        MendingEffect { applications: 1, healing: 1 }
    }
}

/// A self-targeted effect: it changes only the stat block it is applied to.
#[derive(Clone, Copy, PartialEq, Eq, Structural, Debug)]
pub enum StatEffect {
    Passive(SelfEffect),
    Damage(DamageEffect),
    Fighter(FighterEffect),
    Bulwark(BulwarkEffect),
    Scout(ScoutEffect),
    Mending(MendingEffect),
}

/// Rebroadcasts a wrapped self-targeted effect to every other unit in sight.
#[derive(Clone, Copy, PartialEq, Eq, Structural, Debug)]
pub struct AuraEffect {
    pub applications: i32,
    pub effect: StatEffect,
}

impl AuraEffect {
    pub fn new(effect: StatEffect) -> (e: AuraEffect)
        ensures
            e.applications == 2,
            e.effect == effect,
    {
        AuraEffect { applications: 2, effect }
    }

    pub open spec fn spec_is_active(&self) -> bool {
        self.applications > 0
    }

    pub fn is_active(&self) -> (r: bool)
        ensures
            r == self.spec_is_active(),
    {
        self.applications > 0
    }
}

/// Any effect a unit can carry.
#[derive(Clone, Copy, PartialEq, Eq, Structural, Debug)]
pub enum Effect {
    Stat(StatEffect),
    Aura(AuraEffect),
}

impl StatEffect {
    /// The placeholder has no counter and never expires; every other variant
    /// is active while its counter is positive.
    pub open spec fn spec_is_active(&self) -> bool {
        match self {
            StatEffect::Passive(_) => true,
            StatEffect::Damage(e) => e.applications > 0,
            StatEffect::Fighter(e) => e.applications > 0,
            StatEffect::Bulwark(e) => e.applications > 0,
            StatEffect::Scout(e) => e.applications > 0,
            StatEffect::Mending(e) => e.applications > 0,
        }
    }

    /// Whether this variant carries an application counter.
    pub open spec fn spec_counted(&self) -> bool {
        !(self is Passive)
    }

    /// The remaining applications of a counted variant.
    pub open spec fn spec_remaining(&self) -> int {
        match self {
            StatEffect::Passive(_) => 0,
            StatEffect::Damage(e) => e.applications as int,
            StatEffect::Fighter(e) => e.applications as int,
            StatEffect::Bulwark(e) => e.applications as int,
            StatEffect::Scout(e) => e.applications as int,
            StatEffect::Mending(e) => e.applications as int,
        }
    }

    /// The effect after one application: the counter, if any, is one lower.
    pub open spec fn spec_dec(&self) -> StatEffect {
        match self {
            StatEffect::Passive(e) => StatEffect::Passive(*e),
            StatEffect::Damage(e) => StatEffect::Damage(
                DamageEffect { applications: (e.applications - 1) as i32, ..*e },
            ),
            StatEffect::Fighter(e) => StatEffect::Fighter(
                FighterEffect { applications: (e.applications - 1) as i32, ..*e },
            ),
            StatEffect::Bulwark(e) => StatEffect::Bulwark(
                BulwarkEffect { applications: (e.applications - 1) as i32, ..*e },
            ),
            StatEffect::Scout(e) => StatEffect::Scout(
                ScoutEffect { applications: (e.applications - 1) as i32, ..*e },
            ),
            StatEffect::Mending(e) => StatEffect::Mending(
                MendingEffect { applications: (e.applications - 1) as i32, ..*e },
            ),
        }
    }

    /// What one application does to the target's stat block: damage is
    /// floored at zero, healing is capped at the maximum, and each buff adds
    /// to its stat, saturating at the type's top.
    pub open spec fn spec_apply_stat(&self, b: BudData) -> BudData {
        match self {
            StatEffect::Passive(_) => b,
            StatEffect::Damage(e) => BudData {
                health: if b.health >= e.damage {
                    (b.health - e.damage) as u16
                } else {
                    0u16
                },
                ..b
            },
            StatEffect::Fighter(e) => BudData {
                damage: if b.damage + e.damage > u16::MAX {
                    u16::MAX
                } else {
                    (b.damage + e.damage) as u16
                },
                ..b
            },
            StatEffect::Bulwark(e) => BudData {
                max_health: if b.max_health + e.health > u16::MAX {
                    u16::MAX
                } else {
                    (b.max_health + e.health) as u16
                },
                ..b
            },
            StatEffect::Scout(e) => BudData {
                speed: if b.speed + e.speed > u16::MAX {
                    u16::MAX
                } else {
                    (b.speed + e.speed) as u16
                },
                ..b
            },
            StatEffect::Mending(e) => BudData {
                health: if b.health + e.healing > b.max_health {
                    b.max_health
                } else {
                    (b.health + e.healing) as u16
                },
                ..b
            },
        }
    }

    pub fn is_active(&self) -> (r: bool)
        ensures
            r == self.spec_is_active(),
    {
        match self {
            StatEffect::Passive(_) => true,
            StatEffect::Damage(e) => e.applications > 0,
            StatEffect::Fighter(e) => e.applications > 0,
            StatEffect::Bulwark(e) => e.applications > 0,
            StatEffect::Scout(e) => e.applications > 0,
            StatEffect::Mending(e) => e.applications > 0,
        }
    }

    /// One application pass on a target: the counter drops by one and the
    /// target's stats change as `spec_apply_stat` says.
    pub fn apply(&mut self, bud: &mut BudData)
        requires
            old(self).spec_remaining() > i32::MIN,
            old(bud).wf(),
        ensures
            *final(self) == old(self).spec_dec(),
            *final(bud) == old(self).spec_apply_stat(*old(bud)),
            final(bud).wf(),
    {
        match self {
            StatEffect::Passive(_) => {},
            StatEffect::Damage(e) => {
                e.applications = e.applications - 1;
                bud.remove_health(e.damage);
            },
            StatEffect::Fighter(e) => {
                e.applications = e.applications - 1;
                if bud.damage > u16::MAX - e.damage {
                    bud.damage = u16::MAX;
                } else {
                    bud.damage = bud.damage + e.damage;
                }
            },
            StatEffect::Bulwark(e) => {
                e.applications = e.applications - 1;
                if bud.max_health > u16::MAX - e.health {
                    bud.max_health = u16::MAX;
                } else {
                    bud.max_health = bud.max_health + e.health;
                }
            },
            StatEffect::Scout(e) => {
                e.applications = e.applications - 1;
                if bud.speed > u16::MAX - e.speed {
                    bud.speed = u16::MAX;
                } else {
                    bud.speed = bud.speed + e.speed;
                }
            },
            StatEffect::Mending(e) => {
                e.applications = e.applications - 1;
                bud.add_health(e.healing);
            },
        }
    }
}

impl Effect {
    pub open spec fn spec_is_active(&self) -> bool {
        match self {
            Effect::Stat(e) => e.spec_is_active(),
            Effect::Aura(a) => a.spec_is_active(),
        }
    }

    /// Whether this effect carries an application counter.
    pub open spec fn spec_counted(&self) -> bool {
        match self {
            Effect::Stat(e) => e.spec_counted(),
            Effect::Aura(_) => true,
        }
    }

    pub open spec fn spec_remaining(&self) -> int {
        match self {
            Effect::Stat(e) => e.spec_remaining(),
            Effect::Aura(a) => a.applications as int,
        }
    }

    /// The effect after one application pass.
    pub open spec fn spec_dec(&self) -> Effect {
        match self {
            Effect::Stat(e) => Effect::Stat(e.spec_dec()),
            Effect::Aura(a) => Effect::Aura(
                AuraEffect { applications: (a.applications - 1) as i32, ..*a },
            ),
        }
    }

    /// What one application does to the stat block it was applied to. An
    /// aura changes nothing on its own carrier; its wrapped effect lands on
    /// the other units.
    pub open spec fn spec_apply_stat(&self, b: BudData) -> BudData {
        match self {
            Effect::Stat(e) => e.spec_apply_stat(b),
            Effect::Aura(_) => b,
        }
    }

    /// A well-formed effect value: no counter has gone negative, and an
    /// aura wraps an effect that is still worth broadcasting.
    pub open spec fn spec_wf(&self) -> bool {
        &&& self.spec_remaining() >= 0
        &&& match self {
            Effect::Aura(a) => a.effect.spec_is_active() && a.effect.spec_remaining() >= 0,
            Effect::Stat(_) => true,
        }
    }

    pub fn is_active(&self) -> (r: bool)
        ensures
            r == self.spec_is_active(),
    {
        match self {
            Effect::Stat(e) => e.is_active(),
            Effect::Aura(a) => a.is_active(),
        }
    }

    /// One application pass on the carrying unit itself: the counter drops
    /// and, for a self-targeted effect, the stats change. Broadcasting an
    /// aura's wrapped effect to the other units is the arena's part.
    pub fn apply_self(&mut self, bud: &mut BudData)
        requires
            old(self).spec_remaining() > i32::MIN,
            old(bud).wf(),
        ensures
            *final(self) == old(self).spec_dec(),
            *final(bud) == old(self).spec_apply_stat(*old(bud)),
            final(bud).wf(),
    {
        match self {
            Effect::Stat(e) => e.apply(bud),
            Effect::Aura(a) => {
                a.applications = a.applications - 1;
            },
        }
    }
}

/// The effect after `k` application passes.
pub open spec fn spec_applied_n(e: Effect, k: nat) -> Effect
    decreases k,
{
    if k == 0 {
        e
    } else {
        spec_applied_n(e, (k - 1) as nat).spec_dec()
    }
}

/// Effect expiry: a counted effect with `n` remaining applications is still
/// active after `k < n` application passes and inactive after exactly `n`.
pub proof fn lemma_effect_expiry(e: Effect, k: nat)
    requires
        e.spec_counted(),
        0 <= e.spec_remaining(),
        k <= e.spec_remaining(),
    ensures
        spec_applied_n(e, k).spec_is_active() <==> (k as int) < e.spec_remaining(),
        spec_applied_n(e, k).spec_remaining() == e.spec_remaining() - k,
        spec_applied_n(e, k).spec_counted(),
    decreases k,
{
    if k > 0 {
        lemma_effect_expiry(e, (k - 1) as nat);
    }
}

/// The equipped effects among a row of profile slots, in slot order.
pub open spec fn spec_somes(slots: Seq<Option<Effect>>) -> Seq<Effect>
    decreases slots.len(),
{
    if slots.len() == 0 {
        Seq::empty()
    } else {
        spec_somes(slots.drop_last()) + match slots.last() {
            Some(e) => seq![e],
            None => Seq::empty(),
        }
    }
}

/// The still-active effects of a list, in order: what one application pass
/// applies, and what survives a purge.
pub open spec fn spec_active_only(s: Seq<Effect>) -> Seq<Effect>
    decreases s.len(),
{
    if s.len() == 0 {
        Seq::empty()
    } else {
        spec_active_only(s.drop_last()) + if s.last().spec_is_active() {
            seq![s.last()]
        } else {
            Seq::empty()
        }
    }
}

/// A list after one application pass spent its first `j` counters: each
/// active effect among them is decremented in place, the rest untouched.
pub open spec fn spec_spend_upto(s: Seq<Effect>, j: int) -> Seq<Effect> {
    Seq::new(
        s.len(),
        |idx: int|
            if idx < j && s[idx].spec_is_active() {
                s[idx].spec_dec()
            } else {
                s[idx]
            },
    )
}

/// A list after one full application pass spent the active counters.
pub open spec fn spec_spend(s: Seq<Effect>) -> Seq<Effect> {
    spec_spend_upto(s, s.len() as int)
}

/// The stats after the self-directed parts of the first `k` effects of a
/// list were applied in order.
pub open spec fn spec_stats_after(b: BudData, effs: Seq<Effect>, k: int) -> BudData
    decreases k,
{
    if k <= 0 {
        b
    } else {
        effs[k - 1].spec_apply_stat(spec_stats_after(b, effs, k - 1))
    }
}

/// The first `k` applications read only the first `k` effects: two lists
/// that agree there fold alike.
pub proof fn lemma_stats_after_prefix(b: BudData, s1: Seq<Effect>, s2: Seq<Effect>, k: int)
    requires
        k <= s1.len(),
        k <= s2.len(),
        forall|j: int| 0 <= j < k ==> s1[j] == s2[j],
    ensures
        spec_stats_after(b, s1, k) == spec_stats_after(b, s2, k),
    decreases k,
{
    if k > 0 {
        lemma_stats_after_prefix(b, s1, s2, k - 1);
    }
}

/// The self-directed fold never touches a unit's identity: its profile is
/// the same after any number of applications.
pub proof fn lemma_stats_after_initial(b: BudData, effs: Seq<Effect>, k: int)
    ensures
        spec_stats_after(b, effs, k).initial == b.initial,
        spec_stats_after(b, effs, k).selected == b.selected,
    decreases k,
{
    if k > 0 {
        lemma_stats_after_initial(b, effs, k - 1);
    }
}

/// The aura payloads of a list of effects, in order: what one pass over the
/// list rebroadcasts to the units in sight.
pub open spec fn spec_aura_inners(effs: Seq<Effect>) -> Seq<StatEffect>
    decreases effs.len(),
{
    if effs.len() == 0 {
        Seq::empty()
    } else {
        spec_aura_inners(effs.drop_last()) + match effs.last() {
            Effect::Aura(a) => seq![a.effect],
            Effect::Stat(_) => Seq::empty(),
        }
    }
}

/// A row of broadcast payloads as the deliverable effects they land as.
pub open spec fn spec_stat_payloads(inners: Seq<StatEffect>) -> Seq<Effect> {
    inners.map_values(|inner: StatEffect| Effect::Stat(inner))
}

/// A row of effects with each counter spent once: what a row of deliveries
/// leaves on the receivers' lists.
pub open spec fn spec_dec_all(effs: Seq<Effect>) -> Seq<Effect> {
    effs.map_values(|e: Effect| e.spec_dec())
}

} // verus!
