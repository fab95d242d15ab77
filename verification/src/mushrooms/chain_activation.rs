//! Chain activation system: chains of activations travelling through the
//! mycelium network, their queue of delayed activations and the per-mushroom
//! activation state.
//!
//! Energy and spore amounts are carried as opaque values of the type parameters
//! `E` (energy) and `S` (spores): this module decides which mushrooms activate,
//! when and in which order, and never computes with those amounts.

use vstd::prelude::*;

use std::collections::VecDeque;

use crate::mushrooms::definitions::{ActivationBehavior, GridOffset, MushroomDefinition};
use crate::mushrooms::{
    connection_target_position, facing_target, target_fits, MushroomDirection,
};
use crate::play_field::field::{position_key, PlayField};
use crate::play_field::position::GridPosition;

verus! {

/// A one-shot timer counted in microseconds. It reports `finished` from the first
/// tick that brings its elapsed time to its duration on.
#[derive(Clone, Copy, Debug)]
pub struct OnceTimer {
    pub duration_us: u64,
    pub elapsed_us: u64,
    pub finished: bool,
}

/// The timer after one tick of `delta_us` microseconds: a finished timer stays as it
/// is; otherwise the elapsed time grows, up to the duration, and the timer finishes
/// once the duration is reached.
pub open spec fn spec_tick(t: OnceTimer, delta_us: u64) -> OnceTimer {
    if t.finished {
        t
    } else if t.elapsed_us + delta_us >= t.duration_us {
        OnceTimer { duration_us: t.duration_us, elapsed_us: t.duration_us, finished: true }
    } else {
        OnceTimer {
            duration_us: t.duration_us,
            elapsed_us: (t.elapsed_us + delta_us) as u64,
            finished: false,
        }
    }
}

impl OnceTimer {
    /// A timer of the given duration that has not run yet
    pub fn from_micros(duration_us: u64) -> (r: Self)
        ensures
            r.duration_us == duration_us,
            r.elapsed_us == 0,
            !r.finished,
    {
        OnceTimer { duration_us, elapsed_us: 0, finished: false }
    }

    /// Advance the timer by `delta_us` microseconds
    pub fn tick(&mut self, delta_us: u64)
        ensures
            *final(self) == spec_tick(*old(self), delta_us),
    {
        if self.finished {
            return ;
        }
        let reached = self.elapsed_us >= self.duration_us || delta_us >= self.duration_us
            - self.elapsed_us;
        if reached {
            self.elapsed_us = self.duration_us;
            self.finished = true;
        } else {
            self.elapsed_us = self.elapsed_us + delta_us;
        }
    }

    /// Whether the timer has run out
    pub fn finished(&self) -> (r: bool)
        ensures
            r == self.finished,
    {
        self.finished
    }
}

/// Delay before a propagated activation reaches the `i`-th target, in microseconds:
/// 0.2 s for the first target and 0.05 s more for each further one.
pub open spec fn spec_propagation_delay_us(i: int) -> int {
    200_000 + 50_000 * i
}

/// Delay before a propagated activation reaches the `i`-th target, in microseconds
/// (the largest `u64` where the exact value does not fit)
pub fn propagation_delay_us(i: usize) -> (r: u64)
    ensures
        r == vstd::math::min(spec_propagation_delay_us(i as int), u64::MAX as int),
{
    match 50_000u64.checked_mul(i as u64) {
        Some(m) => m.saturating_add(200_000),
        None => u64::MAX,
    }
}

/// A single activation within a chain
/// This is for storing the information about each activation, it is not functional
/// may be used in future for replay system or debugging purposes
#[derive(Debug)]
pub struct ChainActivation<E> {
    pub entity: u64,
    pub position: GridPosition,
    pub energy: E,
    pub depth: u32,
    pub parent: Option<u64>,
}

/// A chain represents a single activation sequence
pub struct Chain<E, S> {
    /// Unique ID for this chain
    pub id: u32,
    /// The mushroom that started this chain
    pub starter: u64,
    /// All activations in this chain
    pub activations: Vec<ChainActivation<E>>,
    /// Total spores produced by this chain
    pub total_spores: S,
    /// Whether this chain is still active
    pub active: bool,
}

/// Energy packet traveling through the network
pub struct EnergyPacket<E> {
    pub energy: E,
    pub source_entity: u64,
    /// Full path of entities visited in order
    pub path: Vec<u64>,
}

/// A pending activation waiting to be processed
pub struct PendingActivation<E> {
    pub entity: u64,
    pub energy_packet: EnergyPacket<E>,
    pub delay: OnceTimer,
    pub chain_id: u32,
}

/// Component tracking per-mushroom activation state
#[derive(Debug)]
pub struct MushroomActivationState<E> {
    pub activations_this_turn: u32,
    pub last_activation_energy: E,
    pub cooldown_timer: Option<OnceTimer>,
}

/// The activation after its delay has ticked `delta_us` microseconds.
pub open spec fn ticked_pending<E>(a: PendingActivation<E>, delta_us: u64) -> PendingActivation<E> {
    PendingActivation {
        entity: a.entity,
        energy_packet: a.energy_packet,
        delay: spec_tick(a.delay, delta_us),
        chain_id: a.chain_id,
    }
}

/// Every activation of `q` after one tick of `delta_us`.
pub open spec fn ticked_queue<E>(q: Seq<PendingActivation<E>>, delta_us: u64) -> Seq<
    PendingActivation<E>,
> {
    q.map_values(|a: PendingActivation<E>| ticked_pending(a, delta_us))
}

/// The activations of `q` whose delay has run out, in queue order.
pub open spec fn ready_part<E>(q: Seq<PendingActivation<E>>) -> Seq<PendingActivation<E>>
    decreases q.len(),
{
    if q.len() == 0 {
        Seq::empty()
    } else if q.last().delay.finished {
        ready_part(q.drop_last()).push(q.last())
    } else {
        ready_part(q.drop_last())
    }
}

/// The activations of `q` still waiting, in queue order.
pub open spec fn waiting_part<E>(q: Seq<PendingActivation<E>>) -> Seq<PendingActivation<E>>
    decreases q.len(),
{
    if q.len() == 0 {
        Seq::empty()
    } else if q.last().delay.finished {
        waiting_part(q.drop_last())
    } else {
        waiting_part(q.drop_last()).push(q.last())
    }
}

/// Whether an activation of chain `id` is still queued.
pub open spec fn has_pending<E>(q: Seq<PendingActivation<E>>, id: u32) -> bool {
    exists|j: int| 0 <= j < q.len() && #[trigger] q[j].chain_id == id
}

/// Whether an activation is the one queued for `entity` of chain `chain_id`, with a
/// packet of the given energy, source and path, and a fresh delay of `delay_us`.
pub open spec fn is_queued_as<E>(
    a: PendingActivation<E>,
    entity: u64,
    energy: E,
    source: u64,
    path: Seq<u64>,
    delay_us: u64,
    chain_id: u32,
) -> bool {
    &&& a.entity == entity
    &&& a.energy_packet.energy == energy
    &&& a.energy_packet.source_entity == source
    &&& a.energy_packet.path@ == path
    &&& a.delay == OnceTimer { duration_us: delay_us, elapsed_us: 0, finished: false }
    &&& a.chain_id == chain_id
}

/// The record that an activation leaves in its chain, for a mushroom standing at
/// `position`.
pub open spec fn activation_record<E>(a: PendingActivation<E>, position: GridPosition) -> ChainActivation<E> {
    ChainActivation {
        entity: a.entity,
        position,
        energy: a.energy_packet.energy,
        depth: a.energy_packet.path@.len() as u32,
        parent: Some(a.energy_packet.source_entity),
    }
}

/// `after` is `before` with `a` recorded, for a mushroom at `position`, in the chain
/// with `a`'s id (if there is one); everything else stays.
pub open spec fn recorded<E, S>(
    before: ChainManager<E, S>,
    after: ChainManager<E, S>,
    a: PendingActivation<E>,
    position: GridPosition,
) -> bool {
    &&& after.chains@.len() == before.chains@.len()
    &&& forall|i: int|
        0 <= i < before.chains@.len() ==> {
            let c = before.chains@[i];
            let d = #[trigger] after.chains@[i];
            &&& d.id == c.id
            &&& d.starter == c.starter
            &&& d.total_spores == c.total_spores
            &&& d.active == c.active
            &&& d.activations@ == if c.id == a.chain_id {
                c.activations@.push(activation_record(a, position))
            } else {
                c.activations@
            }
        }
    &&& after.activation_queue == before.activation_queue
    &&& after.next_chain_id == before.next_chain_id
    &&& after.current_chain == before.current_chain
    &&& after.chain_started_this_turn == before.chain_started_this_turn
}

/// Resource for managing active chains
pub struct ChainManager<E, S> {
    /// All chains that have been started in this run
    pub chains: Vec<Chain<E, S>>,
    /// Counter for chain IDs
    pub next_chain_id: u32,
    /// Queue of pending activations
    pub activation_queue: VecDeque<PendingActivation<E>>,
    /// Currently processing chain
    pub current_chain: Option<u32>,
    /// Has a chain been started this turn?
    pub chain_started_this_turn: bool,
}

/// `after` is `before` with one new chain started from `starter`: the chain takes the
/// next id, is active, holds no activations and `no_spores`, becomes the current
/// chain, and the starter's own activation with `full_energy` is queued behind the
/// ones already waiting.
pub open spec fn chain_started_from<E, S>(
    before: ChainManager<E, S>,
    after: ChainManager<E, S>,
    starter: u64,
    full_energy: E,
    no_spores: S,
) -> bool {
    let id = before.next_chain_id;
    &&& after.next_chain_id == id + 1
    &&& after.chains@.len() == before.chains@.len() + 1
    &&& after.chains@.drop_last() == before.chains@
    &&& after.chains@.last().id == id
    &&& after.chains@.last().starter == starter
    &&& after.chains@.last().activations@.len() == 0
    &&& after.chains@.last().total_spores == no_spores
    &&& after.chains@.last().active
    &&& after.current_chain == Some(id)
    &&& after.chain_started_this_turn
    &&& after.activation_queue@.len() == before.activation_queue@.len() + 1
    &&& after.activation_queue@.drop_last() == before.activation_queue@
    &&& is_queued_as(after.activation_queue@.last(), starter, full_energy, starter, Seq::empty(), 0, id)
}

impl<E, S> Default for ChainManager<E, S> {
    fn default() -> (r: Self)
        ensures
            r.chains@.len() == 0,
            r.next_chain_id == 0,
            r.activation_queue@.len() == 0,
            r.current_chain is None,
            !r.chain_started_this_turn,
            r.wf(),
    {
        ChainManager {
            chains: Vec::new(),
            next_chain_id: 0,
            activation_queue: VecDeque::new(),
            current_chain: None,
            chain_started_this_turn: false,
        }
    }
}

impl<E, S> ChainManager<E, S> {
    /// Chain ids are given out in increasing order and stay below the next id.
    pub open spec fn wf(&self) -> bool {
        &&& forall|i: int, j: int|
            0 <= i < j < self.chains@.len() ==> self.chains@[i].id < self.chains@[j].id
        &&& forall|i: int| 0 <= i < self.chains@.len() ==> self.chains@[i].id < self.next_chain_id
    }

    /// Start a new chain from a mushroom; only one chain may start per turn. The
    /// chain starts with `no_spores` and queues the starter's own activation, with
    /// `full_energy`, at once.
    pub fn start_chain(
        &mut self,
        starter: u64,
        position: GridPosition,
        full_energy: E,
        no_spores: S,
    ) -> (r: Option<u32>)
        requires
            old(self).wf(),
            !old(self).chain_started_this_turn ==> old(self).next_chain_id < u32::MAX,
        ensures
            final(self).wf(),
            old(self).chain_started_this_turn ==> r is None && *final(self) == *old(self),
            !old(self).chain_started_this_turn ==> r == Some(old(self).next_chain_id)
                && chain_started_from(*old(self), *final(self), starter, full_energy, no_spores),
    {
        if self.chain_started_this_turn {
            return None;
        }
        let chain_id = self.next_chain_id;
        self.next_chain_id += 1;

        let chain = Chain {
            id: chain_id,
            starter,
            activations: Vec::new(),
            total_spores: no_spores,
            active: true,
        };

        self.chains.push(chain);
        self.current_chain = Some(chain_id);
        self.chain_started_this_turn = true;

        // Queue the initial activation
        let energy_packet = EnergyPacket {
            energy: full_energy,
            source_entity: starter,
            path: Vec::new(),
        };

        self.queue_activation(starter, energy_packet, 0, chain_id);
        proof {
            assert(self.chains@.drop_last() =~= old(self).chains@);
            assert(self.activation_queue@.drop_last() =~= old(self).activation_queue@);
        }
        Some(chain_id)
    }

    /// Queue an activation for processing after `delay_us` microseconds
    pub fn queue_activation(
        &mut self,
        entity: u64,
        energy_packet: EnergyPacket<E>,
        delay_us: u64,
        chain_id: u32,
    )
        ensures
            final(self).activation_queue@ == old(self).activation_queue@.push(
                PendingActivation {
                    entity,
                    energy_packet,
                    delay: OnceTimer { duration_us: delay_us, elapsed_us: 0, finished: false },
                    chain_id,
                },
            ),
            final(self).chains == old(self).chains,
            final(self).next_chain_id == old(self).next_chain_id,
            final(self).current_chain == old(self).current_chain,
            final(self).chain_started_this_turn == old(self).chain_started_this_turn,
    {
        self.activation_queue.push_back(
            PendingActivation {
                entity,
                energy_packet,
                delay: OnceTimer::from_micros(delay_us),
                chain_id,
            },
        );
    }

    /// Get the chain with the given id
    pub fn get_chain(&self, chain_id: u32) -> (r: Option<&Chain<E, S>>)
        ensures
            match r {
                Some(c) => exists|i: int|
                    0 <= i < self.chains@.len() && self.chains@[i] == *c && c.id == chain_id
                        && forall|j: int| 0 <= j < i ==> self.chains@[j].id != chain_id,
                None => forall|i: int| 0 <= i < self.chains@.len() ==> self.chains@[i].id != chain_id,
            },
    {
        let mut i: usize = 0;
        while i < self.chains.len()
            invariant
                0 <= i <= self.chains@.len(),
                forall|j: int| 0 <= j < i ==> self.chains@[j].id != chain_id,
            decreases self.chains.len() - i,
        {
            if self.chains[i].id == chain_id {
                return Some(&self.chains[i]);
            }
            i = i + 1;
        }
        None
    }

    /// Get a mutable reference to a chain
    pub fn get_chain_mut(&mut self, chain_id: u32) -> (r: Option<&mut Chain<E, S>>)
        ensures
            match r {
                Some(c) => exists|i: int|
                    0 <= i < old(self).chains@.len() && old(self).chains@[i] == *c && c.id
                        == chain_id && (forall|j: int|
                        0 <= j < i ==> old(self).chains@[j].id != chain_id)
                        && final(self).chains@ == old(self).chains@.update(i, *final(c)),
                None => (forall|i: int|
                    0 <= i < old(self).chains@.len() ==> old(self).chains@[i].id != chain_id)
                    && final(self).chains@ == old(self).chains@,
            },
            final(self).activation_queue == old(self).activation_queue,
            final(self).next_chain_id == old(self).next_chain_id,
            final(self).current_chain == old(self).current_chain,
            final(self).chain_started_this_turn == old(self).chain_started_this_turn,
    {
        let mut i: usize = 0;
        while i < self.chains.len()
            invariant
                0 <= i <= self.chains@.len(),
                *self == *old(self),
                forall|j: int| 0 <= j < i ==> self.chains@[j].id != chain_id,
            decreases self.chains.len() - i,
        {
            if self.chains[i].id == chain_id {
                return Some(&mut self.chains[i]);
            }
            i = i + 1;
        }
        None
    }

    /// Record a mushroom's activation in the chain it belongs to: the record names
    /// the mushroom, where it stands, the energy it got, how deep in the chain it lies
    /// (the length of the energy's path) and the mushroom that sent the energy.
    /// Returns whether the chain was found; without it nothing changes
    pub fn record_activation(
        &mut self,
        activation: &PendingActivation<E>,
        position: GridPosition,
    ) -> (r: bool) where E: Copy
        requires
            old(self).wf(),
        ensures
            final(self).wf(),
            r == exists|i: int|
                0 <= i < old(self).chains@.len() && #[trigger] old(self).chains@[i].id
                    == activation.chain_id,
            recorded(*old(self), *final(self), *activation, position),
    {
        let record = ChainActivation {
            entity: activation.entity,
            position,
            energy: activation.energy_packet.energy,
            depth: activation.energy_packet.path.len() as u32,
            parent: Some(activation.energy_packet.source_entity),
        };
        let ghost before = self.chains@;
        let found = match self.get_chain_mut(activation.chain_id) {
            Some(chain) => {
                chain.activations.push(record);
                true
            },
            None => false,
        };
        proof {
            if found {
                assert forall|i: int, j: int|
                    0 <= i < before.len() && 0 <= j < before.len() && before[i].id == before[j].id
                    implies i == j by {
                    if i < j {
                        assert(before[i].id < before[j].id);
                    } else if j < i {
                        assert(before[j].id < before[i].id);
                    }
                }
            }
        }
        found
    }

    /// Check if any chains are still processing
    pub fn has_active_chains(&self) -> (r: bool)
        ensures
            r == (self.activation_queue@.len() > 0 || exists|i: int|
                0 <= i < self.chains@.len() && #[trigger] self.chains@[i].active),
    {
        if self.activation_queue.len() > 0 {
            return true;
        }
        let mut i: usize = 0;
        while i < self.chains.len()
            invariant
                0 <= i <= self.chains@.len(),
                forall|j: int| 0 <= j < i ==> !self.chains@[j].active,
            decreases self.chains.len() - i,
        {
            if self.chains[i].active {
                return true;
            }
            i = i + 1;
        }
        false
    }

    /// Reset for new turn
    pub fn reset_turn(&mut self)
        ensures
            final(self).chains@.len() == 0,
            final(self).activation_queue@.len() == 0,
            final(self).current_chain is None,
            !final(self).chain_started_this_turn,
            final(self).next_chain_id == old(self).next_chain_id,
            final(self).wf(),
    {
        self.chains.clear();
        self.activation_queue.clear();
        self.current_chain = None;
        self.chain_started_this_turn = false;
    }
}

impl<E, S> ChainManager<E, S> {
    /// Tick the delay of every queued activation by `delta_us` microseconds, and take
    /// out the activations that are ready, in queue order; the others stay queued in
    /// their order
    pub fn take_ready_activations(&mut self, delta_us: u64) -> (ready: Vec<PendingActivation<E>>)
        ensures
            ready@ == ready_part(ticked_queue(old(self).activation_queue@, delta_us)),
            final(self).activation_queue@ == waiting_part(
                ticked_queue(old(self).activation_queue@, delta_us),
            ),
            final(self).chains == old(self).chains,
            final(self).next_chain_id == old(self).next_chain_id,
            final(self).current_chain == old(self).current_chain,
            final(self).chain_started_this_turn == old(self).chain_started_this_turn,
    {
        let ghost q0 = self.activation_queue@;
        let mut ready: Vec<PendingActivation<E>> = Vec::new();
        let mut waiting: VecDeque<PendingActivation<E>> = VecDeque::new();
        let n = self.activation_queue.len();
        let mut k: usize = 0;
        while self.activation_queue.len() > 0
            invariant
                n == q0.len(),
                0 <= k <= q0.len(),
                self.activation_queue@ == q0.skip(k as int),
                ready@ == ready_part(ticked_queue(q0.take(k as int), delta_us)),
                waiting@ == waiting_part(ticked_queue(q0.take(k as int), delta_us)),
                self.chains == old(self).chains,
                self.next_chain_id == old(self).next_chain_id,
                self.current_chain == old(self).current_chain,
                self.chain_started_this_turn == old(self).chain_started_this_turn,
            decreases self.activation_queue@.len(),
        {
            let popped = self.activation_queue.pop_front();
            match popped {
                Some(mut activation) => {
                    proof {
                        assert(activation == q0[k as int]);
                    }
                    activation.delay.tick(delta_us);
                    proof {
                        assert(ticked_queue(q0.take(k + 1), delta_us).drop_last() =~= ticked_queue(
                            q0.take(k as int),
                            delta_us,
                        ));
                        assert(ticked_queue(q0.take(k + 1), delta_us).last() == activation);
                        assert(self.activation_queue@ =~= q0.skip(k + 1));
                    }
                    if activation.delay.finished() {
                        ready.push(activation);
                    } else {
                        waiting.push_back(activation);
                    }
                    k = k + 1;
                },
                None => {},
            }
        }
        proof {
            assert(q0.take(k as int) =~= q0);
        }
        self.activation_queue = waiting;
        ready
    }

    /// Mark as inactive every active chain that has no activation left in the queue
    pub fn complete_finished_chains(&mut self)
        ensures
            final(self).chains@.len() == old(self).chains@.len(),
            forall|i: int|
                0 <= i < old(self).chains@.len() ==> {
                    let c = old(self).chains@[i];
                    let d = #[trigger] final(self).chains@[i];
                    &&& d.id == c.id
                    &&& d.starter == c.starter
                    &&& d.activations == c.activations
                    &&& d.total_spores == c.total_spores
                    &&& d.active == (c.active && has_pending(
                        old(self).activation_queue@,
                        c.id,
                    ))
                },
            final(self).activation_queue == old(self).activation_queue,
            final(self).next_chain_id == old(self).next_chain_id,
            final(self).current_chain == old(self).current_chain,
            final(self).chain_started_this_turn == old(self).chain_started_this_turn,
    {
        let mut i: usize = 0;
        while i < self.chains.len()
            invariant
                0 <= i <= self.chains@.len(),
                self.chains@.len() == old(self).chains@.len(),
                forall|j: int|
                    0 <= j < old(self).chains@.len() ==> {
                        let c = old(self).chains@[j];
                        let d = #[trigger] self.chains@[j];
                        &&& d.id == c.id
                        &&& d.starter == c.starter
                        &&& d.activations == c.activations
                        &&& d.total_spores == c.total_spores
                        &&& d.active == if j < i {
                            c.active && has_pending(old(self).activation_queue@, c.id)
                        } else {
                            c.active
                        }
                    },
                self.activation_queue == old(self).activation_queue,
                self.next_chain_id == old(self).next_chain_id,
                self.current_chain == old(self).current_chain,
                self.chain_started_this_turn == old(self).chain_started_this_turn,
            decreases self.chains.len() - i,
        {
            if self.chains[i].active {
                let id = self.chains[i].id;
                let pending = self.has_queued_activation(id);
                if !pending {
                    self.chains[i].active = false;
                }
            }
            i = i + 1;
        }
    }

    /// Whether an activation of chain `chain_id` is still queued
    fn has_queued_activation(&self, chain_id: u32) -> (r: bool)
        ensures
            r == has_pending(self.activation_queue@, chain_id),
    {
        let mut j: usize = 0;
        while j < self.activation_queue.len()
            invariant
                0 <= j <= self.activation_queue@.len(),
                forall|k: int| 0 <= k < j ==> self.activation_queue@[k].chain_id != chain_id,
            decreases self.activation_queue.len() - j,
        {
            if self.activation_queue[j].chain_id == chain_id {
                return true;
            }
            j = j + 1;
        }
        false
    }
}

impl<E: Copy, S> ChainManager<E, S> {
    /// Queue the activations that energy propagated from `source_entity` causes: the
    /// `i`-th target gets a packet with `split_energy`, itself as source and the path
    /// `path` followed by `source_entity`, after the delay of the `i`-th target
    pub fn queue_propagation(
        &mut self,
        targets: &[(u64, GridPosition)],
        source_entity: u64,
        path: &Vec<u64>,
        split_energy: E,
        chain_id: u32,
    )
        ensures
            final(self).activation_queue@.len() == old(self).activation_queue@.len()
                + targets@.len(),
            final(self).activation_queue@.take(old(self).activation_queue@.len() as int)
                == old(self).activation_queue@,
            forall|i: int|
                0 <= i < targets@.len() ==> is_queued_as(
                    #[trigger] final(self).activation_queue@[old(self).activation_queue@.len() + i],
                    targets@[i].0,
                    split_energy,
                    targets@[i].0,
                    path@.push(source_entity),
                    vstd::math::min(spec_propagation_delay_us(i), u64::MAX as int) as u64,
                    chain_id,
                ),
            final(self).chains == old(self).chains,
            final(self).next_chain_id == old(self).next_chain_id,
            final(self).current_chain == old(self).current_chain,
            final(self).chain_started_this_turn == old(self).chain_started_this_turn,
    {
        let ghost q0 = self.activation_queue@;
        let mut i: usize = 0;
        while i < targets.len()
            invariant
                0 <= i <= targets@.len(),
                self.activation_queue@.len() == q0.len() + i,
                self.activation_queue@.take(q0.len() as int) == q0,
                forall|k: int|
                    0 <= k < i ==> is_queued_as(
                        #[trigger] self.activation_queue@[q0.len() + k],
                        targets@[k].0,
                        split_energy,
                        targets@[k].0,
                        path@.push(source_entity),
                        vstd::math::min(spec_propagation_delay_us(k), u64::MAX as int) as u64,
                        chain_id,
                    ),
                self.chains == old(self).chains,
                self.next_chain_id == old(self).next_chain_id,
                self.current_chain == old(self).current_chain,
                self.chain_started_this_turn == old(self).chain_started_this_turn,
            decreases targets.len() - i,
        {
            let (target_entity, _) = targets[i];
            let mut new_path = path.clone();
            proof {
                assert(new_path@ =~= path@);
            }
            new_path.push(source_entity);
            let new_packet = EnergyPacket {
                energy: split_energy,
                source_entity: target_entity,
                path: new_path,
            };
            let delay = propagation_delay_us(i);
            let ghost before = self.activation_queue@;
            self.queue_activation(target_entity, new_packet, delay, chain_id);
            proof {
                assert(self.activation_queue@.take(q0.len() as int) =~= before.take(q0.len() as int));
                assert forall|k: int| 0 <= k < i + 1 implies is_queued_as(
                    #[trigger] self.activation_queue@[q0.len() + k],
                    targets@[k].0,
                    split_energy,
                    targets@[k].0,
                    path@.push(source_entity),
                    vstd::math::min(spec_propagation_delay_us(k), u64::MAX as int) as u64,
                    chain_id,
                ) by {
                    if k < i {
                        assert(self.activation_queue@[q0.len() + k] == before[q0.len() + k]);
                    }
                }
            }
            i = i + 1;
        }
    }
}

impl<E> MushroomActivationState<E> {
    /// A mushroom that has not activated this turn and is not cooling down
    pub fn new(no_energy: E) -> (r: Self)
        ensures
            r.activations_this_turn == 0,
            r.last_activation_energy == no_energy,
            r.cooldown_timer is None,
    {
        MushroomActivationState {
            activations_this_turn: 0,
            last_activation_energy: no_energy,
            cooldown_timer: None,
        }
    }

    /// Whether the mushroom may activate: it has uses left this turn and is not
    /// cooling down.
    pub open spec fn can_activate(&self, max_uses_per_turn: u32) -> bool {
        self.activations_this_turn < max_uses_per_turn && self.cooldown_timer is None
    }

    /// Activate the mushroom with the incoming `energy` if it can activate: one more
    /// use this turn, the energy recorded, and a cooldown of `cooldown_ms`
    /// milliseconds started. Returns whether it activated; if not, nothing changes
    pub fn try_activate(&mut self, energy: E, max_uses_per_turn: u32, cooldown_ms: u32) -> (r:
        bool)
        ensures
            r == old(self).can_activate(max_uses_per_turn),
            r ==> {
                &&& final(self).activations_this_turn == old(self).activations_this_turn + 1
                &&& final(self).last_activation_energy == energy
                &&& final(self).cooldown_timer == Some(
                    OnceTimer {
                        duration_us: (cooldown_ms * 1000) as u64,
                        elapsed_us: 0,
                        finished: false,
                    },
                )
            },
            !r ==> *final(self) == *old(self),
            old(self).activations_this_turn <= max_uses_per_turn
                ==> final(self).activations_this_turn <= max_uses_per_turn,
    {
        // Check if mushroom can activate
        if self.activations_this_turn >= max_uses_per_turn {
            return false;
        }
        if self.cooldown_timer.is_some() {
            return false;
        }
        // Activate the mushroom
        self.activations_this_turn += 1;
        self.last_activation_energy = energy;
        self.cooldown_timer = Some(OnceTimer::from_micros(cooldown_ms as u64 * 1000));
        true
    }

    /// The uses left this turn for a mushroom allowed `max_uses_per_turn` uses
    pub fn remaining_uses(&self, max_uses_per_turn: u32) -> (r: u32)
        ensures
            r == if self.activations_this_turn <= max_uses_per_turn {
                max_uses_per_turn - self.activations_this_turn
            } else {
                0
            },
    {
        max_uses_per_turn.saturating_sub(self.activations_this_turn)
    }

    /// Update the cooldown by `delta_us` microseconds; a cooldown that runs out ends
    pub fn update_cooldown(&mut self, delta_us: u64)
        ensures
            final(self).activations_this_turn == old(self).activations_this_turn,
            final(self).last_activation_energy == old(self).last_activation_energy,
            final(self).cooldown_timer == match old(self).cooldown_timer {
                Some(t) => if spec_tick(t, delta_us).finished {
                    None
                } else {
                    Some(spec_tick(t, delta_us))
                },
                None => None,
            },
    {
        match self.cooldown_timer {
            Some(timer) => {
                let mut t = timer;
                t.tick(delta_us);
                if t.finished() {
                    self.cooldown_timer = None;
                } else {
                    self.cooldown_timer = Some(t);
                }
            },
            None => {},
        }
    }

    /// Reset at the start of a new turn: no uses, no energy and no cooldown
    pub fn reset_for_new_turn(&mut self, no_energy: E)
        ensures
            final(self).activations_this_turn == 0,
            final(self).last_activation_energy == no_energy,
            final(self).cooldown_timer is None,
    {
        self.activations_this_turn = 0;
        self.last_activation_energy = no_energy;
        self.cooldown_timer = None;
    }

    /// Reset when the chain phase starts: no uses and no energy; a running cooldown
    /// keeps running
    pub fn reset_for_chain_phase(&mut self, no_energy: E)
        ensures
            final(self).activations_this_turn == 0,
            final(self).last_activation_energy == no_energy,
            final(self).cooldown_timer == old(self).cooldown_timer,
    {
        self.activations_this_turn = 0;
        self.last_activation_energy = no_energy;
    }
}

/// Reset mushroom states (at the start of a new turn), and the chain manager with them
pub fn reset_mushroom_states<E: Copy, S>(
    mushrooms: &mut Vec<MushroomActivationState<E>>,
    chain_manager: &mut ChainManager<E, S>,
    no_energy: E,
)
    ensures
        final(mushrooms)@.len() == old(mushrooms)@.len(),
        forall|i: int|
            0 <= i < final(mushrooms)@.len() ==> {
                &&& (#[trigger] final(mushrooms)@[i]).activations_this_turn == 0
                &&& final(mushrooms)@[i].last_activation_energy == no_energy
                &&& final(mushrooms)@[i].cooldown_timer is None
            },
        final(chain_manager).chains@.len() == 0,
        final(chain_manager).activation_queue@.len() == 0,
        final(chain_manager).current_chain is None,
        !final(chain_manager).chain_started_this_turn,
        final(chain_manager).next_chain_id == old(chain_manager).next_chain_id,
        final(chain_manager).wf(),
{
    let mut i: usize = 0;
    while i < mushrooms.len()
        invariant
            0 <= i <= mushrooms@.len(),
            mushrooms@.len() == old(mushrooms)@.len(),
            forall|k: int|
                0 <= k < i ==> {
                    &&& (#[trigger] mushrooms@[k]).activations_this_turn == 0
                    &&& mushrooms@[k].last_activation_energy == no_energy
                    &&& mushrooms@[k].cooldown_timer is None
                },
        decreases mushrooms.len() - i,
    {
        mushrooms[i].reset_for_new_turn(no_energy);
        i = i + 1;
    }
    chain_manager.reset_turn();
}

/// The mushrooms that the connection points `points` of a mushroom at `pos` with
/// facing `direction` reach, in the order of the points, with their cells: a point
/// reaches the entity in the cell it names, if there is one.
pub open spec fn spec_connected_targets(
    field: PlayField,
    pos: GridPosition,
    direction: Option<MushroomDirection>,
    points: Seq<GridOffset>,
) -> Seq<(u64, GridPosition)>
    decreases points.len(),
{
    if points.len() == 0 {
        Seq::empty()
    } else {
        let before = spec_connected_targets(field, pos, direction, points.drop_last());
        let target = facing_target(pos, direction, points.last());
        match field.spec_get(target) {
            Some(e) => before.push((e, target)),
            None => before,
        }
    }
}

/// Whether every connection point of a mushroom at `pos` with facing `direction`
/// names a cell.
pub open spec fn all_targets_fit(
    pos: GridPosition,
    direction: Option<MushroomDirection>,
    points: Seq<GridOffset>,
) -> bool {
    forall|i: int| 0 <= i < points.len() ==> #[trigger] target_fits(pos, direction, points[i])
}

/// Check that every connection point of a mushroom at `pos` names a cell, before
/// its targets are looked up
pub fn targets_fit(
    pos: GridPosition,
    direction: Option<MushroomDirection>,
    connection_points: &[GridOffset],
) -> (r: bool)
    ensures
        r == all_targets_fit(pos, direction, connection_points@),
{
    let mut k: usize = 0;
    while k < connection_points.len()
        invariant
            0 <= k <= connection_points@.len(),
            forall|i: int| 0 <= i < k ==> #[trigger] target_fits(pos, direction, connection_points@[i]),
        decreases connection_points.len() - k,
    {
        let p = connection_points[k];
        let (ox, oy): (i64, i64) = match direction {
            Some(MushroomDirection::Up) | None => (p.x as i64, p.y as i64),
            Some(MushroomDirection::Right) => (p.y as i64, -(p.x as i64)),
            Some(MushroomDirection::Down) => (-(p.x as i64), -(p.y as i64)),
            Some(MushroomDirection::Left) => (-(p.y as i64), p.x as i64),
        };
        let negates_min = match direction {
            Some(MushroomDirection::Right) => p.x == i32::MIN,
            Some(MushroomDirection::Down) => p.x == i32::MIN || p.y == i32::MIN,
            Some(MushroomDirection::Left) => p.y == i32::MIN,
            _ => false,
        };
        let x = pos.x as i64 + ox;
        let y = pos.y as i64 + oy;
        if negates_min || x < i32::MIN as i64 || x > i32::MAX as i64 || y < i32::MIN as i64 || y
            > i32::MAX as i64 {
            proof {
                assert(p == connection_points@[k as int]);
                assert(!target_fits(pos, direction, connection_points@[k as int]));
            }
            return false;
        }
        k = k + 1;
    }
    true
}

/// A mushroom reaches at most one mushroom per connection point, so an activation
/// queues at most that many more; with the uses of each mushroom limited per turn,
/// a turn's chain reaction is bounded.
pub proof fn lemma_connected_targets_bounded(
    field: PlayField,
    pos: GridPosition,
    direction: Option<MushroomDirection>,
    points: Seq<GridOffset>,
)
    ensures
        spec_connected_targets(field, pos, direction, points).len() <= points.len(),
    decreases points.len(),
{
    if points.len() > 0 {
        lemma_connected_targets_bounded(field, pos, direction, points.drop_last());
    }
}

/// The mushrooms that the connection points of a mushroom at `source_pos` reach,
/// each with the cell it stands in
pub fn connected_targets(
    play_field: &PlayField,
    source_pos: GridPosition,
    direction: Option<MushroomDirection>,
    connection_points: &[GridOffset],
) -> (targets: Vec<(u64, GridPosition)>)
    requires
        all_targets_fit(source_pos, direction, connection_points@),
    ensures
        targets@ == spec_connected_targets(*play_field, source_pos, direction, connection_points@),
{
    let mut targets: Vec<(u64, GridPosition)> = Vec::new();
    let mut k: usize = 0;
    while k < connection_points.len()
        invariant
            0 <= k <= connection_points@.len(),
            all_targets_fit(source_pos, direction, connection_points@),
            targets@ == spec_connected_targets(
                *play_field,
                source_pos,
                direction,
                connection_points@.take(k as int),
            ),
        decreases connection_points.len() - k,
    {
        let point = connection_points[k];
        proof {
            assert(connection_points@.take(k + 1).drop_last() =~= connection_points@.take(k as int));
            assert(connection_points@.take(k + 1).last() == point);
        }
        let target_pos = connection_target_position(source_pos, direction, &point);
        if let Some(entity) = play_field.get(target_pos) {
            targets.push((entity, target_pos));
        }
        k = k + 1;
    }
    proof {
        assert(connection_points@.take(connection_points@.len() as int) =~= connection_points@);
    }
    targets
}

/// The spatial index after the cells of `targets` are emptied, in order.
pub open spec fn without_targets(m: Map<(i32, i32), u64>, targets: Seq<(u64, GridPosition)>) -> Map<
    (i32, i32),
    u64,
>
    decreases targets.len(),
{
    if targets.len() == 0 {
        m
    } else {
        without_targets(m, targets.drop_last()).remove(position_key(targets.last().1))
    }
}

/// Remove the mushrooms a deleter destroys from the play field; returns how many
/// were destroyed
pub fn delete_targets(play_field: &mut PlayField, targets: &[(u64, GridPosition)]) -> (deleted_count:
    usize)
    ensures
        deleted_count == targets@.len(),
        final(play_field).entity_map() == without_targets(old(play_field).entity_map(), targets@),
        final(play_field).tiles == old(play_field).tiles,
        final(play_field).connections == old(play_field).connections,
        final(play_field).width == old(play_field).width,
        final(play_field).height == old(play_field).height,
{
    let mut deleted_count: usize = 0;
    while deleted_count < targets.len()
        invariant
            0 <= deleted_count <= targets@.len(),
            play_field.entity_map() == without_targets(
                old(play_field).entity_map(),
                targets@.take(deleted_count as int),
            ),
            play_field.tiles == old(play_field).tiles,
            play_field.connections == old(play_field).connections,
            play_field.width == old(play_field).width,
            play_field.height == old(play_field).height,
        decreases targets.len() - deleted_count,
    {
        let (_, target_pos) = targets[deleted_count];
        proof {
            assert(targets@.take(deleted_count + 1).drop_last() =~= targets@.take(
                deleted_count as int,
            ));
        }
        play_field.remove(target_pos);
        deleted_count = deleted_count + 1;
    }
    proof {
        assert(targets@.take(targets@.len() as int) =~= targets@);
    }
    deleted_count
}

/// A finished timer stays finished and unchanged; a running timer never runs past
/// its duration; and a tick at least as long as the time left finishes it.
pub proof fn lemma_timer_ticks(t: OnceTimer, delta_us: u64)
    requires
        t.elapsed_us <= t.duration_us,
    ensures
        t.finished ==> spec_tick(t, delta_us) == t,
        spec_tick(t, delta_us).elapsed_us <= spec_tick(t, delta_us).duration_us,
        spec_tick(t, delta_us).duration_us == t.duration_us,
        delta_us >= t.duration_us - t.elapsed_us ==> spec_tick(t, delta_us).finished,
        !t.finished && delta_us < t.duration_us - t.elapsed_us ==> !spec_tick(
            t,
            delta_us,
        ).finished,
{
}

/// Taking out the ready activations loses none and adds none: every queued
/// activation ends up either ready or still waiting.
pub proof fn lemma_ready_waiting_partition<E>(q: Seq<PendingActivation<E>>)
    ensures
        ready_part(q).len() + waiting_part(q).len() == q.len(),
        forall|i: int| 0 <= i < ready_part(q).len() ==> (#[trigger] ready_part(q)[i]).delay.finished,
        forall|i: int|
            0 <= i < waiting_part(q).len() ==> !(#[trigger] waiting_part(q)[i]).delay.finished,
    decreases q.len(),
{
    if q.len() > 0 {
        lemma_ready_waiting_partition(q.drop_last());
        let r = ready_part(q.drop_last());
        let w = waiting_part(q.drop_last());
        assert forall|i: int| 0 <= i < ready_part(q).len() implies (#[trigger] ready_part(
            q,
        )[i]).delay.finished by {
            if i < r.len() {
                assert(ready_part(q)[i] == r[i]);
            }
        }
        assert forall|i: int| 0 <= i < waiting_part(q).len() implies !(#[trigger] waiting_part(
            q,
        )[i]).delay.finished by {
            if i < w.len() {
                assert(waiting_part(q)[i] == w[i]);
            }
        }
    }
}

/// Later targets of a propagation are reached later: the delays grow by 0.05 s per
/// target.
pub proof fn lemma_propagation_delays_increase(i: int, j: int)
    requires
        0 <= i < j,
    ensures
        spec_propagation_delay_us(i) < spec_propagation_delay_us(j),
        spec_propagation_delay_us(j) - spec_propagation_delay_us(i) == 50_000 * (j - i),
{
}

/// What came of an activation that reached a mushroom.
pub enum ActivationOutcome {
    /// The mushroom could not activate: its uses this turn are spent, or it is
    /// cooling down
    Refused,
    /// The mushroom activated
    Activated {
        /// The mushrooms its connection points reach, with their cells
        targets: Vec<(u64, GridPosition)>,
        /// How many mushrooms it destroyed (a deleter destroys every target)
        destroyed: usize,
        /// Whether energy goes on to the targets (from amplifiers and converters)
        propagates: bool,
    },
}

/// An activation reaches the mushroom at `position` with facing `direction`: if it
/// can activate, it does (one more use, the energy recorded, its cooldown started),
/// the activation is recorded in its chain, and the mushrooms its connection points
/// reach are found; a deleter removes them from the field, an amplifier or a
/// converter passes energy on to them, and a basic mushroom only produces spores.
/// A mushroom that cannot activate
/// changes nothing. The spores it produces, and the energy it passes on, are
/// computed by the caller from the outcome
pub fn activate_mushroom<E: Copy, S>(
    activation: &PendingActivation<E>,
    state: &mut MushroomActivationState<E>,
    position: GridPosition,
    direction: Option<MushroomDirection>,
    definition: &MushroomDefinition,
    play_field: &mut PlayField,
    chain_manager: &mut ChainManager<E, S>,
) -> (r: ActivationOutcome)
    requires
        old(chain_manager).wf(),
        all_targets_fit(position, direction, definition.connection_points@),
    ensures
        final(chain_manager).wf(),
        r is Refused <==> !old(state).can_activate(definition.max_uses_per_turn),
        old(state).activations_this_turn <= definition.max_uses_per_turn
            ==> final(state).activations_this_turn <= definition.max_uses_per_turn,
        r is Refused ==> {
            &&& *final(state) == *old(state)
            &&& *final(play_field) == *old(play_field)
            &&& *final(chain_manager) == *old(chain_manager)
        },
        r matches ActivationOutcome::Activated { targets, destroyed, propagates } ==> {
            let deleter = definition.activation_behavior is Deleter;
            &&& final(state).activations_this_turn == old(state).activations_this_turn + 1
            &&& final(state).last_activation_energy == activation.energy_packet.energy
            &&& final(state).cooldown_timer == Some(
                OnceTimer {
                    duration_us: (definition.cooldown_ms * 1000) as u64,
                    elapsed_us: 0,
                    finished: false,
                },
            )
            &&& targets@ == spec_connected_targets(
                *old(play_field),
                position,
                direction,
                definition.connection_points@,
            )
            &&& propagates == (definition.activation_behavior is Amplifier
                || definition.activation_behavior is Converter)
            &&& deleter ==> destroyed == targets@.len() && final(play_field).entity_map()
                == without_targets(old(play_field).entity_map(), targets@)
            &&& !deleter ==> destroyed == 0 && final(play_field).entity_map() == old(
                play_field,
            ).entity_map()
            &&& final(play_field).tiles == old(play_field).tiles
            &&& final(play_field).connections == old(play_field).connections
            &&& final(play_field).width == old(play_field).width
            &&& final(play_field).height == old(play_field).height
            &&& recorded(*old(chain_manager), *final(chain_manager), *activation, position)
        },
{
    if !state.try_activate(
        activation.energy_packet.energy,
        definition.max_uses_per_turn,
        definition.cooldown_ms,
    ) {
        return ActivationOutcome::Refused;
    }
    chain_manager.record_activation(activation, position);
    let targets = connected_targets(play_field, position, direction, &definition.connection_points);
    let propagates = definition.activation_behavior.propagates();
    let destroyed = if definition.activation_behavior.deletes() {
        delete_targets(play_field, &targets)
    } else {
        0
    };
    ActivationOutcome::Activated { targets, destroyed, propagates }
}

} // verus!
