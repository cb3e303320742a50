use crate::error::GammaError;
use crate::utils::pubkey::Pubkey;
use vstd::prelude::*;

verus! {

/// The number of observations that the ring holds.
pub const OBSERVATION_NUM: usize = 100;

/// The two price accumulators of a pool at one moment.
///
/// Each accumulator is the sum, over the time since the first observation, of
/// the price with 32 fractional bits times the seconds for which it held.
#[derive(Clone, Copy, Debug, PartialEq, Eq, Structural)]
pub struct Observation {
    pub block_timestamp: u64,
    pub cumulative_token_0_price_x32: u128,
    pub cumulative_token_1_price_x32: u128,
}

/// A ring of the latest observations of a pool. A slot that was never written
/// has the timestamp zero.
#[derive(Clone, Copy, Debug)]
pub struct ObservationState {
    pub initialized: bool,
    /// The slot written last.
    pub observation_index: u16,
    pub pool_id: Pubkey,
    pub observations: [Observation; 100],
}

impl Observation {
    pub open spec fn spec_empty() -> Observation {
        Observation {
            block_timestamp: 0,
            cumulative_token_0_price_x32: 0,
            cumulative_token_1_price_x32: 0,
        }
    }
}

impl ObservationState {
    /// The slot that is `p` places after the oldest one, going round: place
    /// 0 is the slot that is written next, place 99 the one written last.
    pub open spec fn spec_ring_slot(&self, p: int) -> int {
        (self.observation_index + 1 + p) % (OBSERVATION_NUM as int)
    }

    /// Going round from the oldest slot, the slots that were written have
    /// strictly increasing timestamps, and those never written come first.
    pub open spec fn spec_time_ordered(&self) -> bool {
        forall|p: int, q: int|
            0 <= p < q < OBSERVATION_NUM ==> {
                let earlier = #[trigger] self.observations@[self.spec_ring_slot(p)];
                let later = #[trigger] self.observations@[self.spec_ring_slot(q)];
                earlier.block_timestamp == 0 || earlier.block_timestamp < later.block_timestamp
            }
    }

    /// The index is one of a slot.
    pub open spec fn wf(&self) -> bool {
        (self.observation_index as int) < OBSERVATION_NUM
    }

    /// The observations are in the order of their time, and a ring that was
    /// never written holds none.
    pub open spec fn spec_well_ordered(&self) -> bool {
        &&& self.spec_time_ordered()
        &&& !self.initialized ==> forall|i: int|
            0 <= i < OBSERVATION_NUM ==> (#[trigger] self.observations@[i]).block_timestamp == 0
    }

    /// The slot after the one written last, going round.
    pub open spec fn spec_next_index(&self) -> int {
        if self.observation_index as int == OBSERVATION_NUM - 1 {
            0
        } else {
            self.observation_index as int + 1
        }
    }

    /// The observation written last.
    pub open spec fn spec_last(&self) -> Observation {
        self.observations@[self.observation_index as int]
    }

    /// The seconds between the observation written last and `block_timestamp`,
    /// zero where the latter is not later.
    pub open spec fn spec_elapsed(&self, block_timestamp: u64) -> int {
        if block_timestamp > self.spec_last().block_timestamp {
            block_timestamp - self.spec_last().block_timestamp
        } else {
            0
        }
    }

    /// Whether [`ObservationState::update`] has an observation to write and
    /// can write it: the ring is fresh, or time has passed and the
    /// accumulators have room for the step.
    pub open spec fn spec_update_fits(&self, block_timestamp: u64, token_0_price_x32: u128, token_1_price_x32: u128) -> bool {
        let elapsed = self.spec_elapsed(block_timestamp);
        let last = self.spec_last();
        self.initialized && elapsed > 0 ==> {
            &&& last.cumulative_token_0_price_x32 + token_0_price_x32 * elapsed <= u128::MAX
            &&& last.cumulative_token_1_price_x32 + token_1_price_x32 * elapsed <= u128::MAX
        }
    }

    /// The ring after [`ObservationState::update`] has succeeded.
    pub open spec fn spec_updated(&self, block_timestamp: u64, token_0_price_x32: u128, token_1_price_x32: u128) -> ObservationState {
        let elapsed = self.spec_elapsed(block_timestamp);
        let last = self.spec_last();
        if !self.initialized {
            ObservationState {
                initialized: true,
                observations: vstd::array::spec_array_update(
                    self.observations,
                    self.observation_index as int,
                    Observation {
                        block_timestamp,
                        cumulative_token_0_price_x32: 0,
                        cumulative_token_1_price_x32: 0,
                    },
                ),
                ..*self
            }
        } else if elapsed == 0 {
            *self
        } else {
            ObservationState {
                observation_index: self.spec_next_index() as u16,
                observations: vstd::array::spec_array_update(
                    self.observations,
                    self.spec_next_index(),
                    Observation {
                        block_timestamp,
                        cumulative_token_0_price_x32: (last.cumulative_token_0_price_x32
                            + token_0_price_x32 * elapsed) as u128,
                        cumulative_token_1_price_x32: (last.cumulative_token_1_price_x32
                            + token_1_price_x32 * elapsed) as u128,
                    },
                ),
                ..*self
            }
        }
    }

    /// A ring with no observation.
    pub fn new(pool_id: Pubkey) -> (state: ObservationState)
        ensures
            state.wf(),
            state.spec_well_ordered(),
            !state.initialized,
            state.observation_index == 0,
            state.pool_id == pool_id,
            forall|i: int| 0 <= i < OBSERVATION_NUM ==> state.observations@[i] == Observation::spec_empty(),
    {
        broadcast use vstd::array::group_array_axioms;

        let empty = Observation {
            block_timestamp: 0,
            cumulative_token_0_price_x32: 0,
            cumulative_token_1_price_x32: 0,
        };
        let state = ObservationState {
            initialized: false,
            observation_index: 0,
            pool_id,
            observations: [empty; 100],
        };
        assert(state.spec_time_ordered()) by {
            assert forall|p: int, q: int| 0 <= p < q < OBSERVATION_NUM implies ({
                let earlier = #[trigger] state.observations@[state.spec_ring_slot(p)];
                let later = #[trigger] state.observations@[state.spec_ring_slot(q)];
                earlier.block_timestamp == 0 || earlier.block_timestamp < later.block_timestamp
            }) by {
                assert(0 <= state.spec_ring_slot(p) < OBSERVATION_NUM);
            }
        }
        state
    }

    /// Records the prices that held until `block_timestamp`.
    ///
    /// The first call writes an observation with both accumulators at zero
    /// into the current slot. A later call at a later time writes into the
    /// next slot, going round and so replacing the oldest observation: each
    /// accumulator grows by the price times the seconds since the last
    /// observation. A call that is not later than the last observation
    /// changes nothing. Where an accumulator has no room, the ring is left as
    /// it was and the error is `MathOverflow`.
    pub fn update(&mut self, block_timestamp: u64, token_0_price_x32: u128, token_1_price_x32: u128) -> (r: Result<(), GammaError>)
        requires
            old(self).wf(),
        ensures
            final(self).wf(),
            old(self).spec_well_ordered() ==> final(self).spec_well_ordered(),
            old(self).spec_update_fits(block_timestamp, token_0_price_x32, token_1_price_x32) ==> r.is_ok()
                && *final(self) == old(self).spec_updated(
                block_timestamp,
                token_0_price_x32,
                token_1_price_x32,
            ),
            !old(self).spec_update_fits(block_timestamp, token_0_price_x32, token_1_price_x32) ==> r == Err::<
                (),
                GammaError,
            >(GammaError::MathOverflow) && *final(self) == *old(self),
    {
        broadcast use vstd::array::group_array_axioms;

        let index = self.observation_index as usize;
        if !self.initialized {
            self.initialized = true;
            self.observations[index] = Observation {
                block_timestamp,
                cumulative_token_0_price_x32: 0,
                cumulative_token_1_price_x32: 0,
            };
            assert(self.observations =~= old(self).spec_updated(
                block_timestamp,
                token_0_price_x32,
                token_1_price_x32,
            ).observations);
            assert(old(self).spec_well_ordered() ==> self.spec_time_ordered()) by {
                assert forall|p: int, q: int|
                    old(self).spec_well_ordered() && 0 <= p < q < OBSERVATION_NUM implies ({
                    let earlier = #[trigger] self.observations@[self.spec_ring_slot(p)];
                    let later = #[trigger] self.observations@[self.spec_ring_slot(q)];
                    earlier.block_timestamp == 0 || earlier.block_timestamp < later.block_timestamp
                }) by {
                    // Every slot but the one just written is empty, and that one is last.
                    assert(self.spec_ring_slot(p) != index);
                    assert(old(self).observations@[self.spec_ring_slot(p)].block_timestamp == 0);
                }
            }
            return Ok(());
        }
        let last = self.observations[index];
        let elapsed = block_timestamp.saturating_sub(last.block_timestamp);
        if elapsed == 0 {
            return Ok(());
        }
        let step_0 = match token_0_price_x32.checked_mul(elapsed as u128) {
            Some(v) => v,
            None => { return Err(GammaError::MathOverflow); },
        };
        let step_1 = match token_1_price_x32.checked_mul(elapsed as u128) {
            Some(v) => v,
            None => { return Err(GammaError::MathOverflow); },
        };
        let cumulative_0 = match last.cumulative_token_0_price_x32.checked_add(step_0) {
            Some(v) => v,
            None => { return Err(GammaError::MathOverflow); },
        };
        let cumulative_1 = match last.cumulative_token_1_price_x32.checked_add(step_1) {
            Some(v) => v,
            None => { return Err(GammaError::MathOverflow); },
        };
        let next: usize = if index == OBSERVATION_NUM - 1 {
            0
        } else {
            index + 1
        };
        self.observations[next] = Observation {
            block_timestamp,
            cumulative_token_0_price_x32: cumulative_0,
            cumulative_token_1_price_x32: cumulative_1,
        };
        self.observation_index = next as u16;
        assert(self.observations =~= old(self).spec_updated(
            block_timestamp,
            token_0_price_x32,
            token_1_price_x32,
        ).observations);
        assert(old(self).spec_well_ordered() ==> self.spec_time_ordered()) by {
            assert forall|p: int, q: int|
                old(self).spec_well_ordered() && 0 <= p < q < OBSERVATION_NUM implies ({
                let earlier = #[trigger] self.observations@[self.spec_ring_slot(p)];
                let later = #[trigger] self.observations@[self.spec_ring_slot(q)];
                earlier.block_timestamp == 0 || earlier.block_timestamp < later.block_timestamp
            }) by {
                // Each place is the place after it of the ring as it was; the
                // last place holds what was just written.
                assert(self.spec_ring_slot(p) == old(self).spec_ring_slot(p + 1));
                assert(self.spec_ring_slot(p) != next);
                assert(old(self).spec_ring_slot(99) == index);
                if q < OBSERVATION_NUM - 1 {
                    assert(self.spec_ring_slot(q) == old(self).spec_ring_slot(q + 1));
                    assert(self.spec_ring_slot(q) != next);
                    let a = old(self).observations@[old(self).spec_ring_slot(p + 1)];
                    let b = old(self).observations@[old(self).spec_ring_slot(q + 1)];
                    assert(a.block_timestamp == 0 || a.block_timestamp < b.block_timestamp);
                } else {
                    assert(self.spec_ring_slot(q) == next);
                    if p + 1 < OBSERVATION_NUM - 1 {
                        let a = old(self).observations@[old(self).spec_ring_slot(p + 1)];
                        let b = old(self).observations@[old(self).spec_ring_slot(99)];
                        assert(a.block_timestamp == 0 || a.block_timestamp < b.block_timestamp);
                    }
                }
            }
        }
        Ok(())
    }
}

} // verus!
