//! Cliff vesting grants: nothing vests before the cliff instant, a fixed lump
//! unlocks at the cliff, and the remainder releases linearly until the total
//! duration has elapsed. The beneficiary claims vested value; a revocable
//! grant's grantor may revoke it, settling the vested-but-unclaimed balance
//! to the beneficiary and reclaiming the rest.
//!
//! `VestingContract` models the contract's persisted state as a value: the
//! admin, the schedules in creation order (a schedule's id is its position),
//! and the append-only claim history of each schedule.

use crate::accrual::{
    lemma_vesting_accrued_bounds, lemma_vesting_accrued_monotonic, vesting_accrued,
    vesting_accrued_at,
};
use crate::history::{lemma_history_total_push, spec_history_total, ClaimRecord};
use vstd::prelude::*;

verus! {

/// Status of a vesting schedule.
#[derive(Clone, Copy, Debug, PartialEq, Eq, Structural)]
pub enum VestingStatus {
    /// Tokens are vesting according to the schedule.
    Active,
    /// The grantor revoked the schedule; its total was capped to what had
    /// vested by then, and everything owed was settled.
    Revoked,
    /// Every vested token has been claimed.
    FullyClaimed,
}

/// Failures of the vesting operations.
#[derive(Clone, Copy, Debug, PartialEq, Eq, Structural)]
pub enum VestingError {
    AlreadyInitialized,
    NotInitialized,
    Unauthorized,
    InvalidAmount,
    InvalidSchedule,
    InvalidCliffDuration,
    ScheduleNotFound,
    ScheduleRevoked,
    AlreadyFullyClaimed,
    NothingToClaim,
}

/// A vesting schedule with a cliff followed by linear release.
#[derive(Clone, Copy, Debug, PartialEq, Eq, Structural)]
pub struct VestingSchedule {
    /// Unique identifier; equals the schedule's position in creation order.
    pub id: u32,
    /// The organization or grantor that created the schedule.
    pub grantor: u64,
    /// The account receiving vested tokens.
    pub beneficiary: u64,
    /// The token being vested.
    pub token: u64,
    /// Total amount the schedule vests; capped down once upon revocation.
    pub total_amount: i128,
    /// Amount already claimed; never exceeds `total_amount`.
    pub claimed_amount: i128,
    /// Timestamp at which vesting begins.
    pub start_time: u64,
    /// Length of the cliff period; nothing vests before it elapses.
    pub cliff_duration: u64,
    /// Amount that unlocks at the cliff instant.
    pub cliff_amount: i128,
    /// Length of the whole vesting period, from `start_time` to fully vested.
    pub total_duration: u64,
    /// A short descriptor for the grant, encoded as the host encodes small
    /// symbols.
    pub label: u64,
    /// Current lifecycle status.
    pub status: VestingStatus,
    /// Whether the grantor may revoke the unvested remainder.
    pub revocable: bool,
}

/// Snapshot of a schedule's progress; a pure projection of the record and the
/// query time.
#[derive(Clone, Copy, Debug, PartialEq, Eq, Structural)]
pub struct VestingProgress {
    pub total_amount: i128,
    pub vested_amount: i128,
    pub claimed_amount: i128,
    pub claimable_amount: i128,
    pub status: VestingStatus,
}

impl VestingSchedule {
    /// Well-formedness: claims within the total, a well-ordered cliff, the
    /// creation-time bounds on every schedule that is not revoked, and a
    /// terminal schedule fully settled.
    pub open spec fn wf(self) -> bool {
        &&& self.total_amount >= 0
        &&& 0 <= self.claimed_amount <= self.total_amount
        &&& self.cliff_duration < self.total_duration
        &&& (self.status != VestingStatus::Revoked ==> {
            &&& self.total_amount > 0
            &&& 0 <= self.cliff_amount <= self.total_amount
            &&& (self.total_amount - self.cliff_amount) * ((self.total_duration
                - self.cliff_duration) as int) <= i128::MAX
        })
        &&& (self.status == VestingStatus::Revoked ==> self.claimed_amount == self.total_amount)
        &&& (self.status == VestingStatus::FullyClaimed ==> self.claimed_amount
            == self.total_amount)
    }

    /// Vested amount as of `now`, by the cliff-plus-linear formula. Only
    /// meaningful while the schedule has not been revoked; a revoked
    /// schedule's total already equals everything that ever vested.
    pub open spec fn spec_vested(self, now: int) -> int
        recommends
            self.wf(),
            self.status != VestingStatus::Revoked,
    {
        vesting_accrued(
            self.total_amount as int,
            self.cliff_amount as int,
            self.start_time as int,
            self.cliff_duration as int,
            self.total_duration as int,
            now,
        )
    }

    /// Vested amount a progress query reports: the formula value while the
    /// schedule lives, and the capped total (everything that ever vested)
    /// after revocation.
    pub open spec fn spec_display_vested(self, now: int) -> int {
        if self.status == VestingStatus::Revoked {
            self.total_amount as int
        } else {
            self.spec_vested(now)
        }
    }
}

/// The progress snapshot of a schedule as of `now`; the claimable amount is
/// vested minus claimed, clamped to zero.
pub open spec fn spec_progress(s: VestingSchedule, now: int) -> VestingProgress {
    let vested = s.spec_display_vested(now);
    let claimable = vested - s.claimed_amount;
    VestingProgress {
        total_amount: s.total_amount,
        vested_amount: vested as i128,
        claimed_amount: s.claimed_amount,
        claimable_amount: if claimable > 0 {
            claimable as i128
        } else {
            0
        },
        status: s.status,
    }
}

/// The schedule record after a successful claim at `now`: the claimed amount
/// advances to the vested amount, and the schedule is fully claimed once the
/// whole total has been paid out.
pub open spec fn spec_after_vesting_claim(s: VestingSchedule, now: u64) -> VestingSchedule {
    let claimed = s.spec_vested(now as int);
    VestingSchedule {
        claimed_amount: claimed as i128,
        status: if claimed >= s.total_amount {
            VestingStatus::FullyClaimed
        } else {
            s.status
        },
        ..s
    }
}

/// The schedule record after revocation at `now`: the total is capped to
/// everything that had vested (never below what was already claimed), the
/// settle owed to the beneficiary is accounted as claimed, and the schedule
/// freezes as revoked.
pub open spec fn spec_after_revoke(s: VestingSchedule, now: u64) -> VestingSchedule {
    let vested = s.spec_vested(now as int);
    let settled = if vested > s.claimed_amount {
        vested
    } else {
        s.claimed_amount as int
    };
    VestingSchedule {
        total_amount: settled as i128,
        claimed_amount: settled as i128,
        status: VestingStatus::Revoked,
        ..s
    }
}

/// The schedule record created from the given parameters.
pub open spec fn spec_new_schedule(
    id: u32,
    grantor: u64,
    beneficiary: u64,
    token: u64,
    total_amount: i128,
    start_time: u64,
    cliff_duration: u64,
    cliff_amount: i128,
    total_duration: u64,
    label: u64,
    revocable: bool,
) -> VestingSchedule {
    VestingSchedule {
        id,
        grantor,
        beneficiary,
        token,
        total_amount,
        claimed_amount: 0,
        start_time,
        cliff_duration,
        cliff_amount,
        total_duration,
        label,
        status: VestingStatus::Active,
        revocable,
    }
}

/// Vesting contract state: the admin account, if initialized, the schedules
/// in creation order, and each schedule's append-only claim history.
pub struct VestingContract {
    pub admin: Option<u64>,
    pub schedules: Vec<VestingSchedule>,
    pub histories: Vec<Vec<ClaimRecord>>,
}

impl VestingContract {
    /// Well-formedness of the whole contract state: every schedule is
    /// well-formed, sits at the position its id names, and has a claim
    /// history.
    pub open spec fn wf(self) -> bool {
        &&& self.schedules@.len() <= u32::MAX
        &&& self.histories@.len() == self.schedules@.len()
        &&& forall|i: int|
            0 <= i < self.schedules@.len() ==> (#[trigger] self.schedules@[i]).wf()
                && self.schedules@[i].id == i
        &&& forall|i: int|
            0 <= i < self.schedules@.len() && self.schedules@[i].status
                != VestingStatus::Revoked ==> #[trigger] spec_history_total(self.histories@[i]@)
                == self.schedules@[i].claimed_amount
    }

    /// Which error, if any, a schedule creation is rejected with.
    pub open spec fn spec_create_err(
        self,
        total_amount: i128,
        cliff_duration: u64,
        cliff_amount: i128,
        total_duration: u64,
    ) -> Option<VestingError> {
        if self.admin is None {
            Some(VestingError::NotInitialized)
        } else if total_amount <= 0 {
            Some(VestingError::InvalidAmount)
        } else if total_duration == 0 {
            Some(VestingError::InvalidSchedule)
        } else if cliff_duration >= total_duration {
            Some(VestingError::InvalidCliffDuration)
        } else if cliff_amount < 0 || cliff_amount > total_amount {
            Some(VestingError::InvalidAmount)
        } else {
            None
        }
    }

    /// Which error, if any, a claim is rejected with.
    pub open spec fn spec_claim_err(self, beneficiary: u64, schedule_id: u32, now: u64) -> Option<
        VestingError,
    > {
        if self.admin is None {
            Some(VestingError::NotInitialized)
        } else if schedule_id >= self.schedules@.len() {
            Some(VestingError::ScheduleNotFound)
        } else {
            let s = self.schedules@[schedule_id as int];
            if s.beneficiary != beneficiary {
                Some(VestingError::Unauthorized)
            } else if s.status == VestingStatus::Revoked {
                Some(VestingError::ScheduleRevoked)
            } else if s.status == VestingStatus::FullyClaimed {
                Some(VestingError::AlreadyFullyClaimed)
            } else if s.spec_vested(now as int) - s.claimed_amount <= 0 {
                Some(VestingError::NothingToClaim)
            } else {
                None
            }
        }
    }

    /// Which error, if any, a revocation is rejected with.
    pub open spec fn spec_revoke_err(self, grantor: u64, schedule_id: u32) -> Option<
        VestingError,
    > {
        if self.admin is None {
            Some(VestingError::NotInitialized)
        } else if schedule_id >= self.schedules@.len() {
            Some(VestingError::ScheduleNotFound)
        } else {
            let s = self.schedules@[schedule_id as int];
            if s.grantor != grantor {
                Some(VestingError::Unauthorized)
            } else if s.status == VestingStatus::Revoked {
                Some(VestingError::ScheduleRevoked)
            } else if s.status == VestingStatus::FullyClaimed {
                Some(VestingError::AlreadyFullyClaimed)
            } else if !s.revocable {
                Some(VestingError::Unauthorized)
            } else {
                None
            }
        }
    }

    /// Fresh, uninitialized contract state.
    pub fn new() -> (r: Self)
        ensures
            r.wf(),
            r.admin is None,
            r.schedules@.len() == 0,
    {
        VestingContract { admin: None, schedules: Vec::new(), histories: Vec::new() }
    }

    /// Record the admin; rejected if one is already set.
    pub fn initialize(&mut self, admin: u64) -> (r: Result<(), VestingError>)
        requires
            old(self).wf(),
        ensures
            final(self).wf(),
            match r {
                Ok(()) => old(self).admin is None && final(self).admin == Some(admin)
                    && final(self).schedules == old(self).schedules && final(self).histories
                    == old(self).histories,
                Err(e) => *final(self) == *old(self) && e == VestingError::AlreadyInitialized
                    && old(self).admin is Some,
            },
    {
        if self.admin.is_some() {
            return Err(VestingError::AlreadyInitialized);
        }
        self.admin = Some(admin);
        Ok(())
    }

    /// Create a vesting schedule for `beneficiary`, funded by the
    /// authenticated `grantor`: nothing before the cliff, `cliff_amount` at
    /// the cliff instant, the rest linearly until `total_duration` elapses.
    /// Returns the new schedule's id; on any validation failure the state is
    /// unchanged.
    pub fn create_schedule(
        &mut self,
        grantor: u64,
        beneficiary: u64,
        token: u64,
        total_amount: i128,
        start_time: u64,
        cliff_duration: u64,
        cliff_amount: i128,
        total_duration: u64,
        label: u64,
        revocable: bool,
    ) -> (r: Result<u32, VestingError>)
        requires
            old(self).wf(),
            old(self).schedules@.len() < u32::MAX,
            0 <= cliff_amount <= total_amount && cliff_duration < total_duration ==> (total_amount
                - cliff_amount) * ((total_duration - cliff_duration) as int) <= i128::MAX,
        ensures
            final(self).wf(),
            final(self).admin == old(self).admin,
            match r {
                Ok(id) => {
                    &&& old(self).spec_create_err(
                        total_amount,
                        cliff_duration,
                        cliff_amount,
                        total_duration,
                    ) is None
                    &&& id == old(self).schedules@.len()
                    &&& final(self).schedules@ == old(self).schedules@.push(
                        spec_new_schedule(
                            id,
                            grantor,
                            beneficiary,
                            token,
                            total_amount,
                            start_time,
                            cliff_duration,
                            cliff_amount,
                            total_duration,
                            label,
                            revocable,
                        ),
                    )
                    &&& final(self).histories@.len() == old(self).histories@.len() + 1
                    &&& final(self).histories@[id as int]@ == Seq::<ClaimRecord>::empty()
                    &&& forall|j: int|
                        0 <= j < old(self).histories@.len() ==> final(self).histories@[j]
                            == old(self).histories@[j]
                },
                Err(e) => *final(self) == *old(self) && Some(e) == old(self).spec_create_err(
                    total_amount,
                    cliff_duration,
                    cliff_amount,
                    total_duration,
                ),
            },
    {
        if self.admin.is_none() {
            return Err(VestingError::NotInitialized);
        }
        if total_amount <= 0 {
            return Err(VestingError::InvalidAmount);
        }
        if total_duration == 0 {
            return Err(VestingError::InvalidSchedule);
        }
        if cliff_duration >= total_duration {
            return Err(VestingError::InvalidCliffDuration);
        }
        if cliff_amount < 0 || cliff_amount > total_amount {
            return Err(VestingError::InvalidAmount);
        }

        let schedule_id: u32 = self.schedules.len() as u32;
        let schedule = VestingSchedule {
            id: schedule_id,
            grantor,
            beneficiary,
            token,
            total_amount,
            claimed_amount: 0,
            start_time,
            cliff_duration,
            cliff_amount,
            total_duration,
            label,
            status: VestingStatus::Active,
            revocable,
        };
        self.schedules.push(schedule);
        self.histories.push(Vec::new());
        Ok(schedule_id)
    }

    /// Claim every vested, unclaimed token of a schedule for its beneficiary.
    /// Returns the claimed amount, which the host transfers out of escrow,
    /// and appends it to the schedule's claim history; on any error the state
    /// is unchanged.
    pub fn claim(&mut self, beneficiary: u64, schedule_id: u32, now: u64) -> (r: Result<
        i128,
        VestingError,
    >)
        requires
            old(self).wf(),
        ensures
            final(self).wf(),
            final(self).admin == old(self).admin,
            match r {
                Ok(amt) => {
                    &&& old(self).spec_claim_err(beneficiary, schedule_id, now) is None
                    &&& schedule_id < old(self).schedules@.len()
                    &&& ({
                        let s = old(self).schedules@[schedule_id as int];
                        &&& amt == s.spec_vested(now as int) - s.claimed_amount
                        &&& amt > 0
                        &&& final(self).schedules@ == old(self).schedules@.update(
                            schedule_id as int,
                            spec_after_vesting_claim(s, now),
                        )
                        &&& final(self).histories@.len() == old(self).histories@.len()
                        &&& final(self).histories@[schedule_id as int]@ == old(self).histories@[schedule_id as int]@.push(
                            (ClaimRecord { amount: amt, timestamp: now }),
                        )
                        &&& forall|j: int|
                            0 <= j < old(self).histories@.len() && j != schedule_id
                                ==> #[trigger] final(self).histories@[j] == old(self).histories@[j]
                    })
                },
                Err(e) => *final(self) == *old(self) && Some(e) == old(self).spec_claim_err(
                    beneficiary,
                    schedule_id,
                    now,
                ),
            },
    {
        if self.admin.is_none() {
            return Err(VestingError::NotInitialized);
        }
        if schedule_id as usize >= self.schedules.len() {
            return Err(VestingError::ScheduleNotFound);
        }
        let idx = schedule_id as usize;
        let s = self.schedules[idx];
        if s.beneficiary != beneficiary {
            return Err(VestingError::Unauthorized);
        }
        if s.status == VestingStatus::Revoked {
            return Err(VestingError::ScheduleRevoked);
        }
        if s.status == VestingStatus::FullyClaimed {
            return Err(VestingError::AlreadyFullyClaimed);
        }

        let vested = calculate_vested(&s, now);
        let claimable = vested - s.claimed_amount;
        if claimable <= 0 {
            return Err(VestingError::NothingToClaim);
        }

        let mut updated = s;
        updated.claimed_amount = s.claimed_amount + claimable;
        if updated.claimed_amount >= updated.total_amount {
            updated.status = VestingStatus::FullyClaimed;
        }
        self.schedules[idx] = updated;
        let history = &mut self.histories[idx];
        history.push(ClaimRecord { amount: claimable, timestamp: now });
        proof {
            lemma_history_total_push(
                old(self).histories@[idx as int]@,
                ClaimRecord { amount: claimable, timestamp: now },
            );
        }
        Ok(claimable)
    }

    /// Revoke a revocable schedule on behalf of its authenticated grantor.
    /// The vested, unclaimed balance (the settle amount) is owed to the
    /// beneficiary; the returned unvested remainder goes back to the grantor;
    /// the schedule's total is capped to everything that vested, so no
    /// claimable remainder survives. Prior claims, settle and refund add up
    /// to the original total exactly.
    pub fn revoke(&mut self, grantor: u64, schedule_id: u32, now: u64) -> (r: Result<
        i128,
        VestingError,
    >)
        requires
            old(self).wf(),
        ensures
            final(self).wf(),
            final(self).admin == old(self).admin,
            match r {
                Ok(unvested) => {
                    &&& old(self).spec_revoke_err(grantor, schedule_id) is None
                    &&& schedule_id < old(self).schedules@.len()
                    &&& ({
                        let s = old(self).schedules@[schedule_id as int];
                        let vested = s.spec_vested(now as int);
                        let settle = if vested > s.claimed_amount {
                            vested - s.claimed_amount
                        } else {
                            0
                        };
                        &&& unvested == s.total_amount - s.claimed_amount - settle
                        &&& s.claimed_amount + settle + unvested == s.total_amount
                        &&& settle >= 0
                        &&& unvested >= 0
                        &&& final(self).schedules@ == old(self).schedules@.update(
                            schedule_id as int,
                            spec_after_revoke(s, now),
                        )
                        &&& final(self).schedules@[schedule_id as int].total_amount
                            == final(self).schedules@[schedule_id as int].claimed_amount
                    })
                    &&& final(self).histories == old(self).histories
                },
                Err(e) => *final(self) == *old(self) && Some(e) == old(self).spec_revoke_err(
                    grantor,
                    schedule_id,
                ),
            },
    {
        if self.admin.is_none() {
            return Err(VestingError::NotInitialized);
        }
        if schedule_id as usize >= self.schedules.len() {
            return Err(VestingError::ScheduleNotFound);
        }
        let idx = schedule_id as usize;
        let s = self.schedules[idx];
        if s.grantor != grantor {
            return Err(VestingError::Unauthorized);
        }
        if s.status == VestingStatus::Revoked {
            return Err(VestingError::ScheduleRevoked);
        }
        if s.status == VestingStatus::FullyClaimed {
            return Err(VestingError::AlreadyFullyClaimed);
        }
        if !s.revocable {
            return Err(VestingError::Unauthorized);
        }

        let vested = calculate_vested(&s, now);
        // Defensive floor: the capped total never drops below what was
        // already claimed, so the books stay balanced even if the clock ran
        // backwards between operations.
        let settled = if vested > s.claimed_amount {
            vested
        } else {
            s.claimed_amount
        };
        let settle = settled - s.claimed_amount;
        let unvested = s.total_amount - s.claimed_amount - settle;

        let mut updated = s;
        updated.total_amount = settled;
        updated.claimed_amount = settled;
        updated.status = VestingStatus::Revoked;
        self.schedules[idx] = updated;
        Ok(unvested)
    }

    /// Look a schedule up by id.
    pub fn get_schedule(&self, schedule_id: u32) -> (r: Result<VestingSchedule, VestingError>)
        requires
            self.wf(),
        ensures
            match r {
                Ok(s) => schedule_id < self.schedules@.len() && s == self.schedules@[
                    schedule_id as int
                ],
                Err(e) => schedule_id >= self.schedules@.len() && e
                    == VestingError::ScheduleNotFound,
            },
    {
        if schedule_id as usize >= self.schedules.len() {
            return Err(VestingError::ScheduleNotFound);
        }
        Ok(self.schedules[schedule_id as usize])
    }

    /// The progress snapshot of a schedule as of `now`: a pure projection of
    /// the stored record and the query time, with no side effect, so repeated
    /// queries in an unchanged state return identical snapshots.
    pub fn get_progress(&self, schedule_id: u32, now: u64) -> (r: Result<
        VestingProgress,
        VestingError,
    >)
        requires
            self.wf(),
        ensures
            match r {
                Ok(p) => schedule_id < self.schedules@.len() && p == spec_progress(
                    self.schedules@[schedule_id as int],
                    now as int,
                ),
                Err(e) => schedule_id >= self.schedules@.len() && e
                    == VestingError::ScheduleNotFound,
            },
    {
        if schedule_id as usize >= self.schedules.len() {
            return Err(VestingError::ScheduleNotFound);
        }
        let s = self.schedules[schedule_id as usize];
        let vested = if s.status == VestingStatus::Revoked {
            s.total_amount
        } else {
            calculate_vested(&s, now)
        };
        let claimable = vested - s.claimed_amount;
        Ok(
            VestingProgress {
                total_amount: s.total_amount,
                vested_amount: vested,
                claimed_amount: s.claimed_amount,
                claimable_amount: if claimable > 0 {
                    claimable
                } else {
                    0
                },
                status: s.status,
            },
        )
    }

    /// The claim history of a schedule, oldest first; empty for an unknown id.
    pub fn get_claim_history(&self, schedule_id: u32) -> (r: Vec<ClaimRecord>)
        requires
            self.wf(),
        ensures
            r@ == if schedule_id < self.histories@.len() {
                self.histories@[schedule_id as int]@
            } else {
                Seq::<ClaimRecord>::empty()
            },
    {
        let mut records: Vec<ClaimRecord> = Vec::new();
        if schedule_id as usize >= self.histories.len() {
            return records;
        }
        let history = &self.histories[schedule_id as usize];
        let n = history.len();
        for i in 0..n
            invariant
                n == history@.len(),
                records@ == history@.take(i as int),
        {
            records.push(history[i]);
            proof {
                assert(history@.take(i + 1) =~= history@.take(i as int).push(history@[i as int]));
            }
        }
        proof {
            assert(history@.take(n as int) =~= history@);
        }
        records
    }

    /// Ids of the schedules created by the given grantor, in creation order.
    pub fn get_schedules_by_grantor(&self, grantor: u64) -> (r: Vec<u32>)
        requires
            self.wf(),
        ensures
            r@ == spec_ids_by_grantor(self.schedules@, grantor),
    {
        let mut ids: Vec<u32> = Vec::new();
        let n = self.schedules.len();
        for i in 0..n
            invariant
                n == self.schedules@.len(),
                ids@ == spec_ids_by_grantor(self.schedules@.take(i as int), grantor),
        {
            proof {
                assert(self.schedules@.take(i + 1).drop_last() =~= self.schedules@.take(i as int));
                assert(self.schedules@.take(i + 1).last() == self.schedules@[i as int]);
            }
            if self.schedules[i].grantor == grantor {
                ids.push(self.schedules[i].id);
            }
        }
        proof {
            assert(self.schedules@.take(n as int) =~= self.schedules@);
        }
        ids
    }

    /// Ids of the schedules benefiting the given account, in creation order.
    pub fn get_schedules_by_beneficiary(&self, beneficiary: u64) -> (r: Vec<u32>)
        requires
            self.wf(),
        ensures
            r@ == spec_ids_by_beneficiary(self.schedules@, beneficiary),
    {
        let mut ids: Vec<u32> = Vec::new();
        let n = self.schedules.len();
        for i in 0..n
            invariant
                n == self.schedules@.len(),
                ids@ == spec_ids_by_beneficiary(self.schedules@.take(i as int), beneficiary),
        {
            proof {
                assert(self.schedules@.take(i + 1).drop_last() =~= self.schedules@.take(i as int));
                assert(self.schedules@.take(i + 1).last() == self.schedules@[i as int]);
            }
            if self.schedules[i].beneficiary == beneficiary {
                ids.push(self.schedules[i].id);
            }
        }
        proof {
            assert(self.schedules@.take(n as int) =~= self.schedules@);
        }
        ids
    }

    /// How many schedules have been created.
    pub fn get_schedule_count(&self) -> (r: u32)
        requires
            self.wf(),
        ensures
            r == self.schedules@.len(),
    {
        self.schedules.len() as u32
    }

    /// The admin account, once initialized.
    pub fn get_admin(&self) -> (r: Result<u64, VestingError>)
        ensures
            match r {
                Ok(a) => self.admin == Some(a),
                Err(e) => self.admin is None && e == VestingError::NotInitialized,
            },
    {
        match self.admin {
            Some(a) => Ok(a),
            None => Err(VestingError::NotInitialized),
        }
    }
}

/// Ids of the schedules created by `grantor`, in creation order.
pub open spec fn spec_ids_by_grantor(schedules: Seq<VestingSchedule>, grantor: u64) -> Seq<u32>
    decreases schedules.len(),
{
    if schedules.len() == 0 {
        Seq::empty()
    } else if schedules.last().grantor == grantor {
        spec_ids_by_grantor(schedules.drop_last(), grantor).push(schedules.last().id)
    } else {
        spec_ids_by_grantor(schedules.drop_last(), grantor)
    }
}

/// Ids of the schedules benefiting `beneficiary`, in creation order.
pub open spec fn spec_ids_by_beneficiary(
    schedules: Seq<VestingSchedule>,
    beneficiary: u64,
) -> Seq<u32>
    decreases schedules.len(),
{
    if schedules.len() == 0 {
        Seq::empty()
    } else if schedules.last().beneficiary == beneficiary {
        spec_ids_by_beneficiary(schedules.drop_last(), beneficiary).push(schedules.last().id)
    } else {
        spec_ids_by_beneficiary(schedules.drop_last(), beneficiary)
    }
}

/// Executable vested amount of one live schedule as of `now`; matches
/// `VestingSchedule::spec_vested` exactly and stays within the total.
pub fn calculate_vested(schedule: &VestingSchedule, now: u64) -> (r: i128)
    requires
        schedule.wf(),
        schedule.status != VestingStatus::Revoked,
    ensures
        r == schedule.spec_vested(now as int),
        0 <= r <= schedule.total_amount,
{
    vesting_accrued_at(
        schedule.total_amount,
        schedule.cliff_amount,
        schedule.start_time,
        schedule.cliff_duration,
        schedule.total_duration,
        now,
    )
}

/// No double payment: after a claim settles at `now`, the vested balance at
/// the same instant is fully claimed, so an immediate second claim finds
/// nothing to pay out.
pub proof fn lemma_vesting_no_double_payment(s: VestingSchedule, now: u64)
    requires
        s.wf(),
        s.status != VestingStatus::Revoked,
        s.spec_vested(now as int) - s.claimed_amount > 0,
    ensures
        spec_after_vesting_claim(s, now).wf(),
        ({
            let after = spec_after_vesting_claim(s, now);
            after.spec_vested(now as int) - after.claimed_amount == 0
        }),
{
    lemma_vesting_accrued_bounds(
        s.total_amount as int,
        s.cliff_amount as int,
        s.start_time as int,
        s.cliff_duration as int,
        s.total_duration as int,
        now as int,
    );
}

/// Conservation at revocation: prior claims, the settle owed to the
/// beneficiary, and the unvested refund owed back to the grantor partition
/// the original total exactly, and the revoked record's total equals
/// everything that was ever paid toward the beneficiary.
pub proof fn lemma_vesting_revoke_conservation(s: VestingSchedule, now: u64)
    requires
        s.wf(),
        s.status != VestingStatus::Revoked,
    ensures
        ({
            let vested = s.spec_vested(now as int);
            let settle = if vested > s.claimed_amount {
                vested - s.claimed_amount
            } else {
                0
            };
            let refund = s.total_amount - s.claimed_amount - settle;
            &&& s.claimed_amount + settle + refund == s.total_amount
            &&& 0 <= settle
            &&& 0 <= refund
            &&& s.claimed_amount + refund <= s.total_amount
            &&& spec_after_revoke(s, now).wf()
            &&& spec_after_revoke(s, now).total_amount == s.claimed_amount + settle
        }),
{
    lemma_vesting_accrued_bounds(
        s.total_amount as int,
        s.cliff_amount as int,
        s.start_time as int,
        s.cliff_duration as int,
        s.total_duration as int,
        now as int,
    );
}

/// Claims never outrun accrual: the claimed amount after a claim equals the
/// vested amount at that instant, which monotonicity keeps below every later
/// vested amount and the total.
pub proof fn lemma_vesting_claims_bounded(s: VestingSchedule, now: u64, later: u64)
    requires
        s.wf(),
        s.status != VestingStatus::Revoked,
        s.spec_vested(now as int) - s.claimed_amount > 0,
        now <= later,
    ensures
        spec_after_vesting_claim(s, now).claimed_amount == s.spec_vested(now as int),
        spec_after_vesting_claim(s, now).claimed_amount <= s.spec_vested(later as int),
        spec_after_vesting_claim(s, now).claimed_amount <= s.total_amount,
{
    lemma_vesting_accrued_bounds(
        s.total_amount as int,
        s.cliff_amount as int,
        s.start_time as int,
        s.cliff_duration as int,
        s.total_duration as int,
        now as int,
    );
    lemma_vesting_accrued_monotonic(
        s.total_amount as int,
        s.cliff_amount as int,
        s.start_time as int,
        s.cliff_duration as int,
        s.total_duration as int,
        now as int,
        later as int,
    );
}

/// Progress queries are idempotent: the snapshot is a pure function of the
/// stored record and the query time, so any two results computed from the
/// same unchanged state are identical.
pub proof fn lemma_progress_idempotent(
    s: VestingSchedule,
    now: u64,
    p1: VestingProgress,
    p2: VestingProgress,
)
    requires
        p1 == spec_progress(s, now as int),
        p2 == spec_progress(s, now as int),
    ensures
        p1 == p2,
{
}

} // verus!
