//! Payroll streams: linear release of an escrowed amount from `start_time` to
//! `end_time`, claimable by the recipient as it accrues, cancellable by the
//! sender with an exact settle/refund split.
//!
//! `PayrollStreamContract` models the contract's persisted state as a value:
//! the organization admin and the streams in creation order (a stream's id is
//! its position). Callers authenticate the acting account and pass the current
//! ledger timestamp; results carry the transfer amounts the host must move.

use crate::accrual::{
    lemma_stream_accrued_bounds, lemma_stream_accrued_monotonic, stream_accrued,
    stream_accrued_at,
};
use crate::history::{lemma_history_total_push, spec_history_total, ClaimRecord};
use vstd::prelude::*;

verus! {

/// Status of a payment stream.
#[derive(Clone, Copy, Debug, PartialEq, Eq, Structural)]
pub enum StreamStatus {
    /// The stream is actively releasing tokens.
    Active,
    /// The stream was paused by the organization admin.
    Paused,
    /// The stream was cancelled; the unaccrued remainder went back to the sender.
    Cancelled,
    /// Every token of the stream has been claimed.
    Completed,
}

/// Failures of the stream operations.
#[derive(Clone, Copy, Debug, PartialEq, Eq, Structural)]
pub enum StreamError {
    AlreadyInitialized,
    NotInitialized,
    Unauthorized,
    InvalidRecipient,
    InvalidAmount,
    InvalidDuration,
    InvalidStartTime,
    StreamNotFound,
    StreamAlreadyCancelled,
    StreamCompleted,
    NothingToClaim,
}

/// A payment stream: `total_amount` releases linearly from `start_time` to
/// `end_time`.
#[derive(Clone, Copy, Debug, PartialEq, Eq, Structural)]
pub struct PayrollStream {
    /// Unique stream identifier; equals the stream's position in creation order.
    pub id: u32,
    /// Account that funded the stream.
    pub sender: u64,
    /// Account entitled to claim the streamed tokens.
    pub recipient: u64,
    /// The token being streamed.
    pub token: u64,
    /// Total amount the stream releases over its whole duration.
    pub total_amount: i128,
    /// Amount already claimed by the recipient; never exceeds `total_amount`.
    pub claimed_amount: i128,
    /// Timestamp at which release begins.
    pub start_time: u64,
    /// Timestamp at which the full amount has been released.
    pub end_time: u64,
    /// Timestamp of the most recent claim.
    pub last_claim_time: u64,
    /// Current lifecycle status.
    pub status: StreamStatus,
    /// Tokens per time unit, `total_amount / duration`; informational only,
    /// accrual is always recomputed from the total and the full duration.
    pub rate_per_second: i128,
}

/// Parameters of one stream inside a batch creation.
#[derive(Clone, Copy, Debug, PartialEq, Eq, Structural)]
pub struct CreateStreamParams {
    pub recipient: u64,
    pub token: u64,
    pub total_amount: i128,
    pub start_time: u64,
    pub end_time: u64,
}

impl PayrollStream {
    /// Well-formedness: positive total over a non-empty interval, claims
    /// within the total, a completed stream fully claimed, and the accrual
    /// product small enough for 128-bit arithmetic.
    pub open spec fn wf(self) -> bool {
        &&& self.total_amount > 0
        &&& self.start_time < self.end_time
        &&& 0 <= self.claimed_amount <= self.total_amount
        &&& self.total_amount * ((self.end_time - self.start_time) as int) <= i128::MAX
        &&& (self.status == StreamStatus::Completed ==> self.claimed_amount == self.total_amount)
    }

    /// Released amount of this stream as of `now`.
    pub open spec fn spec_accrued(self, now: int) -> int {
        stream_accrued(self.total_amount as int, self.start_time as int, self.end_time as int, now)
    }

    /// Claimable amount as of `now`: released minus already claimed, clamped
    /// to zero if the record would otherwise report a negative balance.
    pub open spec fn spec_claimable(self, now: int) -> int {
        let acc = self.spec_accrued(now);
        if acc < self.claimed_amount {
            0
        } else {
            acc - self.claimed_amount
        }
    }
}

/// The stream record after a successful claim at `now`: the whole claimable
/// amount moves into `claimed_amount`, the claim time is recorded, and the
/// stream completes when everything has been claimed.
pub open spec fn spec_after_claim(s: PayrollStream, now: u64) -> PayrollStream {
    let claimed = s.claimed_amount + s.spec_claimable(now as int);
    PayrollStream {
        claimed_amount: claimed as i128,
        last_claim_time: now,
        status: if claimed >= s.total_amount {
            StreamStatus::Completed
        } else {
            s.status
        },
        ..s
    }
}

/// The stream record after being created from the given parameters.
pub open spec fn spec_new_stream(
    id: u32,
    sender: u64,
    recipient: u64,
    token: u64,
    total_amount: i128,
    start_time: u64,
    end_time: u64,
) -> PayrollStream {
    PayrollStream {
        id,
        sender,
        recipient,
        token,
        total_amount,
        claimed_amount: 0,
        start_time,
        end_time,
        last_claim_time: start_time,
        status: StreamStatus::Active,
        rate_per_second: (total_amount as int / (end_time - start_time) as int) as i128,
    }
}

/// Payroll streaming contract state: the admin account, if initialized, and
/// every stream ever created, in creation order.
pub struct PayrollStreamContract {
    pub admin: Option<u64>,
    pub streams: Vec<PayrollStream>,
    pub histories: Vec<Vec<ClaimRecord>>,
}

impl PayrollStreamContract {
    /// Well-formedness of the whole contract state: every stream is
    /// well-formed, sits at the position its id names, and has a claim
    /// history.
    pub open spec fn wf(self) -> bool {
        &&& self.streams@.len() <= u32::MAX
        &&& self.histories@.len() == self.streams@.len()
        &&& forall|i: int|
            0 <= i < self.streams@.len() ==> (#[trigger] self.streams@[i]).wf()
                && self.streams@[i].id == i
        &&& forall|i: int|
            0 <= i < self.streams@.len() ==> #[trigger] spec_history_total(self.histories@[i]@)
                == self.streams@[i].claimed_amount
    }

    /// Which error, if any, a single stream creation is rejected with.
    pub open spec fn spec_create_err(
        self,
        sender: u64,
        recipient: u64,
        total_amount: i128,
        start_time: u64,
        end_time: u64,
        now: u64,
    ) -> Option<StreamError> {
        if self.admin is None {
            Some(StreamError::NotInitialized)
        } else if sender == recipient {
            Some(StreamError::InvalidRecipient)
        } else if total_amount <= 0 {
            Some(StreamError::InvalidAmount)
        } else if end_time <= start_time {
            Some(StreamError::InvalidDuration)
        } else if start_time < now {
            Some(StreamError::InvalidStartTime)
        } else {
            None
        }
    }

    /// Which error, if any, a claim is rejected with.
    pub open spec fn spec_claim_err(self, recipient: u64, stream_id: u32, now: u64) -> Option<
        StreamError,
    > {
        if self.admin is None {
            Some(StreamError::NotInitialized)
        } else if stream_id >= self.streams@.len() {
            Some(StreamError::StreamNotFound)
        } else {
            let s = self.streams@[stream_id as int];
            if s.recipient != recipient {
                Some(StreamError::Unauthorized)
            } else if s.status == StreamStatus::Cancelled {
                Some(StreamError::StreamAlreadyCancelled)
            } else if s.status == StreamStatus::Completed {
                Some(StreamError::StreamCompleted)
            } else if s.spec_claimable(now as int) <= 0 {
                Some(StreamError::NothingToClaim)
            } else {
                None
            }
        }
    }

    /// Which error, if any, a cancellation is rejected with.
    pub open spec fn spec_cancel_err(self, sender: u64, stream_id: u32) -> Option<StreamError> {
        if self.admin is None {
            Some(StreamError::NotInitialized)
        } else if stream_id >= self.streams@.len() {
            Some(StreamError::StreamNotFound)
        } else {
            let s = self.streams@[stream_id as int];
            if s.sender != sender {
                Some(StreamError::Unauthorized)
            } else if s.status == StreamStatus::Cancelled {
                Some(StreamError::StreamAlreadyCancelled)
            } else if s.status == StreamStatus::Completed {
                Some(StreamError::StreamCompleted)
            } else {
                None
            }
        }
    }

    /// Fresh, uninitialized contract state.
    pub fn new() -> (r: Self)
        ensures
            r.wf(),
            r.admin is None,
            r.streams@.len() == 0,
    {
        PayrollStreamContract { admin: None, streams: Vec::new(), histories: Vec::new() }
    }

    /// Record the organization admin; rejected if one is already set.
    pub fn initialize(&mut self, admin: u64) -> (r: Result<(), StreamError>)
        requires
            old(self).wf(),
        ensures
            final(self).wf(),
            match r {
                Ok(()) => old(self).admin is None && final(self).admin == Some(admin)
                    && final(self).streams == old(self).streams && final(self).histories
                    == old(self).histories,
                Err(e) => *final(self) == *old(self) && e == StreamError::AlreadyInitialized
                    && old(self).admin is Some,
            },
    {
        if self.admin.is_some() {
            return Err(StreamError::AlreadyInitialized);
        }
        self.admin = Some(admin);
        Ok(())
    }

    /// Create a stream from an authenticated `sender` to `recipient`,
    /// escrowing `total_amount` for linear release over
    /// `[start_time, end_time)`. Returns the new stream's id; on any
    /// validation failure the state is unchanged and nothing is escrowed.
    pub fn create_stream(
        &mut self,
        sender: u64,
        recipient: u64,
        token: u64,
        total_amount: i128,
        start_time: u64,
        end_time: u64,
        now: u64,
    ) -> (r: Result<u32, StreamError>)
        requires
            old(self).wf(),
            old(self).streams@.len() < u32::MAX,
            start_time < end_time ==> total_amount * ((end_time - start_time) as int)
                <= i128::MAX,
        ensures
            final(self).wf(),
            match r {
                Ok(id) => {
                    &&& old(self).spec_create_err(
                        sender,
                        recipient,
                        total_amount,
                        start_time,
                        end_time,
                        now,
                    ) is None
                    &&& id == old(self).streams@.len()
                    &&& final(self).admin == old(self).admin
                    &&& final(self).streams@ == old(self).streams@.push(
                        spec_new_stream(
                            id,
                            sender,
                            recipient,
                            token,
                            total_amount,
                            start_time,
                            end_time,
                        ),
                    )
                    &&& final(self).histories@.len() == old(self).histories@.len() + 1
                    &&& final(self).histories@[id as int]@ == Seq::<ClaimRecord>::empty()
                    &&& forall|j: int|
                        0 <= j < old(self).histories@.len() ==> final(self).histories@[j]
                            == old(self).histories@[j]
                },
                Err(e) => *final(self) == *old(self) && Some(e) == old(self).spec_create_err(
                    sender,
                    recipient,
                    total_amount,
                    start_time,
                    end_time,
                    now,
                ),
            },
    {
        if self.admin.is_none() {
            return Err(StreamError::NotInitialized);
        }
        if sender == recipient {
            return Err(StreamError::InvalidRecipient);
        }
        if total_amount <= 0 {
            return Err(StreamError::InvalidAmount);
        }
        if end_time <= start_time {
            return Err(StreamError::InvalidDuration);
        }
        if start_time < now {
            return Err(StreamError::InvalidStartTime);
        }

        let duration: u64 = end_time - start_time;
        let rate_per_second: i128 = total_amount / (duration as i128);

        let stream_id: u32 = self.streams.len() as u32;
        let stream = PayrollStream {
            id: stream_id,
            sender,
            recipient,
            token,
            total_amount,
            claimed_amount: 0,
            start_time,
            end_time,
            last_claim_time: start_time,
            status: StreamStatus::Active,
            rate_per_second,
        };
        self.streams.push(stream);
        self.histories.push(Vec::new());
        Ok(stream_id)
    }

    /// Create several streams from one authenticated sender, all or nothing:
    /// if any entry is invalid, the whole batch is rejected with the first
    /// entry's error and the state is unchanged. Returns the assigned ids in
    /// entry order.
    pub fn create_batch_streams(&mut self, sender: u64, params: &Vec<CreateStreamParams>, now: u64)
        -> (r: Result<Vec<u32>, StreamError>)
        requires
            old(self).wf(),
            old(self).streams@.len() + params@.len() <= u32::MAX,
            forall|i: int|
                0 <= i < params@.len() && (#[trigger] spec_params_err(sender, params@[i], now))
                    is None ==> params@[i].total_amount * ((params@[i].end_time
                    - params@[i].start_time) as int) <= i128::MAX,
        ensures
            final(self).wf(),
            final(self).admin == old(self).admin,
            match r {
                Ok(ids) => {
                    &&& old(self).admin is Some
                    &&& spec_batch_err(sender, params@, now) is None
                    &&& ids@ == Seq::new(
                        params@.len(),
                        |i: int| (old(self).streams@.len() + i) as u32,
                    )
                    &&& final(self).streams@ == old(self).streams@ + spec_batch_streams(
                        old(self).streams@.len() as int,
                        sender,
                        params@,
                    )
                    &&& final(self).histories@.len() == old(self).histories@.len()
                        + params@.len()
                    &&& forall|j: int|
                        0 <= j < old(self).histories@.len() ==> final(self).histories@[j]
                            == old(self).histories@[j]
                    &&& forall|j: int|
                        old(self).histories@.len() <= j < final(self).histories@.len()
                            ==> (#[trigger] final(self).histories@[j])@
                            == Seq::<ClaimRecord>::empty()
                },
                Err(e) => *final(self) == *old(self) && Some(e) == (if old(self).admin is None {
                    Some(StreamError::NotInitialized)
                } else {
                    spec_batch_err(sender, params@, now)
                }),
            },
    {
        if self.admin.is_none() {
            return Err(StreamError::NotInitialized);
        }

        // Validate every entry before touching any state: a batch is
        // all-or-nothing.
        let n = params.len();
        for i in 0..n
            invariant
                n == params@.len(),
                *self == *old(self),
                self.wf(),
                self.admin is Some,
                forall|j: int| 0 <= j < i ==> (#[trigger] spec_params_err(
                    sender,
                    params@[j],
                    now,
                )) is None,
        {
            let p = params[i];
            let err = if sender == p.recipient {
                Some(StreamError::InvalidRecipient)
            } else if p.total_amount <= 0 {
                Some(StreamError::InvalidAmount)
            } else if p.end_time <= p.start_time {
                Some(StreamError::InvalidDuration)
            } else if p.start_time < now {
                Some(StreamError::InvalidStartTime)
            } else {
                None
            };
            if let Some(e) = err {
                proof {
                    lemma_batch_err_prefix(sender, params@, now, i as int);
                    assert(params@.skip(i as int)[0] == params@[i as int]);
                }
                return Err(e);
            }
        }
        proof {
            lemma_batch_err_prefix(sender, params@, now, n as int);
        }

        let ghost old_streams = self.streams@;
        let base: u32 = self.streams.len() as u32;
        let mut stream_ids: Vec<u32> = Vec::new();
        for i in 0..n
            invariant
                n == params@.len(),
                base == old_streams.len(),
                old_streams.len() + n <= u32::MAX,
                self.admin == old(self).admin,
                self.admin is Some,
                forall|j: int| 0 <= j < n ==> (#[trigger] spec_params_err(
                    sender,
                    params@[j],
                    now,
                )) is None,
                forall|j: int|
                    0 <= j < n && (#[trigger] spec_params_err(sender, params@[j], now)) is None
                        ==> params@[j].total_amount * ((params@[j].end_time
                        - params@[j].start_time) as int) <= i128::MAX,
                stream_ids@ == Seq::new(i as nat, |k: int| (old_streams.len() + k) as u32),
                self.streams@ == old_streams + spec_batch_streams(
                    old_streams.len() as int,
                    sender,
                    params@,
                ).take(i as int),
                forall|j: int|
                    0 <= j < old_streams.len() ==> self.histories@[j] == old(self).histories@[j],
                forall|j: int|
                    old_streams.len() <= j < self.histories@.len() ==> (
                    #[trigger] self.histories@[j])@ == Seq::<ClaimRecord>::empty(),
                self.wf(),
        {
            let p = params[i];
            proof {
                assert(spec_params_err(sender, params@[i as int], now) is None);
            }
            let duration: u64 = p.end_time - p.start_time;
            let rate_per_second: i128 = p.total_amount / (duration as i128);
            let stream_id: u32 = self.streams.len() as u32;
            let stream = PayrollStream {
                id: stream_id,
                sender,
                recipient: p.recipient,
                token: p.token,
                total_amount: p.total_amount,
                claimed_amount: 0,
                start_time: p.start_time,
                end_time: p.end_time,
                last_claim_time: p.start_time,
                status: StreamStatus::Active,
                rate_per_second,
            };
            self.streams.push(stream);
            self.histories.push(Vec::new());
            stream_ids.push(stream_id);
            proof {
                assert(spec_batch_streams(old_streams.len() as int, sender, params@).take(
                    i + 1,
                ) =~= spec_batch_streams(old_streams.len() as int, sender, params@).take(i as int)
                    .push(stream));
                assert(self.streams@ =~= old_streams + spec_batch_streams(
                    old_streams.len() as int,
                    sender,
                    params@,
                ).take(i + 1));
                assert(stream_ids@ =~= Seq::new(
                    (i + 1) as nat,
                    |k: int| (old_streams.len() + k) as u32,
                ));
            }
        }
        proof {
            assert(spec_batch_streams(old_streams.len() as int, sender, params@).take(n as int)
                =~= spec_batch_streams(old_streams.len() as int, sender, params@));
        }
        Ok(stream_ids)
    }

    /// Claim the accrued, unclaimed balance of a stream for its recipient.
    /// Returns the claimed amount, which the host transfers out of escrow;
    /// claiming when nothing has accrued beyond prior claims is an error, and
    /// on any error the state is unchanged.
    pub fn claim(&mut self, recipient: u64, stream_id: u32, now: u64) -> (r: Result<
        i128,
        StreamError,
    >)
        requires
            old(self).wf(),
        ensures
            final(self).wf(),
            final(self).admin == old(self).admin,
            match r {
                Ok(amt) => {
                    &&& old(self).spec_claim_err(recipient, stream_id, now) is None
                    &&& stream_id < old(self).streams@.len()
                    &&& amt == old(self).streams@[stream_id as int].spec_claimable(now as int)
                    &&& amt > 0
                    &&& final(self).streams@ == old(self).streams@.update(
                        stream_id as int,
                        spec_after_claim(old(self).streams@[stream_id as int], now),
                    )
                    &&& final(self).histories@.len() == old(self).histories@.len()
                    &&& final(self).histories@[stream_id as int]@ == old(
                        self,
                    ).histories@[stream_id as int]@.push(
                        (ClaimRecord { amount: amt, timestamp: now }),
                    )
                    &&& forall|j: int|
                        0 <= j < old(self).histories@.len() && j != stream_id
                            ==> #[trigger] final(self).histories@[j] == old(self).histories@[j]
                },
                Err(e) => *final(self) == *old(self) && Some(e) == old(self).spec_claim_err(
                    recipient,
                    stream_id,
                    now,
                ),
            },
    {
        if self.admin.is_none() {
            return Err(StreamError::NotInitialized);
        }
        if stream_id as usize >= self.streams.len() {
            return Err(StreamError::StreamNotFound);
        }
        let idx = stream_id as usize;
        let s = self.streams[idx];
        if s.recipient != recipient {
            return Err(StreamError::Unauthorized);
        }
        if s.status == StreamStatus::Cancelled {
            return Err(StreamError::StreamAlreadyCancelled);
        }
        if s.status == StreamStatus::Completed {
            return Err(StreamError::StreamCompleted);
        }
        let claimable = calculate_claimable(&s, now);
        if claimable <= 0 {
            return Err(StreamError::NothingToClaim);
        }

        let mut updated = s;
        updated.claimed_amount = s.claimed_amount + claimable;
        updated.last_claim_time = now;
        if updated.claimed_amount >= updated.total_amount {
            updated.status = StreamStatus::Completed;
        }
        self.streams[idx] = updated;
        let history = &mut self.histories[idx];
        history.push(ClaimRecord { amount: claimable, timestamp: now });
        proof {
            lemma_history_total_push(
                old(self).histories@[idx as int]@,
                ClaimRecord { amount: claimable, timestamp: now },
            );
        }
        Ok(claimable)
    }

    /// Cancel a stream on behalf of its authenticated sender. The accrued,
    /// unclaimed balance (the settle amount, `spec_claimable` at `now`) is
    /// owed to the recipient; the returned refund goes back to the sender.
    /// Settle, refund and prior claims add up to the stream total exactly.
    pub fn cancel_stream(&mut self, sender: u64, stream_id: u32, now: u64) -> (r: Result<
        i128,
        StreamError,
    >)
        requires
            old(self).wf(),
        ensures
            final(self).wf(),
            final(self).admin == old(self).admin,
            match r {
                Ok(refund) => {
                    &&& old(self).spec_cancel_err(sender, stream_id) is None
                    &&& stream_id < old(self).streams@.len()
                    &&& ({
                        let s = old(self).streams@[stream_id as int];
                        let settle = s.spec_claimable(now as int);
                        &&& refund == s.total_amount - s.claimed_amount - settle
                        &&& s.claimed_amount + settle + refund == s.total_amount
                        &&& settle >= 0
                        &&& refund >= 0
                        &&& final(self).streams@ == old(self).streams@.update(
                            stream_id as int,
                            (PayrollStream { status: StreamStatus::Cancelled, ..s }),
                        )
                    })
                    &&& final(self).histories == old(self).histories
                },
                Err(e) => *final(self) == *old(self) && Some(e) == old(self).spec_cancel_err(
                    sender,
                    stream_id,
                ),
            },
    {
        if self.admin.is_none() {
            return Err(StreamError::NotInitialized);
        }
        if stream_id as usize >= self.streams.len() {
            return Err(StreamError::StreamNotFound);
        }
        let idx = stream_id as usize;
        let s = self.streams[idx];
        if s.sender != sender {
            return Err(StreamError::Unauthorized);
        }
        if s.status == StreamStatus::Cancelled {
            return Err(StreamError::StreamAlreadyCancelled);
        }
        if s.status == StreamStatus::Completed {
            return Err(StreamError::StreamCompleted);
        }

        let claimable = calculate_claimable(&s, now);
        let refund = s.total_amount - s.claimed_amount - claimable;

        let mut updated = s;
        updated.status = StreamStatus::Cancelled;
        self.streams[idx] = updated;
        Ok(refund)
    }

    /// Look a stream up by id.
    pub fn get_stream(&self, stream_id: u32) -> (r: Result<PayrollStream, StreamError>)
        requires
            self.wf(),
        ensures
            match r {
                Ok(s) => stream_id < self.streams@.len() && s == self.streams@[stream_id as int],
                Err(e) => stream_id >= self.streams@.len() && e == StreamError::StreamNotFound,
            },
    {
        if stream_id as usize >= self.streams.len() {
            return Err(StreamError::StreamNotFound);
        }
        Ok(self.streams[stream_id as usize])
    }

    /// The claimable balance of a stream as of `now`.
    pub fn get_claimable(&self, stream_id: u32, now: u64) -> (r: Result<i128, StreamError>)
        requires
            self.wf(),
        ensures
            match r {
                Ok(c) => stream_id < self.streams@.len() && c == self.streams@[
                    stream_id as int
                ].spec_claimable(now as int),
                Err(e) => stream_id >= self.streams@.len() && e == StreamError::StreamNotFound,
            },
    {
        if stream_id as usize >= self.streams.len() {
            return Err(StreamError::StreamNotFound);
        }
        let s = self.streams[stream_id as usize];
        Ok(calculate_claimable(&s, now))
    }

    /// How many streams have been created.
    pub fn get_stream_count(&self) -> (r: u32)
        requires
            self.wf(),
        ensures
            r == self.streams@.len(),
    {
        self.streams.len() as u32
    }

    /// The claim history of a stream, oldest first; empty for an unknown id.
    pub fn get_claim_history(&self, stream_id: u32) -> (r: Vec<ClaimRecord>)
        requires
            self.wf(),
        ensures
            r@ == if stream_id < self.histories@.len() {
                self.histories@[stream_id as int]@
            } else {
                Seq::<ClaimRecord>::empty()
            },
    {
        let mut records: Vec<ClaimRecord> = Vec::new();
        if stream_id as usize >= self.histories.len() {
            return records;
        }
        let history = &self.histories[stream_id as usize];
        let n = history.len();
        for i in 0..n
            invariant
                n == history@.len(),
                records@ == history@.take(i as int),
        {
            records.push(history[i]);
            proof {
                assert(history@.take(i + 1) =~= history@.take(i as int).push(history@[i as int]));
            }
        }
        proof {
            assert(history@.take(n as int) =~= history@);
        }
        records
    }

    /// Ids of the streams the given account funded, in creation order.
    pub fn get_streams_by_sender(&self, sender: u64) -> (r: Vec<u32>)
        requires
            self.wf(),
        ensures
            r@ == spec_ids_by_sender(self.streams@, sender),
    {
        let mut ids: Vec<u32> = Vec::new();
        let n = self.streams.len();
        for i in 0..n
            invariant
                n == self.streams@.len(),
                ids@ == spec_ids_by_sender(self.streams@.take(i as int), sender),
        {
            proof {
                assert(self.streams@.take(i + 1).drop_last() =~= self.streams@.take(i as int));
                assert(self.streams@.take(i + 1).last() == self.streams@[i as int]);
            }
            if self.streams[i].sender == sender {
                ids.push(self.streams[i].id);
            }
        }
        proof {
            assert(self.streams@.take(n as int) =~= self.streams@);
        }
        ids
    }

    /// Ids of the streams addressed to the given account, in creation order.
    pub fn get_streams_by_recipient(&self, recipient: u64) -> (r: Vec<u32>)
        requires
            self.wf(),
        ensures
            r@ == spec_ids_by_recipient(self.streams@, recipient),
    {
        let mut ids: Vec<u32> = Vec::new();
        let n = self.streams.len();
        for i in 0..n
            invariant
                n == self.streams@.len(),
                ids@ == spec_ids_by_recipient(self.streams@.take(i as int), recipient),
        {
            proof {
                assert(self.streams@.take(i + 1).drop_last() =~= self.streams@.take(i as int));
                assert(self.streams@.take(i + 1).last() == self.streams@[i as int]);
            }
            if self.streams[i].recipient == recipient {
                ids.push(self.streams[i].id);
            }
        }
        proof {
            assert(self.streams@.take(n as int) =~= self.streams@);
        }
        ids
    }

    /// The admin account, once initialized.
    pub fn get_admin(&self) -> (r: Result<u64, StreamError>)
        ensures
            match r {
                Ok(a) => self.admin == Some(a),
                Err(e) => self.admin is None && e == StreamError::NotInitialized,
            },
    {
        match self.admin {
            Some(a) => Ok(a),
            None => Err(StreamError::NotInitialized),
        }
    }
}

/// Which error, if any, one batch entry is rejected with (the same checks a
/// single creation applies after the initialization check).
pub open spec fn spec_params_err(sender: u64, p: CreateStreamParams, now: u64) -> Option<
    StreamError,
> {
    if sender == p.recipient {
        Some(StreamError::InvalidRecipient)
    } else if p.total_amount <= 0 {
        Some(StreamError::InvalidAmount)
    } else if p.end_time <= p.start_time {
        Some(StreamError::InvalidDuration)
    } else if p.start_time < now {
        Some(StreamError::InvalidStartTime)
    } else {
        None
    }
}

/// The first entry's error in a batch, if any entry is invalid.
pub open spec fn spec_batch_err(sender: u64, params: Seq<CreateStreamParams>, now: u64) -> Option<
    StreamError,
>
    decreases params.len(),
{
    if params.len() == 0 {
        None
    } else if spec_params_err(sender, params[0], now) is Some {
        spec_params_err(sender, params[0], now)
    } else {
        spec_batch_err(sender, params.skip(1), now)
    }
}

/// The streams a valid batch appends, first id `base`.
pub open spec fn spec_batch_streams(
    base: int,
    sender: u64,
    params: Seq<CreateStreamParams>,
) -> Seq<PayrollStream> {
    Seq::new(
        params.len(),
        |i: int|
            spec_new_stream(
                (base + i) as u32,
                sender,
                params[i].recipient,
                params[i].token,
                params[i].total_amount,
                params[i].start_time,
                params[i].end_time,
            ),
    )
}

/// Ids of the streams sent by `sender`, in creation order.
pub open spec fn spec_ids_by_sender(streams: Seq<PayrollStream>, sender: u64) -> Seq<u32>
    decreases streams.len(),
{
    if streams.len() == 0 {
        Seq::empty()
    } else if streams.last().sender == sender {
        spec_ids_by_sender(streams.drop_last(), sender).push(streams.last().id)
    } else {
        spec_ids_by_sender(streams.drop_last(), sender)
    }
}

/// Ids of the streams addressed to `recipient`, in creation order.
pub open spec fn spec_ids_by_recipient(streams: Seq<PayrollStream>, recipient: u64) -> Seq<u32>
    decreases streams.len(),
{
    if streams.len() == 0 {
        Seq::empty()
    } else if streams.last().recipient == recipient {
        spec_ids_by_recipient(streams.drop_last(), recipient).push(streams.last().id)
    } else {
        spec_ids_by_recipient(streams.drop_last(), recipient)
    }
}

/// Skipping a valid prefix does not change the first batch error.
proof fn lemma_batch_err_prefix(sender: u64, params: Seq<CreateStreamParams>, now: u64, i: int)
    requires
        0 <= i <= params.len(),
        forall|j: int| 0 <= j < i ==> (#[trigger] spec_params_err(sender, params[j], now)) is None,
    ensures
        spec_batch_err(sender, params, now) == spec_batch_err(sender, params.skip(i), now),
    decreases i,
{
    if i > 0 {
        assert(spec_params_err(sender, params[0], now) is None);
        let rest = params.skip(1);
        assert forall|j: int| 0 <= j < i - 1 implies (#[trigger] spec_params_err(
            sender,
            rest[j],
            now,
        )) is None by {
            assert(rest[j] == params[j + 1]);
            assert(spec_params_err(sender, params[j + 1], now) is None);
        }
        lemma_batch_err_prefix(sender, rest, now, i - 1);
        assert(rest.skip(i - 1) =~= params.skip(i));
    } else {
        assert(params.skip(0) =~= params);
    }
}

/// Executable claimable balance of one stream as of `now`; matches
/// `PayrollStream::spec_claimable` exactly and never exceeds the unclaimed
/// remainder.
pub fn calculate_claimable(stream: &PayrollStream, now: u64) -> (r: i128)
    requires
        stream.wf(),
    ensures
        r == stream.spec_claimable(now as int),
        0 <= r,
        r + stream.claimed_amount <= stream.total_amount,
{
    let accrued = stream_accrued_at(
        stream.total_amount,
        stream.start_time,
        stream.end_time,
        now,
    );
    if accrued < stream.claimed_amount {
        0
    } else {
        accrued - stream.claimed_amount
    }
}

/// No double payment: after a successful claim settles at `now`, the claimable
/// balance at the same instant is exactly zero, so an immediate second claim
/// finds nothing to pay out.
pub proof fn lemma_stream_no_double_payment(s: PayrollStream, now: u64)
    requires
        s.wf(),
        s.spec_claimable(now as int) > 0,
    ensures
        spec_after_claim(s, now).wf(),
        spec_after_claim(s, now).spec_claimable(now as int) == 0,
{
    lemma_stream_accrued_bounds(
        s.total_amount as int,
        s.start_time as int,
        s.end_time as int,
        now as int,
    );
}

/// Conservation at cancellation: prior claims, the settle owed to the
/// recipient, and the refund owed back to the sender partition the stream
/// total exactly; no value is created or destroyed.
pub proof fn lemma_stream_cancel_conservation(s: PayrollStream, now: u64)
    requires
        s.wf(),
    ensures
        ({
            let settle = s.spec_claimable(now as int);
            let refund = s.total_amount - s.claimed_amount - settle;
            &&& s.claimed_amount + settle + refund == s.total_amount
            &&& 0 <= settle
            &&& 0 <= refund
            &&& s.claimed_amount + refund <= s.total_amount
        }),
{
    lemma_stream_accrued_bounds(
        s.total_amount as int,
        s.start_time as int,
        s.end_time as int,
        now as int,
    );
}

/// Claims never exceed accrual: however often a recipient claims, the running
/// `claimed_amount` after a claim equals the accrued amount at that instant,
/// which monotonicity keeps below every later accrual and the total.
pub proof fn lemma_stream_claims_bounded(s: PayrollStream, now: u64, later: u64)
    requires
        s.wf(),
        s.spec_claimable(now as int) > 0,
        now <= later,
    ensures
        spec_after_claim(s, now).claimed_amount == s.spec_accrued(now as int),
        spec_after_claim(s, now).claimed_amount <= s.spec_accrued(later as int),
        spec_after_claim(s, now).claimed_amount <= s.total_amount,
{
    lemma_stream_accrued_bounds(
        s.total_amount as int,
        s.start_time as int,
        s.end_time as int,
        now as int,
    );
    lemma_stream_accrued_monotonic(
        s.total_amount as int,
        s.start_time as int,
        s.end_time as int,
        now as int,
        later as int,
    );
}

} // verus!
