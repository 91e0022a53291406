//! The donation protocol: initialization of the aggregate record, admission
//! of a request (authorization and slot checks, before any value moves), and
//! settlement of the durable state once the transfer outcome is known.
//!
//! The strict order is the contract: the transfer is authorized and stated
//! first, the surrounding runtime performs it, and only a confirmed transfer
//! lets the record be persisted and the aggregate credited — both together,
//! or neither. A failed transfer leaves every durable value unchanged.

use vstd::prelude::*;

use crate::records::Donation;
use crate::records::DonationError;
use crate::records::DonationEvent;
use crate::records::Identity;
use crate::records::StroompConfig;
use crate::records::TransferOrder;
use crate::records::TransferOutcome;

verus! {

/// Whether the aggregate can absorb one more donation of `amount` without
/// either counter overflowing its width.
pub open spec fn has_room(config: StroompConfig, amount: u64) -> bool {
    &&& config.total_donations < u64::MAX
    &&& config.total_raised + amount as u128 <= u128::MAX
}

/// The aggregate after crediting one donation of `amount`: the count grows
/// by one and the sum by the amount, widened to 128 bits, with no
/// truncation. Meaningful only where `has_room` holds.
pub open spec fn credited(config: StroompConfig, amount: u64) -> StroompConfig {
    StroompConfig {
        total_donations: (config.total_donations + 1) as u64,
        total_raised: (config.total_raised + amount as u128) as u128,
    }
}

/// Whether a request may be admitted to the transfer step: the supplied
/// slot must be vacant and the caller must be the donor it claims to pay
/// as. A vacancy conflict is the account store's rejection and takes
/// precedence over the authorization check.
pub open spec fn admission_verdict(
    slot: Option<Donation>,
    caller: Identity,
    donor: Identity,
) -> Result<(), DonationError> {
    if slot is Some {
        Err(DonationError::AllocationConflict)
    } else if caller != donor {
        Err(DonationError::Unauthorized)
    } else {
        Ok(())
    }
}

/// Whether settlement may commit, given the slot, the reported transfer
/// outcome and the aggregate to credit: a durable record and an aggregate
/// update are written exactly when the slot is vacant, the full amount
/// moved, and the aggregate has room for it.
pub open spec fn settlement_verdict(
    slot: Option<Donation>,
    outcome: TransferOutcome,
    config: StroompConfig,
    amount: u64,
) -> Result<(), DonationError> {
    if slot is Some {
        Err(DonationError::AllocationConflict)
    } else if outcome is Failed {
        Err(DonationError::TransferFailed)
    } else if !has_room(config, amount) {
        Err(DonationError::AggregateOverflow)
    } else {
        Ok(())
    }
}

/// The aggregate after settlement: credited on commit, untouched on any
/// failure.
pub open spec fn settled_config(
    slot: Option<Donation>,
    outcome: TransferOutcome,
    config: StroompConfig,
    amount: u64,
) -> StroompConfig {
    if settlement_verdict(slot, outcome, config, amount) is Ok {
        credited(config, amount)
    } else {
        config
    }
}

/// Retrying after a failed transfer is indistinguishable from a first
/// attempt: a failed transfer settles to a rejected verdict and an
/// unchanged aggregate, so a retry against a fresh slot, under whatever
/// the transfer service does next, reaches the same verdict and the same
/// settled aggregate as a first attempt would have.
pub proof fn lemma_failure_is_idempotent(
    config: StroompConfig,
    amount: u64,
    retry_outcome: TransferOutcome,
    retry_amount: u64,
)
    ensures
        settlement_verdict(None::<Donation>, TransferOutcome::Failed, config, amount)
            == Err::<(), DonationError>(DonationError::TransferFailed),
        settled_config(None::<Donation>, TransferOutcome::Failed, config, amount) == config,
        settlement_verdict(
            None::<Donation>,
            retry_outcome,
            settled_config(None::<Donation>, TransferOutcome::Failed, config, amount),
            retry_amount,
        ) == settlement_verdict(None::<Donation>, retry_outcome, config, retry_amount),
        settled_config(
            None::<Donation>,
            retry_outcome,
            settled_config(None::<Donation>, TransferOutcome::Failed, config, amount),
            retry_amount,
        ) == settled_config(None::<Donation>, retry_outcome, config, retry_amount),
{
}

/// The aggregate counters never decrease: whatever the slot, the transfer
/// outcome and the amount, settlement leaves each counter at or above its
/// prior value.
pub proof fn lemma_aggregate_monotonic(
    slot: Option<Donation>,
    outcome: TransferOutcome,
    config: StroompConfig,
    amount: u64,
)
    ensures
        settled_config(slot, outcome, config, amount).total_donations >= config.total_donations,
        settled_config(slot, outcome, config, amount).total_raised >= config.total_raised,
{
}

/// The aggregate after settling a sequence of requests in order, each
/// against a fresh slot. Each request is the transfer outcome the service
/// reported and the amount of the donation.
pub open spec fn aggregate_after(
    config: StroompConfig,
    requests: Seq<(TransferOutcome, u64)>,
) -> StroompConfig
    decreases requests.len(),
{
    if requests.len() == 0 {
        config
    } else {
        aggregate_after(
            settled_config(None::<Donation>, requests[0].0, config, requests[0].1),
            requests.skip(1),
        )
    }
}

/// How many of the requests commit when settled in order against the
/// aggregate: exactly those whose settlement verdict is accepting at the
/// aggregate value they meet.
pub open spec fn committed_count(
    config: StroompConfig,
    requests: Seq<(TransferOutcome, u64)>,
) -> nat
    decreases requests.len(),
{
    if requests.len() == 0 {
        0
    } else {
        let here: nat = if settlement_verdict(None::<Donation>, requests[0].0, config, requests[0].1) is Ok {
            1
        } else {
            0
        };
        here + committed_count(
            settled_config(None::<Donation>, requests[0].0, config, requests[0].1),
            requests.skip(1),
        )
    }
}

/// The sum of the amounts of the requests that commit when settled in
/// order against the aggregate.
pub open spec fn committed_sum(
    config: StroompConfig,
    requests: Seq<(TransferOutcome, u64)>,
) -> nat
    decreases requests.len(),
{
    if requests.len() == 0 {
        0
    } else {
        let here: nat = if settlement_verdict(None::<Donation>, requests[0].0, config, requests[0].1) is Ok {
            requests[0].1 as nat
        } else {
            0
        };
        here + committed_sum(
            settled_config(None::<Donation>, requests[0].0, config, requests[0].1),
            requests.skip(1),
        )
    }
}

/// The aggregate is the exact tally of the donations committed against it:
/// after any sequence of requests, each settled against a fresh slot, the
/// count has grown by one and the sum by the full amount for precisely the
/// committed requests — no commit is lost, none is counted twice, and no
/// amount is truncated.
pub proof fn lemma_aggregate_tallies_commits(
    config: StroompConfig,
    requests: Seq<(TransferOutcome, u64)>,
)
    ensures
        aggregate_after(config, requests).total_donations == config.total_donations
            + committed_count(config, requests),
        aggregate_after(config, requests).total_raised == config.total_raised
            + committed_sum(config, requests),
    decreases requests.len(),
{
    if requests.len() > 0 {
        let next = settled_config(None::<Donation>, requests[0].0, config, requests[0].1);
        lemma_aggregate_tallies_commits(next, requests.skip(1));
    }
}

/// Writes zeroed counters into a freshly allocated statistics slot.
///
/// Runs once per deployment of a statistics record; the account store's
/// create-once allocation keeps it from running twice on one slot.
pub fn initialize(stroomp_config: &mut StroompConfig)
    ensures
        final(stroomp_config).total_donations == 0,
        final(stroomp_config).total_raised == 0,
{
    stroomp_config.total_donations = 0;
    stroomp_config.total_raised = 0;
}

/// Admits a donation request and states the transfer to perform, before
/// any value moves and before any durable state is touched.
///
/// The order is returned exactly when the donation slot is vacant and the
/// caller is the donor; it names the donor as payer, the streamer as payee
/// and the full amount. An inadmissible request is rejected here, so the
/// runtime never reaches the transfer step for it. A zero amount and a
/// self-donation (donor and streamer the same identity) are deliberately
/// admitted: the transfer service moves nothing, or moves value back to the
/// payer, and the record and the aggregate reflect the request as stated.
pub fn begin_donation(
    donation: &Option<Donation>,
    caller: Identity,
    donor: Identity,
    streamer: Identity,
    amount: u64,
) -> (r: Result<TransferOrder, DonationError>)
    ensures
        r is Ok <==> admission_verdict(*donation, caller, donor) is Ok,
        r matches Err(e) ==> admission_verdict(*donation, caller, donor) == Err::<(), DonationError>(e),
        r matches Ok(order) ==> order.from == donor && order.to == streamer && order.amount == amount,
{
    if donation.is_some() {
        return Err(DonationError::AllocationConflict);
    }
    if caller != donor {
        return Err(DonationError::Unauthorized);
    }
    Ok(TransferOrder { from: donor, to: streamer, amount })
}

/// Settles a donation once the value-transfer service has reported its
/// outcome: persists the record and credits the aggregate together, or
/// changes nothing at all.
///
/// On commit the slot receives the record — donor, streamer, amount,
/// message, anonymity flag, the timestamp read from the clock oracle, and
/// the donor's identity as the placeholder transfer reference — the count
/// grows by one, the sum by the amount widened to 128 bits, and the
/// returned event mirrors the request for the runtime to broadcast. On a
/// failed transfer, an occupied slot, or an aggregate without room, the
/// matching error is returned and both the slot and the aggregate are left
/// exactly as they were.
pub fn make_donation(
    donation: &mut Option<Donation>,
    stroomp_config: &mut StroompConfig,
    donor: Identity,
    streamer: Identity,
    amount: u64,
    message: String,
    is_anonymous: bool,
    outcome: TransferOutcome,
    timestamp: i64,
) -> (r: Result<DonationEvent, DonationError>)
    ensures
        r is Ok <==> settlement_verdict(*old(donation), outcome, *old(stroomp_config), amount) is Ok,
        r matches Err(e) ==> settlement_verdict(*old(donation), outcome, *old(stroomp_config), amount)
            == Err::<(), DonationError>(e),
        *final(stroomp_config) == settled_config(*old(donation), outcome, *old(stroomp_config), amount),
        r is Err ==> *final(donation) == *old(donation),
        r is Ok ==> ((*final(donation)) matches Some(d)
            && d.donor == donor
            && d.streamer == streamer
            && d.amount == amount
            && d.message@ == message@
            && d.is_anonymous == is_anonymous
            && d.timestamp == timestamp
            && d.tx_signature == donor),
        r is Ok ==> (r matches Ok(event)
            && event.donor == donor
            && event.streamer == streamer
            && event.amount == amount
            && event.message@ == message@
            && event.is_anonymous == is_anonymous),
{
    if donation.is_some() {
        return Err(DonationError::AllocationConflict);
    }
    match outcome {
        TransferOutcome::Failed => {
            return Err(DonationError::TransferFailed);
        },
        TransferOutcome::Completed => {},
    }
    if stroomp_config.total_donations == u64::MAX {
        return Err(DonationError::AggregateOverflow);
    }
    let widened: u128 = amount as u128;
    if stroomp_config.total_raised > u128::MAX - widened {
        return Err(DonationError::AggregateOverflow);
    }
    let event_message = message.clone();
    *donation = Some(Donation {
        donor,
        streamer,
        amount,
        message,
        is_anonymous,
        timestamp,
        tx_signature: donor,
    });
    stroomp_config.total_donations = stroomp_config.total_donations + 1;
    stroomp_config.total_raised = stroomp_config.total_raised + widened;
    Ok(DonationEvent { donor, streamer, amount, message: event_message, is_anonymous })
}

} // verus!
