//! A pension plan: contributions kept per participant and released, whole,
//! once a fixed epoch has been reached.
//!
//! A withdrawal takes the participant's record away with the funds. After
//! it the participant has no record at all, which is not the same as a
//! record of zero.

use vstd::prelude::*;
use vstd::hash_map::StringHashMap;

verus! {

/// What `participant` has in the plan: the recorded sum, or zero without a
/// record.
pub open spec fn balance_or_zero(balances: Map<Seq<char>, u64>, participant: Seq<char>) -> u64 {
    if balances.contains_key(participant) {
        balances[participant]
    } else {
        0
    }
}

/// The records after `participant` has contributed `amount`.
pub open spec fn contributed(
    balances: Map<Seq<char>, u64>,
    participant: Seq<char>,
    amount: u64,
) -> Map<Seq<char>, u64>
    recommends
        balance_or_zero(balances, participant) + amount <= u64::MAX,
{
    balances.insert(participant, (balance_or_zero(balances, participant) + amount) as u64)
}

/// The sum of a run of contributions.
pub open spec fn total(amounts: Seq<u64>) -> nat
    decreases amounts.len(),
{
    if amounts.len() == 0 {
        0
    } else {
        total(amounts.drop_last()) + amounts.last() as nat
    }
}

/// The records after `participant` has made each contribution of `amounts`
/// in turn.
pub open spec fn contributed_each(
    balances: Map<Seq<char>, u64>,
    participant: Seq<char>,
    amounts: Seq<u64>,
) -> Map<Seq<char>, u64>
    decreases amounts.len(),
{
    if amounts.len() == 0 {
        balances
    } else {
        contributed(
            contributed_each(balances, participant, amounts.drop_last()),
            participant,
            amounts.last(),
        )
    }
}

/// What a withdrawal for `participant` at `current_epoch` hands out from a
/// plan released at `release_epoch`: the whole recorded sum once the epoch
/// is reached, nothing before it and nothing without a record.
pub open spec fn withdrawal(
    balances: Map<Seq<char>, u64>,
    release_epoch: u64,
    participant: Seq<char>,
    current_epoch: u64,
) -> Option<u64> {
    if current_epoch >= release_epoch && balances.contains_key(participant) {
        Some(balances[participant])
    } else {
        None
    }
}

/// The records after that withdrawal: without the participant's record once
/// the epoch is reached, unchanged before it.
pub open spec fn after_withdrawal(
    balances: Map<Seq<char>, u64>,
    release_epoch: u64,
    participant: Seq<char>,
    current_epoch: u64,
) -> Map<Seq<char>, u64> {
    if current_epoch >= release_epoch {
        balances.remove(participant)
    } else {
        balances
    }
}

/// Tracks pension contributions for participants and allows withdrawals
/// once a predefined release epoch has been reached.
pub struct PensionPlan {
    balances: StringHashMap<u64>,
    release_epoch: u64,
}

impl View for PensionPlan {
    type V = Map<Seq<char>, u64>;

    /// The recorded sum of each participant that has a record.
    closed spec fn view(&self) -> Map<Seq<char>, u64> {
        self.balances@
    }
}

impl PensionPlan {
    /// The epoch from which withdrawals are honoured. Fixed at creation.
    pub closed spec fn release_epoch(&self) -> u64 {
        self.release_epoch
    }

    /// Creates a plan without records, released at `release_epoch`.
    pub fn new(release_epoch: u64) -> (r: Self)
        ensures
            r@ == Map::<Seq<char>, u64>::empty(),
            r.release_epoch() == release_epoch,
    {
        PensionPlan { balances: StringHashMap::new(), release_epoch }
    }

    /// The recorded sum of `participant`, or `None` without a record.
    pub fn balance_of(&self, participant: &str) -> (r: Option<u64>)
        ensures
            r.is_some() <==> self@.contains_key(participant@),
            r matches Some(sum) ==> sum == self@[participant@],
    {
        match self.balances.get(participant) {
            Some(sum) => Some(*sum),
            None => None,
        }
    }

    /// Records a contribution of `amount` for `participant`: added to the
    /// participant's sum, or the start of a new record.
    pub fn contribute(&mut self, participant: &str, amount: u64)
        requires
            balance_or_zero(old(self)@, participant@) + amount <= u64::MAX,
        ensures
            final(self)@ == contributed(old(self)@, participant@, amount),
            final(self).release_epoch() == old(self).release_epoch(),
    {
        let held: u64 = match self.balances.get(participant) {
            Some(sum) => *sum,
            None => 0,
        };
        self.balances.insert(participant.to_owned(), held + amount);
    }

    /// Attempts to withdraw the funds of `participant` at `current_epoch`.
    /// Before the release epoch nothing is handed out and nothing changes.
    /// From the release epoch on the participant's whole sum is handed out
    /// and the record is removed; without a record there is nothing to hand
    /// out.
    pub fn withdraw(&mut self, participant: &str, current_epoch: u64) -> (r: Option<u64>)
        ensures
            r == withdrawal(old(self)@, old(self).release_epoch(), participant@, current_epoch),
            final(self)@ == after_withdrawal(
                old(self)@,
                old(self).release_epoch(),
                participant@,
                current_epoch,
            ),
            final(self).release_epoch() == old(self).release_epoch(),
    {
        if current_epoch < self.release_epoch {
            return None;
        }
        let r: Option<u64> = match self.balances.get(participant) {
            Some(sum) => Some(*sum),
            None => None,
        };
        self.balances.remove(participant);
        r
    }
}

/// Contributions add up: after a run of one or more contributions the
/// participant's record holds what it held before, or zero, plus their sum.
/// Nobody else's record is touched.
pub proof fn lemma_contributions_accumulate(
    balances: Map<Seq<char>, u64>,
    participant: Seq<char>,
    amounts: Seq<u64>,
)
    requires
        amounts.len() > 0,
        balance_or_zero(balances, participant) + total(amounts) <= u64::MAX,
    ensures
        contributed_each(balances, participant, amounts).contains_key(participant),
        contributed_each(balances, participant, amounts)[participant] == balance_or_zero(
            balances,
            participant,
        ) + total(amounts),
        contributed_each(balances, participant, amounts).remove(participant) == balances.remove(
            participant,
        ),
    decreases amounts.len(),
{
    let earlier = amounts.drop_last();
    let before = contributed_each(balances, participant, earlier);
    if earlier.len() > 0 {
        lemma_contributions_accumulate(balances, participant, earlier);
    }
    assert(balance_or_zero(before, participant) == balance_or_zero(balances, participant) + total(
        earlier,
    ));
}

/// A withdrawal before the release epoch hands out nothing and keeps every
/// record, so the same sum is handed out by a withdrawal at any epoch from
/// the release epoch on.
pub proof fn lemma_early_withdrawal_keeps_funds(
    balances: Map<Seq<char>, u64>,
    release_epoch: u64,
    participant: Seq<char>,
    early: u64,
    late: u64,
)
    requires
        early < release_epoch <= late,
    ensures
        withdrawal(balances, release_epoch, participant, early).is_none(),
        after_withdrawal(balances, release_epoch, participant, early) == balances,
        withdrawal(
            after_withdrawal(balances, release_epoch, participant, early),
            release_epoch,
            participant,
            late,
        ) == withdrawal(balances, release_epoch, participant, late),
{
}

/// A withdrawal from the release epoch on hands out exactly the sum that
/// was accumulated and removes the record: a second attempt, at any epoch,
/// finds nothing.
pub proof fn lemma_released_funds_leave_once(
    balances: Map<Seq<char>, u64>,
    release_epoch: u64,
    participant: Seq<char>,
    amounts: Seq<u64>,
    current_epoch: u64,
    again: u64,
)
    requires
        amounts.len() > 0,
        balance_or_zero(balances, participant) + total(amounts) <= u64::MAX,
        current_epoch >= release_epoch,
    ensures
        withdrawal(
            contributed_each(balances, participant, amounts),
            release_epoch,
            participant,
            current_epoch,
        ) == Some((balance_or_zero(balances, participant) + total(amounts)) as u64),
        !after_withdrawal(
            contributed_each(balances, participant, amounts),
            release_epoch,
            participant,
            current_epoch,
        ).contains_key(participant),
        withdrawal(
            after_withdrawal(
                contributed_each(balances, participant, amounts),
                release_epoch,
                participant,
                current_epoch,
            ),
            release_epoch,
            participant,
            again,
        ).is_none(),
{
    lemma_contributions_accumulate(balances, participant, amounts);
}

} // verus!
