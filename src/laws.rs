use vstd::prelude::*;
use crate::model::{ErrorKind, OfferStatus};
use crate::registry::{RegistryModel, accept_offer_step, lemma_index_of_update_offer, reject_offer_step};

verus! {

/// Rejecting an offer twice: when the first rejection succeeds, the offer is
/// then rejected, and a second rejection of it fails with `Conflict` and
/// leaves the state as the first one left it.
pub proof fn lemma_reject_twice_conflicts(m: RegistryModel, offer_id: u64)
    requires
        m.wf(),
        reject_offer_step(m, offer_id).1 is Ok,
    ensures
        ({
            let m1 = reject_offer_step(m, offer_id).0;
            &&& m1.has_offer(offer_id)
            &&& m1.offer(offer_id).offer_status == OfferStatus::Rejected
            &&& m1.transfers == m.transfers
            &&& reject_offer_step(m1, offer_id) == (m1, Err::<(), ErrorKind>(ErrorKind::Conflict))
        }),
{
    let m1 = reject_offer_step(m, offer_id).0;
    let i = m.offer_index(offer_id);
    assert(0 <= i < m.offers.len() && m.offers[i].id == offer_id);
    assert forall|k: int| 0 <= k < m.offers.len() implies m1.offers[k].id == m.offers[k].id by {}
    lemma_index_of_update_offer(m, m1, offer_id, i);
}

/// A resolved offer is final: accepting or rejecting it again fails with
/// `Conflict`, at any time, and changes nothing.
pub proof fn lemma_resolved_offer_is_final(m: RegistryModel, offer_id: u64, now: u64)
    requires
        m.has_offer(offer_id),
        m.offer(offer_id).offer_status != OfferStatus::Pending,
    ensures
        accept_offer_step(m, offer_id, now).0 == m,
        accept_offer_step(m, offer_id, now).1 is Err,
        accept_offer_step(m, offer_id, now).1->Err_0 == ErrorKind::Conflict,
        reject_offer_step(m, offer_id) == (m, Err::<(), ErrorKind>(ErrorKind::Conflict)),
{
}

} // verus!
