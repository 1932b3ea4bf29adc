use vstd::prelude::*;
use crate::model::{
    ErrorKind, OfferModel, OfferStatus, PlayerProfile, PlayerProfilePayload, PlayerTransfer,
    PlayerTransferPayload, ProfileModel, TransferModel, TransferOffer, TransferOfferPayload,
    TransferStatus, offer_payload_valid, profile_payload_valid, transfer_payload_valid,
    validate_offer_payload, validate_profile_payload, validate_transfer_payload,
};

verus! {

/// The mathematical value of a [`Registry`]: the three collections in order
/// of insertion, and the last identifier handed out.
pub struct RegistryModel {
    pub profiles: Seq<ProfileModel>,
    pub transfers: Seq<TransferModel>,
    pub offers: Seq<OfferModel>,
    pub last_id: u64,
}

impl RegistryModel {
    pub open spec fn has_profile(self, id: u64) -> bool {
        exists|i: int| 0 <= i < self.profiles.len() && self.profiles[i].id == id
    }

    pub open spec fn profile_index(self, id: u64) -> int {
        choose|i: int| 0 <= i < self.profiles.len() && self.profiles[i].id == id
    }

    pub open spec fn profile(self, id: u64) -> ProfileModel {
        self.profiles[self.profile_index(id)]
    }

    pub open spec fn has_transfer(self, id: u64) -> bool {
        exists|i: int| 0 <= i < self.transfers.len() && self.transfers[i].id == id
    }

    pub open spec fn transfer(self, id: u64) -> TransferModel {
        self.transfers[choose|i: int| 0 <= i < self.transfers.len() && self.transfers[i].id == id]
    }

    pub open spec fn has_offer(self, id: u64) -> bool {
        exists|i: int| 0 <= i < self.offers.len() && self.offers[i].id == id
    }

    pub open spec fn offer_index(self, id: u64) -> int {
        choose|i: int| 0 <= i < self.offers.len() && self.offers[i].id == id
    }

    pub open spec fn offer(self, id: u64) -> OfferModel {
        self.offers[self.offer_index(id)]
    }

    /// Every identifier held in any collection is below `bound`.
    pub open spec fn ids_below(self, bound: int) -> bool {
        &&& forall|i: int| 0 <= i < self.profiles.len() ==> self.profiles[i].id < bound
        &&& forall|i: int| 0 <= i < self.transfers.len() ==> self.transfers[i].id < bound
        &&& forall|i: int| 0 <= i < self.offers.len() ==> self.offers[i].id < bound
    }

    /// Identifiers increase strictly along each collection, none exceeds the
    /// last one handed out, and no identifier stands in two collections.
    pub open spec fn wf(self) -> bool {
        &&& profile_ids_ok(self.profiles, self.last_id + 1)
        &&& transfer_ids_ok(self.transfers, self.last_id + 1)
        &&& offer_ids_ok(self.offers, self.last_id + 1)
        &&& profile_transfer_ids_disjoint(self.profiles, self.transfers)
        &&& profile_offer_ids_disjoint(self.profiles, self.offers)
        &&& transfer_offer_ids_disjoint(self.transfers, self.offers)
    }
}

/// No profile shares its identifier with a transfer.
pub open spec fn profile_transfer_ids_disjoint(a: Seq<ProfileModel>, b: Seq<TransferModel>) -> bool {
    forall|i: int, j: int| 0 <= i < a.len() && 0 <= j < b.len() ==> a[i].id != b[j].id
}

/// No profile shares its identifier with an offer.
pub open spec fn profile_offer_ids_disjoint(a: Seq<ProfileModel>, b: Seq<OfferModel>) -> bool {
    forall|i: int, j: int| 0 <= i < a.len() && 0 <= j < b.len() ==> a[i].id != b[j].id
}

/// No transfer shares its identifier with an offer.
pub open spec fn transfer_offer_ids_disjoint(a: Seq<TransferModel>, b: Seq<OfferModel>) -> bool {
    forall|i: int, j: int| 0 <= i < a.len() && 0 <= j < b.len() ==> a[i].id != b[j].id
}

/// Identifiers increase strictly along `s`, and all are below `bound`.
pub open spec fn profile_ids_ok(s: Seq<ProfileModel>, bound: int) -> bool {
    &&& forall|i: int, j: int| 0 <= i < j < s.len() ==> s[i].id < s[j].id
    &&& forall|i: int| 0 <= i < s.len() ==> s[i].id < bound
}

/// Identifiers increase strictly along `s`, and all are below `bound`.
pub open spec fn transfer_ids_ok(s: Seq<TransferModel>, bound: int) -> bool {
    &&& forall|i: int, j: int| 0 <= i < j < s.len() ==> s[i].id < s[j].id
    &&& forall|i: int| 0 <= i < s.len() ==> s[i].id < bound
}

/// Identifiers increase strictly along `s`, and all are below `bound`.
pub open spec fn offer_ids_ok(s: Seq<OfferModel>, bound: int) -> bool {
    &&& forall|i: int, j: int| 0 <= i < j < s.len() ==> s[i].id < s[j].id
    &&& forall|i: int| 0 <= i < s.len() ==> s[i].id < bound
}

/// The profile that a valid creation request yields.
pub open spec fn new_profile(p: PlayerProfilePayload, id: u64, now: u64) -> ProfileModel {
    ProfileModel {
        id,
        name: p.name@,
        position: p.position@,
        current_team: p.current_team@,
        market_value: p.market_value,
        transfer_status: TransferStatus::Available,
        contract_until: p.contract_until,
        age: p.age,
        nationality: p.nationality@,
        created_at: now,
    }
}

/// A profile after a completed transfer to `team`, with a contract until `until`.
pub open spec fn moved(p: ProfileModel, team: Seq<char>, until: u64) -> ProfileModel {
    ProfileModel {
        id: p.id,
        name: p.name,
        position: p.position,
        current_team: team,
        market_value: p.market_value,
        transfer_status: TransferStatus::Transferred,
        contract_until: until,
        age: p.age,
        nationality: p.nationality,
        created_at: p.created_at,
    }
}

/// An offer with its status replaced.
pub open spec fn resolved(o: OfferModel, status: OfferStatus) -> OfferModel {
    OfferModel {
        id: o.id,
        player_id: o.player_id,
        from_team: o.from_team,
        to_team: o.to_team,
        offer_amount: o.offer_amount,
        offer_status: status,
        created_at: o.created_at,
    }
}

/// Creating a profile: the next state and the result.
pub open spec fn create_profile_step(m: RegistryModel, p: PlayerProfilePayload, now: u64) -> (
    RegistryModel,
    Result<ProfileModel, ErrorKind>,
) {
    if !profile_payload_valid(p) {
        (m, Err(ErrorKind::InvalidPayload))
    } else {
        let id = (m.last_id + 1) as u64;
        let prof = new_profile(p, id, now);
        (
            RegistryModel {
                profiles: m.profiles.push(prof),
                transfers: m.transfers,
                offers: m.offers,
                last_id: id,
            },
            Ok(prof),
        )
    }
}

/// A player may move directly when available and a member of the source team.
pub open spec fn eligible(prof: ProfileModel, from_team: Seq<char>) -> bool {
    prof.transfer_status == TransferStatus::Available && prof.current_team == from_team
}

/// A direct transfer: the next state and the result. A new contract expiry
/// beyond the largest timestamp is a conflict.
pub open spec fn direct_transfer_step(m: RegistryModel, p: PlayerTransferPayload, now: u64) -> (
    RegistryModel,
    Result<TransferModel, ErrorKind>,
) {
    if !transfer_payload_valid(p) {
        (m, Err(ErrorKind::InvalidPayload))
    } else if !m.has_profile(p.player_id) {
        (m, Err(ErrorKind::NotFound))
    } else if !eligible(m.profile(p.player_id), p.from_team@) {
        (m, Err(ErrorKind::Conflict))
    } else if p.transfer_date + p.contract_duration > u64::MAX {
        (m, Err(ErrorKind::Conflict))
    } else {
        let id = (m.last_id + 1) as u64;
        let t = TransferModel {
            id,
            player_id: p.player_id,
            from_team: p.from_team@,
            to_team: p.to_team@,
            transfer_fee: p.transfer_fee,
            transfer_date: p.transfer_date,
            contract_duration: p.contract_duration,
            created_at: now,
        };
        let until = (p.transfer_date + p.contract_duration) as u64;
        (
            RegistryModel {
                profiles: m.profiles.update(
                    m.profile_index(p.player_id),
                    moved(m.profile(p.player_id), p.to_team@, until),
                ),
                transfers: m.transfers.push(t),
                offers: m.offers,
                last_id: id,
            },
            Ok(t),
        )
    }
}

/// Making an offer: the next state and the result.
pub open spec fn create_offer_step(m: RegistryModel, p: TransferOfferPayload, now: u64) -> (
    RegistryModel,
    Result<OfferModel, ErrorKind>,
) {
    if !offer_payload_valid(p) {
        (m, Err(ErrorKind::InvalidPayload))
    } else if !m.has_profile(p.player_id) {
        (m, Err(ErrorKind::NotFound))
    } else {
        let id = (m.last_id + 1) as u64;
        let o = OfferModel {
            id,
            player_id: p.player_id,
            from_team: p.from_team@,
            to_team: p.to_team@,
            offer_amount: p.offer_amount,
            offer_status: OfferStatus::Pending,
            created_at: now,
        };
        (
            RegistryModel {
                profiles: m.profiles,
                transfers: m.transfers,
                offers: m.offers.push(o),
                last_id: id,
            },
            Ok(o),
        )
    }
}

/// Accepting an offer at time `now`: the next state and the result. The new
/// contract runs for what remained of the old one; a contract that has
/// already expired is a conflict.
pub open spec fn accept_offer_step(m: RegistryModel, offer_id: u64, now: u64) -> (
    RegistryModel,
    Result<TransferModel, ErrorKind>,
) {
    if !m.has_offer(offer_id) {
        (m, Err(ErrorKind::NotFound))
    } else if m.offer(offer_id).offer_status != OfferStatus::Pending {
        (m, Err(ErrorKind::Conflict))
    } else if !m.has_profile(m.offer(offer_id).player_id) {
        (m, Err(ErrorKind::NotFound))
    } else if m.profile(m.offer(offer_id).player_id).contract_until < now {
        (m, Err(ErrorKind::Conflict))
    } else {
        let o = m.offer(offer_id);
        let prof = m.profile(o.player_id);
        let id = (m.last_id + 1) as u64;
        let duration = (prof.contract_until - now) as u64;
        let t = TransferModel {
            id,
            player_id: o.player_id,
            from_team: o.from_team,
            to_team: o.to_team,
            transfer_fee: o.offer_amount,
            transfer_date: now,
            contract_duration: duration,
            created_at: now,
        };
        (
            RegistryModel {
                profiles: m.profiles.update(
                    m.profile_index(o.player_id),
                    moved(prof, o.to_team, (now + duration) as u64),
                ),
                transfers: m.transfers.push(t),
                offers: m.offers.update(m.offer_index(offer_id), resolved(o, OfferStatus::Accepted)),
                last_id: id,
            },
            Ok(t),
        )
    }
}

/// Rejecting an offer: the next state and the result.
pub open spec fn reject_offer_step(m: RegistryModel, offer_id: u64) -> (
    RegistryModel,
    Result<(), ErrorKind>,
) {
    if !m.has_offer(offer_id) {
        (m, Err(ErrorKind::NotFound))
    } else if m.offer(offer_id).offer_status != OfferStatus::Pending {
        (m, Err(ErrorKind::Conflict))
    } else {
        (
            RegistryModel {
                profiles: m.profiles,
                transfers: m.transfers,
                offers: m.offers.update(
                    m.offer_index(offer_id),
                    resolved(m.offer(offer_id), OfferStatus::Rejected),
                ),
                last_id: m.last_id,
            },
            Ok(()),
        )
    }
}

/// The profiles of `s` whose current team is `team`, in their order in `s`.
pub open spec fn members_of(s: Seq<ProfileModel>, team: Seq<char>) -> Seq<ProfileModel>
    decreases s.len(),
{
    if s.len() == 0 {
        Seq::empty()
    } else if s.last().current_team == team {
        members_of(s.drop_last(), team).push(s.last())
    } else {
        members_of(s.drop_last(), team)
    }
}

pub open spec fn profile_result(r: Result<PlayerProfile, ErrorKind>) -> Result<ProfileModel, ErrorKind> {
    match r {
        Ok(p) => Ok(p@),
        Err(e) => Err(e),
    }
}

pub open spec fn transfer_result(r: Result<PlayerTransfer, ErrorKind>) -> Result<TransferModel, ErrorKind> {
    match r {
        Ok(t) => Ok(t@),
        Err(e) => Err(e),
    }
}

pub open spec fn offer_result(r: Result<TransferOffer, ErrorKind>) -> Result<OfferModel, ErrorKind> {
    match r {
        Ok(o) => Ok(o@),
        Err(e) => Err(e),
    }
}

/// The record store: profiles, transfers and offers, each kept in order of
/// insertion, and one counter from which all identifiers are drawn.
pub struct Registry {
    profiles: Vec<PlayerProfile>,
    transfers: Vec<PlayerTransfer>,
    offers: Vec<TransferOffer>,
    last_id: u64,
}

impl View for Registry {
    type V = RegistryModel;

    closed spec fn view(&self) -> RegistryModel {
        RegistryModel {
            profiles: self.profiles@.map_values(|p: PlayerProfile| p@),
            transfers: self.transfers@.map_values(|t: PlayerTransfer| t@),
            offers: self.offers@.map_values(|o: TransferOffer| o@),
            last_id: self.last_id,
        }
    }
}

impl Registry {
    pub open spec fn wf(&self) -> bool {
        self@.wf()
    }

    /// An empty registry whose first identifier will be 1.
    pub fn new() -> (r: Registry)
        ensures
            r.wf(),
            r@.profiles.len() == 0,
            r@.transfers.len() == 0,
            r@.offers.len() == 0,
            r@.last_id == 0,
    {
        let r = Registry { profiles: Vec::new(), transfers: Vec::new(), offers: Vec::new(), last_id: 0 };
        assert(r@.profiles =~= Seq::<ProfileModel>::empty());
        assert(r@.transfers =~= Seq::<TransferModel>::empty());
        assert(r@.offers =~= Seq::<OfferModel>::empty());
        r
    }

    /// The last identifier handed out (0 before the first).
    pub fn last_id(&self) -> (r: u64)
        ensures
            r == self@.last_id,
    {
        self.last_id
    }

    fn find_profile(&self, id: u64) -> (r: Option<usize>)
        requires
            self.wf(),
        ensures
            match r {
                Some(i) => i < self@.profiles.len() && self@.profile_index(id) == i
                    && self@.has_profile(id) && self@.profile(id) == self.profiles@[i as int]@,
                None => !self@.has_profile(id),
            },
    {
        let mut i: usize = 0;
        while i < self.profiles.len()
            invariant
                self.wf(),
                i <= self.profiles@.len(),
                forall|k: int| 0 <= k < i ==> self.profiles@[k].id != id,
            decreases self.profiles@.len() - i,
        {
            if self.profiles[i].id == id {
                let ghost m = self@;
                assert(m.profiles[i as int].id == id);
                assert(m.has_profile(id));
                let ghost j = m.profile_index(id);
                assert(0 <= j < m.profiles.len() && m.profiles[j].id == id);
                assert(j == i) by {
                    if j < i {
                        assert(m.profiles[j].id < m.profiles[i as int].id);
                    } else if j > i {
                        assert(m.profiles[i as int].id < m.profiles[j].id);
                    }
                }
                return Some(i);
            }
            i += 1;
        }
        assert forall|k: int| 0 <= k < self@.profiles.len() implies self@.profiles[k].id != id by {
            assert(self@.profiles[k] == self.profiles@[k]@);
        }
        None
    }

    fn find_transfer(&self, id: u64) -> (r: Option<usize>)
        requires
            self.wf(),
        ensures
            match r {
                Some(i) => i < self@.transfers.len() && self@.has_transfer(id)
                    && self@.transfer(id) == self.transfers@[i as int]@,
                None => !self@.has_transfer(id),
            },
    {
        let mut i: usize = 0;
        while i < self.transfers.len()
            invariant
                self.wf(),
                i <= self.transfers@.len(),
                forall|k: int| 0 <= k < i ==> self.transfers@[k].id != id,
            decreases self.transfers@.len() - i,
        {
            if self.transfers[i].id == id {
                let ghost m = self@;
                assert(m.transfers[i as int].id == id);
                assert(m.has_transfer(id));
                let ghost j = choose|j: int| 0 <= j < m.transfers.len() && m.transfers[j].id == id;
                assert(0 <= j < m.transfers.len() && m.transfers[j].id == id);
                assert(j == i) by {
                    if j < i {
                        assert(m.transfers[j].id < m.transfers[i as int].id);
                    } else if j > i {
                        assert(m.transfers[i as int].id < m.transfers[j].id);
                    }
                }
                return Some(i);
            }
            i += 1;
        }
        assert forall|k: int| 0 <= k < self@.transfers.len() implies self@.transfers[k].id != id by {
            assert(self@.transfers[k] == self.transfers@[k]@);
        }
        None
    }

    fn find_offer(&self, id: u64) -> (r: Option<usize>)
        requires
            self.wf(),
        ensures
            match r {
                Some(i) => i < self@.offers.len() && self@.offer_index(id) == i
                    && self@.has_offer(id) && self@.offer(id) == self.offers@[i as int]@,
                None => !self@.has_offer(id),
            },
    {
        let mut i: usize = 0;
        while i < self.offers.len()
            invariant
                self.wf(),
                i <= self.offers@.len(),
                forall|k: int| 0 <= k < i ==> self.offers@[k].id != id,
            decreases self.offers@.len() - i,
        {
            if self.offers[i].id == id {
                let ghost m = self@;
                assert(m.offers[i as int].id == id);
                assert(m.has_offer(id));
                let ghost j = m.offer_index(id);
                assert(0 <= j < m.offers.len() && m.offers[j].id == id);
                assert(j == i) by {
                    if j < i {
                        assert(m.offers[j].id < m.offers[i as int].id);
                    } else if j > i {
                        assert(m.offers[i as int].id < m.offers[j].id);
                    }
                }
                return Some(i);
            }
            i += 1;
        }
        assert forall|k: int| 0 <= k < self@.offers.len() implies self@.offers[k].id != id by {
            assert(self@.offers[k] == self.offers@[k]@);
        }
        None
    }
    /// Hands out the next identifier.
    fn allocate_id(&mut self) -> (r: u64)
        requires
            old(self).wf(),
            old(self)@.last_id < u64::MAX,
        ensures
            r == old(self)@.last_id + 1,
            final(self)@ == (RegistryModel { last_id: r, ..old(self)@ }),
            final(self).profiles@ == old(self).profiles@,
            final(self).transfers@ == old(self).transfers@,
            final(self).offers@ == old(self).offers@,
    {
        self.last_id = self.last_id + 1;
        self.last_id
    }

    /// Creates a profile with status available and a fresh identifier,
    /// greater than every identifier issued before; `now` is its creation time.
    pub fn create_player_profile(&mut self, payload: PlayerProfilePayload, now: u64) -> (r: Result<PlayerProfile, ErrorKind>)
        requires
            old(self).wf(),
            old(self)@.last_id < u64::MAX,
        ensures
            final(self).wf(),
            (final(self)@, profile_result(r)) == create_profile_step(old(self)@, payload, now),
            r is Ok <==> profile_payload_valid(payload),
            r matches Ok(p) ==> p.transfer_status == TransferStatus::Available
                && old(self)@.ids_below(p.id as int),
    {
        if let Err(e) = validate_profile_payload(&payload) {
            return Err(e);
        }
        let id = self.allocate_id();
        let prof = PlayerProfile {
            id,
            name: payload.name,
            position: payload.position,
            current_team: payload.current_team,
            market_value: payload.market_value,
            transfer_status: TransferStatus::Available,
            contract_until: payload.contract_until,
            age: payload.age,
            nationality: payload.nationality,
            created_at: now,
        };
        let out = prof.copy();
        self.profiles.push(prof);
        assert(self@.profiles =~= old(self)@.profiles.push(out@));
        Ok(out)
    }
    /// Transfers a player directly from one team to another; `now` is the
    /// record's creation time. The transfer record is stored before the
    /// profile is moved to the destination team.
    pub fn create_player_transfer(&mut self, payload: PlayerTransferPayload, now: u64) -> (r: Result<PlayerTransfer, ErrorKind>)
        requires
            old(self).wf(),
            old(self)@.last_id < u64::MAX,
        ensures
            final(self).wf(),
            (final(self)@, transfer_result(r)) == direct_transfer_step(old(self)@, payload, now),
            transfer_payload_valid(payload) && old(self)@.has_profile(payload.player_id)
                && !eligible(old(self)@.profile(payload.player_id), payload.from_team@) ==> r
                == Err::<PlayerTransfer, ErrorKind>(ErrorKind::Conflict) && final(self)@ == old(self)@,
            r matches Ok(t) ==> {
                &&& final(self)@.has_profile(payload.player_id)
                &&& final(self)@.profile(payload.player_id).current_team == payload.to_team@
                &&& final(self)@.profile(payload.player_id).transfer_status == TransferStatus::Transferred
                &&& final(self)@.profile(payload.player_id).contract_until == payload.transfer_date
                    + payload.contract_duration
                &&& final(self)@.transfers == old(self)@.transfers.push(t@)
                &&& t.player_id == payload.player_id
            },
    {
        if let Err(e) = validate_transfer_payload(&payload) {
            return Err(e);
        }
        let idx = match self.find_profile(payload.player_id) {
            Some(i) => i,
            None => {
                return Err(ErrorKind::NotFound);
            },
        };
        let current = self.profiles[idx].copy();
        if !(current.transfer_status == TransferStatus::Available && current.current_team == payload.from_team) {
            return Err(ErrorKind::Conflict);
        }
        if payload.transfer_date > u64::MAX - payload.contract_duration {
            return Err(ErrorKind::Conflict);
        }
        let ghost m0 = self@;
        let id = self.allocate_id();
        let transfer = PlayerTransfer {
            id,
            player_id: payload.player_id,
            from_team: payload.from_team,
            to_team: payload.to_team.clone(),
            transfer_fee: payload.transfer_fee,
            transfer_date: payload.transfer_date,
            contract_duration: payload.contract_duration,
            created_at: now,
        };
        let out = transfer.copy();
        self.transfers.push(transfer);
        let mut updated = current;
        updated.transfer_status = TransferStatus::Transferred;
        updated.current_team = payload.to_team;
        updated.contract_until = payload.transfer_date + payload.contract_duration;
        self.profiles.set(idx, updated);
        proof {
            let m1 = self@;
            assert(m1.transfers =~= m0.transfers.push(out@));
            assert(m1.profiles =~= m0.profiles.update(idx as int, moved(m0.profile(payload.player_id), payload.to_team@, m1.profiles[idx as int].contract_until)));
            lemma_index_of_update_profile(m0, m1, payload.player_id, idx as int);
        }
        Ok(out)
    }

    /// Records a pending offer for an existing player; `now` is its creation time.
    pub fn create_transfer_offer(&mut self, payload: TransferOfferPayload, now: u64) -> (r: Result<TransferOffer, ErrorKind>)
        requires
            old(self).wf(),
            old(self)@.last_id < u64::MAX,
        ensures
            final(self).wf(),
            (final(self)@, offer_result(r)) == create_offer_step(old(self)@, payload, now),
    {
        if let Err(e) = validate_offer_payload(&payload) {
            return Err(e);
        }
        if self.find_profile(payload.player_id).is_none() {
            return Err(ErrorKind::NotFound);
        }
        let id = self.allocate_id();
        let offer = TransferOffer {
            id,
            player_id: payload.player_id,
            from_team: payload.from_team,
            to_team: payload.to_team,
            offer_amount: payload.offer_amount,
            offer_status: OfferStatus::Pending,
            created_at: now,
        };
        let out = offer.copy();
        self.offers.push(offer);
        assert(self@.offers =~= old(self)@.offers.push(out@));
        Ok(out)
    }

    /// Accepts a pending offer at time `now`: the offer becomes accepted, one
    /// transfer record is created with the offer's teams and amount as fee,
    /// and the player moves to the offer's destination team. The player's
    /// availability and team are not checked again; a contract that expired
    /// before `now` is a conflict.
    pub fn accept_transfer_offer(&mut self, offer_id: u64, now: u64) -> (r: Result<PlayerTransfer, ErrorKind>)
        requires
            old(self).wf(),
            old(self)@.last_id < u64::MAX,
        ensures
            final(self).wf(),
            (final(self)@, transfer_result(r)) == accept_offer_step(old(self)@, offer_id, now),
            old(self)@.has_offer(offer_id) && old(self)@.offer(offer_id).offer_status
                != OfferStatus::Pending ==> r == Err::<PlayerTransfer, ErrorKind>(ErrorKind::Conflict)
                && final(self)@.transfers == old(self)@.transfers,
            r matches Ok(t) ==> {
                let o = old(self)@.offer(offer_id);
                &&& final(self)@.has_offer(offer_id)
                &&& final(self)@.offer(offer_id).offer_status == OfferStatus::Accepted
                &&& final(self)@.transfers == old(self)@.transfers.push(t@)
                &&& t.player_id == o.player_id && t.transfer_fee == o.offer_amount
                &&& t@.to_team == o.to_team
                &&& final(self)@.profile(o.player_id).current_team == o.to_team
                &&& final(self)@.profile(o.player_id).transfer_status == TransferStatus::Transferred
                &&& final(self)@.profile(o.player_id).contract_until == t.transfer_date + t.contract_duration
            },
    {
        let oi = match self.find_offer(offer_id) {
            Some(i) => i,
            None => {
                return Err(ErrorKind::NotFound);
            },
        };
        let offer = self.offers[oi].copy();
        if offer.offer_status != OfferStatus::Pending {
            return Err(ErrorKind::Conflict);
        }
        let pi = match self.find_profile(offer.player_id) {
            Some(i) => i,
            None => {
                return Err(ErrorKind::NotFound);
            },
        };
        let current = self.profiles[pi].copy();
        if current.contract_until < now {
            return Err(ErrorKind::Conflict);
        }
        let ghost m0 = self@;
        let duration = current.contract_until - now;
        let id = self.allocate_id();
        let mut accepted = offer.copy();
        accepted.offer_status = OfferStatus::Accepted;
        self.offers.set(oi, accepted);
        let transfer = PlayerTransfer {
            id,
            player_id: offer.player_id,
            from_team: offer.from_team,
            to_team: offer.to_team.clone(),
            transfer_fee: offer.offer_amount,
            transfer_date: now,
            contract_duration: duration,
            created_at: now,
        };
        let out = transfer.copy();
        self.transfers.push(transfer);
        let mut updated = current;
        updated.transfer_status = TransferStatus::Transferred;
        updated.current_team = offer.to_team;
        updated.contract_until = now + duration;
        self.profiles.set(pi, updated);
        proof {
            let m1 = self@;
            assert(m1.transfers =~= m0.transfers.push(out@));
            assert(m1.offers =~= m0.offers.update(oi as int, resolved(m0.offer(offer_id), OfferStatus::Accepted)));
            assert(m1.profiles =~= m0.profiles.update(pi as int, moved(m0.profile(offer.player_id), offer.to_team@, (now + duration) as u64)));
            lemma_index_of_update_profile(m0, m1, offer.player_id, pi as int);
            lemma_index_of_update_offer(m0, m1, offer_id, oi as int);
        }
        Ok(out)
    }

    /// Rejects a pending offer; nothing else changes.
    pub fn reject_transfer_offer(&mut self, offer_id: u64) -> (r: Result<(), ErrorKind>)
        requires
            old(self).wf(),
        ensures
            final(self).wf(),
            (final(self)@, r) == reject_offer_step(old(self)@, offer_id),
            r is Ok ==> final(self)@.has_offer(offer_id)
                && final(self)@.offer(offer_id).offer_status == OfferStatus::Rejected
                && final(self)@.transfers == old(self)@.transfers,
    {
        let oi = match self.find_offer(offer_id) {
            Some(i) => i,
            None => {
                return Err(ErrorKind::NotFound);
            },
        };
        let mut offer = self.offers[oi].copy();
        if offer.offer_status != OfferStatus::Pending {
            return Err(ErrorKind::Conflict);
        }
        let ghost m0 = self@;
        offer.offer_status = OfferStatus::Rejected;
        self.offers.set(oi, offer);
        proof {
            let m1 = self@;
            assert(m1.offers =~= m0.offers.update(oi as int, resolved(m0.offer(offer_id), OfferStatus::Rejected)));
            assert(m1.profiles =~= m0.profiles);
            assert(m1.transfers =~= m0.transfers);
            lemma_index_of_update_offer(m0, m1, offer_id, oi as int);
        }
        Ok(())
    }

    /// `true` when identifiers increase strictly along `v` and none exceeds `bound`.
    fn profile_ids_ok(v: &Vec<PlayerProfile>, bound: u64) -> (r: bool)
        ensures
            r == profile_ids_ok(v@.map_values(|p: PlayerProfile| p@), bound + 1),
    {
        let ghost s = v@.map_values(|p: PlayerProfile| p@);
        let mut i: usize = 0;
        while i < v.len()
            invariant
                s == v@.map_values(|p: PlayerProfile| p@),
                i <= v@.len(),
                forall|a: int, b: int| 0 <= a < b < i ==> s[a].id < s[b].id,
                forall|a: int| 0 <= a < i ==> s[a].id <= bound,
            decreases v@.len() - i,
        {
            if v[i].id > bound {
                assert(s[i as int].id > bound);
                return false;
            }
            if i > 0 && v[i - 1].id >= v[i].id {
                assert(s[i - 1].id >= s[i as int].id);
                return false;
            }
            assert forall|a: int, b: int| 0 <= a < b < i + 1 implies s[a].id < s[b].id by {
                if b == i && a < i - 1 {
                    assert(s[a].id < s[i - 1].id);
                }
            }
            i += 1;
        }
        true
    }

    /// `true` when identifiers increase strictly along `v` and none exceeds `bound`.
    fn transfer_ids_ok(v: &Vec<PlayerTransfer>, bound: u64) -> (r: bool)
        ensures
            r == transfer_ids_ok(v@.map_values(|t: PlayerTransfer| t@), bound + 1),
    {
        let ghost s = v@.map_values(|t: PlayerTransfer| t@);
        let mut i: usize = 0;
        while i < v.len()
            invariant
                s == v@.map_values(|t: PlayerTransfer| t@),
                i <= v@.len(),
                forall|a: int, b: int| 0 <= a < b < i ==> s[a].id < s[b].id,
                forall|a: int| 0 <= a < i ==> s[a].id <= bound,
            decreases v@.len() - i,
        {
            if v[i].id > bound {
                assert(s[i as int].id > bound);
                return false;
            }
            if i > 0 && v[i - 1].id >= v[i].id {
                assert(s[i - 1].id >= s[i as int].id);
                return false;
            }
            assert forall|a: int, b: int| 0 <= a < b < i + 1 implies s[a].id < s[b].id by {
                if b == i && a < i - 1 {
                    assert(s[a].id < s[i - 1].id);
                }
            }
            i += 1;
        }
        true
    }

    /// `true` when identifiers increase strictly along `v` and none exceeds `bound`.
    fn offer_ids_ok(v: &Vec<TransferOffer>, bound: u64) -> (r: bool)
        ensures
            r == offer_ids_ok(v@.map_values(|o: TransferOffer| o@), bound + 1),
    {
        let ghost s = v@.map_values(|o: TransferOffer| o@);
        let mut i: usize = 0;
        while i < v.len()
            invariant
                s == v@.map_values(|o: TransferOffer| o@),
                i <= v@.len(),
                forall|a: int, b: int| 0 <= a < b < i ==> s[a].id < s[b].id,
                forall|a: int| 0 <= a < i ==> s[a].id <= bound,
            decreases v@.len() - i,
        {
            if v[i].id > bound {
                assert(s[i as int].id > bound);
                return false;
            }
            if i > 0 && v[i - 1].id >= v[i].id {
                assert(s[i - 1].id >= s[i as int].id);
                return false;
            }
            assert forall|a: int, b: int| 0 <= a < b < i + 1 implies s[a].id < s[b].id by {
                if b == i && a < i - 1 {
                    assert(s[a].id < s[i - 1].id);
                }
            }
            i += 1;
        }
        true
    }

    /// `true` when no record of `a` shares its identifier with one of `b`.
    fn profile_transfer_ids_disjoint(a: &Vec<PlayerProfile>, b: &Vec<PlayerTransfer>) -> (r: bool)
        ensures
            r == profile_transfer_ids_disjoint(a@.map_values(|p: PlayerProfile| p@), b@.map_values(|t: PlayerTransfer| t@)),
    {
        let ghost sa = a@.map_values(|p: PlayerProfile| p@);
        let ghost sb = b@.map_values(|t: PlayerTransfer| t@);
        let mut i: usize = 0;
        while i < a.len()
            invariant
                sa == a@.map_values(|p: PlayerProfile| p@),
                sb == b@.map_values(|t: PlayerTransfer| t@),
                i <= a@.len(),
                forall|k: int, l: int| 0 <= k < i && 0 <= l < sb.len() ==> sa[k].id != sb[l].id,
            decreases a@.len() - i,
        {
            let mut j: usize = 0;
            while j < b.len()
                invariant
                    sa == a@.map_values(|p: PlayerProfile| p@),
                    sb == b@.map_values(|t: PlayerTransfer| t@),
                    i < a@.len(),
                    j <= b@.len(),
                    forall|k: int, l: int| 0 <= k < i && 0 <= l < sb.len() ==> sa[k].id != sb[l].id,
                    forall|l: int| 0 <= l < j ==> sa[i as int].id != sb[l].id,
                decreases b@.len() - j,
            {
                if a[i].id == b[j].id {
                    assert(sa[i as int].id == sb[j as int].id);
                    return false;
                }
                j += 1;
            }
            i += 1;
        }
        true
    }

    /// `true` when no record of `a` shares its identifier with one of `b`.
    fn profile_offer_ids_disjoint(a: &Vec<PlayerProfile>, b: &Vec<TransferOffer>) -> (r: bool)
        ensures
            r == profile_offer_ids_disjoint(a@.map_values(|p: PlayerProfile| p@), b@.map_values(|o: TransferOffer| o@)),
    {
        let ghost sa = a@.map_values(|p: PlayerProfile| p@);
        let ghost sb = b@.map_values(|o: TransferOffer| o@);
        let mut i: usize = 0;
        while i < a.len()
            invariant
                sa == a@.map_values(|p: PlayerProfile| p@),
                sb == b@.map_values(|o: TransferOffer| o@),
                i <= a@.len(),
                forall|k: int, l: int| 0 <= k < i && 0 <= l < sb.len() ==> sa[k].id != sb[l].id,
            decreases a@.len() - i,
        {
            let mut j: usize = 0;
            while j < b.len()
                invariant
                    sa == a@.map_values(|p: PlayerProfile| p@),
                    sb == b@.map_values(|o: TransferOffer| o@),
                    i < a@.len(),
                    j <= b@.len(),
                    forall|k: int, l: int| 0 <= k < i && 0 <= l < sb.len() ==> sa[k].id != sb[l].id,
                    forall|l: int| 0 <= l < j ==> sa[i as int].id != sb[l].id,
                decreases b@.len() - j,
            {
                if a[i].id == b[j].id {
                    assert(sa[i as int].id == sb[j as int].id);
                    return false;
                }
                j += 1;
            }
            i += 1;
        }
        true
    }

    /// `true` when no record of `a` shares its identifier with one of `b`.
    fn transfer_offer_ids_disjoint(a: &Vec<PlayerTransfer>, b: &Vec<TransferOffer>) -> (r: bool)
        ensures
            r == transfer_offer_ids_disjoint(a@.map_values(|t: PlayerTransfer| t@), b@.map_values(|o: TransferOffer| o@)),
    {
        let ghost sa = a@.map_values(|t: PlayerTransfer| t@);
        let ghost sb = b@.map_values(|o: TransferOffer| o@);
        let mut i: usize = 0;
        while i < a.len()
            invariant
                sa == a@.map_values(|t: PlayerTransfer| t@),
                sb == b@.map_values(|o: TransferOffer| o@),
                i <= a@.len(),
                forall|k: int, l: int| 0 <= k < i && 0 <= l < sb.len() ==> sa[k].id != sb[l].id,
            decreases a@.len() - i,
        {
            let mut j: usize = 0;
            while j < b.len()
                invariant
                    sa == a@.map_values(|t: PlayerTransfer| t@),
                    sb == b@.map_values(|o: TransferOffer| o@),
                    i < a@.len(),
                    j <= b@.len(),
                    forall|k: int, l: int| 0 <= k < i && 0 <= l < sb.len() ==> sa[k].id != sb[l].id,
                    forall|l: int| 0 <= l < j ==> sa[i as int].id != sb[l].id,
                decreases b@.len() - j,
            {
                if a[i].id == b[j].id {
                    assert(sa[i as int].id == sb[j as int].id);
                    return false;
                }
                j += 1;
            }
            i += 1;
        }
        true
    }

    /// Rebuilds a registry from stored records and the last identifier handed
    /// out; `None` when identifiers do not increase strictly along each
    /// collection, one exceeds `last_id`, or two collections share one.
    pub fn from_records(
        profiles: Vec<PlayerProfile>,
        transfers: Vec<PlayerTransfer>,
        offers: Vec<TransferOffer>,
        last_id: u64,
    ) -> (r: Option<Registry>)
        ensures
            ({
                let m = RegistryModel {
                    profiles: profiles@.map_values(|p: PlayerProfile| p@),
                    transfers: transfers@.map_values(|t: PlayerTransfer| t@),
                    offers: offers@.map_values(|o: TransferOffer| o@),
                    last_id,
                };
                &&& r is Some <==> m.wf()
                &&& r matches Some(g) ==> g.wf() && g@ == m
            }),
    {
        let ghost m = RegistryModel {
            profiles: profiles@.map_values(|p: PlayerProfile| p@),
            transfers: transfers@.map_values(|t: PlayerTransfer| t@),
            offers: offers@.map_values(|o: TransferOffer| o@),
            last_id,
        };
        let a = Self::profile_ids_ok(&profiles, last_id);
        let b = Self::transfer_ids_ok(&transfers, last_id);
        let c = Self::offer_ids_ok(&offers, last_id);
        let d = Self::profile_transfer_ids_disjoint(&profiles, &transfers);
        let e = Self::profile_offer_ids_disjoint(&profiles, &offers);
        let f = Self::transfer_offer_ids_disjoint(&transfers, &offers);
        assert(m.wf() <==> (a && b && c && d && e && f));
        if a && b && c && d && e && f {
            let g = Registry { profiles, transfers, offers, last_id };
            assert(g@ == m);
            Some(g)
        } else {
            None
        }
    }

    /// All profiles in order of insertion; `NotFound` when there are none.
    pub fn get_player_profiles(&self) -> (r: Result<Vec<PlayerProfile>, ErrorKind>)
        ensures
            self@.profiles.len() == 0 <==> r == Err::<Vec<PlayerProfile>, ErrorKind>(ErrorKind::NotFound),
            r is Ok <==> self@.profiles.len() > 0,
            r matches Ok(v) ==> v@.map_values(|p: PlayerProfile| p@) == self@.profiles,
    {
        let mut out: Vec<PlayerProfile> = Vec::new();
        let mut i: usize = 0;
        while i < self.profiles.len()
            invariant
                i <= self.profiles@.len(),
                out@.map_values(|p: PlayerProfile| p@) =~= self@.profiles.subrange(0, i as int),
            decreases self.profiles@.len() - i,
        {
            let ghost before = out@;
            out.push(self.profiles[i].copy());
            assert(out@.map_values(|p: PlayerProfile| p@) =~= before.map_values(|p: PlayerProfile| p@).push(self@.profiles[i as int]));
            assert(self@.profiles.subrange(0, i + 1) =~= self@.profiles.subrange(0, i as int).push(self@.profiles[i as int]));
            i += 1;
        }
        assert(self@.profiles.subrange(0, i as int) =~= self@.profiles);
        if out.len() == 0 {
            Err(ErrorKind::NotFound)
        } else {
            Ok(out)
        }
    }

    /// The profile with identifier `id`.
    pub fn get_player_profile_by_id(&self, id: u64) -> (r: Result<PlayerProfile, ErrorKind>)
        requires
            self.wf(),
        ensures
            self@.has_profile(id) <==> r is Ok,
            r is Err ==> r == Err::<PlayerProfile, ErrorKind>(ErrorKind::NotFound),
            r matches Ok(p) ==> p@ == self@.profile(id),
    {
        match self.find_profile(id) {
            Some(i) => Ok(self.profiles[i].copy()),
            None => Err(ErrorKind::NotFound),
        }
    }

    /// The profiles whose current team is `team_name`, in order of insertion;
    /// `NotFound` when there are none.
    pub fn get_player_profiles_by_team(&self, team_name: &String) -> (r: Result<Vec<PlayerProfile>, ErrorKind>)
        ensures
            members_of(self@.profiles, team_name@).len() == 0 <==> r
                == Err::<Vec<PlayerProfile>, ErrorKind>(ErrorKind::NotFound),
            r is Ok <==> members_of(self@.profiles, team_name@).len() > 0,
            r matches Ok(v) ==> v@.map_values(|p: PlayerProfile| p@) == members_of(self@.profiles, team_name@),
    {
        let mut out: Vec<PlayerProfile> = Vec::new();
        let mut i: usize = 0;
        while i < self.profiles.len()
            invariant
                i <= self.profiles@.len(),
                out@.map_values(|p: PlayerProfile| p@) =~= members_of(self@.profiles.subrange(0, i as int), team_name@),
            decreases self.profiles@.len() - i,
        {
            let ghost before = out@;
            assert(self@.profiles.subrange(0, i + 1).drop_last() =~= self@.profiles.subrange(0, i as int));
            if self.profiles[i].current_team == *team_name {
                out.push(self.profiles[i].copy());
                assert(out@.map_values(|p: PlayerProfile| p@) =~= before.map_values(|p: PlayerProfile| p@).push(self@.profiles[i as int]));
            }
            i += 1;
        }
        assert(self@.profiles.subrange(0, i as int) =~= self@.profiles);
        if out.len() == 0 {
            Err(ErrorKind::NotFound)
        } else {
            Ok(out)
        }
    }

    /// All transfers in order of insertion; `NotFound` when there are none.
    pub fn get_player_transfers(&self) -> (r: Result<Vec<PlayerTransfer>, ErrorKind>)
        ensures
            self@.transfers.len() == 0 <==> r == Err::<Vec<PlayerTransfer>, ErrorKind>(ErrorKind::NotFound),
            r is Ok <==> self@.transfers.len() > 0,
            r matches Ok(v) ==> v@.map_values(|t: PlayerTransfer| t@) == self@.transfers,
    {
        let mut out: Vec<PlayerTransfer> = Vec::new();
        let mut i: usize = 0;
        while i < self.transfers.len()
            invariant
                i <= self.transfers@.len(),
                out@.map_values(|t: PlayerTransfer| t@) =~= self@.transfers.subrange(0, i as int),
            decreases self.transfers@.len() - i,
        {
            let ghost before = out@;
            out.push(self.transfers[i].copy());
            assert(out@.map_values(|t: PlayerTransfer| t@) =~= before.map_values(|t: PlayerTransfer| t@).push(self@.transfers[i as int]));
            assert(self@.transfers.subrange(0, i + 1) =~= self@.transfers.subrange(0, i as int).push(self@.transfers[i as int]));
            i += 1;
        }
        assert(self@.transfers.subrange(0, i as int) =~= self@.transfers);
        if out.len() == 0 {
            Err(ErrorKind::NotFound)
        } else {
            Ok(out)
        }
    }

    /// The transfer with identifier `id`.
    pub fn get_player_transfer_by_id(&self, id: u64) -> (r: Result<PlayerTransfer, ErrorKind>)
        requires
            self.wf(),
        ensures
            self@.has_transfer(id) <==> r is Ok,
            r is Err ==> r == Err::<PlayerTransfer, ErrorKind>(ErrorKind::NotFound),
            r matches Ok(t) ==> t@ == self@.transfer(id),
    {
        match self.find_transfer(id) {
            Some(i) => Ok(self.transfers[i].copy()),
            None => Err(ErrorKind::NotFound),
        }
    }

    /// All offers in order of insertion; `NotFound` when there are none.
    pub fn get_transfer_offers(&self) -> (r: Result<Vec<TransferOffer>, ErrorKind>)
        ensures
            self@.offers.len() == 0 <==> r == Err::<Vec<TransferOffer>, ErrorKind>(ErrorKind::NotFound),
            r is Ok <==> self@.offers.len() > 0,
            r matches Ok(v) ==> v@.map_values(|o: TransferOffer| o@) == self@.offers,
    {
        let mut out: Vec<TransferOffer> = Vec::new();
        let mut i: usize = 0;
        while i < self.offers.len()
            invariant
                i <= self.offers@.len(),
                out@.map_values(|o: TransferOffer| o@) =~= self@.offers.subrange(0, i as int),
            decreases self.offers@.len() - i,
        {
            let ghost before = out@;
            out.push(self.offers[i].copy());
            assert(out@.map_values(|o: TransferOffer| o@) =~= before.map_values(|o: TransferOffer| o@).push(self@.offers[i as int]));
            assert(self@.offers.subrange(0, i + 1) =~= self@.offers.subrange(0, i as int).push(self@.offers[i as int]));
            i += 1;
        }
        assert(self@.offers.subrange(0, i as int) =~= self@.offers);
        if out.len() == 0 {
            Err(ErrorKind::NotFound)
        } else {
            Ok(out)
        }
    }

    /// The offer with identifier `id`.
    pub fn get_transfer_offer_by_id(&self, id: u64) -> (r: Result<TransferOffer, ErrorKind>)
        requires
            self.wf(),
        ensures
            self@.has_offer(id) <==> r is Ok,
            r is Err ==> r == Err::<TransferOffer, ErrorKind>(ErrorKind::NotFound),
            r matches Ok(o) ==> o@ == self@.offer(id),
    {
        match self.find_offer(id) {
            Some(i) => Ok(self.offers[i].copy()),
            None => Err(ErrorKind::NotFound),
        }
    }
}

} // verus!

verus! {

/// In a well-formed state, a profile moved in place keeps its index, so it
/// is found where it was.
proof fn lemma_index_of_update_profile(m0: RegistryModel, m1: RegistryModel, id: u64, i: int)
    requires
        m0.wf(),
        0 <= i < m0.profiles.len(),
        m0.profiles[i].id == id,
        m1.profiles.len() == m0.profiles.len(),
        forall|k: int| 0 <= k < m0.profiles.len() ==> m1.profiles[k].id == m0.profiles[k].id,
    ensures
        m0.has_profile(id),
        m0.profile_index(id) == i,
        m1.has_profile(id),
        m1.profile_index(id) == i,
{
    assert(m0.has_profile(id));
    assert(m1.profiles[i].id == id);
    assert(m1.has_profile(id));
    let j0 = m0.profile_index(id);
    let j1 = m1.profile_index(id);
    if j0 < i {
        assert(m0.profiles[j0].id < m0.profiles[i].id);
    } else if j0 > i {
        assert(m0.profiles[i].id < m0.profiles[j0].id);
    }
    assert(m1.profiles[j1].id == m0.profiles[j1].id);
    if j1 < i {
        assert(m0.profiles[j1].id < m0.profiles[i].id);
    } else if j1 > i {
        assert(m0.profiles[i].id < m0.profiles[j1].id);
    }
}

} // verus!

verus! {

/// In a well-formed state, an offer resolved in place keeps its index.
pub(crate) proof fn lemma_index_of_update_offer(m0: RegistryModel, m1: RegistryModel, id: u64, i: int)
    requires
        m0.wf(),
        0 <= i < m0.offers.len(),
        m0.offers[i].id == id,
        m1.offers.len() == m0.offers.len(),
        forall|k: int| 0 <= k < m0.offers.len() ==> m1.offers[k].id == m0.offers[k].id,
    ensures
        m0.has_offer(id),
        m0.offer_index(id) == i,
        m1.has_offer(id),
        m1.offer_index(id) == i,
{
    assert(m0.has_offer(id));
    assert(m1.offers[i].id == id);
    assert(m1.has_offer(id));
    let j0 = m0.offer_index(id);
    let j1 = m1.offer_index(id);
    if j0 < i {
        assert(m0.offers[j0].id < m0.offers[i].id);
    } else if j0 > i {
        assert(m0.offers[i].id < m0.offers[j0].id);
    }
    assert(m1.offers[j1].id == m0.offers[j1].id);
    if j1 < i {
        assert(m0.offers[j1].id < m0.offers[i].id);
    } else if j1 > i {
        assert(m0.offers[i].id < m0.offers[j1].id);
    }
}

} // verus!
