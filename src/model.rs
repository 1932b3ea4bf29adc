use vstd::prelude::*;

verus! {

/// Where a player stands with respect to transfers.
#[derive(Clone, Copy, Debug, PartialEq, Eq, Structural)]
pub enum TransferStatus {
    Available,
    Transferred,
}

/// Where an offer stands: it is resolved at most once.
#[derive(Clone, Copy, Debug, PartialEq, Eq, Structural)]
pub enum OfferStatus {
    Pending,
    Accepted,
    Rejected,
}

/// The kinds of failure an operation can report. None of them changes state.
#[derive(Clone, Copy, Debug, PartialEq, Eq, Structural)]
pub enum ErrorKind {
    /// The request carried a field that breaks a validation rule.
    InvalidPayload,
    /// A referenced record, or any record for a listing, is absent.
    NotFound,
    /// The current state forbids the transition (wrong status or team).
    Conflict,
}

impl ErrorKind {
    /// A short human-readable description of the failure.
    pub fn describe(&self) -> (r: &'static str) {
        match self {
            ErrorKind::InvalidPayload => "invalid payload",
            ErrorKind::NotFound => "not found",
            ErrorKind::Conflict => "conflict with the current state",
        }
    }
}

/// A player's profile.
#[derive(Clone, Debug)]
pub struct PlayerProfile {
    pub id: u64,
    pub name: String,
    pub position: String,
    pub current_team: String,
    pub market_value: u64,
    pub transfer_status: TransferStatus,
    pub contract_until: u64,
    pub age: u32,
    pub nationality: String,
    pub created_at: u64,
}

/// The mathematical value of a [`PlayerProfile`].
pub struct ProfileModel {
    pub id: u64,
    pub name: Seq<char>,
    pub position: Seq<char>,
    pub current_team: Seq<char>,
    pub market_value: u64,
    pub transfer_status: TransferStatus,
    pub contract_until: u64,
    pub age: u32,
    pub nationality: Seq<char>,
    pub created_at: u64,
}

impl View for PlayerProfile {
    type V = ProfileModel;

    open spec fn view(&self) -> ProfileModel {
        ProfileModel {
            id: self.id,
            name: self.name@,
            position: self.position@,
            current_team: self.current_team@,
            market_value: self.market_value,
            transfer_status: self.transfer_status,
            contract_until: self.contract_until,
            age: self.age,
            nationality: self.nationality@,
            created_at: self.created_at,
        }
    }
}

impl PlayerProfile {
    /// A copy with the same value.
    pub fn copy(&self) -> (r: PlayerProfile)
        ensures
            r@ == self@,
    {
        PlayerProfile {
            id: self.id,
            name: self.name.clone(),
            position: self.position.clone(),
            current_team: self.current_team.clone(),
            market_value: self.market_value,
            transfer_status: self.transfer_status,
            contract_until: self.contract_until,
            age: self.age,
            nationality: self.nationality.clone(),
            created_at: self.created_at,
        }
    }
}

/// A completed transfer of a player from one team to another.
#[derive(Clone, Debug)]
pub struct PlayerTransfer {
    pub id: u64,
    pub player_id: u64,
    pub from_team: String,
    pub to_team: String,
    pub transfer_fee: u64,
    pub transfer_date: u64,
    pub contract_duration: u64,
    pub created_at: u64,
}

/// The mathematical value of a [`PlayerTransfer`].
pub struct TransferModel {
    pub id: u64,
    pub player_id: u64,
    pub from_team: Seq<char>,
    pub to_team: Seq<char>,
    pub transfer_fee: u64,
    pub transfer_date: u64,
    pub contract_duration: u64,
    pub created_at: u64,
}

impl View for PlayerTransfer {
    type V = TransferModel;

    open spec fn view(&self) -> TransferModel {
        TransferModel {
            id: self.id,
            player_id: self.player_id,
            from_team: self.from_team@,
            to_team: self.to_team@,
            transfer_fee: self.transfer_fee,
            transfer_date: self.transfer_date,
            contract_duration: self.contract_duration,
            created_at: self.created_at,
        }
    }
}

impl PlayerTransfer {
    /// A copy with the same value.
    pub fn copy(&self) -> (r: PlayerTransfer)
        ensures
            r@ == self@,
    {
        PlayerTransfer {
            id: self.id,
            player_id: self.player_id,
            from_team: self.from_team.clone(),
            to_team: self.to_team.clone(),
            transfer_fee: self.transfer_fee,
            transfer_date: self.transfer_date,
            contract_duration: self.contract_duration,
            created_at: self.created_at,
        }
    }
}

/// A proposed transfer awaiting resolution.
#[derive(Clone, Debug)]
pub struct TransferOffer {
    pub id: u64,
    pub player_id: u64,
    pub from_team: String,
    pub to_team: String,
    pub offer_amount: u64,
    pub offer_status: OfferStatus,
    pub created_at: u64,
}

/// The mathematical value of a [`TransferOffer`].
pub struct OfferModel {
    pub id: u64,
    pub player_id: u64,
    pub from_team: Seq<char>,
    pub to_team: Seq<char>,
    pub offer_amount: u64,
    pub offer_status: OfferStatus,
    pub created_at: u64,
}

impl View for TransferOffer {
    type V = OfferModel;

    open spec fn view(&self) -> OfferModel {
        OfferModel {
            id: self.id,
            player_id: self.player_id,
            from_team: self.from_team@,
            to_team: self.to_team@,
            offer_amount: self.offer_amount,
            offer_status: self.offer_status,
            created_at: self.created_at,
        }
    }
}

impl TransferOffer {
    /// A copy with the same value.
    pub fn copy(&self) -> (r: TransferOffer)
        ensures
            r@ == self@,
    {
        TransferOffer {
            id: self.id,
            player_id: self.player_id,
            from_team: self.from_team.clone(),
            to_team: self.to_team.clone(),
            offer_amount: self.offer_amount,
            offer_status: self.offer_status,
            created_at: self.created_at,
        }
    }
}

/// A request to create a player profile.
#[derive(Clone, Debug)]
pub struct PlayerProfilePayload {
    pub name: String,
    pub position: String,
    pub current_team: String,
    pub market_value: u64,
    pub contract_until: u64,
    pub age: u32,
    pub nationality: String,
}

/// A request for a direct transfer.
#[derive(Clone, Debug)]
pub struct PlayerTransferPayload {
    pub player_id: u64,
    pub from_team: String,
    pub to_team: String,
    pub transfer_fee: u64,
    pub transfer_date: u64,
    pub contract_duration: u64,
}

/// A request to make a transfer offer.
#[derive(Clone, Debug)]
pub struct TransferOfferPayload {
    pub player_id: u64,
    pub from_team: String,
    pub to_team: String,
    pub offer_amount: u64,
}

/// A profile request is valid when name, position and team are non-empty
/// and the market value is positive.
pub open spec fn profile_payload_valid(p: PlayerProfilePayload) -> bool {
    &&& p.name@.len() > 0
    &&& p.position@.len() > 0
    &&& p.current_team@.len() > 0
    &&& p.market_value > 0
}

/// A direct transfer request is valid when fee and duration are positive
/// and the two teams differ.
pub open spec fn transfer_payload_valid(p: PlayerTransferPayload) -> bool {
    &&& p.transfer_fee > 0
    &&& p.contract_duration > 0
    &&& p.from_team@ != p.to_team@
}

/// An offer request is valid when the amount is positive.
pub open spec fn offer_payload_valid(p: TransferOfferPayload) -> bool {
    p.offer_amount > 0
}

/// Checks a profile request.
pub fn validate_profile_payload(p: &PlayerProfilePayload) -> (r: Result<(), ErrorKind>)
    ensures
        r is Ok <==> profile_payload_valid(*p),
        r is Err ==> r == Err::<(), ErrorKind>(ErrorKind::InvalidPayload),
{
    if p.name.as_str().is_empty() || p.position.as_str().is_empty() || p.current_team.as_str().is_empty()
        || p.market_value == 0 {
        Err(ErrorKind::InvalidPayload)
    } else {
        Ok(())
    }
}

/// Checks a direct transfer request.
pub fn validate_transfer_payload(p: &PlayerTransferPayload) -> (r: Result<(), ErrorKind>)
    ensures
        r is Ok <==> transfer_payload_valid(*p),
        r is Err ==> r == Err::<(), ErrorKind>(ErrorKind::InvalidPayload),
{
    if p.transfer_fee == 0 || p.contract_duration == 0 {
        Err(ErrorKind::InvalidPayload)
    } else if p.from_team == p.to_team {
        Err(ErrorKind::InvalidPayload)
    } else {
        Ok(())
    }
}

/// Checks an offer request.
pub fn validate_offer_payload(p: &TransferOfferPayload) -> (r: Result<(), ErrorKind>)
    ensures
        r is Ok <==> offer_payload_valid(*p),
        r is Err ==> r == Err::<(), ErrorKind>(ErrorKind::InvalidPayload),
{
    if p.offer_amount == 0 {
        Err(ErrorKind::InvalidPayload)
    } else {
        Ok(())
    }
}

} // verus!
