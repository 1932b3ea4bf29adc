use rugby_league_backend::model::{
    ErrorKind, OfferStatus, PlayerProfilePayload, PlayerTransferPayload, TransferOfferPayload,
    TransferStatus, validate_offer_payload, validate_profile_payload, validate_transfer_payload,
};
use rugby_league_backend::registry::Registry;

fn profile_payload(name: &str, team: &str, value: u64, until: u64) -> PlayerProfilePayload {
    PlayerProfilePayload {
        name: name.to_string(),
        position: "Prop".to_string(),
        current_team: team.to_string(),
        market_value: value,
        contract_until: until,
        age: 25,
        nationality: "NZ".to_string(),
    }
}

fn transfer_payload(player_id: u64, from: &str, to: &str, fee: u64, date: u64, duration: u64) -> PlayerTransferPayload {
    PlayerTransferPayload {
        player_id,
        from_team: from.to_string(),
        to_team: to.to_string(),
        transfer_fee: fee,
        transfer_date: date,
        contract_duration: duration,
    }
}

fn offer_payload(player_id: u64, from: &str, to: &str, amount: u64) -> TransferOfferPayload {
    TransferOfferPayload {
        player_id,
        from_team: from.to_string(),
        to_team: to.to_string(),
        offer_amount: amount,
    }
}

#[test]
fn profile_then_direct_transfer() {
    let mut reg = Registry::new();
    let p = reg.create_player_profile(profile_payload("A", "X", 100, 1000), 10).unwrap();
    assert_eq!(p.id, 1);
    assert_eq!(p.transfer_status, TransferStatus::Available);
    assert_eq!(p.name, "A");
    assert_eq!(p.position, "Prop");
    assert_eq!(p.current_team, "X");
    assert_eq!(p.market_value, 100);
    assert_eq!(p.contract_until, 1000);
    assert_eq!(p.age, 25);
    assert_eq!(p.nationality, "NZ");
    assert_eq!(p.created_at, 10);

    let t = reg.create_player_transfer(transfer_payload(1, "X", "Y", 50, 200, 300), 20).unwrap();
    assert_eq!(t.id, 2);
    assert_eq!(t.player_id, 1);
    assert_eq!(t.from_team, "X");
    assert_eq!(t.to_team, "Y");
    assert_eq!(t.transfer_fee, 50);
    assert_eq!(t.transfer_date, 200);
    assert_eq!(t.contract_duration, 300);
    assert_eq!(t.created_at, 20);

    let p = reg.get_player_profile_by_id(1).unwrap();
    assert_eq!(p.current_team, "Y");
    assert_eq!(p.transfer_status, TransferStatus::Transferred);
    assert_eq!(p.contract_until, 500);
    assert_eq!(reg.get_player_transfers().unwrap().len(), 1);
}

#[test]
fn offer_then_accept() {
    let mut reg = Registry::new();
    reg.create_player_profile(profile_payload("A", "X", 100, 1000), 10).unwrap();
    reg.create_player_transfer(transfer_payload(1, "X", "Y", 50, 200, 300), 20).unwrap();
    let o = reg.create_transfer_offer(offer_payload(1, "Y", "Z", 75), 30).unwrap();
    assert_eq!(o.id, 3);
    assert_eq!(o.offer_status, OfferStatus::Pending);
    assert_eq!(o.offer_amount, 75);

    let t = reg.accept_transfer_offer(3, 300).unwrap();
    assert_eq!(t.id, 4);
    assert_eq!(t.transfer_fee, 75);
    assert_eq!(t.player_id, 1);
    assert_eq!(t.from_team, "Y");
    assert_eq!(t.to_team, "Z");
    assert_eq!(t.transfer_date, 300);
    assert_eq!(t.contract_duration, 200);

    assert_eq!(reg.get_transfer_offer_by_id(3).unwrap().offer_status, OfferStatus::Accepted);
    let p = reg.get_player_profile_by_id(1).unwrap();
    assert_eq!(p.current_team, "Z");
    assert_eq!(p.transfer_status, TransferStatus::Transferred);
    assert_eq!(p.contract_until, 500);
    assert_eq!(reg.get_player_transfers().unwrap().len(), 2);
    assert_eq!(reg.get_player_transfer_by_id(4).unwrap().transfer_fee, 75);
}

#[test]
fn ids_increase_across_kinds() {
    let mut reg = Registry::new();
    let a = reg.create_player_profile(profile_payload("A", "X", 1, 10), 0).unwrap();
    let o = reg.create_transfer_offer(offer_payload(a.id, "X", "Y", 5), 0).unwrap();
    let b = reg.create_player_profile(profile_payload("B", "X", 1, 10), 0).unwrap();
    assert_eq!((a.id, o.id, b.id), (1, 2, 3));
    assert_eq!(reg.last_id(), 3);
}

#[test]
fn invalid_profiles_are_rejected() {
    let mut reg = Registry::new();
    assert_eq!(reg.create_player_profile(profile_payload("", "X", 1, 10), 0).unwrap_err(), ErrorKind::InvalidPayload);
    assert_eq!(reg.create_player_profile(profile_payload("A", "", 1, 10), 0).unwrap_err(), ErrorKind::InvalidPayload);
    assert_eq!(reg.create_player_profile(profile_payload("A", "X", 0, 10), 0).unwrap_err(), ErrorKind::InvalidPayload);
    let mut p = profile_payload("A", "X", 1, 10);
    p.position = String::new();
    assert_eq!(validate_profile_payload(&p), Err(ErrorKind::InvalidPayload));
    assert_eq!(reg.last_id(), 0);
    assert_eq!(reg.get_player_profiles().unwrap_err(), ErrorKind::NotFound);
}

#[test]
fn invalid_transfers_are_rejected() {
    let mut reg = Registry::new();
    reg.create_player_profile(profile_payload("A", "X", 100, 1000), 0).unwrap();
    assert_eq!(reg.create_player_transfer(transfer_payload(1, "X", "Y", 0, 200, 300), 0).unwrap_err(), ErrorKind::InvalidPayload);
    assert_eq!(reg.create_player_transfer(transfer_payload(1, "X", "Y", 5, 200, 0), 0).unwrap_err(), ErrorKind::InvalidPayload);
    assert_eq!(reg.create_player_transfer(transfer_payload(1, "X", "X", 5, 200, 300), 0).unwrap_err(), ErrorKind::InvalidPayload);
    assert_eq!(reg.create_player_transfer(transfer_payload(1, "X", "Y", 5, u64::MAX, 1), 0).unwrap_err(), ErrorKind::Conflict);
    assert_eq!(validate_transfer_payload(&transfer_payload(1, "X", "Y", 5, u64::MAX, 1)), Ok(()));
    assert_eq!(reg.create_player_transfer(transfer_payload(9, "X", "Y", 5, 200, 300), 0).unwrap_err(), ErrorKind::NotFound);
    assert_eq!(reg.create_player_transfer(transfer_payload(9, "X", "Y", 5, u64::MAX, 1), 0).unwrap_err(), ErrorKind::NotFound);
    assert_eq!(reg.create_player_transfer(transfer_payload(1, "W", "Y", 5, u64::MAX, 1), 0).unwrap_err(), ErrorKind::Conflict);
    assert_eq!(reg.get_player_profile_by_id(1).unwrap().current_team, "X");
    assert_eq!(reg.last_id(), 1);
    assert_eq!(reg.get_player_transfers().unwrap_err(), ErrorKind::NotFound);
}

#[test]
fn transfer_conflicts_leave_state_unchanged() {
    let mut reg = Registry::new();
    reg.create_player_profile(profile_payload("A", "X", 100, 1000), 0).unwrap();
    assert_eq!(reg.create_player_transfer(transfer_payload(1, "W", "Y", 5, 200, 300), 0).unwrap_err(), ErrorKind::Conflict);
    assert_eq!(reg.get_player_profile_by_id(1).unwrap().current_team, "X");
    reg.create_player_transfer(transfer_payload(1, "X", "Y", 5, 200, 300), 0).unwrap();
    // now transferred: a second direct transfer is refused
    assert_eq!(reg.create_player_transfer(transfer_payload(1, "Y", "Z", 5, 200, 300), 0).unwrap_err(), ErrorKind::Conflict);
    let p = reg.get_player_profile_by_id(1).unwrap();
    assert_eq!(p.current_team, "Y");
    assert_eq!(p.contract_until, 500);
    assert_eq!(reg.get_player_transfers().unwrap().len(), 1);
    assert_eq!(reg.last_id(), 2);
}

#[test]
fn offers_need_amount_and_player() {
    let mut reg = Registry::new();
    reg.create_player_profile(profile_payload("A", "X", 100, 1000), 0).unwrap();
    assert_eq!(reg.create_transfer_offer(offer_payload(1, "X", "Y", 0), 0).unwrap_err(), ErrorKind::InvalidPayload);
    assert_eq!(validate_offer_payload(&offer_payload(1, "X", "Y", 0)), Err(ErrorKind::InvalidPayload));
    assert_eq!(reg.create_transfer_offer(offer_payload(7, "X", "Y", 3), 0).unwrap_err(), ErrorKind::NotFound);
    assert_eq!(reg.get_transfer_offers().unwrap_err(), ErrorKind::NotFound);
    let o = reg.create_transfer_offer(offer_payload(1, "X", "Y", 3), 0).unwrap();
    assert_eq!(reg.get_transfer_offers().unwrap().len(), 1);
    assert_eq!(reg.get_transfer_offer_by_id(o.id).unwrap().offer_amount, 3);
}

#[test]
fn accept_non_pending_conflicts() {
    let mut reg = Registry::new();
    reg.create_player_profile(profile_payload("A", "X", 100, 1000), 0).unwrap();
    let o = reg.create_transfer_offer(offer_payload(1, "X", "Y", 3), 0).unwrap();
    reg.accept_transfer_offer(o.id, 100).unwrap();
    assert_eq!(reg.accept_transfer_offer(o.id, 100).unwrap_err(), ErrorKind::Conflict);
    assert_eq!(reg.reject_transfer_offer(o.id).unwrap_err(), ErrorKind::Conflict);
    assert_eq!(reg.get_player_transfers().unwrap().len(), 1);
    assert_eq!(reg.accept_transfer_offer(99, 100).unwrap_err(), ErrorKind::NotFound);
}

#[test]
fn accept_after_expiry_conflicts() {
    let mut reg = Registry::new();
    reg.create_player_profile(profile_payload("A", "X", 100, 1000), 0).unwrap();
    let o = reg.create_transfer_offer(offer_payload(1, "X", "Y", 3), 0).unwrap();
    assert_eq!(reg.accept_transfer_offer(o.id, 1001).unwrap_err(), ErrorKind::Conflict);
    assert_eq!(reg.get_transfer_offer_by_id(o.id).unwrap().offer_status, OfferStatus::Pending);
    assert_eq!(reg.get_player_transfers().unwrap_err(), ErrorKind::NotFound);
    let t = reg.accept_transfer_offer(o.id, 1000).unwrap();
    assert_eq!(t.contract_duration, 0);
}

#[test]
fn reject_twice_conflicts() {
    let mut reg = Registry::new();
    reg.create_player_profile(profile_payload("A", "X", 100, 1000), 0).unwrap();
    let o = reg.create_transfer_offer(offer_payload(1, "X", "Y", 3), 0).unwrap();
    assert_eq!(reg.reject_transfer_offer(o.id), Ok(()));
    assert_eq!(reg.get_transfer_offer_by_id(o.id).unwrap().offer_status, OfferStatus::Rejected);
    assert_eq!(reg.reject_transfer_offer(o.id), Err(ErrorKind::Conflict));
    assert_eq!(reg.accept_transfer_offer(o.id, 0).unwrap_err(), ErrorKind::Conflict);
    assert_eq!(reg.get_player_transfers().unwrap_err(), ErrorKind::NotFound);
    assert_eq!(reg.get_player_profile_by_id(1).unwrap().current_team, "X");
    assert_eq!(reg.reject_transfer_offer(42), Err(ErrorKind::NotFound));
}

#[test]
fn listing_by_team() {
    let mut reg = Registry::new();
    reg.create_player_profile(profile_payload("A", "X", 1, 10), 0).unwrap();
    reg.create_player_profile(profile_payload("B", "Y", 1, 10), 0).unwrap();
    reg.create_player_profile(profile_payload("C", "X", 1, 10), 0).unwrap();
    let xs = reg.get_player_profiles_by_team(&"X".to_string()).unwrap();
    let names: Vec<&str> = xs.iter().map(|p| p.name.as_str()).collect();
    assert_eq!(names, vec!["A", "C"]);
    assert_eq!(reg.get_player_profiles_by_team(&"Q".to_string()).unwrap_err(), ErrorKind::NotFound);
    assert_eq!(reg.get_player_profiles().unwrap().len(), 3);
    assert_eq!(reg.get_player_profile_by_id(4).unwrap_err(), ErrorKind::NotFound);
    assert_eq!(reg.get_player_transfer_by_id(1).unwrap_err(), ErrorKind::NotFound);
    assert_eq!(ErrorKind::Conflict.describe(), "conflict with the current state");
}
