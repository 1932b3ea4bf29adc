use rugby_league_backend::model::{
    OfferStatus, PlayerProfile, PlayerTransfer, TransferOffer, TransferStatus,
};
use rugby_league_backend::registry::Registry;

fn profile(id: u64, team: &str) -> PlayerProfile {
    PlayerProfile {
        id,
        name: "A".to_string(),
        position: "Hooker".to_string(),
        current_team: team.to_string(),
        market_value: 10,
        transfer_status: TransferStatus::Available,
        contract_until: 100,
        age: 30,
        nationality: "AU".to_string(),
        created_at: 0,
    }
}

fn offer(id: u64, player_id: u64) -> TransferOffer {
    TransferOffer {
        id,
        player_id,
        from_team: "X".to_string(),
        to_team: "Y".to_string(),
        offer_amount: 9,
        offer_status: OfferStatus::Pending,
        created_at: 0,
    }
}

#[test]
fn restores_consistent_records() {
    let transfers: Vec<PlayerTransfer> = Vec::new();
    let mut reg = Registry::from_records(vec![profile(1, "X"), profile(4, "Z")], transfers, vec![offer(2, 1)], 5)
        .unwrap();
    assert_eq!(reg.last_id(), 5);
    assert_eq!(reg.get_player_profile_by_id(4).unwrap().current_team, "Z");
    let t = reg.accept_transfer_offer(2, 40).unwrap();
    assert_eq!(t.id, 6);
    assert_eq!(t.contract_duration, 60);
    assert_eq!(reg.get_player_profile_by_id(1).unwrap().current_team, "Y");
    assert_eq!(reg.get_player_transfers().unwrap().len(), 1);
}

#[test]
fn refuses_inconsistent_records() {
    // identifiers out of order
    assert!(Registry::from_records(vec![profile(3, "X"), profile(2, "X")], Vec::new(), Vec::new(), 5).is_none());
    // duplicate identifiers
    assert!(Registry::from_records(vec![profile(2, "X"), profile(2, "X")], Vec::new(), Vec::new(), 5).is_none());
    // an identifier beyond the counter
    assert!(Registry::from_records(Vec::new(), Vec::new(), vec![offer(6, 1)], 5).is_none());
    assert!(Registry::from_records(Vec::new(), Vec::new(), vec![offer(5, 1)], 5).is_some());
    // a profile and an offer sharing an identifier
    assert!(Registry::from_records(vec![profile(1, "X")], Vec::new(), vec![offer(1, 1)], 5).is_none());
    assert!(Registry::from_records(vec![profile(1, "X")], Vec::new(), vec![offer(2, 1)], 5).is_some());
}
