use ccash_market::config::Config;
use ccash_market::offer::OfferKind;
use ccash_market::orders::{decimal_string, CreateAsk};
use ccash_market::query::OfferQueryParams;
use ccash_market::records::Snapshot;
use ccash_market::snapshot::{
    backup_file_name, decode_snapshot, encode_snapshot, plan_rotation, Rotation,
};
use ccash_market::state::{AppState, Data};

fn sorted(mut s: Snapshot) -> Snapshot {
    s.users.sort_by_key(|u| u.id);
    for u in s.users.iter_mut() {
        u.offer_ids.sort();
    }
    s.commodities.sort_by_key(|c| c.id);
    for c in s.commodities.iter_mut() {
        c.owners.sort();
    }
    s.offers.sort_by_key(|o| o.id);
    s
}

fn busy_state() -> AppState {
    let mut state = AppState::from_config(&Config::default(), Data::new());
    for (user, item) in [("alice", "Iron"), ("bob", "Iron"), ("alice", "Gold")] {
        let req = CreateAsk { commodity_name: item.to_string(), total_cost: 90, cost_per_item: 9 };
        state.create_ask(user, &req).unwrap();
    }
    state
}

#[test]
fn records_round_trip() {
    let state = busy_state();
    let saved = state.data.to_snapshot();
    assert_eq!(saved.users.len(), 2);
    assert_eq!(saved.commodities.len(), 2);
    assert_eq!(saved.offers.len(), 3);
    let restored = Data::from_snapshot(&saved);
    assert_eq!(sorted(restored.to_snapshot()), sorted(saved));
}

#[test]
fn snapshot_bytes_round_trip() {
    let text = b"{\"users\":{}}".to_vec();
    let file = encode_snapshot(&text);
    assert_ne!(file, text);
    assert_eq!(&file[..2], &[0x1f, 0x8b]);
    assert_eq!(decode_snapshot(&file), Some(text));
}

#[test]
fn corrupt_or_empty_snapshot_gives_empty_store() {
    assert_eq!(decode_snapshot(&Vec::new()), None);
    assert_eq!(decode_snapshot(&b"not a gzip stream".to_vec()), None);
    let file = encode_snapshot(&b"{\"users\":{}}".to_vec());
    assert_eq!(decode_snapshot(&file[..file.len() / 2].to_vec()), None);
    assert_eq!(decode_snapshot(&encode_snapshot(&Vec::new())), None);
    let data = Data::restore(None);
    let state = AppState::from_config(&Config::default(), data);
    let params = OfferQueryParams::default();
    assert!(state.list_offers(OfferKind::Any, None, &params).unwrap().is_empty());
    let snap = state.data.to_snapshot();
    assert!(snap.users.is_empty() && snap.commodities.is_empty() && snap.offers.is_empty());
}

#[test]
fn restore_keeps_a_read_snapshot() {
    let state = busy_state();
    let saved = state.data.to_snapshot();
    let data = Data::restore(Some(Data::from_snapshot(&saved)));
    assert_eq!(sorted(data.to_snapshot()), sorted(saved));
}

#[test]
fn backup_names_carry_creation_time() {
    assert_eq!(backup_file_name(0), Some("data-1970-01-01T00:00:00+00:00.gz.bak".to_string()));
    assert_eq!(
        backup_file_name(1_000_000_000_000_555),
        Some("data-2001-09-09T01:46:40+00:00.gz.bak".to_string())
    );
    assert_eq!(backup_file_name(i64::MAX), None);
}

#[test]
fn decimal_text() {
    assert_eq!(decimal_string(0), "0");
    assert_eq!(decimal_string(7), "7");
    assert_eq!(decimal_string(1200), "1200");
    assert_eq!(decimal_string(u64::MAX), "18446744073709551615");
}

#[test]
fn rotation_plans() {
    assert_eq!(plan_rotation(None), Rotation::Fresh);
    assert_eq!(
        plan_rotation(Some(0)),
        Rotation::MoveTo("data-1970-01-01T00:00:00+00:00.gz.bak".to_string())
    );
    assert_eq!(plan_rotation(Some(i64::MIN)), Rotation::Unnamed);
}
