use fuel_stats::calendar::Moment;
use fuel_stats::model::FuelEntry;
use fuel_stats::store::{
    admin_credentials_match, apply_update, fresh_entries, is_admin_token, is_known_service, newest_first,
    plan_admin_action, AdminAction, AdminActionRequest, FuelEntryData, UpdateFuelEntryRequest,
};

fn at(secs: i64) -> Moment {
    Moment::from_unix(secs).expect("time in range")
}

fn stored(id: &str, liters: u32, secs: i64, odo: Option<u32>) -> FuelEntry {
    FuelEntry {
        id: id.to_string(),
        user_id: "u".to_string(),
        liters,
        price_per_liter: 1_500,
        total_cost: liters * 3 / 2,
        date_time: at(secs),
        odometer_reading: odo,
    }
}

#[test]
fn partial_update_keeps_unset_fields() {
    let e = stored("e", 10_000, 1_700_000_000, Some(5_000));
    let req = UpdateFuelEntryRequest {
        liters: Some(12_000),
        price_per_liter: None,
        total_cost: None,
        date_time: None,
        odometer_reading: None,
    };
    let u = apply_update(&e, &req);
    assert_eq!(u.id, "e");
    assert_eq!(u.liters, 12_000);
    assert_eq!(u.price_per_liter, 1_500);
    assert_eq!(u.total_cost, 15_000);
    assert_eq!(u.odometer_reading, Some(5_000));
    let req = UpdateFuelEntryRequest {
        liters: None,
        price_per_liter: None,
        total_cost: Some(1),
        date_time: Some(at(1_700_086_400)),
        odometer_reading: Some(7_000),
    };
    let u = apply_update(&e, &req);
    assert_eq!(u.total_cost, 1);
    assert_eq!(u.date_time.secs, 1_700_086_400);
    assert_eq!(u.odometer_reading, Some(7_000));
}

#[test]
fn batch_skips_stored_duplicates() {
    let existing = vec![stored("e", 10_000, 1_700_000_000, None)];
    let dup = FuelEntryData {
        liters: 10_000,
        price_per_liter: 1_500,
        total_cost: 15_000,
        date_time: at(1_700_000_000),
        odometer_reading: None,
    };
    let other = FuelEntryData { odometer_reading: Some(1), ..dup.clone() };
    let batch = vec![dup.clone(), other, dup];
    assert_eq!(fresh_entries(&existing, &batch), vec![1]);
    assert_eq!(fresh_entries(&Vec::new(), &batch), vec![0, 1, 2]);
}

#[test]
fn listing_is_newest_first() {
    let entries = vec![
        stored("a", 1, 100, None),
        stored("b", 1, 300, None),
        stored("c", 1, 200, None),
    ];
    let r = newest_first(&entries);
    let ids: Vec<&str> = r.iter().map(|e| e.id.as_str()).collect();
    assert_eq!(ids, vec!["b", "c", "a"]);
}

#[test]
fn admin_token_prefix() {
    assert!(is_admin_token("Bearer admin_token_1700000000"));
    assert!(is_admin_token("Bearer admin_token_"));
    assert!(!is_admin_token("Bearer admin_toke"));
    assert!(!is_admin_token("bearer admin_token_1"));
    assert!(!is_admin_token(""));
}

#[test]
fn services_and_credentials() {
    assert!(is_known_service("signin"));
    assert!(is_known_service("fuel_entry"));
    assert!(!is_known_service("signup"));
    assert!(!is_known_service("signin "));
    assert!(admin_credentials_match("a@b.io", "pw", "a@b.io", "pw"));
    assert!(!admin_credentials_match("a@b.io", "pw2", "a@b.io", "pw"));
}

#[test]
fn admin_actions_are_planned() {
    let req = |action: &str, user: Option<&str>, entry: Option<&str>| AdminActionRequest {
        action: action.to_string(),
        user_id: user.map(|s| s.to_string()),
        entry_id: entry.map(|s| s.to_string()),
    };
    assert!(matches!(plan_admin_action(&req("delete_user", Some("u1"), None)),
        AdminAction::DeleteUser { user_id } if user_id == "u1"));
    assert!(matches!(plan_admin_action(&req("delete_user", None, None)), AdminAction::MissingUserId));
    assert!(matches!(plan_admin_action(&req("delete_entry", Some("u1"), Some("e1")) ),
        AdminAction::DeleteEntry { user_id, entry_id } if user_id == "u1" && entry_id == "e1"));
    assert!(matches!(plan_admin_action(&req("delete_entry", Some("u1"), None)), AdminAction::MissingParameters));
    assert!(matches!(plan_admin_action(&req("reboot", None, None)), AdminAction::UnknownAction));
}
