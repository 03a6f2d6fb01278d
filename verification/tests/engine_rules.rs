//! The business rules of the reservation engine and the catalog guards:
//! the availability invariant, owner validation, the conditional-update
//! conflicts, the pool-delete guards, and the custom-owner guards.

use device_checkout::directory::Directory;
use device_checkout::models::{
    CustomOwnerDelete, CustomOwnerInsert, CustomOwnerModify, DeviceInsert, Error, PoolDelete,
    PoolInsert, ReservationStatus,
};
use device_checkout::routes::{post_add_custom_owners, post_delete_pools, post_edit_custom_owners};
use device_checkout::store::Store;

fn test_directory() -> Directory {
    Directory {
        available: true,
        users: vec!["slack_user".to_string()],
        channels: vec!["slack_channel".to_string()],
    }
}

fn seeded_store() -> Store {
    let mut store = Store::new(0);
    store
        .insert_device(
            &DeviceInsert {
                device_name: "unit1".to_string(),
                device_url: "http://unit1".to_string(),
                pool_id: 1,
            },
            0,
        )
        .unwrap();
    store
        .insert_device(
            &DeviceInsert {
                device_name: "unit2".to_string(),
                device_url: "http://unit2".to_string(),
                pool_id: 1,
            },
            0,
        )
        .unwrap();
    store
}

#[test]
fn test_device_round_trip() {
    let mut store = Store::new(0);
    store
        .insert_device(
            &DeviceInsert {
                device_name: "unit1".to_string(),
                device_url: "http://unit1".to_string(),
                pool_id: 1,
            },
            0,
        )
        .unwrap();
    let d = store.get_device("unit1").unwrap();
    assert_eq!(d.reservation_status, ReservationStatus::Available);
    assert_eq!(d.device_owner, None);
    assert_eq!(d.comments, None);
    assert_eq!(d.device_url, Some("http://unit1".to_string()));
    assert_eq!(d.pool_id, 1);
}

#[test]
fn test_reserve_release_scenario() {
    let mut store = seeded_store();
    let dir = test_directory();

    // unit1 sits in pool 1 and is available
    let d = store.get_device("unit1").unwrap();
    assert_eq!(d.pool_id, 1);
    assert_eq!(d.reservation_status, ReservationStatus::Available);

    store
        .reserve_device(
            d.id,
            &Some("slack_user".to_string()),
            &Some("xyzzy".to_string()),
            &dir,
            7,
        )
        .unwrap();
    let taken = store.get_device("unit1").unwrap();
    assert_eq!(taken.reservation_status, ReservationStatus::Reserved);
    assert_eq!(taken.device_owner, Some("slack_user".to_string()));
    assert_eq!(taken.comments, Some("xyzzy".to_string()));

    store.release(taken.id, 8).unwrap();
    let back = store.get_device("unit1").unwrap();
    assert_eq!(back.reservation_status, ReservationStatus::Available);
    assert_eq!(back.device_owner, None);
    assert_eq!(back.comments, None);
}

#[test]
fn test_reserve_unknown_owner_fails() {
    let mut store = seeded_store();
    let dir = test_directory();
    let r = store.reserve_from_pool(
        1,
        &Some("nobody_anyone_knows".to_string()),
        &None,
        &dir,
        0,
    );
    assert!(matches!(r, Err(Error::ValidationError(_))));
    // nothing was reserved
    assert_eq!(
        store.get_device("unit1").unwrap().reservation_status,
        ReservationStatus::Available
    );
    assert_eq!(
        store.get_device("unit2").unwrap().reservation_status,
        ReservationStatus::Available
    );
}

#[test]
fn test_reserve_missing_owner_fails() {
    let mut store = seeded_store();
    let dir = test_directory();
    assert!(matches!(
        store.reserve_from_pool(1, &None, &None, &dir, 0),
        Err(Error::ValidationError(_))
    ));
    assert!(matches!(
        store.reserve_from_pool(1, &Some("   ".to_string()), &None, &dir, 0),
        Err(Error::ValidationError(_))
    ));
}

#[test]
fn test_owner_trimming() {
    let mut store = seeded_store();
    let dir = test_directory();
    // the owner is trimmed before the directory lookup
    let granted = store
        .reserve_from_pool(1, &Some("  slack_user  ".to_string()), &None, &dir, 0)
        .unwrap();
    assert_eq!(granted.reservation_status, ReservationStatus::Reserved);
}

#[test]
fn test_reserve_with_custom_owner() {
    let mut store = seeded_store();
    let dir = test_directory();
    post_add_custom_owners(
        &mut store,
        &dir,
        &CustomOwnerInsert {
            custom_owner_name: "Team1".to_string(),
            recipient: "none".to_string(),
            description: None,
        },
        0,
    );
    // the registry match is case-insensitive and bypasses the directory
    let granted = store
        .reserve_from_pool(1, &Some("TEAM1".to_string()), &None, &dir, 0)
        .unwrap();
    assert_eq!(granted.device_owner, Some("TEAM1".to_string()));
}

#[test]
fn test_reserve_from_pool_single_available() {
    let mut store = seeded_store();
    let dir = test_directory();
    // the first grant takes one of the two devices; exactly one stays available
    store
        .reserve_from_pool(1, &Some("slack_user".to_string()), &None, &dir, 0)
        .unwrap();
    let avail: Vec<i32> = store
        .get_devices()
        .into_iter()
        .filter(|d| d.reservation_status == ReservationStatus::Available)
        .map(|d| d.id)
        .collect();
    assert_eq!(avail.len(), 1);
    let only = avail[0];
    // with exactly one available device, the grant must return that device
    let granted = store
        .reserve_from_pool(1, &Some("slack_user".to_string()), &None, &dir, 0)
        .unwrap();
    assert_eq!(granted.id, only);

    // with zero available devices the pool reports NotFound
    assert!(matches!(
        store.reserve_from_pool(1, &Some("slack_user".to_string()), &None, &dir, 0),
        Err(Error::NotFound)
    ));
}

#[test]
fn test_device_lookup_case_insensitive() {
    let store = seeded_store();
    let d = store.get_device("UNIT1").unwrap();
    assert_eq!(d.device_name, "unit1");
    assert!(store.get_device("unit9").is_none());
}

#[test]
fn test_release_conflicts() {
    let mut store = seeded_store();
    // releasing an available device is a conflict, not a success
    assert!(matches!(store.release(1, 0), Err(Error::Conflict)));
    // releasing a missing device is NotFound
    assert!(matches!(store.release(77, 0), Err(Error::NotFound)));
}

#[test]
fn test_available_devices_clear() {
    let mut store = seeded_store();
    let dir = test_directory();
    store
        .reserve_from_pool(1, &Some("slack_user".to_string()), &Some("a".to_string()), &dir, 1)
        .unwrap();
    let granted = store
        .reserve_from_pool(1, &Some("slack_user".to_string()), &Some("b".to_string()), &dir, 2)
        .unwrap();
    store.release(granted.id, 3).unwrap();
    // every available device shows neither owner nor comments
    for d in store.get_devices() {
        if d.reservation_status == ReservationStatus::Available {
            assert_eq!(d.device_owner, None);
            assert_eq!(d.comments, None);
        }
    }
}

#[test]
fn test_duplicate_device_name() {
    let mut store = seeded_store();
    let r = store.insert_device(
        &DeviceInsert {
            device_name: "unit1".to_string(),
            device_url: "http://other".to_string(),
            pool_id: 1,
        },
        0,
    );
    assert!(matches!(r, Err(Error::InternalError)));
}

#[test]
fn test_insert_device_unknown_pool() {
    let mut store = Store::new(0);
    let r = store.insert_device(
        &DeviceInsert {
            device_name: "unit9".to_string(),
            device_url: "http://unit9".to_string(),
            pool_id: 42,
        },
        0,
    );
    assert!(matches!(r, Err(Error::InternalError)));
}

#[test]
fn test_delete_pool_guards() {
    let mut store = seeded_store();
    // the default pool can never be deleted, whatever it holds
    match store.delete_pool(&PoolDelete { id: 1 }) {
        Err(Error::ValidationError(m)) => assert_eq!(m, "Default pool cannot be deleted"),
        other => panic!("expected a validation error, got {:?}", other),
    }

    // a pool holding devices cannot be deleted
    store
        .insert_pool(
            &PoolInsert {
                pool_name: "lab".to_string(),
                description: None,
            },
            0,
        )
        .unwrap();
    store
        .insert_device(
            &DeviceInsert {
                device_name: "unit3".to_string(),
                device_url: "http://unit3".to_string(),
                pool_id: 2,
            },
            0,
        )
        .unwrap();
    match store.delete_pool(&PoolDelete { id: 2 }) {
        Err(Error::ValidationError(m)) => assert_eq!(m, "Cannot delete non-empty pool"),
        other => panic!("expected a validation error, got {:?}", other),
    }

    // an empty, non-default pool goes away
    store
        .insert_pool(
            &PoolInsert {
                pool_name: "spare".to_string(),
                description: None,
            },
            0,
        )
        .unwrap();
    assert_eq!(store.delete_pool(&PoolDelete { id: 3 }), Ok(1));
    assert!(store.get_pool_by_id(3).is_none());

    // through the form, the guard message reaches the flash
    let flash = post_delete_pools(&mut store, &PoolDelete { id: 1 });
    assert_eq!(flash.kind, "error");
    assert_eq!(flash.message, "Default pool cannot be deleted");
}

#[test]
fn test_custom_owner_rename_guard() {
    let mut store = seeded_store();
    let dir = test_directory();
    post_add_custom_owners(
        &mut store,
        &dir,
        &CustomOwnerInsert {
            custom_owner_name: "team1".to_string(),
            recipient: "none".to_string(),
            description: None,
        },
        0,
    );
    store
        .reserve_from_pool(1, &Some("Team1".to_string()), &None, &dir, 0)
        .unwrap();

    // renaming while a device is reserved under the name is refused
    let flash = post_edit_custom_owners(
        &mut store,
        &dir,
        &CustomOwnerModify {
            id: 1,
            custom_owner_name: "team2".to_string(),
            recipient: "none".to_string(),
            description: None,
        },
        0,
    );
    assert_eq!(flash.kind, "error");
    assert_eq!(
        flash.message,
        "Cannot modify name of custom_owner with devices reserved"
    );
    assert_eq!(
        store.get_custom_owner("team1").unwrap().custom_owner_name,
        "team1"
    );

    // with no matching devices the rename goes through
    let mut free_store = seeded_store();
    post_add_custom_owners(
        &mut free_store,
        &dir,
        &CustomOwnerInsert {
            custom_owner_name: "team1".to_string(),
            recipient: "none".to_string(),
            description: None,
        },
        0,
    );
    let flash = post_edit_custom_owners(
        &mut free_store,
        &dir,
        &CustomOwnerModify {
            id: 1,
            custom_owner_name: "team2".to_string(),
            recipient: "none".to_string(),
            description: None,
        },
        0,
    );
    assert_eq!(flash.kind, "success");
    assert!(free_store.get_custom_owner("team1").is_none());
    assert_eq!(
        free_store.get_custom_owner("team2").unwrap().custom_owner_name,
        "team2"
    );
}

#[test]
fn test_custom_owner_delete_guard() {
    let mut store = seeded_store();
    let dir = test_directory();
    post_add_custom_owners(
        &mut store,
        &dir,
        &CustomOwnerInsert {
            custom_owner_name: "team1".to_string(),
            recipient: "none".to_string(),
            description: None,
        },
        0,
    );
    let granted = store
        .reserve_from_pool(1, &Some("team1".to_string()), &None, &dir, 0)
        .unwrap();

    match store.delete_custom_owner(&CustomOwnerDelete { id: 1 }) {
        Err(Error::ValidationError(m)) => {
            assert_eq!(m, "Cannot delete custom_owner with devices reserved")
        },
        other => panic!("expected a validation error, got {:?}", other),
    }

    store.release(granted.id, 0).unwrap();
    assert_eq!(store.delete_custom_owner(&CustomOwnerDelete { id: 1 }), Ok(1));
    assert!(store.get_custom_owner("team1").is_none());
}

#[test]
fn test_get_devices_by_owner() {
    let mut store = seeded_store();
    let dir = test_directory();
    store
        .reserve_device(1, &Some("Slack_User".to_string()), &None, &dir, 0)
        .unwrap();
    let owned = store.get_devices_by_owner("slack_user");
    assert_eq!(owned.len(), 1);
    assert_eq!(owned[0].device_name, "unit1");
    let owned = store.get_devices_by_owner("SLACK_USER");
    assert_eq!(owned.len(), 1);
    assert!(store.get_devices_by_owner("someone_else").is_empty());
}

#[test]
fn test_get_devices_in_pool() {
    let mut store = seeded_store();
    store
        .insert_pool(
            &PoolInsert {
                pool_name: "lab".to_string(),
                description: None,
            },
            0,
        )
        .unwrap();
    store
        .insert_device(
            &DeviceInsert {
                device_name: "unit3".to_string(),
                device_url: "http://unit3".to_string(),
                pool_id: 2,
            },
            0,
        )
        .unwrap();
    let in_default = store.get_devices_in_pool(1);
    assert_eq!(in_default.len(), 2);
    let in_lab = store.get_devices_in_pool(2);
    assert_eq!(in_lab.len(), 1);
    assert_eq!(in_lab[0].device_name, "unit3");
    assert!(store.get_devices_in_pool(9).is_empty());
}

#[test]
fn test_reserve_from_pool_exhausts() {
    let mut store = seeded_store();
    let dir = test_directory();
    let a = store
        .reserve_from_pool(1, &Some("slack_user".to_string()), &None, &dir, 0)
        .unwrap();
    let b = store
        .reserve_from_pool(1, &Some("slack_user".to_string()), &None, &dir, 0)
        .unwrap();
    assert_ne!(a.id, b.id);
    assert!(matches!(
        store.reserve_from_pool(1, &Some("slack_user".to_string()), &None, &dir, 0),
        Err(Error::NotFound)
    ));
}
