//! The JSON API operations, driven against a store seeded the way the
//! shipped migrations seed it: the default pool with devices unit1 and
//! unit2.  The directory is offline, so owner lookups fail open, as they do
//! when the chat service cannot be reached.

use device_checkout::directory::Directory;
use device_checkout::models::{
    CustomOwnerInsert, DeviceInsert, DeviceUpdate, Error, PoolInsert, ReservationRequest,
    ReservationRequestDevice, ReservationStatus,
};
use device_checkout::routes::{
    api_delete_reservation, api_get_custom_owner, api_get_custom_owners, api_get_device,
    api_get_devices, api_get_pools, api_post_reservations, api_routes, html_routes, index,
    post_add_custom_owners, post_add_pools, post_devices,
};
use device_checkout::store::Store;

fn seeded_store() -> Store {
    let mut store = Store::new(0);
    store
        .insert_device(
            &DeviceInsert {
                device_name: "unit1".to_string(),
                device_url: "http://unit1".to_string(),
                pool_id: 1,
            },
            0,
        )
        .unwrap();
    store
        .insert_device(
            &DeviceInsert {
                device_name: "unit2".to_string(),
                device_url: "http://unit2".to_string(),
                pool_id: 1,
            },
            0,
        )
        .unwrap();
    store
}

fn request_for_pool(pool_id: i32, owner: &str, comments: &str) -> ReservationRequest {
    ReservationRequest {
        device_owner: Some(owner.to_string()),
        comments: Some(comments.to_string()),
        device: ReservationRequestDevice {
            id: None,
            device_name: None,
            device_url: None,
            device_owner: None,
            comments: None,
            pool_id,
        },
    }
}

#[test]
fn test_api_get_device() {
    let store = seeded_store();
    let d = api_get_device(&store, "unit1").unwrap();
    assert_eq!(d.device_url, Some("http://unit1".to_string()));
    assert!(matches!(
        api_get_device(&store, "some_unknown_device"),
        Err(Error::NotFound)
    ));
}

#[test]
fn test_api_get_devices() {
    let store = seeded_store();
    let v = api_get_devices(&store);
    assert_eq!(v[0].device_url, Some("http://unit1".to_string()));
    assert_eq!(v[1].device_url, Some("http://unit2".to_string()));
}

#[test]
fn test_api_get_pools() {
    let mut store = seeded_store();
    post_add_pools(
        &mut store,
        &PoolInsert {
            pool_name: "Custom1".to_string(),
            description: Some("test description".to_string()),
        },
        0,
    );
    post_add_pools(
        &mut store,
        &PoolInsert {
            pool_name: "Custom2".to_string(),
            description: Some("test description 2".to_string()),
        },
        0,
    );
    let v = api_get_pools(&store);
    assert_eq!(v[0].pool_name, "Default Pool");
    assert_eq!(v[0].description, Some("".to_string()));
    assert_eq!(v[1].pool_name, "Custom1");
    assert_eq!(v[1].description, Some("test description".to_string()));
    assert_eq!(v[2].pool_name, "Custom2");
    assert_eq!(v[2].description, Some("test description 2".to_string()));
}

#[test]
fn test_api_get_custom_owner() {
    let mut store = seeded_store();
    let dir = Directory::offline();
    post_add_custom_owners(
        &mut store,
        &dir,
        &CustomOwnerInsert {
            custom_owner_name: "Custom1".to_string(),
            recipient: "SlackUser".to_string(),
            description: Some("custom owner mapping 1".to_string()),
        },
        0,
    );
    let c = api_get_custom_owner(&store, "custom1").unwrap();
    assert_eq!(c.id, 1);
    assert_eq!(c.custom_owner_name, "custom1");
    assert_eq!(c.recipient, "slackuser");
    assert_eq!(c.description, Some("custom owner mapping 1".to_string()));

    // the lookup is not case-sensitive
    let c = api_get_custom_owner(&store, "CUSTOM1").unwrap();
    assert_eq!(c.id, 1);
    assert_eq!(c.custom_owner_name, "custom1");
    assert_eq!(c.recipient, "slackuser");
    assert_eq!(c.description, Some("custom owner mapping 1".to_string()));

    assert!(matches!(
        api_get_custom_owner(&store, "invalid"),
        Err(Error::NotFound)
    ));
}

#[test]
fn test_api_get_custom_owners() {
    let mut store = seeded_store();
    let dir = Directory::offline();
    post_add_custom_owners(
        &mut store,
        &dir,
        &CustomOwnerInsert {
            custom_owner_name: "Custom1".to_string(),
            recipient: "SlackUser".to_string(),
            description: Some("custom owner mapping 1".to_string()),
        },
        0,
    );
    post_add_custom_owners(
        &mut store,
        &dir,
        &CustomOwnerInsert {
            custom_owner_name: "Custom2".to_string(),
            recipient: "SlackChannel".to_string(),
            description: Some("custom owner mapping 2".to_string()),
        },
        0,
    );
    post_add_custom_owners(
        &mut store,
        &dir,
        &CustomOwnerInsert {
            custom_owner_name: "Custom3".to_string(),
            recipient: "None".to_string(),
            description: Some("".to_string()),
        },
        0,
    );
    let v = api_get_custom_owners(&store);
    assert_eq!(v[0].id, 1);
    assert_eq!(v[0].custom_owner_name, "custom1");
    assert_eq!(v[0].recipient, "slackuser");
    assert_eq!(v[0].description, Some("custom owner mapping 1".to_string()));
    assert_eq!(v[1].id, 2);
    assert_eq!(v[1].custom_owner_name, "custom2");
    assert_eq!(v[1].recipient, "slackchannel");
    assert_eq!(v[1].description, Some("custom owner mapping 2".to_string()));
    assert_eq!(v[2].id, 3);
    assert_eq!(v[2].custom_owner_name, "custom3");
    assert_eq!(v[2].recipient, "none");
    assert_eq!(v[2].description, Some("".to_string()));
}

#[test]
fn test_api_delete_reservation() {
    let mut store = seeded_store();
    let dir = Directory::offline();
    let flash = post_devices(
        &mut store,
        &dir,
        &DeviceUpdate {
            id: 1,
            device_owner: Some("Owner".to_string()),
            comments: Some("xyzzy".to_string()),
            reservation_status: ReservationStatus::Available,
        },
        0,
    );
    assert_eq!(flash.kind, "success");

    assert!(matches!(api_delete_reservation(&mut store, 1, 0), Ok(())));

    // once a reservation has ended, it cannot be ended again
    assert!(matches!(
        api_delete_reservation(&mut store, 1, 0),
        Err(Error::Conflict)
    ));

    assert!(matches!(
        api_delete_reservation(&mut store, 9000, 0),
        Err(Error::NotFound)
    ));
}

#[test]
fn test_api_post_reservations() {
    let mut store = seeded_store();
    let dir = Directory::offline();
    let res = api_post_reservations(
        &mut store,
        &dir,
        &request_for_pool(1, "Barry", "test reservation"),
        0,
    )
    .unwrap();
    assert_eq!(res.device_owner, "Barry");
    assert_eq!(res.comments, Some("test reservation".to_string()));
    assert_eq!(res.device.reservation_status, ReservationStatus::Reserved);

    assert!(matches!(
        api_post_reservations(
            &mut store,
            &dir,
            &request_for_pool(100, "Barry", "pool with no devices"),
            0,
        ),
        Err(Error::NotFound)
    ));
}

#[test]
fn test_get_root() {
    assert_eq!(index(), "/devices");
}

#[test]
fn test_route_tables() {
    let html = html_routes();
    assert_eq!(html.len(), 15);
    assert_eq!(html[0], "/");
    assert_eq!(html[1], "/devices");
    let api = api_routes();
    assert_eq!(api.len(), 7);
    assert_eq!(api[5], "/reservations");
}
