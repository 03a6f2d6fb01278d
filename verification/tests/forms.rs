//! The HTML form operations: the toggle form that reserves and returns a
//! device, and the add/edit/delete forms, checked through the flash
//! outcomes and the page contexts they produce.

use device_checkout::directory::Directory;
use device_checkout::models::{
    DeviceDelete, DeviceEdit, DeviceInsert, DeviceUpdate, ReservationStatus,
};
use device_checkout::routes::{
    api_get_device, gen_device_context, post_add_devices, post_delete_devices, post_devices,
    post_edit_devices,
};
use device_checkout::store::Store;

fn seeded_store() -> Store {
    let mut store = Store::new(0);
    store
        .insert_device(
            &DeviceInsert {
                device_name: "unit1".to_string(),
                device_url: "http://unit1".to_string(),
                pool_id: 1,
            },
            0,
        )
        .unwrap();
    store
        .insert_device(
            &DeviceInsert {
                device_name: "unit2".to_string(),
                device_url: "http://unit2".to_string(),
                pool_id: 1,
            },
            0,
        )
        .unwrap();
    store
}

fn reserve_form(id: i32, owner: &str, comments: &str) -> DeviceUpdate {
    DeviceUpdate {
        id,
        device_owner: Some(owner.to_string()),
        comments: Some(comments.to_string()),
        reservation_status: ReservationStatus::Available,
    }
}

#[test]
fn test_html_get_devices() {
    let store = seeded_store();
    let ctx = gen_device_context(&store, &None, None).unwrap();
    assert!(ctx
        .devices
        .iter()
        .any(|row| row.device.device_url == Some("http://unit1".to_string())));
    assert!(ctx
        .devices
        .iter()
        .any(|row| row.device.device_url == Some("http://unit2".to_string())));
}

#[test]
fn test_html_get_edit_devices() {
    let store = seeded_store();
    let ctx = gen_device_context(&store, &None, None).unwrap();
    assert!(ctx
        .devices
        .iter()
        .any(|row| row.device.device_url == Some("http://unit1".to_string())));
    assert!(ctx
        .devices
        .iter()
        .any(|row| row.device.device_url == Some("http://unit2".to_string())));
}

#[test]
fn test_html_post_devices() {
    let mut store = seeded_store();
    let dir = Directory::offline();
    let flash = post_devices(&mut store, &dir, &reserve_form(1, "Owner", "xyzzy"), 0);

    let ctx = gen_device_context(&store, &Some(flash), None).unwrap();
    assert!(ctx.success_message.is_some());
    assert!(ctx.error_message.is_none());

    let d = &ctx.devices[0].device;
    assert_eq!(d.device_owner, Some("Owner".to_string()));
    assert_eq!(d.reservation_status, ReservationStatus::Reserved);
    assert_eq!(d.comments, Some("xyzzy".to_string()));
}

#[test]
fn test_html_reserve_without_user() {
    let mut store = seeded_store();
    let dir = Directory::offline();
    let flash = post_devices(&mut store, &dir, &reserve_form(1, "", "xyzzy"), 0);

    let ctx = gen_device_context(&store, &Some(flash), None).unwrap();
    assert_eq!(
        ctx.error_message.as_deref(),
        Some("Please supply a username when reserving a device")
    );
    assert!(ctx.success_message.is_none());
}

#[test]
fn test_html_edit_devices() {
    let mut store = seeded_store();
    let flash = post_edit_devices(
        &mut store,
        &DeviceEdit {
            id: 1,
            device_name: "testunit".to_string(),
            device_url: "http://testurl".to_string(),
            pool_id: 1,
        },
        0,
    );
    assert_eq!(flash.kind, "success");

    let ctx = gen_device_context(&store, &Some(flash), None).unwrap();
    assert!(ctx.success_message.is_some());
    assert!(ctx.error_message.is_none());
    assert!(ctx
        .devices
        .iter()
        .any(|row| row.device.device_name == "testunit"));
    assert!(ctx
        .devices
        .iter()
        .any(|row| row.device.device_url == Some("http://testurl".to_string())));
}

#[test]
fn test_html_edit_devices_bad_url() {
    let mut store = seeded_store();
    let flash = post_edit_devices(
        &mut store,
        &DeviceEdit {
            id: 1,
            device_name: "testunit".to_string(),
            device_url: "notaurl".to_string(),
            pool_id: 1,
        },
        0,
    );
    assert_eq!(flash.kind, "error");
}

#[test]
fn test_html_edit_devices_delete() {
    let mut store = seeded_store();
    let flash = post_delete_devices(&mut store, &DeviceDelete { id: 1 });

    let ctx = gen_device_context(&store, &Some(flash), None).unwrap();
    assert!(ctx.success_message.is_some());
    assert!(ctx.error_message.is_none());
    assert!(ctx.devices.iter().all(|row| row.device.id != 1));
}

#[test]
fn test_html_add_devices() {
    let mut store = seeded_store();
    let flash = post_add_devices(
        &mut store,
        &DeviceInsert {
            device_name: "testunit".to_string(),
            device_url: "http://testurl".to_string(),
            pool_id: 1,
        },
        0,
    );

    let ctx = gen_device_context(&store, &Some(flash), None).unwrap();
    assert!(ctx.success_message.is_some());
    assert!(ctx.error_message.is_none());

    let d = api_get_device(&store, "testunit").unwrap();
    assert_eq!(d.device_url, Some("http://testurl".to_string()));
}

#[test]
fn test_html_add_devices_bad_url() {
    let mut store = seeded_store();
    let flash = post_add_devices(
        &mut store,
        &DeviceInsert {
            device_name: "testunit".to_string(),
            device_url: "notaurl".to_string(),
            pool_id: 1,
        },
        0,
    );
    assert_eq!(flash.kind, "error");
    assert_eq!(flash.message, "URL was invalid");
}

#[test]
fn test_reserve_already_reserved() {
    let mut store = seeded_store();
    let dir = Directory::offline();

    let flash = post_devices(&mut store, &dir, &reserve_form(1, "Owner", "xyzzy"), 0);
    assert_eq!(flash.kind, "success");
    let d = store.get_device_by_id(1).unwrap();
    assert_eq!(d.reservation_status, ReservationStatus::Reserved);

    // a second form still carrying the stale observed status must not win
    let flash = post_devices(&mut store, &dir, &reserve_form(1, "Owner2", "xyzzy"), 0);
    let ctx = gen_device_context(&store, &Some(flash), None).unwrap();
    assert!(ctx.error_message.is_some());
    assert!(ctx.success_message.is_none());

    let d = store.get_device_by_id(1).unwrap();
    assert_eq!(d.device_owner, Some("Owner".to_string()));
    assert_ne!(d.device_owner, Some("Owner2".to_string()));
}

#[test]
fn test_returning_clears_fields() {
    let mut store = seeded_store();
    let dir = Directory::offline();

    let flash = post_devices(&mut store, &dir, &reserve_form(1, "Owner", "xyzzy"), 0);
    assert_eq!(flash.kind, "success");

    // the return form posts only the id and the observed status
    let flash = post_devices(
        &mut store,
        &dir,
        &DeviceUpdate {
            id: 1,
            device_owner: None,
            comments: None,
            reservation_status: ReservationStatus::Reserved,
        },
        0,
    );
    let ctx = gen_device_context(&store, &Some(flash), None).unwrap();
    assert!(ctx.success_message.is_some());
    assert!(ctx.error_message.is_none());

    let d = store.get_device_by_id(1).unwrap();
    assert_eq!(d.device_owner, None);
    assert_eq!(d.comments, None);
    assert_eq!(d.reservation_status, ReservationStatus::Available);
}
