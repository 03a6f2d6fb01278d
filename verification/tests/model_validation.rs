use device_checkout::directory::Directory;
use device_checkout::models::{
    CustomOwner, CustomOwnerInsert, CustomOwnerModify, DeviceEdit, DeviceInsert, DeviceUpdate,
    PoolInsert, PoolModify, ReservationStatus,
};

fn test_directory() -> Directory {
    Directory {
        available: true,
        users: vec!["slack_user".to_string()],
        channels: vec!["slack_channel".to_string()],
    }
}

#[test]
fn test_device_update_validation() {
    let dir = test_directory();
    let custom_owners: Vec<CustomOwner> = Vec::new();
    let mut device = DeviceUpdate {
        id: 3,
        device_owner: None,
        comments: None,
        reservation_status: ReservationStatus::Available,
    };
    assert!(device.validate(&dir, &custom_owners).is_ok()); // empty fields valid if device being returned
    device.reservation_status = ReservationStatus::Reserved;
    assert!(device.validate(&dir, &custom_owners).is_err()); // empty device_owner not ok
    device.device_owner = Some("fake_user".into());
    assert!(device.validate(&dir, &custom_owners).is_err()); // invalid slack user not ok
    device.device_owner = Some("slack_user".into());
    assert!(device.validate(&dir, &custom_owners).is_ok()); // slack user valid
}

#[test]
fn test_device_insert_validation() {
    let mut device = DeviceInsert {
        device_name: "".into(),
        device_url: "".into(),
        pool_id: 0,
    };
    assert!(device.validate().is_err());
    device.device_name = "test".into();
    device.device_url = "http://test".into();
    assert!(device.validate().is_ok());
    device.device_name = "".into();
    assert!(device.validate().is_err());
}

#[test]
fn test_device_edit_validation() {
    let mut device = DeviceEdit {
        id: 0,
        device_name: "".into(),
        device_url: "".into(),
        pool_id: 0,
    };
    assert!(device.validate().is_err());
    device.device_name = "test".into();
    device.device_url = "http://test".into();
    assert!(device.validate().is_ok());
    device.device_name = "".into();
    assert!(device.validate().is_err());
}

#[test]
fn test_pool_insert_validation() {
    let mut pool = PoolInsert {
        pool_name: "custom1".into(),
        description: Some("test description".into()),
    };
    assert!(pool.validate().is_ok()); // normal case ok
    pool.description = Some("".into());
    assert!(pool.validate().is_ok()); // empty pool description is ok
    pool.pool_name = "".into();
    assert!(pool.validate().is_err()); // empty name not ok
}

#[test]
fn test_pool_edit_validation() {
    let mut pool = PoolModify {
        id: 0,
        pool_name: "custom1".into(),
        description: Some("test description".into()),
    };
    assert!(pool.validate().is_ok()); // normal case is ok
    pool.description = Some("".into());
    assert!(pool.validate().is_ok()); // empty pool description is ok
    pool.pool_name = "".into();
    assert!(pool.validate().is_err()); // empty name not ok
}

#[test]
fn test_custom_owner_insert_validation() {
    let dir = test_directory();
    let mut custom_owner = CustomOwnerInsert {
        custom_owner_name: "custom1".into(),
        recipient: "slack_channel".into(),
        description: Some("description".into()),
    };
    assert!(custom_owner.validate(&dir).is_ok()); // slack channel recipient is ok
    custom_owner.recipient = "slack_user".into();
    assert!(custom_owner.validate(&dir).is_ok()); // slack user recipient is ok
    custom_owner.recipient = "none".into();
    assert!(custom_owner.validate(&dir).is_ok()); // "none" recipient is ok
    custom_owner.custom_owner_name = "".into();
    assert!(custom_owner.validate(&dir).is_err()); // empty name not ok
    custom_owner.custom_owner_name = "test".into();
    custom_owner.recipient = "".into();
    assert!(custom_owner.validate(&dir).is_err()); // empty recipient not ok
    custom_owner.recipient = "not_real".into();
    assert!(custom_owner.validate(&dir).is_err()); // invalid recipient not ok
    custom_owner.recipient = "slack_channel".into();
    custom_owner.description = Some("".into());
    assert!(custom_owner.validate(&dir).is_ok()); // empty description is ok
    custom_owner.description = None;
    assert!(custom_owner.validate(&dir).is_ok()); // None description is ok
}

#[test]
fn test_custom_owner_edit_validation() {
    let dir = test_directory();
    let mut custom_owner = CustomOwnerModify {
        id: 0,
        custom_owner_name: "custom1".into(),
        recipient: "slack_channel".into(),
        description: Some("description".into()),
    };
    assert!(custom_owner.validate(&dir).is_ok()); // slack channel recipient is ok
    custom_owner.recipient = "slack_user".into();
    assert!(custom_owner.validate(&dir).is_ok()); // slack user recipient is ok
    custom_owner.recipient = "none".into();
    assert!(custom_owner.validate(&dir).is_ok()); // "none" recipient is ok
    custom_owner.custom_owner_name = "".into();
    assert!(custom_owner.validate(&dir).is_err()); // empty name not ok
    custom_owner.custom_owner_name = "test".into();
    custom_owner.recipient = "".into();
    assert!(custom_owner.validate(&dir).is_err()); // empty recipient not ok
    custom_owner.recipient = "not_real".into();
    assert!(custom_owner.validate(&dir).is_err()); // invalid recipient not ok
    custom_owner.recipient = "slack_channel".into();
    custom_owner.description = Some("".into());
    assert!(custom_owner.validate(&dir).is_ok()); // empty description is ok
    custom_owner.description = None;
    assert!(custom_owner.validate(&dir).is_ok()); // None description is ok
}
