//! The render-ready page contexts: pool and custom-owner listings, the
//! per-pool device page, and how flash messages land in their slots.

use device_checkout::directory::Directory;
use device_checkout::models::{CustomOwnerInsert, DeviceInsert, Error, Flash, PoolInsert};
use device_checkout::routes::{
    gen_custom_owner_context, gen_device_context, gen_pool_context, post_add_custom_owners,
    post_add_pools,
};
use device_checkout::store::Store;

fn seeded_store() -> Store {
    let mut store = Store::new(0);
    store
        .insert_device(
            &DeviceInsert {
                device_name: "unit1".to_string(),
                device_url: "http://unit1".to_string(),
                pool_id: 1,
            },
            0,
        )
        .unwrap();
    store
        .insert_device(
            &DeviceInsert {
                device_name: "unit2".to_string(),
                device_url: "http://unit2".to_string(),
                pool_id: 1,
            },
            0,
        )
        .unwrap();
    store
}

#[test]
fn test_gen_pool_context() {
    let mut store = seeded_store();
    let flash = post_add_pools(
        &mut store,
        &PoolInsert {
            pool_name: "lab".to_string(),
            description: Some("bench row".to_string()),
        },
        0,
    );
    let ctx = gen_pool_context(&store, &Some(flash));
    assert_eq!(ctx.success_message.as_deref(), Some("Successfully added pool"));
    assert!(ctx.error_message.is_none());
    assert_eq!(ctx.pools.len(), 2);
    assert_eq!(ctx.pools[0].pool.pool_name, "Default Pool");
    assert_eq!(ctx.pools[1].pool.pool_name, "lab");
}

#[test]
fn test_gen_custom_owner_context() {
    let mut store = seeded_store();
    let dir = Directory::offline();
    let flash = post_add_custom_owners(
        &mut store,
        &dir,
        &CustomOwnerInsert {
            custom_owner_name: "Team1".to_string(),
            recipient: "None".to_string(),
            description: None,
        },
        0,
    );
    let ctx = gen_custom_owner_context(&store, &Some(flash));
    assert_eq!(
        ctx.success_message.as_deref(),
        Some("Successfully added custom_owner")
    );
    assert!(ctx.error_message.is_none());
    assert_eq!(ctx.custom_owners.len(), 1);
    assert_eq!(ctx.custom_owners[0].custom_owner.custom_owner_name, "team1");
    assert_eq!(ctx.custom_owners[0].custom_owner.recipient, "none");
}

#[test]
fn test_gen_device_context_by_pool() {
    let mut store = seeded_store();
    store
        .insert_pool(
            &PoolInsert {
                pool_name: "lab".to_string(),
                description: None,
            },
            0,
        )
        .unwrap();
    store
        .insert_device(
            &DeviceInsert {
                device_name: "unit3".to_string(),
                device_url: "http://unit3".to_string(),
                pool_id: 2,
            },
            0,
        )
        .unwrap();

    let ctx = gen_device_context(&store, &None, Some(2)).unwrap();
    assert_eq!(ctx.devices.len(), 1);
    assert_eq!(ctx.devices[0].device.device_name, "unit3");
    assert!(!ctx.devices[0].is_reserved);
    assert_eq!(ctx.pools.len(), 2);
    assert_eq!(ctx.current_pool.as_ref().map(|p| p.id), Some(2));

    // a pool nobody created is NotFound
    assert!(matches!(
        gen_device_context(&store, &None, Some(9)),
        Err(Error::NotFound)
    ));
}

#[test]
fn test_error_flash_lands_in_error_slot() {
    let store = seeded_store();
    let flash = Flash::error("/devices", "something went wrong");
    let ctx = gen_device_context(&store, &Some(flash), None).unwrap();
    assert_eq!(ctx.error_message.as_deref(), Some("something went wrong"));
    assert!(ctx.success_message.is_none());
}
