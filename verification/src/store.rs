//! The catalog store: devices, pools and custom owners held as in-memory
//! tables with the integrity rules the schema promises — unique ids assigned
//! from per-table counters, unique names, a pool behind every device, the
//! default pool always present, and no owner or comments on an available
//! device.  Every mutation states exactly what it changed.

use crate::models::{
    clone_opt_string, CustomOwner, CustomOwnerDelete, CustomOwnerInsert, CustomOwnerModify,
    Device, DeviceDelete, DeviceEdit, DeviceInsert, Error, Pool, PoolDelete, PoolInsert,
    PoolModify, ReservationStatus,
};
use crate::text::{lower_of, lowercase};
use vstd::prelude::*;

verus! {

/// Owner and comments are meaningful only while a device is reserved.
pub open spec fn cleared_when_available(d: Device) -> bool {
    d.reservation_status == ReservationStatus::Available ==> d.device_owner is None && d.comments
        is None
}

/// Some pool carries this id.
pub open spec fn has_pool_id(pools: Seq<Pool>, id: i32) -> bool {
    exists|i: int| 0 <= i < pools.len() && (#[trigger] pools[i]).id == id
}

/// Some pool carries this name.
pub open spec fn has_pool_name(pools: Seq<Pool>, n: Seq<char>) -> bool {
    exists|i: int| 0 <= i < pools.len() && (#[trigger] pools[i]).pool_name@ == n
}

/// Some pool other than `id` carries this name.
pub open spec fn has_other_pool_named(pools: Seq<Pool>, n: Seq<char>, id: i32) -> bool {
    exists|i: int|
        0 <= i < pools.len() && (#[trigger] pools[i]).pool_name@ == n && pools[i].id != id
}

/// Some device carries this id.
pub open spec fn has_device_id(devs: Seq<Device>, id: i32) -> bool {
    exists|i: int| 0 <= i < devs.len() && (#[trigger] devs[i]).id == id
}

/// Some device carries this name.
pub open spec fn has_device_name(devs: Seq<Device>, n: Seq<char>) -> bool {
    exists|i: int| 0 <= i < devs.len() && (#[trigger] devs[i]).device_name@ == n
}

/// Some device carries this name, compared case-insensitively.
pub open spec fn has_device_named_ci(devs: Seq<Device>, n: Seq<char>) -> bool {
    exists|i: int|
        0 <= i < devs.len() && lower_of((#[trigger] devs[i]).device_name@) == lower_of(n)
}

/// Some device other than `id` carries this name.
pub open spec fn has_other_device_named(devs: Seq<Device>, n: Seq<char>, id: i32) -> bool {
    exists|i: int|
        0 <= i < devs.len() && (#[trigger] devs[i]).device_name@ == n && devs[i].id != id
}

/// Some device with this id is in the given reservation status.
pub open spec fn has_device_in_status(devs: Seq<Device>, id: i32, st: ReservationStatus) -> bool {
    exists|i: int|
        0 <= i < devs.len() && (#[trigger] devs[i]).id == id && devs[i].reservation_status == st
}

/// The device sits in the pool and is free to be reserved.
pub open spec fn device_in_pool_available(d: Device, pool: i32) -> bool {
    d.pool_id == pool && d.reservation_status == ReservationStatus::Available
}

/// Some device in the pool is available.
pub open spec fn has_available_in_pool(devs: Seq<Device>, pool: i32) -> bool {
    exists|i: int| 0 <= i < devs.len() && device_in_pool_available(#[trigger] devs[i], pool)
}

/// Some device belongs to the pool.
pub open spec fn pool_has_devices(devs: Seq<Device>, pool: i32) -> bool {
    exists|i: int| 0 <= i < devs.len() && (#[trigger] devs[i]).pool_id == pool
}

/// The device is reserved under `q`, compared case-insensitively.
pub open spec fn owner_matches(d: Device, q: Seq<char>) -> bool {
    d.device_owner is Some && lower_of(d.device_owner.unwrap()@) == lower_of(q)
}

/// Some device is reserved under `q`.
pub open spec fn has_device_owned_by(devs: Seq<Device>, q: Seq<char>) -> bool {
    exists|i: int| 0 <= i < devs.len() && owner_matches(#[trigger] devs[i], q)
}

/// Some custom owner carries this id.
pub open spec fn has_custom_owner_id(owners: Seq<CustomOwner>, id: i32) -> bool {
    exists|i: int| 0 <= i < owners.len() && (#[trigger] owners[i]).id == id
}

/// Some custom owner carries this stored name.
pub open spec fn has_custom_owner_name(owners: Seq<CustomOwner>, n: Seq<char>) -> bool {
    exists|i: int| 0 <= i < owners.len() && (#[trigger] owners[i]).custom_owner_name@ == n
}

/// Some custom owner other than `id` carries this stored name.
pub open spec fn has_other_custom_owner_named(owners: Seq<CustomOwner>, n: Seq<char>, id: i32) -> bool {
    exists|i: int|
        0 <= i < owners.len() && (#[trigger] owners[i]).custom_owner_name@ == n && owners[i].id
            != id
}

/// Integrity of the device table: ids drawn from the counter and unique,
/// names unique and non-empty, a pool behind every device, and no owner or
/// comments on an available device.
pub open spec fn devices_wf(devs: Seq<Device>, pools: Seq<Pool>, next: i32) -> bool {
    &&& 1 <= next
    &&& forall|i: int| 0 <= i < devs.len() ==> 1 <= (#[trigger] devs[i]).id < next
    &&& forall|i: int, j: int|
        #![trigger devs[i].id, devs[j].id]
        0 <= i < j < devs.len() ==> devs[i].id != devs[j].id
    &&& forall|i: int, j: int|
        #![trigger devs[i].device_name, devs[j].device_name]
        0 <= i < j < devs.len() ==> devs[i].device_name@ != devs[j].device_name@
    &&& forall|i: int| 0 <= i < devs.len() ==> (#[trigger] devs[i]).device_name@.len() > 0
    &&& forall|i: int| 0 <= i < devs.len() ==> cleared_when_available(#[trigger] devs[i])
    &&& forall|i: int| 0 <= i < devs.len() ==> has_pool_id(pools, (#[trigger] devs[i]).pool_id)
}

/// Integrity of the pool table: ids drawn from the counter and unique,
/// names unique and non-empty.
pub open spec fn pools_wf(pools: Seq<Pool>, next: i32) -> bool {
    &&& 1 <= next
    &&& forall|i: int| 0 <= i < pools.len() ==> 1 <= (#[trigger] pools[i]).id < next
    &&& forall|i: int, j: int|
        #![trigger pools[i].id, pools[j].id]
        0 <= i < j < pools.len() ==> pools[i].id != pools[j].id
    &&& forall|i: int, j: int|
        #![trigger pools[i].pool_name, pools[j].pool_name]
        0 <= i < j < pools.len() ==> pools[i].pool_name@ != pools[j].pool_name@
    &&& forall|i: int| 0 <= i < pools.len() ==> (#[trigger] pools[i]).pool_name@.len() > 0
}

/// Integrity of the custom-owner table: ids drawn from the counter and
/// unique, stored names unique.
pub open spec fn custom_owners_wf(owners: Seq<CustomOwner>, next: i32) -> bool {
    &&& 1 <= next
    &&& forall|i: int| 0 <= i < owners.len() ==> 1 <= (#[trigger] owners[i]).id < next
    &&& forall|i: int, j: int|
        #![trigger owners[i].id, owners[j].id]
        0 <= i < j < owners.len() ==> owners[i].id != owners[j].id
    &&& forall|i: int, j: int|
        #![trigger owners[i].custom_owner_name, owners[j].custom_owner_name]
        0 <= i < j < owners.len() ==> owners[i].custom_owner_name@ != owners[j].custom_owner_name@
}

/// The relational store of the service, held in memory: three tables and
/// the id counter of each.
pub struct Store {
    pub devices: Vec<Device>,
    pub pools: Vec<Pool>,
    pub custom_owners: Vec<CustomOwner>,
    pub next_device_id: i32,
    pub next_pool_id: i32,
    pub next_custom_owner_id: i32,
}

/// The device table and its counter did not change.
pub open spec fn devices_unchanged(pre: Store, post: Store) -> bool {
    post.devices@ == pre.devices@ && post.next_device_id == pre.next_device_id
}

/// The pool table and its counter did not change.
pub open spec fn pools_unchanged(pre: Store, post: Store) -> bool {
    post.pools@ == pre.pools@ && post.next_pool_id == pre.next_pool_id
}

/// The custom-owner table and its counter did not change.
pub open spec fn custom_owners_unchanged(pre: Store, post: Store) -> bool {
    post.custom_owners@ == pre.custom_owners@ && post.next_custom_owner_id
        == pre.next_custom_owner_id
}

/// The device a fresh insert creates.
pub open spec fn spec_new_device(id: i32, ins: DeviceInsert, now: i64) -> Device {
    Device {
        id: id,
        device_name: ins.device_name,
        device_url: Some(ins.device_url),
        device_owner: None,
        comments: None,
        reservation_status: ReservationStatus::Available,
        created_at: now,
        updated_at: now,
        pool_id: ins.pool_id,
    }
}

/// The device an edit leaves behind: name, URL and pool replaced, the
/// reservation fields untouched.
pub open spec fn spec_edited_device(d: Device, e: DeviceEdit, now: i64) -> Device {
    Device {
        id: d.id,
        device_name: e.device_name,
        device_url: Some(e.device_url),
        device_owner: d.device_owner,
        comments: d.comments,
        reservation_status: d.reservation_status,
        created_at: d.created_at,
        updated_at: now,
        pool_id: e.pool_id,
    }
}

/// The pool a fresh insert creates.
pub open spec fn spec_new_pool(id: i32, ins: PoolInsert, now: i64) -> Pool {
    Pool {
        id: id,
        pool_name: ins.pool_name,
        description: ins.description,
        created_at: now,
        updated_at: now,
    }
}

/// The pool an edit leaves behind.
pub open spec fn spec_edited_pool(p: Pool, m: PoolModify, now: i64) -> Pool {
    Pool {
        id: p.id,
        pool_name: m.pool_name,
        description: m.description,
        created_at: p.created_at,
        updated_at: now,
    }
}

/// The custom owner a fresh insert creates.
pub open spec fn spec_new_custom_owner(id: i32, ins: CustomOwnerInsert, now: i64) -> CustomOwner {
    CustomOwner {
        id: id,
        custom_owner_name: ins.custom_owner_name,
        recipient: ins.recipient,
        description: ins.description,
        created_at: now,
        updated_at: now,
    }
}

/// The custom owner an edit leaves behind.
pub open spec fn spec_edited_custom_owner(c: CustomOwner, m: CustomOwnerModify, now: i64) -> CustomOwner {
    CustomOwner {
        id: c.id,
        custom_owner_name: m.custom_owner_name,
        recipient: m.recipient,
        description: m.description,
        created_at: c.created_at,
        updated_at: now,
    }
}

/// Replacing a device with one that keeps its id, name and pool, and keeps
/// the cleared-when-available rule, preserves the device-table integrity.
pub proof fn lemma_devices_wf_update(
    devs: Seq<Device>,
    pools: Seq<Pool>,
    next: i32,
    i: int,
    d: Device,
)
    requires
        devices_wf(devs, pools, next),
        0 <= i < devs.len(),
        d.id == devs[i].id,
        d.device_name@ == devs[i].device_name@,
        d.pool_id == devs[i].pool_id,
        cleared_when_available(d),
    ensures
        devices_wf(devs.update(i, d), pools, next),
{
    let post = devs.update(i, d);
    assert forall|x: int, y: int|
        #![trigger post[x].id, post[y].id]
        0 <= x < y < post.len() implies post[x].id != post[y].id by {
        assert(devs[x].id != devs[y].id);
    }
    assert forall|x: int, y: int|
        #![trigger post[x].device_name, post[y].device_name]
        0 <= x < y < post.len() implies post[x].device_name@ != post[y].device_name@ by {
        assert(devs[x].device_name@ != devs[y].device_name@);
    }
}

/// Appending a device with the next id, a fresh name and an existing pool
/// preserves the device-table integrity, against the stepped counter.
pub proof fn lemma_devices_wf_push(
    devs: Seq<Device>,
    pools: Seq<Pool>,
    next: i32,
    d: Device,
)
    requires
        devices_wf(devs, pools, next),
        next < i32::MAX,
        d.id == next,
        d.device_name@.len() > 0,
        !has_device_name(devs, d.device_name@),
        cleared_when_available(d),
        has_pool_id(pools, d.pool_id),
    ensures
        devices_wf(devs.push(d), pools, (next + 1) as i32),
{
    let post = devs.push(d);
    assert forall|x: int, y: int|
        #![trigger post[x].id, post[y].id]
        0 <= x < y < post.len() implies post[x].id != post[y].id by {
        if y < devs.len() {
            assert(devs[x].id != devs[y].id);
        } else {
            assert(devs[x].id < next);
        }
    }
    assert forall|x: int, y: int|
        #![trigger post[x].device_name, post[y].device_name]
        0 <= x < y < post.len() implies post[x].device_name@ != post[y].device_name@ by {
        if y < devs.len() {
            assert(devs[x].device_name@ != devs[y].device_name@);
        } else {
            assert(!has_device_name(devs, d.device_name@));
            assert(devs[x].device_name@ != d.device_name@);
        }
    }
}

/// Removing a device preserves the device-table integrity.
pub proof fn lemma_devices_wf_remove(devs: Seq<Device>, pools: Seq<Pool>, next: i32, i: int)
    requires
        devices_wf(devs, pools, next),
        0 <= i < devs.len(),
    ensures
        devices_wf(devs.remove(i), pools, next),
{
    let post = devs.remove(i);
    assert forall|x: int| 0 <= x < post.len() implies 1 <= (#[trigger] post[x]).id < next
        && post[x].device_name@.len() > 0 && cleared_when_available(post[x]) && has_pool_id(
        pools,
        post[x].pool_id,
    ) by {
        if x < i {
            assert(post[x] == devs[x]);
        } else {
            assert(post[x] == devs[x + 1]);
        }
    }
    assert forall|x: int, y: int|
        #![trigger post[x].id, post[y].id]
        0 <= x < y < post.len() implies post[x].id != post[y].id by {
        let x0: int = if x < i {
            x
        } else {
            x + 1
        };
        let y0: int = if y < i {
            y
        } else {
            y + 1
        };
        assert(devs[x0].id != devs[y0].id);
    }
    assert forall|x: int, y: int|
        #![trigger post[x].device_name, post[y].device_name]
        0 <= x < y < post.len() implies post[x].device_name@ != post[y].device_name@ by {
        let x0: int = if x < i {
            x
        } else {
            x + 1
        };
        let y0: int = if y < i {
            y
        } else {
            y + 1
        };
        assert(devs[x0].device_name@ != devs[y0].device_name@);
    }
}

/// Replacing a pool with one that keeps its id and takes a non-empty name
/// no other pool holds preserves the pool-table integrity.
pub proof fn lemma_pools_wf_update(pools: Seq<Pool>, next: i32, i: int, p: Pool)
    requires
        pools_wf(pools, next),
        0 <= i < pools.len(),
        p.id == pools[i].id,
        p.pool_name@.len() > 0,
        !has_other_pool_named(pools, p.pool_name@, p.id),
    ensures
        pools_wf(pools.update(i, p), next),
{
    let post = pools.update(i, p);
    assert forall|x: int, y: int|
        #![trigger post[x].id, post[y].id]
        0 <= x < y < post.len() implies post[x].id != post[y].id by {
        assert(pools[x].id != pools[y].id);
    }
    assert forall|x: int, y: int|
        #![trigger post[x].pool_name, post[y].pool_name]
        0 <= x < y < post.len() implies post[x].pool_name@ != post[y].pool_name@ by {
        assert(pools[x].id != pools[y].id);
        if x != i && y != i {
            assert(pools[x].pool_name@ != pools[y].pool_name@);
        }
    }
}

/// Appending a pool with the next id and a fresh non-empty name preserves
/// the pool-table integrity, against the stepped counter.
pub proof fn lemma_pools_wf_push(pools: Seq<Pool>, next: i32, p: Pool)
    requires
        pools_wf(pools, next),
        next < i32::MAX,
        p.id == next,
        p.pool_name@.len() > 0,
        !has_pool_name(pools, p.pool_name@),
    ensures
        pools_wf(pools.push(p), (next + 1) as i32),
{
    let post = pools.push(p);
    assert forall|x: int, y: int|
        #![trigger post[x].id, post[y].id]
        0 <= x < y < post.len() implies post[x].id != post[y].id by {
        if y < pools.len() {
            assert(pools[x].id != pools[y].id);
        } else {
            assert(pools[x].id < next);
        }
    }
    assert forall|x: int, y: int|
        #![trigger post[x].pool_name, post[y].pool_name]
        0 <= x < y < post.len() implies post[x].pool_name@ != post[y].pool_name@ by {
        if y < pools.len() {
            assert(pools[x].pool_name@ != pools[y].pool_name@);
        } else {
            assert(pools[x].pool_name@ != p.pool_name@);
        }
    }
}

/// Removing a pool preserves the pool-table integrity.
pub proof fn lemma_pools_wf_remove(pools: Seq<Pool>, next: i32, i: int)
    requires
        pools_wf(pools, next),
        0 <= i < pools.len(),
    ensures
        pools_wf(pools.remove(i), next),
{
    let post = pools.remove(i);
    assert forall|x: int| 0 <= x < post.len() implies 1 <= (#[trigger] post[x]).id < next
        && post[x].pool_name@.len() > 0 by {
        if x < i {
            assert(post[x] == pools[x]);
        } else {
            assert(post[x] == pools[x + 1]);
        }
    }
    assert forall|x: int, y: int|
        #![trigger post[x].id, post[y].id]
        0 <= x < y < post.len() implies post[x].id != post[y].id by {
        let x0: int = if x < i {
            x
        } else {
            x + 1
        };
        let y0: int = if y < i {
            y
        } else {
            y + 1
        };
        assert(pools[x0].id != pools[y0].id);
    }
    assert forall|x: int, y: int|
        #![trigger post[x].pool_name, post[y].pool_name]
        0 <= x < y < post.len() implies post[x].pool_name@ != post[y].pool_name@ by {
        let x0: int = if x < i {
            x
        } else {
            x + 1
        };
        let y0: int = if y < i {
            y
        } else {
            y + 1
        };
        assert(pools[x0].pool_name@ != pools[y0].pool_name@);
    }
}

/// A pool id that some other entry holds is still present after a removal.
pub proof fn lemma_has_pool_id_after_remove(pools: Seq<Pool>, i: int, id: i32)
    requires
        0 <= i < pools.len(),
        has_pool_id(pools, id),
        pools[i].id != id,
    ensures
        has_pool_id(pools.remove(i), id),
{
    let post = pools.remove(i);
    let j = choose|j: int| 0 <= j < pools.len() && (#[trigger] pools[j]).id == id;
    if j < i {
        assert(post[j] == pools[j]);
    } else {
        assert(post[j - 1] == pools[j]);
    }
}

/// Replacing a custom owner with one that keeps its id and takes a stored
/// name no other entry holds preserves the custom-owner-table integrity.
pub proof fn lemma_custom_owners_wf_update(owners: Seq<CustomOwner>, next: i32, i: int, c: CustomOwner)
    requires
        custom_owners_wf(owners, next),
        0 <= i < owners.len(),
        c.id == owners[i].id,
        !has_other_custom_owner_named(owners, c.custom_owner_name@, c.id),
    ensures
        custom_owners_wf(owners.update(i, c), next),
{
    let post = owners.update(i, c);
    assert forall|x: int, y: int|
        #![trigger post[x].id, post[y].id]
        0 <= x < y < post.len() implies post[x].id != post[y].id by {
        assert(owners[x].id != owners[y].id);
    }
    assert forall|x: int, y: int|
        #![trigger post[x].custom_owner_name, post[y].custom_owner_name]
        0 <= x < y < post.len() implies post[x].custom_owner_name@ != post[y].custom_owner_name@ by {
        assert(owners[x].id != owners[y].id);
        if x != i && y != i {
            assert(owners[x].custom_owner_name@ != owners[y].custom_owner_name@);
        }
    }
}

/// Appending a custom owner with the next id and a fresh stored name
/// preserves the custom-owner-table integrity, against the stepped counter.
pub proof fn lemma_custom_owners_wf_push(owners: Seq<CustomOwner>, next: i32, c: CustomOwner)
    requires
        custom_owners_wf(owners, next),
        next < i32::MAX,
        c.id == next,
        !has_custom_owner_name(owners, c.custom_owner_name@),
    ensures
        custom_owners_wf(owners.push(c), (next + 1) as i32),
{
    let post = owners.push(c);
    assert forall|x: int, y: int|
        #![trigger post[x].id, post[y].id]
        0 <= x < y < post.len() implies post[x].id != post[y].id by {
        if y < owners.len() {
            assert(owners[x].id != owners[y].id);
        } else {
            assert(owners[x].id < next);
        }
    }
    assert forall|x: int, y: int|
        #![trigger post[x].custom_owner_name, post[y].custom_owner_name]
        0 <= x < y < post.len() implies post[x].custom_owner_name@ != post[y].custom_owner_name@ by {
        if y < owners.len() {
            assert(owners[x].custom_owner_name@ != owners[y].custom_owner_name@);
        } else {
            assert(owners[x].custom_owner_name@ != c.custom_owner_name@);
        }
    }
}

/// Removing a custom owner preserves the custom-owner-table integrity.
pub proof fn lemma_custom_owners_wf_remove(owners: Seq<CustomOwner>, next: i32, i: int)
    requires
        custom_owners_wf(owners, next),
        0 <= i < owners.len(),
    ensures
        custom_owners_wf(owners.remove(i), next),
{
    let post = owners.remove(i);
    assert forall|x: int| 0 <= x < post.len() implies 1 <= (#[trigger] post[x]).id < next by {
        if x < i {
            assert(post[x] == owners[x]);
        } else {
            assert(post[x] == owners[x + 1]);
        }
    }
    assert forall|x: int, y: int|
        #![trigger post[x].id, post[y].id]
        0 <= x < y < post.len() implies post[x].id != post[y].id by {
        let x0: int = if x < i {
            x
        } else {
            x + 1
        };
        let y0: int = if y < i {
            y
        } else {
            y + 1
        };
        assert(owners[x0].id != owners[y0].id);
    }
    assert forall|x: int, y: int|
        #![trigger post[x].custom_owner_name, post[y].custom_owner_name]
        0 <= x < y < post.len() implies post[x].custom_owner_name@ != post[y].custom_owner_name@ by {
        let x0: int = if x < i {
            x
        } else {
            x + 1
        };
        let y0: int = if y < i {
            y
        } else {
            y + 1
        };
        assert(owners[x0].custom_owner_name@ != owners[y0].custom_owner_name@);
    }
}

/// Replacing a device with one that keeps its id but may take a fresh
/// non-empty name and move to an existing pool preserves the device-table
/// integrity.
pub proof fn lemma_devices_wf_update_renamed(
    devs: Seq<Device>,
    pools: Seq<Pool>,
    next: i32,
    i: int,
    d: Device,
)
    requires
        devices_wf(devs, pools, next),
        0 <= i < devs.len(),
        d.id == devs[i].id,
        d.device_name@.len() > 0,
        !has_other_device_named(devs, d.device_name@, d.id),
        cleared_when_available(d),
        has_pool_id(pools, d.pool_id),
    ensures
        devices_wf(devs.update(i, d), pools, next),
{
    let post = devs.update(i, d);
    assert forall|x: int, y: int|
        #![trigger post[x].id, post[y].id]
        0 <= x < y < post.len() implies post[x].id != post[y].id by {
        assert(devs[x].id != devs[y].id);
    }
    assert forall|x: int, y: int|
        #![trigger post[x].device_name, post[y].device_name]
        0 <= x < y < post.len() implies post[x].device_name@ != post[y].device_name@ by {
        assert(devs[x].id != devs[y].id);
        if x != i && y != i {
            assert(devs[x].device_name@ != devs[y].device_name@);
        } else if x == i {
            assert(!(devs[y].device_name@ == d.device_name@ && devs[y].id != d.id));
        } else {
            assert(!(devs[x].device_name@ == d.device_name@ && devs[x].id != d.id));
        }
    }
}

/// Filtering distributes over appending one element.
pub proof fn lemma_filter_push<A>(s: Seq<A>, p: spec_fn(A) -> bool, x: A)
    ensures
        s.push(x).filter(p) == (if p(x) {
            s.filter(p).push(x)
        } else {
            s.filter(p)
        }),
{
    reveal(Seq::filter);
    assert(s.push(x).drop_last() =~= s);
}

impl Store {
    /// Integrity of the whole store, including the presence of the default
    /// pool (id 1).
    pub open spec fn wf(&self) -> bool {
        &&& devices_wf(self.devices@, self.pools@, self.next_device_id)
        &&& pools_wf(self.pools@, self.next_pool_id)
        &&& custom_owners_wf(self.custom_owners@, self.next_custom_owner_id)
        &&& has_pool_id(self.pools@, 1)
    }

    /// A fresh store holding only the default pool.
    pub fn new(now: i64) -> (r: Store)
        ensures
            r.wf(),
            r.devices@.len() == 0,
            r.custom_owners@.len() == 0,
            r.pools@.len() == 1,
            r.pools@[0].id == 1,
            r.pools@[0].pool_name@ == "Default Pool"@,
            r.pools@[0].description matches Some(d) && d@.len() == 0,
            r.pools@[0].created_at == now,
            r.pools@[0].updated_at == now,
            r.next_device_id == 1,
            r.next_pool_id == 2,
            r.next_custom_owner_id == 1,
    {
        let mut pools: Vec<Pool> = Vec::new();
        pools.push(
            Pool {
                id: 1,
                pool_name: "Default Pool".to_owned(),
                description: Some("".to_owned()),
                created_at: now,
                updated_at: now,
            },
        );
        let r = Store {
            devices: Vec::new(),
            pools,
            custom_owners: Vec::new(),
            next_device_id: 1,
            next_pool_id: 2,
            next_custom_owner_id: 1,
        };
        proof {
            reveal_strlit("Default Pool");
            reveal_strlit("");
            assert(("")@.len() == 0);
            assert(r.pools@[0].id == 1);
        }
        r
    }

    /// Index of the device with this id, if any.
    pub(crate) fn find_device_index(&self, id: i32) -> (r: Option<usize>)
        ensures
            match r {
                Some(i) => i < self.devices@.len() && self.devices@[i as int].id == id,
                None => !has_device_id(self.devices@, id),
            },
    {
        let n = self.devices.len();
        let mut i: usize = 0;
        while i < n
            invariant
                n == self.devices@.len(),
                i <= n,
                forall|j: int| 0 <= j < i ==> (#[trigger] self.devices@[j]).id != id,
            decreases n - i,
        {
            if self.devices[i].id == id {
                return Some(i);
            }
            i += 1;
        }
        None
    }

    /// Index of the pool with this id, if any.
    fn find_pool_index(&self, id: i32) -> (r: Option<usize>)
        ensures
            match r {
                Some(i) => i < self.pools@.len() && self.pools@[i as int].id == id,
                None => !has_pool_id(self.pools@, id),
            },
    {
        let n = self.pools.len();
        let mut i: usize = 0;
        while i < n
            invariant
                n == self.pools@.len(),
                i <= n,
                forall|j: int| 0 <= j < i ==> (#[trigger] self.pools@[j]).id != id,
            decreases n - i,
        {
            if self.pools[i].id == id {
                return Some(i);
            }
            i += 1;
        }
        None
    }

    /// Index of the custom owner with this id, if any.
    fn find_custom_owner_index(&self, id: i32) -> (r: Option<usize>)
        ensures
            match r {
                Some(i) => i < self.custom_owners@.len() && self.custom_owners@[i as int].id == id,
                None => !has_custom_owner_id(self.custom_owners@, id),
            },
    {
        let n = self.custom_owners.len();
        let mut i: usize = 0;
        while i < n
            invariant
                n == self.custom_owners@.len(),
                i <= n,
                forall|j: int| 0 <= j < i ==> (#[trigger] self.custom_owners@[j]).id != id,
            decreases n - i,
        {
            if self.custom_owners[i].id == id {
                return Some(i);
            }
            i += 1;
        }
        None
    }

    /// Whether some device carries this name.
    fn device_name_exists(&self, name: &String) -> (r: bool)
        ensures
            r == has_device_name(self.devices@, name@),
    {
        let n = self.devices.len();
        let mut i: usize = 0;
        while i < n
            invariant
                n == self.devices@.len(),
                i <= n,
                forall|j: int| 0 <= j < i ==> (#[trigger] self.devices@[j]).device_name@ != name@,
            decreases n - i,
        {
            if self.devices[i].device_name == *name {
                return true;
            }
            i += 1;
        }
        false
    }

    /// Whether a device other than `id` carries this name.
    fn device_name_clash(&self, name: &String, id: i32) -> (r: bool)
        ensures
            r == has_other_device_named(self.devices@, name@, id),
    {
        let n = self.devices.len();
        let mut i: usize = 0;
        while i < n
            invariant
                n == self.devices@.len(),
                i <= n,
                forall|j: int|
                    0 <= j < i ==> !((#[trigger] self.devices@[j]).device_name@ == name@
                        && self.devices@[j].id != id),
            decreases n - i,
        {
            if self.devices[i].device_name == *name && self.devices[i].id != id {
                return true;
            }
            i += 1;
        }
        false
    }

    /// Whether some pool carries this name.
    fn pool_name_exists(&self, name: &String) -> (r: bool)
        ensures
            r == has_pool_name(self.pools@, name@),
    {
        let n = self.pools.len();
        let mut i: usize = 0;
        while i < n
            invariant
                n == self.pools@.len(),
                i <= n,
                forall|j: int| 0 <= j < i ==> (#[trigger] self.pools@[j]).pool_name@ != name@,
            decreases n - i,
        {
            if self.pools[i].pool_name == *name {
                return true;
            }
            i += 1;
        }
        false
    }

    /// Whether a pool other than `id` carries this name.
    fn pool_name_clash(&self, name: &String, id: i32) -> (r: bool)
        ensures
            r == has_other_pool_named(self.pools@, name@, id),
    {
        let n = self.pools.len();
        let mut i: usize = 0;
        while i < n
            invariant
                n == self.pools@.len(),
                i <= n,
                forall|j: int|
                    0 <= j < i ==> !((#[trigger] self.pools@[j]).pool_name@ == name@
                        && self.pools@[j].id != id),
            decreases n - i,
        {
            if self.pools[i].pool_name == *name && self.pools[i].id != id {
                return true;
            }
            i += 1;
        }
        false
    }

    /// Whether some custom owner carries this stored name.
    fn custom_owner_name_exists(&self, name: &String) -> (r: bool)
        ensures
            r == has_custom_owner_name(self.custom_owners@, name@),
    {
        let n = self.custom_owners.len();
        let mut i: usize = 0;
        while i < n
            invariant
                n == self.custom_owners@.len(),
                i <= n,
                forall|j: int|
                    0 <= j < i ==> (#[trigger] self.custom_owners@[j]).custom_owner_name@ != name@,
            decreases n - i,
        {
            if self.custom_owners[i].custom_owner_name == *name {
                return true;
            }
            i += 1;
        }
        false
    }

    /// Whether a custom owner other than `id` carries this stored name.
    fn custom_owner_name_clash(&self, name: &String, id: i32) -> (r: bool)
        ensures
            r == has_other_custom_owner_named(self.custom_owners@, name@, id),
    {
        let n = self.custom_owners.len();
        let mut i: usize = 0;
        while i < n
            invariant
                n == self.custom_owners@.len(),
                i <= n,
                forall|j: int|
                    0 <= j < i ==> !((#[trigger] self.custom_owners@[j]).custom_owner_name@ == name@
                        && self.custom_owners@[j].id != id),
            decreases n - i,
        {
            if self.custom_owners[i].custom_owner_name == *name && self.custom_owners[i].id != id {
                return true;
            }
            i += 1;
        }
        false
    }

    /// Whether the pool still holds a device.
    fn pool_in_use(&self, pool: i32) -> (r: bool)
        ensures
            r == pool_has_devices(self.devices@, pool),
    {
        let n = self.devices.len();
        let mut i: usize = 0;
        while i < n
            invariant
                n == self.devices@.len(),
                i <= n,
                forall|j: int| 0 <= j < i ==> (#[trigger] self.devices@[j]).pool_id != pool,
            decreases n - i,
        {
            if self.devices[i].pool_id == pool {
                return true;
            }
            i += 1;
        }
        false
    }

    /// Whether some device is reserved under `q`, case-insensitively.
    fn device_owned_by_exists(&self, q: &str) -> (r: bool)
        ensures
            r == has_device_owned_by(self.devices@, q@),
    {
        let target = lowercase(q);
        let n = self.devices.len();
        let mut i: usize = 0;
        while i < n
            invariant
                n == self.devices@.len(),
                i <= n,
                target@ == lower_of(q@),
                forall|j: int| 0 <= j < i ==> !owner_matches(#[trigger] self.devices@[j], q@),
            decreases n - i,
        {
            match &self.devices[i].device_owner {
                Some(o) => {
                    let low = lowercase(o.as_str());
                    if low == target {
                        assert(owner_matches(self.devices@[i as int], q@));
                        return true;
                    }
                },
                None => {},
            }
            i += 1;
        }
        false
    }

    /// All devices.
    pub fn get_devices(&self) -> (r: Vec<Device>)
        ensures
            r@ == self.devices@,
    {
        let r = self.devices.clone();
        proof {
            assert forall|i: int| 0 <= i < r@.len() implies r@[i] == self.devices@[i] by {
                assert(cloned::<Device>(self.devices@[i], r@[i]));
            }
            assert(r@ =~= self.devices@);
        }
        r
    }

    /// All pools.
    pub fn get_pools(&self) -> (r: Vec<Pool>)
        ensures
            r@ == self.pools@,
    {
        let r = self.pools.clone();
        proof {
            assert forall|i: int| 0 <= i < r@.len() implies r@[i] == self.pools@[i] by {
                assert(cloned::<Pool>(self.pools@[i], r@[i]));
            }
            assert(r@ =~= self.pools@);
        }
        r
    }

    /// All custom owners.
    pub fn get_custom_owners(&self) -> (r: Vec<CustomOwner>)
        ensures
            r@ == self.custom_owners@,
    {
        let r = self.custom_owners.clone();
        proof {
            assert forall|i: int| 0 <= i < r@.len() implies r@[i] == self.custom_owners@[i] by {
                assert(cloned::<CustomOwner>(self.custom_owners@[i], r@[i]));
            }
            assert(r@ =~= self.custom_owners@);
        }
        r
    }

    /// The devices of one pool, in table order.
    pub fn get_devices_in_pool(&self, requested_pool_id: i32) -> (r: Vec<Device>)
        ensures
            r@ == self.devices@.filter(|d: Device| d.pool_id == requested_pool_id),
    {
        let p = Ghost(|d: Device| d.pool_id == requested_pool_id);
        let mut r: Vec<Device> = Vec::new();
        let n = self.devices.len();
        let mut i: usize = 0;
        proof {
            assert(self.devices@.subrange(0, 0) =~= Seq::<Device>::empty());
            reveal(Seq::filter);
        }
        while i < n
            invariant
                n == self.devices@.len(),
                i <= n,
                r@ == self.devices@.subrange(0, i as int).filter(p@),
                p@ == (|d: Device| d.pool_id == requested_pool_id),
            decreases n - i,
        {
            proof {
                assert(self.devices@.subrange(0, i + 1 as int) =~= self.devices@.subrange(
                    0,
                    i as int,
                ).push(self.devices@[i as int]));
                lemma_filter_push(
                    self.devices@.subrange(0, i as int),
                    p@,
                    self.devices@[i as int],
                );
            }
            if self.devices[i].pool_id == requested_pool_id {
                r.push(self.devices[i].clone());
            }
            i += 1;
        }
        proof {
            assert(self.devices@.subrange(0, n as int) =~= self.devices@);
        }
        r
    }

    /// The devices reserved under `requested_owner`, case-insensitively,
    /// in table order.
    pub fn get_devices_by_owner(&self, requested_owner: &str) -> (r: Vec<Device>)
        ensures
            r@ == self.devices@.filter(|d: Device| owner_matches(d, requested_owner@)),
    {
        let p = Ghost(|d: Device| owner_matches(d, requested_owner@));
        let target = lowercase(requested_owner);
        let mut r: Vec<Device> = Vec::new();
        let n = self.devices.len();
        let mut i: usize = 0;
        proof {
            assert(self.devices@.subrange(0, 0) =~= Seq::<Device>::empty());
            reveal(Seq::filter);
        }
        while i < n
            invariant
                n == self.devices@.len(),
                i <= n,
                target@ == lower_of(requested_owner@),
                r@ == self.devices@.subrange(0, i as int).filter(p@),
                p@ == (|d: Device| owner_matches(d, requested_owner@)),
            decreases n - i,
        {
            proof {
                assert(self.devices@.subrange(0, i + 1 as int) =~= self.devices@.subrange(
                    0,
                    i as int,
                ).push(self.devices@[i as int]));
                lemma_filter_push(
                    self.devices@.subrange(0, i as int),
                    p@,
                    self.devices@[i as int],
                );
            }
            let matched = match &self.devices[i].device_owner {
                Some(o) => {
                    let low = lowercase(o.as_str());
                    low == target
                },
                None => false,
            };
            if matched {
                r.push(self.devices[i].clone());
            }
            i += 1;
        }
        proof {
            assert(self.devices@.subrange(0, n as int) =~= self.devices@);
        }
        r
    }

    /// The device carrying `requested_name`, compared case-insensitively,
    /// if any.
    pub fn get_device(&self, requested_name: &str) -> (r: Option<Device>)
        ensures
            match r {
                Some(d) => exists|i: int|
                    0 <= i < self.devices@.len() && d == self.devices@[i] && lower_of(
                        d.device_name@,
                    ) == lower_of(requested_name@),
                None => !has_device_named_ci(self.devices@, requested_name@),
            },
    {
        let target = lowercase(requested_name);
        let n = self.devices.len();
        let mut i: usize = 0;
        while i < n
            invariant
                n == self.devices@.len(),
                i <= n,
                target@ == lower_of(requested_name@),
                forall|j: int|
                    0 <= j < i ==> lower_of((#[trigger] self.devices@[j]).device_name@) != lower_of(
                        requested_name@,
                    ),
            decreases n - i,
        {
            let low = lowercase(self.devices[i].device_name.as_str());
            if low == target {
                return Some(self.devices[i].clone());
            }
            i += 1;
        }
        None
    }

    /// The device carrying `requested_id`, if any.
    pub fn get_device_by_id(&self, requested_id: i32) -> (r: Option<Device>)
        ensures
            match r {
                Some(d) => exists|i: int|
                    0 <= i < self.devices@.len() && d == self.devices@[i] && d.id == requested_id,
                None => !has_device_id(self.devices@, requested_id),
            },
    {
        match self.find_device_index(requested_id) {
            Some(i) => Some(self.devices[i].clone()),
            None => None,
        }
    }

    /// The pool carrying `requested_id`, if any.
    pub fn get_pool_by_id(&self, requested_id: i32) -> (r: Option<Pool>)
        ensures
            match r {
                Some(p) => exists|i: int|
                    0 <= i < self.pools@.len() && p == self.pools@[i] && p.id == requested_id,
                None => !has_pool_id(self.pools@, requested_id),
            },
    {
        match self.find_pool_index(requested_id) {
            Some(i) => Some(self.pools[i].clone()),
            None => None,
        }
    }

    /// The custom owner stored under `requested_name`, compared after
    /// lowercasing the query the way names are stored.
    pub fn get_custom_owner(&self, requested_name: &str) -> (r: Option<CustomOwner>)
        ensures
            match r {
                Some(c) => exists|i: int|
                    0 <= i < self.custom_owners@.len() && c == self.custom_owners@[i]
                        && c.custom_owner_name@ == lower_of(requested_name@),
                None => !has_custom_owner_name(self.custom_owners@, lower_of(requested_name@)),
            },
    {
        let target = lowercase(requested_name);
        let n = self.custom_owners.len();
        let mut i: usize = 0;
        while i < n
            invariant
                n == self.custom_owners@.len(),
                i <= n,
                target@ == lower_of(requested_name@),
                forall|j: int|
                    0 <= j < i ==> (#[trigger] self.custom_owners@[j]).custom_owner_name@
                        != lower_of(requested_name@),
            decreases n - i,
        {
            if self.custom_owners[i].custom_owner_name == target {
                return Some(self.custom_owners[i].clone());
            }
            i += 1;
        }
        None
    }

    /// The custom owner carrying `requested_id`, if any.
    pub fn get_custom_owner_by_id(&self, requested_id: i32) -> (r: Option<CustomOwner>)
        ensures
            match r {
                Some(c) => exists|i: int|
                    0 <= i < self.custom_owners@.len() && c == self.custom_owners@[i] && c.id
                        == requested_id,
                None => !has_custom_owner_id(self.custom_owners@, requested_id),
            },
    {
        match self.find_custom_owner_index(requested_id) {
            Some(i) => Some(self.custom_owners[i].clone()),
            None => None,
        }
    }

    /// Whether some pool carries this id.
    fn pool_id_exists(&self, id: i32) -> (r: bool)
        ensures
            r == has_pool_id(self.pools@, id),
    {
        match self.find_pool_index(id) {
            Some(i) => {
                proof {
                    assert(self.pools@[i as int].id == id);
                }
                true
            },
            None => false,
        }
    }

    /// Inserts a device: available and unowned, under a fresh non-empty
    /// name, in an existing pool, with the next id.  A violated table
    /// constraint is a store-level failure and changes nothing.
    pub fn insert_device(&mut self, device_insert: &DeviceInsert, now: i64) -> (r: Result<
        usize,
        Error,
    >)
        requires
            old(self).wf(),
        ensures
            final(self).wf(),
            pools_unchanged(*old(self), *final(self)),
            custom_owners_unchanged(*old(self), *final(self)),
            r is Ok <==> (old(self).next_device_id < i32::MAX && device_insert.device_name@.len()
                > 0 && !has_device_name(old(self).devices@, device_insert.device_name@)
                && has_pool_id(old(self).pools@, device_insert.pool_id)),
            r is Ok ==> r == Ok::<usize, Error>(1) && final(self).devices@ == old(self).devices@.push(spec_new_device(old(self).next_device_id, *device_insert, now))
                && final(self).next_device_id == old(self).next_device_id + 1,
            r is Err ==> r == Err::<usize, Error>(Error::InternalError) && devices_unchanged(
                *old(self),
                *final(self),
            ),
    {
        if self.next_device_id == i32::MAX {
            return Err(Error::InternalError);
        }
        if device_insert.device_name.as_str().is_empty() {
            return Err(Error::InternalError);
        }
        if self.device_name_exists(&device_insert.device_name) {
            return Err(Error::InternalError);
        }
        if !self.pool_id_exists(device_insert.pool_id) {
            return Err(Error::InternalError);
        }
        let id = self.next_device_id;
        let d = Device {
            id,
            device_name: device_insert.device_name.clone(),
            device_url: Some(device_insert.device_url.clone()),
            device_owner: None,
            comments: None,
            reservation_status: ReservationStatus::Available,
            created_at: now,
            updated_at: now,
            pool_id: device_insert.pool_id,
        };
        proof {
            assert(d == spec_new_device(old(self).next_device_id, *device_insert, now));
            lemma_devices_wf_push(self.devices@, self.pools@, self.next_device_id, d);
        }
        self.devices.push(d);
        self.next_device_id = id + 1;
        Ok(1)
    }

    /// Edits a device's name, URL and pool, never its reservation fields.
    /// A missing id touches zero rows; a violated table constraint is a
    /// store-level failure and changes nothing.
    pub fn edit_device(&mut self, device_edit: &DeviceEdit, now: i64) -> (r: Result<usize, Error>)
        requires
            old(self).wf(),
        ensures
            final(self).wf(),
            pools_unchanged(*old(self), *final(self)),
            custom_owners_unchanged(*old(self), *final(self)),
            final(self).next_device_id == old(self).next_device_id,
            !has_device_id(old(self).devices@, device_edit.id) ==> r == Ok::<usize, Error>(0)
                && devices_unchanged(*old(self), *final(self)),
            has_device_id(old(self).devices@, device_edit.id) && !(device_edit.device_name@.len()
                > 0 && !has_other_device_named(old(self).devices@, device_edit.device_name@,
            device_edit.id) && has_pool_id(old(self).pools@, device_edit.pool_id)) ==> r == Err::<
                usize,
                Error,
            >(Error::InternalError) && devices_unchanged(*old(self), *final(self)),
            has_device_id(old(self).devices@, device_edit.id) && device_edit.device_name@.len() > 0
                && !has_other_device_named(old(self).devices@, device_edit.device_name@,
            device_edit.id) && has_pool_id(old(self).pools@, device_edit.pool_id) ==> r == Ok::<
                usize,
                Error,
            >(1) && exists|i: int|
                0 <= i < old(self).devices@.len() && (#[trigger] old(self).devices@[i]).id
                    == device_edit.id && final(self).devices@ == old(self).devices@.update(
                    i,
                    spec_edited_device(old(self).devices@[i], *device_edit, now),
                ),
    {
        match self.find_device_index(device_edit.id) {
            None => Ok(0),
            Some(i) => {
                if device_edit.device_name.as_str().is_empty() {
                    return Err(Error::InternalError);
                }
                if self.device_name_clash(&device_edit.device_name, device_edit.id) {
                    return Err(Error::InternalError);
                }
                if !self.pool_id_exists(device_edit.pool_id) {
                    return Err(Error::InternalError);
                }
                let d0 = &self.devices[i];
                let d = Device {
                    id: d0.id,
                    device_name: device_edit.device_name.clone(),
                    device_url: Some(device_edit.device_url.clone()),
                    device_owner: clone_opt_string(&d0.device_owner),
                    comments: clone_opt_string(&d0.comments),
                    reservation_status: d0.reservation_status,
                    created_at: d0.created_at,
                    updated_at: now,
                    pool_id: device_edit.pool_id,
                };
                proof {
                    assert(d == spec_edited_device(
                        self.devices@[i as int],
                        *device_edit,
                        now,
                    ));
                    lemma_devices_wf_update_renamed(
                        self.devices@,
                        self.pools@,
                        self.next_device_id,
                        i as int,
                        d,
                    );
                }
                self.devices.set(i, d);
                Ok(1)
            },
        }
    }

    /// Deletes the device with this id, reporting how many rows matched.
    pub fn delete_device(&mut self, device_delete: &DeviceDelete) -> (r: usize)
        requires
            old(self).wf(),
        ensures
            final(self).wf(),
            pools_unchanged(*old(self), *final(self)),
            custom_owners_unchanged(*old(self), *final(self)),
            final(self).next_device_id == old(self).next_device_id,
            !has_device_id(old(self).devices@, device_delete.id) ==> r == 0 && devices_unchanged(
                *old(self),
                *final(self),
            ),
            has_device_id(old(self).devices@, device_delete.id) ==> r == 1 && exists|i: int|
                0 <= i < old(self).devices@.len() && (#[trigger] old(self).devices@[i]).id
                    == device_delete.id && final(self).devices@ == old(self).devices@.remove(i),
    {
        match self.find_device_index(device_delete.id) {
            None => 0,
            Some(i) => {
                proof {
                    lemma_devices_wf_remove(
                        self.devices@,
                        self.pools@,
                        self.next_device_id,
                        i as int,
                    );
                }
                self.devices.remove(i);
                1
            },
        }
    }

    /// Inserts a pool under a fresh non-empty name, with the next id.
    /// A violated table constraint is a store-level failure and changes
    /// nothing.
    pub fn insert_pool(&mut self, pool_insert: &PoolInsert, now: i64) -> (r: Result<usize, Error>)
        requires
            old(self).wf(),
        ensures
            final(self).wf(),
            devices_unchanged(*old(self), *final(self)),
            custom_owners_unchanged(*old(self), *final(self)),
            r is Ok <==> (old(self).next_pool_id < i32::MAX && pool_insert.pool_name@.len() > 0
                && !has_pool_name(old(self).pools@, pool_insert.pool_name@)),
            r is Ok ==> r == Ok::<usize, Error>(1) && final(self).pools@ == old(self).pools@.push(spec_new_pool(old(self).next_pool_id, *pool_insert, now)) && final(self).next_pool_id == old(self).next_pool_id + 1,
            r is Err ==> r == Err::<usize, Error>(Error::InternalError) && pools_unchanged(
                *old(self),
                *final(self),
            ),
    {
        if self.next_pool_id == i32::MAX {
            return Err(Error::InternalError);
        }
        if pool_insert.pool_name.as_str().is_empty() {
            return Err(Error::InternalError);
        }
        if self.pool_name_exists(&pool_insert.pool_name) {
            return Err(Error::InternalError);
        }
        let id = self.next_pool_id;
        let p = Pool {
            id,
            pool_name: pool_insert.pool_name.clone(),
            description: clone_opt_string(&pool_insert.description),
            created_at: now,
            updated_at: now,
        };
        proof {
            assert(p == spec_new_pool(old(self).next_pool_id, *pool_insert, now));
            lemma_pools_wf_push(self.pools@, self.next_pool_id, p);
            let j = choose|j: int|
                0 <= j < self.pools@.len() && (#[trigger] self.pools@[j]).id == 1;
            assert(self.pools@.push(p)[j].id == 1);
            assert forall|k: int| 0 <= k < self.devices@.len() implies has_pool_id(
                self.pools@.push(p),
                (#[trigger] self.devices@[k]).pool_id,
            ) by {
                let j2 = choose|j2: int|
                    0 <= j2 < self.pools@.len() && (#[trigger] self.pools@[j2]).id
                        == self.devices@[k].pool_id;
                assert(self.pools@.push(p)[j2].id == self.devices@[k].pool_id);
            }
        }
        self.pools.push(p);
        self.next_pool_id = id + 1;
        Ok(1)
    }

    /// Edits a pool's name and description.  A missing id touches zero
    /// rows; a violated table constraint is a store-level failure and
    /// changes nothing.
    pub fn edit_pool(&mut self, pool_modify: &PoolModify, now: i64) -> (r: Result<usize, Error>)
        requires
            old(self).wf(),
        ensures
            final(self).wf(),
            devices_unchanged(*old(self), *final(self)),
            custom_owners_unchanged(*old(self), *final(self)),
            final(self).next_pool_id == old(self).next_pool_id,
            !has_pool_id(old(self).pools@, pool_modify.id) ==> r == Ok::<usize, Error>(0)
                && pools_unchanged(*old(self), *final(self)),
            has_pool_id(old(self).pools@, pool_modify.id) && !(pool_modify.pool_name@.len() > 0
                && !has_other_pool_named(old(self).pools@, pool_modify.pool_name@, pool_modify.id))
                ==> r == Err::<usize, Error>(Error::InternalError) && pools_unchanged(
                *old(self),
                *final(self),
            ),
            has_pool_id(old(self).pools@, pool_modify.id) && pool_modify.pool_name@.len() > 0
                && !has_other_pool_named(old(self).pools@, pool_modify.pool_name@, pool_modify.id)
                ==> r == Ok::<usize, Error>(1) && exists|i: int|
                0 <= i < old(self).pools@.len() && (#[trigger] old(self).pools@[i]).id
                    == pool_modify.id && final(self).pools@ == old(self).pools@.update(
                    i,
                    spec_edited_pool(old(self).pools@[i], *pool_modify, now),
                ),
    {
        match self.find_pool_index(pool_modify.id) {
            None => Ok(0),
            Some(i) => {
                if pool_modify.pool_name.as_str().is_empty() {
                    return Err(Error::InternalError);
                }
                if self.pool_name_clash(&pool_modify.pool_name, pool_modify.id) {
                    return Err(Error::InternalError);
                }
                let p0 = &self.pools[i];
                let p = Pool {
                    id: p0.id,
                    pool_name: pool_modify.pool_name.clone(),
                    description: clone_opt_string(&pool_modify.description),
                    created_at: p0.created_at,
                    updated_at: now,
                };
                proof {
                    assert(p == spec_edited_pool(self.pools@[i as int], *pool_modify, now));
                    lemma_pools_wf_update(self.pools@, self.next_pool_id, i as int, p);
                    let post = self.pools@.update(i as int, p);
                    let j = choose|j: int|
                        0 <= j < self.pools@.len() && (#[trigger] self.pools@[j]).id == 1;
                    assert(post[j].id == 1);
                    assert forall|k: int| 0 <= k < self.devices@.len() implies has_pool_id(
                        post,
                        (#[trigger] self.devices@[k]).pool_id,
                    ) by {
                        let j2 = choose|j2: int|
                            0 <= j2 < self.pools@.len() && (#[trigger] self.pools@[j2]).id
                                == self.devices@[k].pool_id;
                        assert(post[j2].id == self.devices@[k].pool_id);
                    }
                }
                self.pools.set(i, p);
                Ok(1)
            },
        }
    }

    /// Deletes a pool.  The default pool (id 1) can never be deleted, nor
    /// can a pool that still holds a device; both guards fail the delete
    /// with the user-facing message.  A missing id touches zero rows.
    pub fn delete_pool(&mut self, pool_delete: &PoolDelete) -> (r: Result<usize, Error>)
        requires
            old(self).wf(),
        ensures
            final(self).wf(),
            devices_unchanged(*old(self), *final(self)),
            custom_owners_unchanged(*old(self), *final(self)),
            final(self).next_pool_id == old(self).next_pool_id,
            pool_delete.id == 1 ==> (r matches Err(Error::ValidationError(m)) && m@
                == "Default pool cannot be deleted"@) && pools_unchanged(*old(self), *final(self)),
            pool_delete.id != 1 && pool_has_devices(old(self).devices@, pool_delete.id) ==> (
            r matches Err(Error::ValidationError(m)) && m@ == "Cannot delete non-empty pool"@)
                && pools_unchanged(*old(self), *final(self)),
            pool_delete.id != 1 && !pool_has_devices(old(self).devices@, pool_delete.id)
                && !has_pool_id(old(self).pools@, pool_delete.id) ==> r == Ok::<usize, Error>(0)
                && pools_unchanged(*old(self), *final(self)),
            pool_delete.id != 1 && !pool_has_devices(old(self).devices@, pool_delete.id)
                && has_pool_id(old(self).pools@, pool_delete.id) ==> r == Ok::<usize, Error>(1)
                && exists|i: int|
                0 <= i < old(self).pools@.len() && (#[trigger] old(self).pools@[i]).id
                    == pool_delete.id && final(self).pools@ == old(self).pools@.remove(i),
    {
        if pool_delete.id == 1 {
            return Err(Error::ValidationError("Default pool cannot be deleted".to_owned()));
        }
        if self.pool_in_use(pool_delete.id) {
            return Err(Error::ValidationError("Cannot delete non-empty pool".to_owned()));
        }
        match self.find_pool_index(pool_delete.id) {
            None => Ok(0),
            Some(i) => {
                proof {
                    lemma_pools_wf_remove(self.pools@, self.next_pool_id, i as int);
                    lemma_has_pool_id_after_remove(self.pools@, i as int, 1);
                    let post = self.pools@.remove(i as int);
                    assert forall|k: int| 0 <= k < self.devices@.len() implies has_pool_id(
                        post,
                        (#[trigger] self.devices@[k]).pool_id,
                    ) by {
                        assert(self.devices@[k].pool_id != pool_delete.id);
                        lemma_has_pool_id_after_remove(
                            self.pools@,
                            i as int,
                            self.devices@[k].pool_id,
                        );
                    }
                }
                self.pools.remove(i);
                Ok(1)
            },
        }
    }

    /// Inserts a custom owner under a fresh stored name, with the next id.
    /// A violated table constraint is a store-level failure and changes
    /// nothing.  Callers are expected to hand in lowercased fields.
    pub fn insert_custom_owner(&mut self, custom_owner_insert: &CustomOwnerInsert, now: i64) -> (r:
        Result<usize, Error>)
        requires
            old(self).wf(),
        ensures
            final(self).wf(),
            devices_unchanged(*old(self), *final(self)),
            pools_unchanged(*old(self), *final(self)),
            r is Ok <==> (old(self).next_custom_owner_id < i32::MAX && !has_custom_owner_name(
                old(self).custom_owners@,
                custom_owner_insert.custom_owner_name@,
            )),
            r is Ok ==> r == Ok::<usize, Error>(1) && final(self).custom_owners@ == old(self).custom_owners@.push(
                spec_new_custom_owner(old(self).next_custom_owner_id, *custom_owner_insert, now),
            ) && final(self).next_custom_owner_id == old(self).next_custom_owner_id + 1,
            r is Err ==> r == Err::<usize, Error>(Error::InternalError) && custom_owners_unchanged(
                *old(self),
                *final(self),
            ),
    {
        if self.next_custom_owner_id == i32::MAX {
            return Err(Error::InternalError);
        }
        if self.custom_owner_name_exists(&custom_owner_insert.custom_owner_name) {
            return Err(Error::InternalError);
        }
        let id = self.next_custom_owner_id;
        let c = CustomOwner {
            id,
            custom_owner_name: custom_owner_insert.custom_owner_name.clone(),
            recipient: custom_owner_insert.recipient.clone(),
            description: clone_opt_string(&custom_owner_insert.description),
            created_at: now,
            updated_at: now,
        };
        proof {
            assert(c == spec_new_custom_owner(
                old(self).next_custom_owner_id,
                *custom_owner_insert,
                now,
            ));
            lemma_custom_owners_wf_push(self.custom_owners@, self.next_custom_owner_id, c);
        }
        self.custom_owners.push(c);
        self.next_custom_owner_id = id + 1;
        Ok(1)
    }

    /// Edits a custom owner.  The name cannot change while any device is
    /// still reserved under the old name; that guard fails the edit with
    /// the user-facing message.  A missing id touches zero rows; a stored
    /// name another entry already holds is a store-level failure.
    pub fn edit_custom_owner(&mut self, custom_owner_edit: &CustomOwnerModify, now: i64) -> (r:
        Result<usize, Error>)
        requires
            old(self).wf(),
        ensures
            final(self).wf(),
            devices_unchanged(*old(self), *final(self)),
            pools_unchanged(*old(self), *final(self)),
            final(self).next_custom_owner_id == old(self).next_custom_owner_id,
            !has_custom_owner_id(old(self).custom_owners@, custom_owner_edit.id) ==> r == Ok::<
                usize,
                Error,
            >(0) && custom_owners_unchanged(*old(self), *final(self)),
            has_custom_owner_id(old(self).custom_owners@, custom_owner_edit.id) ==> exists|i: int|
                0 <= i < old(self).custom_owners@.len() && (#[trigger] old(self).custom_owners@[i]).id == custom_owner_edit.id && {
                    let cur = old(self).custom_owners@[i];
                    if cur.custom_owner_name@ != custom_owner_edit.custom_owner_name@
                        && has_device_owned_by(old(self).devices@, cur.custom_owner_name@) {
                        (r matches Err(Error::ValidationError(m)) && m@
                            == "Cannot modify name of custom_owner with devices reserved"@)
                            && custom_owners_unchanged(*old(self), *final(self))
                    } else if has_other_custom_owner_named(
                        old(self).custom_owners@,
                        custom_owner_edit.custom_owner_name@,
                        custom_owner_edit.id,
                    ) {
                        r == Err::<usize, Error>(Error::InternalError) && custom_owners_unchanged(
                            *old(self),
                            *final(self),
                        )
                    } else {
                        r == Ok::<usize, Error>(1) && final(self).custom_owners@ == old(self).custom_owners@.update(
                            i,
                            spec_edited_custom_owner(cur, *custom_owner_edit, now),
                        )
                    }
                },
    {
        match self.find_custom_owner_index(custom_owner_edit.id) {
            None => Ok(0),
            Some(i) => {
                let name_changed = !(self.custom_owners[i].custom_owner_name
                    == custom_owner_edit.custom_owner_name);
                if name_changed && self.device_owned_by_exists(
                    self.custom_owners[i].custom_owner_name.as_str(),
                ) {
                    return Err(Error::ValidationError(
                        "Cannot modify name of custom_owner with devices reserved".to_owned(),
                    ));
                }
                if self.custom_owner_name_clash(
                    &custom_owner_edit.custom_owner_name,
                    custom_owner_edit.id,
                ) {
                    return Err(Error::InternalError);
                }
                let c0 = &self.custom_owners[i];
                let c = CustomOwner {
                    id: c0.id,
                    custom_owner_name: custom_owner_edit.custom_owner_name.clone(),
                    recipient: custom_owner_edit.recipient.clone(),
                    description: clone_opt_string(&custom_owner_edit.description),
                    created_at: c0.created_at,
                    updated_at: now,
                };
                proof {
                    assert(c == spec_edited_custom_owner(
                        self.custom_owners@[i as int],
                        *custom_owner_edit,
                        now,
                    ));
                    lemma_custom_owners_wf_update(
                        self.custom_owners@,
                        self.next_custom_owner_id,
                        i as int,
                        c,
                    );
                }
                self.custom_owners.set(i, c);
                Ok(1)
            },
        }
    }

    /// Deletes a custom owner, unless some device is still reserved under
    /// its name; that guard fails the delete with the user-facing message.
    /// A missing id touches zero rows.
    pub fn delete_custom_owner(&mut self, custom_owner_delete: &CustomOwnerDelete) -> (r: Result<
        usize,
        Error,
    >)
        requires
            old(self).wf(),
        ensures
            final(self).wf(),
            devices_unchanged(*old(self), *final(self)),
            pools_unchanged(*old(self), *final(self)),
            final(self).next_custom_owner_id == old(self).next_custom_owner_id,
            !has_custom_owner_id(old(self).custom_owners@, custom_owner_delete.id) ==> r == Ok::<
                usize,
                Error,
            >(0) && custom_owners_unchanged(*old(self), *final(self)),
            has_custom_owner_id(old(self).custom_owners@, custom_owner_delete.id) ==> exists|
                i: int,
            |
                0 <= i < old(self).custom_owners@.len() && (#[trigger] old(self).custom_owners@[i]).id == custom_owner_delete.id && {
                    let cur = old(self).custom_owners@[i];
                    if has_device_owned_by(old(self).devices@, cur.custom_owner_name@) {
                        (r matches Err(Error::ValidationError(m)) && m@
                            == "Cannot delete custom_owner with devices reserved"@)
                            && custom_owners_unchanged(*old(self), *final(self))
                    } else {
                        r == Ok::<usize, Error>(1) && final(self).custom_owners@ == old(self).custom_owners@.remove(i)
                    }
                },
    {
        match self.find_custom_owner_index(custom_owner_delete.id) {
            None => Ok(0),
            Some(i) => {
                if self.device_owned_by_exists(self.custom_owners[i].custom_owner_name.as_str()) {
                    return Err(Error::ValidationError(
                        "Cannot delete custom_owner with devices reserved".to_owned(),
                    ));
                }
                proof {
                    lemma_custom_owners_wf_remove(
                        self.custom_owners@,
                        self.next_custom_owner_id,
                        i as int,
                    );
                }
                self.custom_owners.remove(i);
                Ok(1)
            },
        }
    }
}

} // verus!
