//! The operations behind the HTTP routes, stripped of transport: each takes
//! the store (and, where owners are validated, the directory snapshot) and
//! returns plain values — records for the JSON API, a `Flash` outcome for
//! the form posts, and render-ready contexts for the HTML pages.  The HTTP
//! layer outside this crate parses requests, hands the values in, and maps
//! the error kinds to status codes.

use crate::directory::Directory;
use crate::engine::{spec_apply_update, spec_released_device, spec_reserved_device};
use crate::models::{
    clone_opt_string, spec_checkout_valid, spec_owner_valid, spec_recipient_valid, CustomOwner,
    CustomOwnerDelete, CustomOwnerInsert, CustomOwnerModify, Device, DeviceDelete, DeviceEdit,
    DeviceInsert, DeviceUpdate, Error, Flash, Pool, PoolDelete, PoolInsert, PoolModify,
    Reservation, ReservationRequest, ReservationStatus,
};
use crate::runtime::format_local_timestamp;
use crate::store::{
    custom_owners_unchanged, devices_unchanged, device_in_pool_available, has_available_in_pool,
    has_custom_owner_id, has_custom_owner_name, has_device_id, has_device_in_status,
    has_device_name, has_device_named_ci, has_device_owned_by, has_other_custom_owner_named, has_other_device_named,
    has_other_pool_named, has_pool_id, has_pool_name, pool_has_devices, pools_unchanged,
    spec_edited_device, spec_edited_pool, spec_new_device, spec_new_pool, Store,
};
use crate::text::{lower_of, lowercase, trim_of, url_valid};
use vstd::pervasive::unreached;
use vstd::prelude::*;

verus! {

/// One device prepared for rendering: the record, whether it is reserved,
/// and its update time written in the machine's local time zone.
pub struct PerDeviceContext {
    pub device: Device,
    pub is_reserved: bool,
    pub updated_at_local: String,
}

/// What the device pages render.
pub struct DevicesContext {
    pub devices: Vec<PerDeviceContext>,
    pub pools: Vec<Pool>,
    pub current_pool: Option<Pool>,
    pub error_message: Option<String>,
    pub success_message: Option<String>,
}

/// One pool prepared for rendering.
pub struct PerPoolContext {
    pub pool: Pool,
    pub updated_at_local: String,
}

/// What the pool page renders.
pub struct PoolContext {
    pub pools: Vec<PerPoolContext>,
    pub error_message: Option<String>,
    pub success_message: Option<String>,
}

/// One custom owner prepared for rendering.
pub struct PerCustomOwnerContext {
    pub custom_owner: CustomOwner,
    pub updated_at_local: String,
}

/// What the custom-owner page renders.
pub struct CustomOwnerContext {
    pub custom_owners: Vec<PerCustomOwnerContext>,
    pub error_message: Option<String>,
    pub success_message: Option<String>,
}

/// How a flash message lands in a page context: a success flash fills the
/// success slot, anything else the error slot, and no flash fills neither.
pub open spec fn spec_messages_match(
    msg: Option<Flash>,
    success: Option<String>,
    error: Option<String>,
) -> bool {
    match msg {
        None => success is None && error is None,
        Some(f) => if f.is_success() {
            success == Some(f.message) && error is None
        } else {
            error == Some(f.message) && success is None
        },
    }
}

/// The rendered device rows match the listed devices one for one, in order.
pub open spec fn spec_device_contexts(rows: Seq<PerDeviceContext>, devs: Seq<Device>) -> bool {
    rows.len() == devs.len() && forall|i: int|
        0 <= i < devs.len() ==> (#[trigger] rows[i]).device == devs[i] && rows[i].is_reserved == (
        devs[i].reservation_status == ReservationStatus::Reserved)
}

/// The rendered pool rows match the listed pools one for one, in order.
pub open spec fn spec_pool_contexts(rows: Seq<PerPoolContext>, pools: Seq<Pool>) -> bool {
    rows.len() == pools.len() && forall|i: int|
        0 <= i < pools.len() ==> (#[trigger] rows[i]).pool == pools[i]
}

/// The rendered custom-owner rows match the listed entries one for one.
pub open spec fn spec_custom_owner_contexts(
    rows: Seq<PerCustomOwnerContext>,
    owners: Seq<CustomOwner>,
) -> bool {
    rows.len() == owners.len() && forall|i: int|
        0 <= i < owners.len() ==> (#[trigger] rows[i]).custom_owner == owners[i]
}

/// Splits a flash message into the success and error slot of a context.
fn split_status_message(status_message: &Option<Flash>) -> (r: (Option<String>, Option<String>))
    ensures
        spec_messages_match(*status_message, r.0, r.1),
{
    match status_message {
        Some(f) => {
            if f.kind == "success".to_owned() {
                (Some(f.message.clone()), None)
            } else {
                (None, Some(f.message.clone()))
            }
        },
        None => (None, None),
    }
}

/// Prepares one device for rendering.
fn format_device(device: Device) -> (r: PerDeviceContext)
    ensures
        r.device == device,
        r.is_reserved == (device.reservation_status == ReservationStatus::Reserved),
{
    let is_reserved = device.reservation_status == ReservationStatus::Reserved;
    let updated_at_local = format_local_timestamp(device.updated_at);
    PerDeviceContext { device, is_reserved, updated_at_local }
}

/// Prepares a device listing for rendering, keeping the order.
fn format_devices(devs: Vec<Device>) -> (r: Vec<PerDeviceContext>)
    ensures
        spec_device_contexts(r@, devs@),
{
    let mut rows: Vec<PerDeviceContext> = Vec::new();
    let n = devs.len();
    let mut i: usize = 0;
    while i < n
        invariant
            n == devs@.len(),
            i <= n,
            rows@.len() == i,
            forall|j: int|
                0 <= j < i ==> (#[trigger] rows@[j]).device == devs@[j] && rows@[j].is_reserved == (
                devs@[j].reservation_status == ReservationStatus::Reserved),
        decreases n - i,
    {
        rows.push(format_device(devs[i].clone()));
        i += 1;
    }
    rows
}

/// Prepares one pool for rendering.
fn format_pool(pool: Pool) -> (r: PerPoolContext)
    ensures
        r.pool == pool,
{
    let updated_at_local = format_local_timestamp(pool.updated_at);
    PerPoolContext { pool, updated_at_local }
}

/// Prepares one custom owner for rendering.
fn format_custom_owner(custom_owner: CustomOwner) -> (r: PerCustomOwnerContext)
    ensures
        r.custom_owner == custom_owner,
{
    let updated_at_local = format_local_timestamp(custom_owner.updated_at);
    PerCustomOwnerContext { custom_owner, updated_at_local }
}

/// Builds the context of the device pages: every pool, the devices (of one
/// pool when one is requested, else all), and the flash message in its
/// slot.  A requested pool that does not exist is `NotFound`.
pub fn gen_device_context(
    store: &Store,
    status_message: &Option<Flash>,
    requested_pool_id: Option<i32>,
) -> (r: Result<DevicesContext, Error>)
    ensures
        match r {
            Ok(c) => {
                &&& spec_messages_match(*status_message, c.success_message, c.error_message)
                &&& c.pools@ == store.pools@
                &&& match requested_pool_id {
                    Some(pid) => (c.current_pool matches Some(p) && p.id == pid && exists|i: int|
                        0 <= i < store.pools@.len() && p == store.pools@[i])
                        && spec_device_contexts(
                        c.devices@,
                        store.devices@.filter(|d: Device| d.pool_id == pid),
                    ),
                    None => c.current_pool is None && spec_device_contexts(
                        c.devices@,
                        store.devices@,
                    ),
                }
            },
            Err(e) => e == Error::NotFound && (requested_pool_id matches Some(pid)
                && !has_pool_id(store.pools@, pid)),
        },
{
    let (success_message, error_message) = split_status_message(status_message);
    let pools = store.get_pools();
    match requested_pool_id {
        Some(pid) => {
            match store.get_pool_by_id(pid) {
                None => Err(Error::NotFound),
                Some(p) => {
                    let devices = format_devices(store.get_devices_in_pool(pid));
                    Ok(
                        DevicesContext {
                            devices,
                            pools,
                            current_pool: Some(p),
                            error_message,
                            success_message,
                        },
                    )
                },
            }
        },
        None => {
            let devices = format_devices(store.get_devices());
            Ok(
                DevicesContext {
                    devices,
                    pools,
                    current_pool: None,
                    error_message,
                    success_message,
                },
            )
        },
    }
}

/// Builds the context of the pool page: every pool and the flash message in
/// its slot.
pub fn gen_pool_context(store: &Store, status_message: &Option<Flash>) -> (r: PoolContext)
    ensures
        spec_messages_match(*status_message, r.success_message, r.error_message),
        spec_pool_contexts(r.pools@, store.pools@),
{
    let (success_message, error_message) = split_status_message(status_message);
    let unformatted = store.get_pools();
    let mut rows: Vec<PerPoolContext> = Vec::new();
    let n = unformatted.len();
    let mut i: usize = 0;
    while i < n
        invariant
            n == unformatted@.len(),
            unformatted@ == store.pools@,
            i <= n,
            rows@.len() == i,
            forall|j: int| 0 <= j < i ==> (#[trigger] rows@[j]).pool == unformatted@[j],
        decreases n - i,
    {
        rows.push(format_pool(unformatted[i].clone()));
        i += 1;
    }
    PoolContext { pools: rows, error_message, success_message }
}

/// Builds the context of the custom-owner page: every entry and the flash
/// message in its slot.
pub fn gen_custom_owner_context(store: &Store, status_message: &Option<Flash>) -> (r:
    CustomOwnerContext)
    ensures
        spec_messages_match(*status_message, r.success_message, r.error_message),
        spec_custom_owner_contexts(r.custom_owners@, store.custom_owners@),
{
    let (success_message, error_message) = split_status_message(status_message);
    let unformatted = store.get_custom_owners();
    let mut rows: Vec<PerCustomOwnerContext> = Vec::new();
    let n = unformatted.len();
    let mut i: usize = 0;
    while i < n
        invariant
            n == unformatted@.len(),
            unformatted@ == store.custom_owners@,
            i <= n,
            rows@.len() == i,
            forall|j: int| 0 <= j < i ==> (#[trigger] rows@[j]).custom_owner == unformatted@[j],
        decreases n - i,
    {
        rows.push(format_custom_owner(unformatted[i].clone()));
        i += 1;
    }
    CustomOwnerContext { custom_owners: rows, error_message, success_message }
}

/// The root path redirects to the device listing.
pub fn index() -> (r: String)
    ensures
        r@ == "/devices"@,
{
    "/devices".to_owned()
}

/// The paths the HTML form interface serves, in mounting order.
pub fn html_routes() -> (r: Vec<String>)
    ensures
        r@.len() == 15,
        r@[0]@ == "/"@,
        r@[1]@ == "/devices"@,
        r@[2]@ == "/devices"@,
        r@[3]@ == "/editDevices"@,
        r@[4]@ == "/editDevices"@,
        r@[5]@ == "/addDevices"@,
        r@[6]@ == "/deleteDevices"@,
        r@[7]@ == "/editPools"@,
        r@[8]@ == "/editPools"@,
        r@[9]@ == "/addPools"@,
        r@[10]@ == "/deletePools"@,
        r@[11]@ == "/editCustomOwners"@,
        r@[12]@ == "/editCustomOwners"@,
        r@[13]@ == "/addCustomOwners"@,
        r@[14]@ == "/deleteCustomOwners"@,
{
    let mut r: Vec<String> = Vec::new();
    r.push("/".to_owned());
    r.push("/devices".to_owned());
    r.push("/devices".to_owned());
    r.push("/editDevices".to_owned());
    r.push("/editDevices".to_owned());
    r.push("/addDevices".to_owned());
    r.push("/deleteDevices".to_owned());
    r.push("/editPools".to_owned());
    r.push("/editPools".to_owned());
    r.push("/addPools".to_owned());
    r.push("/deletePools".to_owned());
    r.push("/editCustomOwners".to_owned());
    r.push("/editCustomOwners".to_owned());
    r.push("/addCustomOwners".to_owned());
    r.push("/deleteCustomOwners".to_owned());
    r
}

/// The paths the JSON API serves, in mounting order, relative to /api.
pub fn api_routes() -> (r: Vec<String>)
    ensures
        r@.len() == 7,
        r@[0]@ == "/devices/<name>"@,
        r@[1]@ == "/devices"@,
        r@[2]@ == "/pools"@,
        r@[3]@ == "/custom_owners/<name>"@,
        r@[4]@ == "/custom_owners"@,
        r@[5]@ == "/reservations"@,
        r@[6]@ == "/reservations/<id>"@,
{
    let mut r: Vec<String> = Vec::new();
    r.push("/devices/<name>".to_owned());
    r.push("/devices".to_owned());
    r.push("/pools".to_owned());
    r.push("/custom_owners/<name>".to_owned());
    r.push("/custom_owners".to_owned());
    r.push("/reservations".to_owned());
    r.push("/reservations/<id>".to_owned());
    r
}

/// Looks one device up by name, case-insensitively, for the JSON API; a
/// missing name is `NotFound`.
pub fn api_get_device(store: &Store, name: &str) -> (r: Result<Device, Error>)
    ensures
        match r {
            Ok(d) => lower_of(d.device_name@) == lower_of(name@) && exists|i: int|
                0 <= i < store.devices@.len() && d == store.devices@[i],
            Err(e) => e == Error::NotFound && !has_device_named_ci(store.devices@, name@),
        },
{
    match store.get_device(name) {
        Some(d) => Ok(d),
        None => Err(Error::NotFound),
    }
}

/// Lists every device for the JSON API.
pub fn api_get_devices(store: &Store) -> (r: Vec<Device>)
    ensures
        r@ == store.devices@,
{
    store.get_devices()
}

/// Lists every pool for the JSON API.
pub fn api_get_pools(store: &Store) -> (r: Vec<Pool>)
    ensures
        r@ == store.pools@,
{
    store.get_pools()
}

/// Looks one custom owner up by name, case-insensitively, for the JSON
/// API; a missing name is `NotFound`.
pub fn api_get_custom_owner(store: &Store, name: &str) -> (r: Result<CustomOwner, Error>)
    ensures
        match r {
            Ok(c) => c.custom_owner_name@ == lower_of(name@) && exists|i: int|
                0 <= i < store.custom_owners@.len() && c == store.custom_owners@[i],
            Err(e) => e == Error::NotFound && !has_custom_owner_name(
                store.custom_owners@,
                lower_of(name@),
            ),
        },
{
    match store.get_custom_owner(name) {
        Some(c) => Ok(c),
        None => Err(Error::NotFound),
    }
}

/// Lists every custom owner for the JSON API.
pub fn api_get_custom_owners(store: &Store) -> (r: Vec<CustomOwner>)
    ensures
        r@ == store.custom_owners@,
{
    store.get_custom_owners()
}

/// Grants a reservation from the requested pool and reports it: the
/// now-reserved device under the requested owner and comments.  No
/// available device is `NotFound`; an illegitimate owner is a
/// `ValidationError`; an error changes nothing.
pub fn api_post_reservations(
    store: &mut Store,
    dir: &Directory,
    reservation: &ReservationRequest,
    now: i64,
) -> (r: Result<Reservation, Error>)
    requires
        old(store).wf(),
    ensures
        final(store).wf(),
        pools_unchanged(*old(store), *final(store)),
        custom_owners_unchanged(*old(store), *final(store)),
        final(store).next_device_id == old(store).next_device_id,
        r is Err ==> devices_unchanged(*old(store), *final(store)),
        !has_available_in_pool(old(store).devices@, reservation.device.pool_id) ==> r == Err::<
            Reservation,
            Error,
        >(Error::NotFound),
        has_available_in_pool(old(store).devices@, reservation.device.pool_id)
            && !spec_owner_valid(reservation.device_owner, *dir, old(store).custom_owners@)
            ==> r matches Err(Error::ValidationError(_)),
        has_available_in_pool(old(store).devices@, reservation.device.pool_id) && spec_owner_valid(
            reservation.device_owner,
            *dir,
            old(store).custom_owners@,
        ) ==> (r matches Ok(res) && res.id == res.device.id && res.device_owner
            == reservation.device_owner.unwrap() && res.comments == reservation.comments && exists|
            i: int,
        |
            0 <= i < old(store).devices@.len() && device_in_pool_available(
                #[trigger] old(store).devices@[i],
                reservation.device.pool_id,
            ) && res.device == spec_reserved_device(
                old(store).devices@[i],
                reservation.device_owner,
                reservation.comments,
                now,
            ) && final(store).devices@ == old(store).devices@.update(i, res.device)),
{
    let d = match store.reserve_from_pool(
        reservation.device.pool_id,
        &reservation.device_owner,
        &reservation.comments,
        dir,
        now,
    ) {
        Err(e) => {
            return Err(e);
        },
        Ok(d) => d,
    };
    let owner = match &reservation.device_owner {
        Some(o) => o.clone(),
        None => unreached(),
    };
    Ok(
        Reservation {
            id: d.id,
            device_owner: owner,
            comments: clone_opt_string(&reservation.comments),
            device: d,
        },
    )
}

/// Ends the reservation of the device with this id.  A missing device is
/// `NotFound`; a device already available is a `Conflict`; otherwise the
/// device is released with owner and comments cleared.
pub fn api_delete_reservation(store: &mut Store, id: i32, now: i64) -> (r: Result<(), Error>)
    requires
        old(store).wf(),
    ensures
        final(store).wf(),
        pools_unchanged(*old(store), *final(store)),
        custom_owners_unchanged(*old(store), *final(store)),
        final(store).next_device_id == old(store).next_device_id,
        !has_device_id(old(store).devices@, id) ==> r == Err::<(), Error>(Error::NotFound)
            && devices_unchanged(*old(store), *final(store)),
        has_device_id(old(store).devices@, id) && !has_device_in_status(
            old(store).devices@,
            id,
            ReservationStatus::Reserved,
        ) ==> r == Err::<(), Error>(Error::Conflict) && devices_unchanged(
            *old(store),
            *final(store),
        ),
        has_device_in_status(old(store).devices@, id, ReservationStatus::Reserved) ==> r == Ok::<
            (),
            Error,
        >(()) && exists|i: int|
            0 <= i < old(store).devices@.len() && (#[trigger] old(store).devices@[i]).id == id
                && old(store).devices@[i].reservation_status == ReservationStatus::Reserved
                && final(store).devices@ == old(store).devices@.update(
                i,
                spec_released_device(old(store).devices@[i], now),
            ),
{
    store.release(id, now)
}

/// The update the toggle form implies: the requested status is the opposite
/// of the observed one, and owner and comments are dropped on a return.
pub open spec fn spec_toggled_update(u: DeviceUpdate) -> DeviceUpdate {
    DeviceUpdate {
        id: u.id,
        device_owner: if u.reservation_status.spec_toggled() == ReservationStatus::Available {
            None
        } else {
            u.device_owner
        },
        comments: if u.reservation_status.spec_toggled() == ReservationStatus::Available {
            None
        } else {
            u.comments
        },
        reservation_status: u.reservation_status.spec_toggled(),
    }
}

/// Handles the single-device form: the posted payload carries the observed
/// status, the device is moved to the opposite one.  A reservation is
/// validated first; the write is the conditional update keyed on the
/// observed status, so a stale form reports a failure instead of
/// overwriting a concurrent change.
pub fn post_devices(
    store: &mut Store,
    dir: &Directory,
    device_update: &DeviceUpdate,
    now: i64,
) -> (r: Flash)
    requires
        old(store).wf(),
    ensures
        final(store).wf(),
        pools_unchanged(*old(store), *final(store)),
        custom_owners_unchanged(*old(store), *final(store)),
        final(store).next_device_id == old(store).next_device_id,
        r.redirect@ == "/devices"@,
        !spec_checkout_valid(spec_toggled_update(*device_update), *dir, old(store).custom_owners@)
            ==> !r.is_success() && devices_unchanged(*old(store), *final(store)) && (if device_update.device_owner
            is None || trim_of(device_update.device_owner.unwrap()@).len() == 0 {
            r.message@ == "Please supply a username when reserving a device"@
        } else {
            r.message@
                == "Please enter a valid slack username or custom owner when reserving a device."@
        }),
        spec_checkout_valid(spec_toggled_update(*device_update), *dir, old(store).custom_owners@)
            && !has_device_in_status(
            old(store).devices@,
            device_update.id,
            device_update.reservation_status,
        ) ==> !r.is_success() && r.message@ == "Failed to update device"@ && devices_unchanged(
            *old(store),
            *final(store),
        ),
        spec_checkout_valid(spec_toggled_update(*device_update), *dir, old(store).custom_owners@)
            && has_device_in_status(
            old(store).devices@,
            device_update.id,
            device_update.reservation_status,
        ) ==> r.is_success() && r.message@ == "Successfully updated device"@ && exists|i: int|
            0 <= i < old(store).devices@.len() && (#[trigger] old(store).devices@[i]).id
                == device_update.id && old(store).devices@[i].reservation_status
                == device_update.reservation_status && final(store).devices@ == old(store).devices@.update(
                i,
                spec_apply_update(
                    old(store).devices@[i],
                    spec_toggled_update(*device_update),
                    now,
                ),
            ),
{
    let new_status = device_update.reservation_status.toggled();
    if new_status == ReservationStatus::Reserved {
        match store.reserve_device(
            device_update.id,
            &device_update.device_owner,
            &device_update.comments,
            dir,
            now,
        ) {
            Ok(()) => {
                proof {
                    let j = choose|j: int|
                        0 <= j < old(store).devices@.len() && (#[trigger] old(
                            store,
                        ).devices@[j]).id == device_update.id && old(
                            store,
                        ).devices@[j].reservation_status == ReservationStatus::Available
                            && store.devices@ == old(store).devices@.update(
                            j,
                            spec_reserved_device(
                                old(store).devices@[j],
                                device_update.device_owner,
                                device_update.comments,
                                now,
                            ),
                        );
                    assert(spec_reserved_device(
                        old(store).devices@[j],
                        device_update.device_owner,
                        device_update.comments,
                        now,
                    ) == spec_apply_update(
                        old(store).devices@[j],
                        spec_toggled_update(*device_update),
                        now,
                    ));
                }
                Flash::success("/devices", "Successfully updated device")
            },
            Err(Error::ValidationError(m)) => Flash::error("/devices", m.as_str()),
            Err(_) => Flash::error("/devices", "Failed to update device"),
        }
    } else {
        match store.release(device_update.id, now) {
            Ok(()) => {
                proof {
                    let j = choose|j: int|
                        0 <= j < old(store).devices@.len() && (#[trigger] old(
                            store,
                        ).devices@[j]).id == device_update.id && old(
                            store,
                        ).devices@[j].reservation_status == ReservationStatus::Reserved
                            && store.devices@ == old(store).devices@.update(
                            j,
                            spec_released_device(old(store).devices@[j], now),
                        );
                    assert(spec_released_device(old(store).devices@[j], now) == spec_apply_update(
                        old(store).devices@[j],
                        spec_toggled_update(*device_update),
                        now,
                    ));
                }
                Flash::success("/devices", "Successfully updated device")
            },
            Err(_) => Flash::error("/devices", "Failed to update device"),
        }
    }
}

/// Handles the add-device form: field validation first, then the insert;
/// the flash reports the first validation failure or the outcome.
pub fn post_add_devices(store: &mut Store, device_add: &DeviceInsert, now: i64) -> (r: Flash)
    requires
        old(store).wf(),
    ensures
        final(store).wf(),
        pools_unchanged(*old(store), *final(store)),
        custom_owners_unchanged(*old(store), *final(store)),
        r.redirect@ == "/editDevices"@,
        device_add.device_name@.len() == 0 ==> !r.is_success() && r.message@
            == "Device names cannot be empty"@ && devices_unchanged(*old(store), *final(store)),
        device_add.device_name@.len() > 0 && !url_valid(device_add.device_url@) ==> !r.is_success()
            && r.message@ == "URL was invalid"@ && devices_unchanged(*old(store), *final(store)),
        device_add.device_name@.len() > 0 && url_valid(device_add.device_url@) && (old(store).next_device_id < i32::MAX && !has_device_name(old(store).devices@,
        device_add.device_name@) && has_pool_id(old(store).pools@, device_add.pool_id))
            ==> r.is_success() && r.message@ == "Successfully added device"@ && final(store).devices@ == old(store).devices@.push(
            spec_new_device(old(store).next_device_id, *device_add, now),
        ) && final(store).next_device_id == old(store).next_device_id + 1,
        device_add.device_name@.len() > 0 && url_valid(device_add.device_url@) && !(old(store).next_device_id < i32::MAX && !has_device_name(old(store).devices@,
        device_add.device_name@) && has_pool_id(old(store).pools@, device_add.pool_id))
            ==> !r.is_success() && r.message@ == "Failed to add device"@ && devices_unchanged(
            *old(store),
            *final(store),
        ),
{
    match device_add.validate() {
        Err(e) => {
            let msg = match e {
                Error::ValidationError(m) => m,
                _ => unreached(),
            };
            return Flash::error("/editDevices", msg.as_str());
        },
        Ok(()) => {},
    }
    match store.insert_device(device_add, now) {
        Ok(_) => Flash::success("/editDevices", "Successfully added device"),
        Err(_) => Flash::error("/editDevices", "Failed to add device"),
    }
}

/// Handles the delete-device form.
pub fn post_delete_devices(store: &mut Store, device_edit: &DeviceDelete) -> (r: Flash)
    requires
        old(store).wf(),
    ensures
        final(store).wf(),
        pools_unchanged(*old(store), *final(store)),
        custom_owners_unchanged(*old(store), *final(store)),
        final(store).next_device_id == old(store).next_device_id,
        r.redirect@ == "/editDevices"@,
        !has_device_id(old(store).devices@, device_edit.id) ==> !r.is_success() && r.message@
            == "Failed to delete device"@ && devices_unchanged(*old(store), *final(store)),
        has_device_id(old(store).devices@, device_edit.id) ==> r.is_success() && r.message@
            == "Successfully deleted device"@ && exists|i: int|
            0 <= i < old(store).devices@.len() && (#[trigger] old(store).devices@[i]).id
                == device_edit.id && final(store).devices@ == old(store).devices@.remove(i),
{
    let count = store.delete_device(device_edit);
    if count == 0 {
        Flash::error("/editDevices", "Failed to delete device")
    } else {
        Flash::success("/editDevices", "Successfully deleted device")
    }
}

/// Handles the edit-device form: field validation first, then the edit of
/// name, URL and pool; the reservation fields stay as they are.
pub fn post_edit_devices(store: &mut Store, device_edit: &DeviceEdit, now: i64) -> (r: Flash)
    requires
        old(store).wf(),
    ensures
        final(store).wf(),
        pools_unchanged(*old(store), *final(store)),
        custom_owners_unchanged(*old(store), *final(store)),
        final(store).next_device_id == old(store).next_device_id,
        r.redirect@ == "/editDevices"@,
        device_edit.device_name@.len() == 0 ==> !r.is_success() && r.message@
            == "Device names cannot be empty"@ && devices_unchanged(*old(store), *final(store)),
        device_edit.device_name@.len() > 0 && !url_valid(device_edit.device_url@)
            ==> !r.is_success() && r.message@ == "URL was invalid"@ && devices_unchanged(
            *old(store),
            *final(store),
        ),
        device_edit.device_name@.len() > 0 && url_valid(device_edit.device_url@) && !(
        has_device_id(old(store).devices@, device_edit.id) && !has_other_device_named(
            old(store).devices@,
            device_edit.device_name@,
            device_edit.id,
        ) && has_pool_id(old(store).pools@, device_edit.pool_id)) ==> !r.is_success() && r.message@
            == "Failed to update device"@ && devices_unchanged(*old(store), *final(store)),
        device_edit.device_name@.len() > 0 && url_valid(device_edit.device_url@) && has_device_id(
            old(store).devices@,
            device_edit.id,
        ) && !has_other_device_named(old(store).devices@, device_edit.device_name@, device_edit.id)
            && has_pool_id(old(store).pools@, device_edit.pool_id) ==> r.is_success() && r.message@
            == "Successfully updated device"@ && exists|i: int|
            0 <= i < old(store).devices@.len() && (#[trigger] old(store).devices@[i]).id
                == device_edit.id && final(store).devices@ == old(store).devices@.update(
                i,
                spec_edited_device(old(store).devices@[i], *device_edit, now),
            ),
{
    match device_edit.validate() {
        Err(e) => {
            let msg = match e {
                Error::ValidationError(m) => m,
                _ => unreached(),
            };
            return Flash::error("/editDevices", msg.as_str());
        },
        Ok(()) => {},
    }
    match store.edit_device(device_edit, now) {
        Ok(count) => {
            if count == 0 {
                Flash::error("/editDevices", "Failed to update device")
            } else {
                Flash::success("/editDevices", "Successfully updated device")
            }
        },
        Err(_) => Flash::error("/editDevices", "Failed to update device"),
    }
}

/// Handles the add-pool form: field validation first, then the insert.
pub fn post_add_pools(store: &mut Store, pool_add: &PoolInsert, now: i64) -> (r: Flash)
    requires
        old(store).wf(),
    ensures
        final(store).wf(),
        devices_unchanged(*old(store), *final(store)),
        custom_owners_unchanged(*old(store), *final(store)),
        r.redirect@ == "/editPools"@,
        pool_add.pool_name@.len() == 0 ==> !r.is_success() && r.message@
            == "pool_name cannot be empty"@ && pools_unchanged(*old(store), *final(store)),
        pool_add.pool_name@.len() > 0 && (old(store).next_pool_id < i32::MAX && !has_pool_name(
            old(store).pools@,
            pool_add.pool_name@,
        )) ==> r.is_success() && r.message@ == "Successfully added pool"@ && final(store).pools@
            == old(store).pools@.push(spec_new_pool(old(store).next_pool_id, *pool_add, now))
            && final(store).next_pool_id == old(store).next_pool_id + 1,
        pool_add.pool_name@.len() > 0 && !(old(store).next_pool_id < i32::MAX && !has_pool_name(
            old(store).pools@,
            pool_add.pool_name@,
        )) ==> !r.is_success() && r.message@ == "Failed to add pool"@ && pools_unchanged(
            *old(store),
            *final(store),
        ),
{
    match pool_add.validate() {
        Err(e) => {
            let msg = match e {
                Error::ValidationError(m) => m,
                _ => unreached(),
            };
            return Flash::error("/editPools", msg.as_str());
        },
        Ok(()) => {},
    }
    match store.insert_pool(pool_add, now) {
        Ok(_) => Flash::success("/editPools", "Successfully added pool"),
        Err(_) => Flash::error("/editPools", "Failed to add pool"),
    }
}

/// Handles the delete-pool form: the default pool and non-empty pools are
/// refused with their messages; a missing pool is a plain failure.
pub fn post_delete_pools(store: &mut Store, pool_edit: &PoolDelete) -> (r: Flash)
    requires
        old(store).wf(),
    ensures
        final(store).wf(),
        devices_unchanged(*old(store), *final(store)),
        custom_owners_unchanged(*old(store), *final(store)),
        final(store).next_pool_id == old(store).next_pool_id,
        r.redirect@ == "/editPools"@,
        pool_edit.id == 1 ==> !r.is_success() && r.message@ == "Default pool cannot be deleted"@
            && pools_unchanged(*old(store), *final(store)),
        pool_edit.id != 1 && pool_has_devices(old(store).devices@, pool_edit.id)
            ==> !r.is_success() && r.message@ == "Cannot delete non-empty pool"@
            && pools_unchanged(*old(store), *final(store)),
        pool_edit.id != 1 && !pool_has_devices(old(store).devices@, pool_edit.id) && !has_pool_id(
            old(store).pools@,
            pool_edit.id,
        ) ==> !r.is_success() && r.message@ == "Failed to delete pool"@ && pools_unchanged(
            *old(store),
            *final(store),
        ),
        pool_edit.id != 1 && !pool_has_devices(old(store).devices@, pool_edit.id) && has_pool_id(
            old(store).pools@,
            pool_edit.id,
        ) ==> r.is_success() && r.message@ == "Successfully deleted pool"@ && exists|i: int|
            0 <= i < old(store).pools@.len() && (#[trigger] old(store).pools@[i]).id == pool_edit.id
                && final(store).pools@ == old(store).pools@.remove(i),
{
    match store.delete_pool(pool_edit) {
        Err(e) => {
            let msg = match e {
                Error::ValidationError(m) => m,
                _ => unreached(),
            };
            Flash::error("/editPools", msg.as_str())
        },
        Ok(count) => {
            if count == 0 {
                Flash::error("/editPools", "Failed to delete pool")
            } else {
                Flash::success("/editPools", "Successfully deleted pool")
            }
        },
    }
}

/// Handles the edit-pool form: field validation first, then the edit.
pub fn post_edit_pools(store: &mut Store, pool_edit: &PoolModify, now: i64) -> (r: Flash)
    requires
        old(store).wf(),
    ensures
        final(store).wf(),
        devices_unchanged(*old(store), *final(store)),
        custom_owners_unchanged(*old(store), *final(store)),
        final(store).next_pool_id == old(store).next_pool_id,
        r.redirect@ == "/editPools"@,
        pool_edit.pool_name@.len() == 0 ==> !r.is_success() && r.message@
            == "pool_name cannot be empty"@ && pools_unchanged(*old(store), *final(store)),
        pool_edit.pool_name@.len() > 0 && !(has_pool_id(old(store).pools@, pool_edit.id)
            && !has_other_pool_named(old(store).pools@, pool_edit.pool_name@, pool_edit.id))
            ==> !r.is_success() && r.message@ == "Failed to update pool"@ && pools_unchanged(
            *old(store),
            *final(store),
        ),
        pool_edit.pool_name@.len() > 0 && has_pool_id(old(store).pools@, pool_edit.id)
            && !has_other_pool_named(old(store).pools@, pool_edit.pool_name@, pool_edit.id)
            ==> r.is_success() && r.message@ == "Successfully updated pool"@ && exists|i: int|
            0 <= i < old(store).pools@.len() && (#[trigger] old(store).pools@[i]).id == pool_edit.id
                && final(store).pools@ == old(store).pools@.update(
                i,
                spec_edited_pool(old(store).pools@[i], *pool_edit, now),
            ),
{
    match pool_edit.validate() {
        Err(e) => {
            let msg = match e {
                Error::ValidationError(m) => m,
                _ => unreached(),
            };
            return Flash::error("/editPools", msg.as_str());
        },
        Ok(()) => {},
    }
    match store.edit_pool(pool_edit, now) {
        Ok(count) => {
            if count == 0 {
                Flash::error("/editPools", "Failed to update pool")
            } else {
                Flash::success("/editPools", "Successfully updated pool")
            }
        },
        Err(_) => Flash::error("/editPools", "Failed to update pool"),
    }
}

/// Handles the add-custom-owner form: name and recipient are lowercased
/// before validation and storage.
pub fn post_add_custom_owners(
    store: &mut Store,
    dir: &Directory,
    custom_owner_add: &CustomOwnerInsert,
    now: i64,
) -> (r: Flash)
    requires
        old(store).wf(),
    ensures
        final(store).wf(),
        devices_unchanged(*old(store), *final(store)),
        pools_unchanged(*old(store), *final(store)),
        r.redirect@ == "/editCustomOwners"@,
        !(lower_of(custom_owner_add.custom_owner_name@).len() > 0 && lower_of(
            custom_owner_add.recipient@,
        ).len() > 0 && spec_recipient_valid(lower_of(custom_owner_add.recipient@), *dir))
            ==> !r.is_success() && custom_owners_unchanged(*old(store), *final(store)) && (if lower_of(
            custom_owner_add.custom_owner_name@,
        ).len() == 0 {
            r.message@ == "custom_owner_name cannot be empty"@
        } else if lower_of(custom_owner_add.recipient@).len() == 0 {
            r.message@ == "recipient cannot be empty"@
        } else {
            r.message@ == "Recipient must be valid Slack user, Slack channel or \"none\"."@
        }),
        (lower_of(custom_owner_add.custom_owner_name@).len() > 0 && lower_of(
            custom_owner_add.recipient@,
        ).len() > 0 && spec_recipient_valid(lower_of(custom_owner_add.recipient@), *dir)) && (old(store).next_custom_owner_id < i32::MAX && !has_custom_owner_name(
            old(store).custom_owners@,
            lower_of(custom_owner_add.custom_owner_name@),
        )) ==> r.is_success() && r.message@ == "Successfully added custom_owner"@ && final(store).custom_owners@.len() == old(store).custom_owners@.len() + 1 && final(store).custom_owners@
            == old(store).custom_owners@.push(final(store).custom_owners@.last()) && {
            let added = final(store).custom_owners@.last();
            &&& added.custom_owner_name@ == lower_of(custom_owner_add.custom_owner_name@)
            &&& added.recipient@ == lower_of(custom_owner_add.recipient@)
            &&& added.description == custom_owner_add.description
            &&& added.id == old(store).next_custom_owner_id
            &&& added.created_at == now
            &&& added.updated_at == now
        } && final(store).next_custom_owner_id == old(store).next_custom_owner_id + 1,
        (lower_of(custom_owner_add.custom_owner_name@).len() > 0 && lower_of(
            custom_owner_add.recipient@,
        ).len() > 0 && spec_recipient_valid(lower_of(custom_owner_add.recipient@), *dir)) && !(old(store).next_custom_owner_id < i32::MAX && !has_custom_owner_name(
            old(store).custom_owners@,
            lower_of(custom_owner_add.custom_owner_name@),
        )) ==> !r.is_success() && r.message@ == "Failed to add custom_owner"@
            && custom_owners_unchanged(*old(store), *final(store)),
{
    let lowered = CustomOwnerInsert {
        custom_owner_name: lowercase(custom_owner_add.custom_owner_name.as_str()),
        recipient: lowercase(custom_owner_add.recipient.as_str()),
        description: clone_opt_string(&custom_owner_add.description),
    };
    match lowered.validate(dir) {
        Err(e) => {
            let msg = match e {
                Error::ValidationError(m) => m,
                _ => unreached(),
            };
            return Flash::error("/editCustomOwners", msg.as_str());
        },
        Ok(()) => {},
    }
    match store.insert_custom_owner(&lowered, now) {
        Ok(_) => Flash::success("/editCustomOwners", "Successfully added custom_owner"),
        Err(_) => Flash::error("/editCustomOwners", "Failed to add custom_owner"),
    }
}

/// Handles the delete-custom-owner form: an entry whose name still owns a
/// device is refused with its message; a missing entry is a plain failure.
pub fn post_delete_custom_owners(store: &mut Store, custom_owner_edit: &CustomOwnerDelete) -> (r:
    Flash)
    requires
        old(store).wf(),
    ensures
        final(store).wf(),
        devices_unchanged(*old(store), *final(store)),
        pools_unchanged(*old(store), *final(store)),
        final(store).next_custom_owner_id == old(store).next_custom_owner_id,
        r.redirect@ == "/editCustomOwners"@,
        !has_custom_owner_id(old(store).custom_owners@, custom_owner_edit.id) ==> !r.is_success()
            && r.message@ == "Failed to delete custom_owner"@ && custom_owners_unchanged(
            *old(store),
            *final(store),
        ),
        has_custom_owner_id(old(store).custom_owners@, custom_owner_edit.id) ==> exists|i: int|
            0 <= i < old(store).custom_owners@.len() && (#[trigger] old(store).custom_owners@[i]).id == custom_owner_edit.id && {
                let cur = old(store).custom_owners@[i];
                if has_device_owned_by(old(store).devices@, cur.custom_owner_name@) {
                    !r.is_success() && r.message@
                        == "Cannot delete custom_owner with devices reserved"@
                        && custom_owners_unchanged(*old(store), *final(store))
                } else {
                    r.is_success() && r.message@ == "Successfully deleted custom_owner"@ && final(store).custom_owners@ == old(store).custom_owners@.remove(i)
                }
            },
{
    match store.delete_custom_owner(custom_owner_edit) {
        Err(e) => {
            let msg = match e {
                Error::ValidationError(m) => m,
                _ => unreached(),
            };
            Flash::error("/editCustomOwners", msg.as_str())
        },
        Ok(count) => {
            if count == 0 {
                Flash::error("/editCustomOwners", "Failed to delete custom_owner")
            } else {
                Flash::success("/editCustomOwners", "Successfully deleted custom_owner")
            }
        },
    }
}

/// Handles the edit-custom-owner form: name and recipient are lowercased,
/// the fields validated, and the store refuses a rename while devices are
/// still reserved under the old name.
pub fn post_edit_custom_owners(
    store: &mut Store,
    dir: &Directory,
    custom_owner_edit: &CustomOwnerModify,
    now: i64,
) -> (r: Flash)
    requires
        old(store).wf(),
    ensures
        final(store).wf(),
        devices_unchanged(*old(store), *final(store)),
        pools_unchanged(*old(store), *final(store)),
        final(store).next_custom_owner_id == old(store).next_custom_owner_id,
        r.redirect@ == "/editCustomOwners"@,
        !(lower_of(custom_owner_edit.custom_owner_name@).len() > 0 && lower_of(
            custom_owner_edit.recipient@,
        ).len() > 0 && spec_recipient_valid(lower_of(custom_owner_edit.recipient@), *dir))
            ==> !r.is_success() && custom_owners_unchanged(*old(store), *final(store)) && (if lower_of(
            custom_owner_edit.custom_owner_name@,
        ).len() == 0 {
            r.message@ == "custom_owner_name cannot be empty"@
        } else if lower_of(custom_owner_edit.recipient@).len() == 0 {
            r.message@ == "recipient cannot be empty"@
        } else {
            r.message@ == "Recipient must be valid Slack user, Slack channel or \"None\"."@
        }),
        (lower_of(custom_owner_edit.custom_owner_name@).len() > 0 && lower_of(
            custom_owner_edit.recipient@,
        ).len() > 0 && spec_recipient_valid(lower_of(custom_owner_edit.recipient@), *dir))
            && !has_custom_owner_id(old(store).custom_owners@, custom_owner_edit.id)
            ==> !r.is_success() && r.message@ == "Failed to update custom_owner"@
            && custom_owners_unchanged(*old(store), *final(store)),
        (lower_of(custom_owner_edit.custom_owner_name@).len() > 0 && lower_of(
            custom_owner_edit.recipient@,
        ).len() > 0 && spec_recipient_valid(lower_of(custom_owner_edit.recipient@), *dir))
            && has_custom_owner_id(old(store).custom_owners@, custom_owner_edit.id) ==> exists|
            i: int,
        |
            0 <= i < old(store).custom_owners@.len() && (#[trigger] old(store).custom_owners@[i]).id == custom_owner_edit.id && {
                let cur = old(store).custom_owners@[i];
                if cur.custom_owner_name@ != lower_of(custom_owner_edit.custom_owner_name@)
                    && has_device_owned_by(old(store).devices@, cur.custom_owner_name@) {
                    !r.is_success() && r.message@
                        == "Cannot modify name of custom_owner with devices reserved"@
                        && custom_owners_unchanged(*old(store), *final(store))
                } else if has_other_custom_owner_named(
                    old(store).custom_owners@,
                    lower_of(custom_owner_edit.custom_owner_name@),
                    custom_owner_edit.id,
                ) {
                    !r.is_success() && r.message@ == "Failed to update custom_owner"@
                        && custom_owners_unchanged(*old(store), *final(store))
                } else {
                    r.is_success() && r.message@ == "Successfully updated custom_owner"@ && final(store).custom_owners@.len() == old(store).custom_owners@.len() && final(store).custom_owners@ == old(store).custom_owners@.update(
                        i,
                        final(store).custom_owners@[i],
                    ) && {
                        let edited = final(store).custom_owners@[i];
                        &&& edited.id == cur.id
                        &&& edited.custom_owner_name@ == lower_of(
                            custom_owner_edit.custom_owner_name@,
                        )
                        &&& edited.recipient@ == lower_of(custom_owner_edit.recipient@)
                        &&& edited.description == custom_owner_edit.description
                        &&& edited.created_at == cur.created_at
                        &&& edited.updated_at == now
                    }
                }
            },
{
    let lowered = CustomOwnerModify {
        id: custom_owner_edit.id,
        custom_owner_name: lowercase(custom_owner_edit.custom_owner_name.as_str()),
        recipient: lowercase(custom_owner_edit.recipient.as_str()),
        description: clone_opt_string(&custom_owner_edit.description),
    };
    match lowered.validate(dir) {
        Err(e) => {
            let msg = match e {
                Error::ValidationError(m) => m,
                _ => unreached(),
            };
            return Flash::error("/editCustomOwners", msg.as_str());
        },
        Ok(()) => {},
    }
    match store.edit_custom_owner(&lowered, now) {
        Ok(count) => {
            if count == 0 {
                Flash::error("/editCustomOwners", "Failed to update custom_owner")
            } else {
                Flash::success("/editCustomOwners", "Successfully updated custom_owner")
            }
        },
        Err(e) => {
            match e {
                Error::ValidationError(m) => Flash::error("/editCustomOwners", m.as_str()),
                _ => Flash::error("/editCustomOwners", "Failed to update custom_owner"),
            }
        },
    }
}

} // verus!
