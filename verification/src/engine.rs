//! The reservation state engine.  A device moves between Available and
//! Reserved only through conditional updates: the write matches the device's
//! id and its expected prior status, and touches zero rows when the device
//! has meanwhile changed state.  That is the sole concurrency-control
//! discipline; a lost race surfaces as zero rows and is reported, never
//! retried.

use crate::directory::Directory;
use crate::models::{
    clone_opt_string, spec_owner_valid, Device, DeviceUpdate, Error, ReservationStatus,
};
use crate::runtime::random_index;
use crate::text::trim_of;
use crate::store::{
    devices_unchanged, device_in_pool_available, has_available_in_pool, has_device_id,
    has_device_in_status, custom_owners_unchanged, lemma_devices_wf_update, pools_unchanged,
    Store,
};
use vstd::prelude::*;

verus! {

/// The device a conditional update leaves behind: the requested status,
/// owner and comments (force-cleared on a return to Available), stamped
/// with `now`.
pub open spec fn spec_apply_update(d: Device, u: DeviceUpdate, now: i64) -> Device {
    Device {
        id: d.id,
        device_name: d.device_name,
        device_url: d.device_url,
        device_owner: if u.reservation_status == ReservationStatus::Available {
            None
        } else {
            u.device_owner
        },
        comments: if u.reservation_status == ReservationStatus::Available {
            None
        } else {
            u.comments
        },
        reservation_status: u.reservation_status,
        created_at: d.created_at,
        updated_at: now,
        pool_id: d.pool_id,
    }
}

/// The device a release leaves behind: available, with owner and comments
/// cleared.
pub open spec fn spec_released_device(d: Device, now: i64) -> Device {
    Device {
        id: d.id,
        device_name: d.device_name,
        device_url: d.device_url,
        device_owner: None,
        comments: None,
        reservation_status: ReservationStatus::Available,
        created_at: d.created_at,
        updated_at: now,
        pool_id: d.pool_id,
    }
}

/// The device a granted reservation leaves behind: reserved under the
/// given owner and comments.
pub open spec fn spec_reserved_device(
    d: Device,
    owner: Option<String>,
    comments: Option<String>,
    now: i64,
) -> Device {
    Device {
        id: d.id,
        device_name: d.device_name,
        device_url: d.device_url,
        device_owner: owner,
        comments: comments,
        reservation_status: ReservationStatus::Reserved,
        created_at: d.created_at,
        updated_at: now,
        pool_id: d.pool_id,
    }
}

impl Store {
    /// Index of the device holding `id` in status `st`, if any.
    fn find_device_index_in_status(&self, id: i32, st: ReservationStatus) -> (r: Option<usize>)
        ensures
            match r {
                Some(i) => i < self.devices@.len() && self.devices@[i as int].id == id
                    && self.devices@[i as int].reservation_status == st,
                None => !has_device_in_status(self.devices@, id, st),
            },
    {
        let n = self.devices.len();
        let mut i: usize = 0;
        while i < n
            invariant
                n == self.devices@.len(),
                i <= n,
                forall|j: int|
                    0 <= j < i ==> !((#[trigger] self.devices@[j]).id == id
                        && self.devices@[j].reservation_status == st),
            decreases n - i,
        {
            if self.devices[i].id == id && self.devices[i].reservation_status == st {
                return Some(i);
            }
            i += 1;
        }
        None
    }

    /// The conditional update at the heart of the state machine: writes the
    /// requested status, owner and comments to the device holding
    /// `device_update.id`, but only when its current status equals
    /// `expected_status`.  Owner and comments are force-cleared whenever the
    /// requested status is Available.  Returns the number of rows matched:
    /// zero means the device is missing or was concurrently moved out of the
    /// expected state.
    pub fn update_device(
        &mut self,
        device_update: &DeviceUpdate,
        expected_status: ReservationStatus,
        now: i64,
    ) -> (r: usize)
        requires
            old(self).wf(),
        ensures
            final(self).wf(),
            pools_unchanged(*old(self), *final(self)),
            custom_owners_unchanged(*old(self), *final(self)),
            final(self).next_device_id == old(self).next_device_id,
            r <= 1,
            (r == 1) == has_device_in_status(
                old(self).devices@,
                device_update.id,
                expected_status,
            ),
            r == 0 ==> final(self).devices@ == old(self).devices@,
            r == 1 ==> exists|i: int|
                0 <= i < old(self).devices@.len() && (#[trigger] old(self).devices@[i]).id
                    == device_update.id && old(self).devices@[i].reservation_status
                    == expected_status && final(self).devices@ == old(self).devices@.update(
                    i,
                    spec_apply_update(old(self).devices@[i], *device_update, now),
                ),
    {
        match self.find_device_index_in_status(device_update.id, expected_status) {
            None => 0,
            Some(i) => {
                let d0 = &self.devices[i];
                let returning = device_update.reservation_status == ReservationStatus::Available;
                let d = Device {
                    id: d0.id,
                    device_name: d0.device_name.clone(),
                    device_url: clone_opt_string(&d0.device_url),
                    device_owner: if returning {
                        None
                    } else {
                        clone_opt_string(&device_update.device_owner)
                    },
                    comments: if returning {
                        None
                    } else {
                        clone_opt_string(&device_update.comments)
                    },
                    reservation_status: device_update.reservation_status,
                    created_at: d0.created_at,
                    updated_at: now,
                    pool_id: d0.pool_id,
                };
                proof {
                    assert(d == spec_apply_update(self.devices@[i as int], *device_update, now));
                    lemma_devices_wf_update(
                        self.devices@,
                        self.pools@,
                        self.next_device_id,
                        i as int,
                        d,
                    );
                }
                self.devices.set(i, d);
                1
            },
        }
    }

    /// Ends a reservation: the conditional update keyed on the expected
    /// prior status Reserved, clearing owner and comments.  A missing
    /// device is `NotFound`; a device already Available is a `Conflict`.
    pub fn release(&mut self, device_id: i32, now: i64) -> (r: Result<(), Error>)
        requires
            old(self).wf(),
        ensures
            final(self).wf(),
            pools_unchanged(*old(self), *final(self)),
            custom_owners_unchanged(*old(self), *final(self)),
            final(self).next_device_id == old(self).next_device_id,
            !has_device_id(old(self).devices@, device_id) ==> r == Err::<(), Error>(
                Error::NotFound,
            ) && devices_unchanged(*old(self), *final(self)),
            has_device_id(old(self).devices@, device_id) && !has_device_in_status(
                old(self).devices@,
                device_id,
                ReservationStatus::Reserved,
            ) ==> r == Err::<(), Error>(Error::Conflict) && devices_unchanged(
                *old(self),
                *final(self),
            ),
            has_device_in_status(old(self).devices@, device_id, ReservationStatus::Reserved) ==> r
                == Ok::<(), Error>(()) && exists|i: int|
                0 <= i < old(self).devices@.len() && (#[trigger] old(self).devices@[i]).id
                    == device_id && old(self).devices@[i].reservation_status
                    == ReservationStatus::Reserved && final(self).devices@ == old(
                    self,
                ).devices@.update(i, spec_released_device(old(self).devices@[i], now)),
    {
        match self.find_device_index(device_id) {
            None => Err(Error::NotFound),
            Some(_) => {
                let upd = DeviceUpdate {
                    id: device_id,
                    device_owner: None,
                    comments: None,
                    reservation_status: ReservationStatus::Available,
                };
                let count = self.update_device(&upd, ReservationStatus::Reserved, now);
                if count == 0 {
                    Err(Error::Conflict)
                } else {
                    proof {
                        let j = choose|j: int|
                            0 <= j < old(self).devices@.len() && (#[trigger] old(
                                self,
                            ).devices@[j]).id == upd.id && old(self).devices@[j].reservation_status
                                == ReservationStatus::Reserved && self.devices@ == old(
                                self,
                            ).devices@.update(
                                j,
                                spec_apply_update(old(self).devices@[j], upd, now),
                            );
                        assert(spec_apply_update(old(self).devices@[j], upd, now)
                            == spec_released_device(old(self).devices@[j], now));
                    }
                    Ok(())
                }
            },
        }
    }

    /// Starts a reservation: validates the owner, then the conditional
    /// update keyed on the expected prior status Available, writing the
    /// owner and comments.  An illegitimate owner is a `ValidationError`;
    /// a device that is missing or not available is a `Conflict`.
    pub fn reserve_device(
        &mut self,
        device_id: i32,
        device_owner: &Option<String>,
        comments: &Option<String>,
        dir: &Directory,
        now: i64,
    ) -> (r: Result<(), Error>)
        requires
            old(self).wf(),
        ensures
            final(self).wf(),
            pools_unchanged(*old(self), *final(self)),
            custom_owners_unchanged(*old(self), *final(self)),
            final(self).next_device_id == old(self).next_device_id,
            r is Err ==> devices_unchanged(*old(self), *final(self)),
            !spec_owner_valid(*device_owner, *dir, old(self).custom_owners@) ==> (r matches Err(
                Error::ValidationError(m),
            ) && (if *device_owner is None || trim_of(device_owner.unwrap()@).len() == 0 {
                m@ == "Please supply a username when reserving a device"@
            } else {
                m@ == "Please enter a valid slack username or custom owner when reserving a device."@
            })),
            spec_owner_valid(*device_owner, *dir, old(self).custom_owners@)
                && !has_device_in_status(
                old(self).devices@,
                device_id,
                ReservationStatus::Available,
            ) ==> r == Err::<(), Error>(Error::Conflict),
            spec_owner_valid(*device_owner, *dir, old(self).custom_owners@) && has_device_in_status(
                old(self).devices@,
                device_id,
                ReservationStatus::Available,
            ) ==> r == Ok::<(), Error>(()) && exists|i: int|
                0 <= i < old(self).devices@.len() && (#[trigger] old(self).devices@[i]).id
                    == device_id && old(self).devices@[i].reservation_status
                    == ReservationStatus::Available && final(self).devices@ == old(
                    self,
                ).devices@.update(
                    i,
                    spec_reserved_device(old(self).devices@[i], *device_owner, *comments, now),
                ),
    {
        let upd = DeviceUpdate {
            id: device_id,
            device_owner: clone_opt_string(device_owner),
            comments: clone_opt_string(comments),
            reservation_status: ReservationStatus::Reserved,
        };
        match upd.validate(dir, &self.custom_owners) {
            Err(e) => {
                return Err(e);
            },
            Ok(()) => {},
        }
        let count = self.update_device(&upd, ReservationStatus::Available, now);
        if count == 0 {
            return Err(Error::Conflict);
        }
        proof {
            let j = choose|j: int|
                0 <= j < old(self).devices@.len() && (#[trigger] old(self).devices@[j]).id
                    == upd.id && old(self).devices@[j].reservation_status
                    == ReservationStatus::Available && self.devices@ == old(self).devices@.update(
                    j,
                    spec_apply_update(old(self).devices@[j], upd, now),
                );
            assert(spec_apply_update(old(self).devices@[j], upd, now) == spec_reserved_device(
                old(self).devices@[j],
                *device_owner,
                *comments,
                now,
            ));
        }
        Ok(())
    }

    /// The indices of the available devices of one pool, in table order.
    fn available_indices_in_pool(&self, pool: i32) -> (r: Vec<usize>)
        ensures
            forall|k: int|
                0 <= k < r@.len() ==> (#[trigger] r@[k]) < self.devices@.len()
                    && device_in_pool_available(self.devices@[r@[k] as int], pool),
            (r@.len() == 0) == !has_available_in_pool(self.devices@, pool),
    {
        let mut r: Vec<usize> = Vec::new();
        let n = self.devices.len();
        let mut i: usize = 0;
        while i < n
            invariant
                n == self.devices@.len(),
                i <= n,
                forall|k: int|
                    0 <= k < r@.len() ==> (#[trigger] r@[k]) < i && device_in_pool_available(
                        self.devices@[r@[k] as int],
                        pool,
                    ),
                (r@.len() == 0) ==> forall|j: int|
                    0 <= j < i ==> !device_in_pool_available(#[trigger] self.devices@[j], pool),
            decreases n - i,
        {
            let matched = self.devices[i].pool_id == pool && self.devices[i].reservation_status
                == ReservationStatus::Available;
            if matched {
                r.push(i);
            }
            i += 1;
        }
        proof {
            if r@.len() > 0 {
                assert(device_in_pool_available(self.devices@[r@[0] as int], pool));
            }
        }
        r
    }

    /// One available device of the pool, selected at random; None only when
    /// the pool holds no available device.  No determinism is promised: any
    /// available device of the pool may come back.
    pub fn get_available_device_from_pool(&self, requested_pool_id: i32) -> (r: Option<Device>)
        ensures
            match r {
                Some(d) => exists|i: int|
                    0 <= i < self.devices@.len() && d == self.devices@[i]
                        && device_in_pool_available(d, requested_pool_id),
                None => !has_available_in_pool(self.devices@, requested_pool_id),
            },
    {
        let idxs = self.available_indices_in_pool(requested_pool_id);
        if idxs.len() == 0 {
            None
        } else {
            let k = random_index(idxs.len());
            let i = idxs[k];
            Some(self.devices[i].clone())
        }
    }

    /// Grants a reservation from a pool: fails with `NotFound` when the
    /// pool holds no available device, with `ValidationError` when the
    /// owner is missing or not legitimate; otherwise reserves one available
    /// device of the pool, chosen at random, through the conditional update
    /// keyed on the prior status Available, and returns it re-read.
    pub fn reserve_from_pool(
        &mut self,
        requested_pool_id: i32,
        device_owner: &Option<String>,
        comments: &Option<String>,
        dir: &Directory,
        now: i64,
    ) -> (r: Result<Device, Error>)
        requires
            old(self).wf(),
        ensures
            final(self).wf(),
            pools_unchanged(*old(self), *final(self)),
            custom_owners_unchanged(*old(self), *final(self)),
            final(self).next_device_id == old(self).next_device_id,
            r is Err ==> devices_unchanged(*old(self), *final(self)),
            !has_available_in_pool(old(self).devices@, requested_pool_id) ==> r == Err::<
                Device,
                Error,
            >(Error::NotFound),
            has_available_in_pool(old(self).devices@, requested_pool_id) && !spec_owner_valid(
                *device_owner,
                *dir,
                old(self).custom_owners@,
            ) ==> r matches Err(Error::ValidationError(_)),
            has_available_in_pool(old(self).devices@, requested_pool_id) && spec_owner_valid(
                *device_owner,
                *dir,
                old(self).custom_owners@,
            ) ==> (r matches Ok(d) && exists|i: int|
                0 <= i < old(self).devices@.len() && device_in_pool_available(
                    #[trigger] old(self).devices@[i],
                    requested_pool_id,
                ) && d == spec_reserved_device(old(self).devices@[i], *device_owner, *comments, now)
                    && final(self).devices@ == old(self).devices@.update(i, d)),
    {
        let idxs = self.available_indices_in_pool(requested_pool_id);
        if idxs.len() == 0 {
            return Err(Error::NotFound);
        }
        let k = random_index(idxs.len());
        let i = idxs[k];
        let device_id = self.devices[i].id;
        proof {
            assert(self.devices@[i as int].id == device_id && self.devices@[i as int
            ].reservation_status == ReservationStatus::Available);
        }
        match self.reserve_device(device_id, device_owner, comments, dir, now) {
            Err(e) => Err(e),
            Ok(()) => {
                proof {
                    let j = choose|j: int|
                        0 <= j < old(self).devices@.len() && (#[trigger] old(self).devices@[j]).id
                            == device_id && old(self).devices@[j].reservation_status
                            == ReservationStatus::Available && self.devices@ == old(
                            self,
                        ).devices@.update(
                            j,
                            spec_reserved_device(
                                old(self).devices@[j],
                                *device_owner,
                                *comments,
                                now,
                            ),
                        );
                    if j != i {
                        if j < i {
                            assert(old(self).devices@[j].id != old(self).devices@[i as int].id);
                        } else {
                            assert(old(self).devices@[i as int].id != old(self).devices@[j].id);
                        }
                    }
                    assert(j == i);
                }
                Ok(self.devices[i].clone())
            },
        }
    }
}

/// Law: a well-formed store never shows an owner or comments on a device
/// that is available.
pub proof fn lemma_available_devices_are_clear(s: Store)
    requires
        s.wf(),
    ensures
        forall|i: int|
            0 <= i < s.devices@.len() && (#[trigger] s.devices@[i]).reservation_status
                == ReservationStatus::Available ==> s.devices@[i].device_owner is None
                && s.devices@[i].comments is None,
{
}

/// Law: when exactly one device of the pool is available — it sits at index
/// `i` — a granted reservation from that pool can only have picked that
/// device: it comes back reserved under the given owner and comments, and
/// it alone changed.
pub proof fn lemma_reserve_from_pool_single(
    pre: Seq<Device>,
    post: Seq<Device>,
    pool: i32,
    owner: Option<String>,
    comments: Option<String>,
    now: i64,
    d: Device,
    i: int,
)
    requires
        0 <= i < pre.len(),
        device_in_pool_available(pre[i], pool),
        forall|k: int|
            0 <= k < pre.len() && device_in_pool_available(#[trigger] pre[k], pool) ==> k == i,
        exists|k: int|
            0 <= k < pre.len() && device_in_pool_available(#[trigger] pre[k], pool) && d
                == spec_reserved_device(pre[k], owner, comments, now) && post == pre.update(k, d),
    ensures
        d == spec_reserved_device(pre[i], owner, comments, now),
        post == pre.update(i, d),
        d.id == pre[i].id,
        d.reservation_status == ReservationStatus::Reserved,
{
    let k = choose|k: int|
        0 <= k < pre.len() && device_in_pool_available(#[trigger] pre[k], pool) && d
            == spec_reserved_device(pre[k], owner, comments, now) && post == pre.update(k, d);
    assert(k == i);
}

} // verus!
