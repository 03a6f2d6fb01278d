//! The data model: devices, pools, custom owners, the form payloads that
//! mutate them, and the validation rules that guard every mutation.

use crate::directory::Directory;
use crate::text::{lower_of, lowercase, trim_of, trimmed, url_is_valid, url_valid};
use vstd::prelude::*;

verus! {

/// Reservation state of a device.
#[derive(Clone, Copy, Debug, PartialEq, Eq, Structural)]
pub enum ReservationStatus {
    Available,
    Reserved,
}

impl ReservationStatus {
    /// The opposite status.
    pub open spec fn spec_toggled(self) -> Self {
        match self {
            ReservationStatus::Available => ReservationStatus::Reserved,
            ReservationStatus::Reserved => ReservationStatus::Available,
        }
    }

    /// The opposite status, used by the single-form path that posts the
    /// observed status and asks for the other one.
    pub fn toggled(self) -> (r: Self)
        ensures
            r == self.spec_toggled(),
    {
        match self {
            ReservationStatus::Available => ReservationStatus::Reserved,
            ReservationStatus::Reserved => ReservationStatus::Available,
        }
    }
}

impl Default for ReservationStatus {
    fn default() -> (r: Self)
        ensures
            r == ReservationStatus::Available,
    {
        ReservationStatus::Available
    }
}

/// Error taxonomy of the core.  `NotFound`: no matching record.
/// `ValidationError`: a field or business rule was violated; carries the
/// user-facing message.  `Conflict`: a conditional update matched zero rows
/// because the record was not in the expected state.  `InternalError`: a
/// store-level constraint failure.
#[derive(Debug, PartialEq, Eq)]
pub enum Error {
    NotFound,
    ValidationError(String),
    Conflict,
    InternalError,
}

/// Clones an optional string, preserving its value.
pub fn clone_opt_string(o: &Option<String>) -> (r: Option<String>)
    ensures
        r == *o,
{
    match o {
        Some(s) => Some(s.clone()),
        None => None,
    }
}

/// A device record.  The owner and comments are meaningful only while the
/// device is reserved; on the transition back to available they are cleared.
#[derive(Debug, PartialEq, Eq)]
pub struct Device {
    pub id: i32,
    pub device_name: String,
    pub device_url: Option<String>,
    pub device_owner: Option<String>,
    pub comments: Option<String>,
    pub reservation_status: ReservationStatus,
    pub created_at: i64,
    pub updated_at: i64,
    pub pool_id: i32,
}

impl Clone for Device {
    fn clone(&self) -> (r: Self)
        ensures
            r == *self,
    {
        Device {
            id: self.id,
            device_name: self.device_name.clone(),
            device_url: clone_opt_string(&self.device_url),
            device_owner: clone_opt_string(&self.device_owner),
            comments: clone_opt_string(&self.comments),
            reservation_status: self.reservation_status,
            created_at: self.created_at,
            updated_at: self.updated_at,
            pool_id: self.pool_id,
        }
    }
}

/// A named grouping of devices.  Pool id 1 is the default pool and can
/// never be deleted.
#[derive(Debug, PartialEq, Eq)]
pub struct Pool {
    pub id: i32,
    pub pool_name: String,
    pub description: Option<String>,
    pub created_at: i64,
    pub updated_at: i64,
}

impl Clone for Pool {
    fn clone(&self) -> (r: Self)
        ensures
            r == *self,
    {
        Pool {
            id: self.id,
            pool_name: self.pool_name.clone(),
            description: clone_opt_string(&self.description),
            created_at: self.created_at,
            updated_at: self.updated_at,
        }
    }
}

/// A locally registered recipient alias that bypasses the live directory
/// lookup.  Name and recipient are stored lowercased.
#[derive(Debug, PartialEq, Eq)]
pub struct CustomOwner {
    pub id: i32,
    pub custom_owner_name: String,
    pub recipient: String,
    pub description: Option<String>,
    pub created_at: i64,
    pub updated_at: i64,
}

impl Clone for CustomOwner {
    fn clone(&self) -> (r: Self)
        ensures
            r == *self,
    {
        CustomOwner {
            id: self.id,
            custom_owner_name: self.custom_owner_name.clone(),
            recipient: self.recipient.clone(),
            description: clone_opt_string(&self.description),
            created_at: self.created_at,
            updated_at: self.updated_at,
        }
    }
}

/// Form payload of the single-device form: the desired owner and comments
/// together with the reservation status observed when the form was rendered.
#[derive(Debug, PartialEq, Eq)]
pub struct DeviceUpdate {
    pub id: i32,
    pub device_owner: Option<String>,
    pub comments: Option<String>,
    pub reservation_status: ReservationStatus,
}

/// Form payload that renames a device, changes its URL or moves it to
/// another pool; it never touches the reservation fields.
#[derive(Debug, PartialEq, Eq)]
pub struct DeviceEdit {
    pub id: i32,
    pub device_name: String,
    pub device_url: String,
    pub pool_id: i32,
}

/// Form payload that deletes a device.
#[derive(Debug, PartialEq, Eq)]
pub struct DeviceDelete {
    pub id: i32,
}

/// Form payload that adds a device.
#[derive(Debug, PartialEq, Eq)]
pub struct DeviceInsert {
    pub device_name: String,
    pub device_url: String,
    pub pool_id: i32,
}

/// A granted reservation, as the JSON API reports it.
#[derive(Debug, PartialEq, Eq)]
pub struct Reservation {
    pub id: i32,
    pub device_owner: String,
    pub comments: Option<String>,
    pub device: Device,
}

/// A reservation request against a pool.
#[derive(Debug, PartialEq, Eq)]
pub struct ReservationRequest {
    pub device_owner: Option<String>,
    pub comments: Option<String>,
    pub device: ReservationRequestDevice,
}

/// The device part of a reservation request; only the pool matters.
#[derive(Debug, PartialEq, Eq)]
pub struct ReservationRequestDevice {
    pub id: Option<i32>,
    pub device_name: Option<String>,
    pub device_url: Option<String>,
    pub device_owner: Option<String>,
    pub comments: Option<String>,
    pub pool_id: i32,
}

/// Form payload that renames a pool or changes its description.
#[derive(Debug, PartialEq, Eq)]
pub struct PoolModify {
    pub id: i32,
    pub pool_name: String,
    pub description: Option<String>,
}

/// Form payload that adds a pool.
#[derive(Debug, PartialEq, Eq)]
pub struct PoolInsert {
    pub pool_name: String,
    pub description: Option<String>,
}

/// Form payload that deletes a pool.
#[derive(Debug, PartialEq, Eq)]
pub struct PoolDelete {
    pub id: i32,
}

/// Form payload that renames a custom owner or changes its recipient.
#[derive(Debug, PartialEq, Eq)]
pub struct CustomOwnerModify {
    pub id: i32,
    pub custom_owner_name: String,
    pub recipient: String,
    pub description: Option<String>,
}

/// Form payload that adds a custom owner.
#[derive(Debug, PartialEq, Eq)]
pub struct CustomOwnerInsert {
    pub custom_owner_name: String,
    pub recipient: String,
    pub description: Option<String>,
}

/// Form payload that deletes a custom owner.
#[derive(Debug, PartialEq, Eq)]
pub struct CustomOwnerDelete {
    pub id: i32,
}

/// Outcome of a form post: a kind ("success" or "error"), a user-facing
/// message, and the path the client is redirected to.
#[derive(Debug, PartialEq, Eq)]
pub struct Flash {
    pub kind: String,
    pub message: String,
    pub redirect: String,
}

impl Flash {
    /// Whether this outcome reports success.
    pub open spec fn is_success(&self) -> bool {
        self.kind@ == "success"@
    }

    /// A success outcome.
    pub fn success(redirect: &str, message: &str) -> (r: Flash)
        ensures
            r.is_success(),
            r.message@ == message@,
            r.redirect@ == redirect@,
    {
        Flash {
            kind: "success".to_owned(),
            message: message.to_owned(),
            redirect: redirect.to_owned(),
        }
    }

    /// An error outcome.
    pub fn error(redirect: &str, message: &str) -> (r: Flash)
        ensures
            !r.is_success(),
            r.message@ == message@,
            r.redirect@ == redirect@,
    {
        let r = Flash {
            kind: "error".to_owned(),
            message: message.to_owned(),
            redirect: redirect.to_owned(),
        };
        proof {
            reveal_strlit("success");
            reveal_strlit("error");
            assert(("error"@).len() == 5);
            assert(("success"@).len() == 7);
        }
        r
    }
}

/// Whether `t` (a trimmed owner) names a registered custom owner; the
/// registry stores names lowercased, so the lookup folds `t` the same way.
pub open spec fn spec_is_custom_owner(owners: Seq<CustomOwner>, t: Seq<char>) -> bool {
    exists|i: int|
        0 <= i < owners.len() && (#[trigger] owners[i]).custom_owner_name@ == lower_of(t)
}

/// A legitimate reservation owner: supplied, non-blank once trimmed, and
/// known either to the directory or to the custom-owner registry.
pub open spec fn spec_owner_valid(
    owner: Option<String>,
    dir: Directory,
    owners: Seq<CustomOwner>,
) -> bool {
    &&& owner is Some
    &&& trim_of(owner.unwrap()@).len() > 0
    &&& (dir.spec_user_exists(trim_of(owner.unwrap()@)) || spec_is_custom_owner(
        owners,
        trim_of(owner.unwrap()@),
    ))
}

/// What device-checkout validation accepts: setting a device to Reserved
/// needs a legitimate owner; setting it back to Available needs nothing.
pub open spec fn spec_checkout_valid(
    u: DeviceUpdate,
    dir: Directory,
    owners: Seq<CustomOwner>,
) -> bool {
    u.reservation_status == ReservationStatus::Reserved ==> spec_owner_valid(
        u.device_owner,
        dir,
        owners,
    )
}

/// A legitimate recipient: the literal "none" in any case, or a user or
/// channel known to the directory.
pub open spec fn spec_recipient_valid(rec: Seq<char>, dir: Directory) -> bool {
    ||| lower_of(rec) == "none"@
    ||| dir.spec_user_exists(trim_of(rec))
    ||| dir.spec_channel_exists(trim_of(rec))
}

/// Case-insensitive lookup of the trimmed owner `t` in the registry.
pub fn is_custom_owner_match(owners: &Vec<CustomOwner>, t: &str) -> (r: bool)
    ensures
        r == spec_is_custom_owner(owners@, t@),
{
    let target = lowercase(t);
    let n = owners.len();
    let mut i: usize = 0;
    while i < n
        invariant
            n == owners@.len(),
            i <= n,
            target@ == lower_of(t@),
            forall|j: int| 0 <= j < i ==> (#[trigger] owners@[j]).custom_owner_name@ != lower_of(
                t@,
            ),
        decreases n - i,
    {
        if owners[i].custom_owner_name == target {
            return true;
        }
        i += 1;
    }
    false
}

impl DeviceUpdate {
    /// Device-checkout validation: when the requested status is Reserved,
    /// the owner must be supplied, non-blank, and resolvable through the
    /// directory or the custom-owner registry.
    pub fn validate(&self, dir: &Directory, custom_owners: &Vec<CustomOwner>) -> (r: Result<
        (),
        Error,
    >)
        ensures
            r is Ok <==> spec_checkout_valid(*self, *dir, custom_owners@),
            r is Err ==> (r matches Err(Error::ValidationError(m)) && (if self.device_owner
                is None || trim_of(self.device_owner.unwrap()@).len() == 0 {
                m@ == "Please supply a username when reserving a device"@
            } else {
                m@ == "Please enter a valid slack username or custom owner when reserving a device."@
            })),
    {
        if self.reservation_status == ReservationStatus::Reserved {
            match &self.device_owner {
                Some(owner) => {
                    let t = trimmed(owner.as_str());
                    if t.is_empty() {
                        Err(Error::ValidationError(
                            "Please supply a username when reserving a device".to_owned(),
                        ))
                    } else if dir.user_exists(t) || is_custom_owner_match(custom_owners, t) {
                        Ok(())
                    } else {
                        Err(Error::ValidationError(
                            "Please enter a valid slack username or custom owner when reserving a device.".to_owned(),
                        ))
                    }
                },
                None => Err(Error::ValidationError(
                    "Please supply a username when reserving a device".to_owned(),
                )),
            }
        } else {
            Ok(())
        }
    }
}

impl DeviceInsert {
    /// Field validation: a non-empty device name and a well-formed URL.
    pub fn validate(&self) -> (r: Result<(), Error>)
        ensures
            r is Ok <==> (self.device_name@.len() > 0 && url_valid(self.device_url@)),
            self.device_name@.len() == 0 ==> (r matches Err(Error::ValidationError(m)) && m@
                == "Device names cannot be empty"@),
            self.device_name@.len() > 0 && !url_valid(self.device_url@) ==> (r matches Err(
                Error::ValidationError(m),
            ) && m@ == "URL was invalid"@),
    {
        if self.device_name.as_str().is_empty() {
            Err(Error::ValidationError("Device names cannot be empty".to_owned()))
        } else if !url_is_valid(self.device_url.as_str()) {
            Err(Error::ValidationError("URL was invalid".to_owned()))
        } else {
            Ok(())
        }
    }
}

impl DeviceEdit {
    /// Field validation: a non-empty device name and a well-formed URL.
    pub fn validate(&self) -> (r: Result<(), Error>)
        ensures
            r is Ok <==> (self.device_name@.len() > 0 && url_valid(self.device_url@)),
            self.device_name@.len() == 0 ==> (r matches Err(Error::ValidationError(m)) && m@
                == "Device names cannot be empty"@),
            self.device_name@.len() > 0 && !url_valid(self.device_url@) ==> (r matches Err(
                Error::ValidationError(m),
            ) && m@ == "URL was invalid"@),
    {
        if self.device_name.as_str().is_empty() {
            Err(Error::ValidationError("Device names cannot be empty".to_owned()))
        } else if !url_is_valid(self.device_url.as_str()) {
            Err(Error::ValidationError("URL was invalid".to_owned()))
        } else {
            Ok(())
        }
    }
}

impl PoolInsert {
    /// Field validation: a non-empty pool name.
    pub fn validate(&self) -> (r: Result<(), Error>)
        ensures
            r is Ok <==> self.pool_name@.len() > 0,
            r is Err ==> (r matches Err(Error::ValidationError(m)) && m@
                == "pool_name cannot be empty"@),
    {
        if self.pool_name.as_str().is_empty() {
            Err(Error::ValidationError("pool_name cannot be empty".to_owned()))
        } else {
            Ok(())
        }
    }
}

impl PoolModify {
    /// Field validation: a non-empty pool name.
    pub fn validate(&self) -> (r: Result<(), Error>)
        ensures
            r is Ok <==> self.pool_name@.len() > 0,
            r is Err ==> (r matches Err(Error::ValidationError(m)) && m@
                == "pool_name cannot be empty"@),
    {
        if self.pool_name.as_str().is_empty() {
            Err(Error::ValidationError("pool_name cannot be empty".to_owned()))
        } else {
            Ok(())
        }
    }
}

impl CustomOwnerInsert {
    /// Field and recipient validation: non-empty name and recipient, and a
    /// recipient that is "none" or known to the directory.
    pub fn validate(&self, dir: &Directory) -> (r: Result<(), Error>)
        ensures
            r is Ok <==> (self.custom_owner_name@.len() > 0 && self.recipient@.len() > 0
                && spec_recipient_valid(self.recipient@, *dir)),
            self.custom_owner_name@.len() == 0 ==> (r matches Err(Error::ValidationError(m)) && m@
                == "custom_owner_name cannot be empty"@),
            self.custom_owner_name@.len() > 0 && self.recipient@.len() == 0 ==> (r matches Err(
                Error::ValidationError(m),
            ) && m@ == "recipient cannot be empty"@),
            self.custom_owner_name@.len() > 0 && self.recipient@.len() > 0
                && !spec_recipient_valid(self.recipient@, *dir) ==> (r matches Err(
                Error::ValidationError(m),
            ) && m@ == "Recipient must be valid Slack user, Slack channel or \"none\"."@),
    {
        if self.custom_owner_name.as_str().is_empty() {
            Err(Error::ValidationError("custom_owner_name cannot be empty".to_owned()))
        } else if self.recipient.as_str().is_empty() {
            Err(Error::ValidationError("recipient cannot be empty".to_owned()))
        } else if recipient_ok(self.recipient.as_str(), dir) {
            Ok(())
        } else {
            Err(Error::ValidationError(
                "Recipient must be valid Slack user, Slack channel or \"none\".".to_owned(),
            ))
        }
    }
}

impl CustomOwnerModify {
    /// Field and recipient validation: non-empty name and recipient, and a
    /// recipient that is "none" or known to the directory.  The guard on
    /// renaming an owner with devices reserved is checked by the store at
    /// commit time.
    pub fn validate(&self, dir: &Directory) -> (r: Result<(), Error>)
        ensures
            r is Ok <==> (self.custom_owner_name@.len() > 0 && self.recipient@.len() > 0
                && spec_recipient_valid(self.recipient@, *dir)),
            self.custom_owner_name@.len() == 0 ==> (r matches Err(Error::ValidationError(m)) && m@
                == "custom_owner_name cannot be empty"@),
            self.custom_owner_name@.len() > 0 && self.recipient@.len() == 0 ==> (r matches Err(
                Error::ValidationError(m),
            ) && m@ == "recipient cannot be empty"@),
            self.custom_owner_name@.len() > 0 && self.recipient@.len() > 0
                && !spec_recipient_valid(self.recipient@, *dir) ==> (r matches Err(
                Error::ValidationError(m),
            ) && m@ == "Recipient must be valid Slack user, Slack channel or \"None\"."@),
    {
        if self.custom_owner_name.as_str().is_empty() {
            Err(Error::ValidationError("custom_owner_name cannot be empty".to_owned()))
        } else if self.recipient.as_str().is_empty() {
            Err(Error::ValidationError("recipient cannot be empty".to_owned()))
        } else if recipient_ok(self.recipient.as_str(), dir) {
            Ok(())
        } else {
            Err(Error::ValidationError(
                "Recipient must be valid Slack user, Slack channel or \"None\".".to_owned(),
            ))
        }
    }
}

/// Whether `rec` is a legitimate recipient for a custom owner.
fn recipient_ok(rec: &str, dir: &Directory) -> (r: bool)
    ensures
        r == spec_recipient_valid(rec@, *dir),
{
    let low = lowercase(rec);
    if low == "none".to_owned() {
        true
    } else {
        let t = trimmed(rec);
        dir.user_exists(t) || dir.channel_exists(t)
    }
}

} // verus!
