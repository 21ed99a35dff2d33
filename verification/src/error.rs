//! Failure values for the two addressing schemes: positional access that ran
//! past the end, and named access that found no match.
use crate::text::dec_chars;
use crate::text::lower_text;
use crate::text::to_lower;
use vstd::prelude::*;
use vstd::string::StringExecFns;

verus! {

/// Mathematical content of an [`AccessError`].
pub ghost struct AccessErrorV {
    pub resource_type: Seq<char>,
    pub requested_index: nat,
    pub total_count: nat,
}

/// A positional access that asked for an index at or past the end of the
/// container: it carries the kind of resource, the index that was asked
/// for, and how many entries the container held.
#[derive(Debug)]
pub struct AccessError {
    /// Kind of resource being accessed (e.g., "Room", "Device").
    pub resource_type: String,
    /// Index that was requested.
    pub requested_index: usize,
    /// Total number of available resources.
    pub total_count: usize,
}

impl View for AccessError {
    type V = AccessErrorV;

    open spec fn view(&self) -> AccessErrorV {
        AccessErrorV {
            resource_type: self.resource_type@,
            requested_index: self.requested_index as nat,
            total_count: self.total_count as nat,
        }
    }
}

/// The text an [`AccessError`] renders to:
/// `"{Kind} index {i} is out of bounds. Total {kind lowercased}: {n}"`,
/// with the kind lowercased as `str::to_lowercase` folds it.
pub open spec fn access_error_chars(e: AccessErrorV) -> Seq<char> {
    e.resource_type + " index "@ + dec_chars(e.requested_index)
        + " is out of bounds. Total "@ + lower_text(e.resource_type) + ": "@ + dec_chars(
        e.total_count,
    )
}

impl AccessError {
    /// The human-readable message for this error.
    pub fn message(&self) -> (r: String)
        ensures
            r@ == access_error_chars(self@),
    {
        let mut r = String::new();
        r.append(self.resource_type.as_str());
        r.append(" index ");
        push_usize(&mut r, self.requested_index);
        r.append(" is out of bounds. Total ");
        let lowered = to_lower(self.resource_type.as_str());
        r.append(lowered.as_str());
        r.append(": ");
        push_usize(&mut r, self.total_count);
        proof {
            assert(r@ =~= access_error_chars(self@));
        }
        r
    }
}

/// Mathematical content of a [`DeviceAccessError`].
pub ghost enum DeviceAccessErrorV {
    RoomNotFound { room: Seq<char> },
    DeviceNotFound { device: Seq<char>, room: Seq<char> },
}

/// A named access that found no match, telling apart the level at which the
/// lookup failed: no room of that name, or a located room without a device
/// of that name.
#[derive(Debug)]
pub enum DeviceAccessError {
    /// No room of the carried name exists in the house.
    RoomNotFound(String),
    /// The room (second field) exists, but holds no device of the carried
    /// name (first field).
    DeviceNotFound(String, String),
}

impl View for DeviceAccessError {
    type V = DeviceAccessErrorV;

    open spec fn view(&self) -> DeviceAccessErrorV {
        match self {
            DeviceAccessError::RoomNotFound(room) => DeviceAccessErrorV::RoomNotFound {
                room: room@,
            },
            DeviceAccessError::DeviceNotFound(device, room) => DeviceAccessErrorV::DeviceNotFound {
                device: device@,
                room: room@,
            },
        }
    }
}

/// The text a [`DeviceAccessError`] renders to: `"Room '{r}' not found"`,
/// or `"Device '{d}' not found in room '{r}'"`.
pub open spec fn device_access_error_chars(e: DeviceAccessErrorV) -> Seq<char> {
    match e {
        DeviceAccessErrorV::RoomNotFound { room } => "Room '"@ + room + "' not found"@,
        DeviceAccessErrorV::DeviceNotFound { device, room } => "Device '"@ + device
            + "' not found in room '"@ + room + "'"@,
    }
}

impl DeviceAccessError {
    /// The human-readable message for this error.
    pub fn message(&self) -> (r: String)
        ensures
            r@ == device_access_error_chars(self@),
    {
        let mut r = String::new();
        match self {
            DeviceAccessError::RoomNotFound(room) => {
                r.append("Room '");
                r.append(room.as_str());
                r.append("' not found");
            }
            DeviceAccessError::DeviceNotFound(device, room) => {
                r.append("Device '");
                r.append(device.as_str());
                r.append("' not found in room '");
                r.append(room.as_str());
                r.append("'");
            }
        }
        proof {
            assert(r@ =~= device_access_error_chars(self@));
        }
        r
    }
}

/// Appends the decimal numeral of a count or index to `s`.
fn push_usize(s: &mut String, n: usize)
    ensures
        final(s)@ == old(s)@ + dec_chars(n as nat),
{
    crate::text::push_dec(s, n as u64);
}

} // verus!
