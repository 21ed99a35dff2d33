//! A room: an addressable container of devices, with name-keyed access in
//! insertion order and derived operations that compose device lookup with
//! capability dispatch.
use crate::device::smart_device::DeviceV;
use crate::device::SmartDevice;
use crate::error::AccessError;
use crate::error::AccessErrorV;
use crate::registry::entry_index;
use crate::registry::has_entry;
use crate::registry::lemma_unique_after_update;
use crate::registry::unique_names;
use crate::registry::Entry;
use crate::registry::EntryV;
use crate::registry::Registry;
use crate::report::Reporter;
use crate::tenths::Tenths;
use vstd::prelude::*;
use vstd::string::StringExecFns;

verus! {

/// Mathematical content of a [`Room`]: its name and its device entries,
/// oldest first.
pub ghost struct RoomV {
    pub name: Seq<char>,
    pub devices: Seq<EntryV<DeviceV>>,
}

impl RoomV {
    /// Validity: no two devices of the room share a name.
    pub open spec fn wf(self) -> bool {
        unique_names(self.devices)
    }
}

/// The concatenated report lines of `devices`, oldest first, each
/// terminated by a newline.
pub open spec fn device_lines(s: Seq<EntryV<DeviceV>>) -> Seq<char>
    decreases s.len(),
{
    if s.len() == 0 {
        Seq::empty()
    } else {
        device_lines(s.drop_last()) + s.last().item.report_chars() + "\n"@
    }
}

/// The report of a room: the header `"=== Room: {name} ===\n"` followed by
/// each device's report line in insertion order.
pub open spec fn room_report_chars(v: RoomV) -> Seq<char> {
    "=== Room: "@ + v.name + " ===\n"@ + device_lines(v.devices)
}

/// Round trip: adding a device under a fresh name and then removing that
/// name restores the room's devices exactly, and the removed device is the
/// one that was added.  This is the view-level law behind calling
/// [`Room::add_device`] and then [`Room::remove_device`] with a name the
/// room did not hold.
pub proof fn lemma_add_remove_round_trip(room: RoomV, name: Seq<char>, device: DeviceV)
    requires
        room.wf(),
        !has_entry(room.devices, name),
    ensures
        ({
            let after_add = room.devices.push(EntryV { name, item: device });
            &&& has_entry(after_add, name)
            &&& after_add[entry_index(after_add, name)].item == device
            &&& after_add.remove(entry_index(after_add, name)) == room.devices
        }),
{
    crate::registry::lemma_insert_remove_round_trip(room.devices, name, device);
}

/// Represents a room in a smart house with multiple devices.
#[derive(Debug)]
pub struct Room {
    name: String,
    devices: Registry<SmartDevice>,
}

impl View for Room {
    type V = RoomV;

    closed spec fn view(&self) -> RoomV {
        RoomV { name: self.name@, devices: self.devices@ }
    }
}

impl Room {
    /// Creates a new room with the specified name and devices.
    pub fn new(name: String, devices: Registry<SmartDevice>) -> (r: Room)
        requires
            unique_names(devices@),
        ensures
            r@ == (RoomV { name: name@, devices: devices@ }),
            r@.wf(),
    {
        Room { name, devices }
    }

    /// Creates an empty room with the specified name.
    pub fn new_empty(name: String) -> (r: Room)
        ensures
            r@ == (RoomV { name: name@, devices: Seq::<EntryV<DeviceV>>::empty() }),
            r@.wf(),
    {
        Room { name, devices: Registry::new() }
    }

    /// Returns the name of the room.
    pub fn name(&self) -> (r: &str)
        ensures
            r@ == self@.name,
    {
        self.name.as_str()
    }

    /// Returns all devices in the room, oldest first.
    pub fn all_devices(&self) -> (r: &Vec<Entry<SmartDevice>>)
        ensures
            r@.len() == self@.devices.len(),
            forall|i: int| 0 <= i < self@.devices.len() ==> r@[i]@ == self@.devices[i],
    {
        self.devices.entries()
    }

    /// Returns a reference to a specific device by name.
    pub fn device(&self, name: &String) -> (r: Option<&SmartDevice>)
        requires
            self@.wf(),
        ensures
            match r {
                Some(d) => has_entry(self@.devices, name@) && d@ == self@.devices[entry_index(
                    self@.devices,
                    name@,
                )].item,
                None => !has_entry(self@.devices, name@),
            },
    {
        self.devices.get(name)
    }

    /// Returns a mutable reference to a specific device by name.  The
    /// device keeps its name and its position, whatever the caller does
    /// through the borrow.
    pub fn device_mut(&mut self, name: &String) -> (r: Option<&mut SmartDevice>)
        requires
            old(self)@.wf(),
        ensures
            match r {
                Some(d) => has_entry(old(self)@.devices, name@) && (*d)@ == old(
                    self,
                )@.devices[entry_index(old(self)@.devices, name@)].item && final(self)@
                    == (RoomV {
                    name: old(self)@.name,
                    devices: old(self)@.devices.update(
                        entry_index(old(self)@.devices, name@),
                        (EntryV { name: name@, item: (*final(d))@ }),
                    ),
                }),
                None => !has_entry(old(self)@.devices, name@) && final(self)@ == old(self)@,
            },
            final(self)@.wf(),
    {
        match self.devices.get_mut(name) {
            Some(d) => {
                proof {
                    lemma_unique_after_update(
                        old(self)@.devices,
                        entry_index(old(self)@.devices, name@),
                        EntryV { name: name@, item: (*final(d))@ },
                    );
                }
                Some(d)
            }
            None => None,
        }
    }

    /// Adds a device to the room.  A colliding name has its device
    /// replaced in place and the prior device is handed back; a fresh name
    /// is appended at the end.
    pub fn add_device(&mut self, name: String, device: SmartDevice) -> (prior: Option<SmartDevice>)
        requires
            old(self)@.wf(),
        ensures
            final(self)@.name == old(self)@.name,
            final(self)@.wf(),
            has_entry(old(self)@.devices, name@) ==> ({
                let i = entry_index(old(self)@.devices, name@);
                &&& prior matches Some(p) && p@ == old(self)@.devices[i].item
                &&& final(self)@.devices == old(self)@.devices.update(
                    i,
                    (EntryV { name: name@, item: device@ }),
                )
            }),
            !has_entry(old(self)@.devices, name@) ==> (prior is None && final(self)@.devices == old(
                self,
            )@.devices.push((EntryV { name: name@, item: device@ }))),
    {
        self.devices.insert(name, device)
    }

    /// Removes a device from the room by name and hands it back; later
    /// devices shift down one position.  An unknown name leaves the room
    /// untouched.
    pub fn remove_device(&mut self, name: &String) -> (r: Option<SmartDevice>)
        requires
            old(self)@.wf(),
        ensures
            final(self)@.name == old(self)@.name,
            final(self)@.wf(),
            has_entry(old(self)@.devices, name@) ==> (r matches Some(d) && d@ == old(
                self,
            )@.devices[entry_index(old(self)@.devices, name@)].item && final(self)@.devices == old(
                self,
            )@.devices.remove(entry_index(old(self)@.devices, name@))),
            !has_entry(old(self)@.devices, name@) ==> (r is None && final(self)@ == old(self)@),
    {
        self.devices.remove(name)
    }

    /// Turns on a device by name, if the device supports power control.
    /// The outer Option tells whether the device exists; the inner bool
    /// whether the operation applied.
    pub fn turn_on_device(&mut self, name: &String) -> (r: Option<bool>)
        requires
            old(self)@.wf(),
        ensures
            final(self)@.name == old(self)@.name,
            final(self)@.wf(),
            has_entry(old(self)@.devices, name@) ==> ({
                let i = entry_index(old(self)@.devices, name@);
                &&& r matches Some(b) && b == (old(self)@.devices[i].item is Socket)
                &&& final(self)@.devices == old(self)@.devices.update(
                    i,
                    (EntryV { name: name@, item: old(self)@.devices[i].item.turned_on() }),
                )
            }),
            !has_entry(old(self)@.devices, name@) ==> (r is None && final(self)@ == old(self)@),
    {
        match self.device_mut(name) {
            Some(device) => Some(device.turn_on()),
            None => None,
        }
    }

    /// Turns off a device by name, if the device supports power control.
    /// The outer Option tells whether the device exists; the inner bool
    /// whether the operation applied.
    pub fn turn_off_device(&mut self, name: &String) -> (r: Option<bool>)
        requires
            old(self)@.wf(),
        ensures
            final(self)@.name == old(self)@.name,
            final(self)@.wf(),
            has_entry(old(self)@.devices, name@) ==> ({
                let i = entry_index(old(self)@.devices, name@);
                &&& r matches Some(b) && b == (old(self)@.devices[i].item is Socket)
                &&& final(self)@.devices == old(self)@.devices.update(
                    i,
                    (EntryV { name: name@, item: old(self)@.devices[i].item.turned_off() }),
                )
            }),
            !has_entry(old(self)@.devices, name@) ==> (r is None && final(self)@ == old(self)@),
    {
        match self.device_mut(name) {
            Some(device) => Some(device.turn_off()),
            None => None,
        }
    }

    /// Gets the temperature from a device, if it is a thermometer.  The
    /// outer Option tells whether the device exists; the inner one whether
    /// it supports the reading.
    pub fn get_temperature(&self, name: &String) -> (r: Option<Option<Tenths>>)
        requires
            self@.wf(),
        ensures
            has_entry(self@.devices, name@) ==> (r matches Some(inner) && (match self@.devices[
                entry_index(self@.devices, name@)
            ].item {
                DeviceV::Thermometer(t) => inner matches Some(v) && v@ == t.temperature,
                DeviceV::Socket(_) => inner is None,
            })),
            !has_entry(self@.devices, name@) ==> r is None,
    {
        match self.device(name) {
            Some(device) => Some(device.temperature()),
            None => None,
        }
    }

    /// Gets the effective power consumption from a device, if it is a
    /// socket.  The outer Option tells whether the device exists; the
    /// inner one whether it supports the reading.
    pub fn get_power_consumption(&self, name: &String) -> (r: Option<Option<Tenths>>)
        requires
            self@.wf(),
        ensures
            has_entry(self@.devices, name@) ==> (r matches Some(inner) && (match self@.devices[
                entry_index(self@.devices, name@)
            ].item {
                DeviceV::Socket(s) => inner matches Some(v) && v@ == s.active_power(),
                DeviceV::Thermometer(_) => inner is None,
            })),
            !has_entry(self@.devices, name@) ==> r is None,
    {
        match self.device(name) {
            Some(device) => Some(device.power_consumption()),
            None => None,
        }
    }

    /// Returns the device at a position, counting from the oldest, or the
    /// positional error carrying the requested index and the total count
    /// when the index is at or past the end.
    pub fn device_at(&self, index: usize) -> (r: Result<&SmartDevice, AccessError>)
        ensures
            index < self@.devices.len() ==> (r matches Ok(d) && d@ == self@.devices[index as int].item),
            index >= self@.devices.len() ==> (r matches Err(e) && e@ == (AccessErrorV {
                resource_type: "Device"@,
                requested_index: index as nat,
                total_count: self@.devices.len(),
            })),
    {
        let n = self.devices.len();
        if index < n {
            Ok(self.devices.at(index))
        } else {
            Err(
                AccessError {
                    resource_type: String::from_str("Device"),
                    requested_index: index,
                    total_count: n,
                },
            )
        }
    }
}

impl Reporter for Room {
    open spec fn report_spec(&self) -> Seq<char> {
        room_report_chars(self@)
    }

    fn report(&self) -> (r: String) {
        let mut r = String::new();
        r.append("=== Room: ");
        r.append(self.name.as_str());
        r.append(" ===\n");
        let entries = self.devices.entries();
        let n = entries.len();
        let mut i: usize = 0;
        while i < n
            invariant
                n == self@.devices.len(),
                i <= n,
                entries@.len() == n,
                forall|k: int| 0 <= k < n ==> entries@[k]@ == self@.devices[k],
                r@ == "=== Room: "@ + self@.name + " ===\n"@ + device_lines(
                    self@.devices.take(i as int),
                ),
            decreases n - i,
        {
            let line = entries[i].item.report();
            r.append(line.as_str());
            r.append("\n");
            proof {
                assert(self@.devices.take(i as int + 1).drop_last() =~= self@.devices.take(
                    i as int,
                ));
                assert(r@ =~= "=== Room: "@ + self@.name + " ===\n"@ + device_lines(
                    self@.devices.take(i as int + 1),
                ));
            }
            i = i + 1;
        }
        proof {
            assert(self@.devices.take(n as int) =~= self@.devices);
            assert(r@ =~= room_report_chars(self@));
        }
        r
    }
}

} // verus!
