//! A house: an addressable container of rooms, mirroring a room's
//! addressing one level up and composing room operations to reach devices
//! transitively.
use crate::device::SmartDevice;
use crate::error::AccessError;
use crate::error::AccessErrorV;
use crate::error::DeviceAccessError;
use crate::error::DeviceAccessErrorV;
use crate::registry::entry_index;
use crate::registry::has_entry;
use crate::registry::lemma_unique_after_update;
use crate::registry::unique_names;
use crate::registry::Entry;
use crate::registry::EntryV;
use crate::registry::Registry;
use crate::report::Reporter;
use crate::room::room_report_chars;
use crate::room::Room;
use crate::room::RoomV;
use vstd::prelude::*;
use vstd::string::StringExecFns;

verus! {

/// Mathematical content of a [`SmartHouse`]: its name and its room
/// entries, oldest first.
pub ghost struct HouseV {
    pub name: Seq<char>,
    pub rooms: Seq<EntryV<RoomV>>,
}

/// Whether every room of `s` is itself well-formed.
pub open spec fn all_rooms_wf(s: Seq<EntryV<RoomV>>) -> bool {
    forall|i: int| 0 <= i < s.len() ==> (#[trigger] s[i].item).wf()
}

impl HouseV {
    /// Validity: no two rooms share a name, and every room is itself
    /// well-formed.
    pub open spec fn wf(self) -> bool {
        unique_names(self.rooms) && all_rooms_wf(self.rooms)
    }
}

/// The concatenated reports of `rooms`, oldest first, each followed by a
/// newline.
pub open spec fn room_lines(s: Seq<EntryV<RoomV>>) -> Seq<char>
    decreases s.len(),
{
    if s.len() == 0 {
        Seq::empty()
    } else {
        room_lines(s.drop_last()) + room_report_chars(s.last().item) + "\n"@
    }
}

/// The report of a house: the header `"=== Smart House: {name} ===\n"`
/// followed by each room's report in insertion order, each followed by a
/// newline.
pub open spec fn house_report_chars(v: HouseV) -> Seq<char> {
    "=== Smart House: "@ + v.name + " ===\n"@ + room_lines(v.rooms)
}

/// Represents a smart house with multiple rooms.
#[derive(Debug)]
pub struct SmartHouse {
    name: String,
    rooms: Registry<Room>,
}

impl View for SmartHouse {
    type V = HouseV;

    closed spec fn view(&self) -> HouseV {
        HouseV { name: self.name@, rooms: self.rooms@ }
    }
}

impl SmartHouse {
    /// Creates a new smart house with the specified name and rooms.
    pub fn new(name: String, rooms: Registry<Room>) -> (r: SmartHouse)
        requires
            unique_names(rooms@),
            all_rooms_wf(rooms@),
        ensures
            r@ == (HouseV { name: name@, rooms: rooms@ }),
            r@.wf(),
    {
        SmartHouse { name, rooms }
    }

    /// Creates a new smart house with the specified name and no rooms.
    pub fn new_empty(name: String) -> (r: SmartHouse)
        ensures
            r@ == (HouseV { name: name@, rooms: Seq::<EntryV<RoomV>>::empty() }),
            r@.wf(),
    {
        SmartHouse { name, rooms: Registry::new() }
    }

    /// Returns the name of the house.
    pub fn name(&self) -> (r: &str)
        ensures
            r@ == self@.name,
    {
        self.name.as_str()
    }

    /// Returns all rooms in the house, oldest first.
    pub fn all_rooms(&self) -> (r: &Vec<Entry<Room>>)
        ensures
            r@.len() == self@.rooms.len(),
            forall|i: int| 0 <= i < self@.rooms.len() ==> r@[i]@ == self@.rooms[i],
    {
        self.rooms.entries()
    }

    /// Returns a reference to a specific room by name.
    pub fn room(&self, name: &String) -> (r: Option<&Room>)
        requires
            self@.wf(),
        ensures
            match r {
                Some(room) => has_entry(self@.rooms, name@) && room@ == self@.rooms[entry_index(
                    self@.rooms,
                    name@,
                )].item,
                None => !has_entry(self@.rooms, name@),
            },
    {
        self.rooms.get(name)
    }

    /// Returns a mutable reference to a specific room by name.  The room
    /// keeps its name in the house and its position, whatever the caller
    /// does through the borrow.
    pub fn room_mut(&mut self, name: &String) -> (r: Option<&mut Room>)
        requires
            old(self)@.wf(),
        ensures
            match r {
                Some(room) => has_entry(old(self)@.rooms, name@) && (*room)@ == old(
                    self,
                )@.rooms[entry_index(old(self)@.rooms, name@)].item && final(self)@ == (HouseV {
                    name: old(self)@.name,
                    rooms: old(self)@.rooms.update(
                        entry_index(old(self)@.rooms, name@),
                        (EntryV { name: name@, item: (*final(room))@ }),
                    ),
                }),
                None => !has_entry(old(self)@.rooms, name@) && final(self)@ == old(self)@,
            },
            unique_names(final(self)@.rooms),
    {
        match self.rooms.get_mut(name) {
            Some(room) => {
                proof {
                    lemma_unique_after_update(
                        old(self)@.rooms,
                        entry_index(old(self)@.rooms, name@),
                        EntryV { name: name@, item: (*final(room))@ },
                    );
                }
                Some(room)
            }
            None => None,
        }
    }

    /// Adds a room to the house.  A colliding name has its room replaced
    /// in place and the prior room is handed back; a fresh name is
    /// appended at the end.
    pub fn add_room(&mut self, name: String, room: Room) -> (prior: Option<Room>)
        requires
            old(self)@.wf(),
            room@.wf(),
        ensures
            final(self)@.name == old(self)@.name,
            final(self)@.wf(),
            has_entry(old(self)@.rooms, name@) ==> ({
                let i = entry_index(old(self)@.rooms, name@);
                &&& prior matches Some(p) && p@ == old(self)@.rooms[i].item
                &&& final(self)@.rooms == old(self)@.rooms.update(
                    i,
                    (EntryV { name: name@, item: room@ }),
                )
            }),
            !has_entry(old(self)@.rooms, name@) ==> (prior is None && final(self)@.rooms == old(
                self,
            )@.rooms.push((EntryV { name: name@, item: room@ }))),
    {
        self.rooms.insert(name, room)
    }

    /// Removes a room from the house by name and hands it back; later
    /// rooms shift down one position.  An unknown name leaves the house
    /// untouched.
    pub fn remove_room(&mut self, name: &String) -> (r: Option<Room>)
        requires
            old(self)@.wf(),
        ensures
            final(self)@.name == old(self)@.name,
            final(self)@.wf(),
            has_entry(old(self)@.rooms, name@) ==> (r matches Some(room) && room@ == old(
                self,
            )@.rooms[entry_index(old(self)@.rooms, name@)].item && final(self)@.rooms == old(
                self,
            )@.rooms.remove(entry_index(old(self)@.rooms, name@))),
            !has_entry(old(self)@.rooms, name@) ==> (r is None && final(self)@ == old(self)@),
    {
        self.rooms.remove(name)
    }

    /// Returns a reference to a device by room and device name, telling
    /// apart the level at which a lookup fails: an unknown room is
    /// reported as room-not-found, a located room without the device as
    /// device-not-found within that room.
    pub fn device(&self, room_name: &String, device_name: &String) -> (r: Result<
        &SmartDevice,
        DeviceAccessError,
    >)
        requires
            self@.wf(),
        ensures
            !has_entry(self@.rooms, room_name@) ==> (r matches Err(e) && e@
                == (DeviceAccessErrorV::RoomNotFound { room: room_name@ })),
            has_entry(self@.rooms, room_name@) ==> ({
                let devices = self@.rooms[entry_index(self@.rooms, room_name@)].item.devices;
                &&& !has_entry(devices, device_name@) ==> (r matches Err(e) && e@
                    == (DeviceAccessErrorV::DeviceNotFound {
                    device: device_name@,
                    room: room_name@,
                }))
                &&& has_entry(devices, device_name@) ==> (r matches Ok(d) && d@ == devices[
                    entry_index(devices, device_name@)
                ].item)
            }),
    {
        match self.rooms.get(room_name) {
            Some(room) => match room.device(device_name) {
                Some(device) => Ok(device),
                None => Err(
                    DeviceAccessError::DeviceNotFound(device_name.clone(), room_name.clone()),
                ),
            },
            None => Err(DeviceAccessError::RoomNotFound(room_name.clone())),
        }
    }

    /// Returns a mutable reference to a device by room and device name,
    /// with the same failure taxonomy as the shared lookup.  Both the room
    /// and the device keep their names and positions, whatever the caller
    /// does through the borrow.
    pub fn device_mut(&mut self, room_name: &String, device_name: &String) -> (r: Result<
        &mut SmartDevice,
        DeviceAccessError,
    >)
        requires
            old(self)@.wf(),
        ensures
            !has_entry(old(self)@.rooms, room_name@) ==> (r matches Err(e) && e@
                == (DeviceAccessErrorV::RoomNotFound { room: room_name@ }) && final(self)@ == old(
                self,
            )@),
            has_entry(old(self)@.rooms, room_name@) ==> ({
                let ri = entry_index(old(self)@.rooms, room_name@);
                let room = old(self)@.rooms[ri].item;
                &&& !has_entry(room.devices, device_name@) ==> (r matches Err(e) && e@
                    == (DeviceAccessErrorV::DeviceNotFound {
                    device: device_name@,
                    room: room_name@,
                }) && final(self)@ == old(self)@)
                &&& has_entry(room.devices, device_name@) ==> (r matches Ok(d) && (*d)@
                    == room.devices[entry_index(room.devices, device_name@)].item && final(self)@
                    == (HouseV {
                    name: old(self)@.name,
                    rooms: old(self)@.rooms.update(
                        ri,
                        (EntryV {
                            name: room_name@,
                            item: RoomV {
                                name: room.name,
                                devices: room.devices.update(
                                    entry_index(room.devices, device_name@),
                                    (EntryV { name: device_name@, item: (*final(d))@ }),
                                ),
                            },
                        }),
                    ),
                }))
            }),
            final(self)@.wf(),
    {
        match self.room_mut(room_name) {
            Some(room) => match room.device_mut(device_name) {
                Some(device) => {
                    proof {
                        let ri = entry_index(old(self)@.rooms, room_name@);
                        let room0 = old(self)@.rooms[ri].item;
                        lemma_unique_after_update(
                            room0.devices,
                            entry_index(room0.devices, device_name@),
                            EntryV { name: device_name@, item: (*final(device))@ },
                        );
                    }
                    Ok(device)
                }
                None => {
                    proof {
                        let ri = entry_index(old(self)@.rooms, room_name@);
                        assert(old(self)@.rooms.update(
                            ri,
                            EntryV { name: room_name@, item: old(self)@.rooms[ri].item },
                        ) =~= old(self)@.rooms);
                    }
                    Err(DeviceAccessError::DeviceNotFound(device_name.clone(), room_name.clone()))
                }
            },
            None => Err(DeviceAccessError::RoomNotFound(room_name.clone())),
        }
    }

    /// Returns the room at a position, counting from the oldest, or the
    /// positional error carrying the requested index and the total count
    /// when the index is at or past the end.
    pub fn room_at(&self, index: usize) -> (r: Result<&Room, AccessError>)
        ensures
            index < self@.rooms.len() ==> (r matches Ok(room) && room@ == self@.rooms[index as int].item),
            index >= self@.rooms.len() ==> (r matches Err(e) && e@ == (AccessErrorV {
                resource_type: "Room"@,
                requested_index: index as nat,
                total_count: self@.rooms.len(),
            })),
    {
        let n = self.rooms.len();
        if index < n {
            Ok(self.rooms.at(index))
        } else {
            Err(
                AccessError {
                    resource_type: String::from_str("Room"),
                    requested_index: index,
                    total_count: n,
                },
            )
        }
    }
}

impl Reporter for SmartHouse {
    open spec fn report_spec(&self) -> Seq<char> {
        house_report_chars(self@)
    }

    fn report(&self) -> (r: String) {
        let mut r = String::new();
        r.append("=== Smart House: ");
        r.append(self.name.as_str());
        r.append(" ===\n");
        let entries = self.rooms.entries();
        let n = entries.len();
        let mut i: usize = 0;
        while i < n
            invariant
                n == self@.rooms.len(),
                i <= n,
                entries@.len() == n,
                forall|k: int| 0 <= k < n ==> entries@[k]@ == self@.rooms[k],
                r@ == "=== Smart House: "@ + self@.name + " ===\n"@ + room_lines(
                    self@.rooms.take(i as int),
                ),
            decreases n - i,
        {
            let text = entries[i].item.report();
            r.append(text.as_str());
            r.append("\n");
            proof {
                assert(self@.rooms.take(i as int + 1).drop_last() =~= self@.rooms.take(i as int));
                assert(r@ =~= "=== Smart House: "@ + self@.name + " ===\n"@ + room_lines(
                    self@.rooms.take(i as int + 1),
                ));
            }
            i = i + 1;
        }
        proof {
            assert(self@.rooms.take(n as int) =~= self@.rooms);
            assert(r@ =~= house_report_chars(self@));
        }
        r
    }
}

} // verus!
