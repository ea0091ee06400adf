//! The registry of device buses: a map from device identifiers to buses.
//!
//! A device's bus is made the first time the device is seen and kept for the
//! life of the registry: nothing is ever removed. The buses are numbered in
//! the order in which they are made, so that two handles belong to the same
//! bus exactly when they have the same serial number.
//!
//! That the buses are numbered is the registry's invariant, which every
//! method states of the registry it is called on.
//!
//! The registry is changed through `&mut`: callers that share it guard it with
//! a lock, and the lock makes a device's first contact atomic.

use vstd::prelude::*;
use dashmap::DashMap;
use crate::bus::Bus;
use crate::outside::{entries, map_get, map_insert, map_len, map_new};

verus! {

/// The buses of all the devices seen so far.
pub struct Registry {
    buses: DashMap<String, Bus>,
}

/// Whether `buses` numbers its buses from zero, without gaps and without
/// giving one number to two devices.
pub open spec fn numbered(buses: Map<Seq<char>, u64>) -> bool {
    &&& buses.dom().finite()
    &&& forall|device: Seq<char>| #[trigger]
        buses.contains_key(device) ==> buses[device] < buses.dom().len()
    &&& forall|a: Seq<char>, b: Seq<char>|
        #![trigger buses[a], buses[b]]
        buses.contains_key(a) && buses.contains_key(b) && buses[a] == buses[b] ==> a == b
}

/// The registry after the first contact of `device`, if this is it: a device
/// that is known keeps its bus, a new one gets the next bus.
pub open spec fn with_device(buses: Map<Seq<char>, u64>, device: Seq<char>) -> Map<
    Seq<char>,
    u64,
> {
    if buses.contains_key(device) {
        buses
    } else {
        buses.insert(device, buses.dom().len() as u64)
    }
}

impl View for Registry {
    type V = Map<Seq<char>, u64>;

    closed spec fn view(&self) -> Map<Seq<char>, u64> {
        entries(self.buses)
    }
}

impl Registry {
    /// The invariant of a registry: its buses are numbered.
    #[verifier::type_invariant]
    spec fn numbered_buses(self) -> bool {
        numbered(entries(self.buses))
    }

    /// A registry that knows no device.
    pub fn new() -> (registry: Registry)
        ensures
            registry@ == Map::<Seq<char>, u64>::empty(),
    {
        let registry = Registry { buses: map_new() };
        assert(registry@ =~= Map::<Seq<char>, u64>::empty());
        registry
    }

    /// The number of devices known.
    pub fn len(&self) -> (len: usize)
        ensures
            numbered(self@),
            len == self@.dom().len(),
    {
        proof {
            use_type_invariant(self);
        }
        map_len(&self.buses)
    }

    /// The bus of `device_id`, if the device is known.
    pub fn lookup(&self, device_id: &str) -> (found: Option<Bus>)
        ensures
            numbered(self@),
            match found {
                Some(bus) => self@.contains_key(device_id@) && bus.serial() == self@[device_id@],
                None => !self@.contains_key(device_id@),
            },
    {
        proof {
            use_type_invariant(self);
        }
        map_get(&self.buses, device_id)
    }

    /// The bus of `device_id`, made now if the device was not known.
    ///
    /// The call never fails. A known device gets a handle of the bus it has,
    /// and the registry stays as it is; a new device gets the next bus.
    pub fn get_or_create(&mut self, device_id: &str) -> (bus: Bus)
        ensures
            numbered(old(self)@),
            numbered(final(self)@),
            final(self)@ == with_device(old(self)@, device_id@),
            bus.serial() == final(self)@[device_id@],
    {
        proof {
            use_type_invariant(&*self);
        }
        match map_get(&self.buses, device_id) {
            Some(bus) => bus,
            None => {
                let count = map_len(&self.buses);
                let bus = Bus::open(count as u64);
                let handle = bus.handle();
                map_insert(&mut self.buses, device_id.to_owned(), bus);
                proof {
                    first_contact_keeps_numbering(old(self)@, device_id@);
                }
                handle
            },
        }
    }
}

/// A first contact keeps the buses numbered.
pub proof fn first_contact_keeps_numbering(buses: Map<Seq<char>, u64>, device: Seq<char>)
    requires
        numbered(buses),
        buses.dom().len() <= u64::MAX,
    ensures
        numbered(with_device(buses, device)),
{
    let after = with_device(buses, device);
    if !buses.contains_key(device) {
        assert(after.dom() =~= buses.dom().insert(device));
        assert(after.dom().len() == buses.dom().len() + 1);
        assert forall|a: Seq<char>, b: Seq<char>|
            after.contains_key(a) && after.contains_key(b) && after[a] == after[b] implies a
            == b by {
            if a != device {
                assert(buses.contains_key(a));
            }
            if b != device {
                assert(buses.contains_key(b));
            }
        }
        assert forall|d: Seq<char>| #[trigger] after.contains_key(d) implies after[d]
            < after.dom().len() by {
            if d != device {
                assert(buses.contains_key(d));
            }
        }
    }
}

/// One bus per device, made once: a second contact of a device changes
/// nothing, and gives the bus that the first contact gave.
pub proof fn contact_is_idempotent(buses: Map<Seq<char>, u64>, device: Seq<char>)
    ensures
        with_device(with_device(buses, device), device) == with_device(buses, device),
        with_device(buses, device).contains_key(device),
{
}

/// A contact of one device leaves the bus of every other device as it is.
pub proof fn contact_keeps_other_buses(
    buses: Map<Seq<char>, u64>,
    device: Seq<char>,
    other: Seq<char>,
)
    requires
        other != device,
    ensures
        with_device(buses, device).contains_key(other) == buses.contains_key(other),
        buses.contains_key(other) ==> with_device(buses, device)[other] == buses[other],
{
}

/// Two devices never share a bus: in a registry, the buses of different
/// devices have different serial numbers.
pub proof fn devices_have_their_own_bus(buses: Map<Seq<char>, u64>, a: Seq<char>, b: Seq<char>)
    requires
        numbered(buses),
        buses.contains_key(a),
        buses.contains_key(b),
        a != b,
    ensures
        buses[a] != buses[b],
{
}

} // verus!
