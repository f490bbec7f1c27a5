use vstd::prelude::*;

use std::collections::HashMap;

use crate::error::{ConnectionError, ScanError};

verus! {

broadcast use vstd::std_specs::hash::group_hash_axioms;

/// The manufacturer id under which the vendor's devices advertise.
pub const COLMI_MANUFACTURER_ID: u16 = 4660;

/// A device seen during a scan.
#[derive(Debug)]
pub struct Device {
    pub name: String,
    pub id: String,
    pub is_colmi_device: bool,
}

impl Clone for Device {
    fn clone(&self) -> (r: Self)
        ensures
            r == *self,
    {
        Device { name: self.name.clone(), id: self.id.clone(), is_colmi_device: self.is_colmi_device }
    }
}

impl Device {
    /// A device named `local_name` (or "Unknown Device" when it advertises no
    /// name), with the platform id `id`, that belongs to the vendor when its
    /// advertised manufacturer data holds the vendor's id.
    pub fn new(local_name: Option<String>, id: String, manufacturer_data: &HashMap<u16, Vec<u8>>) -> (r: Self)
        ensures
            r.name@ == (match local_name {
                Some(n) => n@,
                None => "Unknown Device"@,
            }),
            r.id == id,
            r.is_colmi_device == manufacturer_data@.contains_key(COLMI_MANUFACTURER_ID),
    {
        let name = match local_name {
            Some(n) => n,
            None => String::from_str("Unknown Device"),
        };
        let is_colmi_device = manufacturer_data.contains_key(&COLMI_MANUFACTURER_ID);
        Device { name, id, is_colmi_device }
    }

    pub open spec fn spec_display_name(&self) -> Seq<char> {
        self.name@ + ", ("@ + self.id@ + ")"@
    }

    /// The name and the id, as shown in device lists.
    pub fn display_name(&self) -> (r: String)
        ensures
            r@ == self.spec_display_name(),
    {
        let mut s = self.name.clone();
        s.append(", (");
        s.append(self.id.as_str());
        s.append(")");
        s
    }

    pub fn name(&self) -> (r: &str)
        ensures
            r@ == self.name@,
    {
        self.name.as_str()
    }

    pub fn id(&self) -> (r: &str)
        ensures
            r@ == self.id@,
    {
        self.id.as_str()
    }

    pub fn is_colmi_device(&self) -> (r: bool)
        ensures
            r == self.is_colmi_device,
    {
        self.is_colmi_device
    }
}

/// The vendor's devices among `devices`, in their order.
pub open spec fn vendor_devices(devices: Seq<Device>) -> Seq<Device> {
    devices.filter(|d: Device| d.is_colmi_device)
}

/// What a scan that discovered `devices` yields: an error when nothing was
/// found, or when only the vendor's devices are wanted and none was found;
/// otherwise the devices that are wanted, in their order.
pub open spec fn filtered(devices: Seq<Device>, filter_colmi: bool) -> Result<Seq<Device>, ScanError> {
    if devices.len() == 0 {
        Err(ScanError::NoDevices)
    } else if !filter_colmi {
        Ok(devices)
    } else if vendor_devices(devices).len() == 0 {
        Err(ScanError::NoColmiDevices)
    } else {
        Ok(vendor_devices(devices))
    }
}

/// Keeps the devices that a scan should report.
pub fn filter_devices(devices: Vec<Device>, filter_colmi: bool) -> (r: Result<Vec<Device>, ScanError>)
    ensures
        match filtered(devices@, filter_colmi) {
            Ok(s) => r matches Ok(v) && v@ == s,
            Err(e) => r == Err::<Vec<Device>, ScanError>(e),
        },
{
    if devices.len() == 0 {
        return Err(ScanError::NoDevices);
    }
    if !filter_colmi {
        return Ok(devices);
    }
    let mut kept: Vec<Device> = Vec::new();
    let mut i: usize = 0;
    while i < devices.len()
        invariant
            i <= devices@.len(),
            kept@ == devices@.subrange(0, i as int).filter(|d: Device| d.is_colmi_device),
        decreases devices@.len() - i,
    {
        assert(devices@.subrange(0, i + 1).drop_last() =~= devices@.subrange(0, i as int));
        proof {
            reveal(Seq::filter);
        }
        if devices[i].is_colmi_device {
            kept.push(devices[i].clone());
        }
        i = i + 1;
    }
    assert(devices@.subrange(0, devices@.len() as int) =~= devices@);
    if kept.len() == 0 {
        Err(ScanError::NoColmiDevices)
    } else {
        Ok(kept)
    }
}

/// Scanning with vendor filtering tells the two empty outcomes apart: found
/// devices none of which is the vendor's fail with `NoColmiDevices`, while no
/// devices at all fail with `NoDevices`.
pub proof fn lemma_no_vendor_devices_distinct(devices: Seq<Device>)
    requires
        forall|i: int| 0 <= i < devices.len() ==> !(#[trigger] devices[i]).is_colmi_device,
    ensures
        devices.len() > 0 ==> filtered(devices, true) == Err::<Seq<Device>, ScanError>(
            ScanError::NoColmiDevices,
        ),
        filtered(Seq::<Device>::empty(), true) == Err::<Seq<Device>, ScanError>(
            ScanError::NoDevices,
        ),
        ScanError::NoColmiDevices != ScanError::NoDevices,
{
    lemma_no_vendor_filtered_empty(devices);
}

proof fn lemma_no_vendor_filtered_empty(devices: Seq<Device>)
    requires
        forall|i: int| 0 <= i < devices.len() ==> !(#[trigger] devices[i]).is_colmi_device,
    ensures
        vendor_devices(devices).len() == 0,
    decreases devices.len(),
{
    reveal(Seq::filter);
    if devices.len() > 0 {
        let rest = devices.drop_last();
        assert forall|i: int| 0 <= i < rest.len() implies !(#[trigger] rest[i]).is_colmi_device by {
            assert(rest[i] == devices[i]);
        }
        lemma_no_vendor_filtered_empty(rest);
        assert(!devices[devices.len() - 1].is_colmi_device);
    }
}

/// The GATT service through which the device takes commands.
pub const SERVICE_UUID: u128 = 0x6e40fff0_b5a3_f393_e0a9_e50e24dcca9e;

/// The characteristic that commands are written to.
pub const WRITE_CHARACTERISTICS: u128 = 0x6e400002_b5a3_f393_e0a9_e50e24dcca9e;

/// The characteristic that responses are notified on.
pub const NOTIFY_CHARACTERISTICS: u128 = 0x6e400003_b5a3_f393_e0a9_e50e24dcca9e;

/// A service that a connected device exposes: its UUID and the UUIDs of its
/// characteristics, in the order the transport lists them.
#[derive(Debug, Clone)]
pub struct ServiceInfo {
    pub uuid: u128,
    pub characteristics: Vec<u128>,
}

/// Where a characteristic is listed: its service's position, and its own
/// position within that service.
#[derive(Debug, Clone, Copy, PartialEq, Eq, Structural)]
pub struct CharacteristicRef {
    pub service: usize,
    pub index: usize,
}

/// The write and notify characteristics of a session.
#[derive(Debug, Clone, Copy, PartialEq, Eq, Structural)]
pub struct CharacteristicPair {
    pub write: CharacteristicRef,
    pub notify: CharacteristicRef,
}

/// `c` names a characteristic `target` of a vendor service in `services`.
pub open spec fn is_match(services: Seq<ServiceInfo>, c: CharacteristicRef, target: u128) -> bool {
    &&& c.service < services.len()
    &&& services[c.service as int].uuid == SERVICE_UUID
    &&& c.index < services[c.service as int].characteristics@.len()
    &&& services[c.service as int].characteristics@[c.index as int] == target
}

/// `a` is listed after `b`.
pub open spec fn listed_after(a: CharacteristicRef, b: CharacteristicRef) -> bool {
    a.service > b.service || (a.service == b.service && a.index > b.index)
}

/// `c` is the last characteristic `target` of a vendor service in `services`.
pub open spec fn last_match(services: Seq<ServiceInfo>, c: CharacteristicRef, target: u128) -> bool {
    &&& is_match(services, c, target)
    &&& forall|o: CharacteristicRef| #[trigger] is_match(services, o, target) ==> !listed_after(o, c)
}

/// What negotiation gives for a device exposing `services`: the pair of the
/// last write and notify characteristics of the vendor service, or
/// `CharacteristicsNotFound` when either is missing.
pub open spec fn negotiated(services: Seq<ServiceInfo>) -> Result<CharacteristicPair, ConnectionError> {
    if exists|w: CharacteristicRef, n: CharacteristicRef|
        last_match(services, w, WRITE_CHARACTERISTICS) && last_match(services, n, NOTIFY_CHARACTERISTICS) {
        let (w, n) = choose|w: CharacteristicRef, n: CharacteristicRef|
            last_match(services, w, WRITE_CHARACTERISTICS) && last_match(services, n, NOTIFY_CHARACTERISTICS);
        Ok(CharacteristicPair { write: w, notify: n })
    } else {
        Err(ConnectionError::CharacteristicsNotFound)
    }
}

/// At most one characteristic is the last of its kind.
pub proof fn lemma_last_match_unique(
    services: Seq<ServiceInfo>,
    a: CharacteristicRef,
    b: CharacteristicRef,
    target: u128,
)
    requires
        last_match(services, a, target),
        last_match(services, b, target),
    ensures
        a == b,
{
    assert(!listed_after(a, b));
    assert(!listed_after(b, a));
}

/// Finds the last characteristic `target` of a vendor service.
fn find_last(services: &Vec<ServiceInfo>, target: u128) -> (r: Option<CharacteristicRef>)
    ensures
        match r {
            Some(c) => last_match(services@, c, target),
            None => forall|o: CharacteristicRef| !#[trigger] is_match(services@, o, target),
        },
{
    let mut i: usize = services.len();
    while i > 0
        invariant
            i <= services@.len(),
            forall|o: CharacteristicRef| #[trigger] is_match(services@, o, target) ==> o.service < i,
        decreases i,
    {
        i = i - 1;
        let service = &services[i];
        if service.uuid == SERVICE_UUID {
            let mut j: usize = service.characteristics.len();
            while j > 0
                invariant
                    i < services@.len(),
                    *service == services@[i as int],
                    service.uuid == SERVICE_UUID,
                    j <= service.characteristics@.len(),
                    forall|o: CharacteristicRef| #[trigger]
                        is_match(services@, o, target) ==> o.service < i || (o.service == i
                            && o.index < j),
                decreases j,
            {
                j = j - 1;
                if service.characteristics[j] == target {
                    let c = CharacteristicRef { service: i, index: j };
                    assert(is_match(services@, c, target));
                    return Some(c);
                }
            }
        }
    }
    None
}

/// Picks the write and notify characteristics out of the services that a
/// connected device exposes.
pub fn resolve_characteristics(services: &Vec<ServiceInfo>) -> (r: Result<CharacteristicPair, ConnectionError>)
    ensures
        r == negotiated(services@),
{
    let write = find_last(services, WRITE_CHARACTERISTICS);
    let notify = find_last(services, NOTIFY_CHARACTERISTICS);
    match (write, notify) {
        (Some(w), Some(n)) => {
            proof {
                let (cw, cn) = choose|w: CharacteristicRef, n: CharacteristicRef|
                    last_match(services@, w, WRITE_CHARACTERISTICS) && last_match(
                        services@,
                        n,
                        NOTIFY_CHARACTERISTICS,
                    );
                lemma_last_match_unique(services@, w, cw, WRITE_CHARACTERISTICS);
                lemma_last_match_unique(services@, n, cn, NOTIFY_CHARACTERISTICS);
            }
            Ok(CharacteristicPair { write: w, notify: n })
        },
        _ => Err(ConnectionError::CharacteristicsNotFound),
    }
}

} // verus!
