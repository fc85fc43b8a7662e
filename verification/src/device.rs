//! Devices and device lists: the information fields a device reported, and
//! access to the devices of a query by position.

use vstd::prelude::*;

use crate::error::opt_view;
use crate::kind::Rs2CameraInfo;

verus! {

/// The abstract content of a device: for each information field, by its C
/// code, whether the device supports it and the string it reported (`None`
/// where reading it failed or gave a null pointer).
pub struct DeviceView {
    pub supported: Seq<bool>,
    pub values: Seq<Option<Seq<char>>>,
}

impl DeviceView {
    /// Whether the device supports the information field `info`.
    pub open spec fn supports(self, info: Rs2CameraInfo) -> bool {
        0 <= info.code() < self.supported.len() && self.supported[info.code()]
    }

    /// The value of the information field `info`: `None` where the device
    /// does not support it or did not report it.
    pub open spec fn info(self, info: Rs2CameraInfo) -> Option<Seq<char>> {
        if self.supports(info) && info.code() < self.values.len() {
            self.values[info.code()]
        } else {
            None
        }
    }
}

/// A copy of an optional string.
fn copy_opt_string(s: &Option<String>) -> (r: Option<String>)
    ensures
        opt_view(r) == opt_view(*s),
{
    match s {
        Some(t) => Some(t.clone()),
        None => None,
    }
}

/// A single RealSense device, holding what it reported of its information
/// fields.
pub struct Device {
    supported: Vec<bool>,
    values: Vec<Option<String>>,
}

impl View for Device {
    type V = DeviceView;

    closed spec fn view(&self) -> DeviceView {
        DeviceView {
            supported: self.supported@,
            values: self.values@.map_values(|s: Option<String>| opt_view(s)),
        }
    }
}

impl Clone for Device {
    fn clone(&self) -> (r: Self)
        ensures
            r@ == self@,
    {
        let supported = self.supported.clone();
        let mut values: Vec<Option<String>> = Vec::new();
        let mut i: usize = 0;
        while i < self.values.len()
            invariant
                i <= self.values.len(),
                values@.len() == i,
                forall|j: int|
                    0 <= j < i ==> opt_view(#[trigger] values@[j]) == opt_view(
                        self.values@[j],
                    ),
            decreases self.values.len() - i,
        {
            values.push(copy_opt_string(&self.values[i]));
            i = i + 1;
        }
        proof {
            assert(supported@ =~= self.supported@);
            assert(values@.map_values(|s: Option<String>| opt_view(s)) =~= self.values@.map_values(
                |s: Option<String>| opt_view(s),
            ));
        }
        Device { supported, values }
    }
}

impl Device {
    /// A device from what the C queries reported: `supported[c]` whether
    /// the field of code `c` is supported, `values[c]` its string.
    pub fn from_c(supported: Vec<bool>, values: Vec<Option<String>>) -> (d: Device)
        ensures
            d@.supported == supported@,
            d@.values == values@.map_values(|s: Option<String>| opt_view(s)),
    {
        Device { supported, values }
    }

    /// Query a device info string; `None` where the device does not support
    /// the field or did not report it.
    pub fn info(&self, info: Rs2CameraInfo) -> (r: Option<String>)
        ensures
            opt_view(r) == self@.info(info),
    {
        if !self.supports_info(info) {
            return None;
        }
        let code = info.to_i32() as usize;
        if code < self.values.len() {
            copy_opt_string(&self.values[code])
        } else {
            None
        }
    }

    pub fn supports_info(&self, info: Rs2CameraInfo) -> (b: bool)
        ensures
            b == self@.supports(info),
    {
        let code = info.to_i32();
        code >= 0 && (code as usize) < self.supported.len() && self.supported[code as usize]
    }
}

/// The view of a device entry of a device list.
pub open spec fn device_entry_view(e: Option<Device>) -> Option<DeviceView> {
    match e {
        Some(d) => Some(d@),
        None => None,
    }
}

/// A snapshot of all connected devices at the time of querying. Each
/// position holds the device, or `None` where librealsense2 could not create
/// it. It holds at most `i32::MAX` positions, the count being a C `int`.
pub struct DeviceList {
    devices: Vec<Option<Device>>,
}

impl View for DeviceList {
    type V = Seq<Option<DeviceView>>;

    closed spec fn view(&self) -> Seq<Option<DeviceView>> {
        self.devices@.map_values(|e: Option<Device>| device_entry_view(e))
    }
}

impl DeviceList {
    #[verifier::type_invariant]
    spec fn count_fits(self) -> bool {
        self.devices.len() <= i32::MAX
    }

    /// The list holding the given entries, in order.
    pub fn from_devices(devices: Vec<Option<Device>>) -> (l: DeviceList)
        requires
            devices.len() <= i32::MAX,
        ensures
            l@ == devices@.map_values(|e: Option<Device>| device_entry_view(e)),
    {
        DeviceList { devices }
    }

    pub fn len(&self) -> (n: usize)
        ensures
            n == self@.len(),
            n <= i32::MAX,
    {
        proof {
            use_type_invariant(self);
        }
        self.devices.len()
    }

    pub fn is_empty(&self) -> (b: bool)
        ensures
            b == (self@.len() == 0),
    {
        self.len() == 0
    }

    /// The device at `index`, the index being passed to the C library as an
    /// `int`; `None` where that position holds no device.
    pub fn get(&self, index: usize) -> (r: Option<Device>)
        ensures
            r is Some <==> (0 <= (index as i32) < self@.len() && self@[(index as i32) as int] is Some),
            r matches Some(d) ==> Some(d@) == self@[(index as i32) as int],
    {
        let ci = index as i32;
        if ci >= 0 && (ci as usize) < self.devices.len() {
            match &self.devices[ci as usize] {
                Some(d) => Some(d.clone()),
                None => None,
            }
        } else {
            None
        }
    }

    /// An iterator over the devices, from the first.
    pub fn iter(&self) -> (it: DeviceIter<'_>)
        ensures
            it.list() == self,
            it.position() == 0,
    {
        DeviceIter { list: self, index: 0 }
    }
}

/// What `next` gives at position `p` of a list: the device there, or `None`
/// at the end of the list or at a position that holds no device.
pub open spec fn next_result(l: Seq<Option<DeviceView>>, p: nat) -> Option<DeviceView> {
    if p < l.len() && l[p as int] is Some {
        l[p as int]
    } else {
        None
    }
}

/// The position after `next` at position `p`: one further where a device
/// was given, else unchanged.
pub open spec fn next_position(l: Seq<Option<DeviceView>>, p: nat) -> nat {
    if p < l.len() && l[p as int] is Some {
        p + 1
    } else {
        p
    }
}

/// The position of an iterator of `l` after `n` calls of `next` from the
/// start.
pub open spec fn position_after(l: Seq<Option<DeviceView>>, n: nat) -> nat
    decreases n,
{
    if n == 0 {
        0
    } else {
        next_position(l, position_after(l, (n - 1) as nat))
    }
}

/// `k` is the first position of `l` that holds no device, or its length
/// where every position holds one.
pub open spec fn is_first_missing(l: Seq<Option<DeviceView>>, k: nat) -> bool {
    &&& k <= l.len()
    &&& forall|j: int| 0 <= j < k ==> (#[trigger] l[j]) is Some
    &&& (k == l.len() || l[k as int] is None)
}

/// Iterating a device list from the start gives its devices in order, the
/// one at position `n` on the `n`-th call of `next` (counting from 0), up to
/// the first position that holds no device (or the end of the list); from
/// there on every call gives `None` and the iterator stays where it is.
pub proof fn lemma_device_iteration(l: Seq<Option<DeviceView>>, k: nat, n: nat)
    requires
        is_first_missing(l, k),
    ensures
        position_after(l, n) == if n < k { n } else { k },
        next_result(l, position_after(l, n)) == if n < k { l[n as int] } else { None },
    decreases n,
{
    if n > 0 {
        lemma_device_iteration(l, k, (n - 1) as nat);
    }
}

/// An iterator over the devices of a list, in order. It ends at the end of
/// the list, or at the first position that holds no device.
pub struct DeviceIter<'a> {
    list: &'a DeviceList,
    index: usize,
}

impl<'a> DeviceIter<'a> {
    #[verifier::type_invariant]
    spec fn within_list(self) -> bool {
        self.index <= self.list@.len()
    }

    /// The list being walked.
    pub closed spec fn list(self) -> &'a DeviceList {
        self.list
    }

    /// The position of the next device to be given.
    pub closed spec fn position(self) -> nat {
        self.index as nat
    }

    /// The device at the current position, moving past it; `None`, with
    /// nothing changed, at the end of the list or at a position that holds
    /// no device.
    pub fn next(&mut self) -> (r: Option<Device>)
        ensures
            final(self).list() == old(self).list(),
            device_entry_view(r) == next_result(old(self).list()@, old(self).position()),
            final(self).position() == next_position(old(self).list()@, old(self).position()),
    {
        proof {
            use_type_invariant(&*self);
        }
        let n = self.list.len();
        if self.index >= n {
            return None;
        }
        let d = self.list.get(self.index);
        assert((self.index as i32) as int == self.index);
        match d {
            Some(dev) => {
                self.index = self.index + 1;
                Some(dev)
            },
            None => None,
        }
    }
}

} // verus!
