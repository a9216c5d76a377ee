//! The list of devices currently visible on the network, kept from the
//! discovery reports: a device is listed once per name, and a removed
//! service takes away the device whose name is exactly its instance name.

use vstd::prelude::*;
use crate::discovery::{DiscoveryEvent, DiscoveryEventModel, service_type, service_type_name};
use crate::protocol::{DeviceInfo, DeviceModel};
use crate::text::{same_text, concat, push_str};

verus! {

/// The full DNS-SD name under which the device named `name` advertises:
/// its instance name, a dot and the service type.
pub open spec fn instance_fullname(name: Seq<char>) -> Seq<char> {
    name.push('.') + service_type()
}

/// Whether the removed service with full name `fullname` is the device
/// named `name`: the full name is exactly that device's full name.
pub open spec fn lost_matches(fullname: Seq<char>, name: Seq<char>) -> bool {
    fullname == instance_fullname(name)
}

/// Whether some listed device has this name.
pub open spec fn has_name(devices: Seq<DeviceModel>, name: Seq<char>) -> bool {
    exists|i: int| 0 <= i < devices.len() && (#[trigger] devices[i]).name == name
}

/// Whether no two listed devices share a name.
pub open spec fn names_unique(devices: Seq<DeviceModel>) -> bool {
    forall|i: int, j: int|
        0 <= i < j < devices.len() ==> (#[trigger] devices[i]).name != (#[trigger] devices[j]).name
}

/// The list after the service `fullname` went away: the devices that it
/// does not match, in their order.
pub open spec fn without_lost(devices: Seq<DeviceModel>, fullname: Seq<char>) -> Seq<DeviceModel>
    decreases devices.len(),
{
    if devices.len() == 0 {
        seq![]
    } else if lost_matches(fullname, devices.last().name) {
        without_lost(devices.drop_last(), fullname)
    } else {
        without_lost(devices.drop_last(), fullname).push(devices.last())
    }
}

/// The list after a device was found: appended when its name is new,
/// unchanged otherwise.
pub open spec fn with_found(devices: Seq<DeviceModel>, d: DeviceModel) -> Seq<DeviceModel> {
    if has_name(devices, d.name) {
        devices
    } else {
        devices.push(d)
    }
}

/// A notice for the user interface about the device list.
pub enum DeviceNotice {
    /// A new device is listed.
    Discovered(DeviceInfo),
    /// The service with this full name went away.
    Lost(String),
}

/// The model of a device-list notice.
pub enum DeviceNoticeModel {
    Discovered(DeviceModel),
    Lost(Seq<char>),
}

impl View for DeviceNotice {
    type V = DeviceNoticeModel;

    open spec fn view(&self) -> DeviceNoticeModel {
        match self {
            DeviceNotice::Discovered(d) => DeviceNoticeModel::Discovered(d@),
            DeviceNotice::Lost(n) => DeviceNoticeModel::Lost(n@),
        }
    }
}

/// The name of the user-interface event that carries a device notice.
pub open spec fn notice_channel(n: DeviceNoticeModel) -> Seq<char> {
    match n {
        DeviceNoticeModel::Discovered(_) => "device-discovered"@,
        DeviceNoticeModel::Lost(_) => "device-lost"@,
    }
}

impl DeviceNotice {
    /// The name of the user-interface event that carries this notice.
    pub fn channel(&self) -> (name: &'static str)
        ensures
            name@ == notice_channel(self@),
    {
        match self {
            DeviceNotice::Discovered(_) => "device-discovered",
            DeviceNotice::Lost(_) => "device-lost",
        }
    }
}

/// The models of a list of devices.
pub open spec fn device_models(v: Seq<DeviceInfo>) -> Seq<DeviceModel> {
    v.map_values(|d: DeviceInfo| d@)
}

/// The devices currently visible, in the order they were found.
pub struct DeviceRegistry {
    devices: Vec<DeviceInfo>,
}

impl View for DeviceRegistry {
    type V = Seq<DeviceModel>;

    closed spec fn view(&self) -> Seq<DeviceModel> {
        device_models(self.devices@)
    }
}

/// The loss of a service removes exactly the devices it matches: none of
/// them stays, every other device stays, nothing is added, and names stay
/// unique.
pub proof fn lemma_lost_removes_exactly(devices: Seq<DeviceModel>, fullname: Seq<char>)
    ensures
        forall|i: int|
            0 <= i < devices.len() && !lost_matches(fullname, (#[trigger] devices[i]).name)
                ==> without_lost(devices, fullname).contains(devices[i]),
        forall|i: int|
            0 <= i < without_lost(devices, fullname).len() ==> !lost_matches(
                fullname,
                (#[trigger] without_lost(devices, fullname)[i]).name,
            ),
        forall|i: int|
            0 <= i < without_lost(devices, fullname).len() ==> devices.contains(
                #[trigger] without_lost(devices, fullname)[i],
            ),
        names_unique(devices) ==> names_unique(without_lost(devices, fullname)),
    decreases devices.len(),
{
    if devices.len() > 0 {
        let init = devices.drop_last();
        lemma_lost_removes_exactly(init, fullname);
        let w = without_lost(init, fullname);
        assert forall|i: int| 0 <= i < w.len() implies devices.contains(#[trigger] w[i]) by {
            assert(init.contains(w[i]));
            let k = choose|k: int| 0 <= k < init.len() && init[k] == w[i];
            assert(devices[k] == w[i]);
        }
        if !lost_matches(fullname, devices.last().name) {
            let r = w.push(devices.last());
            assert forall|i: int| 0 <= i < r.len() implies devices.contains(#[trigger] r[i]) by {
                if i < w.len() {
                    assert(r[i] == w[i]);
                } else {
                    assert(devices[devices.len() - 1] == r[i]);
                }
            }
            assert forall|i: int|
                0 <= i < r.len() implies !lost_matches(fullname, (#[trigger] r[i]).name) by {
                if i < w.len() {
                    assert(r[i] == w[i]);
                }
            }
            if names_unique(devices) {
                assert(names_unique(init)) by {
                    assert forall|i: int, j: int|
                        0 <= i < j < init.len() implies (#[trigger] init[i]).name != (
                        #[trigger] init[j]).name by {
                        assert(init[i] == devices[i] && init[j] == devices[j]);
                    }
                }
                assert forall|i: int, j: int|
                    0 <= i < j < r.len() implies (#[trigger] r[i]).name != (
                    #[trigger] r[j]).name by {
                    if j < w.len() {
                        assert(r[i] == w[i] && r[j] == w[j]);
                    } else {
                        assert(r[i] == w[i]);
                        assert(init.contains(w[i]));
                        let k = choose|k: int| 0 <= k < init.len() && init[k] == w[i];
                        assert(devices[k] == w[i]);
                        assert(devices[devices.len() - 1] == r[j]);
                    }
                }
            }
        } else {
            if names_unique(devices) {
                assert forall|i: int, j: int|
                    0 <= i < j < init.len() implies (#[trigger] init[i]).name != (
                    #[trigger] init[j]).name by {
                    assert(init[i] == devices[i] && init[j] == devices[j]);
                }
            }
        }
        let r = without_lost(devices, fullname);
        assert forall|i: int|
            0 <= i < devices.len() && !lost_matches(fullname, (#[trigger] devices[i]).name)
                implies r.contains(devices[i]) by {
            if i < init.len() {
                assert(init[i] == devices[i]);
                assert(w.contains(devices[i]));
                let k = choose|k: int| 0 <= k < w.len() && w[k] == devices[i];
                if !lost_matches(fullname, devices.last().name) {
                    assert(r[k] == w[k]);
                }
            } else {
                assert(devices[i] == devices.last());
                assert(r[r.len() - 1] == devices.last());
            }
        }
    }
}

impl DeviceRegistry {
    /// The registry holds each name at most once.
    pub open spec fn wf(&self) -> bool {
        names_unique(self@)
    }

    /// An empty list.
    pub fn new() -> (r: DeviceRegistry)
        ensures
            r.wf(),
            r@ == Seq::<DeviceModel>::empty(),
    {
        let r = DeviceRegistry { devices: Vec::new() };
        assert(r@ =~= Seq::<DeviceModel>::empty());
        r
    }

    /// A copy of the listed devices, in order.
    pub fn devices(&self) -> (list: Vec<DeviceInfo>)
        ensures
            device_models(list@) == self@,
            self.wf() ==> names_unique(device_models(list@)),
    {
        let mut list: Vec<DeviceInfo> = Vec::new();
        let mut i: usize = 0;
        while i < self.devices.len()
            invariant
                i <= self.devices@.len(),
                list@.len() == i,
                device_models(list@) == self@.take(i as int),
            decreases self.devices.len() - i,
        {
            let ghost before = list@;
            let copy = self.devices[i].duplicate();
            list.push(copy);
            assert(list@ == before.push(copy));
            assert(self@[i as int] == self.devices@[i as int]@);
            assert forall|k: int| 0 <= k < i + 1 implies #[trigger] device_models(list@)[k]
                == self@.take(i + 1)[k] by {
                if k < i {
                    assert(list@[k] == before[k]);
                    assert(device_models(before)[k] == self@.take(i as int)[k]);
                }
            }
            assert(device_models(list@) =~= self@.take(i + 1));
            i += 1;
        }
        assert(self@.take(self.devices@.len() as int) =~= self@);
        list
    }

    fn contains_name(&self, name: &str) -> (found: bool)
        ensures
            found == has_name(self@, name@),
    {
        let mut i: usize = 0;
        while i < self.devices.len()
            invariant
                i <= self.devices@.len(),
                forall|j: int| 0 <= j < i ==> (#[trigger] self@[j]).name != name@,
            decreases self.devices.len() - i,
        {
            if same_text(self.devices[i].name.as_str(), name) {
                assert(self@[i as int].name == name@);
                return true;
            }
            i += 1;
        }
        false
    }

    /// Applies a discovery report. A found device is listed, and announced,
    /// when no listed device has its name; a lost service removes the
    /// devices it matches and is always announced.
    pub fn apply(&mut self, event: DiscoveryEvent) -> (notice: Option<DeviceNotice>)
        requires
            old(self).wf(),
        ensures
            final(self).wf(),
            match event@ {
                DiscoveryEventModel::DeviceFound(d) => {
                    &&& final(self)@ == with_found(old(self)@, d)
                    &&& if has_name(old(self)@, d.name) {
                        notice is None
                    } else {
                        notice matches Some(n) && n@ == DeviceNoticeModel::Discovered(d)
                    }
                },
                DiscoveryEventModel::DeviceLost(fullname) => {
                    &&& final(self)@ == without_lost(old(self)@, fullname)
                    &&& notice matches Some(n) && n@ == DeviceNoticeModel::Lost(fullname)
                },
            },
    {
        match event {
            DiscoveryEvent::DeviceFound(d) => {
                if self.contains_name(d.name.as_str()) {
                    None
                } else {
                    let announced = d.duplicate();
                    let ghost before = self@;
                    self.devices.push(d);
                    proof {
                        assert(self@ =~= before.push(announced@));
                        assert forall|i: int, j: int|
                            0 <= i < j < self@.len() implies (#[trigger] self@[i]).name != (
                            #[trigger] self@[j]).name by {
                            if j < before.len() {
                                assert(self@[i] == before[i] && self@[j] == before[j]);
                            } else {
                                assert(self@[i] == before[i]);
                            }
                        }
                    }
                    Some(DeviceNotice::Discovered(announced))
                }
            },
            DiscoveryEvent::DeviceLost(fullname) => {
                let ghost before = self@;
                let mut kept: Vec<DeviceInfo> = Vec::new();
                let mut old_devices: Vec<DeviceInfo> = Vec::new();
                std::mem::swap(&mut old_devices, &mut self.devices);
                let ghost olds = device_models(old_devices@);
                assert(olds == before);
                let mut i: usize = 0;
                while i < old_devices.len()
                    invariant
                        i <= old_devices@.len(),
                        olds == device_models(old_devices@),
                        device_models(kept@) == without_lost(
                            olds.take(i as int),
                            fullname@,
                        ),
                    decreases old_devices.len() - i,
                {
                    let d = &old_devices[i];
                    let lost = lost_match(fullname.as_str(), d.name.as_str());
                    proof {
                        assert(olds.take(i + 1).drop_last() =~= olds.take(i as int));
                        assert(olds.take(i + 1).last() == d@);
                    }
                    if !lost {
                        kept.push(d.duplicate());
                        assert(device_models(kept@) =~= without_lost(
                            olds.take(i as int),
                            fullname@,
                        ).push(d@));
                    }
                    i += 1;
                }
                assert(olds.take(old_devices@.len() as int) =~= olds);
                self.devices = kept;
                proof {
                    lemma_lost_removes_exactly(before, fullname@);
                }
                Some(DeviceNotice::Lost(fullname))
            },
        }
    }
}

fn concat_dot(s: &str) -> (r: String)
    ensures
        r@ == s@.push('.'),
{
    let r = concat(s, ".");
    proof {
        reveal_strlit(".");
    }
    assert(r@ =~= s@.push('.'));
    r
}

fn lost_match(fullname: &str, name: &str) -> (r: bool)
    ensures
        r == lost_matches(fullname@, name@),
{
    let mut full = concat_dot(name);
    push_str(&mut full, service_type_name());
    same_text(fullname, full.as_str())
}

/// A device that is found and then lost leaves the list as if only its
/// loss had been reported.
pub proof fn lemma_found_then_lost(devices: Seq<DeviceModel>, d: DeviceModel)
    ensures
        without_lost(with_found(devices, d), instance_fullname(d.name)) == without_lost(
            devices,
            instance_fullname(d.name),
        ),
{
    if !has_name(devices, d.name) {
        assert(devices.push(d).drop_last() =~= devices);
    }
}

/// Reporting the same device twice lists it once.
pub proof fn lemma_found_twice(devices: Seq<DeviceModel>, d: DeviceModel)
    ensures
        with_found(with_found(devices, d), d) == with_found(devices, d),
{
    if !has_name(devices, d.name) {
        assert(devices.push(d)[devices.len() as int] == d);
    }
}

} // verus!
