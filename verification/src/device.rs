use vstd::prelude::*;

verus! {

/// How the backend tells one camera from another: a number, or a string such as an address.
#[derive(Debug, PartialEq, Eq)]
pub enum DeviceIndex {
    Index(u32),
    Name(String),
}

pub enum DeviceIndexView {
    Index(u32),
    Name(Seq<char>),
}

impl View for DeviceIndex {
    type V = DeviceIndexView;

    open spec fn view(&self) -> DeviceIndexView {
        match *self {
            DeviceIndex::Index(i) => DeviceIndexView::Index(i),
            DeviceIndex::Name(s) => DeviceIndexView::Name(s@),
        }
    }
}

impl Clone for DeviceIndex {
    fn clone(&self) -> (out: Self)
        ensures
            out@ == self@,
    {
        match self {
            DeviceIndex::Index(i) => DeviceIndex::Index(*i),
            DeviceIndex::Name(s) => DeviceIndex::Name(s.clone()),
        }
    }
}

/// One entry of the device list: the name shown to the user and the backend's index.
#[derive(Debug, PartialEq, Eq)]
pub struct DeviceInfo {
    pub name: String,
    pub index: DeviceIndex,
}

pub struct DeviceInfoView {
    pub name: Seq<char>,
    pub index: DeviceIndexView,
}

impl View for DeviceInfo {
    type V = DeviceInfoView;

    open spec fn view(&self) -> DeviceInfoView {
        DeviceInfoView { name: self.name@, index: self.index@ }
    }
}

impl Clone for DeviceInfo {
    fn clone(&self) -> (out: Self)
        ensures
            out@ == self@,
    {
        DeviceInfo { name: self.name.clone(), index: self.index.clone() }
    }
}

/// The device list as the contracts see it.
pub open spec fn devices_view(devices: Seq<DeviceInfo>) -> Seq<DeviceInfoView> {
    devices.map_values(|d: DeviceInfo| d@)
}

/// Whether some device of the list is called `name`.
pub open spec fn listed(devices: Seq<DeviceInfoView>, name: Seq<char>) -> bool {
    exists|i: int| 0 <= i < devices.len() && (#[trigger] devices[i]).name == name
}

/// Whether `p` is the place of the first device called `name`.
pub open spec fn is_first_position(devices: Seq<DeviceInfoView>, name: Seq<char>, p: int) -> bool {
    &&& 0 <= p < devices.len()
    &&& devices[p].name == name
    &&& forall|j: int| 0 <= j < p ==> (#[trigger] devices[j]).name != name
}

/// The place of the first device called `name`, if there is one.
pub open spec fn first_position(devices: Seq<DeviceInfoView>, name: Seq<char>) -> Option<int> {
    if exists|p: int| is_first_position(devices, name, p) {
        Some(choose|p: int| is_first_position(devices, name, p))
    } else {
        None
    }
}

/// A list has at most one first position for a name, so `first_position` is that place.
pub proof fn first_position_is(devices: Seq<DeviceInfoView>, name: Seq<char>, p: int)
    requires
        is_first_position(devices, name, p),
    ensures
        first_position(devices, name) == Some(p),
{
    let q = choose|q: int| is_first_position(devices, name, q);
    assert(is_first_position(devices, name, q));
    if q < p {
        assert(devices[q].name != name);
    } else if p < q {
        assert(devices[p].name != name);
    }
}

/// A name has a first position exactly when it is listed.
pub proof fn first_position_iff_listed(devices: Seq<DeviceInfoView>, name: Seq<char>)
    ensures
        first_position(devices, name) is Some <==> listed(devices, name),
        first_position(devices, name) matches Some(p) ==> is_first_position(devices, name, p),
    decreases devices.len(),
{
    if listed(devices, name) {
        let i = choose|i: int| 0 <= i < devices.len() && (#[trigger] devices[i]).name == name;
        first_listed_before(devices, name, i);
    } else {
        if exists|p: int| is_first_position(devices, name, p) {
            let p = choose|p: int| is_first_position(devices, name, p);
            assert(devices[p].name == name);
        }
    }
}

proof fn first_listed_before(devices: Seq<DeviceInfoView>, name: Seq<char>, i: int)
    requires
        0 <= i < devices.len(),
        devices[i].name == name,
    ensures
        exists|p: int| is_first_position(devices, name, p),
    decreases i,
{
    if forall|j: int| 0 <= j < i ==> (#[trigger] devices[j]).name != name {
        assert(is_first_position(devices, name, i));
    } else {
        let j = choose|j: int| 0 <= j < i && (#[trigger] devices[j]).name == name;
        first_listed_before(devices, name, j);
    }
}

/// Looks `name` up in the device list and gives the place of the first device of that name.
pub fn find_device(devices: &Vec<DeviceInfo>, name: &String) -> (found: Option<usize>)
    ensures
        match found {
            Some(p) => first_position(devices_view(devices@), name@) == Some(p as int),
            None => first_position(devices_view(devices@), name@) is None,
        },
{
    let ghost list = devices_view(devices@);
    let mut i: usize = 0;
    while i < devices.len()
        invariant
            0 <= i <= devices.len(),
            list == devices_view(devices@),
            forall|j: int| 0 <= j < i ==> (#[trigger] list[j]).name != name@,
        decreases devices.len() - i,
    {
        if devices[i].name == *name {
            proof {
                assert(list[i as int].name == name@);
                first_position_is(list, name@, i as int);
            }
            return Some(i);
        }
        i += 1;
    }
    proof {
        first_position_iff_listed(list, name@);
    }
    None
}

} // verus!
