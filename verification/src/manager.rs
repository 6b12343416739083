//! The cameras of a system.
use vstd::prelude::*;

use crate::device::LinuxCameraDevice;
use crate::error::{DeviceError, DeviceErrorView};

verus! {

/// The place among a row of devices of the first one with an identifier.
pub open spec fn first_with_id<L>(
    devices: Seq<LinuxCameraDevice<L>>,
    id: Seq<char>,
    index: int,
) -> bool {
    &&& 0 <= index < devices.len()
    &&& devices[index].id@ == id
    &&& forall|i: int| 0 <= i < index ==> (#[trigger] devices[i]).id@ != id
}

/// Whether no device of a row has an identifier.
pub open spec fn none_with_id<L>(devices: Seq<LinuxCameraDevice<L>>, id: Seq<char>) -> bool {
    forall|i: int| 0 <= i < devices.len() ==> (#[trigger] devices[i]).id@ != id
}

/// A camera that the system can hand out: its identifier and the link to a worker
/// for it.
#[derive(Debug)]
pub struct FoundCamera<L> {
    pub id: String,
    pub link: L,
}

/// The cameras among the places of a camera list. A place can turn out empty.
pub open spec fn found_cameras<L>(places: Seq<Option<FoundCamera<L>>>) -> Seq<FoundCamera<L>> {
    places.filter(|place: Option<FoundCamera<L>>| place is Some).map_values(
        |place: Option<FoundCamera<L>>| place->0,
    )
}

/// One more place of a camera list gives one more camera, unless it is empty.
proof fn lemma_one_more_place<L>(places: Seq<Option<FoundCamera<L>>>, count: int)
    requires
        0 <= count < places.len(),
    ensures
        found_cameras(places.take(count + 1)) == match places[count] {
            Some(camera) => found_cameras(places.take(count)).push(camera),
            None => found_cameras(places.take(count)),
        },
{
    reveal(Seq::filter);
    assert(places.take(count + 1).drop_last() == places.take(count));
}

/// Whether a device is the one that a found camera makes, with nothing done to it.
pub open spec fn fresh_device<L>(device: LinuxCameraDevice<L>, camera: FoundCamera<L>) -> bool {
    &&& device.id@ == camera.id@
    &&& !device.running
    &&& device.link == camera.link
}

/// Whether a row of devices is the one that a row of found cameras makes.
pub open spec fn fresh_devices<L>(
    devices: Seq<LinuxCameraDevice<L>>,
    cameras: Seq<FoundCamera<L>>,
) -> bool {
    &&& devices.len() == cameras.len()
    &&& forall|i: int|
        0 <= i < devices.len() ==> fresh_device(#[trigger] devices[i], cameras[i])
}

/// The cameras of a system. `M` is the camera manager of the system, `L` what links
/// a device to its worker and `C` the handler for changes among the devices.
#[derive(Debug)]
pub struct LinuxCameraManager<M, L, C> {
    /// The camera manager of the system.
    pub mgr: M,
    /// The devices, in the order in which the system lists its cameras.
    pub devices: Vec<LinuxCameraDevice<L>>,
    /// The handler for changes among the devices.
    pub change_handler: Option<C>,
}

impl<M, L, C> LinuxCameraManager<M, L, C> {
    /// A manager without devices on the camera manager of the system, or the error
    /// where that could not be opened.
    pub fn init(opened: Result<M, String>) -> (manager: Result<Self, DeviceError>)
        ensures
            match (opened, manager) {
                (Ok(mgr), Ok(manager)) => {
                    &&& manager.mgr == mgr
                    &&& manager.devices@.len() == 0
                    &&& manager.change_handler is None
                },
                (Err(report), Err(error)) => error@ == DeviceErrorView::OpenFailed(report@),
                _ => false,
            },
    {
        match opened {
            Ok(mgr) => Ok(LinuxCameraManager { mgr, devices: Vec::new(), change_handler: None }),
            Err(report) => Err(DeviceError::OpenFailed(report)),
        }
    }

    /// Lets go of all devices.
    pub fn uninit(&mut self)
        ensures
            final(self).mgr == old(self).mgr,
            final(self).devices@.len() == 0,
            final(self).change_handler == old(self).change_handler,
    {
        self.devices.clear();
    }

    /// All devices, in order.
    pub fn list(&self) -> (devices: Vec<&LinuxCameraDevice<L>>)
        ensures
            devices@.len() == self.devices@.len(),
            forall|i: int|
                0 <= i < devices@.len() ==> *(#[trigger] devices@[i]) == self.devices@[i],
    {
        let mut devices: Vec<&LinuxCameraDevice<L>> = Vec::new();
        for i in 0..self.devices.len()
            invariant
                devices@.len() == i,
                forall|j: int|
                    0 <= j < devices@.len() ==> *(#[trigger] devices@[j]) == self.devices@[j],
        {
            devices.push(&self.devices[i]);
        }
        devices
    }

    /// The device at a place, if there are as many.
    pub fn index(&self, index: usize) -> (device: Option<&LinuxCameraDevice<L>>)
        ensures
            device is Some <==> index < self.devices@.len(),
            device matches Some(device) ==> *device == self.devices@[index as int],
    {
        if index < self.devices.len() {
            Some(&self.devices[index])
        } else {
            None
        }
    }

    /// The device at a place, to be changed, if there are as many.
    pub fn index_mut(&mut self, index: usize) -> (device: Option<&mut LinuxCameraDevice<L>>)
        ensures
            device is Some <==> index < old(self).devices@.len(),
            device matches Some(device) ==> {
                &&& *device == old(self).devices@[index as int]
                &&& final(self).devices@ == old(self).devices@.update(
                    index as int,
                    *final(device),
                )
            },
            device is None ==> final(self).devices@ == old(self).devices@,
            final(self).mgr == old(self).mgr,
            final(self).change_handler == old(self).change_handler,
    {
        if index < self.devices.len() {
            Some(&mut self.devices[index])
        } else {
            None
        }
    }

    /// The place of the first device with an identifier.
    fn position(&self, id: &str) -> (index: Option<usize>)
        ensures
            match index {
                Some(index) => first_with_id(self.devices@, id@, index as int),
                None => none_with_id(self.devices@, id@),
            },
    {
        let wanted = id.to_owned();
        for i in 0..self.devices.len()
            invariant
                wanted@ == id@,
                forall|j: int| 0 <= j < i ==> (#[trigger] self.devices@[j]).id@ != id@,
        {
            if self.devices[i].id == wanted {
                return Some(i);
            }
        }
        None
    }

    /// The first device with an identifier, if there is one.
    pub fn lookup(&self, id: &str) -> (device: Option<&LinuxCameraDevice<L>>)
        ensures
            match device {
                Some(device) => exists|index: int|
                    #[trigger] first_with_id(self.devices@, id@, index) && *device
                        == self.devices@[index],
                None => none_with_id(self.devices@, id@),
            },
    {
        match self.position(id) {
            Some(index) => Some(&self.devices[index]),
            None => None,
        }
    }

    /// The first device with an identifier, to be changed, if there is one.
    pub fn lookup_mut(&mut self, id: &str) -> (device: Option<&mut LinuxCameraDevice<L>>)
        ensures
            match device {
                Some(device) => exists|index: int|
                    #[trigger] first_with_id(old(self).devices@, id@, index) && *device == old(
                        self,
                    ).devices@[index] && final(self).devices@ == old(self).devices@.update(
                        index,
                        *final(device),
                    ),
                None => none_with_id(old(self).devices@, id@) && final(self).devices@ == old(
                    self,
                ).devices@,
            },
            final(self).mgr == old(self).mgr,
            final(self).change_handler == old(self).change_handler,
    {
        match self.position(id) {
            Some(index) => Some(&mut self.devices[index]),
            None => None,
        }
    }

    /// Puts a device for each camera of a camera list in place of all devices, in the
    /// order of the list. The links to the workers of the cameras are there already, so
    /// this comes after the old devices are gone where that matters: see `refresh`.
    pub fn adopt(&mut self, places: Vec<Option<FoundCamera<L>>>)
        ensures
            final(self).mgr == old(self).mgr,
            fresh_devices(final(self).devices@, found_cameras(places@)),
            final(self).change_handler == old(self).change_handler,
    {
        self.devices.clear();
        let ghost all = places@;
        assert(found_cameras(all.take(0)).len() == 0) by {
            reveal(Seq::filter);
        }
        for place in iter: places
            invariant
                iter.seq() == all,
                self.mgr == old(self).mgr,
                self.change_handler == old(self).change_handler,
                fresh_devices(self.devices@, found_cameras(all.take(iter.index()))),
        {
            proof {
                assert(all[iter.index()] == place);
                lemma_one_more_place(all, iter.index());
            }
            if let Some(camera) = place {
                self.devices.push(LinuxCameraDevice::new(camera.id.as_str(), camera.link));
            }
        }
        assert(all.take(all.len() as int) == all);
    }

    /// Lets go of all devices and makes one for each camera that the system has now,
    /// in the order of its camera list. `find` goes through that list and makes the
    /// links to new workers. It is called once, on the manager without its old devices,
    /// and may rely on it that they are gone.
    pub fn refresh<F: FnOnce(&Self) -> Vec<Option<FoundCamera<L>>>>(&mut self, find: F) -> (result:
        Result<(), DeviceError>)
        requires
            forall|manager: &Self|
                manager.devices@.len() == 0 && manager.mgr == old(self).mgr
                    && manager.change_handler == old(self).change_handler
                    ==> #[trigger] call_requires(find, (manager,)),
        ensures
            result == Ok::<(), DeviceError>(()),
            final(self).mgr == old(self).mgr,
            exists|manager: &Self, places: Vec<Option<FoundCamera<L>>>| #[trigger]
                call_ensures(find, (manager,), places) && manager.devices@.len() == 0
                    && manager.mgr == old(self).mgr && manager.change_handler == old(
                    self,
                ).change_handler && fresh_devices(final(self).devices@, found_cameras(places@)),
            final(self).change_handler == old(self).change_handler,
    {
        self.uninit();
        let places = find(self);
        self.adopt(places);
        Ok(())
    }

    /// Sets the handler for changes among the devices.
    pub fn set_change_handler(&mut self, handler: C) -> (result: Result<(), DeviceError>)
        ensures
            result == Ok::<(), DeviceError>(()),
            final(self).mgr == old(self).mgr,
            final(self).devices == old(self).devices,
            final(self).change_handler == Some(handler),
    {
        self.change_handler = Some(handler);
        Ok(())
    }
}

/// How many of the first places of a camera list have a camera.
pub open spec fn occupied<L>(places: Seq<Option<FoundCamera<L>>>, count: int) -> int
    decreases count,
{
    if count <= 0 {
        0
    } else {
        occupied(places, count - 1) + if places[count - 1] is Some {
            1int
        } else {
            0int
        }
    }
}

/// The cameras that were found are those of the camera list, each behind all that come
/// before it, and no others.
pub proof fn law_found_cameras_keep_their_order<L>(
    places: Seq<Option<FoundCamera<L>>>,
    count: int,
)
    requires
        0 <= count <= places.len(),
    ensures
        found_cameras(places.take(count)).len() == occupied(places, count),
        forall|k: int|
            0 <= k < count && (#[trigger] places[k]) is Some ==> 0 <= occupied(places, k)
                < occupied(places, count) && found_cameras(places.take(count))[occupied(places, k)]
                == places[k]->0,
    decreases count,
{
    if count > 0 {
        law_found_cameras_keep_their_order(places, count - 1);
        lemma_one_more_place(places, count - 1);
    } else {
        reveal(Seq::filter);
    }
}

/// A device that is looked up is the first one with the identifier: it stays the one
/// when devices are put behind it, and no longer is when one with the identifier is put
/// in front.
pub proof fn law_lookup_goes_from_the_front<L>(
    devices: Seq<LinuxCameraDevice<L>>,
    id: Seq<char>,
    index: int,
    device: LinuxCameraDevice<L>,
)
    requires
        first_with_id(devices, id, index),
    ensures
        devices[index].id@ == id,
        first_with_id(devices.push(device), id, index),
        device.id@ == id ==> first_with_id(seq![device] + devices, id, 0),
        device.id@ != id ==> first_with_id(seq![device] + devices, id, index + 1),
{
    let behind = devices.push(device);
    assert forall|i: int| 0 <= i < index implies (#[trigger] behind[i]).id@ != id by {
        assert(devices[i].id@ != id);
    }
    let front = seq![device] + devices;
    if device.id@ != id {
        assert forall|i: int| 0 <= i < index + 1 implies (#[trigger] front[i]).id@ != id by {
            if i > 0 {
                assert(devices[i - 1].id@ != id);
            }
        }
    }
}

/// An identifier is looked up to one device at most, and to none exactly where no
/// device has it.
pub proof fn law_lookup_is_decided<L>(devices: Seq<LinuxCameraDevice<L>>, id: Seq<char>)
    ensures
        forall|i: int, j: int| #[trigger]
            first_with_id(devices, id, i) && #[trigger] first_with_id(devices, id, j) ==> i == j,
        none_with_id(devices, id) <==> !exists|i: int| first_with_id(devices, id, i),
    decreases devices.len(),
{
    assert forall|i: int, j: int| #[trigger]
        first_with_id(devices, id, i) && #[trigger] first_with_id(devices, id, j) implies i
        == j by {
        if i < j {
            assert(devices[i].id@ != id);
        } else if j < i {
            assert(devices[j].id@ != id);
        }
    }
    if devices.len() > 0 {
        let before = devices.drop_last();
        law_lookup_is_decided(before, id);
        if !none_with_id(before, id) {
            let i = choose|i: int| first_with_id(before, id, i);
            assert forall|j: int| 0 <= j < i implies (#[trigger] devices[j]).id@ != id by {
                assert(before[j].id@ != id);
            }
            assert(devices[i] == before[i]);
            assert(first_with_id(devices, id, i));
        } else {
            assert forall|j: int| 0 <= j < before.len() implies (#[trigger] devices[j]).id@
                != id by {
                assert(before[j].id@ != id);
            }
            let last = devices.len() - 1;
            if devices[last].id@ == id {
                assert(first_with_id(devices, id, last));
            }
        }
    }
}

/// After a refresh exactly the identifiers of the cameras that were found can be
/// looked up.
pub proof fn law_refresh_finds_exactly_the_cameras<L>(
    devices: Seq<LinuxCameraDevice<L>>,
    places: Seq<Option<FoundCamera<L>>>,
    id: Seq<char>,
)
    requires
        fresh_devices(devices, found_cameras(places)),
    ensures
        none_with_id(devices, id) <==> forall|k: int|
            0 <= k < places.len() && (#[trigger] places[k]) is Some ==> places[k]->0.id@ != id,
    decreases places.len(),
{
    reveal(Seq::filter);
    if places.len() > 0 {
        let count = places.len() - 1;
        let before = places.drop_last();
        assert(before == places.take(count));
        assert(places.take(count + 1) == places);
        lemma_one_more_place(places, count);
        let shorter = match places[count] {
            Some(_) => devices.drop_last(),
            None => devices,
        };
        assert forall|i: int| 0 <= i < shorter.len() implies fresh_device(
            #[trigger] shorter[i],
            found_cameras(before)[i],
        ) by {
            assert(shorter[i] == devices[i]);
            assert(found_cameras(places)[i] == found_cameras(before)[i]);
        }
        law_refresh_finds_exactly_the_cameras(shorter, before, id);
        if none_with_id(devices, id) {
            assert forall|i: int| 0 <= i < shorter.len() implies (#[trigger] shorter[i]).id@
                != id by {
                assert(devices[i].id@ != id);
            }
            assert forall|k: int|
                0 <= k < places.len() && (#[trigger] places[k]) is Some implies places[k]->0.id@
                != id by {
                if k < count {
                    assert(before[k] == places[k]);
                } else {
                    assert(devices[devices.len() - 1].id@ != id);
                }
            }
        } else {
            let i = choose|i: int| 0 <= i < devices.len() && (#[trigger] devices[i]).id@ == id;
            if i < shorter.len() {
                assert(shorter[i].id@ == id);
                let k = choose|k: int|
                    0 <= k < before.len() && (#[trigger] before[k]) is Some && before[k]->0.id@
                        == id;
                assert(places[k] == before[k]);
            } else {
                assert(places[count]->0.id@ == id);
            }
        }
    }
}

} // verus!
