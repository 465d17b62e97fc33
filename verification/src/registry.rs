//! The job registry: the devices of the last enumeration, the snapshot of
//! each job, and the handle of each job whose process is alive.

use vstd::prelude::*;
use vstd::string::*;
use crate::catalog::{jetson_products, known_products};
use crate::device::{
    classify_observations, detected_devices, device_views, JetsonDevice, JetsonDeviceView,
    UsbObservation,
};
use crate::keyed::KeyedStore;
use crate::progress::{is_terminal, optional_progress, FlashProgress, FlashProgressView};

verus! {

/// The shared state of the application. `H` is the handle of a running
/// process; the registry owns a handle for as long as it holds it.
pub struct AppState<H> {
    pub connected_devices: KeyedStore<JetsonDevice>,
    pub flash_progress: KeyedStore<FlashProgress>,
    pub active_flashes: KeyedStore<H>,
}

/// What the registry holds, as maps from ids to plain values.
pub struct AppStateView<H> {
    pub devices: Map<Seq<char>, JetsonDeviceView>,
    pub snapshots: Map<Seq<char>, FlashProgressView>,
    pub handles: Map<Seq<char>, H>,
}

impl<H> View for AppState<H> {
    type V = AppStateView<H>;

    open spec fn view(&self) -> AppStateView<H> {
        AppStateView {
            devices: self.connected_devices@.map_values(|d: JetsonDevice| d@),
            snapshots: self.flash_progress@.map_values(|p: FlashProgress| p@),
            handles: self.active_flashes@,
        }
    }
}

/// A registry that holds nothing.
pub open spec fn empty_state<H>() -> AppStateView<H> {
    AppStateView { devices: Map::empty(), snapshots: Map::empty(), handles: Map::empty() }
}

/// The registry with `snapshot` as the snapshot of job `id`.
pub open spec fn with_snapshot<H>(
    v: AppStateView<H>,
    id: Seq<char>,
    snapshot: FlashProgressView,
) -> AppStateView<H> {
    AppStateView { devices: v.devices, snapshots: v.snapshots.insert(id, snapshot), handles: v.handles }
}

/// The registry with `handle` as the process handle of job `id`.
pub open spec fn with_handle<H>(v: AppStateView<H>, id: Seq<char>, handle: H) -> AppStateView<H> {
    AppStateView { devices: v.devices, snapshots: v.snapshots, handles: v.handles.insert(id, handle) }
}

/// The registry without a process handle for job `id`.
pub open spec fn without_handle<H>(v: AppStateView<H>, id: Seq<char>) -> AppStateView<H> {
    AppStateView { devices: v.devices, snapshots: v.snapshots, handles: v.handles.remove(id) }
}

/// The registry after job `id` was cancelled: neither a handle nor a snapshot
/// is left of it.
pub open spec fn cancelled<H>(v: AppStateView<H>, id: Seq<char>) -> AppStateView<H> {
    AppStateView {
        devices: v.devices,
        snapshots: v.snapshots.remove(id),
        handles: v.handles.remove(id),
    }
}

/// The registry with `devices` in place of the devices it held.
pub open spec fn with_devices<H>(
    v: AppStateView<H>,
    devices: Map<Seq<char>, JetsonDeviceView>,
) -> AppStateView<H> {
    AppStateView { devices, snapshots: v.snapshots, handles: v.handles }
}

/// The value under `key` in `m`, if there is one.
pub open spec fn lookup<V>(m: Map<Seq<char>, V>, key: Seq<char>) -> Option<V> {
    if m.contains_key(key) {
        Some(m[key])
    } else {
        None
    }
}

/// No job whose snapshot is terminal still has a process handle.
pub open spec fn handles_are_live<H>(v: AppStateView<H>) -> bool {
    forall|id: Seq<char>|
        v.handles.contains_key(id) && #[trigger] v.snapshots.contains_key(id) ==> !is_terminal(
            v.snapshots[id].stage,
        )
}

/// The devices of a list under their ids; of two devices with one id the
/// later one stays.
pub open spec fn devices_by_id(devices: Seq<JetsonDeviceView>) -> Map<Seq<char>, JetsonDeviceView>
    decreases devices.len(),
{
    if devices.len() == 0 {
        Map::empty()
    } else {
        devices_by_id(devices.drop_last()).insert(devices.last().id, devices.last())
    }
}

impl<H> AppState<H> {
    /// A registry that holds nothing.
    pub fn new() -> (state: Self)
        ensures
            state@ == empty_state::<H>(),
    {
        let state = AppState {
            connected_devices: KeyedStore::new(),
            flash_progress: KeyedStore::new(),
            active_flashes: KeyedStore::new(),
        };
        proof {
            assert(state@.devices =~= Map::empty());
            assert(state@.snapshots =~= Map::empty());
        }
        state
    }

    /// Puts `handle` into the registry as the process handle of job `flash_id`.
    pub fn insert_handle(&mut self, flash_id: &str, handle: H)
        ensures
            final(self)@ == with_handle(old(self)@, flash_id@, handle),
    {
        self.active_flashes.insert(flash_id.to_owned(), handle);
    }

    /// Takes the process handle of job `flash_id` out of the registry, if it
    /// holds one. Taking it a second time finds nothing and changes nothing.
    pub fn take_handle(&mut self, flash_id: &str) -> (r: Option<H>)
        ensures
            final(self)@ == without_handle(old(self)@, flash_id@),
            r == lookup(old(self)@.handles, flash_id@),
    {
        self.active_flashes.remove(flash_id)
    }

    /// Removes the snapshot of job `flash_id`, if there is one.
    pub fn remove_snapshot(&mut self, flash_id: &str)
        ensures
            final(self)@.snapshots == old(self)@.snapshots.remove(flash_id@),
            final(self)@.handles == old(self)@.handles,
            final(self)@.devices == old(self)@.devices,
    {
        let _ = self.flash_progress.remove(flash_id);
        proof {
            assert(final(self)@.snapshots =~= old(self)@.snapshots.remove(flash_id@));
        }
    }
}

impl<H> Default for AppState<H> {
    fn default() -> (state: Self)
        ensures
            state@ == empty_state::<H>(),
    {
        AppState::new()
    }
}

/// Replaces the snapshot of job `flash_id` by `progress`.
pub fn update_flash_progress<H>(state: &mut AppState<H>, flash_id: &str, progress: FlashProgress)
    ensures
        final(state)@ == with_snapshot(old(state)@, flash_id@, progress@),
{
    state.flash_progress.insert(flash_id.to_owned(), progress);
    proof {
        assert(final(state)@.snapshots =~= old(state)@.snapshots.insert(flash_id@, progress@));
    }
}

/// The snapshot of job `flash_id`, if the registry holds one.
pub fn get_flash_progress<H>(flash_id: &str, state: &AppState<H>) -> (r: Option<FlashProgress>)
    ensures
        optional_progress(r) == lookup(state@.snapshots, flash_id@),
{
    match state.flash_progress.get(flash_id) {
        Some(p) => Some(p.clone()),
        None => None,
    }
}

/// Cancels job `flash_id`: takes its process handle out of the registry, if
/// there is one, and removes its snapshot. The handle is returned so that the
/// process can be terminated. A job that the registry does not know is left
/// as it is: nothing is returned and nothing changes.
pub fn cancel_flash_process<H>(flash_id: &str, state: &mut AppState<H>) -> (r: Option<H>)
    ensures
        final(state)@ == cancelled(old(state)@, flash_id@),
        r == lookup(old(state)@.handles, flash_id@),
{
    let handle = state.active_flashes.remove(flash_id);
    let _ = state.flash_progress.remove(flash_id);
    proof {
        assert(final(state)@.snapshots =~= old(state)@.snapshots.remove(flash_id@));
    }
    handle
}

/// The message of a failed enumeration, given what the host said.
pub open spec fn enumeration_failure(reason: Seq<char>) -> Seq<char> {
    "USB enumeration failed: "@ + reason
}

/// Puts the devices of a list into `store` under their ids, in order.
fn store_devices(store: &mut KeyedStore<JetsonDevice>, devices: &Vec<JetsonDevice>)
    requires
        old(store)@ == Map::<Seq<char>, JetsonDevice>::empty(),
    ensures
        final(store)@.map_values(|d: JetsonDevice| d@) == devices_by_id(device_views(devices@)),
{
    let mut i: usize = 0;
    proof {
        assert(store@.map_values(|d: JetsonDevice| d@) =~= devices_by_id(
            device_views(devices@.subrange(0, 0)),
        ));
    }
    while i < devices.len()
        invariant
            0 <= i <= devices@.len(),
            store@.map_values(|d: JetsonDevice| d@) == devices_by_id(
                device_views(devices@.subrange(0, i as int)),
            ),
        decreases devices@.len() - i,
    {
        let ghost before = store@;
        let device = devices[i].clone();
        let id = devices[i].id.clone();
        store.insert(id, device);
        proof {
            let upto = device_views(devices@.subrange(0, i as int + 1));
            assert(upto.drop_last() =~= device_views(devices@.subrange(0, i as int)));
            assert(upto.last() == devices@[i as int]@);
            assert(store@.map_values(|d: JetsonDevice| d@) =~= before.map_values(
                |d: JetsonDevice| d@,
            ).insert(id@, device@));
        }
        i = i + 1;
    }
    proof {
        assert(devices@.subrange(0, i as int) =~= devices@);
    }
}

/// Turns a listing of the attached devices into the list of supported
/// devices, and replaces the registry's devices by it.
///
/// Where the host could not list its devices, the failure is returned with
/// the host's reason and the registry is left as it is. Otherwise the call
/// succeeds, with the devices that the listing classifies to, in its order,
/// also where there are none.
pub fn detect_usb_devices<H>(
    state: &mut AppState<H>,
    listing: Result<Vec<UsbObservation>, String>,
) -> (r: Result<Vec<JetsonDevice>, String>)
    ensures
        match listing {
            Ok(observations) => r matches Ok(devices) && device_views(devices@) == detected_devices(
                known_products(),
                observations@,
            ) && final(state)@ == with_devices(
                old(state)@,
                devices_by_id(device_views(devices@)),
            ),
            Err(reason) => r matches Err(message) && message@ == enumeration_failure(reason@)
                && final(state)@ == old(state)@,
        },
{
    match listing {
        Ok(observations) => {
            let table = jetson_products();
            let devices = classify_observations(&table, &observations);
            let mut store: KeyedStore<JetsonDevice> = KeyedStore::new();
            store_devices(&mut store, &devices);
            state.connected_devices = store;
            Ok(devices)
        },
        Err(reason) => {
            let mut message = "USB enumeration failed: ".to_owned();
            message.append(reason.as_str());
            Err(message)
        },
    }
}

/// A job that the registry does not know has no snapshot, and cancelling it
/// changes nothing.
pub proof fn lemma_unknown_job<H>(v: AppStateView<H>, id: Seq<char>)
    requires
        !v.snapshots.contains_key(id),
        !v.handles.contains_key(id),
    ensures
        lookup(v.snapshots, id).is_none(),
        lookup(v.handles, id).is_none(),
        cancelled(v, id) == v,
{
    assert(v.snapshots.remove(id) =~= v.snapshots);
    assert(v.handles.remove(id) =~= v.handles);
}

/// Cancelling a job a second time changes nothing and finds no handle, and
/// after a cancellation the job has no snapshot.
pub proof fn lemma_cancel_twice<H>(v: AppStateView<H>, id: Seq<char>)
    ensures
        cancelled(cancelled(v, id), id) == cancelled(v, id),
        lookup(cancelled(v, id).handles, id).is_none(),
        lookup(cancelled(v, id).snapshots, id).is_none(),
{
    assert(v.snapshots.remove(id).remove(id) =~= v.snapshots.remove(id));
    assert(v.handles.remove(id).remove(id) =~= v.handles.remove(id));
}

/// Cancelling one job leaves every other job as it was.
pub proof fn lemma_cancel_leaves_others<H>(v: AppStateView<H>, id: Seq<char>, other: Seq<char>)
    requires
        other != id,
    ensures
        lookup(cancelled(v, id).snapshots, other) == lookup(v.snapshots, other),
        lookup(cancelled(v, id).handles, other) == lookup(v.handles, other),
        cancelled(v, id).devices == v.devices,
{
}

/// Taking a handle a second time finds nothing and changes nothing.
pub proof fn lemma_take_handle_twice<H>(v: AppStateView<H>, id: Seq<char>)
    ensures
        without_handle(without_handle(v, id), id) == without_handle(v, id),
        lookup(without_handle(v, id).handles, id).is_none(),
{
    assert(v.handles.remove(id).remove(id) =~= v.handles.remove(id));
}

/// Cancelling a job keeps the registry free of handles of terminal jobs.
pub proof fn lemma_cancel_keeps_handles_live<H>(v: AppStateView<H>, id: Seq<char>)
    requires
        handles_are_live(v),
    ensures
        handles_are_live(cancelled(v, id)),
{
    let after = cancelled(v, id);
    assert forall|k: Seq<char>|
        after.handles.contains_key(k) && #[trigger] after.snapshots.contains_key(
            k,
        ) implies !is_terminal(after.snapshots[k].stage) by {
        assert(v.snapshots.contains_key(k));
    }
}

} // verus!
