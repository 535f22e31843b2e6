use vstd::prelude::*;

use crate::camera::{
    admitted, distinct_identities, holds_identity, lemma_after_added_well_formed,
    lemma_snapshot_well_formed, snapshot_list, well_formed_list, Camera, CameraView,
};
use crate::error::{PipewireError, ProviderError};
use crate::provider::{
    message_handled, set_fd_result, start_result, BusMessage, EventView, ListChange,
    MessageOutcome, ProviderView,
};

verus! {

/// Starting twice: when the first start succeeds, the second succeeds too
/// and leaves the state, notifications included, exactly as the first left
/// it, whatever the backend would have answered.
pub proof fn lemma_start_idempotent(
    v: ProviderView,
    first: Result<Vec<Camera>, String>,
    second: Result<Vec<Camera>, String>,
)
    requires
        start_result(v, first).0.is_ok(),
    ensures
        start_result(v, first).1.started,
        start_result(start_result(v, first).1, second) == (
            Ok::<(), ProviderError>(()),
            start_result(v, first).1,
        ),
{
}

/// Two added-device messages with one identity leave at most one listed
/// camera of that identity, and exactly one when the first device passes
/// the policy; the second message then changes nothing.
pub proof fn lemma_added_twice_listed_once(
    v: ProviderView,
    c1: Camera,
    c2: Camera,
    r1: MessageOutcome,
    w1: ProviderView,
    r2: MessageOutcome,
    w2: ProviderView,
)
    requires
        well_formed_list(v.cameras),
        c1.target_object == c2.target_object,
        message_handled(v, BusMessage::DeviceAdded(c1), r1, w1),
        message_handled(w1, BusMessage::DeviceAdded(c2), r2, w2),
    ensures
        distinct_identities(w2.cameras),
        admitted(c1@) ==> {
            &&& holds_identity(w2.cameras, c1.target_object)
            &&& r2 == MessageOutcome::Ignored
            &&& w2 == w1
        },
{
    lemma_after_added_well_formed(v.cameras, c1@);
    lemma_after_added_well_formed(w1.cameras, c2@);
    if admitted(c1@) && !holds_identity(v.cameras, c1.target_object) {
        let n = v.cameras.len() as int;
        assert(w1.cameras[n].target_object == c1.target_object);
    }
}

/// A device that fails the class or the infrared policy is never listed:
/// not from a snapshot, and not from an added-device message, which then
/// changes nothing.
pub proof fn lemma_filtered_device_never_listed(
    v: ProviderView,
    devices: Seq<CameraView>,
    c: Camera,
    r: MessageOutcome,
    w: ProviderView,
)
    requires
        !admitted(c@),
        message_handled(v, BusMessage::DeviceAdded(c), r, w),
    ensures
        !snapshot_list(devices).contains(c@),
        r == MessageOutcome::Ignored,
        w == v,
{
    lemma_snapshot_well_formed(devices);
    if snapshot_list(devices).contains(c@) {
        let i = choose|i: int| 0 <= i < snapshot_list(devices).len() && snapshot_list(devices)[i] == c@;
        assert(admitted(snapshot_list(devices)[i]));
    }
}

/// Removing a device whose identity is not listed changes nothing and is
/// no error.
pub proof fn lemma_unknown_removal_changes_nothing(
    v: ProviderView,
    c: Camera,
    r: MessageOutcome,
    w: ProviderView,
)
    requires
        !holds_identity(v.cameras, c.target_object),
        message_handled(v, BusMessage::DeviceRemoved(c), r, w),
    ensures
        w == v,
        r == MessageOutcome::Ignored || r == MessageOutcome::UnknownRemoval,
{
}

/// Removing the camera at position `p` of a list of length `L` raises the
/// change `(p, 1, 0)` and then the camera-removed notification, and leaves
/// a list of length `L - 1` with the other cameras in their order.
pub proof fn lemma_removal_notification(
    v: ProviderView,
    c: Camera,
    p: usize,
    w: ProviderView,
)
    requires
        message_handled(v, BusMessage::DeviceRemoved(c), MessageOutcome::Removed(p), w),
    ensures
        0 <= p < v.cameras.len(),
        w.cameras.len() == v.cameras.len() - 1,
        forall|i: int| 0 <= i < p ==> #[trigger] w.cameras[i] == v.cameras[i],
        forall|i: int| p <= i < w.cameras.len() ==> #[trigger] w.cameras[i] == v.cameras[i + 1],
        w.events == v.events.push(
            EventView::ItemsChanged(ListChange { position: p, removed: 1, added: 0 }),
        ).push(EventView::CameraRemoved(v.cameras[p as int])),
{
}

/// Once a start has succeeded, handing over a descriptor fails with
/// [`PipewireError::ProvidedStarted`] and changes nothing.
pub proof fn lemma_descriptor_refused_after_start(
    v: ProviderView,
    outcome: Result<Vec<Camera>, String>,
    fd: i32,
)
    requires
        start_result(v, outcome).0.is_ok(),
    ensures
        set_fd_result(start_result(v, outcome).1, fd) == (
            Err::<(), PipewireError>(PipewireError::ProvidedStarted),
            start_result(v, outcome).1,
        ),
{
}

} // verus!
