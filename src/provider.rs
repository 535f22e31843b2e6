use vstd::prelude::*;

use crate::camera::{
    admitted, is_video_source, video_source_class, first_position, holds_identity, lemma_snapshot_well_formed, position_of,
    snapshot_cameras, snapshot_list, views_of, well_formed_list, Camera, CameraView,
};
use crate::error::{PipewireError, ProviderError};

verus! {

/// The descriptor value that marks the backend's descriptor property as unset.
pub const INVALID_DESCRIPTOR: i32 = -1;

/// What the provider knows of the discovery backend it wraps.
#[derive(Clone, Copy, Debug, PartialEq, Eq, Structural)]
pub struct Backend {
    /// The backend has a descriptor-typed property.
    pub supports_fd: bool,
    /// The value of that property, or [`INVALID_DESCRIPTOR`].
    pub fd_property: i32,
}

impl Backend {
    pub fn new(supports_fd: bool) -> (r: Backend)
        ensures
            r == (Backend { supports_fd, fd_property: INVALID_DESCRIPTOR }),
    {
        Backend { supports_fd, fd_property: INVALID_DESCRIPTOR }
    }
}

/// A change of the list: at `position`, `removed` entries went and `added`
/// entries came.
#[derive(Clone, Copy, Debug, PartialEq, Eq, Structural)]
pub struct ListChange {
    pub position: usize,
    pub removed: usize,
    pub added: usize,
}

/// A notification for the provider's observers, in the order it was raised.
#[derive(Debug)]
pub enum ProviderEvent {
    ItemsChanged(ListChange),
    CameraAdded(Camera),
    CameraRemoved(Camera),
    StartedChanged,
}

/// A notification as plain values.
pub enum EventView {
    ItemsChanged(ListChange),
    CameraAdded(CameraView),
    CameraRemoved(CameraView),
    StartedChanged,
}

impl View for ProviderEvent {
    type V = EventView;

    open spec fn view(&self) -> EventView {
        match self {
            ProviderEvent::ItemsChanged(c) => EventView::ItemsChanged(*c),
            ProviderEvent::CameraAdded(c) => EventView::CameraAdded(c@),
            ProviderEvent::CameraRemoved(c) => EventView::CameraRemoved(c@),
            ProviderEvent::StartedChanged => EventView::StartedChanged,
        }
    }
}

/// A message from the backend's bus, as plain values.
#[derive(Debug)]
pub enum BusMessage {
    /// The backend reports an error.
    Error { source: Option<String>, message: String, debug: Option<String> },
    /// The backend found a device.
    DeviceAdded(Camera),
    /// A device went away.
    DeviceRemoved(Camera),
    /// Any other kind of message.
    Other,
}

/// What handling one bus message did.
#[derive(Clone, Copy, Debug, PartialEq, Eq, Structural)]
pub enum MessageOutcome {
    /// Nothing changed.
    Ignored,
    /// The message was a backend error, to be logged; nothing changed.
    BackendError,
    /// A camera was appended at this position.
    Added(usize),
    /// The camera at this position was removed.
    Removed(usize),
    /// The device to remove was not listed; nothing changed.
    UnknownRemoval,
}

/// The provider's state as plain values.
pub struct ProviderView {
    pub backend: Option<Backend>,
    pub cameras: Seq<CameraView>,
    pub descriptor: Option<i32>,
    pub started: bool,
    pub events: Seq<EventView>,
}

/// The views of a sequence of notifications.
pub open spec fn event_views(s: Seq<ProviderEvent>) -> Seq<EventView> {
    s.map_values(|e: ProviderEvent| e@)
}

/// The state after `c` was appended, with its two notifications.
pub open spec fn after_append(v: ProviderView, c: CameraView) -> ProviderView {
    ProviderView {
        cameras: v.cameras.push(c),
        events: v.events.push(
            EventView::ItemsChanged(
                ListChange { position: v.cameras.len() as usize, removed: 0, added: 1 },
            ),
        ).push(EventView::CameraAdded(c)),
        ..v
    }
}

/// The state after the entry at `p` was removed, with its two notifications.
pub open spec fn after_removal(v: ProviderView, p: int) -> ProviderView {
    ProviderView {
        cameras: v.cameras.remove(p),
        events: v.events.push(
            EventView::ItemsChanged(ListChange { position: p as usize, removed: 1, added: 0 }),
        ).push(EventView::CameraRemoved(v.cameras[p])),
        ..v
    }
}

/// The state after a successful backend start with the snapshot `devices`:
/// the list replaced at once by the filtered snapshot, with the replacement
/// and the started notifications.
pub open spec fn after_start(v: ProviderView, devices: Seq<CameraView>) -> ProviderView {
    ProviderView {
        cameras: snapshot_list(devices),
        started: true,
        events: v.events.push(
            EventView::ItemsChanged(
                ListChange {
                    position: 0,
                    removed: v.cameras.len() as usize,
                    added: snapshot_list(devices).len() as usize,
                },
            ),
        ).push(EventView::StartedChanged),
        ..v
    }
}

/// What `start` returns, and the state it leaves, from state `v` when the
/// backend's start would give `outcome`: once started nothing changes;
/// without a backend the plugin is missing; otherwise the snapshot is
/// taken in, or the backend's error is handed back with nothing changed.
pub open spec fn start_result(v: ProviderView, outcome: Result<Vec<Camera>, String>) -> (
    Result<(), ProviderError>,
    ProviderView,
) {
    if v.started {
        (Ok(()), v)
    } else if v.backend.is_none() {
        (Err(ProviderError::MissingPlugin), v)
    } else {
        match outcome {
            Ok(devices) => (Ok(()), after_start(v, views_of(devices@))),
            Err(e) => (Err(ProviderError::BackendStart(e)), v),
        }
    }
}

/// Whether a start from `v` calls the backend.
pub open spec fn start_calls_backend(v: ProviderView) -> bool {
    !v.started && v.backend.is_some()
}

/// What `set_fd(fd)` returns, and the state it leaves, from state `v`.
pub open spec fn set_fd_result(v: ProviderView, fd: i32) -> (Result<(), PipewireError>, ProviderView) {
    if v.started {
        (Err(PipewireError::ProvidedStarted), v)
    } else if v.backend.is_none() || !v.backend.unwrap().supports_fd {
        (Err(PipewireError::OldVersion), v)
    } else {
        (
            Ok(()),
            ProviderView {
                backend: Some(Backend { fd_property: fd, ..v.backend.unwrap() }),
                descriptor: Some(fd),
                ..v
            },
        )
    }
}

/// What handling `msg` in state `v` does: `r` is the outcome and `w` the
/// state after it.
pub open spec fn message_handled(
    v: ProviderView,
    msg: BusMessage,
    r: MessageOutcome,
    w: ProviderView,
) -> bool {
    match msg {
        BusMessage::Error { .. } => r == MessageOutcome::BackendError && w == v,
        BusMessage::Other => r == MessageOutcome::Ignored && w == v,
        BusMessage::DeviceAdded(c) => if admitted(c@) && !holds_identity(
            v.cameras,
            c.target_object,
        ) {
            r == MessageOutcome::Added(v.cameras.len() as usize) && w == after_append(v, c@)
        } else {
            r == MessageOutcome::Ignored && w == v
        },
        BusMessage::DeviceRemoved(c) => if c@.device_class != video_source_class() {
            r == MessageOutcome::Ignored && w == v
        } else if holds_identity(v.cameras, c.target_object) {
            match r {
                MessageOutcome::Removed(p) => {
                    &&& first_position(v.cameras, c.target_object, p as int)
                    &&& w == after_removal(v, p as int)
                },
                _ => false,
            }
        } else {
            r == MessageOutcome::UnknownRemoval && w == v
        },
    }
}

/// The discovery backend, the tracked cameras in discovery order, the
/// media-remote descriptor, the one-way started latch, the default-camera
/// selector and the notifications not yet handed out.
pub struct DeviceProvider<F> {
    backend: Option<Backend>,
    cameras: Vec<Camera>,
    descriptor: Option<i32>,
    started: bool,
    default_cb: Option<F>,
    events: Vec<ProviderEvent>,
}

impl<F> View for DeviceProvider<F> {
    type V = ProviderView;

    closed spec fn view(&self) -> ProviderView {
        ProviderView {
            backend: self.backend,
            cameras: views_of(self.cameras@),
            descriptor: self.descriptor,
            started: self.started,
            events: event_views(self.events@),
        }
    }
}

impl<F: Fn(&Camera) -> bool> DeviceProvider<F> {
    /// The records behind the view, in list order.
    pub closed spec fn records(&self) -> Seq<Camera> {
        self.cameras@
    }

    /// The selector given at start, if any.
    pub closed spec fn selector(&self) -> Option<F> {
        self.default_cb
    }

    /// The provider's invariant: the list is admitted and duplicate-free,
    /// only a present backend can have started, a stored descriptor is the
    /// backend's descriptor property, and a stored selector accepts every
    /// record.
    pub open spec fn wf(&self) -> bool {
        &&& well_formed_list(self@.cameras)
        &&& views_of(self.records()) == self@.cameras
        &&& self@.started ==> self@.backend.is_some()
        &&& self@.descriptor.is_some() ==> {
            &&& self@.backend.is_some()
            &&& self@.backend.unwrap().fd_property == self@.descriptor.unwrap()
        }
        &&& !self@.started ==> self.selector().is_none()
        &&& self.selector().is_some() ==> forall|c: &Camera|
            #[trigger] self.selector().unwrap().requires((c,))
    }

    /// A provider around `backend`, absent when the discovery plugin is
    /// not installed.
    pub fn new(backend: Option<Backend>) -> (r: Self)
        ensures
            r.wf(),
            r@ == (ProviderView {
                backend,
                cameras: Seq::empty(),
                descriptor: None,
                started: false,
                events: Seq::empty(),
            }),
            r.selector().is_none(),
    {
        let r = DeviceProvider {
            backend,
            cameras: Vec::new(),
            descriptor: None,
            started: false,
            default_cb: None,
            events: Vec::new(),
        };
        proof {
            assert(r@.cameras =~= Seq::empty());
            assert(r@.events =~= Seq::empty());
        }
        r
    }

    /// Whether discovery has started.
    pub fn is_started(&self) -> (r: bool)
        ensures
            r == self@.started,
    {
        self.started
    }

    /// The number of tracked cameras.
    pub fn n_items(&self) -> (r: usize)
        requires
            self.wf(),
        ensures
            r == self@.cameras.len(),
    {
        self.cameras.len()
    }

    /// The camera at `position`, or `None` past the end of the list.
    pub fn item(&self, position: u32) -> (r: Option<&Camera>)
        requires
            self.wf(),
        ensures
            match r {
                Some(c) => position < self@.cameras.len() && c@ == self@.cameras[position as int],
                None => position >= self@.cameras.len(),
            },
    {
        let i: usize = position as usize;
        if i < self.cameras.len() {
            Some(&self.cameras[i])
        } else {
            None
        }
    }

    /// A copy of the camera at `position`, or `None` past the end of the list.
    pub fn camera(&self, position: u32) -> (r: Option<Camera>)
        requires
            self.wf(),
        ensures
            match r {
                Some(c) => position < self@.cameras.len() && c@ == self@.cameras[position as int],
                None => position >= self@.cameras.len(),
            },
    {
        match self.item(position) {
            Some(c) => Some(c.duplicate()),
            None => None,
        }
    }

    /// Whether a camera with the identity of `camera` is listed.
    pub fn has_camera(&self, camera: &Camera) -> (r: bool)
        requires
            self.wf(),
        ensures
            r == holds_identity(self@.cameras, camera.target_object),
    {
        position_of(&self.cameras, camera.target_object).is_some()
    }

    /// Appends `camera` and raises the insertion and the camera-added
    /// notifications.
    pub fn append(&mut self, camera: Camera)
        requires
            old(self).wf(),
            admitted(camera@),
            !holds_identity(old(self)@.cameras, camera@.target_object),
        ensures
            final(self).wf(),
            final(self)@ == after_append(old(self)@, camera@),
            final(self).selector() == old(self).selector(),
    {
        let pos: usize = self.cameras.len();
        let copy = camera.duplicate();
        self.cameras.push(camera);
        self.events.push(
            ProviderEvent::ItemsChanged(ListChange { position: pos, removed: 0, added: 1 }),
        );
        self.events.push(ProviderEvent::CameraAdded(copy));
        proof {
            let v = old(self)@;
            assert(views_of(self.cameras@) =~= v.cameras.push(camera@));
            assert(event_views(self.events@) =~= after_append(v, camera@).events);
            let s = self@.cameras;
            assert forall|i: int, j: int|
                0 <= i < s.len() && 0 <= j < s.len() && i != j implies #[trigger] s[i].target_object
                != #[trigger] s[j].target_object by {
                if i == s.len() - 1 {
                    assert(v.cameras[j].target_object == s[j].target_object);
                } else if j == s.len() - 1 {
                    assert(v.cameras[i].target_object == s[i].target_object);
                }
            }
        }
    }

    /// Removes the listed camera with the identity of `camera`, raising the
    /// removal and the camera-removed notifications, and returns its
    /// position; returns `None`, with nothing changed, when none is listed.
    pub fn remove(&mut self, camera: &Camera) -> (r: Option<usize>)
        requires
            old(self).wf(),
        ensures
            final(self).wf(),
            final(self).selector() == old(self).selector(),
            match r {
                Some(p) => {
                    &&& first_position(old(self)@.cameras, camera.target_object, p as int)
                    &&& final(self)@ == after_removal(old(self)@, p as int)
                },
                None => {
                    &&& !holds_identity(old(self)@.cameras, camera.target_object)
                    &&& final(self)@ == old(self)@
                },
            },
    {
        match position_of(&self.cameras, camera.target_object) {
            None => None,
            Some(p) => {
                let removed = self.cameras.remove(p);
                self.events.push(
                    ProviderEvent::ItemsChanged(ListChange { position: p, removed: 1, added: 0 }),
                );
                self.events.push(ProviderEvent::CameraRemoved(removed));
                proof {
                    let v = old(self)@;
                    assert(views_of(self.cameras@) =~= v.cameras.remove(p as int));
                    assert(event_views(self.events@) =~= after_removal(v, p as int).events);
                    let s = self@.cameras;
                    assert forall|i: int, j: int|
                        0 <= i < s.len() && 0 <= j < s.len() && i != j implies #[trigger] s[i].target_object
                        != #[trigger] s[j].target_object by {
                        let oi = if i < p { i } else { i + 1 };
                        let oj = if j < p { j } else { j + 1 };
                        assert(s[i] == v.cameras[oi]);
                        assert(s[j] == v.cameras[oj]);
                    }
                    assert forall|i: int| 0 <= i < s.len() implies admitted(#[trigger] s[i]) by {
                        let oi = if i < p { i } else { i + 1 };
                        assert(s[i] == v.cameras[oi]);
                    }
                }
                Some(p)
            },
        }
    }
    /// Takes in the outcome of the backend's start: on success the filtered
    /// snapshot replaces the list, `selector` is stored and the latch is
    /// set; on failure the backend's error is returned and nothing changes.
    pub fn complete_start(
        &mut self,
        selector: Option<F>,
        outcome: Result<Vec<Camera>, String>,
    ) -> (r: Result<(), ProviderError>)
        requires
            old(self).wf(),
            !old(self)@.started,
            old(self)@.backend.is_some(),
            selector.is_some() ==> forall|c: &Camera| #[trigger] selector.unwrap().requires((c,)),
        ensures
            final(self).wf(),
            (r, final(self)@) == start_result(old(self)@, outcome),
            r.is_ok() ==> final(self).selector() == selector,
            r.is_err() ==> final(self).selector() == old(self).selector(),
    {
        match outcome {
            Err(e) => Err(ProviderError::BackendStart(e)),
            Ok(devices) => {
                let cameras = snapshot_cameras(&devices);
                let removed: usize = self.cameras.len();
                let added: usize = cameras.len();
                self.cameras = cameras;
                self.events.push(
                    ProviderEvent::ItemsChanged(ListChange { position: 0, removed, added }),
                );
                self.default_cb = selector;
                self.started = true;
                self.events.push(ProviderEvent::StartedChanged);
                proof {
                    lemma_snapshot_well_formed(views_of(devices@));
                    assert(event_views(self.events@) =~= after_start(
                        old(self)@,
                        views_of(devices@),
                    ).events);
                }
                Ok(())
            },
        }
    }

    /// Starts discovery once, with `selector` as the default-camera
    /// selector; `start_backend` starts the backend and returns its
    /// snapshot, and is called only on a first start with the backend
    /// present. Later calls succeed and change nothing.
    fn start_once<B: FnOnce() -> Result<Vec<Camera>, String>>(
        &mut self,
        selector: Option<F>,
        start_backend: B,
    ) -> (r: Result<(), ProviderError>)
        requires
            old(self).wf(),
            start_backend.requires(()),
            selector.is_some() ==> forall|c: &Camera| #[trigger] selector.unwrap().requires((c,)),
        ensures
            final(self).wf(),
            exists|outcome: Result<Vec<Camera>, String>|
                {
                    &&& start_calls_backend(old(self)@) ==> start_backend.ensures((), outcome)
                    &&& (r, final(self)@) == #[trigger] start_result(old(self)@, outcome)
                },
            r.is_ok() && !old(self)@.started ==> final(self).selector() == selector,
            r.is_err() || old(self)@.started ==> final(self).selector() == old(self).selector(),
    {
        if self.started {
            proof {
                let ghost o: Result<Vec<Camera>, String> = arbitrary();
                assert(start_result(old(self)@, o) == (Ok::<(), ProviderError>(()), self@));
            }
            return Ok(());
        }
        if self.backend.is_none() {
            proof {
                let ghost o: Result<Vec<Camera>, String> = arbitrary();
                assert(start_result(old(self)@, o) == (
                    Err::<(), ProviderError>(ProviderError::MissingPlugin),
                    self@,
                ));
            }
            return Err(ProviderError::MissingPlugin);
        }
        let outcome = start_backend();
        let r = self.complete_start(selector, outcome);
        proof {
            assert((r, self@) == start_result(old(self)@, outcome));
        }
        r
    }

    /// Starts discovery with `f` as the default-camera selector; see
    /// [`DeviceProvider::start`].
    pub fn start_with_default<B: FnOnce() -> Result<Vec<Camera>, String>>(
        &mut self,
        f: F,
        start_backend: B,
    ) -> (r: Result<(), ProviderError>)
        requires
            old(self).wf(),
            start_backend.requires(()),
            forall|c: &Camera| #[trigger] f.requires((c,)),
        ensures
            final(self).wf(),
            exists|outcome: Result<Vec<Camera>, String>|
                {
                    &&& start_calls_backend(old(self)@) ==> start_backend.ensures((), outcome)
                    &&& (r, final(self)@) == #[trigger] start_result(old(self)@, outcome)
                },
            r.is_ok() && !old(self)@.started ==> final(self).selector() == Some(f),
            r.is_err() || old(self)@.started ==> final(self).selector() == old(self).selector(),
    {
        self.start_once(Some(f), start_backend)
    }

    /// Starts discovery: on the first call with the backend present,
    /// `start_backend` starts the backend and returns its snapshot; the
    /// filtered snapshot replaces the list and the provider is started,
    /// with no default-camera selector. Once started, a call succeeds and
    /// changes nothing. Without a backend it fails with
    /// [`ProviderError::MissingPlugin`]; a backend error is returned as it
    /// came, and a later call may try again.
    pub fn start<B: FnOnce() -> Result<Vec<Camera>, String>>(&mut self, start_backend: B) -> (r:
        Result<(), ProviderError>)
        requires
            old(self).wf(),
            start_backend.requires(()),
        ensures
            final(self).wf(),
            exists|outcome: Result<Vec<Camera>, String>|
                {
                    &&& start_calls_backend(old(self)@) ==> start_backend.ensures((), outcome)
                    &&& (r, final(self)@) == #[trigger] start_result(old(self)@, outcome)
                },
            final(self).selector() == old(self).selector(),
    {
        self.start_once(None, start_backend)
    }

    /// Hands the media-remote descriptor `fd` to the backend and keeps it.
    /// Fails with [`PipewireError::ProvidedStarted`] once discovery has
    /// started, and with [`PipewireError::OldVersion`] when the backend has
    /// no descriptor property; a failure changes nothing.
    pub fn set_fd(&mut self, fd: i32) -> (r: Result<(), PipewireError>)
        requires
            old(self).wf(),
            fd >= 0,
        ensures
            final(self).wf(),
            final(self).selector() == old(self).selector(),
            (r, final(self)@) == set_fd_result(old(self)@, fd),
    {
        if self.started {
            return Err(PipewireError::ProvidedStarted);
        }
        match self.backend {
            Some(b) => {
                if b.supports_fd {
                    self.backend = Some(Backend { fd_property: fd, ..b });
                    self.descriptor = Some(fd);
                    Ok(())
                } else {
                    Err(PipewireError::OldVersion)
                }
            },
            None => Err(PipewireError::OldVersion),
        }
    }

    /// The first listed camera that the stored selector accepts; `None`
    /// when no selector was given or none accepts.
    pub fn default_camera(&self) -> (r: Option<Camera>)
        requires
            self.wf(),
        ensures
            self.selector().is_none() ==> r.is_none(),
            self.selector().is_some() ==> match r {
                Some(c) => exists|i: int|
                    {
                        &&& 0 <= i < self.records().len()
                        &&& c@ == #[trigger] self@.cameras[i]
                        &&& self.selector().unwrap().ensures((&self.records()[i],), true)
                        &&& forall|j: int|
                            0 <= j < i ==> self.selector().unwrap().ensures(
                                (&#[trigger] self.records()[j],),
                                false,
                            )
                    },
                None => forall|j: int|
                    0 <= j < self.records().len() ==> self.selector().unwrap().ensures(
                        (&#[trigger] self.records()[j],),
                        false,
                    ),
            },
    {
        match &self.default_cb {
            None => None,
            Some(f) => {
                let n: usize = self.cameras.len();
                let mut i: usize = 0;
                while i < n
                    invariant
                        self.wf(),
                        self.default_cb == Some(*f),
                        n == self.records().len(),
                        i <= n,
                        forall|j: int|
                            0 <= j < i ==> f.ensures((&#[trigger] self.records()[j],), false),
                    decreases n - i,
                {
                    proof {
                        let c = &self.records()[i as int];
                        assert(self.selector().unwrap().requires((c,)));
                    }
                    if f(&self.cameras[i]) {
                        proof {
                            assert(self@.cameras[i as int] == self.records()[i as int]@);
                        }
                        return Some(self.cameras[i].duplicate());
                    }
                    i = i + 1;
                }
                None
            },
        }
    }

    /// Applies one message of the backend's bus, in delivery order: an
    /// added camera is appended unless it is filtered out or already
    /// listed, a removed camera is taken out of the list, an unknown
    /// removal and a backend error are reported and change nothing.
    pub fn handle_message(&mut self, msg: BusMessage) -> (r: MessageOutcome)
        requires
            old(self).wf(),
            old(self)@.started,
        ensures
            final(self).wf(),
            final(self).selector() == old(self).selector(),
            message_handled(old(self)@, msg, r, final(self)@),
    {
        match msg {
            BusMessage::Error { .. } => MessageOutcome::BackendError,
            BusMessage::Other => MessageOutcome::Ignored,
            BusMessage::DeviceAdded(camera) => {
                if !is_video_source(&camera.device_class) {
                    return MessageOutcome::Ignored;
                }
                if self.has_camera(&camera) {
                    return MessageOutcome::Ignored;
                }
                if camera.infrared {
                    return MessageOutcome::Ignored;
                }
                let pos: usize = self.cameras.len();
                self.append(camera);
                MessageOutcome::Added(pos)
            },
            BusMessage::DeviceRemoved(camera) => {
                if !is_video_source(&camera.device_class) {
                    return MessageOutcome::Ignored;
                }
                match self.remove(&camera) {
                    Some(p) => MessageOutcome::Removed(p),
                    None => MessageOutcome::UnknownRemoval,
                }
            },
        }
    }

    /// Hands out the notifications raised so far, oldest first, and forgets
    /// them.
    pub fn take_events(&mut self) -> (r: Vec<ProviderEvent>)
        requires
            old(self).wf(),
        ensures
            final(self).wf(),
            final(self).selector() == old(self).selector(),
            event_views(r@) == old(self)@.events,
            final(self)@ == (ProviderView { events: Seq::empty(), ..old(self)@ }),
    {
        let mut taken: Vec<ProviderEvent> = Vec::new();
        std::mem::swap(&mut taken, &mut self.events);
        proof {
            assert(event_views(self.events@) =~= Seq::empty());
        }
        taken
    }

    /// Prepares the provider's teardown: the backend's descriptor property
    /// is reset to [`INVALID_DESCRIPTOR`] and the descriptor is dropped.
    /// Returns whether the backend is running and has to be stopped.
    pub fn dispose(&mut self) -> (stop_backend: bool)
        requires
            old(self).wf(),
        ensures
            final(self).wf(),
            final(self).selector() == old(self).selector(),
            stop_backend == (old(self)@.started && old(self)@.backend.is_some()),
            final(self)@ == (ProviderView {
                backend: match old(self)@.backend {
                    Some(b) => Some(Backend { fd_property: INVALID_DESCRIPTOR, ..b }),
                    None => None,
                },
                descriptor: None,
                ..old(self)@
            }),
    {
        let stop_backend = self.started && self.backend.is_some();
        match self.backend {
            Some(b) => {
                self.backend = Some(Backend { fd_property: INVALID_DESCRIPTOR, ..b });
            },
            None => {},
        }
        self.descriptor = None;
        stop_backend
    }
}

} // verus!
