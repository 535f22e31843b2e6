use aperture::camera::{is_video_source, snapshot_cameras};
use aperture::provider::INVALID_DESCRIPTOR;
use aperture::{
    Backend, BusMessage, Camera, DeviceProvider, ListChange, MessageOutcome, PipewireError,
    ProviderError, ProviderEvent,
};

type Selector = fn(&Camera) -> bool;

fn cam(name: &str, class: &str, id: u64) -> Camera {
    Camera::new(name.to_string(), class.to_string(), id, false, Vec::new())
}

fn video(name: &str, id: u64) -> Camera {
    cam(name, "Video/Source", id)
}

fn names(p: &DeviceProvider<impl Fn(&Camera) -> bool>) -> Vec<String> {
    (0..p.n_items() as u32)
        .map(|i| p.camera(i).unwrap().display_name().clone())
        .collect()
}

fn changes(events: &[ProviderEvent]) -> Vec<ListChange> {
    events
        .iter()
        .filter_map(|e| match e {
            ProviderEvent::ItemsChanged(c) => Some(*c),
            _ => None,
        })
        .collect()
}

fn started_with(devices: Vec<Camera>) -> DeviceProvider<Selector> {
    let mut p: DeviceProvider<Selector> = DeviceProvider::new(Some(Backend::new(true)));
    p.start(move || Ok(devices)).unwrap();
    p.take_events();
    p
}

#[test]
fn end_to_end_add_and_remove() {
    let mut p: DeviceProvider<Selector> = DeviceProvider::new(Some(Backend::new(true)));
    assert!(p.start(|| Ok(vec![video("CamX", 1)])).is_ok());
    assert_eq!(names(&p), vec!["CamX"]);
    let ev = p.take_events();
    assert_eq!(changes(&ev), vec![ListChange { position: 0, removed: 0, added: 1 }]);
    assert!(matches!(ev.last(), Some(ProviderEvent::StartedChanged)));

    let r = p.handle_message(BusMessage::DeviceAdded(video("CamY", 2)));
    assert_eq!(r, MessageOutcome::Added(1));
    assert_eq!(names(&p), vec!["CamX", "CamY"]);
    let ev = p.take_events();
    assert_eq!(changes(&ev), vec![ListChange { position: 1, removed: 0, added: 1 }]);
    assert!(matches!(&ev[1], ProviderEvent::CameraAdded(c) if c.display_name() == "CamY"));

    let r = p.handle_message(BusMessage::DeviceRemoved(video("CamX", 1)));
    assert_eq!(r, MessageOutcome::Removed(0));
    assert_eq!(names(&p), vec!["CamY"]);
    let ev = p.take_events();
    assert_eq!(changes(&ev), vec![ListChange { position: 0, removed: 1, added: 0 }]);
    assert!(matches!(&ev[1], ProviderEvent::CameraRemoved(c) if c.display_name() == "CamX"));
}

#[test]
fn start_twice_succeeds_and_sets_up_once() {
    let mut p: DeviceProvider<Selector> = DeviceProvider::new(Some(Backend::new(true)));
    let mut calls = 0;
    assert!(p.start(|| {
        calls += 1;
        Ok(vec![video("A", 1)])
    })
    .is_ok());
    let first = p.take_events().len();
    assert!(p.start(|| {
        calls += 1;
        Ok(vec![video("B", 2)])
    })
    .is_ok());
    assert_eq!(calls, 1);
    assert_eq!(first, 2);
    assert!(p.take_events().is_empty());
    assert_eq!(names(&p), vec!["A"]);
    assert!(p.is_started());
}

#[test]
fn start_without_plugin_fails() {
    let mut p: DeviceProvider<Selector> = DeviceProvider::new(None);
    let r = p.start(|| panic!("the backend must not be started"));
    assert!(matches!(r, Err(ProviderError::MissingPlugin)));
    assert!(!p.is_started());
    assert!(p.take_events().is_empty());
}

#[test]
fn backend_failure_is_returned_and_start_can_be_retried() {
    let mut p: DeviceProvider<Selector> = DeviceProvider::new(Some(Backend::new(true)));
    let r = p.start(|| Err("device busy".to_string()));
    match r {
        Err(ProviderError::BackendStart(m)) => assert_eq!(m, "device busy"),
        _ => panic!("expected the backend's error"),
    }
    assert!(!p.is_started());
    assert!(p.start(|| Ok(vec![video("A", 1)])).is_ok());
    assert!(p.is_started());
    assert_eq!(names(&p), vec!["A"]);
}

#[test]
fn added_twice_is_listed_once() {
    let mut p = started_with(vec![]);
    assert_eq!(p.handle_message(BusMessage::DeviceAdded(video("A", 7))), MessageOutcome::Added(0));
    assert_eq!(
        p.handle_message(BusMessage::DeviceAdded(video("A again", 7))),
        MessageOutcome::Ignored
    );
    assert_eq!(p.n_items(), 1);
    assert_eq!(p.take_events().len(), 2);
}

#[test]
fn other_classes_and_infrared_are_filtered() {
    let ir = Camera::new("IR".to_string(), "Video/Source".to_string(), 3, true, Vec::new());
    let ir2 = Camera::new("IR".to_string(), "Video/Source".to_string(), 4, true, Vec::new());
    let mut p = started_with(vec![cam("Mic", "Audio/Source", 1), ir, video("Cam", 2)]);
    assert_eq!(names(&p), vec!["Cam"]);
    assert_eq!(
        p.handle_message(BusMessage::DeviceAdded(cam("Sink", "Video/Sink", 5))),
        MessageOutcome::Ignored
    );
    assert_eq!(p.handle_message(BusMessage::DeviceAdded(ir2)), MessageOutcome::Ignored);
    assert_eq!(names(&p), vec!["Cam"]);
    assert!(p.take_events().is_empty());
}

#[test]
fn snapshot_keeps_first_of_each_identity() {
    let devices = vec![video("A", 1), video("B", 2), video("A copy", 1), cam("X", "Audio/Sink", 3)];
    let kept = snapshot_cameras(&devices);
    let kept: Vec<&str> = kept.iter().map(|c| c.display_name().as_str()).collect();
    assert_eq!(kept, vec!["A", "B"]);
}

#[test]
fn snapshot_replacement_reports_its_size() {
    let mut p: DeviceProvider<Selector> = DeviceProvider::new(Some(Backend::new(false)));
    p.start(|| Ok(vec![video("A", 1), video("B", 2), video("C", 3)])).unwrap();
    let ev = p.take_events();
    assert_eq!(changes(&ev), vec![ListChange { position: 0, removed: 0, added: 3 }]);
}

#[test]
fn unknown_removal_changes_nothing() {
    let mut p = started_with(vec![video("A", 1), video("B", 2)]);
    assert_eq!(
        p.handle_message(BusMessage::DeviceRemoved(video("Z", 9))),
        MessageOutcome::UnknownRemoval
    );
    assert_eq!(
        p.handle_message(BusMessage::DeviceRemoved(cam("A", "Audio/Source", 1))),
        MessageOutcome::Ignored
    );
    assert_eq!(names(&p), vec!["A", "B"]);
    assert!(p.take_events().is_empty());
}

#[test]
fn removal_in_the_middle_keeps_order() {
    let mut p = started_with(vec![video("A", 1), video("B", 2), video("C", 3), video("D", 4)]);
    assert_eq!(p.handle_message(BusMessage::DeviceRemoved(video("B", 2))), MessageOutcome::Removed(1));
    assert_eq!(names(&p), vec!["A", "C", "D"]);
    let ev = p.take_events();
    assert_eq!(changes(&ev), vec![ListChange { position: 1, removed: 1, added: 0 }]);
}

#[test]
fn errors_and_other_messages_change_nothing() {
    let mut p = started_with(vec![video("A", 1)]);
    let err = BusMessage::Error {
        source: Some("/pipeline".to_string()),
        message: "failure".to_string(),
        debug: None,
    };
    assert_eq!(p.handle_message(err), MessageOutcome::BackendError);
    assert_eq!(p.handle_message(BusMessage::Other), MessageOutcome::Ignored);
    assert_eq!(names(&p), vec!["A"]);
    assert!(p.take_events().is_empty());
}

fn on_bus(name: &str, id: u64, bus: &str) -> Camera {
    let props = vec![("device.bus".to_string(), bus.to_string())];
    Camera::new(name.to_string(), "Video/Source".to_string(), id, false, props)
}

fn bus_is_usb(c: &Camera) -> bool {
    c.properties().iter().any(|(k, v)| k == "device.bus" && v.contains("USB"))
}

#[test]
fn default_camera_is_first_match() {
    let mut p = DeviceProvider::new(Some(Backend::new(true)));
    let devices = vec![on_bus("CamA", 1, "PCI"), on_bus("CamB", 2, "USB"), on_bus("CamC", 3, "USB")];
    p.start_with_default(bus_is_usb, || Ok(devices)).unwrap();
    assert_eq!(p.default_camera().unwrap().display_name(), "CamB");
}

#[test]
fn default_camera_none_when_nothing_matches() {
    let mut p = DeviceProvider::new(Some(Backend::new(true)));
    p.start_with_default(bus_is_usb, || Ok(vec![on_bus("CamA", 1, "PCI")])).unwrap();
    assert!(p.default_camera().is_none());
}

#[test]
fn no_default_camera_without_selector() {
    let p = started_with(vec![video("A", 1)]);
    assert!(p.default_camera().is_none());
}

#[test]
fn descriptor_refused_after_start() {
    let mut p: DeviceProvider<Selector> = DeviceProvider::new(Some(Backend::new(true)));
    assert_eq!(p.set_fd(5), Ok(()));
    p.start(|| Ok(vec![])).unwrap();
    assert_eq!(p.set_fd(6), Err(PipewireError::ProvidedStarted));
    assert!(p.dispose());
}

#[test]
fn descriptor_refused_by_old_backend() {
    let mut p: DeviceProvider<Selector> = DeviceProvider::new(Some(Backend::new(false)));
    assert_eq!(p.set_fd(5), Err(PipewireError::OldVersion));
    let mut q: DeviceProvider<Selector> = DeviceProvider::new(None);
    assert_eq!(q.set_fd(5), Err(PipewireError::OldVersion));
    assert!(!q.dispose());
}

#[test]
fn dispose_resets_descriptor() {
    let mut p: DeviceProvider<Selector> = DeviceProvider::new(Some(Backend::new(true)));
    p.set_fd(8).unwrap();
    assert!(!p.dispose());
    assert_eq!(INVALID_DESCRIPTOR, -1);
}

#[test]
fn item_out_of_range_is_none() {
    let p = started_with(vec![video("A", 1)]);
    assert!(p.item(0).is_some());
    assert!(p.item(1).is_none());
    assert!(p.camera(u32::MAX).is_none());
}

#[test]
fn has_camera_goes_by_identity() {
    let p = started_with(vec![video("A", 1)]);
    assert!(p.has_camera(&video("renamed", 1)));
    assert!(!p.has_camera(&video("A", 2)));
}

#[test]
fn class_check_is_exact() {
    assert!(is_video_source(&"Video/Source".to_string()));
    assert!(!is_video_source(&"Video/Source ".to_string()));
    assert!(!is_video_source(&"video/source".to_string()));
    assert!(!is_video_source(&String::new()));
}

#[test]
fn duplicate_copies_every_field() {
    let c = Camera::new(
        "Cam".to_string(),
        "Video/Source".to_string(),
        42,
        true,
        vec![("api".to_string(), "v4l2".to_string())],
    );
    let d = c.duplicate();
    assert_eq!(d.display_name(), "Cam");
    assert_eq!(d.target_object(), 42);
    assert!(d.is_infrared());
    assert_eq!(d.properties(), &vec![("api".to_string(), "v4l2".to_string())]);
    assert!(c.same_device(&d));
}

#[test]
fn error_messages() {
    assert_eq!(ProviderError::BackendStart("busy".to_string()).message(), "busy");
    assert!(!ProviderError::MissingPlugin.message().is_empty());
    assert!(!PipewireError::OldVersion.message().is_empty());
    assert_ne!(PipewireError::OldVersion.message(), PipewireError::ProvidedStarted.message());
}
