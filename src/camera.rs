use vstd::prelude::*;

verus! {

/// The device class that backends report for camera video sources.
pub open spec fn video_source_class() -> Seq<char> {
    "Video/Source"@
}

/// One device reported by the discovery backend.
///
/// Two records describe the same device exactly when their target objects
/// are equal; the display name, the class and the properties are not part
/// of the identity.
#[derive(Debug)]
pub struct Camera {
    pub display_name: String,
    pub device_class: String,
    pub target_object: u64,
    pub infrared: bool,
    pub properties: Vec<(String, String)>,
}

/// What a [`Camera`] holds, as plain values.
pub struct CameraView {
    pub display_name: Seq<char>,
    pub device_class: Seq<char>,
    pub target_object: u64,
    pub infrared: bool,
    pub properties: Seq<(Seq<char>, Seq<char>)>,
}

/// A property bag as pairs of character sequences.
pub open spec fn properties_view(p: Seq<(String, String)>) -> Seq<(Seq<char>, Seq<char>)> {
    p.map_values(|kv: (String, String)| (kv.0@, kv.1@))
}

impl View for Camera {
    type V = CameraView;

    open spec fn view(&self) -> CameraView {
        CameraView {
            display_name: self.display_name@,
            device_class: self.device_class@,
            target_object: self.target_object,
            infrared: self.infrared,
            properties: properties_view(self.properties@),
        }
    }
}

/// The record is a camera video source and is not an infrared sensor.
pub open spec fn admitted(c: CameraView) -> bool {
    c.device_class == video_source_class() && !c.infrared
}

/// Some entry of `s` has the target object `id`.
pub open spec fn holds_identity(s: Seq<CameraView>, id: u64) -> bool {
    exists|i: int| 0 <= i < s.len() && #[trigger] s[i].target_object == id
}

/// The list after the backend reports `c` as added: appended when it is an
/// admitted camera whose identity is not yet listed, unchanged otherwise.
pub open spec fn after_added(s: Seq<CameraView>, c: CameraView) -> Seq<CameraView> {
    if admitted(c) && !holds_identity(s, c.target_object) {
        s.push(c)
    } else {
        s
    }
}

/// The list built from a backend snapshot: each device in turn goes through
/// the same policy as an added device.
pub open spec fn snapshot_list(devices: Seq<CameraView>) -> Seq<CameraView>
    decreases devices.len(),
{
    if devices.len() == 0 {
        Seq::empty()
    } else {
        after_added(snapshot_list(devices.drop_last()), devices.last())
    }
}

/// No two entries share a target object.
pub open spec fn distinct_identities(s: Seq<CameraView>) -> bool {
    forall|i: int, j: int|
        0 <= i < s.len() && 0 <= j < s.len() && i != j ==> #[trigger] s[i].target_object
            != #[trigger] s[j].target_object
}

/// Every entry is admitted and no identity repeats.
pub open spec fn well_formed_list(s: Seq<CameraView>) -> bool {
    &&& forall|i: int| 0 <= i < s.len() ==> admitted(#[trigger] s[i])
    &&& distinct_identities(s)
}

/// `p` is the first position of `s` whose entry has the target object `id`.
pub open spec fn first_position(s: Seq<CameraView>, id: u64, p: int) -> bool {
    &&& 0 <= p < s.len()
    &&& s[p].target_object == id
    &&& forall|j: int| 0 <= j < p ==> #[trigger] s[j].target_object != id
}

/// The added-device policy keeps a well-formed list well formed.
pub proof fn lemma_after_added_well_formed(s: Seq<CameraView>, c: CameraView)
    requires
        well_formed_list(s),
    ensures
        well_formed_list(after_added(s, c)),
{
    if admitted(c) && !holds_identity(s, c.target_object) {
        let t = s.push(c);
        assert forall|i: int, j: int|
            0 <= i < t.len() && 0 <= j < t.len() && i != j implies #[trigger] t[i].target_object
            != #[trigger] t[j].target_object by {
            if i == s.len() {
                assert(s[j].target_object == t[j].target_object);
            } else if j == s.len() {
                assert(s[i].target_object == t[i].target_object);
            }
        }
        assert forall|i: int| 0 <= i < t.len() implies admitted(#[trigger] t[i]) by {
            if i < s.len() {
                assert(t[i] == s[i]);
            }
        }
    }
}

/// A list built from a snapshot is well formed, whatever the snapshot held.
pub proof fn lemma_snapshot_well_formed(devices: Seq<CameraView>)
    ensures
        well_formed_list(snapshot_list(devices)),
    decreases devices.len(),
{
    if devices.len() > 0 {
        lemma_snapshot_well_formed(devices.drop_last());
        lemma_after_added_well_formed(snapshot_list(devices.drop_last()), devices.last());
    }
}

/// The views of a sequence of records.
pub open spec fn views_of(s: Seq<Camera>) -> Seq<CameraView> {
    s.map_values(|c: Camera| c@)
}

/// The first position of `s` whose entry has the target object `id`.
pub fn position_of(s: &Vec<Camera>, id: u64) -> (r: Option<usize>)
    ensures
        match r {
            Some(p) => first_position(views_of(s@), id, p as int),
            None => !holds_identity(views_of(s@), id),
        },
{
    let n: usize = s.len();
    let mut i: usize = 0;
    while i < n
        invariant
            n == s@.len(),
            i <= n,
            forall|j: int| 0 <= j < i ==> #[trigger] s@[j].target_object != id,
        decreases n - i,
    {
        if s[i].target_object == id {
            return Some(i);
        }
        i = i + 1;
    }
    proof {
        assert forall|j: int| 0 <= j < views_of(s@).len() implies #[trigger] views_of(
            s@,
        )[j].target_object != id by {
            assert(s@[j].target_object != id);
        }
    }
    None
}

/// The cameras that a backend snapshot yields: the admitted devices, in
/// snapshot order, each identity kept at its first occurrence.
pub fn snapshot_cameras(devices: &Vec<Camera>) -> (r: Vec<Camera>)
    ensures
        views_of(r@) == snapshot_list(views_of(devices@)),
{
    let mut out: Vec<Camera> = Vec::new();
    let n: usize = devices.len();
    let mut i: usize = 0;
    proof {
        assert(views_of(devices@).subrange(0, 0) =~= Seq::<CameraView>::empty());
        assert(views_of(out@) =~= Seq::<CameraView>::empty());
    }
    while i < n
        invariant
            n == devices@.len(),
            i <= n,
            views_of(out@) == snapshot_list(views_of(devices@).subrange(0, i as int)),
        decreases n - i,
    {
        let d = &devices[i];
        let prefix = Ghost(views_of(devices@).subrange(0, i as int));
        let next = Ghost(views_of(devices@).subrange(0, i as int + 1));
        proof {
            assert(next@.drop_last() =~= prefix@);
            assert(next@.last() == d@);
        }
        if d.is_admitted() && position_of(&out, d.target_object).is_none() {
            let ghost before = out@;
            out.push(d.duplicate());
            proof {
                assert(views_of(out@) =~= views_of(before).push(d@));
            }
        }
        i = i + 1;
    }
    proof {
        assert(views_of(devices@).subrange(0, n as int) =~= views_of(devices@));
    }
    out
}

/// Whether `class` is the camera video-source class.
pub fn is_video_source(class: &String) -> (r: bool)
    ensures
        r == (class@ == video_source_class()),
{
    let expected: String = "Video/Source".to_owned();
    proof {
        reveal_strlit("Video/Source");
    }
    class.eq(&expected)
}

impl Camera {
    pub fn new(
        display_name: String,
        device_class: String,
        target_object: u64,
        infrared: bool,
        properties: Vec<(String, String)>,
    ) -> (r: Camera)
        ensures
            r@ == (CameraView {
                display_name: display_name@,
                device_class: device_class@,
                target_object,
                infrared,
                properties: properties_view(properties@),
            }),
    {
        Camera { display_name, device_class, target_object, infrared, properties }
    }

    pub fn display_name(&self) -> (r: &String)
        ensures
            r == self.display_name,
    {
        &self.display_name
    }

    pub fn device_class(&self) -> (r: &String)
        ensures
            r == self.device_class,
    {
        &self.device_class
    }

    pub fn target_object(&self) -> (r: u64)
        ensures
            r == self.target_object,
    {
        self.target_object
    }

    pub fn is_infrared(&self) -> (r: bool)
        ensures
            r == self.infrared,
    {
        self.infrared
    }

    pub fn properties(&self) -> (r: &Vec<(String, String)>)
        ensures
            r == self.properties,
    {
        &self.properties
    }

    /// Whether `self` and `other` are the same device.
    pub fn same_device(&self, other: &Camera) -> (r: bool)
        ensures
            r == (self.target_object == other.target_object),
    {
        self.target_object == other.target_object
    }

    /// Whether the record passes the class and infrared policy.
    pub fn is_admitted(&self) -> (r: bool)
        ensures
            r == admitted(self@),
    {
        is_video_source(&self.device_class) && !self.infrared
    }

    /// A field-by-field copy of the record.
    pub fn duplicate(&self) -> (r: Camera)
        ensures
            r@ == self@,
    {
        let mut properties: Vec<(String, String)> = Vec::new();
        let n: usize = self.properties.len();
        let mut i: usize = 0;
        while i < n
            invariant
                n == self.properties@.len(),
                i <= n,
                properties@ == self.properties@.subrange(0, i as int),
            decreases n - i,
        {
            let (key, value) = &self.properties[i];
            properties.push((key.clone(), value.clone()));
            proof {
                assert(self.properties@.subrange(0, i as int + 1) =~= self.properties@.subrange(
                    0,
                    i as int,
                ).push(self.properties@[i as int]));
            }
            i = i + 1;
        }
        proof {
            assert(properties@ =~= self.properties@);
            assert(properties_view(properties@) =~= properties_view(self.properties@));
        }
        Camera {
            display_name: self.display_name.clone(),
            device_class: self.device_class.clone(),
            target_object: self.target_object,
            infrared: self.infrared,
            properties,
        }
    }
}

} // verus!
