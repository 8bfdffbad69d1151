//! Domain events and the two decoded frames of a push message.
use vstd::prelude::*;
use vstd::string::StringExecFns;
use crate::text::push_text;

verus! {

#[derive(Debug, Clone, Copy, PartialEq, Eq, Structural)]
pub enum EventType {
    Motion,
    Ring,
    Line,
    SmartDetect,
}

#[derive(Debug, Clone, Copy, PartialEq, Eq, Structural)]
pub enum SmartDetectType {
    Person,
    Vehicle,
    Package,
    Animal,
    Face,
    LicensePlate,
}

#[derive(Debug, Clone, Copy, PartialEq, Eq, Structural)]
pub enum WebSocketAction {
    Add,
    Update,
}

/// The kind of record that an Action frame is about.
#[derive(Debug)]
pub enum ModelKey {
    Camera,
    Nvr,
    Event,
    Chime,
    Bridge,
    User,
    Group,
    Light,
    Liveview,
    Sensor,
    Viewer,
    Unknown(String),
}

/// The `type` of a Data frame.
#[derive(Debug)]
pub enum Kind {
    Motion,
    Unknown(String),
}

pub struct WebSocketActionFrame {
    pub action: WebSocketAction,
    pub new_update_id: String,
    pub model_key: ModelKey,
    pub record_model: Option<String>,
    pub record_id: Option<String>,
    pub id: String,
}

pub struct WebSocketDataFrame {
    pub kind: Option<Kind>,
    pub id: Option<String>,
    pub start: Option<i64>,
    pub end: Option<i64>,
}

pub struct WebSocketMessage {
    pub action_frame: WebSocketActionFrame,
    pub data_frame: WebSocketDataFrame,
}

/// An event joined with what the bootstrap snapshot knows of its camera:
/// what the destinations name their files after.
pub struct ProtectEvent {
    pub id: String,
    pub camera_id: String,
    pub camera_name: Option<String>,
    pub start_time: Option<i64>,
    pub end_time: Option<i64>,
    pub event_type: EventType,
    pub smart_detect_types: Vec<SmartDetectType>,
    pub thumbnail_id: Option<String>,
    pub heatmap_id: Option<String>,
    pub is_finished: bool,
}

impl EventType {
    pub open spec fn text_spec(self) -> Seq<char> {
        match self {
            EventType::Motion => "motion"@,
            EventType::Ring => "ring"@,
            EventType::Line => "line"@,
            EventType::SmartDetect => "smartdetect"@,
        }
    }

    /// The lower-case name of the event type.
    pub fn to_text(&self) -> (r: String)
        ensures
            r@ == self.text_spec(),
    {
        match self {
            EventType::Motion => String::from_str("motion"),
            EventType::Ring => String::from_str("ring"),
            EventType::Line => String::from_str("line"),
            EventType::SmartDetect => String::from_str("smartdetect"),
        }
    }
}

impl SmartDetectType {
    pub open spec fn name_spec(self) -> Seq<char> {
        match self {
            SmartDetectType::Person => "person"@,
            SmartDetectType::Vehicle => "vehicle"@,
            SmartDetectType::Package => "package"@,
            SmartDetectType::Animal => "animal"@,
            SmartDetectType::Face => "face"@,
            SmartDetectType::LicensePlate => "license_plate"@,
        }
    }

    pub fn name(&self) -> (r: &'static str)
        ensures
            r@ == self.name_spec(),
    {
        match self {
            SmartDetectType::Person => "person",
            SmartDetectType::Vehicle => "vehicle",
            SmartDetectType::Package => "package",
            SmartDetectType::Animal => "animal",
            SmartDetectType::Face => "face",
            SmartDetectType::LicensePlate => "license_plate",
        }
    }
}

/// The smart detection names joined by `_`.
pub open spec fn joined_names(types: Seq<SmartDetectType>) -> Seq<char>
    decreases types.len(),
{
    if types.len() == 0 {
        Seq::empty()
    } else if types.len() == 1 {
        types[0].name_spec()
    } else {
        joined_names(types.drop_last()) + "_"@ + types.last().name_spec()
    }
}

pub open spec fn detection_type_spec(event_type: EventType, types: Seq<SmartDetectType>) -> Seq<char> {
    match event_type {
        EventType::Motion => "motion"@,
        EventType::Ring => "ring"@,
        EventType::Line => "line"@,
        EventType::SmartDetect => if types.len() == 0 {
            "smart_detect"@
        } else {
            joined_names(types)
        },
    }
}

pub open spec fn texts(v: Seq<String>) -> Seq<Seq<char>> {
    v.map_values(|s: String| s@)
}

/// Whether an event passes the configured detection filter: an empty
/// filter passes everything; a smart detection passes when any of its
/// kinds is listed.
pub open spec fn should_backup_spec(
    event_type: EventType,
    types: Seq<SmartDetectType>,
    wanted: Seq<Seq<char>>,
) -> bool {
    wanted.len() == 0 || match event_type {
        EventType::Motion => wanted.contains("motion"@),
        EventType::Ring => wanted.contains("ring"@),
        EventType::Line => wanted.contains("line"@),
        EventType::SmartDetect => exists|i: int|
            0 <= i < types.len() && wanted.contains(#[trigger] types[i].name_spec()),
    }
}

/// Whether `list` holds an entry equal to `s`.
pub fn contains_text(list: &Vec<String>, s: &str) -> (r: bool)
    ensures
        r == texts(list@).contains(s@),
{
    let needle = String::from_str(s);
    let mut i: usize = 0;
    while i < list.len()
        invariant
            i <= list@.len(),
            needle@ == s@,
            forall|j: int| 0 <= j < i ==> list@[j]@ != s@,
        decreases list@.len() - i,
    {
        if list[i] == needle {
            assert(texts(list@)[i as int] == s@);
            return true;
        }
        i = i + 1;
    }
    proof {
        if texts(list@).contains(s@) {
            let j = choose|j: int| 0 <= j < texts(list@).len() && texts(list@)[j] == s@;
            assert(list@[j]@ == s@);
        }
    }
    false
}

impl ProtectEvent {
    /// Whether this event passes the detection filter `detection_types`.
    pub fn should_backup(&self, detection_types: &Vec<String>) -> (r: bool)
        ensures
            r == should_backup_spec(self.event_type, self.smart_detect_types@, texts(detection_types@)),
    {
        if detection_types.len() == 0 {
            return true;
        }
        match self.event_type {
            EventType::Motion => contains_text(detection_types, "motion"),
            EventType::Ring => contains_text(detection_types, "ring"),
            EventType::Line => contains_text(detection_types, "line"),
            EventType::SmartDetect => {
                let mut i: usize = 0;
                while i < self.smart_detect_types.len()
                    invariant
                        i <= self.smart_detect_types@.len(),
                        self.event_type == EventType::SmartDetect,
                        detection_types@.len() > 0,
                        forall|j: int| 0 <= j < i ==> !texts(detection_types@).contains(
                            #[trigger] self.smart_detect_types@[j].name_spec(),
                        ),
                    decreases self.smart_detect_types@.len() - i,
                {
                    if contains_text(detection_types, self.smart_detect_types[i].name()) {
                        assert(texts(detection_types@).contains(
                            self.smart_detect_types@[i as int].name_spec(),
                        ));
                        return true;
                    }
                    i = i + 1;
                }
                false
            },
        }
    }

    /// The detection label used in file names: the event type, or for a
    /// smart detection its kinds joined by `_` (`smart_detect` when none).
    pub fn format_detection_type(&self) -> (r: String)
        ensures
            r@ == detection_type_spec(self.event_type, self.smart_detect_types@),
    {
        match self.event_type {
            EventType::Motion => String::from_str("motion"),
            EventType::Ring => String::from_str("ring"),
            EventType::Line => String::from_str("line"),
            EventType::SmartDetect => {
                let n = self.smart_detect_types.len();
                if n == 0 {
                    return String::from_str("smart_detect");
                }
                let mut out = String::from_str(self.smart_detect_types[0].name());
                let mut i: usize = 1;
                assert(self.smart_detect_types@.subrange(0, 1).drop_last().len() == 0);
                while i < n
                    invariant
                        1 <= i <= n,
                        n == self.smart_detect_types@.len(),
                        out@ == joined_names(self.smart_detect_types@.subrange(0, i as int)),
                    decreases n - i,
                {
                    push_text(&mut out, "_");
                    push_text(&mut out, self.smart_detect_types[i].name());
                    proof {
                        let s = self.smart_detect_types@.subrange(0, i + 1);
                        assert(s.drop_last() =~= self.smart_detect_types@.subrange(0, i as int));
                    }
                    i = i + 1;
                }
                assert(self.smart_detect_types@.subrange(0, n as int) =~= self.smart_detect_types@);
                out
            },
        }
    }
}

impl EventType {
    /// The event type that the recorder's `type` field names; an unknown
    /// name counts as motion.
    pub open spec fn from_name_spec(name: Seq<char>) -> EventType {
        if name == "ring"@ {
            EventType::Ring
        } else if name == "line"@ {
            EventType::Line
        } else if name == "smartDetectZone"@ {
            EventType::SmartDetect
        } else {
            EventType::Motion
        }
    }

    pub fn from_name(name: &String) -> (r: EventType)
        ensures
            r == EventType::from_name_spec(name@),
    {
        if *name == String::from_str("ring") {
            EventType::Ring
        } else if *name == String::from_str("line") {
            EventType::Line
        } else if *name == String::from_str("smartDetectZone") {
            EventType::SmartDetect
        } else {
            EventType::Motion
        }
    }
}

impl SmartDetectType {
    /// The smart detection kind that the recorder names `name`, if known.
    pub open spec fn from_name_spec(name: Seq<char>) -> Option<SmartDetectType> {
        if name == "person"@ {
            Some(SmartDetectType::Person)
        } else if name == "vehicle"@ {
            Some(SmartDetectType::Vehicle)
        } else if name == "package"@ {
            Some(SmartDetectType::Package)
        } else if name == "animal"@ {
            Some(SmartDetectType::Animal)
        } else if name == "face"@ {
            Some(SmartDetectType::Face)
        } else if name == "licensePlate"@ {
            Some(SmartDetectType::LicensePlate)
        } else {
            None
        }
    }

    pub fn from_name(name: &String) -> (r: Option<SmartDetectType>)
        ensures
            r == SmartDetectType::from_name_spec(name@),
    {
        if *name == String::from_str("person") {
            Some(SmartDetectType::Person)
        } else if *name == String::from_str("vehicle") {
            Some(SmartDetectType::Vehicle)
        } else if *name == String::from_str("package") {
            Some(SmartDetectType::Package)
        } else if *name == String::from_str("animal") {
            Some(SmartDetectType::Animal)
        } else if *name == String::from_str("face") {
            Some(SmartDetectType::Face)
        } else if *name == String::from_str("licensePlate") {
            Some(SmartDetectType::LicensePlate)
        } else {
            None
        }
    }
}

impl ModelKey {
    /// The record kind that the recorder names `name` in an Action frame's
    /// `modelKey`, for the kinds the library knows.
    pub open spec fn known_spec(name: Seq<char>) -> Option<ModelKey> {
        if name == "camera"@ {
            Some(ModelKey::Camera)
        } else if name == "nvr"@ {
            Some(ModelKey::Nvr)
        } else if name == "event"@ {
            Some(ModelKey::Event)
        } else if name == "chime"@ {
            Some(ModelKey::Chime)
        } else if name == "bridge"@ {
            Some(ModelKey::Bridge)
        } else if name == "user"@ {
            Some(ModelKey::User)
        } else if name == "group"@ {
            Some(ModelKey::Group)
        } else if name == "light"@ {
            Some(ModelKey::Light)
        } else if name == "liveview"@ {
            Some(ModelKey::Liveview)
        } else if name == "sensor"@ {
            Some(ModelKey::Sensor)
        } else if name == "viewer"@ {
            Some(ModelKey::Viewer)
        } else {
            None
        }
    }

    /// The record kind named `name`; an unknown name is kept as it is.
    pub fn from_name(name: &String) -> (r: ModelKey)
        ensures
            match ModelKey::known_spec(name@) {
                Some(k) => r == k,
                None => r matches ModelKey::Unknown(s) && s@ == name@,
            },
    {
        if *name == String::from_str("camera") {
            ModelKey::Camera
        } else if *name == String::from_str("nvr") {
            ModelKey::Nvr
        } else if *name == String::from_str("event") {
            ModelKey::Event
        } else if *name == String::from_str("chime") {
            ModelKey::Chime
        } else if *name == String::from_str("bridge") {
            ModelKey::Bridge
        } else if *name == String::from_str("user") {
            ModelKey::User
        } else if *name == String::from_str("group") {
            ModelKey::Group
        } else if *name == String::from_str("light") {
            ModelKey::Light
        } else if *name == String::from_str("liveview") {
            ModelKey::Liveview
        } else if *name == String::from_str("sensor") {
            ModelKey::Sensor
        } else if *name == String::from_str("viewer") {
            ModelKey::Viewer
        } else {
            ModelKey::Unknown(name.clone())
        }
    }
}

impl Kind {
    /// The `type` of a Data frame named `name`; anything but `motion` is
    /// kept as it is.
    pub fn from_name(name: &String) -> (r: Kind)
        ensures
            name@ == "motion"@ ==> r is Motion,
            name@ != "motion"@ ==> (r matches Kind::Unknown(s) && s@ == name@),
    {
        if *name == String::from_str("motion") {
            Kind::Motion
        } else {
            Kind::Unknown(name.clone())
        }
    }
}

} // verus!
