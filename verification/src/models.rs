//! The values exchanged with the IoT platform APIs, and the small
//! computations made on them.
use std::collections::HashMap;

use vstd::prelude::*;

use crate::text::{push_str, string_from};

pub use crate::endpoint::{EdgeEndpoint, Endpoint, EndpointTrait, GeneralEndpoint};
pub use crate::platform::{AuthInfo, EdgeAuthInfo, EdgeAuthTarget, EdgeUrlError, GeneralAuthInfo};



verus! {

#[derive(Debug, PartialEq, Eq, Clone, Default)]
pub struct Project {
    pub project_key: String,
    pub endpoint_key: String,
}

pub type Endpoints = HashMap<String, Endpoint>;

pub type Projects = HashMap<String, Project>;

pub type AuthInfos = HashMap<String, AuthInfo>;



#[derive(Clone, Copy, PartialEq, Eq, Debug, Default)]
pub enum SensorType {
    #[default]
    Gauge,
    Text,
    Switch,
    Snapshot,
}

impl SensorType {
    /// The displayed name of the sensor type: its variant name.
    pub open spec fn display_name(self) -> Seq<char> {
        match self {
            SensorType::Gauge => "Gauge"@,
            SensorType::Text => "Text"@,
            SensorType::Switch => "Switch"@,
            SensorType::Snapshot => "Snapshot"@,
        }
    }

    /// The displayed name of the sensor type: its variant name.
    pub fn to_string(&self) -> (s: String)
        ensures
            s@ == self.display_name(),
    {
        match self {
            SensorType::Gauge => string_from("Gauge"),
            SensorType::Text => string_from("Text"),
            SensorType::Switch => string_from("Switch"),
            SensorType::Snapshot => string_from("Snapshot"),
        }
    }
}

#[derive(Clone, PartialEq, Eq, Debug)]
pub struct Attribute {
    pub key: String,
    pub value: String,
}

#[derive(Clone, PartialEq, Eq, Debug, Default)]
pub struct Sensor {
    pub id: String,
    pub name: String,
    pub desc: Option<String>,
    pub kind: SensorType,
    pub uri: Option<String>,
    pub formula: Option<String>,
    pub attributes: Option<Vec<Attribute>>,
}

impl Sensor {
    /// A blank gauge sensor: empty id, name and description, an empty
    /// attribute list, and no URI or formula.
    pub fn new() -> (s: Self)
        ensures
            s.id@.len() == 0,
            s.name@.len() == 0,
            s.desc matches Some(d) && d@.len() == 0,
            s.kind == SensorType::Gauge,
            s.uri is None,
            s.formula is None,
            s.attributes matches Some(a) && a@.len() == 0,
    {
        Self {
            id: String::new(),
            name: String::new(),
            desc: Some(String::new()),
            kind: SensorType::Gauge,
            uri: None,
            formula: None,
            attributes: Some(Vec::new()),
        }
    }
}

#[derive(Clone, PartialEq, Debug, Default)]
pub struct EditSensor {
    pub name: String,
    pub desc: Option<String>,
    pub kind: SensorType,
    pub uri: Option<String>,
    pub formula: Option<String>,
    pub attributes: Option<Vec<Attribute>>,
}

impl EditSensor {
    /// A blank gauge sensor edit: empty name and description, an empty
    /// attribute list, and no URI or formula.
    pub fn new() -> (s: Self)
        ensures
            s.name@.len() == 0,
            s.desc matches Some(d) && d@.len() == 0,
            s.kind == SensorType::Gauge,
            s.uri is None,
            s.formula is None,
            s.attributes matches Some(a) && a@.len() == 0,
    {
        Self {
            name: String::new(),
            desc: Some(String::new()),
            kind: SensorType::Gauge,
            uri: None,
            formula: None,
            attributes: Some(Vec::new()),
        }
    }
}

#[derive(Clone, PartialEq, Eq, Debug, Default)]
pub struct DeviceResponse {
    pub id: String,
}

/// The text of one reading value: the value itself, or nothing when absent.
pub open spec fn value_text(v: Option<String>) -> Seq<char> {
    match v {
        Some(s) => s@,
        None => Seq::empty(),
    }
}

/// The texts of the values, separated by single spaces.
pub open spec fn joined_values(values: Seq<Option<String>>) -> Seq<char>
    decreases values.len(),
{
    if values.len() == 0 {
        Seq::empty()
    } else if values.len() == 1 {
        value_text(values[0])
    } else {
        joined_values(values.drop_last()) + " "@ + value_text(values.last())
    }
}

/// Joining two non-empty runs of values gives the two joined runs with one
/// space between them.
pub proof fn lemma_joined_values_concat(a: Seq<Option<String>>, b: Seq<Option<String>>)
    requires
        a.len() > 0,
        b.len() > 0,
    ensures
        joined_values(a + b) == joined_values(a) + " "@ + joined_values(b),
    decreases b.len(),
{
    let ab = a + b;
    if b.len() == 1 {
        assert(ab.drop_last() =~= a);
        assert(ab.last() == b[0]);
    } else {
        lemma_joined_values_concat(a, b.drop_last());
        assert(ab.drop_last() =~= a + b.drop_last());
        assert(ab.last() == b.last());
        assert(joined_values(ab) =~= joined_values(a) + " "@ + joined_values(b));
    }
}

fn join_values(values: &Vec<Option<String>>) -> (s: String)
    ensures
        s@ == joined_values(values@),
{
    let mut out = String::new();
    let mut i: usize = 0;
    proof {
        reveal_strlit(" ");
    }
    while i < values.len()
        invariant
            i <= values@.len(),
            out@ == joined_values(values@.subrange(0, i as int)),
        decreases values@.len() - i,
    {
        let ghost prefix = values@.subrange(0, i as int);
        if i > 0 {
            push_str(&mut out, " ");
        }
        match &values[i] {
            Some(v) => push_str(&mut out, v.as_str()),
            None => {},
        }
        proof {
            let next = values@.subrange(0, i + 1);
            assert(next.drop_last() =~= prefix);
            assert(next.last() == values@[i as int]);
            if i == 0 {
                assert(out@ =~= value_text(values@[0]));
            } else {
                assert(out@ =~= joined_values(prefix) + " "@ + value_text(values@[i as int]));
            }
        }
        i = i + 1;
    }
    assert(values@.subrange(0, values@.len() as int) =~= values@);
    out
}

#[derive(Clone, PartialEq, Eq, Debug)]
pub struct RawData {
    pub id: String,
    pub device_id: String,
    pub value: Vec<Option<String>>,
    pub time: Option<String>,
}

impl RawData {
    /// All values, absent ones as empty text, separated by single spaces.
    pub fn all_value(&self) -> (s: String)
        ensures
            s@ == joined_values(self.value@),
    {
        join_values(&self.value)
    }
}

#[derive(Clone, PartialEq, Eq, Debug)]
pub struct GetRawData {
    pub id: String,
    pub device_id: String,
    pub value: Vec<Option<String>>,
    pub time: String,
}

impl GetRawData {
    /// All values, absent ones as empty text, separated by single spaces.
    pub fn all_value(&self) -> (s: String)
        ensures
            s@ == joined_values(self.value@),
    {
        join_values(&self.value)
    }
}

#[derive(Clone, PartialEq, Eq, Debug)]
pub struct SensorWithData {
    pub sensor: Sensor,
    pub data: Option<RawData>,
}

/// The active-monitor status of a device.
#[derive(Clone, Copy, PartialEq, Eq, Debug, Default)]
pub enum ActiveStatus {
    #[default]
    Unset,
    Start,
    Online,
    Offline,
    Stop,
    Abnormal,
}

impl ActiveStatus {
    /// The displayed name of the status, which is also the status text that
    /// is stored for a device.
    pub open spec fn display_name(self) -> Seq<char> {
        match self {
            ActiveStatus::Unset => "Unset"@,
            ActiveStatus::Start => "Start"@,
            ActiveStatus::Online => "Online"@,
            ActiveStatus::Offline => "Offline"@,
            ActiveStatus::Stop => "Stop"@,
            ActiveStatus::Abnormal => "Abnormal"@,
        }
    }

    /// The displayed name of the status: `Unset`, `Start`, `Online`,
    /// `Offline`, `Stop` or `Abnormal`.
    pub fn to_string(&self) -> (s: String)
        ensures
            s@ == self.display_name(),
    {
        match self {
            ActiveStatus::Unset => string_from("Unset"),
            ActiveStatus::Start => string_from("Start"),
            ActiveStatus::Online => string_from("Online"),
            ActiveStatus::Offline => string_from("Offline"),
            ActiveStatus::Stop => string_from("Stop"),
            ActiveStatus::Abnormal => string_from("Abnormal"),
        }
    }
}

#[derive(Clone, PartialEq, Eq, Debug, Default)]
pub struct ActiveInfo {
    pub device_id: String,
    pub status: ActiveStatus,
    pub record: Option<i32>,
    pub last_data_time: Option<String>,
    pub create_time: String,
}

#[derive(Clone, PartialEq, Eq, Debug, Default)]
pub struct ActiveDevice {
    pub device_id: String,
    pub enable: bool,
    pub period: String,
    pub min_uploads: Option<i32>,
    pub max_uploads: Option<i32>,
    pub sensor: Option<String>,
    pub create_time: Option<u64>,
}

#[derive(Clone, PartialEq, Eq, Debug, Default)]
pub struct ActiveNotifySetting {
    pub to: String,
    pub message: Option<String>,
}

#[derive(Clone, PartialEq, Eq, Debug, Default)]
pub struct ActiveNotify {
    pub id: i32,
    pub device_id: String,
    pub enable: bool,
    pub name: String,
    pub kind: String,
    pub setting: ActiveNotifySetting,
    pub create_time: String,
}

#[derive(Clone, PartialEq, Eq, Debug, Default)]
pub struct Rule1 {
    pub id: Option<i32>,
    pub name: String,
    pub desc: String,
    pub expression: String,
    pub devices: Vec<String>,
    pub sensor: String,
    pub enable: String,
    pub project: String,
    pub mode: RuleMode,
    pub rule_type: RuleType,
    pub actions: Vec<Action>,
}

#[derive(Clone, PartialEq, Eq, Debug, Default)]
pub struct Action {
    pub action_type: ActionType,
    pub name: String,
    pub email_event: Option<EmailEvent>,
    pub device_event: Option<DeviceEvent>,
}

#[derive(Clone, PartialEq, Eq, Debug, Default)]
pub struct EmailEvent {
    pub email: String,
    pub subject: String,
    pub content: String,
}

#[derive(Clone, PartialEq, Eq, Debug, Default)]
pub struct DeviceEvent {
    pub device_id: String,
    pub sensor_id: String,
    pub kind: DeviceEventType,
    pub value: String,
}

#[derive(Clone, PartialEq, Eq, Debug, Default)]
pub enum DeviceEventType {
    #[default]
    Rawdata,
    Cmd,
    Ack,
}

#[derive(Clone, PartialEq, Eq, Debug, Default)]
pub enum ActionType {
    #[default]
    EventAction,
    RecoverAction,
}

#[derive(Clone, PartialEq, Eq, Debug, Default)]
pub enum RuleType {
    #[default]
    Data,
    Time,
}

#[derive(Clone, PartialEq, Eq, Debug, Default)]
pub enum RuleMode {
    #[default]
    Single,
    Continue,
    FixedRate,
}

#[derive(Clone, PartialEq, Eq, Debug, Default)]
pub struct Rule2 {
    pub id: Option<String>,
    pub name: String,
    pub desc: String,
    pub project_id: String,
    pub targets: HashMap<String, Vec<String>>,
    pub formulas: Vec<Formula>,
}

#[derive(Clone, PartialEq, Eq, Debug, Default)]
pub struct Formula {
    pub formula: String,
    pub type_num: String,
    pub type_unit: String,
    pub actions: Vec<FormulaAction>,
}

#[derive(Clone, PartialEq, Eq, Debug, Default)]
pub struct FormulaAction {
    pub action_type: String,
    pub device_id: String,
    pub sensor_id: String,
    pub ck: String,
    pub material_type: DeviceEventType,
    pub values: Vec<String>,
}

#[derive(Clone, PartialEq, Eq, Debug)]
pub struct DigestInfo {
    pub digest: String,
}

#[derive(Clone, PartialEq, Eq, Debug)]
pub struct AuthResponse {
    pub result: AuthorityInfo,
}

#[derive(Clone, PartialEq, Eq, Debug)]
pub struct AuthorityInfo {
    pub access_token: String,
}

#[derive(Clone, PartialEq, Debug, Default)]
pub enum Permission {
    #[default]
    Admin,
    ReadOnly,
    ReadWrite,
    WriteRawdataOnly,
}

#[derive(Clone, PartialEq, Debug, Default)]
pub struct ProjectKey {
    pub key: String,
    pub permission: Permission,
}

#[derive(Clone, PartialEq, Debug, Default)]
pub struct PartialProjectResp {
    pub id: String,
    pub name: String,
    pub desc: String,
}

#[derive(Clone, PartialEq, Debug, Default)]
pub struct ProjectResp {
    pub id: String,
    pub name: String,
    pub desc: String,
    pub project_keys: Vec<ProjectKey>,
}

#[derive(Clone, PartialEq, Debug, Default)]
pub struct EdgeProjectResp {
    pub result: Vec<ProjectResp>,
}

} // verus!
