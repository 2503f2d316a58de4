//! The URLs of the IoT platform API, for both API flavours.
use vstd::prelude::*;

use crate::text::{int_decimal, push_int_decimal, push_str, string_from};

verus! {

/// An IoT platform endpoint, by API flavour.
#[derive(Debug, Clone, PartialEq, Eq)]
pub enum Endpoint {
    General(GeneralEndpoint),
    Edge(EdgeEndpoint),
}

/// An endpoint speaking the general API.
#[derive(Debug, Default, Clone, PartialEq, Eq)]
pub struct GeneralEndpoint {
    pub base_url: String,
}

/// An endpoint speaking the edge API.
#[derive(Debug, Default, Clone, PartialEq, Eq)]
pub struct EdgeEndpoint {
    pub base_url: String,
}

/// The platform API of an endpoint: every URL is the endpoint's base URL
/// followed by a path.
pub trait EndpointTrait {
    /// The base URL of the endpoint.
    spec fn base_url_view(&self) -> Seq<char>;

    /// The name of the API flavour.
    spec fn kind_view(&self) -> Seq<char>;

    /// The URL of a sensor snapshot, whose path differs between flavours.
    spec fn snapshot_view(&self, device_id: Seq<char>, sensor_id: Seq<char>, snapshot_id: Seq<char>) -> Seq<char>;

    fn all_expression(&self) -> (url: String)
        ensures
            url@ == self.base_url_view() + "/expression"@,
    ;

    fn expression(&self, expression_id: &str) -> (url: String)
        ensures
            url@ == self.base_url_view() + "/expression/"@ + expression_id@,
    ;

    fn all_sensor(&self, device_id: &str) -> (url: String)
        ensures
            url@ == self.base_url_view() + "/device/"@ + device_id@ + "/sensor"@,
    ;

    fn all_device(&self) -> (url: String)
        ensures
            url@ == self.base_url_view() + "/device"@,
    ;

    fn sensor_rawdata(&self, device_id: &str, sensor_id: &str) -> (url: String)
        ensures
            url@ == self.base_url_view() + "/device/"@ + device_id@ + "/sensor/"@ + sensor_id@
                + "/rawdata"@,
    ;

    fn active_notify(&self, device_id: &str) -> (url: String)
        ensures
            url@ == self.base_url_view() + "/device/"@ + device_id@ + "/active/notify"@,
    ;

    fn active_setting(&self, device_id: &str) -> (url: String)
        ensures
            url@ == self.base_url_view() + "/device/"@ + device_id@ + "/active/setting"@,
    ;

    fn active_notify_delete(&self, device_id: &str, notify_id: i32) -> (url: String)
        ensures
            url@ == self.base_url_view() + "/device/"@ + device_id@ + "/active/notify/"@
                + int_decimal(notify_id as int),
    ;

    fn active(&self, device_id: &str) -> (url: String)
        ensures
            url@ == self.base_url_view() + "/device/"@ + device_id@ + "/active"@,
    ;

    fn sensor(&self, device_id: &str, sensor_id: &str) -> (url: String)
        ensures
            url@ == self.base_url_view() + "/device/"@ + device_id@ + "/sensor/"@ + sensor_id@,
    ;

    fn metadata(&self) -> (url: String)
        ensures
            url@ == self.base_url_view() + "/metadata"@,
    ;

    fn rawdata(&self, device_id: &str) -> (url: String)
        ensures
            url@ == self.base_url_view() + "/device/"@ + device_id@ + "/rawdata"@,
    ;

    fn snapshot(&self, device_id: &str, sensor_id: &str, snapshot_id: &str) -> (url: String)
        ensures
            url@ == self.snapshot_view(device_id@, sensor_id@, snapshot_id@),
    ;

    fn baseurl(&self) -> (url: String)
        ensures
            url@ == self.base_url_view(),
    ;

    fn kind(&self) -> (name: String)
        ensures
            name@ == self.kind_view(),
    ;

    fn device(&self, device_id: &str) -> (url: String)
        ensures
            url@ == self.base_url_view() + "/device/"@ + device_id@,
    ;
}

/// `base` followed by `suffix`.
fn with_suffix(base: &str, suffix: &str) -> (url: String)
    ensures
        url@ == base@ + suffix@,
{
    let mut url = string_from(base);
    push_str(&mut url, suffix);
    url
}

/// `base`, `middle`, `id` and `suffix`, in that order.
fn with_id(base: &str, middle: &str, id: &str, suffix: &str) -> (url: String)
    ensures
        url@ == base@ + middle@ + id@ + suffix@,
{
    let mut url = string_from(base);
    push_str(&mut url, middle);
    push_str(&mut url, id);
    push_str(&mut url, suffix);
    url
}

/// `base`, `middle` and `id`, in that order.
fn with_tail_id(base: &str, middle: &str, id: &str) -> (url: String)
    ensures
        url@ == base@ + middle@ + id@,
{
    let mut url = string_from(base);
    push_str(&mut url, middle);
    push_str(&mut url, id);
    url
}

/// `base`, `m1`, `id1`, `m2` and `id2`, in that order.
fn with_tail_ids(base: &str, m1: &str, id1: &str, m2: &str, id2: &str) -> (url: String)
    ensures
        url@ == base@ + m1@ + id1@ + m2@ + id2@,
{
    let mut url = with_tail_id(base, m1, id1);
    push_str(&mut url, m2);
    push_str(&mut url, id2);
    url
}

/// `base`, `m1`, `id1`, `m2`, `id2` and `suffix`, in that order.
fn with_two_ids(base: &str, m1: &str, id1: &str, m2: &str, id2: &str, suffix: &str) -> (url: String)
    ensures
        url@ == base@ + m1@ + id1@ + m2@ + id2@ + suffix@,
{
    let mut url = string_from(base);
    push_str(&mut url, m1);
    push_str(&mut url, id1);
    push_str(&mut url, m2);
    push_str(&mut url, id2);
    push_str(&mut url, suffix);
    url
}

/// The snapshot URL shape of the general API.
pub open spec fn general_snapshot(base: Seq<char>, d: Seq<char>, s: Seq<char>, n: Seq<char>) -> Seq<char> {
    base + "/device/"@ + d + "/sensor/"@ + s + "/snapshot/"@ + n
}

/// The snapshot URL shape of the edge API.
pub open spec fn edge_snapshot(base: Seq<char>, d: Seq<char>, s: Seq<char>, n: Seq<char>) -> Seq<char> {
    base + "/snapshot/device/"@ + d + "/sensor/"@ + s + "/snapshot/"@ + n
}

fn snapshot_url(base: &str, head: &str, d: &str, s: &str, n: &str) -> (url: String)
    ensures
        url@ == base@ + head@ + d@ + "/sensor/"@ + s@ + "/snapshot/"@ + n@,
{
    let mut url = with_two_ids(base, head, d, "/sensor/", s, "/snapshot/");
    push_str(&mut url, n);
    url
}

fn notify_delete_url(base: &str, device_id: &str, notify_id: i32) -> (url: String)
    ensures
        url@ == base@ + "/device/"@ + device_id@ + "/active/notify/"@ + int_decimal(
            notify_id as int,
        ),
{
    let mut url = with_id(base, "/device/", device_id, "/active/notify/");
    push_int_decimal(&mut url, notify_id);
    url
}

impl EndpointTrait for GeneralEndpoint {
    open spec fn base_url_view(&self) -> Seq<char> {
        self.base_url@
    }

    open spec fn kind_view(&self) -> Seq<char> {
        "General"@
    }

    open spec fn snapshot_view(&self, device_id: Seq<char>, sensor_id: Seq<char>, snapshot_id: Seq<char>) -> Seq<char> {
        general_snapshot(self.base_url@, device_id, sensor_id, snapshot_id)
    }

    fn metadata(&self) -> (url: String) {
        with_suffix(self.base_url.as_str(), "/metadata")
    }

    fn rawdata(&self, device_id: &str) -> (url: String) {
        with_id(self.base_url.as_str(), "/device/", device_id, "/rawdata")
    }

    fn sensor_rawdata(&self, device_id: &str, sensor_id: &str) -> (url: String) {
        with_two_ids(self.base_url.as_str(), "/device/", device_id, "/sensor/", sensor_id, "/rawdata")
    }

    fn snapshot(&self, device_id: &str, sensor_id: &str, snapshot_id: &str) -> (url: String) {
        snapshot_url(self.base_url.as_str(), "/device/", device_id, sensor_id, snapshot_id)
    }

    fn baseurl(&self) -> (url: String) {
        self.base_url.clone()
    }

    fn kind(&self) -> (name: String) {
        string_from("General")
    }

    fn all_device(&self) -> (url: String) {
        with_suffix(self.base_url.as_str(), "/device")
    }

    fn device(&self, device_id: &str) -> (url: String) {
        with_tail_id(self.base_url.as_str(), "/device/", device_id)
    }

    fn all_sensor(&self, device_id: &str) -> (url: String) {
        with_id(self.base_url.as_str(), "/device/", device_id, "/sensor")
    }

    fn sensor(&self, device_id: &str, sensor_id: &str) -> (url: String) {
        with_tail_ids(self.base_url.as_str(), "/device/", device_id, "/sensor/", sensor_id)
    }

    fn active(&self, device_id: &str) -> (url: String) {
        with_id(self.base_url.as_str(), "/device/", device_id, "/active")
    }

    fn active_setting(&self, device_id: &str) -> (url: String) {
        with_id(self.base_url.as_str(), "/device/", device_id, "/active/setting")
    }

    fn active_notify(&self, device_id: &str) -> (url: String) {
        with_id(self.base_url.as_str(), "/device/", device_id, "/active/notify")
    }

    fn active_notify_delete(&self, device_id: &str, notify_id: i32) -> (url: String) {
        notify_delete_url(self.base_url.as_str(), device_id, notify_id)
    }

    fn expression(&self, expression_id: &str) -> (url: String) {
        with_tail_id(self.base_url.as_str(), "/expression/", expression_id)
    }

    fn all_expression(&self) -> (url: String) {
        with_suffix(self.base_url.as_str(), "/expression")
    }
}

impl EndpointTrait for EdgeEndpoint {
    open spec fn base_url_view(&self) -> Seq<char> {
        self.base_url@
    }

    open spec fn kind_view(&self) -> Seq<char> {
        "Edge"@
    }

    open spec fn snapshot_view(&self, device_id: Seq<char>, sensor_id: Seq<char>, snapshot_id: Seq<char>) -> Seq<char> {
        edge_snapshot(self.base_url@, device_id, sensor_id, snapshot_id)
    }

    fn all_sensor(&self, device_id: &str) -> (url: String) {
        with_id(self.base_url.as_str(), "/device/", device_id, "/sensor")
    }

    fn sensor(&self, device_id: &str, sensor_id: &str) -> (url: String) {
        with_tail_ids(self.base_url.as_str(), "/device/", device_id, "/sensor/", sensor_id)
    }

    fn metadata(&self) -> (url: String) {
        with_suffix(self.base_url.as_str(), "/metadata")
    }

    fn rawdata(&self, device_id: &str) -> (url: String) {
        with_id(self.base_url.as_str(), "/device/", device_id, "/rawdata")
    }

    fn sensor_rawdata(&self, device_id: &str, sensor_id: &str) -> (url: String) {
        with_two_ids(self.base_url.as_str(), "/device/", device_id, "/sensor/", sensor_id, "/rawdata")
    }

    fn snapshot(&self, device_id: &str, sensor_id: &str, snapshot_id: &str) -> (url: String) {
        snapshot_url(self.base_url.as_str(), "/snapshot/device/", device_id, sensor_id, snapshot_id)
    }

    fn baseurl(&self) -> (url: String) {
        self.base_url.clone()
    }

    fn kind(&self) -> (name: String) {
        string_from("Edge")
    }

    fn all_device(&self) -> (url: String) {
        with_suffix(self.base_url.as_str(), "/device")
    }

    fn device(&self, device_id: &str) -> (url: String) {
        with_tail_id(self.base_url.as_str(), "/device/", device_id)
    }

    fn active_notify(&self, device_id: &str) -> (url: String) {
        with_id(self.base_url.as_str(), "/device/", device_id, "/active/notify")
    }

    fn active_setting(&self, device_id: &str) -> (url: String) {
        with_id(self.base_url.as_str(), "/device/", device_id, "/active/setting")
    }

    fn active(&self, device_id: &str) -> (url: String) {
        with_id(self.base_url.as_str(), "/device/", device_id, "/active")
    }

    fn active_notify_delete(&self, device_id: &str, notify_id: i32) -> (url: String) {
        notify_delete_url(self.base_url.as_str(), device_id, notify_id)
    }

    fn expression(&self, expression_id: &str) -> (url: String) {
        with_tail_id(self.base_url.as_str(), "/expression/", expression_id)
    }

    fn all_expression(&self) -> (url: String) {
        with_suffix(self.base_url.as_str(), "/expression")
    }
}

impl EndpointTrait for Endpoint {
    open spec fn base_url_view(&self) -> Seq<char> {
        match self {
            Endpoint::General(endpoint) => endpoint.base_url@,
            Endpoint::Edge(endpoint) => endpoint.base_url@,
        }
    }

    open spec fn kind_view(&self) -> Seq<char> {
        match self {
            Endpoint::General(endpoint) => endpoint.kind_view(),
            Endpoint::Edge(endpoint) => endpoint.kind_view(),
        }
    }

    open spec fn snapshot_view(&self, device_id: Seq<char>, sensor_id: Seq<char>, snapshot_id: Seq<char>) -> Seq<char> {
        match self {
            Endpoint::General(endpoint) => endpoint.snapshot_view(device_id, sensor_id, snapshot_id),
            Endpoint::Edge(endpoint) => endpoint.snapshot_view(device_id, sensor_id, snapshot_id),
        }
    }

    fn metadata(&self) -> (url: String) {
        match self {
            Endpoint::General(endpoint) => endpoint.metadata(),
            Endpoint::Edge(endpoint) => endpoint.metadata(),
        }
    }

    fn rawdata(&self, device_id: &str) -> (url: String) {
        match self {
            Endpoint::General(endpoint) => endpoint.rawdata(device_id),
            Endpoint::Edge(endpoint) => endpoint.rawdata(device_id),
        }
    }

    fn snapshot(&self, device_id: &str, sensor_id: &str, snapshot_id: &str) -> (url: String) {
        match self {
            Endpoint::General(endpoint) => endpoint.snapshot(device_id, sensor_id, snapshot_id),
            Endpoint::Edge(endpoint) => endpoint.snapshot(device_id, sensor_id, snapshot_id),
        }
    }

    fn baseurl(&self) -> (url: String) {
        match self {
            Endpoint::General(endpoint) => endpoint.baseurl(),
            Endpoint::Edge(endpoint) => endpoint.baseurl(),
        }
    }

    fn kind(&self) -> (name: String) {
        match self {
            Endpoint::General(endpoint) => endpoint.kind(),
            Endpoint::Edge(endpoint) => endpoint.kind(),
        }
    }

    fn all_device(&self) -> (url: String) {
        match self {
            Endpoint::General(endpoint) => endpoint.all_device(),
            Endpoint::Edge(endpoint) => endpoint.all_device(),
        }
    }

    fn device(&self, device_id: &str) -> (url: String) {
        match self {
            Endpoint::General(endpoint) => endpoint.device(device_id),
            Endpoint::Edge(endpoint) => endpoint.device(device_id),
        }
    }

    fn all_sensor(&self, device_id: &str) -> (url: String) {
        match self {
            Endpoint::General(endpoint) => endpoint.all_sensor(device_id),
            Endpoint::Edge(endpoint) => endpoint.all_sensor(device_id),
        }
    }

    fn sensor(&self, device_id: &str, sensor_id: &str) -> (url: String) {
        match self {
            Endpoint::General(endpoint) => endpoint.sensor(device_id, sensor_id),
            Endpoint::Edge(endpoint) => endpoint.sensor(device_id, sensor_id),
        }
    }

    fn active_notify(&self, device_id: &str) -> (url: String) {
        match self {
            Endpoint::General(endpoint) => endpoint.active_notify(device_id),
            Endpoint::Edge(endpoint) => endpoint.active_notify(device_id),
        }
    }

    fn active_setting(&self, device_id: &str) -> (url: String) {
        match self {
            Endpoint::General(endpoint) => endpoint.active_setting(device_id),
            Endpoint::Edge(endpoint) => endpoint.active_setting(device_id),
        }
    }

    fn active(&self, device_id: &str) -> (url: String) {
        match self {
            Endpoint::General(endpoint) => endpoint.active(device_id),
            Endpoint::Edge(endpoint) => endpoint.active(device_id),
        }
    }

    fn active_notify_delete(&self, device_id: &str, notify_id: i32) -> (url: String) {
        match self {
            Endpoint::General(endpoint) => endpoint.active_notify_delete(device_id, notify_id),
            Endpoint::Edge(endpoint) => endpoint.active_notify_delete(device_id, notify_id),
        }
    }

    fn sensor_rawdata(&self, device_id: &str, sensor_id: &str) -> (url: String) {
        match self {
            Endpoint::General(endpoint) => endpoint.sensor_rawdata(device_id, sensor_id),
            Endpoint::Edge(endpoint) => endpoint.sensor_rawdata(device_id, sensor_id),
        }
    }

    fn expression(&self, expression_id: &str) -> (url: String) {
        match self {
            Endpoint::General(endpoint) => endpoint.expression(expression_id),
            Endpoint::Edge(endpoint) => endpoint.expression(expression_id),
        }
    }

    fn all_expression(&self) -> (url: String) {
        match self {
            Endpoint::General(endpoint) => endpoint.all_expression(),
            Endpoint::Edge(endpoint) => endpoint.all_expression(),
        }
    }
}

} // verus!
