//! Presence on the local network: the mDNS registration of this device, the
//! reading of what the mDNS browser reports about other devices, and the
//! search for a free port for the transfer server.

use vstd::prelude::*;
use crate::protocol::{DeviceInfo, DeviceModel};
use crate::text::{push_char, push_str, owned, same_text, format_ipv4, ipv4_text};

verus! {

/// The DNS-SD service type under which DropLink devices advertise.
pub open spec fn service_type() -> Seq<char> {
    "_droplink._tcp.local."@
}

/// The DNS-SD service type under which DropLink devices advertise.
pub fn service_type_name() -> (t: &'static str)
    ensures
        t@ == service_type(),
{
    "_droplink._tcp.local."
}

/// What the discovery reports to the rest of the application.
pub enum DiscoveryEvent {
    /// A device was resolved.
    DeviceFound(DeviceInfo),
    /// The service with this full name went away.
    DeviceLost(String),
}

/// The model of a discovery report.
pub enum DiscoveryEventModel {
    DeviceFound(DeviceModel),
    DeviceLost(Seq<char>),
}

impl View for DiscoveryEvent {
    type V = DiscoveryEventModel;

    open spec fn view(&self) -> DiscoveryEventModel {
        match self {
            DiscoveryEvent::DeviceFound(d) => DiscoveryEventModel::DeviceFound(d@),
            DiscoveryEvent::DeviceLost(n) => DiscoveryEventModel::DeviceLost(n@),
        }
    }
}

// ------------------------------------------------------------------------
// Registration
// ------------------------------------------------------------------------

/// `str::to_lowercase`: the Unicode lower-case mapping of a text.
pub uninterp spec fn lowercase(s: Seq<char>) -> Seq<char>;

/// Calls `str::to_lowercase`; its result is named `lowercase`.
#[verifier::external_body]
fn to_lowercase(s: &str) -> (r: String)
    ensures
        r@ == lowercase(s@),
{
    s.to_lowercase()
}

/// The text with every space replaced by a hyphen.
pub open spec fn spaces_to_hyphens(s: Seq<char>) -> Seq<char> {
    Seq::new(s.len(), |i: int| if s[i] == ' ' { '-' } else { s[i] })
}

/// The mDNS host name of a device: its name with spaces as hyphens, in
/// lower case, in the `local.` domain.
pub open spec fn host_name(device_name: Seq<char>) -> Seq<char> {
    lowercase(spaces_to_hyphens(device_name)) + ".local."@
}

fn replace_spaces(s: &str) -> (r: String)
    ensures
        r@ == spaces_to_hyphens(s@),
{
    let v = crate::protocol::char_vec(s);
    let mut r = String::new();
    let mut i: usize = 0;
    while i < v.len()
        invariant
            v@ == s@,
            i <= v@.len(),
            r@ == spaces_to_hyphens(s@).take(i as int),
        decreases v.len() - i,
    {
        let c = v[i];
        push_char(&mut r, if c == ' ' { '-' } else { c });
        assert(spaces_to_hyphens(s@).take(i + 1) =~= spaces_to_hyphens(s@).take(i as int).push(
            if c == ' ' { '-' } else { c },
        ));
        i += 1;
    }
    assert(spaces_to_hyphens(s@).take(v@.len() as int) =~= spaces_to_hyphens(s@));
    r
}

/// What this device advertises: the service type, its instance name (the
/// device name), its host name, its address, its port and one TXT property,
/// `name`, holding the device name.
pub struct ServiceRegistration {
    pub service_type: String,
    pub instance_name: String,
    pub host_name: String,
    pub address: String,
    pub port: u16,
    pub property_key: String,
    pub property_value: String,
}

/// The model of a registration.
pub struct RegistrationModel {
    pub service_type: Seq<char>,
    pub instance_name: Seq<char>,
    pub host_name: Seq<char>,
    pub address: Seq<char>,
    pub port: u16,
    pub property_key: Seq<char>,
    pub property_value: Seq<char>,
}

impl View for ServiceRegistration {
    type V = RegistrationModel;

    open spec fn view(&self) -> RegistrationModel {
        RegistrationModel {
            service_type: self.service_type@,
            instance_name: self.instance_name@,
            host_name: self.host_name@,
            address: self.address@,
            port: self.port,
            property_key: self.property_key@,
            property_value: self.property_value@,
        }
    }
}

/// The key of the TXT property that carries a device's name.
pub open spec fn name_key() -> Seq<char> {
    "name"@
}

/// What a device named `device_name` advertises, reachable at `local_ip`
/// and `port`.
pub open spec fn registration(device_name: Seq<char>, local_ip: Seq<char>, port: u16) -> RegistrationModel {
    RegistrationModel {
        service_type: service_type(),
        instance_name: device_name,
        host_name: host_name(device_name),
        address: local_ip,
        port,
        property_key: name_key(),
        property_value: device_name,
    }
}

/// The registration of this device.
pub fn service_registration(device_name: &str, local_ip: &str, port: u16) -> (r: ServiceRegistration)
    ensures
        r@ == registration(device_name@, local_ip@, port),
{
    let mut host = to_lowercase(replace_spaces(device_name).as_str());
    push_str(&mut host, ".local.");
    ServiceRegistration {
        service_type: owned("_droplink._tcp.local."),
        instance_name: owned(device_name),
        host_name: host,
        address: owned(local_ip),
        port,
        property_key: owned("name"),
        property_value: owned(device_name),
    }
}

/// The service record of the `mdns-sd` crate, carried opaque to the daemon.
#[verifier::external_type_specification]
#[verifier::external_body]
pub struct ExServiceInfo(mdns_sd::ServiceInfo);

/// The error type of the `mdns-sd` crate, carried opaque until it is
/// turned into text.
#[verifier::external_type_specification]
#[verifier::external_body]
pub struct ExMdnsError(mdns_sd::Error);

/// Whether every comma-separated, trimmed part of an address text parses as
/// an IP address (`<&str as mdns_sd::AsIpAddrs>::as_ip_addrs` succeeds).
pub uninterp spec fn addresses_parse(ip: Seq<char>) -> bool;

/// Whether a text can be the key of a TXT property (RFC 6763, section
/// 6.4): ASCII only, and no `=`.
pub open spec fn txt_key_valid(key: Seq<char>) -> bool {
    forall|i: int| 0 <= i < key.len() ==> (#[trigger] key[i] as u32) < 128 && key[i] != '='
}

/// Calls `mdns_sd::ServiceInfo::new` with the fields of a registration: its
/// service type, instance name, host name, address text and port, and one
/// TXT property (key, value). In the crate's source it fails exactly when
/// the address text is not empty and one of its comma-separated parts is
/// not an IP address, or when the property key is not ASCII or holds `=`.
/// The record it builds is opaque here: nothing is stated of its fields.
#[verifier::external_body]
fn new_service_info(reg: &ServiceRegistration) -> (r: Result<mdns_sd::ServiceInfo, mdns_sd::Error>)
    ensures
        r is Ok <==> ((reg@.address.len() == 0 || addresses_parse(reg@.address))
            && txt_key_valid(reg@.property_key)),
{
    let mut properties = std::collections::HashMap::new();
    properties.insert(reg.property_key.clone(), reg.property_value.clone());
    mdns_sd::ServiceInfo::new(
        reg.service_type.as_str(),
        reg.instance_name.as_str(),
        reg.host_name.as_str(),
        reg.address.as_str(),
        reg.port,
        Some(properties),
    )
}

/// The registration of a device carries a valid TXT key, so its record is
/// refused only for an invalid address.
pub proof fn lemma_registration_key_valid(device_name: Seq<char>, local_ip: Seq<char>, port: u16)
    ensures
        txt_key_valid(registration(device_name, local_ip, port).property_key),
{
    reveal_strlit("name");
}

/// Whether `record` is what `mdns_sd::ServiceInfo::new` gave when it was
/// handed exactly the fields of the registration `reg` (its service type,
/// instance name, host name, address, port and TXT property).
pub closed spec fn built_from(reg: RegistrationModel, record: Result<mdns_sd::ServiceInfo, ()>) -> bool {
    exists|r: &ServiceRegistration, raw: Result<mdns_sd::ServiceInfo, mdns_sd::Error>|
        r@ == reg && call_ensures(new_service_info, (r,), raw) && match (raw, record) {
            (Ok(a), Ok(b)) => a == b,
            (Err(_), Err(_)) => true,
            _ => false,
        }
}

impl ServiceRegistration {
    /// The mDNS service record of this registration: the one the mDNS crate
    /// builds from exactly its service type, instance name, host name,
    /// address, port and TXT property; or the text of the error when the
    /// address or the property key is not valid.
    pub fn service_info(&self) -> (r: Result<mdns_sd::ServiceInfo, String>)
        ensures
            r is Ok <==> ((self@.address.len() == 0 || addresses_parse(self@.address))
                && txt_key_valid(self@.property_key)),
            built_from(
                self@,
                match r {
                    Ok(info) => Ok(info),
                    Err(_) => Err(()),
                },
            ),
    {
        let build = new_service_info;
        let raw = build(self);
        match raw {
            Ok(info) => Ok(info),
            Err(e) => Err(e.to_string()),
        }
    }
}

// ------------------------------------------------------------------------
// Browsing
// ------------------------------------------------------------------------

/// An IP address as the browser reports it.
#[derive(Debug, Clone, Copy, PartialEq, Eq)]
pub enum IpAddress {
    V4([u8; 4]),
    V6([u16; 8]),
}

/// What the mDNS browser reported.
pub enum ServiceObservation {
    /// A service was resolved: its `name` TXT property, if any, its full
    /// name, its addresses (in the order the browser listed them) and its
    /// port.
    Resolved { name_property: Option<String>, fullname: String, addresses: Vec<IpAddress>, port: u16 },
    /// The service with this full name was removed.
    Removed { fullname: String },
    /// Any other browser event.
    Other,
    /// The browser's channel is closed.
    Closed,
}

/// What to do with a browser report.
pub enum BrowseStep {
    /// Pass this event on.
    Report(DiscoveryEvent),
    /// Ignore the report and keep listening.
    Skip,
    /// Stop listening.
    Stop,
}

/// The model of what to do with a browser report.
pub enum BrowseStepModel {
    Report(DiscoveryEventModel),
    Skip,
    Stop,
}

impl View for BrowseStep {
    type V = BrowseStepModel;

    open spec fn view(&self) -> BrowseStepModel {
        match self {
            BrowseStep::Report(e) => BrowseStepModel::Report(e@),
            BrowseStep::Skip => BrowseStepModel::Skip,
            BrowseStep::Stop => BrowseStepModel::Stop,
        }
    }
}

/// The first IPv4 address of a list.
pub open spec fn first_ipv4(addrs: Seq<IpAddress>) -> Option<[u8; 4]>
    decreases addrs.len(),
{
    if addrs.len() == 0 {
        None
    } else {
        match addrs[0] {
            IpAddress::V4(o) => Some(o),
            IpAddress::V6(_) => first_ipv4(addrs.drop_first()),
        }
    }
}

/// The name a resolved service goes by: its `name` property, or its full
/// name when it has none.
pub open spec fn resolved_name(name_property: Option<Seq<char>>, fullname: Seq<char>) -> Seq<char> {
    match name_property {
        Some(n) => n,
        None => fullname,
    }
}

/// What to do with a resolved service, for the device named `own_name`:
/// this device itself is ignored, and so is a device with no IPv4 address.
pub open spec fn resolved_step(
    own_name: Seq<char>,
    name_property: Option<Seq<char>>,
    fullname: Seq<char>,
    addresses: Seq<IpAddress>,
    port: u16,
) -> BrowseStepModel {
    let name = resolved_name(name_property, fullname);
    if name == own_name {
        BrowseStepModel::Skip
    } else {
        match first_ipv4(addresses) {
            Some(o) => BrowseStepModel::Report(
                DiscoveryEventModel::DeviceFound(DeviceModel { name, ip: ipv4_text(o), port }),
            ),
            None => BrowseStepModel::Skip,
        }
    }
}

fn find_ipv4(addrs: &Vec<IpAddress>) -> (r: Option<[u8; 4]>)
    ensures
        r == first_ipv4(addrs@),
{
    let mut i: usize = 0;
    assert(addrs@.skip(0) =~= addrs@);
    while i < addrs.len()
        invariant
            i <= addrs@.len(),
            first_ipv4(addrs@) == first_ipv4(addrs@.skip(i as int)),
        decreases addrs.len() - i,
    {
        let ghost rest = addrs@.skip(i as int);
        match addrs[i] {
            IpAddress::V4(o) => {
                assert(rest[0] == addrs@[i as int]);
                return Some(o);
            },
            IpAddress::V6(_) => {
                assert(rest[0] == addrs@[i as int]);
                assert(rest.drop_first() =~= addrs@.skip(i + 1));
            },
        }
        i += 1;
    }
    assert(addrs@.skip(i as int).len() == 0);
    None
}

/// Decides what to do with a browser report, for the device named
/// `own_name`.
pub fn classify(own_name: &str, obs: ServiceObservation) -> (step: BrowseStep)
    ensures
        match obs {
            ServiceObservation::Resolved { name_property, fullname, addresses, port } => step@
                == resolved_step(
                own_name@,
                match name_property {
                    Some(n) => Some(n@),
                    None => None,
                },
                fullname@,
                addresses@,
                port,
            ),
            ServiceObservation::Removed { fullname } => step@ == BrowseStepModel::Report(
                DiscoveryEventModel::DeviceLost(fullname@),
            ),
            ServiceObservation::Other => step@ == BrowseStepModel::Skip,
            ServiceObservation::Closed => step@ == BrowseStepModel::Stop,
        },
{
    match obs {
        ServiceObservation::Resolved { name_property, fullname, addresses, port } => {
            let name = match name_property {
                Some(n) => n,
                None => fullname,
            };
            if same_text(name.as_str(), own_name) {
                return BrowseStep::Skip;
            }
            match find_ipv4(&addresses) {
                Some(o) => BrowseStep::Report(
                    DiscoveryEvent::DeviceFound(DeviceInfo { name, ip: format_ipv4(o), port }),
                ),
                None => BrowseStep::Skip,
            }
        },
        ServiceObservation::Removed { fullname } => BrowseStep::Report(
            DiscoveryEvent::DeviceLost(fullname),
        ),
        ServiceObservation::Other => BrowseStep::Skip,
        ServiceObservation::Closed => BrowseStep::Stop,
    }
}

/// A resolved service is skipped exactly when its name (its `name`
/// property, else its full name) is this device's name or it lists no IPv4
/// address; any other is reported as found, under that name, at the first
/// IPv4 address it lists, with its port.
pub proof fn lemma_resolved_reported_unless_self_or_no_ipv4(
    own_name: Seq<char>,
    name_property: Option<Seq<char>>,
    fullname: Seq<char>,
    addresses: Seq<IpAddress>,
    port: u16,
)
    ensures
        ({
            let name = match name_property {
                Some(n) => n,
                None => fullname,
            };
            let has_v4 = exists|i: int| 0 <= i < addresses.len() && addresses[i] is V4;
            &&& resolved_step(own_name, name_property, fullname, addresses, port) is Skip <==> (
            name == own_name || !has_v4)
            &&& (name != own_name && has_v4) ==> exists|i: int, o: [u8; 4]|
                {
                    &&& 0 <= i < addresses.len()
                    &&& addresses[i] == IpAddress::V4(o)
                    &&& forall|j: int| 0 <= j < i ==> (#[trigger] addresses[j]) is V6
                    &&& resolved_step(own_name, name_property, fullname, addresses, port)
                        == BrowseStepModel::Report(
                        DiscoveryEventModel::DeviceFound(
                            DeviceModel { name, ip: ipv4_text(o), port },
                        ),
                    )
                }
        }),
{
    lemma_first_ipv4(addresses);
}

proof fn lemma_first_ipv4(addrs: Seq<IpAddress>)
    ensures
        first_ipv4(addrs) is None <==> !(exists|i: int| 0 <= i < addrs.len() && addrs[i] is V4),
        first_ipv4(addrs) matches Some(o) ==> exists|i: int|
            {
                &&& 0 <= i < addrs.len()
                &&& addrs[i] == IpAddress::V4(o)
                &&& forall|j: int| 0 <= j < i ==> (#[trigger] addrs[j]) is V6
            },
    decreases addrs.len(),
{
    if addrs.len() > 0 {
        let rest = addrs.drop_first();
        lemma_first_ipv4(rest);
        match addrs[0] {
            IpAddress::V4(o) => {
                assert(addrs[0] == IpAddress::V4(o));
            },
            IpAddress::V6(_) => {
                if exists|i: int| 0 <= i < addrs.len() && addrs[i] is V4 {
                    let i = choose|i: int| 0 <= i < addrs.len() && addrs[i] is V4;
                    assert(rest[i - 1] == addrs[i]);
                }
                if exists|i: int| 0 <= i < rest.len() && rest[i] is V4 {
                    let i = choose|i: int| 0 <= i < rest.len() && rest[i] is V4;
                    assert(rest[i] == addrs[i + 1]);
                }
                if let Some(o) = first_ipv4(rest) {
                    let i = choose|i: int|
                        {
                            &&& 0 <= i < rest.len()
                            &&& rest[i] == IpAddress::V4(o)
                            &&& forall|j: int| 0 <= j < i ==> (#[trigger] rest[j]) is V6
                        };
                    assert(addrs[i + 1] == rest[i]);
                    assert forall|j: int| 0 <= j < i + 1 implies (#[trigger] addrs[j]) is V6 by {
                        if j > 0 {
                            assert(addrs[j] == rest[j - 1]);
                        }
                    }
                }
            },
        }
    }
}

/// This device is never reported as found, and a found device always has
/// an IPv4 address in dotted-decimal form.
pub proof fn lemma_found_is_other_ipv4_device(
    own_name: Seq<char>,
    name_property: Option<Seq<char>>,
    fullname: Seq<char>,
    addresses: Seq<IpAddress>,
    port: u16,
)
    ensures
        resolved_step(own_name, name_property, fullname, addresses, port) matches
            BrowseStepModel::Report(DiscoveryEventModel::DeviceFound(d)) ==> {
            &&& d.name != own_name
            &&& d.port == port
            &&& exists|o: [u8; 4]| first_ipv4(addresses) == Some(o) && d.ip == ipv4_text(o)
        },
{
    if let Some(o) = first_ipv4(addresses) {
        assert(first_ipv4(addresses) == Some(o));
    }
}

// ------------------------------------------------------------------------
// Port search
// ------------------------------------------------------------------------

/// A search for the first port in `start..=end` that can be bound,
/// trying the ports in increasing order; when none of them can, the search
/// falls back to `start`. An empty range gives no port.
pub struct PortScan {
    start: u16,
    current: u16,
    end: u16,
}

/// The model of a port search: the range and the port being tried.
pub struct PortScanModel {
    pub start: u16,
    pub current: u16,
    pub end: u16,
}

impl View for PortScan {
    type V = PortScanModel;

    closed spec fn view(&self) -> PortScanModel {
        PortScanModel { start: self.start, current: self.current, end: self.end }
    }
}

/// What to do next in a port search.
pub enum ScanStep {
    /// Try to bind this port.
    Probe(u16),
    /// This port is free.
    Found(u16),
    /// No port of the range is free: this port (the start of the range) is
    /// used all the same.
    Fallback(u16),
    /// The range is empty: there is no port to use.
    Empty,
}

impl PortScan {
    /// The port being tried lies in the range.
    pub open spec fn wf(&self) -> bool {
        self@.start <= self@.current <= self@.end
    }

    /// Starts a search over `start..=end`.
    pub fn start(start: u16, end: u16) -> (r: (PortScan, ScanStep))
        ensures
            start <= end ==> r.0.wf() && r.0@ == (PortScanModel { start, current: start, end })
                && r.1 == ScanStep::Probe(start),
            start > end ==> r.1 == ScanStep::Empty,
    {
        (PortScan { start, current: start, end }, if start <= end {
            ScanStep::Probe(start)
        } else {
            ScanStep::Empty
        })
    }

    /// Continues with whether the port being tried could be bound: a free
    /// port ends the search; otherwise the next port is tried, and after
    /// the last port of the range the search falls back to its start.
    pub fn on_probe(&mut self, bound: bool) -> (step: ScanStep)
        requires
            old(self).wf(),
        ensures
            final(self).wf(),
            final(self)@.start == old(self)@.start,
            final(self)@.end == old(self)@.end,
            bound ==> step == ScanStep::Found(old(self)@.current) && final(self)@ == old(self)@,
            !bound && old(self)@.current < old(self)@.end ==> step == ScanStep::Probe(
                (old(self)@.current + 1) as u16,
            ) && final(self)@.current == old(self)@.current + 1,
            !bound && old(self)@.current == old(self)@.end ==> step == ScanStep::Fallback(
                old(self)@.start,
            ) && final(self)@ == old(self)@,
    {
        if bound {
            ScanStep::Found(self.current)
        } else if self.current < self.end {
            self.current = self.current + 1;
            ScanStep::Probe(self.current)
        } else {
            ScanStep::Fallback(self.start)
        }
    }
}

} // verus!
