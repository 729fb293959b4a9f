//! Service descriptions as `mdns_sd` makes them, with what is read from them as plain values.

use crate::ip::is_ip_text;
use crate::ip::texts;
use crate::text::has_infix;
use crate::text::has_suffix;
use vstd::prelude::*;

verus! {

/// A service as `mdns_sd` registers it.
#[verifier::external_type_specification]
#[verifier::external_body]
pub struct ExMdnsServiceInfo(mdns_sd::ServiceInfo);

/// What a service is registered with.
pub ghost struct ServiceView {
    pub ty_domain: Seq<char>,
    pub fullname: Seq<char>,
    pub hostname: Seq<char>,
    pub addresses: Set<Seq<char>>,
    pub port: u16,
    pub properties: Seq<(Seq<char>, Seq<char>)>,
}

/// What `mdns_sd::ServiceInfo::get_type` gives.
pub uninterp spec fn info_type(info: mdns_sd::ServiceInfo) -> Seq<char>;

/// What `mdns_sd::ServiceInfo::get_fullname` gives.
pub uninterp spec fn info_fullname(info: mdns_sd::ServiceInfo) -> Seq<char>;

/// What `mdns_sd::ServiceInfo::get_hostname` gives.
pub uninterp spec fn info_hostname(info: mdns_sd::ServiceInfo) -> Seq<char>;

/// What `mdns_sd::ServiceInfo::get_addresses` gives, each address as it is printed.
pub uninterp spec fn info_addresses(info: mdns_sd::ServiceInfo) -> Set<Seq<char>>;

/// What `mdns_sd::ServiceInfo::get_port` gives.
pub uninterp spec fn info_port(info: mdns_sd::ServiceInfo) -> u16;

/// What `mdns_sd::ServiceInfo::get_properties` gives: keys and values, in their order.
pub uninterp spec fn info_properties(info: mdns_sd::ServiceInfo) -> Seq<(Seq<char>, Seq<char>)>;

/// What the getters of `mdns_sd::ServiceInfo` give.
pub open spec fn read_back(info: mdns_sd::ServiceInfo) -> ServiceView {
    ServiceView {
        ty_domain: info_type(info),
        fullname: info_fullname(info),
        hostname: info_hostname(info),
        addresses: info_addresses(info),
        port: info_port(info),
        properties: info_properties(info),
    }
}

/// What a service is registered with: its type and domain, the name of the instance
/// with them, the name of its host, the addresses of that host, its port, and the keys
/// and values of its TXT record.
#[derive(Debug)]
pub struct ServiceDescription {
    pub ty_domain: String,
    pub fullname: String,
    pub hostname: String,
    pub addresses: Vec<String>,
    pub port: u16,
    pub properties: Vec<(String, String)>,
}

impl View for ServiceDescription {
    type V = ServiceView;

    open spec fn view(&self) -> ServiceView {
        ServiceView {
            ty_domain: self.ty_domain@,
            fullname: self.fullname@,
            hostname: self.hostname@,
            addresses: texts(self.addresses@).to_set(),
            port: self.port,
            properties: self.properties@.map_values(|p: (String, String)| (p.0@, p.1@)),
        }
    }
}

/// A service that is ready to be registered.
#[derive(Debug)]
pub struct ServiceRecord {
    description: ServiceDescription,
    info: mdns_sd::ServiceInfo,
}

impl View for ServiceRecord {
    type V = ServiceView;

    closed spec fn view(&self) -> ServiceView {
        self.description@
    }
}

impl ServiceRecord {
    /// The value that `mdns_sd` made for this service.
    pub closed spec fn spec_info(self) -> mdns_sd::ServiceInfo {
        self.info
    }

    /// What the service is registered with.
    pub fn description(&self) -> (description: &ServiceDescription)
        ensures
            description@ == self@,
    {
        &self.description
    }

    /// The full name of the service instance, by which it is unregistered.
    pub fn get_fullname(&self) -> (fullname: &str)
        ensures
            fullname@ == self@.fullname,
    {
        self.description.fullname.as_str()
    }

    /// The value that is handed to the mDNS daemon.
    pub fn info(&self) -> (info: &mdns_sd::ServiceInfo)
        ensures
            *info == self.spec_info(),
    {
        &self.info
    }
}

/// A host name with one `local.` dropped where it ends in two.
pub open spec fn normalized_hostname(host_name: Seq<char>) -> Seq<char> {
    if has_suffix(host_name, ".local.local."@) {
        host_name.subrange(0, host_name.len() - "local."@.len())
    } else {
        host_name
    }
}

/// What may be the key of a TXT property: ASCII without the equals sign.
pub open spec fn is_txt_key(key: Seq<char>) -> bool {
    forall|i: int| 0 <= i < key.len() ==> (#[trigger] key[i] as u32) < 128 && key[i] != '='
}

/// What a service is registered with that was given these values.
pub open spec fn described(
    ty_domain: Seq<char>,
    my_name: Seq<char>,
    host_name: Seq<char>,
    ip: Seq<char>,
    port: u16,
    key: Seq<char>,
    value: Seq<char>,
) -> ServiceView {
    ServiceView {
        ty_domain,
        fullname: my_name + "."@ + ty_domain,
        hostname: normalized_hostname(host_name),
        addresses: set![ip],
        port,
        properties: seq![(key, value)],
    }
}

/// Calls `mdns_sd::ServiceInfo::new` with one address and one TXT property, and reads back
/// with its getters what it made. Claimed of it, for a type that names no subtype: it fails
/// exactly where the key is not one for a TXT record; otherwise the full name is the
/// instance name, a dot and the type, the host name is normalized, and type, address, port
/// and property are those that were given. Of the rest (the subtype, the lifetimes of the
/// records, priority, weight, probing), which `mdns_sd` sets by itself, nothing is said.
#[verifier::external_body]
pub(crate) fn new_service_info(
    ty_domain: &str,
    my_name: &str,
    host_name: &str,
    ip: &str,
    port: u16,
    key: &str,
    value: &str,
) -> (made: Option<ServiceRecord>)
    requires
        !has_infix(ty_domain@, "._sub."@),
        is_ip_text(ip@),
    ensures
        made is Some <==> is_txt_key(key@),
        made matches Some(record) ==> record@ == (ServiceView {
            ty_domain: info_type(record.spec_info()),
            fullname: info_fullname(record.spec_info()),
            hostname: info_hostname(record.spec_info()),
            addresses: info_addresses(record.spec_info()),
            port: info_port(record.spec_info()),
            properties: info_properties(record.spec_info()),
        }),
        made matches Some(record) ==> record@ == described(
            ty_domain@,
            my_name@,
            host_name@,
            ip@,
            port,
            key@,
            value@,
        ),
{
    let info = mdns_sd::ServiceInfo::new(ty_domain, my_name, host_name, ip, port, &[(key, value)][..]).ok()?;
    let description = ServiceDescription {
        ty_domain: info.get_type().to_string(),
        fullname: info.get_fullname().to_string(),
        hostname: info.get_hostname().to_string(),
        addresses: info.get_addresses().iter().map(|a| a.to_string()).collect(),
        port: info.get_port(),
        properties: info.get_properties().iter().map(|p| (p.key().to_string(), p.val_str().to_string())).collect(),
    };
    Some(ServiceRecord { description, info })
}

} // verus!
