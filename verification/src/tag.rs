use vstd::prelude::*;

verus! {

/// One batch of populator changes for a custom-dimension column, as the
/// API takes it.
#[derive(Debug)]
pub struct Request {
    pub replace_all: bool,
    pub complete: bool,
    pub ttl_minutes: u32,
    pub upserts: Vec<Upsert>,
    pub deletes: Vec<Delete>,
}

/// One value set or updated: with a single criterion, or with a list.
#[derive(Debug, PartialEq, Eq)]
pub enum Upsert {
    Small(Small),
    Large(Large),
}

/// An upsert whose criteria are exactly one rule.
#[derive(Debug, PartialEq, Eq)]
pub struct Small {
    pub value: String,
    pub criteria: (Rule,),
}

/// An upsert whose criteria are a list of rule sets.
#[derive(Clone, Debug, PartialEq, Eq)]
pub struct Large {
    pub value: String,
    pub criteria: Vec<Rules>,
}

/// One set of matching criteria: every listed field an independent match
/// list, empty when unused.
#[derive(Clone, Debug, PartialEq, Eq)]
pub struct Rules {
    pub direction: Option<String>,
    pub port: Vec<String>,
    pub protocol: Vec<u64>,
    pub asn: Vec<String>,
    pub vlans: Vec<String>,
    pub lasthop_as_name: Vec<String>,
    pub nexthop_asn: Vec<String>,
    pub nexthop_as_name: Vec<String>,
    pub bgp_aspath: Vec<String>,
    pub bgp_community: Vec<String>,
    pub tcp_flags: Option<u16>,
    pub addr: Vec<String>,
    pub mac: Vec<String>,
    pub country: Vec<String>,
    pub site: Vec<String>,
    pub device_type: Vec<String>,
    pub interface_name: Vec<String>,
    pub device_name: Vec<String>,
    pub next_hop: Vec<String>,
}

/// Whether a criteria set matches on nothing at all: every field unused.
pub open spec fn rules_unused(r: Rules) -> bool {
    &&& r.direction is None
    &&& r.port@ == Seq::<String>::empty()
    &&& r.protocol@ == Seq::<u64>::empty()
    &&& r.asn@ == Seq::<String>::empty()
    &&& r.vlans@ == Seq::<String>::empty()
    &&& r.lasthop_as_name@ == Seq::<String>::empty()
    &&& r.nexthop_asn@ == Seq::<String>::empty()
    &&& r.nexthop_as_name@ == Seq::<String>::empty()
    &&& r.bgp_aspath@ == Seq::<String>::empty()
    &&& r.bgp_community@ == Seq::<String>::empty()
    &&& r.tcp_flags is None
    &&& r.addr@ == Seq::<String>::empty()
    &&& r.mac@ == Seq::<String>::empty()
    &&& r.country@ == Seq::<String>::empty()
    &&& r.site@ == Seq::<String>::empty()
    &&& r.device_type@ == Seq::<String>::empty()
    &&& r.interface_name@ == Seq::<String>::empty()
    &&& r.device_name@ == Seq::<String>::empty()
    &&& r.next_hop@ == Seq::<String>::empty()
}

impl Default for Rules {
    fn default() -> (r: Rules)
        ensures
            rules_unused(r),
    {
        Rules {
            direction: None,
            port: Vec::new(),
            protocol: Vec::new(),
            asn: Vec::new(),
            vlans: Vec::new(),
            lasthop_as_name: Vec::new(),
            nexthop_asn: Vec::new(),
            nexthop_as_name: Vec::new(),
            bgp_aspath: Vec::new(),
            bgp_community: Vec::new(),
            tcp_flags: None,
            addr: Vec::new(),
            mac: Vec::new(),
            country: Vec::new(),
            site: Vec::new(),
            device_type: Vec::new(),
            interface_name: Vec::new(),
            device_name: Vec::new(),
            next_hop: Vec::new(),
        }
    }
}

/// A single matching criterion: at most one field set, each a one-element
/// group.
#[derive(Clone, Debug, PartialEq, Eq)]
pub struct Rule {
    pub direction: Option<String>,
    pub port: Option<(String,)>,
    pub protocol: Option<[u64; 1]>,
    pub asn: Option<(String,)>,
    pub vlans: Option<(String,)>,
    pub lasthop_as_name: Option<(String,)>,
    pub nexthop_asn: Option<(String,)>,
    pub nexthop_as_name: Option<(String,)>,
    pub bgp_aspath: Option<(String,)>,
    pub bgp_community: Option<(String,)>,
    pub tcp_flags: Option<(u16,)>,
    pub addr: Option<(String,)>,
    pub mac: Option<(String,)>,
    pub country: Option<(String,)>,
    pub site: Option<(String,)>,
    pub device_type: Option<(String,)>,
    pub interface_name: Option<(String,)>,
    pub device_name: Option<(String,)>,
    pub next_hop: Option<(String,)>,
}

/// Whether a single criterion matches on nothing at all: every field
/// unset.
pub open spec fn rule_unused(r: Rule) -> bool {
    &&& r.direction is None
    &&& r.port is None
    &&& r.protocol is None
    &&& r.asn is None
    &&& r.vlans is None
    &&& r.lasthop_as_name is None
    &&& r.nexthop_asn is None
    &&& r.nexthop_as_name is None
    &&& r.bgp_aspath is None
    &&& r.bgp_community is None
    &&& r.tcp_flags is None
    &&& r.addr is None
    &&& r.mac is None
    &&& r.country is None
    &&& r.site is None
    &&& r.device_type is None
    &&& r.interface_name is None
    &&& r.device_name is None
    &&& r.next_hop is None
}

impl Default for Rule {
    fn default() -> (r: Rule)
        ensures
            rule_unused(r),
    {
        Rule {
            direction: None,
            port: None,
            protocol: None,
            asn: None,
            vlans: None,
            lasthop_as_name: None,
            nexthop_asn: None,
            nexthop_as_name: None,
            bgp_aspath: None,
            bgp_community: None,
            tcp_flags: None,
            addr: None,
            mac: None,
            country: None,
            site: None,
            device_type: None,
            interface_name: None,
            device_name: None,
            next_hop: None,
        }
    }
}

/// One value removed from a column.
#[derive(Clone, Debug, PartialEq, Eq)]
pub struct Delete {
    pub value: String,
}

/// What the API answers a populator batch with.
#[derive(Clone, Debug, PartialEq, Eq)]
pub struct Response {
    message: String,
    guid: String,
}

impl Response {
    pub closed spec fn spec_message(&self) -> Seq<char> {
        self.message@
    }

    pub closed spec fn spec_guid(&self) -> Seq<char> {
        self.guid@
    }

    pub fn new(message: String, guid: String) -> (r: Response)
        ensures
            r.spec_message() == message@,
            r.spec_guid() == guid@,
    {
        Response { message, guid }
    }

    pub fn guid(&self) -> (g: &String)
        ensures
            g@ == self.spec_guid(),
    {
        &self.guid
    }
}

} // verus!
