use vstd::prelude::*;
use vstd::string::StringExecFns;
use crate::tag;

verus! {

/// One populator change for a column: set values, or remove one.
#[derive(Debug, PartialEq, Eq)]
pub enum Change {
    Upsert(Upsert),
    Delete(Delete),
}

/// Values being set on one column, built up value by value, each with its
/// matching rules.
#[derive(Debug, PartialEq, Eq)]
pub struct Upsert(String, Values);

/// One value removed: the column and the value.
#[derive(Debug, PartialEq, Eq)]
pub struct Delete(pub String, pub String);

/// The values of an upsert with their rules, keyed by value. Keys are
/// distinct; the order of first insertion is kept.
#[derive(Debug, PartialEq, Eq)]
pub struct Values(Vec<(String, Rules)>);

/// The matching rules attached to one value: a single rule, a conjunction,
/// or none yet.
#[derive(Debug, PartialEq, Eq)]
pub enum Rules {
    One(Rule),
    All(Vec<Rule>),
    Empty,
}

/// A single matching rule: an address, in its textual form, or a port.
#[derive(Debug, PartialEq, Eq)]
pub enum Rule {
    IP(String),
    Port(u16),
}

impl Clone for Rule {
    fn clone(&self) -> (r: Self)
        ensures
            r == *self,
    {
        match self {
            Rule::IP(ip) => Rule::IP(ip.clone()),
            Rule::Port(port) => Rule::Port(*port),
        }
    }
}

/// The character of one decimal digit.
pub open spec fn digit_char(d: nat) -> char {
    if d == 0 {
        '0'
    } else if d == 1 {
        '1'
    } else if d == 2 {
        '2'
    } else if d == 3 {
        '3'
    } else if d == 4 {
        '4'
    } else if d == 5 {
        '5'
    } else if d == 6 {
        '6'
    } else if d == 7 {
        '7'
    } else if d == 8 {
        '8'
    } else {
        '9'
    }
}

/// The decimal rendering of a number: no sign, no leading zero but for the
/// number zero itself.
pub open spec fn dec_digits(n: nat) -> Seq<char>
    decreases n,
{
    if n < 10 {
        seq![digit_char(n)]
    } else {
        dec_digits(n / 10) + seq![digit_char(n % 10)]
    }
}

fn digit_str(d: u16) -> (s: &'static str)
    requires
        d < 10,
    ensures
        s@ == seq![digit_char(d as nat)],
{
    if d == 0 {
        proof {
            reveal_strlit("0");
            assert("0"@ =~= seq![digit_char(0)]);
        }
        "0"
    } else if d == 1 {
        proof {
            reveal_strlit("1");
            assert("1"@ =~= seq![digit_char(1)]);
        }
        "1"
    } else if d == 2 {
        proof {
            reveal_strlit("2");
            assert("2"@ =~= seq![digit_char(2)]);
        }
        "2"
    } else if d == 3 {
        proof {
            reveal_strlit("3");
            assert("3"@ =~= seq![digit_char(3)]);
        }
        "3"
    } else if d == 4 {
        proof {
            reveal_strlit("4");
            assert("4"@ =~= seq![digit_char(4)]);
        }
        "4"
    } else if d == 5 {
        proof {
            reveal_strlit("5");
            assert("5"@ =~= seq![digit_char(5)]);
        }
        "5"
    } else if d == 6 {
        proof {
            reveal_strlit("6");
            assert("6"@ =~= seq![digit_char(6)]);
        }
        "6"
    } else if d == 7 {
        proof {
            reveal_strlit("7");
            assert("7"@ =~= seq![digit_char(7)]);
        }
        "7"
    } else if d == 8 {
        proof {
            reveal_strlit("8");
            assert("8"@ =~= seq![digit_char(8)]);
        }
        "8"
    } else {
        proof {
            reveal_strlit("9");
            assert("9"@ =~= seq![digit_char(9)]);
        }
        "9"
    }
}

/// Render a port number in decimal.
pub fn port_text(port: u16) -> (s: String)
    ensures
        s@ == dec_digits(port as nat),
    decreases port,
{
    if port < 10 {
        digit_str(port).to_owned()
    } else {
        port_text(port / 10).concat(digit_str(port % 10))
    }
}

/// Whether no two entries carry the same key.
pub open spec fn distinct_keys(entries: Seq<(Seq<char>, Rules)>) -> bool {
    forall|i: int, j: int| 0 <= i < j < entries.len() ==> entries[i].0 != entries[j].0
}

/// The index of the first entry with the given key, if any.
pub open spec fn lookup(entries: Seq<(Seq<char>, Rules)>, key: Seq<char>) -> Option<int>
    decreases entries.len(),
{
    if entries.len() == 0 {
        None
    } else if entries[0].0 == key {
        Some(0)
    } else {
        match lookup(entries.drop_first(), key) {
            Some(i) => Some(i + 1),
            None => None,
        }
    }
}

/// What `lookup` finds: the first entry carrying the key, or the absence
/// of the key altogether.
pub proof fn lemma_lookup(entries: Seq<(Seq<char>, Rules)>, key: Seq<char>)
    ensures
        match lookup(entries, key) {
            Some(i) => 0 <= i < entries.len() && entries[i].0 == key && forall|j: int|
                0 <= j < i ==> entries[j].0 != key,
            None => forall|j: int| 0 <= j < entries.len() ==> entries[j].0 != key,
        },
    decreases entries.len(),
{
    if entries.len() > 0 && entries[0].0 != key {
        lemma_lookup(entries.drop_first(), key);
        assert forall|j: int| 1 <= j < entries.len() implies entries[j].0 == entries.drop_first()[
            j - 1
        ].0 by {}
    }
}

impl Upsert {
    /// The column the change addresses.
    pub closed spec fn spec_column(&self) -> Seq<char> {
        self.0@
    }

    /// The values and their rules, keys by view, in insertion order.
    pub closed spec fn entries(&self) -> Seq<(Seq<char>, Rules)> {
        self.1.0@.map_values(|p: (String, Rules)| (p.0@, p.1))
    }

    /// Keys are distinct.
    pub open spec fn wf(&self) -> bool {
        distinct_keys(self.entries())
    }

    /// The rules attached to `value`, to be read or replaced through the
    /// returned reference: the rules already there when the value is
    /// known, or a fresh empty set first added under it.
    pub fn value(&mut self, value: &str) -> (r: &mut Rules)
        requires
            old(self).wf(),
        ensures
            final(self).spec_column() == old(self).spec_column(),
            match lookup(old(self).entries(), value@) {
                Some(i) => {
                    &&& *r == old(self).entries()[i].1
                    &&& final(self).entries() == old(self).entries().update(
                        i,
                        (value@, *final(r)),
                    )
                },
                None => {
                    &&& *r == Rules::Empty
                    &&& final(self).entries() == old(self).entries().push((value@, *final(r)))
                },
            },
    {
        proof {
            lemma_lookup(old(self).entries(), value@);
        }
        let key = value.to_owned();
        let n = self.1.0.len();
        let mut i: usize = 0;
        while i < n
            invariant
                n == self.1.0@.len(),
                i <= n,
                *self == *old(self),
                key@ == value@,
                forall|j: int| 0 <= j < i ==> old(self).entries()[j].0 != value@,
            decreases n - i,
        {
            proof {
                assert(old(self).entries()[i as int].0 == self.1.0@[i as int].0@);
            }
            if self.1.0[i].0 == key {
                proof {
                    lemma_lookup(old(self).entries(), value@);
                    assert(old(self).entries()[i as int].0 == value@);
                    match lookup(old(self).entries(), value@) {
                        Some(k) => {
                            if k < i as int {
                                assert(old(self).entries()[k].0 == value@);
                            } else if k > i as int {
                                assert(old(self).entries()[i as int].0 != value@);
                            }
                        },
                        None => {
                            assert(old(self).entries()[i as int].0 != value@);
                        },
                    }
                    assert(lookup(old(self).entries(), value@) matches Some(k) && k == i as int);
                }
                let entry = &mut self.1.0[i];
                return &mut entry.1;
            }
            i = i + 1;
        }
        proof {
            assert(lookup(old(self).entries(), value@) is None);
        }
        self.1.0.push((key, Rules::Empty));
        let entry = &mut self.1.0[n];
        &mut entry.1
    }
}

/// Begin an upsert of the given column, with no values yet.
pub fn upsert(column: &str) -> (u: Upsert)
    ensures
        u.spec_column() == column@,
        u.entries() == Seq::<(Seq<char>, Rules)>::empty(),
        u.wf(),
{
    let u = Upsert(column.to_owned(), Values(Vec::new()));
    proof {
        assert(u.entries() =~= Seq::<(Seq<char>, Rules)>::empty());
    }
    u
}

impl Rules {
    /// Make the rules exactly the given one, whatever stood before.
    pub fn when(&mut self, rule: Rule) -> (r: &mut Rules)
        ensures
            *r == Rules::One(rule),
            *final(self) == *final(r),
    {
        *self = Rules::One(rule);
        self
    }

    /// Add a rule to the conjunction: a single rule becomes a conjunction
    /// of the two, a conjunction grows by one, an empty set becomes a
    /// conjunction of the one.
    pub fn and(&mut self, rule: Rule) -> (r: &mut Rules)
        ensures
            match *old(self) {
                Rules::One(one) => (*r) matches Rules::All(v) && v@ == seq![one, rule],
                Rules::All(rules) => (*r) matches Rules::All(v) && v@ == rules@.push(rule),
                Rules::Empty => (*r) matches Rules::All(v) && v@ == seq![rule],
            },
            *final(self) == *final(r),
    {
        match self {
            Rules::One(one) => {
                let first = one.clone();
                *self = Rules::All(vec![first, rule]);
            },
            Rules::All(rules) => {
                rules.push(rule);
            },
            Rules::Empty => {
                *self = Rules::All(vec![rule]);
            },
        }
        self
    }

    /// Whether no rule has been attached yet.
    pub fn is_empty(&self) -> (b: bool)
        ensures
            b == (*self is Empty),
    {
        matches!(self, Rules::Empty)
    }
}

/// Setting a value's rules: the first entry with the key is replaced, a
/// missing key is appended.
pub open spec fn upserted(entries: Seq<(Seq<char>, Rules)>, key: Seq<char>, rules: Rules) -> Seq<
    (Seq<char>, Rules),
> {
    match lookup(entries, key) {
        Some(i) => entries.update(i, (key, rules)),
        None => entries.push((key, rules)),
    }
}

/// Setting a value's rules never makes two entries share a key.
pub proof fn lemma_upserted_distinct(entries: Seq<(Seq<char>, Rules)>, key: Seq<char>, rules: Rules)
    requires
        distinct_keys(entries),
    ensures
        distinct_keys(upserted(entries, key, rules)),
{
    lemma_lookup(entries, key);
    match lookup(entries, key) {
        Some(i) => {
            assert forall|a: int, b: int|
                0 <= a < b < upserted(entries, key, rules).len() implies upserted(
                entries,
                key,
                rules,
            )[a].0 != upserted(entries, key, rules)[b].0 by {
                assert(entries[a].0 != entries[b].0);
                assert(entries[i].0 == key);
            }
        },
        None => {
            assert forall|a: int, b: int|
                0 <= a < b < upserted(entries, key, rules).len() implies upserted(
                entries,
                key,
                rules,
            )[a].0 != upserted(entries, key, rules)[b].0 by {
                if b < entries.len() {
                    assert(entries[a].0 != entries[b].0);
                } else {
                    assert(entries[a].0 != key);
                }
            }
        },
    }
}

/// The entries built by setting, in order, each listed value's rules to
/// the single rule beside it: later pairs override earlier ones with the
/// same value.
pub open spec fn rule_entries(pairs: Seq<(Seq<char>, Rule)>) -> Seq<(Seq<char>, Rules)>
    decreases pairs.len(),
{
    if pairs.len() == 0 {
        Seq::empty()
    } else {
        upserted(rule_entries(pairs.drop_last()), pairs.last().0, Rules::One(pairs.last().1))
    }
}

impl Upsert {
    /// An upsert of one column holding one value with the given rules.
    pub fn of_rules(column: &str, value: &str, rules: Rules) -> (u: Upsert)
        ensures
            u.spec_column() == column@,
            u.entries() == seq![(value@, rules)],
            u.wf(),
    {
        let mut u = upsert(column);
        let r = u.value(value);
        *r = rules;
        proof {
            assert(u.entries() =~= seq![(value@, rules)]);
        }
        u
    }

    /// An upsert of one column from listed values, each with one rule,
    /// set in order.
    pub fn of_rule_list(column: &str, pairs: &[(&str, Rule)]) -> (u: Upsert)
        ensures
            u.spec_column() == column@,
            u.entries() == rule_entries(pairs@.map_values(|p: (&str, Rule)| (p.0@, p.1))),
            u.wf(),
    {
        let ghost pview = pairs@.map_values(|p: (&str, Rule)| (p.0@, p.1));
        let mut u = upsert(column);
        proof {
            assert(pview.subrange(0, 0) =~= Seq::<(Seq<char>, Rule)>::empty());
        }
        let n = pairs.len();
        let mut i: usize = 0;
        while i < n
            invariant
                n == pairs@.len(),
                i <= n,
                pview == pairs@.map_values(|p: (&str, Rule)| (p.0@, p.1)),
                u.spec_column() == column@,
                u.entries() == rule_entries(pview.subrange(0, i as int)),
                u.wf(),
            decreases n - i,
        {
            let pair = &pairs[i];
            let ghost before = u.entries();
            let r = u.value(pair.0);
            *r = Rules::One(pair.1.clone());
            proof {
                assert(u.entries() == upserted(before, pview[i as int].0, Rules::One(
                    pview[i as int].1,
                )));
                assert(pview.subrange(0, i + 1).drop_last() =~= pview.subrange(0, i as int));
                assert(pview.subrange(0, i + 1).last() == pview[i as int]);
                lemma_upserted_distinct(before, pview[i as int].0, Rules::One(pview[i as int].1));
            }
            i = i + 1;
        }
        proof {
            assert(pview.subrange(0, n as int) =~= pview);
        }
        u
    }
}

/// The views of a group of strings.
pub open spec fn views_of(v: Seq<String>) -> Seq<Seq<char>> {
    v.map_values(|s: String| s@)
}

/// The address texts among a group of rules, in order.
pub open spec fn addrs_of(rules: Seq<Rule>) -> Seq<Seq<char>>
    decreases rules.len(),
{
    if rules.len() == 0 {
        Seq::empty()
    } else {
        addrs_of(rules.drop_last()) + (match rules.last() {
            Rule::IP(ip) => seq![ip@],
            Rule::Port(_) => Seq::empty(),
        })
    }
}

/// The port texts among a group of rules, in decimal, in order.
pub open spec fn ports_of(rules: Seq<Rule>) -> Seq<Seq<char>>
    decreases rules.len(),
{
    if rules.len() == 0 {
        Seq::empty()
    } else {
        ports_of(rules.drop_last()) + (match rules.last() {
            Rule::IP(_) => Seq::empty(),
            Rule::Port(p) => seq![dec_digits(p as nat)],
        })
    }
}

/// Whether a single wire criterion matches on nothing besides its address
/// and port fields.
pub open spec fn wire_rule_rest_unused(t: tag::Rule) -> bool {
    &&& t.direction is None
    &&& t.protocol is None
    &&& t.asn is None
    &&& t.vlans is None
    &&& t.lasthop_as_name is None
    &&& t.nexthop_asn is None
    &&& t.nexthop_as_name is None
    &&& t.bgp_aspath is None
    &&& t.bgp_community is None
    &&& t.tcp_flags is None
    &&& t.mac is None
    &&& t.country is None
    &&& t.site is None
    &&& t.device_type is None
    &&& t.interface_name is None
    &&& t.device_name is None
    &&& t.next_hop is None
}

/// What one rule renders to on the wire: an address rule sets the
/// address field alone, a port rule the port field alone, in decimal.
pub open spec fn wire_rule_of(t: tag::Rule, r: Rule) -> bool {
    &&& wire_rule_rest_unused(t)
    &&& match r {
        Rule::IP(ip) => t.addr matches Some(a) && a.0@ == ip@ && t.port is None,
        Rule::Port(p) => t.port matches Some(q) && q.0@ == dec_digits(p as nat) && t.addr is None,
    }
}

/// Whether a wire criteria set matches on nothing besides its address and
/// port lists.
pub open spec fn wire_rules_rest_unused(t: tag::Rules) -> bool {
    &&& t.direction is None
    &&& t.protocol@ == Seq::<u64>::empty()
    &&& t.asn@ == Seq::<String>::empty()
    &&& t.vlans@ == Seq::<String>::empty()
    &&& t.lasthop_as_name@ == Seq::<String>::empty()
    &&& t.nexthop_asn@ == Seq::<String>::empty()
    &&& t.nexthop_as_name@ == Seq::<String>::empty()
    &&& t.bgp_aspath@ == Seq::<String>::empty()
    &&& t.bgp_community@ == Seq::<String>::empty()
    &&& t.tcp_flags is None
    &&& t.mac@ == Seq::<String>::empty()
    &&& t.country@ == Seq::<String>::empty()
    &&& t.site@ == Seq::<String>::empty()
    &&& t.device_type@ == Seq::<String>::empty()
    &&& t.interface_name@ == Seq::<String>::empty()
    &&& t.device_name@ == Seq::<String>::empty()
    &&& t.next_hop@ == Seq::<String>::empty()
}

/// What a conjunction of rules renders to on the wire: its address texts
/// and its port texts, each in arrival order, and nothing else.
pub open spec fn wire_rules_of(t: tag::Rules, rules: Seq<Rule>) -> bool {
    &&& wire_rules_rest_unused(t)
    &&& views_of(t.addr@) == addrs_of(rules)
    &&& views_of(t.port@) == ports_of(rules)
}

/// What one value's upsert renders to on the wire: a single rule gives the
/// small form with that one criterion; a conjunction gives the large form
/// with one criteria set holding them all.
pub open spec fn wire_upsert_of(u: tag::Upsert, value: Seq<char>, rules: Rules) -> bool {
    match rules {
        Rules::One(r) => u matches tag::Upsert::Small(s) && s.value@ == value && wire_rule_of(
            s.criteria.0,
            r,
        ),
        Rules::All(rs) => u matches tag::Upsert::Large(l) && l.value@ == value && l.criteria@.len()
            == 1 && wire_rules_of(l.criteria@[0], rs@),
        Rules::Empty => false,
    }
}

/// What a whole value list renders to on the wire: one upsert per value
/// carrying rules, in order; values with no rules render to nothing.
pub open spec fn wire_upserts_of(entries: Seq<(Seq<char>, Rules)>, out: Seq<tag::Upsert>) -> bool
    decreases entries.len(),
{
    if entries.len() == 0 {
        out.len() == 0
    } else {
        match entries.last().1 {
            Rules::Empty => wire_upserts_of(entries.drop_last(), out),
            _ => out.len() > 0 && wire_upsert_of(out.last(), entries.last().0, entries.last().1)
                && wire_upserts_of(entries.drop_last(), out.drop_last()),
        }
    }
}

impl Rule {
    /// Render this rule as a single wire criterion.
    pub fn into_rule(self) -> (t: tag::Rule)
        ensures
            wire_rule_of(t, self),
    {
        let mut rules = tag::Rule::default();
        match self {
            Rule::IP(ip) => rules.addr = Some((ip,)),
            Rule::Port(port) => rules.port = Some((port_text(port),)),
        }
        rules
    }
}

fn one(value: String, src: Rule) -> (s: tag::Small)
    ensures
        s.value == value,
        wire_rule_of(s.criteria.0, src),
{
    tag::Small { value, criteria: (src.into_rule(),) }
}

fn all(value: String, src: Vec<Rule>) -> (l: tag::Large)
    ensures
        l.value == value,
        l.criteria@.len() == 1,
        wire_rules_of(l.criteria@[0], src@),
{
    let mut rules = tag::Rules::default();
    let n = src.len();
    let mut i: usize = 0;
    while i < n
        invariant
            n == src@.len(),
            i <= n,
            views_of(rules.addr@) == addrs_of(src@.subrange(0, i as int)),
            views_of(rules.port@) == ports_of(src@.subrange(0, i as int)),
            wire_rules_rest_unused(rules),
        decreases n - i,
    {
        proof {
            assert(src@.subrange(0, i + 1).drop_last() =~= src@.subrange(0, i as int));
            assert(src@.subrange(0, i + 1).last() == src@[i as int]);
        }
        match &src[i] {
            Rule::IP(ip) => {
                rules.addr.push(ip.clone());
                proof {
                    assert(views_of(rules.addr@) =~= addrs_of(src@.subrange(0, i + 1)));
                }
            },
            Rule::Port(port) => {
                rules.port.push(port_text(*port));
                proof {
                    assert(views_of(rules.port@) =~= ports_of(src@.subrange(0, i + 1)));
                }
            },
        }
        i = i + 1;
    }
    proof {
        assert(src@.subrange(0, n as int) =~= src@);
    }
    tag::Large { value, criteria: vec![rules] }
}

/// Render one value's rules to wire upserts: one upsert when any rule is
/// attached, none when the value has none.
fn collect(value: String, rules: Rules) -> (out: Vec<tag::Upsert>)
    ensures
        rules is Empty ==> out@.len() == 0,
        !(rules is Empty) ==> out@.len() == 1 && wire_upsert_of(out@[0], value@, rules),
{
    let mut vec: Vec<tag::Upsert> = Vec::new();
    match rules {
        Rules::One(rule) => {
            vec.push(tag::Upsert::Small(one(value, rule)));
        },
        Rules::All(list) => {
            vec.push(tag::Upsert::Large(all(value, list)));
        },
        Rules::Empty => (),
    }
    vec
}

impl Values {
    /// The values and their rules, keys by view, in insertion order.
    pub closed spec fn entries(&self) -> Seq<(Seq<char>, Rules)> {
        self.0@.map_values(|p: (String, Rules)| (p.0@, p.1))
    }

    /// Render the whole value list to wire upserts, in insertion order.
    pub fn into_upserts(self) -> (out: Vec<tag::Upsert>)
        ensures
            wire_upserts_of(self.entries(), out@),
    {
        let Values(mut vec) = self;
        let ghost orig = vec@.map_values(|p: (String, Rules)| (p.0@, p.1));
        let mut out: Vec<tag::Upsert> = Vec::new();
        let n = vec.len();
        let mut i: usize = 0;
        while i < n
            invariant
                n == vec@.len(),
                i <= n,
                orig.len() == n,
                forall|j: int| i <= j < n ==> orig[j] == (vec@[j].0@, vec@[j].1),
                wire_upserts_of(orig.subrange(0, i as int), out@),
            decreases n - i,
        {
            let mut entry = (String::new(), Rules::Empty);
            let slot = &mut vec[i];
            core::mem::swap(&mut entry, slot);
            let (value, rules) = entry;
            proof {
                assert(orig[i as int] == (value@, rules));
                assert(orig.subrange(0, i + 1).drop_last() =~= orig.subrange(0, i as int));
                assert(orig.subrange(0, i + 1).last() == orig[i as int]);
            }
            let mut rendered = collect(value, rules);
            let ghost before = out@;
            out.append(&mut rendered);
            proof {
                if orig[i as int].1 is Empty {
                    assert(out@ =~= before);
                } else {
                    assert(out@ =~= before.push(out@.last()));
                    assert(out@.drop_last() =~= before);
                }
                assert(wire_upserts_of(orig.subrange(0, i + 1), out@));
            }
            i = i + 1;
        }
        proof {
            assert(orig.subrange(0, n as int) =~= orig);
        }
        out
    }
}

impl Upsert {
    /// Take the change apart: the column, and the value list rendered to
    /// wire upserts in insertion order.
    pub fn into_parts(self) -> (parts: (String, Vec<tag::Upsert>))
        ensures
            parts.0@ == self.spec_column(),
            wire_upserts_of(self.entries(), parts.1@),
    {
        let Upsert(column, values) = self;
        let upserts = values.into_upserts();
        (column, upserts)
    }
}

} // verus!
