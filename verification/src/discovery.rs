//! Servers found on the local network: the record kept of each, its label
//! in a list, its instance name, the address picked for it, its TXT
//! attributes, and the list kept up to date as servers come and go.

use vstd::prelude::*;
use vstd::string::{StrSliceExecFns, StringExecFns};

use crate::scan::{
    chars_of, decimal_digits, find_char, index_of_first, matches_ignoring_ascii_case,
    push_decimal, span_is_ignoring_ascii_case,
};

verus! {

/// Service type browsed for on the local network.
pub fn service_type() -> (r: &'static str)
    ensures
        r@ == "_thetislink._udp.local."@,
{
    "_thetislink._udp.local."
}

/// One server discovered on the local network.
#[derive(Debug)]
pub struct DiscoveredServer {
    /// Instance name as the server advertises it.
    pub instance: String,
    /// Optional human-readable name from the `name` TXT key.
    pub friendly_name: Option<String>,
    /// Address and port to connect to.
    pub addr_port: String,
    /// Version text from the `version` TXT key.
    pub version: Option<String>,
}

/// What is known of a discovered server.
pub struct DiscoveredView {
    pub instance: Seq<char>,
    pub friendly_name: Option<Seq<char>>,
    pub addr_port: Seq<char>,
    pub version: Option<Seq<char>>,
}

/// An optional text taken by its characters.
pub open spec fn opt_chars(o: Option<String>) -> Option<Seq<char>> {
    match o {
        Some(s) => Some(s@),
        None => None,
    }
}

impl View for DiscoveredServer {
    type V = DiscoveredView;

    open spec fn view(&self) -> DiscoveredView {
        DiscoveredView {
            instance: self.instance@,
            friendly_name: opt_chars(self.friendly_name),
            addr_port: self.addr_port@,
            version: opt_chars(self.version),
        }
    }
}

/// A copy of an optional text.
fn copy_opt(o: &Option<String>) -> (r: Option<String>)
    ensures
        opt_chars(r) == opt_chars(*o),
{
    match o {
        Some(s) => Some(s.clone()),
        None => None,
    }
}

/// The label of a server in a list: its friendly name (or, lacking one, its
/// instance name) followed by its address in parentheses.
pub open spec fn label_of(s: DiscoveredView) -> Seq<char> {
    let name = match s.friendly_name {
        Some(n) => n,
        None => s.instance,
    };
    name + " ("@ + s.addr_port + ")"@
}

impl DiscoveredServer {
    /// Label for a list row: the friendly name, else the instance name, and
    /// always the address, so two servers of one name stay apart.
    pub fn display_label(&self) -> (r: String)
        ensures
            r@ == label_of(self@),
    {
        let name: &str = match &self.friendly_name {
            Some(n) => n.as_str(),
            None => self.instance.as_str(),
        };
        String::from_str(name).concat(" (").concat(self.addr_port.as_str()).concat(")")
    }

    /// A copy of the record.
    pub fn duplicate(&self) -> (r: DiscoveredServer)
        ensures
            r@ == self@,
    {
        DiscoveredServer {
            instance: self.instance.clone(),
            friendly_name: copy_opt(&self.friendly_name),
            addr_port: self.addr_port.clone(),
            version: copy_opt(&self.version),
        }
    }
}

/// The instance name in a full service name: the text before its first dot.
pub open spec fn spec_instance_name(fullname: Seq<char>) -> Seq<char> {
    fullname.subrange(0, index_of_first(fullname, '.') as int)
}

/// Extracts the instance name from a full service name.
pub fn instance_from_fullname(fullname: &str) -> (r: String)
    ensures
        r@ == spec_instance_name(fullname@),
{
    let chars = chars_of(fullname);
    let n = chars.len();
    let e = find_char(&chars, 0, n, '.');
    assert(chars@.subrange(0, n as int) =~= fullname@);
    String::from_str(fullname.substring_char(0, e))
}

/// The kind of one advertised address.
#[derive(Clone, Copy, Debug, PartialEq, Eq, Structural)]
pub struct AddressKind {
    /// IPv4 (otherwise IPv6).
    pub ipv4: bool,
    /// A loopback address.
    pub loopback: bool,
}

/// Whether an address may be used and is of the wanted family.
pub open spec fn usable(a: AddressKind, ipv4: bool) -> bool {
    !a.loopback && a.ipv4 == ipv4
}

/// The position of the first usable address of a family, or the list's
/// length when there is none.
pub open spec fn first_usable(s: Seq<AddressKind>, ipv4: bool) -> nat
    decreases s.len(),
{
    if s.len() == 0 {
        0
    } else if usable(s[0], ipv4) {
        0
    } else {
        1 + first_usable(s.drop_first(), ipv4)
    }
}

/// The address to connect to: the first non-loopback IPv4 address, else
/// the first non-loopback IPv6 address, else none.
pub open spec fn spec_pick_address(s: Seq<AddressKind>) -> Option<nat> {
    if first_usable(s, true) < s.len() {
        Some(first_usable(s, true))
    } else if first_usable(s, false) < s.len() {
        Some(first_usable(s, false))
    } else {
        None
    }
}

/// The first position that is usable is the one before which none is.
proof fn lemma_first_usable(s: Seq<AddressKind>, ipv4: bool, i: int)
    requires
        0 <= i <= s.len(),
        forall|k: int| 0 <= k < i ==> !usable(s[k], ipv4),
        i < s.len() ==> usable(s[i], ipv4),
    ensures
        first_usable(s, ipv4) == i,
    decreases s.len(),
{
    if s.len() > 0 && i > 0 {
        lemma_first_usable(s.drop_first(), ipv4, i - 1);
    }
}

/// Finds the first usable address of a family.
fn find_usable(addrs: &Vec<AddressKind>, ipv4: bool) -> (r: usize)
    ensures
        r == first_usable(addrs@, ipv4),
        r <= addrs@.len(),
{
    let mut i: usize = 0;
    while i < addrs.len() && !(!addrs[i].loopback && addrs[i].ipv4 == ipv4)
        invariant
            i <= addrs@.len(),
            forall|k: int| 0 <= k < i ==> !usable(addrs@[k], ipv4),
        decreases addrs@.len() - i,
    {
        i = i + 1;
    }
    proof {
        lemma_first_usable(addrs@, ipv4, i as int);
    }
    i
}

/// Picks the address to connect to among those advertised.
pub fn pick_address(addrs: &Vec<AddressKind>) -> (r: Option<usize>)
    ensures
        r == (match spec_pick_address(addrs@) {
            Some(i) => Some(i as usize),
            None => None::<usize>,
        }),
{
    let v4 = find_usable(addrs, true);
    if v4 < addrs.len() {
        return Some(v4);
    }
    let v6 = find_usable(addrs, false);
    if v6 < addrs.len() {
        Some(v6)
    } else {
        None
    }
}

/// `ip:port`, the port in decimal.
pub open spec fn spec_addr_port(ip: Seq<char>, port: u16) -> Seq<char> {
    ip + ":"@ + decimal_digits(port as nat)
}

/// Joins an address text and a port.
pub fn addr_port_text(ip: &str, port: u16) -> (r: String)
    ensures
        r@ == spec_addr_port(ip@, port),
{
    let mut out = String::from_str(ip).concat(":");
    push_decimal(&mut out, port as u64);
    out
}

/// The TXT attributes taken by their characters, in their order.
pub open spec fn props_view(props: Seq<(String, String)>) -> Seq<(Seq<char>, Seq<char>)> {
    props.map_values(|p: (String, String)| (p.0@, p.1@))
}

/// The value of the last attribute whose key is `key` up to ASCII case
/// (a later attribute of the same key replaces an earlier one).
pub open spec fn spec_txt_value(props: Seq<(Seq<char>, Seq<char>)>, key: Seq<char>) -> Option<Seq<char>>
    decreases props.len(),
{
    if props.len() == 0 {
        None
    } else if matches_ignoring_ascii_case(props.last().0, key) {
        Some(props.last().1)
    } else {
        spec_txt_value(props.drop_last(), key)
    }
}

/// The value of a TXT attribute, looked up by its lower-case key.
pub fn txt_value(props: &Vec<(String, String)>, key: &str) -> (r: Option<String>)
    ensures
        opt_chars(r) == spec_txt_value(props_view(props@), key@),
{
    let mut found: Option<String> = None;
    let mut i: usize = 0;
    while i < props.len()
        invariant
            i <= props@.len(),
            opt_chars(found) == spec_txt_value(props_view(props@).subrange(0, i as int), key@),
        decreases props@.len() - i,
    {
        let ghost pv = props_view(props@);
        assert(pv.subrange(0, i + 1).drop_last() =~= pv.subrange(0, i as int));
        let k = chars_of(props[i].0.as_str());
        let kn = k.len();
        assert(k@.subrange(0, kn as int) =~= props@[i as int].0@);
        if span_is_ignoring_ascii_case(&k, 0, kn, key) {
            found = Some(props[i].1.clone());
        }
        i = i + 1;
    }
    assert(props_view(props@).subrange(0, props@.len() as int) =~= props_view(props@));
    found
}

/// The record of a resolved service: its instance name, the `name` and
/// `version` attributes, and the address and port to use.
pub fn server_from_resolved(fullname: &str, ip: &str, port: u16, props: &Vec<(String, String)>) -> (r: DiscoveredServer)
    ensures
        r@ == (DiscoveredView {
            instance: spec_instance_name(fullname@),
            friendly_name: spec_txt_value(props_view(props@), "name"@),
            addr_port: spec_addr_port(ip@, port),
            version: spec_txt_value(props_view(props@), "version"@),
        }),
{
    DiscoveredServer {
        instance: instance_from_fullname(fullname),
        friendly_name: txt_value(props, "name"),
        addr_port: addr_port_text(ip, port),
        version: txt_value(props, "version"),
    }
}

/// The records taken by what is known of them.
pub open spec fn servers_view(list: Seq<DiscoveredServer>) -> Seq<DiscoveredView> {
    list.map_values(|d: DiscoveredServer| d@)
}

/// The position of the first record with the given instance name, or the
/// list's length when there is none.
pub open spec fn index_of_instance(list: Seq<DiscoveredView>, name: Seq<char>) -> nat
    decreases list.len(),
{
    if list.len() == 0 {
        0
    } else if list[0].instance == name {
        0
    } else {
        1 + index_of_instance(list.drop_first(), name)
    }
}

/// The first matching position is the one before which none matches.
proof fn lemma_index_of_instance(list: Seq<DiscoveredView>, name: Seq<char>, i: int)
    requires
        0 <= i <= list.len(),
        forall|k: int| 0 <= k < i ==> list[k].instance != name,
        i < list.len() ==> list[i].instance == name,
    ensures
        index_of_instance(list, name) == i,
    decreases list.len(),
{
    if list.len() > 0 && i > 0 {
        lemma_index_of_instance(list.drop_first(), name, i - 1);
    }
}

/// The list after a server resolves: the record replaces the first one of
/// the same instance name, or is added at the end when there is none.
pub open spec fn spec_upserted(list: Seq<DiscoveredView>, entry: DiscoveredView) -> Seq<DiscoveredView> {
    let i = index_of_instance(list, entry.instance);
    if i < list.len() {
        list.update(i as int, entry)
    } else {
        list.push(entry)
    }
}

proof fn lemma_index_of_instance_props(list: Seq<DiscoveredView>, name: Seq<char>)
    ensures
        index_of_instance(list, name) <= list.len(),
        forall|k: int| 0 <= k < index_of_instance(list, name) ==> list[k].instance != name,
        index_of_instance(list, name) < list.len() ==> list[index_of_instance(list, name) as int].instance
            == name,
    decreases list.len(),
{
    if list.len() > 0 && list[0].instance != name {
        lemma_index_of_instance_props(list.drop_first(), name);
        assert forall|k: int| 0 <= k < index_of_instance(list, name) implies list[k].instance != name by {
            if k > 0 {
                assert(list[k] == list.drop_first()[k - 1]);
            }
        }
    }
}

/// What recording a resolved server does: the entry, exactly as given
/// (name, address and version alike), is in the list afterwards; it takes
/// the place of a record of the same instance when there is one, leaving
/// the length as it was, and is added at the end otherwise; every record
/// of another instance stays where it was; and each record afterwards is
/// either the entry or the record that was there before.
pub proof fn lemma_upsert_law(list: Seq<DiscoveredView>, entry: DiscoveredView)
    ensures
        spec_upserted(list, entry).contains(entry),
        (exists|k: int| 0 <= k < list.len() && #[trigger] list[k].instance == entry.instance)
            ==> spec_upserted(list, entry).len() == list.len(),
        !(exists|k: int| 0 <= k < list.len() && #[trigger] list[k].instance == entry.instance)
            ==> spec_upserted(list, entry) == list.push(entry),
        forall|k: int|
            0 <= k < list.len() && list[k].instance != entry.instance ==> #[trigger] spec_upserted(
                list,
                entry,
            )[k] == list[k],
        forall|k: int|
            0 <= k < spec_upserted(list, entry).len() ==> #[trigger] spec_upserted(list, entry)[k] == entry
                || (k < list.len() && spec_upserted(list, entry)[k] == list[k]),
{
    lemma_index_of_instance_props(list, entry.instance);
    let i = index_of_instance(list, entry.instance);
    let r = spec_upserted(list, entry);
    if i < list.len() {
        assert(r[i as int] == entry);
    } else {
        assert(r[list.len() as int] == entry);
        if exists|k: int| 0 <= k < list.len() && #[trigger] list[k].instance == entry.instance {
            let k = choose|k: int| 0 <= k < list.len() && #[trigger] list[k].instance == entry.instance;
            assert(false);
        }
    }
}

/// Records a resolved server in the list.
pub fn upsert_server(list: &mut Vec<DiscoveredServer>, entry: DiscoveredServer)
    ensures
        servers_view(final(list)@) == spec_upserted(servers_view(old(list)@), entry@),
{
    let mut i: usize = 0;
    while i < list.len() && !(list[i].instance == entry.instance)
        invariant
            i <= list@.len(),
            list@ == old(list)@,
            forall|k: int| 0 <= k < i ==> list@[k].instance@ != entry.instance@,
        decreases list@.len() - i,
    {
        i = i + 1;
    }
    proof {
        lemma_index_of_instance(servers_view(list@), entry@.instance, i as int);
    }
    let ghost e = entry@;
    if i < list.len() {
        list[i] = entry;
        assert(servers_view(list@) =~= servers_view(old(list)@).update(i as int, e));
    } else {
        list.push(entry);
        assert(servers_view(list@) =~= servers_view(old(list)@).push(e));
    }
}

/// The list without the records of the given instance name, the others
/// kept in order.
pub open spec fn spec_without(list: Seq<DiscoveredView>, name: Seq<char>) -> Seq<DiscoveredView>
    decreases list.len(),
{
    if list.len() == 0 {
        list
    } else if list.last().instance == name {
        spec_without(list.drop_last(), name)
    } else {
        spec_without(list.drop_last(), name).push(list.last())
    }
}

/// Drops every record of a server that went away.
pub fn remove_server(list: &mut Vec<DiscoveredServer>, instance: &str)
    ensures
        servers_view(final(list)@) == spec_without(servers_view(old(list)@), instance@),
{
    let ghost orig = servers_view(old(list)@);
    let name = String::from_str(instance);
    let ghost mut j: int = 0;
    let mut i: usize = 0;
    assert(orig.subrange(0, 0) =~= Seq::<DiscoveredView>::empty());
    while i < list.len()
        invariant
            0 <= i <= list@.len(),
            0 <= j <= orig.len(),
            orig == servers_view(old(list)@),
            name@ == instance@,
            servers_view(list@).subrange(0, i as int) == spec_without(orig.subrange(0, j), instance@),
            servers_view(list@).subrange(i as int, list@.len() as int) == orig.subrange(j, orig.len() as int),
        decreases list@.len() - i,
    {
        let ghost before = servers_view(list@);
        assert(before.subrange(i as int, before.len() as int).len() == orig.subrange(j, orig.len() as int).len());
        assert(j < orig.len());
        assert(before[i as int] == orig[j]) by {
            assert(before.subrange(i as int, before.len() as int)[0] == before[i as int]);
            assert(orig.subrange(j, orig.len() as int)[0] == orig[j]);
        }
        assert(orig.subrange(0, j + 1).drop_last() =~= orig.subrange(0, j));
        assert(orig.subrange(0, j + 1).last() == orig[j]);
        assert(before[i as int].instance == list@[i as int].instance@);
        let ghost tail_o = orig.subrange(j, orig.len() as int);
        assert(orig.subrange(j + 1, orig.len() as int) =~= tail_o.drop_first());
        assert(before.subrange(i + 1, before.len() as int) =~= before.subrange(i as int, before.len() as int).drop_first());
        if list[i].instance == name {
            list.remove(i);
            proof {
                let after = servers_view(list@);
                assert(after.subrange(0, i as int) =~= before.subrange(0, i as int));
                assert(after.subrange(i as int, after.len() as int) =~= orig.subrange(j + 1, orig.len() as int));
                assert(spec_without(orig.subrange(0, j + 1), instance@) == spec_without(orig.subrange(0, j), instance@));
                j = j + 1;
            }
        } else {
            proof {
                assert(before.subrange(0, i + 1) =~= before.subrange(0, i as int).push(before[i as int]));
                assert(before.subrange(i + 1, before.len() as int) =~= orig.subrange(j + 1, orig.len() as int));
                assert(spec_without(orig.subrange(0, j + 1), instance@) == spec_without(orig.subrange(0, j), instance@).push(orig[j]));
                j = j + 1;
            }
            i = i + 1;
        }
    }
    assert(orig.subrange(j, orig.len() as int).len() == 0);
    assert(orig.subrange(0, j) =~= orig);
    assert(servers_view(list@).subrange(0, i as int) =~= servers_view(list@));
}

/// Whether text `a` comes before `b`, or is `b`, in character order (which
/// is the byte order of their UTF-8 forms).
pub open spec fn text_le(a: Seq<char>, b: Seq<char>) -> bool
    decreases a.len(),
{
    if a.len() == 0 {
        true
    } else if b.len() == 0 {
        false
    } else if (a[0] as u32) < (b[0] as u32) {
        true
    } else if a[0] as u32 == b[0] as u32 {
        text_le(a.drop_first(), b.drop_first())
    } else {
        false
    }
}

/// Any two texts are in order one way or the other.
pub proof fn lemma_text_le_total(a: Seq<char>, b: Seq<char>)
    ensures
        text_le(a, b) || text_le(b, a),
    decreases a.len(),
{
    if a.len() > 0 && b.len() > 0 && a[0] as u32 == b[0] as u32 {
        lemma_text_le_total(a.drop_first(), b.drop_first());
    }
}

/// Character order is transitive.
pub proof fn lemma_text_le_transitive(a: Seq<char>, b: Seq<char>, c: Seq<char>)
    requires
        text_le(a, b),
        text_le(b, c),
    ensures
        text_le(a, c),
    decreases a.len(),
{
    if a.len() > 0 && b.len() > 0 && c.len() > 0 && a[0] as u32 == b[0] as u32 && b[0] as u32
        == c[0] as u32 {
        lemma_text_le_transitive(a.drop_first(), b.drop_first(), c.drop_first());
    }
}

/// Two texts each in order before the other are the same text.
pub proof fn lemma_text_le_antisymmetric(a: Seq<char>, b: Seq<char>)
    requires
        text_le(a, b),
        text_le(b, a),
    ensures
        a == b,
    decreases a.len(),
{
    if a.len() == 0 {
        assert(a =~= b);
    } else {
        assert(b.len() > 0);
        assert(a[0] as u32 == b[0] as u32);
        lemma_text_le_antisymmetric(a.drop_first(), b.drop_first());
        assert(a.drop_first().len() == a.len() - 1 && b.drop_first().len() == b.len() - 1);
        assert forall|i: int| 0 <= i < a.len() implies a[i] == b[i] by {
            if i == 0 {
                vstd::utf8::char_u32_cast(a[0], a[0] as u32);
                vstd::utf8::char_u32_cast(b[0], b[0] as u32);
            } else {
                assert(a[i] == a.drop_first()[i - 1] && b[i] == b.drop_first()[i - 1]);
            }
        }
        assert(a =~= b);
    }
}

/// Whether `a` comes before `b`, or is `b`, in character order.
pub(crate) fn text_le_exec(a: &Vec<char>, b: &Vec<char>) -> (r: bool)
    ensures
        r == text_le(a@, b@),
{
    let mut i: usize = 0;
    assert(a@.subrange(0, a@.len() as int) =~= a@);
    assert(b@.subrange(0, b@.len() as int) =~= b@);
    while i < a.len() && i < b.len() && (a[i] as u32) == (b[i] as u32)
        invariant
            i <= a@.len(),
            i <= b@.len(),
            text_le(a@, b@) == text_le(
                a@.subrange(i as int, a@.len() as int),
                b@.subrange(i as int, b@.len() as int),
            ),
        decreases a@.len() - i,
    {
        assert(a@.subrange(i as int, a@.len() as int).drop_first() =~= a@.subrange(i + 1, a@.len() as int));
        assert(b@.subrange(i as int, b@.len() as int).drop_first() =~= b@.subrange(i + 1, b@.len() as int));
        i = i + 1;
    }
    let ghost sa = a@.subrange(i as int, a@.len() as int);
    let ghost sb = b@.subrange(i as int, b@.len() as int);
    if i == a.len() {
        true
    } else if i == b.len() {
        false
    } else {
        assert(sa[0] == a@[i as int] && sb[0] == b@[i as int]);
        (a[i] as u32) < (b[i] as u32)
    }
}

/// Whether the servers are in order of their list labels.
pub open spec fn sorted_by_label(s: Seq<DiscoveredView>) -> bool {
    forall|i: int, j: int| 0 <= i < j < s.len() ==> text_le(label_of(#[trigger] s[i]), label_of(#[trigger] s[j]))
}

/// The servers of list label `l`, in list order.
pub open spec fn with_label(s: Seq<DiscoveredView>, l: Seq<char>) -> Seq<DiscoveredView> {
    s.filter(|x: DiscoveredView| label_of(x) == l)
}

/// Inserting a server just before the first one whose label follows its
/// own adds it at the end of the servers of its label and leaves the other
/// labels' servers as they were.
proof fn lemma_insert_by_label(before: Seq<DiscoveredView>, p: int, ev: DiscoveredView, l: Seq<char>)
    requires
        0 <= p <= before.len(),
        forall|k: int| p <= k < before.len() ==> !text_le(label_of(#[trigger] before[k]), label_of(ev)),
    ensures
        with_label(before.insert(p, ev), l) == (if label_of(ev) == l {
            with_label(before, l).push(ev)
        } else {
            with_label(before, l)
        }),
{
    let f = |x: DiscoveredView| label_of(x) == l;
    let pre = before.subrange(0, p);
    let suf = before.subrange(p, before.len() as int);
    let one = Seq::<DiscoveredView>::empty().push(ev);
    assert(before.insert(p, ev) =~= pre + one + suf);
    assert(before =~= pre + suf);
    Seq::filter_distributes_over_add(pre + one, suf, f);
    Seq::filter_distributes_over_add(pre, one, f);
    Seq::filter_distributes_over_add(pre, suf, f);
    Seq::<DiscoveredView>::empty().lemma_filter_push(ev, f);
    assert(Seq::<DiscoveredView>::empty().filter(f) =~= Seq::<DiscoveredView>::empty()) by {
        reveal(Seq::filter);
    }
    if label_of(ev) == l {
        if suf.filter(f).len() > 0 {
            let e0 = suf.filter(f)[0];
            suf.lemma_filter_pred(f, 0);
            assert(suf.filter(f).contains(e0));
            suf.lemma_filter_contains_rev(f, e0);
            let k = choose|k: int| 0 <= k < suf.len() && suf[k] == e0;
            assert(before[p + k] == e0);
            lemma_text_le_total(l, l);
        }
        assert(suf.filter(f) =~= Seq::<DiscoveredView>::empty());
        assert(pre.filter(f) + one + Seq::<DiscoveredView>::empty() =~= pre.filter(f).push(ev));
    } else {
        assert(one.filter(f) =~= Seq::<DiscoveredView>::empty());
        assert(pre.filter(f) + Seq::<DiscoveredView>::empty() =~= pre.filter(f));
    }
}

/// The characters of a server's list label.
fn label_chars(s: &DiscoveredServer) -> (r: Vec<char>)
    ensures
        r@ == label_of(s@),
{
    let label = s.display_label();
    chars_of(label.as_str())
}

/// The servers ordered by their list labels (servers of one label keep
/// their order), as a list presented to the user.
pub fn sort_by_label(list: Vec<DiscoveredServer>) -> (r: Vec<DiscoveredServer>)
    ensures
        servers_view(r@).to_multiset() == servers_view(list@).to_multiset(),
        sorted_by_label(servers_view(r@)),
        forall|l: Seq<char>| #[trigger] with_label(servers_view(r@), l) == with_label(servers_view(list@), l),
{
    broadcast use vstd::seq_lib::group_to_multiset_ensures;

    let ghost all = servers_view(list@);
    let mut out: Vec<DiscoveredServer> = Vec::new();
    let mut i: usize = 0;
    assert(all.subrange(0, 0) =~= Seq::<DiscoveredView>::empty());
    assert(servers_view(out@) =~= Seq::<DiscoveredView>::empty());
    while i < list.len()
        invariant
            i <= list@.len(),
            all == servers_view(list@),
            all.len() == list@.len(),
            servers_view(out@).to_multiset() == all.subrange(0, i as int).to_multiset(),
            sorted_by_label(servers_view(out@)),
            forall|l: Seq<char>| #[trigger] with_label(servers_view(out@), l) == with_label(all.subrange(0, i as int), l),
        decreases list@.len() - i,
    {
        let e = list[i].duplicate();
        let ghost ev = e@;
        assert(ev == all[i as int]);
        let el = label_chars(&e);
        let mut p: usize = 0;
        while p < out.len() && text_le_exec(&label_chars(&out[p]), &el)
            invariant
                p <= out@.len(),
                el@ == label_of(ev),
                forall|k: int| 0 <= k < p ==> text_le(label_of(#[trigger] servers_view(out@)[k]), label_of(ev)),
            decreases out@.len() - p,
        {
            p = p + 1;
        }
        let ghost before = servers_view(out@);
        out.insert(p, e);
        let ghost after = servers_view(out@);
        assert(after =~= before.insert(p as int, ev));
        proof {
            if p < before.len() {
                assert(!text_le(label_of(before[p as int]), label_of(ev)));
                lemma_text_le_total(label_of(before[p as int]), label_of(ev));
            }
            assert forall|a: int, b: int| 0 <= a < b < after.len() implies text_le(
                label_of(#[trigger] after[a]),
                label_of(#[trigger] after[b]),
            ) by {
                if b < p {
                    assert(after[a] == before[a] && after[b] == before[b]);
                } else if b == p {
                    assert(after[a] == before[a]);
                } else if a == p {
                    assert(after[b] == before[b - 1]);
                    if b - 1 > p {
                        lemma_text_le_transitive(label_of(ev), label_of(before[p as int]), label_of(before[b - 1]));
                    }
                } else if a < p {
                    assert(after[a] == before[a] && after[b] == before[b - 1]);
                } else {
                    assert(after[a] == before[a - 1] && after[b] == before[b - 1]);
                }
            }
            assert(after.remove(p as int) =~= before);
            assert(after[p as int] == ev);
            assert(after.contains(ev));
            vstd::seq_lib::to_multiset_remove(after, p as int);
            after.to_multiset_ensures();
            assert(after.to_multiset().count(ev) > 0);
            assert(after.to_multiset() =~= before.to_multiset().insert(ev));
            assert(all.subrange(0, i + 1) =~= all.subrange(0, i as int).push(ev));
            vstd::seq_lib::to_multiset_build(all.subrange(0, i as int), ev);
            assert forall|k: int| p <= k < before.len() implies !text_le(label_of(#[trigger] before[k]), label_of(ev)) by {
                if k > p && text_le(label_of(before[k]), label_of(ev)) {
                    lemma_text_le_transitive(label_of(before[p as int]), label_of(before[k]), label_of(ev));
                }
            }
            assert forall|l: Seq<char>| #[trigger] with_label(after, l) == with_label(all.subrange(0, i + 1), l) by {
                lemma_insert_by_label(before, p as int, ev, l);
                all.subrange(0, i as int).lemma_filter_push(ev, |x: DiscoveredView| label_of(x) == l);
            }
        }
        i = i + 1;
    }
    assert(all.subrange(0, list@.len() as int) =~= all);
    out
}

} // verus!
