//! Instance properties: what a service instance tells the collector about
//! itself, and the properties of the host it runs on.

use crate::common::strings::{owned, starts_with};
use crate::common::text::{int_text, int_to_text};
use crate::proto::v3::{pairs_view, InstanceProperties, KeyStringValuePair};
use vstd::prelude::*;

verus! {

/// The view of the properties: each key with its values, in the order the
/// keys were first inserted.
pub type PropertiesView = Seq<(Seq<char>, Seq<Seq<char>>)>;

/// No key occurs twice.
pub open spec fn distinct_keys(s: PropertiesView) -> bool {
    forall|i: int, j: int| 0 <= i < j < s.len() ==> s[i].0 != s[j].0
}

/// The position of `key`, if it occurs.
pub open spec fn key_position(s: PropertiesView, key: Seq<char>) -> Option<int> {
    if exists|i: int| 0 <= i < s.len() && s[i].0 == key {
        Some(choose|i: int| 0 <= i < s.len() && s[i].0 == key)
    } else {
        None
    }
}

/// Where `key_position` finds a key, the key is there; where it finds none,
/// the key occurs nowhere.
pub proof fn lemma_key_position(s: PropertiesView, key: Seq<char>)
    ensures
        match key_position(s, key) {
            Some(i) => 0 <= i < s.len() && s[i].0 == key,
            None => forall|j: int| 0 <= j < s.len() ==> s[j].0 != key,
        },
{
}

/// The values of `key`: none where it does not occur.
pub open spec fn values_of(s: PropertiesView, key: Seq<char>) -> Seq<Seq<char>> {
    match key_position(s, key) {
        Some(i) => s[i].1,
        None => Seq::empty(),
    }
}

/// The properties after `value` is added to the values of `key`.
pub open spec fn inserted(s: PropertiesView, key: Seq<char>, value: Seq<char>) -> PropertiesView {
    match key_position(s, key) {
        Some(i) => s.update(i, (key, s[i].1.push(value))),
        None => s.push((key, seq![value])),
    }
}

/// The properties after the values of `key`, where it occurs, are replaced
/// by `value` alone.
pub open spec fn updated(s: PropertiesView, key: Seq<char>, value: Seq<char>) -> PropertiesView {
    match key_position(s, key) {
        Some(i) => s.update(i, (key, seq![value])),
        None => s,
    }
}

/// The properties without `key`.
pub open spec fn removed(s: PropertiesView, key: Seq<char>) -> PropertiesView {
    match key_position(s, key) {
        Some(i) => s.remove(i),
        None => s,
    }
}

/// Each value with its key, key after key.
pub open spec fn flattened(s: PropertiesView) -> Seq<(Seq<char>, Seq<char>)>
    decreases s.len(),
{
    if s.len() == 0 {
        Seq::empty()
    } else {
        flattened(s.drop_last()) + s.last().1.map_values(|v: Seq<char>| (s.last().0, v))
    }
}

/// Inserting never overwrites: the values of the key gain the new value at
/// the end, and every other key keeps its values.
pub proof fn lemma_insert_keeps_values(s: PropertiesView, key: Seq<char>, value: Seq<char>, other: Seq<char>)
    requires
        distinct_keys(s),
    ensures
        distinct_keys(inserted(s, key, value)),
        values_of(inserted(s, key, value), key) == values_of(s, key).push(value),
        other != key ==> values_of(inserted(s, key, value), other) == values_of(s, other),
{
    lemma_key_position(s, key);
    lemma_key_position(s, other);
    let t = inserted(s, key, value);
    assert(distinct_keys(t)) by {
        assert forall|i: int, j: int| 0 <= i < j < t.len() implies t[i].0 != t[j].0 by {
            if j < s.len() {
                assert(t[i].0 == s[i].0 && t[j].0 == s[j].0);
            } else {
                assert(t[i].0 == s[i].0);
            }
        }
    }
    lemma_key_position(t, key);
    lemma_key_position(t, other);
    match key_position(s, key) {
        Some(i) => {
            assert(t[i].0 == key);
            if key_position(t, key) != Some(i) {
                let k = key_position(t, key)->0;
                assert(t[k].0 == s[k].0);
            }
            if other != key {
                match key_position(s, other) {
                    Some(j) => {
                        assert(t[j] == s[j]);
                        if key_position(t, other) != Some(j) {
                            let k = key_position(t, other)->0;
                            assert(t[k].0 == s[k].0);
                        }
                    },
                    None => {
                        if key_position(t, other) is Some {
                            let k = key_position(t, other)->0;
                            assert(t[k].0 == s[k].0);
                        }
                    },
                }
            }
        },
        None => {
            let n = s.len() as int;
            assert(t[n].0 == key);
            if key_position(t, key) != Some(n) {
                let k = key_position(t, key)->0;
                assert(t[k].0 == s[k].0);
            }
            assert(seq![value] =~= Seq::<Seq<char>>::empty().push(value));
            if other != key {
                match key_position(s, other) {
                    Some(j) => {
                        assert(t[j] == s[j]);
                        if key_position(t, other) != Some(j) {
                            let k = key_position(t, other)->0;
                            if k < n {
                                assert(t[k].0 == s[k].0);
                            }
                        }
                    },
                    None => {
                        if key_position(t, other) is Some {
                            let k = key_position(t, other)->0;
                            if k < n {
                                assert(t[k].0 == s[k].0);
                            }
                        }
                    },
                }
            }
        },
    }
}

/// Updating a key that occurs leaves it the new value alone; a key that does
/// not occur is not added; other keys keep their values.
pub proof fn lemma_update_overwrites(s: PropertiesView, key: Seq<char>, value: Seq<char>, other: Seq<char>)
    requires
        distinct_keys(s),
    ensures
        distinct_keys(updated(s, key, value)),
        values_of(s, key).len() > 0 ==> values_of(updated(s, key, value), key) == seq![value],
        key_position(s, key) is None ==> updated(s, key, value) == s,
        other != key ==> values_of(updated(s, key, value), other) == values_of(s, other),
{
    lemma_key_position(s, key);
    lemma_key_position(s, other);
    let t = updated(s, key, value);
    assert(distinct_keys(t)) by {
        assert forall|i: int, j: int| 0 <= i < j < t.len() implies t[i].0 != t[j].0 by {
            assert(t[i].0 == s[i].0 && t[j].0 == s[j].0);
        }
    }
    lemma_key_position(t, key);
    lemma_key_position(t, other);
    if let Some(i) = key_position(s, key) {
        assert(t[i].0 == key);
        if key_position(t, key) != Some(i) {
            let k = key_position(t, key)->0;
            assert(t[k].0 == s[k].0);
        }
        if other != key {
            match key_position(s, other) {
                Some(j) => {
                    assert(t[j] == s[j]);
                    if key_position(t, other) != Some(j) {
                        let k = key_position(t, other)->0;
                        assert(t[k].0 == s[k].0);
                    }
                },
                None => {
                    if key_position(t, other) is Some {
                        let k = key_position(t, other)->0;
                        assert(t[k].0 == s[k].0);
                    }
                },
            }
        }
    }
}

/// Removing a key drops all its values; other keys keep theirs.
pub proof fn lemma_remove_drops_values(s: PropertiesView, key: Seq<char>, other: Seq<char>)
    requires
        distinct_keys(s),
    ensures
        distinct_keys(removed(s, key)),
        values_of(removed(s, key), key) == Seq::<Seq<char>>::empty(),
        other != key ==> values_of(removed(s, key), other) == values_of(s, other),
{
    lemma_key_position(s, key);
    lemma_key_position(s, other);
    let t = removed(s, key);
    if let Some(i) = key_position(s, key) {
        assert forall|j: int| 0 <= j < t.len() implies #[trigger] t[j] == (if j < i {
            s[j]
        } else {
            s[j + 1]
        }) by {}
        assert(distinct_keys(t)) by {
            assert forall|a: int, b: int| 0 <= a < b < t.len() implies t[a].0 != t[b].0 by {
                let sa = if a < i { a } else { a + 1 };
                let sb = if b < i { b } else { b + 1 };
                assert(t[a] == s[sa] && t[b] == s[sb]);
            }
        }
        lemma_key_position(t, key);
        lemma_key_position(t, other);
        if key_position(t, key) is Some {
            let k = key_position(t, key)->0;
            let sk = if k < i { k } else { k + 1 };
            assert(t[k] == s[sk]);
        }
        if other != key {
            match key_position(s, other) {
                Some(j) => {
                    let tj = if j < i { j } else { j - 1 };
                    assert(t[tj] == s[j]);
                    if key_position(t, other) != Some(tj) {
                        let k = key_position(t, other)->0;
                        let sk = if k < i { k } else { k + 1 };
                        assert(t[k] == s[sk]);
                    }
                },
                None => {
                    if key_position(t, other) is Some {
                        let k = key_position(t, other)->0;
                        let sk = if k < i { k } else { k + 1 };
                        assert(t[k] == s[sk]);
                    }
                },
            }
        }
    } else {
        lemma_key_position(t, key);
    }
}

/// The views of the entries.
pub open spec fn entries_view(v: Seq<(String, Vec<String>)>) -> PropertiesView {
    v.map_values(|e: (String, Vec<String>)| (e.0@, strings_view(e.1@)))
}

/// The views of strings.
pub open spec fn strings_view(v: Seq<String>) -> Seq<Seq<char>> {
    v.map_values(|s: String| s@)
}

/// Instance properties key of host name.
pub const KEY_HOST_NAME: &'static str = "hostname";

/// Instance properties key of ipv4.
pub const KEY_IPV4: &'static str = "ipv4";

/// Instance properties key of programming language.
pub const KEY_LANGUAGE: &'static str = "language";

/// Instance properties key of os name.
pub const KEY_OS_NAME: &'static str = "OS Name";

/// Instance properties key of process number.
pub const KEY_PROCESS_NO: &'static str = "Process No.";

/// Instance properties, each key with one or more values.
#[derive(Debug)]
pub struct Properties {
    inner: Vec<(String, Vec<String>)>,
}

impl View for Properties {
    type V = PropertiesView;

    closed spec fn view(&self) -> PropertiesView {
        entries_view(self.inner@)
    }
}

impl Properties {
    /// Each key occurs once.
    #[verifier::type_invariant]
    spec fn inv(self) -> bool {
        distinct_keys(entries_view(self.inner@))
    }

    /// New empty properties.
    #[inline]
    pub fn new() -> (r: Self)
        ensures
            r@ == Seq::<(Seq<char>, Seq<Seq<char>>)>::empty(),
    {
        let r = Properties { inner: Vec::new() };
        assert(r@ =~= Seq::<(Seq<char>, Seq<Seq<char>>)>::empty());
        r
    }

    /// The position of `key`, if it occurs.
    fn position(&self, key: &str) -> (r: Option<usize>)
        ensures
            r matches Some(k) ==> key_position(self@, key@) == Some(k as int),
            r is None <==> key_position(self@, key@) is None,
    {
        proof {
            use_type_invariant(self);
        }
        let ghost s = self@;
        let key_string = owned(key);
        let mut i: usize = 0;
        while i < self.inner.len()
            invariant
                i <= self.inner@.len(),
                s == entries_view(self.inner@),
                key_string@ == key@,
                distinct_keys(s),
                forall|j: int| 0 <= j < i ==> s[j].0 != key@,
            decreases self.inner@.len() - i,
        {
            if self.inner[i].0 == key_string {
                assert(s[i as int].0 == key@);
                assert(key_position(s, key@) == Some(i as int)) by {
                    let c = choose|j: int| 0 <= j < s.len() && s[j].0 == key@;
                    if c != i {
                        assert(s[c].0 == s[i as int].0);
                    }
                }
                return Some(i);
            }
            i = i + 1;
        }
        assert(key_position(s, key@) is None);
        None
    }

    /// Insert key value pair, will not overwrite the original, because multiple
    /// values of the same key can exist.
    pub fn insert(&mut self, key: &str, value: &str)
        ensures
            final(self)@ == inserted(old(self)@, key@, value@),
            distinct_keys(final(self)@),
    {
        proof {
            use_type_invariant(&*self);
        }
        let ghost s = self@;
        proof {
            lemma_key_position(s, key@);
            lemma_insert_keeps_values(s, key@, value@, key@);
        }
        let position = self.position(key);
        let mut inner: Vec<(String, Vec<String>)> = Vec::new();
        std::mem::swap(&mut inner, &mut self.inner);
        match position {
            Some(i) => {
                let ghost vs = inner@[i as int].1@;
                inner[i].1.push(owned(value));
                assert(strings_view(inner@[i as int].1@) =~= strings_view(vs).push(value@));
                assert(entries_view(inner@) =~= s.update(i as int, (key@, s[i as int].1.push(value@))));
            },
            None => {
                let mut values: Vec<String> = Vec::new();
                values.push(owned(value));
                assert(strings_view(values@) =~= seq![value@]);
                inner.push((owned(key), values));
                assert(entries_view(inner@) =~= s.push((key@, seq![value@])));
            },
        }
        self.inner = inner;
    }

    /// Overwrite the values, whether there are multiple.
    pub fn update(&mut self, key: &str, value: &str)
        ensures
            final(self)@ == updated(old(self)@, key@, value@),
            distinct_keys(final(self)@),
    {
        proof {
            use_type_invariant(&*self);
        }
        let ghost s = self@;
        proof {
            lemma_key_position(s, key@);
            lemma_update_overwrites(s, key@, value@, key@);
        }
        if let Some(i) = self.position(key) {
            let mut inner: Vec<(String, Vec<String>)> = Vec::new();
            std::mem::swap(&mut inner, &mut self.inner);
            let mut values: Vec<String> = Vec::new();
            values.push(owned(value));
            assert(strings_view(values@) =~= seq![value@]);
            inner[i].1 = values;
            assert(entries_view(inner@) =~= s.update(i as int, (key@, seq![value@])));
            self.inner = inner;
        }
    }

    /// Remove all values associated the key.
    pub fn remove(&mut self, key: &str)
        ensures
            final(self)@ == removed(old(self)@, key@),
            distinct_keys(final(self)@),
    {
        proof {
            use_type_invariant(&*self);
        }
        let ghost s = self@;
        proof {
            lemma_key_position(s, key@);
            lemma_remove_drops_values(s, key@, key@);
        }
        if let Some(i) = self.position(key) {
            let mut inner: Vec<(String, Vec<String>)> = Vec::new();
            std::mem::swap(&mut inner, &mut self.inner);
            let _ = inner.remove(i);
            assert(entries_view(inner@) =~= s.remove(i as int));
            self.inner = inner;
        }
    }

    /// Insert the OS system info, such as os name, host name, etc.: each item
    /// of `os_info`, in order.
    pub fn insert_os_info(&mut self, os_info: &OsInfo)
        ensures
            final(self)@ == insert_all(old(self)@, os_info_items(*os_info)),
    {
        let items = build_os_info(os_info);
        let ghost all = items_view(items@);
        let mut i: usize = 0;
        while i < items.len()
            invariant
                i <= items@.len(),
                all == items_view(items@),
                self@ == insert_all(old(self)@, all.take(i as int)),
            decreases items@.len() - i,
        {
            let ghost before = self@;
            self.insert(items[i].0.as_str(), items[i].1.as_str());
            assert(all.take(i + 1).drop_last() =~= all.take(i as int));
            i = i + 1;
        }
        assert(all.take(items@.len() as int) =~= all);
    }

    /// Convert to the instance properties message of a service instance:
    /// each value with its key, key after key.
    pub fn convert_to_instance_properties(self, service_name: String, instance_name: String) -> (r: InstanceProperties)
        ensures
            r.service@ == service_name@,
            r.service_instance@ == instance_name@,
            pairs_view(r.properties@) == flattened(self@),
            r.layer@ == Seq::<char>::empty(),
    {
        let ghost s = self@;
        let mut properties: Vec<KeyStringValuePair> = Vec::new();
        let mut i: usize = 0;
        while i < self.inner.len()
            invariant
                i <= self.inner@.len(),
                s == entries_view(self.inner@),
                pairs_view(properties@) == flattened(s.take(i as int)),
            decreases self.inner@.len() - i,
        {
            let ghost base = pairs_view(properties@);
            let ghost key = s[i as int].0;
            let ghost vals = s[i as int].1;
            let mut j: usize = 0;
            let n = self.inner[i].1.len();
            while j < n
                invariant
                    i < self.inner@.len(),
                    s == entries_view(self.inner@),
                    key == s[i as int].0,
                    vals == s[i as int].1,
                    n == vals.len(),
                    j <= n,
                    pairs_view(properties@) == base + vals.take(j as int).map_values(
                        |v: Seq<char>| (key, v),
                    ),
                decreases n - j,
            {
                let ghost before = properties@;
                properties.push(
                    KeyStringValuePair {
                        key: self.inner[i].0.clone(),
                        value: self.inner[i].1[j].clone(),
                    },
                );
                assert(pairs_view(properties@) =~= pairs_view(before).push((key, vals[j as int])));
                j = j + 1;
                assert(vals.take(j as int).map_values(|v: Seq<char>| (key, v)) =~= vals.take(
                    j - 1,
                ).map_values(|v: Seq<char>| (key, v)).push((key, vals[j - 1])));
            }
            assert(vals.take(n as int) =~= vals);
            assert(s.take(i + 1).drop_last() =~= s.take(i as int));
            i = i + 1;
        }
        assert(s.take(self.inner@.len() as int) =~= s);
        InstanceProperties {
            service: service_name,
            service_instance: instance_name,
            properties,
            layer: String::new(),
        }
    }
}

impl Default for Properties {
    fn default() -> (r: Self)
        ensures
            r@ == Seq::<(Seq<char>, Seq<Seq<char>>)>::empty(),
    {
        Properties::new()
    }
}

/// The properties after each pair of `items` is inserted, in order.
pub open spec fn insert_all(s: PropertiesView, items: Seq<(Seq<char>, Seq<char>)>) -> PropertiesView
    decreases items.len(),
{
    if items.len() == 0 {
        s
    } else {
        inserted(insert_all(s, items.drop_last()), items.last().0, items.last().1)
    }
}

/// The views of pairs of strings.
pub open spec fn items_view(v: Seq<(String, String)>) -> Seq<(Seq<char>, Seq<char>)> {
    v.map_values(|p: (String, String)| (p.0@, p.1@))
}

/// A network interface of the host: its name, and the text of each of its
/// addresses that is an IPv4 address (`None` for any other address).
#[derive(Debug, Clone)]
pub struct Network {
    pub name: String,
    pub ipv4_addrs: Vec<Option<String>>,
}

/// What the host tells of itself: the name of its operating system, its host
/// name, its network interfaces, and the id of this process.
#[derive(Debug, Clone)]
pub struct OsInfo {
    pub os_name: Option<String>,
    pub host_name: Option<String>,
    pub networks: Vec<Network>,
    pub process_id: u32,
}

/// An interface whose addresses are reported: not the loopback `lo`, nor a
/// `docker` or `br-` bridge.
pub open spec fn reported_interface(name: Seq<char>) -> bool {
    name != "lo"@ && !("docker"@.is_prefix_of(name)) && !("br-"@.is_prefix_of(name))
}

/// The IPv4 addresses of one interface, in order.
pub open spec fn ipv4_of(addrs: Seq<Option<String>>) -> Seq<Seq<char>>
    decreases addrs.len(),
{
    if addrs.len() == 0 {
        Seq::empty()
    } else {
        ipv4_of(addrs.drop_last()) + match addrs.last() {
            Some(a) => seq![a@],
            None => Seq::empty(),
        }
    }
}

/// The IPv4 addresses of the reported interfaces, interface after interface.
pub open spec fn reported_ips(networks: Seq<Network>) -> Seq<Seq<char>>
    decreases networks.len(),
{
    if networks.len() == 0 {
        Seq::empty()
    } else {
        reported_ips(networks.drop_last()) + if reported_interface(networks.last().name@) {
            ipv4_of(networks.last().ipv4_addrs@)
        } else {
            Seq::empty()
        }
    }
}

/// The OS info items: the OS name and the host name where known, an `ipv4`
/// item for each reported address, the process number, and the language.
pub open spec fn os_info_items(info: OsInfo) -> Seq<(Seq<char>, Seq<char>)> {
    let ips = reported_ips(info.networks@).map_values(|ip: Seq<char>| (KEY_IPV4@, ip));
    os_name_item(info) + host_name_item(info) + ips + seq![
        (KEY_PROCESS_NO@, int_text(info.process_id as int)),
        (KEY_LANGUAGE@, "rust"@),
    ]
}

/// The OS name item, where the name is known.
pub open spec fn os_name_item(info: OsInfo) -> Seq<(Seq<char>, Seq<char>)> {
    match info.os_name {
        Some(n) => seq![(KEY_OS_NAME@, n@)],
        None => Seq::empty(),
    }
}

/// The host name item, where the name is known.
pub open spec fn host_name_item(info: OsInfo) -> Seq<(Seq<char>, Seq<char>)> {
    match info.host_name {
        Some(h) => seq![(KEY_HOST_NAME@, h@)],
        None => Seq::empty(),
    }
}

/// The addresses of the reported interfaces.
pub fn reported_ipv4s(networks: &Vec<Network>) -> (r: Vec<String>)
    ensures
        strings_view(r@) == reported_ips(networks@),
{
    let mut r: Vec<String> = Vec::new();
    let mut i: usize = 0;
    while i < networks.len()
        invariant
            i <= networks@.len(),
            strings_view(r@) == reported_ips(networks@.take(i as int)),
        decreases networks@.len() - i,
    {
        let network = &networks[i];
        let ghost base = strings_view(r@);
        assert(networks@.take(i + 1).drop_last() =~= networks@.take(i as int));
        assert(networks@.take(i + 1).last() == *network);
        let name = network.name.as_str();
        let keep = !(network.name == owned("lo")) && !starts_with(name, "docker") && !starts_with(name, "br-");
        if keep {
            let mut j: usize = 0;
            while j < network.ipv4_addrs.len()
                invariant
                    j <= network.ipv4_addrs@.len(),
                    strings_view(r@) == base + ipv4_of(network.ipv4_addrs@.take(j as int)),
                decreases network.ipv4_addrs@.len() - j,
            {
                assert(network.ipv4_addrs@.take(j + 1).drop_last() =~= network.ipv4_addrs@.take(j as int));
                match &network.ipv4_addrs[j] {
                    Some(a) => {
                        let ghost before = r@;
                        r.push(a.clone());
                        assert(strings_view(r@) =~= strings_view(before).push(a@));
                    },
                    None => {},
                }
                j = j + 1;
            }
            assert(network.ipv4_addrs@.take(network.ipv4_addrs@.len() as int) =~= network.ipv4_addrs@);
        } else {
            assert(base + Seq::<Seq<char>>::empty() =~= base);
        }
        i = i + 1;
    }
    assert(networks@.take(networks@.len() as int) =~= networks@);
    r
}

/// Build the OS info items of the host.
pub fn build_os_info(info: &OsInfo) -> (items: Vec<(String, String)>)
    ensures
        items_view(items@) == os_info_items(*info),
{
    let mut items: Vec<(String, String)> = Vec::new();
    if let Some(os_name) = &info.os_name {
        items.push((owned(KEY_OS_NAME), os_name.clone()));
    }
    if let Some(host_name) = &info.host_name {
        items.push((owned(KEY_HOST_NAME), host_name.clone()));
    }
    let ghost head = items_view(items@);
    let ips = reported_ipv4s(&info.networks);
    let ghost ipv = strings_view(ips@);
    let mut i: usize = 0;
    while i < ips.len()
        invariant
            i <= ips@.len(),
            ipv == strings_view(ips@),
            items_view(items@) == head + ipv.take(i as int).map_values(|ip: Seq<char>| (KEY_IPV4@, ip)),
        decreases ips@.len() - i,
    {
        let ghost before = items@;
        items.push((owned(KEY_IPV4), ips[i].clone()));
        assert(items_view(items@) =~= items_view(before).push((KEY_IPV4@, ipv[i as int])));
        i = i + 1;
        assert(ipv.take(i as int).map_values(|ip: Seq<char>| (KEY_IPV4@, ip)) =~= ipv.take(i - 1).map_values(
            |ip: Seq<char>| (KEY_IPV4@, ip),
        ).push((KEY_IPV4@, ipv[i - 1])));
    }
    assert(ipv.take(ips@.len() as int) =~= ipv);
    items.push((owned(KEY_PROCESS_NO), int_to_text(info.process_id as i64)));
    items.push((owned(KEY_LANGUAGE), owned("rust")));
    assert(head =~= os_name_item(*info) + host_name_item(*info));
    assert(items_view(items@) =~= os_info_items(*info));
    items
}

} // verus!
