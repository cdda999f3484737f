//! Discovery of cast devices from network service advertisements.
//!
//! A scan lasts a fixed time. Its caller browses for advertisements, waits
//! for each event for at most [`POLL_INTERVAL_MS`], and hands every event to
//! [`DiscoveryScan::handle`]. A resolved advertisement with an address
//! becomes a device; the first device seen under a full service name is
//! kept and later ones under that name are ignored.

use vstd::prelude::*;

use crate::errors::BCError;

verus! {

/// The service type under which cast devices advertise themselves.
pub const SERVICE_TYPE: &'static str = "_googlecast._tcp.local.";

/// How long the caller of a scan waits for one event, in milliseconds.
pub const POLL_INTERVAL_MS: u64 = 500;

/// Milliseconds in a second.
pub const MS_PER_SECOND: u64 = 1000;

/// TXT key of the device id.
pub const ID_KEY: &'static str = "id";

/// TXT key of the model name.
pub const MODEL_NAME_KEY: &'static str = "md";

/// TXT key of the friendly name.
pub const FRIENDLY_NAME_KEY: &'static str = "fn";

/// A resolved service description from the service discovery daemon.
#[verifier::external_type_specification]
#[verifier::external_body]
pub struct ExServiceInfo(mdns_sd::ServiceInfo);

/// The full service name of a service description.
pub uninterp spec fn fullname_of(info: mdns_sd::ServiceInfo) -> Seq<char>;

/// The port of a service description.
pub uninterp spec fn port_of(info: mdns_sd::ServiceInfo) -> u16;

/// The addresses of a service description, each written out.
pub uninterp spec fn address_set_of(info: mdns_sd::ServiceInfo) -> Set<Seq<char>>;

/// The value of the TXT property `key` of a service description, if it has
/// one.
pub uninterp spec fn property_of(info: mdns_sd::ServiceInfo, key: Seq<char>) -> Option<Seq<char>>;

/// The TXT properties of a service description, as key and value, in the
/// order in which it stores them.
pub uninterp spec fn txt_pairs_of(info: mdns_sd::ServiceInfo) -> Seq<(Seq<char>, Seq<char>)>;

/// The characters of an optional string.
pub open spec fn text_of(o: Option<String>) -> Option<Seq<char>> {
    match o {
        Some(s) => Some(s@),
        None => None,
    }
}

/// The characters of each key and value of `s`.
pub open spec fn pairs_text(s: Seq<(String, String)>) -> Seq<(Seq<char>, Seq<char>)> {
    s.map_values(|p: (String, String)| (p.0@, p.1@))
}

/// Whether `s` holds each member of `set` once and nothing else.
pub open spec fn lists_each_once(s: Seq<String>, set: Set<Seq<char>>) -> bool {
    &&& forall|i: int| 0 <= i < s.len() ==> set.contains(#[trigger] s[i]@)
    &&& forall|a: Seq<char>| set.contains(a) ==> exists|i: int| 0 <= i < s.len() && #[trigger] s[i]@ == a
    &&& forall|i: int, j: int| 0 <= i < j < s.len() ==> #[trigger] s[i]@ != #[trigger] s[j]@
    &&& (s.len() == 0 <==> set.is_empty())
}

/// Relies on `ServiceInfo::get_fullname`: the advertisement's full service name.
#[verifier::external_body]
fn service_fullname(info: &mdns_sd::ServiceInfo) -> (r: String)
    ensures
        r@ == fullname_of(*info),
{
    info.get_fullname().to_string()
}

/// Relies on `ServiceInfo::get_port`: the advertised port.
#[verifier::external_body]
fn service_port(info: &mdns_sd::ServiceInfo) -> (r: u16)
    ensures
        r == port_of(*info),
{
    info.get_port()
}

/// Relies on `ServiceInfo::get_addresses`: the advertised addresses, a set,
/// written out, each once, in the order in which the set yields them.
#[verifier::external_body]
fn service_addresses(info: &mdns_sd::ServiceInfo) -> (r: Vec<String>)
    ensures
        lists_each_once(r@, address_set_of(*info)),
{
    info.get_addresses().iter().map(|a| a.to_string()).collect()
}

/// Relies on `ServiceInfo::get_property_val_str`: the value of a TXT
/// property, looked up by key.
#[verifier::external_body]
fn service_property(info: &mdns_sd::ServiceInfo, key: &str) -> (r: Option<String>)
    ensures
        text_of(r) == property_of(*info, key@),
{
    info.get_property_val_str(key).map(|v| v.to_string())
}

/// Relies on `ServiceInfo::get_properties`: the TXT properties as key and
/// value, in the order in which they are stored.
#[verifier::external_body]
fn service_properties(info: &mdns_sd::ServiceInfo) -> (r: Vec<(String, String)>)
    ensures
        pairs_text(r@) == txt_pairs_of(*info),
{
    info.get_properties().iter().map(|p| (p.key().to_string(), p.val_str().to_string())).collect()
}

/// A resolved advertisement, as plain values.
pub struct Advertisement {
    /// The full service name, which identifies the advertising device.
    pub fullname: String,
    pub port: u16,
    /// The advertised addresses, written out; the first one is used.
    pub addresses: Vec<String>,
    /// The device id (TXT key `id`).
    pub id: Option<String>,
    /// The model name (TXT key `md`).
    pub model_name: Option<String>,
    /// The friendly name (TXT key `fn`).
    pub friendly_name: Option<String>,
    /// All TXT properties, as key and value.
    pub properties: Vec<(String, String)>,
}

/// A cast device found by a scan.
#[derive(Debug)]
pub struct DiscoveredDevice {
    /// The IPv4 or IPv6 address of the device.
    pub ip_address: String,
    /// The port of its cast service (typically 8009).
    pub port: u16,
    /// The full service name, unique to the device.
    pub fullname: String,
    pub id: Option<String>,
    pub model_name: Option<String>,
    pub friendly_name: Option<String>,
    /// All TXT properties, as key and value.
    pub txt_properties: Vec<(String, String)>,
}

/// An event seen while browsing for devices.
pub enum ScanEvent {
    /// A service was resolved into an advertisement.
    Resolved(Advertisement),
    /// Any other event of the browse.
    Other,
    /// No event came within one poll interval.
    Timeout,
    /// Receiving events failed.
    Failed,
}

/// Whether no two pairs of `s` share a key.
pub open spec fn keys_distinct(s: Seq<(String, String)>) -> bool {
    forall|i: int, j: int| 0 <= i < j < s.len() ==> #[trigger] s[i].0@ != #[trigger] s[j].0@
}

/// Whether `s[j]` is the first pair of `s` with its key.
pub open spec fn first_with_key(s: Seq<(String, String)>, j: int) -> bool {
    &&& 0 <= j < s.len()
    &&& forall|k: int| 0 <= k < j ==> #[trigger] s[k].0@ != s[j].0@
}

/// Whether some pair of `s` has the key `key`.
pub open spec fn has_key(s: Seq<(String, String)>, key: Seq<char>) -> bool {
    exists|i: int| 0 <= i < s.len() && #[trigger] s[i].0@ == key
}

/// Whether `out` is `pairs` with every pair dropped whose key came earlier.
pub open spec fn first_of_each_key(pairs: Seq<(String, String)>, out: Seq<(String, String)>) -> bool {
    &&& keys_distinct(out)
    &&& forall|i: int|
        0 <= i < out.len() ==> exists|j: int| first_with_key(pairs, j) && #[trigger] out[i] == pairs[j]
    &&& forall|j: int| 0 <= j < pairs.len() ==> has_key(out, #[trigger] pairs[j].0@)
}

/// The device that an advertisement describes: at its first address, or
/// none when it carries no address.
pub open spec fn device_of(adv: Advertisement) -> Option<DiscoveredDevice> {
    if adv.addresses@.len() == 0 {
        None
    } else {
        Some(
            DiscoveredDevice {
                ip_address: adv.addresses@[0],
                port: adv.port,
                fullname: adv.fullname,
                id: adv.id,
                model_name: adv.model_name,
                friendly_name: adv.friendly_name,
                txt_properties: adv.properties,
            },
        )
    }
}

/// Whether a device in `seen` has the full name `name`.
pub open spec fn has_fullname(seen: Seq<DiscoveredDevice>, name: Seq<char>) -> bool {
    exists|i: int| 0 <= i < seen.len() && #[trigger] seen[i].fullname@ == name
}

/// Whether no two devices of `seen` share a full name.
pub open spec fn fullnames_distinct(seen: Seq<DiscoveredDevice>) -> bool {
    forall|i: int, j: int|
        0 <= i < j < seen.len() ==> #[trigger] seen[i].fullname@ != #[trigger] seen[j].fullname@
}

/// `seen` after device `d` was found: unchanged when a device of that full
/// name is already there, else with `d` added at the end.
pub open spec fn recorded(seen: Seq<DiscoveredDevice>, d: DiscoveredDevice) -> Seq<DiscoveredDevice> {
    if has_fullname(seen, d.fullname@) {
        seen
    } else {
        seen.push(d)
    }
}

/// The devices after one more event, or `None` when the event ends the scan
/// with an error.
pub open spec fn scan_step(seen: Seq<DiscoveredDevice>, e: ScanEvent) -> Option<Seq<DiscoveredDevice>> {
    match e {
        ScanEvent::Resolved(adv) => match device_of(adv) {
            Some(d) => Some(recorded(seen, d)),
            None => Some(seen),
        },
        ScanEvent::Failed => None,
        _ => Some(seen),
    }
}

/// The devices that a scan reports after `events`, starting from none, or
/// `None` when an event ended it with an error.
pub open spec fn scan_run(events: Seq<ScanEvent>) -> Option<Seq<DiscoveredDevice>>
    decreases events.len(),
{
    if events.len() == 0 {
        Some(Seq::empty())
    } else {
        match scan_run(events.drop_last()) {
            Some(seen) => scan_step(seen, events.last()),
            None => None,
        }
    }
}

/// Whether `s` already holds a pair with key `key`.
fn holds_key(s: &Vec<(String, String)>, key: &String) -> (r: bool)
    ensures
        r == has_key(s@, key@),
{
    let mut i: usize = 0;
    while i < s.len()
        invariant
            i <= s@.len(),
            forall|k: int| 0 <= k < i ==> #[trigger] s@[k].0@ != key@,
        decreases s@.len() - i,
    {
        if s[i].0 == *key {
            return true;
        }
        i = i + 1;
    }
    false
}

proof fn lemma_first_in_longer(short: Seq<(String, String)>, long: Seq<(String, String)>, j: int)
    requires
        first_with_key(short, j),
        short.len() <= long.len(),
        forall|k: int| 0 <= k < short.len() ==> #[trigger] long[k] == short[k],
    ensures
        first_with_key(long, j),
{
    assert forall|k: int| 0 <= k < j implies #[trigger] long[k].0@ != long[j].0@ by {
        assert(long[k] == short[k]);
        assert(long[j] == short[j]);
    }
}

/// Keeps, of the pairs that share a key, the first one, as a TXT record
/// with a repeated key is read.
pub fn first_of_each(pairs: Vec<(String, String)>) -> (r: Vec<(String, String)>)
    ensures
        first_of_each_key(pairs@, r@),
{
    let ghost all = pairs@;
    let mut out: Vec<(String, String)> = Vec::new();
    let mut rest = pairs;
    let ghost n = all.len();
    while rest.len() > 0
        invariant
            n == all.len(),
            rest@.len() <= n,
            rest@ == all.subrange(n - rest@.len(), n as int),
            first_of_each_key(all.subrange(0, n - rest@.len()), out@),
        decreases rest@.len(),
    {
        let ghost done = n - rest@.len();
        let ghost prefix = all.subrange(0, done);
        let ghost next_prefix = all.subrange(0, done + 1);
        let pair = rest.remove(0);
        assert(pair == all[done]);
        assert(rest@ == all.subrange(done + 1, n as int));
        let present = holds_key(&out, &pair.0);
        proof {
            assert forall|j: int| 0 <= j < done implies #[trigger] next_prefix[j] == prefix[j] by {}
            assert(next_prefix[done] == pair);
        }
        if !present {
            let ghost old_out = out@;
            out.push(pair);
            proof {
                assert forall|k: int| 0 <= k < done implies #[trigger] prefix[k].0@ != pair.0@ by {
                    assert(has_key(old_out, prefix[k].0@));
                    let i = choose|i: int| 0 <= i < old_out.len() && #[trigger] old_out[i].0@ == prefix[k].0@;
                    assert(old_out[i].0@ != pair.0@);
                }
                assert forall|k: int| 0 <= k < done implies #[trigger] next_prefix[k].0@ != next_prefix[done].0@ by {
                    assert(next_prefix[k] == prefix[k]);
                }
                assert(first_with_key(next_prefix, done));
                assert forall|i: int| 0 <= i < out@.len() implies exists|j: int|
                    first_with_key(next_prefix, j) && #[trigger] out@[i] == next_prefix[j] by {
                    if i < old_out.len() {
                        let j = choose|j: int| first_with_key(prefix, j) && old_out[i] == prefix[j];
                        lemma_first_in_longer(prefix, next_prefix, j);
                    } else {
                        assert(out@[i] == next_prefix[done]);
                    }
                }
                assert forall|j: int| 0 <= j < next_prefix.len() implies has_key(
                    out@,
                    #[trigger] next_prefix[j].0@,
                ) by {
                    if j < done {
                        assert(has_key(old_out, prefix[j].0@));
                        let i = choose|i: int| 0 <= i < old_out.len() && #[trigger] old_out[i].0@ == prefix[j].0@;
                        assert(out@[i] == old_out[i]);
                    } else {
                        assert(out@[old_out.len() as int] == pair);
                    }
                }
            }
        } else {
            proof {
                assert forall|i: int| 0 <= i < out@.len() implies exists|j: int|
                    first_with_key(next_prefix, j) && #[trigger] out@[i] == next_prefix[j] by {
                    let j = choose|j: int| first_with_key(prefix, j) && out@[i] == prefix[j];
                    lemma_first_in_longer(prefix, next_prefix, j);
                }
                assert forall|j: int| 0 <= j < next_prefix.len() implies has_key(
                    out@,
                    #[trigger] next_prefix[j].0@,
                ) by {
                    if j < done {
                        assert(has_key(out@, prefix[j].0@));
                    }
                }
            }
        }
        assert(first_of_each_key(next_prefix, out@));
        assert(all.subrange(0, n - rest@.len()) == next_prefix);
    }
    assert(all.subrange(0, n as int) == all);
    out
}

impl Advertisement {
    /// Whether the advertisement holds one property for each key.
    pub open spec fn wf(&self) -> bool {
        keys_distinct(self.properties@)
    }

    /// Reads a resolved service description into plain values: its name,
    /// port and addresses, the device id, model and friendly name from the
    /// TXT properties, and all TXT properties with one value for each key.
    pub fn from_service(info: &mdns_sd::ServiceInfo) -> (r: Advertisement)
        ensures
            r.wf(),
            r.fullname@ == fullname_of(*info),
            r.port == port_of(*info),
            lists_each_once(r.addresses@, address_set_of(*info)),
            text_of(r.id) == property_of(*info, ID_KEY@),
            text_of(r.model_name) == property_of(*info, MODEL_NAME_KEY@),
            text_of(r.friendly_name) == property_of(*info, FRIENDLY_NAME_KEY@),
            exists|pairs: Seq<(String, String)>|
                pairs_text(pairs) == txt_pairs_of(*info) && first_of_each_key(pairs, r.properties@),
    {
        let raw = service_properties(info);
        let ghost raw_pairs = raw@;
        let properties = first_of_each(raw);
        assert(pairs_text(raw_pairs) == txt_pairs_of(*info) && first_of_each_key(raw_pairs, properties@));
        Advertisement {
            fullname: service_fullname(info),
            port: service_port(info),
            addresses: service_addresses(info),
            id: service_property(info, ID_KEY),
            model_name: service_property(info, MODEL_NAME_KEY),
            friendly_name: service_property(info, FRIENDLY_NAME_KEY),
            properties,
        }
    }
}

impl DiscoveredDevice {
    /// The device that an advertisement describes, at its first address.
    /// An advertisement without an address describes none: `InternalError`.
    pub fn from_advertisement(adv: Advertisement) -> (r: Result<DiscoveredDevice, BCError>)
        ensures
            adv.addresses@.len() == 0 <==> r is Err,
            r is Err ==> r matches Err(BCError::InternalError),
            r matches Ok(d) ==> device_of(adv) == Some(d),
    {
        if adv.addresses.len() == 0 {
            return Err(BCError::InternalError);
        }
        let ip_address = adv.addresses[0].clone();
        Ok(
            DiscoveredDevice {
                ip_address,
                port: adv.port,
                fullname: adv.fullname,
                id: adv.id,
                model_name: adv.model_name,
                friendly_name: adv.friendly_name,
                txt_properties: adv.properties,
            },
        )
    }
}

/// A scan in progress: its time budget, the events it took, and the
/// devices found so far.
pub struct DiscoveryScan {
    search_seconds: u64,
    devices: Vec<DiscoveredDevice>,
    taken: Ghost<Seq<ScanEvent>>,
}

/// Starts a scan that lasts `search_seconds`, with no device found yet.
pub fn find_chromecasts(search_seconds: u64) -> (r: DiscoveryScan)
    ensures
        r.wf(),
        r.seconds() == search_seconds,
        r.found() == Seq::<DiscoveredDevice>::empty(),
        r.history() == Seq::<ScanEvent>::empty(),
{
    DiscoveryScan { search_seconds, devices: Vec::new(), taken: Ghost(Seq::empty()) }
}

impl DiscoveryScan {
    /// The devices found so far, in the order they were first seen.
    pub closed spec fn found(&self) -> Seq<DiscoveredDevice> {
        self.devices@
    }

    /// The events the scan has taken, in order; a failure ends the scan and
    /// is not among them.
    pub closed spec fn history(&self) -> Seq<ScanEvent> {
        self.taken@
    }

    /// How long the scan lasts, in whole seconds.
    pub closed spec fn seconds(&self) -> u64 {
        self.search_seconds
    }

    /// How long the scan lasts, in whole seconds.
    pub fn search_seconds(&self) -> (r: u64)
        ensures
            r == self.seconds(),
    {
        self.search_seconds
    }

    /// The devices found are those that the events taken give, and no two
    /// of them share a full name.
    pub open spec fn wf(&self) -> bool {
        &&& scan_run(self.history()) == Some(self.found())
        &&& fullnames_distinct(self.found())
    }

    /// Whether the scan still waits for events after `elapsed_ms`
    /// milliseconds: until its whole time budget is spent.
    pub fn keep_polling(&self, elapsed_ms: u64) -> (r: bool)
        ensures
            r == (elapsed_ms < self.seconds() * MS_PER_SECOND),
    {
        (elapsed_ms as u128) < (self.search_seconds as u128) * (MS_PER_SECOND as u128)
    }

    /// The devices found so far, in the order they were first seen.
    pub fn devices(&self) -> (r: &Vec<DiscoveredDevice>)
        ensures
            r@ == self.found(),
    {
        &self.devices
    }

    /// Ends the scan with the devices found: those that the events it took
    /// give.
    pub fn into_devices(self) -> (r: Vec<DiscoveredDevice>)
        requires
            self.wf(),
        ensures
            r@ == self.found(),
            scan_run(self.history()) == Some(r@),
    {
        self.devices
    }

    /// Whether a device of full name `name` was found already.
    fn knows(&self, name: &String) -> (r: bool)
        ensures
            r == has_fullname(self.found(), name@),
    {
        let mut i: usize = 0;
        while i < self.devices.len()
            invariant
                i <= self.devices@.len(),
                forall|k: int| 0 <= k < i ==> #[trigger] self.devices@[k].fullname@ != name@,
            decreases self.devices@.len() - i,
        {
            if self.devices[i].fullname == *name {
                return true;
            }
            i = i + 1;
        }
        false
    }

    /// Takes one event of the browse. A resolved advertisement with an
    /// address adds its device unless one of that full name was found
    /// before; one without an address, any other event and a poll timeout
    /// change nothing. A receive failure ends the scan: `InternalError`.
    pub fn handle(&mut self, event: ScanEvent) -> (r: Result<(), BCError>)
        requires
            old(self).wf(),
        ensures
            final(self).wf(),
            final(self).seconds() == old(self).seconds(),
            match scan_step(old(self).found(), event) {
                Some(seen) => r is Ok && final(self).found() == seen,
                None => r matches Err(BCError::InternalError) && final(self).found() == old(self).found(),
            },
            r is Ok ==> final(self).history() == old(self).history().push(event),
            r is Err ==> final(self).history() == old(self).history(),
    {
        let ghost ev = event;
        let ghost before = self.taken@;
        assert(before.push(ev).drop_last() == before);
        let r = match event {
            ScanEvent::Resolved(adv) => {
                if let Ok(device) = DiscoveredDevice::from_advertisement(adv) {
                    if !self.knows(&device.fullname) {
                        let ghost before = self.devices@;
                        self.devices.push(device);
                        proof {
                            assert forall|i: int, j: int| 0 <= i < j < self.devices@.len() implies
                                #[trigger] self.devices@[i].fullname@ != #[trigger] self.devices@[j].fullname@ by {
                                if j == before.len() {
                                    assert(self.devices@[i] == before[i]);
                                } else {
                                    assert(self.devices@[i] == before[i]);
                                    assert(self.devices@[j] == before[j]);
                                }
                            }
                        }
                    }
                }
                Ok(())
            },
            ScanEvent::Failed => Err(BCError::InternalError),
            _ => Ok(()),
        };
        if r.is_ok() {
            self.taken = Ghost(before.push(ev));
        }
        r
    }
}

/// Whether every event of `events` resolves an advertisement under the full
/// name `name`.
pub open spec fn all_resolve_to(events: Seq<ScanEvent>, name: Seq<char>) -> bool {
    forall|i: int|
        0 <= i < events.len() ==> (#[trigger] events[i] is Resolved && events[i]->Resolved_0.fullname@ == name)
}

/// Repeated advertisements of one device: when every event resolves an
/// advertisement under the same full name and the first one carries an
/// address, the scan reports exactly one device, the one that the first
/// advertisement describes.
pub proof fn lemma_duplicates_keep_first(events: Seq<ScanEvent>)
    requires
        events.len() > 0,
        all_resolve_to(events, events[0]->Resolved_0.fullname@),
        events[0]->Resolved_0.addresses@.len() > 0,
    ensures
        scan_run(events) == Some(seq![device_of(events[0]->Resolved_0).unwrap()]),
    decreases events.len(),
{
    let first = device_of(events[0]->Resolved_0).unwrap();
    if events.len() == 1 {
        assert(events.drop_last().len() == 0);
        assert(!has_fullname(Seq::<DiscoveredDevice>::empty(), first.fullname@));
        assert(Seq::<DiscoveredDevice>::empty().push(first) == seq![first]);
    } else {
        let shorter = events.drop_last();
        assert(shorter[0] == events[0]);
        assert forall|i: int| 0 <= i < shorter.len() implies (#[trigger] shorter[i] is Resolved
            && shorter[i]->Resolved_0.fullname@ == shorter[0]->Resolved_0.fullname@) by {
            assert(shorter[i] == events[i]);
        }
        lemma_duplicates_keep_first(shorter);
        let last = events.last();
        assert(last == events[events.len() - 1]);
        match device_of(last->Resolved_0) {
            Some(d) => {
                assert(seq![first][0].fullname@ == d.fullname@);
                assert(has_fullname(seq![first], d.fullname@));
            },
            None => {},
        }
    }
}

/// A scan that sees nothing: when every event is a poll timeout or an event
/// other than a resolution, the scan reports no device and no error.
pub proof fn lemma_quiet_scan_is_empty(events: Seq<ScanEvent>)
    requires
        forall|i: int| 0 <= i < events.len() ==> #[trigger] events[i] is Timeout || events[i] is Other,
    ensures
        scan_run(events) == Some(Seq::<DiscoveredDevice>::empty()),
    decreases events.len(),
{
    if events.len() > 0 {
        let shorter = events.drop_last();
        assert forall|i: int| 0 <= i < shorter.len() implies #[trigger] shorter[i] is Timeout
            || shorter[i] is Other by {
            assert(shorter[i] == events[i]);
        }
        lemma_quiet_scan_is_empty(shorter);
        assert(events.last() == events[events.len() - 1]);
    }
}

/// An advertisement without an address is dropped: after any events, one
/// more resolution that carries no address leaves the outcome of the scan,
/// devices or error, as it was.
pub proof fn lemma_addressless_advertisement_dropped(events: Seq<ScanEvent>, adv: Advertisement)
    requires
        adv.addresses@.len() == 0,
    ensures
        scan_run(events.push(ScanEvent::Resolved(adv))) == scan_run(events),
{
    assert(events.push(ScanEvent::Resolved(adv)).drop_last() == events);
}

/// Whatever the events, a scan never reports two devices of one full name.
pub proof fn lemma_scan_names_distinct(events: Seq<ScanEvent>)
    ensures
        scan_run(events) matches Some(seen) ==> fullnames_distinct(seen),
    decreases events.len(),
{
    if events.len() > 0 {
        lemma_scan_names_distinct(events.drop_last());
        if let Some(seen) = scan_run(events.drop_last()) {
            if let ScanEvent::Resolved(adv) = events.last() {
                if let Some(d) = device_of(adv) {
                    if !has_fullname(seen, d.fullname@) {
                        let grown = seen.push(d);
                        assert forall|i: int, j: int| 0 <= i < j < grown.len() implies
                            #[trigger] grown[i].fullname@ != #[trigger] grown[j].fullname@ by {
                            assert(grown[i] == seen[i]);
                            if j < seen.len() {
                                assert(grown[j] == seen[j]);
                            }
                        }
                    }
                }
            }
        }
    }
}

/// Whether event `e` resolves an advertisement that describes device `d`.
pub open spec fn describes(e: ScanEvent, d: DiscoveredDevice) -> bool {
    e is Resolved && device_of(e->Resolved_0) == Some(d)
}

/// Every device a scan reports comes from an event that describes it.
pub proof fn lemma_found_from_events(events: Seq<ScanEvent>, seen: Seq<DiscoveredDevice>)
    requires
        scan_run(events) == Some(seen),
    ensures
        forall|i: int|
            0 <= i < seen.len() ==> exists|j: int| 0 <= j < events.len() && describes(events[j], #[trigger] seen[i]),
    decreases events.len(),
{
    if events.len() > 0 {
        let shorter = events.drop_last();
        let prev = scan_run(shorter).unwrap();
        lemma_found_from_events(shorter, prev);
        assert forall|i: int| 0 <= i < seen.len() implies exists|j: int|
            0 <= j < events.len() && describes(events[j], #[trigger] seen[i]) by {
            if i < prev.len() {
                assert(seen[i] == prev[i]);
                let j = choose|j: int| 0 <= j < shorter.len() && describes(shorter[j], prev[i]);
                assert(events[j] == shorter[j]);
            } else {
                assert(events[events.len() - 1] == events.last());
            }
        }
    }
}

/// Repeated advertisements of one device, for a scan: when every event a
/// scan has taken resolves an advertisement under one full name and the
/// first of them carries an address, the scan holds exactly one device, the
/// one that the first advertisement describes.
pub proof fn lemma_scan_keeps_first(scan: DiscoveryScan)
    requires
        scan.wf(),
        scan.history().len() > 0,
        all_resolve_to(scan.history(), scan.history()[0]->Resolved_0.fullname@),
        scan.history()[0]->Resolved_0.addresses@.len() > 0,
    ensures
        scan.found() == seq![device_of(scan.history()[0]->Resolved_0).unwrap()],
{
    lemma_duplicates_keep_first(scan.history());
}

/// A quiet scan: when every event a scan has taken is a poll timeout or an
/// event other than a resolution, the scan holds no device.
pub proof fn lemma_quiet_scan_found_nothing(scan: DiscoveryScan)
    requires
        scan.wf(),
        forall|i: int|
            0 <= i < scan.history().len() ==> #[trigger] scan.history()[i] is Timeout
                || scan.history()[i] is Other,
    ensures
        scan.found() == Seq::<DiscoveredDevice>::empty(),
{
    lemma_quiet_scan_is_empty(scan.history());
}

/// An advertisement without an address yields no device: when no event a
/// scan has taken resolves an advertisement under the full name `name` with
/// an address, the scan holds no device of that name, whatever other
/// advertisements of that name without an address it saw.
pub proof fn lemma_scan_drops_addressless(scan: DiscoveryScan, name: Seq<char>)
    requires
        scan.wf(),
        forall|j: int|
            0 <= j < scan.history().len() && #[trigger] scan.history()[j] is Resolved
                && scan.history()[j]->Resolved_0.fullname@ == name ==> scan.history()[j]->Resolved_0.addresses@.len()
                == 0,
    ensures
        !has_fullname(scan.found(), name),
{
    lemma_found_from_events(scan.history(), scan.found());
    if has_fullname(scan.found(), name) {
        let seen = scan.found();
        let events = scan.history();
        let i = choose|i: int| 0 <= i < seen.len() && #[trigger] seen[i].fullname@ == name;
        assert(scan_run(events) == Some(seen));
        assert(exists|j: int| 0 <= j < events.len() && describes(events[j], seen[i]));
        let j = choose|j: int| 0 <= j < events.len() && describes(events[j], seen[i]);
        let adv = events[j]->Resolved_0;
        assert(device_of(adv) == Some(seen[i]));
        assert(adv.fullname@ == name);
        assert(adv.addresses@.len() == 0);
    }
}

} // verus!
