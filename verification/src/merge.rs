use vstd::prelude::*;
use crate::device::{clone_opt_string, Device, ResponseTime};
use crate::mac::{normalize_mac, spec_normalize_mac};

verus! {

/// What `ipnetwork` answers when asked whether the address written `ip`
/// lies in the network written `subnet`: `None` when either text does not
/// parse (the network as an `IpNetwork`, the address as an IP address).
pub uninterp spec fn spec_subnet_contains(subnet: Seq<char>, ip: Seq<char>) -> Option<bool>;

/// Whether the address `ip` lies in the network `subnet`.
///
/// Trusted: parses `subnet` with `IpNetwork`'s `FromStr`, `ip` with the IP
/// address `FromStr` of std, and calls `IpNetwork::contains`. The contract
/// only names the result (a function of the two texts); it is `None` where
/// a parse fails.
#[verifier::external_body]
fn subnet_contains(subnet: &str, ip: &str) -> (res: Option<bool>)
    ensures
        res == spec_subnet_contains(subnet@, ip@),
{
    match (subnet.parse::<ipnetwork::IpNetwork>(), ip.parse()) {
        (Ok(network), Ok(addr)) => Some(network.contains(addr)),
        _ => None,
    }
}

/// Index of the last device in `known` whose IP is `ip`.
pub open spec fn last_index_with_ip(known: Seq<Device>, ip: Seq<char>) -> Option<int>
    decreases known.len(),
{
    if known.len() == 0 {
        None
    } else if known.last().ip@ == ip {
        Some(known.len() - 1)
    } else {
        last_index_with_ip(known.drop_last(), ip)
    }
}

/// Index of the last device in `known` with a MAC whose normal form is `mac`.
pub open spec fn last_index_with_mac(known: Seq<Device>, mac: Seq<char>) -> Option<int>
    decreases known.len(),
{
    if known.len() == 0 {
        None
    } else if known.last().mac is Some && spec_normalize_mac(known.last().mac->0@) == mac {
        Some(known.len() - 1)
    } else {
        last_index_with_mac(known.drop_last(), mac)
    }
}

/// The known device that a freshly scanned device is taken to be: the last
/// one with the same IP, else (if it has a MAC) the last one with the same
/// normalized MAC.
pub open spec fn match_index(known: Seq<Device>, device: Device) -> Option<int> {
    match last_index_with_ip(known, device.ip@) {
        Some(i) => Some(i),
        None => match device.mac {
            Some(m) => last_index_with_mac(known, spec_normalize_mac(m@)),
            None => None,
        },
    }
}

/// The round-trip time kept after a match: the old one when the new one is
/// missing or zero and the old one is present.
pub open spec fn kept_response_time(
    new: Option<ResponseTime>,
    old: Option<ResponseTime>,
) -> Option<ResponseTime> {
    if (new is None || new->0.spec_is_zero()) && old is Some {
        old
    } else {
        new
    }
}

/// An optional field kept after a match: the new one, else the old one.
pub open spec fn kept_field(new: Option<String>, old: Option<String>) -> Option<String> {
    if new is None {
        old
    } else {
        new
    }
}

/// A scanned device merged with the known device it matched by IP:
/// health data and hostname are carried over.
pub open spec fn merged_by_ip(new: Device, old: Device) -> Device {
    Device {
        response_time_ms: kept_response_time(new.response_time_ms, old.response_time_ms),
        hostname: kept_field(new.hostname, old.hostname),
        ..new
    }
}

/// A scanned device merged with the known device it matched by MAC only:
/// health data, hostname, vendor and device type are carried over.
pub open spec fn merged_by_mac(new: Device, old: Device) -> Device {
    Device {
        response_time_ms: kept_response_time(new.response_time_ms, old.response_time_ms),
        hostname: kept_field(new.hostname, old.hostname),
        vendor: kept_field(new.vendor, old.vendor),
        device_type: kept_field(new.device_type, old.device_type),
        ..new
    }
}

/// A scanned device after merging with what was known.
pub open spec fn merged_device(known: Seq<Device>, new: Device) -> Device {
    match last_index_with_ip(known, new.ip@) {
        Some(i) => merged_by_ip(new, known[i]),
        None => match match_index(known, new) {
            Some(j) => merged_by_mac(new, known[j]),
            None => new,
        },
    }
}

/// Some scanned device matched a known device with IP `ip`.
pub open spec fn ip_matched(known: Seq<Device>, new: Seq<Device>, ip: Seq<char>) -> bool {
    exists|k: int|
        0 <= k < new.len() && (#[trigger] match_index(known, new[k])) is Some && known[match_index(
            known,
            new[k],
        )->0].ip@ == ip
}

/// The known device at `i` is kept (as offline): it is the last entry with
/// its IP, no scanned device matched it, and it is not known to lie outside
/// `subnet`.
pub open spec fn kept_offline(known: Seq<Device>, new: Seq<Device>, subnet: Seq<char>, i: int) -> bool {
    &&& last_index_with_ip(known, known[i].ip@) == Some(i)
    &&& !ip_matched(known, new, known[i].ip@)
    &&& spec_subnet_contains(subnet, known[i].ip@) != Some(false)
}

/// A known device marked offline: no round-trip time.
pub open spec fn offline(device: Device) -> Device {
    Device { response_time_ms: None, ..device }
}

/// The offline entries among the first `n` known devices, in order.
pub open spec fn offline_devices(
    known: Seq<Device>,
    new: Seq<Device>,
    subnet: Seq<char>,
    n: int,
) -> Seq<Device>
    decreases n,
{
    if n <= 0 {
        Seq::empty()
    } else if kept_offline(known, new, subnet, n - 1) {
        offline_devices(known, new, subnet, n - 1).push(offline(known[n - 1]))
    } else {
        offline_devices(known, new, subnet, n - 1)
    }
}

/// The device list after a scan: every scanned device, in order, merged with
/// the known device it matches; then the unmatched known devices, marked
/// offline, except those outside the scanned subnet.
pub open spec fn spec_merge_devices(known: Seq<Device>, new: Seq<Device>, subnet: Seq<char>) -> Seq<
    Device,
> {
    new.map_values(|d: Device| merged_device(known, d)) + offline_devices(
        known,
        new,
        subnet,
        known.len() as int,
    )
}

/// An index as a mathematical integer.
pub open spec fn opt_index(o: Option<usize>) -> Option<int> {
    match o {
        Some(i) => Some(i as int),
        None => None,
    }
}

fn find_last_ip(known: &Vec<Device>, ip: &String) -> (res: Option<usize>)
    ensures
        opt_index(res) == last_index_with_ip(known@, ip@),
{
    let mut i = known.len();
    assert(known@.take(i as int) =~= known@);
    while i > 0
        invariant
            i <= known.len(),
            last_index_with_ip(known@, ip@) == last_index_with_ip(known@.take(i as int), ip@),
        decreases i,
    {
        i = i - 1;
        assert(known@.take(i as int + 1).drop_last() =~= known@.take(i as int));
        assert(known@.take(i as int + 1).last() == known@[i as int]);
        if known[i].ip == *ip {
            return Some(i);
        }
    }
    assert(known@.take(0) =~= Seq::<Device>::empty());
    None
}

/// `nmacs` holds the normalized MAC of each known device.
spec fn normalized_macs(known: Seq<Device>, nmacs: Seq<Option<String>>) -> bool {
    &&& nmacs.len() == known.len()
    &&& forall|i: int|
        0 <= i < known.len() ==> (#[trigger] nmacs[i] is Some <==> known[i].mac is Some)
            && (nmacs[i] is Some ==> nmacs[i]->0@ == spec_normalize_mac(known[i].mac->0@))
}

fn find_last_mac(known: &Vec<Device>, nmacs: &Vec<Option<String>>, mac: &String) -> (res: Option<
    usize,
>)
    requires
        normalized_macs(known@, nmacs@),
    ensures
        opt_index(res) == last_index_with_mac(known@, mac@),
{
    let mut i = nmacs.len();
    assert(known@.take(i as int) =~= known@);
    while i > 0
        invariant
            i <= known.len(),
            normalized_macs(known@, nmacs@),
            last_index_with_mac(known@, mac@) == last_index_with_mac(known@.take(i as int), mac@),
        decreases i,
    {
        i = i - 1;
        assert(known@.take(i as int + 1).drop_last() =~= known@.take(i as int));
        assert(known@.take(i as int + 1).last() == known@[i as int]);
        assert(nmacs@[i as int] is Some <==> known@[i as int].mac is Some);
        match &nmacs[i] {
            Some(m) => {
                if *m == *mac {
                    return Some(i);
                }
            },
            None => {},
        }
    }
    assert(known@.take(0) =~= Seq::<Device>::empty());
    None
}

fn normalize_known_macs(known: &Vec<Device>) -> (res: Vec<Option<String>>)
    ensures
        normalized_macs(known@, res@),
{
    let mut res: Vec<Option<String>> = Vec::new();
    let mut i: usize = 0;
    while i < known.len()
        invariant
            i <= known.len(),
            res@.len() == i,
            forall|t: int|
                0 <= t < i ==> (#[trigger] res@[t] is Some <==> known@[t].mac is Some) && (
                res@[t] is Some ==> res@[t]->0@ == spec_normalize_mac(known@[t].mac->0@)),
        decreases known.len() - i,
    {
        let n = match &known[i].mac {
            Some(m) => Some(normalize_mac(m.as_str())),
            None => None,
        };
        res.push(n);
        i = i + 1;
    }
    res
}

fn keep_response_time(new: Option<ResponseTime>, old: Option<ResponseTime>) -> (res: Option<
    ResponseTime,
>)
    ensures
        res == kept_response_time(new, old),
{
    let new_missing = match new {
        None => true,
        Some(t) => t.is_zero(),
    };
    if new_missing && old.is_some() {
        old
    } else {
        new
    }
}

fn keep_field(new: Option<String>, old: &Option<String>) -> (res: Option<String>)
    ensures
        res == kept_field(new, *old),
{
    if new.is_none() {
        clone_opt_string(old)
    } else {
        new
    }
}

/// Merges one scanned device with what was known; returns the merged device
/// and the index of the known device it matched.
fn merge_one(known: &Vec<Device>, nmacs: &Vec<Option<String>>, new: Device) -> (res: (
    Device,
    Option<usize>,
))
    requires
        normalized_macs(known@, nmacs@),
    ensures
        res.0 == merged_device(known@, new),
        opt_index(res.1) == match_index(known@, new),
{
    proof {
        lemma_last_index_with_ip_in_range(known@, new.ip@);
        if new.mac is Some {
            lemma_last_index_with_mac_in_range(known@, spec_normalize_mac(new.mac->0@));
        }
    }
    match find_last_ip(known, &new.ip) {
        Some(i) => {
            let old = &known[i];
            let response_time_ms = keep_response_time(new.response_time_ms, old.response_time_ms);
            let hostname = keep_field(new.hostname, &old.hostname);
            (Device { response_time_ms, hostname, ..new }, Some(i))
        },
        None => {
            let by_mac = match &new.mac {
                Some(m) => {
                    let norm = normalize_mac(m.as_str());
                    find_last_mac(known, nmacs, &norm)
                },
                None => None,
            };
            match by_mac {
                Some(j) => {
                    let old = &known[j];
                    let response_time_ms = keep_response_time(
                        new.response_time_ms,
                        old.response_time_ms,
                    );
                    let hostname = keep_field(new.hostname, &old.hostname);
                    let vendor = keep_field(new.vendor, &old.vendor);
                    let device_type = keep_field(new.device_type, &old.device_type);
                    (Device { response_time_ms, hostname, vendor, device_type, ..new }, Some(j))
                },
                None => (new, None),
            }
        },
    }
}

fn is_ip_matched(
    known: &Vec<Device>,
    matches: &Vec<Option<usize>>,
    ip: &String,
    Ghost(new): Ghost<Seq<Device>>,
) -> (res: bool)
    requires
        matches@.len() == new.len(),
        forall|t: int|
            0 <= t < new.len() ==> opt_index(#[trigger] matches@[t]) == match_index(
                known@,
                new[t],
            ),
        forall|t: int|
            0 <= t < new.len() ==> (match_index(known@, #[trigger] new[t]) is Some ==> 0 <= match_index(known@, new[t])->0 < known@.len()),
    ensures
        res == ip_matched(known@, new, ip@),
{
    let mut t: usize = 0;
    while t < matches.len()
        invariant
            t <= matches.len(),
            matches@.len() == new.len(),
            forall|u: int|
                0 <= u < new.len() ==> opt_index(#[trigger] matches@[u]) == match_index(
                    known@,
                    new[u],
                ),
            forall|u: int|
                0 <= u < new.len() ==> (match_index(known@, #[trigger] new[u]) is Some ==> 0 <= match_index(known@, new[u])->0 < known@.len()),
            forall|u: int|
                0 <= u < t ==> !((#[trigger] match_index(known@, new[u])) is Some && known@[match_index(
                    known@,
                    new[u],
                )->0].ip@ == ip@),
        decreases matches.len() - t,
    {
        assert(opt_index(matches@[t as int]) == match_index(known@, new[t as int]));
        match matches[t] {
            Some(j) => {
                if known[j].ip == *ip {
                    assert(match_index(known@, new[t as int]) is Some);
                    return true;
                }
            },
            None => {},
        }
        t = t + 1;
    }
    false
}

proof fn lemma_last_index_with_ip_in_range(known: Seq<Device>, ip: Seq<char>)
    ensures
        last_index_with_ip(known, ip) matches Some(i) ==> 0 <= i < known.len() && known[i].ip@
            == ip,
    decreases known.len(),
{
    if known.len() > 0 {
        lemma_last_index_with_ip_in_range(known.drop_last(), ip);
    }
}

proof fn lemma_last_index_with_mac_in_range(known: Seq<Device>, mac: Seq<char>)
    ensures
        last_index_with_mac(known, mac) matches Some(i) ==> 0 <= i < known.len(),
    decreases known.len(),
{
    if known.len() > 0 {
        lemma_last_index_with_mac_in_range(known.drop_last(), mac);
    }
}

proof fn lemma_match_index_in_range(known: Seq<Device>, device: Device)
    ensures
        match_index(known, device) matches Some(i) ==> 0 <= i < known.len(),
{
    lemma_last_index_with_ip_in_range(known, device.ip@);
    if device.mac is Some {
        lemma_last_index_with_mac_in_range(known, spec_normalize_mac(device.mac->0@));
    }
}

/// Merges freshly scanned devices with the known ones, preserving health
/// data: each scanned device is matched to a known one by IP first, then by
/// MAC; unmatched known devices are kept, marked offline, unless their IP is
/// known to lie outside `subnet`.
pub fn merged_devices(known: &Vec<Device>, new_devices: Vec<Device>, subnet: &str) -> (res: Vec<
    Device,
>)
    ensures
        res@ == spec_merge_devices(known@, new_devices@, subnet@),
{
    let nmacs = normalize_known_macs(known);
    let mut merged: Vec<Device> = Vec::new();
    let mut matches: Vec<Option<usize>> = Vec::new();
    let mut k: usize = 0;
    while k < new_devices.len()
        invariant
            k <= new_devices.len(),
            normalized_macs(known@, nmacs@),
            merged@.len() == k,
            matches@.len() == k,
            forall|t: int|
                0 <= t < k ==> #[trigger] merged@[t] == merged_device(known@, new_devices@[t]),
            forall|t: int|
                0 <= t < k ==> opt_index(#[trigger] matches@[t]) == match_index(
                    known@,
                    new_devices@[t],
                ),
        decreases new_devices.len() - k,
    {
        let (d, m) = merge_one(known, &nmacs, new_devices[k].clone());
        merged.push(d);
        matches.push(m);
        k = k + 1;
    }
    let ghost new = new_devices@;
    assert(merged@ =~= new.map_values(|d: Device| merged_device(known@, d)));
    assert forall|t: int| 0 <= t < new.len() && (#[trigger] match_index(known@, new[t])) is Some implies 0
        <= match_index(known@, new[t])->0 < known@.len() by {
        lemma_match_index_in_range(known@, new[t]);
    }
    let ghost prefix = merged@;
    let mut i: usize = 0;
    while i < known.len()
        invariant
            i <= known.len(),
            new == new_devices@,
            matches@.len() == new.len(),
            forall|u: int|
                0 <= u < new.len() ==> opt_index(#[trigger] matches@[u]) == match_index(
                    known@,
                    new[u],
                ),
            forall|u: int|
                0 <= u < new.len() ==> (match_index(known@, #[trigger] new[u]) is Some ==> 0 <= match_index(known@, new[u])->0 < known@.len()),
            merged@ == prefix + offline_devices(known@, new, subnet@, i as int),
        decreases known.len() - i,
    {
        let old = &known[i];
        let last = find_last_ip(known, &old.ip);
        let is_last = match last {
            Some(j) => j == i,
            None => false,
        };
        let keep = is_last && !is_ip_matched(known, &matches, &old.ip, Ghost(new)) && match subnet_contains(
            subnet,
            old.ip.as_str(),
        ) {
            Some(inside) => inside,
            None => true,
        };
        if keep {
            let mut d = old.clone();
            d.response_time_ms = None;
            merged.push(d);
        }
        i = i + 1;
        assert(merged@ =~= prefix + offline_devices(known@, new, subnet@, i as int));
    }
    merged
}

proof fn lemma_offline_devices_origin(
    known: Seq<Device>,
    new: Seq<Device>,
    subnet: Seq<char>,
    n: int,
)
    requires
        0 <= n <= known.len(),
    ensures
        forall|t: int|
            0 <= t < offline_devices(known, new, subnet, n).len() ==> exists|i: int|
                0 <= i < n && kept_offline(known, new, subnet, i)
                    && #[trigger] offline_devices(known, new, subnet, n)[t] == offline(known[i]),
    decreases n,
{
    if n > 0 {
        lemma_offline_devices_origin(known, new, subnet, n - 1);
        let prev = offline_devices(known, new, subnet, n - 1);
        let cur = offline_devices(known, new, subnet, n);
        assert forall|t: int| 0 <= t < cur.len() implies exists|i: int|
            0 <= i < n && kept_offline(known, new, subnet, i) && #[trigger] cur[t] == offline(
                known[i],
            ) by {
            if t < prev.len() {
                assert(cur[t] == prev[t]);
            } else {
                assert(cur[t] == offline(known[n - 1]));
            }
        }
    }
}

/// With nothing known yet, merging gives back the scanned devices as they are.
pub proof fn lemma_merge_with_nothing_known(new: Seq<Device>, subnet: Seq<char>)
    ensures
        spec_merge_devices(Seq::empty(), new, subnet) == new,
{
    assert forall|t: int| 0 <= t < new.len() implies merged_device(
        Seq::empty(),
        #[trigger] new[t],
    ) == new[t] by {
        assert(last_index_with_ip(Seq::<Device>::empty(), new[t].ip@) is None);
        if new[t].mac is Some {
            assert(last_index_with_mac(
                Seq::<Device>::empty(),
                spec_normalize_mac(new[t].mac->0@),
            ) is None);
        }
    }
    assert(offline_devices(Seq::empty(), new, subnet, 0) =~= Seq::<Device>::empty());
    assert(spec_merge_devices(Seq::empty(), new, subnet) =~= new);
}

/// Merging keeps every scanned device, in order, at the front of the list,
/// with its IP and MAC unchanged and with a non-zero round-trip time that
/// was measured kept as measured.
pub proof fn lemma_merge_keeps_scanned_devices(
    known: Seq<Device>,
    new: Seq<Device>,
    subnet: Seq<char>,
)
    ensures
        spec_merge_devices(known, new, subnet).len() >= new.len(),
        forall|t: int|
            0 <= t < new.len() ==> {
                let d = #[trigger] spec_merge_devices(known, new, subnet)[t];
                &&& d.ip == new[t].ip
                &&& d.mac == new[t].mac
                &&& (new[t].response_time_ms is Some && !new[t].response_time_ms->0.spec_is_zero())
                    ==> d.response_time_ms == new[t].response_time_ms
            },
{
}

/// A scanned device that matches a known device by IP, and was not measured
/// (or measured zero), keeps the known device's round-trip time.
pub proof fn lemma_merge_preserves_health_by_ip(
    known: Seq<Device>,
    new: Seq<Device>,
    subnet: Seq<char>,
    t: int,
)
    requires
        0 <= t < new.len(),
        last_index_with_ip(known, new[t].ip@) is Some,
        new[t].response_time_ms is None || new[t].response_time_ms->0.spec_is_zero(),
        known[last_index_with_ip(known, new[t].ip@)->0].response_time_ms is Some,
    ensures
        spec_merge_devices(known, new, subnet)[t].response_time_ms == known[last_index_with_ip(
            known,
            new[t].ip@,
        )->0].response_time_ms,
{
}

/// The entries after the scanned devices are known devices marked offline,
/// each with an IP that no scanned device has.
pub proof fn lemma_merge_offline_entries(known: Seq<Device>, new: Seq<Device>, subnet: Seq<char>)
    ensures
        forall|t: int|
            new.len() <= t < spec_merge_devices(known, new, subnet).len() ==> {
                let d = #[trigger] spec_merge_devices(known, new, subnet)[t];
                &&& d.response_time_ms is None
                &&& exists|i: int| 0 <= i < known.len() && known[i].ip == d.ip
                &&& forall|k: int| 0 <= k < new.len() ==> new[k].ip@ != d.ip@
            },
{
    let res = spec_merge_devices(known, new, subnet);
    let off = offline_devices(known, new, subnet, known.len() as int);
    lemma_offline_devices_origin(known, new, subnet, known.len() as int);
    assert forall|t: int| new.len() <= t < res.len() implies {
        let d = #[trigger] res[t];
        &&& d.response_time_ms is None
        &&& exists|i: int| 0 <= i < known.len() && known[i].ip == d.ip
        &&& forall|k: int| 0 <= k < new.len() ==> new[k].ip@ != d.ip@
    } by {
        assert(res[t] == off[t - new.len()]);
        let i = choose|i: int|
            0 <= i < known.len() && kept_offline(known, new, subnet, i) && off[t - new.len()]
                == offline(known[i]);
        assert forall|k: int| 0 <= k < new.len() implies new[k].ip@ != res[t].ip@ by {
            if new[k].ip@ == res[t].ip@ {
                lemma_last_index_with_ip_in_range(known, new[k].ip@);
                assert(match_index(known, new[k]) == last_index_with_ip(known, new[k].ip@));
                assert(ip_matched(known, new, known[i].ip@));
            }
        }
    }
}

/// What a scanned device looks like after merging, field by field: every
/// field the scan reported stays as scanned (IP, MAC, a hostname, vendor or
/// device type that is present, a non-zero round-trip time). When the device
/// matches a known one by IP, a missing hostname, and a missing or zero
/// round-trip time, are taken from that known device; vendor and device
/// type stay as scanned. When it matches by MAC only, a missing hostname,
/// vendor, device type, and a missing or zero round-trip time, are taken
/// from the known device. Unmatched devices are unchanged.
pub proof fn lemma_merge_scanned_fields(known: Seq<Device>, new: Seq<Device>, subnet: Seq<char>)
    ensures
        forall|t: int|
            0 <= t < new.len() ==> {
                let d = #[trigger] spec_merge_devices(known, new, subnet)[t];
                let n = new[t];
                &&& d.ip == n.ip
                &&& d.mac == n.mac
                &&& n.hostname is Some ==> d.hostname == n.hostname
                &&& n.vendor is Some ==> d.vendor == n.vendor
                &&& n.device_type is Some ==> d.device_type == n.device_type
                &&& (n.response_time_ms is Some && !n.response_time_ms->0.spec_is_zero())
                    ==> d.response_time_ms == n.response_time_ms
                &&& last_index_with_ip(known, n.ip@) matches Some(i) ==> {
                    &&& d.hostname == if n.hostname is Some {
                        n.hostname
                    } else {
                        known[i].hostname
                    }
                    &&& d.vendor == n.vendor
                    &&& d.device_type == n.device_type
                    &&& d.response_time_ms == if (n.response_time_ms is None
                        || n.response_time_ms->0.spec_is_zero()) && known[i].response_time_ms is Some {
                        known[i].response_time_ms
                    } else {
                        n.response_time_ms
                    }
                }
                &&& (last_index_with_ip(known, n.ip@) is None && match_index(known, n) is Some) ==> {
                    let j = match_index(known, n)->0;
                    &&& d.hostname == if n.hostname is Some {
                        n.hostname
                    } else {
                        known[j].hostname
                    }
                    &&& d.vendor == if n.vendor is Some {
                        n.vendor
                    } else {
                        known[j].vendor
                    }
                    &&& d.device_type == if n.device_type is Some {
                        n.device_type
                    } else {
                        known[j].device_type
                    }
                    &&& d.response_time_ms == if (n.response_time_ms is None
                        || n.response_time_ms->0.spec_is_zero()) && known[j].response_time_ms is Some {
                        known[j].response_time_ms
                    } else {
                        n.response_time_ms
                    }
                }
                &&& match_index(known, n) is None ==> d == n
            },
{
}

/// `d` is `k` with no round-trip time: IP, MAC, hostname, vendor and device
/// type all as in `k`.
pub open spec fn same_but_offline(d: Device, k: Device) -> bool {
    &&& d.response_time_ms is None
    &&& d.ip == k.ip
    &&& d.mac == k.mac
    &&& d.hostname == k.hostname
    &&& d.vendor == k.vendor
    &&& d.device_type == k.device_type
}

/// Each entry after the scanned devices is a known device, unchanged in
/// every field (IP, MAC, hostname, vendor, device type) except the
/// round-trip time, which is gone: it is marked offline, nothing else.
pub proof fn lemma_merge_offline_entries_keep_fields(
    known: Seq<Device>,
    new: Seq<Device>,
    subnet: Seq<char>,
)
    ensures
        forall|t: int|
            #![trigger spec_merge_devices(known, new, subnet)[t]]
            new.len() <= t < spec_merge_devices(known, new, subnet).len() ==> exists|i: int|
                #![trigger known[i]]
                0 <= i < known.len() && same_but_offline(
                    spec_merge_devices(known, new, subnet)[t],
                    known[i],
                ),
{
    let res = spec_merge_devices(known, new, subnet);
    let off = offline_devices(known, new, subnet, known.len() as int);
    lemma_offline_devices_origin(known, new, subnet, known.len() as int);
    assert forall|t: int| #![trigger res[t]] new.len() <= t < res.len() implies exists|i: int|
        #![trigger known[i]]
        0 <= i < known.len() && same_but_offline(res[t], known[i]) by {
        assert(res[t] == off[t - new.len()]);
        let i = choose|i: int|
            0 <= i < known.len() && kept_offline(known, new, subnet, i) && off[t - new.len()]
                == offline(known[i]);
        assert(res[t] == offline(known[i]));
        assert(same_but_offline(res[t], known[i]));
    }
}

/// No two devices share an IP.
pub open spec fn distinct_ips(devices: Seq<Device>) -> bool {
    forall|i: int, j: int|
        0 <= i < devices.len() && 0 <= j < devices.len() && i != j ==> #[trigger] devices[i].ip@
            != #[trigger] devices[j].ip@
}

proof fn lemma_last_index_of_distinct(devices: Seq<Device>, t: int)
    requires
        distinct_ips(devices),
        0 <= t < devices.len(),
    ensures
        last_index_with_ip(devices, devices[t].ip@) == Some(t),
    decreases devices.len(),
{
    if t < devices.len() - 1 {
        let prefix = devices.drop_last();
        assert(devices.last() == devices[devices.len() - 1]);
        assert(devices[devices.len() - 1].ip@ != devices[t].ip@);
        assert(distinct_ips(prefix)) by {
            assert forall|i: int, j: int|
                0 <= i < prefix.len() && 0 <= j < prefix.len() && i != j implies #[trigger] prefix[i].ip@
                != #[trigger] prefix[j].ip@ by {
                assert(prefix[i] == devices[i] && prefix[j] == devices[j]);
            }
        }
        assert(prefix[t] == devices[t]);
        lemma_last_index_of_distinct(prefix, t);
    }
}

proof fn lemma_offline_devices_none(known: Seq<Device>, new: Seq<Device>, subnet: Seq<char>, n: int)
    requires
        0 <= n <= known.len(),
        forall|i: int| 0 <= i < n ==> !kept_offline(known, new, subnet, i),
    ensures
        offline_devices(known, new, subnet, n) == Seq::<Device>::empty(),
    decreases n,
{
    if n > 0 {
        lemma_offline_devices_none(known, new, subnet, n - 1);
    }
}

/// Scanning again exactly the devices already known (with distinct IPs)
/// leaves the device list as it was.
pub proof fn lemma_merge_rescan_unchanged(known: Seq<Device>, subnet: Seq<char>)
    requires
        distinct_ips(known),
    ensures
        spec_merge_devices(known, known, subnet) == known,
{
    assert forall|t: int| 0 <= t < known.len() implies merged_device(known, #[trigger] known[t])
        == known[t] by {
        lemma_last_index_of_distinct(known, t);
        let d = known[t];
        assert(merged_by_ip(d, d) == d);
    }
    assert forall|i: int| 0 <= i < known.len() implies !kept_offline(known, known, subnet, i) by {
        lemma_last_index_of_distinct(known, i);
        assert(match_index(known, known[i]) == Some(i));
        assert(ip_matched(known, known, known[i].ip@));
    }
    lemma_offline_devices_none(known, known, subnet, known.len() as int);
    assert(spec_merge_devices(known, known, subnet) =~= known);
}

proof fn lemma_offline_devices_distinct(
    known: Seq<Device>,
    new: Seq<Device>,
    subnet: Seq<char>,
    n: int,
)
    requires
        0 <= n <= known.len(),
    ensures
        distinct_ips(offline_devices(known, new, subnet, n)),
    decreases n,
{
    if n > 0 {
        lemma_offline_devices_distinct(known, new, subnet, n - 1);
        lemma_offline_devices_origin(known, new, subnet, n - 1);
        let prev = offline_devices(known, new, subnet, n - 1);
        let cur = offline_devices(known, new, subnet, n);
        if kept_offline(known, new, subnet, n - 1) {
            assert forall|a: int, b: int|
                0 <= a < cur.len() && 0 <= b < cur.len() && a != b implies #[trigger] cur[a].ip@
                != #[trigger] cur[b].ip@ by {
                if a < prev.len() && b < prev.len() {
                    assert(cur[a] == prev[a] && cur[b] == prev[b]);
                } else {
                    let c = if a < prev.len() { a } else { b };
                    assert(cur[c] == prev[c]);
                    let i = choose|i: int|
                        0 <= i < n - 1 && kept_offline(known, new, subnet, i) && #[trigger] prev[c]
                            == offline(known[i]);
                    assert(cur[prev.len() as int] == offline(known[n - 1]));
                    if known[i].ip@ == known[n - 1].ip@ {
                        assert(last_index_with_ip(known, known[i].ip@) == Some(i));
                    }
                }
            }
        }
    }
}

/// When the scanned devices have distinct IPs, so does the merged list.
pub proof fn lemma_merge_distinct_ips(known: Seq<Device>, new: Seq<Device>, subnet: Seq<char>)
    requires
        distinct_ips(new),
    ensures
        distinct_ips(spec_merge_devices(known, new, subnet)),
{
    let res = spec_merge_devices(known, new, subnet);
    let off = offline_devices(known, new, subnet, known.len() as int);
    lemma_merge_offline_entries(known, new, subnet);
    lemma_merge_keeps_scanned_devices(known, new, subnet);
    lemma_offline_devices_distinct(known, new, subnet, known.len() as int);
    assert forall|a: int, b: int|
        0 <= a < res.len() && 0 <= b < res.len() && a != b implies #[trigger] res[a].ip@
        != #[trigger] res[b].ip@ by {
        if a < new.len() && b < new.len() {
            assert(res[a].ip == new[a].ip && res[b].ip == new[b].ip);
        } else if a >= new.len() && b >= new.len() {
            assert(res[a] == off[a - new.len()] && res[b] == off[b - new.len()]);
        } else if a < new.len() {
            assert(res[a].ip == new[a].ip);
        } else {
            assert(res[b].ip == new[b].ip);
        }
    }
}

/// The same device as far as a second merge can tell: IP, MAC, round-trip
/// time and hostname agree.
pub open spec fn same_scan_view(a: Device, b: Device) -> bool {
    &&& a.ip == b.ip
    &&& a.mac == b.mac
    &&& a.response_time_ms == b.response_time_ms
    &&& a.hostname == b.hostname
}

proof fn lemma_offline_devices_of_merged(
    r1: Seq<Device>,
    new: Seq<Device>,
    subnet: Seq<char>,
    n: int,
)
    requires
        new.len() <= n <= r1.len(),
        forall|i: int| 0 <= i < new.len() ==> !kept_offline(r1, new, subnet, i),
        forall|i: int| new.len() <= i < r1.len() ==> kept_offline(r1, new, subnet, i),
        forall|i: int| new.len() <= i < r1.len() ==> #[trigger] offline(r1[i]) == r1[i],
    ensures
        offline_devices(r1, new, subnet, n) == r1.subrange(new.len() as int, n),
    decreases n,
{
    if n == new.len() {
        lemma_offline_devices_none(r1, new, subnet, n);
        assert(r1.subrange(new.len() as int, n) =~= Seq::<Device>::empty());
    } else {
        lemma_offline_devices_of_merged(r1, new, subnet, n - 1);
        assert(offline(r1[n - 1]) == r1[n - 1]);
        assert(r1.subrange(new.len() as int, n) =~= r1.subrange(new.len() as int, n - 1).push(
            r1[n - 1],
        ));
    }
}

/// Merging the same scan (with distinct IPs) a second time gives back the
/// list of the first merge, in the same order: the offline entries stay as
/// they were, and each scanned device keeps its IP, MAC, round-trip time and
/// hostname (a device first matched by MAC only keeps the vendor and device
/// type it then took over only until the second merge, which matches it by
/// IP).
pub proof fn lemma_merge_same_scan_twice(known: Seq<Device>, new: Seq<Device>, subnet: Seq<char>)
    requires
        distinct_ips(new),
    ensures
        ({
            let r1 = spec_merge_devices(known, new, subnet);
            let r2 = spec_merge_devices(r1, new, subnet);
            &&& r2.len() == r1.len()
            &&& forall|i: int| 0 <= i < r1.len() ==> same_scan_view(#[trigger] r2[i], r1[i])
            &&& forall|i: int| new.len() <= i < r1.len() ==> #[trigger] r2[i] == r1[i]
        }),
{
    let r1 = spec_merge_devices(known, new, subnet);
    let off1 = offline_devices(known, new, subnet, known.len() as int);
    lemma_merge_distinct_ips(known, new, subnet);
    lemma_merge_keeps_scanned_devices(known, new, subnet);
    lemma_merge_offline_entries(known, new, subnet);
    lemma_offline_devices_origin(known, new, subnet, known.len() as int);
    // Each scanned device finds itself at its own index in the first result.
    assert forall|t: int| 0 <= t < new.len() implies #[trigger] match_index(r1, new[t]) == Some(t)
        && last_index_with_ip(r1, new[t].ip@) == Some(t) by {
        assert(r1[t].ip == new[t].ip);
        lemma_last_index_of_distinct(r1, t);
    }
    assert forall|i: int| 0 <= i < new.len() implies !kept_offline(r1, new, subnet, i) by {
        assert(match_index(r1, new[i]) == Some(i));
        assert(ip_matched(r1, new, r1[i].ip@));
    }
    assert forall|i: int| new.len() <= i < r1.len() implies kept_offline(r1, new, subnet, i)
        && #[trigger] offline(r1[i]) == r1[i] by {
        lemma_last_index_of_distinct(r1, i);
        assert(r1[i] == off1[i - new.len()]);
        let m = choose|m: int|
            0 <= m < known.len() && kept_offline(known, new, subnet, m) && off1[i - new.len()]
                == offline(known[m]);
        assert(r1[i].ip == known[m].ip);
        if ip_matched(r1, new, r1[i].ip@) {
            let k = choose|k: int|
                0 <= k < new.len() && (#[trigger] match_index(r1, new[k])) is Some && r1[match_index(
                    r1,
                    new[k],
                )->0].ip@ == r1[i].ip@;
            assert(match_index(r1, new[k]) == Some(k));
            assert(r1[k].ip@ != r1[i].ip@);
        }
    }
    lemma_offline_devices_of_merged(r1, new, subnet, r1.len() as int);
    let r2 = spec_merge_devices(r1, new, subnet);
    assert forall|i: int| 0 <= i < r1.len() implies same_scan_view(#[trigger] r2[i], r1[i]) by {
        if i < new.len() {
            assert(r2[i] == merged_device(r1, new[i]));
            assert(r1[i] == merged_device(known, new[i]));
            assert(r2[i] == merged_by_ip(new[i], r1[i]));
        } else {
            assert(r2[i] == r1.subrange(new.len() as int, r1.len() as int)[i - new.len()]);
        }
    }
    assert forall|i: int| new.len() <= i < r1.len() implies #[trigger] r2[i] == r1[i] by {
        assert(r2[i] == r1.subrange(new.len() as int, r1.len() as int)[i - new.len()]);
    }
}

} // verus!
