//! Discovery on the local network: what this device advertises over mDNS and how an
//! advertisement that was found becomes a peer. The caller runs the mDNS daemon.
use crate::models::{spec_capabilities, opt_string_view, strings_view, LocalDevice, PROTOCOL_VERSION, StringView};
use crate::net::IpAddress;
use crate::runtime::DiscoveredPeer;
use crate::text::{all_whitespace, chars_of, decimal, is_blank, spec_decimal, spec_trim, string_from_chars, trim};
use crate::transfers::{spec_split, split_chars};
use vstd::prelude::*;
use vstd::string::StringSliceAdditionalSpecFns;
use vstd::utf8::{decode_utf8, encode_utf8, is_char_boundary};

verus! {

/// The first eight bytes of a device id, as text.
pub open spec fn spec_id_prefix(id: Seq<char>) -> Seq<char> {
    decode_utf8(encode_utf8(id).subrange(0, 8))
}

fn id_prefix(id: &str) -> (r: &str)
    requires
        is_char_boundary(id.spec_bytes(), 8),
    ensures
        r@ == spec_id_prefix(id@),
{
    let (head, _) = id.split_at(8);
    proof {
        vstd::utf8::encode_utf8_decode_utf8(head@);
    }
    head
}

/// The mDNS instance name of a device: its name, a dash and the first eight bytes of its id.
pub open spec fn spec_instance_name(device_name: Seq<char>, device_id: Seq<char>) -> Seq<char> {
    device_name + "-"@ + spec_id_prefix(device_id)
}

pub fn service_instance_name(device_name: &str, device_id: &str) -> (r: String)
    requires
        is_char_boundary(device_id.spec_bytes(), 8),
    ensures
        r@ == spec_instance_name(device_name@, device_id@),
{
    let mut r = device_name.to_owned();
    r.append("-");
    r.append(id_prefix(device_id));
    r
}

/// The mDNS host name of a device: `relayclip-`, the first eight bytes of its id, `.local.`.
pub open spec fn spec_service_host_name(device_id: Seq<char>) -> Seq<char> {
    "relayclip-"@ + spec_id_prefix(device_id) + ".local."@
}

pub fn service_host_name(device_id: &str) -> (r: String)
    requires
        is_char_boundary(device_id.spec_bytes(), 8),
    ensures
        r@ == spec_service_host_name(device_id@),
{
    let mut r = "relayclip-".to_owned();
    r.append(id_prefix(device_id));
    r.append(".local.");
    r
}

/// The capability tags joined by commas.
pub open spec fn spec_capability_list() -> Seq<char> {
    "text_utf8,image_png,file_refs"@
}

/// A key and a value of an mDNS TXT record.
pub open spec fn property(key: Seq<char>, value: Seq<char>) -> (Seq<char>, Seq<char>) {
    (key, value)
}

/// The TXT record a device advertises: its id, name, platform, protocol, capabilities,
/// certificate fingerprint and listening port.
pub open spec fn spec_advertised_properties(local: LocalDevice, port: u16) -> Seq<(Seq<char>, Seq<char>)> {
    seq![
        property("device_id"@, local.device_id@),
        property("device_name"@, local.device_name@),
        property("platform"@, local.platform@),
        property("protocol_version"@, PROTOCOL_VERSION@),
        property("capabilities"@, spec_capability_list()),
        property("pubkey_fingerprint"@, local.fingerprint@),
        property("listen_port"@, spec_decimal(port as nat)),
    ]
}

pub fn advertised_properties(local: &LocalDevice, port: u16) -> (r: Vec<(String, String)>)
    ensures
        r@.map_values(|p: (String, String)| (p.0@, p.1@)) == spec_advertised_properties(*local, port),
{
    let mut r: Vec<(String, String)> = Vec::new();
    r.push(("device_id".to_owned(), local.device_id.clone()));
    r.push(("device_name".to_owned(), local.device_name.clone()));
    r.push(("platform".to_owned(), local.platform.clone()));
    r.push(("protocol_version".to_owned(), PROTOCOL_VERSION.to_owned()));
    r.push(("capabilities".to_owned(), "text_utf8,image_png,file_refs".to_owned()));
    r.push(("pubkey_fingerprint".to_owned(), local.fingerprint.clone()));
    r.push(("listen_port".to_owned(), decimal(port as u64)));
    assert(r@.map_values(|p: (String, String)| (p.0@, p.1@)) =~= spec_advertised_properties(*local, port));
    r
}

/// What the mDNS daemon resolved of an advertisement: its full name, the TXT values it
/// holds for the keys a peer advertises (looked up as the daemon looks them up), its host
/// name, addresses and port.
#[derive(Clone, Debug)]
pub struct ResolvedRecord {
    pub fullname: String,
    pub device_id: Option<String>,
    pub device_name: Option<String>,
    pub platform: Option<String>,
    pub protocol_version: Option<String>,
    pub capabilities: Option<String>,
    pub fingerprint: Option<String>,
    pub host_name: String,
    pub addresses: Vec<IpAddress>,
    pub port: u16,
}

/// The capability tags of a comma-separated list: each piece trimmed, blank ones dropped.
pub open spec fn spec_parse_capabilities(list: Seq<char>) -> Seq<Seq<char>> {
    spec_split(list, ',').filter(|s: Seq<char>| !all_whitespace(s)).map_values(
        |s: Seq<char>| spec_trim(s),
    )
}

fn parse_capabilities(list: &str) -> (r: Vec<String>)
    ensures
        strings_view(r@) == spec_parse_capabilities(list@),
{
    let chars = chars_of(list);
    let pieces = split_chars(&chars, ',');
    let ghost all = spec_split(list@, ',');
    let ghost keep = |s: Seq<char>| !all_whitespace(s);
    let mut r: Vec<String> = Vec::new();
    let mut i: usize = 0;
    assert(all.take(0).filter(keep) =~= Seq::<Seq<char>>::empty());
    assert(strings_view(r@) =~= Seq::<Seq<char>>::empty());
    while i < pieces.len()
        invariant
            i <= pieces@.len(),
            pieces@.len() == all.len(),
            forall|k: int| 0 <= k < pieces@.len() ==> #[trigger] pieces@[k]@ == all[k],
            keep == (|s: Seq<char>| !all_whitespace(s)),
            strings_view(r@) == all.take(i as int).filter(keep).map_values(|s: Seq<char>| spec_trim(s)),
        decreases pieces.len() - i,
    {
        proof {
            assert(all.take(i + 1) =~= all.take(i as int).push(all[i as int]));
            crate::seqs::lemma_filter_push(all.take(i as int), keep, all[i as int]);
        }
        let piece = string_from_chars(&pieces[i]);
        if !is_blank(piece.as_str()) {
            let t = trim(piece.as_str());
            let ghost before = r@;
            r.push(t);
            proof {
                assert(strings_view(r@) =~= strings_view(before).push(spec_trim(all[i as int])));
                assert(all.take(i as int).filter(keep).push(all[i as int]).map_values(|s: Seq<char>| spec_trim(s))
                    =~= all.take(i as int).filter(keep).map_values(|s: Seq<char>| spec_trim(s)).push(spec_trim(all[i as int])));
            }
        }
        i = i + 1;
    }
    assert(all.take(all.len() as int) =~= all);
    r
}

/// A value given, or a default.
pub open spec fn or_default(v: Option<String>, default: Seq<char>) -> Seq<char> {
    match v {
        Some(s) => s@,
        None => default,
    }
}

fn value_or(v: Option<String>, default: &str) -> (r: String)
    ensures
        r@ == or_default(v, default@),
{
    match v {
        Some(s) => s,
        None => default.to_owned(),
    }
}

/// The peer that an advertisement describes: none without a device id or for this device
/// itself; a missing name, platform or protocol takes a default, missing capabilities and
/// fingerprint are empty.
pub fn resolved_to_peer(record: ResolvedRecord, local_device_id: &str) -> (r: Option<DiscoveredPeer>)
    ensures
        record.device_id is None ==> r is None,
        record.device_id is Some && record.device_id->0@ == local_device_id@ ==> r is None,
        record.device_id is Some && record.device_id->0@ != local_device_id@ ==> (r matches Some(peer)
            && {
            &&& peer.service_fullname@ == record.fullname@
            &&& peer.device_id@ == record.device_id->0@
            &&& peer.name@ == or_default(record.device_name, "RelayClip Peer"@)
            &&& peer.platform@ == or_default(record.platform, "Unknown"@)
            &&& peer.protocol_version@ == or_default(record.protocol_version, PROTOCOL_VERSION@)
            &&& strings_view(peer.capabilities@) == spec_parse_capabilities(
                or_default(record.capabilities, Seq::empty()),
            )
            &&& peer.fingerprint@ == or_default(record.fingerprint, Seq::empty())
            &&& opt_string_view(peer.host_name) == Some(record.host_name@)
            &&& peer.addresses@ == record.addresses@
            &&& peer.port == record.port
        }),
{
    let device_id = match &record.device_id {
        Some(id) => id.clone(),
        None => return None,
    };
    if device_id == local_device_id.to_owned() {
        return None;
    }
    proof {
        reveal_strlit("");
    }
    let capabilities = parse_capabilities(value_or(record.capabilities, "").as_str());
    Some(
        DiscoveredPeer {
            service_fullname: record.fullname,
            device_id,
            name: value_or(record.device_name, "RelayClip Peer"),
            platform: value_or(record.platform, "Unknown"),
            protocol_version: value_or(record.protocol_version, PROTOCOL_VERSION),
            capabilities,
            fingerprint: value_or(record.fingerprint, ""),
            host_name: Some(record.host_name),
            addresses: record.addresses,
            port: record.port,
        },
    )
}

} // verus!
