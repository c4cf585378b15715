//! The relay protocol: messages that peers exchange, the framing that carries them, and the
//! TLS identity that authenticates a device.
use crate::clipboard::ClipboardPacket;
use crate::digest::{is_digest_hex, sha256_hex, spec_sha256_hex};
use crate::error::RelayError;
use crate::models::{ClipboardPayloadKind, TransferEntry};
use vstd::prelude::*;

verus! {

/// The largest frame that is sent or accepted, in bytes.
pub const MAX_FRAME_SIZE: usize = 12 * 1024 * 1024;

/// The payload kinds as the wire format numbers them.
#[derive(Clone, Copy, Debug, PartialEq, Eq, Structural)]
pub enum PayloadKind {
    Unknown,
    Text,
    Image,
}

/// A clipboard sent from one device to another.
#[derive(Clone, Debug)]
pub struct ClipboardEnvelope {
    pub origin_device_id: String,
    pub target_device_id: String,
    pub content_hash: String,
    pub payload_kind: i32,
    pub payload_bytes: Vec<u8>,
    pub created_at: i64,
    pub sequence: u64,
    pub mime: String,
}

/// A device telling a peer that it paired with it or unpaired from it.
#[derive(Clone, Debug)]
pub struct DevicePairingUpdate {
    pub origin_device_id: String,
    pub target_device_id: String,
    pub paired: bool,
    pub origin_device_name: String,
    pub origin_platform: String,
    pub origin_capabilities: Vec<String>,
    pub origin_fingerprint: String,
    pub origin_listen_port: Option<u16>,
}

/// A device offering files to a peer.
#[derive(Clone, Debug)]
pub struct IncomingTransferOffer {
    pub transfer_id: String,
    pub origin_device_id: String,
    pub target_device_id: String,
    pub display_name: String,
    pub total_bytes: u64,
    pub total_entries: u32,
    pub entries: Vec<TransferEntry>,
    pub top_level_names: Vec<String>,
    pub warning_message: Option<String>,
}

/// The payload kind that a wire number names; numbers other than those of text and images
/// are refused.
pub open spec fn spec_kind_from_i32(value: i32) -> Result<ClipboardPayloadKind, RelayError> {
    if value == 1 {
        Ok(ClipboardPayloadKind::Text)
    } else if value == 2 {
        Ok(ClipboardPayloadKind::Image)
    } else {
        Err(RelayError::UnsupportedPayloadKind)
    }
}

pub fn kind_from_i32(value: i32) -> (r: Result<ClipboardPayloadKind, RelayError>)
    ensures
        r == spec_kind_from_i32(value),
{
    let kind = if value == 1 {
        PayloadKind::Text
    } else if value == 2 {
        PayloadKind::Image
    } else {
        PayloadKind::Unknown
    };
    match kind {
        PayloadKind::Text => Ok(ClipboardPayloadKind::Text),
        PayloadKind::Image => Ok(ClipboardPayloadKind::Image),
        PayloadKind::Unknown => Err(RelayError::UnsupportedPayloadKind),
    }
}

/// A payload kind survives the trip through its wire number.
pub proof fn kind_round_trips_through_wire_number(kind: ClipboardPayloadKind)
    ensures
        spec_kind_from_i32(kind.spec_transport_kind()) == Ok::<ClipboardPayloadKind, RelayError>(
            kind,
        ),
{
}

/// The envelope that carries a packet from `origin_device_id` to `target_device_id`,
/// stamped with the time the call reads from the clock.
pub fn envelope_from_packet(
    origin_device_id: String,
    target_device_id: String,
    packet: &ClipboardPacket,
    sequence: u64,
) -> (envelope: ClipboardEnvelope)
    ensures
        envelope.origin_device_id == origin_device_id,
        envelope.target_device_id == target_device_id,
        envelope.content_hash == packet.meta.hash,
        envelope.payload_kind == packet.meta.kind.spec_transport_kind(),
        envelope.payload_bytes@ == packet.bytes@,
        envelope.sequence == sequence,
        envelope.mime == packet.meta.mime,
{
    let now = crate::clock::utc_now_millis();
    envelope_from_packet_at(origin_device_id, target_device_id, packet, sequence, now)
}

/// The envelope that carries a packet, created at `created_at`.
pub fn envelope_from_packet_at(
    origin_device_id: String,
    target_device_id: String,
    packet: &ClipboardPacket,
    sequence: u64,
    created_at: i64,
) -> (envelope: ClipboardEnvelope)
    ensures
        envelope.origin_device_id == origin_device_id,
        envelope.target_device_id == target_device_id,
        envelope.content_hash == packet.meta.hash,
        envelope.payload_kind == packet.meta.kind.spec_transport_kind(),
        envelope.payload_bytes@ == packet.bytes@,
        envelope.created_at == created_at,
        envelope.sequence == sequence,
        envelope.mime == packet.meta.mime,
{
    ClipboardEnvelope {
        origin_device_id,
        target_device_id,
        content_hash: packet.meta.hash.clone(),
        payload_kind: packet.meta.kind.as_transport_kind(),
        payload_bytes: packet.bytes.clone(),
        created_at,
        sequence,
        mime: packet.meta.mime.clone(),
    }
}

/// The fingerprint of a certificate: the hex SHA-256 digest of its DER bytes.
pub fn fingerprint_from_bytes(bytes: &[u8]) -> (fingerprint: String)
    ensures
        fingerprint@ == spec_sha256_hex(bytes@),
        is_digest_hex(fingerprint@),
{
    sha256_hex(bytes)
}

/// A number as four big-endian bytes.
pub open spec fn be_bytes(n: nat) -> Seq<u8> {
    seq![
        (n / 0x1000000 % 0x100) as u8,
        (n / 0x10000 % 0x100) as u8,
        (n / 0x100 % 0x100) as u8,
        (n % 0x100) as u8,
    ]
}

/// The number that four big-endian bytes spell.
pub open spec fn be_value(b0: u8, b1: u8, b2: u8, b3: u8) -> nat {
    (b0 as nat) * 0x1000000 + (b1 as nat) * 0x10000 + (b2 as nat) * 0x100 + (b3 as nat)
}

/// A frame: the payload's length as four big-endian bytes, then the payload.
pub open spec fn spec_frame(payload: Seq<u8>) -> Seq<u8> {
    be_bytes(payload.len()) + payload
}

/// Frames an encoded envelope for the wire; payloads over the frame limit are refused.
pub fn encode_frame(payload: &Vec<u8>) -> (r: Result<Vec<u8>, RelayError>)
    ensures
        r is Err <==> payload@.len() > MAX_FRAME_SIZE,
        r is Err ==> r->Err_0 == RelayError::OutgoingFrameTooLarge,
        r matches Ok(frame) ==> frame@ == spec_frame(payload@),
{
    let n = payload.len();
    if n > MAX_FRAME_SIZE {
        return Err(RelayError::OutgoingFrameTooLarge);
    }
    let mut frame: Vec<u8> = Vec::new();
    frame.push((n / 0x1000000 % 0x100) as u8);
    frame.push((n / 0x10000 % 0x100) as u8);
    frame.push((n / 0x100 % 0x100) as u8);
    frame.push((n % 0x100) as u8);
    let mut i: usize = 0;
    while i < n
        invariant
            n == payload@.len(),
            i <= n,
            frame@ == be_bytes(n as nat) + payload@.subrange(0, i as int),
        decreases n - i,
    {
        frame.push(payload[i]);
        i = i + 1;
    }
    assert(payload@.subrange(0, n as int) =~= payload@);
    Ok(frame)
}

/// The length that a frame header announces; lengths over the frame limit are refused.
pub fn frame_length(header: [u8; 4]) -> (r: Result<usize, RelayError>)
    ensures
        r is Err <==> be_value(header@[0], header@[1], header@[2], header@[3]) > MAX_FRAME_SIZE,
        r is Err ==> r->Err_0 == RelayError::IncomingFrameTooLarge,
        r matches Ok(n) ==> n == be_value(header@[0], header@[1], header@[2], header@[3]),
{
    let value: u64 = (header[0] as u64) * 0x1000000 + (header[1] as u64) * 0x10000 + (
    header[2] as u64) * 0x100 + (header[3] as u64);
    if value > MAX_FRAME_SIZE as u64 {
        return Err(RelayError::IncomingFrameTooLarge);
    }
    Ok(value as usize)
}

/// A frame that one device writes is read back by its peer as the same length and payload.
pub proof fn frame_round_trips(payload: Seq<u8>)
    requires
        payload.len() <= MAX_FRAME_SIZE,
    ensures
        ({
            let frame = spec_frame(payload);
            &&& be_value(frame[0], frame[1], frame[2], frame[3]) == payload.len()
            &&& frame.subrange(4, frame.len() as int) == payload
        }),
{
    let n = payload.len();
    let frame = spec_frame(payload);
    assert(frame.subrange(4, frame.len() as int) =~= payload);
    assert(n < 0x1000000);
    assert(n / 0x1000000 == 0);
    assert((n / 0x10000 % 0x100) * 0x10000 + (n / 0x100 % 0x100) * 0x100 + n % 0x100 == n) by {
        assert(n == (n / 0x10000) * 0x10000 + n % 0x10000) by (nonlinear_arith);
        assert(n % 0x10000 == (n % 0x10000 / 0x100) * 0x100 + n % 0x100) by (nonlinear_arith);
        assert(n / 0x10000 < 0x100) by (nonlinear_arith)
            requires n < 0x1000000;
        assert(n % 0x10000 / 0x100 == n / 0x100 % 0x100) by (nonlinear_arith);
    }
}

#[verifier::external_type_specification]
#[verifier::external_body]
pub struct ExRcgenError(rcgen::Error);

/// Issues a self-signed certificate with `rcgen`: parameters for the subject alternative name
/// (`CertificateParams::new`), the common name in the distinguished name, a fresh ECDSA P-256
/// key pair (`KeyPair::generate`), then `CertificateParams::self_signed`. Returns the
/// certificate's DER bytes and the key pair's PKCS#8 DER bytes (`KeyPair::serialize_der`, the
/// document the key was generated as). The key is random, so of the bytes only that the key
/// document is not empty is stated.
#[verifier::external_body]
fn self_signed_certificate(common_name: &str, subject_alt_name: &str) -> (r: Result<
    (Vec<u8>, Vec<u8>),
    rcgen::Error,
>)
    ensures
        r matches Ok((cert_der, key_der)) ==> key_der@.len() > 0,
{
    let mut params = rcgen::CertificateParams::new(vec![subject_alt_name.to_string()])?;
    let mut distinguished_name = rcgen::DistinguishedName::new();
    distinguished_name.push(rcgen::DnType::CommonName, common_name);
    params.distinguished_name = distinguished_name;
    let key_pair = rcgen::KeyPair::generate()?;
    let cert = params.self_signed(&key_pair)?;
    Ok((cert.der().to_vec(), key_pair.serialize_der()))
}

/// The host name a device's certificate is issued for: `relayclip-<device id>.local`.
pub fn certificate_host_name(device_id: &str) -> (r: String)
    ensures
        r@ == "relayclip-"@ + device_id@ + ".local"@,
{
    let mut host_name = String::from_str("relayclip-");
    host_name.append(device_id);
    host_name.append(".local");
    host_name
}

/// A fresh TLS identity for a device: a certificate whose common name is the device's name
/// and whose alternative name is `certificate_host_name(device_id)`, its private key, and the
/// certificate's fingerprint. The key is random, so issuing may fail on any input.
pub fn generate_self_signed_identity(device_name: &str, device_id: &str) -> (r: Result<
    (Vec<u8>, Vec<u8>, String),
    RelayError,
>)
    ensures
        r matches Ok((cert_der, key_der, fingerprint)) ==> fingerprint@ == spec_sha256_hex(
            cert_der@,
        ) && is_digest_hex(fingerprint@) && key_der@.len() > 0,
        r matches Err(e) ==> e == RelayError::IdentityGenerationFailed,
{
    let host_name = certificate_host_name(device_id);
    match self_signed_certificate(device_name, host_name.as_str()) {
        Ok((cert_der, key_der)) => {
            let fingerprint = fingerprint_from_bytes(cert_der.as_slice());
            Ok((cert_der, key_der, fingerprint))
        },
        Err(_) => Err(RelayError::IdentityGenerationFailed),
    }
}

} // verus!
