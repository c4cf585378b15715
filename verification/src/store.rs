//! The stored state: the identity and settings this device keeps between runs, created on
//! first start and mended when loaded.
use crate::error::RelayError;
use crate::ids::{fresh_uuid, is_uuid_text, lemma_uuid_text_not_blank};
use crate::models::{
    capabilities, default_app_language, default_background_sync_enabled, platform_label,
    spec_capabilities, spec_platform_label, strings_view, AppSettings, LocalDevice,
    PersistentState, PROTOCOL_VERSION,
};
use crate::text::{all_whitespace, is_blank};
use crate::transport::{fingerprint_from_bytes, generate_self_signed_identity};
use crate::digest::{lemma_digest_hex_not_blank, spec_sha256_hex};
use base64::Engine;
use vstd::prelude::*;

verus! {

/// The bytes that standard base64 text (with padding) spells, if it is valid.
pub uninterp spec fn spec_base64_decode(text: Seq<char>) -> Option<Seq<u8>>;

/// The standard base64 text (with padding) of bytes.
pub uninterp spec fn spec_base64_encode(bytes: Seq<u8>) -> Seq<char>;

/// Decodes standard base64 with `base64::engine::general_purpose::STANDARD.decode`; none
/// when the text is not valid base64.
#[verifier::external_body]
fn base64_decode(text: &str) -> (r: Option<Vec<u8>>)
    ensures
        match r {
            Some(bytes) => spec_base64_decode(text@) == Some(bytes@),
            None => spec_base64_decode(text@) is None,
        },
{
    base64::engine::general_purpose::STANDARD.decode(text).ok()
}

/// Encodes bytes as standard base64 with `base64::engine::general_purpose::STANDARD.encode`.
#[verifier::external_body]
fn base64_encode(bytes: &[u8]) -> (r: String)
    ensures
        r@ == spec_base64_encode(bytes@),
{
    base64::engine::general_purpose::STANDARD.encode(bytes)
}

/// The bytes of stored identity material; refused when it is not valid base64.
pub fn decode_material(data: &str) -> (r: Result<Vec<u8>, RelayError>)
    ensures
        match spec_base64_decode(data@) {
            Some(bytes) => r matches Ok(v) && v@ == bytes,
            None => r == Err::<Vec<u8>, RelayError>(RelayError::InvalidIdentityMaterial),
        },
{
    match base64_decode(data) {
        Some(bytes) => Ok(bytes),
        None => Err(RelayError::InvalidIdentityMaterial),
    }
}

/// The machine's host name, when it has one that is valid Unicode. Calls `hostname::get`
/// and `OsString::into_string`; the name depends on the machine, so nothing is stated of it.
#[verifier::external_body]
fn machine_host_name() -> (r: Option<String>) {
    hostname::get().ok().and_then(|value| value.into_string().ok())
}

/// The name a device takes from its host name: the host name unless it is missing or blank.
pub open spec fn spec_device_name_from_host(host: Option<Seq<char>>) -> Seq<char> {
    match host {
        Some(h) => if all_whitespace(h) {
            "RelayClip Device"@
        } else {
            h
        },
        None => "RelayClip Device"@,
    }
}

pub fn device_name_from_host(host: Option<String>) -> (name: String)
    ensures
        name@ == spec_device_name_from_host(match host {
            Some(h) => Some(h@),
            None => None,
        }),
{
    match host {
        Some(h) => {
            if is_blank(h.as_str()) {
                "RelayClip Device".to_owned()
            } else {
                h
            }
        },
        None => "RelayClip Device".to_owned(),
    }
}

/// The name a new device takes: the machine's host name unless it is missing or blank.
pub fn default_device_name() -> (name: String)
    ensures
        !all_whitespace(name@),
{
    let name = device_name_from_host(machine_host_name());
    proof {
        reveal_strlit("RelayClip Device");
        assert(!crate::text::spec_is_whitespace("RelayClip Device"@[0]));
    }
    name
}

/// The settings of a new device.
pub open spec fn default_settings_hold(settings: AppSettings, device_name: Seq<char>) -> bool {
    &&& settings.device_name@ == device_name
    &&& !settings.launch_on_login
    &&& settings.background_sync_enabled
    &&& settings.discovery_enabled
    &&& settings.sync_enabled
    &&& settings.active_device_ids@.len() == 0
    &&& settings.device_remarks@.len() == 0
    &&& settings.blocked_auto_pair_device_ids@.len() == 0
}

/// The state of a device that starts for the first time: a fresh id, the host's name, a new
/// TLS identity (issued by `generate_self_signed_identity` for that name and id) whose
/// fingerprint is the certificate's SHA-256, sync and discovery on. Refused when the identity
/// cannot be made; the key is random, so that may happen on any call.
pub fn default_state(os: &str) -> (r: Result<PersistentState, RelayError>)
    ensures
        r is Err ==> r == Err::<PersistentState, RelayError>(RelayError::IdentityGenerationFailed),
        r matches Ok(state) ==> {
            &&& !all_whitespace(state.local_device.device_name@)
            &&& state.local_device.platform@ == spec_platform_label(os@)
            &&& state.local_device.protocol_version@ == PROTOCOL_VERSION@
            &&& strings_view(state.local_device.capabilities@) == spec_capabilities()
            &&& state.trusted_devices@.len() == 0
            &&& default_settings_hold(state.settings, state.local_device.device_name@)
            &&& is_uuid_text(state.local_device.device_id@)
            &&& exists|cert: Seq<u8>|
                #![trigger spec_base64_encode(cert)]
                state.certificate_der_b64@ == spec_base64_encode(cert)
                    && state.local_device.fingerprint@ == spec_sha256_hex(cert)
            &&& exists|key: Seq<u8>|
                #![trigger spec_base64_encode(key)]
                state.private_key_der_b64@ == spec_base64_encode(key) && key.len() > 0
        },
{
    let device_name = default_device_name();
    let device_id = fresh_uuid();
    let (cert_der, key_der, fingerprint) = match generate_self_signed_identity(
        device_name.as_str(),
        device_id.as_str(),
    ) {
        Ok(identity) => identity,
        Err(e) => return Err(e),
    };
    let certificate_der_b64 = base64_encode(cert_der.as_slice());
    let private_key_der_b64 = base64_encode(key_der.as_slice());
    let settings = AppSettings {
        device_name: device_name.clone(),
        launch_on_login: false,
        background_sync_enabled: default_background_sync_enabled(),
        discovery_enabled: true,
        sync_enabled: true,
        active_device_ids: Vec::new(),
        device_remarks: Vec::new(),
        blocked_auto_pair_device_ids: Vec::new(),
        language: default_app_language(),
    };
    Ok(
        PersistentState {
            local_device: LocalDevice {
                device_id,
                device_name,
                platform: platform_label(os),
                protocol_version: PROTOCOL_VERSION.to_owned(),
                capabilities: capabilities(),
                fingerprint,
            },
            trusted_devices: Vec::new(),
            settings,
            certificate_der_b64,
            private_key_der_b64,
        },
    )
}

/// Mends a loaded state: a blank device id gets a fresh one, a blank device name the host's
/// name, blank settings the device's name; the device takes the settings' name, this build's
/// platform, protocol and capabilities; missing identity material is made anew; a blank
/// fingerprint is computed from the stored certificate. Refused when a new identity cannot be
/// made or the stored certificate is not valid base64.
pub fn normalize_state(state: &mut PersistentState, os: &str) -> (r: Result<(), RelayError>)
    ensures
        r is Ok ==> {
            &&& !all_whitespace(old(state).local_device.device_id@)
                ==> final(state).local_device.device_id@ == old(state).local_device.device_id@
            &&& final(state).local_device.device_name@ == final(state).settings.device_name@
            &&& !all_whitespace(final(state).settings.device_name@)
            &&& !all_whitespace(old(state).settings.device_name@) ==> final(state).settings.device_name@
                == old(state).settings.device_name@
            &&& all_whitespace(old(state).settings.device_name@) && !all_whitespace(
                old(state).local_device.device_name@,
            ) ==> final(state).settings.device_name@ == old(state).local_device.device_name@
            &&& final(state).local_device.platform@ == spec_platform_label(os@)
            &&& final(state).local_device.protocol_version@ == PROTOCOL_VERSION@
            &&& strings_view(final(state).local_device.capabilities@) == spec_capabilities()
            &&& final(state).settings.sync_enabled == old(state).settings.sync_enabled
            &&& final(state).settings.language == old(state).settings.language
            &&& final(state).settings.active_device_ids@ == old(state).settings.active_device_ids@
            &&& final(state).settings.device_remarks@ == old(state).settings.device_remarks@
            &&& final(state).trusted_devices@ == old(state).trusted_devices@
            &&& !all_whitespace(old(state).certificate_der_b64@) && !all_whitespace(
                old(state).private_key_der_b64@,
            ) ==> final(state).certificate_der_b64@ == old(state).certificate_der_b64@
                && final(state).private_key_der_b64@ == old(state).private_key_der_b64@
            &&& !all_whitespace(old(state).certificate_der_b64@) && !all_whitespace(
                old(state).private_key_der_b64@,
            ) && !all_whitespace(old(state).local_device.fingerprint@)
                ==> final(state).local_device.fingerprint@ == old(state).local_device.fingerprint@
            &&& !all_whitespace(old(state).certificate_der_b64@) && !all_whitespace(
                old(state).private_key_der_b64@,
            ) && all_whitespace(old(state).local_device.fingerprint@) ==> (
            spec_base64_decode(old(state).certificate_der_b64@) matches Some(cert)
                && final(state).local_device.fingerprint@ == spec_sha256_hex(cert))
        },
        !all_whitespace(old(state).certificate_der_b64@) && !all_whitespace(
            old(state).private_key_der_b64@,
        ) && all_whitespace(old(state).local_device.fingerprint@) && spec_base64_decode(
            old(state).certificate_der_b64@,
        ) is None ==> r == Err::<(), RelayError>(RelayError::InvalidIdentityMaterial),
        r is Err ==> r == Err::<(), RelayError>(RelayError::InvalidIdentityMaterial) || r == Err::<
            (),
            RelayError,
        >(RelayError::IdentityGenerationFailed),
        !all_whitespace(old(state).certificate_der_b64@) && !all_whitespace(
            old(state).private_key_der_b64@,
        ) && (!all_whitespace(old(state).local_device.fingerprint@) || spec_base64_decode(
            old(state).certificate_der_b64@,
        ) is Some) ==> r is Ok,
        r == Err::<(), RelayError>(RelayError::InvalidIdentityMaterial) ==> {
            &&& !all_whitespace(old(state).certificate_der_b64@)
            &&& !all_whitespace(old(state).private_key_der_b64@)
            &&& all_whitespace(old(state).local_device.fingerprint@)
            &&& spec_base64_decode(old(state).certificate_der_b64@) is None
        },
        r == Err::<(), RelayError>(RelayError::IdentityGenerationFailed) ==> all_whitespace(
            old(state).certificate_der_b64@,
        ) || all_whitespace(old(state).private_key_der_b64@),
        r is Ok && (all_whitespace(old(state).certificate_der_b64@) || all_whitespace(
            old(state).private_key_der_b64@,
        )) ==> exists|cert: Seq<u8>|
            #![trigger spec_base64_encode(cert)]
            final(state).certificate_der_b64@ == spec_base64_encode(cert)
                && final(state).local_device.fingerprint@ == spec_sha256_hex(cert),
        r is Ok && (all_whitespace(old(state).certificate_der_b64@) || all_whitespace(
            old(state).private_key_der_b64@,
        )) ==> exists|key: Seq<u8>|
            #![trigger spec_base64_encode(key)]
            final(state).private_key_der_b64@ == spec_base64_encode(key) && key.len() > 0,
        r is Ok ==> !all_whitespace(final(state).local_device.device_id@),
        r is Ok && all_whitespace(old(state).local_device.device_id@) ==> is_uuid_text(
            final(state).local_device.device_id@,
        ),
{
    if is_blank(state.local_device.device_id.as_str()) {
        state.local_device.device_id = fresh_uuid();
        proof {
            lemma_uuid_text_not_blank(state.local_device.device_id@);
        }
    }
    if is_blank(state.local_device.device_name.as_str()) {
        state.local_device.device_name = default_device_name();
    }
    if is_blank(state.settings.device_name.as_str()) {
        state.settings.device_name = state.local_device.device_name.clone();
    }
    state.local_device.device_name = state.settings.device_name.clone();
    state.local_device.platform = platform_label(os);
    state.local_device.protocol_version = PROTOCOL_VERSION.to_owned();
    state.local_device.capabilities = capabilities();
    if is_blank(state.certificate_der_b64.as_str()) || is_blank(state.private_key_der_b64.as_str()) {
        let (cert_der, key_der, fingerprint) = match generate_self_signed_identity(
            state.local_device.device_name.as_str(),
            state.local_device.device_id.as_str(),
        ) {
            Ok(identity) => identity,
            Err(e) => return Err(e),
        };
        state.certificate_der_b64 = base64_encode(cert_der.as_slice());
        state.private_key_der_b64 = base64_encode(key_der.as_slice());
        state.local_device.fingerprint = fingerprint;
        proof {
            lemma_digest_hex_not_blank(state.local_device.fingerprint@);
            assert(state.certificate_der_b64@ == spec_base64_encode(cert_der@));
            assert(state.private_key_der_b64@ == spec_base64_encode(key_der@));
        }
    }
    if is_blank(state.local_device.fingerprint.as_str()) {
        let cert_der = match decode_material(state.certificate_der_b64.as_str()) {
            Ok(bytes) => bytes,
            Err(e) => return Err(e),
        };
        state.local_device.fingerprint = fingerprint_from_bytes(cert_der.as_slice());
    }
    Ok(())
}

} // verus!
