//! The user-visible messages, in English and Chinese.
use crate::models::{AppLanguage, ClipboardPayloadKind};
use crate::text::{decimal, spec_decimal};
use vstd::prelude::*;

verus! {

/// The word for a kind of clipboard payload.
pub open spec fn spec_payload_kind(language: AppLanguage, kind: ClipboardPayloadKind) -> Seq<char> {
    match (language, kind) {
        (AppLanguage::ZhCn, ClipboardPayloadKind::Text) => "文本"@,
        (AppLanguage::ZhCn, ClipboardPayloadKind::Image) => "图片"@,
        (_, ClipboardPayloadKind::Text) => "text"@,
        (_, ClipboardPayloadKind::Image) => "image"@,
    }
}

pub fn payload_kind(language: AppLanguage, kind: &ClipboardPayloadKind) -> (s: &'static str)
    ensures
        s@ == spec_payload_kind(language, *kind),
{
    match (language, kind) {
        (AppLanguage::ZhCn, ClipboardPayloadKind::Text) => "文本",
        (AppLanguage::ZhCn, ClipboardPayloadKind::Image) => "图片",
        (_, ClipboardPayloadKind::Text) => "text",
        (_, ClipboardPayloadKind::Image) => "image",
    }
}

/// Status line while the service is being advertised.
pub open spec fn spec_advertising(language: AppLanguage) -> Seq<char> {
    match language {
        AppLanguage::ZhCn => "正在局域网中广播 RelayClip 服务"@,
        AppLanguage::En => "Advertising RelayClip on the local network"@,
    }
}

pub fn advertising(language: AppLanguage) -> (s: String)
    ensures
        s@ == spec_advertising(language),
{
    match language {
        AppLanguage::ZhCn => String::from_str("正在局域网中广播 RelayClip 服务"),
        AppLanguage::En => String::from_str("Advertising RelayClip on the local network"),
    }
}

/// Status line while sync is paused.
pub open spec fn spec_paused(language: AppLanguage) -> Seq<char> {
    match language {
        AppLanguage::ZhCn => "剪贴板同步已暂停"@,
        AppLanguage::En => "Clipboard sync is paused"@,
    }
}

pub fn paused(language: AppLanguage) -> (s: String)
    ensures
        s@ == spec_paused(language),
{
    match language {
        AppLanguage::ZhCn => String::from_str("剪贴板同步已暂停"),
        AppLanguage::En => String::from_str("Clipboard sync is paused"),
    }
}

/// Status line when no device is paired.
pub open spec fn spec_no_paired_devices(language: AppLanguage) -> Seq<char> {
    match language {
        AppLanguage::ZhCn => "当前还没有已配对设备"@,
        AppLanguage::En => "No paired devices selected yet"@,
    }
}

pub fn no_paired_devices(language: AppLanguage) -> (s: String)
    ensures
        s@ == spec_no_paired_devices(language),
{
    match language {
        AppLanguage::ZhCn => String::from_str("当前还没有已配对设备"),
        AppLanguage::En => String::from_str("No paired devices selected yet"),
    }
}

/// Status line when LAN discovery is off.
pub open spec fn spec_discovery_disabled(language: AppLanguage) -> Seq<char> {
    match language {
        AppLanguage::ZhCn => "已关闭局域网发现"@,
        AppLanguage::En => "LAN discovery is disabled"@,
    }
}

pub fn discovery_disabled(language: AppLanguage) -> (s: String)
    ensures
        s@ == spec_discovery_disabled(language),
{
    match language {
        AppLanguage::ZhCn => String::from_str("已关闭局域网发现"),
        AppLanguage::En => String::from_str("LAN discovery is disabled"),
    }
}

/// Status line when every paired device is offline.
pub open spec fn spec_paired_devices_offline(language: AppLanguage) -> Seq<char> {
    match language {
        AppLanguage::ZhCn => "已配对设备当前离线"@,
        AppLanguage::En => "Paired devices are currently offline"@,
    }
}

pub fn paired_devices_offline(language: AppLanguage) -> (s: String)
    ensures
        s@ == spec_paired_devices_offline(language),
{
    match language {
        AppLanguage::ZhCn => String::from_str("已配对设备当前离线"),
        AppLanguage::En => String::from_str("Paired devices are currently offline"),
    }
}

/// Status line while no peer is known.
pub open spec fn spec_looking_for_peers(language: AppLanguage) -> Seq<char> {
    match language {
        AppLanguage::ZhCn => "正在局域网中查找 RelayClip 设备"@,
        AppLanguage::En => "Looking for RelayClip peers on the LAN"@,
    }
}

pub fn looking_for_peers(language: AppLanguage) -> (s: String)
    ensures
        s@ == spec_looking_for_peers(language),
{
    match language {
        AppLanguage::ZhCn => String::from_str("正在局域网中查找 RelayClip 设备"),
        AppLanguage::En => String::from_str("Looking for RelayClip peers on the LAN"),
    }
}

/// Status line when the status cannot be read.
pub open spec fn spec_sync_status_unavailable(language: AppLanguage) -> Seq<char> {
    match language {
        AppLanguage::ZhCn => "同步状态不可用"@,
        AppLanguage::En => "Sync status unavailable"@,
    }
}

pub fn sync_status_unavailable(language: AppLanguage) -> (s: String)
    ensures
        s@ == spec_sync_status_unavailable(language),
{
    match language {
        AppLanguage::ZhCn => String::from_str("同步状态不可用"),
        AppLanguage::En => String::from_str("Sync status unavailable"),
    }
}

/// Tray label when no device is paired.
pub open spec fn spec_no_active_device_label(language: AppLanguage) -> Seq<char> {
    match language {
        AppLanguage::ZhCn => "暂无已配对设备"@,
        AppLanguage::En => "No paired devices"@,
    }
}

pub fn no_active_device_label(language: AppLanguage) -> (s: &'static str)
    ensures
        s@ == spec_no_active_device_label(language),
{
    match language {
        AppLanguage::ZhCn => "暂无已配对设备",
        AppLanguage::En => "No paired devices",
    }
}

/// Tray submenu title for paired devices.
pub open spec fn spec_tray_paired_devices(language: AppLanguage) -> Seq<char> {
    match language {
        AppLanguage::ZhCn => "已配对设备"@,
        AppLanguage::En => "Paired Devices"@,
    }
}

pub fn tray_paired_devices(language: AppLanguage) -> (s: &'static str)
    ensures
        s@ == spec_tray_paired_devices(language),
{
    match language {
        AppLanguage::ZhCn => "已配对设备",
        AppLanguage::En => "Paired Devices",
    }
}

/// Tray submenu title for nearby devices.
pub open spec fn spec_tray_nearby_devices(language: AppLanguage) -> Seq<char> {
    match language {
        AppLanguage::ZhCn => "附近设备"@,
        AppLanguage::En => "Nearby Devices"@,
    }
}

pub fn tray_nearby_devices(language: AppLanguage) -> (s: &'static str)
    ensures
        s@ == spec_tray_nearby_devices(language),
{
    match language {
        AppLanguage::ZhCn => "附近设备",
        AppLanguage::En => "Nearby Devices",
    }
}

/// Tray entry while no device is visible.
pub open spec fn spec_tray_waiting_for_devices(language: AppLanguage) -> Seq<char> {
    match language {
        AppLanguage::ZhCn => "等待设备出现"@,
        AppLanguage::En => "Waiting for devices"@,
    }
}

pub fn tray_waiting_for_devices(language: AppLanguage) -> (s: &'static str)
    ensures
        s@ == spec_tray_waiting_for_devices(language),
{
    match language {
        AppLanguage::ZhCn => "等待设备出现",
        AppLanguage::En => "Waiting for devices",
    }
}

/// Tray entry that pauses sync.
pub open spec fn spec_tray_pause_sync(language: AppLanguage) -> Seq<char> {
    match language {
        AppLanguage::ZhCn => "暂停同步"@,
        AppLanguage::En => "Pause Sync"@,
    }
}

pub fn tray_pause_sync(language: AppLanguage) -> (s: &'static str)
    ensures
        s@ == spec_tray_pause_sync(language),
{
    match language {
        AppLanguage::ZhCn => "暂停同步",
        AppLanguage::En => "Pause Sync",
    }
}

/// Tray entry that resumes sync.
pub open spec fn spec_tray_resume_sync(language: AppLanguage) -> Seq<char> {
    match language {
        AppLanguage::ZhCn => "恢复同步"@,
        AppLanguage::En => "Resume Sync"@,
    }
}

pub fn tray_resume_sync(language: AppLanguage) -> (s: &'static str)
    ensures
        s@ == spec_tray_resume_sync(language),
{
    match language {
        AppLanguage::ZhCn => "恢复同步",
        AppLanguage::En => "Resume Sync",
    }
}

/// Tray entry that opens the settings window.
pub open spec fn spec_tray_open_settings(language: AppLanguage) -> Seq<char> {
    match language {
        AppLanguage::ZhCn => "打开设置"@,
        AppLanguage::En => "Open Settings"@,
    }
}

pub fn tray_open_settings(language: AppLanguage) -> (s: &'static str)
    ensures
        s@ == spec_tray_open_settings(language),
{
    match language {
        AppLanguage::ZhCn => "打开设置",
        AppLanguage::En => "Open Settings",
    }
}

/// Tray entry that quits the application.
pub open spec fn spec_tray_quit(language: AppLanguage) -> Seq<char> {
    match language {
        AppLanguage::ZhCn => "退出"@,
        AppLanguage::En => "Quit"@,
    }
}

pub fn tray_quit(language: AppLanguage) -> (s: &'static str)
    ensures
        s@ == spec_tray_quit(language),
{
    match language {
        AppLanguage::ZhCn => "退出",
        AppLanguage::En => "Quit",
    }
}

/// Status line while a clipboard is sent to paired devices.
pub open spec fn spec_sending(language: AppLanguage, kind: ClipboardPayloadKind, device_count: usize) -> Seq<char> {
    match language {
        AppLanguage::ZhCn => "正在向 "@ + spec_decimal(device_count as nat) + " 台设备发送"@ + spec_payload_kind(language, kind),
        AppLanguage::En => "Sending "@ + spec_payload_kind(language, kind) + " clipboard to "@ + spec_decimal(device_count as nat) + " paired device(s)"@,
    }
}

pub fn sending(language: AppLanguage, kind: &ClipboardPayloadKind, device_count: usize) -> (s: String)
    ensures
        s@ == spec_sending(language, *kind, device_count),
{
    match language {
        AppLanguage::ZhCn => {
            let mut s = String::new();
            s.append("正在向 ");
            let n = decimal(device_count as u64);
            s.append(n.as_str());
            s.append(" 台设备发送");
            s.append(payload_kind(language, kind));
            s
        },
        AppLanguage::En => {
            let mut s = String::new();
            s.append("Sending ");
            s.append(payload_kind(language, kind));
            s.append(" clipboard to ");
            let n = decimal(device_count as u64);
            s.append(n.as_str());
            s.append(" paired device(s)");
            s
        },
    }
}

/// Status line after a clipboard was relayed.
pub open spec fn spec_relayed(language: AppLanguage, kind: ClipboardPayloadKind) -> Seq<char> {
    match language {
        AppLanguage::ZhCn => spec_payload_kind(language, kind) + "已接力发送"@,
        AppLanguage::En => spec_payload_kind(language, kind) + " relayed"@,
    }
}

pub fn relayed(language: AppLanguage, kind: &ClipboardPayloadKind) -> (s: String)
    ensures
        s@ == spec_relayed(language, *kind),
{
    match language {
        AppLanguage::ZhCn => {
            let mut s = String::new();
            s.append(payload_kind(language, kind));
            s.append("已接力发送");
            s
        },
        AppLanguage::En => {
            let mut s = String::new();
            s.append(payload_kind(language, kind));
            s.append(" relayed");
            s
        },
    }
}

/// Status line after relaying failed.
pub open spec fn spec_relay_failed(language: AppLanguage, error: Seq<char>) -> Seq<char> {
    match language {
        AppLanguage::ZhCn => "剪贴板接力失败："@ + error,
        AppLanguage::En => "Failed to relay clipboard: "@ + error,
    }
}

pub fn relay_failed(language: AppLanguage, error: &str) -> (s: String)
    ensures
        s@ == spec_relay_failed(language, error@),
{
    match language {
        AppLanguage::ZhCn => {
            let mut s = String::new();
            s.append("剪贴板接力失败：");
            s.append(error);
            s
        },
        AppLanguage::En => {
            let mut s = String::new();
            s.append("Failed to relay clipboard: ");
            s.append(error);
            s
        },
    }
}

/// Status line after a clipboard was received.
pub open spec fn spec_received(language: AppLanguage, kind: ClipboardPayloadKind) -> Seq<char> {
    match language {
        AppLanguage::ZhCn => "已接收"@ + spec_payload_kind(language, kind),
        AppLanguage::En => "Received "@ + spec_payload_kind(language, kind),
    }
}

pub fn received(language: AppLanguage, kind: &ClipboardPayloadKind) -> (s: String)
    ensures
        s@ == spec_received(language, *kind),
{
    match language {
        AppLanguage::ZhCn => {
            let mut s = String::new();
            s.append("已接收");
            s.append(payload_kind(language, kind));
            s
        },
        AppLanguage::En => {
            let mut s = String::new();
            s.append("Received ");
            s.append(payload_kind(language, kind));
            s
        },
    }
}

/// Status line when paired devices are online.
pub open spec fn spec_paired_devices_ready(language: AppLanguage, count: usize) -> Seq<char> {
    match language {
        AppLanguage::ZhCn => "已有 "@ + spec_decimal(count as nat) + " 台已配对设备在线，可直接接力"@,
        AppLanguage::En => spec_decimal(count as nat) + " paired device(s) online and ready"@,
    }
}

pub fn paired_devices_ready(language: AppLanguage, count: usize) -> (s: String)
    ensures
        s@ == spec_paired_devices_ready(language, count),
{
    match language {
        AppLanguage::ZhCn => {
            let mut s = String::new();
            s.append("已有 ");
            let n = decimal(count as u64);
            s.append(n.as_str());
            s.append(" 台已配对设备在线，可直接接力");
            s
        },
        AppLanguage::En => {
            let mut s = String::new();
            let n = decimal(count as u64);
            s.append(n.as_str());
            s.append(" paired device(s) online and ready");
            s
        },
    }
}

/// Status line when unpaired peers are online.
pub open spec fn spec_available_peers(language: AppLanguage, count: usize) -> Seq<char> {
    match language {
        AppLanguage::ZhCn => "已发现 "@ + spec_decimal(count as nat) + " 台可配对设备"@,
        AppLanguage::En => "Found "@ + spec_decimal(count as nat) + " nearby device(s) ready to pair"@,
    }
}

pub fn available_peers(language: AppLanguage, count: usize) -> (s: String)
    ensures
        s@ == spec_available_peers(language, count),
{
    match language {
        AppLanguage::ZhCn => {
            let mut s = String::new();
            s.append("已发现 ");
            let n = decimal(count as u64);
            s.append(n.as_str());
            s.append(" 台可配对设备");
            s
        },
        AppLanguage::En => {
            let mut s = String::new();
            s.append("Found ");
            let n = decimal(count as u64);
            s.append(n.as_str());
            s.append(" nearby device(s) ready to pair");
            s
        },
    }
}

/// Status line when the relay targets could not be looked up.
pub open spec fn spec_route_lookup_failed(language: AppLanguage, error: Seq<char>) -> Seq<char> {
    match language {
        AppLanguage::ZhCn => "查找剪贴板路由失败："@ + error,
        AppLanguage::En => "Clipboard route lookup failed: "@ + error,
    }
}

pub fn route_lookup_failed(language: AppLanguage, error: &str) -> (s: String)
    ensures
        s@ == spec_route_lookup_failed(language, error@),
{
    match language {
        AppLanguage::ZhCn => {
            let mut s = String::new();
            s.append("查找剪贴板路由失败：");
            s.append(error);
            s
        },
        AppLanguage::En => {
            let mut s = String::new();
            s.append("Clipboard route lookup failed: ");
            s.append(error);
            s
        },
    }
}

/// Tray label naming the paired device.
pub open spec fn spec_active_label(language: AppLanguage, active_name: Seq<char>) -> Seq<char> {
    match language {
        AppLanguage::ZhCn => "已配对："@ + active_name,
        AppLanguage::En => "Paired: "@ + active_name,
    }
}

pub fn active_label(language: AppLanguage, active_name: &str) -> (s: String)
    ensures
        s@ == spec_active_label(language, active_name@),
{
    match language {
        AppLanguage::ZhCn => {
            let mut s = String::new();
            s.append("已配对：");
            s.append(active_name);
            s
        },
        AppLanguage::En => {
            let mut s = String::new();
            s.append("Paired: ");
            s.append(active_name);
            s
        },
    }
}

} // verus!
