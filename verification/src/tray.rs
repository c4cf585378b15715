//! The tray menu: what it lists for the current state, and what a click on an entry asks
//! for. The caller builds the platform menu from this model.
use crate::i18n;
use crate::models::{AppLanguage, AppStateSnapshot, TrustedDevice, StringView};
use crate::text::chars_of;
use vstd::prelude::*;

verus! {

/// An entry of the tray menu: its id and its label.
pub struct TrayMenuItem {
    pub id: String,
    pub label: String,
}

/// The tray menu: a line naming the paired device, a submenu of the online devices (or a
/// line saying none is there yet), and entries to pause or resume sync, open the settings
/// and quit.
pub struct TrayMenu {
    pub active_label: String,
    pub devices_title: String,
    pub device_items: Vec<TrayMenuItem>,
    pub toggle_sync: TrayMenuItem,
    pub open_settings: TrayMenuItem,
    pub quit: TrayMenuItem,
}

/// The name the tray gives the paired device: the first listed device that is paired, or a
/// line saying there is none.
pub open spec fn spec_active_name(devices: Seq<TrustedDevice>, language: AppLanguage) -> Seq<char>
    decreases devices.len(),
{
    if devices.len() == 0 {
        i18n::spec_no_active_device_label(language)
    } else if devices[0].is_active {
        devices[0].name@
    } else {
        spec_active_name(devices.drop_first(), language)
    }
}

/// The menu entry of an online device: `device:` and its id, labelled with its name, marked
/// with `* ` when it is paired.
pub open spec fn spec_device_item(d: TrustedDevice) -> (StringView, StringView) {
    (
        "device:"@ + d.device_id@,
        if d.is_active {
            "* "@ + d.name@
        } else {
            d.name@
        },
    )
}

/// The entries of the device submenu: one for each online device, in list order.
pub open spec fn spec_device_items(devices: Seq<TrustedDevice>) -> Seq<(StringView, StringView)>
    decreases devices.len(),
{
    if devices.len() == 0 {
        Seq::empty()
    } else {
        let prev = spec_device_items(devices.drop_last());
        if devices.last().is_online {
            prev.push(spec_device_item(devices.last()))
        } else {
            prev
        }
    }
}

/// The views of menu entries.
pub open spec fn items_view(items: Seq<TrayMenuItem>) -> Seq<(StringView, StringView)> {
    items.map_values(|i: TrayMenuItem| (i.id@, i.label@))
}

fn active_name(devices: &Vec<TrustedDevice>, language: AppLanguage) -> (name: String)
    ensures
        name@ == spec_active_name(devices@, language),
{
    let mut i: usize = 0;
    assert(devices@.skip(0) =~= devices@);
    while i < devices.len()
        invariant
            i <= devices@.len(),
            spec_active_name(devices@, language) == spec_active_name(devices@.skip(i as int), language),
        decreases devices.len() - i,
    {
        proof {
            assert(devices@.skip(i as int).drop_first() =~= devices@.skip(i + 1));
        }
        if devices[i].is_active {
            return devices[i].name.clone();
        }
        i = i + 1;
    }
    i18n::no_active_device_label(language).to_owned()
}

fn device_item(d: &TrustedDevice) -> (item: TrayMenuItem)
    ensures
        (item.id@, item.label@) == spec_device_item(*d),
{
    let mut id = "device:".to_owned();
    id.append(d.device_id.as_str());
    let label = if d.is_active {
        let mut l = "* ".to_owned();
        l.append(d.name.as_str());
        l
    } else {
        d.name.clone()
    };
    TrayMenuItem { id, label }
}

/// The tray menu for the current state.
pub fn build_menu(snapshot: &AppStateSnapshot) -> (menu: TrayMenu)
    ensures
        menu.active_label@ == i18n::spec_active_label(
            snapshot.settings.language,
            spec_active_name(snapshot.devices@, snapshot.settings.language),
        ),
        menu.devices_title@ == i18n::spec_tray_nearby_devices(snapshot.settings.language),
        spec_device_items(snapshot.devices@).len() == 0 ==> items_view(menu.device_items@) == seq![
            ("device:none"@, i18n::spec_tray_waiting_for_devices(snapshot.settings.language)),
        ],
        spec_device_items(snapshot.devices@).len() > 0 ==> items_view(menu.device_items@)
            == spec_device_items(snapshot.devices@),
        menu.toggle_sync.id@ == "toggle-sync"@,
        menu.toggle_sync.label@ == if snapshot.settings.sync_enabled {
            i18n::spec_tray_pause_sync(snapshot.settings.language)
        } else {
            i18n::spec_tray_resume_sync(snapshot.settings.language)
        },
        menu.open_settings.id@ == "open-settings"@,
        menu.open_settings.label@ == i18n::spec_tray_open_settings(snapshot.settings.language),
        menu.quit.id@ == "quit-app"@,
        menu.quit.label@ == i18n::spec_tray_quit(snapshot.settings.language),
{
    let language = snapshot.settings.language;
    let name = active_name(&snapshot.devices, language);
    let active_label = i18n::active_label(language, name.as_str());
    let mut items: Vec<TrayMenuItem> = Vec::new();
    let mut i: usize = 0;
    assert(snapshot.devices@.take(0) =~= Seq::<TrustedDevice>::empty());
    assert(items_view(items@) =~= Seq::<(StringView, StringView)>::empty());
    while i < snapshot.devices.len()
        invariant
            i <= snapshot.devices@.len(),
            items_view(items@) == spec_device_items(snapshot.devices@.take(i as int)),
        decreases snapshot.devices.len() - i,
    {
        proof {
            assert(snapshot.devices@.take(i + 1).drop_last() =~= snapshot.devices@.take(i as int));
        }
        if snapshot.devices[i].is_online {
            let item = device_item(&snapshot.devices[i]);
            let ghost before = items@;
            let ghost iv = (item.id@, item.label@);
            items.push(item);
            assert(items_view(items@) =~= items_view(before).push(iv));
        }
        i = i + 1;
    }
    assert(snapshot.devices@.take(snapshot.devices@.len() as int) =~= snapshot.devices@);
    if items.len() == 0 {
        items.push(
            TrayMenuItem {
                id: "device:none".to_owned(),
                label: i18n::tray_waiting_for_devices(language).to_owned(),
            },
        );
        assert(items_view(items@) =~= seq![("device:none"@, i18n::spec_tray_waiting_for_devices(language))]);
    }
    let toggle_label = if snapshot.settings.sync_enabled {
        i18n::tray_pause_sync(language)
    } else {
        i18n::tray_resume_sync(language)
    };
    TrayMenu {
        active_label,
        devices_title: i18n::tray_nearby_devices(language).to_owned(),
        device_items: items,
        toggle_sync: TrayMenuItem { id: "toggle-sync".to_owned(), label: toggle_label.to_owned() },
        open_settings: TrayMenuItem {
            id: "open-settings".to_owned(),
            label: i18n::tray_open_settings(language).to_owned(),
        },
        quit: TrayMenuItem { id: "quit-app".to_owned(), label: i18n::tray_quit(language).to_owned() },
    }
}

/// What a click on a tray entry asks for.
pub enum TrayAction {
    OpenSettings,
    ToggleSync,
    Quit,
    /// A device entry: the id with every leading `device:` taken off.
    SelectDevice(String),
    Nothing,
}

/// Text with every leading copy of a prefix taken off.
pub open spec fn strip_prefixes(s: Seq<char>, prefix: Seq<char>) -> Seq<char>
    decreases s.len(),
{
    if prefix.len() > 0 && s.len() >= prefix.len() && s.take(prefix.len() as int) == prefix {
        strip_prefixes(s.skip(prefix.len() as int), prefix)
    } else {
        s
    }
}

/// Whether a text starts with `device:`.
pub open spec fn is_device_entry(s: Seq<char>) -> bool {
    s.len() >= 7 && s.take(7) == "device:"@
}

fn starts_with_device(chars: &Vec<char>, from: usize) -> (r: bool)
    requires
        from <= chars@.len(),
    ensures
        r == is_device_entry(chars@.skip(from as int)),
{
    proof {
        reveal_strlit("device:");
    }
    if chars.len() - from < 7 {
        return false;
    }
    let r = chars[from] == 'd' && chars[from + 1] == 'e' && chars[from + 2] == 'v' && chars[from + 3]
        == 'i' && chars[from + 4] == 'c' && chars[from + 5] == 'e' && chars[from + 6] == ':';
    assert(r ==> chars@.skip(from as int).take(7) =~= "device:"@);
    assert(chars@.skip(from as int).take(7) == "device:"@ ==> r) by {
        if chars@.skip(from as int).take(7) == "device:"@ {
            assert(chars@.skip(from as int).take(7)[0] == 'd');
            assert(chars@.skip(from as int).take(7)[1] == 'e');
            assert(chars@.skip(from as int).take(7)[2] == 'v');
            assert(chars@.skip(from as int).take(7)[3] == 'i');
            assert(chars@.skip(from as int).take(7)[4] == 'c');
            assert(chars@.skip(from as int).take(7)[5] == 'e');
            assert(chars@.skip(from as int).take(7)[6] == ':');
        }
    }
    r
}

/// What a click on the tray entry with this id asks for.
pub fn tray_action(id: &str) -> (action: TrayAction)
    ensures
        id@ == "open-settings"@ ==> action is OpenSettings,
        id@ == "toggle-sync"@ ==> action is ToggleSync,
        id@ == "quit-app"@ ==> action is Quit,
        id@ != "open-settings"@ && id@ != "toggle-sync"@ && id@ != "quit-app"@ && is_device_entry(
            id@,
        ) ==> (action matches TrayAction::SelectDevice(device_id) && device_id@ == strip_prefixes(
            id@,
            "device:"@,
        )),
        id@ != "open-settings"@ && id@ != "toggle-sync"@ && id@ != "quit-app"@ && !is_device_entry(
            id@,
        ) ==> action is Nothing,
{
    proof {
        reveal_strlit("open-settings");
        reveal_strlit("toggle-sync");
        reveal_strlit("quit-app");
        assert("open-settings"@[0] != "toggle-sync"@[0]);
        assert("open-settings"@[0] != "quit-app"@[0]);
        assert("toggle-sync"@[0] != "quit-app"@[0]);
    }
    let owned = id.to_owned();
    if owned == "open-settings".to_owned() {
        return TrayAction::OpenSettings;
    }
    if owned == "toggle-sync".to_owned() {
        return TrayAction::ToggleSync;
    }
    if owned == "quit-app".to_owned() {
        return TrayAction::Quit;
    }
    let chars = chars_of(id);
    assert(chars@.skip(0) =~= chars@);
    if !starts_with_device(&chars, 0) {
        return TrayAction::Nothing;
    }
    let mut from: usize = 0;
    proof {
        reveal_strlit("device:");
    }
    while starts_with_device(&chars, from)
        invariant
            from <= chars@.len(),
            strip_prefixes(chars@, "device:"@) == strip_prefixes(chars@.skip(from as int), "device:"@),
            "device:"@.len() == 7,
        decreases chars.len() - from,
    {
        proof {
            assert(chars@.skip(from as int).skip(7) =~= chars@.skip(from + 7));
        }
        from = from + 7;
    }
    let mut rest: Vec<char> = Vec::new();
    let mut k: usize = from;
    while k < chars.len()
        invariant
            from <= k <= chars@.len(),
            rest@ == chars@.subrange(from as int, k as int),
        decreases chars.len() - k,
    {
        rest.push(chars[k]);
        k = k + 1;
    }
    assert(rest@ =~= chars@.skip(from as int));
    TrayAction::SelectDevice(crate::text::string_from_chars(&rest))
}

} // verus!
