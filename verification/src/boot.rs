//! Starting up: which part of the firmware runs.
use crate::text::{hex_string, hex_text, law_hex_tells_the_bytes};
use crate::ui::menu::{
    law_settings_do_what_they_say, main_choice, main_labels, setting_choice, setting_labels,
    MainMenuSelection, SettingMenuSelection,
};
use vstd::prelude::*;

verus! {

/// What runs after the menus.
#[derive(Debug, Clone, Copy, PartialEq, Eq, Structural)]
pub enum BootMode {
    /// The sessions.
    Remote,
    /// The update of the firmware.
    Ota,
    /// The clock is set, then the menu is shown again.
    SyncTime,
    /// The set-up from a phone.
    Provision,
    /// The clock is shown, then the menu again.
    Clock,
    /// The settings are shown.
    Settings,
    /// The menu is shown again.
    Menu,
}

/// How long the boot button is let settle after it moved, in milliseconds.
pub const BOOT_SETTLE_MS: u64 = 20;

/// What is done to wait for a press of the boot button.
#[derive(Debug, Clone, Copy, PartialEq, Eq, Structural)]
pub enum BootWait {
    /// Wait until the button moves, either way.
    Edge,
    /// Let it settle.
    Settle,
    /// It is pressed.
    Pressed,
}

/// What is done next to wait for a press of the boot button, after `last`: it is pressed once
/// it has moved, has settled, and is down then.
pub open spec fn boot_wait(last: Option<BootWait>, is_low: bool) -> BootWait {
    match last {
        None => BootWait::Edge,
        Some(BootWait::Edge) => BootWait::Settle,
        Some(BootWait::Settle) => if is_low {
            BootWait::Pressed
        } else {
            BootWait::Edge
        },
        Some(BootWait::Pressed) => BootWait::Pressed,
    }
}

/// What is done next to wait for a press of the boot button, after `last`.
pub fn wait_boot_press(last: Option<BootWait>, is_low: bool) -> (r: BootWait)
    ensures
        r == boot_wait(last, is_low),
{
    match last {
        None => BootWait::Edge,
        Some(BootWait::Edge) => BootWait::Settle,
        Some(BootWait::Settle) => if is_low {
            BootWait::Pressed
        } else {
            BootWait::Edge
        },
        Some(BootWait::Pressed) => BootWait::Pressed,
    }
}

/// What a choice in the main menu leads to.
pub open spec fn main_mode(selection: MainMenuSelection) -> BootMode {
    match selection {
        MainMenuSelection::Clock => BootMode::Clock,
        MainMenuSelection::Remote => BootMode::Remote,
        MainMenuSelection::Setting => BootMode::Settings,
    }
}

/// What a choice in the main menu leads to.
pub fn main_menu_mode(selection: MainMenuSelection) -> (r: BootMode)
    ensures
        r == main_mode(selection),
{
    match selection {
        MainMenuSelection::Clock => BootMode::Clock,
        MainMenuSelection::Remote => BootMode::Remote,
        MainMenuSelection::Setting => BootMode::Settings,
    }
}

/// What a choice in the settings leads to.
pub open spec fn setting_mode(selection: SettingMenuSelection) -> BootMode {
    match selection {
        SettingMenuSelection::Ota => BootMode::Ota,
        SettingMenuSelection::SyncTime => BootMode::SyncTime,
        SettingMenuSelection::Ble => BootMode::Provision,
        SettingMenuSelection::Back => BootMode::Menu,
    }
}

/// What a choice in the settings leads to.
pub fn setting_menu_mode(selection: SettingMenuSelection) -> (r: BootMode)
    ensures
        r == setting_mode(selection),
{
    match selection {
        SettingMenuSelection::Ota => BootMode::Ota,
        SettingMenuSelection::SyncTime => BootMode::SyncTime,
        SettingMenuSelection::Ble => BootMode::Provision,
        SettingMenuSelection::Back => BootMode::Menu,
    }
}

/// The name under which the device connects to the broker: its hardware address in hexadecimal.
pub fn wifi_sta_mac_client_id(mac: &[u8]) -> (r: String)
    ensures
        r@ == "watch-"@ + hex_text(mac@),
{
    let mut out: String = "watch-".to_string();
    out.append(hex_string(mac).as_str());
    out
}

/// The words of a menu's entries name what runs: the sessions, the settings, the update, the
/// clock's setting, the set-up from a phone; only back leads to the menu again.
pub proof fn law_menus_run_what_they_name(index: int, main: int)
    requires
        0 <= index < 4,
        0 <= main < 2,
    ensures
        main_mode(main_choice(main)) == BootMode::Remote <==> main_labels()[main] == "Remote"@,
        main_mode(main_choice(main)) == BootMode::Settings <==> main_labels()[main] == "Setting"@,
        main_mode(MainMenuSelection::Clock) == BootMode::Clock,
        setting_mode(setting_choice(index)) == BootMode::Ota <==> setting_labels()[index]
            == "OTA Update"@,
        setting_mode(setting_choice(index)) == BootMode::SyncTime <==> setting_labels()[index]
            == "Sync Time"@,
        setting_mode(setting_choice(index)) == BootMode::Provision <==> setting_labels()[index]
            == "Enable BLE"@,
        setting_mode(setting_choice(index)) == BootMode::Menu <==> setting_labels()[index]
            == "Back"@,
{
    law_settings_do_what_they_say(index);
    reveal_strlit("Remote");
    reveal_strlit("Setting");
    assert("Remote"@.len() != "Setting"@.len());
}

/// The boot button counts as pressed only where it is down once it has moved and settled: what
/// it does in between does not matter, and one that came up again is waited for anew.
pub proof fn law_button_is_read_after_it_settled(a: bool, b: bool, c: bool)
    ensures
        ({
            let first = boot_wait(None, a);
            let second = boot_wait(Some(first), b);
            let third = boot_wait(Some(second), c);
            &&& first == BootWait::Edge && second == BootWait::Settle
            &&& third == BootWait::Pressed <==> c
            &&& !c ==> third == first
        }),
{
}

/// The name of the device tells its hardware address: two devices with different addresses of
/// the same length have different names.
pub proof fn law_name_tells_the_address(a: Seq<u8>, b: Seq<u8>)
    requires
        "watch-"@ + hex_text(a) == "watch-"@ + hex_text(b),
    ensures
        a == b,
{
    let x = "watch-"@ + hex_text(a);
    let y = "watch-"@ + hex_text(b);
    let n = "watch-"@.len() as int;
    assert(x.skip(n) =~= hex_text(a));
    assert(y.skip(n) =~= hex_text(b));
    law_hex_tells_the_bytes(a, b);
}

} // verus!
