//! Taskbar theme: which tray icon fits, and which setting changes concern it.
//!
//! The theme lives in `HKCU\Software\Microsoft\Windows\CurrentVersion\Themes\Personalize`
//! as the DWORD `SystemUsesLightTheme`: 1 is a light taskbar, anything else
//! (or a missing value) dark. A light/dark toggle arrives as
//! `WM_SETTINGCHANGE` whose lParam names `ImmersiveColorSet`.

use vstd::prelude::*;

verus! {

/// Registry key holding the theme value, under `HKEY_CURRENT_USER`.
pub const THEME_SUBKEY: &'static str = "Software\\Microsoft\\Windows\\CurrentVersion\\Themes\\Personalize";

/// Name of the theme value.
pub const THEME_VALUE_NAME: &'static str = "SystemUsesLightTheme";

/// `ERROR_SUCCESS`.
pub const ERROR_SUCCESS: u32 = 0;

/// `REG_DWORD`.
pub const REG_DWORD: u32 = 4;

/// The taskbar is light exactly when the key opened and the query succeeded
/// on a DWORD value equal to 1; every failure reads as dark.
pub open spec fn light_theme(opened: bool, status: u32, kind: u32, data: u32) -> bool {
    opened && status == ERROR_SUCCESS && kind == REG_DWORD && data == 1
}

/// Whether the taskbar is light, from the outcome of opening the theme key
/// (`opened`) and of querying its value (`status`, the value's type `kind`
/// and its `data`).
pub fn uses_light_theme(opened: bool, status: u32, kind: u32, data: u32) -> (r: bool)
    ensures
        r == light_theme(opened, status, kind, data),
{
    opened && status == ERROR_SUCCESS && kind == REG_DWORD && data == 1
}

/// `ImmersiveColorSet` as UTF-16 units, with its terminating NUL.
pub open spec fn immersive_color_set_units() -> Seq<u16> {
    seq![
        0x49u16, 0x6d, 0x6d, 0x65, 0x72, 0x73, 0x69, 0x76, 0x65, 0x43, 0x6f, 0x6c, 0x6f, 0x72,
        0x53, 0x65, 0x74, 0x00,
    ]
}

/// Whether the NUL-terminated wide string a `WM_SETTINGCHANGE` carries
/// names `ImmersiveColorSet`, case-sensitively. `name` holds its units at
/// least up to the first unit that differs from `ImmersiveColorSet\0`, or
/// all 18 of them; `None` stands for a null lParam.
pub fn is_immersive_color_set(name: Option<&[u16]>) -> (r: bool)
    ensures
        r == (name matches Some(units) && units@.len() >= 18 && units@.take(18)
            == immersive_color_set_units()),
{
    let units = match name {
        None => {
            return false;
        },
        Some(u) => u,
    };
    let target: [u16; 18] = [
        0x49, 0x6d, 0x6d, 0x65, 0x72, 0x73, 0x69, 0x76, 0x65, 0x43, 0x6f, 0x6c, 0x6f, 0x72, 0x53,
        0x65, 0x74, 0x00,
    ];
    assert(target@ =~= immersive_color_set_units());
    if units.len() < 18 {
        return false;
    }
    let mut i: usize = 0;
    while i < 18
        invariant
            i <= 18,
            name == Some(units),
            units@.len() >= 18,
            target@ == immersive_color_set_units(),
            forall|j: int| 0 <= j < i ==> units@[j] == target@[j],
        decreases 18 - i,
    {
        if units[i] != target[i] {
            assert(units@.take(18)[i as int] != immersive_color_set_units()[i as int]);
            return false;
        }
        i += 1;
    }
    assert(units@.take(18) =~= immersive_color_set_units());
    true
}

/// Resource id of the icon for a dark taskbar.
pub const IDI_TRAY_DARK: u16 = 101;

/// Resource id of the icon for a light taskbar.
pub const IDI_TRAY_LIGHT: u16 = 102;

/// The embedded icons to try, in order, for a light (`true`) or dark
/// taskbar: the themed one, then the dark one.
pub fn icon_resources(light: bool) -> (ids: (u16, u16))
    ensures
        ids == (if light {
            (IDI_TRAY_LIGHT, IDI_TRAY_DARK)
        } else {
            (IDI_TRAY_DARK, IDI_TRAY_DARK)
        }),
{
    if light {
        (IDI_TRAY_LIGHT, IDI_TRAY_DARK)
    } else {
        (IDI_TRAY_DARK, IDI_TRAY_DARK)
    }
}

/// Side of the fallback icon, in pixels.
pub const FALLBACK_ICON_SIZE: u32 = 16;

/// The RGBA colour of the fallback icon (opaque Surface blue).
pub open spec fn fallback_pixel() -> Seq<u8> {
    seq![0x00u8, 0x78, 0xD4, 0xFF]
}

/// The pixels of the flat fallback icon, used only when no embedded icon
/// loads: 16 by 16 opaque Surface-blue RGBA pixels.
pub fn fallback_icon_rgba() -> (rgba: Vec<u8>)
    ensures
        rgba.len() == 16 * 16 * 4,
        forall|i: int| 0 <= i < 16 * 16 * 4 ==> #[trigger] rgba@[i] == fallback_pixel()[i % 4],
{
    let mut rgba: Vec<u8> = Vec::new();
    let mut p: usize = 0;
    while p < 256
        invariant
            p <= 256,
            rgba.len() == 4 * p,
            forall|i: int| 0 <= i < 4 * p ==> #[trigger] rgba@[i] == fallback_pixel()[i % 4],
        decreases 256 - p,
    {
        rgba.push(0x00);
        rgba.push(0x78);
        rgba.push(0xD4);
        rgba.push(0xFF);
        p += 1;
    }
    rgba
}

} // verus!
