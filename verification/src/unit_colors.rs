//! Presentation hints for units and players: a fixed palette, the color
//! assigned to each player, and the size/color pair derived from a unit's
//! type name.

use vstd::prelude::*;

verus! {

// A palette of named colors, each as RGBA bytes.
pub const FREYA_ORANGE: [u8; 4] = [0xeb, 0x79, 0x07, 0xff];
pub const FREYA_GOLD: [u8; 4] = [0xea, 0x9e, 0x36, 0xff];
pub const FREYA_RED: [u8; 4] = [0xf8, 0x10, 0x53, 0xff];
pub const FREYA_BLUE: [u8; 4] = [0x30, 0xb5, 0xf7, 0xff];
pub const FREYA_GREEN: [u8; 4] = [0x0a, 0xeb, 0x9f, 0xff];
pub const FREYA_LIGHT_BLUE: [u8; 4] = [0x72, 0xc5, 0xdd, 0xff];
pub const FREYA_GRAY: [u8; 4] = [0xb2, 0xc5, 0xc5, 0xff];
pub const FREYA_PINK: [u8; 4] = [0xea, 0xa4, 0x83, 0xff];
pub const FREYA_LIGHT_GRAY: [u8; 4] = [0xf4, 0xf5, 0xf8, 0xff];
pub const FREYA_DARK_BLUE: [u8; 4] = [0x4d, 0xa7, 0xc2, 0xff];
pub const FREYA_DARK_GREEN: [u8; 4] = [0x37, 0xbd, 0xa9, 0xff];
pub const FREYA_DARK_RED: [u8; 4] = [0xae, 0x20, 0x44, 0xff];
pub const FREYA_VIOLET: [u8; 4] = [0xa4, 0x01, 0xed, 0xff];
pub const FREYA_WHITE: [u8; 4] = [0xfa, 0xf8, 0xfb, 0xff];
pub const FREYA_YELLOW: [u8; 4] = [0xf7, 0xd4, 0x54, 0xff];
pub const FREYA_LIGHT_YELLOW: [u8; 4] = [0xea, 0xd8, 0xad, 0xff];
pub const FREYA_LIGHT_GREEN: [u8; 4] = [0x6e, 0xc2, 0x9c, 0xff];

/// The color that identifies a player in every emitted delta.
pub open spec fn spec_user_color(user_id: i64) -> [u8; 4] {
    if user_id == 0 {
        FREYA_LIGHT_GREEN
    } else if user_id == 1 {
        FREYA_LIGHT_BLUE
    } else if user_id == 2 {
        FREYA_LIGHT_GRAY
    } else if user_id == 3 {
        FREYA_ORANGE
    } else {
        FREYA_WHITE
    }
}

/// Maps a player id to its fixed display color.
pub fn user_color(user_id: i64) -> (color: [u8; 4])
    ensures
        color == spec_user_color(user_id),
{
    match user_id {
        0 => FREYA_LIGHT_GREEN,
        1 => FREYA_LIGHT_BLUE,
        2 => FREYA_LIGHT_GRAY,
        3 => FREYA_ORANGE,
        _ => FREYA_WHITE,
    }
}

/// Unit visual sizes, in hundredths of a map unit. The table below keys
/// them by unit type name; anything unknown gets the default.
pub const UNIT_SIZE_DEFAULT: u64 = 45;

/// The largest size the table above can yield; unit radii derived from
/// it always stay under this bound.
pub const UNIT_SIZE_MAX: u64 = 180;

/// The size/color pair a unit of the given type name is drawn with;
/// unknown names fall back to the default size and the owning player's
/// color. Sizes are in hundredths of a map unit.
pub open spec fn spec_unit_sized_color(name: Seq<char>, user_id: i64) -> (u64, [u8; 4]) {
    if name == "VespeneEDyser"@ || name == "SpacePlatformGeyser"@ {
        (UNIT_SIZE_DEFAULT, FREYA_LIGHT_GREEN)
    } else if name == "LabMineralField"@ {
        (24, FREYA_LIGHT_BLUE)
    } else if name == "LabMineralField750"@ {
        (36, FREYA_LIGHT_BLUE)
    } else if name == "MineralField"@ {
        (48, FREYA_LIGHT_BLUE)
    } else if name == "MineralField450"@ {
        (60, FREYA_LIGHT_BLUE)
    } else if name == "MineralField750"@ {
        (72, FREYA_LIGHT_BLUE)
    } else if name == "XelNagaTower"@ {
        (72, FREYA_WHITE)
    } else if name == "RichMineralField"@ {
        (UNIT_SIZE_DEFAULT, FREYA_GOLD)
    } else if name == "RichMineralField750"@ {
        (UNIT_SIZE_DEFAULT, FREYA_ORANGE)
    } else if name == "DestructibleDebris6x6"@ {
        (UNIT_SIZE_MAX, FREYA_GRAY)
    } else if name == "UnbuildablePlatesDestructible"@ {
        (60, FREYA_LIGHT_GRAY)
    } else if name == "Overlord"@ {
        (60, FREYA_YELLOW)
    } else if name == "SCV"@ || name == "Drone"@ || name == "Probe"@ || name == "Larva"@ {
        (30, FREYA_LIGHT_GRAY)
    } else if name == "Hatchery"@ || name == "CommandCenter"@ || name == "Nexus"@ {
        (120, FREYA_PINK)
    } else if name == "Broodling"@ {
        (6, FREYA_LIGHT_GRAY)
    } else {
        (UNIT_SIZE_DEFAULT, spec_user_color(user_id))
    }
}

/// The expected visual size (hundredths of a map unit) and color of a
/// unit, keyed by its type name; unknown names fall back to the default
/// size and the owning player's color.
pub fn get_unit_sized_color(unit_name: &str, user_id: i64) -> (r: (u64, [u8; 4]))
    ensures
        r == spec_unit_sized_color(unit_name@, user_id),
        r.0 <= UNIT_SIZE_MAX,
{
    if crate::str_eq(unit_name, "VespeneEDyser") || crate::str_eq(unit_name, "SpacePlatformGeyser") {
        (UNIT_SIZE_DEFAULT, FREYA_LIGHT_GREEN)
    } else if crate::str_eq(unit_name, "LabMineralField") {
        (24, FREYA_LIGHT_BLUE)
    } else if crate::str_eq(unit_name, "LabMineralField750") {
        (36, FREYA_LIGHT_BLUE)
    } else if crate::str_eq(unit_name, "MineralField") {
        (48, FREYA_LIGHT_BLUE)
    } else if crate::str_eq(unit_name, "MineralField450") {
        (60, FREYA_LIGHT_BLUE)
    } else if crate::str_eq(unit_name, "MineralField750") {
        (72, FREYA_LIGHT_BLUE)
    } else if crate::str_eq(unit_name, "XelNagaTower") {
        (72, FREYA_WHITE)
    } else if crate::str_eq(unit_name, "RichMineralField") {
        (UNIT_SIZE_DEFAULT, FREYA_GOLD)
    } else if crate::str_eq(unit_name, "RichMineralField750") {
        (UNIT_SIZE_DEFAULT, FREYA_ORANGE)
    } else if crate::str_eq(unit_name, "DestructibleDebris6x6") {
        (UNIT_SIZE_MAX, FREYA_GRAY)
    } else if crate::str_eq(unit_name, "UnbuildablePlatesDestructible") {
        (60, FREYA_LIGHT_GRAY)
    } else if crate::str_eq(unit_name, "Overlord") {
        (60, FREYA_YELLOW)
    } else if crate::str_eq(unit_name, "SCV") || crate::str_eq(unit_name, "Drone") || crate::str_eq(
        unit_name,
        "Probe",
    ) || crate::str_eq(unit_name, "Larva") {
        (30, FREYA_LIGHT_GRAY)
    } else if crate::str_eq(unit_name, "Hatchery") || crate::str_eq(unit_name, "CommandCenter")
        || crate::str_eq(unit_name, "Nexus") {
        (120, FREYA_PINK)
    } else if crate::str_eq(unit_name, "Broodling") {
        (6, FREYA_LIGHT_GRAY)
    } else {
        (UNIT_SIZE_DEFAULT, user_color(user_id))
    }
}

} // verus!
