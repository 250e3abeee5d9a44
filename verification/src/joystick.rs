use vstd::prelude::*;

verus! {

/// Where the joystick is pushed.
#[derive(Clone, Copy, PartialEq, Eq, Structural, Debug)]
pub enum JoystickDir {
    Left,
    Right,
    Up,
    Down,
    Center,
}

/// Readings below this count as pushed towards the low end of an axis.
pub const LOW_THRESHOLD: u16 = 300;

/// Readings above this count as pushed towards the high end of an axis.
pub const HIGH_THRESHOLD: u16 = 700;

/// The left/right axis alone: `None` while it rests in its dead zone.
pub open spec fn spec_horizontal(vry: u16) -> Option<JoystickDir> {
    if vry < LOW_THRESHOLD {
        Some(JoystickDir::Left)
    } else if vry > HIGH_THRESHOLD {
        Some(JoystickDir::Right)
    } else {
        None
    }
}

/// The up/down axis alone.
pub open spec fn spec_vertical(v: u16) -> JoystickDir {
    if v < LOW_THRESHOLD {
        JoystickDir::Up
    } else if v > HIGH_THRESHOLD {
        JoystickDir::Down
    } else {
        JoystickDir::Center
    }
}

/// The direction of the stick: the left/right axis wins when it is pushed;
/// otherwise the up/down axis decides.
pub open spec fn spec_read_dir(vry: u16, vrx: u16) -> JoystickDir {
    match spec_horizontal(vry) {
        Some(d) => d,
        None => spec_vertical(vrx),
    }
}

/// The direction the left/right axis (VRy) shows on its own, or `None` when
/// it rests in its dead zone and the up/down axis has to be read.
pub fn horizontal_dir(vry: u16) -> (r: Option<JoystickDir>)
    ensures
        r == spec_horizontal(vry),
{
    if vry < LOW_THRESHOLD {
        Some(JoystickDir::Left)
    } else if vry > HIGH_THRESHOLD {
        Some(JoystickDir::Right)
    } else {
        None
    }
}

/// The direction one axis shows when read as the up/down axis.
pub fn dir_from_vry(v: u16) -> (r: JoystickDir)
    ensures
        r == spec_vertical(v),
{
    if v < LOW_THRESHOLD {
        JoystickDir::Up
    } else if v > HIGH_THRESHOLD {
        JoystickDir::Down
    } else {
        JoystickDir::Center
    }
}

/// The direction from the VRy (left/right, A1) and VRx (up/down, A0)
/// readings; the stick is mounted sideways.
pub fn read_dir(vry: u16, vrx: u16) -> (r: JoystickDir)
    ensures
        r == spec_read_dir(vry, vrx),
{
    match horizontal_dir(vry) {
        Some(d) => d,
        None => dir_from_vry(vrx),
    }
}

/// Whether the stick's switch (PC2, active low) is pressed, from PINC.
pub fn read_pressed(pinc: u8) -> (r: bool)
    ensures
        r == (pinc & 0x04 == 0),
{
    pinc & 0x04 == 0
}

/// The ADMUX value that selects `channel` with AVCC as reference.
pub fn admux_for(channel: u8) -> (r: u8)
    ensures
        r == 0x40 | (channel & 0x07),
{
    0x40 | (channel & 0x07)
}

/// A stick resting in the dead zone of both axes reads as centred, and the
/// up/down axis is not consulted while the left/right axis is pushed.
pub proof fn lemma_dead_zone(vry: u16, vrx: u16, other_vrx: u16)
    ensures
        (LOW_THRESHOLD <= vry <= HIGH_THRESHOLD && LOW_THRESHOLD <= vrx <= HIGH_THRESHOLD)
            ==> spec_read_dir(vry, vrx) == JoystickDir::Center,
        (vry < LOW_THRESHOLD || vry > HIGH_THRESHOLD) ==> spec_read_dir(vry, vrx)
            == spec_read_dir(vry, other_vrx),
        spec_read_dir(vry, vrx) == JoystickDir::Center <==> (LOW_THRESHOLD <= vry <= HIGH_THRESHOLD
            && LOW_THRESHOLD <= vrx <= HIGH_THRESHOLD),
{
}

/// The stick's directions: VRy below 300 is left and above 700 right,
/// whatever VRx reads; with VRy in 300..=700, VRx below 300 is up, above
/// 700 down, and in between the stick is centred.
pub proof fn lemma_directions(vry: u16, vrx: u16)
    ensures
        vry < 300 ==> spec_read_dir(vry, vrx) == JoystickDir::Left,
        vry > 700 ==> spec_read_dir(vry, vrx) == JoystickDir::Right,
        300 <= vry <= 700 && vrx < 300 ==> spec_read_dir(vry, vrx) == JoystickDir::Up,
        300 <= vry <= 700 && vrx > 700 ==> spec_read_dir(vry, vrx) == JoystickDir::Down,
        300 <= vry <= 700 && 300 <= vrx <= 700 ==> spec_read_dir(vry, vrx) == JoystickDir::Center,
        spec_horizontal(vry) is None <==> 300 <= vry <= 700,
{
}

} // verus!
