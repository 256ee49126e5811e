//! RGB lighting state: the info record and the names of the firmware's
//! lighting effects.
use vstd::prelude::*;

verus! {

/// The lighting state a device reports.
#[derive(Debug)]
pub struct RGBInfo {
    pub version: u16,
    pub effect: u16,
    pub effect_speed: u8,
    pub color_h: u8,
    pub color_s: u8,
    pub color_v: u8,
    pub max_brightness: u8,
    pub effects: Vec<u16>,
    pub leds_count: u16,
}

impl RGBInfo {
    /// The display name of a lighting effect id; ids above the last known
    /// effect have none.
    pub fn effect_name(id: u16) -> (r: Result<&'static str, crate::protocol::ProtocolError>)
        ensures
            r is Ok <==> id <= 44,
    {
        match id {
            0 => Ok("Disable"),
            1 => Ok("Direct Control"),
            2 => Ok("Solid Color"),
            3 => Ok("Alphas Mods"),
            4 => Ok("Gradient Up Down"),
            5 => Ok("Gradient Left Right"),
            6 => Ok("Breathing"),
            7 => Ok("Band Sat"),
            8 => Ok("Band Val"),
            9 => Ok("Band Pinwheel Sat"),
            10 => Ok("Band Pinwheel Val"),
            11 => Ok("Band Spiral Sat"),
            12 => Ok("Band Spiral Val"),
            13 => Ok("Cycle All"),
            14 => Ok("Cycle Left Right"),
            15 => Ok("Cycle Up Down"),
            16 => Ok("Rainbow Moving Chevron"),
            17 => Ok("Cycle Out In"),
            18 => Ok("Cycle Out In Dual"),
            19 => Ok("Cycle Pinwheel"),
            20 => Ok("Cycle Spiral"),
            21 => Ok("Dual Beacon"),
            22 => Ok("Rainbow Beacon"),
            23 => Ok("Rainbow Pinwheels"),
            24 => Ok("Raindrops"),
            25 => Ok("Jellybean Raindrops"),
            26 => Ok("Hue Breathing"),
            27 => Ok("Hue Pendulum"),
            28 => Ok("Hue Wave"),
            29 => Ok("Typing Heatmap"),
            30 => Ok("Digital Rain"),
            31 => Ok("Solid Reactive Simple"),
            32 => Ok("Solid Reactive"),
            33 => Ok("Solid Reactive Wide"),
            34 => Ok("Solid Reactive Multiwide"),
            35 => Ok("Solid Reactive Cross"),
            36 => Ok("Solid Reactive Multicross"),
            37 => Ok("Solid Reactive Nexus"),
            38 => Ok("Solid Reactive Multinexus"),
            39 => Ok("Splash"),
            40 => Ok("Multisplash"),
            41 => Ok("Solid Splash"),
            42 => Ok("Solid Multisplash"),
            43 => Ok("Pixel Rain"),
            44 => Ok("Pixel Fractal"),
            _ => Err(crate::protocol::ProtocolError::ViaUnhandledError),
        }
    }

    /// Replaces the stored color with the given hue, saturation and value.
    pub fn set_color_hsv(&mut self, h: u8, s: u8, v: u8)
        ensures
            final(self).color_h == h,
            final(self).color_s == s,
            final(self).color_v == v,
            final(self).version == old(self).version,
            final(self).effect == old(self).effect,
            final(self).effect_speed == old(self).effect_speed,
            final(self).max_brightness == old(self).max_brightness,
            final(self).leds_count == old(self).leds_count,
    {
        self.color_h = h;
        self.color_s = s;
        self.color_v = v;
    }
}

} // verus!
