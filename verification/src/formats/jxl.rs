//! JPEG XL encoding settings. The libjxl binding itself is driven from the
//! application layer; this module holds the configuration and the mapping of
//! effort levels to libjxl's named speeds.
use vstd::prelude::*;

verus! {

/// JPEG XL encoding configuration.
#[derive(Debug, Clone, Copy, PartialEq, Eq, Structural)]
pub struct JxlConfig {
    /// Enable lossless mode
    pub lossless: bool,
    /// Quality level 0-100 (converted to a distance; only used when lossy)
    pub quality: u8,
    /// Encoding effort 1-10 (1 = fastest, 10 = slowest/best)
    pub effort: u8,
}

impl Default for JxlConfig {
    fn default() -> (r: Self)
        ensures
            r == (JxlConfig { lossless: false, quality: 80, effort: 7 }),
    {
        JxlConfig { lossless: false, quality: 80, effort: 7 }
    }
}

impl JxlConfig {
    pub fn new() -> (r: Self)
        ensures
            r == (JxlConfig { lossless: false, quality: 80, effort: 7 }),
    {
        Self::default()
    }

    pub fn with_quality(self, quality: u8) -> (r: Self)
        ensures
            r == (JxlConfig { quality: crate::formats::jpeg::clamp_u8(quality, 0, 100), ..self }),
    {
        JxlConfig { quality: crate::formats::jpeg::clamp_byte(quality, 0, 100), ..self }
    }

    pub fn with_lossless(self, lossless: bool) -> (r: Self)
        ensures
            r == (JxlConfig { lossless, ..self }),
    {
        JxlConfig { lossless, ..self }
    }

    pub fn with_effort(self, effort: u8) -> (r: Self)
        ensures
            r == (JxlConfig { effort: crate::formats::jpeg::clamp_u8(effort, 1, 10), ..self }),
    {
        JxlConfig { effort: crate::formats::jpeg::clamp_byte(effort, 1, 10), ..self }
    }
}

/// libjxl's named encoder speeds, fastest first.
#[derive(Debug, Clone, Copy, PartialEq, Eq, Structural)]
pub enum JxlSpeed {
    Lightning,
    Thunder,
    Falcon,
    Cheetah,
    Hare,
    Wombat,
    Squirrel,
    Kitten,
    Tortoise,
    Glacier,
}

/// The speed an effort level selects: efforts 1-9 name the speeds in order,
/// anything else is the slowest (Glacier).
pub open spec fn speed_of_effort(effort: u8) -> JxlSpeed {
    if effort == 1 {
        JxlSpeed::Lightning
    } else if effort == 2 {
        JxlSpeed::Thunder
    } else if effort == 3 {
        JxlSpeed::Falcon
    } else if effort == 4 {
        JxlSpeed::Cheetah
    } else if effort == 5 {
        JxlSpeed::Hare
    } else if effort == 6 {
        JxlSpeed::Wombat
    } else if effort == 7 {
        JxlSpeed::Squirrel
    } else if effort == 8 {
        JxlSpeed::Kitten
    } else if effort == 9 {
        JxlSpeed::Tortoise
    } else {
        JxlSpeed::Glacier
    }
}

/// Converts an effort level (1-10) to libjxl's encoder speed.
pub fn effort_to_speed(effort: u8) -> (r: JxlSpeed)
    ensures
        r == speed_of_effort(effort),
{
    match effort {
        1 => JxlSpeed::Lightning,
        2 => JxlSpeed::Thunder,
        3 => JxlSpeed::Falcon,
        4 => JxlSpeed::Cheetah,
        5 => JxlSpeed::Hare,
        6 => JxlSpeed::Wombat,
        7 => JxlSpeed::Squirrel,
        8 => JxlSpeed::Kitten,
        9 => JxlSpeed::Tortoise,
        _ => JxlSpeed::Glacier,
    }
}

/// JPEG XL encoder (libjxl); encoding runs in the application layer.
pub struct JxlEncoder;

impl JxlEncoder {
    pub fn extension() -> (r: &'static str)
        ensures
            r@ == "jxl"@,
    {
        "jxl"
    }

    pub fn mime_type() -> (r: &'static str)
        ensures
            r@ == "image/jxl"@,
    {
        "image/jxl"
    }
}

} // verus!
