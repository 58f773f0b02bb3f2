use vstd::prelude::*;

verus! {

/// The part of the native encoder settings word that names the
/// connected AV pack.
pub const VIDEO_ADAPTER_MASK: u32 = 0xFF;

/// Display refresh rates that a video mode can ask for.
#[derive(Debug, Clone, Copy, Eq, PartialEq, Structural)]
pub enum RefreshRate {
    DefaultRate,
    Hz50,
    Hz60,
}

impl RefreshRate {
    /// The native encoding of this refresh rate, in hertz; the default
    /// leaves the choice to the video layer.
    pub fn native_code(&self) -> (c: i32)
        ensures
            c == match *self {
                RefreshRate::DefaultRate => 0i32,
                RefreshRate::Hz50 => 50i32,
                RefreshRate::Hz60 => 60i32,
            },
    {
        match self {
            RefreshRate::DefaultRate => 0,
            RefreshRate::Hz50 => 50,
            RefreshRate::Hz60 => 60,
        }
    }
}

impl Default for RefreshRate {
    /// Leaving the rate to the video layer is the default.
    fn default() -> (r: Self)
        ensures
            r == RefreshRate::DefaultRate,
    {
        RefreshRate::DefaultRate
    }
}

/// The kind of AV pack connected to the console.
#[derive(Debug, Clone, Copy, Eq, PartialEq, Structural)]
pub enum AvPack {
    NoPack,
    Standard,
    Rfu,
    Scart,
    Hdtv,
    Vga,
    SVideo,
}

/// Meaning of each native AV pack code; an unknown code means no
/// recognized pack.
pub open spec fn av_pack_of_code(code: int) -> AvPack {
    if code == 1 {
        AvPack::Standard
    } else if code == 2 {
        AvPack::Rfu
    } else if code == 3 {
        AvPack::Scart
    } else if code == 4 {
        AvPack::Hdtv
    } else if code == 5 {
        AvPack::Vga
    } else if code == 6 {
        AvPack::SVideo
    } else {
        AvPack::NoPack
    }
}

impl AvPack {
    /// Maps a native AV pack code to its pack.
    pub fn from_code(code: u32) -> (p: Self)
        ensures
            p == av_pack_of_code(code as int),
    {
        if code == 1 {
            AvPack::Standard
        } else if code == 2 {
            AvPack::Rfu
        } else if code == 3 {
            AvPack::Scart
        } else if code == 4 {
            AvPack::Hdtv
        } else if code == 5 {
            AvPack::Vga
        } else if code == 6 {
            AvPack::SVideo
        } else {
            AvPack::NoPack
        }
    }
}

/// The AV pack named by the adapter part of the native encoder
/// settings word.
pub fn get_av_pack(encoder_settings: u32) -> (p: AvPack)
    ensures
        p == av_pack_of_code((encoder_settings % 256) as int),
{
    let video_adapter = encoder_settings & VIDEO_ADAPTER_MASK;
    proof {
        assert(encoder_settings & 0xFFu32 == encoder_settings % 256) by (bit_vector);
    }
    AvPack::from_code(video_adapter)
}

} // verus!
