use vstd::prelude::*;

verus! {

/// Pixel formats a surface may advertise.
#[derive(Debug, Clone, Copy, PartialEq, Eq, Structural)]
pub enum TextureFormat {
    Bgra8Unorm,
    Bgra8UnormSrgb,
    Rgba8Unorm,
    Rgba8UnormSrgb,
    Rgba16Unorm,
    Rgb10a2Unorm,
}

pub open spec fn spec_is_srgb(f: TextureFormat) -> bool {
    f == TextureFormat::Bgra8UnormSrgb || f == TextureFormat::Rgba8UnormSrgb
}

impl TextureFormat {
    pub fn is_srgb(&self) -> (r: bool)
        ensures
            r == spec_is_srgb(*self),
    {
        match self {
            TextureFormat::Bgra8UnormSrgb => true,
            TextureFormat::Rgba8UnormSrgb => true,
            _ => false,
        }
    }
}

/// How the compositor blends the surface's alpha channel.
#[derive(Debug, Clone, Copy, PartialEq, Eq, Structural)]
pub enum AlphaMode {
    Auto,
    Opaque,
    PreMultiplied,
    PostMultiplied,
    Inherit,
}

/// How finished frames are handed to the display.
#[derive(Debug, Clone, Copy, PartialEq, Eq, Structural)]
pub enum PresentMode {
    Fifo,
    Mailbox,
    Immediate,
}

/// The frame-latency hint given to every configuration.
pub const FRAME_LATENCY_HINT: u32 = 2;

/// The configuration a surface is (re)configured with. The surface is
/// always used as a render target.
#[derive(Debug, Clone, Copy, PartialEq, Eq, Structural)]
pub struct SurfaceConfig {
    pub format: TextureFormat,
    pub width: u32,
    pub height: u32,
    pub present_mode: PresentMode,
    pub alpha_mode: AlphaMode,
    pub max_frame_latency: u32,
}

impl SurfaceConfig {
    pub open spec fn wf(&self) -> bool {
        &&& self.width > 0
        &&& self.height > 0
        &&& self.present_mode == PresentMode::Fifo
        &&& self.max_frame_latency == FRAME_LATENCY_HINT
    }
}

/// What the platform reports that a surface supports, in its own order.
#[derive(Debug)]
pub struct SurfaceCapabilities {
    pub formats: Vec<TextureFormat>,
    pub alpha_modes: Vec<AlphaMode>,
}

/// The format the selection rule picks: the first sRGB format if any is
/// listed, else the first listed format.
pub open spec fn first_srgb_or_first(formats: Seq<TextureFormat>) -> TextureFormat
    recommends
        formats.len() > 0,
{
    if exists|i: int| 0 <= i < formats.len() && spec_is_srgb(#[trigger] formats[i]) {
        let i = choose|i: int|
            0 <= i < formats.len() && spec_is_srgb(#[trigger] formats[i]) && forall|j: int|
                0 <= j < i ==> !spec_is_srgb(#[trigger] formats[j]);
        formats[i]
    } else {
        formats[0]
    }
}

proof fn lemma_earliest_srgb(formats: Seq<TextureFormat>, m: int)
    requires
        0 <= m < formats.len(),
        spec_is_srgb(formats[m]),
    ensures
        exists|k: int|
            0 <= k <= m && spec_is_srgb(#[trigger] formats[k]) && forall|j: int|
                0 <= j < k ==> !spec_is_srgb(#[trigger] formats[j]),
    decreases m,
{
    if !(forall|j: int| 0 <= j < m ==> !spec_is_srgb(#[trigger] formats[j])) {
        let j = choose|j: int| 0 <= j < m && spec_is_srgb(#[trigger] formats[j]);
        lemma_earliest_srgb(formats, j);
    } else {
        assert(spec_is_srgb(formats[m]));
    }
}

/// The selection rule is deterministic and order-preserving: when any listed
/// format is sRGB-capable the chosen one is too, and is the earliest such;
/// otherwise the chosen one is the first listed format.
pub proof fn lemma_chosen_format(formats: Seq<TextureFormat>)
    requires
        formats.len() > 0,
    ensures
        formats.contains(first_srgb_or_first(formats)),
        (exists|i: int| 0 <= i < formats.len() && spec_is_srgb(#[trigger] formats[i]))
            ==> spec_is_srgb(first_srgb_or_first(formats)) && exists|k: int|
            0 <= k < formats.len() && formats[k] == first_srgb_or_first(formats) && forall|j: int|
                0 <= j < k ==> !spec_is_srgb(#[trigger] formats[j]),
        !(exists|i: int| 0 <= i < formats.len() && spec_is_srgb(#[trigger] formats[i]))
            ==> first_srgb_or_first(formats) == formats[0],
{
    if exists|i: int| 0 <= i < formats.len() && spec_is_srgb(#[trigger] formats[i]) {
        let i0 = choose|i: int| 0 <= i < formats.len() && spec_is_srgb(#[trigger] formats[i]);
        lemma_earliest_srgb(formats, i0);
        let k = choose|k: int|
            0 <= k < formats.len() && spec_is_srgb(#[trigger] formats[k]) && forall|j: int|
                0 <= j < k ==> !spec_is_srgb(#[trigger] formats[j]);
        assert(formats[k] == first_srgb_or_first(formats));
    } else {
        assert(formats[0] == first_srgb_or_first(formats));
    }
}

/// Picks the surface format: the first sRGB-capable one, falling back to
/// the first listed format; `None` when nothing is listed.
pub fn choose_format(formats: &Vec<TextureFormat>) -> (r: Option<TextureFormat>)
    ensures
        formats@.len() == 0 <==> r is None,
        r is Some ==> r->0 == first_srgb_or_first(formats@),
        r is Some ==> formats@.contains(r->0),
        r is Some && (exists|i: int| 0 <= i < formats@.len() && spec_is_srgb(#[trigger] formats@[i]))
            ==> spec_is_srgb(r->0),
        r is Some && !(exists|i: int| 0 <= i < formats@.len() && spec_is_srgb(#[trigger] formats@[i]))
            ==> r->0 == formats@[0],
{
    if formats.len() == 0 {
        return None;
    }
    let mut i: usize = 0;
    while i < formats.len()
        invariant
            0 <= i <= formats@.len(),
            forall|j: int| 0 <= j < i ==> !spec_is_srgb(#[trigger] formats@[j]),
        decreases formats@.len() - i,
    {
        if formats[i].is_srgb() {
            let ghost s = formats@;
            proof {
                let k = choose|k: int|
                    0 <= k < s.len() && spec_is_srgb(#[trigger] s[k]) && forall|j: int|
                        0 <= j < k ==> !spec_is_srgb(#[trigger] s[j]);
                if k < i {
                } else if k > i {
                    assert(!spec_is_srgb(s[i as int]));
                }
                assert(k == i);
            }
            return Some(formats[i]);
        }
        i = i + 1;
    }
    assert(forall|j: int| 0 <= j < formats@.len() ==> !spec_is_srgb(#[trigger] formats@[j]));
    Some(formats[0])
}

} // verus!
