//! Resolution presets for input, internal and output resolutions, with a
//! custom option.
use vstd::prelude::*;
use vstd::string::StringExecFns;
use crate::text::{append_decimal, decimal, push_char};

verus! {

/// Common resolution presets.
#[derive(Debug, Clone, Copy, PartialEq, Eq, Structural)]
pub enum ResolutionPreset {
    /// 640x480 (SD)
    R640x480,
    /// 800x600 (SVGA)
    R800x600,
    /// 1024x768 (XGA)
    R1024x768,
    /// 1280x720 (HD 720p)
    R1280x720,
    /// 1280x1024 (SXGA)
    R1280x1024,
    /// 1920x1080 (Full HD 1080p)
    R1920x1080,
    /// 2560x1440 (QHD 1440p)
    R2560x1440,
    /// 3840x2160 (4K UHD)
    R3840x2160,
    /// 4096x2160 (DCI 4K)
    R4096x2160,
    /// 7680x4320 (8K UHD)
    R7680x4320,
    /// Square 1:1, 1080x1080
    R1080x1080,
    /// Vertical 9:16, 1080x1920
    R1080x1920,
    /// Custom resolution
    Custom,
}

impl ResolutionPreset {
    /// Every preset, in menu order.
    pub open spec fn spec_all() -> Seq<ResolutionPreset> {
        seq![
            ResolutionPreset::R640x480,
            ResolutionPreset::R800x600,
            ResolutionPreset::R1024x768,
            ResolutionPreset::R1280x720,
            ResolutionPreset::R1280x1024,
            ResolutionPreset::R1920x1080,
            ResolutionPreset::R2560x1440,
            ResolutionPreset::R3840x2160,
            ResolutionPreset::R4096x2160,
            ResolutionPreset::R7680x4320,
            ResolutionPreset::R1080x1080,
            ResolutionPreset::R1080x1920,
            ResolutionPreset::Custom,
        ]
    }

    /// Position of a preset in `spec_all`.
    pub open spec fn spec_index(self) -> int {
        match self {
            ResolutionPreset::R640x480 => 0,
            ResolutionPreset::R800x600 => 1,
            ResolutionPreset::R1024x768 => 2,
            ResolutionPreset::R1280x720 => 3,
            ResolutionPreset::R1280x1024 => 4,
            ResolutionPreset::R1920x1080 => 5,
            ResolutionPreset::R2560x1440 => 6,
            ResolutionPreset::R3840x2160 => 7,
            ResolutionPreset::R4096x2160 => 8,
            ResolutionPreset::R7680x4320 => 9,
            ResolutionPreset::R1080x1080 => 10,
            ResolutionPreset::R1080x1920 => 11,
            ResolutionPreset::Custom => 12,
        }
    }

    /// Display name of a preset.
    pub open spec fn spec_name(self) -> Seq<char> {
        match self {
            ResolutionPreset::R640x480 => "640x480 (SD)"@,
            ResolutionPreset::R800x600 => "800x600 (SVGA)"@,
            ResolutionPreset::R1024x768 => "1024x768 (XGA)"@,
            ResolutionPreset::R1280x720 => "1280x720 (HD 720p)"@,
            ResolutionPreset::R1280x1024 => "1280x1024 (SXGA)"@,
            ResolutionPreset::R1920x1080 => "1920x1080 (Full HD 1080p)"@,
            ResolutionPreset::R2560x1440 => "2560x1440 (QHD 1440p)"@,
            ResolutionPreset::R3840x2160 => "3840x2160 (4K UHD)"@,
            ResolutionPreset::R4096x2160 => "4096x2160 (DCI 4K)"@,
            ResolutionPreset::R7680x4320 => "7680x4320 (8K UHD)"@,
            ResolutionPreset::R1080x1080 => "1080x1080 (Square 1:1)"@,
            ResolutionPreset::R1080x1920 => "1080x1920 (Vertical 9:16)"@,
            ResolutionPreset::Custom => "Custom..."@,
        }
    }

    /// Width and height of a preset; `None` for `Custom`.
    pub open spec fn spec_dimensions(self) -> Option<(u32, u32)> {
        match self {
            ResolutionPreset::R640x480 => Some((640u32, 480u32)),
            ResolutionPreset::R800x600 => Some((800u32, 600u32)),
            ResolutionPreset::R1024x768 => Some((1024u32, 768u32)),
            ResolutionPreset::R1280x720 => Some((1280u32, 720u32)),
            ResolutionPreset::R1280x1024 => Some((1280u32, 1024u32)),
            ResolutionPreset::R1920x1080 => Some((1920u32, 1080u32)),
            ResolutionPreset::R2560x1440 => Some((2560u32, 1440u32)),
            ResolutionPreset::R3840x2160 => Some((3840u32, 2160u32)),
            ResolutionPreset::R4096x2160 => Some((4096u32, 2160u32)),
            ResolutionPreset::R7680x4320 => Some((7680u32, 4320u32)),
            ResolutionPreset::R1080x1080 => Some((1080u32, 1080u32)),
            ResolutionPreset::R1080x1920 => Some((1080u32, 1920u32)),
            ResolutionPreset::Custom => None,
        }
    }

    /// The preset whose dimensions are exactly `width` x `height`, or
    /// `Custom` when no preset has them.
    pub open spec fn spec_from_dimensions(width: u32, height: u32) -> ResolutionPreset {
        if width == 640 && height == 480 {
            ResolutionPreset::R640x480
        } else if width == 800 && height == 600 {
            ResolutionPreset::R800x600
        } else if width == 1024 && height == 768 {
            ResolutionPreset::R1024x768
        } else if width == 1280 && height == 720 {
            ResolutionPreset::R1280x720
        } else if width == 1280 && height == 1024 {
            ResolutionPreset::R1280x1024
        } else if width == 1920 && height == 1080 {
            ResolutionPreset::R1920x1080
        } else if width == 2560 && height == 1440 {
            ResolutionPreset::R2560x1440
        } else if width == 3840 && height == 2160 {
            ResolutionPreset::R3840x2160
        } else if width == 4096 && height == 2160 {
            ResolutionPreset::R4096x2160
        } else if width == 7680 && height == 4320 {
            ResolutionPreset::R7680x4320
        } else if width == 1080 && height == 1080 {
            ResolutionPreset::R1080x1080
        } else if width == 1080 && height == 1920 {
            ResolutionPreset::R1080x1920
        } else {
            ResolutionPreset::Custom
        }
    }

    /// Every preset sits in `spec_all` at its own index.
    pub proof fn lemma_all_index(self)
        ensures
            Self::spec_all().len() == 13,
            0 <= self.spec_index() < 13,
            Self::spec_all()[self.spec_index()] == self,
    {
    }

    /// A preset with dimensions is recovered from them.
    pub proof fn lemma_from_own_dimensions(self)
        ensures
            self.spec_dimensions() matches Some(d) ==> Self::spec_from_dimensions(d.0, d.1) == self,
    {
    }

    /// Get all available presets.
    pub fn all() -> (r: &'static [ResolutionPreset])
        ensures
            r@ == Self::spec_all(),
    {
        let r: &'static [ResolutionPreset] = &[
            ResolutionPreset::R640x480,
            ResolutionPreset::R800x600,
            ResolutionPreset::R1024x768,
            ResolutionPreset::R1280x720,
            ResolutionPreset::R1280x1024,
            ResolutionPreset::R1920x1080,
            ResolutionPreset::R2560x1440,
            ResolutionPreset::R3840x2160,
            ResolutionPreset::R4096x2160,
            ResolutionPreset::R7680x4320,
            ResolutionPreset::R1080x1080,
            ResolutionPreset::R1080x1920,
            ResolutionPreset::Custom,
        ];
        assert(r@ =~= Self::spec_all());
        r
    }

    /// Get display name for the preset.
    pub fn name(&self) -> (r: &'static str)
        ensures
            r@ == self.spec_name(),
    {
        match self {
            ResolutionPreset::R640x480 => "640x480 (SD)",
            ResolutionPreset::R800x600 => "800x600 (SVGA)",
            ResolutionPreset::R1024x768 => "1024x768 (XGA)",
            ResolutionPreset::R1280x720 => "1280x720 (HD 720p)",
            ResolutionPreset::R1280x1024 => "1280x1024 (SXGA)",
            ResolutionPreset::R1920x1080 => "1920x1080 (Full HD 1080p)",
            ResolutionPreset::R2560x1440 => "2560x1440 (QHD 1440p)",
            ResolutionPreset::R3840x2160 => "3840x2160 (4K UHD)",
            ResolutionPreset::R4096x2160 => "4096x2160 (DCI 4K)",
            ResolutionPreset::R7680x4320 => "7680x4320 (8K UHD)",
            ResolutionPreset::R1080x1080 => "1080x1080 (Square 1:1)",
            ResolutionPreset::R1080x1920 => "1080x1920 (Vertical 9:16)",
            ResolutionPreset::Custom => "Custom...",
        }
    }

    /// Get width and height for the preset.
    pub fn dimensions(&self) -> (r: Option<(u32, u32)>)
        ensures
            r == self.spec_dimensions(),
    {
        match self {
            ResolutionPreset::R640x480 => Some((640, 480)),
            ResolutionPreset::R800x600 => Some((800, 600)),
            ResolutionPreset::R1024x768 => Some((1024, 768)),
            ResolutionPreset::R1280x720 => Some((1280, 720)),
            ResolutionPreset::R1280x1024 => Some((1280, 1024)),
            ResolutionPreset::R1920x1080 => Some((1920, 1080)),
            ResolutionPreset::R2560x1440 => Some((2560, 1440)),
            ResolutionPreset::R3840x2160 => Some((3840, 2160)),
            ResolutionPreset::R4096x2160 => Some((4096, 2160)),
            ResolutionPreset::R7680x4320 => Some((7680, 4320)),
            ResolutionPreset::R1080x1080 => Some((1080, 1080)),
            ResolutionPreset::R1080x1920 => Some((1080, 1920)),
            ResolutionPreset::Custom => None,
        }
    }

    /// Find the preset with the given dimensions, or return `Custom`.
    pub fn from_dimensions(width: u32, height: u32) -> (r: Self)
        ensures
            r == Self::spec_from_dimensions(width, height),
    {
        let presets = Self::all();
        let mut i: usize = 0;
        while i < presets.len()
            invariant
                presets@ == Self::spec_all(),
                0 <= i <= presets@.len(),
                forall|j: int|
                    0 <= j < i ==> (#[trigger] presets@[j]).spec_dimensions() != Some(
                        (width, height),
                    ),
            decreases presets@.len() - i,
        {
            let preset = presets[i];
            match preset.dimensions() {
                Some((w, h)) => {
                    if w == width && h == height {
                        proof {
                            preset.lemma_from_own_dimensions();
                        }
                        return preset;
                    }
                },
                None => {},
            }
            i += 1;
        }
        proof {
            let p = Self::spec_from_dimensions(width, height);
            p.lemma_all_index();
            if p != ResolutionPreset::Custom {
                assert(presets@[p.spec_index()] == p);
            }
        }
        ResolutionPreset::Custom
    }

    /// Check if this is the `Custom` preset.
    pub fn is_custom(&self) -> (r: bool)
        ensures
            r <==> *self == ResolutionPreset::Custom,
    {
        match self {
            ResolutionPreset::Custom => true,
            _ => false,
        }
    }
}

impl Default for ResolutionPreset {
    fn default() -> (r: Self)
        ensures
            r == ResolutionPreset::R1280x720,
    {
        ResolutionPreset::R1280x720
    }
}

/// Resolution configuration: a preset, and the dimensions used when the
/// preset is `Custom`.
#[derive(Debug, Clone, PartialEq, Eq, Structural)]
pub struct ResolutionConfig {
    /// Selected preset
    pub preset: ResolutionPreset,
    /// Custom width (only used when preset is Custom)
    pub custom_width: u32,
    /// Custom height (only used when preset is Custom)
    pub custom_height: u32,
}

impl ResolutionConfig {
    /// The width in effect: the preset's, or the custom one.
    pub open spec fn spec_width(self) -> u32 {
        match self.preset.spec_dimensions() {
            Some(d) => d.0,
            None => self.custom_width,
        }
    }

    /// The height in effect: the preset's, or the custom one.
    pub open spec fn spec_height(self) -> u32 {
        match self.preset.spec_dimensions() {
            Some(d) => d.1,
            None => self.custom_height,
        }
    }

    /// Text shown for a configuration: `WxH`, followed by ` (Custom)` when
    /// the preset is `Custom`.
    pub open spec fn spec_display(self) -> Seq<char> {
        let base = decimal(self.spec_width() as nat) + seq!['x'] + decimal(
            self.spec_height() as nat,
        );
        if self.preset == ResolutionPreset::Custom {
            base + " (Custom)"@
        } else {
            base
        }
    }

    /// Create a configuration with a preset; the custom dimensions take the
    /// preset's (1280x720 for `Custom`).
    pub fn new_preset(preset: ResolutionPreset) -> (r: Self)
        ensures
            r.preset == preset,
            preset.spec_dimensions() matches Some(d) ==> r.custom_width == d.0 && r.custom_height
                == d.1,
            preset == ResolutionPreset::Custom ==> r.custom_width == 1280 && r.custom_height == 720,
            preset.spec_dimensions() matches Some(d) ==> r.spec_width() == d.0 && r.spec_height()
                == d.1,
    {
        let (w, h) = match preset.dimensions() {
            Some(d) => d,
            None => (1280, 720),
        };
        ResolutionConfig { preset, custom_width: w, custom_height: h }
    }

    /// Create a configuration with custom dimensions.
    pub fn new_custom(width: u32, height: u32) -> (r: Self)
        ensures
            r == (ResolutionConfig {
                preset: ResolutionPreset::Custom,
                custom_width: width,
                custom_height: height,
            }),
            r.spec_width() == width,
            r.spec_height() == height,
    {
        ResolutionConfig { preset: ResolutionPreset::Custom, custom_width: width, custom_height: height }
    }

    /// Get the width in effect.
    pub fn width(&self) -> (r: u32)
        ensures
            r == self.spec_width(),
    {
        match self.preset.dimensions() {
            Some((w, _)) => w,
            None => self.custom_width,
        }
    }

    /// Get the height in effect.
    pub fn height(&self) -> (r: u32)
        ensures
            r == self.spec_height(),
    {
        match self.preset.dimensions() {
            Some((_, h)) => h,
            None => self.custom_height,
        }
    }

    /// Get the dimensions in effect.
    pub fn dimensions(&self) -> (r: (u32, u32))
        ensures
            r == (self.spec_width(), self.spec_height()),
    {
        (self.width(), self.height())
    }

    /// Set custom dimensions (switches to the `Custom` preset).
    pub fn set_dimensions(&mut self, width: u32, height: u32)
        ensures
            final(self).preset == ResolutionPreset::Custom,
            final(self).custom_width == width,
            final(self).custom_height == height,
            final(self).spec_width() == width,
            final(self).spec_height() == height,
    {
        self.preset = ResolutionPreset::Custom;
        self.custom_width = width;
        self.custom_height = height;
    }

    /// Select a preset; the custom dimensions take the preset's, and stay as
    /// they were when the preset is `Custom`.
    pub fn set_preset(&mut self, preset: ResolutionPreset)
        ensures
            final(self).preset == preset,
            preset.spec_dimensions() matches Some(d) ==> final(self).custom_width == d.0
                && final(self).custom_height == d.1,
            preset.spec_dimensions() is None ==> final(self).custom_width == old(self).custom_width
                && final(self).custom_height == old(self).custom_height,
            preset.spec_dimensions() matches Some(d) ==> final(self).spec_width() == d.0
                && final(self).spec_height() == d.1,
            preset.spec_dimensions() is None ==> final(self).spec_width() == old(self).custom_width
                && final(self).spec_height() == old(self).custom_height,
    {
        self.preset = preset;
        match preset.dimensions() {
            Some((w, h)) => {
                self.custom_width = w;
                self.custom_height = h;
            },
            None => {},
        }
    }

    /// Get the display string for the current resolution.
    pub fn display_string(&self) -> (r: String)
        ensures
            r@ == self.spec_display(),
    {
        let (w, h) = self.dimensions();
        let mut s = String::new();
        append_decimal(&mut s, w as u128);
        push_char(&mut s, 'x');
        append_decimal(&mut s, h as u128);
        if self.preset.is_custom() {
            s.append(" (Custom)");
        }
        proof {
            assert(Seq::<char>::empty() + decimal(w as nat) =~= decimal(w as nat));
            assert(decimal(w as nat).push('x') =~= decimal(w as nat) + seq!['x']);
        }
        s
    }
}

impl Default for ResolutionConfig {
    fn default() -> (r: Self)
        ensures
            r == (ResolutionConfig {
                preset: ResolutionPreset::R1280x720,
                custom_width: 1280,
                custom_height: 720,
            }),
    {
        Self::new_preset(ResolutionPreset::R1280x720)
    }
}

/// Resolution settings of the application.
#[derive(Debug, Clone, PartialEq, Eq, Structural)]
pub struct ResolutionSettings {
    /// Input resolution (camera/video input)
    pub input: ResolutionConfig,
    /// Internal processing resolution
    pub internal: ResolutionConfig,
    /// Output window resolution
    pub output: ResolutionConfig,
}

impl Default for ResolutionSettings {
    fn default() -> (r: Self)
        ensures
            r.input.preset == ResolutionPreset::R1280x720,
            r.input.custom_width == 1280 && r.input.custom_height == 720,
            r.internal.preset == ResolutionPreset::R1280x720,
            r.internal.custom_width == 1280 && r.internal.custom_height == 720,
            r.output.preset == ResolutionPreset::R1920x1080,
            r.output.custom_width == 1920 && r.output.custom_height == 1080,
    {
        ResolutionSettings {
            input: ResolutionConfig::new_preset(ResolutionPreset::R1280x720),
            internal: ResolutionConfig::new_preset(ResolutionPreset::R1280x720),
            output: ResolutionConfig::new_preset(ResolutionPreset::R1920x1080),
        }
    }
}

/// A preset's dimensions identify it: looking the dimensions of a preset
/// up again gives back that preset.
pub proof fn law_from_dimensions_inverts_dimensions(p: ResolutionPreset)
    requires
        p != ResolutionPreset::Custom,
    ensures
        p.spec_dimensions() matches Some(d) && ResolutionPreset::spec_from_dimensions(d.0, d.1)
            == p,
{
}

/// Looking up dimensions gives either `Custom` or a preset with exactly
/// those dimensions.
pub proof fn law_from_dimensions_matches(width: u32, height: u32)
    ensures
        ResolutionPreset::spec_from_dimensions(width, height) == ResolutionPreset::Custom
            || ResolutionPreset::spec_from_dimensions(width, height).spec_dimensions() == Some(
            (width, height),
        ),
{
}

/// Different presets have different display names.
pub proof fn law_preset_names_distinct(p: ResolutionPreset, q: ResolutionPreset)
    requires
        p != q,
    ensures
        p.spec_name() != q.spec_name(),
{
    reveal_strlit("640x480 (SD)");
    reveal_strlit("800x600 (SVGA)");
    reveal_strlit("1024x768 (XGA)");
    reveal_strlit("1280x720 (HD 720p)");
    reveal_strlit("1280x1024 (SXGA)");
    reveal_strlit("1920x1080 (Full HD 1080p)");
    reveal_strlit("2560x1440 (QHD 1440p)");
    reveal_strlit("3840x2160 (4K UHD)");
    reveal_strlit("4096x2160 (DCI 4K)");
    reveal_strlit("7680x4320 (8K UHD)");
    reveal_strlit("1080x1080 (Square 1:1)");
    reveal_strlit("1080x1920 (Vertical 9:16)");
    reveal_strlit("Custom...");
    if p.spec_name() == q.spec_name() {
        assert(p.spec_name().len() == q.spec_name().len());
        assert(p.spec_name()[0] == q.spec_name()[0]);
        assert(p.spec_name()[1] == q.spec_name()[1]);
    }
}

/// A preset with dimensions is named by them: its name begins with the
/// width, `x`, the height and ` (`; `Custom` is named `Custom...`.
pub proof fn law_preset_name_shows_dimensions(p: ResolutionPreset)
    ensures
        p.spec_dimensions() matches Some(d) ==> ({
            let prefix = decimal(d.0 as nat) + seq!['x'] + decimal(d.1 as nat) + seq![' ', '('];
            prefix.len() <= p.spec_name().len() && p.spec_name().subrange(0, prefix.len() as int)
                == prefix
        }),
        p == ResolutionPreset::Custom ==> p.spec_name() == "Custom..."@,
{
    reveal_strlit("640x480 (SD)");
    reveal_strlit("800x600 (SVGA)");
    reveal_strlit("1024x768 (XGA)");
    reveal_strlit("1280x720 (HD 720p)");
    reveal_strlit("1280x1024 (SXGA)");
    reveal_strlit("1920x1080 (Full HD 1080p)");
    reveal_strlit("2560x1440 (QHD 1440p)");
    reveal_strlit("3840x2160 (4K UHD)");
    reveal_strlit("4096x2160 (DCI 4K)");
    reveal_strlit("7680x4320 (8K UHD)");
    reveal_strlit("1080x1080 (Square 1:1)");
    reveal_strlit("1080x1920 (Vertical 9:16)");
    reveal_strlit("Custom...");
    reveal_with_fuel(decimal, 5);
    if let Some(d) = p.spec_dimensions() {
        let prefix = decimal(d.0 as nat) + seq!['x'] + decimal(d.1 as nat) + seq![' ', '('];
        assert(p.spec_name().subrange(0, prefix.len() as int) =~= prefix);
    }
}

} // verus!
