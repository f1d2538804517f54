//! The configuration the core is constructed with, and the surface it opens.
//!
//! All of it is fixed at construction: nothing here can be changed while the
//! frame loop runs.

use vstd::prelude::*;
use crate::error::{InitFailure, RenderError};
use crate::pipeline::DepthDesc;
use crate::scalar::{in_unit_interval, unit_interval, Bits, ONE, TENTH, THREE_TENTHS, TWO_TENTHS};

verus! {

/// The width, in pixels, of the window opened by default.
pub const DEFAULT_WIDTH: u32 = 800;

/// The height, in pixels, of the window opened by default.
pub const DEFAULT_HEIGHT: u32 = 600;

/// What a frame target is cleared to before anything is drawn into it.
#[derive(Clone, Copy, Debug, PartialEq, Eq)]
pub struct ClearValues {
    /// Red, green, blue and alpha.
    pub color: [Bits; 4],
    /// The depth every pixel starts from.
    pub depth: Bits,
    /// The stencil value every pixel starts from. It is not configurable: the
    /// only valid value is 0.
    pub stencil: u8,
}

impl ClearValues {
    /// Every colour channel lies between zero and one, and the stencil is 0.
    pub open spec fn valid(self) -> bool {
        &&& forall|i: int| 0 <= i < 4 ==> unit_interval(#[trigger] self.color@[i])
        &&& self.stencil == 0
    }

    /// Decides [`ClearValues::valid`].
    pub fn is_valid(&self) -> (r: bool)
        ensures
            r == self.valid(),
    {
        let mut i: usize = 0;
        while i < 4
            invariant
                i <= 4,
                forall|k: int| 0 <= k < i ==> unit_interval(#[trigger] self.color@[k]),
            decreases 4 - i,
        {
            if !in_unit_interval(self.color[i]) {
                return false;
            }
            i += 1;
        }
        self.stencil == 0
    }

    /// The clear values for `color` and `depth`, with stencil 0; `None` exactly
    /// when a colour channel lies outside the interval from zero to one.
    pub fn new(color: [Bits; 4], depth: Bits) -> (r: Option<ClearValues>)
        ensures
            r == if (ClearValues { color, depth, stencil: 0 }).valid() {
                Some(ClearValues { color, depth, stencil: 0 })
            } else {
                None
            },
    {
        let values = ClearValues { color, depth, stencil: 0 };
        if values.is_valid() {
            Some(values)
        } else {
            None
        }
    }

    /// The clear values used by default: colour (0.1, 0.2, 0.3, 1.0), depth
    /// 1.0 and stencil 0.
    pub fn standard() -> (v: ClearValues)
        ensures
            v == (ClearValues { color: [TENTH, TWO_TENTHS, THREE_TENTHS, ONE], depth: ONE, stencil: 0 }),
            v.valid(),
    {
        ClearValues { color: [TENTH, TWO_TENTHS, THREE_TENTHS, ONE], depth: ONE, stencil: 0 }
    }
}

/// What a window configuration holds.
pub struct ConfigModel {
    pub width: u32,
    pub height: u32,
    pub title: Seq<char>,
    pub clear: ClearValues,
    pub depth: DepthDesc,
}

impl ConfigModel {
    /// Both dimensions are positive and the clear values are valid.
    pub open spec fn valid(self) -> bool {
        self.width > 0 && self.height > 0 && self.clear.valid()
    }
}

/// The configuration of the window and of what is drawn into it. A value of
/// this type is always valid, and stays as it was made.
#[derive(Debug)]
pub struct WindowConfig {
    width: u32,
    height: u32,
    title: String,
    clear: ClearValues,
    depth: DepthDesc,
}

impl View for WindowConfig {
    type V = ConfigModel;

    closed spec fn view(&self) -> ConfigModel {
        ConfigModel {
            width: self.width,
            height: self.height,
            title: self.title@,
            clear: self.clear,
            depth: self.depth,
        }
    }
}

impl WindowConfig {
    #[verifier::type_invariant]
    spec fn always_valid(self) -> bool {
        self.width > 0 && self.height > 0 && self.clear.valid()
    }

    /// The configuration made of the arguments; `None` exactly when a
    /// dimension is zero or the clear values are not valid.
    pub fn new(width: u32, height: u32, title: String, clear: ClearValues, depth: DepthDesc) -> (r:
        Option<WindowConfig>)
        ensures
            match r {
                Some(config) => config@ == (ConfigModel { width, height, title: title@, clear, depth })
                    && config@.valid(),
                None => !(ConfigModel { width, height, title: title@, clear, depth }).valid(),
            },
    {
        if width == 0 || height == 0 || !clear.is_valid() {
            None
        } else {
            Some(WindowConfig { width, height, title, clear, depth })
        }
    }

    /// The window's width in pixels; never zero.
    pub fn width(&self) -> (w: u32)
        ensures
            w == self@.width,
            w > 0,
    {
        proof {
            use_type_invariant(self);
        }
        self.width
    }

    /// The window's height in pixels; never zero.
    pub fn height(&self) -> (h: u32)
        ensures
            h == self@.height,
            h > 0,
    {
        proof {
            use_type_invariant(self);
        }
        self.height
    }

    /// The window's title.
    pub fn title(&self) -> (t: &str)
        ensures
            t@ == self@.title,
    {
        self.title.as_str()
    }

    /// What every frame is cleared to; always valid.
    pub fn clear(&self) -> (c: ClearValues)
        ensures
            c == self@.clear,
            c.valid(),
    {
        proof {
            use_type_invariant(self);
        }
        self.clear
    }

    /// The depth test that the pipeline is to be built with.
    pub fn depth(&self) -> (d: DepthDesc)
        ensures
            d == self@.depth,
    {
        self.depth
    }
}

/// The surface a frame is drawn into: one colour and one depth attachment,
/// each named by the device's handle for it. A target is good for one frame.
#[derive(Clone, Copy, Debug, PartialEq, Eq, Structural)]
pub struct FrameTarget {
    pub color: u64,
    pub depth: u64,
}

/// What an opened surface is.
pub struct SurfaceModel {
    pub config: ConfigModel,
    pub initial_target: FrameTarget,
}

/// An opened window with its device: the outcome of a successful
/// initialization.
#[derive(Debug)]
pub struct Surface {
    config: WindowConfig,
    initial_target: FrameTarget,
}

impl View for Surface {
    type V = SurfaceModel;

    closed spec fn view(&self) -> SurfaceModel {
        SurfaceModel { config: self.config@, initial_target: self.initial_target }
    }
}

impl Surface {
    /// The configuration the surface was opened with; always valid.
    pub fn config(&self) -> (c: &WindowConfig)
        ensures
            c@ == self@.config,
            c@.valid(),
    {
        proof {
            use_type_invariant(&self.config);
        }
        &self.config
    }

    /// The target that the window system handed out when the surface opened.
    pub fn initial_target(&self) -> (t: FrameTarget)
        ensures
            t == self@.initial_target,
    {
        self.initial_target
    }
}

/// Concludes initialization, given the window system's answer to opening a
/// window of `config`'s dimensions and title: the initial frame target, or why
/// no surface or device could be had.
///
/// A failure is final: there is no partially opened surface.
pub fn initialize(config: WindowConfig, answer: Result<FrameTarget, InitFailure>) -> (r: Result<
    Surface,
    RenderError,
>)
    ensures
        match answer {
            Ok(target) => r is Ok && r->Ok_0@ == (SurfaceModel {
                config: config@,
                initial_target: target,
            }),
            Err(cause) => r is Err && r->Err_0 == RenderError::Initialization(cause),
        },
{
    match answer {
        Ok(target) => Ok(Surface { config, initial_target: target }),
        Err(cause) => Err(RenderError::Initialization(cause)),
    }
}

} // verus!
