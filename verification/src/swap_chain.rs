//! The buffers that a picture is drawn into, and the layers that make it up.
use vstd::prelude::*;
use crate::overlay::Size;

verus! {

/// What a picture is made up of, the lowest layer first.
#[derive(Clone, Copy, Debug, PartialEq, Eq, Structural)]
pub enum Layer {
    /// One colour all over.
    Ground,
    Video,
    Subtitle,
    Timeline,
    Volume,
}

/// Which overlays there are.
#[derive(Clone, Copy, Debug, PartialEq, Eq, Structural)]
pub struct Overlays {
    pub subtitle: bool,
    pub timeline: bool,
    pub volume: bool,
}

/// Why nothing can be drawn.
#[derive(Clone, Copy, Debug, PartialEq, Eq, Structural)]
pub enum SwapChainError {
    /// There is nothing to draw on.
    BackbufferNotBound,
    /// There is no texture to draw a video on, or to measure.
    TextureNotBound,
}

impl SwapChainError {
    /// The words for the error.
    pub fn message(&self) -> (r: &'static str)
        ensures
            r@ == (match *self {
                SwapChainError::BackbufferNotBound => "swap-chain backbuffer is not bound"@,
                SwapChainError::TextureNotBound => "swap-chain backbuffer texture is not bound"@,
            }),
    {
        match self {
            SwapChainError::BackbufferNotBound => "swap-chain backbuffer is not bound",
            SwapChainError::TextureNotBound => "swap-chain backbuffer texture is not bound",
        }
    }
}

/// A layer where there is one.
pub open spec fn layer_if(there: bool, layer: Layer) -> Seq<Layer> {
    if there {
        seq![layer]
    } else {
        Seq::empty()
    }
}

/// The layers of a picture, the lowest first.
pub open spec fn layers_on(ground: Layer, overlays: Overlays) -> Seq<Layer> {
    seq![ground] + layer_if(overlays.subtitle, Layer::Subtitle) + layer_if(
        overlays.timeline,
        Layer::Timeline,
    ) + layer_if(overlays.volume, Layer::Volume)
}

/// The buffers of a window.
#[derive(Clone, Copy, Debug, PartialEq, Eq, Structural)]
pub struct SwapChain {
    /// The size that was set; zero until one was.
    pub size: Size,
    /// Whether there is a buffer to draw on.
    pub bound: bool,
}

impl SwapChain {
    /// Whether a size was set.
    pub open spec fn is_sized(self) -> bool {
        self.size.width != 0 && self.size.height != 0
    }

    /// The size to draw at; `measured` is that of the buffer.
    pub open spec fn output(self, measured: Size) -> Size {
        if self.is_sized() {
            self.size
        } else {
            measured
        }
    }

    /// Buffers that were just made.
    pub fn new() -> (r: Self)
        ensures
            r == (SwapChain { size: Size { width: 0, height: 0 }, bound: true }),
    {
        SwapChain { size: Size { width: 0, height: 0 }, bound: true }
    }

    /// Lets the buffers go.
    pub fn release_resources(&mut self)
        ensures
            *final(self) == (SwapChain { bound: false, ..*old(self) }),
    {
        self.bound = false;
    }

    /// Takes up a new size; returns whether the buffers have to be resized. They
    /// are let go before that.
    pub fn resize(&mut self, width: u32, height: u32) -> (r: bool)
        ensures
            r == (width != 0 && height != 0),
            *final(self) == (if r {
                SwapChain { bound: false, ..*old(self) }
            } else {
                *old(self)
            }),
    {
        if width == 0 || height == 0 {
            return false;
        }
        self.bound = false;
        true
    }

    /// The buffers were resized.
    pub fn resized(&mut self, width: u32, height: u32)
        ensures
            *final(self) == (SwapChain { size: Size { width, height }, bound: true }),
    {
        self.size = Size { width, height };
        self.bound = true;
    }

    /// The size of the view; `measured` is that of the buffer.
    pub fn viewport_size(&self, measured: Size) -> (r: Result<Size, SwapChainError>)
        ensures
            match r {
                Ok(size) => (self.is_sized() || self.bound) && size == self.output(measured),
                Err(e) => !self.is_sized() && !self.bound && e == SwapChainError::TextureNotBound,
            },
    {
        if self.size.width != 0 && self.size.height != 0 {
            return Ok(self.size);
        }
        if !self.bound {
            return Err(SwapChainError::TextureNotBound);
        }
        Ok(measured)
    }

    /// The layers of a picture without video.
    pub fn render(&self, overlays: Overlays) -> (r: Result<Vec<Layer>, SwapChainError>)
        ensures
            match r {
                Ok(layers) => self.bound && layers@ == layers_on(Layer::Ground, overlays),
                Err(e) => !self.bound && e == SwapChainError::BackbufferNotBound,
            },
    {
        if !self.bound {
            return Err(SwapChainError::BackbufferNotBound);
        }
        Ok(stacked(Layer::Ground, overlays))
    }

    /// The size and the layers of a picture with video.
    pub fn render_surface(&self, overlays: Overlays, measured: Size) -> (r: Result<
        (Size, Vec<Layer>),
        SwapChainError,
    >)
        ensures
            match r {
                Ok((size, layers)) => {
                    &&& self.bound
                    &&& size == self.output(measured)
                    &&& layers@ == layers_on(Layer::Video, overlays)
                },
                Err(e) => !self.bound && e == SwapChainError::TextureNotBound,
            },
    {
        if !self.bound {
            return Err(SwapChainError::TextureNotBound);
        }
        let size = if self.size.width == 0 || self.size.height == 0 {
            measured
        } else {
            self.size
        };
        Ok((size, stacked(Layer::Video, overlays)))
    }
}

/// The layers of a picture.
fn stacked(ground: Layer, overlays: Overlays) -> (r: Vec<Layer>)
    ensures
        r@ == layers_on(ground, overlays),
{
    let mut layers: Vec<Layer> = Vec::new();
    layers.push(ground);
    if overlays.subtitle {
        layers.push(Layer::Subtitle);
    }
    if overlays.timeline {
        layers.push(Layer::Timeline);
    }
    if overlays.volume {
        layers.push(Layer::Volume);
    }
    proof {
        assert(layers@ =~= layers_on(ground, overlays));
    }
    layers
}

/// Every overlay lies over the video, and the volume lies over all.
pub proof fn overlays_lie_over_the_video(overlays: Overlays)
    ensures
        ({
            let layers = layers_on(Layer::Video, overlays);
            &&& layers[0] == Layer::Video
            &&& forall|i: int| 1 <= i < layers.len() ==> #[trigger] layers[i] != Layer::Video
            &&& overlays.volume ==> layers.last() == Layer::Volume
        }),
{
}

/// Every overlay that is there is drawn once, over the ground, in a fixed order:
/// subtitles, then the timeline, then the volume.
pub proof fn overlays_are_drawn_in_order(ground: Layer, overlays: Overlays)
    ensures
        ({
            let l = layers_on(ground, overlays);
            let n = (if overlays.subtitle {
                1int
            } else {
                0
            }) + (if overlays.timeline {
                1int
            } else {
                0
            }) + (if overlays.volume {
                1int
            } else {
                0
            });
            &&& l.len() == n + 1
            &&& l[0] == ground
            &&& (overlays.subtitle ==> l[1] == Layer::Subtitle)
            &&& (overlays.volume ==> l.last() == Layer::Volume)
            &&& (overlays.timeline && !overlays.volume ==> l.last() == Layer::Timeline)
            &&& (overlays.timeline && overlays.volume ==> l[l.len() - 2] == Layer::Timeline)
        }),
{
}

/// A picture is drawn at the size that was set, and at that of the buffer while none
/// was.
pub proof fn set_size_comes_first(chain: SwapChain, measured: Size)
    ensures
        chain.size.width != 0 && chain.size.height != 0 ==> chain.output(measured) == chain.size,
        chain.size.width == 0 || chain.size.height == 0 ==> chain.output(measured) == measured,
{
}

} // verus!
