//! Pixel formats, picture sizes, frame rates, and the offer that a capture
//! client submits to a source.

use vstd::prelude::*;

verus! {

/// The pixel layouts this library can name.
#[derive(Clone, Copy, Debug, PartialEq, Eq, Structural)]
pub enum PixelFormat {
    Rgb,
    Rgba,
    Rgbx,
    Bgrx,
    Yuy2,
    I420,
}

/// A picture size in pixels.
#[derive(Clone, Copy, Debug, PartialEq, Eq, Structural)]
pub struct Resolution {
    pub width: u32,
    pub height: u32,
}

impl Resolution {
    /// Whether `self` lies in the closed box spanned by `min` and `max`.
    pub open spec fn within(self, min: Resolution, max: Resolution) -> bool {
        &&& min.width <= self.width <= max.width
        &&& min.height <= self.height <= max.height
    }

    pub fn is_within(&self, min: &Resolution, max: &Resolution) -> (r: bool)
        ensures
            r == self.within(*min, *max),
    {
        min.width <= self.width && self.width <= max.width && min.height <= self.height
            && self.height <= max.height
    }
}

/// Frames per second as a fraction `num / denom`.
#[derive(Clone, Copy, Debug, PartialEq, Eq, Structural)]
pub struct Framerate {
    pub num: u32,
    pub denom: u32,
}

impl Framerate {
    /// A fraction names a rate only when its denominator is not zero.
    pub open spec fn valid(self) -> bool {
        self.denom > 0
    }

    /// `self <= other` as fractions, by cross-multiplication. Meaningful for
    /// two valid rates.
    pub open spec fn at_most(self, other: Framerate) -> bool {
        self.num * other.denom <= other.num * self.denom
    }

    pub fn is_valid(&self) -> (r: bool)
        ensures
            r == self.valid(),
    {
        self.denom > 0
    }

    pub fn is_at_most(&self, other: &Framerate) -> (r: bool)
        ensures
            r == self.at_most(*other),
    {
        let left: u64 = widening_product(self.num, other.denom);
        let right: u64 = widening_product(other.num, self.denom);
        left <= right
    }
}

/// The product of two 32-bit numbers, which always fits in 64 bits.
fn widening_product(a: u32, b: u32) -> (p: u64)
    ensures
        p == a * b,
{
    assert(a * b <= 0xffff_ffff * 0xffff_ffff) by (nonlinear_arith)
        requires
            0 <= a <= 0xffff_ffff,
            0 <= b <= 0xffff_ffff,
    ;
    (a as u64) * (b as u64)
}

/// One concrete raw-video format as a source announces it. The pixel format is
/// `None` when the source named a layout that `PixelFormat` does not list.
#[derive(Clone, Copy, Debug, PartialEq, Eq)]
pub struct RawVideoInfo {
    pub format: Option<PixelFormat>,
    pub size: Resolution,
    pub framerate: Framerate,
}

/// The format a negotiation settled on: one pixel format, one size, one rate.
#[derive(Clone, Copy, Debug, PartialEq, Eq, Structural)]
pub struct NegotiatedFormat {
    pub format: PixelFormat,
    pub size: Resolution,
    pub framerate: Framerate,
}

/// What an offer is, mathematically: the candidate formats in order of
/// preference, a closed range of sizes and a closed range of rates, each range
/// with the value the client would like best.
pub struct OfferModel {
    pub formats: Seq<PixelFormat>,
    pub min_size: Resolution,
    pub max_size: Resolution,
    pub preferred_size: Resolution,
    pub min_rate: Framerate,
    pub max_rate: Framerate,
    pub preferred_rate: Framerate,
}

impl OfferModel {
    /// An offer names at least one format, its rates are fractions, and each
    /// preferred value lies inside its own range.
    pub open spec fn valid(self) -> bool {
        &&& self.formats.len() > 0
        &&& self.preferred_size.within(self.min_size, self.max_size)
        &&& self.min_rate.valid()
        &&& self.max_rate.valid()
        &&& self.preferred_rate.valid()
        &&& self.min_rate.at_most(self.preferred_rate)
        &&& self.preferred_rate.at_most(self.max_rate)
    }

    /// The candidates as an enumerated choice is written for the transport:
    /// the preferred value first, then every alternative in order. The
    /// preferred value is the first candidate, so it stands twice.
    pub open spec fn format_choice(self) -> Seq<PixelFormat> {
        seq![self.formats[0]] + self.formats
    }

    /// Whether `format` is one of the candidates.
    pub open spec fn lists(self, format: PixelFormat) -> bool {
        self.formats.contains(format)
    }

    /// Whether a source's announcement lies inside the offer: a listed pixel
    /// format, a size in the size range, a rate in the rate range.
    pub open spec fn admits(self, info: RawVideoInfo) -> bool {
        &&& info.format is Some
        &&& self.lists(info.format->Some_0)
        &&& info.size.within(self.min_size, self.max_size)
        &&& info.framerate.valid()
        &&& self.min_rate.at_most(info.framerate)
        &&& info.framerate.at_most(self.max_rate)
    }

    /// Whether a settled format lies inside the offer.
    pub open spec fn covers(self, chosen: NegotiatedFormat) -> bool {
        &&& self.lists(chosen.format)
        &&& chosen.size.within(self.min_size, self.max_size)
        &&& chosen.framerate.valid()
        &&& self.min_rate.at_most(chosen.framerate)
        &&& chosen.framerate.at_most(self.max_rate)
    }

    /// The format that an announcement settles, if the offer admits it.
    pub open spec fn settle(self, info: RawVideoInfo) -> Option<NegotiatedFormat> {
        if self.admits(info) {
            Some(
                NegotiatedFormat {
                    format: info.format->Some_0,
                    size: info.size,
                    framerate: info.framerate,
                },
            )
        } else {
            None
        }
    }
}

/// An offer as it is held in memory. It is fixed when it is made: nothing
/// changes it afterwards, and every value of the type is a valid offer.
#[derive(Debug)]
pub struct FormatOffer {
    formats: Vec<PixelFormat>,
    min_size: Resolution,
    max_size: Resolution,
    preferred_size: Resolution,
    min_rate: Framerate,
    max_rate: Framerate,
    preferred_rate: Framerate,
}

impl View for FormatOffer {
    type V = OfferModel;

    closed spec fn view(&self) -> OfferModel {
        OfferModel {
            formats: self.formats@,
            min_size: self.min_size,
            max_size: self.max_size,
            preferred_size: self.preferred_size,
            min_rate: self.min_rate,
            max_rate: self.max_rate,
            preferred_rate: self.preferred_rate,
        }
    }
}

/// The offer a client makes when it has no wishes of its own: six formats from
/// RGB down to planar YUV, any size up to 4096 x 4096 with 320 x 240
/// preferred, any rate up to 1000 per second with 25 preferred.
pub open spec fn default_offer_model() -> OfferModel {
    OfferModel {
        formats: seq![
            PixelFormat::Rgb,
            PixelFormat::Rgba,
            PixelFormat::Rgbx,
            PixelFormat::Bgrx,
            PixelFormat::Yuy2,
            PixelFormat::I420,
        ],
        min_size: Resolution { width: 1, height: 1 },
        max_size: Resolution { width: 4096, height: 4096 },
        preferred_size: Resolution { width: 320, height: 240 },
        min_rate: Framerate { num: 0, denom: 1 },
        max_rate: Framerate { num: 1000, denom: 1 },
        preferred_rate: Framerate { num: 25, denom: 1 },
    }
}

/// Whether `wanted` occurs in `formats`.
fn format_listed(formats: &Vec<PixelFormat>, wanted: PixelFormat) -> (r: bool)
    ensures
        r == formats@.contains(wanted),
{
    let mut i: usize = 0;
    while i < formats.len()
        invariant
            i <= formats.len(),
            forall|j: int| 0 <= j < i ==> formats@[j] != wanted,
        decreases formats.len() - i,
    {
        if formats[i] == wanted {
            return true;
        }
        i += 1;
    }
    false
}

impl FormatOffer {
    #[verifier::type_invariant]
    spec fn holds_valid_offer(self) -> bool {
        self@.valid()
    }

    /// Makes an offer from its parts, or `None` when the parts do not make a
    /// valid offer.
    pub fn new(
        formats: Vec<PixelFormat>,
        min_size: Resolution,
        max_size: Resolution,
        preferred_size: Resolution,
        min_rate: Framerate,
        max_rate: Framerate,
        preferred_rate: Framerate,
    ) -> (r: Option<FormatOffer>)
        ensures
            r is Some <==> (OfferModel {
                formats: formats@,
                min_size,
                max_size,
                preferred_size,
                min_rate,
                max_rate,
                preferred_rate,
            }).valid(),
            r matches Some(offer) ==> offer@ == (OfferModel {
                formats: formats@,
                min_size,
                max_size,
                preferred_size,
                min_rate,
                max_rate,
                preferred_rate,
            }),
    {
        if formats.len() > 0 && preferred_size.is_within(&min_size, &max_size)
            && min_rate.is_valid() && max_rate.is_valid() && preferred_rate.is_valid()
            && min_rate.is_at_most(&preferred_rate) && preferred_rate.is_at_most(&max_rate) {
            Some(
                FormatOffer {
                    formats,
                    min_size,
                    max_size,
                    preferred_size,
                    min_rate,
                    max_rate,
                    preferred_rate,
                },
            )
        } else {
            None
        }
    }

    /// The default offer.
    pub fn default_offer() -> (r: FormatOffer)
        ensures
            r@ == default_offer_model(),
    {
        let mut formats: Vec<PixelFormat> = Vec::new();
        formats.push(PixelFormat::Rgb);
        formats.push(PixelFormat::Rgba);
        formats.push(PixelFormat::Rgbx);
        formats.push(PixelFormat::Bgrx);
        formats.push(PixelFormat::Yuy2);
        formats.push(PixelFormat::I420);
        assert(formats@ =~= default_offer_model().formats);
        FormatOffer {
            formats,
            min_size: Resolution { width: 1, height: 1 },
            max_size: Resolution { width: 4096, height: 4096 },
            preferred_size: Resolution { width: 320, height: 240 },
            min_rate: Framerate { num: 0, denom: 1 },
            max_rate: Framerate { num: 1000, denom: 1 },
            preferred_rate: Framerate { num: 25, denom: 1 },
        }
    }

    /// The format the client would like best: the first candidate.
    pub fn preferred_format(&self) -> (r: PixelFormat)
        ensures
            self@.formats.len() > 0,
            r == self@.formats[0],
    {
        proof {
            use_type_invariant(self);
        }
        self.formats[0]
    }

    /// The candidates as an enumerated choice: the preferred format, then
    /// every candidate in order.
    pub fn format_choice(&self) -> (r: Vec<PixelFormat>)
        ensures
            r@ == self@.format_choice(),
    {
        proof {
            use_type_invariant(self);
        }
        let mut choice: Vec<PixelFormat> = Vec::new();
        choice.push(self.formats[0]);
        let mut i: usize = 0;
        while i < self.formats.len()
            invariant
                i <= self.formats.len(),
                self.formats@.len() > 0,
                choice@ == seq![self.formats@[0]] + self.formats@.take(i as int),
            decreases self.formats.len() - i,
        {
            choice.push(self.formats[i]);
            proof {
                assert(self.formats@.take(i + 1) =~= self.formats@.take(i as int).push(
                    self.formats@[i as int],
                ));
                assert(choice@ =~= seq![self.formats@[0]] + self.formats@.take(i + 1));
            }
            i += 1;
        }
        assert(self.formats@.take(i as int) =~= self.formats@);
        choice
    }

    /// The candidate formats, most preferred first.
    pub fn formats(&self) -> (r: &Vec<PixelFormat>)
        ensures
            r@ == self@.formats,
    {
        &self.formats
    }

    pub fn min_size(&self) -> (r: Resolution)
        ensures
            r == self@.min_size,
    {
        self.min_size
    }

    pub fn max_size(&self) -> (r: Resolution)
        ensures
            r == self@.max_size,
    {
        self.max_size
    }

    pub fn preferred_size(&self) -> (r: Resolution)
        ensures
            r == self@.preferred_size,
    {
        self.preferred_size
    }

    pub fn min_rate(&self) -> (r: Framerate)
        ensures
            r == self@.min_rate,
    {
        self.min_rate
    }

    pub fn max_rate(&self) -> (r: Framerate)
        ensures
            r == self@.max_rate,
    {
        self.max_rate
    }

    pub fn preferred_rate(&self) -> (r: Framerate)
        ensures
            r == self@.preferred_rate,
    {
        self.preferred_rate
    }

    /// Whether the offer admits what a source announced.
    pub fn admits(&self, info: &RawVideoInfo) -> (r: bool)
        ensures
            r == self@.admits(*info),
    {
        match info.format {
            None => false,
            Some(format) => {
                format_listed(&self.formats, format) && info.size.is_within(
                    &self.min_size,
                    &self.max_size,
                ) && info.framerate.is_valid() && self.min_rate.is_at_most(&info.framerate)
                    && info.framerate.is_at_most(&self.max_rate)
            },
        }
    }

    /// The format that an announcement settles: the announced one when the
    /// offer admits it, none otherwise.
    pub fn settle(&self, info: &RawVideoInfo) -> (r: Option<NegotiatedFormat>)
        ensures
            r == self@.settle(*info),
    {
        if self.admits(info) {
            match info.format {
                Some(format) => Some(
                    NegotiatedFormat { format, size: info.size, framerate: info.framerate },
                ),
                None => None,
            }
        } else {
            None
        }
    }
}

/// Whatever an offer settles lies inside the offer.
pub proof fn settled_format_is_covered(offer: OfferModel, info: RawVideoInfo)
    ensures
        offer.settle(info) matches Some(chosen) ==> offer.covers(chosen),
{
}

} // verus!
