//! State of the backend: the geometry of the terminal and the framebuffer.

use vstd::prelude::*;

use crate::event_loop::{action_after_resize, Action};
use crate::events::Event;
use crate::frame::{
    drawn_in_place, emission_for, encode_frame, encoder_succeeds, encoder_takes, frame_encoding,
    images_that_fit_are_taken, Emission, Rgb,
};
use crate::geometry::{image_is_whole_bands, Geometry, WindowSize};
use crate::translate::{reaction_to, translate, Reaction};

verus! {

/// A black pixel.
pub open spec fn black() -> Rgb {
    Rgb { r: 0, g: 0, b: 0 }
}

/// The sixel terminal backend.
pub struct SixelBackend {
    geometry: Geometry,
    /// Kept across frames, so that the renderer has to draw only what changed.
    framebuffer: Vec<Rgb>,
}

/// The state of a [`SixelBackend`] as mathematical values.
#[verifier::ext_equal]
pub struct BackendView {
    /// Geometry of the text area.
    pub geometry: Geometry,
    /// The pixels of the image, row by row.
    pub framebuffer: Seq<Rgb>,
}

impl View for SixelBackend {
    type V = BackendView;

    closed spec fn view(&self) -> BackendView {
        BackendView { geometry: self.geometry, framebuffer: self.framebuffer@ }
    }
}

/// `pixels` cut or filled up with black pixels to the length `len`.
pub open spec fn resized(pixels: Seq<Rgb>, len: int) -> Seq<Rgb> {
    Seq::new(
        len as nat,
        |i: int|
            if i < pixels.len() {
                pixels[i]
            } else {
                black()
            },
    )
}

impl BackendView {
    /// The backend before the terminal was asked for its size.
    pub open spec fn initial() -> BackendView {
        BackendView { geometry: Geometry::unsynced(), framebuffer: Seq::empty() }
    }

    /// Whether the framebuffer holds exactly the pixels of the image.
    pub open spec fn wf(self) -> bool {
        self.framebuffer.len() == self.geometry.area()
    }

    /// Whether the backend is already set up for a window of the given size.
    pub open spec fn is_synced(self, size: WindowSize) -> bool {
        self.geometry == Geometry::of(size) && self.framebuffer.len() > 0
    }

    /// The backend set up for a window of the given size.
    pub open spec fn synced(self, size: WindowSize) -> BackendView {
        if self.is_synced(size) {
            self
        } else {
            BackendView {
                geometry: Geometry::of(size),
                framebuffer: resized(self.framebuffer, Geometry::of(size).area()),
            }
        }
    }

    /// The backend with a newly drawn framebuffer.
    pub open spec fn drawn(self, pixels: Seq<Rgb>) -> BackendView {
        BackendView { geometry: self.geometry, framebuffer: pixels }
    }

    /// Whether the image is too large for the encoder to count its bytes.
    pub open spec fn is_too_large(self) -> bool {
        !encoder_takes(self.geometry.width as int, self.geometry.height as int)
    }

    /// Whether the encoder is sure to succeed on the framebuffer, unless it is too large.
    pub open spec fn is_sure_to_show(self) -> bool {
        encoder_succeeds(self.geometry.width, self.geometry.height)
    }

    /// The framebuffer as the encoder encodes it, if it succeeds.
    pub open spec fn image(self) -> Option<Seq<char>> {
        frame_encoding(self.framebuffer, self.geometry.width, self.geometry.height)
    }
}

impl SixelBackend {
    #[verifier::type_invariant]
    spec fn holds_its_image(&self) -> bool {
        self@.wf()
    }

    /// Makes a backend that does not know the size of the terminal yet.
    pub fn new() -> (backend: SixelBackend)
        ensures
            backend@ == BackendView::initial(),
            backend@.geometry == (Geometry {
                cols: 0,
                rows: 0,
                width: 0,
                height: 0,
                full_height: 0,
            }),
            backend@.framebuffer.len() == 0,
    {
        SixelBackend { geometry: Geometry::default(), framebuffer: Vec::new() }
    }

    /// Returns the geometry of the text area.
    pub fn geometry(&self) -> (geometry: Geometry)
        ensures
            geometry == self@.geometry,
    {
        self.geometry
    }

    /// Returns the framebuffer.
    pub fn framebuffer(&self) -> (pixels: &Vec<Rgb>)
        ensures
            pixels@ == self@.framebuffer,
            pixels@.len() == self@.geometry.area(),
    {
        proof {
            use_type_invariant(self);
        }
        &self.framebuffer
    }

    /// Sets the backend up for a window of the given size. Returns `true` when the geometry changed:
    /// the window is then resized to the new image and drawn again on a cleared screen.
    pub fn sync_geometry(&mut self, size: WindowSize) -> (changed: bool)
        requires
            Geometry::of(size).fits_memory(),
        ensures
            final(self)@ == old(self)@.synced(size),
            changed == !old(self)@.is_synced(size),
            changed <==> final(self)@.geometry != old(self)@.geometry,
            changed <==> old(self)@.geometry != Geometry::of(size),
            final(self)@.geometry == Geometry::of(size),
            final(self)@.framebuffer.len() == Geometry::of(size).area(),
            !changed ==> final(self)@ == old(self)@,
            forall|i: int|
                #![trigger final(self)@.framebuffer[i]]
                0 <= i < final(self)@.framebuffer.len() ==> final(self)@.framebuffer[i] == (if i
                    < old(self)@.framebuffer.len() {
                    old(self)@.framebuffer[i]
                } else {
                    Rgb { r: 0, g: 0, b: 0 }
                }),
    {
        proof {
            use_type_invariant(&*self);
            framebuffer_fits_the_image(self@, size);
        }
        let geometry = Geometry::from_window_size(size);
        if geometry == self.geometry && self.framebuffer.len() != 0 {
            return false;
        }
        let mut before = SixelBackend::new();
        core::mem::swap(self, &mut before);
        let mut framebuffer: Vec<Rgb> = before.framebuffer;
        let ghost pixels = framebuffer@;
        let len: usize = geometry.width as usize * geometry.height as usize;
        framebuffer.resize(len, Rgb { r: 0, g: 0, b: 0 });
        assert(framebuffer@ =~= resized(pixels, len as int));
        *self = SixelBackend { geometry, framebuffer };
        true
    }

    /// Takes over what the window has drawn, if it has drawn anything, and decides what is written
    /// to the terminal to show it.
    pub fn emit_frame(&mut self, drawn: Option<Vec<Rgb>>) -> (emission: Emission)
        requires
            drawn matches Some(pixels) ==> pixels@.len() == old(self)@.geometry.area(),
        ensures
            match drawn {
                None => *final(self) == *old(self) && emission is Nothing,
                Some(pixels) => {
                    &&& final(self)@ == old(self)@.drawn(pixels@)
                    &&& match emission {
                        Emission::TooLarge => final(self)@.is_too_large(),
                        Emission::Nothing => {
                            &&& !final(self)@.is_too_large()
                            &&& !final(self)@.is_sure_to_show()
                            &&& final(self)@.image() is None
                        },
                        Emission::Write(output) => {
                            &&& !final(self)@.is_too_large()
                            &&& final(self)@.geometry.width != 0
                            &&& final(self)@.geometry.height != 0
                            &&& final(self)@.image() matches Some(image)
                            &&& output@ == drawn_in_place(image)
                        },
                    }
                },
            },
            drawn matches Some(pixels) ==> {
                let (width, height) = (old(self)@.geometry.width, old(self)@.geometry.height);
                &&& final(self)@.framebuffer == pixels@
                &&& final(self)@.geometry == old(self)@.geometry
                &&& 1 <= width <= 8_388_607 && 1 <= height && width * height <= 700_000_000
                    ==> emission is Write
                &&& emission matches Emission::Write(output) ==> {
                    &&& frame_encoding(pixels@, width, height) matches Some(image)
                    &&& output@ == seq!['\u{1b}', '[', 'H'] + image
                }
            },
    {
        match drawn {
            Some(framebuffer) => {
                *self = SixelBackend { geometry: self.geometry, framebuffer };
                emission_for(encode_frame(&self.framebuffer, &self.geometry))
            },
            None => Emission::Nothing,
        }
    }

    /// Decides what to do about one event of the terminal.
    pub fn handle_event(&self, event: Event) -> (reaction: Reaction)
        ensures
            reaction@ == reaction_to(self@.geometry, event),
    {
        translate(&self.geometry, event)
    }
}

/// Whatever size the terminal reports, the framebuffer then holds exactly the pixels of the image,
/// and at least one.
pub proof fn framebuffer_fits_the_image(backend: BackendView, size: WindowSize)
    requires
        backend.wf(),
    ensures
        backend.synced(size).wf(),
        backend.synced(size).is_synced(size),
{
    image_is_whole_bands(size);
    let g = Geometry::of(size);
    let (w, h) = (g.width as int, g.height as int);
    assert(w * h >= 1) by (nonlinear_arith)
        requires
            w >= 1,
            h >= 1,
    ;
}

/// Asking for the size again without a change of size changes nothing.
pub proof fn syncing_twice_changes_nothing(backend: BackendView, size: WindowSize)
    requires
        backend.wf(),
    ensures
        backend.synced(size).is_synced(size),
        backend.synced(size).synced(size) == backend.synced(size),
{
    framebuffer_fits_the_image(backend, size);
}

/// When the size has been asked for because of a resize, the screen is cleared if and only if the
/// geometry changed.
pub proof fn resizing_clears_the_screen(backend: BackendView, size: WindowSize)
    requires
        backend.wf(),
    ensures
        ({
            let next = action_after_resize(false, !backend.is_synced(size));
            &&& next == Some(Action::ClearScreen) <==> backend.synced(size).geometry
                != backend.geometry
            &&& next is None <==> backend.synced(size) == backend
        }),
{
    framebuffer_fits_the_image(backend, size);
}

/// A change of size keeps the pixels that still have a place in the framebuffer and makes all others
/// black.
pub proof fn resizing_keeps_pixels(backend: BackendView, size: WindowSize, i: int)
    requires
        backend.wf(),
        !backend.is_synced(size),
        0 <= i < Geometry::of(size).area(),
    ensures
        i < backend.framebuffer.len() ==> backend.synced(size).framebuffer[i]
            == backend.framebuffer[i],
        i >= backend.framebuffer.len() ==> backend.synced(size).framebuffer[i] == black(),
{
}

/// Once the backend is set up for the terminal, whatever its size, a drawn frame is sure to be
/// written unless the image is too large for the encoder, and one of up to 700 million pixels is
/// not.
pub proof fn drawn_frames_are_shown(backend: BackendView, size: WindowSize, pixels: Seq<Rgb>)
    requires
        backend.is_synced(size),
    ensures
        backend.drawn(pixels).is_sure_to_show(),
        backend.geometry.area() <= 700_000_000 ==> !backend.drawn(pixels).is_too_large(),
{
    image_is_whole_bands(size);
    if backend.geometry.area() <= 700_000_000 {
        images_that_fit_are_taken(backend.geometry.width as int, backend.geometry.height as int);
    }
}

/// Whatever the backend was set up for, it is then set up for the new size: it has the geometry that
/// the size calls for and as many pixels as the image. The size counts as new if and only if it calls
/// for another geometry.
pub proof fn every_new_size_is_taken_over(backend: BackendView, size: WindowSize)
    requires
        backend.wf(),
    ensures
        backend.synced(size).geometry == Geometry::of(size),
        backend.synced(size).framebuffer.len() == Geometry::of(size).area(),
        backend.is_synced(size) <==> backend.geometry == Geometry::of(size),
        backend.geometry == Geometry::of(size) ==> backend.synced(size) == backend,
{
    framebuffer_fits_the_image(backend, size);
}

/// Only the last size counts: after two changes of size the backend has the geometry that the second
/// one alone gives, and going back to a size brings its geometry back.
pub proof fn only_the_last_size_counts(backend: BackendView, first: WindowSize, second: WindowSize)
    requires
        backend.wf(),
    ensures
        backend.synced(first).synced(second).geometry == backend.synced(second).geometry,
        backend.synced(first).synced(second).synced(first).geometry == backend.synced(
            first,
        ).geometry,
        backend.synced(first).synced(second).framebuffer.len() == backend.synced(
            second,
        ).framebuffer.len(),
{
    framebuffer_fits_the_image(backend, first);
    framebuffer_fits_the_image(backend, second);
    framebuffer_fits_the_image(backend.synced(first), second);
    framebuffer_fits_the_image(backend.synced(first).synced(second), first);
}

/// Pixels beyond those that a change of size keeps are black: all three channels are 0.
pub proof fn new_pixels_are_black(backend: BackendView, size: WindowSize, i: int)
    requires
        backend.wf(),
        0 <= i < Geometry::of(size).area(),
    ensures
        backend.synced(size).framebuffer[i] == (if i < backend.framebuffer.len() {
            backend.framebuffer[i]
        } else {
            Rgb { r: 0, g: 0, b: 0 }
        }),
{
    every_new_size_is_taken_over(backend, size);
}

/// What is drawn is what is shown: drawing replaces all pixels and keeps the geometry, and the image
/// is that of exactly these pixels in exactly this size.
pub proof fn the_drawn_pixels_are_shown(backend: BackendView, pixels: Seq<Rgb>)
    ensures
        backend.drawn(pixels).framebuffer == pixels,
        backend.drawn(pixels).geometry == backend.geometry,
        backend.drawn(pixels).image() == frame_encoding(
            pixels,
            backend.geometry.width,
            backend.geometry.height,
        ),
        backend.drawn(pixels).is_too_large() <==> !encoder_takes(
            backend.geometry.width as int,
            backend.geometry.height as int,
        ),
        backend.drawn(pixels).is_sure_to_show() <==> 1 <= backend.geometry.width <= 8_388_607 && 1
            <= backend.geometry.height,
{
}

} // verus!
