use crate::error::SoftBufferError;
use crate::pixel::is_rgba_of;
use crate::pixel::rgba_bitmap;
use crate::rect::Rect;
use vstd::prelude::*;

verus! {

/// The abstract state of a pixel surface: the packed pixels in buffer order,
/// whether the current contents have been shown since the last resize, and
/// the dimensions last passed to a successful resize.
#[verifier::ext_equal]
pub ghost struct SurfaceView {
    pub pixels: Seq<u32>,
    pub presented: bool,
    pub width: u32,
    pub height: u32,
}

/// The surface invariant: the buffer always holds exactly one packed pixel
/// per cell of the current `width` by `height` grid.
pub open spec fn view_valid(s: SurfaceView) -> bool {
    s.pixels.len() == s.width * s.height
}

/// The state of a surface that was just bound: an empty buffer, never
/// presented, with zero dimensions until the first resize.
pub open spec fn initial_surface() -> SurfaceView {
    SurfaceView { pixels: Seq::empty(), presented: false, width: 0, height: 0 }
}

/// Whether a resize request is valid: both dimensions strictly positive.
pub open spec fn resize_accepts(width: u32, height: u32) -> bool {
    width > 0 && height > 0
}

/// The state after a successful resize. Resizing to the current dimensions
/// is a no-op; otherwise the buffer is reallocated to `width * height`
/// cells, existing contents are kept in place, newly added cells are
/// zero-filled, and the surface counts as never presented.
pub open spec fn resized(s: SurfaceView, width: u32, height: u32) -> SurfaceView {
    if width == s.width && height == s.height {
        s
    } else {
        SurfaceView {
            pixels: Seq::new(
                (width * height) as nat,
                |i: int| if i < s.pixels.len() { s.pixels[i] } else { 0u32 },
            ),
            presented: false,
            width,
            height,
        }
    }
}

/// The state after a present: only the staleness flag changes; the pixels
/// and dimensions are untouched.
pub open spec fn after_present(s: SurfaceView) -> SurfaceView {
    SurfaceView { presented: true, ..s }
}

/// The state after one pixel write at index `i`.
pub open spec fn with_pixel(s: SurfaceView, i: int, value: u32) -> SurfaceView {
    SurfaceView { pixels: s.pixels.update(i, value), ..s }
}

/// The age a buffer handle reports: 1 once the contents have been presented
/// since the last resize, else 0.
pub open spec fn age_of(s: SurfaceView) -> u8 {
    if s.presented {
        1
    } else {
        0
    }
}

/// The dirty rectangle covering the full surface, used by a plain present.
pub open spec fn full_rect(s: SurfaceView) -> Rect {
    Rect { x: 0, y: 0, width: s.width as i32, height: s.height as i32 }
}

/// The number of buffer cells a `width` by `height` surface needs.
///
/// The product not fitting in the addressable size is an invalid dimension
/// request, a non-recoverable condition: callers must rule it out, and the
/// embedder fails fatally on it before reaching the core.
pub fn total_len(width: u32, height: u32) -> (r: usize)
    requires
        width * height <= usize::MAX,
    ensures
        r == width * height,
{
    (width as usize) * (height as usize)
}

/// Witness that the host window and its document were resolved.
///
/// The document handle itself stays with the embedder, which queries it for
/// drawing-surface elements; the core only records that the platform is
/// usable, so that surfaces can be bound against it.
#[derive(Debug)]
pub struct WebDisplayImpl {}

impl WebDisplayImpl {
    /// Accept or reject the host context resolution: the display exists
    /// exactly when both the window and its document were found, and its
    /// absence is reported as `PlatformUnavailable`.
    pub fn new(window_found: bool, document_found: bool) -> (r: Result<Self, SoftBufferError>)
        ensures
            (window_found && document_found) <==> r is Ok,
            !(window_found && document_found) ==> (r matches Err(e) && e
                == SoftBufferError::PlatformUnavailable),
    {
        if window_found && document_found {
            Ok(WebDisplayImpl {})
        } else {
            Err(SoftBufferError::PlatformUnavailable)
        }
    }
}

/// The outcome of locating the target canvas element and acquiring its 2D
/// drawing context, as observed by the embedder.
pub enum CanvasLookup {
    /// A matching element was found and its 2D context acquired.
    Acquired,
    /// No element matches the requested handle identifier.
    NoMatchingCanvas,
    /// The element's drawing context cannot be acquired because another
    /// rendering mode already controls the element.
    ContextUnavailable,
    /// A context was already created for the element, but it is not the
    /// expected 2D type.
    WrongContextType,
}

/// A pixel surface bound to one drawing-surface element.
///
/// It owns the pixel buffer, the staleness flag and the current dimensions;
/// the canvas and context handles stay with the embedder, which performs the
/// host calls this core decides.
#[derive(Debug)]
pub struct WebImpl {
    /// The pixel buffer: one packed `0RGB` value per pixel.
    buffer: Vec<u32>,
    /// Whether the current buffer contents have been presented since the
    /// last resize.
    buffer_presented: bool,
    /// The current width of the surface.
    width: u32,
    /// The current height of the surface.
    height: u32,
}

impl View for WebImpl {
    type V = SurfaceView;

    closed spec fn view(&self) -> SurfaceView {
        SurfaceView {
            pixels: self.buffer@,
            presented: self.buffer_presented,
            width: self.width,
            height: self.height,
        }
    }
}

impl WebImpl {
    /// Bind a surface to the element the embedder looked up. Success needs
    /// an acquired 2D context; every other lookup outcome maps to its typed
    /// error, and no partially constructed surface is left behind. On
    /// success the buffer starts empty with zero dimensions.
    pub fn new(display: &WebDisplayImpl, lookup: CanvasLookup) -> (r: Result<
        Self,
        SoftBufferError,
    >)
        ensures
            lookup is Acquired <==> r is Ok,
            r matches Ok(s) ==> s@ == initial_surface(),
            lookup is NoMatchingCanvas ==> (r matches Err(e) && e
                == SoftBufferError::TargetNotFound),
            lookup is ContextUnavailable ==> (r matches Err(e) && e
                == SoftBufferError::ContextAlreadyOwned),
            lookup is WrongContextType ==> (r matches Err(e) && e
                == SoftBufferError::UnexpectedContextType),
    {
        match lookup {
            CanvasLookup::Acquired => Ok(
                WebImpl { buffer: Vec::new(), buffer_presented: false, width: 0, height: 0 },
            ),
            CanvasLookup::NoMatchingCanvas => Err(SoftBufferError::TargetNotFound),
            CanvasLookup::ContextUnavailable => Err(SoftBufferError::ContextAlreadyOwned),
            CanvasLookup::WrongContextType => Err(SoftBufferError::UnexpectedContextType),
        }
    }

    /// The width last passed to a successful resize.
    pub fn width(&self) -> (r: u32)
        ensures
            r == self@.width,
    {
        self.width
    }

    /// The height last passed to a successful resize.
    pub fn height(&self) -> (r: u32)
        ensures
            r == self@.height,
    {
        self.height
    }

    /// Resize the surface to the given dimensions. Zero dimensions are
    /// rejected as invalid input; resizing to the current dimensions is a
    /// no-op; otherwise the buffer is reallocated, kept contents in place
    /// and new cells zeroed, and the surface counts as never presented. The
    /// embedder updates the canvas element's intrinsic dimensions to match.
    pub fn resize(&mut self, width: u32, height: u32) -> (r: Result<(), SoftBufferError>)
        requires
            width * height <= usize::MAX,
        ensures
            resize_accepts(width, height) ==> r is Ok && final(self)@ == resized(
                old(self)@,
                width,
                height,
            ),
            !resize_accepts(width, height) ==> (r matches Err(e) && e
                == (SoftBufferError::SizeOutOfRange { width, height }) && final(self)@ == old(
                self,
            )@),
            view_valid(old(self)@) ==> view_valid(final(self)@),
    {
        if width == 0 || height == 0 {
            return Err(SoftBufferError::SizeOutOfRange { width, height });
        }
        if width != self.width || height != self.height {
            self.buffer_presented = false;
            let len = total_len(width, height);
            resize_buffer(&mut self.buffer, len);
            self.width = width;
            self.height = height;
            proof {
                assert(self@.pixels =~= resized(old(self)@, width, height).pixels);
                assert(self@ =~= resized(old(self)@, width, height));
            }
        }
        Ok(())
    }

    /// The damage-aware present algorithm: convert the whole buffer into
    /// RGBA bytes once, pair that image with the caller's dirty rectangles,
    /// and mark the buffer presented — even when `damage` is empty, in which
    /// case the frame paints nothing.
    fn present_with_damage(&mut self, damage: &[Rect]) -> (f: Frame)
        ensures
            is_rgba_of(f.bytes@, old(self)@.pixels),
            f.width == old(self)@.width,
            f.height == old(self)@.height,
            f.paints@ == damage@,
            final(self)@ == after_present(old(self)@),
    {
        let bytes = rgba_bitmap(&self.buffer);
        let paints = copy_rects(damage);
        self.buffer_presented = true;
        Frame { bytes, width: self.width, height: self.height, paints }
    }

    /// Acquire the exclusive buffer handle. The surface moves into the
    /// handle for the handle's whole scope, so no second handle and no
    /// resize can touch the buffer while it is held.
    pub fn buffer_mut(self) -> (b: BufferImpl)
        ensures
            b@ == self@,
    {
        BufferImpl { imp: self }
    }
}

/// One presentation, handed to the embedder to perform: the full RGBA image
/// of the buffer at `width` by `height`, and the dirty rectangles to copy
/// from it onto the visible surface. One shared image serves every
/// rectangle of the frame.
#[derive(Debug)]
pub struct Frame {
    /// The interleaved RGBA bytes of the whole buffer, four per pixel.
    pub bytes: Vec<u8>,
    /// The row width of the image, in pixels.
    pub width: u32,
    /// The height of the image, in pixels.
    pub height: u32,
    /// The dirty rectangles to paint, in call order.
    pub paints: Vec<Rect>,
}

/// Reallocate the pixel buffer to exactly `len` cells, keeping existing
/// contents in place and zero-filling newly added cells.
fn resize_buffer(buffer: &mut Vec<u32>, len: usize)
    ensures
        final(buffer)@.len() == len,
        forall|i: int|
            0 <= i < len ==> final(buffer)@[i] == (if i < old(buffer)@.len() {
                old(buffer)@[i]
            } else {
                0u32
            }),
{
    let ghost orig: Seq<u32> = buffer@;
    while buffer.len() > len
        invariant
            buffer@.len() <= orig.len(),
            len <= buffer@.len() || buffer@.len() == orig.len(),
            forall|i: int| 0 <= i < buffer@.len() ==> buffer@[i] == orig[i],
        decreases buffer@.len(),
    {
        buffer.pop();
    }
    while buffer.len() < len
        invariant
            buffer@.len() <= len,
            orig.len() <= buffer@.len() || len <= buffer@.len(),
            forall|i: int|
                0 <= i < buffer@.len() ==> buffer@[i] == (if i < orig.len() {
                    orig[i]
                } else {
                    0u32
                }),
        decreases len - buffer@.len(),
    {
        buffer.push(0);
    }
}

/// Copy the caller-supplied damage list into the frame, in order.
fn copy_rects(damage: &[Rect]) -> (r: Vec<Rect>)
    ensures
        r@ == damage@,
{
    let mut out: Vec<Rect> = Vec::new();
    let mut i: usize = 0;
    while i < damage.len()
        invariant
            i <= damage@.len(),
            out@ == damage@.subrange(0, i as int),
        decreases damage@.len() - i,
    {
        out.push(damage[i]);
        i += 1;
    }
    proof {
        assert(out@ =~= damage@);
    }
    out
}

/// The exclusive view over a surface's pixel buffer: the caller reads and
/// writes pixels through it and triggers presentation. The surface is held
/// inside the handle for the handle's scope; a present or `into_surface`
/// gives it back, so at most one handle per surface can ever exist.
pub struct BufferImpl {
    imp: WebImpl,
}

impl View for BufferImpl {
    type V = SurfaceView;

    closed spec fn view(&self) -> SurfaceView {
        self.imp@
    }
}

impl BufferImpl {
    /// Read access to the ordered pixel storage.
    pub fn pixels(&self) -> (p: &Vec<u32>)
        ensures
            p@ == self@.pixels,
    {
        &self.imp.buffer
    }

    /// Read-write access to the ordered pixel storage. Writing does not
    /// change the dimensions or the staleness flag, only the pixels.
    pub fn pixels_mut(&mut self) -> (p: &mut Vec<u32>)
        ensures
            p@ == old(self)@.pixels,
            final(self)@ == (SurfaceView { pixels: final(p)@, ..old(self)@ }),
    {
        &mut self.imp.buffer
    }

    /// Whether the current buffer contents have already been shown since
    /// the last resize: 1 if so, else 0. A caller may rely on exactly one
    /// previous frame being retained when the age is 1.
    pub fn age(&self) -> (r: u8)
        ensures
            r == age_of(self@),
    {
        if self.imp.buffer_presented {
            1
        } else {
            0
        }
    }

    /// Present the full surface: one frame whose single dirty rectangle
    /// covers everything. Fails with `SizeOutOfRange` when a dimension does
    /// not fit the signed coordinate type of paint rectangles, leaving the
    /// surface untouched. The handle is consumed either way and the surface
    /// handed back beside the result.
    pub fn present(self) -> (r: (WebImpl, Result<Frame, SoftBufferError>))
        ensures
            self@.width <= i32::MAX && self@.height <= i32::MAX ==> (r.1 matches Ok(f) && {
                &&& is_rgba_of(f.bytes@, self@.pixels)
                &&& f.width == self@.width
                &&& f.height == self@.height
                &&& f.paints@ == seq![full_rect(self@)]
                &&& r.0@ == after_present(self@)
            }),
            !(self@.width <= i32::MAX && self@.height <= i32::MAX) ==> (r.1 matches Err(e) && e
                == (SoftBufferError::SizeOutOfRange { width: self@.width, height: self@.height })
                && r.0@ == self@),
    {
        let mut imp = self.imp;
        if imp.width <= i32::MAX as u32 && imp.height <= i32::MAX as u32 {
            let rect = Rect { x: 0, y: 0, width: imp.width as i32, height: imp.height as i32 };
            let damage: Vec<Rect> = vec![rect];
            let frame = imp.present_with_damage(damage.as_slice());
            proof {
                assert(frame.paints@ =~= seq![full_rect(self@)]);
            }
            (imp, Ok(frame))
        } else {
            let width = imp.width;
            let height = imp.height;
            (imp, Err(SoftBufferError::SizeOutOfRange { width, height }))
        }
    }

    /// Present only the given damage rectangles, all served by one shared
    /// image conversion of the whole buffer. An empty damage list still
    /// marks the buffer presented and paints nothing. The handle is
    /// consumed and the surface handed back beside the frame.
    pub fn present_with_damage(self, damage: &[Rect]) -> (r: (WebImpl, Frame))
        ensures
            is_rgba_of(r.1.bytes@, self@.pixels),
            r.1.width == self@.width,
            r.1.height == self@.height,
            r.1.paints@ == damage@,
            r.0@ == after_present(self@),
    {
        let mut imp = self.imp;
        let frame = imp.present_with_damage(damage);
        (imp, frame)
    }

    /// Discard the handle without presenting: pending pixel writes are
    /// kept, but nothing is shown and the staleness flag is untouched.
    pub fn into_surface(self) -> (s: WebImpl)
        ensures
            s@ == self@,
    {
        self.imp
    }
}

} // verus!
