//! A renderer that draws nothing: it keeps the viewport dimensions it is
//! given, hands out placeholder handles and refuses 3D contexts.
use vstd::prelude::*;

verus! {

/// The size of the viewport in pixels, and its scale factor (held as the bit
/// pattern of a 64-bit float, which this library only stores).
#[derive(Clone, Copy, Debug, PartialEq, Eq, Structural)]
pub struct ViewportDimensions {
    pub width: u32,
    pub height: u32,
    pub scale_factor_bits: u64,
}

/// The handle of a registered shape.
#[derive(Clone, Copy, Debug, PartialEq, Eq, Structural)]
pub struct ShapeHandle(pub usize);

/// The size of a bitmap in pixels.
#[derive(Clone, Copy, Debug, PartialEq, Eq, Structural)]
pub struct BitmapSize {
    pub width: u16,
    pub height: u16,
}

/// The one bitmap handle that the null renderer hands out.
#[derive(Clone, Copy, Debug, PartialEq, Eq, Structural)]
pub struct NullBitmapHandle;

/// Errors of a renderer.
#[derive(Clone, Debug, PartialEq, Eq)]
pub enum RenderError {
    /// The renderer does not implement the named operation.
    Unimplemented(String),
}

/// A source of bitmaps that has none.
#[derive(Clone, Copy, Debug, PartialEq, Eq, Structural)]
pub struct NullBitmapSource;

impl NullBitmapSource {
    pub fn bitmap_size(&self, _id: u16) -> (r: Option<BitmapSize>)
        ensures
            r is None,
    {
        None
    }

    pub fn bitmap_handle(&self, _id: u16) -> (r: Option<NullBitmapHandle>)
        ensures
            r is None,
    {
        None
    }
}

/// A renderer that draws nothing.
#[derive(Clone, Copy, Debug, PartialEq, Eq, Structural)]
pub struct NullRenderer {
    dimensions: ViewportDimensions,
}

impl NullRenderer {
    pub closed spec fn spec_dimensions(&self) -> ViewportDimensions {
        self.dimensions
    }

    pub fn new(dimensions: ViewportDimensions) -> (r: NullRenderer)
        ensures
            r.spec_dimensions() == dimensions,
    {
        NullRenderer { dimensions }
    }

    pub fn viewport_dimensions(&self) -> (d: ViewportDimensions)
        ensures
            d == self.spec_dimensions(),
    {
        self.dimensions
    }

    pub fn set_viewport_dimensions(&mut self, dimensions: ViewportDimensions)
        ensures
            final(self).spec_dimensions() == dimensions,
    {
        self.dimensions = dimensions;
    }

    /// Registers the fills of a shape: the handle is always 0.
    pub fn register_shape_fills<S>(&mut self, _shape: &S, _id: u16) -> (h: ShapeHandle)
        ensures
            h == ShapeHandle(0),
            *final(self) == *old(self),
    {
        ShapeHandle(0)
    }

    /// Replaces the fills of a shape: nothing changes.
    pub fn replace_shape_fills<S>(&mut self, _shape: &S, _id: u16, _handle: ShapeHandle)
        ensures
            *final(self) == *old(self),
    {
    }

    /// Registers the strokes of a shape: the handle is always 0.
    pub fn register_shape_strokes<S, M>(&mut self, _shape: &S, _id: u16, _matrix: M) -> (h:
        ShapeHandle)
        ensures
            h == ShapeHandle(0),
            *final(self) == *old(self),
    {
        ShapeHandle(0)
    }

    /// Replaces the strokes of a shape: nothing changes.
    pub fn replace_shape_strokes<S, M>(
        &mut self,
        _shape: &S,
        _id: u16,
        _matrix: M,
        _handle: ShapeHandle,
    )
        ensures
            *final(self) == *old(self),
    {
    }

    /// Registers the shape of a glyph: the handle is always 0.
    pub fn register_glyph_shape<G>(&mut self, _shape: &G) -> (h: ShapeHandle)
        ensures
            h == ShapeHandle(0),
            *final(self) == *old(self),
    {
        ShapeHandle(0)
    }

    /// Renders into a bitmap: there is never anything to wait for.
    pub fn render_offscreen<C>(
        &mut self,
        _handle: NullBitmapHandle,
        _width: u32,
        _height: u32,
        _commands: C,
    ) -> (r: Option<NullBitmapHandle>)
        ensures
            r is None,
            *final(self) == *old(self),
    {
        None
    }

    /// Submits a frame: nothing is drawn.
    pub fn submit_frame<C>(&mut self, _commands: C)
        ensures
            *final(self) == *old(self),
    {
    }

    /// Registers a bitmap: every bitmap gets the null handle.
    pub fn register_bitmap<B>(&mut self, _bitmap: B) -> (r: Result<NullBitmapHandle, RenderError>)
        ensures
            r == Ok::<NullBitmapHandle, RenderError>(NullBitmapHandle),
            *final(self) == *old(self),
    {
        Ok(NullBitmapHandle)
    }

    /// Updates the pixels of a bitmap: accepted and ignored.
    pub fn update_texture(
        &mut self,
        _bitmap: &NullBitmapHandle,
        _width: u32,
        _height: u32,
        _rgba: Vec<u8>,
    ) -> (r: Result<(), RenderError>)
        ensures
            r == Ok::<(), RenderError>(()),
            *final(self) == *old(self),
    {
        Ok(())
    }

    /// 3D contexts are not implemented.
    pub fn create_context3d(&mut self) -> (r: Result<(), RenderError>)
        ensures
            r matches Err(RenderError::Unimplemented(m)) && m@ == "createContext3D"@,
            *final(self) == *old(self),
    {
        Err(RenderError::Unimplemented(String::from_str("createContext3D")))
    }

    /// Presenting a 3D context is not implemented.
    pub fn context3d_present<C>(&mut self, _commands: C) -> (r: Result<(), RenderError>)
        ensures
            r matches Err(RenderError::Unimplemented(m)) && m@ == "Context3D.present"@,
            *final(self) == *old(self),
    {
        Err(RenderError::Unimplemented(String::from_str("Context3D.present")))
    }

    pub fn debug_info(&self) -> (r: &'static str)
        ensures
            r@ == "Renderer: Null"@,
    {
        "Renderer: Null"
    }

    /// Sets the rendering quality: the null renderer has none to change.
    pub fn set_quality<Q>(&mut self, _quality: Q)
        ensures
            *final(self) == *old(self),
    {
    }
}

} // verus!
