//! 2D textures: decoding their image, uploading it, sampling and binding.

use vstd::prelude::*;
use crate::driver::{BindTarget, DriverCall, UniformValue};
use crate::handle::{bind_calls, bound, fresh, release_calls, unbind_calls, unbound, GpuObject};
use crate::shader::Shader;
use crate::uniform::Uniform;

verus! {

/// Channel layout of the pixels handed to a texture.
#[derive(Clone, Copy, Debug, PartialEq, Eq, Structural)]
pub enum TextureType {
    RGB,
    RGBA,
}

/// Texture filtering.
#[derive(Clone, Copy, Debug, PartialEq, Eq, Structural)]
pub enum InterpolationType {
    LINEAR,
    NEAREST,
}

/// Texture coordinate wrapping.
#[derive(Clone, Copy, Debug, PartialEq, Eq, Structural)]
pub enum MapType {
    REPEAT,
    MIRRORED,
}

/// One sampling parameter of a 2D texture, with its value.
#[derive(Clone, Copy, Debug, PartialEq, Eq, Structural)]
pub enum SamplerParam {
    MinFilter(InterpolationType),
    MagFilter(InterpolationType),
    WrapS(MapType),
    WrapT(MapType),
}

/// What decoding the PNG file `bytes` gives: the first frame's pixel rows,
/// its width and its height; `None` where the bytes are not a PNG that
/// decodes.
pub uninterp spec fn png_frame(bytes: Seq<u8>) -> Option<(Seq<u8>, u32, u32)>;

#[verifier::external_type_specification]
#[verifier::external_body]
pub struct ExDecodingError(png::DecodingError);

/// Relies on png's `Decoder::read_info` and `Reader::next_frame`: they read
/// nothing but `bytes`, so whether decoding succeeds, and the first frame's
/// pixels and size, depend on the bytes alone.
#[verifier::external_body]
fn decode_png(bytes: &[u8]) -> (r: Result<(Vec<u8>, u32, u32), png::DecodingError>)
    ensures
        r is Ok <==> png_frame(bytes@) is Some,
        r is Ok ==> png_frame(bytes@) == Some((r->Ok_0.0@, r->Ok_0.1, r->Ok_0.2)),
{
    let mut reader = png::Decoder::new(bytes).read_info()?;
    let mut buf = vec![0; reader.output_buffer_size()];
    let info = reader.next_frame(&mut buf)?;
    buf.truncate(info.buffer_size());
    Ok((buf, info.width, info.height))
}

/// A decoded image: rows of pixels, top row first.
#[derive(Debug, PartialEq, Eq)]
pub struct Image {
    pub pixels: Vec<u8>,
    pub width: u32,
    pub height: u32,
}

/// Bytes per pixel of a channel layout.
pub open spec fn channels(ty: TextureType) -> nat {
    match ty {
        TextureType::RGB => 3,
        TextureType::RGBA => 4,
    }
}

impl Image {
    /// Whether the pixels hold a whole `width` by `height` image of `ty` pixels.
    pub fn fits(&self, ty: TextureType) -> (r: bool)
        ensures
            r == (self.pixels@.len() >= self.width * self.height * channels(ty)),
    {
        let per_pixel: u128 = match ty {
            TextureType::RGB => 3,
            TextureType::RGBA => 4,
        };
        let w = self.width as u128;
        let h = self.height as u128;
        assert(w * h <= 0xffff_ffff_ffff_ffff) by (nonlinear_arith)
            requires
                w <= 0xffff_ffff,
                h <= 0xffff_ffff,
        ;
        let area = w * h;
        assert(area * per_pixel <= 4 * 0xffff_ffff_ffff_ffff) by (nonlinear_arith)
            requires
                area <= 0xffff_ffff_ffff_ffff,
                per_pixel <= 4,
        ;
        self.pixels.len() as u128 >= area * per_pixel
    }
}

/// Why no image could be had from a file.
#[derive(Clone, Copy, Debug, PartialEq, Eq, Structural)]
pub enum ImageError {
    /// The file could not be read.
    Unreadable,
    /// The file is not a PNG image that decodes.
    Malformed,
}

/// Decodes the PNG file held in `bytes`.
pub fn decode_image(bytes: &[u8]) -> (r: Result<Image, ImageError>)
    ensures
        match png_frame(bytes@) {
            Some((pixels, width, height)) => {
                &&& r is Ok
                &&& r->Ok_0.pixels@ == pixels
                &&& r->Ok_0.width == width
                &&& r->Ok_0.height == height
            },
            None => r == Err::<Image, ImageError>(ImageError::Malformed),
        },
{
    match decode_png(bytes) {
        Ok((pixels, width, height)) => Ok(Image { pixels, width, height }),
        Err(_) => Err(ImageError::Malformed),
    }
}

/// A 2D texture and the texture unit it was created for.
pub struct Texture {
    obj: GpuObject,
    unit: i32,
}

impl View for Texture {
    type V = (GpuObject, i32);

    closed spec fn view(&self) -> (GpuObject, i32) {
        (self.obj, self.unit)
    }
}

/// What binding a texture issues: unit 0 is selected and the texture bound
/// there, whatever unit it was created for; nothing if it is bound already.
pub open spec fn texture_bind_calls(o: GpuObject) -> Seq<DriverCall> {
    if o.bound {
        seq![]
    } else {
        seq![DriverCall::ActiveTexture { unit: 0 }, DriverCall::Bind { target: BindTarget::Texture2D, id: o.id }]
    }
}

/// What setting the four sampling parameters issues: bind, set, unbind.
pub open spec fn settings_calls(
    o: GpuObject,
    min: InterpolationType,
    mag: InterpolationType,
    wrap_s: MapType,
    wrap_t: MapType,
) -> Seq<DriverCall> {
    texture_bind_calls(o) + seq![
        DriverCall::TexParameter { param: SamplerParam::MinFilter(min) },
        DriverCall::TexParameter { param: SamplerParam::MagFilter(mag) },
        DriverCall::TexParameter { param: SamplerParam::WrapS(wrap_s) },
        DriverCall::TexParameter { param: SamplerParam::WrapT(wrap_t) },
    ] + unbind_calls(bound(o), BindTarget::Texture2D)
}

/// What creating texture `id` from `image` on `unit` issues: the image is
/// uploaded through `unit` with its mipmaps, nearest filtering and repeat
/// wrapping are set, and the texture is left bound.
pub open spec fn create_calls(id: u32, image: Image, unit: i32, ty: TextureType) -> Seq<DriverCall> {
    seq![
        DriverCall::ActiveTexture { unit },
        DriverCall::Bind { target: BindTarget::Texture2D, id },
        DriverCall::TexImage {
            width: image.width,
            height: image.height,
            format: ty,
            pixels: image.pixels,
        },
        DriverCall::GenerateMipmap,
    ] + settings_calls(
        fresh(id),
        InterpolationType::NEAREST,
        InterpolationType::NEAREST,
        MapType::REPEAT,
        MapType::REPEAT,
    ) + texture_bind_calls(fresh(id))
}

impl Texture {
    /// Fills the texture name `id`, which the driver has generated, with
    /// `image`, read as `ty` pixels, on texture unit `unit`.
    pub fn new(id: u32, image: Image, unit: i32, ty: TextureType, calls: &mut Vec<DriverCall>) -> (r: Texture)
        ensures
            r@ == (bound(fresh(id)), unit),
            final(calls)@ == old(calls)@ + create_calls(id, image, unit, ty),
    {
        let ghost img = image;
        Self::generate(id, image, unit, ty, calls);
        let mut instance = Texture { obj: GpuObject::new(id), unit };
        instance.settings(
            InterpolationType::NEAREST,
            InterpolationType::NEAREST,
            MapType::REPEAT,
            MapType::REPEAT,
            calls,
        );
        instance.bind(calls);
        proof {
            assert(final(calls)@ =~= old(calls)@ + create_calls(id, img, unit, ty));
        }
        instance
    }

    fn generate(id: u32, image: Image, unit: i32, ty: TextureType, calls: &mut Vec<DriverCall>)
        ensures
            final(calls)@ == old(calls)@ + seq![
                DriverCall::ActiveTexture { unit },
                DriverCall::Bind { target: BindTarget::Texture2D, id },
                DriverCall::TexImage {
                    width: image.width,
                    height: image.height,
                    format: ty,
                    pixels: image.pixels,
                },
                DriverCall::GenerateMipmap,
            ],
    {
        calls.push(DriverCall::ActiveTexture { unit });
        calls.push(DriverCall::Bind { target: BindTarget::Texture2D, id });
        let Image { pixels, width, height } = image;
        calls.push(DriverCall::TexImage { width, height, format: ty, pixels });
        calls.push(DriverCall::GenerateMipmap);
    }

    /// Points the sampler variable `sampler` of `shader` at this texture's unit.
    pub fn link(&self, sampler: &Uniform, shader: &mut Shader, calls: &mut Vec<DriverCall>)
        ensures
            final(shader)@ == unbound(old(shader)@),
            final(calls)@ == old(calls)@ + bind_calls(old(shader)@, BindTarget::Program)
                + seq![DriverCall::SetUniform { location: sampler@, value: UniformValue::Int(self@.1) }]
                + unbind_calls(bound(old(shader)@), BindTarget::Program),
    {
        shader.bind(calls);
        sampler.seti(self.unit, shader, calls);
        shader.unbind(calls);
    }

    /// Binds the texture, sets its filters and wrapping, and unbinds it.
    pub fn settings(
        &mut self,
        min: InterpolationType,
        mag: InterpolationType,
        wrap_s: MapType,
        wrap_t: MapType,
        calls: &mut Vec<DriverCall>,
    )
        ensures
            final(self)@ == (unbound(old(self)@.0), old(self)@.1),
            final(calls)@ == old(calls)@ + settings_calls(old(self)@.0, min, mag, wrap_s, wrap_t),
    {
        self.bind(calls);
        calls.push(DriverCall::TexParameter { param: SamplerParam::MinFilter(min) });
        calls.push(DriverCall::TexParameter { param: SamplerParam::MagFilter(mag) });
        calls.push(DriverCall::TexParameter { param: SamplerParam::WrapS(wrap_s) });
        calls.push(DriverCall::TexParameter { param: SamplerParam::WrapT(wrap_t) });
        self.unbind(calls);
    }

    /// Binds the texture on unit 0 unless it is bound already.
    pub fn bind(&mut self, calls: &mut Vec<DriverCall>)
        ensures
            final(self)@ == (bound(old(self)@.0), old(self)@.1),
            final(calls)@ == old(calls)@ + texture_bind_calls(old(self)@.0),
    {
        if !self.obj.bound {
            calls.push(DriverCall::ActiveTexture { unit: 0 });
            calls.push(DriverCall::Bind { target: BindTarget::Texture2D, id: self.obj.id });
            self.obj.bound = true;
        }
    }

    /// Unbinds the texture if it is bound.
    pub fn unbind(&mut self, calls: &mut Vec<DriverCall>)
        ensures
            final(self)@ == (unbound(old(self)@.0), old(self)@.1),
            final(calls)@ == old(calls)@ + unbind_calls(old(self)@.0, BindTarget::Texture2D),
    {
        self.obj.unbind(BindTarget::Texture2D, calls);
    }

    /// The texture unit this texture was created for.
    pub fn unit(&self) -> (r: i32)
        ensures
            r == self@.1,
    {
        self.unit
    }

    /// Unbinds the texture if it is bound, then deletes it.
    pub fn release(self, calls: &mut Vec<DriverCall>)
        ensures
            final(calls)@ == old(calls)@ + release_calls(self@.0, BindTarget::Texture2D),
    {
        self.obj.release(BindTarget::Texture2D, calls);
    }
}

/// Binding a texture twice in a row issues its calls once.
pub proof fn texture_bind_twice_binds_once(o: GpuObject)
    ensures
        texture_bind_calls(o) + texture_bind_calls(bound(o)) == texture_bind_calls(o),
        texture_bind_calls(bound(o)) == Seq::<DriverCall>::empty(),
{
    assert(texture_bind_calls(o) + texture_bind_calls(bound(o)) =~= texture_bind_calls(o));
}

} // verus!
