//! A two-dimensional RGB texture object.

use crate::gl::Gl;
use crate::gl::GlCall;
use crate::gl::LINEAR;
use crate::gl::RGB;
use crate::gl::RGB8;
use crate::gl::TEXTURE_2D;
use crate::gl::TEXTURE_MAG_FILTER;
use crate::gl::TEXTURE_MIN_FILTER;
use crate::gl::UNSIGNED_BYTE;
use crate::resources::found;
use crate::resources::image_of;
use crate::resources::Error;
use crate::resources::Resources;
use vstd::prelude::*;

verus! {

/// The call that gives the bound texture its storage: RGB, one byte a channel,
/// `width` by `height`, both reinterpreted as signed as the driver takes them.
pub open spec fn tex_image_call(width: u32, height: u32, pixels: Option<usize>) -> GlCall {
    GlCall::TexImage2D {
        target: TEXTURE_2D,
        level: 0,
        internal_format: RGB8 as i32,
        width: width as i32,
        height: height as i32,
        border: 0,
        format: RGB,
        pixel_type: UNSIGNED_BYTE,
        pixels,
    }
}

/// Builds `tex_image_call`.
pub fn tex_image(width: u32, height: u32, pixels: Option<usize>) -> (call: GlCall)
    ensures
        call == tex_image_call(width, height, pixels),
{
    GlCall::TexImage2D {
        target: TEXTURE_2D,
        level: 0,
        internal_format: RGB8 as i32,
        width: #[verifier::truncate]
        (width as i32),
        height: #[verifier::truncate]
        (height as i32),
        border: 0,
        format: RGB,
        pixel_type: UNSIGNED_BYTE,
        pixels,
    }
}

/// A texture object of the driver, with the size it was last given.
pub struct Texture {
    id: u32,
    width: u32,
    height: u32,
}

impl Texture {
    /// The object's name.
    pub closed spec fn name(&self) -> u32 {
        self.id
    }

    /// Width and height, as last set.
    pub closed spec fn size(&self) -> (u32, u32) {
        (self.width, self.height)
    }

    /// The calls that make an unfilled texture named `name`: create, bind,
    /// allocate, set both filters to linear, unbind.
    pub open spec fn empty_calls(name: u32, width: u32, height: u32) -> Seq<GlCall> {
        seq![
            GlCall::GenTexture { name },
            GlCall::BindTexture { target: TEXTURE_2D, name },
            tex_image_call(width, height, None),
            GlCall::TexParameteri {
                target: TEXTURE_2D,
                pname: TEXTURE_MIN_FILTER,
                param: LINEAR as i32,
            },
            GlCall::TexParameteri {
                target: TEXTURE_2D,
                pname: TEXTURE_MAG_FILTER,
                param: LINEAR as i32,
            },
            GlCall::BindTexture { target: TEXTURE_2D, name: 0 },
        ]
    }

    /// The calls that give the texture a new, unfilled storage.
    pub open spec fn resize_calls(name: u32, width: u32, height: u32) -> Seq<GlCall> {
        seq![
            GlCall::BindTexture { target: TEXTURE_2D, name },
            tex_image_call(width, height, None),
            GlCall::BindTexture { target: TEXTURE_2D, name },
        ]
    }

    /// The calls that make a texture named `name` out of the pixels staged at
    /// `blob`: create, bind, upload, build the mipmaps, unbind.
    pub open spec fn upload_calls(name: u32, width: u32, height: u32, blob: usize) -> Seq<GlCall> {
        seq![
            GlCall::GenTexture { name },
            GlCall::BindTexture { target: TEXTURE_2D, name },
            tex_image_call(width, height, Some(blob)),
            GlCall::GenerateMipmap { target: TEXTURE_2D },
            GlCall::BindTexture { target: TEXTURE_2D, name: 0 },
        ]
    }

    /// Creates a texture of the given size without contents.
    pub fn empty(gl: &mut Gl, width: u32, height: u32) -> (texture: Texture)
        requires
            old(gl).has_names(1),
        ensures
            texture.name() == old(gl).next_name(),
            texture.size() == (width, height),
            final(gl).issued() == old(gl).issued() + Self::empty_calls(
                texture.name(),
                width,
                height,
            ),
            final(gl).staged() == old(gl).staged(),
            final(gl).next_name() == old(gl).next_name() + 1,
    {
        let id = gl.fresh_name();
        gl.issue(GlCall::GenTexture { name: id });
        gl.issue(GlCall::BindTexture { target: TEXTURE_2D, name: id });
        gl.issue(tex_image(width, height, None));
        gl.issue(
            GlCall::TexParameteri {
                target: TEXTURE_2D,
                pname: TEXTURE_MIN_FILTER,
                param: LINEAR as i32,
            },
        );
        gl.issue(
            GlCall::TexParameteri {
                target: TEXTURE_2D,
                pname: TEXTURE_MAG_FILTER,
                param: LINEAR as i32,
            },
        );
        gl.issue(GlCall::BindTexture { target: TEXTURE_2D, name: 0 });
        assert(gl.issued() =~= old(gl).issued() + Self::empty_calls(id, width, height));
        Texture { id, width, height }
    }

    /// Creates a texture from pixels: `pixels` holds the rows of a `width` by
    /// `height` RGB image, three bytes a pixel.
    pub fn from_pixels(gl: &mut Gl, width: u32, height: u32, pixels: Vec<u8>) -> (texture: Texture)
        requires
            old(gl).has_names(1),
        ensures
            texture.name() == old(gl).next_name(),
            texture.size() == (width, height),
            final(gl).staged() == old(gl).staged().push(pixels@),
            final(gl).issued() == old(gl).issued() + Self::upload_calls(
                texture.name(),
                width,
                height,
                old(gl).next_blob(),
            ),
            final(gl).next_name() == old(gl).next_name() + 1,
    {
        let id = gl.fresh_name();
        gl.issue(GlCall::GenTexture { name: id });
        let texture = Texture { id, width, height };
        texture.bind(gl);
        let blob = gl.stage(pixels);
        gl.issue(tex_image(width, height, Some(blob)));
        gl.issue(GlCall::GenerateMipmap { target: TEXTURE_2D });
        texture.unbind(gl);
        assert(gl.issued() =~= old(gl).issued() + Self::upload_calls(id, width, height, blob));
        texture
    }

    /// Creates a texture from the image asset `name`. The asset is loaded
    /// first: where that fails, its error is returned and nothing is created,
    /// issued or staged.
    pub fn from_resource(gl: &mut Gl, res: &Resources, name: &str) -> (texture: Result<
        Texture,
        Error,
    >)
        requires
            old(gl).has_names(1),
        ensures
            match image_of(found(res@, name@)) {
                Ok((width, height, pixels)) => {
                    &&& texture matches Ok(texture)
                    &&& texture.name() == old(gl).next_name()
                    &&& texture.size() == (width, height)
                    &&& final(gl).staged() == old(gl).staged().push(pixels)
                    &&& final(gl).issued() == old(gl).issued() + Self::upload_calls(
                        texture.name(),
                        width,
                        height,
                        old(gl).next_blob(),
                    )
                    &&& final(gl).next_name() == old(gl).next_name() + 1
                },
                Err(error) => {
                    &&& texture matches Err(e)
                    &&& e == error
                    &&& final(gl).issued() == old(gl).issued()
                    &&& final(gl).staged() == old(gl).staged()
                    &&& final(gl).next_name() == old(gl).next_name()
                },
            },
    {
        match res.load_rgb_image(name) {
            Ok(image) => Ok(Self::from_pixels(gl, image.width, image.height, image.pixels)),
            Err(error) => Err(error),
        }
    }

    /// Makes the texture the current one.
    pub fn bind(&self, gl: &mut Gl)
        ensures
            final(gl).issued() == old(gl).issued().push(
                GlCall::BindTexture { target: TEXTURE_2D, name: self.name() },
            ),
            final(gl).staged() == old(gl).staged(),
            final(gl).next_name() == old(gl).next_name(),
    {
        gl.issue(GlCall::BindTexture { target: TEXTURE_2D, name: self.id });
    }

    /// Leaves no texture current.
    pub fn unbind(&self, gl: &mut Gl)
        ensures
            final(gl).issued() == old(gl).issued().push(
                GlCall::BindTexture { target: TEXTURE_2D, name: 0 },
            ),
            final(gl).staged() == old(gl).staged(),
            final(gl).next_name() == old(gl).next_name(),
    {
        gl.issue(GlCall::BindTexture { target: TEXTURE_2D, name: 0 });
    }

    /// Gives the texture a new size; its contents are left for the next render
    /// to fill. No object is created or released.
    pub fn resize(&mut self, gl: &mut Gl, width: u32, height: u32)
        ensures
            final(self).name() == old(self).name(),
            final(self).size() == (width, height),
            final(gl).issued() == old(gl).issued() + Self::resize_calls(
                old(self).name(),
                width,
                height,
            ),
            final(gl).staged() == old(gl).staged(),
            final(gl).next_name() == old(gl).next_name(),
    {
        self.bind(gl);
        gl.issue(tex_image(width, height, None));
        self.bind(gl);
        self.width = width;
        self.height = height;
        assert(gl.issued() =~= old(gl).issued() + Self::resize_calls(self.id, width, height));
    }

    /// The object's name.
    pub fn get_id(&self) -> (id: u32)
        ensures
            id == self.name(),
    {
        self.id
    }

    /// Width and height, as last set.
    pub fn get_size(&self) -> (size: (u32, u32))
        ensures
            size == self.size(),
    {
        (self.width, self.height)
    }

    /// Releases the object.
    pub fn delete(self, gl: &mut Gl)
        ensures
            final(gl).issued() == old(gl).issued().push(GlCall::DeleteTexture { name: self.name() }),
            final(gl).staged() == old(gl).staged(),
            final(gl).next_name() == old(gl).next_name(),
    {
        gl.issue(GlCall::DeleteTexture { name: self.id });
    }
}

} // verus!
