//! Buffer objects, vertex arrays and the off-screen framebuffer.

use crate::gl::creations;
use crate::gl::deletions;
use crate::gl::lemma_counts_add;
use crate::gl::Gl;
use crate::gl::GlCall;
use crate::gl::ARRAY_BUFFER;
use crate::gl::COLOR_ATTACHMENT0;
use crate::gl::ELEMENT_ARRAY_BUFFER;
use crate::gl::FRAMEBUFFER;
use crate::gl::FRAMEBUFFER_COMPLETE;
use crate::gl::STATIC_DRAW;
use crate::gl::TEXTURE_2D;
use crate::texture::Texture;
use std::marker::PhantomData;
use vstd::prelude::*;

verus! {

/// The binding point that a kind of buffer goes to.
pub trait BufferType {
    /// The binding point.
    spec fn target() -> u32;

    /// Computes `target`.
    fn buffer_type() -> (target: u32)
        ensures
            target == Self::target(),
    ;
}

/// Buffers of vertex attributes.
pub struct ArrayBufferType;

impl BufferType for ArrayBufferType {
    open spec fn target() -> u32 {
        ARRAY_BUFFER
    }

    fn buffer_type() -> (target: u32) {
        ARRAY_BUFFER
    }
}

/// Buffers of vertex indices.
pub struct ElementArrayBufferType;

impl BufferType for ElementArrayBufferType {
    open spec fn target() -> u32 {
        ELEMENT_ARRAY_BUFFER
    }

    fn buffer_type() -> (target: u32) {
        ELEMENT_ARRAY_BUFFER
    }
}

/// A buffer object of the driver, bound to the point that `B` names.
pub struct VertexBuffer<B> where B: BufferType {
    id: u32,
    _marker: PhantomData<B>,
}

pub type ElementArrayBuffer = VertexBuffer<ElementArrayBufferType>;

pub type ArrayBuffer = VertexBuffer<ArrayBufferType>;

impl<B> VertexBuffer<B> where B: BufferType {
    /// The object's name.
    pub closed spec fn name(&self) -> u32 {
        self.id
    }

    /// Creates a buffer object.
    pub fn new(gl: &mut Gl) -> (buffer: Self)
        requires
            old(gl).has_names(1),
        ensures
            buffer.name() == old(gl).next_name(),
            final(gl).issued() == old(gl).issued().push(GlCall::GenBuffer { name: buffer.name() }),
            final(gl).staged() == old(gl).staged(),
            final(gl).next_name() == old(gl).next_name() + 1,
    {
        let id = gl.fresh_name();
        gl.issue(GlCall::GenBuffer { name: id });
        VertexBuffer { id, _marker: PhantomData }
    }

    /// Binds the buffer to its point.
    pub fn bind(&self, gl: &mut Gl)
        ensures
            final(gl).issued() == old(gl).issued().push(
                GlCall::BindBuffer { target: B::target(), name: self.name() },
            ),
            final(gl).staged() == old(gl).staged(),
            final(gl).next_name() == old(gl).next_name(),
    {
        gl.issue(GlCall::BindBuffer { target: B::buffer_type(), name: self.id });
    }

    /// Leaves no buffer bound to the point.
    pub fn unbind(&self, gl: &mut Gl)
        ensures
            final(gl).issued() == old(gl).issued().push(
                GlCall::BindBuffer { target: B::target(), name: 0 },
            ),
            final(gl).staged() == old(gl).staged(),
            final(gl).next_name() == old(gl).next_name(),
    {
        gl.issue(GlCall::BindBuffer { target: B::buffer_type(), name: 0 });
    }

    /// Submits `data` for static draw to the buffer bound to the point.
    pub fn buffer_static_draw(&self, gl: &mut Gl, data: Vec<u8>)
        ensures
            final(gl).staged() == old(gl).staged().push(data@),
            final(gl).issued() == old(gl).issued().push(
                GlCall::BufferData {
                    target: B::target(),
                    blob: old(gl).next_blob(),
                    usage: STATIC_DRAW,
                },
            ),
            final(gl).next_name() == old(gl).next_name(),
    {
        let blob = gl.stage(data);
        gl.issue(GlCall::BufferData { target: B::buffer_type(), blob, usage: STATIC_DRAW });
    }

    /// Releases the object.
    pub fn delete(self, gl: &mut Gl)
        ensures
            final(gl).issued() == old(gl).issued().push(GlCall::DeleteBuffer { name: self.name() }),
            final(gl).staged() == old(gl).staged(),
            final(gl).next_name() == old(gl).next_name(),
    {
        gl.issue(GlCall::DeleteBuffer { name: self.id });
    }
}

/// A vertex array object of the driver.
pub struct VertexArray {
    vao: u32,
}

impl VertexArray {
    /// The object's name.
    pub closed spec fn name(&self) -> u32 {
        self.vao
    }

    /// Creates a vertex array object.
    pub fn new(gl: &mut Gl) -> (array: VertexArray)
        requires
            old(gl).has_names(1),
        ensures
            array.name() == old(gl).next_name(),
            final(gl).issued() == old(gl).issued().push(
                GlCall::GenVertexArray { name: array.name() },
            ),
            final(gl).staged() == old(gl).staged(),
            final(gl).next_name() == old(gl).next_name() + 1,
    {
        let vao = gl.fresh_name();
        gl.issue(GlCall::GenVertexArray { name: vao });
        VertexArray { vao }
    }

    /// Makes the vertex array the current one.
    pub fn bind(&self, gl: &mut Gl)
        ensures
            final(gl).issued() == old(gl).issued().push(
                GlCall::BindVertexArray { name: self.name() },
            ),
            final(gl).staged() == old(gl).staged(),
            final(gl).next_name() == old(gl).next_name(),
    {
        gl.issue(GlCall::BindVertexArray { name: self.vao });
    }

    /// Leaves no vertex array current.
    pub fn unbind(&self, gl: &mut Gl)
        ensures
            final(gl).issued() == old(gl).issued().push(GlCall::BindVertexArray { name: 0 }),
            final(gl).staged() == old(gl).staged(),
            final(gl).next_name() == old(gl).next_name(),
    {
        gl.issue(GlCall::BindVertexArray { name: 0 });
    }

    /// Releases the object.
    pub fn delete(self, gl: &mut Gl)
        ensures
            final(gl).issued() == old(gl).issued().push(
                GlCall::DeleteVertexArray { name: self.name() },
            ),
            final(gl).staged() == old(gl).staged(),
            final(gl).next_name() == old(gl).next_name(),
    {
        gl.issue(GlCall::DeleteVertexArray { name: self.vao });
    }
}

/// An off-screen render target: a framebuffer object with one texture as its
/// colour attachment.
pub struct FrameBuffer {
    id: u32,
    texture: Texture,
}

impl FrameBuffer {
    /// The framebuffer object's name.
    pub closed spec fn name(&self) -> u32 {
        self.id
    }

    /// The name of the texture that is rendered into.
    pub closed spec fn texture_name(&self) -> u32 {
        self.texture.name()
    }

    /// Width and height of the texture that is rendered into.
    pub closed spec fn size(&self) -> (u32, u32) {
        self.texture.size()
    }

    /// The calls that build a framebuffer named `name` around a new texture
    /// named `texture`.
    pub open spec fn new_calls(name: u32, texture: u32, width: u32, height: u32) -> Seq<GlCall> {
        seq![
            GlCall::GenFramebuffer { name },
            GlCall::BindFramebuffer { target: FRAMEBUFFER, name },
        ] + Texture::empty_calls(texture, width, height) + seq![
            GlCall::FramebufferTexture2D {
                target: FRAMEBUFFER,
                attachment: COLOR_ATTACHMENT0,
                textarget: TEXTURE_2D,
                texture,
                level: 0,
            },
            GlCall::BindFramebuffer { target: FRAMEBUFFER, name: 0 },
        ]
    }

    /// The calls that release a framebuffer and its texture.
    pub open spec fn delete_calls(name: u32, texture: u32) -> Seq<GlCall> {
        seq![GlCall::DeleteFramebuffer { name }, GlCall::DeleteTexture { name: texture }]
    }

    /// Creates a framebuffer with an unfilled texture of the given size
    /// attached. The framebuffer takes the first free name, its texture the
    /// second.
    pub fn new(gl: &mut Gl, width: u32, height: u32) -> (buffer: FrameBuffer)
        requires
            old(gl).has_names(2),
        ensures
            buffer.name() == old(gl).next_name(),
            buffer.texture_name() == old(gl).next_name() + 1,
            buffer.size() == (width, height),
            final(gl).issued() == old(gl).issued() + Self::new_calls(
                buffer.name(),
                buffer.texture_name(),
                width,
                height,
            ),
            final(gl).staged() == old(gl).staged(),
            final(gl).next_name() == old(gl).next_name() + 2,
    {
        let id = gl.fresh_name();
        gl.issue(GlCall::GenFramebuffer { name: id });
        gl.issue(GlCall::BindFramebuffer { target: FRAMEBUFFER, name: id });
        let texture = Texture::empty(gl, width, height);
        gl.issue(
            GlCall::FramebufferTexture2D {
                target: FRAMEBUFFER,
                attachment: COLOR_ATTACHMENT0,
                textarget: TEXTURE_2D,
                texture: texture.get_id(),
                level: 0,
            },
        );
        gl.issue(GlCall::BindFramebuffer { target: FRAMEBUFFER, name: 0 });
        assert(gl.issued() =~= old(gl).issued() + Self::new_calls(
            id,
            texture.name(),
            width,
            height,
        ));
        FrameBuffer { id, texture }
    }

    /// Whether a framebuffer status that the driver reported is the one of a
    /// complete framebuffer.
    pub fn is_complete(status: u32) -> (complete: bool)
        ensures
            complete == (status == FRAMEBUFFER_COMPLETE),
    {
        status == FRAMEBUFFER_COMPLETE
    }

    /// Makes the framebuffer the render target.
    pub fn bind(&self, gl: &mut Gl)
        ensures
            final(gl).issued() == old(gl).issued().push(
                GlCall::BindFramebuffer { target: FRAMEBUFFER, name: self.name() },
            ),
            final(gl).staged() == old(gl).staged(),
            final(gl).next_name() == old(gl).next_name(),
    {
        gl.issue(GlCall::BindFramebuffer { target: FRAMEBUFFER, name: self.id });
    }

    /// Makes the screen the render target.
    pub fn unbind(&self, gl: &mut Gl)
        ensures
            final(gl).issued() == old(gl).issued().push(
                GlCall::BindFramebuffer { target: FRAMEBUFFER, name: 0 },
            ),
            final(gl).staged() == old(gl).staged(),
            final(gl).next_name() == old(gl).next_name(),
    {
        gl.issue(GlCall::BindFramebuffer { target: FRAMEBUFFER, name: 0 });
    }

    /// Gives the attached texture a new size. No object is created or released.
    pub fn resize(&mut self, gl: &mut Gl, width: u32, height: u32)
        ensures
            final(self).name() == old(self).name(),
            final(self).texture_name() == old(self).texture_name(),
            final(self).size() == (width, height),
            final(gl).issued() == old(gl).issued() + Texture::resize_calls(
                old(self).texture_name(),
                width,
                height,
            ),
            final(gl).staged() == old(gl).staged(),
            final(gl).next_name() == old(gl).next_name(),
    {
        self.texture.resize(gl, width, height);
    }

    /// Width and height of the attached texture.
    pub fn get_size(&self) -> (size: (u32, u32))
        ensures
            size == self.size(),
    {
        self.texture.get_size()
    }

    /// Makes the attached texture the current one.
    pub fn bind_texture(&self, gl: &mut Gl)
        ensures
            final(gl).issued() == old(gl).issued().push(
                GlCall::BindTexture { target: TEXTURE_2D, name: self.texture_name() },
            ),
            final(gl).staged() == old(gl).staged(),
            final(gl).next_name() == old(gl).next_name(),
    {
        self.texture.bind(gl);
    }

    /// Releases the framebuffer, then its texture.
    pub fn delete(self, gl: &mut Gl)
        ensures
            final(gl).issued() == old(gl).issued() + Self::delete_calls(
                self.name(),
                self.texture_name(),
            ),
            final(gl).staged() == old(gl).staged(),
            final(gl).next_name() == old(gl).next_name(),
    {
        gl.issue(GlCall::DeleteFramebuffer { name: self.id });
        let FrameBuffer { id, texture } = self;
        texture.delete(gl);
        assert(gl.issued() =~= old(gl).issued() + Self::delete_calls(id, texture.name()));
    }
}

/// A resize creates nothing and releases nothing.
pub proof fn lemma_resize_is_neutral(texture: u32, width: u32, height: u32)
    ensures
        creations(Texture::resize_calls(texture, width, height)) == 0,
        deletions(Texture::resize_calls(texture, width, height)) == 0,
{
    reveal_with_fuel(creations, 4);
    reveal_with_fuel(deletions, 4);
}

/// Building a framebuffer creates two objects and releases none.
pub proof fn lemma_new_creates_two(name: u32, texture: u32, width: u32, height: u32)
    ensures
        creations(FrameBuffer::new_calls(name, texture, width, height)) == 2,
        deletions(FrameBuffer::new_calls(name, texture, width, height)) == 0,
{
    reveal_with_fuel(creations, 7);
    reveal_with_fuel(deletions, 7);
    let head = seq![
        GlCall::GenFramebuffer { name },
        GlCall::BindFramebuffer { target: FRAMEBUFFER, name },
    ];
    let middle = Texture::empty_calls(texture, width, height);
    let tail = seq![
        GlCall::FramebufferTexture2D {
            target: FRAMEBUFFER,
            attachment: COLOR_ATTACHMENT0,
            textarget: TEXTURE_2D,
            texture,
            level: 0,
        },
        GlCall::BindFramebuffer { target: FRAMEBUFFER, name: 0 },
    ];
    lemma_counts_add(head, middle);
    lemma_counts_add(head + middle, tail);
}

/// Releasing a framebuffer releases two objects and creates none.
pub proof fn lemma_delete_releases_two(name: u32, texture: u32)
    ensures
        creations(FrameBuffer::delete_calls(name, texture)) == 0,
        deletions(FrameBuffer::delete_calls(name, texture)) == 2,
{
    reveal_with_fuel(creations, 3);
    reveal_with_fuel(deletions, 3);
}

/// Over the life of a framebuffer, built at one size, resized to another and
/// released, as many objects are released as were created: two of each.
pub proof fn lemma_framebuffer_life_balances(
    name: u32,
    texture: u32,
    width: u32,
    height: u32,
    new_width: u32,
    new_height: u32,
)
    ensures
        creations(
            FrameBuffer::new_calls(name, texture, width, height) + Texture::resize_calls(
                texture,
                new_width,
                new_height,
            ) + FrameBuffer::delete_calls(name, texture),
        ) == 2,
        deletions(
            FrameBuffer::new_calls(name, texture, width, height) + Texture::resize_calls(
                texture,
                new_width,
                new_height,
            ) + FrameBuffer::delete_calls(name, texture),
        ) == 2,
{
    let built = FrameBuffer::new_calls(name, texture, width, height);
    let resized = Texture::resize_calls(texture, new_width, new_height);
    let released = FrameBuffer::delete_calls(name, texture);
    lemma_counts_add(built + resized, released);
    lemma_counts_add(built, resized);
    lemma_new_creates_two(name, texture, width, height);
    lemma_resize_is_neutral(texture, new_width, new_height);
    lemma_delete_releases_two(name, texture);
}

} // verus!
