//! The scene of the playground: a textured quad rendered
//! into an off-screen framebuffer, whose texture is then drawn onto a second
//! quad on the screen.

use crate::data::binding_calls;
use crate::data::lemma_binding_is_neutral;
use crate::data::record_size;
use crate::data::vertex_attrib_pointers;
use crate::data::AttribFormat;
use crate::data::VertexAttrib;
use crate::gl::creations;
use crate::gl::deletions;
use crate::gl::lemma_counts_add;
use crate::gl::CameraMatrix;
use crate::gl::Gl;
use crate::gl::GlCall;
use crate::gl::ARRAY_BUFFER;
use crate::gl::BLEND;
use crate::gl::COLOR_BUFFER_BIT;
use crate::gl::ELEMENT_ARRAY_BUFFER;
use crate::gl::FRAMEBUFFER;
use crate::gl::ONE_MINUS_SRC_ALPHA;
use crate::gl::SRC_ALPHA;
use crate::gl::STATIC_DRAW;
use crate::gl::TEXTURE_2D;
use crate::gl::TRIANGLES;
use crate::gl::UNSIGNED_BYTE;
use crate::gl_buffers::lemma_delete_releases_two;
use crate::gl_buffers::lemma_new_creates_two;
use crate::gl_buffers::lemma_resize_is_neutral;
use crate::gl_buffers::ArrayBuffer;
use crate::gl_buffers::ElementArrayBuffer;
use crate::gl_buffers::FrameBuffer;
use crate::gl_buffers::VertexArray;
use crate::resources::found;
use crate::resources::image_of;
use crate::resources::Resources;
use crate::shader::ShaderProgram;
use crate::texture::Texture;
use vstd::prelude::*;

verus! {

/// The fields of the scene's vertex record: position, colour, texture
/// coordinates.
pub open spec fn pos_color_uv() -> Seq<VertexAttrib> {
    seq![
        VertexAttrib { location: 0, format: AttribFormat::Float32_32_32 },
        VertexAttrib { location: 1, format: AttribFormat::Float32_32_32_32 },
        VertexAttrib { location: 2, format: AttribFormat::Float32_32 },
    ]
}

/// The fields of the screen quad's vertex record: position, texture
/// coordinates.
pub open spec fn pos_uv() -> Seq<VertexAttrib> {
    seq![
        VertexAttrib { location: 0, format: AttribFormat::Float32_32_32 },
        VertexAttrib { location: 1, format: AttribFormat::Float32_32 },
    ]
}

/// The scene's vertex record takes 36 bytes, the screen quad's 20.
pub proof fn lemma_record_sizes()
    ensures
        record_size(pos_color_uv()) == 36,
        record_size(pos_uv()) == 20,
{
    reveal_with_fuel(record_size, 4);
}

/// Builds `pos_color_uv`.
pub fn pos_color_uv_layout() -> (fields: Vec<VertexAttrib>)
    ensures
        fields@ == pos_color_uv(),
{
    let mut fields: Vec<VertexAttrib> = Vec::new();
    fields.push(VertexAttrib { location: 0, format: AttribFormat::Float32_32_32 });
    fields.push(VertexAttrib { location: 1, format: AttribFormat::Float32_32_32_32 });
    fields.push(VertexAttrib { location: 2, format: AttribFormat::Float32_32 });
    assert(fields@ =~= pos_color_uv());
    fields
}

/// Builds `pos_uv`.
pub fn pos_uv_layout() -> (fields: Vec<VertexAttrib>)
    ensures
        fields@ == pos_uv(),
{
    let mut fields: Vec<VertexAttrib> = Vec::new();
    fields.push(VertexAttrib { location: 0, format: AttribFormat::Float32_32_32 });
    fields.push(VertexAttrib { location: 1, format: AttribFormat::Float32_32 });
    assert(fields@ =~= pos_uv());
    fields
}

/// The corners of a quad as two triangles: six one-byte indices.
pub fn quad_indices() -> (indices: Vec<u8>)
    ensures
        indices@ == seq![1u8, 0u8, 2u8, 2u8, 3u8, 1u8],
{
    let mut indices: Vec<u8> = Vec::new();
    indices.push(1);
    indices.push(0);
    indices.push(2);
    indices.push(2);
    indices.push(3);
    indices.push(1);
    assert(indices@ =~= seq![1u8, 0u8, 2u8, 2u8, 3u8, 1u8]);
    indices
}

/// Switches alpha blending on.
pub fn enable_blending(gl: &mut Gl)
    ensures
        final(gl).issued() == old(gl).issued() + seq![
            GlCall::Enable { cap: BLEND },
            GlCall::BlendFunc { sfactor: SRC_ALPHA, dfactor: ONE_MINUS_SRC_ALPHA },
        ],
        final(gl).staged() == old(gl).staged(),
        final(gl).next_name() == old(gl).next_name(),
{
    gl.issue(GlCall::Enable { cap: BLEND });
    gl.issue(GlCall::BlendFunc { sfactor: SRC_ALPHA, dfactor: ONE_MINUS_SRC_ALPHA });
    assert(gl.issued() =~= old(gl).issued() + seq![
        GlCall::Enable { cap: BLEND },
        GlCall::BlendFunc { sfactor: SRC_ALPHA, dfactor: ONE_MINUS_SRC_ALPHA },
    ]);
}

/// The calls that make a buffer named `name` and fill it from the blob:
/// create, bind, upload, unbind.
pub open spec fn filled_buffer_calls(target: u32, name: u32, blob: usize) -> Seq<GlCall> {
    seq![
        GlCall::GenBuffer { name },
        GlCall::BindBuffer { target, name },
        GlCall::BufferData { target, blob, usage: STATIC_DRAW },
        GlCall::BindBuffer { target, name: 0 },
    ]
}

/// The calls that make a vertex array named `name` over a vertex buffer and
/// an index buffer, with the fields of `layout` bound to their slots.
pub open spec fn vertex_array_calls(
    name: u32,
    vertices: u32,
    indices: u32,
    layout: Seq<VertexAttrib>,
) -> Seq<GlCall> {
    seq![
        GlCall::GenVertexArray { name },
        GlCall::BindVertexArray { name },
        GlCall::BindBuffer { target: ARRAY_BUFFER, name: vertices },
        GlCall::BindBuffer { target: ELEMENT_ARRAY_BUFFER, name: indices },
    ] + binding_calls(layout, layout.len() as int) + seq![GlCall::BindVertexArray { name: 0 }]
}

/// Makes a vertex buffer and fills it with `data`.
pub fn filled_array_buffer(gl: &mut Gl, data: Vec<u8>) -> (buffer: ArrayBuffer)
    requires
        old(gl).has_names(1),
    ensures
        buffer.name() == old(gl).next_name(),
        final(gl).issued() == old(gl).issued() + filled_buffer_calls(
            ARRAY_BUFFER,
            buffer.name(),
            old(gl).next_blob(),
        ),
        final(gl).staged() == old(gl).staged().push(data@),
        final(gl).next_name() == old(gl).next_name() + 1,
{
    let buffer = ArrayBuffer::new(gl);
    buffer.bind(gl);
    buffer.buffer_static_draw(gl, data);
    buffer.unbind(gl);
    assert(gl.issued() =~= old(gl).issued() + filled_buffer_calls(
        ARRAY_BUFFER,
        buffer.name(),
        old(gl).next_blob(),
    ));
    buffer
}

/// Makes an index buffer and fills it with `data`.
pub fn filled_element_buffer(gl: &mut Gl, data: Vec<u8>) -> (buffer: ElementArrayBuffer)
    requires
        old(gl).has_names(1),
    ensures
        buffer.name() == old(gl).next_name(),
        final(gl).issued() == old(gl).issued() + filled_buffer_calls(
            ELEMENT_ARRAY_BUFFER,
            buffer.name(),
            old(gl).next_blob(),
        ),
        final(gl).staged() == old(gl).staged().push(data@),
        final(gl).next_name() == old(gl).next_name() + 1,
{
    let buffer = ElementArrayBuffer::new(gl);
    buffer.bind(gl);
    buffer.buffer_static_draw(gl, data);
    buffer.unbind(gl);
    assert(gl.issued() =~= old(gl).issued() + filled_buffer_calls(
        ELEMENT_ARRAY_BUFFER,
        buffer.name(),
        old(gl).next_blob(),
    ));
    buffer
}

/// Makes a vertex array over the two buffers and binds the fields of
/// `layout`, a record that fits the machine's word.
pub fn bound_vertex_array(
    gl: &mut Gl,
    vertices: &ArrayBuffer,
    indices: &ElementArrayBuffer,
    layout: &Vec<VertexAttrib>,
) -> (array: VertexArray)
    requires
        old(gl).has_names(1),
        record_size(layout@) <= usize::MAX,
    ensures
        array.name() == old(gl).next_name(),
        final(gl).issued() == old(gl).issued() + vertex_array_calls(
            array.name(),
            vertices.name(),
            indices.name(),
            layout@,
        ),
        final(gl).staged() == old(gl).staged(),
        final(gl).next_name() == old(gl).next_name() + 1,
{
    let array = VertexArray::new(gl);
    array.bind(gl);
    vertices.bind(gl);
    indices.bind(gl);
    vertex_attrib_pointers(gl, layout);
    array.unbind(gl);
    assert(gl.issued() =~= old(gl).issued() + vertex_array_calls(
        array.name(),
        vertices.name(),
        indices.name(),
        layout@,
    ));
    array
}

/// The objects of the scene.
pub struct Scene {
    pub shader_program: ShaderProgram,
    pub square_program: ShaderProgram,
    pub v_buffer: ArrayBuffer,
    pub i_buffer: ElementArrayBuffer,
    pub v_array: VertexArray,
    pub texture: Texture,
    pub frame_buffer: FrameBuffer,
    pub frame_v_buffer: ArrayBuffer,
    pub frame_v_array: VertexArray,
    /// The slot of the scene program's projection matrix.
    pub perspective_loc: i32,
    /// The slot of the scene program's view matrix.
    pub view_loc: i32,
}

/// One of the two draws of a frame: clear, then draw the quad's six indices.
pub open spec fn clear_and_draw() -> Seq<GlCall> {
    seq![
        GlCall::Clear { mask: COLOR_BUFFER_BIT },
        GlCall::DrawElements { mode: TRIANGLES, count: 6, index_type: UNSIGNED_BYTE },
    ]
}

impl Scene {
    /// The calls that build the scene's objects other than its programs, in
    /// this order: vertex buffer, index buffer, vertex array, texture,
    /// framebuffer, the screen quad's vertex buffer, its vertex array.
    pub open spec fn build_calls(
        &self,
        first_blob: usize,
        image_width: u32,
        image_height: u32,
        width: u32,
        height: u32,
    ) -> Seq<GlCall> {
        filled_buffer_calls(ARRAY_BUFFER, self.v_buffer.name(), first_blob) + filled_buffer_calls(
            ELEMENT_ARRAY_BUFFER,
            self.i_buffer.name(),
            (first_blob + 1) as usize,
        ) + vertex_array_calls(
            self.v_array.name(),
            self.v_buffer.name(),
            self.i_buffer.name(),
            pos_color_uv(),
        ) + Texture::upload_calls(
            self.texture.name(),
            image_width,
            image_height,
            (first_blob + 2) as usize,
        ) + FrameBuffer::new_calls(
            self.frame_buffer.name(),
            self.frame_buffer.texture_name(),
            width,
            height,
        ) + filled_buffer_calls(
            ARRAY_BUFFER,
            self.frame_v_buffer.name(),
            (first_blob + 3) as usize,
        ) + vertex_array_calls(
            self.frame_v_array.name(),
            self.frame_v_buffer.name(),
            self.i_buffer.name(),
            pos_uv(),
        )
    }

    /// The calls that set the first pass up: light grey, the scene's vertex
    /// array, texture and program with its two matrices, the framebuffer as
    /// the target.
    pub open spec fn scene_pass_calls(&self) -> Seq<GlCall> {
        seq![
            GlCall::ClearColor { red: 80, green: 80, blue: 80 },
            GlCall::BindVertexArray { name: self.v_array.name() },
            GlCall::BindTexture { target: TEXTURE_2D, name: self.texture.name() },
            GlCall::UseProgram { program: self.shader_program.name() },
            GlCall::UniformMatrix4 { location: self.view_loc, matrix: CameraMatrix::View },
            GlCall::UniformMatrix4 {
                location: self.perspective_loc,
                matrix: CameraMatrix::Projection,
            },
            GlCall::BindFramebuffer { target: FRAMEBUFFER, name: self.frame_buffer.name() },
        ]
    }

    /// The calls that set the second pass up: the screen as the target, dark
    /// grey, the screen quad's vertex array, the framebuffer's texture and the
    /// screen program.
    pub open spec fn screen_pass_calls(&self) -> Seq<GlCall> {
        seq![
            GlCall::BindFramebuffer { target: FRAMEBUFFER, name: 0 },
            GlCall::ClearColor { red: 30, green: 30, blue: 30 },
            GlCall::BindVertexArray { name: self.frame_v_array.name() },
            GlCall::BindTexture { target: TEXTURE_2D, name: self.frame_buffer.texture_name() },
            GlCall::UseProgram { program: self.square_program.name() },
        ]
    }

    /// The calls of one frame: the scene into the framebuffer, then the
    /// framebuffer's texture onto the screen quad.
    pub open spec fn draw_calls(&self) -> Seq<GlCall> {
        self.scene_pass_calls() + clear_and_draw() + self.screen_pass_calls() + clear_and_draw()
    }

    /// The calls that follow a change of the window's size: the viewport is
    /// set to the new size and the framebuffer's texture is given it too.
    pub open spec fn resize_calls(&self, width: u32, height: u32) -> Seq<GlCall> {
        seq![GlCall::Viewport { x: 0, y: 0, width: width as i32, height: height as i32 }]
            + Texture::resize_calls(self.frame_buffer.texture_name(), width, height)
    }

    /// The calls that release every object of the scene.
    pub open spec fn release_calls(&self) -> Seq<GlCall> {
        seq![
            GlCall::DeleteVertexArray { name: self.frame_v_array.name() },
            GlCall::DeleteBuffer { name: self.frame_v_buffer.name() },
        ] + FrameBuffer::delete_calls(
            self.frame_buffer.name(),
            self.frame_buffer.texture_name(),
        ) + seq![
            GlCall::DeleteTexture { name: self.texture.name() },
            GlCall::DeleteVertexArray { name: self.v_array.name() },
            GlCall::DeleteBuffer { name: self.i_buffer.name() },
            GlCall::DeleteBuffer { name: self.v_buffer.name() },
            GlCall::DeleteProgram { program: self.square_program.name() },
            GlCall::DeleteProgram { program: self.shader_program.name() },
        ]
    }

    /// Builds the scene around its two programs. The image asset `smiley.png`
    /// is loaded first: where that fails, the two programs are released,
    /// nothing else is issued and the error comes back. Otherwise the eight
    /// objects take the next eight names in the order of `build_calls`, and
    /// the four blobs are staged in the order vertices, indices, image,
    /// screen quad.
    pub fn init(
        gl: &mut Gl,
        res: &Resources,
        shader_program: ShaderProgram,
        square_program: ShaderProgram,
        vertices: Vec<u8>,
        frame_vertices: Vec<u8>,
        width: u32,
        height: u32,
    ) -> (scene: Result<Scene, crate::resources::Error>)
        requires
            old(gl).has_names(8),
        ensures
            match image_of(found(res@, "smiley.png"@)) {
                Err(error) => {
                    &&& scene == Err::<Scene, crate::resources::Error>(error)
                    &&& final(gl).issued() == old(gl).issued() + seq![
                        GlCall::DeleteProgram { program: square_program.name() },
                        GlCall::DeleteProgram { program: shader_program.name() },
                    ]
                    &&& final(gl).staged() == old(gl).staged()
                    &&& final(gl).next_name() == old(gl).next_name()
                },
                Ok((image_width, image_height, pixels)) => {
                    &&& scene matches Ok(scene)
                    &&& scene.shader_program == shader_program
                    &&& scene.square_program == square_program
                    &&& scene.v_buffer.name() == old(gl).next_name()
                    &&& scene.i_buffer.name() == old(gl).next_name() + 1
                    &&& scene.v_array.name() == old(gl).next_name() + 2
                    &&& scene.texture.name() == old(gl).next_name() + 3
                    &&& scene.texture.size() == (image_width, image_height)
                    &&& scene.frame_buffer.name() == old(gl).next_name() + 4
                    &&& scene.frame_buffer.texture_name() == old(gl).next_name() + 5
                    &&& scene.frame_buffer.size() == (width, height)
                    &&& scene.frame_v_buffer.name() == old(gl).next_name() + 6
                    &&& scene.frame_v_array.name() == old(gl).next_name() + 7
                    &&& scene.perspective_loc == -1
                    &&& scene.view_loc == -1
                    &&& final(gl).next_name() == old(gl).next_name() + 8
                    &&& final(gl).staged() == old(gl).staged() + seq![
                        vertices@,
                        seq![1u8, 0u8, 2u8, 2u8, 3u8, 1u8],
                        pixels,
                        frame_vertices@,
                    ]
                    &&& final(gl).issued() == old(gl).issued() + scene.build_calls(
                        old(gl).next_blob(),
                        image_width,
                        image_height,
                        width,
                        height,
                    )
                },
            },
    {
        let image = match res.load_rgb_image("smiley.png") {
            Ok(image) => image,
            Err(error) => {
                square_program.delete(gl);
                shader_program.delete(gl);
                assert(gl.issued() =~= old(gl).issued() + seq![
                    GlCall::DeleteProgram { program: square_program.name() },
                    GlCall::DeleteProgram { program: shader_program.name() },
                ]);
                return Err(error);
            },
        };
        proof {
            lemma_record_sizes();
        }
        let v_buffer = filled_array_buffer(gl, vertices);
        let i_buffer = filled_element_buffer(gl, quad_indices());
        let v_array = bound_vertex_array(gl, &v_buffer, &i_buffer, &pos_color_uv_layout());
        let texture = Texture::from_pixels(gl, image.width, image.height, image.pixels);
        let frame_buffer = FrameBuffer::new(gl, width, height);
        let frame_v_buffer = filled_array_buffer(gl, frame_vertices);
        let frame_v_array = bound_vertex_array(gl, &frame_v_buffer, &i_buffer, &pos_uv_layout());
        let scene = Scene {
            shader_program,
            square_program,
            v_buffer,
            i_buffer,
            v_array,
            texture,
            frame_buffer,
            frame_v_buffer,
            frame_v_array,
            perspective_loc: -1,
            view_loc: -1,
        };
        proof {
            gl.lemma_staged_fits();
        }
        assert(gl.staged() =~=old(gl).staged() + seq![
            vertices@,
            seq![1u8, 0u8, 2u8, 2u8, 3u8, 1u8],
            image.pixels@,
            frame_vertices@,
        ]);
        assert(gl.issued() =~= old(gl).issued() + scene.build_calls(
            old(gl).next_blob(),
            image.width,
            image.height,
            width,
            height,
        ));
        Ok(scene)
    }

    /// Records where the driver put the scene program's two matrices.
    pub fn set_uniform_locations(&mut self, perspective_loc: i32, view_loc: i32)
        ensures
            *final(self) == (Scene { perspective_loc, view_loc, ..*old(self) }),
    {
        self.perspective_loc = perspective_loc;
        self.view_loc = view_loc;
    }

    /// Issues the calls of one frame.
    pub fn draw(&self, gl: &mut Gl)
        ensures
            final(gl).issued() == old(gl).issued() + self.draw_calls(),
            final(gl).staged() == old(gl).staged(),
            final(gl).next_name() == old(gl).next_name(),
    {
        gl.issue(GlCall::ClearColor { red: 80, green: 80, blue: 80 });
        self.v_array.bind(gl);
        self.texture.bind(gl);
        self.shader_program.bind(gl);
        gl.issue(GlCall::UniformMatrix4 { location: self.view_loc, matrix: CameraMatrix::View });
        gl.issue(
            GlCall::UniformMatrix4 {
                location: self.perspective_loc,
                matrix: CameraMatrix::Projection,
            },
        );
        self.frame_buffer.bind(gl);
        gl.issue(GlCall::Clear { mask: COLOR_BUFFER_BIT });
        gl.issue(GlCall::DrawElements { mode: TRIANGLES, count: 6, index_type: UNSIGNED_BYTE });
        self.frame_buffer.unbind(gl);
        gl.issue(GlCall::ClearColor { red: 30, green: 30, blue: 30 });
        self.frame_v_array.bind(gl);
        self.frame_buffer.bind_texture(gl);
        self.square_program.bind(gl);
        gl.issue(GlCall::Clear { mask: COLOR_BUFFER_BIT });
        gl.issue(GlCall::DrawElements { mode: TRIANGLES, count: 6, index_type: UNSIGNED_BYTE });
        assert(gl.issued() =~= old(gl).issued() + self.draw_calls());
    }

    /// Follows a change of the window's size. No object is created or
    /// released, and the framebuffer reports the new size.
    pub fn resize(&mut self, gl: &mut Gl, width: u32, height: u32)
        ensures
            *final(self) == (Scene { frame_buffer: final(self).frame_buffer, ..*old(self) }),
            final(self).frame_buffer.name() == old(self).frame_buffer.name(),
            final(self).frame_buffer.texture_name() == old(self).frame_buffer.texture_name(),
            final(self).frame_buffer.size() == (width, height),
            final(gl).issued() == old(gl).issued() + old(self).resize_calls(width, height),
            final(gl).staged() == old(gl).staged(),
            final(gl).next_name() == old(gl).next_name(),
    {
        gl.issue(
            GlCall::Viewport {
                x: 0,
                y: 0,
                width: #[verifier::truncate]
                (width as i32),
                height: #[verifier::truncate]
                (height as i32),
            },
        );
        self.frame_buffer.resize(gl, width, height);
        assert(gl.issued() =~= old(gl).issued() + old(self).resize_calls(width, height));
    }

    /// Releases every object of the scene, the last made first.
    pub fn release(self, gl: &mut Gl)
        ensures
            final(gl).issued() == old(gl).issued() + self.release_calls(),
            final(gl).staged() == old(gl).staged(),
            final(gl).next_name() == old(gl).next_name(),
    {
        let Scene {
            shader_program,
            square_program,
            v_buffer,
            i_buffer,
            v_array,
            texture,
            frame_buffer,
            frame_v_buffer,
            frame_v_array,
            perspective_loc: _,
            view_loc: _,
        } = self;
        frame_v_array.delete(gl);
        frame_v_buffer.delete(gl);
        frame_buffer.delete(gl);
        texture.delete(gl);
        v_array.delete(gl);
        i_buffer.delete(gl);
        v_buffer.delete(gl);
        square_program.delete(gl);
        shader_program.delete(gl);
        assert(gl.issued() =~= old(gl).issued() + self.release_calls());
    }
}

/// Making and filling a buffer creates one object and releases none.
pub proof fn lemma_filled_buffer_creates_one(target: u32, name: u32, blob: usize)
    ensures
        creations(filled_buffer_calls(target, name, blob)) == 1,
        deletions(filled_buffer_calls(target, name, blob)) == 0,
{
    reveal_with_fuel(creations, 5);
    reveal_with_fuel(deletions, 5);
}

/// Making a vertex array creates one object and releases none, whatever its
/// layout.
pub proof fn lemma_vertex_array_creates_one(
    name: u32,
    vertices: u32,
    indices: u32,
    layout: Seq<VertexAttrib>,
)
    ensures
        creations(vertex_array_calls(name, vertices, indices, layout)) == 1,
        deletions(vertex_array_calls(name, vertices, indices, layout)) == 0,
{
    reveal_with_fuel(creations, 5);
    reveal_with_fuel(deletions, 5);
    let head = seq![
        GlCall::GenVertexArray { name },
        GlCall::BindVertexArray { name },
        GlCall::BindBuffer { target: ARRAY_BUFFER, name: vertices },
        GlCall::BindBuffer { target: ELEMENT_ARRAY_BUFFER, name: indices },
    ];
    let bound = binding_calls(layout, layout.len() as int);
    let tail = seq![GlCall::BindVertexArray { name: 0 }];
    lemma_binding_is_neutral(layout, layout.len() as int);
    lemma_counts_add(head, bound);
    lemma_counts_add(head + bound, tail);
}

/// Uploading a texture creates one object and releases none.
pub proof fn lemma_upload_creates_one(name: u32, width: u32, height: u32, blob: usize)
    ensures
        creations(Texture::upload_calls(name, width, height, blob)) == 1,
        deletions(Texture::upload_calls(name, width, height, blob)) == 0,
{
    reveal_with_fuel(creations, 6);
    reveal_with_fuel(deletions, 6);
}

/// Building the scene creates eight objects and releases none.
pub proof fn lemma_build_creates_eight(
    scene: Scene,
    first_blob: usize,
    image_width: u32,
    image_height: u32,
    width: u32,
    height: u32,
)
    ensures
        creations(scene.build_calls(first_blob, image_width, image_height, width, height)) == 8,
        deletions(scene.build_calls(first_blob, image_width, image_height, width, height)) == 0,
{
    let vertices = filled_buffer_calls(ARRAY_BUFFER, scene.v_buffer.name(), first_blob);
    let indices = filled_buffer_calls(
        ELEMENT_ARRAY_BUFFER,
        scene.i_buffer.name(),
        (first_blob + 1) as usize,
    );
    let array = vertex_array_calls(
        scene.v_array.name(),
        scene.v_buffer.name(),
        scene.i_buffer.name(),
        pos_color_uv(),
    );
    let texture = Texture::upload_calls(
        scene.texture.name(),
        image_width,
        image_height,
        (first_blob + 2) as usize,
    );
    let target = FrameBuffer::new_calls(
        scene.frame_buffer.name(),
        scene.frame_buffer.texture_name(),
        width,
        height,
    );
    let quad = filled_buffer_calls(
        ARRAY_BUFFER,
        scene.frame_v_buffer.name(),
        (first_blob + 3) as usize,
    );
    let quad_array = vertex_array_calls(
        scene.frame_v_array.name(),
        scene.frame_v_buffer.name(),
        scene.i_buffer.name(),
        pos_uv(),
    );
    lemma_filled_buffer_creates_one(ARRAY_BUFFER, scene.v_buffer.name(), first_blob);
    lemma_filled_buffer_creates_one(
        ELEMENT_ARRAY_BUFFER,
        scene.i_buffer.name(),
        (first_blob + 1) as usize,
    );
    lemma_vertex_array_creates_one(
        scene.v_array.name(),
        scene.v_buffer.name(),
        scene.i_buffer.name(),
        pos_color_uv(),
    );
    lemma_upload_creates_one(
        scene.texture.name(),
        image_width,
        image_height,
        (first_blob + 2) as usize,
    );
    lemma_new_creates_two(
        scene.frame_buffer.name(),
        scene.frame_buffer.texture_name(),
        width,
        height,
    );
    lemma_filled_buffer_creates_one(
        ARRAY_BUFFER,
        scene.frame_v_buffer.name(),
        (first_blob + 3) as usize,
    );
    lemma_vertex_array_creates_one(
        scene.frame_v_array.name(),
        scene.frame_v_buffer.name(),
        scene.i_buffer.name(),
        pos_uv(),
    );
    lemma_counts_add(vertices, indices);
    lemma_counts_add(vertices + indices, array);
    lemma_counts_add(vertices + indices + array, texture);
    lemma_counts_add(vertices + indices + array + texture, target);
    lemma_counts_add(vertices + indices + array + texture + target, quad);
    lemma_counts_add(vertices + indices + array + texture + target + quad, quad_array);
}

/// Setting the first pass up creates no object and releases none.
pub proof fn lemma_scene_pass_is_neutral(scene: Scene)
    ensures
        creations(scene.scene_pass_calls()) == 0,
        deletions(scene.scene_pass_calls()) == 0,
{
    reveal_with_fuel(creations, 8);
    reveal_with_fuel(deletions, 8);
}

/// Setting the second pass up creates no object and releases none.
pub proof fn lemma_screen_pass_is_neutral(scene: Scene)
    ensures
        creations(scene.screen_pass_calls()) == 0,
        deletions(scene.screen_pass_calls()) == 0,
{
    reveal_with_fuel(creations, 6);
    reveal_with_fuel(deletions, 6);
}

/// Clearing and drawing creates no object and releases none.
pub proof fn lemma_clear_and_draw_is_neutral()
    ensures
        creations(clear_and_draw()) == 0,
        deletions(clear_and_draw()) == 0,
{
    reveal_with_fuel(creations, 3);
    reveal_with_fuel(deletions, 3);
}

/// A frame creates no object and releases none, and neither does a resize.
pub proof fn lemma_frames_are_neutral(scene: Scene, width: u32, height: u32)
    ensures
        creations(scene.draw_calls()) == 0,
        deletions(scene.draw_calls()) == 0,
        creations(scene.resize_calls(width, height)) == 0,
        deletions(scene.resize_calls(width, height)) == 0,
{
    let first = scene.scene_pass_calls();
    let second = scene.screen_pass_calls();
    lemma_scene_pass_is_neutral(scene);
    lemma_screen_pass_is_neutral(scene);
    lemma_clear_and_draw_is_neutral();
    lemma_counts_add(first, clear_and_draw());
    lemma_counts_add(first + clear_and_draw(), second);
    lemma_counts_add(first + clear_and_draw() + second, clear_and_draw());
    let viewport = seq![
        GlCall::Viewport { x: 0, y: 0, width: width as i32, height: height as i32 },
    ];
    assert(creations(viewport) == 0 && deletions(viewport) == 0) by {
        reveal_with_fuel(creations, 2);
        reveal_with_fuel(deletions, 2);
    }
    lemma_resize_is_neutral(scene.frame_buffer.texture_name(), width, height);
    lemma_counts_add(
        viewport,
        Texture::resize_calls(scene.frame_buffer.texture_name(), width, height),
    );
}

/// Releasing the scene releases ten objects, the eight that building it made
/// and the two programs it was given, and creates none: over its life the
/// scene leaves nothing behind.
pub proof fn lemma_release_balances_build(
    scene: Scene,
    first_blob: usize,
    image_width: u32,
    image_height: u32,
    width: u32,
    height: u32,
)
    ensures
        creations(scene.release_calls()) == 0,
        deletions(scene.release_calls()) == 10,
        deletions(scene.release_calls()) == creations(
            scene.build_calls(first_blob, image_width, image_height, width, height),
        ) + 2,
{
    reveal_with_fuel(creations, 7);
    reveal_with_fuel(deletions, 7);
    let head = seq![
        GlCall::DeleteVertexArray { name: scene.frame_v_array.name() },
        GlCall::DeleteBuffer { name: scene.frame_v_buffer.name() },
    ];
    let target = FrameBuffer::delete_calls(
        scene.frame_buffer.name(),
        scene.frame_buffer.texture_name(),
    );
    let tail = seq![
        GlCall::DeleteTexture { name: scene.texture.name() },
        GlCall::DeleteVertexArray { name: scene.v_array.name() },
        GlCall::DeleteBuffer { name: scene.i_buffer.name() },
        GlCall::DeleteBuffer { name: scene.v_buffer.name() },
        GlCall::DeleteProgram { program: scene.square_program.name() },
        GlCall::DeleteProgram { program: scene.shader_program.name() },
    ];
    lemma_delete_releases_two(scene.frame_buffer.name(), scene.frame_buffer.texture_name());
    lemma_counts_add(head, target);
    lemma_counts_add(head + target, tail);
    lemma_build_creates_eight(scene, first_blob, image_width, image_height, width, height);
}

} // verus!
