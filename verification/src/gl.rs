//! The GL context as the library sees it: an ordered record of the calls to
//! hand to the driver, the bulk data they refer to, and the object names that
//! were given out.

use vstd::prelude::*;

verus! {

pub const FALSE: u8 = 0;

pub const TRIANGLES: u32 = 0x0004;

pub const SRC_ALPHA: u32 = 0x0302;

pub const ONE_MINUS_SRC_ALPHA: u32 = 0x0303;

pub const BLEND: u32 = 0x0BE2;

pub const TEXTURE_2D: u32 = 0x0DE1;

pub const UNSIGNED_BYTE: u32 = 0x1401;

pub const FLOAT: u32 = 0x1406;

pub const RGB: u32 = 0x1907;

pub const LINEAR: u32 = 0x2601;

pub const TEXTURE_MAG_FILTER: u32 = 0x2800;

pub const TEXTURE_MIN_FILTER: u32 = 0x2801;

pub const COLOR_BUFFER_BIT: u32 = 0x4000;

pub const RGB8: u32 = 0x8051;

pub const ARRAY_BUFFER: u32 = 0x8892;

pub const ELEMENT_ARRAY_BUFFER: u32 = 0x8893;

pub const STATIC_DRAW: u32 = 0x88E4;

pub const FRAGMENT_SHADER: u32 = 0x8B30;

pub const VERTEX_SHADER: u32 = 0x8B31;

pub const COMPILE_STATUS: u32 = 0x8B81;

pub const LINK_STATUS: u32 = 0x8B82;

pub const INFO_LOG_LENGTH: u32 = 0x8B84;

pub const FRAMEBUFFER_COMPLETE: u32 = 0x8CD5;

pub const COLOR_ATTACHMENT0: u32 = 0x8CE0;

pub const FRAMEBUFFER: u32 = 0x8D40;

/// Which of the camera's two matrices a uniform upload carries.
#[derive(Debug, Clone, Copy, PartialEq, Eq, Structural)]
pub enum CameraMatrix {
    View,
    Projection,
}

/// One call to the driver. Object names are those that `Gl::fresh_name` gave
/// out, `0` standing for "no object"; bulk data is named by its place among the
/// staged blobs.
#[derive(Debug, Clone, Copy, PartialEq, Eq, Structural)]
pub enum GlCall {
    Enable { cap: u32 },
    BlendFunc { sfactor: u32, dfactor: u32 },
    Viewport { x: i32, y: i32, width: i32, height: i32 },
    /// The three colour channels in hundredths; alpha is one.
    ClearColor { red: u8, green: u8, blue: u8 },
    Clear { mask: u32 },
    /// Indexed draw from the start of the bound element buffer.
    DrawElements { mode: u32, count: i32, index_type: u32 },
    GenBuffer { name: u32 },
    BindBuffer { target: u32, name: u32 },
    BufferData { target: u32, blob: usize, usage: u32 },
    DeleteBuffer { name: u32 },
    GenVertexArray { name: u32 },
    BindVertexArray { name: u32 },
    DeleteVertexArray { name: u32 },
    EnableVertexAttribArray { index: u32 },
    VertexAttribPointer {
        index: u32,
        size: i32,
        component_type: u32,
        normalized: u8,
        stride: i32,
        offset: usize,
    },
    GenFramebuffer { name: u32 },
    BindFramebuffer { target: u32, name: u32 },
    FramebufferTexture2D { target: u32, attachment: u32, textarget: u32, texture: u32, level: i32 },
    DeleteFramebuffer { name: u32 },
    GenTexture { name: u32 },
    BindTexture { target: u32, name: u32 },
    /// `pixels` is `None` where the driver is to allocate without filling.
    TexImage2D {
        target: u32,
        level: i32,
        internal_format: i32,
        width: i32,
        height: i32,
        border: i32,
        format: u32,
        pixel_type: u32,
        pixels: Option<usize>,
    },
    TexParameteri { target: u32, pname: u32, param: i32 },
    GenerateMipmap { target: u32 },
    DeleteTexture { name: u32 },
    CreateShader { name: u32, shader_type: u32 },
    ShaderSource { shader: u32, blob: usize },
    CompileShader { shader: u32 },
    DeleteShader { shader: u32 },
    CreateProgram { name: u32 },
    AttachShader { program: u32, shader: u32 },
    LinkProgram { program: u32 },
    DetachShader { program: u32, shader: u32 },
    UseProgram { program: u32 },
    DeleteProgram { program: u32 },
    UniformMatrix4 { location: i32, matrix: CameraMatrix },
}

impl GlCall {
    /// Whether the call brings a driver object into being.
    pub open spec fn creates(self) -> bool {
        self is GenBuffer || self is GenVertexArray || self is GenFramebuffer || self is GenTexture
            || self is CreateShader || self is CreateProgram
    }

    /// Whether the call releases a driver object.
    pub open spec fn deletes(self) -> bool {
        self is DeleteBuffer || self is DeleteVertexArray || self is DeleteFramebuffer
            || self is DeleteTexture || self is DeleteShader || self is DeleteProgram
    }

    /// Computes `creates`.
    pub fn is_creation(&self) -> (b: bool)
        ensures
            b == self.creates(),
    {
        match self {
            GlCall::GenBuffer { .. } => true,
            GlCall::GenVertexArray { .. } => true,
            GlCall::GenFramebuffer { .. } => true,
            GlCall::GenTexture { .. } => true,
            GlCall::CreateShader { .. } => true,
            GlCall::CreateProgram { .. } => true,
            _ => false,
        }
    }

    /// Computes `deletes`.
    pub fn is_deletion(&self) -> (b: bool)
        ensures
            b == self.deletes(),
    {
        match self {
            GlCall::DeleteBuffer { .. } => true,
            GlCall::DeleteVertexArray { .. } => true,
            GlCall::DeleteFramebuffer { .. } => true,
            GlCall::DeleteTexture { .. } => true,
            GlCall::DeleteShader { .. } => true,
            GlCall::DeleteProgram { .. } => true,
            _ => false,
        }
    }
}

/// How many of the calls bring an object into being.
pub open spec fn creations(calls: Seq<GlCall>) -> nat
    decreases calls.len(),
{
    if calls.len() == 0 {
        0
    } else {
        creations(calls.drop_last()) + if calls.last().creates() {
            1nat
        } else {
            0nat
        }
    }
}

/// How many of the calls release an object.
pub open spec fn deletions(calls: Seq<GlCall>) -> nat
    decreases calls.len(),
{
    if calls.len() == 0 {
        0
    } else {
        deletions(calls.drop_last()) + if calls.last().deletes() {
            1nat
        } else {
            0nat
        }
    }
}

/// Both counts add up over a record made of two parts.
pub proof fn lemma_counts_add(first: Seq<GlCall>, second: Seq<GlCall>)
    ensures
        creations(first + second) == creations(first) + creations(second),
        deletions(first + second) == deletions(first) + deletions(second),
    decreases second.len(),
{
    if second.len() == 0 {
        assert(first + second =~= first);
    } else {
        assert((first + second).drop_last() =~= first + second.drop_last());
        assert((first + second).last() == second.last());
        lemma_counts_add(first, second.drop_last());
    }
}

/// Both counts grow by what one more call adds.
pub proof fn lemma_counts_push(calls: Seq<GlCall>, call: GlCall)
    ensures
        creations(calls.push(call)) == creations(calls) + if call.creates() {
            1nat
        } else {
            0nat
        },
        deletions(calls.push(call)) == deletions(calls) + if call.deletes() {
            1nat
        } else {
            0nat
        },
{
    assert(calls.push(call).drop_last() =~= calls);
}

/// How many objects the calls leave behind: those created and not released.
pub open spec fn live_objects(calls: Seq<GlCall>) -> int {
    creations(calls) - deletions(calls)
}

/// What the staged blobs hold, blob by blob.
pub open spec fn blob_bytes(blobs: Seq<Vec<u8>>) -> Seq<Seq<u8>> {
    blobs.map_values(|blob: Vec<u8>| blob@)
}

/// The record of calls that the wrappers of this library issue.
pub struct Gl {
    calls: Vec<GlCall>,
    blobs: Vec<Vec<u8>>,
    names_given: u32,
}

impl Gl {
    /// The calls issued and not yet handed over, oldest first.
    pub closed spec fn issued(&self) -> Seq<GlCall> {
        self.calls@
    }

    /// The blobs staged and not yet handed over.
    pub closed spec fn staged(&self) -> Seq<Seq<u8>> {
        blob_bytes(self.blobs@)
    }

    /// The place that the next staged blob gets: as many blobs as are staged.
    pub open spec fn next_blob(&self) -> usize {
        self.staged().len() as usize
    }

    /// The name that the next new object gets. Names are given out in rising
    /// order from 1, so every name below this one has been given out and none
    /// from it on; `0` is never the name of an object.
    pub closed spec fn next_name(&self) -> nat {
        self.names_given as nat + 1
    }

    /// Whether `count` more names can be given out.
    pub open spec fn has_names(&self, count: nat) -> bool {
        self.next_name() + count <= u32::MAX + 1
    }

    /// Names start at 1.
    pub proof fn lemma_next_name_positive(&self)
        ensures
            self.next_name() >= 1,
    {
    }

    /// The staged blobs can be counted in a machine word, so `next_blob` is
    /// their number.
    pub proof fn lemma_staged_fits(&self)
        ensures
            self.staged().len() <= usize::MAX,
            self.next_blob() == self.staged().len(),
    {
        assert(self.blobs.len() == self.blobs@.len());
    }

    /// Computes `has_names`.
    pub fn can_name(&self, count: u32) -> (can: bool)
        ensures
            can == self.has_names(count as nat),
    {
        count <= u32::MAX - self.names_given
    }

    /// A context with nothing issued, nothing staged and no name given out.
    pub fn new() -> (gl: Gl)
        ensures
            gl.issued() == Seq::<GlCall>::empty(),
            gl.staged() == Seq::<Seq<u8>>::empty(),
            gl.next_name() == 1,
    {
        let gl = Gl { calls: Vec::new(), blobs: Vec::new(), names_given: 0 };
        assert(gl.staged() =~= Seq::<Seq<u8>>::empty());
        gl
    }

    /// Appends one call to the record.
    pub fn issue(&mut self, call: GlCall)
        ensures
            final(self).issued() == old(self).issued().push(call),
            final(self).staged() == old(self).staged(),
            final(self).next_name() == old(self).next_name(),
    {
        self.calls.push(call);
    }

    /// Stages bulk data for a later call and returns its place.
    pub fn stage(&mut self, data: Vec<u8>) -> (blob: usize)
        ensures
            blob == old(self).next_blob(),
            blob == old(self).staged().len(),
            final(self).staged() == old(self).staged().push(data@),
            final(self).issued() == old(self).issued(),
            final(self).next_name() == old(self).next_name(),
    {
        let blob = self.blobs.len();
        self.blobs.push(data);
        assert(self.staged() =~= old(self).staged().push(data@));
        blob
    }

    /// Gives out the next object name.
    pub fn fresh_name(&mut self) -> (name: u32)
        requires
            old(self).has_names(1),
        ensures
            name == old(self).next_name(),
            final(self).next_name() == old(self).next_name() + 1,
            final(self).issued() == old(self).issued(),
            final(self).staged() == old(self).staged(),
    {
        self.names_given = self.names_given + 1;
        self.names_given
    }

    /// The calls issued and not yet handed over.
    pub fn calls(&self) -> (calls: &Vec<GlCall>)
        ensures
            calls@ == self.issued(),
    {
        &self.calls
    }

    /// The blobs staged and not yet handed over.
    pub fn blobs(&self) -> (blobs: &Vec<Vec<u8>>)
        ensures
            blob_bytes(blobs@) == self.staged(),
    {
        &self.blobs
    }

    /// Hands over what was issued and staged, and starts a new record. The names
    /// given out stay given out.
    pub fn flush(&mut self) -> (batch: (Vec<GlCall>, Vec<Vec<u8>>))
        ensures
            batch.0@ == old(self).issued(),
            blob_bytes(batch.1@) == old(self).staged(),
            final(self).issued() == Seq::<GlCall>::empty(),
            final(self).staged() == Seq::<Seq<u8>>::empty(),
            final(self).next_name() == old(self).next_name(),
    {
        let mut calls: Vec<GlCall> = Vec::new();
        let mut blobs: Vec<Vec<u8>> = Vec::new();
        std::mem::swap(&mut self.calls, &mut calls);
        std::mem::swap(&mut self.blobs, &mut blobs);
        assert(self.staged() =~= Seq::<Seq<u8>>::empty());
        (calls, blobs)
    }
}

} // verus!
