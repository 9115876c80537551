//! Shaders and shader programs: which calls build them, and what the driver's
//! answers make of them.

use crate::gl::creations;
use crate::gl::deletions;
use crate::gl::lemma_counts_add;
use crate::gl::lemma_counts_push;
use crate::gl::live_objects;
use crate::gl::Gl;
use crate::gl::GlCall;
use crate::gl::FRAGMENT_SHADER;
use crate::gl::VERTEX_SHADER;
use crate::resources::found;
use crate::resources::text_of;
use crate::resources::Resources;
use vstd::prelude::*;
use vstd::string::StringExecFns;
use vstd::utf8::decode_utf8;
use vstd::utf8::valid_utf8;

verus! {

/// Why a shader or a program could not be built.
#[derive(Debug)]
pub enum Error {
    ResourceLoad { name: String, inner: crate::resources::Error },
    CanNotDetermineShaderTypeForResource { name: String },
    CompileError { name: String, message: String },
    LinkError { name: String, message: String },
}

impl Error {
    /// The error in words.
    pub open spec fn text(&self) -> Seq<char> {
        match self {
            Error::ResourceLoad { name, .. } => "Failed to load resource "@ + name@,
            Error::CanNotDetermineShaderTypeForResource { name } => {
                "Can not determine shader type for resource "@ + name@
            },
            Error::CompileError { name, message } => {
                "Failed to compile shader "@ + name@ + ": "@ + message@
            },
            Error::LinkError { name, message } => {
                "Failed to link program "@ + name@ + ": "@ + message@
            },
        }
    }

    /// The error in words.
    pub fn message(&self) -> (text: String)
        ensures
            text@ == self.text(),
    {
        match self {
            Error::ResourceLoad { name, .. } => {
                String::from_str("Failed to load resource ").concat(name.as_str())
            },
            Error::CanNotDetermineShaderTypeForResource { name } => {
                String::from_str("Can not determine shader type for resource ").concat(
                    name.as_str(),
                )
            },
            Error::CompileError { name, message } => {
                String::from_str("Failed to compile shader ").concat(name.as_str()).concat(
                    ": ",
                ).concat(message.as_str())
            },
            Error::LinkError { name, message } => {
                String::from_str("Failed to link program ").concat(name.as_str()).concat(
                    ": ",
                ).concat(message.as_str())
            },
        }
    }
}

/// What the driver answered when asked how a compile or a link went: the
/// status flag, zero for failure, and the bytes of its info log.
pub struct BuildStatus {
    pub success: i32,
    pub info_log: Vec<u8>,
}

/// The text that `String::from_utf8_lossy` makes of `bytes`.
pub uninterp spec fn utf8_lossy(bytes: Seq<u8>) -> Seq<char>;

/// Calls `String::from_utf8_lossy`: the bytes as text, each invalid sequence
/// replaced by U+FFFD. Of bytes that are valid UTF-8 the text is the one they
/// encode; for the rest the contract only names the result.
#[verifier::external_body]
fn lossy_text(bytes: &Vec<u8>) -> (text: String)
    ensures
        text@ == utf8_lossy(bytes@),
        valid_utf8(bytes@) ==> text@ == decode_utf8(bytes@),
{
    String::from_utf8_lossy(bytes).into_owned()
}

/// Whether `text` ends with `suffix`.
pub open spec fn ends_with(text: Seq<char>, suffix: Seq<char>) -> bool {
    text.len() >= suffix.len() && text.subrange(text.len() - suffix.len(), text.len() as int)
        == suffix
}

/// Calls `str::ends_with` with a string as the pattern: whether the pattern
/// matches a suffix of the text.
#[verifier::external_body]
fn str_ends_with(text: &str, suffix: &str) -> (ends: bool)
    ensures
        ends == ends_with(text@, suffix@),
{
    text.ends_with(suffix)
}

/// The shader type that a resource name stands for: a vertex shader for
/// `.vert`, a fragment shader for `.frag`, none for any other name.
pub open spec fn shader_type_of(name: Seq<char>) -> Option<u32> {
    if ends_with(name, ".vert"@) {
        Some(VERTEX_SHADER)
    } else if ends_with(name, ".frag"@) {
        Some(FRAGMENT_SHADER)
    } else {
        None
    }
}

/// The calls that submit a shader named `name` for compilation from the
/// source staged at `blob`.
pub open spec fn compile_calls(name: u32, shader_type: u32, blob: usize) -> Seq<GlCall> {
    seq![
        GlCall::CreateShader { name, shader_type },
        GlCall::ShaderSource { shader: name, blob },
        GlCall::CompileShader { shader: name },
    ]
}

/// A shader object of the driver.
pub struct Shader {
    id: u32,
}

impl Shader {
    /// The object's name.
    pub closed spec fn name(&self) -> u32 {
        self.id
    }

    /// The object's name.
    pub fn get_id(&self) -> (id: u32)
        ensures
            id == self.name(),
    {
        self.id
    }

    /// Computes `shader_type_of`.
    pub fn shader_type(name: &str) -> (shader_type: Option<u32>)
        ensures
            shader_type == shader_type_of(name@),
    {
        if str_ends_with(name, ".vert") {
            Some(VERTEX_SHADER)
        } else if str_ends_with(name, ".frag") {
            Some(FRAGMENT_SHADER)
        } else {
            None
        }
    }

    /// Submits the shader asset `name` for compilation. The type is told from
    /// the name's ending, then the source is loaded; where either fails,
    /// nothing is created, issued or staged. Whether the source compiles is
    /// the driver's to say: hand its answer to `compiled`.
    pub fn from_resource(gl: &mut Gl, res: &Resources, name: &str) -> (shader: Result<
        Shader,
        Error,
    >)
        requires
            old(gl).has_names(1),
        ensures
            match (shader_type_of(name@), text_of(found(res@, name@))) {
                (None, _) => {
                    &&& shader matches Err(Error::CanNotDetermineShaderTypeForResource { name: n })
                    &&& n@ == name@
                    &&& *final(gl) == *old(gl)
                },
                (Some(_), Err(error)) => {
                    &&& shader matches Err(Error::ResourceLoad { name: n, inner })
                    &&& n@ == name@
                    &&& inner == error
                    &&& *final(gl) == *old(gl)
                },
                (Some(shader_type), Ok(source)) => {
                    &&& shader matches Ok(shader)
                    &&& shader.name() == old(gl).next_name()
                    &&& final(gl).staged() == old(gl).staged().push(source)
                    &&& final(gl).issued() == old(gl).issued() + compile_calls(
                        shader.name(),
                        shader_type,
                        old(gl).next_blob(),
                    )
                    &&& final(gl).next_name() == old(gl).next_name() + 1
                },
            },
    {
        let shader_type = match Self::shader_type(name) {
            Some(shader_type) => shader_type,
            None => {
                return Err(Error::CanNotDetermineShaderTypeForResource { name: name.to_owned() });
            },
        };
        let source = match res.load_cstring(name) {
            Ok(source) => source,
            Err(inner) => {
                return Err(Error::ResourceLoad { name: name.to_owned(), inner });
            },
        };
        Ok(Self::from_source(gl, source, shader_type))
    }

    /// Submits `source` for compilation as a shader of the given type.
    pub fn from_source(gl: &mut Gl, source: Vec<u8>, shader_type: u32) -> (shader: Shader)
        requires
            old(gl).has_names(1),
        ensures
            shader.name() == old(gl).next_name(),
            final(gl).staged() == old(gl).staged().push(source@),
            final(gl).issued() == old(gl).issued() + compile_calls(
                shader.name(),
                shader_type,
                old(gl).next_blob(),
            ),
            final(gl).next_name() == old(gl).next_name() + 1,
    {
        let id = gl.fresh_name();
        gl.issue(GlCall::CreateShader { name: id, shader_type });
        let blob = gl.stage(source);
        gl.issue(GlCall::ShaderSource { shader: id, blob });
        gl.issue(GlCall::CompileShader { shader: id });
        assert(gl.issued() =~= old(gl).issued() + compile_calls(id, shader_type, blob));
        Shader { id }
    }

    /// Settles a submitted shader with the driver's answer. A status other
    /// than zero keeps the shader. A zero status releases it and gives the
    /// compile error, made of the asset's name and the text of the info log.
    pub fn compiled(self, gl: &mut Gl, status: &BuildStatus, name: &str) -> (shader: Result<
        Shader,
        Error,
    >)
        ensures
            status.success != 0 ==> {
                &&& shader matches Ok(kept)
                &&& kept == self
                &&& *final(gl) == *old(gl)
            },
            status.success == 0 ==> {
                &&& shader matches Err(Error::CompileError { name: n, message })
                &&& n@ == name@
                &&& message@ == utf8_lossy(status.info_log@)
                &&& valid_utf8(status.info_log@) ==> message@ == decode_utf8(status.info_log@)
                &&& final(gl).issued() == old(gl).issued().push(
                    GlCall::DeleteShader { shader: self.name() },
                )
                &&& final(gl).staged() == old(gl).staged()
                &&& final(gl).next_name() == old(gl).next_name()
            },
    {
        if status.success == 0 {
            let message = lossy_text(&status.info_log);
            self.delete(gl);
            Err(Error::CompileError { name: name.to_owned(), message })
        } else {
            Ok(self)
        }
    }

    /// Releases the object.
    pub fn delete(self, gl: &mut Gl)
        ensures
            final(gl).issued() == old(gl).issued().push(
                GlCall::DeleteShader { shader: self.name() },
            ),
            final(gl).staged() == old(gl).staged(),
            final(gl).next_name() == old(gl).next_name(),
    {
        gl.issue(GlCall::DeleteShader { shader: self.id });
    }
}

/// The names of the shaders, in order.
pub open spec fn shader_names(shaders: Seq<Shader>) -> Seq<u32> {
    shaders.map_values(|shader: Shader| shader.name())
}

/// One attach call for each shader, in order.
pub open spec fn attach_calls(program: u32, shaders: Seq<u32>) -> Seq<GlCall> {
    shaders.map_values(|shader: u32| GlCall::AttachShader { program, shader })
}

/// One detach call for each shader, in order.
pub open spec fn detach_calls(program: u32, shaders: Seq<u32>) -> Seq<GlCall> {
    shaders.map_values(|shader: u32| GlCall::DetachShader { program, shader })
}

/// The calls that submit a program named `program` for linking: create it,
/// attach every shader, link, detach every shader.
pub open spec fn link_calls(program: u32, shaders: Seq<u32>) -> Seq<GlCall> {
    seq![GlCall::CreateProgram { name: program }] + attach_calls(program, shaders) + seq![
        GlCall::LinkProgram { program },
    ] + detach_calls(program, shaders)
}

/// Submitting a shader creates one object and releases none.
pub proof fn lemma_compile_creates_one(name: u32, shader_type: u32, blob: usize)
    ensures
        creations(compile_calls(name, shader_type, blob)) == 1,
        deletions(compile_calls(name, shader_type, blob)) == 0,
{
    reveal_with_fuel(creations, 4);
    reveal_with_fuel(deletions, 4);
}

/// Attaching and detaching create nothing and release nothing.
pub proof fn lemma_attach_detach_neutral(program: u32, shaders: Seq<u32>)
    ensures
        creations(attach_calls(program, shaders)) == 0,
        deletions(attach_calls(program, shaders)) == 0,
        creations(detach_calls(program, shaders)) == 0,
        deletions(detach_calls(program, shaders)) == 0,
    decreases shaders.len(),
{
    if shaders.len() > 0 {
        lemma_attach_detach_neutral(program, shaders.drop_last());
        assert(attach_calls(program, shaders).drop_last() =~= attach_calls(
            program,
            shaders.drop_last(),
        ));
        assert(detach_calls(program, shaders).drop_last() =~= detach_calls(
            program,
            shaders.drop_last(),
        ));
    }
}

/// Submitting a program creates one object and releases none, however many
/// shaders it is made of.
pub proof fn lemma_link_creates_one(program: u32, shaders: Seq<u32>)
    ensures
        creations(link_calls(program, shaders)) == 1,
        deletions(link_calls(program, shaders)) == 0,
{
    reveal_with_fuel(creations, 2);
    reveal_with_fuel(deletions, 2);
    let create = seq![GlCall::CreateProgram { name: program }];
    let attach = attach_calls(program, shaders);
    let link = seq![GlCall::LinkProgram { program }];
    let detach = detach_calls(program, shaders);
    lemma_attach_detach_neutral(program, shaders);
    lemma_counts_add(create, attach);
    lemma_counts_add(create + attach, link);
    lemma_counts_add(create + attach + link, detach);
}

/// A program object of the driver.
pub struct ShaderProgram {
    id: u32,
}

impl ShaderProgram {
    /// The object's name.
    pub closed spec fn name(&self) -> u32 {
        self.id
    }

    /// The object's name.
    pub fn get_id(&self) -> (id: u32)
        ensures
            id == self.name(),
    {
        self.id
    }

    /// Submits a program made of the given shaders for linking. Whether it
    /// links is the driver's to say: hand its answer to `linked`.
    pub fn from_shaders(gl: &mut Gl, shaders: &Vec<Shader>) -> (program: ShaderProgram)
        requires
            old(gl).has_names(1),
        ensures
            program.name() == old(gl).next_name(),
            final(gl).issued() == old(gl).issued() + link_calls(
                program.name(),
                shader_names(shaders@),
            ),
            final(gl).staged() == old(gl).staged(),
            final(gl).next_name() == old(gl).next_name() + 1,
    {
        let id = gl.fresh_name();
        gl.issue(GlCall::CreateProgram { name: id });
        let ghost names = shader_names(shaders@);
        let ghost created = gl.issued();
        let mut i: usize = 0;
        while i < shaders.len()
            invariant
                i <= shaders.len(),
                names == shader_names(shaders@),
                gl.issued() == created + attach_calls(id, names.take(i as int)),
                gl.staged() == old(gl).staged(),
                gl.next_name() == old(gl).next_name() + 1,
            decreases shaders.len() - i,
        {
            gl.issue(GlCall::AttachShader { program: id, shader: shaders[i].get_id() });
            assert(attach_calls(id, names.take(i + 1)) =~= attach_calls(
                id,
                names.take(i as int),
            ).push(GlCall::AttachShader { program: id, shader: names[i as int] }));
            i = i + 1;
        }
        assert(names.take(i as int) =~= names);
        gl.issue(GlCall::LinkProgram { program: id });
        let ghost linked = gl.issued();
        let mut j: usize = 0;
        while j < shaders.len()
            invariant
                j <= shaders.len(),
                names == shader_names(shaders@),
                gl.issued() == linked + detach_calls(id, names.take(j as int)),
                gl.staged() == old(gl).staged(),
                gl.next_name() == old(gl).next_name() + 1,
            decreases shaders.len() - j,
        {
            gl.issue(GlCall::DetachShader { program: id, shader: shaders[j].get_id() });
            assert(detach_calls(id, names.take(j + 1)) =~= detach_calls(
                id,
                names.take(j as int),
            ).push(GlCall::DetachShader { program: id, shader: names[j as int] }));
            j = j + 1;
        }
        assert(names.take(j as int) =~= names);
        assert(gl.issued() =~= old(gl).issued() + link_calls(id, names));
        ShaderProgram { id }
    }

    /// Settles a submitted program with the driver's answer. A status other
    /// than zero keeps the program. A zero status releases it and gives the
    /// link error, made of the program's name and the text of the info log.
    pub fn linked(self, gl: &mut Gl, status: &BuildStatus, name: &str) -> (program: Result<
        ShaderProgram,
        Error,
    >)
        ensures
            status.success != 0 ==> {
                &&& program matches Ok(kept)
                &&& kept == self
                &&& *final(gl) == *old(gl)
            },
            status.success == 0 ==> {
                &&& program matches Err(Error::LinkError { name: n, message })
                &&& n@ == name@
                &&& message@ == utf8_lossy(status.info_log@)
                &&& valid_utf8(status.info_log@) ==> message@ == decode_utf8(status.info_log@)
                &&& final(gl).issued() == old(gl).issued().push(
                    GlCall::DeleteProgram { program: self.name() },
                )
                &&& final(gl).staged() == old(gl).staged()
                &&& final(gl).next_name() == old(gl).next_name()
            },
    {
        if status.success == 0 {
            let message = lossy_text(&status.info_log);
            self.delete(gl);
            Err(Error::LinkError { name: name.to_owned(), message })
        } else {
            Ok(self)
        }
    }

    /// Makes the program the current one.
    pub fn bind(&self, gl: &mut Gl)
        ensures
            final(gl).issued() == old(gl).issued().push(
                GlCall::UseProgram { program: self.name() },
            ),
            final(gl).staged() == old(gl).staged(),
            final(gl).next_name() == old(gl).next_name(),
    {
        gl.issue(GlCall::UseProgram { program: self.id });
    }

    /// Releases the object.
    pub fn delete(self, gl: &mut Gl)
        ensures
            final(gl).issued() == old(gl).issued().push(
                GlCall::DeleteProgram { program: self.name() },
            ),
            final(gl).staged() == old(gl).staged(),
            final(gl).next_name() == old(gl).next_name(),
    {
        gl.issue(GlCall::DeleteProgram { program: self.id });
    }
}

/// The name of the vertex shader asset of the program `name`: `name` with
/// `.vert` put behind it.
pub open spec fn vertex_asset(name: Seq<char>) -> Seq<char> {
    name + ".vert"@
}

/// The name of the fragment shader asset of the program `name`: `name` with
/// `.frag` put behind it.
pub open spec fn fragment_asset(name: Seq<char>) -> Seq<char> {
    name + ".frag"@
}

/// The type of a program's two assets can always be told from their names.
pub proof fn lemma_program_asset_types(name: Seq<char>)
    ensures
        shader_type_of(vertex_asset(name)) == Some(VERTEX_SHADER),
        shader_type_of(fragment_asset(name)) == Some(FRAGMENT_SHADER),
{
    reveal_strlit(".vert");
    reveal_strlit(".frag");
    let vertex = vertex_asset(name);
    let fragment = fragment_asset(name);
    assert(vertex.subrange(vertex.len() - 5, vertex.len() as int) =~= ".vert"@);
    assert(fragment.subrange(fragment.len() - 5, fragment.len() as int) =~= ".frag"@);
    assert(".frag"@[1] != ".vert"@[1]);
}

/// What the driver is to be asked next.
#[derive(Debug, Clone, Copy, PartialEq, Eq, Structural)]
pub enum StatusQuery {
    /// The compile status and info log of a shader.
    Compile { shader: u32 },
    /// The link status and info log of a program.
    Link { program: u32 },
}

/// The building of a program from the assets `name.vert` and `name.frag`, at
/// one of its stops: each but the last waits for an answer of the driver.
pub enum ProgramBuild {
    /// The vertex shader is submitted.
    Vertex { name: String, vertex: Shader },
    /// The vertex shader compiled; the fragment shader is submitted.
    Fragment { name: String, vertex: Shader, fragment: Shader },
    /// Both shaders compiled; the program is submitted.
    Link { name: String, program: ShaderProgram, vertex: Shader, fragment: Shader },
    /// The build has ended.
    Done { result: Result<ShaderProgram, Error> },
}

impl ShaderProgram {
    /// Starts building the program `name`: submits its vertex shader, the asset
    /// `name.vert`. Where that asset cannot be loaded the build ends at once,
    /// with nothing created, issued or staged.
    pub fn from_resource(gl: &mut Gl, res: &Resources, name: &str) -> (build: ProgramBuild)
        requires
            old(gl).has_names(1),
        ensures
            live_objects(final(gl).issued()) == live_objects(old(gl).issued()) + build.owned(),
            match text_of(found(res@, vertex_asset(name@))) {
                Err(error) => {
                    &&& build matches ProgramBuild::Done {
                        result: Err(Error::ResourceLoad { name: n, inner }),
                    }
                    &&& n@ == vertex_asset(name@)
                    &&& inner == error
                    &&& *final(gl) == *old(gl)
                },
                Ok(source) => {
                    &&& build matches ProgramBuild::Vertex { name: n, vertex }
                    &&& n@ == name@
                    &&& vertex.name() == old(gl).next_name()
                    &&& final(gl).staged() == old(gl).staged().push(source)
                    &&& final(gl).issued() == old(gl).issued() + compile_calls(
                        vertex.name(),
                        VERTEX_SHADER,
                        old(gl).next_blob(),
                    )
                    &&& final(gl).next_name() == old(gl).next_name() + 1
                },
            },
    {
        proof {
            lemma_program_asset_types(name@);
        }
        let asset = String::from_str(name).concat(".vert");
        match Shader::from_resource(gl, res, asset.as_str()) {
            Ok(vertex) => {
                proof {
                    let submitted = compile_calls(vertex.name(), VERTEX_SHADER, old(gl).next_blob());
                    lemma_compile_creates_one(vertex.name(), VERTEX_SHADER, old(gl).next_blob());
                    lemma_counts_add(old(gl).issued(), submitted);
                }
                ProgramBuild::Vertex { name: name.to_owned(), vertex }
            },
            Err(error) => ProgramBuild::Done { result: Err(error) },
        }
    }
}

impl ProgramBuild {
    /// How many driver objects the build holds: the shaders made so far and
    /// the program submitted; once it has ended, the program that came of it.
    pub open spec fn owned(&self) -> nat {
        match self {
            ProgramBuild::Vertex { .. } => 1,
            ProgramBuild::Fragment { .. } => 2,
            ProgramBuild::Link { .. } => 3,
            ProgramBuild::Done { result: Ok(_) } => 1,
            ProgramBuild::Done { result: Err(_) } => 0,
        }
    }

    /// What to ask the driver before the next `advance`; `None` once the build
    /// has ended.
    pub fn awaits(&self) -> (query: Option<StatusQuery>)
        ensures
            query == match self {
                ProgramBuild::Vertex { vertex, .. } => Some(
                    StatusQuery::Compile { shader: vertex.name() },
                ),
                ProgramBuild::Fragment { fragment, .. } => Some(
                    StatusQuery::Compile { shader: fragment.name() },
                ),
                ProgramBuild::Link { program, .. } => Some(
                    StatusQuery::Link { program: program.name() },
                ),
                ProgramBuild::Done { .. } => None,
            },
    {
        match self {
            ProgramBuild::Vertex { vertex, .. } => Some(
                StatusQuery::Compile { shader: vertex.get_id() },
            ),
            ProgramBuild::Fragment { fragment, .. } => Some(
                StatusQuery::Compile { shader: fragment.get_id() },
            ),
            ProgramBuild::Link { program, .. } => Some(
                StatusQuery::Link { program: program.get_id() },
            ),
            ProgramBuild::Done { .. } => None,
        }
    }

    /// The outcome of a build that has ended; the build itself where it has
    /// not.
    pub fn finish(self) -> (outcome: Result<Result<ShaderProgram, Error>, ProgramBuild>)
        ensures
            match self {
                ProgramBuild::Done { result } => outcome == Ok::<
                    Result<ShaderProgram, Error>,
                    ProgramBuild,
                >(result),
                _ => outcome == Err::<Result<ShaderProgram, Error>, ProgramBuild>(self),
            },
    {
        match self {
            ProgramBuild::Done { result } => Ok(result),
            other => Err(other),
        }
    }

    /// Takes the build one stop further with the driver's answer to `awaits`.
    ///
    /// A vertex shader that compiled is followed by the fragment shader, the
    /// asset `name.frag`; a fragment shader that compiled by the program made
    /// of both; a program that linked ends the build with that program. A zero
    /// status ends the build with the compile or link error of that stop, and
    /// so does a fragment asset that cannot be loaded. Whenever the build
    /// ends, every shader made on the way is released, and so is a program
    /// that did not link: at every stop the objects that the calls leave
    /// behind are those that the build holds. A build that has ended stays as
    /// it is.
    pub fn advance(self, gl: &mut Gl, res: &Resources, status: &BuildStatus) -> (next: ProgramBuild)
        requires
            old(gl).has_names(1),
        ensures
            live_objects(final(gl).issued()) + self.owned() == live_objects(old(gl).issued())
                + next.owned(),
            match self {
                ProgramBuild::Vertex { name, vertex } => if status.success == 0 {
                    &&& next matches ProgramBuild::Done {
                        result: Err(Error::CompileError { name: n, message }),
                    }
                    &&& n@ == vertex_asset(name@)
                    &&& message@ == utf8_lossy(status.info_log@)
                    &&& valid_utf8(status.info_log@) ==> message@ == decode_utf8(
                        status.info_log@,
                    )
                    &&& final(gl).issued() == old(gl).issued().push(
                        GlCall::DeleteShader { shader: vertex.name() },
                    )
                    &&& final(gl).staged() == old(gl).staged()
                    &&& final(gl).next_name() == old(gl).next_name()
                } else {
                    match text_of(found(res@, fragment_asset(name@))) {
                        Err(error) => {
                            &&& next matches ProgramBuild::Done {
                                result: Err(Error::ResourceLoad { name: n, inner }),
                            }
                            &&& n@ == fragment_asset(name@)
                            &&& inner == error
                            &&& final(gl).issued() == old(gl).issued().push(
                                GlCall::DeleteShader { shader: vertex.name() },
                            )
                            &&& final(gl).staged() == old(gl).staged()
                            &&& final(gl).next_name() == old(gl).next_name()
                        },
                        Ok(source) => {
                            &&& next matches ProgramBuild::Fragment {
                                name: n,
                                vertex: v,
                                fragment,
                            }
                            &&& n@ == name@
                            &&& v == vertex
                            &&& fragment.name() == old(gl).next_name()
                            &&& final(gl).staged() == old(gl).staged().push(source)
                            &&& final(gl).issued() == old(gl).issued() + compile_calls(
                                fragment.name(),
                                FRAGMENT_SHADER,
                                old(gl).next_blob(),
                            )
                            &&& final(gl).next_name() == old(gl).next_name() + 1
                        },
                    }
                },
                ProgramBuild::Fragment { name, vertex, fragment } => if status.success == 0 {
                    &&& next matches ProgramBuild::Done {
                        result: Err(Error::CompileError { name: n, message }),
                    }
                    &&& n@ == fragment_asset(name@)
                    &&& message@ == utf8_lossy(status.info_log@)
                    &&& valid_utf8(status.info_log@) ==> message@ == decode_utf8(
                        status.info_log@,
                    )
                    &&& final(gl).issued() == old(gl).issued() + seq![
                        GlCall::DeleteShader { shader: fragment.name() },
                        GlCall::DeleteShader { shader: vertex.name() },
                    ]
                    &&& final(gl).staged() == old(gl).staged()
                    &&& final(gl).next_name() == old(gl).next_name()
                } else {
                    &&& next matches ProgramBuild::Link { name: n, program, vertex: v, fragment: f }
                    &&& n@ == name@
                    &&& v == vertex
                    &&& f == fragment
                    &&& program.name() == old(gl).next_name()
                    &&& final(gl).issued() == old(gl).issued() + link_calls(
                        program.name(),
                        seq![vertex.name(), fragment.name()],
                    )
                    &&& final(gl).staged() == old(gl).staged()
                    &&& final(gl).next_name() == old(gl).next_name() + 1
                },
                ProgramBuild::Link { name, program, vertex, fragment } => {
                    &&& final(gl).staged() == old(gl).staged()
                    &&& final(gl).next_name() == old(gl).next_name()
                    &&& if status.success == 0 {
                        &&& next matches ProgramBuild::Done {
                            result: Err(Error::LinkError { name: n, message }),
                        }
                        &&& n@ == name@
                        &&& message@ == utf8_lossy(status.info_log@)
                        &&& valid_utf8(status.info_log@) ==> message@ == decode_utf8(
                            status.info_log@,
                        )
                        &&& final(gl).issued() == old(gl).issued() + seq![
                            GlCall::DeleteProgram { program: program.name() },
                            GlCall::DeleteShader { shader: vertex.name() },
                            GlCall::DeleteShader { shader: fragment.name() },
                        ]
                    } else {
                        &&& next matches ProgramBuild::Done { result: Ok(built) }
                        &&& built == program
                        &&& final(gl).issued() == old(gl).issued() + seq![
                            GlCall::DeleteShader { shader: vertex.name() },
                            GlCall::DeleteShader { shader: fragment.name() },
                        ]
                    }
                },
                ProgramBuild::Done { .. } => next == self && *final(gl) == *old(gl),
            },
    {
        match self {
            ProgramBuild::Vertex { name, vertex } => {
                proof {
                    lemma_program_asset_types(name@);
                }
                let asset = name.clone().concat(".vert");
                match vertex.compiled(gl, status, asset.as_str()) {
                    Err(error) => {
                        proof {
                            lemma_counts_push(
                                old(gl).issued(),
                                GlCall::DeleteShader { shader: vertex.name() },
                            );
                        }
                        ProgramBuild::Done { result: Err(error) }
                    },
                    Ok(vertex) => {
                        let asset = name.clone().concat(".frag");
                        let ghost before = *gl;
                        match Shader::from_resource(gl, res, asset.as_str()) {
                            Err(error) => {
                                assert(*gl == before);
                                vertex.delete(gl);
                                proof {
                                    lemma_counts_push(
                                        old(gl).issued(),
                                        GlCall::DeleteShader { shader: vertex.name() },
                                    );
                                }
                                ProgramBuild::Done { result: Err(error) }
                            },
                            Ok(fragment) => {
                                proof {
                                    let submitted = compile_calls(
                                        fragment.name(),
                                        FRAGMENT_SHADER,
                                        old(gl).next_blob(),
                                    );
                                    lemma_compile_creates_one(
                                        fragment.name(),
                                        FRAGMENT_SHADER,
                                        old(gl).next_blob(),
                                    );
                                    lemma_counts_add(old(gl).issued(), submitted);
                                }
                                ProgramBuild::Fragment { name, vertex, fragment }
                            },
                        }
                    },
                }
            },
            ProgramBuild::Fragment { name, vertex, fragment } => {
                let asset = name.clone().concat(".frag");
                match fragment.compiled(gl, status, asset.as_str()) {
                    Err(error) => {
                        vertex.delete(gl);
                        let ghost released = seq![
                            GlCall::DeleteShader { shader: fragment.name() },
                            GlCall::DeleteShader { shader: vertex.name() },
                        ];
                        assert(gl.issued() =~= old(gl).issued() + released);
                        proof {
                            reveal_with_fuel(creations, 3);
                            reveal_with_fuel(deletions, 3);
                            lemma_counts_add(old(gl).issued(), released);
                        }
                        ProgramBuild::Done { result: Err(error) }
                    },
                    Ok(fragment) => {
                        let mut shaders: Vec<Shader> = Vec::new();
                        shaders.push(vertex);
                        shaders.push(fragment);
                        assert(shader_names(shaders@) =~= seq![vertex.name(), fragment.name()]);
                        let program = ShaderProgram::from_shaders(gl, &shaders);
                        proof {
                            let names = seq![vertex.name(), fragment.name()];
                            lemma_link_creates_one(program.name(), names);
                            lemma_counts_add(old(gl).issued(), link_calls(program.name(), names));
                        }
                        let fragment = shaders.pop().unwrap();
                        let vertex = shaders.pop().unwrap();
                        ProgramBuild::Link { name, program, vertex, fragment }
                    },
                }
            },
            ProgramBuild::Link { name, program, vertex, fragment } => {
                let result = program.linked(gl, status, name.as_str());
                let ghost settled = gl.issued();
                vertex.delete(gl);
                fragment.delete(gl);
                let ghost released = seq![
                    GlCall::DeleteShader { shader: vertex.name() },
                    GlCall::DeleteShader { shader: fragment.name() },
                ];
                assert(gl.issued() =~= settled + released);
                proof {
                    reveal_with_fuel(creations, 3);
                    reveal_with_fuel(deletions, 3);
                    lemma_counts_add(settled, released);
                }
                if status.success == 0 {
                    assert(gl.issued() =~= old(gl).issued() + seq![
                        GlCall::DeleteProgram { program: program.name() },
                        GlCall::DeleteShader { shader: vertex.name() },
                        GlCall::DeleteShader { shader: fragment.name() },
                    ]);
                    proof {
                        lemma_counts_push(
                            old(gl).issued(),
                            GlCall::DeleteProgram { program: program.name() },
                        );
                    }
                }
                ProgramBuild::Done { result }
            },
            ProgramBuild::Done { result } => ProgramBuild::Done { result },
        }
    }
}

} // verus!
