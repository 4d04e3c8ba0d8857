use crate::context::{
    Driver, Gl, GlEvent, COMPILE_STATUS, FRAGMENT_SHADER, INFO_LOG_LENGTH, LINK_STATUS,
    VERTEX_SHADER,
};
use crate::text::{lossy_text, utf8_lossy};
use vstd::prelude::*;
use vstd::string::{StrSliceExecFns, StringExecFns};

verus! {

/// Why a named resource could not be handed over.
#[derive(Clone, Copy, Debug, PartialEq, Eq, Structural)]
pub enum ResourceError {
    NotFound,
    Unreadable,
}

/// A source of shader text, addressed by name. Nothing is assumed of what
/// an implementation answers.
pub trait Resources {
    fn load_cstring(&self, name: &str) -> Result<Vec<u8>, ResourceError>;
}

/// One question put to the resources: the name asked for and what came back.
pub struct Request {
    pub name: Seq<char>,
    pub answer: Result<Seq<u8>, ResourceError>,
}

/// An answer of the resources as plain values.
pub open spec fn answer_view(answer: Result<Vec<u8>, ResourceError>) -> Result<
    Seq<u8>,
    ResourceError,
> {
    match answer {
        Ok(bytes) => Ok(bytes@),
        Err(cause) => Err(cause),
    }
}

/// The handle through which resources are asked for. It owns the source and
/// remembers, as ghost state, each request in the order it was made.
pub struct Loader<R: Resources> {
    source: R,
    asked: Ghost<Seq<Request>>,
}

impl<R: Resources> Loader<R> {
    /// Every request made through this handle so far, oldest first.
    pub closed spec fn asked(&self) -> Seq<Request> {
        self.asked@
    }

    /// The source behind the handle.
    pub closed spec fn backend(&self) -> R {
        self.source
    }

    /// Wraps a source. Nothing has been asked yet.
    pub fn new(source: R) -> (loader: Self)
        ensures
            loader.asked() == Seq::<Request>::empty(),
            loader.backend() == source,
    {
        Loader { source, asked: Ghost(Seq::empty()) }
    }

    /// The source behind the handle.
    pub fn source(&self) -> (source: &R)
        ensures
            *source == self.backend(),
    {
        &self.source
    }

    /// Gives the source back and ends the handle.
    pub fn into_source(self) -> (source: R)
        ensures
            source == self.backend(),
    {
        self.source
    }

    /// Asks the source for `name` and records the request with its answer.
    pub fn load_cstring(&mut self, name: &str) -> (answer: Result<Vec<u8>, ResourceError>)
        ensures
            final(self).asked() == old(self).asked().push(
                Request { name: name@, answer: answer_view(answer) },
            ),
            final(self).backend() == old(self).backend(),
    {
        let answer = self.source.load_cstring(name);
        proof {
            self.asked = Ghost(
                self.asked@.push(Request { name: name@, answer: answer_view(answer) }),
            );
        }
        answer
    }
}

/// What can go wrong while a shader or a program is set up.
#[derive(Debug)]
pub enum Error {
    UnableToLoadResource { name: String, cause: ResourceError },
    CannotDetermineShaderTypeForResource { name: String },
    CompileError { stage_name: String, message: String },
    LinkError { name: String, message: String },
}

impl Error {
    /// The sentence that `describe` writes for an error.
    pub open spec fn description(self) -> Seq<char> {
        match self {
            Error::UnableToLoadResource { name, cause } => "Failed to load resource "@ + name@,
            Error::CannotDetermineShaderTypeForResource { name } => {
                "Can not determine shader type for resource "@ + name@
            },
            Error::CompileError { stage_name, message } => {
                "Failed to compile shader "@ + stage_name@ + ": "@ + message@
            },
            Error::LinkError { name, message } => {
                "Failed to link program "@ + name@ + ": "@ + message@
            },
        }
    }

    /// Says in one sentence what went wrong, with the names and the
    /// diagnostic that the error carries.
    pub fn describe(&self) -> (text: String)
        ensures
            text@ == self.description(),
    {
        match self {
            Error::UnableToLoadResource { name, cause } => {
                String::from_str("Failed to load resource ").concat(name.as_str())
            },
            Error::CannotDetermineShaderTypeForResource { name } => {
                String::from_str("Can not determine shader type for resource ").concat(
                    name.as_str(),
                )
            },
            Error::CompileError { stage_name, message } => {
                String::from_str("Failed to compile shader ").concat(stage_name.as_str()).concat(
                    ": ",
                ).concat(message.as_str())
            },
            Error::LinkError { name, message } => {
                String::from_str("Failed to link program ").concat(name.as_str()).concat(
                    ": ",
                ).concat(message.as_str())
            },
        }
    }
}

/// The stage of rendering that a shader runs in.
#[derive(Clone, Copy, Debug, PartialEq, Eq, Structural)]
pub enum ShaderStage {
    Vertex,
    Fragment,
}

/// Whether `name` ends with `suffix`.
pub open spec fn has_suffix(name: Seq<char>, suffix: Seq<char>) -> bool {
    name.len() >= suffix.len() && name.subrange(name.len() - suffix.len(), name.len() as int)
        == suffix
}

pub open spec fn vert_suffix() -> Seq<char> {
    seq!['.', 'v', 'e', 'r', 't']
}

pub open spec fn frag_suffix() -> Seq<char> {
    seq!['.', 'f', 'r', 'a', 'g']
}

/// The stage that a resource name stands for: vertex for names that end in
/// `.vert`, fragment for names that end in `.frag`, none for any other name.
pub open spec fn stage_of_name(name: Seq<char>) -> Option<ShaderStage> {
    if has_suffix(name, vert_suffix()) {
        Some(ShaderStage::Vertex)
    } else if has_suffix(name, frag_suffix()) {
        Some(ShaderStage::Fragment)
    } else {
        None
    }
}

impl ShaderStage {
    pub open spec fn spec_kind(self) -> u32 {
        match self {
            ShaderStage::Vertex => VERTEX_SHADER,
            ShaderStage::Fragment => FRAGMENT_SHADER,
        }
    }

    pub open spec fn spec_name(self) -> Seq<char> {
        match self {
            ShaderStage::Vertex => seq!['v', 'e', 'r', 't', 'e', 'x'],
            ShaderStage::Fragment => seq!['f', 'r', 'a', 'g', 'm', 'e', 'n', 't'],
        }
    }

    /// The GPU's name for the stage.
    pub fn kind(&self) -> (k: u32)
        ensures
            k == self.spec_kind(),
    {
        match self {
            ShaderStage::Vertex => VERTEX_SHADER,
            ShaderStage::Fragment => FRAGMENT_SHADER,
        }
    }

    /// The stage's name in words, as it appears in diagnostics.
    pub fn name(&self) -> (s: String)
        ensures
            s@ == self.spec_name(),
    {
        match self {
            ShaderStage::Vertex => {
                proof {
                    reveal_strlit("vertex");
                }
                assert("vertex"@ =~= ShaderStage::Vertex.spec_name());
                String::from_str("vertex")
            },
            ShaderStage::Fragment => {
                proof {
                    reveal_strlit("fragment");
                }
                assert("fragment"@ =~= ShaderStage::Fragment.spec_name());
                String::from_str("fragment")
            },
        }
    }

    /// Reads the stage off a resource name's suffix.
    pub fn for_name(name: &str) -> (r: Option<ShaderStage>)
        ensures
            r == stage_of_name(name@),
    {
        let n: usize = name.unicode_len();
        if n < 5 {
            return None;
        }
        let c0 = name.get_char(n - 5);
        let c1 = name.get_char(n - 4);
        let c2 = name.get_char(n - 3);
        let c3 = name.get_char(n - 2);
        let c4 = name.get_char(n - 1);
        let ghost tail = name@.subrange(n - 5, n as int);
        assert(tail.len() == 5 && tail[0] == c0 && tail[1] == c1 && tail[2] == c2 && tail[3] == c3
            && tail[4] == c4);
        if c0 == '.' && c1 == 'v' && c2 == 'e' && c3 == 'r' && c4 == 't' {
            assert(tail =~= vert_suffix());
            Some(ShaderStage::Vertex)
        } else if c0 == '.' && c1 == 'f' && c2 == 'r' && c3 == 'a' && c4 == 'g' {
            assert(tail =~= frag_suffix());
            assert(vert_suffix()[1] == 'v');
            Some(ShaderStage::Fragment)
        } else {
            assert(vert_suffix()[0] == '.' && vert_suffix()[1] == 'v' && vert_suffix()[2] == 'e'
                && vert_suffix()[3] == 'r' && vert_suffix()[4] == 't');
            assert(frag_suffix()[0] == '.' && frag_suffix()[1] == 'f' && frag_suffix()[2] == 'r'
                && frag_suffix()[3] == 'a' && frag_suffix()[4] == 'g');
            None
        }
    }
}

/// What the GPU answered while one shader was compiled.
pub struct CompileReplies {
    /// The name it gave the shader object.
    pub shader: u32,
    /// The compile status: zero for failure.
    pub status: i32,
    /// The length it reported for the diagnostic, asked only after a failure.
    pub capacity: i32,
    /// The diagnostic it wrote, asked only after a failure.
    pub log: Seq<u8>,
}

/// The calls that compile one shader, given what the GPU answered: create,
/// hand over the source, compile, ask for the status and, only where that is
/// zero, ask for the diagnostic's length, then for the diagnostic, and
/// delete the shader object, so that a failed compilation leaves nothing
/// behind.
pub open spec fn compile_events<M, V>(kind: u32, source: Seq<u8>, replies: CompileReplies) -> Seq<
    GlEvent<M, V>,
> {
    let shader = replies.shader;
    let head = seq![
        GlEvent::CreateShader { kind, shader },
        GlEvent::ShaderSource { shader, source },
        GlEvent::CompileShader { shader },
        GlEvent::GetShaderIv { shader, parameter: COMPILE_STATUS, value: replies.status },
    ];
    if replies.status == 0 {
        head + seq![
            GlEvent::GetShaderIv { shader, parameter: INFO_LOG_LENGTH, value: replies.capacity },
            GlEvent::GetShaderInfoLog { shader, capacity: replies.capacity, log: replies.log },
            GlEvent::DeleteShader { shader },
        ]
    } else {
        head
    }
}

/// What a compilation returns for given answers: the shader's name where the
/// status is not zero, else a compile error that carries the stage's name and
/// the decoded diagnostic.
pub open spec fn compile_outcome(
    r: Result<u32, Error>,
    stage: ShaderStage,
    shader: u32,
    status: i32,
    log: Seq<u8>,
) -> bool {
    match r {
        Ok(id) => status != 0 && id == shader,
        Err(Error::CompileError { stage_name, message }) => {
            &&& status == 0
            &&& stage_name@ == stage.spec_name()
            &&& message@ == utf8_lossy(log)
        },
        Err(_) => false,
    }
}

/// Decides what a finished compilation returns from the status and, where it
/// failed, the diagnostic.
pub fn compile_result(stage: ShaderStage, shader: u32, status: i32, log: &[u8]) -> (r: Result<
    u32,
    Error,
>)
    ensures
        compile_outcome(r, stage, shader, status, log@),
{
    if status == 0 {
        Err(Error::CompileError { stage_name: stage.name(), message: lossy_text(log) })
    } else {
        Ok(shader)
    }
}

fn shader_from_source<D: Driver>(gl: &mut Gl<D>, source: &[u8], stage: ShaderStage) -> (r: (
    Result<u32, Error>,
    Ghost<CompileReplies>,
))
    ensures
        final(gl).journal() == old(gl).journal() + compile_events::<D::Matrix, D::Vertex>(
            stage.spec_kind(),
            source@,
            r.1@,
        ),
        compile_outcome(r.0, stage, r.1@.shader, r.1@.status, r.1@.log),
{
    let id = gl.create_shader(stage.kind());
    gl.shader_source(id, source);
    gl.compile_shader(id);
    let status = gl.get_shader_iv(id, COMPILE_STATUS);
    let mut log: Vec<u8> = Vec::new();
    let mut len: i32 = 0;
    if status == 0 {
        len = gl.get_shader_iv(id, INFO_LOG_LENGTH);
        log = gl.get_shader_info_log(id, len);
        gl.delete_shader(id);
    }
    let ghost replies = CompileReplies { shader: id, status, capacity: len, log: log@ };
    assert(gl.journal() =~= old(gl).journal() + compile_events::<D::Matrix, D::Vertex>(
        stage.spec_kind(),
        source@,
        replies,
    ));
    let r = compile_result(stage, id, status, log.as_slice());
    (r, Ghost(replies))
}

/// What happened while one shader was loaded by name: what the resources
/// answered and, where they handed the source over, what the GPU answered to
/// its compilation.
pub struct ShaderLoad {
    pub answer: Result<Seq<u8>, ResourceError>,
    pub replies: CompileReplies,
}

/// Whether a load came back with a compiled shader.
pub open spec fn load_succeeded(loaded: Option<ShaderLoad>) -> bool {
    loaded is Some && loaded->Some_0.answer is Ok && loaded->Some_0.replies.status != 0
}

/// The requests made while a shader is loaded by name: none where the name
/// stands for no stage, else one, for the name itself.
pub open spec fn load_requests(name: Seq<char>, loaded: Option<ShaderLoad>) -> Seq<Request> {
    match (stage_of_name(name), loaded) {
        (Some(stage), Some(l)) => seq![Request { name, answer: l.answer }],
        _ => Seq::empty(),
    }
}

/// The calls issued once the resources have answered: none where they
/// refused, else those of compiling the source they handed over.
pub open spec fn loaded_events<M, V>(stage: ShaderStage, loaded: ShaderLoad) -> Seq<GlEvent<M, V>> {
    match loaded.answer {
        Ok(source) => compile_events(stage.spec_kind(), source, loaded.replies),
        Err(_) => Seq::empty(),
    }
}

/// What is returned once the resources have answered: a load error with the
/// name and the cause they gave where they refused, else what the
/// compilation of the source gives.
pub open spec fn loaded_outcome(
    r: Result<u32, Error>,
    name: Seq<char>,
    stage: ShaderStage,
    loaded: ShaderLoad,
) -> bool {
    match loaded.answer {
        Err(cause) => {
            &&& r matches Err(Error::UnableToLoadResource { name: n, cause: c })
            &&& n@ == name
            &&& c == cause
        },
        Ok(_) => compile_outcome(
            r,
            stage,
            loaded.replies.shader,
            loaded.replies.status,
            loaded.replies.log,
        ),
    }
}

/// The calls issued while a shader is loaded by name: none where the name
/// stands for no stage, else those that follow the resources' answer.
pub open spec fn load_events<M, V>(name: Seq<char>, loaded: Option<ShaderLoad>) -> Seq<GlEvent<M, V>> {
    match (stage_of_name(name), loaded) {
        (Some(stage), Some(l)) => loaded_events(stage, l),
        _ => Seq::empty(),
    }
}

/// What loading a shader by name returns. A name that stands for no stage is
/// refused before the resources are asked; else they are asked once, and
/// their answer decides as `loaded_outcome` says.
pub open spec fn load_outcome(r: Result<u32, Error>, name: Seq<char>, loaded: Option<ShaderLoad>) -> bool {
    match stage_of_name(name) {
        None => {
            &&& loaded is None
            &&& r matches Err(Error::CannotDetermineShaderTypeForResource { name: n })
            &&& n@ == name
        },
        Some(stage) => loaded is Some && loaded_outcome(r, name, stage, loaded->Some_0),
    }
}

/// The owner of one compiled shader object.
pub struct Shader {
    id: u32,
}

/// A result with the shader replaced by its name.
pub open spec fn shader_name(r: Result<Shader, Error>) -> Result<u32, Error> {
    match r {
        Ok(shader) => Ok(shader.spec_id()),
        Err(e) => Err(e),
    }
}

/// The names of a sequence of shaders, in order.
pub open spec fn shader_ids(shaders: Seq<Shader>) -> Seq<u32> {
    Seq::new(shaders.len(), |i: int| shaders[i].spec_id())
}

impl Shader {
    pub closed spec fn spec_id(&self) -> u32 {
        self.id
    }

    fn compile<D: Driver>(gl: &mut Gl<D>, source: &[u8], stage: ShaderStage) -> (r: (
        Result<Shader, Error>,
        Ghost<CompileReplies>,
    ))
        ensures
            final(gl).journal() == old(gl).journal() + compile_events::<D::Matrix, D::Vertex>(
                stage.spec_kind(),
                source@,
                r.1@,
            ),
            compile_outcome(shader_name(r.0), stage, r.1@.shader, r.1@.status, r.1@.log),
    {
        let (compiled, replies) = shader_from_source(gl, source, stage);
        match compiled {
            Ok(id) => (Ok(Shader { id }), replies),
            Err(e) => (Err(e), replies),
        }
    }

    fn loaded<D: Driver>(
        gl: &mut Gl<D>,
        name: &str,
        stage: ShaderStage,
        answer: Result<Vec<u8>, ResourceError>,
    ) -> (r: (Result<Shader, Error>, Ghost<ShaderLoad>))
        ensures
            r.1@.answer == answer_view(answer),
            final(gl).journal() == old(gl).journal() + loaded_events::<D::Matrix, D::Vertex>(stage, r.1@),
            loaded_outcome(shader_name(r.0), name@, stage, r.1@),
    {
        match answer {
            Ok(source) => {
                let (compiled, replies) = Shader::compile(gl, source.as_slice(), stage);
                (compiled, Ghost(ShaderLoad { answer: Ok(source@), replies: replies@ }))
            },
            Err(cause) => {
                let ghost load = ShaderLoad {
                    answer: Err(cause),
                    replies: CompileReplies { shader: 0, status: 0, capacity: 0, log: Seq::empty() },
                };
                assert(gl.journal() =~= old(gl).journal() + loaded_events::<D::Matrix, D::Vertex>(
                    stage,
                    load,
                ));
                (
                    Err(Error::UnableToLoadResource { name: String::from_str(name), cause }),
                    Ghost(load),
                )
            },
        }
    }

    fn load<D: Driver, R: Resources>(gl: &mut Gl<D>, res: &mut Loader<R>, name: &str) -> (r: (
        Result<Shader, Error>,
        Ghost<Option<ShaderLoad>>,
    ))
        ensures
            final(res).asked() == old(res).asked() + load_requests(name@, r.1@),
            final(res).backend() == old(res).backend(),
            final(gl).journal() == old(gl).journal() + load_events::<D::Matrix, D::Vertex>(name@, r.1@),
            load_outcome(shader_name(r.0), name@, r.1@),
    {
        let stage = match ShaderStage::for_name(name) {
            Some(stage) => stage,
            None => {
                assert(gl.journal() =~= old(gl).journal() + load_events::<D::Matrix, D::Vertex>(name@, None));
                assert(res.asked() =~= old(res).asked() + load_requests(name@, None));
                return (
                    Err(Error::CannotDetermineShaderTypeForResource { name: String::from_str(name) }),
                    Ghost(None),
                );
            },
        };
        let answer = res.load_cstring(name);
        let (r, load) = Shader::loaded(gl, name, stage, answer);
        assert(res.asked() =~= old(res).asked() + load_requests(name@, Some(load@)));
        (r, Ghost(Some(load@)))
    }

    /// Finishes the load of the shader called `name` from what the
    /// resources answered. Where they refused, the error carries the name
    /// and their cause, and nothing is issued. Where they handed the source
    /// over, it is compiled for `stage`.
    pub fn from_loaded<D: Driver>(
        gl: &mut Gl<D>,
        name: &str,
        stage: ShaderStage,
        answer: Result<Vec<u8>, ResourceError>,
    ) -> (r: Result<Shader, Error>)
        ensures
            match answer {
                Err(cause) => {
                    &&& r matches Err(Error::UnableToLoadResource { name: n, cause: c })
                    &&& n@ == name@
                    &&& c == cause
                    &&& final(gl).journal() == old(gl).journal()
                },
                Ok(source) => exists|replies: CompileReplies|
                    final(gl).journal() == old(gl).journal() + #[trigger] compile_events::<D::Matrix, D::Vertex>(stage.spec_kind(), source@, replies) && compile_outcome(
                        shader_name(r),
                        stage,
                        replies.shader,
                        replies.status,
                        replies.log,
                    ),
            },
    {
        let (r, _) = Shader::loaded(gl, name, stage, answer);
        r
    }

    /// Loads a shader's source by name and compiles it for the stage that
    /// the name's suffix stands for. A name with another suffix is refused
    /// before anything is asked or issued. Else the resources are asked
    /// once, for the name as it is, and what they answer is what
    /// `from_loaded` is handed: the source they gave is the source that is
    /// compiled, and the cause they gave is the cause that is reported.
    pub fn from_res<D: Driver, R: Resources>(
        gl: &mut Gl<D>,
        res: &mut Loader<R>,
        name: &str,
    ) -> (r: Result<Shader, Error>)
        ensures
            final(res).backend() == old(res).backend(),
            exists|loaded: Option<ShaderLoad>|
                {
                    &&& final(res).asked() == old(res).asked() + #[trigger] load_requests(
                        name@,
                        loaded,
                    )
                    &&& final(gl).journal() == old(gl).journal() + load_events::<D::Matrix, D::Vertex>(
                        name@,
                        loaded,
                    )
                    &&& load_outcome(shader_name(r), name@, loaded)
                },
    {
        let (r, _) = Shader::load(gl, res, name);
        r
    }

    /// Compiles `source` for `stage`. Where the GPU reports failure, the
    /// shader object is deleted again and the error carries the stage's name
    /// and the GPU's diagnostic.
    pub fn from_source<D: Driver>(gl: &mut Gl<D>, source: &[u8], stage: ShaderStage) -> (r: Result<
        Shader,
        Error,
    >)
        ensures
            exists|replies: CompileReplies|
                final(gl).journal() == old(gl).journal() + #[trigger] compile_events::<D::Matrix, D::Vertex>(
                    stage.spec_kind(),
                    source@,
                    replies,
                ) && compile_outcome(
                    shader_name(r),
                    stage,
                    replies.shader,
                    replies.status,
                    replies.log,
                ),
    {
        let (r, _) = Shader::compile(gl, source, stage);
        r
    }

    /// Compiles `source` as a vertex shader.
    pub fn from_vert_source<D: Driver>(gl: &mut Gl<D>, source: &[u8]) -> (r: Result<Shader, Error>)
        ensures
            exists|replies: CompileReplies|
                final(gl).journal() == old(gl).journal() + #[trigger] compile_events::<D::Matrix, D::Vertex>(
                    VERTEX_SHADER,
                    source@,
                    replies,
                ) && compile_outcome(
                    shader_name(r),
                    ShaderStage::Vertex,
                    replies.shader,
                    replies.status,
                    replies.log,
                ),
    {
        Shader::from_source(gl, source, ShaderStage::Vertex)
    }

    /// Compiles `source` as a fragment shader.
    pub fn from_frag_source<D: Driver>(gl: &mut Gl<D>, source: &[u8]) -> (r: Result<Shader, Error>)
        ensures
            exists|replies: CompileReplies|
                final(gl).journal() == old(gl).journal() + #[trigger] compile_events::<D::Matrix, D::Vertex>(
                    FRAGMENT_SHADER,
                    source@,
                    replies,
                ) && compile_outcome(
                    shader_name(r),
                    ShaderStage::Fragment,
                    replies.shader,
                    replies.status,
                    replies.log,
                ),
    {
        Shader::from_source(gl, source, ShaderStage::Fragment)
    }

    /// The name that the GPU gave the shader.
    pub fn id(&self) -> (id: u32)
        ensures
            id == self.spec_id(),
    {
        self.id
    }

    /// Releases the shader object and ends its owner.
    pub fn delete<D: Driver>(self, gl: &mut Gl<D>)
        ensures
            final(gl).journal() == old(gl).journal().push(
                GlEvent::DeleteShader { shader: self.spec_id() },
            ),
    {
        gl.delete_shader(self.id);
    }
}

/// What the GPU answered while one program was linked.
pub struct LinkReplies {
    /// The name it gave the program object.
    pub program: u32,
    /// The link status: zero for failure.
    pub status: i32,
    /// The length it reported for the diagnostic, asked only after a failure.
    pub capacity: i32,
    /// The diagnostic it wrote, asked only after a failure.
    pub log: Seq<u8>,
}

/// One attach call per shader, in order.
pub open spec fn attach_events<M, V>(program: u32, shaders: Seq<u32>) -> Seq<GlEvent<M, V>> {
    Seq::new(shaders.len(), |i: int| GlEvent::AttachShader { program, shader: shaders[i] })
}

/// One detach call per shader, in order.
pub open spec fn detach_events<M, V>(program: u32, shaders: Seq<u32>) -> Seq<GlEvent<M, V>> {
    Seq::new(shaders.len(), |i: int| GlEvent::DetachShader { program, shader: shaders[i] })
}

/// The calls that link a program from shaders, given what the GPU answered:
/// create, attach each shader, link, ask for the status; then, where the
/// status is zero, ask for the diagnostic's length and the diagnostic and
/// delete the program object, and else detach each shader.
pub open spec fn link_events<M, V>(shaders: Seq<u32>, replies: LinkReplies) -> Seq<GlEvent<M, V>> {
    let program = replies.program;
    let head = seq![GlEvent::CreateProgram { program }] + attach_events(program, shaders) + seq![
        GlEvent::LinkProgram { program },
        GlEvent::GetProgramIv { program, parameter: LINK_STATUS, value: replies.status },
    ];
    if replies.status == 0 {
        head + seq![
            GlEvent::GetProgramIv { program, parameter: INFO_LOG_LENGTH, value: replies.capacity },
            GlEvent::GetProgramInfoLog { program, capacity: replies.capacity, log: replies.log },
            GlEvent::DeleteProgram { program },
        ]
    } else {
        head + detach_events(program, shaders)
    }
}

/// What linking returns for given answers: the program's name where the
/// status is not zero, else the decoded diagnostic.
pub open spec fn link_outcome(r: Result<u32, String>, program: u32, status: i32, log: Seq<u8>) -> bool {
    match r {
        Ok(id) => status != 0 && id == program,
        Err(message) => status == 0 && message@ == utf8_lossy(log),
    }
}

/// Decides what a finished link returns from the status and, where it
/// failed, the diagnostic.
pub fn link_result(program: u32, status: i32, log: &[u8]) -> (r: Result<u32, String>)
    ensures
        link_outcome(r, program, status, log@),
{
    if status == 0 {
        Err(lossy_text(log))
    } else {
        Ok(program)
    }
}

/// What happened while a program was loaded by name: the loads of its two
/// shaders and the link. A later step's answers count only where every
/// earlier step succeeded.
pub struct ProgramLoad {
    pub vertex: Option<ShaderLoad>,
    pub fragment: Option<ShaderLoad>,
    pub link: LinkReplies,
}

/// The resource name of a program's vertex shader.
pub open spec fn vertex_name(name: Seq<char>) -> Seq<char> {
    name + vert_suffix()
}

/// The resource name of a program's fragment shader.
pub open spec fn fragment_name(name: Seq<char>) -> Seq<char> {
    name + frag_suffix()
}

/// The names that stand for stages: a program's two resource names do.
pub proof fn lemma_program_names_have_stages(name: Seq<char>)
    ensures
        stage_of_name(vertex_name(name)) == Some(ShaderStage::Vertex),
        stage_of_name(fragment_name(name)) == Some(ShaderStage::Fragment),
{
    let v = vertex_name(name);
    let f = fragment_name(name);
    assert(v.subrange(v.len() - 5, v.len() as int) =~= vert_suffix());
    assert(f.subrange(f.len() - 5, f.len() as int) =~= frag_suffix());
    assert(frag_suffix()[1] != vert_suffix()[1]);
}

/// The requests made while a program is loaded by name: the vertex shader's
/// resource first and, only where that shader was compiled, the fragment
/// shader's resource after it.
pub open spec fn program_requests(name: Seq<char>, load: ProgramLoad) -> Seq<Request> {
    let v = load_requests(vertex_name(name), load.vertex);
    if !load_succeeded(load.vertex) {
        v
    } else {
        v + load_requests(fragment_name(name), load.fragment)
    }
}

/// The calls issued while a program is loaded by name. The vertex shader is
/// loaded first and, where that fails, nothing follows. Then the fragment
/// shader is loaded and, where that fails, the vertex shader is deleted.
/// Then the program is linked, and both shaders are deleted whether or not
/// the link succeeded.
pub open spec fn program_events<M, V>(name: Seq<char>, load: ProgramLoad) -> Seq<GlEvent<M, V>> {
    let v = load_events::<M, V>(vertex_name(name), load.vertex);
    if !load_succeeded(load.vertex) {
        v
    } else {
        let vertex = load.vertex->Some_0.replies.shader;
        let f = load_events::<M, V>(fragment_name(name), load.fragment);
        if !load_succeeded(load.fragment) {
            v + f + seq![GlEvent::DeleteShader { shader: vertex }]
        } else {
            let fragment = load.fragment->Some_0.replies.shader;
            v + f + link_events(seq![vertex, fragment], load.link) + seq![
                GlEvent::DeleteShader { shader: vertex },
                GlEvent::DeleteShader { shader: fragment },
            ]
        }
    }
}

/// What loading a program by name returns: the error of the first shader
/// that fails to load or compile; else a link error with the program's name
/// and the diagnostic where the link status is zero; else the program.
pub open spec fn program_outcome(r: Result<u32, Error>, name: Seq<char>, load: ProgramLoad) -> bool {
    if !load_succeeded(load.vertex) {
        r is Err && load_outcome(r, vertex_name(name), load.vertex)
    } else if !load_succeeded(load.fragment) {
        r is Err && load_outcome(r, fragment_name(name), load.fragment)
    } else {
        match r {
            Ok(id) => load.link.status != 0 && id == load.link.program,
            Err(Error::LinkError { name: n, message }) => {
                &&& load.link.status == 0
                &&& n@ == name
                &&& message@ == utf8_lossy(load.link.log)
            },
            Err(_) => false,
        }
    }
}

/// Where a program is loaded with success, its shaders are detached from it
/// before they are deleted: the load ends with the detach of the vertex
/// shader, the detach of the fragment shader, and then the two deletes in
/// the same order.
pub proof fn lemma_shaders_detached_before_deleted<M, V>(name: Seq<char>, load: ProgramLoad)
    requires
        load_succeeded(load.vertex),
        load_succeeded(load.fragment),
        load.link.status != 0,
    ensures
        ({
            let events = program_events::<M, V>(name, load);
            let n = events.len();
            let program = load.link.program;
            let vertex = load.vertex->Some_0.replies.shader;
            let fragment = load.fragment->Some_0.replies.shader;
            &&& n >= 4
            &&& events[n - 4] == GlEvent::<M, V>::DetachShader { program, shader: vertex }
            &&& events[n - 3] == GlEvent::<M, V>::DetachShader { program, shader: fragment }
            &&& events[n - 2] == GlEvent::<M, V>::DeleteShader { shader: vertex }
            &&& events[n - 1] == GlEvent::<M, V>::DeleteShader { shader: fragment }
        }),
{
    let vertex = load.vertex->Some_0.replies.shader;
    let fragment = load.fragment->Some_0.replies.shader;
    let program = load.link.program;
    let ids = seq![vertex, fragment];
    let before = load_events::<M, V>(vertex_name(name), load.vertex) + load_events::<M, V>(
        fragment_name(name),
        load.fragment,
    );
    let head = seq![GlEvent::<M, V>::CreateProgram { program }] + attach_events(program, ids) + seq![
        GlEvent::LinkProgram { program },
        GlEvent::GetProgramIv { program, parameter: LINK_STATUS, value: load.link.status },
    ];
    let detached = detach_events::<M, V>(program, ids);
    let deleted = seq![
        GlEvent::<M, V>::DeleteShader { shader: vertex },
        GlEvent::<M, V>::DeleteShader { shader: fragment },
    ];
    assert(link_events::<M, V>(ids, load.link) == head + detached);
    assert(program_events::<M, V>(name, load) =~= before + head + detached + deleted);
    assert(detached.len() == 2 && detached[0] == GlEvent::<M, V>::DetachShader {
        program,
        shader: vertex,
    } && detached[1] == GlEvent::<M, V>::DetachShader { program, shader: fragment });
}

/// The owner of one linked program object.
pub struct Program {
    id: u32,
}

/// A result with the program replaced by its name.
pub open spec fn program_name<E>(r: Result<Program, E>) -> Result<u32, E> {
    match r {
        Ok(program) => Ok(program.spec_id()),
        Err(e) => Err(e),
    }
}

impl Program {
    pub closed spec fn spec_id(&self) -> u32 {
        self.id
    }

    fn link<D: Driver>(gl: &mut Gl<D>, shaders: &[Shader]) -> (r: (
        Result<Program, String>,
        Ghost<LinkReplies>,
    ))
        ensures
            final(gl).journal() == old(gl).journal() + link_events::<D::Matrix, D::Vertex>(
                shader_ids(shaders@),
                r.1@,
            ),
            link_outcome(program_name(r.0), r.1@.program, r.1@.status, r.1@.log),
    {
        let ghost ids = shader_ids(shaders@);
        let program_id = gl.create_program();
        let ghost created = old(gl).journal() + seq![
            GlEvent::<D::Matrix, D::Vertex>::CreateProgram { program: program_id },
        ];
        let n: usize = shaders.len();
        let mut i: usize = 0;
        assert(gl.journal() =~= created + attach_events::<D::Matrix, D::Vertex>(program_id, ids.take(0)));
        while i < n
            invariant
                n == shaders@.len(),
                ids == shader_ids(shaders@),
                0 <= i <= n,
                gl.journal() == created + attach_events::<D::Matrix, D::Vertex>(program_id, ids.take(i as int)),
            decreases n - i,
        {
            gl.attach_shader(program_id, shaders[i].id());
            assert(gl.journal() =~= created + attach_events::<D::Matrix, D::Vertex>(
                program_id,
                ids.take(i as int + 1),
            ));
            i = i + 1;
        }
        assert(ids.take(n as int) =~= ids);
        gl.link_program(program_id);
        let status = gl.get_program_iv(program_id, LINK_STATUS);
        let ghost linked = gl.journal();
        if status == 0 {
            let len = gl.get_program_iv(program_id, INFO_LOG_LENGTH);
            let log = gl.get_program_info_log(program_id, len);
            gl.delete_program(program_id);
            let ghost replies = LinkReplies {
                program: program_id,
                status,
                capacity: len,
                log: log@,
            };
            assert(gl.journal() =~= old(gl).journal() + link_events::<D::Matrix, D::Vertex>(ids, replies));
            return (
                match link_result(program_id, status, log.as_slice()) {
                    Ok(id) => Ok(Program { id }),
                    Err(message) => Err(message),
                },
                Ghost(replies),
            );
        }
        let mut k: usize = 0;
        assert(gl.journal() =~= linked + detach_events::<D::Matrix, D::Vertex>(program_id, ids.take(0)));
        while k < n
            invariant
                n == shaders@.len(),
                ids == shader_ids(shaders@),
                0 <= k <= n,
                gl.journal() == linked + detach_events::<D::Matrix, D::Vertex>(program_id, ids.take(k as int)),
            decreases n - k,
        {
            gl.detach_shader(program_id, shaders[k].id());
            assert(gl.journal() =~= linked + detach_events::<D::Matrix, D::Vertex>(
                program_id,
                ids.take(k as int + 1),
            ));
            k = k + 1;
        }
        let ghost replies = LinkReplies {
            program: program_id,
            status,
            capacity: 0,
            log: Seq::empty(),
        };
        assert(gl.journal() =~= old(gl).journal() + link_events::<D::Matrix, D::Vertex>(ids, replies));
        (Ok(Program { id: program_id }), Ghost(replies))
    }

    fn load<D: Driver, R: Resources>(gl: &mut Gl<D>, res: &mut Loader<R>, name: &str) -> (r: (
        Result<Program, Error>,
        Ghost<ProgramLoad>,
    ))
        ensures
            final(res).asked() == old(res).asked() + program_requests(name@, r.1@),
            final(res).backend() == old(res).backend(),
            final(gl).journal() == old(gl).journal() + program_events::<D::Matrix, D::Vertex>(name@, r.1@),
            program_outcome(program_name(r.0), name@, r.1@),
    {
        proof {
            reveal_strlit(".vert");
            reveal_strlit(".frag");
        }
        let ghost unlinked = LinkReplies { program: 0, status: 0, capacity: 0, log: Seq::empty() };
        let vertex_path = String::from_str(name).concat(".vert");
        assert(vertex_path@ =~= vertex_name(name@));
        let (vertex, vertex_load) = Shader::load(gl, res, vertex_path.as_str());
        let vertex = match vertex {
            Ok(shader) => shader,
            Err(e) => {
                return (
                    Err(e),
                    Ghost(ProgramLoad { vertex: vertex_load@, fragment: None, link: unlinked }),
                );
            },
        };
        let fragment_path = String::from_str(name).concat(".frag");
        assert(fragment_path@ =~= fragment_name(name@));
        let (fragment, fragment_load) = Shader::load(gl, res, fragment_path.as_str());
        let fragment = match fragment {
            Ok(shader) => shader,
            Err(e) => {
                vertex.delete(gl);
                let ghost load = ProgramLoad {
                    vertex: vertex_load@,
                    fragment: fragment_load@,
                    link: unlinked,
                };
                assert(gl.journal() =~= old(gl).journal() + program_events::<D::Matrix, D::Vertex>(
                    name@,
                    load,
                ));
                assert(res.asked() =~= old(res).asked() + program_requests(name@, load));
                return (Err(e), Ghost(load));
            },
        };
        let ghost vertex_id = vertex.spec_id();
        let ghost fragment_id = fragment.spec_id();
        let mut shaders: Vec<Shader> = Vec::new();
        shaders.push(vertex);
        shaders.push(fragment);
        assert(shader_ids(shaders@) =~= seq![vertex_id, fragment_id]);
        let (linked, link) = Program::link(gl, shaders.as_slice());
        let fragment = shaders.pop();
        let vertex = shaders.pop();
        if let Some(shader) = vertex {
            shader.delete(gl);
        }
        if let Some(shader) = fragment {
            shader.delete(gl);
        }
        let ghost load = ProgramLoad { vertex: vertex_load@, fragment: fragment_load@, link: link@ };
        assert(gl.journal() =~= old(gl).journal() + program_events::<D::Matrix, D::Vertex>(name@, load));
        assert(res.asked() =~= old(res).asked() + program_requests(name@, load));
        match linked {
            Ok(program) => (Ok(program), Ghost(load)),
            Err(message) => (
                Err(Error::LinkError { name: String::from_str(name), message }),
                Ghost(load),
            ),
        }
    }

    /// Builds the program called `name` from its two shaders, whose
    /// resources are named `name` with `.vert` and with `.frag` behind it
    /// and are asked for in that order. What the resources answer decides
    /// as for a single shader; the fragment shader's resource is asked for
    /// only once the vertex shader was compiled. The shaders are deleted
    /// once the link was tried; a shader that was compiled before a later
    /// step failed is deleted too, and so is a program that failed to link.
    pub fn from_res<D: Driver, R: Resources>(
        gl: &mut Gl<D>,
        res: &mut Loader<R>,
        name: &str,
    ) -> (r: Result<Program, Error>)
        ensures
            final(res).backend() == old(res).backend(),
            exists|load: ProgramLoad|
                {
                    &&& final(res).asked() == old(res).asked() + #[trigger] program_requests(
                        name@,
                        load,
                    )
                    &&& final(gl).journal() == old(gl).journal() + program_events::<D::Matrix, D::Vertex>(
                        name@,
                        load,
                    )
                    &&& program_outcome(program_name(r), name@, load)
                },
    {
        let (r, _) = Program::load(gl, res, name);
        r
    }

    /// Links a program from compiled shaders. Every shader is attached, and
    /// after a successful link detached again, so that the shaders can be
    /// deleted while the program lives on. After a failed link the program
    /// object is deleted again and the GPU's diagnostic is returned.
    pub fn from_shaders<D: Driver>(gl: &mut Gl<D>, shaders: &[Shader]) -> (r: Result<
        Program,
        String,
    >)
        ensures
            exists|replies: LinkReplies|
                final(gl).journal() == old(gl).journal() + #[trigger] link_events::<D::Matrix, D::Vertex>(
                    shader_ids(shaders@),
                    replies,
                ) && link_outcome(program_name(r), replies.program, replies.status, replies.log),
    {
        let (r, _) = Program::link(gl, shaders);
        r
    }

    /// The name that the GPU gave the program.
    pub fn id(&self) -> (id: u32)
        ensures
            id == self.spec_id(),
    {
        self.id
    }

    /// Makes this program the active one for the draw calls that follow.
    pub fn set_used<D: Driver>(&self, gl: &mut Gl<D>)
        ensures
            final(gl).journal() == old(gl).journal().push(
                GlEvent::UseProgram { program: self.spec_id() },
            ),
    {
        gl.use_program(self.id);
    }

    /// Releases the program object and ends its owner.
    pub fn delete<D: Driver>(self, gl: &mut Gl<D>)
        ensures
            final(gl).journal() == old(gl).journal().push(
                GlEvent::DeleteProgram { program: self.spec_id() },
            ),
    {
        gl.delete_program(self.id);
    }
}

} // verus!
