use crate::buffer::{ArrayBuffer, VertexArray};
use crate::camera::Camera;
use crate::context::{Driver, Gl, GlEvent, ARRAY_BUFFER, STATIC_DRAW, TRIANGLES};
use crate::layout::{
    attribute_pointers, layout_events, located_before, vertex_attrib_pointers, LayoutError,
    VertexField, MAX_FIELD_BYTES,
};
use crate::mvp_matrix::{upload_event, ModelViewProjectionMatrix, MvpState};
use crate::shader::{
    program_events, program_outcome, program_requests, Error, Loader, Program, ProgramLoad,
    Resources,
};
use vstd::prelude::*;

verus! {

/// The number of vertices that one draw call renders.
pub const VERTEX_COUNT: i32 = 3;

/// Why a drawable could not be set up.
#[derive(Debug)]
pub enum SetupError {
    /// The vertex record's layout is not complete.
    Layout(LayoutError),
    /// The program could not be loaded, compiled or linked.
    Program(Error),
}

/// The resource name of the drawable's program.
pub open spec fn program_resource() -> Seq<char> {
    seq!['s', 'h', 'a', 'd', 'e', 'r', 's', '/', 't', 'r', 'i', 'a', 'n', 'g', 'l', 'e']
}

/// The name of the uniform that receives the combined matrix, with its
/// terminating zero.
pub open spec fn mvp_uniform_name() -> Seq<u8> {
    seq![77u8, 86u8, 80u8, 0u8]
}

/// The calls that follow the program's load during setup: the vertex buffer
/// is created, bound, filled and unbound; the vertex array is created and,
/// with it and the buffer bound, the layout is registered; both are unbound;
/// the uniform's location is asked for.
pub open spec fn setup_events<M, V>(
    program: u32,
    vbo: u32,
    vao: u32,
    size: usize,
    vertices: Seq<V>,
    fields: Seq<VertexField>,
    location: i32,
) -> Seq<GlEvent<M, V>> {
    seq![
        GlEvent::GenBuffer { buffer: vbo },
        GlEvent::BindBuffer { target: ARRAY_BUFFER, buffer: vbo },
        GlEvent::BufferData { target: ARRAY_BUFFER, size, data: vertices, usage: STATIC_DRAW },
        GlEvent::BindBuffer { target: ARRAY_BUFFER, buffer: 0 },
        GlEvent::GenVertexArray { array: vao },
        GlEvent::BindVertexArray { array: vao },
        GlEvent::BindBuffer { target: ARRAY_BUFFER, buffer: vbo },
    ] + layout_events(fields, fields.len() as int) + seq![
        GlEvent::BindBuffer { target: ARRAY_BUFFER, buffer: 0 },
        GlEvent::BindVertexArray { array: 0 },
        GlEvent::GetUniformLocation { program, name: mvp_uniform_name(), location },
    ]
}

/// One drawable object: its program, its vertex array with the buffer behind
/// it, and the controller of its combined matrix.
pub struct Triangle<M> {
    program: Program,
    _vbo: ArrayBuffer,
    vao: VertexArray,
    mvp_matrix: ModelViewProjectionMatrix<M>,
}

impl<M: Copy> Triangle<M> {
    pub closed spec fn program_id(&self) -> u32 {
        self.program.spec_id()
    }

    pub closed spec fn buffer_id(&self) -> u32 {
        self._vbo.id()
    }

    pub closed spec fn array_id(&self) -> u32 {
        self.vao.id()
    }

    /// The state of the matrix controller.
    pub closed spec fn controller(&self) -> MvpState<M> {
        self.mvp_matrix@
    }

    /// Whether the controller is registered, as it is from setup on.
    pub open spec fn wf(&self) -> bool {
        self.controller().location is Some
    }

    /// Sets the drawable up. The layout is checked first, so that an
    /// incomplete one is reported before anything is issued. Then the
    /// program is loaded, the vertices are uploaded once, the layout is
    /// registered with a new vertex array, and the controller over `model`
    /// is registered with the program's matrix uniform.
    pub fn new<D: Driver, R: Resources>(
        res: &mut Loader<R>,
        gl: &mut Gl<D>,
        vertices: &[D::Vertex],
        fields: &Vec<VertexField>,
        model: M,
    ) -> (r: Result<Self, SetupError>)
        requires
            MAX_FIELD_BYTES * fields@.len() <= usize::MAX,
        ensures
            !located_before(fields@, fields@.len() as int) ==> {
                &&& r matches Err(SetupError::Layout(LayoutError::MissingLocation { field }))
                &&& field < fields@.len()
                &&& fields@[field as int].location is None
                &&& located_before(fields@, field as int)
                &&& final(gl).journal() == old(gl).journal()
                &&& final(res).asked() == old(res).asked()
            },
            final(res).backend() == old(res).backend(),
            located_before(fields@, fields@.len() as int) ==> exists|load: ProgramLoad|
                {
                    let loaded = old(gl).journal() + program_events::<D::Matrix, D::Vertex>(
                        program_resource(),
                        load,
                    );
                    &&& final(res).asked() == old(res).asked() + #[trigger] program_requests(
                        program_resource(),
                        load,
                    )
                    &&& match r {
                        Ok(t) => {
                            &&& program_outcome(Ok(t.program_id()), program_resource(), load)
                            &&& t.wf()
                            &&& t.controller().model == model
                            &&& t.controller().model_dirty
                            &&& final(gl).journal() == loaded + setup_events::<D::Matrix, D::Vertex>(
                                t.program_id(),
                                t.buffer_id(),
                                t.array_id(),
                                (vertices@.len() * vstd::layout::size_of::<D::Vertex>()) as usize,
                                vertices@,
                                fields@,
                                t.controller().location->Some_0,
                            )
                        },
                        Err(SetupError::Program(e)) => {
                            &&& program_outcome(Err(e), program_resource(), load)
                            &&& final(gl).journal() == loaded
                        },
                        Err(SetupError::Layout(_)) => false,
                    }
                },
    {
        match attribute_pointers(fields) {
            Ok(_) => {},
            Err(e) => {
                return Err(SetupError::Layout(e));
            },
        }
        proof {
            reveal_strlit("shaders/triangle");
        }
        assert("shaders/triangle"@ =~= program_resource());
        let program = match Program::from_res(gl, res, "shaders/triangle") {
            Ok(program) => program,
            Err(e) => {
                return Err(SetupError::Program(e));
            },
        };
        let ghost loaded = gl.journal();
        let vbo = ArrayBuffer::new(gl);
        vbo.bind(gl);
        vbo.static_draw_data(gl, vertices);
        vbo.unbind(gl);
        let vao = VertexArray::new(gl);
        vao.bind(gl);
        vbo.bind(gl);
        let ghost bound = gl.journal();
        match vertex_attrib_pointers(gl, fields) {
            Ok(()) => {},
            Err(e) => {
                return Err(SetupError::Layout(e));
            },
        }
        vbo.unbind(gl);
        vao.unbind(gl);
        let mut mvp_matrix = ModelViewProjectionMatrix::new(model);
        let mut name: Vec<u8> = Vec::new();
        name.push(77u8);
        name.push(86u8);
        name.push(80u8);
        name.push(0u8);
        assert(name@ =~= mvp_uniform_name());
        let registered = mvp_matrix.register_with_program_and_uniform(
            gl,
            program.id(),
            name.as_slice(),
        );
        assert(registered is Ok);
        let t = Triangle { program, _vbo: vbo, vao, mvp_matrix };
        assert(gl.journal() =~= loaded + setup_events::<D::Matrix, D::Vertex>(
            t.program_id(),
            t.buffer_id(),
            t.array_id(),
            (vertices@.len() * vstd::layout::size_of::<D::Vertex>()) as usize,
            vertices@,
            fields@,
            t.controller().location->Some_0,
        ));
        Ok(t)
    }

    /// Draws one frame: the program is made active, the vertex array is
    /// bound, the matrix uniform is brought up to date, and the vertices are
    /// drawn as one triangle. Nothing is allocated or uploaded again but the
    /// matrix, and that only after a change.
    pub fn render<D: Driver<Matrix = M>, F: Fn(&M, &M) -> M>(
        &mut self,
        gl: &mut Gl<D>,
        camera: &mut Camera<M>,
        multiply: &F,
    )
        requires
            old(self).wf(),
            forall|a: &M, b: &M| call_requires(multiply, (a, b)),
        ensures
            final(self).wf(),
            final(self).program_id() == old(self).program_id(),
            final(self).buffer_id() == old(self).buffer_id(),
            final(self).array_id() == old(self).array_id(),
            final(self).controller() == (MvpState { model_dirty: false, ..old(self).controller() }),
            !final(camera)@.product_dirty,
            !(old(self).controller().model_dirty || old(camera)@.product_dirty) ==> {
                &&& final(camera)@ == old(camera)@
                &&& final(gl).journal() == old(gl).journal() + seq![
                    GlEvent::UseProgram { program: old(self).program_id() },
                    GlEvent::BindVertexArray { array: old(self).array_id() },
                    GlEvent::DrawArrays { mode: TRIANGLES, first: 0, count: VERTEX_COUNT },
                ]
            },
            old(self).controller().model_dirty || old(camera)@.product_dirty ==> {
                &&& final(camera)@ == old(camera)@.after_access(final(camera)@.product).after_clean()
                &&& old(camera)@.sources_dirty() ==> call_ensures(
                    multiply,
                    (&old(camera)@.projection, &old(camera)@.view),
                    final(camera)@.product,
                )
                &&& exists|mvp: M|
                    {
                        &&& call_ensures(
                            multiply,
                            (&final(camera)@.product, &old(self).controller().model),
                            mvp,
                        )
                        &&& final(gl).journal() == old(gl).journal() + seq![
                            GlEvent::UseProgram { program: old(self).program_id() },
                            GlEvent::BindVertexArray { array: old(self).array_id() },
                            #[trigger] upload_event(old(self).controller().location->Some_0, mvp),
                            GlEvent::DrawArrays { mode: TRIANGLES, first: 0, count: VERTEX_COUNT },
                        ]
                    }
            },
    {
        self.program.set_used(gl);
        self.vao.bind(gl);
        let ghost before = gl.journal();
        self.mvp_matrix.calculate_and_update_mvp(gl, camera, multiply);
        let ghost after = gl.journal();
        gl.draw_arrays(TRIANGLES, 0, VERTEX_COUNT);
        proof {
            if old(self).controller().model_dirty || old(camera)@.product_dirty {
                let mvp = choose|mvp: M|
                    {
                        &&& call_ensures(
                            multiply,
                            (&camera@.product, &old(self).controller().model),
                            mvp,
                        )
                        &&& after == before.push(
                            #[trigger] upload_event(old(self).controller().location->Some_0, mvp),
                        )
                    };
                assert(gl.journal() =~= old(gl).journal() + seq![
                    GlEvent::UseProgram { program: old(self).program_id() },
                    GlEvent::BindVertexArray { array: old(self).array_id() },
                    upload_event(old(self).controller().location->Some_0, mvp),
                    GlEvent::DrawArrays { mode: TRIANGLES, first: 0, count: VERTEX_COUNT },
                ]);
            } else {
                assert(gl.journal() =~= old(gl).journal() + seq![
                    GlEvent::UseProgram { program: old(self).program_id() },
                    GlEvent::BindVertexArray { array: old(self).array_id() },
                    GlEvent::DrawArrays { mode: TRIANGLES, first: 0, count: VERTEX_COUNT },
                ]);
            }
        }
    }

    /// Releases the program, the buffer and the vertex array, in that order,
    /// and ends the drawable.
    pub fn delete<D: Driver>(self, gl: &mut Gl<D>)
        ensures
            final(gl).journal() == old(gl).journal() + seq![
                GlEvent::DeleteProgram { program: self.program_id() },
                GlEvent::DeleteBuffer { buffer: self.buffer_id() },
                GlEvent::DeleteVertexArray { array: self.array_id() },
            ],
    {
        let Triangle { program, _vbo, vao, mvp_matrix: _ } = self;
        program.delete(gl);
        _vbo.delete(gl);
        vao.delete(gl);
        assert(gl.journal() =~= old(gl).journal() + seq![
            GlEvent::DeleteProgram { program: self.program_id() },
            GlEvent::DeleteBuffer { buffer: self.buffer_id() },
            GlEvent::DeleteVertexArray { array: self.array_id() },
        ]);
    }
}

} // verus!
