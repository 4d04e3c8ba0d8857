use vstd::prelude::*;

verus! {

pub const ARRAY_BUFFER: u32 = 0x8892;

pub const ELEMENT_ARRAY_BUFFER: u32 = 0x8893;

pub const STATIC_DRAW: u32 = 0x88E4;

pub const VERTEX_SHADER: u32 = 0x8B31;

pub const FRAGMENT_SHADER: u32 = 0x8B30;

pub const COMPILE_STATUS: u32 = 0x8B81;

pub const LINK_STATUS: u32 = 0x8B82;

pub const INFO_LOG_LENGTH: u32 = 0x8B84;

pub const FLOAT: u32 = 0x1406;

pub const UNSIGNED_INT_2_10_10_10_REV: u32 = 0x8368;

pub const TRIANGLES: u32 = 0x0004;

/// The entry points of the graphics API that this library uses, one method
/// each. An implementation performs the call and hands back what the API
/// returned. Nothing is assumed of what it returns.
pub trait Driver {
    /// The matrix type that uniform uploads carry.
    type Matrix;

    /// The type of the items that buffer uploads carry.
    type Vertex;

    fn gen_buffer(&mut self) -> u32;

    fn bind_buffer(&mut self, target: u32, buffer: u32);

    fn buffer_data(&mut self, target: u32, size: usize, data: &[Self::Vertex], usage: u32);

    fn delete_buffer(&mut self, buffer: u32);

    fn gen_vertex_array(&mut self) -> u32;

    fn bind_vertex_array(&mut self, array: u32);

    fn delete_vertex_array(&mut self, array: u32);

    fn create_shader(&mut self, kind: u32) -> u32;

    fn shader_source(&mut self, shader: u32, source: &[u8]);

    fn compile_shader(&mut self, shader: u32);

    fn get_shader_iv(&mut self, shader: u32, parameter: u32) -> i32;

    fn get_shader_info_log(&mut self, shader: u32, capacity: i32) -> Vec<u8>;

    fn delete_shader(&mut self, shader: u32);

    fn create_program(&mut self) -> u32;

    fn attach_shader(&mut self, program: u32, shader: u32);

    fn link_program(&mut self, program: u32);

    fn get_program_iv(&mut self, program: u32, parameter: u32) -> i32;

    fn get_program_info_log(&mut self, program: u32, capacity: i32) -> Vec<u8>;

    fn detach_shader(&mut self, program: u32, shader: u32);

    fn use_program(&mut self, program: u32);

    fn delete_program(&mut self, program: u32);

    fn get_uniform_location(&mut self, program: u32, name: &[u8]) -> i32;

    fn uniform_matrix_4fv(&mut self, location: i32, count: i32, transpose: bool, value: &Self::Matrix);

    fn enable_vertex_attrib_array(&mut self, index: u32);

    fn vertex_attrib_pointer(
        &mut self,
        index: u32,
        size: i32,
        kind: u32,
        normalized: bool,
        stride: usize,
        offset: usize,
    );

    fn draw_arrays(&mut self, mode: u32, first: i32, count: i32);

    fn viewport(&mut self, x: i32, y: i32, width: i32, height: i32);
}

/// One call that was issued, with its arguments and, where the call returns
/// something, what came back.
pub enum GlEvent<M, V> {
    GenBuffer { buffer: u32 },
    BindBuffer { target: u32, buffer: u32 },
    BufferData { target: u32, size: usize, data: Seq<V>, usage: u32 },
    DeleteBuffer { buffer: u32 },
    GenVertexArray { array: u32 },
    BindVertexArray { array: u32 },
    DeleteVertexArray { array: u32 },
    CreateShader { kind: u32, shader: u32 },
    ShaderSource { shader: u32, source: Seq<u8> },
    CompileShader { shader: u32 },
    GetShaderIv { shader: u32, parameter: u32, value: i32 },
    GetShaderInfoLog { shader: u32, capacity: i32, log: Seq<u8> },
    DeleteShader { shader: u32 },
    CreateProgram { program: u32 },
    AttachShader { program: u32, shader: u32 },
    LinkProgram { program: u32 },
    GetProgramIv { program: u32, parameter: u32, value: i32 },
    GetProgramInfoLog { program: u32, capacity: i32, log: Seq<u8> },
    DetachShader { program: u32, shader: u32 },
    UseProgram { program: u32 },
    DeleteProgram { program: u32 },
    GetUniformLocation { program: u32, name: Seq<u8>, location: i32 },
    UniformMatrix4fv { location: i32, count: i32, transpose: bool, matrix: M },
    EnableVertexAttribArray { index: u32 },
    VertexAttribPointer {
        index: u32,
        components: i32,
        kind: u32,
        normalized: bool,
        stride: usize,
        offset: usize,
    },
    DrawArrays { mode: u32, first: i32, count: i32 },
    Viewport { x: i32, y: i32, width: i32, height: i32 },
}

/// The buffer that the most recent bind call for `target` named: zero where
/// that call unbound the target, or where no such call was issued.
pub open spec fn bound_buffer<M, V>(journal: Seq<GlEvent<M, V>>, target: u32) -> u32
    decreases journal.len(),
{
    if journal.len() == 0 {
        0
    } else {
        match journal.last() {
            GlEvent::BindBuffer { target: t, buffer } => if t == target {
                buffer
            } else {
                bound_buffer(journal.drop_last(), target)
            },
            _ => bound_buffer(journal.drop_last(), target),
        }
    }
}

/// What a call does to the binding of `target`: a bind call for the target
/// sets it, and every other call leaves it as it was.
pub proof fn lemma_bound_buffer_after<M, V>(journal: Seq<GlEvent<M, V>>, event: GlEvent<M, V>, target: u32)
    ensures
        bound_buffer(journal.push(event), target) == match event {
            GlEvent::BindBuffer { target: t, buffer } => if t == target {
                buffer
            } else {
                bound_buffer(journal, target)
            },
            _ => bound_buffer(journal, target),
        },
{
    assert(journal.push(event).drop_last() =~= journal);
}

/// The handle through which every graphics call is issued. It owns the
/// driver and remembers, as ghost state, each call in the order it was made.
pub struct Gl<D: Driver> {
    driver: D,
    journal: Ghost<Seq<GlEvent<D::Matrix, D::Vertex>>>,
}

impl<D: Driver> Gl<D> {
    /// Everything issued through this handle so far, oldest first.
    pub closed spec fn journal(&self) -> Seq<GlEvent<D::Matrix, D::Vertex>> {
        self.journal@
    }

    /// The driver behind the handle, in the state the last call left it in.
    pub closed spec fn backend(&self) -> D {
        self.driver
    }

    /// Wraps a driver. Nothing has been issued yet.
    pub fn load_with(driver: D) -> (gl: Self)
        ensures
            gl.journal() == Seq::<GlEvent<D::Matrix, D::Vertex>>::empty(),
            gl.backend() == driver,
    {
        Gl { driver, journal: Ghost(Seq::empty()) }
    }

    /// The driver behind the handle.
    pub fn driver(&self) -> (driver: &D)
        ensures
            *driver == self.backend(),
    {
        &self.driver
    }

    /// Gives the driver back and ends the handle.
    pub fn into_driver(self) -> (driver: D)
        ensures
            driver == self.backend(),
    {
        self.driver
    }

    // Each method below issues the call it is named after and appends it,
    // with what came back, to the journal.
    pub fn gen_buffer(&mut self) -> (buffer: u32)
        ensures
            final(self).journal() == old(self).journal().push(GlEvent::GenBuffer { buffer }),
    {
        let buffer = self.driver.gen_buffer();
        proof {
            self.journal = Ghost(self.journal@.push(GlEvent::GenBuffer { buffer }));
        }
        buffer
    }

    pub fn bind_buffer(&mut self, target: u32, buffer: u32)
        ensures
            final(self).journal() == old(self).journal().push(
                GlEvent::BindBuffer { target, buffer },
            ),
    {
        self.driver.bind_buffer(target, buffer);
        proof {
            self.journal = Ghost(self.journal@.push(GlEvent::BindBuffer { target, buffer }));
        }
    }

    pub fn buffer_data(&mut self, target: u32, size: usize, data: &[D::Vertex], usage: u32)
        ensures
            final(self).journal() == old(self).journal().push(
                GlEvent::BufferData { target, size, data: data@, usage },
            ),
    {
        self.driver.buffer_data(target, size, data, usage);
        proof {
            self.journal = Ghost(
                self.journal@.push(GlEvent::BufferData { target, size, data: data@, usage }),
            );
        }
    }

    pub fn delete_buffer(&mut self, buffer: u32)
        ensures
            final(self).journal() == old(self).journal().push(GlEvent::DeleteBuffer { buffer }),
    {
        self.driver.delete_buffer(buffer);
        proof {
            self.journal = Ghost(self.journal@.push(GlEvent::DeleteBuffer { buffer }));
        }
    }

    pub fn gen_vertex_array(&mut self) -> (array: u32)
        ensures
            final(self).journal() == old(self).journal().push(GlEvent::GenVertexArray { array }),
    {
        let array = self.driver.gen_vertex_array();
        proof {
            self.journal = Ghost(self.journal@.push(GlEvent::GenVertexArray { array }));
        }
        array
    }

    pub fn bind_vertex_array(&mut self, array: u32)
        ensures
            final(self).journal() == old(self).journal().push(GlEvent::BindVertexArray { array }),
    {
        self.driver.bind_vertex_array(array);
        proof {
            self.journal = Ghost(self.journal@.push(GlEvent::BindVertexArray { array }));
        }
    }

    pub fn delete_vertex_array(&mut self, array: u32)
        ensures
            final(self).journal() == old(self).journal().push(
                GlEvent::DeleteVertexArray { array },
            ),
    {
        self.driver.delete_vertex_array(array);
        proof {
            self.journal = Ghost(self.journal@.push(GlEvent::DeleteVertexArray { array }));
        }
    }

    pub fn create_shader(&mut self, kind: u32) -> (shader: u32)
        ensures
            final(self).journal() == old(self).journal().push(
                GlEvent::CreateShader { kind, shader },
            ),
    {
        let shader = self.driver.create_shader(kind);
        proof {
            self.journal = Ghost(self.journal@.push(GlEvent::CreateShader { kind, shader }));
        }
        shader
    }

    pub fn shader_source(&mut self, shader: u32, source: &[u8])
        ensures
            final(self).journal() == old(self).journal().push(
                GlEvent::ShaderSource { shader, source: source@ },
            ),
    {
        self.driver.shader_source(shader, source);
        proof {
            self.journal = Ghost(
                self.journal@.push(GlEvent::ShaderSource { shader, source: source@ }),
            );
        }
    }

    pub fn compile_shader(&mut self, shader: u32)
        ensures
            final(self).journal() == old(self).journal().push(GlEvent::CompileShader { shader }),
    {
        self.driver.compile_shader(shader);
        proof {
            self.journal = Ghost(self.journal@.push(GlEvent::CompileShader { shader }));
        }
    }

    pub fn get_shader_iv(&mut self, shader: u32, parameter: u32) -> (value: i32)
        ensures
            final(self).journal() == old(self).journal().push(
                GlEvent::GetShaderIv { shader, parameter, value },
            ),
    {
        let value = self.driver.get_shader_iv(shader, parameter);
        proof {
            self.journal = Ghost(
                self.journal@.push(GlEvent::GetShaderIv { shader, parameter, value }),
            );
        }
        value
    }

    pub fn get_shader_info_log(&mut self, shader: u32, capacity: i32) -> (log: Vec<u8>)
        ensures
            final(self).journal() == old(self).journal().push(
                GlEvent::GetShaderInfoLog { shader, capacity, log: log@ },
            ),
    {
        let log = self.driver.get_shader_info_log(shader, capacity);
        proof {
            self.journal = Ghost(
                self.journal@.push(GlEvent::GetShaderInfoLog { shader, capacity, log: log@ }),
            );
        }
        log
    }

    pub fn delete_shader(&mut self, shader: u32)
        ensures
            final(self).journal() == old(self).journal().push(GlEvent::DeleteShader { shader }),
    {
        self.driver.delete_shader(shader);
        proof {
            self.journal = Ghost(self.journal@.push(GlEvent::DeleteShader { shader }));
        }
    }

    pub fn create_program(&mut self) -> (program: u32)
        ensures
            final(self).journal() == old(self).journal().push(GlEvent::CreateProgram { program }),
    {
        let program = self.driver.create_program();
        proof {
            self.journal = Ghost(self.journal@.push(GlEvent::CreateProgram { program }));
        }
        program
    }

    pub fn attach_shader(&mut self, program: u32, shader: u32)
        ensures
            final(self).journal() == old(self).journal().push(
                GlEvent::AttachShader { program, shader },
            ),
    {
        self.driver.attach_shader(program, shader);
        proof {
            self.journal = Ghost(self.journal@.push(GlEvent::AttachShader { program, shader }));
        }
    }

    pub fn link_program(&mut self, program: u32)
        ensures
            final(self).journal() == old(self).journal().push(GlEvent::LinkProgram { program }),
    {
        self.driver.link_program(program);
        proof {
            self.journal = Ghost(self.journal@.push(GlEvent::LinkProgram { program }));
        }
    }

    pub fn get_program_iv(&mut self, program: u32, parameter: u32) -> (value: i32)
        ensures
            final(self).journal() == old(self).journal().push(
                GlEvent::GetProgramIv { program, parameter, value },
            ),
    {
        let value = self.driver.get_program_iv(program, parameter);
        proof {
            self.journal = Ghost(
                self.journal@.push(GlEvent::GetProgramIv { program, parameter, value }),
            );
        }
        value
    }

    pub fn get_program_info_log(&mut self, program: u32, capacity: i32) -> (log: Vec<u8>)
        ensures
            final(self).journal() == old(self).journal().push(
                GlEvent::GetProgramInfoLog { program, capacity, log: log@ },
            ),
    {
        let log = self.driver.get_program_info_log(program, capacity);
        proof {
            self.journal = Ghost(
                self.journal@.push(GlEvent::GetProgramInfoLog { program, capacity, log: log@ }),
            );
        }
        log
    }

    pub fn detach_shader(&mut self, program: u32, shader: u32)
        ensures
            final(self).journal() == old(self).journal().push(
                GlEvent::DetachShader { program, shader },
            ),
    {
        self.driver.detach_shader(program, shader);
        proof {
            self.journal = Ghost(self.journal@.push(GlEvent::DetachShader { program, shader }));
        }
    }

    pub fn use_program(&mut self, program: u32)
        ensures
            final(self).journal() == old(self).journal().push(GlEvent::UseProgram { program }),
    {
        self.driver.use_program(program);
        proof {
            self.journal = Ghost(self.journal@.push(GlEvent::UseProgram { program }));
        }
    }

    pub fn delete_program(&mut self, program: u32)
        ensures
            final(self).journal() == old(self).journal().push(GlEvent::DeleteProgram { program }),
    {
        self.driver.delete_program(program);
        proof {
            self.journal = Ghost(self.journal@.push(GlEvent::DeleteProgram { program }));
        }
    }

    pub fn get_uniform_location(&mut self, program: u32, name: &[u8]) -> (location: i32)
        ensures
            final(self).journal() == old(self).journal().push(
                GlEvent::GetUniformLocation { program, name: name@, location },
            ),
    {
        let location = self.driver.get_uniform_location(program, name);
        proof {
            self.journal = Ghost(
                self.journal@.push(GlEvent::GetUniformLocation { program, name: name@, location }),
            );
        }
        location
    }

    pub fn uniform_matrix_4fv(&mut self, location: i32, count: i32, transpose: bool, value: &D::Matrix)
        ensures
            final(self).journal() == old(self).journal().push(
                GlEvent::UniformMatrix4fv { location, count, transpose, matrix: *value },
            ),
    {
        self.driver.uniform_matrix_4fv(location, count, transpose, value);
        proof {
            self.journal = Ghost(
                self.journal@.push(
                    GlEvent::UniformMatrix4fv { location, count, transpose, matrix: *value },
                ),
            );
        }
    }

    pub fn enable_vertex_attrib_array(&mut self, index: u32)
        ensures
            final(self).journal() == old(self).journal().push(
                GlEvent::EnableVertexAttribArray { index },
            ),
    {
        self.driver.enable_vertex_attrib_array(index);
        proof {
            self.journal = Ghost(self.journal@.push(GlEvent::EnableVertexAttribArray { index }));
        }
    }

    pub fn vertex_attrib_pointer(
        &mut self,
        index: u32,
        size: i32,
        kind: u32,
        normalized: bool,
        stride: usize,
        offset: usize,
    )
        ensures
            final(self).journal() == old(self).journal().push(
                GlEvent::VertexAttribPointer {
                    index,
                    components: size,
                    kind,
                    normalized,
                    stride,
                    offset,
                },
            ),
    {
        self.driver.vertex_attrib_pointer(index, size, kind, normalized, stride, offset);
        proof {
            self.journal = Ghost(
                self.journal@.push(
                    GlEvent::VertexAttribPointer {
                    index,
                    components: size,
                    kind,
                    normalized,
                    stride,
                    offset,
                },
                ),
            );
        }
    }

    pub fn draw_arrays(&mut self, mode: u32, first: i32, count: i32)
        ensures
            final(self).journal() == old(self).journal().push(
                GlEvent::DrawArrays { mode, first, count },
            ),
    {
        self.driver.draw_arrays(mode, first, count);
        proof {
            self.journal = Ghost(self.journal@.push(GlEvent::DrawArrays { mode, first, count }));
        }
    }

    pub fn viewport(&mut self, x: i32, y: i32, width: i32, height: i32)
        ensures
            final(self).journal() == old(self).journal().push(
                GlEvent::Viewport { x, y, width, height },
            ),
    {
        self.driver.viewport(x, y, width, height);
        proof {
            self.journal = Ghost(self.journal@.push(GlEvent::Viewport { x, y, width, height }));
        }
    }
}

} // verus!
