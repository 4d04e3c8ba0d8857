use render_gl::buffer::{ArrayBuffer, ElementArrayBuffer, VertexArray};
use render_gl::cached_matrix::CachedMatrix4;
use render_gl::camera::Camera;
use render_gl::context::{
    Driver, Gl, ARRAY_BUFFER, COMPILE_STATUS, ELEMENT_ARRAY_BUFFER, FLOAT, FRAGMENT_SHADER,
    INFO_LOG_LENGTH, LINK_STATUS, STATIC_DRAW, TRIANGLES, UNSIGNED_INT_2_10_10_10_REV,
    VERTEX_SHADER,
};
use render_gl::layout::{
    attribute_pointers, vertex_attrib_pointers, AttributeFormat, LayoutError, VertexField,
};
use render_gl::mvp_matrix::{ModelViewProjectionMatrix, UniformError};
use render_gl::debug::failure_to_string;
use render_gl::shader::{
    compile_result, link_result, Error, Loader, Program, ResourceError, Resources, Shader,
    ShaderStage,
};
use render_gl::triangle::{SetupError, Triangle};
use render_gl::viewport::Viewport;
use std::cell::{Cell, RefCell};

type Mat = [[i64; 4]; 4];

fn identity() -> Mat {
    let mut m = [[0i64; 4]; 4];
    for i in 0..4 {
        m[i][i] = 1;
    }
    m
}

fn scale(k: i64) -> Mat {
    let mut m = identity();
    for i in 0..3 {
        m[i][i] = k;
    }
    m
}

fn shift(x: i64, y: i64, z: i64) -> Mat {
    let mut m = identity();
    m[0][3] = x;
    m[1][3] = y;
    m[2][3] = z;
    m
}

fn times(a: &Mat, b: &Mat) -> Mat {
    let mut m = [[0i64; 4]; 4];
    for i in 0..4 {
        for j in 0..4 {
            for k in 0..4 {
                m[i][j] += a[i][k] * b[k][j];
            }
        }
    }
    m
}

#[derive(Clone, Debug, PartialEq)]
enum Call {
    GenBuffer(u32),
    BindBuffer(u32, u32),
    BufferData(u32, usize, Vec<[u8; 16]>, u32),
    DeleteBuffer(u32),
    GenVertexArray(u32),
    BindVertexArray(u32),
    DeleteVertexArray(u32),
    CreateShader(u32, u32),
    ShaderSource(u32, Vec<u8>),
    CompileShader(u32),
    GetShaderIv(u32, u32),
    GetShaderInfoLog(u32, i32),
    DeleteShader(u32),
    CreateProgram(u32),
    AttachShader(u32, u32),
    LinkProgram(u32),
    GetProgramIv(u32, u32),
    GetProgramInfoLog(u32, i32),
    DetachShader(u32, u32),
    UseProgram(u32),
    DeleteProgram(u32),
    GetUniformLocation(u32, Vec<u8>),
    UniformMatrix4fv(i32, i32, bool, Mat),
    EnableVertexAttribArray(u32),
    VertexAttribPointer(u32, i32, u32, bool, usize, usize),
    DrawArrays(u32, i32, i32),
    Viewport(i32, i32, i32, i32),
}

struct Recorder {
    calls: Vec<Call>,
    next: u32,
    kinds: Vec<(u32, u32)>,
    failing_kind: Option<u32>,
    link_fails: bool,
    log: Vec<u8>,
    location: i32,
}

impl Recorder {
    fn new() -> Recorder {
        Recorder {
            calls: Vec::new(),
            next: 1,
            kinds: Vec::new(),
            failing_kind: None,
            link_fails: false,
            log: Vec::new(),
            location: 7,
        }
    }

    fn fresh(&mut self) -> u32 {
        let id = self.next;
        self.next += 1;
        id
    }
}

impl Driver for Recorder {
    type Matrix = Mat;
    type Vertex = [u8; 16];

    fn gen_buffer(&mut self) -> u32 {
        let id = self.fresh();
        self.calls.push(Call::GenBuffer(id));
        id
    }

    fn bind_buffer(&mut self, target: u32, buffer: u32) {
        self.calls.push(Call::BindBuffer(target, buffer));
    }

    fn buffer_data(&mut self, target: u32, size: usize, data: &[[u8; 16]], usage: u32) {
        self.calls.push(Call::BufferData(target, size, data.to_vec(), usage));
    }

    fn delete_buffer(&mut self, buffer: u32) {
        self.calls.push(Call::DeleteBuffer(buffer));
    }

    fn gen_vertex_array(&mut self) -> u32 {
        let id = self.fresh();
        self.calls.push(Call::GenVertexArray(id));
        id
    }

    fn bind_vertex_array(&mut self, array: u32) {
        self.calls.push(Call::BindVertexArray(array));
    }

    fn delete_vertex_array(&mut self, array: u32) {
        self.calls.push(Call::DeleteVertexArray(array));
    }

    fn create_shader(&mut self, kind: u32) -> u32 {
        let id = self.fresh();
        self.kinds.push((id, kind));
        self.calls.push(Call::CreateShader(kind, id));
        id
    }

    fn shader_source(&mut self, shader: u32, source: &[u8]) {
        self.calls.push(Call::ShaderSource(shader, source.to_vec()));
    }

    fn compile_shader(&mut self, shader: u32) {
        self.calls.push(Call::CompileShader(shader));
    }

    fn get_shader_iv(&mut self, shader: u32, parameter: u32) -> i32 {
        self.calls.push(Call::GetShaderIv(shader, parameter));
        if parameter == INFO_LOG_LENGTH {
            return self.log.len() as i32;
        }
        let kind = self.kinds.iter().find(|(id, _)| *id == shader).map(|(_, kind)| *kind);
        if kind.is_some() && kind == self.failing_kind {
            0
        } else {
            1
        }
    }

    fn get_shader_info_log(&mut self, shader: u32, capacity: i32) -> Vec<u8> {
        self.calls.push(Call::GetShaderInfoLog(shader, capacity));
        self.log.clone()
    }

    fn delete_shader(&mut self, shader: u32) {
        self.calls.push(Call::DeleteShader(shader));
    }

    fn create_program(&mut self) -> u32 {
        let id = self.fresh();
        self.calls.push(Call::CreateProgram(id));
        id
    }

    fn attach_shader(&mut self, program: u32, shader: u32) {
        self.calls.push(Call::AttachShader(program, shader));
    }

    fn link_program(&mut self, program: u32) {
        self.calls.push(Call::LinkProgram(program));
    }

    fn get_program_iv(&mut self, program: u32, parameter: u32) -> i32 {
        self.calls.push(Call::GetProgramIv(program, parameter));
        if parameter == INFO_LOG_LENGTH {
            self.log.len() as i32
        } else if self.link_fails {
            0
        } else {
            1
        }
    }

    fn get_program_info_log(&mut self, program: u32, capacity: i32) -> Vec<u8> {
        self.calls.push(Call::GetProgramInfoLog(program, capacity));
        self.log.clone()
    }

    fn detach_shader(&mut self, program: u32, shader: u32) {
        self.calls.push(Call::DetachShader(program, shader));
    }

    fn use_program(&mut self, program: u32) {
        self.calls.push(Call::UseProgram(program));
    }

    fn delete_program(&mut self, program: u32) {
        self.calls.push(Call::DeleteProgram(program));
    }

    fn get_uniform_location(&mut self, program: u32, name: &[u8]) -> i32 {
        self.calls.push(Call::GetUniformLocation(program, name.to_vec()));
        self.location
    }

    fn uniform_matrix_4fv(&mut self, location: i32, count: i32, transpose: bool, value: &Mat) {
        self.calls.push(Call::UniformMatrix4fv(location, count, transpose, *value));
    }

    fn enable_vertex_attrib_array(&mut self, index: u32) {
        self.calls.push(Call::EnableVertexAttribArray(index));
    }

    fn vertex_attrib_pointer(
        &mut self,
        index: u32,
        size: i32,
        kind: u32,
        normalized: bool,
        stride: usize,
        offset: usize,
    ) {
        self.calls.push(Call::VertexAttribPointer(index, size, kind, normalized, stride, offset));
    }

    fn draw_arrays(&mut self, mode: u32, first: i32, count: i32) {
        self.calls.push(Call::DrawArrays(mode, first, count));
    }

    fn viewport(&mut self, x: i32, y: i32, width: i32, height: i32) {
        self.calls.push(Call::Viewport(x, y, width, height));
    }
}

struct Files {
    entries: Vec<(String, Vec<u8>)>,
    unreadable: Vec<String>,
    asked: RefCell<Vec<String>>,
}

impl Files {
    fn with(names: &[&str]) -> Loader<Files> {
        Files::with_unreadable(names, &[])
    }

    fn with_unreadable(names: &[&str], unreadable: &[&str]) -> Loader<Files> {
        Loader::new(Files {
            entries: names
                .iter()
                .map(|n| (n.to_string(), format!("// {}", n).into_bytes()))
                .collect(),
            unreadable: unreadable.iter().map(|n| n.to_string()).collect(),
            asked: RefCell::new(Vec::new()),
        })
    }
}

fn asked(files: &Loader<Files>) -> Vec<String> {
    files.source().asked.borrow().clone()
}

impl Resources for Files {
    fn load_cstring(&self, name: &str) -> Result<Vec<u8>, ResourceError> {
        self.asked.borrow_mut().push(name.to_string());
        if self.unreadable.iter().any(|n| n == name) {
            return Err(ResourceError::Unreadable);
        }
        match self.entries.iter().find(|(n, _)| n == name) {
            Some((_, bytes)) => Ok(bytes.clone()),
            None => Err(ResourceError::NotFound),
        }
    }
}

fn uploads(calls: &[Call]) -> usize {
    calls.iter().filter(|c| matches!(c, Call::UniformMatrix4fv(..))).count()
}

fn position_and_color() -> Vec<VertexField> {
    vec![
        VertexField { location: Some(0), format: AttributeFormat::Float3 },
        VertexField { location: Some(1), format: AttributeFormat::Packed2x10x10x10Rev },
    ]
}

#[test]
fn cached_matrix_is_dirty_when_new() {
    let c = CachedMatrix4::from(identity());
    assert!(c.is_dirty());
    assert_eq!(c.matrix, identity());
}

#[test]
fn cached_matrix_clean_clears_and_is_idempotent() {
    let mut c = CachedMatrix4::from(scale(2));
    c.clean();
    assert!(!c.is_dirty());
    c.clean();
    assert!(!c.is_dirty());
    assert_eq!(c.matrix, scale(2));
}

#[test]
fn cached_matrix_set_dirties_even_with_equal_value() {
    let mut c = CachedMatrix4::from(scale(2));
    c.clean();
    c.set_matrix(scale(2));
    assert!(c.is_dirty());
    c.clean();
    c.set_matrix(scale(3));
    assert!(c.is_dirty());
    assert_eq!(c.matrix, scale(3));
}

#[test]
fn camera_computes_projection_times_view() {
    let projection = scale(2);
    let view = shift(1, 2, 3);
    let mut camera = Camera::new(projection, view, &times);
    let product = camera.get_projection_view_matrix(&times);
    assert_eq!(product, times(&projection, &view));
    assert_ne!(product, times(&view, &projection));
    assert_eq!(product[0][3], 2);
}

#[test]
fn camera_second_read_is_identical_and_does_not_recompute() {
    let count = Cell::new(0usize);
    let counting = |a: &Mat, b: &Mat| {
        count.set(count.get() + 1);
        times(a, b)
    };
    let mut camera = Camera::new(scale(2), shift(1, 2, 3), &counting);
    assert_eq!(count.get(), 1);
    let first = camera.get_projection_view_matrix(&counting);
    assert_eq!(count.get(), 2);
    let second = camera.get_projection_view_matrix(&counting);
    assert_eq!(count.get(), 2);
    assert_eq!(first, second);
    camera.clean_projection_view();
    let third = camera.get_projection_view_matrix(&counting);
    assert_eq!(count.get(), 2);
    assert_eq!(first, third);
    assert!(!camera.is_projection_view_dirty());
}

#[test]
fn camera_product_flag_follows_reads_and_cleans() {
    let mut camera = Camera::new(scale(2), shift(1, 2, 3), &times);
    assert!(camera.is_projection_view_dirty());
    camera.get_projection_view_matrix(&times);
    assert!(camera.is_projection_view_dirty());
    camera.clean_projection_view();
    assert!(!camera.is_projection_view_dirty());
}

#[test]
fn register_refuses_name_without_terminator() {
    let mut gl = Gl::load_with(Recorder::new());
    let mut mvp = ModelViewProjectionMatrix::new(identity());
    let r = mvp.register_with_program_and_uniform(&mut gl, 3, b"MVP");
    assert_eq!(r, Err(UniformError::InvalidUniformName));
    assert!(!mvp.is_registered());
    assert!(gl.driver().calls.is_empty());
    let mut other = ModelViewProjectionMatrix::new(identity());
    assert_eq!(
        other.register_with_program_and_uniform(&mut gl, 3, b""),
        Err(UniformError::InvalidUniformName)
    );
    assert!(gl.driver().calls.is_empty());
}

#[test]
fn register_accepts_terminated_name() {
    let mut gl = Gl::load_with(Recorder::new());
    let mut mvp = ModelViewProjectionMatrix::new(identity());
    assert!(!mvp.is_registered());
    let r = mvp.register_with_program_and_uniform(&mut gl, 3, b"MVP\0");
    assert_eq!(r, Ok(()));
    assert!(mvp.is_registered());
    assert_eq!(gl.driver().calls, vec![Call::GetUniformLocation(3, b"MVP\0".to_vec())]);
}

#[test]
fn update_uploads_once_per_change() {
    let mut gl = Gl::load_with(Recorder::new());
    let projection = scale(2);
    let view = shift(1, 2, 3);
    let model = shift(5, 0, 0);
    let mut camera = Camera::new(projection, view, &times);
    let mut mvp = ModelViewProjectionMatrix::new(model);
    mvp.register_with_program_and_uniform(&mut gl, 3, b"MVP\0").unwrap();
    mvp.calculate_and_update_mvp(&mut gl, &mut camera, &times);
    let expected = times(&times(&projection, &view), &model);
    assert_eq!(
        gl.driver().calls,
        vec![
            Call::GetUniformLocation(3, b"MVP\0".to_vec()),
            Call::UniformMatrix4fv(7, 1, false, expected),
        ]
    );
    assert_eq!(expected[0][3], 12);
    assert!(!camera.is_projection_view_dirty());
    mvp.calculate_and_update_mvp(&mut gl, &mut camera, &times);
    mvp.calculate_and_update_mvp(&mut gl, &mut camera, &times);
    assert_eq!(uploads(&gl.driver().calls), 1);
    assert_eq!(gl.driver().calls.len(), 2);
}

#[test]
fn update_runs_when_only_the_model_is_dirty() {
    let mut gl = Gl::load_with(Recorder::new());
    let mut camera = Camera::new(scale(2), shift(1, 2, 3), &times);
    camera.get_projection_view_matrix(&times);
    camera.clean_projection_view();
    let mut mvp = ModelViewProjectionMatrix::new(identity());
    mvp.register_with_program_and_uniform(&mut gl, 3, b"MVP\0").unwrap();
    mvp.calculate_and_update_mvp(&mut gl, &mut camera, &times);
    assert_eq!(uploads(&gl.driver().calls), 1);
    assert!(!camera.is_projection_view_dirty());
}

#[test]
fn update_runs_when_only_the_camera_is_dirty() {
    let mut gl = Gl::load_with(Recorder::new());
    let mut first = Camera::new(scale(2), shift(1, 2, 3), &times);
    let mut mvp = ModelViewProjectionMatrix::new(identity());
    mvp.register_with_program_and_uniform(&mut gl, 3, b"MVP\0").unwrap();
    mvp.calculate_and_update_mvp(&mut gl, &mut first, &times);
    assert_eq!(uploads(&gl.driver().calls), 1);
    let mut second = Camera::new(scale(3), identity(), &times);
    mvp.calculate_and_update_mvp(&mut gl, &mut second, &times);
    assert_eq!(uploads(&gl.driver().calls), 2);
    assert_eq!(gl.driver().calls[2], Call::UniformMatrix4fv(7, 1, false, scale(3)));
    assert!(!second.is_projection_view_dirty());
}

#[test]
fn layout_of_position_and_packed_color() {
    let pointers = attribute_pointers(&position_and_color()).unwrap();
    assert_eq!(pointers.len(), 2);
    assert_eq!(pointers.iter().map(|p| p.offset).collect::<Vec<usize>>(), vec![0, 12]);
    assert_eq!(pointers[0].stride, 16);
    assert_eq!(pointers[1].stride, 16);
    assert_eq!(pointers[0].index, 0);
    assert_eq!(pointers[0].component_count, 3);
    assert_eq!(pointers[0].component_type, FLOAT);
    assert!(!pointers[0].normalized);
    assert_eq!(pointers[1].index, 1);
    assert_eq!(pointers[1].component_count, 4);
    assert_eq!(pointers[1].component_type, UNSIGNED_INT_2_10_10_10_REV);
    assert!(pointers[1].normalized);
}

#[test]
fn layout_of_no_fields_is_empty() {
    assert_eq!(attribute_pointers(&Vec::new()), Ok(Vec::new()));
}

#[test]
fn layout_names_first_field_without_slot() {
    let fields = vec![
        VertexField { location: Some(0), format: AttributeFormat::Float3 },
        VertexField { location: None, format: AttributeFormat::Float3 },
        VertexField { location: None, format: AttributeFormat::Packed2x10x10x10Rev },
    ];
    assert_eq!(attribute_pointers(&fields), Err(LayoutError::MissingLocation { field: 1 }));
    let mut gl = Gl::load_with(Recorder::new());
    assert_eq!(
        vertex_attrib_pointers(&mut gl, &fields),
        Err(LayoutError::MissingLocation { field: 1 })
    );
    assert!(gl.driver().calls.is_empty());
}

#[test]
fn layout_is_registered_field_by_field() {
    let mut gl = Gl::load_with(Recorder::new());
    assert_eq!(vertex_attrib_pointers(&mut gl, &position_and_color()), Ok(()));
    assert_eq!(
        gl.driver().calls,
        vec![
            Call::EnableVertexAttribArray(0),
            Call::VertexAttribPointer(0, 3, FLOAT, false, 16, 0),
            Call::EnableVertexAttribArray(1),
            Call::VertexAttribPointer(1, 4, UNSIGNED_INT_2_10_10_10_REV, true, 16, 12),
        ]
    );
}

#[test]
fn format_sizes() {
    assert_eq!(AttributeFormat::Float3.byte_size(), 12);
    assert_eq!(AttributeFormat::Packed2x10x10x10Rev.byte_size(), 4);
}

#[test]
fn stage_follows_suffix() {
    assert_eq!(ShaderStage::for_name("shaders/triangle.vert"), Some(ShaderStage::Vertex));
    assert_eq!(ShaderStage::for_name("shaders/triangle.frag"), Some(ShaderStage::Fragment));
    assert_eq!(ShaderStage::for_name(".vert"), Some(ShaderStage::Vertex));
    assert_eq!(ShaderStage::for_name("shaders/triangle.glsl"), None);
    assert_eq!(ShaderStage::for_name("vert"), None);
    assert_eq!(ShaderStage::for_name(""), None);
    assert_eq!(ShaderStage::for_name("a.vert.txt"), None);
    assert_eq!(ShaderStage::for_name("\u{e9}t\u{e9}.frag"), Some(ShaderStage::Fragment));
    assert_eq!(ShaderStage::Vertex.kind(), VERTEX_SHADER);
    assert_eq!(ShaderStage::Fragment.kind(), FRAGMENT_SHADER);
    assert_eq!(ShaderStage::Vertex.name(), "vertex");
    assert_eq!(ShaderStage::Fragment.name(), "fragment");
}

#[test]
fn shader_with_unknown_suffix_is_refused() {
    let mut gl = Gl::load_with(Recorder::new());
    let mut files = Files::with(&["shaders/triangle.glsl"]);
    let r = Shader::from_res(&mut gl, &mut files, "shaders/triangle.glsl");
    match r {
        Err(Error::CannotDetermineShaderTypeForResource { name }) => {
            assert_eq!(name, "shaders/triangle.glsl")
        }
        _ => panic!("expected the name to be refused"),
    }
    assert!(asked(&files).is_empty());
    assert!(gl.driver().calls.is_empty());
}

#[test]
fn shader_with_missing_resource_fails_to_load() {
    let mut gl = Gl::load_with(Recorder::new());
    let mut files = Files::with(&[]);
    match Shader::from_res(&mut gl, &mut files, "shaders/triangle.vert") {
        Err(Error::UnableToLoadResource { name, cause }) => {
            assert_eq!(name, "shaders/triangle.vert");
            assert_eq!(cause, ResourceError::NotFound);
        }
        _ => panic!("expected a load error"),
    }
    assert!(gl.driver().calls.is_empty());
}

#[test]
fn shader_compiles_from_resource() {
    let mut gl = Gl::load_with(Recorder::new());
    let mut files = Files::with(&["shaders/triangle.frag"]);
    let shader = Shader::from_res(&mut gl, &mut files, "shaders/triangle.frag").unwrap();
    assert_eq!(shader.id(), 1);
    assert_eq!(
        gl.driver().calls,
        vec![
            Call::CreateShader(FRAGMENT_SHADER, 1),
            Call::ShaderSource(1, b"// shaders/triangle.frag".to_vec()),
            Call::CompileShader(1),
            Call::GetShaderIv(1, COMPILE_STATUS),
        ]
    );
    shader.delete(&mut gl);
    assert_eq!(gl.driver().calls.last(), Some(&Call::DeleteShader(1)));
}

#[test]
fn shader_compile_failure_carries_the_diagnostic() {
    let mut driver = Recorder::new();
    driver.failing_kind = Some(VERTEX_SHADER);
    driver.log = b"0:1: syntax error".to_vec();
    let mut gl = Gl::load_with(driver);
    match Shader::from_vert_source(&mut gl, b"void main() {") {
        Err(Error::CompileError { stage_name, message }) => {
            assert_eq!(stage_name, "vertex");
            assert_eq!(message, "0:1: syntax error");
        }
        _ => panic!("expected a compile error"),
    }
    assert_eq!(
        gl.driver().calls,
        vec![
            Call::CreateShader(VERTEX_SHADER, 1),
            Call::ShaderSource(1, b"void main() {".to_vec()),
            Call::CompileShader(1),
            Call::GetShaderIv(1, COMPILE_STATUS),
            Call::GetShaderIv(1, INFO_LOG_LENGTH),
            Call::GetShaderInfoLog(1, 17),
            Call::DeleteShader(1),
        ]
    );
    assert!(Shader::from_frag_source(&mut gl, b"void main() {}").is_ok());
}

#[test]
fn diagnostics_are_decoded_lossily() {
    match compile_result(ShaderStage::Fragment, 4, 0, &[b'a', 0xff, b'b']) {
        Err(Error::CompileError { stage_name, message }) => {
            assert_eq!(stage_name, "fragment");
            assert_eq!(message, "a\u{fffd}b");
        }
        _ => panic!("expected a compile error"),
    }
    assert!(matches!(compile_result(ShaderStage::Fragment, 4, 1, b"ignored"), Ok(4)));
    assert_eq!(link_result(9, 0, &[0xc3, 0xa9]), Err("\u{e9}".to_string()));
    assert_eq!(link_result(9, -1, b"ignored"), Ok(9));
}

#[test]
fn program_links_and_detaches() {
    let mut gl = Gl::load_with(Recorder::new());
    let vertex = Shader::from_source(&mut gl, b"v", ShaderStage::Vertex).unwrap();
    let fragment = Shader::from_source(&mut gl, b"f", ShaderStage::Fragment).unwrap();
    let shaders = vec![vertex, fragment];
    let before = gl.driver().calls.len();
    let program = Program::from_shaders(&mut gl, &shaders).unwrap();
    assert_eq!(program.id(), 3);
    assert_eq!(
        gl.driver().calls[before..].to_vec(),
        vec![
            Call::CreateProgram(3),
            Call::AttachShader(3, 1),
            Call::AttachShader(3, 2),
            Call::LinkProgram(3),
            Call::GetProgramIv(3, LINK_STATUS),
            Call::DetachShader(3, 1),
            Call::DetachShader(3, 2),
        ]
    );
    program.set_used(&mut gl);
    assert_eq!(gl.driver().calls.last(), Some(&Call::UseProgram(3)));
    program.delete(&mut gl);
    assert_eq!(gl.driver().calls.last(), Some(&Call::DeleteProgram(3)));
}

#[test]
fn program_link_failure_returns_the_diagnostic() {
    let mut driver = Recorder::new();
    driver.link_fails = true;
    driver.log = b"unresolved".to_vec();
    let mut gl = Gl::load_with(driver);
    let r = Program::from_shaders(&mut gl, &[]);
    assert_eq!(r.err(), Some("unresolved".to_string()));
    assert_eq!(
        gl.driver().calls,
        vec![
            Call::CreateProgram(1),
            Call::LinkProgram(1),
            Call::GetProgramIv(1, LINK_STATUS),
            Call::GetProgramIv(1, INFO_LOG_LENGTH),
            Call::GetProgramInfoLog(1, 10),
            Call::DeleteProgram(1),
        ]
    );
}

#[test]
fn program_from_resources_deletes_its_shaders() {
    let mut gl = Gl::load_with(Recorder::new());
    let mut files = Files::with(&["shaders/triangle.vert", "shaders/triangle.frag"]);
    let program = Program::from_res(&mut gl, &mut files, "shaders/triangle").unwrap();
    assert_eq!(program.id(), 3);
    assert_eq!(
        asked(&files),
        vec!["shaders/triangle.vert".to_string(), "shaders/triangle.frag".to_string()]
    );
    assert_eq!(
        gl.driver().calls,
        vec![
            Call::CreateShader(VERTEX_SHADER, 1),
            Call::ShaderSource(1, b"// shaders/triangle.vert".to_vec()),
            Call::CompileShader(1),
            Call::GetShaderIv(1, COMPILE_STATUS),
            Call::CreateShader(FRAGMENT_SHADER, 2),
            Call::ShaderSource(2, b"// shaders/triangle.frag".to_vec()),
            Call::CompileShader(2),
            Call::GetShaderIv(2, COMPILE_STATUS),
            Call::CreateProgram(3),
            Call::AttachShader(3, 1),
            Call::AttachShader(3, 2),
            Call::LinkProgram(3),
            Call::GetProgramIv(3, LINK_STATUS),
            Call::DetachShader(3, 1),
            Call::DetachShader(3, 2),
            Call::DeleteShader(1),
            Call::DeleteShader(2),
        ]
    );
}

#[test]
fn program_from_resources_reports_link_failure_by_name() {
    let mut driver = Recorder::new();
    driver.link_fails = true;
    driver.log = b"no entry point".to_vec();
    let mut gl = Gl::load_with(driver);
    let mut files = Files::with(&["p.vert", "p.frag"]);
    match Program::from_res(&mut gl, &mut files, "p") {
        Err(Error::LinkError { name, message }) => {
            assert_eq!(name, "p");
            assert_eq!(message, "no entry point");
        }
        _ => panic!("expected a link error"),
    }
    let calls = &gl.driver().calls;
    assert_eq!(
        calls[calls.len() - 3..].to_vec(),
        vec![Call::DeleteProgram(3), Call::DeleteShader(1), Call::DeleteShader(2)]
    );
    assert_eq!(calls.iter().filter(|c| matches!(c, Call::DeleteProgram(_))).count(), 1);
}

#[test]
fn program_from_resources_stops_at_the_first_failing_shader() {
    let mut gl = Gl::load_with(Recorder::new());
    let mut files = Files::with(&["p.vert"]);
    match Program::from_res(&mut gl, &mut files, "p") {
        Err(Error::UnableToLoadResource { name, cause }) => {
            assert_eq!(name, "p.frag");
            assert_eq!(cause, ResourceError::NotFound);
        }
        _ => panic!("expected a load error"),
    }
    assert_eq!(
        gl.driver().calls,
        vec![
            Call::CreateShader(VERTEX_SHADER, 1),
            Call::ShaderSource(1, b"// p.vert".to_vec()),
            Call::CompileShader(1),
            Call::GetShaderIv(1, COMPILE_STATUS),
            Call::DeleteShader(1),
        ]
    );
    let mut driver = Recorder::new();
    driver.failing_kind = Some(VERTEX_SHADER);
    driver.log = b"bad".to_vec();
    let mut gl = Gl::load_with(driver);
    let mut files = Files::with(&["p.vert", "p.frag"]);
    assert!(matches!(Program::from_res(&mut gl, &mut files, "p"), Err(Error::CompileError { .. })));
    assert_eq!(gl.driver().calls.len(), 7);
    assert_eq!(gl.driver().calls.last(), Some(&Call::DeleteShader(1)));
    assert_eq!(asked(&files), vec!["p.vert".to_string()]);
}

#[test]
fn buffers_bind_to_their_own_target() {
    let mut gl = Gl::load_with(Recorder::new());
    let vertices = ArrayBuffer::new(&mut gl);
    let indices = ElementArrayBuffer::new(&mut gl);
    vertices.bind(&mut gl);
    vertices.static_draw_data(&mut gl, &[[5u8; 16]][..]);
    vertices.unbind(&mut gl);
    indices.bind(&mut gl);
    indices.static_draw_data(&mut gl, &[[1u8; 16], [2u8; 16], [3u8; 16]][..]);
    let empty: [[u8; 16]; 0] = [];
    indices.static_draw_data(&mut gl, &empty[..]);
    indices.unbind(&mut gl);
    assert_eq!(
        gl.driver().calls,
        vec![
            Call::GenBuffer(1),
            Call::GenBuffer(2),
            Call::BindBuffer(ARRAY_BUFFER, 1),
            Call::BufferData(ARRAY_BUFFER, 16, vec![[5u8; 16]], STATIC_DRAW),
            Call::BindBuffer(ARRAY_BUFFER, 0),
            Call::BindBuffer(ELEMENT_ARRAY_BUFFER, 2),
            Call::BufferData(
                ELEMENT_ARRAY_BUFFER,
                48,
                vec![[1u8; 16], [2u8; 16], [3u8; 16]],
                STATIC_DRAW,
            ),
            Call::BufferData(ELEMENT_ARRAY_BUFFER, 0, Vec::new(), STATIC_DRAW),
            Call::BindBuffer(ELEMENT_ARRAY_BUFFER, 0),
        ]
    );
}

#[test]
fn vertex_array_binds_and_unbinds() {
    let mut gl = Gl::load_with(Recorder::new());
    let vao = VertexArray::new(&mut gl);
    vao.bind(&mut gl);
    vao.unbind(&mut gl);
    vao.delete(&mut gl);
    assert_eq!(
        gl.into_driver().calls,
        vec![
            Call::GenVertexArray(1),
            Call::BindVertexArray(1),
            Call::BindVertexArray(0),
            Call::DeleteVertexArray(1),
        ]
    );
}

#[test]
fn thousand_buffers_are_created_and_deleted_in_pairs() {
    let mut gl = Gl::load_with(Recorder::new());
    for _ in 0..1000 {
        let buffer = ArrayBuffer::new(&mut gl);
        buffer.delete(&mut gl);
    }
    let calls = gl.into_driver().calls;
    assert_eq!(calls.len(), 2000);
    let mut created = Vec::new();
    let mut deleted = Vec::new();
    for pair in calls.chunks(2) {
        match (&pair[0], &pair[1]) {
            (Call::GenBuffer(a), Call::DeleteBuffer(b)) => {
                assert_eq!(a, b);
                created.push(*a);
                deleted.push(*b);
            }
            _ => panic!("expected a create followed by its delete"),
        }
    }
    assert_eq!(created.len(), 1000);
    created.sort();
    created.dedup();
    assert_eq!(created.len(), 1000);
    deleted.sort();
    deleted.dedup();
    assert_eq!(deleted.len(), 1000);
}

#[test]
fn triangle_sets_up_and_renders() {
    let mut gl = Gl::load_with(Recorder::new());
    let mut files = Files::with(&["shaders/triangle.vert", "shaders/triangle.frag"]);
    let vertices = [[7u8; 16], [8u8; 16], [9u8; 16]];
    let model = shift(5, 0, 0);
    let mut triangle =
        Triangle::new(&mut files, &mut gl, &vertices[..], &position_and_color(), model).unwrap();
    assert_eq!(
        gl.driver().calls[17..].to_vec(),
        vec![
            Call::GenBuffer(4),
            Call::BindBuffer(ARRAY_BUFFER, 4),
            Call::BufferData(ARRAY_BUFFER, 48, vertices.to_vec(), STATIC_DRAW),
            Call::BindBuffer(ARRAY_BUFFER, 0),
            Call::GenVertexArray(5),
            Call::BindVertexArray(5),
            Call::BindBuffer(ARRAY_BUFFER, 4),
            Call::EnableVertexAttribArray(0),
            Call::VertexAttribPointer(0, 3, FLOAT, false, 16, 0),
            Call::EnableVertexAttribArray(1),
            Call::VertexAttribPointer(1, 4, UNSIGNED_INT_2_10_10_10_REV, true, 16, 12),
            Call::BindBuffer(ARRAY_BUFFER, 0),
            Call::BindVertexArray(0),
            Call::GetUniformLocation(3, b"MVP\0".to_vec()),
        ]
    );
    let projection = scale(2);
    let view = shift(1, 2, 3);
    let mut camera = Camera::new(projection, view, &times);
    let before = gl.driver().calls.len();
    triangle.render(&mut gl, &mut camera, &times);
    assert_eq!(
        gl.driver().calls[before..].to_vec(),
        vec![
            Call::UseProgram(3),
            Call::BindVertexArray(5),
            Call::UniformMatrix4fv(7, 1, false, times(&times(&projection, &view), &model)),
            Call::DrawArrays(TRIANGLES, 0, 3),
        ]
    );
    let before = gl.driver().calls.len();
    triangle.render(&mut gl, &mut camera, &times);
    assert_eq!(
        gl.driver().calls[before..].to_vec(),
        vec![Call::UseProgram(3), Call::BindVertexArray(5), Call::DrawArrays(TRIANGLES, 0, 3)]
    );
    let before = gl.driver().calls.len();
    triangle.delete(&mut gl);
    assert_eq!(
        gl.driver().calls[before..].to_vec(),
        vec![Call::DeleteProgram(3), Call::DeleteBuffer(4), Call::DeleteVertexArray(5)]
    );
}

#[test]
fn triangle_reports_layout_before_issuing_anything() {
    let mut gl = Gl::load_with(Recorder::new());
    let mut files = Files::with(&["shaders/triangle.vert", "shaders/triangle.frag"]);
    let fields = vec![VertexField { location: None, format: AttributeFormat::Float3 }];
    let vertices = [[0u8; 16]; 3];
    let r = Triangle::new(&mut files, &mut gl, &vertices[..], &fields, identity());
    assert!(matches!(r, Err(SetupError::Layout(LayoutError::MissingLocation { field: 0 }))));
    assert!(gl.driver().calls.is_empty());
}

#[test]
fn triangle_reports_program_failure() {
    let mut gl = Gl::load_with(Recorder::new());
    let mut files = Files::with(&[]);
    let vertices = [[0u8; 16]; 3];
    let r = Triangle::new(&mut files, &mut gl, &vertices[..], &position_and_color(), identity());
    match r {
        Err(SetupError::Program(Error::UnableToLoadResource { name, .. })) => {
            assert_eq!(name, "shaders/triangle.vert")
        }
        _ => panic!("expected a load error"),
    }
    assert!(gl.driver().calls.is_empty());
}

#[test]
fn viewport_follows_the_window() {
    let mut gl = Gl::load_with(Recorder::new());
    let mut viewport = Viewport::for_window(900, 700);
    assert_eq!(viewport, Viewport { x: 0, y: 0, w: 900, h: 700 });
    viewport.set_used(&mut gl);
    viewport.update_size(640, 480);
    assert_eq!(viewport, Viewport { x: 0, y: 0, w: 640, h: 480 });
    viewport.set_used(&mut gl);
    assert_eq!(
        gl.driver().calls,
        vec![Call::Viewport(0, 0, 900, 700), Call::Viewport(0, 0, 640, 480)]
    );
}

#[test]
fn errors_describe_themselves() {
    let load = Error::UnableToLoadResource {
        name: "p.vert".to_string(),
        cause: ResourceError::NotFound,
    };
    assert_eq!(load.describe(), "Failed to load resource p.vert");
    let stage = Error::CannotDetermineShaderTypeForResource { name: "p.glsl".to_string() };
    assert_eq!(stage.describe(), "Can not determine shader type for resource p.glsl");
    let compile = Error::CompileError {
        stage_name: "vertex".to_string(),
        message: "0:1: syntax error".to_string(),
    };
    assert_eq!(compile.describe(), "Failed to compile shader vertex: 0:1: syntax error");
    let link = Error::LinkError { name: "p".to_string(), message: "unresolved".to_string() };
    assert_eq!(link.describe(), "Failed to link program p: unresolved");
}

#[test]
fn shader_load_asks_for_the_name_and_compiles_what_it_gets() {
    let mut gl = Gl::load_with(Recorder::new());
    let mut files = Files::with(&["a.vert"]);
    let shader = Shader::from_res(&mut gl, &mut files, "a.vert").unwrap();
    assert_eq!(asked(&files), vec!["a.vert".to_string()]);
    assert_eq!(gl.driver().calls[0], Call::CreateShader(VERTEX_SHADER, shader.id()));
    assert_eq!(gl.driver().calls[1], Call::ShaderSource(shader.id(), b"// a.vert".to_vec()));
}

#[test]
fn load_errors_carry_the_cause_that_was_given() {
    let mut gl = Gl::load_with(Recorder::new());
    let mut files = Files::with_unreadable(&["p.vert"], &["p.frag", "q.vert"]);
    match Shader::from_res(&mut gl, &mut files, "q.vert") {
        Err(Error::UnableToLoadResource { name, cause }) => {
            assert_eq!(name, "q.vert");
            assert_eq!(cause, ResourceError::Unreadable);
        }
        _ => panic!("expected a load error"),
    }
    assert!(gl.driver().calls.is_empty());
    match Program::from_res(&mut gl, &mut files, "p") {
        Err(Error::UnableToLoadResource { name, cause }) => {
            assert_eq!(name, "p.frag");
            assert_eq!(cause, ResourceError::Unreadable);
        }
        _ => panic!("expected a load error"),
    }
    assert_eq!(asked(&files), vec!["q.vert".to_string(), "p.vert".to_string(), "p.frag".to_string()]);
    let calls = &gl.driver().calls;
    assert_eq!(calls.last(), Some(&Call::DeleteShader(1)));
    assert!(!calls.iter().any(|c| matches!(c, Call::CreateProgram(_))));
    assert_eq!(calls.iter().filter(|c| matches!(c, Call::DeleteShader(_))).count(), 1);
}

#[test]
fn from_loaded_follows_the_answer() {
    let mut gl = Gl::load_with(Recorder::new());
    let refused =
        Shader::from_loaded(&mut gl, "a.frag", ShaderStage::Fragment, Err(ResourceError::NotFound));
    match refused {
        Err(Error::UnableToLoadResource { name, cause }) => {
            assert_eq!(name, "a.frag");
            assert_eq!(cause, ResourceError::NotFound);
        }
        _ => panic!("expected a load error"),
    }
    assert!(gl.driver().calls.is_empty());
    let shader =
        Shader::from_loaded(&mut gl, "a.frag", ShaderStage::Fragment, Ok(b"void".to_vec())).unwrap();
    assert_eq!(
        gl.driver().calls,
        vec![
            Call::CreateShader(FRAGMENT_SHADER, shader.id()),
            Call::ShaderSource(shader.id(), b"void".to_vec()),
            Call::CompileShader(shader.id()),
            Call::GetShaderIv(shader.id(), COMPILE_STATUS),
        ]
    );
}

#[test]
fn failed_fragment_compile_leaves_nothing_behind() {
    let mut driver = Recorder::new();
    driver.failing_kind = Some(FRAGMENT_SHADER);
    driver.log = b"bad".to_vec();
    let mut gl = Gl::load_with(driver);
    let mut files = Files::with(&["p.vert", "p.frag"]);
    assert!(matches!(Program::from_res(&mut gl, &mut files, "p"), Err(Error::CompileError { .. })));
    let calls = &gl.driver().calls;
    assert_eq!(calls[calls.len() - 2..].to_vec(), vec![Call::DeleteShader(2), Call::DeleteShader(1)]);
    assert!(!calls.iter().any(|c| matches!(c, Call::CreateProgram(_))));
}

#[test]
fn second_registration_changes_nothing() {
    let mut gl = Gl::load_with(Recorder::new());
    let mut camera = Camera::new(scale(2), identity(), &times);
    let mut mvp = ModelViewProjectionMatrix::new(identity());
    assert_eq!(mvp.register_with_program_and_uniform(&mut gl, 3, b"MVP\0"), Ok(()));
    let mut driver = gl.into_driver();
    driver.location = 9;
    let mut gl = Gl::load_with(driver);
    assert_eq!(mvp.register_with_program_and_uniform(&mut gl, 4, b"other\0"), Ok(()));
    assert_eq!(
        mvp.register_with_program_and_uniform(&mut gl, 4, b"other"),
        Err(UniformError::InvalidUniformName)
    );
    assert_eq!(gl.driver().calls.len(), 1);
    assert!(mvp.is_registered());
    mvp.calculate_and_update_mvp(&mut gl, &mut camera, &times);
    assert_eq!(gl.driver().calls.last(), Some(&Call::UniformMatrix4fv(7, 1, false, scale(2))));
}

#[test]
fn failure_chain_is_written_root_cause_first() {
    let chain = vec![
        ("could not start".to_string(), None),
        ("could not link".to_string(), Some("frame 1".to_string())),
        ("file missing".to_string(), Some(String::new())),
    ];
    assert_eq!(
        failure_to_string(&chain),
        "file missing\n\n  Which Caused the following issue:\ncould not link\n This happended at frame 1\n  Which Caused the following issue:\ncould not start\n"
    );
    assert_eq!(failure_to_string(&Vec::new()), "");
    assert_eq!(failure_to_string(&vec![("only".to_string(), None)]), "only\n");
}
