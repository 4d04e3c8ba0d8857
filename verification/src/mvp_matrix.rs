use crate::cached_matrix::CachedMatrix4;
use crate::camera::Camera;
use crate::context::{Driver, Gl, GlEvent};
use vstd::prelude::*;

verus! {

/// Why a controller could not be registered with a uniform.
#[derive(Clone, Copy, Debug, PartialEq, Eq, Structural)]
pub enum UniformError {
    /// The uniform's name does not end with a zero byte.
    InvalidUniformName,
}

/// What a controller holds: the uniform location once it is registered, the
/// model matrix and the model's dirty flag.
pub struct MvpState<M> {
    pub location: Option<i32>,
    pub model: M,
    pub model_dirty: bool,
}

/// Whether a byte sequence ends with a zero byte.
pub open spec fn is_null_terminated(name: Seq<u8>) -> bool {
    name.len() > 0 && name[name.len() - 1] == 0
}

/// The upload of one matrix to a uniform: a single matrix, not transposed.
pub open spec fn upload_event<M, V>(location: i32, matrix: M) -> GlEvent<M, V> {
    GlEvent::UniformMatrix4fv { location, count: 1, transpose: false, matrix }
}

/// Owns an object's model matrix and keeps a program's uniform equal to
/// projection times view times model, uploading only after a change.
pub struct ModelViewProjectionMatrix<M> {
    gl_matrix_id: Option<i32>,
    model: CachedMatrix4<M>,
}

impl<M> View for ModelViewProjectionMatrix<M> {
    type V = MvpState<M>;

    closed spec fn view(&self) -> MvpState<M> {
        MvpState {
            location: self.gl_matrix_id,
            model: self.model.matrix,
            model_dirty: self.model.dirty,
        }
    }
}

impl<M: Copy> ModelViewProjectionMatrix<M> {
    /// An unregistered controller over `model`, which starts dirty.
    pub fn new(model: M) -> (mvp: Self)
        ensures
            mvp@ == (MvpState { location: None, model, model_dirty: true }),
    {
        ModelViewProjectionMatrix { gl_matrix_id: None, model: CachedMatrix4::from(model) }
    }

    /// Whether a uniform location has been registered.
    pub fn is_registered(&self) -> (r: bool)
        ensures
            r == (self@.location is Some),
    {
        self.gl_matrix_id.is_some()
    }

    /// Binds the controller to the uniform called `uniform_name` of a
    /// program. The name must end with a zero byte: one that does not is
    /// refused before anything is issued, and the controller stays as it
    /// was. Else an unregistered controller asks for the location once and
    /// keeps it. A location is set once and then stays: on a controller that
    /// is registered already nothing is issued and nothing changes.
    pub fn register_with_program_and_uniform<D: Driver>(
        &mut self,
        gl: &mut Gl<D>,
        program_id: u32,
        uniform_name: &[u8],
    ) -> (r: Result<(), UniformError>)
        ensures
            r is Ok <==> is_null_terminated(uniform_name@),
            r is Err ==> final(self)@ == old(self)@ && final(gl).journal() == old(gl).journal(),
            old(self)@.location is Some ==> final(self)@ == old(self)@ && final(gl).journal() == old(
                gl,
            ).journal(),
            r is Ok && old(self)@.location is None ==> {
                &&& final(self)@.location matches Some(location)
                &&& final(gl).journal() == old(gl).journal().push(
                    GlEvent::GetUniformLocation { program: program_id, name: uniform_name@, location },
                )
                &&& final(self)@.model == old(self)@.model
                &&& final(self)@.model_dirty == old(self)@.model_dirty
            },
    {
        let n: usize = uniform_name.len();
        if n == 0 || uniform_name[n - 1] != 0 {
            return Err(UniformError::InvalidUniformName);
        }
        if self.gl_matrix_id.is_some() {
            return Ok(());
        }
        let location = gl.get_uniform_location(program_id, uniform_name);
        self.gl_matrix_id = Some(location);
        Ok(())
    }

    /// Brings the uniform up to date. Where neither the model nor the
    /// camera's product is dirty, nothing happens and nothing is issued.
    /// Else the camera's product is read, multiplied by the model, and
    /// uploaded with exactly one call; both flags are clean afterwards.
    pub fn calculate_and_update_mvp<D: Driver<Matrix = M>, F: Fn(&M, &M) -> M>(
        &mut self,
        gl: &mut Gl<D>,
        camera: &mut Camera<M>,
        multiply: &F,
    )
        requires
            old(self)@.location is Some,
            forall|a: &M, b: &M| call_requires(multiply, (a, b)),
        ensures
            !final(self)@.model_dirty,
            !final(camera)@.product_dirty,
            final(self)@ == (MvpState { model_dirty: false, ..old(self)@ }),
            !(old(self)@.model_dirty || old(camera)@.product_dirty) ==> {
                &&& final(camera)@ == old(camera)@
                &&& final(gl).journal() == old(gl).journal()
            },
            old(self)@.model_dirty || old(camera)@.product_dirty ==> {
                &&& final(camera)@ == old(camera)@.after_access(final(camera)@.product).after_clean()
                &&& old(camera)@.sources_dirty() ==> call_ensures(
                    multiply,
                    (&old(camera)@.projection, &old(camera)@.view),
                    final(camera)@.product,
                )
                &&& exists|mvp: M|
                    {
                        &&& call_ensures(
                            multiply,
                            (&final(camera)@.product, &old(self)@.model),
                            mvp,
                        )
                        &&& final(gl).journal() == old(gl).journal().push(
                            #[trigger] upload_event(old(self)@.location->Some_0, mvp),
                        )
                    }
            },
    {
        let matrix_id: i32 = match self.gl_matrix_id {
            Some(id) => id,
            None => 0,
        };
        if self.model.is_dirty() || camera.is_projection_view_dirty() {
            let product = camera.get_projection_view_matrix(multiply);
            let mvp = multiply(&product, &self.model.matrix);
            self.model.clean();
            camera.clean_projection_view();
            gl.uniform_matrix_4fv(matrix_id, 1, false, &mvp);
            assert(gl.journal() == old(gl).journal().push(upload_event(matrix_id, mvp)));
        }
    }
}

} // verus!
