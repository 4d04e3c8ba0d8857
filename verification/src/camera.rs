use crate::cached_matrix::CachedMatrix4;
use vstd::prelude::*;

verus! {

/// What a camera holds: the projection and view matrices, their cached
/// product, and one dirty flag for each of the three.
pub struct CameraState<M> {
    pub projection: M,
    pub view: M,
    pub product: M,
    pub projection_dirty: bool,
    pub view_dirty: bool,
    pub product_dirty: bool,
}

impl<M> CameraState<M> {
    /// Whether the projection or the view changed since the product was
    /// last computed.
    pub open spec fn sources_dirty(self) -> bool {
        self.projection_dirty || self.view_dirty
    }

    /// The state after the product was read, where `product` is what
    /// multiplying projection by view gave. With a dirty source the product
    /// is replaced and marked dirty, and both sources become clean. With
    /// clean sources nothing changes, whatever `product` is.
    pub open spec fn after_access(self, product: M) -> Self {
        if self.sources_dirty() {
            CameraState {
                product,
                product_dirty: true,
                projection_dirty: false,
                view_dirty: false,
                ..self
            }
        } else {
            self
        }
    }

    /// The state after the product's own flag was cleared.
    pub open spec fn after_clean(self) -> Self {
        CameraState { product_dirty: false, ..self }
    }
}

/// Holds the projection and view matrices of a scene and the cached product
/// of projection times view, in that order. The product is recomputed only
/// when it is read while a source is dirty.
pub struct Camera<M> {
    projection: CachedMatrix4<M>,
    view: CachedMatrix4<M>,
    projection_view: CachedMatrix4<M>,
}

impl<M> View for Camera<M> {
    type V = CameraState<M>;

    closed spec fn view(&self) -> CameraState<M> {
        CameraState {
            projection: self.projection.matrix,
            view: self.view.matrix,
            product: self.projection_view.matrix,
            projection_dirty: self.projection.dirty,
            view_dirty: self.view.dirty,
            product_dirty: self.projection_view.dirty,
        }
    }
}

impl<M: Copy> Camera<M> {
    /// A camera over the given projection and view matrices. Their product
    /// is computed at once with `multiply`, and all three start dirty.
    pub fn new<F: Fn(&M, &M) -> M>(projection: M, view: M, multiply: &F) -> (camera: Self)
        requires
            call_requires(multiply, (&projection, &view)),
        ensures
            camera@.projection == projection,
            camera@.view == view,
            call_ensures(multiply, (&projection, &view), camera@.product),
            camera@.projection_dirty,
            camera@.view_dirty,
            camera@.product_dirty,
    {
        let product = multiply(&projection, &view);
        Camera {
            projection: CachedMatrix4::from(projection),
            view: CachedMatrix4::from(view),
            projection_view: CachedMatrix4::from(product),
        }
    }

    /// The product of projection and view. Where a source is dirty the
    /// product is first recomputed with `multiply` and marked dirty, and the
    /// sources are marked clean. Where both are clean, the stored product is
    /// returned and nothing changes.
    pub fn get_projection_view_matrix<F: Fn(&M, &M) -> M>(&mut self, multiply: &F) -> (product: M)
        requires
            old(self)@.sources_dirty() ==> call_requires(
                multiply,
                (&old(self)@.projection, &old(self)@.view),
            ),
        ensures
            final(self)@ == old(self)@.after_access(product),
            product == final(self)@.product,
            old(self)@.sources_dirty() ==> call_ensures(
                multiply,
                (&old(self)@.projection, &old(self)@.view),
                product,
            ),
    {
        if self.projection.is_dirty() || self.view.is_dirty() {
            let product = multiply(&self.projection.matrix, &self.view.matrix);
            self.projection_view.set_matrix(product);
            self.view.clean();
            self.projection.clean();
        }
        self.projection_view.matrix
    }

    /// Whether the product changed since a consumer last cleaned it.
    pub fn is_projection_view_dirty(&self) -> (dirty: bool)
        ensures
            dirty == self@.product_dirty,
    {
        self.projection_view.is_dirty()
    }

    /// Marks the product as seen by its consumer.
    pub fn clean_projection_view(&mut self)
        ensures
            final(self)@ == old(self)@.after_clean(),
    {
        self.projection_view.clean();
    }
}

/// Reading the product twice in a row gives the same matrix both times, and
/// the second read changes nothing: it leaves the camera as the first read
/// left it, whatever a multiplication would have returned.
pub proof fn lemma_second_access_is_stable<M>(camera: CameraState<M>, first: M, second: M)
    requires
        first == camera.after_access(first).product,
        second == camera.after_access(first).after_access(second).product,
    ensures
        second == first,
        camera.after_access(first).after_access(second) == camera.after_access(first),
        !camera.after_access(first).sources_dirty(),
{
}

/// Cleaning the product's flag between two reads does not bring the
/// recomputation back: the sources stay clean until one of them is set.
pub proof fn lemma_clean_keeps_product<M>(camera: CameraState<M>, first: M, second: M)
    ensures
        camera.after_access(first).after_clean().after_access(second) == camera.after_access(
            first,
        ).after_clean(),
        !camera.after_access(first).after_clean().product_dirty,
{
}

} // verus!
