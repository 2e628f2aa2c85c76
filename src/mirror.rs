use vstd::prelude::*;

verus! {

/// A GPU-side representation `Self` of a logical value of type `L`, made and
/// refreshed through a renderer of type `R`.
pub trait GPUItem<L, R>: Sized {
    /// Whether this GPU object holds the contents of `item`.
    spec fn mirrors(&self, item: &L) -> bool;

    fn create_gpu(item: &L, renderer: &mut R) -> (r: Self)
        ensures
            r.mirrors(item),
    ;

    fn update_gpu(&mut self, item: &L, renderer: &mut R)
        ensures
            final(self).mirrors(item),
    ;
}

/// A logical value paired with its GPU copy, which is made on first demand.
/// Changing the logical value does not touch the GPU copy; it is brought up
/// to date only by `get_update_gpu`.
pub struct GPUPair<L, G> {
    data: L,
    gpu: Option<G>,
}

impl<L, G> GPUPair<L, G> {
    pub closed spec fn logical(&self) -> L {
        self.data
    }

    pub closed spec fn gpu(&self) -> Option<G> {
        self.gpu
    }

    /// Pairs `data` with no GPU copy yet.
    pub fn new(data: L) -> (r: GPUPair<L, G>)
        ensures
            r.logical() == data,
            r.gpu() is None,
    {
        GPUPair { data, gpu: None }
    }

    pub fn get(&self) -> (r: &L)
        ensures
            *r == self.logical(),
    {
        &self.data
    }

    /// Mutable access to the logical value; the GPU copy is left as it is.
    pub fn get_mut(&mut self) -> (r: &mut L)
        ensures
            *r == old(self).logical(),
            final(self).logical() == *final(r),
            final(self).gpu() == old(self).gpu(),
    {
        &mut self.data
    }

    pub fn is_materialized(&self) -> (r: bool)
        ensures
            r == self.gpu() is Some,
    {
        self.gpu.is_some()
    }

    /// The GPU copy, made from the logical value if there is none yet. Once
    /// made, it is returned as it is: neither the pair nor the renderer is
    /// touched again.
    pub fn ensure_gpu<R>(&mut self, renderer: &mut R) -> (r: &G) where G: GPUItem<L, R>
        ensures
            final(self).logical() == old(self).logical(),
            final(self).gpu() == Some(*r),
            old(self).gpu() is Some ==> *final(self) == *old(self) && *final(renderer) == *old(
                renderer,
            ),
            old(self).gpu() is None ==> r.mirrors(&old(self).logical()),
    {
        if self.gpu.is_none() {
            let g = G::create_gpu(&self.data, renderer);
            self.gpu = Some(g);
        }
        match &self.gpu {
            Some(g) => g,
            None => unreached(),
        }
    }

    /// The GPU copy after bringing it up to date with the logical value,
    /// making it first if there is none.
    pub fn get_update_gpu<R>(&mut self, renderer: &mut R) -> (r: &G) where G: GPUItem<L, R>
        ensures
            final(self).logical() == old(self).logical(),
            final(self).gpu() == Some(*r),
            r.mirrors(&old(self).logical()),
    {
        match &mut self.gpu {
            Some(g) => g.update_gpu(&self.data, renderer),
            None => {
                let g = G::create_gpu(&self.data, renderer);
                self.gpu = Some(g);
            },
        }
        match &self.gpu {
            Some(g) => g,
            None => unreached(),
        }
    }
}

} // verus!
