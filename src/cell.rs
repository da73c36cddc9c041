use vstd::prelude::*;

verus! {

/// A holder of a pipeline state object and of the factory it was built with. Callers
/// borrow the pipeline for a render operation and need not know which kind of cell
/// they hold.
pub trait PsoCell<P, F> {
    /// The current pipeline state object.
    fn pso(&mut self) -> &mut P;

    /// The factory the pipeline was built with, for the caller's other work.
    fn factory(&mut self) -> &mut F;
}

/// A cell whose pipeline is built once, from sources held in memory, and never changes.
#[derive(Debug)]
pub struct SimplePsoCell<P, F> {
    pso: P,
    factory: F,
}

impl<P, F> SimplePsoCell<P, F> {
    /// The pipeline built at construction.
    pub closed spec fn pso_spec(&self) -> P {
        self.pso
    }

    pub closed spec fn factory_spec(&self) -> F {
        self.factory
    }

    pub fn new(pso: P, factory: F) -> (r: Self)
        ensures
            r.pso_spec() == pso,
            r.factory_spec() == factory,
    {
        SimplePsoCell { pso, factory }
    }
}

impl<P, F> PsoCell<P, F> for SimplePsoCell<P, F> {
    /// The pipeline built at construction: nothing a caller does elsewhere, on disk or
    /// in other cells, replaces it.
    fn pso(&mut self) -> (r: &mut P)
        ensures
            *r == old(self).pso_spec(),
            final(self).pso_spec() == *final(r),
            final(self).factory_spec() == old(self).factory_spec(),
    {
        &mut self.pso
    }

    fn factory(&mut self) -> (r: &mut F)
        ensures
            *r == old(self).factory_spec(),
            final(self).factory_spec() == *final(r),
            final(self).pso_spec() == old(self).pso_spec(),
    {
        &mut self.factory
    }
}

} // verus!
