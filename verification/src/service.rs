//! The finalized, runnable artifact of a build.
//!
//! A service is created exactly once, by consuming the builder, and holds the
//! accumulated layer sequence. After finalization the sequence is read-only:
//! the run phase can inspect it but no further layer can be registered.

use vstd::prelude::*;
use crate::layers::Layer;

verus! {

/// The finalized service: the ordered layer sequence whose declared tasks a
/// runtime spawns concurrently, under one shutdown signal and one aggregated
/// health surface.
#[derive(Debug)]
pub struct Service {
    layers: Vec<Layer>,
}

impl View for Service {
    type V = Seq<Layer>;

    closed spec fn view(&self) -> Seq<Layer> {
        self.layers@
    }
}

impl Service {
    /// Finalizes an accumulated layer sequence into a service.
    pub(crate) fn assemble(layers: Vec<Layer>) -> (r: Service)
        ensures
            r@ == layers@,
    {
        Service { layers }
    }

    /// The registered layers, in registration order.
    pub fn layers(&self) -> (r: &Vec<Layer>)
        ensures
            r@ == self@,
    {
        &self.layers
    }

    /// The number of registered layers.
    pub fn layer_count(&self) -> (r: usize)
        ensures
            r == self@.len(),
    {
        self.layers.len()
    }
}

} // verus!
