//! What agents, extractors and embeddings are set up on.
use std::marker::PhantomData;
use vstd::prelude::*;

verus! {

/// Sets up an agent on a completion model.
pub struct AgentBuilder<M> {
    pub model: M,
}

impl<M> AgentBuilder<M> {
    /// An agent on `model`.
    pub fn new(model: M) -> (builder: Self)
        ensures
            builder.model == model,
    {
        AgentBuilder { model }
    }
}

/// Sets up an extractor of values of type `U` on a completion model.
pub struct ExtractorBuilder<M, U> {
    pub model: M,
    pub target: PhantomData<U>,
}

impl<M, U> ExtractorBuilder<M, U> {
    /// An extractor on `model`.
    pub fn new(model: M) -> (builder: Self)
        ensures
            builder.model == model,
    {
        ExtractorBuilder { model, target: PhantomData }
    }
}

/// Sets up embeddings of documents of type `D` with an embedding model.
pub struct EmbeddingsBuilder<M, D> {
    pub model: M,
    pub documents: PhantomData<D>,
}

impl<M, D> EmbeddingsBuilder<M, D> {
    /// Embeddings with `model`.
    pub fn new(model: M) -> (builder: Self)
        ensures
            builder.model == model,
    {
        EmbeddingsBuilder { model, documents: PhantomData }
    }
}

} // verus!
