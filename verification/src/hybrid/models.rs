//! Settings of the embedding model.

use vstd::prelude::*;

verus! {

/// Default embedding dimension.
pub const DEFAULT_EMBEDDING_DIM: usize = 768;

/// An embedding model: its name, version and the dimension of its vectors.
#[derive(Debug, Clone)]
pub struct RustBertEmbeddings {
    /// The model used for embeddings.
    model_name: String,
    /// The model version.
    model_version: String,
    /// The dimension of the embeddings.
    embedding_dim: usize,
}

impl RustBertEmbeddings {
    /// The model's name.
    pub closed spec fn name(&self) -> Seq<char> {
        self.model_name@
    }

    /// The model's version.
    pub closed spec fn version(&self) -> Seq<char> {
        self.model_version@
    }

    /// The dimension of the model's vectors.
    pub closed spec fn dim(&self) -> usize {
        self.embedding_dim
    }

    /// A model with the given name, version and dimension.
    pub fn new(model_name: String, model_version: String, embedding_dim: usize) -> (e: RustBertEmbeddings)
        ensures
            e.name() == model_name@,
            e.version() == model_version@,
            e.dim() == embedding_dim,
    {
        RustBertEmbeddings { model_name, model_version, embedding_dim }
    }

    /// The dimension of the model's vectors.
    pub fn embedding_dim(&self) -> (d: usize)
        ensures
            d == self.dim(),
    {
        self.embedding_dim
    }

    /// The model's name.
    pub fn model_name(&self) -> (s: String)
        ensures
            s@ == self.name(),
    {
        self.model_name.clone()
    }

    /// The model's version.
    pub fn model_version(&self) -> (s: String)
        ensures
            s@ == self.version(),
    {
        self.model_version.clone()
    }
}

/// The embedding model to use: the given name or `all-MiniLM-L6-v2`, the
/// given dimension or the default one, at version `1.0`.
pub fn create_embedding_function(model_name: Option<String>, embedding_dim: Option<usize>) -> (e:
    RustBertEmbeddings)
    ensures
        e.name() == match model_name {
            Some(n) => n@,
            None => "all-MiniLM-L6-v2"@,
        },
        e.dim() == match embedding_dim {
            Some(d) => d,
            None => DEFAULT_EMBEDDING_DIM,
        },
        e.version() == "1.0"@,
{
    let name = match model_name {
        Some(n) => n,
        None => String::from_str("all-MiniLM-L6-v2"),
    };
    let dim = match embedding_dim {
        Some(d) => d,
        None => DEFAULT_EMBEDDING_DIM,
    };
    RustBertEmbeddings::new(name, String::from_str("1.0"), dim)
}

} // verus!
