//! The client side, which names the model that it asks for.

use vstd::prelude::*;

verus! {

/// A client of a server, for one model.
#[derive(Debug, Clone)]
pub struct McpClient {
    model: String,
}

impl McpClient {
    /// The model that the client asks for.
    pub closed spec fn model_name(&self) -> Seq<char> {
        self.model@
    }

    /// A client for `model`.
    pub fn new(model: String) -> (client: Self)
        ensures
            client.model_name() == model@,
    {
        Self { model }
    }

    /// The model that the client asks for.
    pub fn model(&self) -> (model: &str)
        ensures
            model@ == self.model_name(),
    {
        self.model.as_str()
    }
}

} // verus!
