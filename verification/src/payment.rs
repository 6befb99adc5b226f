//! The payment part of a client.

use crate::{share, ClientOptions};
use std::sync::Arc;
use vstd::prelude::*;

verus! {

/// The part of a client that deals with payments. It shares the client's
/// configuration.
#[derive(Clone)]
pub struct Payment {
    options: Arc<ClientOptions>,
}

impl Payment {
    /// The configuration that this part works with.
    pub closed spec fn options(&self) -> ClientOptions {
        *self.options
    }

    pub fn new(options: &Arc<ClientOptions>) -> (payment: Self)
        ensures
            payment.options() == **options,
    {
        Payment { options: share(options) }
    }

    /// The configuration that this part works with.
    pub fn client_options(&self) -> (options: &ClientOptions)
        ensures
            *options == self.options(),
    {
        &*self.options
    }
}

} // verus!
