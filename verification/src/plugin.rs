//! Plugins: hooks that users hang on registration and on new connections.
//!
//! Each kind of plugin is kept in a chain, in the order in which the plugins
//! were added. A chain is run from its first plugin to its last; a plugin
//! that fails is reported and the run goes on.

use crate::error::ServerError;
use vstd::prelude::*;

verus! {

/// A hook that is told of every registration before it takes effect.
pub trait RegisterPlugin<H>: Send + Sync {
    /// Called once for every registration, with what is being registered. An
    /// error is reported to whoever registers; the handler is registered all
    /// the same.
    fn register_fn(
        &mut self,
        service_path: &str,
        service_method: &str,
        meta: String,
        f: H,
    ) -> Result<(), ServerError>;
}

/// A hook that is told of every accepted connection before anything is read
/// from it.
pub trait ConnectPlugin: Send + Sync {
    /// Called once for every accepted connection, with the peer's address.
    /// An error is reported to whoever accepted; the connection is served all
    /// the same.
    fn on_connect(&mut self, peer: &str) -> Result<(), ServerError>;
}

/// Tells every plugin of the chain, first to last, of one registration, and
/// returns what each of them answered, in the same order.
pub(crate) fn notify_register<H: Copy>(
    plugins: &mut Vec<Box<dyn RegisterPlugin<H>>>,
    service_path: &str,
    service_method: &str,
    meta: &String,
    f: H,
) -> (outcomes: Vec<Result<(), ServerError>>)
    ensures
        final(plugins)@.len() == old(plugins)@.len(),
        outcomes@.len() == old(plugins)@.len(),
{
    let mut outcomes: Vec<Result<(), ServerError>> = Vec::new();
    let mut i: usize = 0;
    while i < plugins.len()
        invariant
            plugins@.len() == old(plugins)@.len(),
            i <= plugins@.len(),
            outcomes@.len() == i,
        decreases plugins@.len() - i,
    {
        let outcome = plugins[i].register_fn(service_path, service_method, meta.clone(), f);
        outcomes.push(outcome);
        i = i + 1;
    }
    outcomes
}

/// Tells every plugin of the chain, first to last, of one new connection,
/// and returns what each of them answered, in the same order.
pub(crate) fn notify_connect(plugins: &mut Vec<Box<dyn ConnectPlugin>>, peer: &str) -> (outcomes: Vec<
    Result<(), ServerError>,
>)
    ensures
        final(plugins)@.len() == old(plugins)@.len(),
        outcomes@.len() == old(plugins)@.len(),
{
    let mut outcomes: Vec<Result<(), ServerError>> = Vec::new();
    let mut i: usize = 0;
    while i < plugins.len()
        invariant
            plugins@.len() == old(plugins)@.len(),
            i <= plugins@.len(),
            outcomes@.len() == i,
        decreases plugins@.len() - i,
    {
        let outcome = plugins[i].on_connect(peer);
        outcomes.push(outcome);
        i = i + 1;
    }
    outcomes
}

} // verus!
