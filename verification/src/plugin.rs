//! The contract that every plugin offers to the worker.

use vstd::prelude::*;

verus! {

/// An independently developed handler. The worker tells plugins apart by
/// name alone; what a plugin keeps inside is its own business.
pub trait Plugin: Send + Sync {
    /// The name under which the plugin is enabled for a guild.
    spec fn spec_name(&self) -> Seq<char>;

    /// The gateway intents the plugin asks for, as a bit set: none. The
    /// worker takes its events from a queue, so that no plugin has anything
    /// to ask of the gateway.
    fn intents(&self) -> (bits: u64)
        ensures
            bits == 0,
    {
        0
    }

    /// The stable name of the plugin: its dispatch key.
    fn name(&self) -> (name: &'static str)
        ensures
            name@ == self.spec_name(),
    ;

    /// What the plugin does, for diagnostics.
    fn description(&self) -> (text: &'static str)
        ensures
            text@ == self.spec_description(),
    ;

    /// The text that describes the plugin.
    spec fn spec_description(&self) -> Seq<char>;
}

} // verus!
