//! The configuration that the language server is started with.

use crate::provisioner::ElixirLs;
use vstd::prelude::*;
use vstd::string::*;

verus! {

/// The settings of the language server under the key that the server reads
/// them from. `settings` is `None` where the user has set nothing: the host
/// then sends its empty value.
#[derive(Debug)]
pub struct WorkspaceConfiguration<S> {
    pub key: String,
    pub settings: Option<S>,
}

/// The settings that a lookup gave: none where the lookup failed or where
/// nothing is set.
pub open spec fn spec_settings_of<S>(lookup: Result<Option<S>, String>) -> Option<S> {
    match lookup {
        Ok(Some(settings)) => Some(settings),
        _ => None,
    }
}

impl ElixirLs {
    /// The configuration to send to the server, from what the host's lookup
    /// of the server's settings gave. It never fails: a failed lookup counts
    /// as no settings. The settings stand under the key `elixirLS`.
    pub fn language_server_workspace_configuration<S>(
        &mut self,
        lookup: Result<Option<S>, String>,
    ) -> (configuration: Result<Option<WorkspaceConfiguration<S>>, String>)
        ensures
            *final(self) == *old(self),
            configuration matches Ok(Some(c)) && c.key@ == "elixirLS"@ && c.settings
                == spec_settings_of(lookup),
    {
        let settings = match lookup {
            Ok(Some(settings)) => Some(settings),
            _ => None,
        };
        Ok(Some(WorkspaceConfiguration { key: String::from_str("elixirLS"), settings }))
    }
}

} // verus!
