use vstd::prelude::*;

verus! {

/// The endpoints of an OAuth2 provider.
#[derive(Clone, Debug, PartialEq, Eq)]
pub struct ServicePresetConfig {
    /// The authorization endpoint, as an absolute URL in serialised form.
    pub auth_url: String,
    /// The token endpoint, where the provider has one.
    pub token_url: Option<String>,
    /// The provider's API base URL.
    pub base_url: String,
}

/// A client's registration as it is stored, naming its provider preset.
#[derive(Clone, Debug, PartialEq, Eq)]
pub struct ClientRawConfig {
    pub preset_name: String,
    pub client_id: String,
    pub client_secret: Option<String>,
    pub redirect_url: String,
    pub scopes: Vec<String>,
}

/// A client's registration merged with its provider's endpoints.
#[derive(Clone, Debug, PartialEq, Eq)]
pub struct ClientConfig {
    pub preset: ServicePresetConfig,
    pub client_id: String,
    pub client_secret: Option<String>,
    pub redirect_url: String,
    pub scopes: Vec<String>,
}

impl ClientConfig {
    /// Merges a preset with a client registration; the registration's
    /// preset name has served its purpose and is dropped.
    pub fn new(preset: ServicePresetConfig, raw: ClientRawConfig) -> (r: Self)
        ensures
            r.preset == preset,
            r.client_id == raw.client_id,
            r.client_secret == raw.client_secret,
            r.redirect_url == raw.redirect_url,
            r.scopes == raw.scopes,
    {
        let ClientRawConfig { client_id, client_secret, redirect_url, scopes, .. } = raw;
        ClientConfig { preset, client_id, client_secret, redirect_url, scopes }
    }
}

} // verus!
