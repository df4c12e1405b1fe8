//! The configuration record that the interface layer asks for at start-up.

use vstd::prelude::*;
use vstd::std_specs::cmp::PartialEqSpecImpl;

verus! {

/// Base address of the backend API.
pub const FLASK_API_URL: &'static str = "http://localhost:5432";

/// Base address of the auxiliary service.
pub const MCP_API_URL: &'static str = "http://localhost:3456";

/// Semantic version of the application.
pub const APP_VERSION: &'static str = "1.0.0";

/// The addresses of the two services the interface talks to, and the
/// application's version. A record has no identity beyond its three fields.
#[derive(Debug)]
pub struct AppConfig {
    pub flask_api_url: String,
    pub mcp_api_url: String,
    pub app_version: String,
}

/// What an [`AppConfig`] holds, as sequences of characters.
pub struct AppConfigView {
    pub flask_api_url: Seq<char>,
    pub mcp_api_url: Seq<char>,
    pub app_version: Seq<char>,
}

impl View for AppConfig {
    type V = AppConfigView;

    open spec fn view(&self) -> AppConfigView {
        AppConfigView {
            flask_api_url: self.flask_api_url@,
            mcp_api_url: self.mcp_api_url@,
            app_version: self.app_version@,
        }
    }
}

impl Clone for AppConfig {
    fn clone(&self) -> (copy: Self)
        ensures
            copy@ == self@,
    {
        AppConfig {
            flask_api_url: self.flask_api_url.clone(),
            mcp_api_url: self.mcp_api_url.clone(),
            app_version: self.app_version.clone(),
        }
    }
}

impl PartialEq for AppConfig {
    fn eq(&self, other: &Self) -> (same: bool) {
        self.flask_api_url == other.flask_api_url && self.mcp_api_url == other.mcp_api_url
            && self.app_version == other.app_version
    }
}

impl Eq for AppConfig {

}

/// Two records are equal when their three fields hold the same text.
impl PartialEqSpecImpl for AppConfig {
    open spec fn obeys_eq_spec() -> bool {
        true
    }

    open spec fn eq_spec(&self, other: &Self) -> bool {
        self.flask_api_url@ == other.flask_api_url@ && self.mcp_api_url@ == other.mcp_api_url@
            && self.app_version@ == other.app_version@
    }
}

/// The one record that the bridge ever hands out.
pub open spec fn default_config() -> AppConfigView {
    AppConfigView {
        flask_api_url: FLASK_API_URL@,
        mcp_api_url: MCP_API_URL@,
        app_version: APP_VERSION@,
    }
}

/// Builds the configuration record from the fixed defaults. The call cannot
/// fail and touches nothing outside the record it returns.
pub fn get_app_config() -> (config: AppConfig)
    ensures
        config@ == default_config(),
{
    AppConfig {
        flask_api_url: FLASK_API_URL.to_string(),
        mcp_api_url: MCP_API_URL.to_string(),
        app_version: APP_VERSION.to_string(),
    }
}

/// However often the configuration is asked for, the answer is the same:
/// any two records that `get_app_config` hands out agree in every field.
pub proof fn lemma_config_is_fixed(first: AppConfig, second: AppConfig)
    requires
        first@ == default_config(),
        second@ == default_config(),
    ensures
        first@ == second@,
{
}

} // verus!
