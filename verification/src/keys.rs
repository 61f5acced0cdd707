//! Option names, and the settings map that each managed option belongs to.
use crate::text::same_text;
use vstd::prelude::*;

verus! {

pub const OPTION_NEMO_MANAGEMENT_ENABLED: &'static str = "nemo-management-enabled";

pub const OPTION_NEMO_MANAGEMENT_SERVER: &'static str = "nemo-management-server";

pub const OPTION_NEMO_MANAGEMENT_PUBLIC_KEY: &'static str = "nemo-management-public-key";

pub const OPTION_NEMO_MANAGEMENT_LAST_POLICY: &'static str = "nemo-management-last-policy";

pub const OPTION_NEMO_MANAGEMENT_ALLOW_UNSIGNED: &'static str = "nemo-management-allow-unsigned";

pub const OPTION_NEMO_COMPANY_NETWORK_ONLY: &'static str = "nemo-company-network-only";

pub const OPTION_NEMO_PERMANENT_PASSWORD: &'static str = "nemo-permanent-password";

pub const OPTION_NEMO_OUTBOUND_ENABLED: &'static str = "nemo-outbound-enabled";

pub const OPTION_NEMO_OUTBOUND_TARGETS: &'static str = "nemo-outbound-targets";

/// A friendly name for the client. An administrator can push it as a default, or
/// lock it.
pub const OPTION_NEMO_ALIAS: &'static str = "nemo-alias";

/// Set by the server if and only if it knew the session token of the poll.
pub const OPTION_NEMO_LOGGED_IN_USER: &'static str = "nemo-logged-in-user";

/// SHA-256 fingerprint to which the server's certificate is pinned.
pub const OPTION_NEMO_API_CERT_FINGERPRINT: &'static str = "nemo-api-cert-fingerprint";

/// Whether the user has to log in. The flag has to be known at startup, before the
/// first poll, so it is written to the durable options and is no managed setting:
/// the host does not save an option that an overwrite map holds.
pub const OPTION_NEMO_REQUIRE_LOGIN: &'static str = "nemo-require-login";

pub const OPTION_NEMO_REQUIRE_ENCRYPTED_SESSION: &'static str = "nemo-require-encrypted-session";

pub const OPTION_NEMO_AB_VERSION: &'static str = "nemo-ab-version";

pub const OPTION_NEMO_BLOCKED_IDS: &'static str = "nemo-blocked-ids";

pub const OPTION_NEMO_PEER_KEYS: &'static str = "nemo-peer-keys";

/// `Y` once the server has answered with a sealed policy.
pub const OPTION_NEMO_POLICY_SEAL_SEEN: &'static str = "nemo-policy-seal-seen";

/// The newest time stamp of a policy that was accepted.
pub const OPTION_NEMO_POLICY_ISSUED_TS: &'static str = "nemo-policy-issued-ts";

pub const OPTION_API_SERVER: &'static str = "api-server";

pub const OPTION_ALLOW_INSECURE_TLS_FALLBACK: &'static str = "allow-insecure-tls-fallback";

/// What stands for a secret in a stored policy.
pub const MANAGED_SECRET_PLACEHOLDER: &'static str = "<managed-secret>";

/// The group of settings maps that an option belongs to.
#[derive(Clone, Copy, PartialEq, Eq, Structural, Debug)]
pub enum ManagedOptionScope {
    Settings,
    Local,
    Display,
    BuiltIn,
}

/// The option names of the host application.
pub struct OptionKeys {
    pub settings: Vec<String>,
    pub local_settings: Vec<String>,
    pub display_settings: Vec<String>,
    pub builtin_settings: Vec<String>,
    pub default_connect_password: String,
    pub proxy_password: String,
    pub preset_address_book_password: String,
}

/// Whether a list of names holds a name.
pub open spec fn listed(list: Seq<String>, name: Seq<char>) -> bool {
    exists|i: int| 0 <= i < list.len() && (#[trigger] list[i])@ == name
}

/// The settings of this client that a policy manages besides those of the host.
pub open spec fn is_management_setting(name: Seq<char>) -> bool {
    ||| name == OPTION_NEMO_MANAGEMENT_ENABLED@
    ||| name == OPTION_NEMO_MANAGEMENT_SERVER@
    ||| name == OPTION_NEMO_MANAGEMENT_PUBLIC_KEY@
    ||| name == OPTION_NEMO_COMPANY_NETWORK_ONLY@
    ||| name == OPTION_NEMO_OUTBOUND_ENABLED@
    ||| name == OPTION_NEMO_OUTBOUND_TARGETS@
    ||| name == OPTION_NEMO_ALIAS@
    ||| name == OPTION_NEMO_LOGGED_IN_USER@
    ||| name == OPTION_NEMO_API_CERT_FINGERPRINT@
}

impl OptionKeys {
    /// The scope of an option, if a policy may set it.
    pub open spec fn scope(&self, name: Seq<char>) -> Option<ManagedOptionScope> {
        if listed(self.settings@, name) || is_management_setting(name) {
            Some(ManagedOptionScope::Settings)
        } else if listed(self.local_settings@, name) {
            Some(ManagedOptionScope::Local)
        } else if listed(self.display_settings@, name) {
            Some(ManagedOptionScope::Display)
        } else if listed(self.builtin_settings@, name) {
            Some(ManagedOptionScope::BuiltIn)
        } else {
            None
        }
    }

    /// Whether an option holds a secret.
    pub open spec fn is_secret(&self, name: Seq<char>) -> bool {
        ||| name == OPTION_NEMO_PERMANENT_PASSWORD@
        ||| name == self.default_connect_password@
        ||| name == self.proxy_password@
        ||| name == self.preset_address_book_password@
    }
}

fn list_contains(list: &Vec<String>, name: &str) -> (r: bool)
    ensures
        r == listed(list@, name@),
{
    let mut i: usize = 0;
    while i < list.len()
        invariant
            i <= list@.len(),
            forall|j: int| 0 <= j < i ==> (#[trigger] list@[j])@ != name@,
        decreases list@.len() - i,
    {
        if same_text(list[i].as_str(), name) {
            assert(list@[i as int]@ == name@);
            return true;
        }
        i = i + 1;
    }
    false
}

fn management_setting(name: &str) -> (r: bool)
    ensures
        r == is_management_setting(name@),
{
    same_text(name, OPTION_NEMO_MANAGEMENT_ENABLED) || same_text(
        name,
        OPTION_NEMO_MANAGEMENT_SERVER,
    ) || same_text(name, OPTION_NEMO_MANAGEMENT_PUBLIC_KEY) || same_text(
        name,
        OPTION_NEMO_COMPANY_NETWORK_ONLY,
    ) || same_text(name, OPTION_NEMO_OUTBOUND_ENABLED) || same_text(
        name,
        OPTION_NEMO_OUTBOUND_TARGETS,
    ) || same_text(name, OPTION_NEMO_ALIAS) || same_text(name, OPTION_NEMO_LOGGED_IN_USER)
        || same_text(name, OPTION_NEMO_API_CERT_FINGERPRINT)
}

/// The scope of an option, if a policy may set it: the first of the lists that
/// holds it decides.
pub fn option_scope(keys: &OptionKeys, key: &str) -> (r: Option<ManagedOptionScope>)
    ensures
        r == keys.scope(key@),
{
    if list_contains(&keys.settings, key) || management_setting(key) {
        Some(ManagedOptionScope::Settings)
    } else if list_contains(&keys.local_settings, key) {
        Some(ManagedOptionScope::Local)
    } else if list_contains(&keys.display_settings, key) {
        Some(ManagedOptionScope::Display)
    } else if list_contains(&keys.builtin_settings, key) {
        Some(ManagedOptionScope::BuiltIn)
    } else {
        None
    }
}

/// The options that hold secrets.
pub fn secret_policy_keys(keys: &OptionKeys) -> (r: Vec<String>)
    ensures
        r@.len() == 4,
        r@[0]@ == OPTION_NEMO_PERMANENT_PASSWORD@,
        r@[1]@ == keys.default_connect_password@,
        r@[2]@ == keys.proxy_password@,
        r@[3]@ == keys.preset_address_book_password@,
{
    let mut r: Vec<String> = Vec::new();
    r.push(OPTION_NEMO_PERMANENT_PASSWORD.to_owned());
    r.push(keys.default_connect_password.clone());
    r.push(keys.proxy_password.clone());
    r.push(keys.preset_address_book_password.clone());
    r
}

/// The login flag is no managed setting: unless a list of the host names it, no
/// policy puts it into a settings map.
pub proof fn law_login_flag_is_not_managed(keys: &OptionKeys)
    requires
        !listed(keys.settings@, OPTION_NEMO_REQUIRE_LOGIN@),
        !listed(keys.local_settings@, OPTION_NEMO_REQUIRE_LOGIN@),
        !listed(keys.display_settings@, OPTION_NEMO_REQUIRE_LOGIN@),
        !listed(keys.builtin_settings@, OPTION_NEMO_REQUIRE_LOGIN@),
    ensures
        keys.scope(OPTION_NEMO_REQUIRE_LOGIN@) is None,
{
    reveal_strlit("nemo-management-enabled");
    reveal_strlit("nemo-management-server");
    reveal_strlit("nemo-management-public-key");
    reveal_strlit("nemo-company-network-only");
    reveal_strlit("nemo-outbound-enabled");
    reveal_strlit("nemo-outbound-targets");
    reveal_strlit("nemo-alias");
    reveal_strlit("nemo-logged-in-user");
    reveal_strlit("nemo-api-cert-fingerprint");
    reveal_strlit("nemo-require-login");
    let name = OPTION_NEMO_REQUIRE_LOGIN@;
    assert(name[5] == 'r');
}

/// A policy manages the options that the host lists and nine settings of its own.
/// The own ones belong with the settings of the host; the first list that names an
/// option decides.
pub proof fn law_scopes_in_full(keys: &OptionKeys, name: Seq<char>)
    ensures
        ({
            let own = {
                ||| name == "nemo-management-enabled"@
                ||| name == "nemo-management-server"@
                ||| name == "nemo-management-public-key"@
                ||| name == "nemo-company-network-only"@
                ||| name == "nemo-outbound-enabled"@
                ||| name == "nemo-outbound-targets"@
                ||| name == "nemo-alias"@
                ||| name == "nemo-logged-in-user"@
                ||| name == "nemo-api-cert-fingerprint"@
            };
            let settings = own || exists|i: int|
                0 <= i < keys.settings@.len() && (#[trigger] keys.settings@[i])@ == name;
            let local = exists|i: int|
                0 <= i < keys.local_settings@.len() && (#[trigger] keys.local_settings@[i])@
                    == name;
            let display = exists|i: int|
                0 <= i < keys.display_settings@.len() && (#[trigger] keys.display_settings@[i])@
                    == name;
            let builtin = exists|i: int|
                0 <= i < keys.builtin_settings@.len() && (#[trigger] keys.builtin_settings@[i])@
                    == name;
            &&& keys.scope(name) == Some(ManagedOptionScope::Settings) <==> settings
            &&& keys.scope(name) == Some(ManagedOptionScope::Local) <==> !settings && local
            &&& keys.scope(name) == Some(ManagedOptionScope::Display) <==> !settings && !local
                && display
            &&& keys.scope(name) == Some(ManagedOptionScope::BuiltIn) <==> !settings && !local
                && !display && builtin
            &&& keys.scope(name) is None <==> !settings && !local && !display && !builtin
        }),
{
}

/// The password for incoming connections and the three passwords of the host are
/// secret, and nothing else.
pub proof fn law_secrets_in_full(keys: &OptionKeys, name: Seq<char>)
    ensures
        keys.is_secret(name) <==> {
            ||| name == "nemo-permanent-password"@
            ||| name == keys.default_connect_password@
            ||| name == keys.proxy_password@
            ||| name == keys.preset_address_book_password@
        },
{
}

}
