//! Management policies, and the form in which a policy is stored.
use crate::keys::{secret_policy_keys, OptionKeys, MANAGED_SECRET_PLACEHOLDER};
use crate::options::OptionMap;
use vstd::prelude::*;

verus! {

/// What the server wants of the options of this client.
pub struct ManagementPolicy {
    /// Whether the user may change the managed options.
    pub allow_user_override: bool,
    pub options: OptionMap,
}

/// Options with their secrets taken out.
pub open spec fn without_secrets(
    keys: &OptionKeys,
    options: Map<Seq<char>, Seq<char>>,
) -> Map<Seq<char>, Seq<char>> {
    options.map_entries(
        |name: Seq<char>, value: Seq<char>|
            if keys.is_secret(name) {
                MANAGED_SECRET_PLACEHOLDER@
            } else {
                value
            },
    )
}

impl ManagementPolicy {
    /// The policy that manages nothing.
    pub fn new() -> (r: ManagementPolicy)
        ensures
            !r.allow_user_override,
            r.options@ == Map::<Seq<char>, Seq<char>>::empty(),
    {
        ManagementPolicy { allow_user_override: false, options: OptionMap::new() }
    }
}

impl Default for ManagementPolicy {
    fn default() -> (r: ManagementPolicy)
        ensures
            !r.allow_user_override,
            r.options@ == Map::<Seq<char>, Seq<char>>::empty(),
    {
        ManagementPolicy::new()
    }
}

impl Clone for ManagementPolicy {
    fn clone(&self) -> (r: ManagementPolicy)
        ensures
            r.allow_user_override == self.allow_user_override,
            r.options@ == self.options@,
    {
        ManagementPolicy {
            allow_user_override: self.allow_user_override,
            options: self.options.clone(),
        }
    }
}

/// The policy as it may be stored: a placeholder stands for each secret.
pub fn policy_for_storage(keys: &OptionKeys, policy: &ManagementPolicy) -> (r: ManagementPolicy)
    ensures
        r.allow_user_override == policy.allow_user_override,
        r.options@ == without_secrets(keys, policy.options@),
{
    let mut stored = policy.clone();
    let secrets = secret_policy_keys(keys);
    let mut i: usize = 0;
    while i < secrets.len()
        invariant
            i <= secrets@.len(),
            stored.allow_user_override == policy.allow_user_override,
            stored.options@.dom() == policy.options@.dom(),
            forall|name: Seq<char>| #[trigger]
                stored.options@.contains_key(name) ==> stored.options@[name] == (if exists|j: int|
                    0 <= j < i && (#[trigger] secrets@[j])@ == name {
                    MANAGED_SECRET_PLACEHOLDER@
                } else {
                    policy.options@[name]
                }),
        decreases secrets@.len() - i,
    {
        let ghost before = stored.options@;
        if stored.options.contains_key(secrets[i].as_str()) {
            stored.options.insert(secrets[i].as_str(), MANAGED_SECRET_PLACEHOLDER);
        }
        proof {
            assert(stored.options@.dom() =~= policy.options@.dom());
            assert forall|name: Seq<char>| #[trigger]
                stored.options@.contains_key(name) implies stored.options@[name] == (if exists|
                j: int,
            |
                0 <= j < i + 1 && (#[trigger] secrets@[j])@ == name {
                MANAGED_SECRET_PLACEHOLDER@
            } else {
                policy.options@[name]
            }) by {
                assert(before.contains_key(name));
                if secrets@[i as int]@ == name {
                } else if exists|j: int| 0 <= j < i && (#[trigger] secrets@[j])@ == name {
                }
            }
        }
        i = i + 1;
    }
    proof {
        assert forall|name: Seq<char>|
            keys.is_secret(name) == (exists|j: int|
                0 <= j < secrets@.len() && (#[trigger] secrets@[j])@ == name) by {
            assert(secrets@[0]@ == crate::keys::OPTION_NEMO_PERMANENT_PASSWORD@);
            assert(secrets@[1]@ == keys.default_connect_password@);
            assert(secrets@[2]@ == keys.proxy_password@);
            assert(secrets@[3]@ == keys.preset_address_book_password@);
        }
        assert(stored.options@ =~= without_secrets(keys, policy.options@));
    }
    stored
}

/// The policy that was applied before: none if what was stored cannot be read.
pub fn previous_policy(stored: Option<ManagementPolicy>) -> (r: ManagementPolicy)
    ensures
        match stored {
            Some(policy) => r == policy,
            None => !r.allow_user_override && r.options@ == Map::<Seq<char>, Seq<char>>::empty(),
        },
{
    match stored {
        Some(policy) => policy,
        None => ManagementPolicy::new(),
    }
}

/// A stored policy names the same options, and holds no secret.
pub proof fn law_stored_policy_holds_no_secret(
    keys: &OptionKeys,
    options: Map<Seq<char>, Seq<char>>,
)
    ensures
        without_secrets(keys, options).dom() == options.dom(),
        forall|name: Seq<char>| #[trigger]
            without_secrets(keys, options).contains_key(name) && keys.is_secret(name)
                ==> without_secrets(keys, options)[name] == MANAGED_SECRET_PLACEHOLDER@,
        forall|name: Seq<char>| #[trigger]
            without_secrets(keys, options).contains_key(name) && !keys.is_secret(name)
                ==> without_secrets(keys, options)[name] == options[name],
{
    assert(without_secrets(keys, options).dom() =~= options.dom());
}

/// To store a policy that was stored changes nothing.
pub proof fn law_storing_twice_changes_nothing(
    keys: &OptionKeys,
    options: Map<Seq<char>, Seq<char>>,
)
    ensures
        without_secrets(keys, without_secrets(keys, options)) == without_secrets(keys, options),
{
    assert(without_secrets(keys, without_secrets(keys, options)) =~= without_secrets(
        keys,
        options,
    ));
}

/// In a stored policy the passwords read as a placeholder, and every other option as
/// in the policy.
pub proof fn law_stored_options_one_by_one(
    keys: &OptionKeys,
    options: Map<Seq<char>, Seq<char>>,
    name: Seq<char>,
)
    ensures
        without_secrets(keys, options).contains_key(name) <==> options.contains_key(name),
        options.contains_key(name) ==> without_secrets(keys, options)[name] == (if name
            == "nemo-permanent-password"@ || name == keys.default_connect_password@ || name
            == keys.proxy_password@ || name == keys.preset_address_book_password@ {
            "<managed-secret>"@
        } else {
            options[name]
        }),
{
    law_stored_policy_holds_no_secret(keys, options);
}

}
