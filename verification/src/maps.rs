//! The settings maps that a policy fills.
//!
//! An option in an overwrite map is locked: the user cannot change it. An option
//! in a default map holds until the user sets another value.
use crate::keys::{option_scope, ManagedOptionScope, OptionKeys, OPTION_NEMO_PERMANENT_PASSWORD};
use crate::options::{map_of, OptionMap};
use crate::policy::{without_secrets, ManagementPolicy};
use crate::text::same_text;
use vstd::prelude::*;

verus! {

/// The default map and the overwrite map of one scope.
pub struct ScopeMaps {
    pub default_map: OptionMap,
    pub overwrite_map: OptionMap,
}

/// All settings maps.
pub struct SettingsMaps {
    pub settings: ScopeMaps,
    pub local: ScopeMaps,
    pub display: ScopeMaps,
    pub builtin: OptionMap,
}

/// What the maps of one scope hold.
#[verifier::ext_equal]
pub struct ScopeMapsView {
    pub default_map: Map<Seq<char>, Seq<char>>,
    pub overwrite_map: Map<Seq<char>, Seq<char>>,
}

/// What all settings maps hold.
#[verifier::ext_equal]
pub struct SettingsMapsView {
    pub settings: ScopeMapsView,
    pub local: ScopeMapsView,
    pub display: ScopeMapsView,
    pub builtin: Map<Seq<char>, Seq<char>>,
}

impl View for ScopeMaps {
    type V = ScopeMapsView;

    open spec fn view(&self) -> ScopeMapsView {
        ScopeMapsView { default_map: self.default_map@, overwrite_map: self.overwrite_map@ }
    }
}

impl View for SettingsMaps {
    type V = SettingsMapsView;

    open spec fn view(&self) -> SettingsMapsView {
        SettingsMapsView {
            settings: self.settings@,
            local: self.local@,
            display: self.display@,
            builtin: self.builtin@,
        }
    }
}

impl ScopeMapsView {
    /// With options put in: as defaults if the user may override them, else locked.
    pub open spec fn overlaid(
        self,
        options: Map<Seq<char>, Seq<char>>,
        allow_user_override: bool,
    ) -> ScopeMapsView {
        if allow_user_override {
            ScopeMapsView {
                default_map: self.default_map.union_prefer_right(options),
                overwrite_map: self.overwrite_map.remove_keys(options.dom()),
            }
        } else {
            ScopeMapsView {
                default_map: self.default_map.remove_keys(options.dom()),
                overwrite_map: self.overwrite_map.union_prefer_right(options),
            }
        }
    }

    /// With options taken out.
    pub open spec fn without(self, names: Set<Seq<char>>) -> ScopeMapsView {
        ScopeMapsView {
            default_map: self.default_map.remove_keys(names),
            overwrite_map: self.overwrite_map.remove_keys(names),
        }
    }
}

/// The options that belong to a scope.
pub open spec fn in_scope(
    keys: &OptionKeys,
    options: Map<Seq<char>, Seq<char>>,
    scope: ManagedOptionScope,
) -> Map<Seq<char>, Seq<char>> {
    options.restrict(Set::new(|name: Seq<char>| keys.scope(name) == Some(scope)))
}

/// The options of a policy that go into settings maps: all but the password.
pub open spec fn map_options(options: Map<Seq<char>, Seq<char>>) -> Map<Seq<char>, Seq<char>> {
    options.remove(OPTION_NEMO_PERMANENT_PASSWORD@)
}

impl SettingsMapsView {
    /// The two maps of a scope that has two.
    pub open spec fn of(self, scope: ManagedOptionScope) -> ScopeMapsView {
        match scope {
            ManagedOptionScope::Settings => self.settings,
            ManagedOptionScope::Local => self.local,
            _ => self.display,
        }
    }

    /// With the two maps of a scope replaced.
    pub open spec fn with(self, scope: ManagedOptionScope, maps: ScopeMapsView) -> SettingsMapsView {
        match scope {
            ManagedOptionScope::Settings => SettingsMapsView { settings: maps, ..self },
            ManagedOptionScope::Local => SettingsMapsView { local: maps, ..self },
            _ => SettingsMapsView { display: maps, ..self },
        }
    }

    /// With one option set.
    pub open spec fn with_option(
        self,
        scope: ManagedOptionScope,
        key: Seq<char>,
        value: Seq<char>,
        allow_user_override: bool,
    ) -> SettingsMapsView {
        match scope {
            ManagedOptionScope::BuiltIn => SettingsMapsView {
                builtin: self.builtin.insert(key, value),
                ..self
            },
            _ => self.with(
                scope,
                self.of(scope).overlaid(Map::empty().insert(key, value), allow_user_override),
            ),
        }
    }

    /// With one option taken out.
    pub open spec fn without_option(
        self,
        scope: ManagedOptionScope,
        key: Seq<char>,
    ) -> SettingsMapsView {
        match scope {
            ManagedOptionScope::BuiltIn => SettingsMapsView {
                builtin: self.builtin.remove(key),
                ..self
            },
            _ => self.with(scope, self.of(scope).without(Set::empty().insert(key))),
        }
    }

    /// With every option of the map put into the maps of its scope.
    pub open spec fn with_options(
        self,
        keys: &OptionKeys,
        options: Map<Seq<char>, Seq<char>>,
        allow_user_override: bool,
    ) -> SettingsMapsView {
        SettingsMapsView {
            settings: self.settings.overlaid(
                in_scope(keys, options, ManagedOptionScope::Settings),
                allow_user_override,
            ),
            local: self.local.overlaid(
                in_scope(keys, options, ManagedOptionScope::Local),
                allow_user_override,
            ),
            display: self.display.overlaid(
                in_scope(keys, options, ManagedOptionScope::Display),
                allow_user_override,
            ),
            builtin: self.builtin.union_prefer_right(
                in_scope(keys, options, ManagedOptionScope::BuiltIn),
            ),
        }
    }

    /// With every option that the map names taken out of the maps of its scope.
    pub open spec fn without_options(
        self,
        keys: &OptionKeys,
        options: Map<Seq<char>, Seq<char>>,
    ) -> SettingsMapsView {
        SettingsMapsView {
            settings: self.settings.without(
                in_scope(keys, options, ManagedOptionScope::Settings).dom(),
            ),
            local: self.local.without(in_scope(keys, options, ManagedOptionScope::Local).dom()),
            display: self.display.without(
                in_scope(keys, options, ManagedOptionScope::Display).dom(),
            ),
            builtin: self.builtin.remove_keys(
                in_scope(keys, options, ManagedOptionScope::BuiltIn).dom(),
            ),
        }
    }
}

/// The default map and the overwrite map of a scope. Built-in options have only
/// one map, and no place here.
pub fn policy_maps(maps: &mut SettingsMaps, scope: ManagedOptionScope) -> (r: &mut ScopeMaps)
    requires
        scope != ManagedOptionScope::BuiltIn,
    ensures
        r@ == old(maps)@.of(scope),
        final(maps)@ == old(maps)@.with(scope, final(r)@),
{
    match scope {
        ManagedOptionScope::Settings => &mut maps.settings,
        ManagedOptionScope::Local => &mut maps.local,
        _ => &mut maps.display,
    }
}

/// Puts one option of a policy into the maps of its scope. With two maps it goes
/// into one and out of the other.
pub fn apply_policy_option(
    maps: &mut SettingsMaps,
    scope: ManagedOptionScope,
    key: &str,
    value: &str,
    allow_user_override: bool,
)
    ensures
        final(maps)@ == old(maps)@.with_option(scope, key@, value@, allow_user_override),
{
    if scope == ManagedOptionScope::BuiltIn {
        maps.builtin.insert(key, value);
        return;
    }
    let pair = policy_maps(maps, scope);
    let ghost before = pair@;
    if allow_user_override {
        pair.overwrite_map.remove(key);
        pair.default_map.insert(key, value);
    } else {
        pair.default_map.remove(key);
        pair.overwrite_map.insert(key, value);
    }
    assert(pair@ =~= before.overlaid(Map::empty().insert(key@, value@), allow_user_override));
}

/// Takes one option out of the maps of its scope.
pub fn clear_policy_option(maps: &mut SettingsMaps, scope: ManagedOptionScope, key: &str)
    ensures
        final(maps)@ == old(maps)@.without_option(scope, key@),
{
    if scope == ManagedOptionScope::BuiltIn {
        maps.builtin.remove(key);
        return;
    }
    let pair = policy_maps(maps, scope);
    let ghost before = pair@;
    pair.default_map.remove(key);
    pair.overwrite_map.remove(key);
    assert(pair@ =~= before.without(Set::empty().insert(key@)));
}

/// Takes the options of a policy out of the maps.
pub fn clear_policy_maps(maps: &mut SettingsMaps, keys: &OptionKeys, policy: &ManagementPolicy)
    ensures
        final(maps)@ == old(maps)@.without_options(keys, policy.options@),
{
    let ghost entries = policy.options.entries();
    let ghost start = maps@;
    let n: usize = policy.options.len();
    let mut i: usize = 0;
    proof {
        assert(map_of(entries.take(0)) =~= Map::empty());
        assert(maps@ =~= start.without_options(keys, map_of(entries.take(0))));
    }
    while i < n
        invariant
            entries == policy.options.entries(),
            n == entries.len(),
            i <= n,
            maps@ == start.without_options(keys, map_of(entries.take(i as int))),
        decreases n - i,
    {
        let key = policy.options.name_at(i);
        let ghost done = map_of(entries.take(i as int));
        let ghost next = map_of(entries.take(i + 1));
        proof {
            assert(entries.take(i + 1).drop_last() =~= entries.take(i as int));
        }
        match option_scope(keys, key.as_str()) {
            Some(scope) => {
                clear_policy_option(maps, scope, key.as_str());
            },
            None => {},
        }
        assert(maps@ =~= start.without_options(keys, next));
        i = i + 1;
    }
    assert(entries.take(n as int) =~= entries);
}

/// Puts the options of a policy, but for the password, into the maps.
pub fn apply_policy_options(maps: &mut SettingsMaps, keys: &OptionKeys, policy: &ManagementPolicy)
    ensures
        final(maps)@ == old(maps)@.with_options(
            keys,
            map_options(policy.options@),
            policy.allow_user_override,
        ),
{
    let ghost entries = policy.options.entries();
    let ghost allow = policy.allow_user_override;
    let ghost start = maps@;
    let n: usize = policy.options.len();
    let mut i: usize = 0;
    proof {
        assert(map_options(map_of(entries.take(0))) =~= Map::empty());
        assert(maps@ =~= start.with_options(keys, map_options(map_of(entries.take(0))), allow));
    }
    while i < n
        invariant
            entries == policy.options.entries(),
            allow == policy.allow_user_override,
            n == entries.len(),
            i <= n,
            maps@ == start.with_options(keys, map_options(map_of(entries.take(i as int))), allow),
        decreases n - i,
    {
        let key = policy.options.name_at(i);
        let value = policy.options.value_at(i);
        let ghost next = map_options(map_of(entries.take(i + 1)));
        proof {
            assert(entries.take(i + 1).drop_last() =~= entries.take(i as int));
        }
        if !same_text(key.as_str(), OPTION_NEMO_PERMANENT_PASSWORD) {
            match option_scope(keys, key.as_str()) {
                Some(scope) => {
                    apply_policy_option(
                        maps,
                        scope,
                        key.as_str(),
                        value.as_str(),
                        policy.allow_user_override,
                    );
                },
                None => {},
            }
        }
        assert(maps@ =~= start.with_options(keys, next, allow));
        i = i + 1;
    }
    assert(entries.take(n as int) =~= entries);
}

impl SettingsMapsView {
    /// Whether no option is a default and locked at the same time.
    pub open spec fn exclusive(self) -> bool {
        &&& self.settings.default_map.dom().disjoint(self.settings.overwrite_map.dom())
        &&& self.local.default_map.dom().disjoint(self.local.overwrite_map.dom())
        &&& self.display.default_map.dom().disjoint(self.display.overwrite_map.dom())
    }

    /// Whether a name occurs in no map of a scope.
    pub open spec fn lacks(self, scope: ManagedOptionScope, name: Seq<char>) -> bool {
        match scope {
            ManagedOptionScope::BuiltIn => !self.builtin.contains_key(name),
            _ => !self.of(scope).default_map.contains_key(name) && !self.of(
                scope,
            ).overwrite_map.contains_key(name),
        }
    }

    /// Whether two states of the maps hold the same of a name.
    pub open spec fn agrees_on(self, other: SettingsMapsView, name: Seq<char>) -> bool {
        &&& self.settings.default_map.index_opt(name) == other.settings.default_map.index_opt(name)
        &&& self.settings.overwrite_map.index_opt(name) == other.settings.overwrite_map.index_opt(
            name,
        )
        &&& self.local.default_map.index_opt(name) == other.local.default_map.index_opt(name)
        &&& self.local.overwrite_map.index_opt(name) == other.local.overwrite_map.index_opt(name)
        &&& self.display.default_map.index_opt(name) == other.display.default_map.index_opt(name)
        &&& self.display.overwrite_map.index_opt(name) == other.display.overwrite_map.index_opt(
            name,
        )
        &&& self.builtin.index_opt(name) == other.builtin.index_opt(name)
    }
}

/// The server is authoritative by default: an option that the user may not
/// override is locked to the value of the policy, and is no default.
pub proof fn law_policy_locks_options(
    maps: SettingsMapsView,
    keys: &OptionKeys,
    options: Map<Seq<char>, Seq<char>>,
    scope: ManagedOptionScope,
    name: Seq<char>,
)
    requires
        options.contains_key(name),
        keys.scope(name) == Some(scope),
        scope != ManagedOptionScope::BuiltIn,
    ensures
        maps.with_options(keys, options, false).of(scope).overwrite_map.contains_pair(
            name,
            options[name],
        ),
        !maps.with_options(keys, options, false).of(scope).default_map.contains_key(name),
{
    assert(in_scope(keys, options, scope).contains_key(name));
}

/// Where the policy lets the user override it, an option is the default and is not
/// locked.
pub proof fn law_overridable_policy_sets_defaults(
    maps: SettingsMapsView,
    keys: &OptionKeys,
    options: Map<Seq<char>, Seq<char>>,
    scope: ManagedOptionScope,
    name: Seq<char>,
)
    requires
        options.contains_key(name),
        keys.scope(name) == Some(scope),
        scope != ManagedOptionScope::BuiltIn,
    ensures
        maps.with_options(keys, options, true).of(scope).default_map.contains_pair(
            name,
            options[name],
        ),
        !maps.with_options(keys, options, true).of(scope).overwrite_map.contains_key(name),
{
    assert(in_scope(keys, options, scope).contains_key(name));
}

/// A built-in option has the value of the policy, whether or not the user may
/// override the policy.
pub proof fn law_policy_sets_builtin_options(
    maps: SettingsMapsView,
    keys: &OptionKeys,
    options: Map<Seq<char>, Seq<char>>,
    allow_user_override: bool,
    name: Seq<char>,
)
    requires
        options.contains_key(name),
        keys.scope(name) == Some(ManagedOptionScope::BuiltIn),
    ensures
        maps.with_options(keys, options, allow_user_override).builtin.contains_pair(
            name,
            options[name],
        ),
{
    assert(in_scope(keys, options, ManagedOptionScope::BuiltIn).contains_key(name));
}

/// No option becomes a default and locked at the same time.
pub proof fn law_maps_stay_exclusive(
    maps: SettingsMapsView,
    keys: &OptionKeys,
    options: Map<Seq<char>, Seq<char>>,
    allow_user_override: bool,
)
    requires
        maps.exclusive(),
    ensures
        maps.with_options(keys, options, allow_user_override).exclusive(),
        maps.without_options(keys, options).exclusive(),
{
}

/// Options that a policy does not name, and options that belong to no scope, stay
/// as they are.
pub proof fn law_other_options_are_untouched(
    maps: SettingsMapsView,
    keys: &OptionKeys,
    options: Map<Seq<char>, Seq<char>>,
    allow_user_override: bool,
    name: Seq<char>,
)
    requires
        !options.contains_key(name) || keys.scope(name) is None,
    ensures
        maps.with_options(keys, options, allow_user_override).agrees_on(maps, name),
        maps.without_options(keys, options).agrees_on(maps, name),
{
    assert(!in_scope(keys, options, ManagedOptionScope::Settings).contains_key(name));
    assert(!in_scope(keys, options, ManagedOptionScope::Local).contains_key(name));
    assert(!in_scope(keys, options, ManagedOptionScope::Display).contains_key(name));
    assert(!in_scope(keys, options, ManagedOptionScope::BuiltIn).contains_key(name));
}

/// The password of a policy goes into no settings map.
pub proof fn law_password_enters_no_map(
    maps: SettingsMapsView,
    keys: &OptionKeys,
    options: Map<Seq<char>, Seq<char>>,
    allow_user_override: bool,
)
    ensures
        maps.with_options(keys, map_options(options), allow_user_override).agrees_on(
            maps,
            OPTION_NEMO_PERMANENT_PASSWORD@,
        ),
{
    law_other_options_are_untouched(
        maps,
        keys,
        map_options(options),
        allow_user_override,
        OPTION_NEMO_PERMANENT_PASSWORD@,
    );
}

/// To clear a policy undoes its application: what is left is what had been left
/// without it.
pub proof fn law_clearing_undoes_applying(
    maps: SettingsMapsView,
    keys: &OptionKeys,
    options: Map<Seq<char>, Seq<char>>,
    allow_user_override: bool,
)
    ensures
        maps.with_options(keys, map_options(options), allow_user_override).without_options(
            keys,
            options,
        ) == maps.without_options(keys, options),
{
    assert(maps.with_options(keys, map_options(options), allow_user_override).without_options(
        keys,
        options,
    ) =~= maps.without_options(keys, options));
}

/// A stored policy clears the maps as the policy itself does: that its secrets are
/// gone makes no difference.
pub proof fn law_stored_policy_clears_the_same(
    maps: SettingsMapsView,
    keys: &OptionKeys,
    options: Map<Seq<char>, Seq<char>>,
)
    ensures
        maps.without_options(keys, without_secrets(keys, options)) == maps.without_options(
            keys,
            options,
        ),
{
    assert(maps.without_options(keys, without_secrets(keys, options)) =~= maps.without_options(
        keys,
        options,
    ));
}

/// An option that the last policy set and the new one does not name is gone once
/// the new one is applied.
pub proof fn law_dropped_option_is_gone(
    maps: SettingsMapsView,
    keys: &OptionKeys,
    old_options: Map<Seq<char>, Seq<char>>,
    new_options: Map<Seq<char>, Seq<char>>,
    allow_user_override: bool,
    scope: ManagedOptionScope,
    name: Seq<char>,
)
    requires
        old_options.contains_key(name),
        !new_options.contains_key(name),
        keys.scope(name) == Some(scope),
    ensures
        maps.without_options(keys, without_secrets(keys, old_options)).with_options(
            keys,
            map_options(new_options),
            allow_user_override,
        ).lacks(scope, name),
{
    law_stored_policy_clears_the_same(maps, keys, old_options);
    assert(in_scope(keys, old_options, scope).contains_key(name));
    assert(!in_scope(keys, map_options(new_options), scope).contains_key(name));
}

/// Every option that a policy names has its value in the maps of its scope once the
/// policy is put in, but for the password: it is locked if the user may not override
/// the policy, and a default if the user may. A built-in option has one map, which
/// holds it either way.
pub proof fn law_policy_sets_every_option(
    maps: SettingsMapsView,
    keys: &OptionKeys,
    policy: ManagementPolicy,
    name: Seq<char>,
)
    requires
        policy.options@.contains_key(name),
        name != "nemo-permanent-password"@,
        keys.scope(name) is Some,
    ensures
        ({
            let after = maps.with_options(
                keys,
                map_options(policy.options@),
                policy.allow_user_override,
            );
            let value = policy.options@[name];
            match keys.scope(name).unwrap() {
                ManagedOptionScope::Settings => if policy.allow_user_override {
                    &&& after.settings.default_map.contains_pair(name, value)
                    &&& !after.settings.overwrite_map.contains_key(name)
                } else {
                    &&& after.settings.overwrite_map.contains_pair(name, value)
                    &&& !after.settings.default_map.contains_key(name)
                },
                ManagedOptionScope::Local => if policy.allow_user_override {
                    &&& after.local.default_map.contains_pair(name, value)
                    &&& !after.local.overwrite_map.contains_key(name)
                } else {
                    &&& after.local.overwrite_map.contains_pair(name, value)
                    &&& !after.local.default_map.contains_key(name)
                },
                ManagedOptionScope::Display => if policy.allow_user_override {
                    &&& after.display.default_map.contains_pair(name, value)
                    &&& !after.display.overwrite_map.contains_key(name)
                } else {
                    &&& after.display.overwrite_map.contains_pair(name, value)
                    &&& !after.display.default_map.contains_key(name)
                },
                ManagedOptionScope::BuiltIn => after.builtin.contains_pair(name, value),
            }
        }),
{
    let options = map_options(policy.options@);
    assert(options.contains_key(name) && options[name] == policy.options@[name]);
    assert(in_scope(keys, options, keys.scope(name).unwrap()).contains_key(name));
}

/// To put a policy in or take it out changes nothing in the maps of a scope for a name
/// that is not of that scope, or that the policy does not hold.
pub proof fn law_scopes_do_not_mix(
    maps: SettingsMapsView,
    keys: &OptionKeys,
    options: Map<Seq<char>, Seq<char>>,
    allow_user_override: bool,
    name: Seq<char>,
)
    ensures
        ({
            let filled = maps.with_options(keys, map_options(options), allow_user_override);
            let cleared = maps.without_options(keys, options);
            let held = options.contains_key(name);
            &&& !(held && keys.scope(name) == Some(ManagedOptionScope::Settings)) ==> {
                &&& filled.settings.default_map.index_opt(name)
                    == maps.settings.default_map.index_opt(name)
                &&& filled.settings.overwrite_map.index_opt(name)
                    == maps.settings.overwrite_map.index_opt(name)
                &&& cleared.settings.default_map.index_opt(name)
                    == maps.settings.default_map.index_opt(name)
                &&& cleared.settings.overwrite_map.index_opt(name)
                    == maps.settings.overwrite_map.index_opt(name)
            }
            &&& !(held && keys.scope(name) == Some(ManagedOptionScope::Local)) ==> {
                &&& filled.local.default_map.index_opt(name) == maps.local.default_map.index_opt(
                    name,
                )
                &&& filled.local.overwrite_map.index_opt(name)
                    == maps.local.overwrite_map.index_opt(name)
                &&& cleared.local.default_map.index_opt(name) == maps.local.default_map.index_opt(
                    name,
                )
                &&& cleared.local.overwrite_map.index_opt(name)
                    == maps.local.overwrite_map.index_opt(name)
            }
            &&& !(held && keys.scope(name) == Some(ManagedOptionScope::Display)) ==> {
                &&& filled.display.default_map.index_opt(name)
                    == maps.display.default_map.index_opt(name)
                &&& filled.display.overwrite_map.index_opt(name)
                    == maps.display.overwrite_map.index_opt(name)
                &&& cleared.display.default_map.index_opt(name)
                    == maps.display.default_map.index_opt(name)
                &&& cleared.display.overwrite_map.index_opt(name)
                    == maps.display.overwrite_map.index_opt(name)
            }
            &&& !(held && keys.scope(name) == Some(ManagedOptionScope::BuiltIn)) ==> {
                &&& filled.builtin.index_opt(name) == maps.builtin.index_opt(name)
                &&& cleared.builtin.index_opt(name) == maps.builtin.index_opt(name)
            }
        }),
{
}

/// To take a policy out leaves none of its options, the password among them, in the
/// maps of their scope.
pub proof fn law_clearing_takes_every_option_out(
    maps: SettingsMapsView,
    keys: &OptionKeys,
    options: Map<Seq<char>, Seq<char>>,
    name: Seq<char>,
)
    requires
        options.contains_key(name),
        keys.scope(name) is Some,
    ensures
        ({
            let after = maps.without_options(keys, options);
            match keys.scope(name).unwrap() {
                ManagedOptionScope::Settings => !after.settings.default_map.contains_key(name)
                    && !after.settings.overwrite_map.contains_key(name),
                ManagedOptionScope::Local => !after.local.default_map.contains_key(name)
                    && !after.local.overwrite_map.contains_key(name),
                ManagedOptionScope::Display => !after.display.default_map.contains_key(name)
                    && !after.display.overwrite_map.contains_key(name),
                ManagedOptionScope::BuiltIn => !after.builtin.contains_key(name),
            }
        }),
{
    assert(in_scope(keys, options, keys.scope(name).unwrap()).contains_key(name));
}

/// The password changes no settings map, whatever its scope.
pub proof fn law_password_changes_no_map(
    maps: SettingsMapsView,
    keys: &OptionKeys,
    options: Map<Seq<char>, Seq<char>>,
    allow_user_override: bool,
)
    ensures
        ({
            let after = maps.with_options(keys, map_options(options), allow_user_override);
            let name = "nemo-permanent-password"@;
            &&& after.settings.default_map.index_opt(name) == maps.settings.default_map.index_opt(
                name,
            )
            &&& after.settings.overwrite_map.index_opt(name)
                == maps.settings.overwrite_map.index_opt(name)
            &&& after.local.default_map.index_opt(name) == maps.local.default_map.index_opt(name)
            &&& after.local.overwrite_map.index_opt(name) == maps.local.overwrite_map.index_opt(
                name,
            )
            &&& after.display.default_map.index_opt(name) == maps.display.default_map.index_opt(
                name,
            )
            &&& after.display.overwrite_map.index_opt(name)
                == maps.display.overwrite_map.index_opt(name)
            &&& after.builtin.index_opt(name) == maps.builtin.index_opt(name)
        }),
{
}

/// To put one option in is to put a map of that option alone in; to take it out is to
/// take such a map out.
pub proof fn law_one_option_is_a_small_policy(
    maps: SettingsMapsView,
    keys: &OptionKeys,
    name: Seq<char>,
    value: Seq<char>,
    allow_user_override: bool,
)
    requires
        keys.scope(name) is Some,
    ensures
        ({
            let scope = keys.scope(name).unwrap();
            let alone = Map::<Seq<char>, Seq<char>>::empty().insert(name, value);
            &&& maps.with_option(scope, name, value, allow_user_override) == maps.with_options(
                keys,
                alone,
                allow_user_override,
            )
            &&& maps.without_option(scope, name) == maps.without_options(keys, alone)
        }),
{
    let scope = keys.scope(name).unwrap();
    let alone = Map::<Seq<char>, Seq<char>>::empty().insert(name, value);
    assert(maps.with_option(scope, name, value, allow_user_override) =~= maps.with_options(
        keys,
        alone,
        allow_user_override,
    ));
    assert(maps.without_option(scope, name) =~= maps.without_options(keys, alone));
}

}
