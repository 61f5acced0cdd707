use nemo_management::apply::{apply_permanent_password, apply_policy, perform_on_maps, HostAction};
use nemo_management::keys::{option_scope, secret_policy_keys, ManagedOptionScope, OptionKeys};
use nemo_management::maps::{
    apply_policy_option, apply_policy_options, clear_policy_maps, clear_policy_option,
    policy_maps, ScopeMaps, SettingsMaps,
};
use nemo_management::options::OptionMap;
use nemo_management::policy::{policy_for_storage, previous_policy, ManagementPolicy};

fn names(list: &[&str]) -> Vec<String> {
    list.iter().map(|name| name.to_string()).collect()
}

fn keys() -> OptionKeys {
    OptionKeys {
        settings: names(&["enable-keyboard", "api-server", "both"]),
        local_settings: names(&["lang", "both"]),
        display_settings: names(&["view_style"]),
        builtin_settings: names(&["hide-tray", "view_style"]),
        default_connect_password: "default-connect-password".to_owned(),
        proxy_password: "proxy-password".to_owned(),
        preset_address_book_password: "preset-address-book-password".to_owned(),
    }
}

fn options(entries: &[(&str, &str)]) -> OptionMap {
    let mut map = OptionMap::new();
    for (name, value) in entries {
        map.insert(name, value);
    }
    map
}

fn policy(allow_user_override: bool, entries: &[(&str, &str)]) -> ManagementPolicy {
    ManagementPolicy { allow_user_override, options: options(entries) }
}

fn empty_scope() -> ScopeMaps {
    ScopeMaps { default_map: OptionMap::new(), overwrite_map: OptionMap::new() }
}

fn empty_maps() -> SettingsMaps {
    SettingsMaps {
        settings: empty_scope(),
        local: empty_scope(),
        display: empty_scope(),
        builtin: OptionMap::new(),
    }
}

fn value(map: &OptionMap, name: &str) -> Option<String> {
    map.get(name).cloned()
}

fn some(text: &str) -> Option<String> {
    Some(text.to_owned())
}

#[test]
fn option_map_holds_each_name_once() {
    let mut map = options(&[("a", "1"), ("b", "2"), ("a", "3")]);
    assert_eq!(map.len(), 2);
    assert_eq!(value(&map, "a"), some("3"));
    assert_eq!(value(&map, "b"), some("2"));
    assert_eq!(value(&map, "c"), None);
    let copy = map.clone();
    map.remove("a");
    map.remove("c");
    assert_eq!(map.len(), 1);
    assert!(!map.contains_key("a"));
    assert_eq!(copy.len(), 2);
    assert_eq!((map.name_at(0).as_str(), map.value_at(0).as_str()), ("b", "2"));
}

#[test]
fn first_list_decides_the_scope() {
    let keys = keys();
    assert_eq!(option_scope(&keys, "enable-keyboard"), Some(ManagedOptionScope::Settings));
    assert_eq!(option_scope(&keys, "both"), Some(ManagedOptionScope::Settings));
    assert_eq!(option_scope(&keys, "lang"), Some(ManagedOptionScope::Local));
    assert_eq!(option_scope(&keys, "view_style"), Some(ManagedOptionScope::Display));
    assert_eq!(option_scope(&keys, "hide-tray"), Some(ManagedOptionScope::BuiltIn));
    assert_eq!(option_scope(&keys, "unknown"), None);
}

#[test]
fn management_settings_are_managed() {
    let keys = keys();
    for name in [
        "nemo-management-enabled",
        "nemo-management-server",
        "nemo-management-public-key",
        "nemo-company-network-only",
        "nemo-outbound-enabled",
        "nemo-outbound-targets",
        "nemo-alias",
        "nemo-logged-in-user",
        "nemo-api-cert-fingerprint",
    ] {
        assert_eq!(option_scope(&keys, name), Some(ManagedOptionScope::Settings));
    }
    assert_eq!(option_scope(&keys, "nemo-require-login"), None);
    assert_eq!(option_scope(&keys, "nemo-permanent-password"), None);
}

#[test]
fn secrets_are_not_stored() {
    let keys = keys();
    assert_eq!(
        secret_policy_keys(&keys),
        names(&[
            "nemo-permanent-password",
            "default-connect-password",
            "proxy-password",
            "preset-address-book-password",
        ])
    );
    let stored = policy_for_storage(
        &keys,
        &policy(true, &[("nemo-permanent-password", "x"), ("proxy-password", "y"), ("lang", "de")]),
    );
    assert!(stored.allow_user_override);
    assert_eq!(stored.options.len(), 3);
    assert_eq!(value(&stored.options, "nemo-permanent-password"), some("<managed-secret>"));
    assert_eq!(value(&stored.options, "proxy-password"), some("<managed-secret>"));
    assert_eq!(value(&stored.options, "lang"), some("de"));
    assert_eq!(value(&stored.options, "default-connect-password"), None);
    let twice = policy_for_storage(&keys, &stored);
    assert_eq!(value(&twice.options, "proxy-password"), some("<managed-secret>"));
    assert_eq!(value(&twice.options, "lang"), some("de"));
}

#[test]
fn unreadable_policy_counts_as_none() {
    let none = previous_policy(None);
    assert!(!none.allow_user_override);
    assert_eq!(none.options.len(), 0);
    let some = previous_policy(Some(policy(true, &[("a", "1")])));
    assert!(some.allow_user_override);
    assert_eq!(some.options.len(), 1);
    assert_eq!(ManagementPolicy::default().options.len(), 0);
}

#[test]
fn option_goes_into_one_map_and_out_of_the_other() {
    let mut maps = empty_maps();
    apply_policy_option(&mut maps, ManagedOptionScope::Local, "lang", "de", false);
    assert_eq!(value(&maps.local.overwrite_map, "lang"), some("de"));
    assert_eq!(value(&maps.local.default_map, "lang"), None);
    apply_policy_option(&mut maps, ManagedOptionScope::Local, "lang", "fr", true);
    assert_eq!(value(&maps.local.overwrite_map, "lang"), None);
    assert_eq!(value(&maps.local.default_map, "lang"), some("fr"));
    clear_policy_option(&mut maps, ManagedOptionScope::Local, "lang");
    assert_eq!(maps.local.default_map.len(), 0);
    apply_policy_option(&mut maps, ManagedOptionScope::BuiltIn, "hide-tray", "Y", true);
    assert_eq!(value(&maps.builtin, "hide-tray"), some("Y"));
    clear_policy_option(&mut maps, ManagedOptionScope::BuiltIn, "hide-tray");
    assert_eq!(maps.builtin.len(), 0);
    policy_maps(&mut maps, ManagedOptionScope::Display).default_map.insert("a", "b");
    assert_eq!(value(&maps.display.default_map, "a"), some("b"));
}

#[test]
fn policy_locks_options_or_sets_defaults() {
    let keys = keys();
    let entries = [
        ("enable-keyboard", "N"),
        ("lang", "de"),
        ("view_style", "fit"),
        ("hide-tray", "Y"),
        ("unknown", "x"),
        ("nemo-permanent-password", "secret"),
    ];
    let mut maps = empty_maps();
    apply_policy_options(&mut maps, &keys, &policy(false, &entries));
    assert_eq!(value(&maps.settings.overwrite_map, "enable-keyboard"), some("N"));
    assert_eq!(value(&maps.local.overwrite_map, "lang"), some("de"));
    assert_eq!(value(&maps.display.overwrite_map, "view_style"), some("fit"));
    assert_eq!(value(&maps.builtin, "hide-tray"), some("Y"));
    assert_eq!(maps.settings.overwrite_map.len(), 1);
    assert_eq!(maps.settings.default_map.len(), 0);
    let mut maps = empty_maps();
    apply_policy_options(&mut maps, &keys, &policy(true, &entries));
    assert_eq!(value(&maps.settings.default_map, "enable-keyboard"), some("N"));
    assert_eq!(maps.settings.overwrite_map.len(), 0);
    assert_eq!(value(&maps.builtin, "hide-tray"), some("Y"));
}

#[test]
fn password_enters_no_map_even_if_listed() {
    let mut keys = keys();
    keys.settings.push("nemo-permanent-password".to_owned());
    let mut maps = empty_maps();
    apply_policy_options(&mut maps, &keys, &policy(false, &[("nemo-permanent-password", "s")]));
    assert_eq!(maps.settings.overwrite_map.len(), 0);
}

#[test]
fn clearing_undoes_applying() {
    let keys = keys();
    let p = policy(false, &[("enable-keyboard", "N"), ("lang", "de"), ("hide-tray", "Y")]);
    let mut maps = empty_maps();
    maps.settings.overwrite_map.insert("other", "kept");
    apply_policy_options(&mut maps, &keys, &p);
    clear_policy_maps(&mut maps, &keys, &policy_for_storage(&keys, &p));
    assert_eq!(maps.settings.overwrite_map.len(), 1);
    assert_eq!(value(&maps.settings.overwrite_map, "other"), some("kept"));
    assert_eq!(maps.local.overwrite_map.len(), 0);
    assert_eq!(maps.builtin.len(), 0);
}

fn spell(actions: &[HostAction]) -> Vec<String> {
    actions
        .iter()
        .map(|action| match action {
            HostAction::ClearMaps => "clear".to_owned(),
            HostAction::FillMaps => "fill".to_owned(),
            HostAction::Write(write) => format!("{}={}", write.name, write.value),
            HostAction::SetPassword(change) => {
                format!("password {} {}", change.password, change.in_process)
            }
            HostAction::StorePolicy(policy) => format!("store {}", policy.options.len()),
            HostAction::RefreshOptions => "refresh".to_owned(),
        })
        .collect()
}

#[test]
fn empty_policy_resets_what_follows_it() {
    let actions = apply_policy(&keys(), &policy(false, &[]), false);
    assert_eq!(
        spell(&actions),
        names(&[
            "clear",
            "fill",
            "store 0",
            "nemo-require-login=",
            "nemo-require-encrypted-session=",
            "nemo-ab-version=",
            "nemo-blocked-ids=",
            "nemo-peer-keys=",
            "refresh",
        ])
    );
}

#[test]
fn full_policy_is_applied_in_order() {
    let p = policy(
        false,
        &[
            ("nemo-peer-keys", "k"),
            ("nemo-blocked-ids", "1,2"),
            ("nemo-ab-version", "7"),
            ("nemo-require-encrypted-session", "Y"),
            ("nemo-require-login", "Y"),
            ("nemo-permanent-password", "pw"),
            ("nemo-api-cert-fingerprint", "ab"),
            ("allow-insecure-tls-fallback", " \t"),
            ("api-server", " https://a "),
        ],
    );
    let actions = apply_policy(&keys(), &p, true);
    assert_eq!(
        spell(&actions),
        names(&[
            "clear",
            "api-server= https://a ",
            "nemo-api-cert-fingerprint=ab",
            "password pw true",
            "fill",
            "store 9",
            "nemo-require-login=Y",
            "nemo-require-encrypted-session=Y",
            "nemo-ab-version=7",
            "nemo-blocked-ids=1,2",
            "nemo-peer-keys=k",
            "refresh",
        ])
    );
    for action in &actions {
        if let HostAction::StorePolicy(stored) = action {
            assert_eq!(value(&stored.options, "nemo-permanent-password"), some("<managed-secret>"));
        }
    }
}

#[test]
fn password_goes_through_the_right_process() {
    let p = policy(false, &[("nemo-permanent-password", "pw")]);
    let change = apply_permanent_password(&p, false).unwrap();
    assert_eq!((change.password.as_str(), change.in_process), ("pw", false));
    assert!(apply_permanent_password(&policy(false, &[]), true).is_none());
}

#[test]
fn startup_options_are_written_while_they_can_be_saved() {
    let keys = keys();
    let previous = policy(false, &[("api-server", "old"), ("lang", "de")]);
    let next = policy(false, &[("api-server", "new")]);
    let mut maps = empty_maps();
    apply_policy_options(&mut maps, &keys, &previous);
    let mut seen = 0;
    for action in apply_policy(&keys, &next, true) {
        perform_on_maps(&action, &mut maps, &keys, &previous, &next);
        if let HostAction::Write(write) = &action {
            if write.name == "api-server" {
                seen += 1;
                assert!(!maps.settings.overwrite_map.contains_key("api-server"));
            }
        }
    }
    assert_eq!(seen, 1);
    assert_eq!(value(&maps.settings.overwrite_map, "api-server"), some("new"));
    // The option that the new policy dropped is gone.
    assert_eq!(maps.local.overwrite_map.len(), 0);
}
