//! What the host does to apply a policy, and in which order.
//!
//! The host does not save an option that an overwrite map holds. So the options
//! that the client needs to reach its server at the next start are written between
//! two changes of the settings maps: when the options of the last policy are out,
//! and before those of the new one are in.
use crate::keys::{
    ManagedOptionScope, OptionKeys, OPTION_ALLOW_INSECURE_TLS_FALLBACK, OPTION_API_SERVER,
    OPTION_NEMO_AB_VERSION, OPTION_NEMO_API_CERT_FINGERPRINT, OPTION_NEMO_BLOCKED_IDS,
    OPTION_NEMO_PEER_KEYS, OPTION_NEMO_PERMANENT_PASSWORD, OPTION_NEMO_REQUIRE_ENCRYPTED_SESSION,
    OPTION_NEMO_REQUIRE_LOGIN,
};
use crate::maps::{
    apply_policy_options, clear_policy_maps, in_scope, law_clearing_takes_every_option_out,
    law_other_options_are_untouched, law_policy_sets_every_option, map_options, SettingsMaps,
    SettingsMapsView,
};
use crate::options::OptionMap;
use crate::policy::{
    law_stored_options_one_by_one, policy_for_storage, without_secrets, ManagementPolicy,
};
use crate::sync::{option_write, OptionWrite};
use crate::text::{is_white_space, law_blank_text_is_white_space, trim, trimmed};
use vstd::prelude::*;

verus! {

/// A new password for incoming connections.
pub struct PasswordChange {
    pub password: String,
    /// Whether this process sets it; if not, it asks the server process to.
    pub in_process: bool,
}

/// One thing that the host does.
pub enum HostAction {
    /// Takes the options of the last policy out of the settings maps.
    ClearMaps,
    /// Puts the options of the new policy into the settings maps.
    FillMaps,
    /// Writes an option.
    Write(OptionWrite),
    SetPassword(PasswordChange),
    /// Stores the policy as the last one that was applied.
    StorePolicy(ManagementPolicy),
    /// Tells the user interface that options changed.
    RefreshOptions,
}

/// What a [`HostAction`] says.
pub enum HostActionView {
    ClearMaps,
    FillMaps,
    Write { name: Seq<char>, value: Seq<char> },
    SetPassword { password: Seq<char>, in_process: bool },
    StorePolicy { allow_user_override: bool, options: Map<Seq<char>, Seq<char>> },
    RefreshOptions,
}

impl View for HostAction {
    type V = HostActionView;

    open spec fn view(&self) -> HostActionView {
        match self {
            HostAction::ClearMaps => HostActionView::ClearMaps,
            HostAction::FillMaps => HostActionView::FillMaps,
            HostAction::Write(write) => HostActionView::Write {
                name: write.name@,
                value: write.value@,
            },
            HostAction::SetPassword(change) => HostActionView::SetPassword {
                password: change.password@,
                in_process: change.in_process,
            },
            HostAction::StorePolicy(policy) => HostActionView::StorePolicy {
                allow_user_override: policy.allow_user_override,
                options: policy.options@,
            },
            HostAction::RefreshOptions => HostActionView::RefreshOptions,
        }
    }
}

/// What the actions say, in order.
pub open spec fn actions_view(actions: Seq<HostAction>) -> Seq<HostActionView> {
    actions.map_values(|action: HostAction| action@)
}

/// The write of an option that is needed at the next start: none if the policy
/// does not name it or leaves it blank.
pub open spec fn startup_write(
    options: Map<Seq<char>, Seq<char>>,
    name: Seq<char>,
) -> Seq<HostActionView> {
    if options.contains_key(name) && trimmed(options[name]).len() > 0 {
        seq![HostActionView::Write { name, value: options[name] }]
    } else {
        Seq::empty()
    }
}

/// The write of an option that follows the policy: it is empty if the policy does
/// not name it.
pub open spec fn following_write(
    options: Map<Seq<char>, Seq<char>>,
    name: Seq<char>,
) -> Seq<HostActionView> {
    seq![
        HostActionView::Write {
            name,
            value: if options.contains_key(name) {
                options[name]
            } else {
                Seq::empty()
            },
        },
    ]
}

/// The change of the password that a policy asks for.
pub open spec fn password_change(
    options: Map<Seq<char>, Seq<char>>,
    in_process: bool,
) -> Seq<HostActionView> {
    if options.contains_key(OPTION_NEMO_PERMANENT_PASSWORD@) {
        seq![
            HostActionView::SetPassword {
                password: options[OPTION_NEMO_PERMANENT_PASSWORD@],
                in_process,
            },
        ]
    } else {
        Seq::empty()
    }
}

/// What is done between the two changes of the settings maps.
pub open spec fn actions_between(
    options: Map<Seq<char>, Seq<char>>,
    in_process: bool,
) -> Seq<HostActionView> {
    startup_write(options, OPTION_API_SERVER@) + startup_write(
        options,
        OPTION_ALLOW_INSECURE_TLS_FALLBACK@,
    ) + startup_write(options, OPTION_NEMO_API_CERT_FINGERPRINT@) + password_change(
        options,
        in_process,
    )
}

/// What is done after the changes of the settings maps.
pub open spec fn actions_after(
    keys: &OptionKeys,
    allow_user_override: bool,
    options: Map<Seq<char>, Seq<char>>,
) -> Seq<HostActionView> {
    seq![
        HostActionView::StorePolicy {
            allow_user_override,
            options: without_secrets(keys, options),
        },
    ] + following_write(options, OPTION_NEMO_REQUIRE_LOGIN@) + following_write(
        options,
        OPTION_NEMO_REQUIRE_ENCRYPTED_SESSION@,
    ) + following_write(options, OPTION_NEMO_AB_VERSION@) + following_write(
        options,
        OPTION_NEMO_BLOCKED_IDS@,
    ) + following_write(options, OPTION_NEMO_PEER_KEYS@) + seq![HostActionView::RefreshOptions]
}

/// All that is done to apply a policy.
pub open spec fn policy_actions(
    keys: &OptionKeys,
    allow_user_override: bool,
    options: Map<Seq<char>, Seq<char>>,
    in_process: bool,
) -> Seq<HostActionView> {
    seq![HostActionView::ClearMaps] + actions_between(options, in_process) + seq![
        HostActionView::FillMaps,
    ] + actions_after(keys, allow_user_override, options)
}

fn push_action(actions: &mut Vec<HostAction>, action: HostAction)
    ensures
        actions_view(final(actions)@) == actions_view(old(actions)@) + seq![action@],
{
    actions.push(action);
    assert(actions_view(actions@) =~= actions_view(old(actions)@) + seq![action@]);
}

fn append_actions(actions: &mut Vec<HostAction>, more: &mut Vec<HostAction>)
    ensures
        actions_view(final(actions)@) == actions_view(old(actions)@) + actions_view(old(more)@),
{
    actions.append(more);
    assert(actions_view(actions@) =~= actions_view(old(actions)@) + actions_view(old(more)@));
}

fn push_startup_write(actions: &mut Vec<HostAction>, options: &OptionMap, name: &str)
    ensures
        actions_view(final(actions)@) == actions_view(old(actions)@) + startup_write(
            options@,
            name@,
        ),
{
    if let Some(value) = options.get(name) {
        if !trim(value.as_str()).is_empty() {
            push_action(actions, HostAction::Write(option_write(name, value.as_str())));
            return;
        }
    }
    assert(actions_view(actions@) =~= actions_view(actions@) + startup_write(options@, name@));
}

fn push_following_write(actions: &mut Vec<HostAction>, options: &OptionMap, name: &str)
    ensures
        actions_view(final(actions)@) == actions_view(old(actions)@) + following_write(
            options@,
            name@,
        ),
{
    let value = match options.get(name) {
        Some(value) => value.clone(),
        None => String::new(),
    };
    push_action(actions, HostAction::Write(option_write(name, value.as_str())));
}

/// The change of the password that a policy asks for, if it asks for one.
pub fn apply_permanent_password(policy: &ManagementPolicy, is_server: bool) -> (r: Option<
    PasswordChange,
>)
    ensures
        match r {
            Some(change) => policy.options@.contains_pair(
                OPTION_NEMO_PERMANENT_PASSWORD@,
                change.password@,
            ) && change.in_process == is_server,
            None => !policy.options@.contains_key(OPTION_NEMO_PERMANENT_PASSWORD@),
        },
{
    match policy.options.get(OPTION_NEMO_PERMANENT_PASSWORD) {
        Some(password) => Some(
            PasswordChange { password: password.clone(), in_process: is_server },
        ),
        None => None,
    }
}

fn actions_between_maps(policy: &ManagementPolicy, is_server: bool) -> (r: Vec<HostAction>)
    ensures
        actions_view(r@) == actions_between(policy.options@, is_server),
{
    let options = &policy.options;
    let mut actions: Vec<HostAction> = Vec::new();
    push_startup_write(&mut actions, options, OPTION_API_SERVER);
    assert(actions_view(actions@) =~= startup_write(options@, OPTION_API_SERVER@));
    push_startup_write(&mut actions, options, OPTION_ALLOW_INSECURE_TLS_FALLBACK);
    push_startup_write(&mut actions, options, OPTION_NEMO_API_CERT_FINGERPRINT);
    let ghost before = actions_view(actions@);
    match apply_permanent_password(policy, is_server) {
        Some(change) => {
            push_action(&mut actions, HostAction::SetPassword(change));
        },
        None => {
            assert(before =~= before + password_change(options@, is_server));
        },
    }
    actions
}

fn actions_after_maps(keys: &OptionKeys, policy: &ManagementPolicy) -> (r: Vec<HostAction>)
    ensures
        actions_view(r@) == actions_after(keys, policy.allow_user_override, policy.options@),
{
    let options = &policy.options;
    let mut actions: Vec<HostAction> = Vec::new();
    let store = HostAction::StorePolicy(policy_for_storage(keys, policy));
    push_action(&mut actions, store);
    assert(actions_view(actions@) =~= seq![store@]);
    push_following_write(&mut actions, options, OPTION_NEMO_REQUIRE_LOGIN);
    push_following_write(&mut actions, options, OPTION_NEMO_REQUIRE_ENCRYPTED_SESSION);
    push_following_write(&mut actions, options, OPTION_NEMO_AB_VERSION);
    push_following_write(&mut actions, options, OPTION_NEMO_BLOCKED_IDS);
    push_following_write(&mut actions, options, OPTION_NEMO_PEER_KEYS);
    push_action(&mut actions, HostAction::RefreshOptions);
    actions
}

/// What the host does to apply a policy, in order. `is_server` says whether this
/// process is the one that serves incoming connections.
pub fn apply_policy(keys: &OptionKeys, policy: &ManagementPolicy, is_server: bool) -> (r: Vec<
    HostAction,
>)
    ensures
        actions_view(r@) == policy_actions(
            keys,
            policy.allow_user_override,
            policy.options@,
            is_server,
        ),
{
    let mut actions: Vec<HostAction> = Vec::new();
    let mut between = actions_between_maps(policy, is_server);
    let mut after = actions_after_maps(keys, policy);
    push_action(&mut actions, HostAction::ClearMaps);
    append_actions(&mut actions, &mut between);
    push_action(&mut actions, HostAction::FillMaps);
    append_actions(&mut actions, &mut after);
    proof {
        let clear = seq![HostActionView::ClearMaps];
        assert(actions_view(Seq::<HostAction>::empty()) + clear =~= clear);
    }
    actions
}

/// What an action makes of the settings maps.
pub open spec fn maps_after_action(
    maps: SettingsMapsView,
    keys: &OptionKeys,
    previous: ManagementPolicy,
    policy: ManagementPolicy,
    action: HostActionView,
) -> SettingsMapsView {
    match action {
        HostActionView::ClearMaps => maps.without_options(keys, previous.options@),
        HostActionView::FillMaps => maps.with_options(
            keys,
            map_options(policy.options@),
            policy.allow_user_override,
        ),
        _ => maps,
    }
}

/// What a row of actions makes of the settings maps.
pub open spec fn maps_after(
    maps: SettingsMapsView,
    keys: &OptionKeys,
    previous: ManagementPolicy,
    policy: ManagementPolicy,
    actions: Seq<HostActionView>,
) -> SettingsMapsView
    decreases actions.len(),
{
    if actions.len() == 0 {
        maps
    } else {
        maps_after_action(
            maps_after(maps, keys, previous, policy, actions.drop_last()),
            keys,
            previous,
            policy,
            actions.last(),
        )
    }
}

/// Does an action's part on the settings maps.
pub fn perform_on_maps(
    action: &HostAction,
    maps: &mut SettingsMaps,
    keys: &OptionKeys,
    previous: &ManagementPolicy,
    policy: &ManagementPolicy,
)
    ensures
        final(maps)@ == maps_after_action(old(maps)@, keys, *previous, *policy, action@),
{
    match action {
        HostAction::ClearMaps => {
            clear_policy_maps(maps, keys, previous);
        },
        HostAction::FillMaps => {
            apply_policy_options(maps, keys, policy);
        },
        _ => {},
    }
}

/// Whether no action of a row touches the settings maps.
spec fn quiet(actions: Seq<HostActionView>) -> bool {
    forall|i: int|
        0 <= i < actions.len() ==> !(#[trigger] actions[i] is ClearMaps) && !(actions[i] is FillMaps)
}

proof fn lemma_quiet_tail(
    maps: SettingsMapsView,
    keys: &OptionKeys,
    previous: ManagementPolicy,
    policy: ManagementPolicy,
    head: Seq<HostActionView>,
    tail: Seq<HostActionView>,
)
    requires
        quiet(tail),
    ensures
        maps_after(maps, keys, previous, policy, head + tail) == maps_after(
            maps,
            keys,
            previous,
            policy,
            head,
        ),
    decreases tail.len(),
{
    if tail.len() == 0 {
        assert(head + tail =~= head);
    } else {
        assert((head + tail).drop_last() =~= head + tail.drop_last());
        assert((head + tail).last() == tail.last());
        assert(!(tail[tail.len() - 1] is ClearMaps) && !(tail[tail.len() - 1] is FillMaps));
        assert(quiet(tail.drop_last())) by {
            assert forall|i: int| 0 <= i < tail.drop_last().len() implies !(
            #[trigger] tail.drop_last()[i] is ClearMaps) && !(
            tail.drop_last()[i] is FillMaps) by {
                assert(tail.drop_last()[i] == tail[i]);
            }
        }
        lemma_quiet_tail(maps, keys, previous, policy, head, tail.drop_last());
    }
}

proof fn lemma_maps_cleared(
    maps: SettingsMapsView,
    keys: &OptionKeys,
    previous: ManagementPolicy,
    policy: ManagementPolicy,
    tail: Seq<HostActionView>,
)
    requires
        quiet(tail),
    ensures
        maps_after(maps, keys, previous, policy, seq![HostActionView::ClearMaps] + tail)
            == maps.without_options(keys, previous.options@),
{
    let head = seq![HostActionView::ClearMaps];
    lemma_quiet_tail(maps, keys, previous, policy, head, tail);
    assert(head.drop_last() =~= Seq::empty());
    assert(maps_after(maps, keys, previous, policy, head.drop_last()) == maps);
}

/// Once a policy is applied, the settings maps are those from before without the
/// options of the last policy and with those of the new one.
pub proof fn law_maps_follow_policy(
    maps: SettingsMapsView,
    keys: &OptionKeys,
    previous: ManagementPolicy,
    policy: ManagementPolicy,
    is_server: bool,
)
    ensures
        maps_after(
            maps,
            keys,
            previous,
            policy,
            policy_actions(keys, policy.allow_user_override, policy.options@, is_server),
        ) == maps.without_options(keys, previous.options@).with_options(
            keys,
            map_options(policy.options@),
            policy.allow_user_override,
        ),
{
    let between = actions_between(policy.options@, is_server);
    let after = actions_after(keys, policy.allow_user_override, policy.options@);
    let first = seq![HostActionView::ClearMaps] + between;
    let filled = first + seq![HostActionView::FillMaps];
    lemma_maps_cleared(maps, keys, previous, policy, between);
    assert(filled.drop_last() =~= first);
    lemma_quiet_tail(maps, keys, previous, policy, filled, after);
}

/// Whether an option is needed to reach the server at the next start.
pub open spec fn is_startup_option(name: Seq<char>) -> bool {
    ||| name == OPTION_API_SERVER@
    ||| name == OPTION_ALLOW_INSECURE_TLS_FALLBACK@
    ||| name == OPTION_NEMO_API_CERT_FINGERPRINT@
}

/// When an option is written that is needed at the next start, the last policy has
/// left the settings maps and the new one has not entered them. So the last policy
/// does not keep the option from being saved.
pub proof fn law_startup_options_can_be_saved(
    maps: SettingsMapsView,
    keys: &OptionKeys,
    previous: ManagementPolicy,
    policy: ManagementPolicy,
    is_server: bool,
    i: int,
)
    requires
        0 <= i < policy_actions(
            keys,
            policy.allow_user_override,
            policy.options@,
            is_server,
        ).len(),
        policy_actions(
            keys,
            policy.allow_user_override,
            policy.options@,
            is_server,
        )[i] matches HostActionView::Write { name, .. } && is_startup_option(name),
    ensures
        ({
            let actions = policy_actions(
                keys,
                policy.allow_user_override,
                policy.options@,
                is_server,
            );
            let then = maps_after(maps, keys, previous, policy, actions.take(i));
            &&& then == maps.without_options(keys, previous.options@)
            &&& forall|scope| #[trigger]
                keys.scope(actions[i]->name) == Some(scope) && previous.options@.contains_key(
                    actions[i]->name,
                ) ==> then.lacks(scope, actions[i]->name)
        }),
{
    let actions = policy_actions(keys, policy.allow_user_override, policy.options@, is_server);
    let between = actions_between(policy.options@, is_server);
    let name = actions[i]->name;
    reveal_strlit("api-server");
    reveal_strlit("allow-insecure-tls-fallback");
    reveal_strlit("nemo-api-cert-fingerprint");
    reveal_strlit("nemo-require-login");
    reveal_strlit("nemo-require-encrypted-session");
    reveal_strlit("nemo-ab-version");
    reveal_strlit("nemo-blocked-ids");
    reveal_strlit("nemo-peer-keys");
    assert(1 <= i <= between.len()) by {
        if i > between.len() + 1 {
            let after = actions_after(keys, policy.allow_user_override, policy.options@);
            assert(actions[i] == after[i - between.len() - 2]);
            assert(name.len() != 10 && name.len() != 27 && name.len() != 25);
        }
    }
    assert(actions.take(i) =~= seq![HostActionView::ClearMaps] + between.take(i - 1));
    assert(quiet(between.take(i - 1)));
    lemma_maps_cleared(maps, keys, previous, policy, between.take(i - 1));
    assert forall|scope| #[trigger]
        keys.scope(name) == Some(scope) && previous.options@.contains_key(
            name,
        ) implies maps.without_options(keys, previous.options@).lacks(scope, name) by {
        assert(in_scope(keys, previous.options@, scope).contains_key(name));
    }
}

/// How many writes a startup option asks for: one, or none if it is missing or blank.
spec fn startup_count(options: Map<Seq<char>, Seq<char>>, name: Seq<char>) -> int {
    if options.contains_key(name) && exists|j: int|
        0 <= j < options[name].len() && !is_white_space(#[trigger] options[name][j]) {
        1
    } else {
        0
    }
}

proof fn lemma_startup_write(options: Map<Seq<char>, Seq<char>>, name: Seq<char>)
    ensures
        startup_write(options, name).len() == startup_count(options, name),
        startup_count(options, name) == 1 ==> startup_write(options, name)[0]
            == (HostActionView::Write { name, value: options[name] }),
{
    law_blank_text_is_white_space(options[name]);
}

/// Where the maps are filled.
spec fn fill_at(options: Map<Seq<char>, Seq<char>>) -> int {
    1 + startup_count(options, "api-server"@) + startup_count(
        options,
        "allow-insecure-tls-fallback"@,
    ) + startup_count(options, "nemo-api-cert-fingerprint"@) + if options.contains_key(
        "nemo-permanent-password"@,
    ) {
        1int
    } else {
        0int
    }
}

/// Whether the actions are those of a policy, one by one. The settings maps are cleared
/// first. Then come the options that the next start needs, each if it is named and not
/// blank, and the password if there is one. Then the maps are filled, the policy is
/// stored, five options follow the policy and the user interface is told. There is
/// nothing else.
spec fn is_row(
    actions: Seq<HostActionView>,
    keys: &OptionKeys,
    allow_user_override: bool,
    options: Map<Seq<char>, Seq<char>>,
    is_server: bool,
) -> bool {
    let server = startup_count(options, "api-server"@);
    let fallback = startup_count(options, "allow-insecure-tls-fallback"@);
    let pin = startup_count(options, "nemo-api-cert-fingerprint"@);
    let fill = fill_at(options);
    &&& actions.len() == fill + 8
    &&& actions[0] == HostActionView::ClearMaps
    &&& server == 1 ==> actions[1] == (HostActionView::Write {
        name: "api-server"@,
        value: options["api-server"@],
    })
    &&& fallback == 1 ==> actions[1 + server] == (HostActionView::Write {
        name: "allow-insecure-tls-fallback"@,
        value: options["allow-insecure-tls-fallback"@],
    })
    &&& pin == 1 ==> actions[1 + server + fallback] == (HostActionView::Write {
        name: "nemo-api-cert-fingerprint"@,
        value: options["nemo-api-cert-fingerprint"@],
    })
    &&& options.contains_key("nemo-permanent-password"@) ==> actions[fill - 1] == (
    HostActionView::SetPassword {
        password: options["nemo-permanent-password"@],
        in_process: is_server,
    })
    &&& actions[fill] == HostActionView::FillMaps
    &&& actions[fill + 1] == (HostActionView::StorePolicy {
        allow_user_override,
        options: without_secrets(keys, options),
    })
    &&& actions[fill + 2] == (HostActionView::Write {
        name: "nemo-require-login"@,
        value: value_or_empty(options, "nemo-require-login"@),
    })
    &&& actions[fill + 3] == (HostActionView::Write {
        name: "nemo-require-encrypted-session"@,
        value: value_or_empty(options, "nemo-require-encrypted-session"@),
    })
    &&& actions[fill + 4] == (HostActionView::Write {
        name: "nemo-ab-version"@,
        value: value_or_empty(options, "nemo-ab-version"@),
    })
    &&& actions[fill + 5] == (HostActionView::Write {
        name: "nemo-blocked-ids"@,
        value: value_or_empty(options, "nemo-blocked-ids"@),
    })
    &&& actions[fill + 6] == (HostActionView::Write {
        name: "nemo-peer-keys"@,
        value: value_or_empty(options, "nemo-peer-keys"@),
    })
    &&& actions[fill + 7] == HostActionView::RefreshOptions
}

proof fn lemma_actions_one_by_one(
    keys: &OptionKeys,
    allow_user_override: bool,
    options: Map<Seq<char>, Seq<char>>,
    is_server: bool,
)
    ensures
        is_row(
            policy_actions(keys, allow_user_override, options, is_server),
            keys,
            allow_user_override,
            options,
            is_server,
        ),
{
    let actions = policy_actions(keys, allow_user_override, options, is_server);
    let between = actions_between(options, is_server);
    let after = actions_after(keys, allow_user_override, options);
    lemma_startup_write(options, "api-server"@);
    lemma_startup_write(options, "allow-insecure-tls-fallback"@);
    lemma_startup_write(options, "nemo-api-cert-fingerprint"@);
    let fill = 1 + between.len() as int;
    assert(actions.len() == fill + 1 + after.len());
    assert(after.len() == 7);
    let server = startup_count(options, "api-server"@);
    let fallback = startup_count(options, "allow-insecure-tls-fallback"@);
    let pin = startup_count(options, "nemo-api-cert-fingerprint"@);
    if server == 1 {
        assert(actions[1] == between[0]);
    }
    if fallback == 1 {
        assert(actions[1 + server] == between[server]);
    }
    if pin == 1 {
        assert(actions[1 + (server + fallback)] == between[server + fallback]);
    }
    if options.contains_key("nemo-permanent-password"@) {
        assert(actions[1 + (between.len() - 1)] == between[between.len() - 1]);
    }
    assert(actions[fill + 1 + 0] == after[0]);
    assert(actions[fill + 1 + 1] == after[1]);
    assert(actions[fill + 1 + 2] == after[2]);
    assert(actions[fill + 1 + 3] == after[3]);
    assert(actions[fill + 1 + 4] == after[4]);
    assert(actions[fill + 1 + 5] == after[5]);
    assert(actions[fill + 1 + 6] == after[6]);
}

/// Where an option is written, if it is.
spec fn place(options: Map<Seq<char>, Seq<char>>, name: Seq<char>) -> int {
    let server = startup_count(options, "api-server"@);
    let fallback = startup_count(options, "allow-insecure-tls-fallback"@);
    let fill = fill_at(options);
    if name == "api-server"@ {
        1
    } else if name == "allow-insecure-tls-fallback"@ {
        1 + server
    } else if name == "nemo-api-cert-fingerprint"@ {
        1 + server + fallback
    } else if name == "nemo-require-login"@ {
        fill + 2
    } else if name == "nemo-require-encrypted-session"@ {
        fill + 3
    } else if name == "nemo-ab-version"@ {
        fill + 4
    } else if name == "nemo-blocked-ids"@ {
        fill + 5
    } else {
        fill + 6
    }
}

/// Whether an option is one of the five that follow every policy.
spec fn is_flag(name: Seq<char>) -> bool {
    ||| name == "nemo-require-login"@
    ||| name == "nemo-require-encrypted-session"@
    ||| name == "nemo-ab-version"@
    ||| name == "nemo-blocked-ids"@
    ||| name == "nemo-peer-keys"@
}

/// No two of the options that are written have the same name.
proof fn lemma_names_differ()
    ensures
        "api-server"@.len() == 10,
        "allow-insecure-tls-fallback"@.len() == 27,
        "nemo-api-cert-fingerprint"@.len() == 25,
        "nemo-require-login"@.len() == 18,
        "nemo-require-encrypted-session"@.len() == 30,
        "nemo-ab-version"@.len() == 15,
        "nemo-blocked-ids"@.len() == 16,
        "nemo-peer-keys"@.len() == 14,
{
    reveal_strlit("api-server");
    reveal_strlit("allow-insecure-tls-fallback");
    reveal_strlit("nemo-api-cert-fingerprint");
    reveal_strlit("nemo-require-login");
    reveal_strlit("nemo-require-encrypted-session");
    reveal_strlit("nemo-ab-version");
    reveal_strlit("nemo-blocked-ids");
    reveal_strlit("nemo-peer-keys");
}

proof fn lemma_row_at(
    actions: Seq<HostActionView>,
    keys: &OptionKeys,
    allow_user_override: bool,
    options: Map<Seq<char>, Seq<char>>,
    is_server: bool,
    i: int,
)
    requires
        is_row(actions, keys, allow_user_override, options, is_server),
        0 <= i < actions.len(),
    ensures
        actions[i] is ClearMaps <==> i == 0,
        actions[i] is FillMaps <==> i == fill_at(options),
        actions[i] is StorePolicy <==> i == fill_at(options) + 1,
        actions[i] is RefreshOptions <==> i == fill_at(options) + 7,
        actions[i] is SetPassword <==> options.contains_key("nemo-permanent-password"@) && i
            == fill_at(options) - 1,
        actions[i] matches HostActionView::Write { name, value } ==> {
            &&& i == place(options, name)
            &&& is_startup_name(name) || is_flag(name)
            &&& is_startup_name(name) ==> startup_count(options, name) == 1 && value
                == options[name]
            &&& is_flag(name) ==> value == value_or_empty(options, name)
        },
{
    lemma_names_differ();
    let server = startup_count(options, "api-server"@);
    let fallback = startup_count(options, "allow-insecure-tls-fallback"@);
    let pin = startup_count(options, "nemo-api-cert-fingerprint"@);
    let fill = fill_at(options);
    if i == 0 {
    } else if i == fill {
    } else if i == fill + 1 {
    } else if i == fill + 2 {
        assert(actions[i]->name == "nemo-require-login"@);
    } else if i == fill + 3 {
        assert(actions[i]->name == "nemo-require-encrypted-session"@);
    } else if i == fill + 4 {
        assert(actions[i]->name == "nemo-ab-version"@);
    } else if i == fill + 5 {
        assert(actions[i]->name == "nemo-blocked-ids"@);
    } else if i == fill + 6 {
        assert(actions[i]->name == "nemo-peer-keys"@);
    } else if i == fill + 7 {
    } else if server == 1 && i == 1 {
        assert(actions[i]->name == "api-server"@);
    } else if fallback == 1 && i == 1 + server {
        assert(actions[i]->name == "allow-insecure-tls-fallback"@);
    } else if pin == 1 && i == 1 + server + fallback {
        assert(actions[i]->name == "nemo-api-cert-fingerprint"@);
    } else {
        assert(i == fill - 1 && actions[i] is SetPassword);
    }
}

/// Whether an option is needed to reach the server at the next start.
spec fn is_startup_name(name: Seq<char>) -> bool {
    ||| name == "api-server"@
    ||| name == "allow-insecure-tls-fallback"@
    ||| name == "nemo-api-cert-fingerprint"@
}

/// The value of an option, empty if it is not set.
spec fn value_or_empty(options: Map<Seq<char>, Seq<char>>, name: Seq<char>) -> Seq<char> {
    if options.contains_key(name) {
        options[name]
    } else {
        Seq::empty()
    }
}

/// The three options without which the client does not reach its server at the next
/// start are saved: each that the policy names, and that is not blank, is written as
/// the policy has it, after the maps are cleared and before they are filled.
pub proof fn law_startup_options_are_saved(
    keys: &OptionKeys,
    policy: ManagementPolicy,
    is_server: bool,
    name: Seq<char>,
    j: int,
)
    requires
        name == "api-server"@ || name == "allow-insecure-tls-fallback"@ || name
            == "nemo-api-cert-fingerprint"@,
        policy.options@.contains_key(name),
        0 <= j < policy.options@[name].len(),
        !is_white_space(policy.options@[name][j]),
    ensures
        ({
            let actions = policy_actions(
                keys,
                policy.allow_user_override,
                policy.options@,
                is_server,
            );
            &&& actions[0] is ClearMaps
            &&& exists|at: int, fill: int|
                0 < at < fill < actions.len() && #[trigger] actions[at] == (HostActionView::Write {
                    name,
                    value: policy.options@[name],
                }) && (#[trigger] actions[fill]) is FillMaps
        }),
{
    let options = policy.options@;
    let actions = policy_actions(keys, policy.allow_user_override, options, is_server);
    lemma_actions_one_by_one(keys, policy.allow_user_override, options, is_server);
    assert(!is_white_space(options[name][j]));
    assert(startup_count(options, name) == 1);
    let fill = fill_at(options);
    let at = place(options, name);
    assert(actions[at] == (HostActionView::Write { name, value: options[name] }));
    assert(actions[fill] is FillMaps);
}

/// What is written follows from the policy. An option that the next start needs is
/// written with the value of the policy, and only if that is not blank; each of five
/// others is written with the value of the policy, or empty; no other option is
/// written, and none twice.
pub proof fn law_writes_follow_policy(
    keys: &OptionKeys,
    policy: ManagementPolicy,
    is_server: bool,
    i: int,
)
    requires
        0 <= i < policy_actions(
            keys,
            policy.allow_user_override,
            policy.options@,
            is_server,
        ).len(),
    ensures
        ({
            let options = policy.options@;
            let actions = policy_actions(
                keys,
                policy.allow_user_override,
                options,
                is_server,
            );
            actions[i] matches HostActionView::Write { name, value } ==> {
                &&& name == "api-server"@ || name == "allow-insecure-tls-fallback"@ || name
                    == "nemo-api-cert-fingerprint"@ ==> options.contains_pair(name, value)
                    && exists|j: int| 0 <= j < value.len() && !is_white_space(#[trigger] value[j])
                &&& name == "api-server"@ || name == "allow-insecure-tls-fallback"@ || name
                    == "nemo-api-cert-fingerprint"@ || name == "nemo-require-login"@ || name
                    == "nemo-require-encrypted-session"@ || name == "nemo-ab-version"@ || name
                    == "nemo-blocked-ids"@ || name == "nemo-peer-keys"@
                &&& options.contains_key(name) ==> value == options[name]
                &&& !options.contains_key(name) ==> value.len() == 0
                &&& forall|k: int|
                    0 <= k < actions.len() && (#[trigger] actions[k] matches HostActionView::Write {
                        name: other,
                        ..
                    } && other == name) ==> k == i
            }
        }),
{
    let options = policy.options@;
    let actions = policy_actions(keys, policy.allow_user_override, options, is_server);
    lemma_actions_one_by_one(keys, policy.allow_user_override, options, is_server);
    lemma_row_at(actions, keys, policy.allow_user_override, options, is_server, i);
    if let HostActionView::Write { name, value } = actions[i] {
        if is_startup_name(name) {
            let j = choose|j: int|
                0 <= j < options[name].len() && !is_white_space(#[trigger] options[name][j]);
            assert(!is_white_space(value[j]));
        }
        assert forall|k: int|
            0 <= k < actions.len() && (#[trigger] actions[k] matches HostActionView::Write {
                name: other,
                ..
            } && other == name) implies k == i by {
            lemma_row_at(actions, keys, policy.allow_user_override, options, is_server, k);
        }
    }
}

/// Five options follow the policy: each is written after the policy is stored, with
/// the value of the policy, or empty if the policy does not name it.
pub proof fn law_flags_follow_policy(
    keys: &OptionKeys,
    policy: ManagementPolicy,
    is_server: bool,
    name: Seq<char>,
)
    requires
        name == "nemo-require-login"@ || name == "nemo-require-encrypted-session"@ || name
            == "nemo-ab-version"@ || name == "nemo-blocked-ids"@ || name == "nemo-peer-keys"@,
    ensures
        ({
            let options = policy.options@;
            let actions = policy_actions(
                keys,
                policy.allow_user_override,
                options,
                is_server,
            );
            exists|store: int, at: int|
                0 <= store < at < actions.len() && (#[trigger] actions[store]) is StorePolicy && (
                #[trigger] actions[at] matches HostActionView::Write { name: written, value }
                    && written == name && value == (if options.contains_key(name) {
                    options[name]
                } else {
                    Seq::empty()
                }))
        }),
{
    let options = policy.options@;
    let actions = policy_actions(keys, policy.allow_user_override, options, is_server);
    lemma_actions_one_by_one(keys, policy.allow_user_override, options, is_server);
    lemma_names_differ();
    assert(actions[fill_at(options) + 1] is StorePolicy);
    let at = place(options, name);
    assert(actions[at] matches HostActionView::Write { name: written, .. } && written == name);
}

/// The password is set once if the policy names one, with the value of the policy and
/// before the maps are filled, and is left alone otherwise.
pub proof fn law_password_follows_policy(
    keys: &OptionKeys,
    policy: ManagementPolicy,
    is_server: bool,
)
    ensures
        ({
            let options = policy.options@;
            let actions = policy_actions(
                keys,
                policy.allow_user_override,
                options,
                is_server,
            );
            let name = "nemo-permanent-password"@;
            &&& options.contains_key(name) ==> exists|at: int, fill: int|
                0 < at < fill < actions.len() && #[trigger] actions[at] == (
                HostActionView::SetPassword { password: options[name], in_process: is_server }) && (
                #[trigger] actions[fill]) is FillMaps
            &&& forall|i: int, k: int|
                0 <= i < k < actions.len() ==> !((#[trigger] actions[i]) is SetPassword && (
                #[trigger] actions[k]) is SetPassword)
            &&& !options.contains_key(name) ==> forall|i: int|
                0 <= i < actions.len() ==> !((#[trigger] actions[i]) is SetPassword)
        }),
{
    let options = policy.options@;
    let actions = policy_actions(keys, policy.allow_user_override, options, is_server);
    lemma_actions_one_by_one(keys, policy.allow_user_override, options, is_server);
    let fill = fill_at(options);
    assert(actions[fill] is FillMaps);
    if options.contains_key("nemo-permanent-password"@) {
        assert(actions[fill - 1] is SetPassword);
    }
    assert forall|i: int|
        0 <= i < actions.len() && (#[trigger] actions[i]) is SetPassword implies i == fill - 1
        && options.contains_key("nemo-permanent-password"@) by {
        lemma_row_at(actions, keys, policy.allow_user_override, options, is_server, i);
    }
}

/// The maps are cleared first of all and filled once; then the policy is stored, with
/// every option under its name and a placeholder for each password; and last of all
/// the user interface is told.
pub proof fn law_policy_is_applied_in_order(
    keys: &OptionKeys,
    policy: ManagementPolicy,
    is_server: bool,
)
    ensures
        ({
            let actions = policy_actions(
                keys,
                policy.allow_user_override,
                policy.options@,
                is_server,
            );
            &&& actions.len() > 0
            &&& actions[0] is ClearMaps
            &&& actions.last() is RefreshOptions
            &&& forall|i: int|
                0 < i < actions.len() ==> !((#[trigger] actions[i]) is ClearMaps)
            &&& forall|i: int|
                0 <= i < actions.len() - 1 ==> !((#[trigger] actions[i]) is RefreshOptions)
            &&& exists|fill: int|
                0 < fill < actions.len() - 2 && (#[trigger] actions[fill]) is FillMaps
                    && actions[fill + 1] is StorePolicy && forall|i: int|
                    0 <= i < actions.len() ==> ((#[trigger] actions[i]) is FillMaps <==> i == fill)
                        && (actions[i] is StorePolicy <==> i == fill + 1)
            &&& forall|i: int|
                0 <= i < actions.len() ==> (
                #[trigger] actions[i] matches HostActionView::StorePolicy {
                    allow_user_override,
                    options,
                } ==> allow_user_override == policy.allow_user_override && (forall|
                    name: Seq<char>,
                | #[trigger]
                    options.contains_key(name) <==> policy.options@.contains_key(name)) && (forall|
                    name: Seq<char>,
                | #[trigger]
                    options.contains_key(name) ==> options[name] == (if name
                        == "nemo-permanent-password"@ || name == keys.default_connect_password@
                        || name == keys.proxy_password@ || name
                        == keys.preset_address_book_password@ {
                        "<managed-secret>"@
                    } else {
                        policy.options@[name]
                    })))
        }),
{
    let options = policy.options@;
    let actions = policy_actions(keys, policy.allow_user_override, options, is_server);
    lemma_actions_one_by_one(keys, policy.allow_user_override, options, is_server);
    let fill = fill_at(options);
    assert forall|i: int| 0 <= i < actions.len() implies ((#[trigger] actions[i]) is ClearMaps
        <==> i == 0) && (actions[i] is FillMaps <==> i == fill) && (actions[i] is StorePolicy <==> i
        == fill + 1) && (actions[i] is RefreshOptions <==> i == fill + 7) by {
        lemma_row_at(actions, keys, policy.allow_user_override, options, is_server, i);
    }
    assert(actions[fill] is FillMaps);
    let stored = without_secrets(keys, options);
    assert forall|name: Seq<char>| #[trigger] stored.contains_key(name) <==> options.contains_key(
        name,
    ) by {
        law_stored_options_one_by_one(keys, options, name);
    }
    assert forall|name: Seq<char>| #[trigger] stored.contains_key(name) implies stored[name] == (
    if name == "nemo-permanent-password"@ || name == keys.default_connect_password@ || name
        == keys.proxy_password@ || name == keys.preset_address_book_password@ {
        "<managed-secret>"@
    } else {
        options[name]
    }) by {
        law_stored_options_one_by_one(keys, options, name);
    }
}

/// Once a policy is applied, each of its options but the password has its value in the
/// maps of its scope, whatever the last policy was.
pub proof fn law_applied_policy_holds(
    maps: SettingsMapsView,
    keys: &OptionKeys,
    previous: ManagementPolicy,
    policy: ManagementPolicy,
    is_server: bool,
    name: Seq<char>,
)
    requires
        policy.options@.contains_key(name),
        name != "nemo-permanent-password"@,
        keys.scope(name) is Some,
    ensures
        ({
            let after = maps_after(
                maps,
                keys,
                previous,
                policy,
                policy_actions(keys, policy.allow_user_override, policy.options@, is_server),
            );
            let value = policy.options@[name];
            match keys.scope(name).unwrap() {
                ManagedOptionScope::Settings => if policy.allow_user_override {
                    &&& after.settings.default_map.contains_pair(name, value)
                    &&& !after.settings.overwrite_map.contains_key(name)
                } else {
                    &&& after.settings.overwrite_map.contains_pair(name, value)
                    &&& !after.settings.default_map.contains_key(name)
                },
                ManagedOptionScope::Local => if policy.allow_user_override {
                    &&& after.local.default_map.contains_pair(name, value)
                    &&& !after.local.overwrite_map.contains_key(name)
                } else {
                    &&& after.local.overwrite_map.contains_pair(name, value)
                    &&& !after.local.default_map.contains_key(name)
                },
                ManagedOptionScope::Display => if policy.allow_user_override {
                    &&& after.display.default_map.contains_pair(name, value)
                    &&& !after.display.overwrite_map.contains_key(name)
                } else {
                    &&& after.display.overwrite_map.contains_pair(name, value)
                    &&& !after.display.default_map.contains_key(name)
                },
                ManagedOptionScope::BuiltIn => after.builtin.contains_pair(name, value),
            }
        }),
{
    law_maps_follow_policy(maps, keys, previous, policy, is_server);
    law_policy_sets_every_option(
        maps.without_options(keys, previous.options@),
        keys,
        policy,
        name,
    );
}

/// Options that neither the last policy nor the new one names, and options of no scope,
/// are the same before and after a policy is applied.
pub proof fn law_applied_policy_leaves_other_options(
    maps: SettingsMapsView,
    keys: &OptionKeys,
    previous: ManagementPolicy,
    policy: ManagementPolicy,
    is_server: bool,
    name: Seq<char>,
)
    requires
        keys.scope(name) is None || (!previous.options@.contains_key(name)
            && !policy.options@.contains_key(name)),
    ensures
        maps_after(
            maps,
            keys,
            previous,
            policy,
            policy_actions(keys, policy.allow_user_override, policy.options@, is_server),
        ).agrees_on(maps, name),
{
    law_maps_follow_policy(maps, keys, previous, policy, is_server);
    let cleared = maps.without_options(keys, previous.options@);
    law_other_options_are_untouched(
        maps,
        keys,
        previous.options@,
        policy.allow_user_override,
        name,
    );
    law_other_options_are_untouched(
        cleared,
        keys,
        map_options(policy.options@),
        policy.allow_user_override,
        name,
    );
}

/// An option of the last policy that the new one does not name is in no map of its
/// scope once the new one is applied.
pub proof fn law_applied_policy_drops_old_options(
    maps: SettingsMapsView,
    keys: &OptionKeys,
    previous: ManagementPolicy,
    policy: ManagementPolicy,
    is_server: bool,
    name: Seq<char>,
)
    requires
        keys.scope(name) is Some,
        previous.options@.contains_key(name),
        !policy.options@.contains_key(name),
    ensures
        ({
            let after = maps_after(
                maps,
                keys,
                previous,
                policy,
                policy_actions(keys, policy.allow_user_override, policy.options@, is_server),
            );
            match keys.scope(name).unwrap() {
                ManagedOptionScope::Settings => !after.settings.default_map.contains_key(name)
                    && !after.settings.overwrite_map.contains_key(name),
                ManagedOptionScope::Local => !after.local.default_map.contains_key(name)
                    && !after.local.overwrite_map.contains_key(name),
                ManagedOptionScope::Display => !after.display.default_map.contains_key(name)
                    && !after.display.overwrite_map.contains_key(name),
                ManagedOptionScope::BuiltIn => !after.builtin.contains_key(name),
            }
        }),
{
    law_maps_follow_policy(maps, keys, previous, policy, is_server);
    law_clearing_takes_every_option_out(maps, keys, previous.options@, name);
}

/// What an action says is what the host finds in it.
pub proof fn law_action_says_what_it_holds(action: HostAction)
    ensures
        action@ is ClearMaps <==> action is ClearMaps,
        action@ is FillMaps <==> action is FillMaps,
        action@ is RefreshOptions <==> action is RefreshOptions,
        action@ is Write <==> action is Write,
        action matches HostAction::Write(write) ==> action@->name == write.name@ && action@->value
            == write.value@,
        action@ is SetPassword <==> action is SetPassword,
        action matches HostAction::SetPassword(change) ==> action@->password == change.password@
            && action@->in_process == change.in_process,
        action@ is StorePolicy <==> action is StorePolicy,
        action matches HostAction::StorePolicy(policy) ==> action@->options == policy.options@
            && action@->allow_user_override == policy.allow_user_override,
{
}

}
