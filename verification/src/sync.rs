//! A poll, step by step.
//!
//! Each step takes what the step before it left, and what the host has done in
//! between: it sends the request, reads JSON and writes options.
use crate::crypto::{base64_text, is_sealed_text, sealing_key};
use crate::error::SyncError;
use crate::freshness::{
    check_policy_freshness, freshness_refusal, high_water_of, is_fresh,
    law_high_water_never_falls, policy_issued_ts_high_water, stored_after,
};
use crate::json::{json_object_text, JsonScalarView};
use crate::keys::{
    OPTION_NEMO_LOGGED_IN_USER, OPTION_NEMO_POLICY_ISSUED_TS, OPTION_NEMO_POLICY_SEAL_SEEN,
    OPTION_NEMO_REQUIRE_LOGIN,
};
use crate::payload::{
    is_verdict, reads_genuine_policy, verified_payload, ClientPolicyPayload, ClientPolicyResponse,
    DeviceKeys, VerifiedPayload,
};
use crate::request::{
    is_request, law_device_key_is_shown, law_session_token_is_sent, policy_request, policy_url,
    policy_url_of, poll_headers, poll_headers_text, token_too_long, ClientPolicyRequestView,
    PollInputs,
};
use crate::text::{decimal, decimal_text, same_text, trim, trimmed};
use vstd::prelude::*;
use vstd::utf8::encode_utf8;

verus! {

/// How long the client waits before its first poll, in seconds.
pub const POLL_INITIAL_DELAY_SECS: u64 = 10;

/// How long the client waits between two polls, in seconds.
pub const POLL_INTERVAL_SECS: u64 = 30;

/// Whether the client polls at all: it is switched on and knows a server.
pub fn management_enabled(enabled: &str, server: &str) -> (r: bool)
    ensures
        r == (enabled@ == "Y"@ && trimmed(server@).len() > 0),
{
    same_text(enabled, "Y") && !trim(server).is_empty()
}

/// An option that the host has to write.
pub struct OptionWrite {
    pub name: String,
    pub value: String,
}

impl View for OptionWrite {
    type V = (Seq<char>, Seq<char>);

    open spec fn view(&self) -> (Seq<char>, Seq<char>) {
        (self.name@, self.value@)
    }
}

/// What a write that may be missing says.
pub open spec fn write_view(write: Option<OptionWrite>) -> Option<(Seq<char>, Seq<char>)> {
    match write {
        Some(write) => Some(write@),
        None => None,
    }
}

/// An option that the host has to write.
pub fn option_write(name: &str, value: &str) -> (r: OptionWrite)
    ensures
        r@ == (name@, value@),
        r.name@ == name@,
        r.value@ == value@,
{
    OptionWrite { name: name.to_owned(), value: value.to_owned() }
}

/// A poll that the host has to send.
pub struct StartedPoll {
    pub url: String,
    pub method: String,
    pub body: String,
    pub headers: String,
    /// What the answer is held against.
    pub poll: Poll,
}

/// What the answer to a poll is held against.
pub struct Poll {
    pub id: String,
    /// The session token of the poll.
    pub polled_token: String,
    /// The management key.
    pub public_key: String,
}

/// Whether a text is the body of a request that follows from the inputs.
pub open spec fn is_poll_body(inputs: PollInputs, device: Option<DeviceKeys>, body: Seq<char>) -> bool {
    exists|request: ClientPolicyRequestView| #[trigger]
        is_request(inputs, device, request) && body == json_object_text(request.members())
}

/// Starts a poll. The client needs an id.
pub fn start_poll(inputs: PollInputs, device: &Option<DeviceKeys>) -> (r: Result<
    StartedPoll,
    SyncError,
>)
    requires
        inputs.fits(),
    ensures
        r is Ok <==> inputs.id@.len() > 0 && !token_too_long(
            inputs.access_token@,
            inputs.token_ts,
            trimmed(inputs.public_key@),
        ),
        r matches Err(err) ==> if inputs.id@.len() == 0 {
            err is IdNotReady
        } else {
            err is TokenTooLong
        },
        r matches Ok(started) ==> {
            &&& started.url@ == policy_url_of(inputs.server@)
            &&& started.method@ == "post"@
            &&& is_poll_body(inputs, *device, started.body@)
            &&& started.headers@ == poll_headers_text()
            &&& started.poll.id@ == inputs.id@
            &&& started.poll.polled_token@ == inputs.access_token@
            &&& started.poll.public_key@ == trimmed(inputs.public_key@)
        },
{
    if inputs.id.as_str().is_empty() {
        return Err(SyncError::IdNotReady);
    }
    let request = match policy_request(&inputs, device) {
        Ok(request) => request,
        Err(err) => {
            return Err(err);
        },
    };
    let body = request.body();
    assert(is_request(inputs, *device, request@));
    Ok(
        StartedPoll {
            url: policy_url(inputs.server.as_str()),
            method: "post".to_owned(),
            body,
            headers: poll_headers(),
            poll: Poll {
                id: inputs.id.clone(),
                polled_token: inputs.access_token.clone(),
                public_key: trim(inputs.public_key.as_str()).to_owned(),
            },
        },
    )
}

/// Looks at the status of the answer.
pub fn check_http_status(status_code: u16) -> (r: Result<(), SyncError>)
    ensures
        r is Ok <==> status_code == 200,
        r matches Err(err) ==> err == SyncError::HttpStatus(status_code),
{
    if status_code != 200 {
        Err(SyncError::HttpStatus(status_code))
    } else {
        Ok(())
    }
}

/// A poll whose answer passed the checks on its signature.
pub struct CheckedPoll {
    pub poll: Poll,
    /// Whether the answer was sealed.
    pub was_sealed: bool,
    /// The policy, still to be read if it came as JSON text.
    pub payload: VerifiedPayload,
}

/// Checks the answer to a poll.
pub fn check_response(
    poll: Poll,
    response: ClientPolicyResponse,
    allow_unsigned: bool,
    device: &Option<DeviceKeys>,
) -> (r: Result<CheckedPoll, SyncError>)
    ensures
        is_verdict(
            response,
            poll.public_key@,
            allow_unsigned,
            *device,
            match r {
                Ok(checked) => Ok(checked.payload),
                Err(err) => Err(err),
            },
        ),
        reads_genuine_policy(
            response,
            poll.public_key@,
            *device,
            match r {
                Ok(checked) => Ok(checked.payload),
                Err(err) => Err(err),
            },
        ),
        r matches Ok(checked) ==> checked.poll == poll && checked.was_sealed == (
        response.sealed_payload is Some),
{
    let was_sealed = response.sealed_payload.is_some();
    match verified_payload(response, poll.public_key.as_str(), allow_unsigned, device) {
        Ok(payload) => Ok(CheckedPoll { poll, was_sealed, payload }),
        Err(err) => Err(err),
    }
}

/// Whether the client has seen a sealed answer, by the option that says so.
pub open spec fn seal_seen(option: Seq<char>) -> bool {
    option == "Y"@
}

/// Whether an answer is refused because the server used to seal and now does not.
/// A client without a device key cannot open sealed answers, so it takes plain ones.
pub open spec fn seal_is_missing(was_sealed: bool, option: Seq<char>, has_device_key: bool) -> bool {
    !was_sealed && seal_seen(option) && has_device_key
}

/// How the option changes with an answer that is not refused for its seal.
pub open spec fn seal_option_write(
    was_sealed: bool,
    option: Seq<char>,
    has_device_key: bool,
) -> Option<(Seq<char>, Seq<char>)> {
    if was_sealed && !seal_seen(option) {
        Some((OPTION_NEMO_POLICY_SEAL_SEEN@, "Y"@))
    } else if !was_sealed && seal_seen(option) && !has_device_key {
        Some((OPTION_NEMO_POLICY_SEAL_SEEN@, Seq::empty()))
    } else {
        None
    }
}

/// The value of an option after a write.
pub open spec fn value_after(option: Seq<char>, write: Option<(Seq<char>, Seq<char>)>) -> Seq<char> {
    match write {
        Some(write) => write.1,
        None => option,
    }
}

/// Whether the client has seen a sealed answer.
pub fn policy_seal_ratchet_engaged(option: &str) -> (r: bool)
    ensures
        r == seal_seen(option@),
{
    same_text(option, "Y")
}

/// Remembers that the client has seen a sealed answer, if it does not know already.
pub fn engage_policy_seal_ratchet(option: &str) -> (r: Option<OptionWrite>)
    ensures
        write_view(r) == seal_option_write(true, option@, true),
        seal_seen(value_after(option@, write_view(r))),
{
    if policy_seal_ratchet_engaged(option) {
        None
    } else {
        Some(option_write(OPTION_NEMO_POLICY_SEAL_SEEN, "Y"))
    }
}

/// What the host knows when a policy has been read.
pub struct HostView {
    /// The option that says whether a sealed answer was seen.
    pub seal_seen: String,
    /// The option with the newest time stamp that was accepted.
    pub issued_ts: String,
    pub has_device_key: bool,
    /// The clock, in seconds since the epoch.
    pub now: u64,
}

/// A policy that is accepted.
pub struct AcceptedPolicy {
    /// The new value of the time stamp option, if it changes.
    pub stamp_write: Option<OptionWrite>,
    /// Whether the server knew the session token.
    pub server_saw_user: bool,
    pub server_requires_login: bool,
}

/// The decision on a policy.
pub struct Decision {
    /// An option that is written whatever the outcome is.
    pub seal_write: Option<OptionWrite>,
    pub outcome: Result<AcceptedPolicy, SyncError>,
}

/// Whether a policy makes the user log in.
pub open spec fn requires_login(options: Map<Seq<char>, Seq<char>>) -> bool {
    options.contains_key(OPTION_NEMO_REQUIRE_LOGIN@) && options[OPTION_NEMO_REQUIRE_LOGIN@] == "Y"@
}

/// Why a policy is refused, if it is: the first of the tests that it fails decides.
pub open spec fn is_outcome(
    poll_id: Seq<char>,
    was_sealed: bool,
    payload: ClientPolicyPayload,
    host: HostView,
    outcome: Result<AcceptedPolicy, SyncError>,
) -> bool {
    let high_water = high_water_of(host.issued_ts@);
    if seal_is_missing(was_sealed, host.seal_seen@, host.has_device_key) {
        outcome matches Err(SyncError::SealMissing)
    } else if payload.id@ != poll_id {
        outcome matches Err(SyncError::IdMismatch)
    } else if !is_fresh(payload.issued_ts, high_water, host.now) {
        outcome matches Err(SyncError::Rejected(reason)) && reason@ == freshness_refusal(
            payload.issued_ts,
            high_water,
            host.now,
        )
    } else {
        outcome matches Ok(accepted) && {
            &&& write_view(accepted.stamp_write) == (if payload.issued_ts > high_water {
                Some((OPTION_NEMO_POLICY_ISSUED_TS@, decimal(payload.issued_ts as nat)))
            } else {
                None
            })
            &&& accepted.server_saw_user == payload.policy.options@.contains_key(
                OPTION_NEMO_LOGGED_IN_USER@,
            )
            &&& accepted.server_requires_login == requires_login(payload.policy.options@)
        }
    }
}

/// Decides whether a policy that was read is applied.
pub fn accept_policy(
    poll: &Poll,
    was_sealed: bool,
    payload: &ClientPolicyPayload,
    host: &HostView,
) -> (r: Decision)
    ensures
        write_view(r.seal_write) == seal_option_write(
            was_sealed,
            host.seal_seen@,
            host.has_device_key,
        ),
        is_outcome(poll.id@, was_sealed, *payload, *host, r.outcome),
        was_sealed && payload.id@ == poll.id@ && (payload.issued_ts == 0 || (payload.issued_ts
            >= high_water_of(host.issued_ts@) && host.now <= payload.issued_ts + 600
            && payload.issued_ts <= host.now + 600)) ==> r.outcome is Ok,
        !was_sealed && host.seal_seen@ == "Y"@ && host.has_device_key ==> (r.outcome matches Err(
            SyncError::SealMissing,
        )),
        r.outcome matches Err(SyncError::SealMissing) ==> !was_sealed && host.seal_seen@ == "Y"@
            && host.has_device_key,
        r.outcome matches Ok(accepted) ==> {
            let options = payload.policy.options@;
            &&& !options.contains_key("nemo-require-login"@) ==> !accepted.server_requires_login
            &&& options.contains_key("nemo-require-login"@) ==> (accepted.server_requires_login
                <==> options["nemo-require-login"@] == "Y"@)
            &&& accepted.server_saw_user <==> options.contains_key("nemo-logged-in-user"@)
        },
        was_sealed ==> if host.seal_seen@ == "Y"@ {
            r.seal_write is None
        } else {
            r.seal_write matches Some(write) && write.name@ == "nemo-policy-seal-seen"@
                && write.value@ == "Y"@
        },
        !was_sealed ==> if host.seal_seen@ == "Y"@ && !host.has_device_key {
            r.seal_write matches Some(write) && write.name@ == "nemo-policy-seal-seen"@
                && write.value@.len() == 0
        } else {
            r.seal_write is None
        },
{
    let seal_write = if was_sealed {
        engage_policy_seal_ratchet(host.seal_seen.as_str())
    } else if policy_seal_ratchet_engaged(host.seal_seen.as_str()) {
        if host.has_device_key {
            return Decision { seal_write: None, outcome: Err(SyncError::SealMissing) };
        }
        Some(option_write(OPTION_NEMO_POLICY_SEAL_SEEN, String::new().as_str()))
    } else {
        None
    };
    if !same_text(payload.id.as_str(), poll.id.as_str()) {
        return Decision { seal_write, outcome: Err(SyncError::IdMismatch) };
    }
    let high_water = policy_issued_ts_high_water(host.issued_ts.as_str());
    match check_policy_freshness(payload.issued_ts, high_water, host.now) {
        Err(reason) => {
            return Decision { seal_write, outcome: Err(SyncError::Rejected(reason)) };
        },
        Ok(()) => {},
    }
    let stamp_write = if payload.issued_ts > high_water {
        Some(
            option_write(OPTION_NEMO_POLICY_ISSUED_TS, decimal_text(payload.issued_ts).as_str()),
        )
    } else {
        None
    };
    let server_saw_user = payload.policy.options.contains_key(OPTION_NEMO_LOGGED_IN_USER);
    let server_requires_login = match payload.policy.options.get(OPTION_NEMO_REQUIRE_LOGIN) {
        Some(value) => same_text(value.as_str(), "Y"),
        None => false,
    };
    Decision {
        seal_write,
        outcome: Ok(AcceptedPolicy { stamp_write, server_saw_user, server_requires_login }),
    }
}

/// Whether the session token is dropped after a poll: the poll had a token, the
/// server did not know it and wants a login, and the token is still the one of the
/// poll.
pub fn session_is_stale(poll: &Poll, accepted: &AcceptedPolicy, current_token: &str) -> (r: bool)
    ensures
        r == (accepted.server_requires_login && !accepted.server_saw_user
            && poll.polled_token@.len() > 0 && current_token@ == poll.polled_token@),
        r == session_dropped(*poll, *accepted, current_token@),
{
    accepted.server_requires_login && !accepted.server_saw_user
        && !poll.polled_token.as_str().is_empty() && same_text(
        current_token,
        poll.polled_token.as_str(),
    )
}

/// After a sealed answer the client knows that the server seals.
pub proof fn law_sealed_answer_engages_ratchet(option: Seq<char>, has_device_key: bool)
    ensures
        seal_seen(value_after(option, seal_option_write(true, option, has_device_key))),
{
}

/// Once the client has seen a sealed answer, it takes no plain one as long as it
/// holds its device key, and no answer of either kind makes it forget.
pub proof fn law_no_downgrade(
    poll_id: Seq<char>,
    payload: ClientPolicyPayload,
    host: HostView,
    outcome: Result<AcceptedPolicy, SyncError>,
    was_sealed: bool,
)
    requires
        seal_seen(host.seal_seen@),
        host.has_device_key,
        is_outcome(poll_id, was_sealed, payload, host, outcome),
    ensures
        !was_sealed ==> outcome is Err,
        seal_seen(
            value_after(
                host.seal_seen@,
                seal_option_write(was_sealed, host.seal_seen@, host.has_device_key),
            ),
        ),
{
}

/// A client that lost its device key is not locked out: a plain answer is not
/// refused for want of a seal, and the client forgets that the server seals.
pub proof fn law_client_without_device_key_recovers(option: Seq<char>)
    ensures
        !seal_is_missing(false, option, false),
        !seal_seen(value_after(option, seal_option_write(false, option, false))),
{
    reveal_strlit("Y");
    assert(Seq::<char>::empty().len() != "Y"@.len());
}

/// A policy is accepted only by the client that it was made for.
pub proof fn law_policy_is_for_this_client(
    poll_id: Seq<char>,
    was_sealed: bool,
    payload: ClientPolicyPayload,
    host: HostView,
    outcome: Result<AcceptedPolicy, SyncError>,
)
    requires
        is_outcome(poll_id, was_sealed, payload, host, outcome),
        outcome is Ok,
    ensures
        payload.id@ == poll_id,
{
}

/// The time stamp option changes with an accepted policy as the protection against
/// old policies has it.
pub proof fn law_accepted_stamp_is_stored(
    poll_id: Seq<char>,
    was_sealed: bool,
    payload: ClientPolicyPayload,
    host: HostView,
    outcome: Result<AcceptedPolicy, SyncError>,
)
    requires
        is_outcome(poll_id, was_sealed, payload, host, outcome),
        outcome is Ok,
    ensures
        value_after(host.issued_ts@, write_view(outcome->Ok_0.stamp_write)) == stored_after(
            host.issued_ts@,
            payload.issued_ts,
        ),
{
}

/// A policy that was accepted bars every older one at the next poll, whatever the
/// clock says then.
pub proof fn law_accepted_policy_bars_older_ones(
    first_id: Seq<char>,
    first_sealed: bool,
    first: ClientPolicyPayload,
    first_host: HostView,
    first_outcome: Result<AcceptedPolicy, SyncError>,
    second_id: Seq<char>,
    second_sealed: bool,
    second: ClientPolicyPayload,
    second_host: HostView,
    second_outcome: Result<AcceptedPolicy, SyncError>,
)
    requires
        is_outcome(first_id, first_sealed, first, first_host, first_outcome),
        first_outcome is Ok,
        second_host.issued_ts@ == value_after(
            first_host.issued_ts@,
            write_view(first_outcome->Ok_0.stamp_write),
        ),
        is_outcome(second_id, second_sealed, second, second_host, second_outcome),
        0 < second.issued_ts < first.issued_ts,
    ensures
        second_outcome is Err,
{
    law_high_water_never_falls(first_host.issued_ts@, first.issued_ts);
}

/// After a sealed answer, whatever came of it, the next plain one is refused by a
/// client that holds its device key.
pub proof fn law_plain_after_sealed_is_refused(
    option: Seq<char>,
    had_device_key: bool,
    poll_id: Seq<char>,
    payload: ClientPolicyPayload,
    host: HostView,
    outcome: Result<AcceptedPolicy, SyncError>,
)
    requires
        host.seal_seen@ == value_after(option, seal_option_write(true, option, had_device_key)),
        host.has_device_key,
        is_outcome(poll_id, false, payload, host, outcome),
    ensures
        outcome matches Err(SyncError::SealMissing),
{
}

/// A policy in a sealed answer is never refused for a missing seal. If it is meant for
/// this client, and has no stamp or one that is not older than the newest accepted and
/// at most ten minutes away from the clock, it is accepted, whatever the client has seen
/// before and whether or not it holds a device key.
pub proof fn law_sealed_answer_is_accepted(
    poll_id: Seq<char>,
    payload: ClientPolicyPayload,
    host: HostView,
    outcome: Result<AcceptedPolicy, SyncError>,
)
    requires
        is_outcome(poll_id, true, payload, host, outcome),
    ensures
        !(outcome matches Err(SyncError::SealMissing)),
        payload.id@ == poll_id && (payload.issued_ts == 0 || (payload.issued_ts >= high_water_of(
            host.issued_ts@,
        ) && host.now <= payload.issued_ts + 600 && payload.issued_ts <= host.now + 600))
            ==> outcome is Ok,
{
}

/// A policy in a plain answer is refused for the missing seal if and only if the client
/// has seen a sealed answer and holds its device key. Otherwise it is accepted as a
/// sealed one is.
pub proof fn law_plain_answer_is_accepted_without_ratchet(
    poll_id: Seq<char>,
    payload: ClientPolicyPayload,
    host: HostView,
    outcome: Result<AcceptedPolicy, SyncError>,
)
    requires
        is_outcome(poll_id, false, payload, host, outcome),
    ensures
        (outcome matches Err(SyncError::SealMissing)) <==> host.seal_seen@ == "Y"@
            && host.has_device_key,
        !(host.seal_seen@ == "Y"@ && host.has_device_key) && payload.id@ == poll_id && (
        payload.issued_ts == 0 || (payload.issued_ts >= high_water_of(host.issued_ts@) && host.now
            <= payload.issued_ts + 600 && payload.issued_ts <= host.now + 600)) ==> outcome is Ok,
{
}

/// A policy that is not refused for its seal is refused for its id if it is meant for
/// another client, and for its stamp if it is not but the stamp is too old, too far from
/// the clock or older than one accepted before. There is no other refusal.
pub proof fn law_refusals_in_full(
    poll_id: Seq<char>,
    was_sealed: bool,
    payload: ClientPolicyPayload,
    host: HostView,
    outcome: Result<AcceptedPolicy, SyncError>,
)
    requires
        is_outcome(poll_id, was_sealed, payload, host, outcome),
        was_sealed || host.seal_seen@ != "Y"@ || !host.has_device_key,
    ensures
        ({
            let stamp = payload.issued_ts;
            let high_water = high_water_of(host.issued_ts@);
            let fresh = stamp == 0 || (high_water <= stamp && host.now <= stamp + 600 && stamp
                <= host.now + 600);
            &&& (outcome matches Err(SyncError::IdMismatch)) <==> payload.id@ != poll_id
            &&& payload.id@ == poll_id ==> (outcome is Ok <==> fresh)
            &&& payload.id@ == poll_id && !fresh ==> (outcome matches Err(
                SyncError::Rejected(reason),
            ) && reason@ == freshness_refusal(stamp, high_water, host.now))
        }),
{
}

/// The time stamp option is written with an accepted policy whose stamp is newer than
/// the one stored, as a decimal number, and with no other.
pub proof fn law_newer_stamp_is_written(
    poll_id: Seq<char>,
    was_sealed: bool,
    payload: ClientPolicyPayload,
    host: HostView,
    outcome: Result<AcceptedPolicy, SyncError>,
)
    requires
        is_outcome(poll_id, was_sealed, payload, host, outcome),
        outcome is Ok,
    ensures
        if payload.issued_ts > high_water_of(host.issued_ts@) {
            outcome->Ok_0.stamp_write matches Some(write) && write.name@
                == "nemo-policy-issued-ts"@ && write.value@ == decimal(payload.issued_ts as nat)
        } else {
            outcome->Ok_0.stamp_write is None
        },
{
}

/// The login signals are what the policy says. The server wants a login if and only if
/// the policy names the flag with the value `Y`: a policy that does not name it wants
/// none. The server knew the user if and only if the policy names one.
pub proof fn law_login_signals_are_those_of_the_policy(
    poll_id: Seq<char>,
    was_sealed: bool,
    payload: ClientPolicyPayload,
    host: HostView,
    outcome: Result<AcceptedPolicy, SyncError>,
)
    requires
        is_outcome(poll_id, was_sealed, payload, host, outcome),
        outcome is Ok,
    ensures
        ({
            let options = payload.policy.options@;
            let accepted = outcome->Ok_0;
            &&& !options.contains_key("nemo-require-login"@) ==> !accepted.server_requires_login
            &&& options.contains_key("nemo-require-login"@) ==> (accepted.server_requires_login
                <==> options["nemo-require-login"@] == "Y"@)
            &&& accepted.server_saw_user <==> options.contains_key("nemo-logged-in-user"@)
        }),
{
}

/// Whether the session token of a poll is dropped, by the signals of the answer and the
/// token that the client holds now.
pub open spec fn session_dropped(
    poll: Poll,
    accepted: AcceptedPolicy,
    current_token: Seq<char>,
) -> bool {
    &&& accepted.server_requires_login
    &&& !accepted.server_saw_user
    &&& poll.polled_token@.len() > 0
    &&& current_token == poll.polled_token@
}

/// An accepted policy ends the session if and only if it asks for a login and names no
/// user, and the token of the poll is still the one that the client holds. So a policy
/// that does not mention login never does, and neither does one that names the user,
/// nor one that comes when the user has logged in anew.
pub proof fn law_session_ends_only_when_server_says_so(
    poll: Poll,
    was_sealed: bool,
    payload: ClientPolicyPayload,
    host: HostView,
    outcome: Result<AcceptedPolicy, SyncError>,
    current_token: Seq<char>,
)
    requires
        is_outcome(poll.id@, was_sealed, payload, host, outcome),
        outcome is Ok,
    ensures
        ({
            let options = payload.policy.options@;
            session_dropped(poll, outcome->Ok_0, current_token) <==> options.contains_pair(
                "nemo-require-login"@,
                "Y"@,
            ) && !options.contains_key("nemo-logged-in-user"@) && current_token.len() > 0
                && current_token == poll.polled_token@
        }),
{
}

/// What becomes of the option that remembers the seal. A sealed answer leaves it set,
/// written only if it was not. A plain one clears it if it was set and there is no
/// device key, and leaves it alone otherwise.
pub proof fn law_seal_option_in_full(was_sealed: bool, option: Seq<char>, has_device_key: bool)
    ensures
        ({
            let write = seal_option_write(was_sealed, option, has_device_key);
            let name = "nemo-policy-seal-seen"@;
            &&& was_sealed && option != "Y"@ ==> write == Some((name, "Y"@))
            &&& was_sealed && option == "Y"@ ==> write is None
            &&& !was_sealed && option == "Y"@ && !has_device_key ==> write == Some(
                (name, Seq::<char>::empty()),
            )
            &&& !was_sealed && (option != "Y"@ || has_device_key) ==> write is None
            &&& was_sealed ==> value_after(option, write) == "Y"@
            &&& !was_sealed && has_device_key ==> value_after(option, write) == option
            &&& !was_sealed && !has_device_key ==> value_after(option, write) != "Y"@
        }),
{
    law_client_without_device_key_recovers(option);
}

/// The body of a poll is the JSON object of a request with the id, the uuid, the last
/// policy and the host name of the client, and with its session token if there is one,
/// whether or not there is a device key.
pub proof fn law_poll_body_in_full(inputs: PollInputs, device: Option<DeviceKeys>, body: Seq<char>)
    requires
        is_poll_body(inputs, device, body),
    ensures
        exists|request: ClientPolicyRequestView|
            body == json_object_text(#[trigger] request.members()) && {
                &&& request.id == inputs.id@
                &&& request.uuid == base64_text(inputs.uuid@)
                &&& request.policy_version == inputs.last_policy@
                &&& request.hostname == inputs.hostname@
                &&& request.sealed == (if device is Some {
                    "v1"@
                } else {
                    Seq::empty()
                })
                &&& inputs.access_token@.len() == 0 ==> request.access_token.len() == 0
                    && request.sealed_token.len() == 0
                &&& inputs.access_token@.len() > 0 ==> match sealing_key(
                    trimmed(inputs.public_key@),
                ) {
                    Some(key) => request.access_token.len() == 0 && request.sealed_token.len() > 0
                        && is_sealed_text(
                        request.sealed_token,
                        encode_utf8(
                            json_object_text(
                                seq![
                                    ("token"@, JsonScalarView::Text(inputs.access_token@)),
                                    ("ts"@, JsonScalarView::Number(inputs.token_ts)),
                                ],
                            ),
                        ),
                        key,
                    ),
                    None => request.access_token == inputs.access_token@
                        && request.sealed_token.len() == 0,
                }
            },
{
    let request = choose|request: ClientPolicyRequestView| #[trigger]
        is_request(inputs, device, request) && body == json_object_text(request.members());
    law_device_key_is_shown(inputs, device, request);
    if inputs.access_token@.len() > 0 {
        law_session_token_is_sent(inputs, device, request);
    }
    assert(body == json_object_text(request.members()));
}

}
