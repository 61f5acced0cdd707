//! The request of a poll.
use crate::crypto::{
    base64_decoding, base64_text, can_be_sealed, decodes_to, ed25519_key_pair, ed25519_opened,
    ed25519_signed, encode64, is_sealed_text, max_encodable, max_sealable, mgmt_sealing_key,
    nemo_seal_to_mgmt_key, sealing_key, sign_text, SIGNATURE_BYTES,
};
use crate::error::SyncError;
use crate::json::{
    json_object, json_object_text, members_view, number_member, text_member, JsonMember,
    JsonScalarView,
};
use crate::payload::DeviceKeys;
use crate::text::{
    decimal, decimal_text, has_suffix, is_white_space, joined, law_suffix_stands_at_the_end,
    law_trailing_slashes_go, law_trim_takes_white_space_off, text_ends_with, trim,
    trim_end_slashes, trimmed, trimmed_end, trimmed_start, without_trailing_slashes,
};
use vstd::prelude::*;
use vstd::utf8::encode_utf8;

verus! {

/// Where the server answers polls, below its address.
pub const POLICY_PATH: &'static str = "/nemo/api/client/policy";

/// The URL that is polled.
pub open spec fn policy_url_of(server: Seq<char>) -> Seq<char> {
    let base = without_trailing_slashes(trimmed(server));
    if has_suffix(base, POLICY_PATH@) {
        base
    } else {
        base + POLICY_PATH@
    }
}

/// The URL that is polled: the address of the server and the path, which the
/// address may hold already.
pub fn policy_url(server: &str) -> (r: String)
    ensures
        r@ == policy_url_of(server@),
{
    let base = trim_end_slashes(trim(server));
    if text_ends_with(base, POLICY_PATH) {
        base.to_owned()
    } else {
        joined(base, POLICY_PATH)
    }
}

/// What a device signs.
pub open spec fn device_message(context: Seq<char>, id: Seq<char>, ts: u64) -> Seq<char> {
    context + ":"@ + id + ":"@ + decimal(ts as nat)
}

/// The device's public key and the signed message, in base64; nothing without a
/// device key.
pub open spec fn device_signature(
    context: Seq<char>,
    id: Seq<char>,
    ts: u64,
    device: Option<DeviceKeys>,
) -> (Seq<char>, Seq<char>) {
    match device {
        Some(keys) => (
            base64_text(keys.public_key@),
            base64_text(
                ed25519_signed(encode_utf8(device_message(context, id, ts)), keys.secret_key@),
            ),
        ),
        None => (Seq::empty(), Seq::empty()),
    }
}

/// Whether the holder of a device's public key reads the message from a signed text.
pub open spec fn signature_opens(text: Seq<char>, public_key: Seq<u8>, message: Seq<char>) -> bool {
    base64_decoding(text) is Ok && ed25519_opened(base64_decoding(text)->Ok_0, public_key) == Some(
        encode_utf8(message),
    )
}

/// Whether the signed message still fits in memory in base64.
pub open spec fn signature_fits(context: Seq<char>, id: Seq<char>, ts: u64) -> bool {
    encode_utf8(device_message(context, id, ts)).len() + SIGNATURE_BYTES <= max_encodable()
}

/// What a device signs.
pub fn message_to_sign(context: &str, id: &str, ts: u64) -> (r: String)
    ensures
        r@ == device_message(context@, id@, ts),
{
    let a = joined(context, ":");
    let b = joined(a.as_str(), id);
    let c = joined(b.as_str(), ":");
    joined(c.as_str(), decimal_text(ts).as_str())
}

/// Signs `context:id:ts` with the device key. Both texts are empty without one.
pub fn nemo_device_sign(context: &str, id: &str, ts: u64, device: &Option<DeviceKeys>) -> (r: (
    String,
    String,
))
    requires
        signature_fits(context@, id@, ts),
    ensures
        (r.0@, r.1@) == device_signature(context@, id@, ts, *device),
        r.0@.len() == 0 <==> device is None,
        device matches Some(keys) ==> decodes_to(r.0@, keys.public_key@) && (ed25519_key_pair(
            keys.public_key@,
            keys.secret_key@,
        ) ==> signature_opens(r.1@, keys.public_key@, device_message(context@, id@, ts))),
{
    match device {
        Some(keys) => {
            let message = message_to_sign(context, id, ts);
            (
                encode64(keys.public_key.as_slice()),
                sign_text(message.as_str().as_bytes(), &keys.secret_key),
            )
        },
        None => (String::new(), String::new()),
    }
}

/// Signs a poll, which proves that this client holds its device key.
pub fn nemo_sign_poll(id: &str, ts: u64, device: &Option<DeviceKeys>) -> (r: (String, String))
    requires
        signature_fits("nemo-poll"@, id@, ts),
    ensures
        (r.0@, r.1@) == device_signature("nemo-poll"@, id@, ts, *device),
        r.0@.len() == 0 <==> device is None,
        device matches Some(keys) ==> decodes_to(r.0@, keys.public_key@) && (ed25519_key_pair(
            keys.public_key@,
            keys.secret_key@,
        ) ==> signature_opens(r.1@, keys.public_key@, device_message("nemo-poll"@, id@, ts))),
{
    nemo_device_sign("nemo-poll", id, ts, device)
}

/// What is sealed in place of a session token.
pub open spec fn token_blob(token: Seq<char>, ts: u64) -> Seq<char> {
    json_object_text(
        seq![
            ("token"@, JsonScalarView::Text(token)),
            ("ts"@, JsonScalarView::Number(ts)),
        ],
    )
}

/// Whether a session token has to be sealed, but is too long for it.
pub open spec fn token_too_long(token: Seq<char>, ts: u64, public_key: Seq<char>) -> bool {
    &&& token.len() > 0
    &&& sealing_key(public_key) is Some
    &&& encode_utf8(token_blob(token, ts)).len() > max_sealable()
}

/// How a session token goes over the wire, as plain text and sealed. A token is
/// sealed whenever there is a key for it, and then it does not go in plain.
pub open spec fn is_wire_token(
    token: Seq<char>,
    ts: u64,
    public_key: Seq<char>,
    plain: Seq<char>,
    sealed: Seq<char>,
) -> bool {
    if token.len() == 0 {
        plain.len() == 0 && sealed.len() == 0
    } else {
        match sealing_key(public_key) {
            Some(key) => plain.len() == 0 && sealed.len() > 0 && is_sealed_text(
                sealed,
                encode_utf8(token_blob(token, ts)),
                key,
            ),
            None => plain == token && sealed.len() == 0,
        }
    }
}

/// The plain and the sealed text that go over the wire, by what came of sealing
/// the token.
pub fn choose_wire_token(token: &str, sealed: Option<String>) -> (r: (String, String))
    ensures
        r.0@ == (if sealed is Some {
            Seq::empty()
        } else {
            token@
        }),
        r.1@ == (match sealed {
            Some(text) => text@,
            None => Seq::empty(),
        }),
{
    match sealed {
        Some(text) => (String::new(), text),
        None => (token.to_owned(), String::new()),
    }
}

/// The members of what is sealed in place of a session token.
pub fn token_members(token: &str, ts: u64) -> (r: Vec<JsonMember>)
    ensures
        members_view(r@) == seq![
            ("token"@, JsonScalarView::Text(token@)),
            ("ts"@, JsonScalarView::Number(ts)),
        ],
{
    let mut members: Vec<JsonMember> = Vec::new();
    members.push(text_member("token", token));
    members.push(number_member("ts", ts));
    assert(members_view(members@) =~= seq![
        ("token"@, JsonScalarView::Text(token@)),
        ("ts"@, JsonScalarView::Number(ts)),
    ]);
    members
}

/// Seals a session token to the management key. Without a usable key the token
/// goes in plain.
pub fn wire_token(token: &str, ts: u64, public_key: &str) -> (r: Result<
    (String, String),
    SyncError,
>)
    ensures
        r is Err <==> token_too_long(token@, ts, public_key@),
        r is Err ==> r->Err_0 is TokenTooLong,
        r matches Ok(pair) ==> is_wire_token(token@, ts, public_key@, pair.0@, pair.1@),
{
    if token.is_empty() {
        return Ok((String::new(), String::new()));
    }
    let blob = json_object(token_members(token, ts));
    let message = blob.as_str().as_bytes();
    if can_be_sealed(message) {
        Ok(choose_wire_token(token, nemo_seal_to_mgmt_key(message, public_key)))
    } else if mgmt_sealing_key(public_key).is_some() {
        Err(SyncError::TokenTooLong)
    } else {
        Ok(choose_wire_token(token, None))
    }
}

/// The content of a poll.
pub struct ClientPolicyRequest {
    pub id: String,
    pub uuid: String,
    /// The policy that the client applied last.
    pub policy_version: String,
    /// The session token of the user, so that the server answers with the policy
    /// of that user. Empty if it is sealed.
    pub access_token: String,
    /// The session token and the time, sealed to the management key.
    pub sealed_token: String,
    /// The name by which the server labels this client.
    pub hostname: String,
    pub device_key_pub: String,
    pub device_key_sig: String,
    /// `v1` if the client can open a sealed answer.
    pub sealed: String,
}

/// What a [`ClientPolicyRequest`] says.
pub struct ClientPolicyRequestView {
    pub id: Seq<char>,
    pub uuid: Seq<char>,
    pub policy_version: Seq<char>,
    pub access_token: Seq<char>,
    pub sealed_token: Seq<char>,
    pub hostname: Seq<char>,
    pub device_key_pub: Seq<char>,
    pub device_key_sig: Seq<char>,
    pub sealed: Seq<char>,
}

impl View for ClientPolicyRequest {
    type V = ClientPolicyRequestView;

    open spec fn view(&self) -> ClientPolicyRequestView {
        ClientPolicyRequestView {
            id: self.id@,
            uuid: self.uuid@,
            policy_version: self.policy_version@,
            access_token: self.access_token@,
            sealed_token: self.sealed_token@,
            hostname: self.hostname@,
            device_key_pub: self.device_key_pub@,
            device_key_sig: self.device_key_sig@,
            sealed: self.sealed@,
        }
    }
}

/// One text of a JSON object.
pub open spec fn required(name: Seq<char>, text: Seq<char>) -> Seq<(Seq<char>, JsonScalarView)> {
    seq![(name, JsonScalarView::Text(text))]
}

/// One text of a JSON object, left out if it is empty.
pub open spec fn optional(name: Seq<char>, text: Seq<char>) -> Seq<(Seq<char>, JsonScalarView)> {
    if text.len() == 0 {
        Seq::empty()
    } else {
        required(name, text)
    }
}

impl ClientPolicyRequestView {
    /// The members of the JSON object that is sent.
    pub open spec fn members(self) -> Seq<(Seq<char>, JsonScalarView)> {
        required("id"@, self.id) + required("uuid"@, self.uuid) + required(
            "policy_version"@,
            self.policy_version,
        ) + optional("access_token"@, self.access_token) + optional(
            "sealed_token"@,
            self.sealed_token,
        ) + required("hostname"@, self.hostname) + optional(
            "device_key_pub"@,
            self.device_key_pub,
        ) + optional("device_key_sig"@, self.device_key_sig) + optional("sealed"@, self.sealed)
    }
}

fn push_required(members: &mut Vec<JsonMember>, name: &str, text: &str)
    ensures
        members_view(final(members)@) == members_view(old(members)@) + required(name@, text@),
{
    members.push(text_member(name, text));
    assert(members_view(members@) =~= members_view(old(members)@) + required(name@, text@));
}

fn push_optional(members: &mut Vec<JsonMember>, name: &str, text: &str)
    ensures
        members_view(final(members)@) == members_view(old(members)@) + optional(name@, text@),
{
    if text.is_empty() {
        assert(members_view(members@) =~= members_view(members@) + optional(name@, text@));
    } else {
        push_required(members, name, text);
    }
}

impl ClientPolicyRequest {
    /// The members of the JSON object that is sent. Of the texts that may be
    /// missing, those that are empty are left out.
    pub fn members(&self) -> (r: Vec<JsonMember>)
        ensures
            members_view(r@) == self@.members(),
    {
        let mut members: Vec<JsonMember> = Vec::new();
        assert(members_view(members@) =~= Seq::empty());
        push_required(&mut members, "id", self.id.as_str());
        push_required(&mut members, "uuid", self.uuid.as_str());
        push_required(&mut members, "policy_version", self.policy_version.as_str());
        push_optional(&mut members, "access_token", self.access_token.as_str());
        push_optional(&mut members, "sealed_token", self.sealed_token.as_str());
        push_required(&mut members, "hostname", self.hostname.as_str());
        push_optional(&mut members, "device_key_pub", self.device_key_pub.as_str());
        push_optional(&mut members, "device_key_sig", self.device_key_sig.as_str());
        push_optional(&mut members, "sealed", self.sealed.as_str());
        assert(members_view(members@) =~= self@.members());
        members
    }

    /// The JSON text of the request.
    pub fn body(&self) -> (r: String)
        ensures
            r@ == json_object_text(self@.members()),
    {
        json_object(self.members())
    }
}

/// What a poll is made of.
pub struct PollInputs {
    pub id: String,
    pub server: String,
    pub public_key: String,
    pub access_token: String,
    pub last_policy: String,
    pub uuid: Vec<u8>,
    pub hostname: String,
    /// The time at which the session token is sealed, in seconds since the epoch.
    pub token_ts: u64,
    /// The time at which the poll is signed, in seconds since the epoch.
    pub sign_ts: u64,
}

impl PollInputs {
    /// Whether what is encoded in base64 still fits in memory.
    pub open spec fn fits(&self) -> bool {
        self.uuid@.len() <= max_encodable() && signature_fits("nemo-poll"@, self.id@, self.sign_ts)
    }

    /// Whether what is encoded in base64 still fits in memory.
    pub fn check_fits(&self) -> (r: bool)
        ensures
            r == self.fits(),
    {
        let max: usize = (isize::MAX as usize) / 4 * 3;
        let message = message_to_sign("nemo-poll", self.id.as_str(), self.sign_ts);
        self.uuid.len() <= max && message.as_str().as_bytes().len() <= max - SIGNATURE_BYTES
    }
}

/// The request that follows from the inputs. The sealed token differs from one
/// request to the next.
pub open spec fn is_request(
    inputs: PollInputs,
    device: Option<DeviceKeys>,
    request: ClientPolicyRequestView,
) -> bool {
    &&& request.id == inputs.id@
    &&& request.uuid == base64_text(inputs.uuid@)
    &&& request.policy_version == inputs.last_policy@
    &&& is_wire_token(
        inputs.access_token@,
        inputs.token_ts,
        trimmed(inputs.public_key@),
        request.access_token,
        request.sealed_token,
    )
    &&& request.hostname == inputs.hostname@
    &&& (request.device_key_pub, request.device_key_sig) == device_signature(
        "nemo-poll"@,
        inputs.id@,
        inputs.sign_ts,
        device,
    )
    &&& request.sealed == (if device is Some {
        "v1"@
    } else {
        Seq::empty()
    })
}

/// Puts the content of a poll together from its encoded parts. The client says that
/// it can open a sealed answer if and only if it holds a device key.
pub fn assemble_request(
    inputs: &PollInputs,
    uuid: String,
    token: (String, String),
    device_key: (String, String),
) -> (r: ClientPolicyRequest)
    ensures
        r@ == (ClientPolicyRequestView {
            id: inputs.id@,
            uuid: uuid@,
            policy_version: inputs.last_policy@,
            access_token: token.0@,
            sealed_token: token.1@,
            hostname: inputs.hostname@,
            device_key_pub: device_key.0@,
            device_key_sig: device_key.1@,
            sealed: if device_key.0@.len() == 0 {
                Seq::empty()
            } else {
                "v1"@
            },
        }),
{
    let sealed = if device_key.0.as_str().is_empty() {
        String::new()
    } else {
        "v1".to_owned()
    };
    ClientPolicyRequest {
        id: inputs.id.clone(),
        uuid,
        policy_version: inputs.last_policy.clone(),
        access_token: token.0,
        sealed_token: token.1,
        hostname: inputs.hostname.clone(),
        device_key_pub: device_key.0,
        device_key_sig: device_key.1,
        sealed,
    }
}

/// Makes the content of a poll.
pub fn policy_request(inputs: &PollInputs, device: &Option<DeviceKeys>) -> (r: Result<
    ClientPolicyRequest,
    SyncError,
>)
    requires
        inputs.fits(),
    ensures
        r is Err <==> token_too_long(
            inputs.access_token@,
            inputs.token_ts,
            trimmed(inputs.public_key@),
        ),
        r is Err ==> r->Err_0 is TokenTooLong,
        r matches Ok(request) ==> is_request(*inputs, *device, request@),
        r matches Ok(request) ==> inputs.access_token@.len() > 0 ==> match sealing_key(
            trimmed(inputs.public_key@),
        ) {
            Some(key) => {
                &&& request.access_token@.len() == 0
                &&& request.sealed_token@.len() > 0
                &&& is_sealed_text(
                    request.sealed_token@,
                    encode_utf8(
                        json_object_text(
                            seq![
                                ("token"@, JsonScalarView::Text(inputs.access_token@)),
                                ("ts"@, JsonScalarView::Number(inputs.token_ts)),
                            ],
                        ),
                    ),
                    key,
                )
            },
            None => request.access_token@ == inputs.access_token@ && request.sealed_token@.len()
                == 0,
        },
        r matches Ok(request) ==> match *device {
            Some(keys) => {
                &&& decodes_to(request.device_key_pub@, keys.public_key@)
                &&& request.sealed@ == "v1"@
                &&& ed25519_key_pair(keys.public_key@, keys.secret_key@) ==> signature_opens(
                    request.device_key_sig@,
                    keys.public_key@,
                    "nemo-poll:"@ + inputs.id@ + ":"@ + decimal(inputs.sign_ts as nat),
                )
            },
            None => request.device_key_pub@.len() == 0 && request.device_key_sig@.len() == 0
                && request.sealed@.len() == 0,
        },
{
    proof {
        law_device_signs_context_id_and_time("nemo-poll"@, inputs.id@, inputs.sign_ts);
        law_poll_message_in_full(inputs.id@, inputs.sign_ts);
    }
    let token = match wire_token(
        inputs.access_token.as_str(),
        inputs.token_ts,
        trim(inputs.public_key.as_str()),
    ) {
        Ok(token) => token,
        Err(err) => {
            return Err(err);
        },
    };
    let device_key = nemo_sign_poll(inputs.id.as_str(), inputs.sign_ts, device);
    Ok(assemble_request(inputs, encode64(inputs.uuid.as_slice()), token, device_key))
}

/// The headers of a poll.
pub open spec fn poll_headers_text() -> Seq<char> {
    json_object_text(required("Accept"@, "application/json"@) + required(
        "Content-Type"@,
        "application/json"@,
    ))
}

/// The headers of a poll, as a JSON object.
pub fn poll_headers() -> (r: String)
    ensures
        r@ == poll_headers_text(),
{
    let mut members: Vec<JsonMember> = Vec::new();
    assert(members_view(members@) =~= Seq::empty());
    push_required(&mut members, "Accept", "application/json");
    push_required(&mut members, "Content-Type", "application/json");
    assert(members_view(members@) =~= required("Accept"@, "application/json"@) + required(
        "Content-Type"@,
        "application/json"@,
    ));
    json_object(members)
}

proof fn lemma_trimmed_start_ends(s: Seq<char>)
    ensures
        trimmed_start(s).len() > 0 ==> !is_white_space(trimmed_start(s)[0]),
    decreases s.len(),
{
    if s.len() > 0 && is_white_space(s[0]) {
        lemma_trimmed_start_ends(s.skip(1));
    }
}

proof fn lemma_trimmed_end_ends(s: Seq<char>)
    ensures
        trimmed_end(s).len() <= s.len(),
        trimmed_end(s) == s.take(trimmed_end(s).len() as int),
        trimmed_end(s).len() > 0 ==> !is_white_space(trimmed_end(s).last()),
    decreases s.len(),
{
    if s.len() > 0 && is_white_space(s.last()) {
        lemma_trimmed_end_ends(s.drop_last());
        assert(trimmed_end(s) =~= s.take(trimmed_end(s).len() as int));
    } else {
        assert(s =~= s.take(s.len() as int));
    }
}

proof fn lemma_without_trailing_slashes(s: Seq<char>)
    ensures
        without_trailing_slashes(s).len() <= s.len(),
        without_trailing_slashes(s) == s.take(without_trailing_slashes(s).len() as int),
    decreases s.len(),
{
    if s.len() > 0 && s.last() == '/' {
        lemma_without_trailing_slashes(s.drop_last());
        assert(without_trailing_slashes(s) =~= s.take(without_trailing_slashes(s).len() as int));
    } else {
        assert(s =~= s.take(s.len() as int));
    }
}

/// Whatever the address of the server looks like, the URL ends in the path.
pub proof fn law_policy_url_ends_in_path(server: Seq<char>)
    ensures
        has_suffix(policy_url_of(server), POLICY_PATH@),
{
    let base = without_trailing_slashes(trimmed(server));
    let full = base + POLICY_PATH@;
    assert(full.skip(full.len() - POLICY_PATH@.len()) =~= POLICY_PATH@);
}

/// The URL of a poll may be given as the address of the server: it is polled as it
/// stands.
pub proof fn law_policy_url_is_stable(server: Seq<char>)
    ensures
        policy_url_of(policy_url_of(server)) == policy_url_of(server),
{
    reveal_strlit("/nemo/api/client/policy");
    let url = policy_url_of(server);
    law_policy_url_ends_in_path(server);
    let path = POLICY_PATH@;
    assert(url.last() == 'y') by {
        assert(url.skip(url.len() - path.len()).last() == path.last());
    }
    assert(!is_white_space(url[0])) by {
        let start = trimmed_start(server);
        let whole = trimmed(server);
        let base = without_trailing_slashes(whole);
        lemma_trimmed_start_ends(server);
        lemma_trimmed_end_ends(start);
        lemma_without_trailing_slashes(whole);
        if base.len() > 0 {
            assert(url[0] == base[0] && base[0] == whole[0] && whole[0] == start[0]);
        } else {
            assert(url =~= path);
        }
    }
    assert(trimmed_start(url) == url);
    assert(trimmed_end(url) == url);
    assert(without_trailing_slashes(url) == url);
}

/// A session token never goes in plain where it can be sealed, and never both
/// ways.
pub proof fn law_token_is_sealed_where_possible(
    token: Seq<char>,
    ts: u64,
    public_key: Seq<char>,
    plain: Seq<char>,
    sealed: Seq<char>,
)
    requires
        is_wire_token(token, ts, public_key, plain, sealed),
    ensures
        sealing_key(public_key) is Some ==> plain.len() == 0,
        plain.len() == 0 || sealed.len() == 0,
{
}

/// A request with a sealed token has no plain token among its members.
pub proof fn law_sealed_token_is_alone_on_the_wire(
    inputs: PollInputs,
    device: Option<DeviceKeys>,
    request: ClientPolicyRequestView,
)
    requires
        is_request(inputs, device, request),
        sealing_key(trimmed(inputs.public_key@)) is Some,
    ensures
        forall|i: int|
            0 <= i < request.members().len() ==> (#[trigger] request.members()[i]).0
                != "access_token"@,
{
    reveal_strlit("id");
    reveal_strlit("uuid");
    reveal_strlit("policy_version");
    reveal_strlit("access_token");
    reveal_strlit("sealed_token");
    reveal_strlit("hostname");
    reveal_strlit("device_key_pub");
    reveal_strlit("device_key_sig");
    reveal_strlit("sealed");
    assert("sealed_token"@[0] == 's');
    assert("access_token"@[0] == 'a');
    assert(request.access_token.len() == 0);
    assert(optional("access_token"@, request.access_token).len() == 0);
    assert forall|i: int| 0 <= i < request.members().len() implies (
    #[trigger] request.members()[i]).0 != "access_token"@ by {
        let m = request.members()[i].0;
        assert(m == "id"@ || m == "uuid"@ || m == "policy_version"@ || m == "sealed_token"@ || m
            == "hostname"@ || m == "device_key_pub"@ || m == "device_key_sig"@ || m == "sealed"@);
        assert(m.len() != 12 || m[0] != 'a');
    }
}

/// A device signs the context, the id and the time, with colons in between.
pub proof fn law_device_signs_context_id_and_time(context: Seq<char>, id: Seq<char>, ts: u64)
    ensures
        device_message(context, id, ts) == context + seq![':'] + id + seq![':'] + decimal(
            ts as nat,
        ),
{
    reveal_strlit(":");
    assert(":"@ =~= seq![':']);
}

/// For a poll a device signs `nemo-poll`, the id and the time.
pub proof fn law_poll_message_in_full(id: Seq<char>, ts: u64)
    ensures
        device_message("nemo-poll"@, id, ts) == "nemo-poll:"@ + id + ":"@ + decimal(ts as nat),
{
    reveal_strlit("nemo-poll");
    reveal_strlit(":");
    reveal_strlit("nemo-poll:");
    assert("nemo-poll"@ + ":"@ =~= "nemo-poll:"@);
}

/// The address of the server is polled at the path of the policy, whatever white space
/// and slashes stand around the address. An address that ends in the path is polled as
/// it stands.
pub proof fn law_policy_url_in_full(
    before: Seq<char>,
    base: Seq<char>,
    slashes: Seq<char>,
    after: Seq<char>,
)
    requires
        base.len() > 0 ==> !is_white_space(base[0]) && base.last() != '/',
        base.len() > 0 && slashes.len() == 0 ==> !is_white_space(base.last()),
        forall|i: int| 0 <= i < before.len() ==> is_white_space(#[trigger] before[i]),
        forall|i: int| 0 <= i < slashes.len() ==> #[trigger] slashes[i] == '/',
        forall|i: int| 0 <= i < after.len() ==> is_white_space(#[trigger] after[i]),
    ensures
        ({
            let url = policy_url_of(before + base + slashes + after);
            if exists|front: Seq<char>| base == #[trigger] (front + "/nemo/api/client/policy"@) {
                url == base
            } else {
                url == base + "/nemo/api/client/policy"@
            }
        }),
{
    let middle = base + slashes;
    assert(before + base + slashes + after =~= before + middle + after);
    if slashes.len() > 0 {
        assert(slashes[0] == '/');
        assert(middle.last() == slashes[slashes.len() - 1]);
    } else {
        assert(middle =~= base);
    }
    law_trim_takes_white_space_off(before, middle, after);
    law_trailing_slashes_go(base, slashes);
    law_suffix_stands_at_the_end(base, "/nemo/api/client/policy"@);
}

/// What is sealed in place of a session token is a JSON object of the token and the
/// time.
pub proof fn law_token_is_sealed_with_its_time(token: Seq<char>, ts: u64)
    ensures
        token_blob(token, ts) == json_object_text(
            seq![("token"@, JsonScalarView::Text(token)), ("ts"@, JsonScalarView::Number(ts))],
        ),
{
}

/// A token is too long only if there is one, there is a key to seal it to, and the
/// sealed text would not fit in memory.
pub proof fn law_only_sealed_tokens_are_too_long(token: Seq<char>, ts: u64, public_key: Seq<char>)
    ensures
        token_too_long(token, ts, public_key) <==> token.len() > 0 && sealing_key(
            public_key,
        ) is Some && encode_utf8(
            json_object_text(
                seq![("token"@, JsonScalarView::Text(token)), ("ts"@, JsonScalarView::Number(ts))],
            ),
        ).len() + 48 > isize::MAX as int / 4 * 3,
{
}

/// The members of a request, one by one: the id, the uuid, the last policy and the host
/// name are always there, and each of the other texts is there unless it is empty.
pub proof fn law_members_one_by_one(request: ClientPolicyRequestView)
    ensures
        ({
            let members = request.members();
            let plain: int = if request.access_token.len() > 0 {
                1
            } else {
                0
            };
            let token: int = if request.sealed_token.len() > 0 {
                1
            } else {
                0
            };
            let key: int = if request.device_key_pub.len() > 0 {
                1
            } else {
                0
            };
            let signature: int = if request.device_key_sig.len() > 0 {
                1
            } else {
                0
            };
            let sealed: int = if request.sealed.len() > 0 {
                1
            } else {
                0
            };
            &&& members.len() == 4 + plain + token + key + signature + sealed
            &&& members[0] == ("id"@, JsonScalarView::Text(request.id))
            &&& members[1] == ("uuid"@, JsonScalarView::Text(request.uuid))
            &&& members[2] == ("policy_version"@, JsonScalarView::Text(request.policy_version))
            &&& plain == 1 ==> members[3] == (
                "access_token"@,
                JsonScalarView::Text(request.access_token),
            )
            &&& token == 1 ==> members[3 + plain] == (
                "sealed_token"@,
                JsonScalarView::Text(request.sealed_token),
            )
            &&& members[3 + plain + token] == ("hostname"@, JsonScalarView::Text(request.hostname))
            &&& key == 1 ==> members[4 + plain + token] == (
                "device_key_pub"@,
                JsonScalarView::Text(request.device_key_pub),
            )
            &&& signature == 1 ==> members[4 + plain + token + key] == (
                "device_key_sig"@,
                JsonScalarView::Text(request.device_key_sig),
            )
            &&& sealed == 1 ==> members[4 + plain + token + key + signature] == (
                "sealed"@,
                JsonScalarView::Text(request.sealed),
            )
        }),
{
}

/// The session token of the user is sent, with or without a device key: sealed with its
/// time to the management key where that key can be sealed to, and as it is otherwise.
pub proof fn law_session_token_is_sent(
    inputs: PollInputs,
    device: Option<DeviceKeys>,
    request: ClientPolicyRequestView,
)
    requires
        is_request(inputs, device, request),
        inputs.access_token@.len() > 0,
    ensures
        match sealing_key(trimmed(inputs.public_key@)) {
            Some(key) => {
                &&& is_sealed_text(
                    request.sealed_token,
                    encode_utf8(
                        json_object_text(
                            seq![
                                ("token"@, JsonScalarView::Text(inputs.access_token@)),
                                ("ts"@, JsonScalarView::Number(inputs.token_ts)),
                            ],
                        ),
                    ),
                    key,
                )
                &&& request.access_token.len() == 0
                &&& request.members().contains(
                    ("sealed_token"@, JsonScalarView::Text(request.sealed_token)),
                )
            },
            None => {
                &&& request.access_token == inputs.access_token@
                &&& request.sealed_token.len() == 0
                &&& request.members().contains(
                    ("access_token"@, JsonScalarView::Text(inputs.access_token@)),
                )
            },
        },
{
    law_members_one_by_one(request);
    assert(request.members().contains(request.members()[3]));
}

/// Without a session token none is sent.
pub proof fn law_nobody_logged_in_sends_no_token(
    inputs: PollInputs,
    device: Option<DeviceKeys>,
    request: ClientPolicyRequestView,
)
    requires
        is_request(inputs, device, request),
        inputs.access_token@.len() == 0,
    ensures
        request.access_token.len() == 0,
        request.sealed_token.len() == 0,
{
}

/// A poll says who asks: the id, the uuid in base64, the policy that was applied last
/// and the host name, as they were given.
pub proof fn law_poll_says_who_asks(
    inputs: PollInputs,
    device: Option<DeviceKeys>,
    request: ClientPolicyRequestView,
)
    requires
        is_request(inputs, device, request),
    ensures
        request.id == inputs.id@,
        request.uuid == base64_text(inputs.uuid@),
        request.policy_version == inputs.last_policy@,
        request.hostname == inputs.hostname@,
        request.members()[0] == ("id"@, JsonScalarView::Text(inputs.id@)),
        request.members()[1] == ("uuid"@, JsonScalarView::Text(base64_text(inputs.uuid@))),
        request.members()[2] == ("policy_version"@, JsonScalarView::Text(inputs.last_policy@)),
        request.members().contains(("hostname"@, JsonScalarView::Text(inputs.hostname@))),
{
    law_members_one_by_one(request);
    let plain: int = if request.access_token.len() > 0 {
        1
    } else {
        0
    };
    let token: int = if request.sealed_token.len() > 0 {
        1
    } else {
        0
    };
    assert(request.members()[3 + plain + token].0 == "hostname"@);
}

/// A client with a device key shows its public key, signs its id and the time, and says
/// that it opens sealed answers. One without does none of this.
pub proof fn law_device_key_is_shown(
    inputs: PollInputs,
    device: Option<DeviceKeys>,
    request: ClientPolicyRequestView,
)
    requires
        is_request(inputs, device, request),
    ensures
        match device {
            Some(keys) => {
                &&& request.device_key_pub == base64_text(keys.public_key@)
                &&& request.device_key_sig == base64_text(
                    ed25519_signed(
                        encode_utf8(
                            "nemo-poll:"@ + inputs.id@ + ":"@ + decimal(inputs.sign_ts as nat),
                        ),
                        keys.secret_key@,
                    ),
                )
                &&& request.sealed == "v1"@
            },
            None => {
                &&& request.device_key_pub.len() == 0
                &&& request.device_key_sig.len() == 0
                &&& request.sealed.len() == 0
            },
        },
{
    law_poll_message_in_full(inputs.id@, inputs.sign_ts);
}

/// Whoever signs, with whatever device key: what comes out is the key and the signed
/// message in base64.
pub proof fn law_device_signature_in_full(
    context: Seq<char>,
    id: Seq<char>,
    ts: u64,
    device: Option<DeviceKeys>,
)
    ensures
        device_signature(context, id, ts, device) == match device {
            Some(keys) => (
                base64_text(keys.public_key@),
                base64_text(
                    ed25519_signed(
                        encode_utf8(context + seq![':'] + id + seq![':'] + decimal(ts as nat)),
                        keys.secret_key@,
                    ),
                ),
            ),
            None => (Seq::empty(), Seq::empty()),
        },
{
    law_device_signs_context_id_and_time(context, id, ts);
}

/// A poll sends JSON and asks for JSON.
pub proof fn law_headers_ask_for_json()
    ensures
        poll_headers_text() == json_object_text(
            seq![
                ("Accept"@, JsonScalarView::Text("application/json"@)),
                ("Content-Type"@, JsonScalarView::Text("application/json"@)),
            ],
        ),
{
    assert(required("Accept"@, "application/json"@) + required(
        "Content-Type"@,
        "application/json"@,
    ) =~= seq![
        ("Accept"@, JsonScalarView::Text("application/json"@)),
        ("Content-Type"@, JsonScalarView::Text("application/json"@)),
    ]);
}

/// What a request says is what its fields hold.
pub proof fn law_request_says_what_it_holds(request: ClientPolicyRequest)
    ensures
        request@.id == request.id@,
        request@.uuid == request.uuid@,
        request@.policy_version == request.policy_version@,
        request@.access_token == request.access_token@,
        request@.sealed_token == request.sealed_token@,
        request@.hostname == request.hostname@,
        request@.device_key_pub == request.device_key_pub@,
        request@.device_key_sig == request.device_key_sig@,
        request@.sealed == request.sealed@,
{
}

/// A poll fits unless the uuid or the signed message is too long for memory once it is
/// in base64.
pub proof fn law_only_memory_limits_a_poll(inputs: PollInputs)
    ensures
        inputs.fits() <==> inputs.uuid@.len() <= isize::MAX as int / 4 * 3 && encode_utf8(
            "nemo-poll:"@ + inputs.id@ + ":"@ + decimal(inputs.sign_ts as nat),
        ).len() + 64 <= isize::MAX as int / 4 * 3,
{
    law_poll_message_in_full(inputs.id@, inputs.sign_ts);
}

}
