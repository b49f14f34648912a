//! Decisions of the development-server hot-patch connection: whether to
//! connect, the request it sends, how the upgrade response is read, and what
//! to do with each incoming message.

use vstd::prelude::*;
use vstd::utf8::{decode_utf8, valid_utf8};
use subsecond::JumpTable;
use crate::decimal::{decimal, push_decimal};
use crate::text::{chars_of, contains_seq, occurs_at};
use crate::websocket::{
    encode_client_frame, encode_client_frame_spec, models, parse_stream, FrameError,
    MessageModel, WebSocketMessage, WebSocketParser,
};

verus! {

/// Subsecond's jump table of a hot patch, carried through unopened from the
/// devserver message to the patch being applied.
#[verifier::external_type_specification]
#[verifier::external_body]
pub struct ExJumpTable(JumpTable);

/// The endpoint to connect to: only when the CLI launched the app and an
/// endpoint is configured.
pub fn should_connect_to_devserver(cli_enabled: bool, endpoint: Option<&str>) -> (r: Option<String>)
    ensures
        match r {
            Some(s) => cli_enabled && (endpoint matches Some(e) && s@ == e@),
            None => !cli_enabled || endpoint is None,
        },
{
    if cli_enabled {
        match endpoint {
            Some(e) => Some(e.to_owned()),
            None => None,
        }
    } else {
        None
    }
}

/// Whether a hot-reload message addressed to `for_pid` and `for_build_id` is
/// meant for this process (`current_pid`) and build (`build_id`; zero accepts
/// any build).
pub open spec fn targets_this_process(
    for_pid: Option<u32>,
    for_build_id: Option<u64>,
    build_id: u64,
    current_pid: u32,
) -> bool {
    &&& (for_pid matches Some(pid) ==> pid == current_pid)
    &&& (for_build_id matches Some(id) ==> build_id == 0 || id == build_id)
}

/// Whether a hot-reload message addressed to `for_pid` and `for_build_id`
/// concerns this process and build.
pub fn hotreload_matches_target(
    for_pid: Option<u32>,
    for_build_id: Option<u64>,
    build_id: u64,
    current_pid: u32,
) -> (r: bool)
    ensures
        r == targets_this_process(for_pid, for_build_id, build_id, current_pid),
{
    let pid_matches = match for_pid {
        None => true,
        Some(pid) => pid == current_pid,
    };
    let build_matches = match for_build_id {
        None => true,
        Some(id) => build_id == 0 || id == build_id,
    };
    pid_matches && build_matches
}

/// The addressing of the hot-reload message that the JSON text `text` holds:
/// its target process, its target build, and whether it carries a jump table;
/// `None` when the text is not a hot-reload devserver message.
pub uninterp spec fn devserver_hot_reload(text: Seq<char>) -> Option<(Option<u32>, Option<u64>, bool)>;

/// Deserializes `text` as a `dioxus_devtools_types::DevserverMsg` with
/// `serde_json::from_str` and, for the `HotReload` variant, hands out its
/// target process, target build, and jump table; for other variants and for
/// text that does not deserialize, `None`. What it hands out is named
/// `devserver_hot_reload`; the JSON schema itself is not stated.
#[verifier::external_body]
fn parse_hot_reload(text: &str) -> (r: Option<(Option<u32>, Option<u64>, Option<JumpTable>)>)
    ensures
        match r {
            Some((pid, build, table)) => devserver_hot_reload(text@) == Some((pid, build, table is Some)),
            None => devserver_hot_reload(text@) is None,
        },
{
    match serde_json::from_str::<dioxus_devtools_types::DevserverMsg>(text) {
        Ok(dioxus_devtools_types::DevserverMsg::HotReload(msg)) => Some(
            (msg.for_pid, msg.for_build_id, msg.jump_table),
        ),
        _ => None,
    }
}

/// Whether the devserver text `text` asks this process and build to apply a
/// patch.
pub open spec fn text_requests_patch(text: Seq<char>, build_id: u64, current_pid: u32) -> bool {
    devserver_hot_reload(text) matches Some((pid, build, true)) && targets_this_process(
        pid,
        build,
        build_id,
        current_pid,
    )
}

/// The jump table of a parsed hot-reload message, kept only when the message
/// targets this process and build.
pub fn select_patch(
    parsed: Option<(Option<u32>, Option<u64>, Option<JumpTable>)>,
    build_id: u64,
    current_pid: u32,
) -> (r: Option<JumpTable>)
    ensures
        r == (match parsed {
            Some((pid, build, table)) => if targets_this_process(pid, build, build_id, current_pid) {
                table
            } else {
                None
            },
            None => None,
        }),
{
    match parsed {
        Some((pid, build, table)) => {
            if hotreload_matches_target(pid, build, build_id, current_pid) {
                table
            } else {
                None
            }
        },
        None => None,
    }
}

/// The patch that the devserver text `text` asks this process to apply, if
/// any.
pub fn handle_text_message(text: &str, build_id: u64, current_pid: u32) -> (r: Option<JumpTable>)
    ensures
        r is Some <==> text_requests_patch(text@, build_id, current_pid),
{
    select_patch(parse_hot_reload(text), build_id, current_pid)
}

/// A flag raised when a hot patch has been applied and consumed by the next
/// rebuild.
#[derive(Clone, Copy, Debug)]
pub struct HotpatchSignal {
    pending: bool,
}

impl HotpatchSignal {
    /// Whether a patch is waiting to be consumed.
    pub closed spec fn is_pending(&self) -> bool {
        self.pending
    }

    /// A signal with nothing pending.
    pub fn new() -> (s: Self)
        ensures
            !s.is_pending(),
    {
        HotpatchSignal { pending: false }
    }

    /// Records that a patch was applied.
    pub fn mark_pending(&mut self)
        ensures
            final(self).is_pending(),
    {
        self.pending = true;
    }

    /// Records that a patch was applied (as the patch handler does).
    pub fn mark_pending_for_test(&mut self)
        ensures
            final(self).is_pending(),
    {
        self.mark_pending();
    }

    /// Whether a patch was pending; the flag is cleared, so each patch is
    /// consumed once.
    pub fn take_pending(&mut self) -> (r: bool)
        ensures
            r == old(self).is_pending(),
            !final(self).is_pending(),
    {
        let r = self.pending;
        self.pending = false;
        r
    }
}

impl Default for HotpatchSignal {
    fn default() -> (s: Self)
        ensures
            !s.is_pending(),
    {
        HotpatchSignal::new()
    }
}

/// Whether the character sequence holds `c`.
pub open spec fn has_char(s: Seq<char>, c: char) -> bool {
    exists|i: int| 0 <= i < s.len() && s[i] == c
}

/// The devserver URL that identifies this process: the endpoint followed by
/// its ASLR reference, build, and process id as query parameters.
pub open spec fn hotpatch_request_url_spec(
    endpoint: Seq<char>,
    aslr_reference: nat,
    build_id: nat,
    pid: nat,
) -> Seq<char> {
    endpoint + (if has_char(endpoint, '?') {
        "&"@
    } else {
        "?"@
    }) + "aslr_reference="@ + decimal(aslr_reference) + "&build_id="@ + decimal(build_id)
        + "&pid="@ + decimal(pid)
}

/// The devserver URL that identifies this process.
pub fn hotpatch_request_url(endpoint: &str, aslr_reference: usize, build_id: u64, pid: u32) -> (r:
    String)
    ensures
        r@ == hotpatch_request_url_spec(endpoint@, aslr_reference as nat, build_id as nat, pid as nat),
{
    let chars = chars_of(endpoint);
    let mut has_query = false;
    let mut i: usize = 0;
    while i < chars.len()
        invariant
            0 <= i <= chars@.len(),
            chars@ == endpoint@,
            has_query == exists|j: int| 0 <= j < i && chars@[j] == '?',
        decreases chars@.len() - i,
    {
        if chars[i] == '?' {
            has_query = true;
        }
        i = i + 1;
    }
    let mut r = String::from_str(endpoint);
    if has_query {
        r.append("&");
    } else {
        r.append("?");
    }
    r.append("aslr_reference=");
    push_decimal(&mut r, aslr_reference as u64);
    r.append("&build_id=");
    push_decimal(&mut r, build_id);
    r.append("&pid=");
    push_decimal(&mut r, pid as u64);
    r
}

/// The blank line that ends the headers of an HTTP response.
pub open spec fn header_terminator() -> Seq<u8> {
    seq![13u8, 10u8, 13u8, 10u8]
}

/// The position of the first `\r\n\r\n` in `buffer`, if any.
pub fn find_header_terminator(buffer: &[u8]) -> (r: Option<usize>)
    ensures
        match r {
            Some(i) => occurs_at(buffer@, header_terminator(), i as int) && forall|j: int|
                0 <= j < i ==> !occurs_at(buffer@, header_terminator(), j),
            None => !contains_seq(buffer@, header_terminator()),
        },
{
    let n = buffer.len();
    if n < 4 {
        assert forall|j: int| !occurs_at(buffer@, header_terminator(), j) by {}
        return None;
    }
    let mut i: usize = 0;
    while i <= n - 4
        invariant
            n == buffer@.len(),
            n >= 4,
            0 <= i <= n - 3,
            forall|j: int| 0 <= j < i ==> !occurs_at(buffer@, header_terminator(), j),
        decreases n - i,
    {
        if buffer[i] == 13 && buffer[i + 1] == 10 && buffer[i + 2] == 13 && buffer[i + 3] == 10 {
            assert(buffer@.subrange(i as int, i + 4) =~= header_terminator());
            return Some(i);
        }
        proof {
            if buffer@.subrange(i as int, i + 4) == header_terminator() {
                assert(buffer@.subrange(i as int, i + 4)[0] == buffer@[i as int]);
                assert(buffer@.subrange(i as int, i + 4)[1] == buffer@[i + 1]);
                assert(buffer@.subrange(i as int, i + 4)[2] == buffer@[i + 2]);
                assert(buffer@.subrange(i as int, i + 4)[3] == buffer@[i + 3]);
            }
        }
        i = i + 1;
    }
    None
}

/// The text that `String::from_utf8_lossy` makes of `bytes`.
pub uninterp spec fn utf8_lossy(bytes: Seq<u8>) -> Seq<char>;

/// Decodes `bytes` with `String::from_utf8_lossy`: the text is named
/// `utf8_lossy`; for UTF-8 input it is the decoded text, while what replaces
/// invalid sequences is not stated.
#[verifier::external_body]
fn lossy_text(bytes: &[u8]) -> (s: String)
    ensures
        s@ == utf8_lossy(bytes@),
        valid_utf8(bytes@) ==> s@ == decode_utf8(bytes@),
{
    String::from_utf8_lossy(bytes).into_owned()
}

/// The position of the first `\r\n\r\n` in `buf`, if any.
pub open spec fn header_end(buf: Seq<u8>) -> Option<int> {
    if contains_seq(buf, header_terminator()) {
        Some(
            choose|i: int|
                occurs_at(buf, header_terminator(), i) && forall|j: int|
                    0 <= j < i ==> !occurs_at(buf, header_terminator(), j),
        )
    } else {
        None
    }
}

/// The first line of `text` as `str::lines` yields it: up to the first `\n`
/// with one `\r` before it removed; all of `text` when it has no `\n`.
pub open spec fn first_line(text: Seq<char>) -> Seq<char> {
    match crate::text::first_index_of(text, '\n') {
        Some(k) => {
            let line = text.subrange(0, k);
            if line.len() > 0 && line.last() == '\r' {
                line.drop_last()
            } else {
                line
            }
        },
        None => text,
    }
}

/// Where reading the server's answer to the upgrade request stands.
pub enum HandshakeOutcome {
    /// The headers are not complete yet.
    Pending,
    /// The server switched protocols; the bytes after the headers already
    /// belong to the websocket stream.
    Upgraded(Vec<u8>),
    /// The server refused; the message names its status line.
    Rejected(String),
}

/// The content of a [`HandshakeOutcome`].
pub enum HandshakeModel {
    Pending,
    Upgraded(Seq<u8>),
    Rejected(Seq<char>),
}

impl View for HandshakeOutcome {
    type V = HandshakeModel;

    open spec fn view(&self) -> HandshakeModel {
        match self {
            HandshakeOutcome::Pending => HandshakeModel::Pending,
            HandshakeOutcome::Upgraded(b) => HandshakeModel::Upgraded(b@),
            HandshakeOutcome::Rejected(s) => HandshakeModel::Rejected(s@),
        }
    }
}

/// The outcome of the upgrade response received so far: pending until the
/// headers end; then accepted when the status line holds `101`, with the
/// bytes after the headers left over, and refused otherwise.
pub open spec fn handshake_outcome_spec(buffer: Seq<u8>) -> HandshakeModel {
    match header_end(buffer) {
        None => HandshakeModel::Pending,
        Some(end) => {
            let line = first_line(utf8_lossy(buffer.subrange(0, end)));
            if contains_seq(line, "101"@) {
                HandshakeModel::Upgraded(buffer.subrange(end + 4, buffer.len() as int))
            } else {
                HandshakeModel::Rejected("websocket upgrade rejected: "@ + line)
            }
        },
    }
}

fn copy_range(buf: &[u8], from: usize, to: usize) -> (r: Vec<u8>)
    requires
        from <= to <= buf@.len(),
    ensures
        r@ == buf@.subrange(from as int, to as int),
{
    let mut r: Vec<u8> = Vec::new();
    let mut i = from;
    while i < to
        invariant
            from <= i <= to,
            to <= buf@.len(),
            r@ == buf@.subrange(from as int, i as int),
        decreases to - i,
    {
        r.push(buf[i]);
        i = i + 1;
        assert(r@ =~= buf@.subrange(from as int, i as int));
    }
    r
}

fn contains_101(line: &Vec<char>) -> (r: bool)
    ensures
        r == contains_seq(line@, "101"@),
{
    proof {
        reveal_strlit("101");
    }
    let n = line.len();
    if n < 3 {
        assert forall|i: int| !occurs_at(line@, "101"@, i) by {}
        return false;
    }
    let mut i: usize = 0;
    while i <= n - 3
        invariant
            n == line@.len(),
            n >= 3,
            0 <= i <= n - 2,
            "101"@ =~= seq!['1', '0', '1'],
            forall|j: int| 0 <= j < i ==> !occurs_at(line@, "101"@, j),
        decreases n - i,
    {
        if line[i] == '1' && line[i + 1] == '0' && line[i + 2] == '1' {
            assert(line@.subrange(i as int, i + 3) =~= "101"@);
            assert(occurs_at(line@, "101"@, i as int));
            return true;
        }
        proof {
            if line@.subrange(i as int, i + 3) == "101"@ {
                assert(line@.subrange(i as int, i + 3)[0] == line@[i as int]);
                assert(line@.subrange(i as int, i + 3)[1] == line@[i + 1]);
                assert(line@.subrange(i as int, i + 3)[2] == line@[i + 2]);
            }
        }
        i = i + 1;
    }
    assert forall|j: int| !occurs_at(line@, "101"@, j) by {
        if 0 <= j && j + 3 <= n {
        }
    }
    false
}

/// Reads the upgrade response received so far.
pub fn handshake_outcome(buffer: &[u8]) -> (r: HandshakeOutcome)
    ensures
        r@ == handshake_outcome_spec(buffer@),
{
    match find_header_terminator(buffer) {
        None => HandshakeOutcome::Pending,
        Some(end) => {
            proof {
                let k = choose|i: int|
                    occurs_at(buffer@, header_terminator(), i) && forall|j: int|
                        0 <= j < i ==> !occurs_at(buffer@, header_terminator(), j);
                assert(k == end as int) by {
                    if k < end {
                    } else if k > end {
                    }
                }
            }
            assert(header_terminator().len() == 4);
            let total = buffer.len();
            assert(end + 4 <= total);
            let after = end + 4;
            let headers = copy_range(buffer, 0, end);
            let text = lossy_text(headers.as_slice());
            let chars = chars_of(text.as_str());
            let line_end = match crate::text::find_char(&chars, '\n') {
                Some(k) => k,
                None => chars.len(),
            };
            let mut line_len = line_end;
            if line_end < chars.len() && line_end > 0 && chars[line_end - 1] == '\r' {
                line_len = line_end - 1;
            }
            let line_str = crate::text::string_of(&chars, text.as_str(), 0, line_len);
            let line = chars_of(line_str.as_str());
            assert(line@ == first_line(utf8_lossy(buffer@.subrange(0, end as int))));
            if contains_101(&line) {
                HandshakeOutcome::Upgraded(copy_range(buffer, after, total))
            } else {
                let mut message = String::from_str("websocket upgrade rejected: ");
                message.append(line_str.as_str());
                HandshakeOutcome::Rejected(message)
            }
        },
    }
}

/// What the connection does in answer to incoming messages.
pub enum ConnectionAction {
    /// Apply this hot patch.
    ApplyPatch(JumpTable),
    /// Send these frame bytes back to the server.
    Send(Vec<u8>),
}

/// The content of a [`ConnectionAction`]; a patch is opaque.
pub enum ActionModel {
    ApplyPatch,
    Send(Seq<u8>),
}

impl View for ConnectionAction {
    type V = ActionModel;

    open spec fn view(&self) -> ActionModel {
        match self {
            ConnectionAction::ApplyPatch(_) => ActionModel::ApplyPatch,
            ConnectionAction::Send(b) => ActionModel::Send(b@),
        }
    }
}

/// The actions one message calls for: a targeted hot-reload text applies its
/// patch, a ping is answered with a pong carrying the same payload, and
/// nothing else needs an action.
pub open spec fn actions_for(m: MessageModel, build_id: u64, current_pid: u32) -> Seq<ActionModel> {
    match m {
        MessageModel::Text(t) => if text_requests_patch(t, build_id, current_pid) {
            seq![ActionModel::ApplyPatch]
        } else {
            Seq::empty()
        },
        MessageModel::Ping(p) => seq![ActionModel::Send(encode_client_frame_spec(0xa, p))],
        _ => Seq::empty(),
    }
}

/// The actions for `msgs`, message by message in order.
pub open spec fn plan_spec(msgs: Seq<MessageModel>, build_id: u64, current_pid: u32) -> Seq<
    ActionModel,
>
    decreases msgs.len(),
{
    if msgs.len() == 0 {
        Seq::empty()
    } else {
        plan_spec(msgs.drop_last(), build_id, current_pid) + actions_for(
            msgs.last(),
            build_id,
            current_pid,
        )
    }
}

/// Whether one of `msgs` closes the connection.
pub open spec fn closes(msgs: Seq<MessageModel>) -> bool {
    exists|i: int| 0 <= i < msgs.len() && msgs[i] is Close
}

/// The actions to perform, in order, and whether the server closed the
/// connection.
pub struct IncomingPlan {
    pub actions: Vec<ConnectionAction>,
    pub disconnected: bool,
}

/// The content of the actions of a plan.
pub open spec fn action_models(actions: Seq<ConnectionAction>) -> Seq<ActionModel> {
    actions.map_values(|a: ConnectionAction| a@)
}

/// What to do about `messages`, in order: apply targeted patches, answer
/// pings; and whether a close arrived (later messages are still handled).
pub fn plan_incoming(messages: &Vec<WebSocketMessage>, build_id: u64, current_pid: u32) -> (r:
    IncomingPlan)
    ensures
        action_models(r.actions@) == plan_spec(models(messages@), build_id, current_pid),
        r.disconnected == closes(models(messages@)),
{
    let mut actions: Vec<ConnectionAction> = Vec::new();
    let mut disconnected = false;
    let mut i: usize = 0;
    while i < messages.len()
        invariant
            0 <= i <= messages@.len(),
            action_models(actions@) == plan_spec(
                models(messages@.subrange(0, i as int)),
                build_id,
                current_pid,
            ),
            disconnected == closes(models(messages@.subrange(0, i as int))),
        decreases messages@.len() - i,
    {
        let ghost before = actions@;
        let ghost prefix = models(messages@.subrange(0, i + 1));
        assert(prefix.drop_last() =~= models(messages@.subrange(0, i as int)));
        assert(prefix.last() == messages@[i as int]@);
        match &messages[i] {
            WebSocketMessage::Text(text) => {
                match handle_text_message(text.as_str(), build_id, current_pid) {
                    Some(table) => {
                        actions.push(ConnectionAction::ApplyPatch(table));
                        assert(action_models(actions@) =~= action_models(before) + seq![
                            ActionModel::ApplyPatch,
                        ]);
                    },
                    None => {
                        assert(action_models(actions@) =~= action_models(before) + Seq::<
                            ActionModel,
                        >::empty());
                    },
                }
            },
            WebSocketMessage::Ping(payload) => {
                let frame = encode_client_frame(0xa, payload.as_slice());
                actions.push(ConnectionAction::Send(frame));
                assert(action_models(actions@) =~= action_models(before) + seq![
                    ActionModel::Send(encode_client_frame_spec(0xa, payload@)),
                ]);
            },
            WebSocketMessage::Close => {
                disconnected = true;
                assert(action_models(actions@) =~= action_models(before) + Seq::<
                    ActionModel,
                >::empty());
            },
            _ => {
                assert(action_models(actions@) =~= action_models(before) + Seq::<
                    ActionModel,
                >::empty());
            },
        }
        proof {
            if closes(prefix) && !(prefix.last() is Close) {
                let k = choose|k: int| 0 <= k < prefix.len() && prefix[k] is Close;
                assert(prefix.drop_last()[k] is Close);
            }
            if closes(prefix.drop_last()) {
                let k = choose|k: int| 0 <= k < prefix.len() - 1 && prefix.drop_last()[k] is Close;
                assert(prefix[k] is Close);
            }
        }
        i = i + 1;
    }
    assert(messages@.subrange(0, messages@.len() as int) =~= messages@);
    IncomingPlan { actions, disconnected }
}

/// Feeds `data` to `parser` and plans the answer to every message completed:
/// what the connection does with each chunk it reads.
pub fn parse_incoming(
    parser: &mut WebSocketParser,
    data: &[u8],
    build_id: u64,
    current_pid: u32,
) -> (r: Result<IncomingPlan, FrameError>)
    ensures
        ({
            let outcome = parse_stream(old(parser).pending() + data@);
            &&& final(parser).pending() == outcome.1
            &&& match r {
                Ok(plan) => outcome.2 is None && action_models(plan.actions@) == plan_spec(
                    outcome.0,
                    build_id,
                    current_pid,
                ) && plan.disconnected == closes(outcome.0),
                Err(e) => outcome.2 == Some(e),
            }
        }),
{
    let messages = parser.push(data)?;
    Ok(plan_incoming(&messages, build_id, current_pid))
}

} // verus!
