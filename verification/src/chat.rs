//! The three-peer chat: its messages, the mesh of peers, and the decisions
//! of the peer and binder threads.
use vstd::prelude::*;
use vstd::utf8::{decode_utf8, valid_utf8};
use crate::sys::{
    is_uuid_v4_text, lossy_text, lossy_utf8, random_uuid_text,
    utc_unix_seconds,
};
use crate::text::{byte_list, byte_list_text, decimal, decimal_text, views};
use crate::view::Rgb;

verus! {

/// A chat message as peers exchange it.
#[derive(Clone, Debug)]
pub struct ChatMessage {
    pub id: String,
    pub sender: String,
    pub content: String,
    pub timestamp: i64,
}

impl ChatMessage {
    /// A new message from `sender`, with a fresh random identifier and the
    /// current Unix time in seconds.
    pub fn new(sender: String, content: String) -> (r: ChatMessage)
        ensures
            r.sender == sender,
            r.content == content,
            is_uuid_v4_text(r.id@),
            r.timestamp >= 0,
    {
        ChatMessage { id: random_uuid_text(), sender, content, timestamp: utc_unix_seconds() }
    }
}

/// A message a window hands to its peer thread for publishing.
pub struct NetworkCommand {
    pub message: ChatMessage,
}

/// A message a peer thread received and hands to its window.
pub struct NetworkEvent {
    pub message: ChatMessage,
}

/// The transport the chat mesh runs over.
#[derive(Clone, Copy, Debug, PartialEq, Eq, Structural)]
pub enum Transport {
    IPC,
    TCP,
}

/// The names of the three peers, in order.
pub open spec fn peer_name(i: int) -> Seq<char> {
    if i == 0 {
        "Alice"@
    } else if i == 1 {
        "Bob"@
    } else {
        "Charlie"@
    }
}

/// The address each peer's publisher binds to.
pub open spec fn peer_address(transport: Transport, i: int) -> Seq<char> {
    match transport {
        Transport::IPC => if i == 0 {
            "ipc://alice.ipc"@
        } else if i == 1 {
            "ipc://bob.ipc"@
        } else {
            "ipc://charlie.ipc"@
        },
        Transport::TCP => if i == 0 {
            "tcp://127.0.0.1:5555"@
        } else if i == 1 {
            "tcp://127.0.0.1:5556"@
        } else {
            "tcp://127.0.0.1:5557"@
        },
    }
}

/// The indices of the peers that peer `i` subscribes to: the other two, in
/// order.
pub open spec fn subscribed_peers(i: int) -> Seq<int> {
    if i == 0 {
        seq![1, 2]
    } else if i == 1 {
        seq![0, 2]
    } else {
        seq![0, 1]
    }
}

/// How one peer of the mesh is started.
pub struct PeerPlan {
    /// The peer's name, which labels its window and its messages.
    pub name: String,
    /// The address its publisher binds to.
    pub address: String,
    /// The addresses its subscriber connects to.
    pub subscriptions: Vec<String>,
}

/// Whether `plan` is the plan of peer `i` over `transport`.
pub open spec fn is_peer_plan(plan: PeerPlan, transport: Transport, i: int) -> bool {
    &&& plan.name@ == peer_name(i)
    &&& plan.address@ == peer_address(transport, i)
    &&& plan.subscriptions@.len() == 2
    &&& forall|k: int|
        0 <= k < 2 ==> (#[trigger] plan.subscriptions@[k])@ == peer_address(
            transport,
            subscribed_peers(i)[k],
        )
}

fn address_of(transport: Transport, i: usize) -> (r: String)
    requires
        i < 3,
    ensures
        r@ == peer_address(transport, i as int),
{
    match transport {
        Transport::IPC => if i == 0 {
            String::from_str("ipc://alice.ipc")
        } else if i == 1 {
            String::from_str("ipc://bob.ipc")
        } else {
            String::from_str("ipc://charlie.ipc")
        },
        Transport::TCP => if i == 0 {
            String::from_str("tcp://127.0.0.1:5555")
        } else if i == 1 {
            String::from_str("tcp://127.0.0.1:5556")
        } else {
            String::from_str("tcp://127.0.0.1:5557")
        },
    }
}

fn plan_of(transport: Transport, i: usize) -> (r: PeerPlan)
    requires
        i < 3,
    ensures
        is_peer_plan(r, transport, i as int),
{
    let name = if i == 0 {
        String::from_str("Alice")
    } else if i == 1 {
        String::from_str("Bob")
    } else {
        String::from_str("Charlie")
    };
    let (first, second): (usize, usize) = if i == 0 {
        (1, 2)
    } else if i == 1 {
        (0, 2)
    } else {
        (0, 1)
    };
    let mut subscriptions: Vec<String> = Vec::new();
    subscriptions.push(address_of(transport, first));
    subscriptions.push(address_of(transport, second));
    PeerPlan { name, address: address_of(transport, i), subscriptions }
}

/// The plans of the three peers of the mesh over `transport`: each binds its
/// own address and subscribes to the other two.
pub fn mesh_plan(transport: Transport) -> (r: Vec<PeerPlan>)
    ensures
        r@.len() == 3,
        forall|i: int| 0 <= i < 3 ==> is_peer_plan(#[trigger] r@[i], transport, i),
{
    let mut plans: Vec<PeerPlan> = Vec::new();
    plans.push(plan_of(transport, 0));
    plans.push(plan_of(transport, 1));
    plans.push(plan_of(transport, 2));
    plans
}

/// In the mesh every peer subscribes to every other peer and never to
/// itself, and no two peers share an address.
pub proof fn lemma_mesh_is_complete(transport: Transport)
    ensures
        forall|i: int, j: int|
            0 <= i < 3 && 0 <= j < 3 && i != j ==> peer_address(transport, i) != peer_address(
                transport,
                j,
            ),
        forall|i: int, j: int|
            0 <= i < 3 && 0 <= j < 3 ==> (subscribed_peers(i).contains(j) <==> i != j),
{
    reveal_strlit("ipc://alice.ipc");
    reveal_strlit("ipc://bob.ipc");
    reveal_strlit("ipc://charlie.ipc");
    reveal_strlit("tcp://127.0.0.1:5555");
    reveal_strlit("tcp://127.0.0.1:5556");
    reveal_strlit("tcp://127.0.0.1:5557");
    assert forall|i: int, j: int|
        0 <= i < 3 && 0 <= j < 3 && i != j implies peer_address(transport, i) != peer_address(
        transport,
        j,
    ) by {
        let a = peer_address(transport, i);
        let b = peer_address(transport, j);
        match transport {
            Transport::IPC => {
                assert(a.len() != b.len() || a[6] != b[6]);
            },
            Transport::TCP => {
                assert(a[19] != b[19]);
            },
        }
    }
    assert forall|i: int, j: int| 0 <= i < 3 && 0 <= j < 3 implies (subscribed_peers(i).contains(
        j,
    ) <==> i != j) by {
        let s = subscribed_peers(i);
        if i != j {
            if i == 0 {
                assert(s[j - 1] == j);
            } else if i == 1 {
                if j == 0 {
                    assert(s[0] == j);
                } else {
                    assert(s[1] == j);
                }
            } else {
                assert(s[j] == j);
            }
        }
    }
}

/// The error listed when peer `name` at `address` failed to start.
pub fn peer_start_error(name: &str, address: &str, error: &str) -> (r: String)
    ensures
        r@ == name@ + " ("@ + address@ + ") failed: "@ + error@,
{
    let mut r = String::from_str(name);
    r.append(" (");
    r.append(address);
    r.append(") failed: ");
    r.append(error);
    r
}

/// The lines of the start-up error list: one for each peer whose start
/// failed, in peer order.
pub open spec fn startup_error_lines(
    plans: Seq<PeerPlan>,
    outcomes: Seq<Result<(), String>>,
) -> Seq<Seq<char>>
    decreases outcomes.len(),
{
    if outcomes.len() == 0 || plans.len() < outcomes.len() {
        Seq::empty()
    } else {
        let i = outcomes.len() - 1;
        startup_error_lines(plans, outcomes.drop_last()) + match outcomes.last() {
            Ok(()) => Seq::empty(),
            Err(e) => seq![plans[i].name@ + " ("@ + plans[i].address@ + ") failed: "@ + e@],
        }
    }
}

/// The start-up error list after starting the peers of `plans`, whose
/// starts ended with `outcomes`, peer by peer: the list is cleared first and
/// then holds one line for each failed start, in peer order.
pub fn startup_errors(plans: &[PeerPlan], outcomes: &[Result<(), String>]) -> (r: Vec<String>)
    requires
        plans@.len() == outcomes@.len(),
    ensures
        views(r@) == startup_error_lines(plans@, outcomes@),
{
    let n = outcomes.len();
    let mut lines: Vec<String> = Vec::new();
    let mut i: usize = 0;
    while i < n
        invariant
            n == outcomes@.len(),
            n == plans@.len(),
            i <= n,
            views(lines@) == startup_error_lines(plans@, outcomes@.take(i as int)),
        decreases n - i,
    {
        assert(outcomes@.take(i + 1).drop_last() =~= outcomes@.take(i as int));
        let ghost before = lines@;
        match &outcomes[i] {
            Ok(()) => {},
            Err(e) => {
                let line = peer_start_error(plans[i].name.as_str(), plans[i].address.as_str(), e.as_str());
                lines.push(line);
                assert(views(lines@) =~= views(before) + seq![line@]);
            },
        }
        assert(outcomes@.take(i + 1).last() == outcomes@[i as int]);
        i = i + 1;
    }
    assert(outcomes@.take(n as int) =~= outcomes@);
    lines
}

/// Whether two texts are equal, character by character.
pub fn same_text(a: &str, b: &str) -> (r: bool)
    ensures
        r == (a@ == b@),
{
    let n = a.unicode_len();
    if n != b.unicode_len() {
        return false;
    }
    let mut i: usize = 0;
    while i < n
        invariant
            n == a@.len(),
            n == b@.len(),
            i <= n,
            a@.take(i as int) == b@.take(i as int),
        decreases n - i,
    {
        if a.get_char(i) != b.get_char(i) {
            assert(a@[i as int] != b@[i as int]);
            return false;
        }
        assert(a@.take(i + 1) =~= a@.take(i as int).push(a@[i as int]));
        assert(b@.take(i + 1) =~= b@.take(i as int).push(b@[i as int]));
        i = i + 1;
    }
    assert(a@.take(n as int) =~= a@);
    assert(b@.take(n as int) =~= b@);
    true
}

/// The bytes of `bytes` added up with wrap-around at 256.
pub open spec fn byte_sum(bytes: Seq<u8>) -> u8
    decreases bytes.len(),
{
    if bytes.len() == 0 {
        0
    } else {
        ((byte_sum(bytes.drop_last()) + bytes.last()) % 256) as u8
    }
}

/// The colour of a chat bubble: green for the viewer's own messages, and for
/// others one of three colours picked by the wrapping sum of the sender's
/// UTF-8 bytes.
pub open spec fn bubble_colour_spec(sender: Seq<char>, viewer: Seq<char>) -> Rgb {
    if sender == viewer {
        Rgb { r: 40, g: 120, b: 40 }
    } else {
        let h = byte_sum(vstd::utf8::encode_utf8(sender)) % 3;
        if h == 0 {
            Rgb { r: 40, g: 60, b: 120 }
        } else if h == 1 {
            Rgb { r: 120, g: 60, b: 40 }
        } else {
            Rgb { r: 100, g: 40, b: 100 }
        }
    }
}

/// The colour of a bubble holding a message from `sender`, seen in the
/// window of `viewer`.
pub fn bubble_colour(sender: &str, viewer: &str) -> (r: Rgb)
    ensures
        r == bubble_colour_spec(sender@, viewer@),
{
    if same_text(sender, viewer) {
        return Rgb { r: 40, g: 120, b: 40 };
    }
    let bytes = sender.as_bytes();
    let n = bytes.len();
    let mut sum: u8 = 0;
    let mut i: usize = 0;
    while i < n
        invariant
            n == bytes@.len(),
            i <= n,
            sum == byte_sum(bytes@.take(i as int)),
        decreases n - i,
    {
        assert(bytes@.take(i + 1).drop_last() =~= bytes@.take(i as int));
        sum = sum.wrapping_add(bytes[i]);
        i = i + 1;
    }
    assert(bytes@.take(n as int) =~= bytes@);
    let h = sum % 3;
    if h == 0 {
        Rgb { r: 40, g: 60, b: 120 }
    } else if h == 1 {
        Rgb { r: 120, g: 60, b: 40 }
    } else {
        Rgb { r: 100, g: 40, b: 100 }
    }
}

/// The message `name` sends when the typed `input` is submitted: none when
/// nothing was typed.
pub fn compose_message(name: &str, input: &str) -> (r: Option<ChatMessage>)
    ensures
        input@.len() == 0 ==> r is None,
        input@.len() != 0 ==> (r matches Some(m) && m.sender@ == name@ && m.content@ == input@
            && is_uuid_v4_text(m.id@) && m.timestamp >= 0),
{
    if input.is_empty() {
        None
    } else {
        Some(ChatMessage::new(String::from_str(name), String::from_str(input)))
    }
}

/// The test message the controller sends to every peer.
pub fn ping_message() -> (r: ChatMessage)
    ensures
        r.sender@ == "System"@,
        r.content@ == "PING (Manual Test)"@,
        is_uuid_v4_text(r.id@),
        r.timestamp >= 0,
{
    ChatMessage::new(String::from_str("System"), String::from_str("PING (Manual Test)"))
}

/// The scheme prefix of IPC addresses.
pub open spec fn ipc_scheme() -> Seq<char> {
    "ipc://"@
}

/// `s` with every leading copy of `prefix` removed, as
/// `str::trim_start_matches` does for a non-empty prefix.
pub open spec fn strip_prefixes(s: Seq<char>, prefix: Seq<char>) -> Seq<char>
    decreases s.len(),
{
    if prefix.len() > 0 && prefix.len() <= s.len() && s.take(prefix.len() as int) == prefix {
        strip_prefixes(s.skip(prefix.len() as int), prefix)
    } else {
        s
    }
}

/// The file path behind an IPC address: the address without its `ipc://`
/// prefixes, or none when it is not an IPC address.
pub open spec fn ipc_path_spec(address: Seq<char>) -> Option<Seq<char>> {
    if ipc_scheme().len() <= address.len() && address.take(ipc_scheme().len() as int)
        == ipc_scheme() {
        Some(strip_prefixes(address, ipc_scheme()))
    } else {
        None
    }
}

fn has_prefix_at(s: &str, from: usize, prefix: &str) -> (r: bool)
    requires
        from <= s@.len(),
    ensures
        r == (prefix@.len() <= s@.len() - from && s@.subrange(
            from as int,
            from + prefix@.len(),
        ) == prefix@),
{
    let n = s.unicode_len();
    let m = prefix.unicode_len();
    if m > n - from {
        return false;
    }
    let mut i: usize = 0;
    while i < m
        invariant
            n == s@.len(),
            m == prefix@.len(),
            from + m <= n,
            i <= m,
            s@.subrange(from as int, from + i) == prefix@.take(i as int),
        decreases m - i,
    {
        if s.get_char(from + i) != prefix.get_char(i) {
            assert(s@.subrange(from as int, from + m)[i as int] != prefix@[i as int]);
            return false;
        }
        assert(s@.subrange(from as int, from + i + 1) =~= s@.subrange(from as int, from + i).push(
            s@[from + i],
        ));
        assert(prefix@.take(i + 1) =~= prefix@.take(i as int).push(prefix@[i as int]));
        i = i + 1;
    }
    assert(prefix@.take(m as int) =~= prefix@);
    true
}

/// The file path behind an IPC address, whose permissions a peer opens up
/// after binding; none for other addresses.
pub fn ipc_socket_path(address: &str) -> (r: Option<String>)
    ensures
        opt_text(r) == ipc_path_spec(address@),
{
    let n = address.unicode_len();
    let prefix = "ipc://";
    proof {
        reveal_strlit("ipc://");
    }
    assert(prefix@ == ipc_scheme());
    assert(ipc_scheme().len() == 6);
    if !has_prefix_at(address, 0, prefix) {
        assert(n >= 6 ==> address@.subrange(0, 6) == address@.take(6));
        return None;
    }
    assert(address@.subrange(0, 6) == address@.take(6));
    let mut from: usize = 0;
    assert(address@.skip(0) =~= address@);
    while has_prefix_at(address, from, prefix)
        invariant
            n == address@.len(),
            prefix@ == ipc_scheme(),
            ipc_scheme().len() == 6,
            from <= n,
            strip_prefixes(address@, ipc_scheme()) == strip_prefixes(
                address@.skip(from as int),
                ipc_scheme(),
            ),
        decreases n - from,
    {
        let ghost rest = address@.skip(from as int);
        assert(rest.take(6) =~= address@.subrange(from as int, from + 6));
        assert(rest.skip(6) =~= address@.skip(from + 6));
        from = from + 6;
    }
    let ghost rest = address@.skip(from as int);
    assert(from + 6 <= n ==> rest.take(6) =~= address@.subrange(from as int, from + 6));
    let tail = address.substring_char(from, n);
    assert(tail@ =~= rest);
    Some(String::from_str(tail))
}

/// The view of an optional string.
pub open spec fn opt_text(o: Option<String>) -> Option<Seq<char>> {
    match o {
        Some(s) => Some(s@),
        None => None,
    }
}

/// Something a peer or binder thread reports on its console.
pub enum PeerNotice {
    /// The publisher binds to the thread's address.
    Binding,
    /// The subscriber connects to this address.
    Connecting(String),
    /// The subscriber binds to this address.
    ListeningOn(String),
    /// The polling loop has started.
    PollingStarted,
    /// Publishing a message failed with this error.
    SendFailed(String),
    /// A message arrived that is not UTF-8; these are its bytes.
    NonUtf8(Vec<u8>),
    /// A message of this many bytes arrived.
    ReceivedBytes(usize),
    /// A message arrived with this text.
    Content(String),
    /// Reading from the subscriber failed with this error.
    ReceiveFailed(String),
    /// Polling failed with this error.
    PollFailed(String),
}

/// The console line of a notice from the thread of `address`.
pub open spec fn notice_text(address: Seq<char>, notice: PeerNotice) -> Seq<char> {
    match notice {
        PeerNotice::Binding => "Publisher binding to "@ + address,
        PeerNotice::Connecting(to) => "Subscriber connecting to "@ + to@,
        PeerNotice::ListeningOn(at) => "Subscriber binding to "@ + at@,
        PeerNotice::PollingStarted => "["@ + address + "] Subscriber polling thread started."@,
        PeerNotice::SendFailed(e) => "["@ + address + "] PUB send error: "@ + e@,
        PeerNotice::NonUtf8(bytes) => "["@ + address + "] Received non-UTF8 data: "@
            + byte_list_text(bytes@),
        PeerNotice::ReceivedBytes(n) => "["@ + address + "] Received "@ + decimal(n as nat)
            + " bytes."@,
        PeerNotice::Content(text) => "["@ + address + "] Content: "@ + text@,
        PeerNotice::ReceiveFailed(e) => "["@ + address + "] SUB recv error: "@ + e@,
        PeerNotice::PollFailed(e) => "["@ + address + "] ZMQ Poll error: "@ + e@,
    }
}

/// The console line of a notice from the thread of `address`, and whether
/// the thread keeps polling afterwards: only a failed poll ends its loop.
pub fn peer_notice(address: &str, notice: PeerNotice) -> (r: (String, bool))
    ensures
        r.0@ == notice_text(address@, notice),
        r.1 == !(notice is PollFailed),
{
    match notice {
        PeerNotice::Binding => {
            let mut t = String::from_str("Publisher binding to ");
            t.append(address);
            (t, true)
        },
        PeerNotice::ListeningOn(at) => {
            let mut t = String::from_str("Subscriber binding to ");
            t.append(at.as_str());
            (t, true)
        },
        PeerNotice::Connecting(to) => {
            let mut t = String::from_str("Subscriber connecting to ");
            t.append(to.as_str());
            (t, true)
        },
        PeerNotice::PollingStarted => {
            let mut t = String::from_str("[");
            t.append(address);
            t.append("] Subscriber polling thread started.");
            (t, true)
        },
        PeerNotice::SendFailed(e) => {
            let mut t = String::from_str("[");
            t.append(address);
            t.append("] PUB send error: ");
            t.append(e.as_str());
            (t, true)
        },
        PeerNotice::NonUtf8(bytes) => {
            let mut t = String::from_str("[");
            t.append(address);
            t.append("] Received non-UTF8 data: ");
            let shown = byte_list(bytes.as_slice());
            t.append(shown.as_str());
            (t, true)
        },
        PeerNotice::ReceivedBytes(n) => {
            let mut t = String::from_str("[");
            t.append(address);
            t.append("] Received ");
            let count = decimal_text(n);
            t.append(count.as_str());
            t.append(" bytes.");
            (t, true)
        },
        PeerNotice::Content(text) => {
            let mut t = String::from_str("[");
            t.append(address);
            t.append("] Content: ");
            t.append(text.as_str());
            (t, true)
        },
        PeerNotice::ReceiveFailed(e) => {
            let mut t = String::from_str("[");
            t.append(address);
            t.append("] SUB recv error: ");
            t.append(e.as_str());
            (t, true)
        },
        PeerNotice::PollFailed(e) => {
            let mut t = String::from_str("[");
            t.append(address);
            t.append("] ZMQ Poll error: ");
            t.append(e.as_str());
            (t, false)
        },
    }
}

/// The text of raw bytes a binder received: the bytes as UTF-8, with
/// invalid sequences replaced.
pub fn received_text(bytes: &[u8]) -> (r: String)
    ensures
        r@ == lossy_utf8(bytes@),
        valid_utf8(bytes@) ==> r@ == decode_utf8(bytes@),
{
    lossy_text(bytes)
}

/// The message a binder passes on for a received text: the chat message it
/// parsed as, or else a new message from `External` carrying the raw text.
pub fn binder_message(content: String, parsed: Option<ChatMessage>) -> (r: ChatMessage)
    ensures
        match parsed {
            Some(m) => r == m,
            None => r.sender@ == "External"@ && r.content == content && is_uuid_v4_text(r.id@)
                && r.timestamp >= 0,
        },
{
    match parsed {
        Some(m) => m,
        None => ChatMessage::new(String::from_str("External"), content),
    }
}

/// The binder window's state: the address it binds to, whether it listens,
/// and the error of its last attempt.
pub struct BinderApp {
    pub addr: String,
    pub is_running: bool,
    pub error: Option<String>,
}

impl BinderApp {
    /// An idle binder on the default IPC path.
    pub fn new() -> (r: BinderApp)
        ensures
            r.addr@ == "ipc:///tmp/zmqtest.ipc"@,
            !r.is_running,
            r.error is None,
    {
        BinderApp { addr: String::from_str("ipc:///tmp/zmqtest.ipc"), is_running: false, error: None }
    }

    /// Records the outcome of starting the listener: on success the binder
    /// listens and its error is cleared; on failure the error is kept for
    /// display and the binder stays as it was.
    pub fn start_finished(&mut self, result: Result<(), String>)
        ensures
            final(self).addr == old(self).addr,
            match result {
                Ok(()) => final(self).is_running && final(self).error is None,
                Err(e) => final(self).is_running == old(self).is_running && opt_text(
                    final(self).error,
                ) == Some("Failed to bind: "@ + e@),
            },
    {
        match result {
            Ok(()) => {
                self.is_running = true;
                self.error = None;
            },
            Err(e) => {
                let mut m = String::from_str("Failed to bind: ");
                m.append(e.as_str());
                self.error = Some(m);
            },
        }
    }
}

} // verus!
