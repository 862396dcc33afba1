//! The HTTP proxy's rules: where it listens, what a request's guest gets to
//! see, how requests are numbered, and whose word counts when a request
//! ends.

use vstd::prelude::*;
use vstd::string::StringExecFns;
use crate::env::{
    distinct_keys, env_lookup, env_map, lemma_env_map_push, lemma_with_var_distinct,
    lemma_with_var_map, pairs_view, set_var, with_var,
};
use crate::text::{
    decimal, decimal_text, lemma_decimal_text_injective, parse_u32, parsed_u32, same_text,
};

verus! {

/// The name of the variable that holds the listen address.
pub open spec fn addr_key() -> Seq<char> {
    "WASMTIME_HTTP_PROXY_SOCKET_ADDR"@
}

/// The name of the variable that holds the accept backlog.
pub open spec fn backlog_key() -> Seq<char> {
    "WASMTIME_HTTP_BACKLOG"@
}

/// The name of the variable that tells a guest the number of its request.
pub open spec fn request_id_key() -> Seq<char> {
    "REQUEST_ID"@
}

/// The port that the proxy listens on when none is configured.
pub const DEFAULT_PORT: u16 = 8080;

/// The accept backlog when none is configured.
pub const DEFAULT_BACKLOG: u32 = 100;

/// A socket address in plain numbers.
#[derive(Clone, Copy, Debug, PartialEq, Eq, Structural)]
pub enum ListenAddr {
    /// An IPv4 address, its four octets as one number, the first octet the
    /// most significant, and a port.
    V4 { octets: u32, port: u16 },
    /// An IPv6 address, its eight segments as one number, the first segment
    /// the most significant, a port, and the flow and scope that go with it.
    V6 { segments: u128, port: u16, flowinfo: u32, scope_id: u32 },
}

/// The kind of socket that an address needs.
#[derive(Clone, Copy, Debug, PartialEq, Eq, Structural)]
pub enum SocketFamily {
    V4,
    V6,
}

impl ListenAddr {
    /// All IPv4 interfaces, port 8080.
    pub open spec fn spec_unspecified() -> ListenAddr {
        ListenAddr::V4 { octets: 0, port: 8080 }
    }

    /// All IPv4 interfaces, port 8080.
    #[verifier::when_used_as_spec(spec_unspecified)]
    pub fn unspecified() -> (addr: ListenAddr)
        ensures
            addr == Self::spec_unspecified(),
    {
        ListenAddr::V4 { octets: 0, port: DEFAULT_PORT }
    }

    /// The kind of socket to open for this address.
    pub fn family(&self) -> (family: SocketFamily)
        ensures
            family == match *self {
                ListenAddr::V4 { .. } => SocketFamily::V4,
                ListenAddr::V6 { .. } => SocketFamily::V6,
            },
    {
        match self {
            ListenAddr::V4 { .. } => SocketFamily::V4,
            ListenAddr::V6 { .. } => SocketFamily::V6,
        }
    }
}

/// The address to listen on, given what came of reading the configured
/// text: the address that was read, or all interfaces on port 8080 where
/// none was configured or the text is no address.
pub fn listen_addr(parsed: Option<ListenAddr>) -> (addr: ListenAddr)
    ensures
        addr == match parsed {
            Some(configured) => configured,
            None => ListenAddr::unspecified(),
        },
{
    match parsed {
        Some(configured) => configured,
        None => ListenAddr::unspecified(),
    }
}

/// The backlog that a configured text asks for: its number, or 100 where
/// nothing is configured or the text is no number.
pub open spec fn backlog_of(text: Option<Seq<char>>) -> u32 {
    match text {
        Some(text) => match parsed_u32(text) {
            Some(depth) => depth,
            None => 100,
        },
        None => 100,
    }
}

/// The text of an optional string.
pub open spec fn text_of(text: Option<String>) -> Option<Seq<char>> {
    match text {
        Some(text) => Some(text@),
        None => None,
    }
}

/// What the proxy takes from the environment for itself, and what it leaves
/// for the guests.
pub struct ProxySettings {
    /// The configured listen address, as it was written.
    pub addr: Option<String>,
    /// The accept backlog.
    pub backlog: u32,
    /// The guests' environment: no key twice, and none of the proxy's own.
    pub env: Vec<(String, String)>,
}

/// What the guests get of an environment: its entries in order, each key at
/// the place of its first entry with the value of its last, and the proxy's
/// two variables left out.
pub open spec fn guest_env(pairs: Seq<(Seq<char>, Seq<char>)>) -> Seq<(Seq<char>, Seq<char>)>
    decreases pairs.len(),
{
    if pairs.len() == 0 {
        Seq::empty()
    } else if pairs.last().0 == addr_key() || pairs.last().0 == backlog_key() {
        guest_env(pairs.drop_last())
    } else {
        with_var(guest_env(pairs.drop_last()), pairs.last().0, pairs.last().1)
    }
}

/// The guests' environment is the whole one as a map, without the proxy's
/// two variables, and it holds no key twice.
pub proof fn lemma_guest_env(pairs: Seq<(Seq<char>, Seq<char>)>)
    ensures
        env_map(guest_env(pairs)) == env_map(pairs).remove(addr_key()).remove(backlog_key()),
        distinct_keys(guest_env(pairs)),
    decreases pairs.len(),
{
    if pairs.len() == 0 {
        assert(env_map(guest_env(pairs)) =~= env_map(pairs).remove(addr_key()).remove(
            backlog_key(),
        ));
    } else {
        let init = pairs.drop_last();
        let (key, value) = pairs.last();
        lemma_guest_env(init);
        if key == addr_key() || key == backlog_key() {
            assert(env_map(guest_env(pairs)) =~= env_map(pairs).remove(addr_key()).remove(
                backlog_key(),
            ));
        } else {
            lemma_with_var_map(guest_env(init), key, value);
            lemma_with_var_distinct(guest_env(init), key, value);
            assert(env_map(guest_env(pairs)) =~= env_map(pairs).remove(addr_key()).remove(
                backlog_key(),
            ));
        }
    }
}

/// The proxy's two variables have different names.
proof fn lemma_keys_differ()
    ensures
        addr_key() != backlog_key(),
{
    reveal_strlit("WASMTIME_HTTP_PROXY_SOCKET_ADDR");
    reveal_strlit("WASMTIME_HTTP_BACKLOG");
    assert(addr_key().len() != backlog_key().len());
}

impl ProxySettings {
    /// Reads the proxy's settings out of the environment and takes them away
    /// from it. Of two entries with one key the later counts, for the
    /// settings and for what is left. What is left keeps each key once, at
    /// the place where it first stood, and holds neither of the proxy's two
    /// variables.
    pub fn from_env(env: &[(String, String)]) -> (settings: ProxySettings)
        ensures
            text_of(settings.addr) == env_lookup(pairs_view(env@), addr_key()),
            settings.backlog == backlog_of(env_lookup(pairs_view(env@), backlog_key())),
            pairs_view(settings.env@) == guest_env(pairs_view(env@)),
            distinct_keys(pairs_view(settings.env@)),
            env_map(pairs_view(settings.env@)) == env_map(pairs_view(env@)).remove(
                addr_key(),
            ).remove(backlog_key()),
    {
        let ghost pairs = pairs_view(env@);
        let mut addr: Option<String> = None;
        let mut backlog_text: Option<String> = None;
        let mut rest: Vec<(String, String)> = Vec::new();
        let mut i: usize = 0;
        proof {
            lemma_keys_differ();
            assert(pairs.take(0) == Seq::<(Seq<char>, Seq<char>)>::empty());
            assert(pairs_view(rest@) == guest_env(pairs.take(0)));
        }
        while i < env.len()
            invariant
                i <= env.len(),
                pairs == pairs_view(env@),
                addr_key() != backlog_key(),
                text_of(addr) == env_lookup(pairs.take(i as int), addr_key()),
                text_of(backlog_text) == env_lookup(pairs.take(i as int), backlog_key()),
                pairs_view(rest@) == guest_env(pairs.take(i as int)),
            decreases env.len() - i,
        {
            let key = env[i].0.clone();
            let value = env[i].1.clone();
            proof {
                assert(pairs[i as int] == (key@, value@));
                assert(pairs.take(i + 1).drop_last() == pairs.take(i as int));
                assert(pairs.take(i + 1).last() == pairs[i as int]);
                lemma_env_map_push(pairs.take(i as int), pairs[i as int]);
                assert(pairs.take(i + 1) == pairs.take(i as int).push(pairs[i as int]));
            }
            if same_text(key.as_str(), "WASMTIME_HTTP_PROXY_SOCKET_ADDR") {
                addr = Some(value);
            } else if same_text(key.as_str(), "WASMTIME_HTTP_BACKLOG") {
                backlog_text = Some(value);
            } else {
                set_var(&mut rest, key, value);
            }
            i += 1;
        }
        proof {
            assert(pairs.take(i as int) == pairs);
            lemma_guest_env(pairs);
        }
        let backlog = match backlog_text {
            Some(text) => match parse_u32(text.as_str()) {
                Some(depth) => depth,
                None => DEFAULT_BACKLOG,
            },
            None => DEFAULT_BACKLOG,
        };
        ProxySettings { addr, backlog, env: rest }
    }
}

/// The environment of the guest that handles request `req_id`: the shared
/// environment, and behind it the request's number under `REQUEST_ID`.
pub fn request_env(base: &[(String, String)], req_id: u64) -> (env: Vec<(String, String)>)
    ensures
        pairs_view(env@) == pairs_view(base@).push((request_id_key(), decimal_text(req_id as nat))),
{
    let mut env: Vec<(String, String)> = Vec::with_capacity(base.len());
    let mut i: usize = 0;
    while i < base.len()
        invariant
            i <= base.len(),
            pairs_view(env@) == pairs_view(base@).take(i as int),
        decreases base.len() - i,
    {
        let pair = (base[i].0.clone(), base[i].1.clone());
        proof {
            assert(pairs_view(env@.push(pair)) == pairs_view(env@).push((pair.0@, pair.1@)));
            assert(pairs_view(base@).take(i + 1) == pairs_view(base@).take(i as int).push(
                pairs_view(base@)[i as int],
            ));
        }
        env.push(pair);
        i += 1;
    }
    let last = (String::from_str("REQUEST_ID"), decimal(req_id));
    proof {
        assert(pairs_view(base@).take(i as int) == pairs_view(base@));
        assert(pairs_view(env@.push(last)) == pairs_view(env@).push((last.0@, last.1@)));
    }
    env.push(last);
    env
}

/// The numbering of requests: each request gets the next number, from 0 on.
#[derive(Clone, Copy, Debug, PartialEq, Eq, Structural)]
pub struct RequestIds {
    /// The number that the next request gets.
    pub next: u64,
}

impl RequestIds {
    /// The numbering after one more request: one further, and back at 0
    /// behind the largest number.
    pub open spec fn advanced(self) -> RequestIds {
        RequestIds {
            next: if self.next == u64::MAX {
                0
            } else {
                (self.next + 1) as u64
            },
        }
    }

    /// The numbering after `count` more requests.
    pub open spec fn after(self, count: nat) -> RequestIds
        decreases count,
    {
        if count == 0 {
            self
        } else {
            self.after((count - 1) as nat).advanced()
        }
    }

    /// The number of the request that comes when `count` have come before.
    pub open spec fn issued(self, count: nat) -> u64 {
        self.after(count).next
    }

    /// The numbering of a server that has seen no request.
    pub fn new() -> (ids: RequestIds)
        ensures
            ids.next == 0,
    {
        RequestIds { next: 0 }
    }

    /// Numbers a request.
    pub fn next_req_id(&mut self) -> (id: u64)
        ensures
            id == old(self).next,
            *final(self) == old(self).advanced(),
    {
        let id = self.next;
        self.next = if id == u64::MAX {
            0
        } else {
            id + 1
        };
        id
    }

    /// As long as the numbers last, the request that comes with `count`
    /// before it gets the first number plus `count`.
    pub proof fn lemma_issued(self, count: nat)
        requires
            self.next + count <= u64::MAX,
        ensures
            self.issued(count) == self.next + count,
        decreases count,
    {
        if count > 0 {
            self.lemma_issued((count - 1) as nat);
        }
    }

    /// The numbers given out in one server's life rise strictly in the order
    /// of the requests, so no two requests share one. This holds as long as
    /// the numbers last: for the first 2^64 requests.
    pub proof fn lemma_ids_increase(earlier: nat, later: nat)
        requires
            earlier < later <= u64::MAX,
        ensures
            (RequestIds { next: 0 }).issued(earlier) < (RequestIds { next: 0 }).issued(later),
    {
        let fresh = RequestIds { next: 0 };
        fresh.lemma_issued(earlier);
        fresh.lemma_issued(later);
    }
}

/// Two requests with different numbers are told different things: what
/// their guests read under `REQUEST_ID` differs.
pub proof fn lemma_request_ids_read_apart(one: u64, other: u64)
    requires
        one != other,
    ensures
        decimal_text(one as nat) != decimal_text(other as nat),
{
    if decimal_text(one as nat) == decimal_text(other as nat) {
        lemma_decimal_text_injective(one as nat, other as nat);
    }
}

/// What the slot between a guest and the HTTP layer held when the wait for
/// it ended.
pub enum Slot<R, E> {
    /// The guest wrote to it: a response, or an error of the proxy's level.
    Filled(Result<R, E>),
    /// The guest let go of it without writing.
    Closed,
}

/// How the task that ran the guest's handler ended.
pub enum TaskEnd<F> {
    /// The handler returned.
    Succeeded,
    /// The handler, or the task around it, failed with this.
    Failed(F),
}

/// Why a request got no response.
pub enum RequestError<E, F> {
    /// The guest answered with an error of the proxy's level.
    Proxy(E),
    /// The guest's task failed before it answered; this is its failure.
    Guest(F),
    /// The guest's task ended well and had never answered.
    NeverReplied,
}

/// What to do once the wait for the slot has ended.
pub enum Verdict<R, E> {
    /// Hand this response to the HTTP layer.
    Respond(R),
    /// Fail the request with the guest's own error.
    Reject(E),
    /// Nothing was written: ask the guest's task how it ended.
    AskTask,
}

/// Who is to blame for a slot that was closed without a value: the task's
/// failure where it has one, and else the guest's silence.
pub open spec fn blame<E, F>(end: TaskEnd<F>) -> RequestError<E, F> {
    match end {
        TaskEnd::Failed(failure) => RequestError::Guest(failure),
        TaskEnd::Succeeded => RequestError::NeverReplied,
    }
}

/// How a request ends, from what the slot held and how the task ended. What
/// was written to the slot counts, and the task only where nothing was.
pub open spec fn settled<R, E, F>(slot: Slot<R, E>, end: TaskEnd<F>) -> Result<
    R,
    RequestError<E, F>,
> {
    match slot {
        Slot::Filled(Ok(response)) => Ok(response),
        Slot::Filled(Err(error)) => Err(RequestError::Proxy(error)),
        Slot::Closed => Err(blame(end)),
    }
}

/// Reads the slot: what was written decides, and the task is asked only
/// where nothing was.
pub fn read_slot<R, E>(slot: Slot<R, E>) -> (verdict: Verdict<R, E>)
    ensures
        verdict == match slot {
            Slot::Filled(Ok(response)) => Verdict::Respond(response),
            Slot::Filled(Err(error)) => Verdict::Reject(error),
            Slot::Closed => Verdict::AskTask,
        },
{
    match slot {
        Slot::Filled(Ok(response)) => Verdict::Respond(response),
        Slot::Filled(Err(error)) => Verdict::Reject(error),
        Slot::Closed => Verdict::AskTask,
    }
}

/// Names the cause of a request whose slot was closed without a value.
pub fn after_task<E, F>(end: TaskEnd<F>) -> (error: RequestError<E, F>)
    ensures
        error == blame::<E, F>(end),
{
    match end {
        TaskEnd::Failed(failure) => RequestError::Guest(failure),
        TaskEnd::Succeeded => RequestError::NeverReplied,
    }
}

/// Settles a request whose slot and task have both come to an end.
pub fn settle<R, E, F>(slot: Slot<R, E>, end: TaskEnd<F>) -> (outcome: Result<
    R,
    RequestError<E, F>,
>)
    ensures
        outcome == settled(slot, end),
{
    match read_slot(slot) {
        Verdict::Respond(response) => Ok(response),
        Verdict::Reject(error) => Err(RequestError::Proxy(error)),
        Verdict::AskTask => Err(after_task(end)),
    }
}

/// A response that the guest wrote is what the HTTP layer returns, however
/// the guest's task ends afterwards.
pub proof fn lemma_written_response_wins<R, E, F>(response: R, end: TaskEnd<F>)
    ensures
        settled::<R, E, F>(Slot::Filled(Ok(response)), end) == Ok::<R, RequestError<E, F>>(
            response,
        ),
{
}

/// A guest whose task ends well without an answer is told apart: the request
/// fails as never answered, not as a closed channel.
pub proof fn lemma_silent_guest<R, E, F>()
    ensures
        settled::<R, E, F>(Slot::Closed, TaskEnd::Succeeded) == Err::<R, RequestError<E, F>>(
            RequestError::NeverReplied,
        ),
{
}

/// A guest whose task fails before it answers fails the request with the
/// task's own failure.
pub proof fn lemma_failed_guest<R, E, F>(failure: F)
    ensures
        settled::<R, E, F>(Slot::Closed, TaskEnd::Failed(failure)) == Err::<R, RequestError<E, F>>(
            RequestError::Guest(failure),
        ),
{
}

/// The words for a guest that never answered.
pub fn never_replied_message() -> (text: String)
    ensures
        text@ == "guest never invoked `response-outparam::set` method"@,
{
    String::from_str("guest never invoked `response-outparam::set` method")
}

} // verus!
