//! Identifiers.

use crate::text::{
    byte_len, bytes_len, cat5, char_width, chars_of, find, find_char, lemma_byte_len_add,
    lemma_byte_len_push, string_of,
};
use vstd::prelude::*;
use vstd::string::*;

verus! {

/// The greatest length of an identifier in bytes.
pub const MAX_ID_LEN: usize = 255;

/// The greatest length of a raw session key in bytes.
pub const MAX_KEY_LEN: usize = 800;

/// The longest beginning of `s` that takes at most `max` bytes.
pub open spec fn cut(s: Seq<char>, max: int) -> Seq<char>
    decreases s.len(),
{
    if s.len() == 0 || byte_len(s) <= max {
        s
    } else {
        cut(s.drop_last(), max)
    }
}

/// Cutting keeps a beginning of the text that takes at most `max` bytes, and
/// none that does is longer.
pub proof fn lemma_cut(s: Seq<char>, max: int)
    requires
        0 <= max,
    ensures
        cut(s, max).is_prefix_of(s),
        byte_len(cut(s, max)) <= max,
        byte_len(s) <= max ==> cut(s, max) == s,
        forall|p: Seq<char>|
            #![trigger p.is_prefix_of(s)]
            p.is_prefix_of(s) && byte_len(p) <= max ==> p.len() <= cut(s, max).len(),
    decreases s.len(),
{
    if s.len() > 0 && byte_len(s) > max {
        let front = s.drop_last();
        lemma_cut(front, max);
        assert forall|p: Seq<char>|
            #![trigger p.is_prefix_of(s)]
            p.is_prefix_of(s) && byte_len(p) <= max implies p.len() <= cut(s, max).len() by {
            if p.len() == s.len() {
                assert(p =~= s);
            } else {
                assert(p.is_prefix_of(front));
            }
        }
    }
}

/// Where a beginning fits and one more character does not, the text is cut.
proof fn lemma_cut_at(s: Seq<char>, max: int, k: int)
    requires
        0 <= k <= s.len(),
        byte_len(s.take(k)) <= max,
        k < s.len() ==> byte_len(s.take(k + 1)) > max,
    ensures
        cut(s, max) == s.take(k),
    decreases s.len(),
{
    if k == s.len() {
        assert(s.take(k) =~= s);
    } else {
        lemma_byte_len_add(s.take(k + 1), s.skip(k + 1));
        assert(s.take(k + 1) + s.skip(k + 1) =~= s);
        let front = s.drop_last();
        assert(front.take(k) =~= s.take(k));
        if k < front.len() {
            assert(front.take(k + 1) =~= s.take(k + 1));
        }
        lemma_cut_at(front, max, k);
    }
}

pub(crate) fn cut_to(s: &str, max: usize) -> (r: String)
    ensures
        r@ == cut(s@, max as int),
        byte_len(r@) <= max,
        r@.is_prefix_of(s@),
        byte_len(s@) <= max ==> r@ == s@,
{
    proof {
        lemma_cut(s@, max as int);
    }
    if bytes_len(s) <= max {
        return s.to_owned();
    }
    let v = chars_of(s);
    let mut k: usize = 0;
    let mut used: usize = 0;
    assert(byte_len(s@.take(0)) == 0);
    while k < v.len() && char_width(v[k]) <= max - used
        invariant
            v@ == s@,
            k <= v@.len(),
            used <= max,
            used == byte_len(s@.take(k as int)),
        decreases v@.len() - k,
    {
        proof {
            lemma_byte_len_push(s@.take(k as int), v@[k as int]);
            assert(s@.take(k as int).push(v@[k as int]) =~= s@.take(k + 1));
        }
        used = used + char_width(v[k]);
        k = k + 1;
    }
    proof {
        if k < s@.len() {
            lemma_byte_len_push(s@.take(k as int), v@[k as int]);
            assert(s@.take(k as int).push(v@[k as int]) =~= s@.take(k + 1));
        }
        lemma_cut_at(s@, max as int, k as int);
    }
    string_of(&v, 0, k)
}

/// An identifier of at most 255 bytes: the text, or as much of its beginning as
/// fits.
pub fn clamp_id(s: &str) -> (r: String)
    ensures
        r@ == cut(s@, MAX_ID_LEN as int),
        byte_len(r@) <= MAX_ID_LEN,
        r@.is_prefix_of(s@),
        byte_len(s@) <= MAX_ID_LEN ==> r@ == s@,
{
    cut_to(s, MAX_ID_LEN)
}

/// The name of a messaging channel.
#[derive(Debug, Eq, Hash)]
pub struct ChannelId(pub String);

impl View for ChannelId {
    type V = Seq<char>;

    open spec fn view(&self) -> Seq<char> {
        self.0@
    }
}

impl DeepView for ChannelId {
    type V = Seq<char>;

    open spec fn deep_view(&self) -> Seq<char> {
        self.0@
    }
}

impl PartialEq for ChannelId {
    fn eq(&self, other: &ChannelId) -> (r: bool) {
        self.0 == other.0
    }
}

impl vstd::std_specs::cmp::PartialEqSpecImpl for ChannelId {
    open spec fn obeys_eq_spec() -> bool {
        true
    }

    open spec fn eq_spec(&self, other: &ChannelId) -> bool {
        self.0@ == other.0@
    }
}

impl Clone for ChannelId {
    fn clone(&self) -> (r: ChannelId)
        ensures
            r == *self,
    {
        ChannelId(self.0.clone())
    }
}

impl ChannelId {
    /// The identifier `id`, cut to 255 bytes.
    pub fn new(id: &str) -> (r: ChannelId)
        ensures
            r@ == cut(id@, MAX_ID_LEN as int),
            byte_len(r@) <= MAX_ID_LEN,
            r@.is_prefix_of(id@),
            byte_len(id@) <= MAX_ID_LEN ==> r@ == id@,
    {
        ChannelId(clamp_id(id))
    }

    /// The identifier as text.
    pub fn as_str(&self) -> (r: &str)
        ensures
            r@ == self@,
    {
        self.0.as_str()
    }
}

/// The name of an agent.
#[derive(Debug, Eq, Hash)]
pub struct AgentId(pub String);

impl View for AgentId {
    type V = Seq<char>;

    open spec fn view(&self) -> Seq<char> {
        self.0@
    }
}

impl DeepView for AgentId {
    type V = Seq<char>;

    open spec fn deep_view(&self) -> Seq<char> {
        self.0@
    }
}

impl PartialEq for AgentId {
    fn eq(&self, other: &AgentId) -> (r: bool) {
        self.0 == other.0
    }
}

impl vstd::std_specs::cmp::PartialEqSpecImpl for AgentId {
    open spec fn obeys_eq_spec() -> bool {
        true
    }

    open spec fn eq_spec(&self, other: &AgentId) -> bool {
        self.0@ == other.0@
    }
}

impl Clone for AgentId {
    fn clone(&self) -> (r: AgentId)
        ensures
            r == *self,
    {
        AgentId(self.0.clone())
    }
}

impl AgentId {
    /// The identifier `id`, cut to 255 bytes.
    pub fn new(id: &str) -> (r: AgentId)
        ensures
            r@ == cut(id@, MAX_ID_LEN as int),
            byte_len(r@) <= MAX_ID_LEN,
            r@.is_prefix_of(id@),
            byte_len(id@) <= MAX_ID_LEN ==> r@ == id@,
    {
        AgentId(clamp_id(id))
    }

    /// The identifier as text.
    pub fn as_str(&self) -> (r: &str)
        ensures
            r@ == self@,
    {
        self.0.as_str()
    }

    /// The agent that serves when none is named.
    pub fn default_agent() -> (r: AgentId)
        ensures
            r@ == "default"@,
    {
        AgentId("default".to_owned())
    }
}

/// The text before the first colon, between the first two, and after the
/// second.
pub open spec fn key_parts(s: Seq<char>) -> Option<(Seq<char>, Seq<char>, Seq<char>)> {
    let i = find(s, ':', 0);
    let j = find(s, ':', i + 1);
    if 0 <= i < j < s.len() {
        Some((s.take(i), s.subrange(i + 1, j), s.skip(j + 1)))
    } else {
        None
    }
}

/// What a key parses into.
pub open spec fn parsed_key(s: Seq<char>) -> Option<(Seq<char>, Seq<char>, Seq<char>)> {
    match key_parts(s) {
        Some((agent, channel, account)) => Some(
            (cut(agent, MAX_ID_LEN as int), cut(channel, MAX_ID_LEN as int), account),
        ),
        None => None,
    }
}

/// The key of a conversation: `{agent_id}:{channel}:{account_id}`.
#[derive(Debug, Eq, Hash)]
pub struct SessionKey(pub String);

impl View for SessionKey {
    type V = Seq<char>;

    open spec fn view(&self) -> Seq<char> {
        self.0@
    }
}

impl DeepView for SessionKey {
    type V = Seq<char>;

    open spec fn deep_view(&self) -> Seq<char> {
        self.0@
    }
}

impl PartialEq for SessionKey {
    fn eq(&self, other: &SessionKey) -> (r: bool) {
        self.0 == other.0
    }
}

impl vstd::std_specs::cmp::PartialEqSpecImpl for SessionKey {
    open spec fn obeys_eq_spec() -> bool {
        true
    }

    open spec fn eq_spec(&self, other: &SessionKey) -> bool {
        self.0@ == other.0@
    }
}

impl Clone for SessionKey {
    fn clone(&self) -> (r: SessionKey)
        ensures
            r == *self,
    {
        SessionKey(self.0.clone())
    }
}

/// The text of the key for an agent, a channel and an account.
pub open spec fn key_text(agent: Seq<char>, channel: Seq<char>, account: Seq<char>) -> Seq<char> {
    agent + ":"@ + channel + ":"@ + account
}

impl SessionKey {
    /// The key for an agent, a channel and an account.
    pub fn new(agent_id: &AgentId, channel: &ChannelId, account_id: &str) -> (r: SessionKey)
        ensures
            r@ == key_text(agent_id@, channel@, account_id@),
    {
        SessionKey(cat5(agent_id.as_str(), ":", channel.as_str(), ":", account_id))
    }

    /// The key with the text `key`, cut to 800 bytes.
    pub fn from_raw(key: &str) -> (r: SessionKey)
        ensures
            r@ == cut(key@, MAX_KEY_LEN as int),
            byte_len(r@) <= MAX_KEY_LEN,
            r@.is_prefix_of(key@),
            byte_len(key@) <= MAX_KEY_LEN ==> r@ == key@,
    {
        SessionKey(cut_to(key, MAX_KEY_LEN))
    }

    /// The key as text.
    pub fn as_str(&self) -> (r: &str)
        ensures
            r@ == self@,
    {
        self.0.as_str()
    }

    /// The agent, channel and account in the key; `None` when it has fewer
    /// than two colons.
    pub fn parse(&self) -> (r: Option<(AgentId, ChannelId, String)>)
        ensures
            match r {
                Some((agent, channel, account)) => parsed_key(self@) == Some(
                    (agent@, channel@, account@),
                ),
                None => parsed_key(self@) is None,
            },
    {
        let v = chars_of(self.0.as_str());
        let i: usize = find_char(&v, ':', 0);
        if i >= v.len() {
            return None;
        }
        let j: usize = find_char(&v, ':', i + 1);
        if j >= v.len() {
            return None;
        }
        let agent = string_of(&v, 0, i);
        let channel = string_of(&v, i + 1, j);
        let account = string_of(&v, j + 1, v.len());
        proof {
            assert(agent@ =~= self@.take(i as int));
            assert(account@ =~= self@.skip(j + 1));
        }
        Some((AgentId::new(agent.as_str()), ChannelId::new(channel.as_str()), account))
    }
}

/// Parsing gives back the parts that a key was made of, as long as the agent
/// and the channel hold no colon and are within the length of an identifier.
pub proof fn law_session_key_round_trip(agent: Seq<char>, channel: Seq<char>, account: Seq<char>)
    requires
        !agent.contains(':'),
        !channel.contains(':'),
        byte_len(agent) <= MAX_ID_LEN,
        byte_len(channel) <= MAX_ID_LEN,
    ensures
        parsed_key(key_text(agent, channel, account)) == Some((agent, channel, account)),
{
    reveal_strlit(":");
    let s = key_text(agent, channel, account);
    let i = agent.len() as int;
    let j = i + 1 + channel.len();
    assert forall|k: int| 0 <= k < i implies s[k] != ':' by {
        assert(s[k] == agent[k]);
    }
    assert forall|k: int| i + 1 <= k < j implies s[k] != ':' by {
        assert(s[k] == channel[k - i - 1]);
    }
    crate::text::lemma_find_is(s, ':', 0, i);
    crate::text::lemma_find_is(s, ':', i + 1, j);
    assert(s.take(i) =~= agent);
    assert(s.subrange(i + 1, j) =~= channel);
    assert(s.skip(j + 1) =~= account);
}

/// A connection of a client.
#[derive(Clone, Copy, Debug, PartialEq, Eq, Hash, Structural)]
pub struct ConnId(pub u64);

impl ConnId {
    /// The connection's name in reports.
    pub fn label(&self) -> (r: String)
        ensures
            r@ == "conn-"@ + crate::text::decimal(self.0 as nat),
    {
        crate::text::cat2("conn-", crate::text::decimal_of(self.0).as_str())
    }
}

/// The identifier by which a client matches a reply to its request.
#[derive(Debug, PartialEq, Eq, Hash)]
pub enum RequestId {
    Number(u64),
    Text(String),
}

impl Clone for RequestId {
    fn clone(&self) -> (r: RequestId)
        ensures
            r == *self,
    {
        match self {
            RequestId::Number(n) => RequestId::Number(*n),
            RequestId::Text(s) => RequestId::Text(s.clone()),
        }
    }
}

impl RequestId {
    /// The identifier as text.
    pub open spec fn text(self) -> Seq<char> {
        match self {
            RequestId::Number(n) => crate::text::decimal(n as nat),
            RequestId::Text(s) => s@,
        }
    }

    /// The identifier as text.
    pub fn to_text(&self) -> (r: String)
        ensures
            r@ == self.text(),
    {
        match self {
            RequestId::Number(n) => crate::text::decimal_of(*n),
            RequestId::Text(s) => s.clone(),
        }
    }
}

/// Who speaks in a conversation.
#[derive(Clone, Copy, Debug, PartialEq, Eq, Structural)]
pub enum Role {
    System,
    User,
    Assistant,
    Tool,
}

impl Role {
    /// The role's name.
    pub open spec fn name_view(self) -> Seq<char> {
        match self {
            Role::System => "system"@,
            Role::User => "user"@,
            Role::Assistant => "assistant"@,
            Role::Tool => "tool"@,
        }
    }

    /// The role's name.
    pub fn name(&self) -> (r: &'static str)
        ensures
            r@ == self.name_view(),
    {
        match self {
            Role::System => "system",
            Role::User => "user",
            Role::Assistant => "assistant",
            Role::Tool => "tool",
        }
    }
}

/// A moment: seconds since the Unix epoch, and nanoseconds into the second.
#[derive(Clone, Copy, Debug, PartialEq, Eq, Structural)]
pub struct Timestamp {
    pub secs: i64,
    pub nanos: u32,
}

} // verus!
