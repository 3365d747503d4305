//! The channel that receives events from channel-relay webhook callbacks and
//! answers through the relay's provider proxy API (Slack): which events become
//! messages, what they carry, and what each reply sends.

use vstd::prelude::*;

use crate::text::{opt_str_view, opt_to_string, opt_view};

verus! {

/// Default channel name for the Slack relay integration.
pub const DEFAULT_RELAY_NAME: &'static str = "slack-relay";

/// The messaging provider backing a relay channel.
#[derive(Debug, Clone, Copy, PartialEq, Eq, Structural)]
pub enum RelayProvider {
    Slack,
}

impl RelayProvider {
    pub open spec fn spec_as_str(self) -> Seq<char> {
        match self {
            RelayProvider::Slack => "slack"@,
        }
    }

    pub open spec fn spec_channel_name(self) -> Seq<char> {
        match self {
            RelayProvider::Slack => "slack-relay"@,
        }
    }

    /// Provider string used in proxy API routes and metadata.
    pub fn as_str(&self) -> (r: &'static str)
        ensures
            r@ == self.spec_as_str(),
    {
        match self {
            RelayProvider::Slack => "slack",
        }
    }

    /// The default channel name for this provider.
    pub fn channel_name(&self) -> (r: &'static str)
        ensures
            r@ == self.spec_channel_name(),
    {
        match self {
            RelayProvider::Slack => DEFAULT_RELAY_NAME,
        }
    }
}

/// The body of a provider proxy call that posts a message.
#[derive(Debug, Clone, PartialEq, Eq)]
pub struct SendBody {
    /// `"channel"`
    pub channel: String,
    /// `"text"`
    pub text: String,
    /// `"thread_ts"`, present only when replying in a thread.
    pub thread_ts: Option<String>,
}

/// A call of the relay's provider proxy.
#[derive(Debug, Clone)]
pub struct ProxySend {
    pub provider: String,
    pub team_id: String,
    pub method: String,
    pub body: SendBody,
    pub instance_id: String,
}

/// A webhook event, as far as this channel reads it: the event's fields and
/// what the event's own accessors report (`is_message`, `text`,
/// `display_name`, `team_id`).
#[derive(Debug, Clone)]
pub struct RelayEvent {
    pub event_type: String,
    pub provider: String,
    pub provider_scope: String,
    pub channel_id: String,
    pub sender_id: String,
    pub thread_id: Option<String>,
    pub is_message: bool,
    pub text: String,
    pub display_name: String,
    pub team_id: String,
}

/// The metadata a relayed message carries.
#[derive(Debug, Clone)]
pub struct RelayMetadata {
    pub team_id: String,
    pub channel_id: String,
    pub sender_id: String,
    pub sender_name: String,
    pub event_type: String,
    pub thread_id: Option<String>,
    pub provider: String,
}

/// An incoming message built from an event.
#[derive(Debug, Clone)]
pub struct RelayIncoming {
    /// Name of the channel it arrived on.
    pub channel: String,
    pub user_id: String,
    pub content: String,
    pub user_name: String,
    pub metadata: RelayMetadata,
    /// Conversation thread: the event's thread, else its channel.
    pub thread: String,
}

/// The string-valued entries of a message's metadata that replies read;
/// `None` where the entry is missing or not a string.
#[derive(Debug, Clone, Default)]
pub struct MetadataFields {
    pub team_id: Option<String>,
    pub channel_id: Option<String>,
    pub thread_id: Option<String>,
    pub sender_id: Option<String>,
    pub sender_name: Option<String>,
}

/// Channel failures, each naming the channel.
#[derive(Debug, Clone)]
pub enum ChannelError {
    StartupFailed { name: String, reason: String },
    SendFailed { name: String, reason: String },
    HealthCheckFailed { name: String },
}

/// An event is relayed when its sender, channel and provider scope are all
/// present and it is a message.
pub open spec fn relays_event(e: RelayEvent) -> bool {
    e.sender_id@.len() > 0 && e.channel_id@.len() > 0 && e.provider_scope@.len() > 0
        && e.is_message
}

/// `m` is the message a channel of `provider` makes of event `e`: it names the
/// channel, carries the event's sender, text and display name, its metadata
/// copies the event's, and its thread is the event's thread, else its channel.
pub open spec fn is_message_for(provider: RelayProvider, e: RelayEvent, m: RelayIncoming) -> bool {
    &&& m.channel@ == provider.spec_channel_name()
    &&& m.user_id@ == e.sender_id@
    &&& m.content@ == e.text@
    &&& m.user_name@ == e.display_name@
    &&& m.metadata.team_id@ == e.team_id@
    &&& m.metadata.channel_id@ == e.channel_id@
    &&& m.metadata.sender_id@ == e.sender_id@
    &&& m.metadata.sender_name@ == e.display_name@
    &&& m.metadata.event_type@ == e.event_type@
    &&& opt_view(m.metadata.thread_id) == opt_view(e.thread_id)
    &&& m.metadata.provider@ == e.provider@
    &&& m.thread@ == match e.thread_id {
        Some(t) => t@,
        None => e.channel_id@,
    }
}

/// The events of `fed` that are relayed, in the order they came.
pub open spec fn relayed_events(fed: Seq<RelayEvent>) -> Seq<RelayEvent>
    decreases fed.len(),
{
    if fed.len() == 0 {
        seq![]
    } else if relays_event(fed.last()) {
        relayed_events(fed.drop_last()).push(fed.last())
    } else {
        relayed_events(fed.drop_last())
    }
}

/// `out` is what a channel of `provider` passes on for the events `fed`:
/// one message per relayed event, in the same order, each the message for its
/// event.
pub open spec fn forwards(provider: RelayProvider, fed: Seq<RelayEvent>, out: Seq<RelayIncoming>) -> bool {
    let relayed = relayed_events(fed);
    &&& out.len() == relayed.len()
    &&& forall|k: int| 0 <= k < out.len() ==> #[trigger] is_message_for(provider, relayed[k], out[k])
}

/// Channel implementation core for channel-relay webhook callbacks.
#[derive(Debug)]
pub struct RelayChannel {
    provider: RelayProvider,
    team_id: String,
    instance_id: String,
}

impl RelayChannel {
    pub closed spec fn spec_provider(&self) -> RelayProvider {
        self.provider
    }

    pub closed spec fn spec_team_id(&self) -> Seq<char> {
        self.team_id@
    }

    pub closed spec fn spec_instance_id(&self) -> Seq<char> {
        self.instance_id@
    }

    /// Create a new relay channel for Slack (default provider).
    pub fn new(team_id: String, instance_id: String) -> (r: Self)
        ensures
            r.spec_provider() == RelayProvider::Slack,
            r.spec_team_id() == team_id@,
            r.spec_instance_id() == instance_id@,
    {
        Self::new_with_provider(RelayProvider::Slack, team_id, instance_id)
    }

    /// Create a new relay channel with a specific provider.
    pub fn new_with_provider(provider: RelayProvider, team_id: String, instance_id: String) -> (r: Self)
        ensures
            r.spec_provider() == provider,
            r.spec_team_id() == team_id@,
            r.spec_instance_id() == instance_id@,
    {
        RelayChannel { provider, team_id, instance_id }
    }

    /// The channel's name.
    pub fn name(&self) -> (r: &'static str)
        ensures
            r@ == self.spec_provider().spec_channel_name(),
    {
        self.provider.channel_name()
    }

    /// Build a provider-appropriate proxy method and body for sending a message.
    pub fn build_send_body(&self, channel_id: &str, text: &str, thread_id: Option<&str>) -> (r: (
        String,
        SendBody,
    ))
        ensures
            self.spec_provider() == RelayProvider::Slack ==> {
                &&& r.0@ == "chat.postMessage"@
                &&& r.1.channel@ == channel_id@
                &&& r.1.text@ == text@
                &&& opt_view(r.1.thread_ts) == opt_str_view(thread_id)
            },
    {
        match self.provider {
            RelayProvider::Slack => {
                let body = SendBody {
                    channel: String::from_str(channel_id),
                    text: String::from_str(text),
                    thread_ts: opt_to_string(thread_id),
                };
                (String::from_str("chat.postMessage"), body)
            },
        }
    }

    fn proxy_send(&self, team_id: &str, method: String, body: SendBody) -> (r: ProxySend)
        ensures
            r.provider@ == self.spec_provider().spec_as_str(),
            r.team_id@ == team_id@,
            r.method == method,
            r.body == body,
            r.instance_id@ == self.spec_instance_id(),
    {
        ProxySend {
            provider: String::from_str(self.provider.as_str()),
            team_id: String::from_str(team_id),
            method,
            body,
            instance_id: self.instance_id.clone(),
        }
    }

    /// The message an event becomes, or `None` for an event that is skipped
    /// (missing sender, channel or provider scope, or not a message).
    pub fn incoming(&self, event: &RelayEvent) -> (r: Option<RelayIncoming>)
        ensures
            !relays_event(*event) ==> r is None,
            relays_event(*event) ==> (r matches Some(m) && is_message_for(
                self.spec_provider(),
                *event,
                m,
            )),
            r matches Some(m) ==> opt_view(m.metadata.thread_id) == opt_view(event.thread_id),
    {
        if event.sender_id.as_str().is_empty() || event.channel_id.as_str().is_empty()
            || event.provider_scope.as_str().is_empty() {
            return None;
        }
        if !event.is_message {
            return None;
        }
        let metadata = RelayMetadata {
            team_id: event.team_id.clone(),
            channel_id: event.channel_id.clone(),
            sender_id: event.sender_id.clone(),
            sender_name: event.display_name.clone(),
            event_type: event.event_type.clone(),
            thread_id: event.thread_id.clone(),
            provider: event.provider.clone(),
        };
        let thread = match &event.thread_id {
            Some(t) => t.clone(),
            None => event.channel_id.clone(),
        };
        Some(
            RelayIncoming {
                channel: String::from_str(self.name()),
                user_id: event.sender_id.clone(),
                content: event.text.clone(),
                user_name: event.display_name.clone(),
                metadata,
                thread,
            },
        )
    }

    /// A send through the provider proxy failed for `reason`.
    pub fn send_failed(&self, reason: String) -> (r: ChannelError)
        ensures
            r matches ChannelError::SendFailed { name, reason: m } && name@
                == self.spec_provider().spec_channel_name() && m == reason,
    {
        ChannelError::SendFailed { name: String::from_str(self.name()), reason }
    }

    /// The channel was started a second time.
    pub fn already_started(&self) -> (r: ChannelError)
        ensures
            r matches ChannelError::StartupFailed { name, reason } && name@
                == self.spec_provider().spec_channel_name() && reason@
                == "RelayChannel already started"@,
    {
        ChannelError::StartupFailed {
            name: String::from_str(self.name()),
            reason: String::from_str("RelayChannel already started"),
        }
    }

    /// Starting the channel takes its event receiver, which is there only
    /// the first time: a start without it is refused as already started.
    pub fn begin_start<T>(&self, receiver: Option<T>) -> (r: Result<T, ChannelError>)
        ensures
            receiver matches Some(x) ==> (r matches Ok(y) && y == x),
            receiver is None ==> (r matches Err(ChannelError::StartupFailed { name, reason })
                && name@ == self.spec_provider().spec_channel_name() && reason@
                == "RelayChannel already started"@),
    {
        match receiver {
            Some(x) => Ok(x),
            None => Err(self.already_started()),
        }
    }

    /// The relay's connection listing failed.
    pub fn health_check_failed(&self) -> (r: ChannelError)
        ensures
            r matches ChannelError::HealthCheckFailed { name } && name@
                == self.spec_provider().spec_channel_name(),
    {
        ChannelError::HealthCheckFailed { name: String::from_str(self.name()) }
    }

    /// The proxy call that answers a message: to the metadata's team (else
    /// this channel's team) and channel, in the response's thread (else the
    /// metadata's). Fails when the metadata names no channel.
    pub fn respond(&self, metadata: &MetadataFields, response_thread_id: Option<&str>, content: &str) -> (r: Result<ProxySend, ChannelError>)
        ensures
            metadata.channel_id is None ==> (r matches Err(ChannelError::SendFailed { name, reason })
                && name@ == self.spec_provider().spec_channel_name() && reason@
                == "Missing channel_id in message metadata"@),
            metadata.channel_id matches Some(c) ==> (r matches Ok(p) && {
                &&& p.provider@ == self.spec_provider().spec_as_str()
                &&& p.team_id@ == match metadata.team_id {
                    Some(t) => t@,
                    None => self.spec_team_id(),
                }
                &&& p.instance_id@ == self.spec_instance_id()
                &&& (self.spec_provider() == RelayProvider::Slack ==> {
                    &&& p.method@ == "chat.postMessage"@
                    &&& p.body.channel@ == c@
                    &&& p.body.text@ == content@
                    &&& opt_view(p.body.thread_ts) == match response_thread_id {
                        Some(t) => Some(t@),
                        None => opt_view(metadata.thread_id),
                    }
                })
            }),
    {
        let team_id = match &metadata.team_id {
            Some(t) => t.as_str(),
            None => self.team_id.as_str(),
        };
        let channel_id = match &metadata.channel_id {
            Some(c) => c.as_str(),
            None => {
                return Err(
                    self.send_failed(String::from_str("Missing channel_id in message metadata")),
                );
            },
        };
        let thread_id = match response_thread_id {
            Some(t) => Some(t),
            None => match &metadata.thread_id {
                Some(t) => Some(t.as_str()),
                None => None,
            },
        };
        let (method, body) = self.build_send_body(channel_id, content, thread_id);
        Ok(self.proxy_send(team_id, method, body))
    }

    /// The proxy call that sends a message to `target` in this channel's team,
    /// in the response's thread (else its `thread_ts` metadata entry).
    pub fn broadcast(&self, target: &str, response_thread_id: Option<&str>, response_thread_ts: Option<&str>, content: &str) -> (r: ProxySend)
        ensures
            r.provider@ == self.spec_provider().spec_as_str(),
            r.team_id@ == self.spec_team_id(),
            r.instance_id@ == self.spec_instance_id(),
            self.spec_provider() == RelayProvider::Slack ==> {
                &&& r.method@ == "chat.postMessage"@
                &&& r.body.channel@ == target@
                &&& r.body.text@ == content@
                &&& opt_view(r.body.thread_ts) == match response_thread_id {
                    Some(t) => Some(t@),
                    None => opt_str_view(response_thread_ts),
                }
            },
    {
        let thread_id = match response_thread_id {
            Some(t) => Some(t),
            None => response_thread_ts,
        };
        let (method, body) = self.build_send_body(target, content, thread_id);
        self.proxy_send(self.team_id.as_str(), method, body)
    }

    /// Conversation context for a message: `sender`, `sender_uuid` and
    /// `group` from the metadata where present, then `platform`, in that order.
    pub fn conversation_context(&self, metadata: &MetadataFields) -> (r: Vec<(String, String)>)
        ensures
            r@.map_values(|e: (String, String)| (e.0@, e.1@)) == context_entries(
                self.spec_provider(),
                *metadata,
            ),
    {
        let mut ctx: Vec<(String, String)> = Vec::new();
        if let Some(sender) = &metadata.sender_name {
            ctx.push((String::from_str("sender"), sender.clone()));
        }
        if let Some(sender_id) = &metadata.sender_id {
            ctx.push((String::from_str("sender_uuid"), sender_id.clone()));
        }
        if let Some(channel_id) = &metadata.channel_id {
            ctx.push((String::from_str("group"), channel_id.clone()));
        }
        ctx.push((String::from_str("platform"), String::from_str(self.provider.as_str())));
        proof {
            assert(ctx@.map_values(|e: (String, String)| (e.0@, e.1@)) =~= context_entries(
                self.spec_provider(),
                *metadata,
            ));
        }
        ctx
    }
}

/// The relay channel's forwarding loop: fed the webhook events in the order
/// they arrive, it hands back, for each, the message to pass on, if any. Over
/// any run, the messages handed back are, in order, exactly the messages of
/// the relayed events among those fed.
pub struct RelayForwarder<'a> {
    channel: &'a RelayChannel,
    fed: Ghost<Seq<RelayEvent>>,
    forwarded: Ghost<Seq<RelayIncoming>>,
}

impl<'a> RelayForwarder<'a> {
    #[verifier::type_invariant]
    closed spec fn inv(self) -> bool {
        forwards(self.channel.spec_provider(), self.fed@, self.forwarded@)
    }

    /// The provider of the channel the forwarder works for.
    pub closed spec fn provider(&self) -> RelayProvider {
        self.channel.spec_provider()
    }

    /// The events fed so far.
    pub closed spec fn fed(&self) -> Seq<RelayEvent> {
        self.fed@
    }

    /// The messages handed back so far.
    pub closed spec fn forwarded(&self) -> Seq<RelayIncoming> {
        self.forwarded@
    }

    /// A forwarder for `channel` that has seen no event yet.
    pub fn new(channel: &'a RelayChannel) -> (r: Self)
        ensures
            r.provider() == channel.spec_provider(),
            r.fed() == Seq::<RelayEvent>::empty(),
            r.forwarded() == Seq::<RelayIncoming>::empty(),
    {
        RelayForwarder { channel, fed: Ghost(Seq::empty()), forwarded: Ghost(Seq::empty()) }
    }

    /// The message to pass on for the next event, if any.
    pub fn forward(&mut self, event: &RelayEvent) -> (r: Option<RelayIncoming>)
        ensures
            r is Some <==> relays_event(*event),
            r matches Some(m) ==> is_message_for(old(self).provider(), *event, m),
            final(self).provider() == old(self).provider(),
            final(self).fed() == old(self).fed().push(*event),
            final(self).forwarded() == match r {
                Some(m) => old(self).forwarded().push(m),
                None => old(self).forwarded(),
            },
            forwards(final(self).provider(), final(self).fed(), final(self).forwarded()),
    {
        proof {
            use_type_invariant(&*self);
        }
        let r = self.channel.incoming(event);
        let ghost fed = self.fed@.push(*event);
        let ghost forwarded = if r is Some {
            self.forwarded@.push(r->0)
        } else {
            self.forwarded@
        };
        proof {
            let p = self.channel.spec_provider();
            assert(fed.drop_last() =~= self.fed@);
            assert(fed.last() == *event);
            let relayed = relayed_events(fed);
            assert forall|k: int| 0 <= k < forwarded.len() implies #[trigger] is_message_for(
                p,
                relayed[k],
                forwarded[k],
            ) by {
                if k < self.forwarded@.len() {
                    assert(is_message_for(p, relayed_events(self.fed@)[k], self.forwarded@[k]));
                }
            }
        }
        *self = RelayForwarder { channel: self.channel, fed: Ghost(fed), forwarded: Ghost(forwarded) };
        r
    }
}

pub open spec fn entry_if(key: Seq<char>, value: Option<String>) -> Seq<(Seq<char>, Seq<char>)> {
    match value {
        Some(v) => seq![(key, v@)],
        None => seq![],
    }
}

/// The context entries, in insertion order.
pub open spec fn context_entries(provider: RelayProvider, m: MetadataFields) -> Seq<(Seq<char>, Seq<char>)> {
    entry_if("sender"@, m.sender_name) + entry_if("sender_uuid"@, m.sender_id) + entry_if(
        "group"@,
        m.channel_id,
    ) + seq![("platform"@, provider.spec_as_str())]
}

/// Some entry of `c` has key `key`.
pub open spec fn has_key(c: Seq<(Seq<char>, Seq<char>)>, key: Seq<char>) -> bool {
    exists|i: int| 0 <= i < c.len() && #[trigger] c[i].0 == key
}

/// Every entry of `c` with key `key` carries the value `v`.
pub open spec fn key_carries(c: Seq<(Seq<char>, Seq<char>)>, key: Seq<char>, v: Option<Seq<char>>) -> bool {
    forall|i: int| 0 <= i < c.len() && #[trigger] c[i].0 == key ==> v == Some(c[i].1)
}

/// The message made of a relayed event keeps the event's thread, both in its
/// metadata (so a reply can post into it) and as its conversation thread
/// (falling back to the channel), and carries the event's sender and text.
pub proof fn lemma_message_keeps_thread(provider: RelayProvider, e: RelayEvent, m: RelayIncoming)
    requires
        is_message_for(provider, e, m),
    ensures
        opt_view(m.metadata.thread_id) == opt_view(e.thread_id),
        e.thread_id matches Some(t) ==> (m.thread@ == t@ && (m.metadata.thread_id matches Some(
            mt,
        ) && mt@ == t@)),
        e.thread_id is None ==> (m.thread@ == e.channel_id@ && m.metadata.thread_id is None),
        m.user_id@ == e.sender_id@ && m.metadata.sender_id@ == e.sender_id@,
        m.content@ == e.text@,
        m.metadata.channel_id@ == e.channel_id@,
{
}

/// Where a key stands in the conversation context: `sender`, `sender_uuid`,
/// `group`, `platform` come in that order.
pub open spec fn context_rank(key: Seq<char>) -> int {
    if key == "sender"@ {
        0
    } else if key == "sender_uuid"@ {
        1
    } else if key == "group"@ {
        2
    } else {
        3
    }
}

/// Each metadata field stands in the conversation context on its own: the
/// context has a `sender`, `sender_uuid` or `group` entry exactly when the
/// sender name, sender id or channel id is present, whatever the other
/// fields hold, and such an entry carries that field's value; the `platform`
/// entry, naming the provider, is always there, last; the entries come in
/// the order `sender`, `sender_uuid`, `group`, `platform`, each key once.
pub proof fn lemma_context_fields_independent(provider: RelayProvider, m: MetadataFields)
    ensures
        ({
            let c = context_entries(provider, m);
            &&& has_key(c, "sender"@) <==> m.sender_name is Some
            &&& key_carries(c, "sender"@, opt_view(m.sender_name))
            &&& has_key(c, "sender_uuid"@) <==> m.sender_id is Some
            &&& key_carries(c, "sender_uuid"@, opt_view(m.sender_id))
            &&& has_key(c, "group"@) <==> m.channel_id is Some
            &&& key_carries(c, "group"@, opt_view(m.channel_id))
            &&& c.len() > 0 && c.last() == ("platform"@, provider.spec_as_str())
            &&& forall|i: int, j: int|
                0 <= i < j < c.len() ==> context_rank(#[trigger] c[i].0) < context_rank(
                    #[trigger] c[j].0,
                )
        }),
{
    reveal_strlit("sender");
    reveal_strlit("sender_uuid");
    reveal_strlit("group");
    reveal_strlit("platform");
    let k_s = "sender"@;
    let k_u = "sender_uuid"@;
    let k_g = "group"@;
    let k_p = "platform"@;
    assert(k_s != k_u) by { assert(k_s.len() != k_u.len()); }
    assert(k_s != k_g) by { assert(k_s[0] != k_g[0]); }
    assert(k_s != k_p) by { assert(k_s[0] != k_p[0]); }
    assert(k_u != k_g) by { assert(k_u[0] != k_g[0]); }
    assert(k_u != k_p) by { assert(k_u[0] != k_p[0]); }
    assert(k_g != k_p) by { assert(k_g[0] != k_p[0]); }
    let a = entry_if(k_s, m.sender_name);
    let b = entry_if(k_u, m.sender_id);
    let g = entry_if(k_g, m.channel_id);
    let p = seq![(k_p, provider.spec_as_str())];
    let c = context_entries(provider, m);
    assert(c == a + b + g + p);
    let la = a.len() as int;
    let lb = b.len() as int;
    let lg = g.len() as int;
    assert(c.len() == la + lb + lg + 1);
    assert forall|i: int| 0 <= i < c.len() implies {
        &&& i < la ==> c[i] == a[i]
        &&& la <= i < la + lb ==> c[i] == b[i - la]
        &&& la + lb <= i < la + lb + lg ==> c[i] == g[i - la - lb]
        &&& i == la + lb + lg ==> c[i] == (k_p, provider.spec_as_str())
    } by {}
    assert forall|i: int| 0 <= i < c.len() implies context_rank(#[trigger] c[i].0) == (if i < la {
        0int
    } else if i < la + lb {
        1int
    } else if i < la + lb + lg {
        2int
    } else {
        3int
    }) by {}
    if m.sender_name is Some {
        assert(c[0].0 == k_s);
    }
    if m.sender_id is Some {
        assert(c[la].0 == k_u);
    }
    if m.channel_id is Some {
        assert(c[la + lb].0 == k_g);
    }
    assert(c.last() == c[la + lb + lg]);
}

} // verus!
