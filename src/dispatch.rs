//! The channel's entry points: initialization and the handling of one
//! inbound command from an identified sender.
use crate::channel::{
    fans_out, owner_or_zero, started, text_or_empty, view_wf, Channel, ChannelError, ChannelView,
    Notification,
};
use crate::identity::Identity;
use crate::message_log::{keep_last, post_views, Post, PostView};
use vstd::prelude::*;
use vstd::string::StringExecFns;

verus! {

/// An inbound command.
#[derive(Debug)]
pub enum Action {
    /// Ask for the channel's name, description and owner.
    Meta,
    /// Subscribe the sender.
    Subscribe,
    /// Unsubscribe the sender.
    Unsubscribe,
    /// Publish a text; only the owner may.
    Post(String),
    /// Ask for the posts in the log.
    Feed,
}

/// The channel's metadata.
#[derive(Debug)]
pub struct Meta {
    pub name: String,
    pub description: String,
    pub owner: Identity,
}

/// The reply to an accepted command.
#[derive(Debug)]
pub enum Reply {
    Metadata(Meta),
    /// An empty acknowledgement.
    Ack,
    Feed(Vec<Post>),
}

/// What an accepted command produces: one reply and the notifications to send.
#[derive(Debug)]
pub struct Response {
    pub reply: Reply,
    pub notifications: Vec<Notification>,
}

/// The text of the post that records a channel's creation.
pub open spec fn created_text(name: Seq<char>) -> Seq<char> {
    "Channel "@ + name + " was created"@
}

/// Whether `m` is the metadata of channel `c`, with the placeholders of an
/// uninitialized channel.
pub open spec fn describes(m: Meta, c: ChannelView) -> bool {
    &&& m.name@ == text_or_empty(c.name)
    &&& m.description@ == text_or_empty(c.description)
    &&& m.owner == owner_or_zero(c.owner)
}

/// The subscribers' set after `sender` issued `action`.
pub open spec fn subscribers_after(subs: Set<Identity>, sender: Identity, action: Action) -> Set<
    Identity,
> {
    match action {
        Action::Subscribe => subs.insert(sender),
        Action::Unsubscribe => subs.remove(sender),
        _ => subs,
    }
}

/// The subscribers' set after each `(sender, action)` call of `calls` in turn.
pub open spec fn subscribers_after_all(subs: Set<Identity>, calls: Seq<(Identity, Action)>) -> Set<
    Identity,
>
    decreases calls.len(),
{
    if calls.len() == 0 {
        subs
    } else {
        let (sender, action) = calls.last();
        subscribers_after(subscribers_after_all(subs, calls.drop_last()), sender, action)
    }
}

/// Whether the last call of `calls` in which `id` subscribed or unsubscribed
/// itself was a subscription; `None` when there is no such call.
pub open spec fn last_choice(calls: Seq<(Identity, Action)>, id: Identity) -> Option<bool>
    decreases calls.len(),
{
    if calls.len() == 0 {
        None
    } else {
        let (sender, action) = calls.last();
        if sender == id && action is Subscribe {
            Some(true)
        } else if sender == id && action is Unsubscribe {
            Some(false)
        } else {
            last_choice(calls.drop_last(), id)
        }
    }
}

/// What handling `action` from `sender` does: `pre` is the channel before,
/// `post` after, `r` the result.
pub open spec fn dispatched(
    pre: ChannelView,
    post: ChannelView,
    sender: Identity,
    action: Action,
    timestamp: u64,
    r: Result<Response, ChannelError>,
) -> bool {
    match action {
        Action::Post(text) => if pre.owner == Some(sender) {
            let p = PostView { text: text@, timestamp };
            &&& r is Ok
            &&& r->Ok_0.reply is Ack
            &&& fans_out(r->Ok_0.notifications@, pre.subscribers, p)
            &&& post == (ChannelView {
                messages: keep_last(pre.messages.push(p), pre.capacity),
                ..pre
            })
        } else {
            r == Err::<Response, _>(ChannelError::NotOwner) && post == pre
        },
        Action::Subscribe | Action::Unsubscribe => {
            &&& r is Ok
            &&& r->Ok_0.reply is Ack
            &&& r->Ok_0.notifications@.len() == 0
            &&& post.subscribers.to_set() == subscribers_after(
                pre.subscribers.to_set(),
                sender,
                action,
            )
            &&& post == (ChannelView { subscribers: post.subscribers, ..pre })
        },
        Action::Meta => {
            &&& r is Ok
            &&& r->Ok_0.reply matches Reply::Metadata(m) && describes(m, pre)
            &&& r->Ok_0.notifications@.len() == 0
            &&& post == pre
        },
        Action::Feed => {
            &&& r is Ok
            &&& r->Ok_0.reply matches Reply::Feed(v) && post_views(v@) == pre.messages
            &&& r->Ok_0.notifications@.len() == 0
            &&& post == pre
        },
    }
}

/// What initializing with `owner`, `name` and `description` does: `pre` is
/// the channel before, `post` after, `r` the result.
pub open spec fn initialized(
    pre: ChannelView,
    post: ChannelView,
    owner: Identity,
    name: Seq<char>,
    description: Seq<char>,
    timestamp: u64,
    r: Result<(), ChannelError>,
) -> bool {
    if started(pre) {
        r == Err::<(), _>(ChannelError::AlreadyInitialized) && post == pre
    } else {
        let created = PostView { text: created_text(name), timestamp };
        &&& r is Ok
        &&& post.subscribers.to_set() == pre.subscribers.to_set().insert(owner)
        &&& post == (ChannelView {
            owner: Some(owner),
            name: Some(name),
            description: Some(description),
            subscribers: post.subscribers,
            messages: keep_last(pre.messages.push(created), pre.capacity),
            capacity: pre.capacity,
        })
    }
}

/// A post by anyone but the owner is rejected with `NotOwner`, leaves the
/// channel (and so its log's length) unchanged and sends no notification.
pub proof fn lemma_non_owner_post_is_inert(
    pre: ChannelView,
    post: ChannelView,
    sender: Identity,
    text: String,
    timestamp: u64,
    r: Result<Response, ChannelError>,
)
    requires
        pre.owner != Some(sender),
        dispatched(pre, post, sender, Action::Post(text), timestamp, r),
    ensures
        r == Err::<Response, _>(ChannelError::NotOwner),
        post == pre,
        post.messages.len() == pre.messages.len(),
{
}

/// The owner's post sends one notification per subscriber, each carrying the
/// post, and adds the post to the log: the log grows by one, or, when it is at
/// its capacity, keeps its length and drops its oldest post.
pub proof fn lemma_owner_post_fans_out(
    pre: ChannelView,
    post: ChannelView,
    sender: Identity,
    text: String,
    timestamp: u64,
    r: Result<Response, ChannelError>,
)
    requires
        pre.owner == Some(sender),
        view_wf(pre),
        dispatched(pre, post, sender, Action::Post(text), timestamp, r),
    ensures
        r is Ok,
        r->Ok_0.notifications@.len() == pre.subscribers.len(),
        forall|i: int|
            0 <= i < pre.subscribers.len() ==> (#[trigger] r->Ok_0.notifications@[i]).recipient
                == pre.subscribers[i] && r->Ok_0.notifications@[i].post@ == (PostView {
                text: text@,
                timestamp,
            }),
        pre.capacity != Some(0usize) ==> {
            let p = PostView { text: text@, timestamp };
            if pre.capacity == Some(pre.messages.len() as usize) {
                post.messages == pre.messages.drop_first().push(p)
            } else {
                post.messages == pre.messages.push(p)
            }
        },
{
    let p = PostView { text: text@, timestamp };
    if pre.capacity != Some(0usize) {
        if pre.capacity == Some(pre.messages.len() as usize) {
            assert(post.messages =~= pre.messages.drop_first().push(p));
        } else {
            assert(post.messages =~= pre.messages.push(p));
        }
    }
}

/// Once a channel is initialized, initializing it again fails with
/// `AlreadyInitialized` and leaves it as the first initialization made it.
pub proof fn lemma_second_init_fails(
    c0: ChannelView,
    c1: ChannelView,
    c2: ChannelView,
    owner: Identity,
    name: Seq<char>,
    description: Seq<char>,
    timestamp: u64,
    r1: Result<(), ChannelError>,
    owner2: Identity,
    name2: Seq<char>,
    description2: Seq<char>,
    timestamp2: u64,
    r2: Result<(), ChannelError>,
)
    requires
        initialized(c0, c1, owner, name, description, timestamp, r1),
        r1 is Ok,
        initialized(c1, c2, owner2, name2, description2, timestamp2, r2),
    ensures
        r2 == Err::<(), _>(ChannelError::AlreadyInitialized),
        c2 == c1,
        c2.owner == Some(owner),
        c2.name == Some(name),
        c2.description == Some(description),
{
}

/// Whatever the order and repetition of subscribe and unsubscribe calls, an
/// identity is a subscriber at the end exactly when its last such call was a
/// subscription, or, having made none, when it was a subscriber at the start.
pub proof fn lemma_membership_follows_last_choice(
    subs: Set<Identity>,
    calls: Seq<(Identity, Action)>,
    id: Identity,
)
    ensures
        subscribers_after_all(subs, calls).contains(id) == match last_choice(calls, id) {
            Some(b) => b,
            None => subs.contains(id),
        },
    decreases calls.len(),
{
    if calls.len() > 0 {
        lemma_membership_follows_last_choice(subs, calls.drop_last(), id);
    }
}

/// Subscribing or unsubscribing twice in a row has the effect of doing it once.
pub proof fn lemma_membership_call_idempotent(subs: Set<Identity>, sender: Identity, action: Action)
    ensures
        subscribers_after(subscribers_after(subs, sender, action), sender, action)
            == subscribers_after(subs, sender, action),
{
    assert(subscribers_after(subscribers_after(subs, sender, action), sender, action)
        =~= subscribers_after(subs, sender, action));
}

/// Initializes `channel` for `owner`: sets the owner, name and description,
/// records the creation as a post and subscribes the owner. Fails with
/// `AlreadyInitialized`, changing nothing, if any of the three is already set.
pub fn init(
    channel: &mut Channel,
    owner: Identity,
    name: String,
    description: String,
    timestamp: u64,
) -> (r: Result<(), ChannelError>)
    requires
        old(channel).wf(),
    ensures
        final(channel).wf(),
        view_wf(final(channel)@),
        initialized(
            old(channel)@,
            final(channel)@,
            owner,
            name@,
            description@,
            timestamp,
            r,
        ),
{
    if channel.is_started() {
        proof {
            channel.lemma_view_wf();
        }
        return Err(ChannelError::AlreadyInitialized);
    }
    let mut text = String::from_str("Channel ");
    text.append(name.as_str());
    text.append(" was created");
    let _ = channel.set_owner_id(owner);
    let _ = channel.set_name(name);
    let _ = channel.set_description(description);
    channel.add_message(Post::new(text, timestamp));
    channel.add_subscriber(owner);
    proof {
        channel.lemma_view_wf();
    }
    Ok(())
}

/// Handles one decoded command from `sender`, at block height `timestamp`.
///
/// `Post` is the only gated command: from anyone but the owner it fails with
/// `NotOwner` and changes nothing.
pub fn dispatch(channel: &mut Channel, sender: Identity, action: Action, timestamp: u64) -> (r:
    Result<Response, ChannelError>)
    requires
        old(channel).wf(),
    ensures
        final(channel).wf(),
        view_wf(final(channel)@),
        dispatched(old(channel)@, final(channel)@, sender, action, timestamp, r),
{
    let r = match action {
        Action::Meta => {
            let meta = Meta {
                name: channel.name(),
                description: channel.description(),
                owner: channel.owner(),
            };
            Ok(Response { reply: Reply::Metadata(meta), notifications: Vec::new() })
        },
        Action::Subscribe => {
            channel.add_subscriber(sender);
            Ok(Response { reply: Reply::Ack, notifications: Vec::new() })
        },
        Action::Unsubscribe => {
            channel.remove_subscriber(sender);
            Ok(Response { reply: Reply::Ack, notifications: Vec::new() })
        },
        Action::Post(text) => {
            match channel.post(sender, text, timestamp) {
                Ok(notifications) => Ok(Response { reply: Reply::Ack, notifications }),
                Err(e) => Err(e),
            }
        },
        Action::Feed => {
            let posts = channel.messages();
            Ok(Response { reply: Reply::Feed(posts), notifications: Vec::new() })
        },
    };
    proof {
        channel.lemma_view_wf();
    }
    r
}

/// Handles the outcome of decoding one inbound payload from `sender`: a
/// payload that did not decode (`None`) is rejected with `DecodeFailure`
/// before anything changes; a command is handled as [`dispatch`] does.
pub fn handle(channel: &mut Channel, sender: Identity, decoded: Option<Action>, timestamp: u64) -> (r:
    Result<Response, ChannelError>)
    requires
        old(channel).wf(),
    ensures
        final(channel).wf(),
        view_wf(final(channel)@),
        decoded is None ==> r == Err::<Response, _>(ChannelError::DecodeFailure) && final(channel)@
            == old(channel)@,
        decoded matches Some(action) ==> dispatched(
            old(channel)@,
            final(channel)@,
            sender,
            action,
            timestamp,
            r,
        ),
{
    match decoded {
        None => {
            proof {
                channel.lemma_view_wf();
            }
            Err(ChannelError::DecodeFailure)
        },
        Some(action) => dispatch(channel, sender, action, timestamp),
    }
}

/// The posts that the channel's log holds, oldest first.
pub fn meta_state(channel: &Channel) -> (r: Vec<Post>)
    ensures
        post_views(r@) == channel@.messages,
{
    channel.messages()
}

} // verus!
