//! The channel's state: its owner, name, description, subscribers and log.
use crate::identity::Identity;
use crate::message_log::{keep_last, post_views, MessageLog, Post, PostView};
use crate::registry::{strictly_ascending, SubscriberRegistry};
use vstd::prelude::*;

verus! {

/// Why the channel rejected a call. A rejected call changes nothing.
#[derive(Debug, Clone, Copy, PartialEq, Eq, Structural)]
pub enum ChannelError {
    /// The owner, name or description was already set.
    AlreadyInitialized,
    /// Only the owner may post.
    NotOwner,
    /// The inbound command could not be decoded.
    DecodeFailure,
}

/// One outbound message: a post delivered to one subscriber.
#[derive(Debug)]
pub struct Notification {
    pub recipient: Identity,
    pub post: Post,
}

/// The channel as its contracts see it.
pub struct ChannelView {
    pub owner: Option<Identity>,
    pub name: Option<Seq<char>>,
    pub description: Option<Seq<char>>,
    /// The subscribers in ascending order.
    pub subscribers: Seq<Identity>,
    /// The log, oldest post first.
    pub messages: Seq<PostView>,
    /// The log's capacity; `None` when it is unbounded.
    pub capacity: Option<usize>,
}

/// The text of an optional string, empty when it is absent.
pub open spec fn text_or_empty(s: Option<Seq<char>>) -> Seq<char> {
    match s {
        Some(t) => t,
        None => Seq::empty(),
    }
}

/// The owner's identity, or the zero identity when there is none.
pub open spec fn owner_or_zero(owner: Option<Identity>) -> Identity {
    match owner {
        Some(o) => o,
        None => Identity { hi: 0, lo: 0 },
    }
}

/// Whether any of the set-once fields is set.
pub open spec fn started(c: ChannelView) -> bool {
    c.owner is Some || c.name is Some || c.description is Some
}

/// What holds of every channel's view: its subscribers are strictly
/// ascending, so each appears once, and its log holds no more than its
/// capacity.
pub open spec fn view_wf(c: ChannelView) -> bool {
    &&& strictly_ascending(c.subscribers)
    &&& c.capacity matches Some(k) ==> c.messages.len() <= k
}

/// The view of an optional `String`.
pub open spec fn opt_view(s: Option<String>) -> Option<Seq<char>> {
    match s {
        Some(t) => Some(t@),
        None => None,
    }
}

/// The notifications of one post: one per subscriber, in the subscribers'
/// order, each carrying the post.
pub open spec fn fans_out(notes: Seq<Notification>, subscribers: Seq<Identity>, post: PostView) -> bool {
    &&& notes.len() == subscribers.len()
    &&& forall|i: int|
        0 <= i < notes.len() ==> (#[trigger] notes[i]).recipient == subscribers[i] && notes[i].post@
            == post
}

/// A single-topic channel: one owner posts, the subscribers are notified.
pub struct Channel {
    owner_id: Option<Identity>,
    name: Option<String>,
    description: Option<String>,
    subscribers: SubscriberRegistry,
    messages: MessageLog,
}

impl View for Channel {
    type V = ChannelView;

    closed spec fn view(&self) -> ChannelView {
        ChannelView {
            owner: self.owner_id,
            name: opt_view(self.name),
            description: opt_view(self.description),
            subscribers: self.subscribers@,
            messages: self.messages@,
            capacity: self.messages.spec_capacity(),
        }
    }
}

impl Channel {
    /// The registry and the log are well formed.
    pub closed spec fn wf(&self) -> bool {
        self.subscribers.wf() && self.messages.wf()
    }

    /// A well-formed channel has a well-formed view.
    pub proof fn lemma_view_wf(&self)
        requires
            self.wf(),
        ensures
            view_wf(self@),
    {
    }

    /// A channel that has not been initialized yet, whose log keeps at most
    /// `capacity` posts (`None`: every post).
    pub fn new(capacity: Option<usize>) -> (r: Channel)
        ensures
            r.wf(),
            view_wf(r@),
            r@.owner is None,
            r@.name is None,
            r@.description is None,
            r@.subscribers == Seq::<Identity>::empty(),
            r@.messages == Seq::<PostView>::empty(),
            r@.capacity == capacity,
    {
        Channel {
            owner_id: None,
            name: None,
            description: None,
            subscribers: SubscriberRegistry::new(),
            messages: MessageLog::new(capacity),
        }
    }

    /// Whether any of the owner, name or description is set.
    pub fn is_started(&self) -> (r: bool)
        ensures
            r == started(self@),
    {
        self.owner_id.is_some() || self.name.is_some() || self.description.is_some()
    }

    /// Sets the owner once; fails if an owner is already set.
    pub fn set_owner_id(&mut self, id: Identity) -> (r: Result<(), ChannelError>)
        ensures
            old(self)@.owner is Some ==> r == Err::<(), _>(ChannelError::AlreadyInitialized)
                && final(self)@ == old(self)@,
            old(self)@.owner is None ==> r is Ok && final(self)@ == (ChannelView {
                owner: Some(id),
                ..old(self)@
            }),
            final(self).wf() == old(self).wf(),
    {
        if self.owner_id.is_some() {
            return Err(ChannelError::AlreadyInitialized);
        }
        self.owner_id = Some(id);
        Ok(())
    }

    /// Whether `id` is the channel's owner; no identity is before initialization.
    pub fn is_owner(&self, id: Identity) -> (r: bool)
        ensures
            r == (self@.owner == Some(id)),
    {
        match self.owner_id {
            Some(o) => o == id,
            None => false,
        }
    }

    /// Sets the name once; fails if a name is already set.
    pub fn set_name(&mut self, name: String) -> (r: Result<(), ChannelError>)
        ensures
            old(self)@.name is Some ==> r == Err::<(), _>(ChannelError::AlreadyInitialized)
                && final(self)@ == old(self)@,
            old(self)@.name is None ==> r is Ok && final(self)@ == (ChannelView {
                name: Some(name@),
                ..old(self)@
            }),
            final(self).wf() == old(self).wf(),
    {
        if self.name.is_some() {
            return Err(ChannelError::AlreadyInitialized);
        }
        self.name = Some(name);
        Ok(())
    }

    /// Sets the description once; fails if a description is already set.
    pub fn set_description(&mut self, desc: String) -> (r: Result<(), ChannelError>)
        ensures
            old(self)@.description is Some ==> r == Err::<(), _>(ChannelError::AlreadyInitialized)
                && final(self)@ == old(self)@,
            old(self)@.description is None ==> r is Ok && final(self)@ == (ChannelView {
                description: Some(desc@),
                ..old(self)@
            }),
            final(self).wf() == old(self).wf(),
    {
        if self.description.is_some() {
            return Err(ChannelError::AlreadyInitialized);
        }
        self.description = Some(desc);
        Ok(())
    }

    /// Subscribes `id`; a no-op when it is already subscribed.
    pub fn add_subscriber(&mut self, id: Identity)
        requires
            old(self).wf(),
        ensures
            final(self).wf(),
            final(self)@.subscribers.to_set() == old(self)@.subscribers.to_set().insert(id),
            final(self)@ == (ChannelView { subscribers: final(self)@.subscribers, ..old(self)@ }),
    {
        self.subscribers.add(id);
    }

    /// Unsubscribes `id`; a no-op when it is not subscribed.
    pub fn remove_subscriber(&mut self, id: Identity)
        requires
            old(self).wf(),
        ensures
            final(self).wf(),
            final(self)@.subscribers.to_set() == old(self)@.subscribers.to_set().remove(id),
            final(self)@ == (ChannelView { subscribers: final(self)@.subscribers, ..old(self)@ }),
    {
        self.subscribers.remove(id);
    }

    /// Appends `message` to the log, evicting the oldest post when it is full.
    pub fn add_message(&mut self, message: Post)
        requires
            old(self).wf(),
        ensures
            final(self).wf(),
            final(self)@ == (ChannelView {
                messages: keep_last(old(self)@.messages.push(message@), old(self)@.capacity),
                ..old(self)@
            }),
    {
        self.messages.append(message);
    }

    /// Publishes `text` on behalf of `sender`. Only the owner may post: the
    /// post is appended to the log and one notification per current
    /// subscriber is returned, in ascending order of subscriber. Any other
    /// sender gets `NotOwner` and nothing changes.
    pub fn post(&mut self, sender: Identity, text: String, timestamp: u64) -> (r: Result<
        Vec<Notification>,
        ChannelError,
    >)
        requires
            old(self).wf(),
        ensures
            final(self).wf(),
            old(self)@.owner != Some(sender) ==> r is Err && r->Err_0 == ChannelError::NotOwner
                && final(self)@ == old(self)@,
            old(self)@.owner == Some(sender) ==> {
                let post = PostView { text: text@, timestamp };
                &&& r is Ok
                &&& fans_out(r->Ok_0@, old(self)@.subscribers, post)
                &&& final(self)@ == (ChannelView {
                    messages: keep_last(old(self)@.messages.push(post), old(self)@.capacity),
                    ..old(self)@
                })
            },
    {
        if !self.is_owner(sender) {
            return Err(ChannelError::NotOwner);
        }
        let post = Post::new(text, timestamp);
        let subs = self.subscribers.snapshot();
        let mut notes: Vec<Notification> = Vec::new();
        let n = subs.len();
        let mut i: usize = 0;
        while i < n
            invariant
                n == subs@.len(),
                i <= n,
                notes@.len() == i,
                forall|k: int|
                    0 <= k < i ==> (#[trigger] notes@[k]).recipient == subs@[k] && notes@[k].post
                        == post,
            decreases n - i,
        {
            notes.push(Notification { recipient: subs[i], post: post.clone() });
            i = i + 1;
        }
        self.messages.append(post);
        Ok(notes)
    }

    /// The subscribers in ascending order.
    pub fn subs(&self) -> (r: Vec<Identity>)
        requires
            self.wf(),
        ensures
            r@ == self@.subscribers,
    {
        self.subscribers.snapshot()
    }

    /// The posts in the log, oldest first.
    pub fn messages(&self) -> (r: Vec<Post>)
        ensures
            post_views(r@) == self@.messages,
    {
        self.messages.snapshot()
    }

    /// The owner, or the zero identity before initialization.
    pub fn owner(&self) -> (r: Identity)
        ensures
            r == owner_or_zero(self@.owner),
    {
        match self.owner_id {
            Some(o) => o,
            None => Identity::zero(),
        }
    }

    /// The name, or the empty string before initialization.
    pub fn name(&self) -> (r: String)
        ensures
            r@ == text_or_empty(self@.name),
    {
        match &self.name {
            Some(s) => s.clone(),
            None => String::new(),
        }
    }

    /// The description, or the empty string before initialization.
    pub fn description(&self) -> (r: String)
        ensures
            r@ == text_or_empty(self@.description),
    {
        match &self.description {
            Some(s) => s.clone(),
            None => String::new(),
        }
    }
}

} // verus!
