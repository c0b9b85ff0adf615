//! Posts and the bounded message log that keeps them.
use std::collections::VecDeque;
use vstd::prelude::*;

verus! {

/// The capacity that a deployed channel's log is given unless the deployer
/// chooses another.
pub const DEFAULT_CAPACITY: usize = 5;

/// One published text, stamped with the block height at which it was posted.
#[derive(Debug)]
pub struct Post {
    pub text: String,
    pub timestamp: u64,
}

impl Clone for Post {
    fn clone(&self) -> (r: Self)
        ensures
            r == *self,
    {
        Post { text: self.text.clone(), timestamp: self.timestamp }
    }
}

/// A post as the contracts see it.
pub struct PostView {
    pub text: Seq<char>,
    pub timestamp: u64,
}

impl View for Post {
    type V = PostView;

    open spec fn view(&self) -> PostView {
        PostView { text: self.text@, timestamp: self.timestamp }
    }
}

/// The views of a sequence of posts.
pub open spec fn post_views(s: Seq<Post>) -> Seq<PostView> {
    s.map_values(|p: Post| p@)
}

impl Post {
    /// A post of `text` made at block height `timestamp`.
    pub fn new(text: String, timestamp: u64) -> (r: Post)
        ensures
            r.text == text,
            r.timestamp == timestamp,
    {
        Post { text, timestamp }
    }
}

/// What a log of the given capacity keeps of the sequence `s`: all of it when
/// unbounded (`None`), else its last `c` entries.
pub open spec fn keep_last<A>(s: Seq<A>, capacity: Option<usize>) -> Seq<A> {
    match capacity {
        None => s,
        Some(c) => if s.len() <= c {
            s
        } else {
            s.subrange(s.len() - c, s.len() as int)
        },
    }
}

/// The contents of a log of the given capacity, starting empty, after each of
/// `posts` has been appended in turn.
pub open spec fn fill(capacity: Option<usize>, posts: Seq<PostView>) -> Seq<PostView>
    decreases posts.len(),
{
    if posts.len() == 0 {
        Seq::empty()
    } else {
        keep_last(fill(capacity, posts.drop_last()).push(posts.last()), capacity)
    }
}

/// An append-only sequence of posts, oldest first. With a capacity, appending
/// to a full log first evicts its oldest post.
pub struct MessageLog {
    entries: VecDeque<Post>,
    capacity: Option<usize>,
}

impl View for MessageLog {
    type V = Seq<PostView>;

    closed spec fn view(&self) -> Seq<PostView> {
        post_views(self.entries@)
    }
}

impl MessageLog {
    /// The log's capacity; `None` when it is unbounded.
    pub closed spec fn spec_capacity(&self) -> Option<usize> {
        self.capacity
    }

    /// A bounded log never holds more posts than its capacity.
    pub open spec fn wf(&self) -> bool {
        match self.spec_capacity() {
            None => true,
            Some(c) => self@.len() <= c,
        }
    }

    /// An empty log of the given capacity (`None`: unbounded).
    pub fn new(capacity: Option<usize>) -> (r: MessageLog)
        ensures
            r.wf(),
            r@ == Seq::<PostView>::empty(),
            r.spec_capacity() == capacity,
    {
        proof {
            assert(post_views(Seq::<Post>::empty()) =~= Seq::<PostView>::empty());
        }
        MessageLog { entries: VecDeque::new(), capacity }
    }

    /// The log's capacity; `None` when it is unbounded.
    pub fn capacity(&self) -> (r: Option<usize>)
        ensures
            r == self.spec_capacity(),
    {
        self.capacity
    }

    /// The number of posts that the log holds.
    pub fn len(&self) -> (r: usize)
        ensures
            r == self@.len(),
    {
        self.entries.len()
    }

    /// Appends `post` as the newest entry, evicting the oldest one when the
    /// log is full.
    pub fn append(&mut self, post: Post)
        requires
            old(self).wf(),
        ensures
            final(self).wf(),
            final(self).spec_capacity() == old(self).spec_capacity(),
            final(self)@ == keep_last(old(self)@.push(post@), old(self).spec_capacity()),
            old(self).spec_capacity() matches Some(c) && old(self)@.len() == c && c > 0
                ==> final(self)@ == old(self)@.drop_first().push(post@),
            old(self).spec_capacity() matches Some(c) && old(self)@.len() < c
                ==> final(self)@ == old(self)@.push(post@),
            old(self).spec_capacity() is None ==> final(self)@ == old(self)@.push(post@),
    {
        match self.capacity {
            None => {
                self.entries.push_back(post);
                assert(self@ =~= old(self)@.push(post@));
            },
            Some(c) => {
                if c == 0 {
                    assert(keep_last(old(self)@.push(post@), self.capacity) =~= Seq::<PostView>::empty());
                } else {
                    if self.entries.len() == c {
                        let _ = self.entries.pop_front();
                    }
                    self.entries.push_back(post);
                    assert(self@ =~= keep_last(old(self)@.push(post@), self.capacity));
                    proof {
                        if old(self)@.len() == c {
                            assert(self@ =~= old(self)@.drop_first().push(post@));
                        } else {
                            assert(self@ =~= old(self)@.push(post@));
                        }
                    }
                }
            },
        }
    }

    /// The posts that the log holds, oldest first.
    pub fn snapshot(&self) -> (r: Vec<Post>)
        ensures
            post_views(r@) == self@,
    {
        let mut r: Vec<Post> = Vec::new();
        let n = self.entries.len();
        let mut i: usize = 0;
        while i < n
            invariant
                n == self.entries@.len(),
                i <= n,
                r@ == self.entries@.subrange(0, i as int),
            decreases n - i,
        {
            r.push(self.entries[i].clone());
            i = i + 1;
            assert(r@ =~= self.entries@.subrange(0, i as int));
        }
        assert(self.entries@.subrange(0, n as int) =~= self.entries@);
        assert(post_views(r@) =~= self@);
        r
    }
}

/// Appending to a log what it already keeps changes nothing about what it
/// keeps next: trimming before or after the push comes to the same.
proof fn lemma_keep_last_push<A>(s: Seq<A>, p: A, capacity: Option<usize>)
    ensures
        keep_last(keep_last(s, capacity).push(p), capacity) == keep_last(s.push(p), capacity),
{
    match capacity {
        None => {},
        Some(c) => {
            let t = keep_last(s, capacity);
            if s.len() <= c {
            } else {
                assert(t.len() == c);
                assert(keep_last(t.push(p), capacity) =~= keep_last(s.push(p), capacity));
            }
        },
    }
}

/// Whatever was appended to an empty log, it holds at most its capacity of
/// posts, and exactly the most recently appended ones in the order they came.
pub proof fn lemma_log_keeps_latest(capacity: Option<usize>, posts: Seq<PostView>)
    ensures
        fill(capacity, posts) == keep_last(posts, capacity),
        capacity matches Some(c) ==> fill(capacity, posts).len() <= c,
    decreases posts.len(),
{
    if posts.len() == 0 {
        assert(keep_last(posts, capacity) =~= posts);
    } else {
        lemma_log_keeps_latest(capacity, posts.drop_last());
        lemma_keep_last_push(posts.drop_last(), posts.last(), capacity);
        assert(posts.drop_last().push(posts.last()) =~= posts);
    }
}

} // verus!
