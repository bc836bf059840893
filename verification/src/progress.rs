//! Best-effort progress broadcasting.
//!
//! A long-running job owns a short-lived session: a bounded queue of
//! human-readable strings keyed by session id.  Sending never blocks and
//! never fails the job: a message to an unknown session, or to a full
//! queue, is silently dropped.  Progress is advisory; consumers must not
//! parse it for control decisions.
//!
//! The store's view is the map from session id to the pending messages.

use vstd::prelude::*;

verus! {

/// How many messages one session buffers before further sends are dropped.
pub const PROGRESS_CAPACITY: usize = 100;

/// One progress update as shown to the client.
#[derive(Debug)]
pub struct ProgressMessage {
    pub message: String,
}

impl Clone for ProgressMessage {
    fn clone(&self) -> (res: Self)
        ensures
            res == self,
    {
        ProgressMessage { message: self.message.clone() }
    }
}

impl DeepView for ProgressMessage {
    type V = Seq<char>;

    open spec fn deep_view(&self) -> Seq<char> {
        self.message@
    }
}

struct Session {
    id: String,
    queue: Vec<ProgressMessage>,
}

/// The session table: each live session id mapped to its pending messages.
pub struct ProgressStore {
    sessions: Vec<Session>,
}

impl ProgressStore {
    spec fn has_sid(&self, sid: Seq<char>) -> bool {
        exists|i: int|
            0 <= i < self.sessions@.len() && (#[trigger] self.sessions@[i].id)@ == sid
    }

    spec fn idx_of(&self, sid: Seq<char>) -> int {
        choose|i: int| 0 <= i < self.sessions@.len() && (#[trigger] self.sessions@[i].id)@ == sid
    }

    /// Session ids are pairwise distinct.
    pub closed spec fn inv(&self) -> bool {
        forall|i: int, j: int|
            0 <= i < j < self.sessions@.len() ==> (#[trigger] self.sessions@[i].id)@ != (
            #[trigger] self.sessions@[j].id)@
    }

    proof fn lemma_idx(&self, sid: Seq<char>, i: int)
        requires
            self.inv(),
            0 <= i < self.sessions@.len(),
            self.sessions@[i].id@ == sid,
        ensures
            self.has_sid(sid),
            self.idx_of(sid) == i,
            self@.dom().contains(sid),
            self@[sid] == self.sessions@[i].queue.deep_view(),
    {
        assert(self.has_sid(sid));
        let j = self.idx_of(sid);
        if i < j {
            assert(false);
        } else if j < i {
            assert(false);
        }
    }
}

impl View for ProgressStore {
    type V = Map<Seq<char>, Seq<Seq<char>>>;

    closed spec fn view(&self) -> Map<Seq<char>, Seq<Seq<char>>> {
        Map::new(
            |sid: Seq<char>| self.has_sid(sid),
            |sid: Seq<char>| self.sessions@[self.idx_of(sid)].queue.deep_view(),
        )
    }
}

/// A fresh store with no sessions.
pub fn create_progress_store() -> (r: ProgressStore)
    ensures
        r.inv(),
        r@ == Map::<Seq<char>, Seq<Seq<char>>>::empty(),
{
    let r = ProgressStore { sessions: Vec::new() };
    proof {
        assert(r@ =~= Map::<Seq<char>, Seq<Seq<char>>>::empty());
    }
    r
}

impl ProgressStore {
    fn find_session(&self, sid: &str) -> (r: Option<usize>)
        requires
            self.inv(),
        ensures
            match r {
                Some(i) => i < self.sessions@.len() && self.sessions@[i as int].id@ == sid@
                    && self@.dom().contains(sid@) && self@[sid@] == self.sessions@[i as int
                ].queue.deep_view() && self.idx_of(sid@) == i,
                None => !self@.dom().contains(sid@),
            },
    {
        let n = self.sessions.len();
        let mut i: usize = 0;
        while i < n
            invariant
                self.inv(),
                i <= n == self.sessions@.len(),
                forall|k: int| 0 <= k < i ==> (#[trigger] self.sessions@[k].id)@ != sid@,
            decreases n - i,
        {
            if crate::strutil::str_eq_str(self.sessions[i].id.as_str(), sid) {
                proof {
                    self.lemma_idx(sid@, i as int);
                }
                return Some(i);
            }
            i += 1;
        }
        assert(!self.has_sid(sid@));
        None
    }
}

/// Open a session: its queue starts empty.  Registering an id again resets
/// its queue.
pub fn register_session(store: &mut ProgressStore, session_id: String)
    requires
        old(store).inv(),
    ensures
        final(store).inv(),
        final(store)@ == old(store)@.insert(session_id@, Seq::<Seq<char>>::empty()),
{
    let ghost pre = *store;
    match store.find_session(session_id.as_str()) {
        Some(i) => {
            let ghost sid = session_id@;
            let s = &mut store.sessions[i];
            s.id = session_id;
            s.queue = Vec::new();
            proof {
                assert(store.sessions@ =~= pre.sessions@.update(
                    i as int,
                    store.sessions@[i as int],
                ));
                assert(store.sessions@[i as int].queue.deep_view() =~= Seq::<Seq<char>>::empty());
                lemma_store_update(pre, *store, i as int);
                assert(pre.sessions@[i as int].id@ == sid);
            }
        },
        None => {
            store.sessions.push(Session { id: session_id, queue: Vec::new() });
            proof {
                assert(store.sessions@.last().queue.deep_view() =~= Seq::<Seq<char>>::empty());
                lemma_store_push(pre, *store);
            }
        },
    }
}

/// After replacing the session at `i` (same id or a fresh queue under the
/// same id), the store maps that id to the new queue and nothing else moved.
proof fn lemma_store_update(pre: ProgressStore, post: ProgressStore, i: int)
    requires
        pre.inv(),
        0 <= i < pre.sessions@.len(),
        post.sessions@ == pre.sessions@.update(i, post.sessions@[i]),
        post.sessions@[i].id@ == pre.sessions@[i].id@,
    ensures
        post.inv(),
        post@ == pre@.insert(pre.sessions@[i].id@, post.sessions@[i].queue.deep_view()),
{
    let sid = pre.sessions@[i].id@;
    assert forall|k: int, j: int| 0 <= k < j < post.sessions@.len() implies (
    #[trigger] post.sessions@[k].id)@ != (#[trigger] post.sessions@[j].id)@ by {
        assert(pre.sessions@[k].id@ != pre.sessions@[j].id@);
    }
    assert forall|x: Seq<char>| post.has_sid(x) <==> pre.has_sid(x) by {
        if post.has_sid(x) {
            let k = choose|k: int|
                0 <= k < post.sessions@.len() && (#[trigger] post.sessions@[k].id)@ == x;
            assert(pre.sessions@[if k == i {
                i
            } else {
                k
            }].id@ == x);
        }
        if pre.has_sid(x) {
            let k = choose|k: int|
                0 <= k < pre.sessions@.len() && (#[trigger] pre.sessions@[k].id)@ == x;
            assert(post.sessions@[k].id@ == x);
        }
    }
    assert forall|x: Seq<char>| post@.dom().contains(x) implies post@[x] == pre@.insert(
        sid,
        post.sessions@[i].queue.deep_view(),
    )[x] by {
        let k = choose|k: int|
            0 <= k < post.sessions@.len() && (#[trigger] post.sessions@[k].id)@ == x;
        post.lemma_idx(x, k);
        if x == sid {
            if k != i {
                assert(pre.sessions@[k].id@ == sid);
                assert(false);
            }
        } else {
            assert(k != i);
            assert(pre.sessions@[k].id@ == x);
            pre.lemma_idx(x, k);
        }
    }
    assert(post@ =~= pre@.insert(sid, post.sessions@[i].queue.deep_view()));
}

/// After pushing a session with a fresh id, the store maps that id to the
/// new queue and nothing else moved.
proof fn lemma_store_push(pre: ProgressStore, post: ProgressStore)
    requires
        pre.inv(),
        post.sessions@.len() == pre.sessions@.len() + 1,
        post.sessions@ == pre.sessions@.push(post.sessions@.last()),
        !pre.has_sid(post.sessions@.last().id@),
    ensures
        post.inv(),
        post@ == pre@.insert(
            post.sessions@.last().id@,
            post.sessions@.last().queue.deep_view(),
        ),
{
    let n = pre.sessions@.len() as int;
    let sid = post.sessions@.last().id@;
    assert forall|k: int, j: int| 0 <= k < j < post.sessions@.len() implies (
    #[trigger] post.sessions@[k].id)@ != (#[trigger] post.sessions@[j].id)@ by {
        if j < n {
            assert(pre.sessions@[k].id@ != pre.sessions@[j].id@);
        } else {
            assert(pre.sessions@[k].id@ == post.sessions@[k].id@);
            assert(!pre.has_sid(sid));
            assert(pre.sessions@[k].id@ != sid);
        }
    }
    assert forall|x: Seq<char>| post@.dom().contains(x) implies post@[x] == pre@.insert(
        sid,
        post.sessions@.last().queue.deep_view(),
    )[x] by {
        let k = choose|k: int|
            0 <= k < post.sessions@.len() && (#[trigger] post.sessions@[k].id)@ == x;
        post.lemma_idx(x, k);
        if x == sid {
            if k < n {
                assert(pre.sessions@[k].id@ == sid);
                assert(false);
            }
        } else {
            assert(k < n);
            assert(pre.sessions@[k].id@ == x);
            pre.lemma_idx(x, k);
        }
    }
    assert forall|x: Seq<char>| pre@.dom().contains(x) || x == sid implies post@.dom().contains(
        x,
    ) by {
        if x == sid {
            assert(post.sessions@.last().id@ == x);
            assert(post.has_sid(x));
        } else {
            let k = choose|k: int|
                0 <= k < pre.sessions@.len() && (#[trigger] pre.sessions@[k].id)@ == x;
            assert(post.sessions@[k].id@ == x);
            assert(post.has_sid(x));
        }
    }
    assert(post@ =~= pre@.insert(sid, post.sessions@.last().queue.deep_view()));
}

/// Push a progress message, best-effort: a message to an unknown session or
/// to a full queue is dropped and the store is unchanged.
pub fn send_progress(store: &mut ProgressStore, session_id: &str, message: String)
    requires
        old(store).inv(),
    ensures
        final(store).inv(),
        final(store)@ == (if old(store)@.dom().contains(session_id@) && old(store)@[session_id@
        ].len() < PROGRESS_CAPACITY {
            old(store)@.insert(
                session_id@,
                old(store)@[session_id@].push(message@),
            )
        } else {
            old(store)@
        }),
{
    let ghost pre = *store;
    match store.find_session(session_id) {
        Some(i) => {
            if store.sessions[i].queue.len() < PROGRESS_CAPACITY {
                let ghost old_queue = store.sessions@[i as int].queue.deep_view();
                let s = &mut store.sessions[i];
                s.queue.push(ProgressMessage { message });
                proof {
                    assert(store.sessions@[i as int].queue.deep_view() =~= old_queue.push(
                        message@,
                    ));
                    lemma_store_update(pre, *store, i as int);
                }
            }
        },
        None => {},
    }
}

/// Drop a session.  Removing an unknown session is a no-op.
pub fn unregister_session(store: &mut ProgressStore, session_id: &str)
    requires
        old(store).inv(),
    ensures
        final(store).inv(),
        final(store)@ == old(store)@.remove(session_id@),
{
    let ghost pre = *store;
    match store.find_session(session_id) {
        Some(i) => {
            store.sessions.swap_remove(i);
            proof {
                lemma_store_swap_remove(pre, *store, i as int);
            }
        },
        None => {
            proof {
                assert(store@ =~= pre@.remove(session_id@));
            }
        },
    }
}

/// After swap-removing the session at `i`, its id is gone and every other
/// session keeps its queue.
proof fn lemma_store_swap_remove(pre: ProgressStore, post: ProgressStore, i: int)
    requires
        pre.inv(),
        0 <= i < pre.sessions@.len(),
        post.sessions@ == pre.sessions@.update(i, pre.sessions@.last()).drop_last(),
    ensures
        post.inv(),
        post@ == pre@.remove(pre.sessions@[i].id@),
{
    let sid = pre.sessions@[i].id@;
    let n = pre.sessions@.len() as int;
    assert forall|k: int, j: int| 0 <= k < j < post.sessions@.len() implies (
    #[trigger] post.sessions@[k].id)@ != (#[trigger] post.sessions@[j].id)@ by {
        let pk: int = if k == i {
            n - 1
        } else {
            k
        };
        let pj: int = if j == i {
            n - 1
        } else {
            j
        };
        assert(post.sessions@[k].id@ == pre.sessions@[pk].id@);
        assert(post.sessions@[j].id@ == pre.sessions@[pj].id@);
    }
    assert forall|x: Seq<char>| post@.dom().contains(x) implies pre@.remove(sid).dom().contains(
        x,
    ) && post@[x] == pre@.remove(sid)[x] by {
        let k = choose|k: int|
            0 <= k < post.sessions@.len() && (#[trigger] post.sessions@[k].id)@ == x;
        post.lemma_idx(x, k);
        let pk: int = if k == i {
            n - 1
        } else {
            k
        };
        assert(pre.sessions@[pk].id@ == x);
        pre.lemma_idx(x, pk);
        assert(x != sid);
    }
    assert forall|x: Seq<char>| pre@.remove(sid).dom().contains(x) implies post@.dom().contains(
        x,
    ) by {
        let k = choose|k: int|
            0 <= k < pre.sessions@.len() && (#[trigger] pre.sessions@[k].id)@ == x;
        assert(x != sid);
        assert(k != i);
        if k == n - 1 {
            assert(post.sessions@[i].id@ == x);
        } else {
            assert(post.sessions@[k].id@ == x);
        }
    }
    assert(post@ =~= pre@.remove(sid));
}

/// Take the oldest pending message of a session: the receiving end of the
/// channel.  Unknown or drained sessions yield nothing.
pub fn recv_progress(store: &mut ProgressStore, session_id: &str) -> (r: Option<ProgressMessage>)
    requires
        old(store).inv(),
    ensures
        final(store).inv(),
        match r {
            Some(m) => old(store)@.dom().contains(session_id@) && old(store)@[session_id@].len()
                > 0 && m.message@ == old(store)@[session_id@][0] && final(store)@ == old(
                store,
            )@.insert(session_id@, old(store)@[session_id@].drop_first()),
            None => (!old(store)@.dom().contains(session_id@) || old(store)@[session_id@].len()
                == 0) && final(store)@ == old(store)@,
        },
{
    let ghost pre = *store;
    match store.find_session(session_id) {
        Some(i) => {
            if store.sessions[i].queue.len() == 0 {
                assert(pre@[session_id@].len() == 0);
                None
            } else {
                let ghost old_queue = store.sessions@[i as int].queue.deep_view();
                let s = &mut store.sessions[i];
                let m = s.queue.remove(0);
                proof {
                    assert(store.sessions@[i as int].queue.deep_view() =~= old_queue.drop_first());
                    lemma_store_update(pre, *store, i as int);
                }
                Some(m)
            }
        },
        None => None,
    }
}

} // verus!
