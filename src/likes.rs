use vstd::prelude::*;
use crate::models::AuthUser;
use crate::outcome::Outcome;
use crate::policy::{allows, authorize, Policy};

verus! {

/// The state of the like relation as the contracts see it: the stored counter
/// of each existing post, and the set of `(account, post)` likes.
pub struct LedgerView {
    pub counts: Map<i32, int>,
    pub likes: Set<(i32, i32)>,
}

/// The likes that point at `post`.
pub open spec fn likers(likes: Set<(i32, i32)>, post: i32) -> Set<(i32, i32)> {
    likes.filter(|l: (i32, i32)| l.1 == post)
}

/// Every like points at an existing post, and every post's stored counter is
/// the number of likes that point at it.
pub open spec fn ledger_consistent(v: LedgerView) -> bool {
    &&& v.likes.finite()
    &&& forall|l: (i32, i32)| v.likes.contains(l) ==> v.counts.contains_key(l.1)
    &&& forall|p: i32| v.counts.contains_key(p) ==> v.counts[p] == #[trigger] likers(v.likes, p).len()
}

/// Why `account` (connected or not) may not like `post` in state `v`; `None`
/// when it may.
pub open spec fn like_error(v: LedgerView, connected: bool, account: i32, post: i32) -> Option<Outcome> {
    if !connected {
        Some(Outcome::Unauthorized)
    } else if !v.counts.contains_key(post) {
        Some(Outcome::NotFound)
    } else if v.likes.contains((account, post)) {
        Some(Outcome::Conflict)
    } else if v.counts[post] >= i32::MAX {
        // the stored counter cannot grow: the store refuses the write
        Some(Outcome::InternalError)
    } else {
        None
    }
}

/// The state after `account` likes `post`: one more like, one more on the counter.
pub open spec fn liked(v: LedgerView, account: i32, post: i32) -> LedgerView {
    LedgerView { counts: v.counts.insert(post, v.counts[post] + 1), likes: v.likes.insert((account, post)) }
}

/// Why `account` may not take back its like of `post` in state `v`; `None`
/// when it may.
pub open spec fn unlike_error(v: LedgerView, connected: bool, account: i32, post: i32) -> Option<Outcome> {
    if !connected {
        Some(Outcome::Unauthorized)
    } else if !v.counts.contains_key(post) || !v.likes.contains((account, post)) {
        Some(Outcome::NotFound)
    } else {
        None
    }
}

/// The state after `account` takes back its like of `post`.
pub open spec fn unliked(v: LedgerView, account: i32, post: i32) -> LedgerView {
    LedgerView { counts: v.counts.insert(post, v.counts[post] - 1), likes: v.likes.remove((account, post)) }
}

/// Decides a like from what the store reports: the caller must be
/// authenticated, the post must exist, and the caller must not have liked it
/// yet (a repeated like is a conflict, not a no-op).
pub fn like_decision(user: &AuthUser, post_exists: bool, already_liked: bool) -> (r: Result<(), Outcome>)
    ensures
        !user.is_connected ==> r == Err::<(), Outcome>(Outcome::Unauthorized),
        user.is_connected && !post_exists ==> r == Err::<(), Outcome>(Outcome::NotFound),
        user.is_connected && post_exists && already_liked ==> r == Err::<(), Outcome>(Outcome::Conflict),
        r is Ok <==> (user.is_connected && post_exists && !already_liked),
{
    if !user.is_connected {
        Err(Outcome::Unauthorized)
    } else if !post_exists {
        Err(Outcome::NotFound)
    } else if already_liked {
        Err(Outcome::Conflict)
    } else {
        Ok(())
    }
}

/// Decides taking back a like: the caller must be authenticated and its like
/// of an existing post must be there.
pub fn unlike_decision(user: &AuthUser, post_exists: bool, liked: bool) -> (r: Result<(), Outcome>)
    ensures
        !user.is_connected ==> r == Err::<(), Outcome>(Outcome::Unauthorized),
        user.is_connected && !(post_exists && liked) ==> r == Err::<(), Outcome>(Outcome::NotFound),
        r is Ok <==> (user.is_connected && post_exists && liked),
{
    if !user.is_connected {
        Err(Outcome::Unauthorized)
    } else if !post_exists || !liked {
        Err(Outcome::NotFound)
    } else {
        Ok(())
    }
}

/// Posts with their like counters, and the likes themselves. Each like and
/// its counter change are applied together or not at all.
pub struct LikeLedger {
    posts: Vec<(i32, i32)>,
    likes: Vec<(i32, i32)>,
    model: Ghost<LedgerView>,
}

impl View for LikeLedger {
    type V = LedgerView;

    closed spec fn view(&self) -> LedgerView {
        self.model@
    }
}

proof fn lemma_likers_insert(likes: Set<(i32, i32)>, l: (i32, i32), p: i32)
    requires
        likes.finite(),
        !likes.contains(l),
    ensures
        l.1 == p ==> likers(likes.insert(l), p) == likers(likes, p).insert(l),
        l.1 == p ==> likers(likes.insert(l), p).len() == likers(likes, p).len() + 1,
        l.1 != p ==> likers(likes.insert(l), p) == likers(likes, p),
{
    assert(likers(likes, p).subset_of(likes));
    vstd::set_lib::lemma_len_subset(likers(likes, p), likes);
    if l.1 == p {
        assert(likers(likes.insert(l), p) =~= likers(likes, p).insert(l));
    } else {
        assert(likers(likes.insert(l), p) =~= likers(likes, p));
    }
}

proof fn lemma_likers_remove(likes: Set<(i32, i32)>, l: (i32, i32), p: i32)
    requires
        likes.finite(),
        likes.contains(l),
    ensures
        l.1 == p ==> likers(likes.remove(l), p).len() == likers(likes, p).len() - 1,
        l.1 == p ==> likers(likes, p).len() >= 1,
        l.1 != p ==> likers(likes.remove(l), p) == likers(likes, p),
{
    vstd::set_lib::lemma_len_subset(likers(likes, p), likes);
    if l.1 == p {
        assert(likers(likes.remove(l), p) =~= likers(likes, p).remove(l));
        assert(likers(likes, p).contains(l));
    } else {
        assert(likers(likes.remove(l), p) =~= likers(likes, p));
    }
}

impl LikeLedger {
    /// The vectors hold exactly the view, without repeats, and the view is
    /// consistent.
    pub closed spec fn wf(&self) -> bool {
        let v = self.model@;
        &&& forall|i: int| 0 <= i < self.posts@.len() ==> v.counts.contains_key(#[trigger] self.posts@[i].0)
            && v.counts[self.posts@[i].0] == self.posts@[i].1 as int
        &&& forall|p: i32| #[trigger] v.counts.contains_key(p) ==> exists|i: int| 0 <= i < self.posts@.len()
            && self.posts@[i].0 == p
        &&& forall|i: int, j: int| 0 <= i < self.posts@.len() && 0 <= j < self.posts@.len() && i != j
            ==> self.posts@[i].0 != self.posts@[j].0
        &&& self.likes@.no_duplicates()
        &&& self.likes@.to_set() == v.likes
        &&& ledger_consistent(v)
    }

    /// Every well-formed ledger is consistent: each post's stored counter is
    /// the number of likes that point at it, and every like points at a post.
    pub proof fn lemma_counts_match(&self)
        requires
            self.wf(),
        ensures
            ledger_consistent(self@),
    {
    }

    /// An empty ledger.
    pub fn new() -> (r: LikeLedger)
        ensures
            r.wf(),
            r@.counts == Map::<i32, int>::empty(),
            r@.likes == Set::<(i32, i32)>::empty(),
    {
        let r = LikeLedger {
            posts: Vec::new(),
            likes: Vec::new(),
            model: Ghost(LedgerView { counts: Map::empty(), likes: Set::empty() }),
        };
        assert(r.likes@.to_set() =~= Set::<(i32, i32)>::empty());
        r
    }

    fn find_post(&self, post_id: i32) -> (r: Option<usize>)
        requires
            self.wf(),
        ensures
            r matches Some(i) ==> i < self.posts@.len() && self.posts@[i as int].0 == post_id,
            r is Some <==> self@.counts.contains_key(post_id),
    {
        let mut i: usize = 0;
        while i < self.posts.len()
            invariant
                self.wf(),
                i <= self.posts@.len(),
                forall|k: int| 0 <= k < i ==> self.posts@[k].0 != post_id,
            decreases self.posts@.len() - i,
        {
            if self.posts[i].0 == post_id {
                assert(self@.counts.contains_key(self.posts@[i as int].0));
                return Some(i);
            }
            i = i + 1;
        }
        None
    }

    fn find_like(&self, account_id: i32, post_id: i32) -> (r: Option<usize>)
        requires
            self.wf(),
        ensures
            r matches Some(i) ==> i < self.likes@.len() && self.likes@[i as int] == (account_id, post_id),
            r is Some <==> self@.likes.contains((account_id, post_id)),
    {
        let mut i: usize = 0;
        while i < self.likes.len()
            invariant
                self.wf(),
                i <= self.likes@.len(),
                forall|k: int| 0 <= k < i ==> self.likes@[k] != (account_id, post_id),
            decreases self.likes@.len() - i,
        {
            let l = self.likes[i];
            if l.0 == account_id && l.1 == post_id {
                assert(self.likes@[i as int] == (account_id, post_id));
                assert(self.likes@.contains((account_id, post_id)));
                return Some(i);
            }
            i = i + 1;
        }
        proof {
            if self.likes@.contains((account_id, post_id)) {
                let k = choose|k: int| 0 <= k < self.likes@.len() && self.likes@[k] == (account_id, post_id);
                assert(self.likes@[k] != (account_id, post_id));
            }
        }
        None
    }

    /// The stored like counter of `post_id`, if the post exists.
    pub fn likes_count(&self, post_id: i32) -> (r: Option<i32>)
        requires
            self.wf(),
        ensures
            r is Some <==> self@.counts.contains_key(post_id),
            r matches Some(c) ==> c as int == self@.counts[post_id],
    {
        match self.find_post(post_id) {
            Some(i) => Some(self.posts[i].1),
            None => None,
        }
    }

    /// Whether `account_id` likes `post_id`.
    pub fn is_liked(&self, account_id: i32, post_id: i32) -> (r: bool)
        requires
            self.wf(),
        ensures
            r == self@.likes.contains((account_id, post_id)),
    {
        self.find_like(account_id, post_id).is_some()
    }

    /// Adds a post without likes; an id already in use is a conflict and
    /// changes nothing.
    pub fn add_post(&mut self, post_id: i32) -> (r: Result<(), Outcome>)
        requires
            old(self).wf(),
        ensures
            final(self).wf(),
            r is Err <==> old(self)@.counts.contains_key(post_id),
            r is Err ==> r == Err::<(), Outcome>(Outcome::Conflict) && final(self)@ == old(self)@,
            r is Ok ==> final(self)@ == (LedgerView {
                counts: old(self)@.counts.insert(post_id, 0),
                likes: old(self)@.likes,
            }),
    {
        if self.find_post(post_id).is_some() {
            return Err(Outcome::Conflict);
        }
        let ghost v = self.model@;
        proof {
            assert(likers(v.likes, post_id) =~= Set::<(i32, i32)>::empty());
        }
        self.posts.push((post_id, 0));
        self.model = Ghost(LedgerView { counts: v.counts.insert(post_id, 0), likes: v.likes });
        proof {
            let nv = self.model@;
            assert forall|p: i32| #[trigger] nv.counts.contains_key(p) implies exists|i: int|
                0 <= i < self.posts@.len() && self.posts@[i].0 == p by {
                if p == post_id {
                    assert(self.posts@[self.posts@.len() - 1].0 == p);
                } else {
                    assert(v.counts.contains_key(p));
                    let i = choose|i: int| 0 <= i < old(self).posts@.len() && old(self).posts@[i].0 == p;
                    assert(self.posts@[i].0 == p);
                }
            }
        }
        Ok(())
    }

    /// Removes post `post_id` with every like of it; administrators only
    /// (`Unauthorized` otherwise), and a missing post is `NotFound`. On any
    /// error nothing changes.
    pub fn remove_post(&mut self, user: &AuthUser, post_id: i32) -> (r: Result<(), Outcome>)
        requires
            old(self).wf(),
        ensures
            final(self).wf(),
            !allows(Policy::AdminOnly, *user) ==> r == Err::<(), Outcome>(Outcome::Unauthorized),
            allows(Policy::AdminOnly, *user) && !old(self)@.counts.contains_key(post_id)
                ==> r == Err::<(), Outcome>(Outcome::NotFound),
            r is Ok <==> allows(Policy::AdminOnly, *user) && old(self)@.counts.contains_key(post_id),
            r is Err ==> final(self)@ == old(self)@,
            r is Ok ==> final(self)@ == (LedgerView {
                counts: old(self)@.counts.remove(post_id),
                likes: old(self)@.likes.filter(|l: (i32, i32)| l.1 != post_id),
            }),
    {
        match authorize(Policy::AdminOnly, user, false) {
            Err(e) => {
                return Err(e);
            },
            Ok(()) => {},
        }
        let i = match self.find_post(post_id) {
            Some(i) => i,
            None => {
                return Err(Outcome::NotFound);
            },
        };
        let mut kept: Vec<(i32, i32)> = Vec::new();
        let ghost mut from: Seq<int> = Seq::empty();
        let mut k: usize = 0;
        while k < self.likes.len()
            invariant
                self.wf(),
                k <= self.likes@.len(),
                from.len() == kept@.len(),
                forall|j: int| 0 <= j < kept@.len() ==> 0 <= #[trigger] from[j] < k && kept@[j] == self.likes@[from[j]],
                forall|j: int| 0 <= j < kept@.len() ==> (#[trigger] kept@[j]).1 != post_id,
                forall|m: int| 0 <= m < k && (#[trigger] self.likes@[m]).1 != post_id ==> kept@.contains(self.likes@[m]),
                kept@.no_duplicates(),
            decreases self.likes@.len() - k,
        {
            let l = self.likes[k];
            if l.1 != post_id {
                proof {
                    assert forall|j: int| 0 <= j < kept@.len() implies kept@[j] != l by {
                        assert(from[j] != k as int);
                    }
                    from = from.push(k as int);
                }
                let ghost prev = kept@;
                kept.push(l);
                proof {
                    assert(kept@[kept@.len() - 1] == l);
                    assert forall|m: int| 0 <= m < k + 1 && (#[trigger] self.likes@[m]).1 != post_id
                        implies kept@.contains(self.likes@[m]) by {
                        if m < k {
                            assert(prev.contains(self.likes@[m]));
                            let j = choose|j: int| 0 <= j < prev.len() && prev[j] == self.likes@[m];
                            assert(kept@[j] == self.likes@[m]);
                        }
                    }
                }
            }
            k = k + 1;
        }
        let ghost v = self.model@;
        let ghost nv = LedgerView {
            counts: v.counts.remove(post_id),
            likes: v.likes.filter(|l: (i32, i32)| l.1 != post_id),
        };
        proof {
            assert(kept@.to_set() =~= nv.likes) by {
                assert forall|x: (i32, i32)| #[trigger] kept@.contains(x) implies nv.likes.contains(x) by {
                    let j = choose|j: int| 0 <= j < kept@.len() && kept@[j] == x;
                    assert(self.likes@.contains(self.likes@[from[j]]));
                }
                assert forall|x: (i32, i32)| #[trigger] nv.likes.contains(x) implies kept@.contains(x) by {
                    let m = choose|m: int| 0 <= m < self.likes@.len() && self.likes@[m] == x;
                    assert(self.likes@[m].1 != post_id);
                }
            }
            assert forall|p: i32| nv.counts.contains_key(p) implies nv.counts[p] == #[trigger] likers(nv.likes, p).len() by {
                assert(likers(nv.likes, p) =~= likers(v.likes, p));
            }
        }
        let ghost old_posts = self.posts@;
        self.posts.remove(i);
        self.likes = kept;
        self.model = Ghost(nv);
        proof {
            assert forall|a: int, b: int| 0 <= a < self.posts@.len() && 0 <= b < self.posts@.len() && a != b
                implies self.posts@[a].0 != self.posts@[b].0 by {
                let oa = if a < i { a } else { a + 1 };
                let ob = if b < i { b } else { b + 1 };
                assert(self.posts@[a] == old_posts[oa]);
                assert(self.posts@[b] == old_posts[ob]);
            }
            assert forall|a: int| 0 <= a < self.posts@.len() implies nv.counts.contains_key(#[trigger] self.posts@[a].0)
                && nv.counts[self.posts@[a].0] == self.posts@[a].1 as int by {
                let oa = if a < i { a } else { a + 1 };
                assert(self.posts@[a] == old_posts[oa]);
                assert(oa != i as int);
            }
            assert forall|p: i32| #[trigger] nv.counts.contains_key(p) implies exists|jj: int|
                0 <= jj < self.posts@.len() && self.posts@[jj].0 == p by {
                let jj = choose|jj: int| 0 <= jj < old_posts.len() && old_posts[jj].0 == p;
                assert(jj != i as int);
                if jj < i {
                    assert(self.posts@[jj].0 == p);
                } else {
                    assert(self.posts@[jj - 1].0 == p);
                }
            }
        }
        Ok(())
    }

    /// `user` likes `post_id`: the like and the counter increment happen
    /// together. Anonymous callers get `Unauthorized`, a missing post
    /// `NotFound`, a repeated like `Conflict`, a counter at its maximum
    /// `InternalError`; on any error nothing changes.
    pub fn like(&mut self, user: &AuthUser, post_id: i32) -> (r: Result<(), Outcome>)
        requires
            old(self).wf(),
        ensures
            final(self).wf(),
            like_error(old(self)@, user.is_connected, user.user_id, post_id) matches Some(e)
                ==> r == Err::<(), Outcome>(e) && final(self)@ == old(self)@,
            like_error(old(self)@, user.is_connected, user.user_id, post_id) is None
                ==> r is Ok && final(self)@ == liked(old(self)@, user.user_id, post_id),
    {
        let idx = self.find_post(post_id);
        let already = match idx {
            Some(_) => self.find_like(user.user_id, post_id).is_some(),
            None => false,
        };
        match like_decision(user, idx.is_some(), already) {
            Err(e) => {
                return Err(e);
            },
            Ok(()) => {},
        }
        let i = match idx {
            Some(i) => i,
            None => {
                return Err(Outcome::NotFound);
            },
        };
        let (pid, count) = self.posts[i];
        if count == i32::MAX {
            return Err(Outcome::InternalError);
        }
        let ghost v = self.model@;
        let ghost l = (user.user_id, post_id);
        self.likes.push((user.user_id, post_id));
        self.posts.set(i, (pid, count + 1));
        self.model = Ghost(liked(v, user.user_id, post_id));
        proof {
            let nv = self.model@;
            assert(self.likes@.to_set() =~= nv.likes) by {
                assert forall|x: (i32, i32)| #[trigger] nv.likes.contains(x) implies self.likes@.contains(x) by {
                    if x == l {
                        assert(self.likes@[self.likes@.len() - 1] == x);
                    } else {
                        let k = choose|k: int| 0 <= k < old(self).likes@.len() && old(self).likes@[k] == x;
                        assert(self.likes@[k] == x);
                    }
                }
            }
            assert forall|p: i32| #[trigger] nv.counts.contains_key(p) implies exists|j: int|
                0 <= j < self.posts@.len() && self.posts@[j].0 == p by {
                let j = choose|j: int| 0 <= j < old(self).posts@.len() && old(self).posts@[j].0 == p;
                assert(self.posts@[j].0 == p);
            }
            assert forall|p: i32| nv.counts.contains_key(p) implies nv.counts[p] == #[trigger] likers(nv.likes, p).len() by {
                lemma_likers_insert(v.likes, l, p);
            }
        }
        Ok(())
    }

    /// `user` takes back its like of `post_id`: the like is removed and the
    /// counter decremented together. Anonymous callers get `Unauthorized`; a
    /// missing post or a missing like gives `NotFound`; on any error nothing
    /// changes.
    pub fn unlike(&mut self, user: &AuthUser, post_id: i32) -> (r: Result<(), Outcome>)
        requires
            old(self).wf(),
        ensures
            final(self).wf(),
            unlike_error(old(self)@, user.is_connected, user.user_id, post_id) matches Some(e)
                ==> r == Err::<(), Outcome>(e) && final(self)@ == old(self)@,
            unlike_error(old(self)@, user.is_connected, user.user_id, post_id) is None
                ==> r is Ok && final(self)@ == unliked(old(self)@, user.user_id, post_id),
    {
        let idx = self.find_post(post_id);
        let found = match idx {
            Some(_) => self.find_like(user.user_id, post_id),
            None => None,
        };
        match unlike_decision(user, idx.is_some(), found.is_some()) {
            Err(e) => {
                return Err(e);
            },
            Ok(()) => {},
        }
        let (i, j) = match (idx, found) {
            (Some(i), Some(j)) => (i, j),
            _ => {
                return Err(Outcome::NotFound);
            },
        };
        let (pid, count) = self.posts[i];
        let ghost v = self.model@;
        let ghost l = (user.user_id, post_id);
        proof {
            assert(v.likes.contains(l));
            lemma_likers_remove(v.likes, l, post_id);
        }
        self.likes.remove(j);
        self.posts.set(i, (pid, count - 1));
        self.model = Ghost(unliked(v, user.user_id, post_id));
        proof {
            let nv = self.model@;
            let old_likes = old(self).likes@;
            assert forall|a: int, b: int| 0 <= a < self.likes@.len() && 0 <= b < self.likes@.len() && a != b
                implies self.likes@[a] != self.likes@[b] by {
                let oa = if a < j { a } else { a + 1 };
                let ob = if b < j { b } else { b + 1 };
                assert(self.likes@[a] == old_likes[oa]);
                assert(self.likes@[b] == old_likes[ob]);
            }
            assert(self.likes@.to_set() =~= nv.likes) by {
                assert forall|x: (i32, i32)| #[trigger] nv.likes.contains(x) implies self.likes@.contains(x) by {
                    let k = choose|k: int| 0 <= k < old_likes.len() && old_likes[k] == x;
                    assert(k != j);
                    if k < j {
                        assert(self.likes@[k] == x);
                    } else {
                        assert(self.likes@[k - 1] == x);
                    }
                }
                assert forall|x: (i32, i32)| #[trigger] self.likes@.contains(x) implies nv.likes.contains(x) by {
                    let k = choose|k: int| 0 <= k < self.likes@.len() && self.likes@[k] == x;
                    let ok = if k < j { k } else { k + 1 };
                    assert(old_likes[ok] == x);
                    assert(ok != j);
                }
            }
            assert forall|p: i32| #[trigger] nv.counts.contains_key(p) implies exists|jj: int|
                0 <= jj < self.posts@.len() && self.posts@[jj].0 == p by {
                let jj = choose|jj: int| 0 <= jj < old(self).posts@.len() && old(self).posts@[jj].0 == p;
                assert(self.posts@[jj].0 == p);
            }
            assert forall|p: i32| nv.counts.contains_key(p) implies nv.counts[p] == #[trigger] likers(nv.likes, p).len() by {
                lemma_likers_remove(v.likes, l, p);
            }
        }
        Ok(())
    }
}

/// Two accounts liking the same post, in either order, both succeed and leave
/// its counter two higher; a second like by the same account is then a
/// conflict, which changes nothing (see `LikeLedger::like`).
pub proof fn lemma_two_likes_add_two(v: LedgerView, a: i32, b: i32, post: i32)
    requires
        ledger_consistent(v),
        v.counts.contains_key(post),
        a != b,
        !v.likes.contains((a, post)),
        !v.likes.contains((b, post)),
        v.counts[post] + 2 <= i32::MAX,
    ensures
        like_error(v, true, a, post) is None,
        like_error(liked(v, a, post), true, b, post) is None,
        like_error(v, true, b, post) is None,
        like_error(liked(v, b, post), true, a, post) is None,
        liked(liked(v, a, post), b, post) == liked(liked(v, b, post), a, post),
        liked(liked(v, a, post), b, post).counts[post] == v.counts[post] + 2,
        like_error(liked(v, a, post), true, a, post) == Some(Outcome::Conflict),
{
    let ab = liked(liked(v, a, post), b, post);
    let ba = liked(liked(v, b, post), a, post);
    assert(ab.counts =~= ba.counts);
    assert(ab.likes =~= ba.likes);
}

/// Taking back a like that is not there fails with `NotFound`, which changes
/// nothing (see `LikeLedger::unlike`).
pub proof fn lemma_unlike_missing_is_not_found(v: LedgerView, account: i32, post: i32)
    requires
        !v.likes.contains((account, post)),
    ensures
        unlike_error(v, true, account, post) == Some(Outcome::NotFound),
{
}

} // verus!
