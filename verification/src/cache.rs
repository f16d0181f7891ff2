//! The view cache: every view's last successfully fetched issue list, keyed
//! by view id. A key is absent until the first successful fetch for that
//! view completes; absent and empty are distinct states. A `put` replaces a
//! view's whole list and never touches any other key.

use vstd::prelude::*;
use crate::issue::IssueFragment;

verus! {

pub struct CacheEntry {
    pub view_id: String,
    pub issues: Vec<IssueFragment>,
}

/// Association list from view id to issue list, with unique keys.
pub struct ViewCache {
    pub entries: Vec<CacheEntry>,
}

/// The list stored under `id`: the first entry whose key matches, if any.
pub open spec fn seq_get(entries: Seq<CacheEntry>, id: Seq<char>) -> Option<Seq<IssueFragment>>
    decreases entries.len(),
{
    if entries.len() == 0 {
        None
    } else if entries[0].view_id@ == id {
        Some(entries[0].issues@)
    } else {
        seq_get(entries.drop_first(), id)
    }
}

proof fn lemma_seq_get_skip(s: Seq<CacheEntry>, id: Seq<char>, i: int)
    requires
        0 <= i <= s.len(),
        forall|j: int| 0 <= j < i ==> s[j].view_id@ != id,
    ensures
        seq_get(s, id) == seq_get(s.skip(i), id),
    decreases i,
{
    if i > 0 {
        lemma_seq_get_skip(s.drop_first(), id, i - 1);
        assert(s.skip(i) =~= s.drop_first().skip(i - 1));
    } else {
        assert(s.skip(0) =~= s);
    }
}

proof fn lemma_seq_get_update_other(s: Seq<CacheEntry>, k: int, e: CacheEntry, id: Seq<char>)
    requires
        0 <= k < s.len(),
        id != e.view_id@,
        id != s[k].view_id@,
    ensures
        seq_get(s.update(k, e), id) == seq_get(s, id),
    decreases s.len(),
{
    let t = s.update(k, e);
    if k == 0 {
        assert(t.drop_first() =~= s.drop_first());
    } else {
        assert(t[0] == s[0]);
        if s[0].view_id@ != id {
            assert(t.drop_first() =~= s.drop_first().update(k - 1, e));
            lemma_seq_get_update_other(s.drop_first(), k - 1, e, id);
        }
    }
}

proof fn lemma_seq_get_push(s: Seq<CacheEntry>, e: CacheEntry, id: Seq<char>)
    ensures
        seq_get(s.push(e), id) == (if seq_get(s, id) is Some {
            seq_get(s, id)
        } else if id == e.view_id@ {
            Some(e.issues@)
        } else {
            None::<Seq<IssueFragment>>
        }),
    decreases s.len(),
{
    let t = s.push(e);
    if s.len() == 0 {
        assert(t.len() == 1);
        assert(t[0] == e);
        assert(t.drop_first() =~= Seq::<CacheEntry>::empty());
    } else {
        assert(t[0] == s[0]);
        if s[0].view_id@ != id {
            assert(t.drop_first() =~= s.drop_first().push(e));
            lemma_seq_get_push(s.drop_first(), e, id);
        }
    }
}

impl ViewCache {
    /// Keys are unique, so each view has at most one cached list.
    pub open spec fn wf(&self) -> bool {
        forall|i: int, j: int|
            #![trigger self.entries@[i].view_id@, self.entries@[j].view_id@]
            0 <= i < j < self.entries@.len() ==> self.entries@[i].view_id@
                != self.entries@[j].view_id@
    }

    pub open spec fn spec_get(&self, id: Seq<char>) -> Option<Seq<IssueFragment>> {
        seq_get(self.entries@, id)
    }

    pub fn new() -> (r: ViewCache)
        ensures
            r.wf(),
            forall|id: Seq<char>| r.spec_get(id) is None,
    {
        ViewCache { entries: Vec::new() }
    }

    /// The cached list for `id`, if a fetch for that view has completed.
    pub fn get<'a>(&'a self, id: &String) -> (r: Option<&'a Vec<IssueFragment>>)
        ensures
            match r {
                Some(v) => self.spec_get(id@) == Some(v@),
                None => self.spec_get(id@) is None,
            },
    {
        let n = self.entries.len();
        let mut i: usize = 0;
        while i < n
            invariant
                0 <= i <= n,
                n == self.entries@.len(),
                forall|j: int| 0 <= j < i ==> self.entries@[j].view_id@ != id@,
            decreases n - i,
        {
            if self.entries[i].view_id == *id {
                proof {
                    lemma_seq_get_skip(self.entries@, id@, i as int);
                    assert(self.entries@.skip(i as int)[0] == self.entries@[i as int]);
                }
                return Some(&self.entries[i].issues);
            }
            i += 1;
        }
        proof {
            lemma_seq_get_skip(self.entries@, id@, n as int);
            assert(self.entries@.skip(n as int) =~= Seq::<CacheEntry>::empty());
        }
        None
    }

    /// Number of rows cached for `id`; zero when the key is absent.
    pub fn len_of(&self, id: &String) -> (n: usize)
        ensures
            n == (match self.spec_get(id@) {
                Some(rows) => rows.len(),
                None => 0,
            }),
    {
        match self.get(id) {
            Some(v) => v.len(),
            None => 0,
        }
    }

    /// Replace the whole list stored under `id` (inserting the key if it is
    /// absent). No other key's list changes.
    pub fn put(&mut self, id: String, issues: Vec<IssueFragment>)
        requires
            old(self).wf(),
        ensures
            final(self).wf(),
            final(self).spec_get(id@) == Some(issues@),
            forall|k: Seq<char>| k != id@ ==> final(self).spec_get(k) == old(self).spec_get(k),
    {
        let n = self.entries.len();
        let mut i: usize = 0;
        while i < n
            invariant
                0 <= i <= n,
                *self == *old(self),
                old(self).wf(),
                n == self.entries@.len(),
                forall|j: int| 0 <= j < i ==> self.entries@[j].view_id@ != id@,
            decreases n - i,
        {
            if self.entries[i].view_id == id {
                let ghost pre = self.entries@;
                let e = CacheEntry { view_id: id, issues };
                self.entries.set(i, e);
                proof {
                    let post = self.entries@;
                    assert(post =~= pre.update(i as int, e));
                    lemma_seq_get_skip(post, e.view_id@, i as int);
                    assert(post.skip(i as int)[0] == post[i as int]);
                    assert forall|k: Seq<char>| k != e.view_id@ implies seq_get(post, k) == seq_get(
                        pre,
                        k,
                    ) by {
                        lemma_seq_get_update_other(pre, i as int, e, k);
                    }
                    assert(e.view_id@ == pre[i as int].view_id@);
                    assert(pre == old(self).entries@);
                    assert forall|x: int, y: int| 0 <= x < y < post.len() implies post[x].view_id@
                        != post[y].view_id@ by {
                        assert(old(self).entries@[x].view_id@ != old(self).entries@[y].view_id@);
                        assert(post[x].view_id@ == pre[x].view_id@);
                        assert(post[y].view_id@ == pre[y].view_id@);
                    }
                }
                return ;
            }
            i += 1;
        }
        let ghost pre = self.entries@;
        let e = CacheEntry { view_id: id, issues };
        self.entries.push(e);
        proof {
            let post = self.entries@;
            assert(post =~= pre.push(e));
            lemma_seq_get_skip(pre, e.view_id@, n as int);
            assert(pre.skip(n as int) =~= Seq::<CacheEntry>::empty());
            assert(seq_get(pre, e.view_id@) is None);
            lemma_seq_get_push(pre, e, e.view_id@);
            assert forall|k: Seq<char>| k != e.view_id@ implies seq_get(post, k) == seq_get(
                pre,
                k,
            ) by {
                lemma_seq_get_push(pre, e, k);
            }
        }
    }
}

} // verus!
