//! Keeps the watched servers in order of precedence.

use vstd::prelude::*;
use crate::config::Switcher;
use crate::stream_servers::priority_rank;
use crate::stream_servers::ranks_before_or_with;
use crate::stream_servers::StreamServer;

verus! {

/// Whether the servers stand in ascending order of priority.
pub open spec fn in_priority_order(servers: Seq<StreamServer>) -> bool {
    forall|i: int, j: int|
        0 <= i < j < servers.len() ==> priority_rank(servers[i].priority) <= priority_rank(
            servers[j].priority,
        )
}

/// Picks the servers whose priority has rank `k`.
pub open spec fn of_rank(k: int) -> spec_fn(StreamServer) -> bool {
    |s: StreamServer| priority_rank(s.priority) == k
}

/// Whether two lists hold, for every priority, the same servers in the same
/// order.
pub open spec fn same_by_rank(a: Seq<StreamServer>, b: Seq<StreamServer>) -> bool {
    forall|k: int| #[trigger] a.filter(of_rank(k)) == b.filter(of_rank(k))
}

/// Whether `sorted` is `servers` in ascending order of priority, with
/// servers of one priority left in the order they had.
pub open spec fn is_stable_sort(sorted: Seq<StreamServer>, servers: Seq<StreamServer>) -> bool {
    in_priority_order(sorted) && same_by_rank(sorted, servers)
}

proof fn lemma_filter_single(s: StreamServer, k: int)
    ensures
        seq![s].filter(of_rank(k)) == if priority_rank(s.priority) == k {
            seq![s]
        } else {
            Seq::<StreamServer>::empty()
        },
{
    let empty = Seq::<StreamServer>::empty();
    assert(empty.filter(of_rank(k)) =~= empty) by {
        empty.lemma_filter_len(of_rank(k));
    }
    empty.lemma_filter_push(s, of_rank(k));
}

proof fn lemma_filter_none(servers: Seq<StreamServer>, k: int)
    requires
        forall|i: int| 0 <= i < servers.len() ==> priority_rank(servers[i].priority) != k,
    ensures
        servers.filter(of_rank(k)) == Seq::<StreamServer>::empty(),
{
    assert forall|i: int| 0 <= i < servers.len() implies !(#[trigger] of_rank(k)(servers[i])) by {}
    servers.lemma_all_neg_filter_empty(of_rank(k));
}

/// Putting a server into a sorted list, behind the servers that rank
/// before it and in front of all others, keeps the list sorted and puts the
/// server in front of those of its own rank.
proof fn lemma_insert_front(sorted: Seq<StreamServer>, at: int, s: StreamServer, k: int)
    requires
        in_priority_order(sorted),
        0 <= at <= sorted.len(),
        forall|i: int|
            0 <= i < at ==> priority_rank(sorted[i].priority) < priority_rank(s.priority),
        forall|i: int|
            at <= i < sorted.len() ==> priority_rank(s.priority) <= priority_rank(
                sorted[i].priority,
            ),
    ensures
        in_priority_order(sorted.insert(at, s)),
        sorted.insert(at, s).filter(of_rank(k)) == seq![s].filter(of_rank(k)) + sorted.filter(
            of_rank(k),
        ),
{
    let head = sorted.subrange(0, at);
    let tail = sorted.subrange(at, sorted.len() as int);
    let one = seq![s];
    assert(sorted =~= head + tail);
    assert(sorted.insert(at, s) =~= head + one + tail);
    Seq::filter_distributes_over_add(head, tail, of_rank(k));
    Seq::filter_distributes_over_add(head, one, of_rank(k));
    Seq::filter_distributes_over_add(head + one, tail, of_rank(k));
    lemma_filter_single(s, k);
    let h = head.filter(of_rank(k));
    let o = one.filter(of_rank(k));
    let t = tail.filter(of_rank(k));
    if priority_rank(s.priority) == k {
        lemma_filter_none(head, k);
    }
    assert(h + o =~= o + h);
    assert((h + o) + t =~= o + (h + t));
}

proof fn lemma_filter_last(servers: Seq<StreamServer>, k: int)
    requires
        servers.len() > 0,
    ensures
        servers.filter(of_rank(k)) == servers.drop_last().filter(of_rank(k)) + seq![
            servers.last(),
        ].filter(of_rank(k)),
{
    assert(servers =~= servers.drop_last() + seq![servers.last()]);
    Seq::filter_distributes_over_add(servers.drop_last(), seq![servers.last()], of_rank(k));
}

proof fn lemma_filter_first(servers: Seq<StreamServer>, k: int)
    requires
        servers.len() > 0,
    ensures
        servers.filter(of_rank(k)) == seq![servers.first()].filter(of_rank(k))
            + servers.drop_first().filter(of_rank(k)),
{
    assert(servers =~= seq![servers.first()] + servers.drop_first());
    Seq::filter_distributes_over_add(seq![servers.first()], servers.drop_first(), of_rank(k));
}

/// A list in order holds a server of rank `k` only where its first server
/// ranks at or before `k`.
proof fn lemma_first_ranks_first(servers: Seq<StreamServer>, k: int)
    requires
        in_priority_order(servers),
        servers.filter(of_rank(k)).len() > 0,
    ensures
        servers.len() > 0,
        priority_rank(servers.first().priority) <= k,
{
    let found = servers.filter(of_rank(k))[0];
    servers.lemma_filter_pred(of_rank(k), 0);
    servers.lemma_filter_contains_rev(of_rank(k), found);
    let i = choose|i: int| 0 <= i < servers.len() && servers[i] == found;
    assert(priority_rank(servers[i].priority) == k);
}

/// Two lists in order that hold, for every priority, the same servers in
/// the same order are one list.
proof fn lemma_order_decides(a: Seq<StreamServer>, b: Seq<StreamServer>)
    requires
        in_priority_order(a),
        in_priority_order(b),
        same_by_rank(a, b),
    ensures
        a == b,
    decreases a.len() + b.len(),
{
    if a.len() == 0 && b.len() == 0 {
        assert(a =~= b);
    } else if a.len() == 0 || b.len() == 0 {
        let full = if a.len() == 0 {
            b
        } else {
            a
        };
        let k = priority_rank(full.first().priority);
        lemma_filter_first(full, k);
        lemma_filter_single(full.first(), k);
        let empty = if a.len() == 0 {
            a
        } else {
            b
        };
        empty.lemma_filter_len(of_rank(k));
    } else {
        let ka = priority_rank(a.first().priority);
        let kb = priority_rank(b.first().priority);
        lemma_filter_first(a, ka);
        lemma_filter_single(a.first(), ka);
        lemma_filter_first(b, kb);
        lemma_filter_single(b.first(), kb);
        assert(a.filter(of_rank(ka))[0] == a.first());
        assert(b.filter(of_rank(kb))[0] == b.first());
        lemma_first_ranks_first(b, ka);
        lemma_first_ranks_first(a, kb);
        assert(a.first() == b.first());
        let ta = a.drop_first();
        let tb = b.drop_first();
        assert forall|k: int| #[trigger] ta.filter(of_rank(k)) == tb.filter(of_rank(k)) by {
            lemma_filter_first(a, k);
            lemma_filter_first(b, k);
            let head = seq![a.first()].filter(of_rank(k));
            let fa = ta.filter(of_rank(k));
            let fb = tb.filter(of_rank(k));
            assert(fa.len() == fb.len()) by {
                assert((head + fa).len() == (head + fb).len());
            }
            assert forall|i: int| 0 <= i < fa.len() implies fa[i] == fb[i] by {
                assert((head + fa)[head.len() + i] == fa[i]);
                assert((head + fb)[head.len() + i] == fb[i]);
            }
            assert(fa =~= fb);
        }
        lemma_order_decides(ta, tb);
        assert(a =~= seq![a.first()] + ta);
        assert(b =~= seq![b.first()] + tb);
    }
}

/// A list of servers has one stable sort and no other.
pub proof fn law_stable_sort_is_unique(
    a: Seq<StreamServer>,
    b: Seq<StreamServer>,
    servers: Seq<StreamServer>,
)
    requires
        is_stable_sort(a, servers),
        is_stable_sort(b, servers),
    ensures
        a == b,
{
    assert forall|k: int| #[trigger] a.filter(of_rank(k)) == b.filter(of_rank(k)) by {
        assert(a.filter(of_rank(k)) == servers.filter(of_rank(k)));
    }
    lemma_order_decides(a, b);
}

/// Sorting servers that stand in order changes nothing.
pub proof fn law_sorted_servers_stay(sorted: Seq<StreamServer>, servers: Seq<StreamServer>)
    requires
        in_priority_order(servers),
        is_stable_sort(sorted, servers),
    ensures
        sorted == servers,
{
    law_stable_sort_is_unique(sorted, servers, servers);
}

/// A stable sort holds the same servers, each as often as the list did.
pub proof fn law_stable_sort_keeps_the_servers(
    sorted: Seq<StreamServer>,
    servers: Seq<StreamServer>,
)
    requires
        is_stable_sort(sorted, servers),
    ensures
        sorted.len() == servers.len(),
        forall|s: StreamServer| sorted.contains(s) == servers.contains(s),
{
    lemma_same_by_rank_same_servers(sorted, servers);
    lemma_same_by_rank_same_servers(servers, sorted);
    lemma_same_length(sorted, servers);
}

proof fn lemma_same_by_rank_same_servers(a: Seq<StreamServer>, b: Seq<StreamServer>)
    requires
        same_by_rank(a, b),
    ensures
        forall|s: StreamServer| a.contains(s) ==> b.contains(s),
{
    assert forall|s: StreamServer| a.contains(s) implies b.contains(s) by {
        let k = priority_rank(s.priority);
        let i = choose|i: int| 0 <= i < a.len() && a[i] == s;
        a.lemma_filter_contains(of_rank(k), i);
        b.lemma_filter_contains_rev(of_rank(k), s);
    }
}

/// Picks the servers whose priority has another rank than `k`.
spec fn not_of_rank(k: int) -> spec_fn(StreamServer) -> bool {
    |s: StreamServer| priority_rank(s.priority) != k
}

proof fn lemma_same_length(a: Seq<StreamServer>, b: Seq<StreamServer>)
    requires
        same_by_rank(a, b),
    ensures
        a.len() == b.len(),
    decreases a.len(),
{
    if a.len() == 0 {
        if b.len() > 0 {
            let k = priority_rank(b.first().priority);
            lemma_filter_first(b, k);
            lemma_filter_single(b.first(), k);
            a.lemma_filter_len(of_rank(k));
        }
    } else {
        let k = priority_rank(a.last().priority);
        let ra = a.filter(not_of_rank(k));
        let rb = b.filter(not_of_rank(k));
        lemma_split_length(a, k);
        lemma_split_length(b, k);
        a.lemma_filter_contains(of_rank(k), a.len() - 1);
        assert forall|m: int| #[trigger] ra.filter(of_rank(m)) == rb.filter(of_rank(m)) by {
            lemma_filter_twice(a, k, m);
            lemma_filter_twice(b, k, m);
        }
        lemma_same_length(ra, rb);
    }
}

/// A list is as long as its servers of rank `k` and its other servers
/// together.
proof fn lemma_split_length(servers: Seq<StreamServer>, k: int)
    ensures
        servers.len() == servers.filter(of_rank(k)).len() + servers.filter(not_of_rank(k)).len(),
    decreases servers.len(),
{
    let others = not_of_rank(k);
    if servers.len() == 0 {
        servers.lemma_filter_len(of_rank(k));
        servers.lemma_filter_len(others);
    } else {
        lemma_split_length(servers.drop_last(), k);
        assert(servers =~= servers.drop_last().push(servers.last()));
        servers.drop_last().lemma_filter_push(servers.last(), of_rank(k));
        servers.drop_last().lemma_filter_push(servers.last(), others);
    }
}

/// Of the servers that are not of rank `k`, those of rank `m` are the
/// list's servers of rank `m`, or none where `m` is `k`.
proof fn lemma_filter_twice(servers: Seq<StreamServer>, k: int, m: int)
    ensures
        servers.filter(not_of_rank(k)).filter(of_rank(m)) == if m == k {
            Seq::<StreamServer>::empty()
        } else {
            servers.filter(of_rank(m))
        },
    decreases servers.len(),
{
    let others = not_of_rank(k);
    let empty = Seq::<StreamServer>::empty();
    if servers.len() == 0 {
        servers.lemma_filter_len(others);
        empty.lemma_filter_len(of_rank(m));
        servers.lemma_filter_len(of_rank(m));
    } else {
        let front = servers.drop_last();
        let last = servers.last();
        lemma_filter_twice(front, k, m);
        assert(servers =~= front.push(last));
        front.lemma_filter_push(last, others);
        front.lemma_filter_push(last, of_rank(m));
        if others(last) {
            front.filter(others).lemma_filter_push(last, of_rank(m));
        }
    }
}

/// Sorts a list of servers by priority, leaving servers of one priority in
/// the order they had.
pub fn sort_by_priority(servers: Vec<StreamServer>) -> (sorted: Vec<StreamServer>)
    ensures
        is_stable_sort(sorted@, servers@),
{
    let mut rest = servers;
    let mut sorted: Vec<StreamServer> = Vec::new();
    while rest.len() > 0
        invariant
            in_priority_order(sorted@),
            forall|k: int|
                #[trigger] servers@.filter(of_rank(k)) == rest@.filter(of_rank(k)) + sorted@.filter(
                    of_rank(k),
                ),
        decreases rest.len(),
    {
        let ghost before = rest@;
        let ghost done = sorted@;
        let next = rest.pop().unwrap();
        let mut at: usize = 0;
        while at < sorted.len() && !ranks_before_or_with(next.priority, sorted[at].priority)
            invariant
                0 <= at <= sorted.len(),
                forall|i: int|
                    0 <= i < at ==> priority_rank(sorted@[i].priority) < priority_rank(
                        next.priority,
                    ),
            decreases sorted.len() - at,
        {
            at += 1;
        }
        sorted.insert(at, next);
        proof {
            assert forall|k: int|
                #[trigger] servers@.filter(of_rank(k)) == rest@.filter(of_rank(k)) + sorted@.filter(
                    of_rank(k),
                ) by {
                lemma_insert_front(done, at as int, next, k);
                lemma_filter_last(before, k);
                assert(servers@.filter(of_rank(k)) == before.filter(of_rank(k)) + done.filter(
                    of_rank(k),
                ));
                assert((rest@.filter(of_rank(k)) + seq![next].filter(of_rank(k))) + done.filter(
                    of_rank(k),
                ) =~= rest@.filter(of_rank(k)) + (seq![next].filter(of_rank(k)) + done.filter(
                    of_rank(k),
                )));
            }
            lemma_insert_front(done, at as int, next, 0);
        }
    }
    proof {
        assert forall|k: int| #[trigger]
            sorted@.filter(of_rank(k)) == servers@.filter(of_rank(k)) by {
            lemma_filter_none(rest@, k);
            assert(Seq::<StreamServer>::empty() + sorted@.filter(of_rank(k)) =~= sorted@.filter(
                of_rank(k),
            ));
        }
    }
    sorted
}

impl Switcher {
    /// Puts the servers in ascending order of priority. Servers of one
    /// priority keep the order they had; nothing else changes.
    pub fn sort_stream_servers(&mut self)
        ensures
            is_stable_sort(final(self).stream_servers@, old(self).stream_servers@),
            *final(self) == (Switcher { stream_servers: final(self).stream_servers, ..*old(self) }),
    {
        let mut servers: Vec<StreamServer> = Vec::new();
        std::mem::swap(&mut self.stream_servers, &mut servers);
        self.stream_servers = sort_by_priority(servers);
    }

    /// Adds a server and puts the list in order again. Among servers of its
    /// priority the new one comes last.
    pub fn add_stream_server(&mut self, stream_server: StreamServer)
        ensures
            is_stable_sort(
                final(self).stream_servers@,
                old(self).stream_servers@.push(stream_server),
            ),
            *final(self) == (Switcher { stream_servers: final(self).stream_servers, ..*old(self) }),
    {
        self.stream_servers.push(stream_server);
        self.sort_stream_servers();
    }
}

} // verus!
