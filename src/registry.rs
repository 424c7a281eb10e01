use vstd::prelude::*;
use crate::session::{DispatchResult, NodeSession, Outcome};

verus! {

/// The sessions of one run, in the order of the nodes they were made from.
pub struct Registry<C> {
    pub sessions: Vec<NodeSession<C>>,
}

/// Why no registry could be built.
pub enum RegistryError {
    /// Not a single host could be connected to.
    NoReachableHosts,
}

/// The successes among `s`, in their order.
pub open spec fn oks<T, E>(s: Seq<Result<T, E>>) -> Seq<T>
    decreases s.len(),
{
    if s.len() == 0 {
        Seq::empty()
    } else {
        let rest = oks(s.subrange(1, s.len() as int));
        match s[0] {
            Ok(t) => seq![t] + rest,
            Err(_) => rest,
        }
    }
}

/// The failures among `s`, in their order.
pub open spec fn errs<T, E>(s: Seq<Result<T, E>>) -> Seq<E>
    decreases s.len(),
{
    if s.len() == 0 {
        Seq::empty()
    } else {
        let rest = errs(s.subrange(1, s.len() as int));
        match s[0] {
            Ok(_) => rest,
            Err(e) => seq![e] + rest,
        }
    }
}

/// The number of attempts that succeeded.
pub open spec fn reachable<T, E>(s: Seq<Result<T, E>>) -> nat {
    s.filter(|a: Result<T, E>| a is Ok).len()
}

/// The number of attempts that failed.
pub open spec fn unreachable<T, E>(s: Seq<Result<T, E>>) -> nat {
    s.filter(|a: Result<T, E>| a is Err).len()
}

/// Of `N` reachable hosts and `M` unreachable ones, whatever their order, the
/// registry gets exactly `N` sessions and exactly `M` failures are reported.
pub proof fn lemma_attempts_split<T, E>(s: Seq<Result<T, E>>)
    ensures
        oks(s).len() == reachable(s),
        errs(s).len() == unreachable(s),
        reachable(s) + unreachable(s) == s.len(),
    decreases s.len(),
{
    let f = |a: Result<T, E>| a is Ok;
    let g = |a: Result<T, E>| a is Err;
    if s.len() == 0 {
        reveal_with_fuel(Seq::filter, 1);
        assert(s.filter(f) =~= s);
        assert(s.filter(g) =~= s);
    } else {
        let head = seq![s[0]];
        let rest = s.subrange(1, s.len() as int);
        lemma_attempts_split(rest);
        assert(s =~= head + rest);
        Seq::filter_distributes_over_add(head, rest, f);
        Seq::filter_distributes_over_add(head, rest, g);
        reveal_with_fuel(Seq::filter, 2);
        assert(head.drop_last() =~= Seq::<Result<T, E>>::empty());
    }
}

/// Builds the registry from the outcomes of connecting to each node, in node
/// order: every session that was set up becomes a member, in that order, and
/// every failure is handed back, in that order, to be reported. With no
/// session at all there is no registry.
pub fn build_registry<C, E>(attempts: Vec<Result<NodeSession<C>, E>>) -> (r: (
    Result<Registry<C>, RegistryError>,
    Vec<E>,
))
    ensures
        r.1@ == errs(attempts@),
        oks(attempts@).len() == 0 ==> r.0 is Err,
        oks(attempts@).len() > 0 ==> (r.0 matches Ok(reg) && reg.sessions@ == oks(attempts@)),
{
    let ghost all = attempts@;
    let mut rest = attempts;
    let mut sessions: Vec<NodeSession<C>> = Vec::new();
    let mut failures: Vec<E> = Vec::new();
    while rest.len() > 0
        invariant
            oks(all) == sessions@ + oks(rest@),
            errs(all) == failures@ + errs(rest@),
        decreases rest@.len(),
    {
        let ghost before = rest@;
        let a = rest.remove(0);
        proof {
            assert(rest@ =~= before.subrange(1, before.len() as int));
        }
        match a {
            Ok(s) => {
                let ghost old_sessions = sessions@;
                sessions.push(s);
                assert(sessions@ + oks(rest@) =~= old_sessions + oks(before));
            },
            Err(e) => {
                let ghost old_failures = failures@;
                failures.push(e);
                assert(failures@ + errs(rest@) =~= old_failures + errs(before));
            },
        }
    }
    assert(sessions@ =~= oks(all));
    assert(failures@ =~= errs(all));
    if sessions.len() == 0 {
        (Err(RegistryError::NoReachableHosts), failures)
    } else {
        (Ok(Registry { sessions }), failures)
    }
}

impl<C> Registry<C> {
    /// Pairs each member with the outcome of one action on it, in member order:
    /// one result per member, whatever each outcome is.
    pub fn collect_results(&self, outcomes: Vec<Outcome>) -> (r: Vec<DispatchResult>)
        requires
            outcomes@.len() == self.sessions@.len(),
        ensures
            r@.len() == self.sessions@.len(),
            forall|i: int|
                0 <= i < r@.len() ==> #[trigger] r@[i].host_address@
                    == self.sessions@[i].node.public_address@ && r@[i].outcome == outcomes@[i],
    {
        let mut rest = outcomes;
        let mut r: Vec<DispatchResult> = Vec::new();
        let mut i: usize = 0;
        while i < self.sessions.len()
            invariant
                i <= self.sessions@.len(),
                r@.len() == i,
                rest@ == outcomes@.subrange(i as int, outcomes@.len() as int),
                outcomes@.len() == self.sessions@.len(),
                forall|j: int|
                    0 <= j < i ==> #[trigger] r@[j].host_address@
                        == self.sessions@[j].node.public_address@ && r@[j].outcome == outcomes@[j],
            decreases self.sessions@.len() - i,
        {
            let o = rest.remove(0);
            r.push(self.sessions[i].report(o));
            i = i + 1;
            assert(rest@ =~= outcomes@.subrange(i as int, outcomes@.len() as int));
        }
        r
    }

    /// Ends the run: every member gives up its connection, each exactly once, in
    /// member order, together with its host's address for reporting.
    pub fn shutdown(self) -> (r: Vec<(String, C)>)
        ensures
            r@.len() == self.sessions@.len(),
            forall|i: int|
                0 <= i < r@.len() ==> (#[trigger] r@[i]).0@ == self.sessions@[i].node.public_address@
                    && r@[i].1 == self.sessions@[i].session,
    {
        let ghost all = self.sessions@;
        let mut rest = self.sessions;
        let mut r: Vec<(String, C)> = Vec::new();
        while rest.len() > 0
            invariant
                r@.len() + rest@.len() == all.len(),
                rest@ == all.subrange(r@.len() as int, all.len() as int),
                forall|i: int|
                    0 <= i < r@.len() ==> (#[trigger] r@[i]).0@ == all[i].node.public_address@
                        && r@[i].1 == all[i].session,
            decreases rest@.len(),
        {
            let s = rest.remove(0);
            let address = s.node.public_address.clone();
            r.push((address, s.close()));
            assert(rest@ =~= all.subrange(r@.len() as int, all.len() as int));
        }
        r
    }
}

} // verus!
