use vstd::prelude::*;

verus! {

/// Which side opened a comm.
#[derive(Debug, Clone, Copy, PartialEq, Eq, Structural)]
pub enum CommInitiator {
    FrontEnd,
    BackEnd,
}

/// An open comm.
#[derive(Debug)]
pub struct CommEntry {
    pub comm_id: String,
    pub target_name: String,
    pub initiator: CommInitiator,
}

/// What became of a request to open a comm.
#[derive(Debug, Clone, Copy, PartialEq, Eq, Structural)]
pub enum CommOpenOutcome {
    /// The comm is registered.
    Opened,
    /// No consumer serves the target; nothing is registered.
    UnknownTarget,
    /// The id was used before in this process; nothing is registered.
    ReusedId,
}

/// The registry of open comms. Ids are never reused: every id ever
/// registered is remembered after its comm closes.
pub struct CommManager {
    open: Vec<CommEntry>,
    seen: Vec<String>,
    targets: Vec<String>,
}

/// What the registry holds: the open comms as (id, target, initiator), every
/// id ever registered, and the targets that have a consumer.
pub struct CommsView {
    pub open: Seq<(Seq<char>, Seq<char>, CommInitiator)>,
    pub seen: Seq<Seq<char>>,
    pub targets: Seq<Seq<char>>,
}

impl CommsView {
    /// Whether a comm with this id is open.
    pub open spec fn is_open(self, id: Seq<char>) -> bool {
        exists|i: int| 0 <= i < self.open.len() && #[trigger] self.open[i].0 == id
    }

    /// Whether this id was ever registered.
    pub open spec fn was_seen(self, id: Seq<char>) -> bool {
        exists|i: int| 0 <= i < self.seen.len() && #[trigger] self.seen[i] == id
    }

    /// Whether some consumer serves this target.
    pub open spec fn serves(self, target: Seq<char>) -> bool {
        exists|i: int| 0 <= i < self.targets.len() && #[trigger] self.targets[i] == target
    }

    /// Open ids are distinct, and each was registered.
    pub open spec fn wf(self) -> bool {
        &&& forall|i: int, j: int|
            0 <= i < j < self.open.len() ==> #[trigger] self.open[i].0 != #[trigger] self.open[j].0
        &&& forall|i: int| 0 <= i < self.open.len() ==> self.was_seen(#[trigger] self.open[i].0)
    }

    /// The outcome of opening `id` on target `target`.
    pub open spec fn open_outcome(self, id: Seq<char>, target: Seq<char>) -> CommOpenOutcome {
        if !self.serves(target) {
            CommOpenOutcome::UnknownTarget
        } else if self.was_seen(id) {
            CommOpenOutcome::ReusedId
        } else {
            CommOpenOutcome::Opened
        }
    }

    /// The registry after opening `id` on `target`.
    pub open spec fn after_open(self, id: Seq<char>, target: Seq<char>, initiator: CommInitiator) -> CommsView {
        if self.open_outcome(id, target) == CommOpenOutcome::Opened {
            CommsView {
                open: self.open.push((id, target, initiator)),
                seen: self.seen.push(id),
                targets: self.targets,
            }
        } else {
            self
        }
    }

    /// The target of the open comm `id`.
    pub open spec fn target_of(self, id: Seq<char>) -> Seq<char> {
        self.open[choose|i: int| 0 <= i < self.open.len() && self.open[i].0 == id].1
    }

    /// The registry after closing `id`.
    pub open spec fn after_close(self, id: Seq<char>) -> CommsView {
        if self.is_open(id) {
            CommsView {
                open: self.open.remove(choose|i: int| 0 <= i < self.open.len() && self.open[i].0 == id),
                seen: self.seen,
                targets: self.targets,
            }
        } else {
            self
        }
    }
}

impl View for CommManager {
    type V = CommsView;

    closed spec fn view(&self) -> CommsView {
        CommsView {
            open: self.open@.map_values(
                |e: CommEntry| (e.comm_id@, e.target_name@, e.initiator),
            ),
            seen: self.seen@.map_values(|s: String| s@),
            targets: self.targets@.map_values(|s: String| s@),
        }
    }
}

/// The position of `id` in `v`, or the length of `v` if it is not there.
fn position_of(v: &Vec<String>, id: &String) -> (r: usize)
    ensures
        r <= v@.len(),
        r < v@.len() ==> v@[r as int]@ == id@,
        r == v@.len() ==> forall|i: int| 0 <= i < v@.len() ==> v@[i]@ != id@,
{
    let mut i: usize = 0;
    while i < v.len()
        invariant
            i <= v@.len(),
            forall|j: int| 0 <= j < i ==> v@[j]@ != id@,
        decreases v@.len() - i,
    {
        if v[i] == *id {
            return i;
        }
        i = i + 1;
    }
    i
}

impl CommManager {
    /// The registry is well formed.
    pub closed spec fn wf(&self) -> bool {
        self@.wf()
    }

    /// An empty registry whose consumers serve `targets`.
    pub fn new(targets: Vec<String>) -> (r: CommManager)
        ensures
            r.wf(),
            r@.open.len() == 0,
            r@.seen.len() == 0,
            r@.targets == targets@.map_values(|s: String| s@),
    {
        let r = CommManager { open: Vec::new(), seen: Vec::new(), targets };
        assert(r@.open =~= Seq::empty());
        r
    }

    /// The position of the open comm `id`, or the number of open comms.
    fn find_open(&self, id: &String) -> (r: usize)
        ensures
            r <= self@.open.len(),
            r < self@.open.len() ==> self@.open[r as int].0 == id@,
            r == self@.open.len() ==> !self@.is_open(id@),
    {
        let mut i: usize = 0;
        while i < self.open.len()
            invariant
                i <= self.open@.len(),
                forall|j: int| 0 <= j < i ==> self.open@[j].comm_id@ != id@,
            decreases self.open@.len() - i,
        {
            if self.open[i].comm_id == *id {
                return i;
            }
            i = i + 1;
        }
        proof {
            assert forall|j: int| 0 <= j < self@.open.len() implies #[trigger] self@.open[j].0 != id@ by {
                assert(self@.open[j].0 == self.open@[j].comm_id@);
            }
        }
        i
    }

    /// Registers the comm `comm_id` on `target_name`, unless no consumer
    /// serves the target or the id was used before.
    pub fn open(&mut self, comm_id: &String, target_name: &String, initiator: CommInitiator) -> (r:
        CommOpenOutcome)
        requires
            old(self).wf(),
        ensures
            final(self).wf(),
            r == old(self)@.open_outcome(comm_id@, target_name@),
            final(self)@ == old(self)@.after_open(comm_id@, target_name@, initiator),
    {
        let t = position_of(&self.targets, target_name);
        proof {
            if t < self.targets@.len() {
                assert(self@.targets[t as int] == target_name@);
            } else {
                assert forall|i: int| 0 <= i < self@.targets.len() implies #[trigger] self@.targets[i]
                    != target_name@ by {
                    assert(self@.targets[i] == self.targets@[i]@);
                }
            }
        }
        if t == self.targets.len() {
            return CommOpenOutcome::UnknownTarget;
        }
        let s = position_of(&self.seen, comm_id);
        proof {
            if s < self.seen@.len() {
                assert(self@.seen[s as int] == comm_id@);
            } else {
                assert forall|i: int| 0 <= i < self@.seen.len() implies #[trigger] self@.seen[i] != comm_id@ by {
                    assert(self@.seen[i] == self.seen@[i]@);
                }
            }
        }
        if s < self.seen.len() {
            return CommOpenOutcome::ReusedId;
        }
        let ghost old_view = self@;
        self.open.push(
            CommEntry {
                comm_id: comm_id.clone(),
                target_name: target_name.clone(),
                initiator,
            },
        );
        self.seen.push(comm_id.clone());
        proof {
            let nv = old_view.after_open(comm_id@, target_name@, initiator);
            assert(self@.open =~= nv.open);
            assert(self@.seen =~= nv.seen);
            assert(self@.targets =~= nv.targets);
            assert(self@.was_seen(comm_id@)) by {
                assert(self@.seen[old_view.seen.len() as int] == comm_id@);
            }
            assert forall|i: int| 0 <= i < self@.open.len() implies self@.was_seen(
                #[trigger] self@.open[i].0,
            ) by {
                if i < old_view.open.len() {
                    let id = old_view.open[i].0;
                    assert(old_view.was_seen(id));
                    let j = choose|j: int| 0 <= j < old_view.seen.len() && #[trigger] old_view.seen[j] == id;
                    assert(self@.seen[j] == id);
                }
            }
            assert forall|i: int, j: int| 0 <= i < j < self@.open.len() implies #[trigger] self@.open[i].0
                != #[trigger] self@.open[j].0 by {
                if j == old_view.open.len() {
                    assert(old_view.was_seen(old_view.open[i].0));
                }
            }
        }
        CommOpenOutcome::Opened
    }

    /// The target of the open comm `comm_id`, or `None` if no such comm is
    /// open (the message is then dropped).
    pub fn route(&self, comm_id: &String) -> (r: Option<String>)
        requires
            self.wf(),
        ensures
            r is Some <==> self@.is_open(comm_id@),
            r matches Some(t) ==> t@ == self@.target_of(comm_id@),
    {
        let i = self.find_open(comm_id);
        if i == self.open.len() {
            return None;
        }
        proof {
            let c = choose|k: int| 0 <= k < self@.open.len() && self@.open[k].0 == comm_id@;
            assert(c == i) by {
                if c != i {
                    if c < i {
                        assert(self@.open[c].0 != self@.open[i as int].0);
                    } else {
                        assert(self@.open[i as int].0 != self@.open[c].0);
                    }
                }
            }
        }
        Some(self.open[i].target_name.clone())
    }

    /// Closes the comm `comm_id`; false if no such comm was open. Its id stays
    /// taken.
    pub fn close(&mut self, comm_id: &String) -> (r: bool)
        requires
            old(self).wf(),
        ensures
            final(self).wf(),
            r == old(self)@.is_open(comm_id@),
            final(self)@ == old(self)@.after_close(comm_id@),
    {
        let i = self.find_open(comm_id);
        if i == self.open.len() {
            return false;
        }
        let ghost old_view = self@;
        proof {
            let c = choose|k: int| 0 <= k < old_view.open.len() && old_view.open[k].0 == comm_id@;
            assert(c == i) by {
                if c != i {
                    if c < i {
                        assert(old_view.open[c].0 != old_view.open[i as int].0);
                    } else {
                        assert(old_view.open[i as int].0 != old_view.open[c].0);
                    }
                }
            }
        }
        self.open.remove(i);
        proof {
            assert(self@.open =~= old_view.open.remove(i as int));
            assert(self@.seen =~= old_view.seen);
            assert(self@.targets =~= old_view.targets);
            assert forall|a: int, b: int| 0 <= a < b < self@.open.len() implies #[trigger] self@.open[a].0
                != #[trigger] self@.open[b].0 by {
                let a2 = if a < i { a } else { a + 1 };
                let b2 = if b < i { b } else { b + 1 };
                assert(old_view.open[a2].0 != old_view.open[b2].0);
            }
            assert forall|k: int| 0 <= k < self@.open.len() implies self@.was_seen(
                #[trigger] self@.open[k].0,
            ) by {
                let k2 = if k < i { k } else { k + 1 };
                assert(old_view.was_seen(old_view.open[k2].0));
            }
        }
        true
    }
}

/// Comm ids are never reused: once a comm has been open, routing to its id
/// after it closes finds nothing, and every later attempt to open a comm with
/// that id is refused, whatever else is opened or closed in between.
pub proof fn lemma_closed_comm_id_retired(v: CommsView, id: Seq<char>)
    requires
        v.wf(),
        v.is_open(id),
    ensures
        !v.after_close(id).is_open(id),
        v.after_close(id).was_seen(id),
        forall|t: Seq<char>| v.after_close(id).open_outcome(id, t) != CommOpenOutcome::Opened,
{
    let i = choose|i: int| 0 <= i < v.open.len() && v.open[i].0 == id;
    let w = v.after_close(id);
    assert(v.was_seen(v.open[i].0));
    let j = choose|j: int| 0 <= j < v.seen.len() && #[trigger] v.seen[j] == id;
    assert(w.seen[j] == id);
    assert forall|k: int| 0 <= k < w.open.len() implies #[trigger] w.open[k].0 != id by {
        let k2 = if k < i { k } else { k + 1 };
        if k2 < i {
            assert(v.open[k2].0 != v.open[i].0);
        } else {
            assert(v.open[i].0 != v.open[k2].0);
        }
    }
}

/// Registered ids stay registered: opening or closing any comm keeps every
/// id that was ever registered.
pub proof fn lemma_seen_ids_kept(
    v: CommsView,
    id: Seq<char>,
    other: Seq<char>,
    target: Seq<char>,
    initiator: CommInitiator,
)
    requires
        v.was_seen(id),
    ensures
        v.after_open(other, target, initiator).was_seen(id),
        v.after_close(other).was_seen(id),
{
    let j = choose|j: int| 0 <= j < v.seen.len() && #[trigger] v.seen[j] == id;
    assert(v.after_open(other, target, initiator).seen[j] == id);
    assert(v.after_close(other).seen[j] == id);
}

} // verus!
