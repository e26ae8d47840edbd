use vstd::prelude::*;

verus! {

/// Which of the two store views a handle stands for.
#[derive(Clone, Copy, Debug, PartialEq, Eq, Structural)]
pub enum ViewKind {
    Entity,
    Queue,
}

/// A non-owning handle to one store view of a lease. It grants nothing by
/// itself: every use goes through [`LeasedConnection::admits`].
#[derive(Clone, Copy, Debug, PartialEq, Eq, Structural)]
pub struct ViewHandle {
    pub lease: u64,
    pub kind: ViewKind,
}

/// One step of tearing a lease down, in the order it is to be performed.
#[derive(Clone, Copy, Debug, PartialEq, Eq, Structural)]
pub enum Teardown {
    /// Both store views stop being usable.
    InvalidateViews,
    /// The underlying connection is released.
    ReleaseConnection,
}

/// What a lease is at a point of its life.
pub struct LeaseModel {
    pub id: u64,
    pub live: bool,
    /// The teardown steps handed out so far, oldest first.
    pub log: Seq<Teardown>,
}

/// The teardown sequence that disposing a live lease performs.
pub open spec fn teardown_sequence() -> Seq<Teardown> {
    seq![Teardown::InvalidateViews, Teardown::ReleaseConnection]
}

/// A lease is live with nothing torn down, or disposed after exactly the
/// teardown sequence.
pub open spec fn lease_wf(m: LeaseModel) -> bool {
    if m.live {
        m.log.len() == 0
    } else {
        m.log == teardown_sequence()
    }
}

/// How many times the connection has been released in `log`.
pub open spec fn releases(log: Seq<Teardown>) -> nat
    decreases log.len(),
{
    if log.len() == 0 {
        0
    } else {
        releases(log.drop_last()) + if log.last() == Teardown::ReleaseConnection {
            1nat
        } else {
            0nat
        }
    }
}

/// The handle of the view of kind `kind` on lease `id`.
pub open spec fn view_of(id: u64, kind: ViewKind) -> ViewHandle {
    ViewHandle { lease: id, kind }
}

/// Whether `v` may be used on a lease in state `m`.
pub open spec fn admitted(m: LeaseModel, v: ViewHandle) -> bool {
    m.live && v.lease == m.id
}

/// One leased connection and the two store views derived from it. The views
/// are fixed when the lease is made, and are usable only while it is live.
/// Not `Clone`: a lease is owned once.
pub struct LeasedConnection {
    id: u64,
    live: bool,
    log: Vec<Teardown>,
}

impl View for LeasedConnection {
    type V = LeaseModel;

    closed spec fn view(&self) -> LeaseModel {
        LeaseModel { id: self.id, live: self.live, log: self.log@ }
    }
}

impl LeasedConnection {
    pub open spec fn wf(&self) -> bool {
        lease_wf(self@)
    }

    /// A fresh live lease over the connection numbered `id`.
    pub fn new(id: u64) -> (r: LeasedConnection)
        ensures
            r.wf(),
            r@.id == id,
            r@.live,
            r@.log.len() == 0,
    {
        LeasedConnection { id, live: true, log: Vec::new() }
    }

    pub fn id(&self) -> (r: u64)
        ensures
            r == self@.id,
    {
        self.id
    }

    pub fn is_live(&self) -> (r: bool)
        ensures
            r == self@.live,
    {
        self.live
    }

    /// The entity view and the queue view, the same pair on every call, or
    /// `None` once the lease is disposed.
    pub fn get(&self) -> (r: Option<(ViewHandle, ViewHandle)>)
        ensures
            r == if self@.live {
                Some((view_of(self@.id, ViewKind::Entity), view_of(self@.id, ViewKind::Queue)))
            } else {
                None
            },
    {
        if self.live {
            Some(
                (
                    ViewHandle { lease: self.id, kind: ViewKind::Entity },
                    ViewHandle { lease: self.id, kind: ViewKind::Queue },
                ),
            )
        } else {
            None
        }
    }

    /// Whether `v` may be used now: it was derived from this lease, and the
    /// lease is live.
    pub fn admits(&self, v: &ViewHandle) -> (r: bool)
        ensures
            r == admitted(self@, *v),
    {
        self.live && v.lease == self.id
    }

    /// Disposes the lease. The first call returns the teardown sequence,
    /// views first, connection last; any later call returns nothing to do.
    pub fn dispose(&mut self) -> (steps: Vec<Teardown>)
        requires
            old(self).wf(),
        ensures
            final(self).wf(),
            final(self)@.id == old(self)@.id,
            !final(self)@.live,
            old(self)@.live ==> steps@ == teardown_sequence(),
            !old(self)@.live ==> steps@.len() == 0 && final(self)@ == old(self)@,
            final(self)@.log == old(self)@.log + steps@,
    {
        let mut steps: Vec<Teardown> = Vec::new();
        if self.live {
            steps.push(Teardown::InvalidateViews);
            steps.push(Teardown::ReleaseConnection);
            self.live = false;
            self.log.push(Teardown::InvalidateViews);
            self.log.push(Teardown::ReleaseConnection);
            assert(self.log@ =~= teardown_sequence());
        }
        assert(self.log@ =~= old(self).log@ + steps@);
        steps
    }
}

/// No view derived from a lease is usable once the lease is disposed.
pub proof fn lemma_no_view_after_dispose(l: &LeasedConnection, v: ViewHandle)
    requires
        l.wf(),
        !l@.live,
    ensures
        !admitted(l@, v),
{
}

/// A lease releases its connection at most once; a disposed lease has
/// released it exactly once, and only after its views were invalidated.
pub proof fn lemma_single_teardown(l: &LeasedConnection)
    requires
        l.wf(),
    ensures
        releases(l@.log) <= 1,
        l@.live ==> releases(l@.log) == 0,
        !l@.live ==> releases(l@.log) == 1 && l@.log.len() == 2 && l@.log[0]
            == Teardown::InvalidateViews && l@.log[1] == Teardown::ReleaseConnection,
{
    reveal_with_fuel(releases, 3);
    if !l@.live {
        assert(l@.log.drop_last() =~= seq![Teardown::InvalidateViews]);
        assert(l@.log.drop_last().drop_last() =~= Seq::<Teardown>::empty());
    }
}

} // verus!
