//! The records of the applets that a panel runs: their transports, their
//! subprocesses, and how an exit or a restart changes them.
use crate::Alignment;
use vstd::prelude::*;

verus! {

/// One configured applet slot.
#[derive(Debug, Clone)]
pub struct AppletRecord {
    pub id: String,
    pub alignment: Alignment,
    /// The embedded-server end of the applet's transport.
    pub transport: u64,
    /// The running subprocess, absent while stopped or not yet started.
    pub process: Option<u64>,
    /// The security-context listener, for applets with direct host access.
    pub security: Option<u64>,
    /// How many times the applet was restarted.
    pub generation: u64,
}

/// Why the registry refused a change.
#[derive(Debug, Clone, Copy, PartialEq, Eq, Structural)]
pub enum SupervisorError {
    AlreadySpawned,
    DuplicateTransport,
    NotFound,
    AlreadyRunning,
    NotRunning,
    TransportInUse,
}

/// What follows a subprocess exit.
#[derive(Debug, Clone, Copy, PartialEq, Eq, Structural)]
pub enum ExitStep {
    /// Not to be restarted: the applet stays stopped.
    Stopped,
    /// The notifications applet needs a fresh handle before it restarts.
    AwaitNotificationHandle,
    /// Restart with a fresh transport.
    Restart,
}

/// No two records share a transport.
pub open spec fn transports_distinct(rs: Seq<AppletRecord>) -> bool {
    forall|i: int, j: int|
        0 <= i < rs.len() && 0 <= j < rs.len() && i != j ==> #[trigger] rs[i].transport
            != #[trigger] rs[j].transport
}

/// Some record holds transport `t`.
pub open spec fn uses_transport(rs: Seq<AppletRecord>, t: u64) -> bool {
    exists|i: int| 0 <= i < rs.len() && #[trigger] rs[i].transport == t
}

/// Record `r` is the slot `id` in list `a`.
pub open spec fn is_slot(r: AppletRecord, a: Alignment, id: Seq<char>) -> bool {
    r.alignment == a && r.id@ == id
}

/// `i` is the first record that is slot `id` in list `a`.
pub open spec fn first_slot(rs: Seq<AppletRecord>, a: Alignment, id: Seq<char>, i: int) -> bool {
    &&& 0 <= i < rs.len()
    &&& is_slot(rs[i], a, id)
    &&& forall|j: int| 0 <= j < i ==> !is_slot(#[trigger] rs[j], a, id)
}

/// Slot `id` of list `a` has a record.
pub open spec fn has_slot(rs: Seq<AppletRecord>, a: Alignment, id: Seq<char>) -> bool {
    exists|i: int| 0 <= i < rs.len() && is_slot(#[trigger] rs[i], a, id)
}

/// The records for the slots of one list, in order, none started.
pub open spec fn fresh_records(slots: Seq<(String, u64)>, a: Alignment) -> Seq<AppletRecord> {
    slots.map_values(
        |s: (String, u64)|
            AppletRecord {
                id: s.0,
                alignment: a,
                transport: s.1,
                process: None,
                security: None,
                generation: 0,
            },
    )
}

/// One more, stopping at the largest value.
pub open spec fn bump(g: u64) -> u64 {
    if g < u64::MAX {
        (g + 1) as u64
    } else {
        g
    }
}

fn copy_record(r: &AppletRecord) -> (c: AppletRecord)
    ensures
        c == *r,
{
    AppletRecord {
        id: r.id.clone(),
        alignment: r.alignment,
        transport: r.transport,
        process: r.process,
        security: r.security,
        generation: r.generation,
    }
}

proof fn lemma_first_slot_unique(rs: Seq<AppletRecord>, a: Alignment, id: Seq<char>, i: int, j: int)
    requires
        first_slot(rs, a, id, i),
        first_slot(rs, a, id, j),
    ensures
        i == j,
{
    if i < j {
        assert(!is_slot(rs[i], a, id));
    } else if j < i {
        assert(!is_slot(rs[j], a, id));
    }
}

/// The applet slots of one panel, left list first, then center, then right.
pub struct AppletRegistry {
    records: Vec<AppletRecord>,
}

impl View for AppletRegistry {
    type V = Seq<AppletRecord>;

    closed spec fn view(&self) -> Seq<AppletRecord> {
        self.records@
    }
}

impl AppletRegistry {
    /// The registry's invariant: every transport belongs to one record.
    pub open spec fn wf(&self) -> bool {
        transports_distinct(self@)
    }

    /// A registry with no slots.
    pub fn new() -> (r: Self)
        ensures
            r.wf(),
            r@.len() == 0,
    {
        AppletRegistry { records: Vec::new() }
    }

    /// The records, left list first, then center, then right.
    pub fn records(&self) -> (r: &Vec<AppletRecord>)
        ensures
            r@ == self@,
    {
        &self.records
    }

    fn find(&self, a: Alignment, id: &String) -> (r: Option<usize>)
        ensures
            r matches Some(i) ==> first_slot(self.records@, a, id@, i as int),
            r is None ==> !has_slot(self.records@, a, id@),
    {
        let mut i: usize = 0;
        while i < self.records.len()
            invariant
                i <= self.records@.len(),
                forall|j: int| 0 <= j < i ==> !is_slot(#[trigger] self.records@[j], a, id@),
            decreases self.records@.len() - i,
        {
            if self.records[i].alignment == a && self.records[i].id == *id {
                return Some(i);
            }
            i = i + 1;
        }
        None
    }

    fn push_fresh(out: &mut Vec<AppletRecord>, slots: &Vec<(String, u64)>, a: Alignment)
        ensures
            final(out)@ == old(out)@ + fresh_records(slots@, a),
    {
        let ghost start = out@;
        let mut i: usize = 0;
        while i < slots.len()
            invariant
                i <= slots@.len(),
                out@ == start + fresh_records(slots@.take(i as int), a),
            decreases slots@.len() - i,
        {
            let (id, t) = &slots[i];
            out.push(
                AppletRecord {
                    id: id.clone(),
                    alignment: a,
                    transport: *t,
                    process: None,
                    security: None,
                    generation: 0,
                },
            );
            i = i + 1;
            assert(fresh_records(slots@.take(i as int), a) =~= fresh_records(
                slots@.take(i - 1),
                a,
            ).push(out@.last()));
        }
        assert(slots@.take(i as int) =~= slots@);
    }

    fn distinct_transports(rs: &Vec<AppletRecord>) -> (b: bool)
        ensures
            b == transports_distinct(rs@),
    {
        let mut i: usize = 0;
        while i < rs.len()
            invariant
                i <= rs@.len(),
                forall|p: int, q: int|
                    0 <= p < i && 0 <= q < rs@.len() && p != q ==> #[trigger] rs@[p].transport
                        != #[trigger] rs@[q].transport,
            decreases rs@.len() - i,
        {
            let mut j: usize = 0;
            while j < rs.len()
                invariant
                    i < rs@.len(),
                    j <= rs@.len(),
                    forall|p: int, q: int|
                        0 <= p < i && 0 <= q < rs@.len() && p != q ==> #[trigger] rs@[p].transport
                            != #[trigger] rs@[q].transport,
                    forall|q: int|
                        0 <= q < j && q != i ==> rs@[i as int].transport != #[trigger] rs@[q].transport,
                decreases rs@.len() - j,
            {
                if j != i && rs[i].transport == rs[j].transport {
                    return false;
                }
                j = j + 1;
            }
            i = i + 1;
        }
        true
    }

    /// Creates the records of every slot, each with its own fresh transport.
    /// This happens once: a registry that already has records refuses.
    pub fn populate(
        &mut self,
        left: &Vec<(String, u64)>,
        center: &Vec<(String, u64)>,
        right: &Vec<(String, u64)>,
    ) -> (r: Result<(), SupervisorError>)
        requires
            old(self).wf(),
        ensures
            final(self).wf(),
            ({
                let all = fresh_records(left@, Alignment::Left) + fresh_records(
                    center@,
                    Alignment::Center,
                ) + fresh_records(right@, Alignment::Right);
                &&& old(self)@.len() > 0 ==> r == Err::<(), SupervisorError>(
                    SupervisorError::AlreadySpawned,
                ) && final(self)@ == old(self)@
                &&& old(self)@.len() == 0 && !transports_distinct(all) ==> r == Err::<
                    (),
                    SupervisorError,
                >(SupervisorError::DuplicateTransport) && final(self)@ == old(self)@
                &&& old(self)@.len() == 0 && transports_distinct(all) ==> r == Ok::<
                    (),
                    SupervisorError,
                >(()) && final(self)@ == all
            }),
    {
        if self.records.len() > 0 {
            return Err(SupervisorError::AlreadySpawned);
        }
        let mut all: Vec<AppletRecord> = Vec::new();
        Self::push_fresh(&mut all, left, Alignment::Left);
        Self::push_fresh(&mut all, center, Alignment::Center);
        Self::push_fresh(&mut all, right, Alignment::Right);
        assert(all@ =~= Seq::<AppletRecord>::empty() + fresh_records(left@, Alignment::Left)
            + fresh_records(center@, Alignment::Center) + fresh_records(right@, Alignment::Right));
        if !Self::distinct_transports(&all) {
            return Err(SupervisorError::DuplicateTransport);
        }
        self.records = all;
        Ok(())
    }

    /// Whether some record holds transport `t`.
    pub fn transport_in_use(&self, t: u64) -> (b: bool)
        ensures
            b == uses_transport(self@, t),
    {
        let mut i: usize = 0;
        while i < self.records.len()
            invariant
                i <= self.records@.len(),
                forall|j: int| 0 <= j < i ==> #[trigger] self.records@[j].transport != t,
            decreases self.records@.len() - i,
        {
            if self.records[i].transport == t {
                return true;
            }
            i = i + 1;
        }
        false
    }

    /// The scale that applies to the client on transport `t`: the panel's
    /// scale where the client is one of its applets, else none.
    pub fn scale_factor_for(&self, t: u64, scale120: u32) -> (r: Option<u32>)
        ensures
            r == (if uses_transport(self@, t) {
                Some(scale120)
            } else {
                None
            }),
    {
        if self.transport_in_use(t) {
            Some(scale120)
        } else {
            None
        }
    }

    /// Records that slot `id` of list `a` now runs subprocess `process`,
    /// with security-context listener `security` where it has one.
    pub fn record_spawned(
        &mut self,
        a: Alignment,
        id: &String,
        process: u64,
        security: Option<u64>,
    ) -> (r: Result<
        (),
        SupervisorError,
    >)
        requires
            old(self).wf(),
        ensures
            final(self).wf(),
            !has_slot(old(self)@, a, id@) ==> r == Err::<(), SupervisorError>(
                SupervisorError::NotFound,
            ) && final(self)@ == old(self)@,
            forall|i: int|
                first_slot(old(self)@, a, id@, i) ==> {
                    let rec = old(self)@[i];
                    &&& rec.process is Some ==> r == Err::<(), SupervisorError>(
                        SupervisorError::AlreadyRunning,
                    ) && final(self)@ == old(self)@
                    &&& rec.process is None ==> r == Ok::<(), SupervisorError>(()) && final(self)@ == old(self)@.update(
                        i,
                        AppletRecord { process: Some(process), security, ..rec },
                    )
                },
    {
        match self.find(a, id) {
            None => Err(SupervisorError::NotFound),
            Some(i) => {
                proof {
                    assert forall|k: int| first_slot(old(self)@, a, id@, k) implies k
                        == i by {
                        lemma_first_slot_unique(old(self)@, a, id@, k, i as int);
                    }
                }
                if self.records[i].process.is_some() {
                    return Err(SupervisorError::AlreadyRunning);
                }
                let mut rec = copy_record(&self.records[i]);
                rec.process = Some(process);
                rec.security = security;
                let ghost rs0 = self.records@;
                self.records.set(i, rec);
                assert(forall|k: int|
                    0 <= k < self.records@.len() ==> #[trigger] self.records@[k].transport
                        == rs0[k].transport);
                Ok(())
            },
        }
    }

    /// The subprocess of slot `id` in list `a` exited. Without a restart the
    /// record loses its subprocess for good; with one, the record is kept as
    /// it is until the restart completes, and the step says whether the
    /// notifications handle must be fetched first.
    pub fn process_exited(
        &mut self,
        a: Alignment,
        id: &String,
        should_restart: bool,
        notifications: bool,
    ) -> (r: Result<ExitStep, SupervisorError>)
        requires
            old(self).wf(),
        ensures
            final(self).wf(),
            !has_slot(old(self)@, a, id@) ==> r == Err::<ExitStep, SupervisorError>(
                SupervisorError::NotFound,
            ) && final(self)@ == old(self)@,
            forall|i: int|
                first_slot(old(self)@, a, id@, i) ==> {
                    let rec = old(self)@[i];
                    &&& !should_restart ==> r == Ok::<ExitStep, SupervisorError>(ExitStep::Stopped)
                        && final(self)@ == old(self)@.update(
                        i,
                        AppletRecord { process: None, ..rec },
                    )
                    &&& should_restart && notifications ==> r == Ok::<ExitStep, SupervisorError>(
                        ExitStep::AwaitNotificationHandle,
                    ) && final(self)@ == old(self)@
                    &&& should_restart && !notifications ==> r == Ok::<ExitStep, SupervisorError>(
                        ExitStep::Restart,
                    ) && final(self)@ == old(self)@
                },
    {
        match self.find(a, id) {
            None => Err(SupervisorError::NotFound),
            Some(i) => {
                proof {
                    assert forall|k: int| first_slot(old(self)@, a, id@, k) implies k
                        == i by {
                        lemma_first_slot_unique(old(self)@, a, id@, k, i as int);
                    }
                }
                if !should_restart {
                    let mut rec = copy_record(&self.records[i]);
                    rec.process = None;
                    let ghost rs0 = self.records@;
                    self.records.set(i, rec);
                    assert(forall|k: int|
                        0 <= k < self.records@.len() ==> #[trigger] self.records@[k].transport
                            == rs0[k].transport);
                    Ok(ExitStep::Stopped)
                } else if notifications {
                    Ok(ExitStep::AwaitNotificationHandle)
                } else {
                    Ok(ExitStep::Restart)
                }
            },
        }
    }

    /// Completes the restart of slot `id` in list `a`: in one step the record
    /// takes the fresh transport and security listener, and counts the
    /// restart; its subprocess stays the one the supervisor restarts. Returns
    /// the transport given up. A record that is gone, or has no subprocess,
    /// abandons the restart, as does a transport that is not fresh.
    pub fn complete_restart(
        &mut self,
        a: Alignment,
        id: &String,
        transport: u64,
        security: Option<u64>,
    ) -> (r: Result<u64, SupervisorError>)
        requires
            old(self).wf(),
        ensures
            final(self).wf(),
            !has_slot(old(self)@, a, id@) ==> r == Err::<u64, SupervisorError>(
                SupervisorError::NotFound,
            ) && final(self)@ == old(self)@,
            forall|i: int|
                first_slot(old(self)@, a, id@, i) ==> {
                    let rec = old(self)@[i];
                    &&& rec.process is None ==> r == Err::<u64, SupervisorError>(
                        SupervisorError::NotRunning,
                    ) && final(self)@ == old(self)@
                    &&& rec.process is Some && uses_transport(old(self)@, transport) ==> r
                        == Err::<u64, SupervisorError>(SupervisorError::TransportInUse) && final(self)@ == old(self)@
                    &&& rec.process is Some && !uses_transport(old(self)@, transport) ==> {
                        &&& r == Ok::<u64, SupervisorError>(rec.transport)
                        &&& final(self)@ == old(self)@.update(
                            i,
                            AppletRecord {
                                transport,
                                security,
                                generation: bump(rec.generation),
                                ..rec
                            },
                        )
                        &&& final(self)@[i].process == rec.process
                        &&& uses_transport(final(self)@, transport)
                        &&& !uses_transport(final(self)@, rec.transport)
                    }
                },
    {
        match self.find(a, id) {
            None => Err(SupervisorError::NotFound),
            Some(i) => {
                proof {
                    assert forall|k: int| first_slot(old(self)@, a, id@, k) implies k
                        == i by {
                        lemma_first_slot_unique(old(self)@, a, id@, k, i as int);
                    }
                }
                if self.records[i].process.is_none() {
                    return Err(SupervisorError::NotRunning);
                }
                if self.transport_in_use(transport) {
                    return Err(SupervisorError::TransportInUse);
                }
                let mut rec = copy_record(&self.records[i]);
                let old_transport = rec.transport;
                let generation = if rec.generation < u64::MAX {
                    rec.generation + 1
                } else {
                    rec.generation
                };
                rec.transport = transport;
                rec.security = security;
                rec.generation = generation;
                let ghost rs0 = self.records@;
                self.records.set(i, rec);
                let ghost rs1 = self.records@;
                proof {
                    assert(transports_distinct(rs1)) by {
                        assert forall|p: int, q: int|
                            0 <= p < rs1.len() && 0 <= q < rs1.len() && p != q implies #[trigger] rs1[p].transport
                            != #[trigger] rs1[q].transport by {
                            if p == i {
                                assert(rs1[q] == rs0[q]);
                            } else if q == i {
                                assert(rs1[p] == rs0[p]);
                            } else {
                                assert(rs1[p] == rs0[p] && rs1[q] == rs0[q]);
                            }
                        }
                    }
                    assert(rs1[i as int].transport == transport);
                    assert(!uses_transport(rs1, old_transport)) by {
                        if uses_transport(rs1, old_transport) {
                            let k = choose|k: int| 0 <= k < rs1.len() && #[trigger] rs1[k].transport == old_transport;
                            assert(k != i);
                            assert(rs1[k] == rs0[k]);
                        }
                    }
                }
                Ok(old_transport)
            },
        }
    }
}

} // verus!
