//! The runs of evaluations started in the background, each by its id, and
//! the state each has reached.

use vstd::prelude::*;

use crate::dto::evals::EvalReportDto;

verus! {

/// Where a background evaluation run stands.
pub enum EvalRunState {
    Pending,
    Running,
    Completed { report: EvalReportDto },
    Failed { error: String },
}

/// A run, its state, and when it started.
pub struct EvalRunRecord {
    pub run_id: String,
    pub state: EvalRunState,
    /// When the run started, in milliseconds on the clock of the caller that
    /// recorded it.
    pub started_at: u64,
}

/// What the store keeps of a run under its id.
pub struct RunEntry {
    pub state: EvalRunState,
    pub started_at: u64,
}

/// The entry of a record.
pub open spec fn entry_of(r: EvalRunRecord) -> RunEntry {
    RunEntry { state: r.state, started_at: r.started_at }
}

/// The runs, by id: at most one record per id.
pub struct EvalRunStore {
    records: Vec<EvalRunRecord>,
}

/// The position of the record with the given id.
pub open spec fn record_index(rs: Seq<EvalRunRecord>, id: Seq<char>) -> Option<int>
    decreases rs.len(),
{
    if rs.len() == 0 {
        None
    } else if rs.last().run_id@ == id {
        Some(rs.len() - 1)
    } else {
        record_index(rs.drop_last(), id)
    }
}

pub proof fn lemma_record_index(rs: Seq<EvalRunRecord>, id: Seq<char>)
    ensures
        match record_index(rs, id) {
            Some(i) => 0 <= i < rs.len() && rs[i].run_id@ == id,
            None => forall|j: int| 0 <= j < rs.len() ==> #[trigger] rs[j].run_id@ != id,
        },
    decreases rs.len(),
{
    if rs.len() > 0 && rs.last().run_id@ != id {
        lemma_record_index(rs.drop_last(), id);
        assert forall|j: int| 0 <= j < rs.len() - 1 implies #[trigger] rs[j] == rs.drop_last()[j] by {}
    }
}

/// The runs as a map from id to entry.
pub open spec fn records_map(rs: Seq<EvalRunRecord>) -> Map<Seq<char>, RunEntry>
    decreases rs.len(),
{
    if rs.len() == 0 {
        Map::empty()
    } else {
        records_map(rs.drop_last()).insert(rs.last().run_id@, entry_of(rs.last()))
    }
}

/// No two records share an id.
pub open spec fn ids_unique(rs: Seq<EvalRunRecord>) -> bool {
    forall|i: int, j: int| 0 <= i < j < rs.len() ==> #[trigger] rs[i].run_id@ != #[trigger] rs[j].run_id@
}

pub proof fn lemma_records_map(rs: Seq<EvalRunRecord>)
    requires
        ids_unique(rs),
    ensures
        forall|id: Seq<char>| #[trigger] records_map(rs).contains_key(id) <==> record_index(rs, id) is Some,
        forall|i: int| 0 <= i < rs.len() ==> #[trigger] records_map(rs)[rs[i].run_id@] == entry_of(rs[i]),
    decreases rs.len(),
{
    if rs.len() > 0 {
        let init = rs.drop_last();
        assert(ids_unique(init)) by {
            assert forall|i: int, j: int| 0 <= i < j < init.len() implies #[trigger] init[i].run_id@ != #[trigger] init[j].run_id@ by {
                assert(init[i] == rs[i] && init[j] == rs[j]);
            }
        }
        lemma_records_map(init);
        assert forall|i: int| 0 <= i < rs.len() implies #[trigger] records_map(rs)[rs[i].run_id@] == entry_of(rs[i]) by {
            if i < rs.len() - 1 {
                assert(rs[i] == init[i]);
                assert(rs[i].run_id@ != rs.last().run_id@);
            }
        }
    }
}

/// The entry of a run with its state replaced.
pub open spec fn with_state(r: RunEntry, state: EvalRunState) -> RunEntry {
    RunEntry { state, started_at: r.started_at }
}

impl View for EvalRunStore {
    type V = Map<Seq<char>, RunEntry>;

    closed spec fn view(&self) -> Map<Seq<char>, RunEntry> {
        records_map(self.records@)
    }
}

/// The index of the record with the given id.
fn find_in(records: &Vec<EvalRunRecord>, run_id: &str) -> (r: Option<usize>)
    requires
        ids_unique(records@),
    ensures
        match record_index(records@, run_id@) {
            Some(i) => r matches Some(k) && k == i,
            None => r is None,
        },
        r matches Some(i) ==> i < records@.len(),
{
    proof {
        lemma_record_index(records@, run_id@);
    }
    let mut i: usize = 0;
    while i < records.len()
        invariant
            i <= records@.len(),
            ids_unique(records@),
            forall|j: int| 0 <= j < i ==> #[trigger] records@[j].run_id@ != run_id@,
        decreases records@.len() - i,
    {
        if crate::text::str_eq(records[i].run_id.as_str(), run_id) {
            proof {
                lemma_record_index(records@, run_id@);
                match record_index(records@, run_id@) {
                    Some(k) => {
                        if k != i {
                            assert(records@[k].run_id@ == records@[i as int].run_id@);
                            if k < i {
                                assert(records@[k].run_id@ != run_id@);
                            }
                        }
                    },
                    None => {
                        assert(records@[i as int].run_id@ != run_id@);
                    },
                }
            }
            return Some(i);
        }
        i = i + 1;
    }
    None
}

/// Replaces the state of the run with the given id, if there is one.
fn set_state_in(records: &mut Vec<EvalRunRecord>, run_id: &str, state: EvalRunState) -> (found: bool)
    requires
        ids_unique(old(records)@),
    ensures
        ids_unique(final(records)@),
        found == records_map(old(records)@).contains_key(run_id@),
        found ==> records_map(final(records)@) == records_map(old(records)@).insert(
            run_id@,
            with_state(records_map(old(records)@)[run_id@], state),
        ),
        !found ==> records_map(final(records)@) == records_map(old(records)@),
{
    proof {
        lemma_records_map(records@);
    }
    match find_in(records, run_id) {
        Some(i) => {
            let ghost before = records@;
            let id = records[i].run_id.clone();
            let started_at = records[i].started_at;
            let rec = EvalRunRecord { run_id: id, state, started_at };
            let ghost rv = rec;
            proof {
                lemma_record_index(before, run_id@);
                assert(entry_of(rv) == with_state(records_map(before)[run_id@], rv.state));
                assert(ids_unique(before.update(i as int, rv))) by {
                    let s = before.update(i as int, rv);
                    assert forall|a: int, b: int| 0 <= a < b < s.len() implies #[trigger] s[a].run_id@ != #[trigger] s[b].run_id@ by {
                        assert(s[a].run_id@ == before[a].run_id@);
                        assert(s[b].run_id@ == before[b].run_id@);
                    }
                }
            }
            records.set(i, rec);
            proof {
                let s = records@;
                lemma_records_map(s);
                lemma_record_index(s, run_id@);
                assert(records_map(s) =~= records_map(before).insert(run_id@, entry_of(rv))) by {
                    assert forall|k: Seq<char>| #[trigger] records_map(s).contains_key(k)
                        == records_map(before).insert(run_id@, entry_of(rv)).contains_key(k) by {
                        lemma_record_index(s, k);
                        lemma_record_index(before, k);
                        if record_index(s, k) is Some {
                            let j = record_index(s, k)->Some_0;
                            if j != i {
                                assert(before[j].run_id@ == k);
                            }
                        }
                        if record_index(before, k) is Some {
                            let j = record_index(before, k)->Some_0;
                            assert(s[j].run_id@ == k);
                        }
                    }
                    assert forall|k: Seq<char>| #[trigger] records_map(s).contains_key(k)
                        implies records_map(s)[k] == records_map(before).insert(run_id@, entry_of(rv))[k] by {
                        lemma_record_index(s, k);
                        lemma_record_index(before, run_id@);
                        lemma_records_map(before);
                        let j = record_index(s, k)->Some_0;
                        assert(records_map(s)[s[j].run_id@] == entry_of(s[j]));
                        assert(before[i as int].run_id@ == run_id@);
                        if j != i {
                            assert(s[j] == before[j]);
                            assert(before[j].run_id@ != before[i as int].run_id@);
                            assert(records_map(before)[before[j].run_id@] == entry_of(before[j]));
                        } else {
                            assert(s[j].run_id@ == run_id@);
                        }
                    }
                }
            }
            true
        },
        None => false,
    }
}

impl EvalRunStore {
    /// At most one record per id.
    #[verifier::type_invariant]
    spec fn wf(self) -> bool {
        ids_unique(self.records@)
    }

    /// An empty store.
    pub fn new() -> (s: EvalRunStore)
        ensures
            s@ == Map::<Seq<char>, RunEntry>::empty(),
    {
        EvalRunStore { records: Vec::new() }
    }

    /// Takes the records out, leaving the store empty.
    fn take_records(&mut self) -> (r: Vec<EvalRunRecord>)
        ensures
            r@ == old(self).records@,
            ids_unique(r@),
            final(self).records@ == Seq::<EvalRunRecord>::empty(),
    {
        proof {
            use_type_invariant(&*self);
        }
        let mut r: Vec<EvalRunRecord> = Vec::new();
        std::mem::swap(&mut r, &mut self.records);
        r
    }

    fn set_state(&mut self, run_id: &str, state: EvalRunState)
        ensures
            old(self)@.contains_key(run_id@) ==> final(self)@ == old(self)@.insert(
                run_id@,
                with_state(old(self)@[run_id@], state),
            ),
            !old(self)@.contains_key(run_id@) ==> final(self)@ == old(self)@,
    {
        let mut records = self.take_records();
        set_state_in(&mut records, run_id, state);
        self.records = records;
    }

    /// Records a new run, pending, under `run_id` (a fresh UUID), started at
    /// `started_at`.
    pub fn insert_pending(&mut self, run_id: String, started_at: u64) -> (id: String)
        ensures
            id@ == run_id@,
            final(self)@ == old(self)@.insert(
                run_id@,
                (RunEntry { state: EvalRunState::Pending, started_at }),
            ),
    {
        let mut records = self.take_records();
        let ghost before = records@;
        proof {
            lemma_records_map(before);
            lemma_record_index(before, run_id@);
        }
        let ghost rv = EvalRunRecord { run_id: run_id, state: EvalRunState::Pending, started_at };
        match find_in(&records, run_id.as_str()) {
            Some(i) => {
                let rec = EvalRunRecord { run_id: records[i].run_id.clone(), state: EvalRunState::Pending, started_at };
                proof {
                    assert(entry_of(rec) == entry_of(rv));
                    assert(ids_unique(before.update(i as int, rec))) by {
                        let s = before.update(i as int, rec);
                        assert(rec.run_id@ == before[i as int].run_id@);
                        assert forall|a: int, b: int| 0 <= a < b < s.len() implies #[trigger] s[a].run_id@ != #[trigger] s[b].run_id@ by {
                            assert(s[a].run_id@ == before[a].run_id@);
                            assert(s[b].run_id@ == before[b].run_id@);
                        }
                    }
                }
                records.set(i, rec);
                proof {
                    let s = records@;
                    lemma_records_map(s);
                    assert(records_map(s) =~= records_map(before).insert(run_id@, entry_of(rv))) by {
                        assert forall|k: Seq<char>| #[trigger] records_map(s).contains_key(k)
                            == records_map(before).insert(run_id@, entry_of(rv)).contains_key(k) by {
                            lemma_record_index(s, k);
                            lemma_record_index(before, k);
                            if record_index(s, k) is Some {
                                let j = record_index(s, k)->Some_0;
                                if j != i {
                                    assert(before[j].run_id@ == k);
                                }
                            }
                            if record_index(before, k) is Some {
                                let j = record_index(before, k)->Some_0;
                                assert(s[j].run_id@ == k);
                            }
                        }
                        assert forall|k: Seq<char>| #[trigger] records_map(s).contains_key(k)
                            implies records_map(s)[k] == records_map(before).insert(run_id@, entry_of(rv))[k] by {
                            lemma_record_index(s, k);
                            lemma_records_map(before);
                            let j = record_index(s, k)->Some_0;
                            assert(records_map(s)[s[j].run_id@] == entry_of(s[j]));
                            if j != i {
                                assert(s[j] == before[j]);
                                assert(before[j].run_id@ != before[i as int].run_id@);
                                assert(records_map(before)[before[j].run_id@] == entry_of(before[j]));
                            } else {
                                assert(s[j].run_id@ == run_id@);
                            }
                        }
                    }
                }
            },
            None => {
                proof {
                    assert(ids_unique(before.push(rv))) by {
                        let s = before.push(rv);
                        assert forall|a: int, b: int| 0 <= a < b < s.len() implies #[trigger] s[a].run_id@ != #[trigger] s[b].run_id@ by {
                            if b == before.len() {
                                assert(s[a] == before[a]);
                            } else {
                                assert(s[a] == before[a] && s[b] == before[b]);
                            }
                        }
                    }
                }
                let id = run_id.clone();
                records.push(EvalRunRecord { run_id: id, state: EvalRunState::Pending, started_at });
                assert(records@.drop_last() =~= before);
            },
        }
        self.records = records;
        run_id
    }

    /// Marks a known run as running; an unknown id changes nothing.
    pub fn set_running(&mut self, run_id: &str)
        ensures
            old(self)@.contains_key(run_id@) ==> final(self)@ == old(self)@.insert(
                run_id@,
                with_state(old(self)@[run_id@], EvalRunState::Running),
            ),
            !old(self)@.contains_key(run_id@) ==> final(self)@ == old(self)@,
    {
        self.set_state(run_id, EvalRunState::Running);
    }

    /// Records the report of a known run that finished.
    pub fn set_completed(&mut self, run_id: &str, report: EvalReportDto)
        ensures
            old(self)@.contains_key(run_id@) ==> final(self)@ == old(self)@.insert(
                run_id@,
                with_state(old(self)@[run_id@], EvalRunState::Completed { report }),
            ),
            !old(self)@.contains_key(run_id@) ==> final(self)@ == old(self)@,
    {
        self.set_state(run_id, EvalRunState::Completed { report });
    }

    /// Records the error of a known run that failed.
    pub fn set_failed(&mut self, run_id: &str, error: String)
        ensures
            old(self)@.contains_key(run_id@) ==> final(self)@ == old(self)@.insert(
                run_id@,
                with_state(old(self)@[run_id@], EvalRunState::Failed { error }),
            ),
            !old(self)@.contains_key(run_id@) ==> final(self)@ == old(self)@,
    {
        self.set_state(run_id, EvalRunState::Failed { error });
    }

    /// The record of a run, if there is one by that id.
    pub fn get(&self, run_id: &str) -> (r: Option<&EvalRunRecord>)
        ensures
            self@.contains_key(run_id@) ==> (r matches Some(x) && x.run_id@ == run_id@ && entry_of(*x) == self@[run_id@]),
            !self@.contains_key(run_id@) ==> r is None,
    {
        proof {
            use_type_invariant(self);
            lemma_records_map(self.records@);
        }
        match find_in(&self.records, run_id) {
            Some(i) => {
                proof {
                    lemma_record_index(self.records@, run_id@);
                    assert(self@[self.records@[i as int].run_id@] == entry_of(self.records@[i as int]));
                }
                Some(&self.records[i])
            },
            None => None,
        }
    }
}

/// A run that was just started reads as pending; after it is marked running,
/// completed or failed, it reads as such, and other runs are unchanged.
pub proof fn law_run_lifecycle(m: Map<Seq<char>, RunEntry>, id: Seq<char>, other: Seq<char>, started_at: u64, s: EvalRunState)
    requires
        id != other,
    ensures
        ({
            let m1 = m.insert(id, RunEntry { state: EvalRunState::Pending, started_at });
            let m2 = m1.insert(id, with_state(m1[id], s));
            &&& m1[id].state == EvalRunState::Pending
            &&& m2[id].state == s
            &&& m2[id].started_at == started_at
            &&& m2.contains_key(other) == m.contains_key(other)
            &&& m.contains_key(other) ==> m2[other] == m[other]
        }),
{
}

} // verus!
