use vstd::prelude::*;
use vstd::seq_lib::group_to_multiset_ensures;
use vstd::multiset::group_multiset_axioms;
use crate::error::GenesisError;
use crate::models::ProjectQuery;
use crate::models::ProjectRecord;
use crate::models::ProjectUpdate;

verus! {

/// No two records share a project id.
pub open spec fn ids_unique(s: Seq<ProjectRecord>) -> bool {
    forall|i: int, j: int|
        0 <= i < j < s.len() ==> #[trigger] s[i].project_id != #[trigger] s[j].project_id
}

/// A record satisfies the selection part of a query.
pub open spec fn matches_query(r: ProjectRecord, q: ProjectQuery) -> bool {
    &&& match q.project_id {
        Some(id) => r.project_id == id,
        None => true,
    }
    &&& match q.status {
        Some(s) => r.status == s,
        None => true,
    }
}

/// The records of `s` that satisfy the query, in store order.
pub open spec fn matching_of(s: Seq<ProjectRecord>, q: ProjectQuery) -> Seq<ProjectRecord>
    decreases s.len(),
{
    if s.len() == 0 {
        Seq::empty()
    } else {
        let rest = matching_of(s.drop_last(), q);
        if matches_query(s.last(), q) {
            rest.push(s.last())
        } else {
            rest
        }
    }
}

/// The values behind a sequence of record references.
pub open spec fn deref_seq(s: Seq<&ProjectRecord>) -> Seq<ProjectRecord> {
    s.map_values(|p: &ProjectRecord| *p)
}

/// Newest first: `created_at` never increases along the sequence.
pub open spec fn sorted_desc(s: Seq<ProjectRecord>) -> bool {
    forall|i: int, j: int|
        0 <= i < j < s.len() ==> #[trigger] s[i].created_at >= #[trigger] s[j].created_at
}

/// `after` is `before` with exactly the fields present in `u` replaced and
/// `updated_at` refreshed to `now`; everything else is untouched.
pub open spec fn applied_update(
    before: ProjectRecord,
    after: ProjectRecord,
    u: ProjectUpdate,
    now: u64,
) -> bool {
    &&& after.project_id == before.project_id
    &&& after.prompt == before.prompt
    &&& after.created_at == before.created_at
    &&& after.backend == before.backend
    &&& after.updated_at == now
    &&& after.status == match u.status {
        Some(s) => s,
        None => before.status,
    }
    &&& after.files == match u.files {
        Some(f) => f,
        None => before.files,
    }
    &&& after.output == match u.output {
        Some(o) => o,
        None => before.output,
    }
    &&& after.metadata == match u.metadata {
        Some(m) => Some(m),
        None => before.metadata,
    }
}

/// Where the page of a query starts, out of `total` matching records: the
/// skip, capped at the end.
pub open spec fn page_start(q: ProjectQuery, total: int) -> int {
    match q.skip {
        Some(s) => if s as int >= total {
            total
        } else {
            s as int
        },
        None => 0,
    }
}

/// How many records the page of a query holds, out of `total` matching ones:
/// what is left after the skip, capped by a positive limit.
pub open spec fn page_len(q: ProjectQuery, total: int) -> int {
    let avail = total - page_start(q, total);
    match q.limit {
        Some(l) => if 0 < l < avail {
            l as int
        } else {
            avail
        },
        None => avail,
    }
}

/// The system of record for jobs: an ordered collection of project records
/// with unique ids, supporting create, point lookup, partial update, ordered
/// listing and deletion — each atomic per call.
#[derive(Debug)]
pub struct JobStore {
    pub records: Vec<ProjectRecord>,
}

impl JobStore {
    /// Well-formed: project ids are unique.
    pub open spec fn wf(&self) -> bool {
        ids_unique(self.records@)
    }

    /// Some record carries this id.
    pub open spec fn has_id(&self, id: u64) -> bool {
        exists|i: int|
            0 <= i < self.records@.len() && #[trigger] self.records@[i].project_id == id
    }

    /// An empty store.
    pub fn new() -> (s: JobStore)
        ensures
            s.wf(),
            s.records@.len() == 0,
    {
        JobStore { records: Vec::new() }
    }

    /// The position of the record with this id, if any.
    fn find_index(&self, id: u64) -> (r: Option<usize>)
        ensures
            match r {
                Some(i) => i < self.records@.len() && self.records@[i as int].project_id == id,
                None => !self.has_id(id),
            },
    {
        let mut i: usize = 0;
        while i < self.records.len()
            invariant
                i <= self.records@.len(),
                forall|j: int| 0 <= j < i ==> #[trigger] self.records@[j].project_id != id,
            decreases self.records@.len() - i,
        {
            if self.records[i].project_id == id {
                return Some(i);
            }
            i += 1;
        }
        None
    }

    /// Appends a record; refused if the id is already taken, leaving the
    /// store unchanged.
    pub fn create_project(&mut self, project: ProjectRecord) -> (r: Result<(), GenesisError>)
        requires
            old(self).wf(),
        ensures
            final(self).wf(),
            old(self).has_id(project.project_id) ==> (r matches Err(GenesisError::DatabaseError(m))
                && m@ == "duplicate project id"@) && *final(self) == *old(self),
            !old(self).has_id(project.project_id) ==> r is Ok && final(self).records@ == old(
                self,
            ).records@.push(project),
    {
        match self.find_index(project.project_id) {
            Some(_) => Err(GenesisError::DatabaseError("duplicate project id".to_owned())),
            None => {
                self.records.push(project);
                Ok(())
            },
        }
    }

    /// The record with this id, if any.
    pub fn get_project(&self, project_id: u64) -> (r: Option<&ProjectRecord>)
        ensures
            r is Some <==> self.has_id(project_id),
            r matches Some(p) ==> p.project_id == project_id && self.records@.contains(*p),
    {
        match self.find_index(project_id) {
            Some(i) => {
                let p = &self.records[i];
                proof {
                    assert(self.records@[i as int] == *p);
                }
                Some(p)
            },
            None => None,
        }
    }

    /// Applies exactly the fields present in the partial update to the record
    /// with this id and refreshes its `updated_at`; every other record and
    /// every other field is untouched. Fails only on an unknown id.
    pub fn update_project(&mut self, project_id: u64, update: ProjectUpdate, now: u64) -> (r:
        Result<(), GenesisError>)
        requires
            old(self).wf(),
        ensures
            final(self).wf(),
            r is Ok <==> old(self).has_id(project_id),
            !old(self).has_id(project_id) ==> (r matches Err(GenesisError::NotFoundError(m))
                && m@ == "Project not found"@) && *final(self) == *old(self),
            old(self).has_id(project_id) ==> final(self).records@.len() == old(
                self,
            ).records@.len() && exists|i: int|
                {
                    &&& 0 <= i < old(self).records@.len()
                    &&& old(self).records@[i].project_id == project_id
                    &&& #[trigger] applied_update(
                        old(self).records@[i],
                        final(self).records@[i],
                        update,
                        now,
                    )
                    &&& forall|j: int|
                        0 <= j < old(self).records@.len() && j != i ==> final(self).records@[j]
                            == old(self).records@[j]
                },
    {
        let found = self.find_index(project_id);
        match found {
            None => Err(GenesisError::NotFoundError("Project not found".to_owned())),
            Some(i) => {
                let ghost pre = self.records@;
                let ProjectUpdate { status, files, output, metadata } = update;
                match status {
                    Some(s) => self.records[i].status = s,
                    None => {},
                }
                match files {
                    Some(f) => self.records[i].files = f,
                    None => {},
                }
                match output {
                    Some(o) => self.records[i].output = o,
                    None => {},
                }
                match metadata {
                    Some(m) => self.records[i].metadata = Some(m),
                    None => {},
                }
                self.records[i].updated_at = now;
                proof {
                    assert forall|j: int|
                        0 <= j < pre.len() && j != i implies final(self).records@[j] == pre[j] by {}
                    assert(applied_update(pre[i as int], final(self).records@[i as int], update, now));
                }
                Ok(())
            },
        }
    }

    /// Removes the record with this id; reports whether one was removed.
    pub fn delete_project(&mut self, project_id: u64) -> (found: bool)
        requires
            old(self).wf(),
        ensures
            final(self).wf(),
            found <==> old(self).has_id(project_id),
            !found ==> *final(self) == *old(self),
            found ==> exists|i: int|
                {
                    &&& 0 <= i < old(self).records@.len()
                    &&& old(self).records@[i].project_id == project_id
                    &&& final(self).records@ == #[trigger] old(self).records@.remove(i)
                },
    {
        match self.find_index(project_id) {
            None => false,
            Some(i) => {
                self.records.remove(i);
                true
            },
        }
    }

    /// The records matching the query, newest first (`created_at`
    /// descending), after skipping `skip` records and keeping at most
    /// `limit` of them (a missing or non-positive limit keeps all). With no
    /// skip and no cutting limit, the page holds exactly the matching
    /// records, whatever order they were inserted in.
    pub fn list_projects(&self, query: &ProjectQuery) -> (r: Vec<&ProjectRecord>)
        ensures
            sorted_desc(deref_seq(r@)),
            forall|k: int|
                0 <= k < r@.len() ==> matches_query(*(#[trigger] r@[k]), *query)
                    && self.records@.contains(*r@[k]),
            r@.len() == page_len(*query, matching_of(self.records@, *query).len() as int),
            (match query.skip {
                Some(s) => s == 0,
                None => true,
            }) && r@.len() == matching_of(self.records@, *query).len() ==> deref_seq(
                r@,
            ).to_multiset() == matching_of(self.records@, *query).to_multiset(),
            exists|all: Seq<ProjectRecord>|
                {
                    &&& #[trigger] all.to_multiset() == matching_of(
                        self.records@,
                        *query,
                    ).to_multiset()
                    &&& sorted_desc(all)
                    &&& deref_seq(r@) == all.subrange(
                        page_start(*query, all.len() as int),
                        page_start(*query, all.len() as int) + page_len(*query, all.len() as int),
                    )
                },
    {
        broadcast use group_to_multiset_ensures, group_multiset_axioms;

        let mut m: Vec<&ProjectRecord> = Vec::new();
        let mut i: usize = 0;
        while i < self.records.len()
            invariant
                i <= self.records@.len(),
                deref_seq(m@) == matching_of(self.records@.take(i as int), *query),
                forall|k: int|
                    0 <= k < m@.len() ==> matches_query(*(#[trigger] m@[k]), *query)
                        && self.records@.contains(*m@[k]),
            decreases self.records@.len() - i,
        {
            let ghost pre = m@;
            let matched = (match query.project_id {
                Some(id) => self.records[i].project_id == id,
                None => true,
            }) && (match query.status {
                Some(s) => self.records[i].status == s,
                None => true,
            });
            if matched {
                let p = &self.records[i];
                m.push(p);
            }
            proof {
                let full = self.records@;
                assert(full.take(i as int + 1).drop_last() =~= full.take(i as int));
                assert(full.take(i as int + 1).last() == full[i as int]);
                assert(matched == matches_query(full[i as int], *query));
                if matched {
                    assert(deref_seq(m@) =~= deref_seq(pre).push(full[i as int]));
                    assert(matching_of(full.take(i as int + 1), *query) =~= matching_of(
                        full.take(i as int),
                        *query,
                    ).push(full[i as int]));
                } else {
                    assert(matching_of(full.take(i as int + 1), *query) =~= matching_of(
                        full.take(i as int),
                        *query,
                    ));
                }
                assert(deref_seq(m@) =~= matching_of(full.take(i as int + 1), *query));
            }
            i += 1;
        }
        proof {
            assert(self.records@.take(self.records@.len() as int) =~= self.records@);
        }
        let ghost m0 = m@;

        // Selection sort, repeatedly moving the newest remaining record over.
        let mut temp = m;
        let mut out: Vec<&ProjectRecord> = Vec::new();
        while temp.len() > 0
            invariant
                deref_seq(out@).to_multiset().add(deref_seq(temp@).to_multiset()) == deref_seq(
                    m0,
                ).to_multiset(),
                out@.len() + temp@.len() == m0.len(),
                sorted_desc(deref_seq(out@)),
                forall|a: int, b: int|
                    0 <= a < out@.len() && 0 <= b < temp@.len() ==> (*#[trigger] out@[a]).created_at
                        >= (*#[trigger] temp@[b]).created_at,
                forall|k: int|
                    0 <= k < out@.len() ==> matches_query(*(#[trigger] out@[k]), *query)
                        && self.records@.contains(*out@[k]),
                forall|k: int|
                    0 <= k < temp@.len() ==> matches_query(*(#[trigger] temp@[k]), *query)
                        && self.records@.contains(*temp@[k]),
            decreases temp@.len(),
        {
            let mut best: usize = 0;
            let mut j: usize = 1;
            while j < temp.len()
                invariant
                    temp@.len() > 0,
                    best < temp@.len(),
                    j <= temp@.len(),
                    forall|k: int|
                        0 <= k < j ==> (*#[trigger] temp@[k]).created_at <= (*temp@[best as int]).created_at,
                decreases temp@.len() - j,
            {
                if temp[j].created_at > temp[best].created_at {
                    best = j;
                }
                j += 1;
            }
            let ghost temp_pre = temp@;
            let ghost out_pre = out@;
            let e = temp.remove(best);
            out.push(e);
            proof {
                assert(deref_seq(temp_pre)[best as int] == *e);
                assert(deref_seq(temp_pre).contains(*e));
                assert(deref_seq(temp@) =~= deref_seq(temp_pre).remove(best as int));
                assert(deref_seq(out@) =~= deref_seq(out_pre).push(*e));
                deref_seq(out_pre).to_multiset_ensures();
                deref_seq(temp_pre).to_multiset_ensures();
                assert(deref_seq(out_pre).push(*e).to_multiset() =~= deref_seq(
                    out_pre,
                ).to_multiset().insert(*e));
                assert(deref_seq(temp_pre).remove(best as int).to_multiset() =~= deref_seq(
                    temp_pre,
                ).to_multiset().remove(deref_seq(temp_pre)[best as int]));
                assert(deref_seq(out@).to_multiset() =~= deref_seq(out_pre).to_multiset().insert(
                    *e,
                ));
                assert(deref_seq(temp@).to_multiset() =~= deref_seq(temp_pre).to_multiset().remove(
                    *e,
                ));
                assert(deref_seq(out@).to_multiset().add(deref_seq(temp@).to_multiset())
                    =~= deref_seq(out_pre).to_multiset().add(deref_seq(temp_pre).to_multiset()));
            }
        }
        proof {
            assert(deref_seq(temp@) =~= Seq::<ProjectRecord>::empty());
            assert(deref_seq(out@).to_multiset() =~= deref_seq(m0).to_multiset());
            assert(deref_seq(out@).to_multiset().len() == deref_seq(m0).to_multiset().len());
            assert(out@.len() == matching_of(self.records@, *query).len());
        }

        // Pagination: skip, then cap by a positive limit.
        let total = out.len();
        let start: usize = match query.skip {
            Some(s) => if s >= total as u64 {
                total
            } else {
                s as usize
            },
            None => 0,
        };
        let avail = total - start;
        let take_n: usize = match query.limit {
            Some(l) => if 0 < l && (l as u64) < avail as u64 {
                l as usize
            } else {
                avail
            },
            None => avail,
        };
        let mut r: Vec<&ProjectRecord> = Vec::new();
        let end = start + take_n;
        let mut k: usize = start;
        while k < end
            invariant
                end == start + take_n,
                end <= out@.len(),
                start <= k <= end,
                r@ == out@.subrange(start as int, k as int),
            decreases end - k,
        {
            let p = out[k];
            r.push(p);
            proof {
                assert(out@.subrange(start as int, k as int + 1) =~= out@.subrange(
                    start as int,
                    k as int,
                ).push(out@[k as int]));
            }
            k += 1;
        }
        proof {
            assert(forall|k: int| 0 <= k < r@.len() ==> #[trigger] r@[k] == out@[start as int + k]);
            assert forall|a: int, b: int| 0 <= a < b < deref_seq(r@).len() implies #[trigger] deref_seq(
                r@,
            )[a].created_at >= #[trigger] deref_seq(r@)[b].created_at by {
                assert(deref_seq(r@)[a] == *r@[a]);
                assert(deref_seq(r@)[b] == *r@[b]);
                assert(deref_seq(out@)[start as int + a] == *out@[start as int + a]);
                assert(deref_seq(out@)[start as int + b] == *out@[start as int + b]);
            }
            assert(sorted_desc(deref_seq(r@)));
            if (match query.skip {
                Some(s) => s == 0,
                None => true,
            }) && r@.len() == matching_of(self.records@, *query).len() {
                assert(r@ =~= out@);
                assert(deref_seq(r@) =~= deref_seq(out@));
            }
            // The sorted arrangement behind the page, as the witness.
            let all = deref_seq(out@);
            assert(all.len() == matching_of(self.records@, *query).len());
            assert(start as int == page_start(*query, all.len() as int));
            assert(take_n as int == page_len(*query, all.len() as int));
            assert(deref_seq(r@) =~= all.subrange(start as int, start as int + take_n as int));
        }
        r
    }

    /// How many records sit in each status, in lifecycle order:
    /// `(pending, generating, completed, failed)`.
    pub fn get_project_stats(&self) -> (r: (usize, usize, usize, usize))
        ensures
            r.0 == status_count(self.records@, crate::models::ProjectStatus::Pending),
            r.1 == status_count(self.records@, crate::models::ProjectStatus::Generating),
            r.2 == status_count(self.records@, crate::models::ProjectStatus::Completed),
            r.3 == status_count(self.records@, crate::models::ProjectStatus::Failed),
    {
        let mut pending: usize = 0;
        let mut generating: usize = 0;
        let mut completed: usize = 0;
        let mut failed: usize = 0;
        let mut i: usize = 0;
        while i < self.records.len()
            invariant
                i <= self.records@.len(),
                pending == status_count(self.records@.take(i as int), crate::models::ProjectStatus::Pending),
                generating == status_count(
                    self.records@.take(i as int),
                    crate::models::ProjectStatus::Generating,
                ),
                completed == status_count(
                    self.records@.take(i as int),
                    crate::models::ProjectStatus::Completed,
                ),
                failed == status_count(self.records@.take(i as int), crate::models::ProjectStatus::Failed),
            decreases self.records@.len() - i,
        {
            proof {
                assert(self.records@.take(i as int + 1).drop_last() =~= self.records@.take(i as int));
                assert(self.records@.take(i as int + 1).last() == self.records@[i as int]);
                lemma_status_count_le(self.records@.take(i as int), crate::models::ProjectStatus::Pending);
                lemma_status_count_le(self.records@.take(i as int), crate::models::ProjectStatus::Generating);
                lemma_status_count_le(self.records@.take(i as int), crate::models::ProjectStatus::Completed);
                lemma_status_count_le(self.records@.take(i as int), crate::models::ProjectStatus::Failed);
            }
            match self.records[i].status {
                crate::models::ProjectStatus::Pending => pending += 1,
                crate::models::ProjectStatus::Generating => generating += 1,
                crate::models::ProjectStatus::Completed => completed += 1,
                crate::models::ProjectStatus::Failed => failed += 1,
            }
            i += 1;
        }
        proof {
            assert(self.records@.take(self.records@.len() as int) =~= self.records@);
        }
        (pending, generating, completed, failed)
    }
}

/// How many records of `s` sit in status `st`.
pub open spec fn status_count(s: Seq<ProjectRecord>, st: crate::models::ProjectStatus) -> int
    decreases s.len(),
{
    if s.len() == 0 {
        0
    } else {
        status_count(s.drop_last(), st) + if s.last().status == st {
            1int
        } else {
            0int
        }
    }
}

proof fn lemma_status_count_le(s: Seq<ProjectRecord>, st: crate::models::ProjectStatus)
    ensures
        0 <= status_count(s, st) <= s.len(),
    decreases s.len(),
{
    if s.len() > 0 {
        lemma_status_count_le(s.drop_last(), st);
    }
}

} // verus!
