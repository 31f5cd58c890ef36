//! Session-scoped registry of the canonical artifacts the shells share. Each
//! logical key has exactly one artifact, addressed by an id that is never
//! reused; re-running the work behind a key updates that instance in place
//! (same id, bumped revision). Ordering follows an internal touch sequence.

use vstd::prelude::*;
use crate::strs;

verus! {

/// Stable, session-scoped identity handed out by [`ArtifactStore`].
#[derive(Clone, Copy, PartialEq, Eq, Structural, Hash, Debug)]
pub struct ArtifactId(u64);

/// What kind of work product an artifact represents.
#[derive(Clone, Copy, PartialEq, Eq, Structural, Debug)]
pub enum ArtifactKind {
    StrategyDraft,
    BacktestResult,
    Comparison,
    Connection,
    Validation,
}

/// Honest lifecycle of an artifact.
#[derive(Clone, PartialEq, Eq, Debug)]
pub enum ArtifactStatus {
    Building,
    Ready,
    Stale,
    Failed { reason: String },
}

/// The lifecycle of an artifact as plain values.
pub enum StatusModel {
    Building,
    Ready,
    Stale,
    Failed(Seq<char>),
}

/// The lifecycle model of a status.
pub open spec fn status_model(s: ArtifactStatus) -> StatusModel {
    match s {
        ArtifactStatus::Building => StatusModel::Building,
        ArtifactStatus::Ready => StatusModel::Ready,
        ArtifactStatus::Stale => StatusModel::Stale,
        ArtifactStatus::Failed { reason } => StatusModel::Failed(reason@),
    }
}

/// One canonical work product. `seq` orders the timeline.
#[derive(Clone, PartialEq, Eq, Debug)]
pub struct Artifact {
    pub id: ArtifactId,
    pub kind: ArtifactKind,
    pub title: String,
    pub status: ArtifactStatus,
    /// Bumped every time the work behind the artifact is re-run.
    pub revision: u32,
    seq: u64,
}

/// An artifact as plain values.
pub struct ArtifactModel {
    pub id: ArtifactId,
    pub kind: ArtifactKind,
    pub title: Seq<char>,
    pub status: StatusModel,
    pub revision: u32,
    /// The touch sequence number: larger is more recent.
    pub seq: u64,
}

/// The touch sequence number of an artifact.
pub closed spec fn seq_of(a: Artifact) -> u64 {
    a.seq
}

/// The model of an artifact.
pub closed spec fn model_of(a: Artifact) -> ArtifactModel {
    ArtifactModel {
        id: a.id,
        kind: a.kind,
        title: a.title@,
        status: status_model(a.status),
        revision: a.revision,
        seq: seq_of(a),
    }
}

impl Artifact {
    /// The artifact's id.
    pub fn id(&self) -> (r: ArtifactId)
        ensures
            r == model_of(*self).id,
    {
        self.id
    }

    /// What kind of work product the artifact is.
    pub fn kind(&self) -> (r: ArtifactKind)
        ensures
            r == model_of(*self).kind,
    {
        self.kind
    }

    /// The artifact's title.
    pub fn title(&self) -> (r: &str)
        ensures
            r@ == model_of(*self).title,
    {
        self.title.as_str()
    }

    /// The artifact's lifecycle status.
    pub fn status(&self) -> (r: &ArtifactStatus)
        ensures
            status_model(*r) == model_of(*self).status,
    {
        &self.status
    }

    /// How many times the work behind the artifact has been run.
    pub fn revision(&self) -> (r: u32)
        ensures
            r == model_of(*self).revision,
    {
        self.revision
    }

    /// Whether the artifact carries content a shell can act on: only
    /// `Ready`/`Stale` qualify.
    pub fn is_actionable(&self) -> (r: bool)
        ensures
            r == (model_of(*self).status is Ready || model_of(*self).status is Stale),
    {
        match self.status {
            ArtifactStatus::Ready | ArtifactStatus::Stale => true,
            _ => false,
        }
    }
}

/// Position `k` of `ms` is the first one carrying `id`.
pub open spec fn first_with(ms: Seq<ArtifactModel>, id: ArtifactId, k: int) -> bool {
    &&& 0 <= k < ms.len()
    &&& ms[k].id == id
    &&& forall|j: int| 0 <= j < k ==> ms[j].id != id
}

/// The first artifact of `ms` carrying `id`, if any.
pub open spec fn lookup_in(ms: Seq<ArtifactModel>, id: ArtifactId) -> Option<ArtifactModel> {
    if exists|k: int| 0 <= k < ms.len() && ms[k].id == id {
        Some(ms[choose|k: int| first_with(ms, id, k)])
    } else {
        None
    }
}

/// The number an id carries.
pub closed spec fn id_number(id: ArtifactId) -> nat {
    id.0 as nat
}

/// The model `m` is that of some entry of `r`.
pub open spec fn appears(r: Seq<&Artifact>, m: ArtifactModel) -> bool {
    exists|i: int| 0 <= i < r.len() && model_of(*r[i]) == m
}

/// `r + 1`, saturating at `u32::MAX`.
pub open spec fn bumped(r: u32) -> u32 {
    if r == u32::MAX { r } else { (r + 1) as u32 }
}

/// The registry: one canonical artifact per logical key. `keys[i]` is the
/// logical key of `artifacts[i]`.
pub struct ArtifactStore {
    artifacts: Vec<Artifact>,
    keys: Vec<String>,
    next_id: u64,
    next_seq: u64,
}

impl ArtifactStore {
    /// The store's internal consistency: one artifact per key, ids issued in
    /// order and never dropped (the artifact at position `i` carries id `i`,
    /// and `next_id` counts them), touch numbers distinct and below
    /// `next_seq`.
    pub closed spec fn wf(self) -> bool {
        &&& self.keys@.len() == self.artifacts@.len()
        &&& forall|i: int, j: int|
            0 <= i < self.keys@.len() && 0 <= j < self.keys@.len() && i != j ==> self.keys@[i]@ != self.keys@[j]@
        &&& forall|i: int, j: int|
            0 <= i < self.artifacts@.len() && 0 <= j < self.artifacts@.len() && i != j
                ==> self.artifacts@[i].id != self.artifacts@[j].id
        &&& forall|i: int, j: int|
            0 <= i < self.artifacts@.len() && 0 <= j < self.artifacts@.len() && i != j
                ==> self.artifacts@[i].seq != self.artifacts@[j].seq
        &&& forall|i: int| 0 <= i < self.artifacts@.len() ==> (#[trigger] self.artifacts@[i]).id.0 < self.next_id
        &&& forall|i: int| 0 <= i < self.artifacts@.len() ==> (#[trigger] self.artifacts@[i]).seq < self.next_seq
        &&& forall|i: int| 0 <= i < self.artifacts@.len() ==> (#[trigger] self.artifacts@[i]).id.0 == i
        &&& self.next_id == self.artifacts@.len()
    }

    /// Whether the id and touch counters can still advance.
    pub open spec fn has_room(self) -> bool {
        self.id_counter() < u64::MAX && self.fresh_seq() < u64::MAX
    }

    /// The artifacts, in creation order, as plain values.
    pub closed spec fn models(self) -> Seq<ArtifactModel> {
        self.artifacts@.map_values(|a: Artifact| model_of(a))
    }

    /// The logical key of the artifact at position `i`.
    pub closed spec fn key_at(self, i: int) -> Seq<char> {
        self.keys@[i]@
    }

    /// The id the next new artifact receives.
    pub closed spec fn fresh_id(self) -> ArtifactId {
        ArtifactId(self.next_id)
    }

    /// The touch number the next touch receives.
    pub closed spec fn fresh_seq(self) -> u64 {
        self.next_seq
    }

    /// The value of the id counter.
    pub closed spec fn id_counter(self) -> u64 {
        self.next_id
    }

    /// Whether this store has handed `id` out: ids are numbered from 0 in the
    /// order `begin` issues them.
    pub open spec fn issued(self, id: ArtifactId) -> bool {
        id_number(id) < self.id_counter()
    }

    /// Whether some artifact of the store carries `id`.
    pub open spec fn holds(self, id: ArtifactId) -> bool {
        exists|k: int| 0 <= k < self.models().len() && self.models()[k].id == id
    }

    /// What resolving `id` gives: the first artifact carrying it, if any.
    pub open spec fn lookup(self, id: ArtifactId) -> Option<ArtifactModel> {
        lookup_in(self.models(), id)
    }

    /// The artifact carrying `id` was touched after every other one.
    pub open spec fn is_newest(self, id: ArtifactId) -> bool {
        exists|k: int| {
            &&& 0 <= k < self.models().len()
            &&& self.models()[k].id == id
            &&& forall|j: int| 0 <= j < self.models().len() && j != k ==> self.models()[j].seq < self.models()[k].seq
        }
    }

    /// An empty store.
    pub fn new() -> (s: Self)
        ensures
            s.wf(),
            s.has_room(),
            s.models().len() == 0,
            s.id_counter() == 0,
            s.fresh_seq() == 0,
    {
        ArtifactStore { artifacts: Vec::new(), keys: Vec::new(), next_id: 0, next_seq: 0 }
    }

    fn bump_seq(&mut self) -> (seq: u64)
        requires
            old(self).next_seq < u64::MAX,
        ensures
            seq == old(self).next_seq,
            final(self).next_seq == old(self).next_seq + 1,
            final(self).artifacts == old(self).artifacts,
            final(self).keys == old(self).keys,
            final(self).next_id == old(self).next_id,
    {
        let seq = self.next_seq;
        self.next_seq = self.next_seq + 1;
        seq
    }

    fn index_of(&self, id: ArtifactId) -> (r: Option<usize>)
        ensures
            match r {
                Some(i) => i < self.artifacts@.len() && self.artifacts@[i as int].id == id
                    && forall|j: int| 0 <= j < i ==> self.artifacts@[j].id != id,
                None => forall|j: int| 0 <= j < self.artifacts@.len() ==> self.artifacts@[j].id != id,
            },
    {
        let mut i: usize = 0;
        while i < self.artifacts.len()
            invariant
                i <= self.artifacts@.len(),
                forall|j: int| 0 <= j < i ==> self.artifacts@[j].id != id,
            decreases self.artifacts@.len() - i,
        {
            if self.artifacts[i].id == id {
                return Some(i);
            }
            i = i + 1;
        }
        None
    }

    fn key_index(&self, key: &str) -> (r: Option<usize>)
        requires
            self.keys@.len() == self.artifacts@.len(),
        ensures
            match r {
                Some(i) => i < self.keys@.len() && self.keys@[i as int]@ == key@,
                None => forall|j: int| 0 <= j < self.keys@.len() ==> self.keys@[j]@ != key@,
            },
    {
        let mut i: usize = 0;
        while i < self.keys.len()
            invariant
                i <= self.keys@.len(),
                forall|j: int| 0 <= j < i ==> self.keys@[j]@ != key@,
            decreases self.keys@.len() - i,
        {
            if strs::eq_str(self.keys[i].as_str(), key) {
                return Some(i);
            }
            i = i + 1;
        }
        None
    }

    /// Start (or restart) the work behind `logical_key`. The first call for a
    /// key creates the artifact at revision 1 with a fresh id; later calls keep
    /// its id and position, bump the revision, and reset it to `Building`.
    /// Either way the artifact becomes the most recently touched one, and what
    /// any other id resolves to is unchanged.
    pub fn begin(&mut self, logical_key: &str, kind: ArtifactKind, title: &str) -> (id: ArtifactId)
        requires
            old(self).wf(),
            old(self).has_room(),
        ensures
            final(self).wf(),
            final(self).fresh_seq() == old(self).fresh_seq() + 1,
            final(self).is_newest(id),
            forall|x: ArtifactId| x != id ==> final(self).lookup(x) == old(self).lookup(x),
            forall|i: int| 0 <= i < old(self).models().len() ==> final(self).key_at(i) == old(self).key_at(i),
            (exists|k: int| 0 <= k < old(self).models().len() && old(self).key_at(k) == logical_key@) ==> {
                &&& final(self).id_counter() == old(self).id_counter()
                &&& final(self).models().len() == old(self).models().len()
                &&& old(self).lookup(id) is Some
                &&& final(self).lookup(id) == Some(ArtifactModel {
                    id,
                    kind,
                    title: title@,
                    status: StatusModel::Building,
                    revision: bumped(old(self).lookup(id).unwrap().revision),
                    seq: old(self).fresh_seq(),
                })
                &&& exists|k: int| {
                    &&& 0 <= k < old(self).models().len()
                    &&& old(self).key_at(k) == logical_key@
                    &&& id == old(self).models()[k].id
                    &&& final(self).models() == old(self).models().update(k, ArtifactModel {
                        id,
                        kind,
                        title: title@,
                        status: StatusModel::Building,
                        revision: bumped(old(self).models()[k].revision),
                        seq: old(self).fresh_seq(),
                    })
                }
            },
            !(exists|k: int| 0 <= k < old(self).models().len() && old(self).key_at(k) == logical_key@) ==> {
                &&& id == old(self).fresh_id()
                &&& !old(self).issued(id)
                &&& forall|x: ArtifactId| #[trigger] final(self).issued(x) <==> (old(self).issued(x) || x == id)
                &&& old(self).lookup(id) is None
                &&& final(self).id_counter() == old(self).id_counter() + 1
                &&& final(self).key_at(old(self).models().len() as int) == logical_key@
                &&& final(self).lookup(id) == Some(ArtifactModel {
                    id,
                    kind,
                    title: title@,
                    status: StatusModel::Building,
                    revision: 1,
                    seq: old(self).fresh_seq(),
                })
                &&& final(self).models() == old(self).models().push(ArtifactModel {
                    id,
                    kind,
                    title: title@,
                    status: StatusModel::Building,
                    revision: 1,
                    seq: old(self).fresh_seq(),
                })
            },
    {
        let seq = self.bump_seq();
        let found = self.key_index(logical_key);
        let ghost old_models = self.artifacts@.map_values(|a: Artifact| model_of(a));
        if let Some(i) = found {
            assert(old(self).key_at(i as int) == logical_key@);
            let old_rev = self.artifacts[i].revision;
            let id = self.artifacts[i].id;
            let revision = if old_rev == u32::MAX { old_rev } else { old_rev + 1 };
            let updated = Artifact {
                id,
                kind,
                title: strs::own(title),
                status: ArtifactStatus::Building,
                revision,
                seq,
            };
            self.artifacts.set(i, updated);
            let ghost m = ArtifactModel {
                id,
                kind,
                title: title@,
                status: StatusModel::Building,
                revision: bumped(old_models[i as int].revision),
                seq,
            };
            proof {
                assert(self.artifacts@.map_values(|a: Artifact| model_of(a)) =~= old_models.update(i as int, m));
                assert(old_models == old(self).models());
                lemma_lookup_at(*old(self), i as int);
                lemma_lookup_update(*old(self), *self, i as int, m);
                assert forall|j: int| 0 <= j < self.models().len() && j != i implies self.models()[j].seq < self.models()[i as int].seq by {
                    assert(self.artifacts@[j] == old(self).artifacts@[j]);
                }
                lemma_newest(*self, i as int);
            }
            return id;
        }
        let id = ArtifactId(self.next_id);
        self.next_id = self.next_id + 1;
        self.keys.push(strs::own(logical_key));
        self.artifacts.push(Artifact {
            id,
            kind,
            title: strs::own(title),
            status: ArtifactStatus::Building,
            revision: 1,
            seq,
        });
        let ghost m = ArtifactModel {
            id,
            kind,
            title: title@,
            status: StatusModel::Building,
            revision: 1,
            seq,
        };
        proof {
            assert(self.artifacts@.map_values(|a: Artifact| model_of(a)) =~= old_models.push(m));
            assert(old_models == old(self).models());
            assert(!old(self).holds(id)) by {
                if old(self).holds(id) {
                    let k = choose|k: int| 0 <= k < old(self).models().len() && old(self).models()[k].id == id;
                    assert(old(self).artifacts@[k].id.0 < old(self).next_id);
                }
            }
            lemma_lookup_push(*old(self), *self, m);
            let last = old(self).models().len() as int;
            assert forall|j: int| 0 <= j < self.models().len() && j != last implies self.models()[j].seq < self.models()[last].seq by {
                assert(self.artifacts@[j] == old(self).artifacts@[j]);
            }
            lemma_newest(*self, last);
        }
        id
    }

    fn set_status(&mut self, id: ArtifactId, status: ArtifactStatus)
        requires
            old(self).wf(),
            old(self).has_room(),
        ensures
            final(self).wf(),
            final(self).fresh_seq() == old(self).fresh_seq() + 1,
            final(self).id_counter() == old(self).id_counter(),
            forall|i: int| 0 <= i < old(self).models().len() ==> final(self).key_at(i) == old(self).key_at(i),
            final(self).models().len() == old(self).models().len(),
            forall|x: ArtifactId| x != id ==> final(self).lookup(x) == old(self).lookup(x),
            old(self).holds(id) ==> {
                &&& final(self).is_newest(id)
                &&& final(self).lookup(id) == Some(ArtifactModel {
                    status: status_model(status),
                    seq: old(self).fresh_seq(),
                    ..old(self).lookup(id).unwrap()
                })
                &&& exists|k: int| {
                    &&& 0 <= k < old(self).models().len()
                    &&& old(self).models()[k].id == id
                    &&& final(self).models() == old(self).models().update(k, ArtifactModel {
                        status: status_model(status),
                        seq: old(self).fresh_seq(),
                        ..old(self).models()[k]
                    })
                }
            },
            !old(self).holds(id) ==> final(self).models() == old(self).models(),
    {
        let seq = self.bump_seq();
        let ghost old_models = self.artifacts@.map_values(|a: Artifact| model_of(a));
        let ghost st = status_model(status);
        match self.index_of(id) {
            Some(i) => {
                let updated = Artifact {
                    id: self.artifacts[i].id,
                    kind: self.artifacts[i].kind,
                    title: self.artifacts[i].title.clone(),
                    status,
                    revision: self.artifacts[i].revision,
                    seq,
                };
                let ghost new_model = model_of(updated);
                assert(new_model == ArtifactModel { status: st, seq, ..old_models[i as int] });
                self.artifacts.set(i, updated);
                assert(self.artifacts@.map_values(|a: Artifact| model_of(a)) =~= old_models.update(i as int, new_model));
                assert(old_models[i as int].id == id);
                assert(old_models == old(self).models());
                assert(self.models() == old(self).models().update(i as int, ArtifactModel {
                    status: st,
                    seq: old(self).fresh_seq(),
                    ..old(self).models()[i as int]
                }));
                proof {
                    lemma_lookup_at(*old(self), i as int);
                    lemma_lookup_update(*old(self), *self, i as int, new_model);
                    assert forall|j: int| 0 <= j < self.models().len() && j != i implies self.models()[j].seq < self.models()[i as int].seq by {
                        assert(self.artifacts@[j] == old(self).artifacts@[j]);
                    }
                    lemma_newest(*self, i as int);
                    assert(new_model.id == id);
                }
            },
            None => {
                assert(self.artifacts@.map_values(|a: Artifact| model_of(a)) =~= old_models);
                assert(self.models() == old(self).models());
            },
        }
    }

    /// Mark a `Building` artifact's result as available; it becomes the most
    /// recently touched one. An unknown id only consumes a touch number.
    pub fn succeed(&mut self, id: ArtifactId)
        requires
            old(self).wf(),
            old(self).has_room(),
        ensures
            final(self).wf(),
            final(self).fresh_seq() == old(self).fresh_seq() + 1,
            final(self).id_counter() == old(self).id_counter(),
            forall|i: int| 0 <= i < old(self).models().len() ==> final(self).key_at(i) == old(self).key_at(i),
            final(self).models().len() == old(self).models().len(),
            forall|x: ArtifactId| x != id ==> final(self).lookup(x) == old(self).lookup(x),
            old(self).holds(id) ==> {
                &&& final(self).is_newest(id)
                &&& final(self).lookup(id) == Some(ArtifactModel {
                    status: StatusModel::Ready,
                    seq: old(self).fresh_seq(),
                    ..old(self).lookup(id).unwrap()
                })
                &&& exists|k: int| {
                    &&& 0 <= k < old(self).models().len()
                    &&& old(self).models()[k].id == id
                    &&& final(self).models() == old(self).models().update(k, ArtifactModel {
                        status: StatusModel::Ready,
                        seq: old(self).fresh_seq(),
                        ..old(self).models()[k]
                    })
                }
            },
            !old(self).holds(id) ==> final(self).models() == old(self).models(),
    {
        self.set_status(id, ArtifactStatus::Ready);
    }

    /// Mark the work behind an artifact as failed, with a user-facing reason;
    /// it becomes the most recently touched one. An unknown id only consumes a
    /// touch number.
    pub fn fail(&mut self, id: ArtifactId, reason: &str)
        requires
            old(self).wf(),
            old(self).has_room(),
        ensures
            final(self).wf(),
            final(self).fresh_seq() == old(self).fresh_seq() + 1,
            final(self).id_counter() == old(self).id_counter(),
            forall|i: int| 0 <= i < old(self).models().len() ==> final(self).key_at(i) == old(self).key_at(i),
            final(self).models().len() == old(self).models().len(),
            forall|x: ArtifactId| x != id ==> final(self).lookup(x) == old(self).lookup(x),
            old(self).holds(id) ==> {
                &&& final(self).is_newest(id)
                &&& final(self).lookup(id) == Some(ArtifactModel {
                    status: StatusModel::Failed(reason@),
                    seq: old(self).fresh_seq(),
                    ..old(self).lookup(id).unwrap()
                })
                &&& exists|k: int| {
                    &&& 0 <= k < old(self).models().len()
                    &&& old(self).models()[k].id == id
                    &&& final(self).models() == old(self).models().update(k, ArtifactModel {
                        status: StatusModel::Failed(reason@),
                        seq: old(self).fresh_seq(),
                        ..old(self).models()[k]
                    })
                }
            },
            !old(self).holds(id) ==> final(self).models() == old(self).models(),
    {
        self.set_status(id, ArtifactStatus::Failed { reason: strs::own(reason) });
    }

    /// Whether `id` resolves to a `Ready` artifact.
    pub open spec fn resolves_ready(self, id: ArtifactId) -> bool {
        match self.lookup(id) {
            Some(m) => m.status is Ready,
            None => false,
        }
    }

    /// Flag a `Ready` artifact as out of date; it becomes the most recently
    /// touched one. Any other artifact (and an unknown id) is left untouched,
    /// with no touch recorded.
    pub fn mark_stale(&mut self, id: ArtifactId)
        requires
            old(self).wf(),
            old(self).has_room(),
        ensures
            final(self).wf(),
            final(self).id_counter() == old(self).id_counter(),
            forall|i: int| 0 <= i < old(self).models().len() ==> final(self).key_at(i) == old(self).key_at(i),
            final(self).models().len() == old(self).models().len(),
            forall|x: ArtifactId| x != id ==> final(self).lookup(x) == old(self).lookup(x),
            old(self).resolves_ready(id) ==> {
                &&& final(self).fresh_seq() == old(self).fresh_seq() + 1
                &&& final(self).is_newest(id)
                &&& final(self).lookup(id) == Some(ArtifactModel {
                    status: StatusModel::Stale,
                    seq: old(self).fresh_seq(),
                    ..old(self).lookup(id).unwrap()
                })
                &&& exists|k: int| {
                    &&& 0 <= k < old(self).models().len()
                    &&& old(self).models()[k].id == id
                    &&& final(self).models() == old(self).models().update(k, ArtifactModel {
                        status: StatusModel::Stale,
                        seq: old(self).fresh_seq(),
                        ..old(self).models()[k]
                    })
                }
            },
            !old(self).resolves_ready(id) ==> {
                &&& final(self).fresh_seq() == old(self).fresh_seq()
                &&& final(self).models() == old(self).models()
                &&& final(self).lookup(id) == old(self).lookup(id)
            },
    {
        let ghost old_models = self.artifacts@.map_values(|a: Artifact| model_of(a));
        match self.index_of(id) {
            Some(i) => {
                let ready = match self.artifacts[i].status {
                    ArtifactStatus::Ready => true,
                    _ => false,
                };
                assert(old_models[i as int] == model_of(self.artifacts@[i as int]));
                proof {
                    lemma_lookup_at(*old(self), i as int);
                }
                if ready {
                    let seq = self.next_seq;
                    let updated = Artifact {
                        id: self.artifacts[i].id,
                        kind: self.artifacts[i].kind,
                        title: self.artifacts[i].title.clone(),
                        status: ArtifactStatus::Stale,
                        revision: self.artifacts[i].revision,
                        seq,
                    };
                    let ghost new_model = model_of(updated);
                    self.artifacts.set(i, updated);
                    self.next_seq = self.next_seq + 1;
                    assert(self.artifacts@.map_values(|a: Artifact| model_of(a)) =~= old_models.update(i as int, new_model));
                    proof {
                        assert(old_models == old(self).models());
                        lemma_lookup_update(*old(self), *self, i as int, new_model);
                        assert forall|j: int| 0 <= j < self.models().len() && j != i implies self.models()[j].seq < self.models()[i as int].seq by {
                            assert(self.artifacts@[j] == old(self).artifacts@[j]);
                        }
                        lemma_newest(*self, i as int);
                    }
                }
            },
            None => {},
        }
    }

    /// Resolve an id to its current artifact, or `None` if this store never
    /// issued it.
    pub fn get(&self, id: ArtifactId) -> (r: Option<&Artifact>)
        ensures
            r is Some <==> self.holds(id),
            match r {
                Some(a) => self.lookup(id) == Some(model_of(*a)),
                None => self.lookup(id) is None,
            },
    {
        match self.index_of(id) {
            Some(i) => {
                proof {
                    let ms = self.models();
                    assert(ms[i as int].id == id);
                    assert forall|j: int| 0 <= j < i implies ms[j].id != id by {
                        assert(self.artifacts@[j].id != id);
                    }
                    assert(first_with(ms, id, i as int));
                    let c = choose|c: int| first_with(ms, id, c);
                    assert(first_with(ms, id, c));
                    assert(c == i as int);
                }
                Some(&self.artifacts[i])
            },
            None => {
                proof {
                    if self.holds(id) {
                        let k = choose|k: int| 0 <= k < self.models().len() && self.models()[k].id == id;
                        assert(self.artifacts@[k].id == id);
                    }
                }
                None
            },
        }
    }

    /// All artifacts, most-recently-touched first: each artifact exactly once,
    /// ordered by touch number, the newest one leading.
    pub fn timeline(&self) -> (r: Vec<&Artifact>)
        requires
            self.wf(),
        ensures
            r@.len() == self.models().len(),
            forall|i: int| #![trigger r@[i]] 0 <= i < r@.len() ==> exists|k: int| 0 <= k < self.models().len() && model_of(*r@[i]) == #[trigger] self.models()[k],
            forall|k: int| 0 <= k < self.models().len() ==> #[trigger] appears(r@, self.models()[k]),
            forall|i: int, j: int| 0 <= i < j < r@.len() ==> model_of(*r@[i]).seq > model_of(*r@[j]).seq,
            forall|x: ArtifactId| #[trigger] self.is_newest(x) ==> r@.len() > 0 && model_of(*r@[0]).id == x,
    {
        let mut ordered: Vec<&Artifact> = Vec::new();
        let mut i: usize = 0;
        while i < self.artifacts.len()
            invariant
                self.wf(),
                i <= self.artifacts@.len(),
                lists_prefix(ordered@, self.artifacts@, i as int),
            decreases self.artifacts@.len() - i,
        {
            let x = &self.artifacts[i];
            let mut j: usize = 0;
            while j < ordered.len() && ordered[j].seq > x.seq
                invariant
                    j <= ordered@.len(),
                    forall|m: int| 0 <= m < j ==> ordered@[m].seq > x.seq,
                decreases ordered@.len() - j,
            {
                j = j + 1;
            }
            let ghost before = ordered@;
            ordered.insert(j, x);
            proof {
                lemma_insert_step(before, ordered@, x, j as int, self.artifacts@, i as int);
            }
            i = i + 1;
        }
        proof {
            lemma_timeline_final(*self, ordered@);
        }
        ordered
    }

    /// Number of artifacts.
    pub fn len(&self) -> (r: usize)
        ensures
            r == self.models().len(),
    {
        self.artifacts.len()
    }

    /// Whether the store holds no artifact.
    pub fn is_empty(&self) -> (r: bool)
        ensures
            r == (self.models().len() == 0),
    {
        self.artifacts.len() == 0
    }
}

impl Default for ArtifactStore {
    fn default() -> (s: Self)
        ensures
            s.wf(),
            s.has_room(),
            s.models().len() == 0,
            s.id_counter() == 0,
            s.fresh_seq() == 0,
    {
        ArtifactStore::new()
    }
}

/// `a` occurs in `ordered`.
spec fn listed(ordered: Seq<&Artifact>, a: Artifact) -> bool {
    exists|m: int| 0 <= m < ordered.len() && *ordered[m] == a
}

/// `ordered` lists the first `n` artifacts of `arts`, each exactly once,
/// by strictly decreasing touch number.
spec fn lists_prefix(ordered: Seq<&Artifact>, arts: Seq<Artifact>, n: int) -> bool {
    &&& ordered.len() == n
    &&& forall|m: int| #![trigger ordered[m]] 0 <= m < ordered.len() ==> exists|k: int| 0 <= k < n && *ordered[m] == #[trigger] arts[k]
    &&& forall|k: int| 0 <= k < n ==> #[trigger] listed(ordered, arts[k])
    &&& forall|m: int, p: int| 0 <= m < p < ordered.len() ==> ordered[m].seq > ordered[p].seq
}

/// Inserting the next artifact where the touch order puts it extends the listed
/// prefix by one.
proof fn lemma_insert_step(before: Seq<&Artifact>, after: Seq<&Artifact>, x: &Artifact, j: int, arts: Seq<Artifact>, i: int)
    requires
        forall|a: int, b: int| 0 <= a < arts.len() && 0 <= b < arts.len() && a != b ==> arts[a].seq != arts[b].seq,
        0 <= i < arts.len(),
        *x == arts[i],
        lists_prefix(before, arts, i),
        0 <= j <= before.len(),
        forall|m: int| 0 <= m < j ==> before[m].seq > x.seq,
        j < before.len() ==> !(before[j].seq > x.seq),
        after == before.insert(j, x),
    ensures
        lists_prefix(after, arts, i + 1),
{
    assert forall|m: int| j <= m < before.len() implies before[m].seq < x.seq by {
        let k = choose|k: int| 0 <= k < i && *before[m] == arts[k];
        assert(arts[k].seq != arts[i].seq);
        if m > j {
            assert(before[j].seq > before[m].seq);
        }
    }
    assert forall|m: int| #![trigger after[m]] 0 <= m < after.len() implies exists|k: int| 0 <= k < i + 1 && *after[m] == #[trigger] arts[k] by {
        if m < j {
            assert(after[m] == before[m]);
        } else if m == j {
            assert(*after[m] == arts[i]);
        } else {
            assert(after[m] == before[m - 1]);
        }
    }
    assert forall|k: int| 0 <= k < i + 1 implies #[trigger] listed(after, arts[k]) by {
        if k == i {
            assert(*after[j] == arts[k]);
        } else {
            assert(listed(before, arts[k]));
            let m = choose|m: int| 0 <= m < before.len() && *before[m] == arts[k];
            if m < j {
                assert(after[m] == before[m]);
            } else {
                assert(after[m + 1] == before[m]);
            }
        }
    }
    assert forall|m: int, p: int| 0 <= m < p < after.len() implies after[m].seq > after[p].seq by {
        if p < j {
            assert(after[m] == before[m] && after[p] == before[p]);
        } else if p == j {
            assert(after[m] == before[m]);
        } else if m < j {
            assert(after[m] == before[m] && after[p] == before[p - 1]);
        } else if m == j {
            assert(after[p] == before[p - 1]);
        } else {
            assert(after[m] == before[m - 1] && after[p] == before[p - 1]);
        }
    }
}

/// A listing of every artifact of the store by decreasing touch number is its
/// timeline: each artifact once, the newest first.
proof fn lemma_timeline_final(s: ArtifactStore, r: Seq<&Artifact>)
    requires
        s.wf(),
        lists_prefix(r, s.artifacts@, s.artifacts@.len() as int),
    ensures
        r.len() == s.models().len(),
        forall|i: int| #![trigger r[i]] 0 <= i < r.len() ==> exists|k: int| 0 <= k < s.models().len() && model_of(*r[i]) == #[trigger] s.models()[k],
        forall|k: int| 0 <= k < s.models().len() ==> #[trigger] appears(r, s.models()[k]),
        forall|i: int, j: int| 0 <= i < j < r.len() ==> model_of(*r[i]).seq > model_of(*r[j]).seq,
        forall|x: ArtifactId| #[trigger] s.is_newest(x) ==> r.len() > 0 && model_of(*r[0]).id == x,
{
    let ms = s.models();
    let arts = s.artifacts@;
    assert forall|m: int| #![trigger r[m]] 0 <= m < r.len() implies exists|k: int| 0 <= k < ms.len() && model_of(*r[m]) == #[trigger] ms[k] by {
        let k = choose|k: int| 0 <= k < arts.len() && *r[m] == #[trigger] arts[k];
        assert(ms[k] == model_of(arts[k]));
    }
    assert forall|k: int| 0 <= k < ms.len() implies #[trigger] appears(r, ms[k]) by {
        assert(ms[k] == model_of(arts[k]));
        assert(listed(r, arts[k]));
        let m = choose|m: int| 0 <= m < r.len() && *r[m] == arts[k];
        assert(model_of(*r[m]) == ms[k]);
    }
    assert forall|x: ArtifactId| #[trigger] s.is_newest(x) implies r.len() > 0 && model_of(*r[0]).id == x by {
        let k = choose|k: int| {
            &&& 0 <= k < ms.len()
            &&& ms[k].id == x
            &&& forall|j: int| 0 <= j < ms.len() && j != k ==> ms[j].seq < ms[k].seq
        };
        assert(ms[k] == model_of(arts[k]));
        assert(listed(r, arts[k]));
        let p = choose|p: int| 0 <= p < r.len() && *r[p] == arts[k];
        if p != 0 {
            let k0 = choose|k0: int| 0 <= k0 < arts.len() && *r[0] == #[trigger] arts[k0];
            assert(r[0].seq > r[p].seq);
            assert(ms[k0] == model_of(arts[k0]));
            if k0 != k {
                assert(ms[k0].seq < ms[k].seq);
            }
        }
    }
}

/// A well-formed store holds an artifact for `id` exactly when it has issued
/// `id`: ids are never dropped, and no id is held that `begin` did not hand
/// out. So `get` answers `None` for any id this store never issued.
pub proof fn lemma_holds_iff_issued(s: ArtifactStore, id: ArtifactId)
    requires
        s.wf(),
    ensures
        s.holds(id) <==> s.issued(id),
{
    if s.issued(id) {
        let k = id.0 as int;
        assert(s.artifacts@[k].id.0 == k);
        assert(s.artifacts@[k].id == id);
        assert(s.models()[k].id == id);
    }
    if s.holds(id) {
        let k = choose|k: int| 0 <= k < s.models().len() && s.models()[k].id == id;
        assert(s.artifacts@[k].id == id);
        assert(s.artifacts@[k].id.0 == k);
    }
}

/// In a well-formed store, resolving the id at position `k` gives the artifact
/// at `k`.
proof fn lemma_lookup_at(s: ArtifactStore, k: int)
    requires
        s.wf(),
        0 <= k < s.models().len(),
    ensures
        s.lookup(s.models()[k].id) == Some(s.models()[k]),
{
    let id = s.models()[k].id;
    assert forall|j: int| 0 <= j < k implies s.models()[j].id != id by {
        assert(s.artifacts@[j].id != s.artifacts@[k].id);
    }
    assert(first_with(s.models(), id, k));
    let c = choose|c: int| first_with(s.models(), id, c);
    assert(first_with(s.models(), id, c));
    if c != k {
        assert(s.artifacts@[c].id != s.artifacts@[k].id);
    }
}

/// Replacing the artifact at `k` by one with the same id changes what that id
/// resolves to, and nothing else.
proof fn lemma_lookup_update(pre: ArtifactStore, post: ArtifactStore, k: int, m: ArtifactModel)
    requires
        pre.wf(),
        post.wf(),
        0 <= k < pre.models().len(),
        m.id == pre.models()[k].id,
        post.models() == pre.models().update(k, m),
    ensures
        post.lookup(m.id) == Some(m),
        forall|x: ArtifactId| x != m.id ==> post.lookup(x) == pre.lookup(x),
{
    lemma_lookup_at(post, k);
    assert forall|x: ArtifactId| x != m.id implies post.lookup(x) == pre.lookup(x) by {
        if pre.holds(x) {
            let j = choose|j: int| 0 <= j < pre.models().len() && pre.models()[j].id == x;
            lemma_lookup_at(pre, j);
            lemma_lookup_at(post, j);
        } else if post.holds(x) {
            let j = choose|j: int| 0 <= j < post.models().len() && post.models()[j].id == x;
            assert(pre.models()[j].id == x);
        }
    }
}

/// Appending an artifact with an id the store did not hold makes that id
/// resolve to it, and changes nothing else.
proof fn lemma_lookup_push(pre: ArtifactStore, post: ArtifactStore, m: ArtifactModel)
    requires
        pre.wf(),
        post.wf(),
        !pre.holds(m.id),
        post.models() == pre.models().push(m),
    ensures
        post.lookup(m.id) == Some(m),
        pre.lookup(m.id) is None,
        forall|x: ArtifactId| x != m.id ==> post.lookup(x) == pre.lookup(x),
{
    lemma_lookup_at(post, pre.models().len() as int);
    assert forall|x: ArtifactId| x != m.id implies post.lookup(x) == pre.lookup(x) by {
        if pre.holds(x) {
            let j = choose|j: int| 0 <= j < pre.models().len() && pre.models()[j].id == x;
            lemma_lookup_at(pre, j);
            lemma_lookup_at(post, j);
        } else if post.holds(x) {
            let j = choose|j: int| 0 <= j < post.models().len() && post.models()[j].id == x;
            assert(pre.models()[j].id == x);
        }
    }
}

/// An artifact whose touch number exceeds every other's is the newest.
proof fn lemma_newest(s: ArtifactStore, k: int)
    requires
        0 <= k < s.models().len(),
        forall|j: int| 0 <= j < s.models().len() && j != k ==> s.models()[j].seq < s.models()[k].seq,
    ensures
        s.is_newest(s.models()[k].id),
{
}

/// Ids and logical keys are never shared: two artifacts of a well-formed store
/// are distinct instances with distinct ids, distinct logical keys and
/// distinct touch numbers, each touch number below the next one the store
/// hands out.
pub proof fn lemma_ids_unique(s: ArtifactStore, i: int, j: int)
    requires
        s.wf(),
        0 <= i < s.models().len(),
        0 <= j < s.models().len(),
        i != j,
    ensures
        s.models()[i].id != s.models()[j].id,
        s.key_at(i) != s.key_at(j),
        s.models()[i].seq != s.models()[j].seq,
        s.models()[i].seq < s.fresh_seq(),
{
}

} // verus!
