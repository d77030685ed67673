//! The in-memory program registry: each registered program under its id,
//! with its language fixed and its code hash computed at registration.
use vstd::prelude::*;

use crate::digest::{hash_text, text_hash};
use crate::language::Language;

verus! {

/// A registered program.
#[derive(Debug)]
pub struct ProgramRecord {
    pub id: String,
    pub language: Language,
    pub code: String,
    pub code_hash: String,
}

/// What the registry holds for one id.
pub struct ProgramView {
    pub language: Language,
    pub code: Seq<char>,
    pub code_hash: Seq<char>,
}

/// What registering `code` in `language` stores.
pub open spec fn program_view(language: Language, code: Seq<char>) -> ProgramView {
    ProgramView { language, code, code_hash: text_hash(code) }
}

impl ProgramRecord {
    pub open spec fn view(&self) -> ProgramView {
        ProgramView { language: self.language, code: self.code@, code_hash: self.code_hash@ }
    }
}

/// Relies on `uuid::Uuid::new_v4` and its `to_string`: a fresh random id.
#[verifier::external_body]
fn random_program_id() -> (r: String) {
    uuid::Uuid::new_v4().to_string()
}

/// Programs by id. Ids are unique; registering an id again replaces its
/// program. Nothing is ever removed.
pub struct Registry {
    programs: Vec<ProgramRecord>,
}

impl Registry {
    /// Some program is stored under `id`.
    pub closed spec fn has_id(&self, id: Seq<char>) -> bool {
        exists|i: int| 0 <= i < self.programs@.len() && self.programs@[i].id@ == id
    }

    /// The position of the program stored under `id`.
    pub closed spec fn index_of(&self, id: Seq<char>) -> int {
        choose|i: int| 0 <= i < self.programs@.len() && self.programs@[i].id@ == id
    }

    /// The registry as a map from id to program.
    pub closed spec fn view(&self) -> Map<Seq<char>, ProgramView> {
        Map::new(|id: Seq<char>| self.has_id(id), |id: Seq<char>| self.programs@[self.index_of(id)].view())
    }

    /// Ids are unique, and every code hash is the hash of its code.
    pub closed spec fn wf(&self) -> bool {
        &&& forall|i: int, j: int|
            0 <= i < j < self.programs@.len() ==> self.programs@[i].id@ != self.programs@[j].id@
        &&& forall|i: int|
            0 <= i < self.programs@.len() ==> #[trigger] self.programs@[i].code_hash@ == text_hash(
                self.programs@[i].code@,
            )
    }

    proof fn lemma_index(&self, i: int)
        requires
            self.wf(),
            0 <= i < self.programs@.len(),
        ensures
            self.view().contains_key(self.programs@[i].id@),
            self.view()[self.programs@[i].id@] == self.programs@[i].view(),
    {
        let id = self.programs@[i].id@;
        assert(self.has_id(id));
        let j = self.index_of(id);
        assert(i == j);
    }

    /// An empty registry.
    pub fn new() -> (r: Registry)
        ensures
            r.wf(),
            r.view() == Map::<Seq<char>, ProgramView>::empty(),
    {
        let r = Registry { programs: Vec::new() };
        assert(r.view() =~= Map::<Seq<char>, ProgramView>::empty());
        r
    }

    /// The program stored under `id`, if any.
    pub fn lookup(&self, id: &str) -> (r: Option<&ProgramRecord>)
        requires
            self.wf(),
        ensures
            r is Some <==> self.view().contains_key(id@),
            r matches Some(p) ==> p.id@ == id@ && p.view() == self.view()[id@],
            r matches Some(p) ==> p.code_hash@ == text_hash(p.code@),
    {
        let mut i: usize = 0;
        while i < self.programs.len()
            invariant
                i <= self.programs@.len(),
                self.wf(),
                forall|j: int| 0 <= j < i ==> self.programs@[j].id@ != id@,
            decreases self.programs@.len() - i,
        {
            if string_eq(&self.programs[i].id, id) {
                proof {
                    self.lemma_index(i as int);
                }
                return Some(&self.programs[i]);
            }
            i = i + 1;
        }
        None
    }

    /// Stores `code` in `language` under `id`, replacing what was stored there.
    pub fn insert_program(&mut self, id: String, language: Language, code: String) -> (r: ProgramRecord)
        requires
            old(self).wf(),
        ensures
            final(self).wf(),
            final(self).view() == old(self).view().insert(id@, program_view(language, code@)),
            r.id@ == id@,
            r.view() == program_view(language, code@),
    {
        let code_hash = hash_text(code.as_str());
        let record = ProgramRecord { id: id.clone(), language, code: code.clone(), code_hash: code_hash.clone() };
        let summary = ProgramRecord { id, language, code, code_hash };
        let mut i: usize = 0;
        while i < self.programs.len()
            invariant
                i <= self.programs@.len(),
                self.programs@ == old(self).programs@,
                old(self).wf(),
                record.id@ == id@,
                record.view() == program_view(language, code@),
                summary.id@ == id@,
                summary.view() == record.view(),
                forall|j: int| 0 <= j < i ==> self.programs@[j].id@ != record.id@,
            decreases self.programs@.len() - i,
        {
            if string_eq(&self.programs[i].id, record.id.as_str()) {
                let ghost before = self.programs@;
                self.programs.set(i, record);
                proof {
                    let after = self.programs@;
                    assert(after == before.update(i as int, record));
                    assert forall|a: int, b: int| 0 <= a < b < after.len() implies after[a].id@ != after[b].id@ by {
                        assert(before[a].id@ != before[b].id@);
                    }
                    assert forall|j: int| 0 <= j < after.len() implies #[trigger] after[j].code_hash@ == text_hash(after[j].code@) by {
                        if j != i {
                            assert(after[j] == before[j]);
                        }
                    }
                    self.lemma_view_after_set(old(self), i as int);
                }
                return summary;
            }
            i = i + 1;
        }
        let ghost before = self.programs@;
        self.programs.push(record);
        proof {
            assert(self.programs@.drop_last() =~= before);
            self.lemma_view_after_push(old(self));
        }
        summary
    }

    proof fn lemma_view_after_set(&self, prev: &Registry, i: int)
        requires
            prev.wf(),
            self.wf(),
            0 <= i < prev.programs@.len(),
            self.programs@ == prev.programs@.update(i, self.programs@[i]),
            self.programs@[i].id@ == prev.programs@[i].id@,
        ensures
            self.view() == prev.view().insert(self.programs@[i].id@, self.programs@[i].view()),
    {
        let id = self.programs@[i].id@;
        assert forall|k: Seq<char>| self.view().contains_key(k) <==> prev.view().insert(id, self.programs@[i].view()).contains_key(k) by {
            if self.has_id(k) {
                let j = choose|j: int| 0 <= j < self.programs@.len() && self.programs@[j].id@ == k;
                if j != i {
                    assert(prev.programs@[j].id@ == k);
                    assert(prev.has_id(k));
                }
            }
            if prev.has_id(k) {
                let j = choose|j: int| 0 <= j < prev.programs@.len() && prev.programs@[j].id@ == k;
                assert(self.programs@[j].id@ == k);
                assert(self.has_id(k));
            }
            if k == id {
                assert(self.programs@[i].id@ == k);
            }
        }
        assert forall|k: Seq<char>| #[trigger] self.view().contains_key(k) implies self.view()[k] == prev.view().insert(id, self.programs@[i].view())[k] by {
            let j = choose|j: int| 0 <= j < self.programs@.len() && self.programs@[j].id@ == k;
            self.lemma_index(j);
            if j != i {
                prev.lemma_index(j);
            }
        }
        assert(self.view() =~= prev.view().insert(id, self.programs@[i].view()));
    }

    proof fn lemma_view_after_push(&self, prev: &Registry)
        requires
            prev.wf(),
            self.programs@.len() == prev.programs@.len() + 1,
            self.programs@.drop_last() == prev.programs@,
            forall|j: int| 0 <= j < prev.programs@.len() ==> prev.programs@[j].id@ != self.programs@.last().id@,
            self.programs@.last().code_hash@ == text_hash(self.programs@.last().code@),
        ensures
            self.wf(),
            self.view() == prev.view().insert(self.programs@.last().id@, self.programs@.last().view()),
    {
        let n = prev.programs@.len() as int;
        assert forall|j: int| 0 <= j < n implies self.programs@[j] == prev.programs@[j] by {
            assert(self.programs@.drop_last()[j] == self.programs@[j]);
        }
        let id = self.programs@[n].id@;
        assert forall|k: Seq<char>| self.view().contains_key(k) <==> prev.view().insert(id, self.programs@[n].view()).contains_key(k) by {
            if self.has_id(k) {
                let j = choose|j: int| 0 <= j < self.programs@.len() && self.programs@[j].id@ == k;
                if j != n {
                    assert(prev.programs@[j].id@ == k);
                    assert(prev.has_id(k));
                }
            }
            if prev.has_id(k) {
                let j = choose|j: int| 0 <= j < prev.programs@.len() && prev.programs@[j].id@ == k;
                assert(self.programs@[j].id@ == k);
                assert(self.has_id(k));
            }
            if k == id {
                assert(self.programs@[n].id@ == k);
            }
        }
        assert forall|k: Seq<char>| #[trigger] self.view().contains_key(k) implies self.view()[k] == prev.view().insert(id, self.programs@[n].view())[k] by {
            let j = choose|j: int| 0 <= j < self.programs@.len() && self.programs@[j].id@ == k;
            self.lemma_index(j);
            if j != n {
                prev.lemma_index(j);
            }
        }
        assert(self.view() =~= prev.view().insert(id, self.programs@[n].view()));
    }

    /// Registers `code` in `language` under `id`, or under a fresh random id
    /// when none is given.
    pub fn register(&mut self, id: Option<String>, language: Language, code: String) -> (r: ProgramRecord)
        requires
            old(self).wf(),
        ensures
            final(self).wf(),
            final(self).view() == old(self).view().insert(r.id@, program_view(language, code@)),
            id matches Some(given) ==> r.id@ == given@,
            r.view() == program_view(language, code@),
    {
        let id = match id {
            Some(given) => given,
            None => random_program_id(),
        };
        self.insert_program(id, language, code)
    }
}

/// Whether `a` and `b` hold the same characters.
fn string_eq(a: &String, b: &str) -> (r: bool)
    ensures
        r == (a@ == b@),
{
    let x = crate::text::chars_of(a.as_str());
    let y = crate::text::chars_of(b);
    if x.len() != y.len() {
        assert(x@.len() != y@.len());
        return false;
    }
    let mut i: usize = 0;
    while i < x.len()
        invariant
            i <= x@.len(),
            x@.len() == y@.len(),
            x@ == a@,
            y@ == b@,
            forall|j: int| 0 <= j < i ==> x@[j] == y@[j],
        decreases x@.len() - i,
    {
        if x[i] != y[i] {
            assert(x@[i as int] != y@[i as int]);
            return false;
        }
        i = i + 1;
    }
    assert(x@ =~= y@);
    true
}

} // verus!
