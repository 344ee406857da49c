//! The in-memory cache of enrolled persons, in the order in which a
//! verification walks it.

use crate::model::{PersonInfo, PersonInfoView};
use vstd::prelude::*;

verus! {

/// A person is known by its tenant together with its local id.
pub open spec fn has_key(p: PersonInfoView, company_id: Seq<char>, local_id: Seq<char>) -> bool {
    p.company_id == company_id && p.local_id == local_id
}

/// The place of the first person with the given key.
pub open spec fn position(s: Seq<PersonInfoView>, company_id: Seq<char>, local_id: Seq<char>)
    -> Option<int>
    decreases s.len(),
{
    if s.len() == 0 {
        None
    } else {
        match position(s.drop_last(), company_id, local_id) {
            Some(i) => Some(i),
            None => if has_key(s.last(), company_id, local_id) {
                Some(s.len() - 1)
            } else {
                None
            },
        }
    }
}

/// The persons after `p` was stored: `p` stands where a person with its key
/// stood, or at the end where none did.
pub open spec fn stored(s: Seq<PersonInfoView>, p: PersonInfoView) -> Seq<PersonInfoView> {
    match position(s, p.company_id, p.local_id) {
        Some(i) => s.update(i, p),
        None => s.push(p),
    }
}

/// The persons of one tenant, in their order.
pub open spec fn of_tenant(s: Seq<PersonInfoView>, company_id: Seq<char>) -> Seq<PersonInfoView>
    decreases s.len(),
{
    if s.len() == 0 {
        Seq::empty()
    } else if s.last().company_id == company_id {
        of_tenant(s.drop_last(), company_id).push(s.last())
    } else {
        of_tenant(s.drop_last(), company_id)
    }
}

/// No two persons have the same key.
pub open spec fn distinct_keys(s: Seq<PersonInfoView>) -> bool {
    forall|i: int, j: int|
        0 <= i < j < s.len() ==> !has_key(
            #[trigger] s[i],
            (#[trigger] s[j]).company_id,
            s[j].local_id,
        )
}

/// What `position` finds: the first place with the key, or nothing where no
/// place has it.
pub proof fn lemma_position(s: Seq<PersonInfoView>, company_id: Seq<char>, local_id: Seq<char>)
    ensures
        match position(s, company_id, local_id) {
            Some(i) => 0 <= i < s.len() && has_key(s[i], company_id, local_id) && forall|j: int|
                0 <= j < i ==> !has_key(#[trigger] s[j], company_id, local_id),
            None => forall|j: int|
                0 <= j < s.len() ==> !has_key(#[trigger] s[j], company_id, local_id),
        },
    decreases s.len(),
{
    if s.len() > 0 {
        lemma_position(s.drop_last(), company_id, local_id);
        assert forall|j: int| 0 <= j < s.len() - 1 implies s.drop_last()[j] == s[j] by {}
    }
}

/// A place with the key before which no place has it is what `position` finds.
pub proof fn lemma_position_is(
    s: Seq<PersonInfoView>,
    company_id: Seq<char>,
    local_id: Seq<char>,
    i: int,
)
    requires
        0 <= i < s.len(),
        has_key(s[i], company_id, local_id),
        forall|j: int| 0 <= j < i ==> !has_key(#[trigger] s[j], company_id, local_id),
    ensures
        position(s, company_id, local_id) == Some(i),
{
    lemma_position(s, company_id, local_id);
}

/// One more person at the end of the walk: it joins its tenant's persons, and
/// no other's.
pub proof fn lemma_of_tenant_push(s: Seq<PersonInfoView>, p: PersonInfoView, company_id: Seq<char>)
    ensures
        of_tenant(s.push(p), company_id) == if p.company_id == company_id {
            of_tenant(s, company_id).push(p)
        } else {
            of_tenant(s, company_id)
        },
{
    assert(s.push(p).drop_last() =~= s);
}

/// Every person among a tenant's persons belongs to that tenant and is one of
/// the persons walked.
pub proof fn lemma_of_tenant_members(s: Seq<PersonInfoView>, company_id: Seq<char>)
    ensures
        forall|i: int|
            0 <= i < of_tenant(s, company_id).len() ==> (#[trigger] of_tenant(
                s,
                company_id,
            )[i]).company_id == company_id && s.contains(of_tenant(s, company_id)[i]),
        of_tenant(s, company_id).len() <= s.len(),
    decreases s.len(),
{
    if s.len() > 0 {
        let front = s.drop_last();
        lemma_of_tenant_members(front, company_id);
        let sub = of_tenant(front, company_id);
        assert forall|i: int| 0 <= i < of_tenant(s, company_id).len() implies (#[trigger] of_tenant(
            s,
            company_id,
        )[i]).company_id == company_id && s.contains(of_tenant(s, company_id)[i]) by {
            if i < sub.len() {
                let p = sub[i];
                assert(front.contains(p));
                let k = choose|k: int| 0 <= k < front.len() && front[k] == p;
                assert(s[k] == p);
            } else {
                assert(s[s.len() - 1] == s.last());
            }
        }
    }
}

/// Storing a person keeps the keys distinct, and afterwards the person is the
/// one found under its key.
pub proof fn lemma_stored(s: Seq<PersonInfoView>, p: PersonInfoView)
    ensures
        distinct_keys(s) ==> distinct_keys(stored(s, p)),
        match position(stored(s, p), p.company_id, p.local_id) {
            Some(i) => stored(s, p)[i] == p,
            None => false,
        },
        stored(stored(s, p), p) == stored(s, p),
{
    lemma_position(s, p.company_id, p.local_id);
    let t = stored(s, p);
    match position(s, p.company_id, p.local_id) {
        Some(i) => {
            lemma_position_is(t, p.company_id, p.local_id, i);
            assert(t.update(i, p) =~= t);
        },
        None => {
            lemma_position_is(t, p.company_id, p.local_id, s.len() as int);
            assert(t.update(s.len() as int, p) =~= t);
        },
    }
}

/// Storing a person changes nobody with another key: whoever was there under
/// another key is there afterwards, unchanged, and nobody else has come but
/// the person that was stored.
pub proof fn lemma_stored_keeps_others(s: Seq<PersonInfoView>, p: PersonInfoView)
    ensures
        forall|q: PersonInfoView|
            s.contains(q) && !has_key(q, p.company_id, p.local_id) ==> #[trigger] stored(
                s,
                p,
            ).contains(q),
        forall|q: PersonInfoView| #[trigger] stored(s, p).contains(q) ==> q == p || s.contains(q),
        s.len() <= stored(s, p).len() <= s.len() + 1,
{
    lemma_position(s, p.company_id, p.local_id);
    let t = stored(s, p);
    assert forall|q: PersonInfoView|
        s.contains(q) && !has_key(q, p.company_id, p.local_id) implies #[trigger] t.contains(
        q,
    ) by {
        let k = choose|k: int| 0 <= k < s.len() && s[k] == q;
        assert(t[k] == q);
    }
    assert forall|q: PersonInfoView| #[trigger] t.contains(q) implies q == p || s.contains(q) by {
        let k = choose|k: int| 0 <= k < t.len() && t[k] == q;
        if q != p {
            assert(s[k] == q);
        }
    }
}

/// Storing a person that belongs to a tenant puts it among that tenant's
/// persons.
pub proof fn lemma_stored_is_listed(s: Seq<PersonInfoView>, p: PersonInfoView)
    ensures
        of_tenant(stored(s, p), p.company_id).contains(p),
    decreases s.len(),
{
    let t = stored(s, p);
    lemma_stored(s, p);
    let i = position(t, p.company_id, p.local_id)->0;
    lemma_position(t, p.company_id, p.local_id);
    lemma_listed(t, i);
}

/// Every person walked is among the persons of its own tenant.
pub proof fn lemma_listed(s: Seq<PersonInfoView>, i: int)
    requires
        0 <= i < s.len(),
    ensures
        of_tenant(s, s[i].company_id).contains(s[i]),
    decreases s.len(),
{
    let company_id = s[i].company_id;
    let front = s.drop_last();
    if i == s.len() - 1 {
        let sub = of_tenant(front, company_id);
        assert(of_tenant(s, company_id) == sub.push(s.last()));
        assert(sub.push(s.last())[sub.len() as int] == s[i]);
    } else {
        assert(front[i] == s[i]);
        lemma_listed(front, i);
        let sub = of_tenant(front, company_id);
        let k = choose|k: int| 0 <= k < sub.len() && sub[k] == s[i];
        assert(of_tenant(s, company_id)[k] == s[i]);
    }
}

/// The persons of `company_id` among `persons`, in their order.
pub fn select_tenant(persons: &Vec<PersonInfo>, company_id: &str) -> (selected: Vec<PersonInfo>)
    ensures
        selected.deep_view() == of_tenant(persons.deep_view(), company_id@),
{
    let key = company_id.to_owned();
    let mut selected: Vec<PersonInfo> = Vec::new();
    let mut i: usize = 0;
    assert(persons.deep_view().take(0) =~= Seq::empty());
    while i < persons.len()
        invariant
            i <= persons@.len(),
            key@ == company_id@,
            selected.deep_view() == of_tenant(persons.deep_view().take(i as int), company_id@),
        decreases persons@.len() - i,
    {
        proof {
            let all = persons.deep_view();
            assert(all.take(i + 1) =~= all.take(i as int).push(all[i as int]));
            lemma_of_tenant_push(all.take(i as int), all[i as int], company_id@);
        }
        if persons[i].company_id == key {
            let ghost before = selected.deep_view();
            selected.push(persons[i].clone());
            assert(selected.deep_view() =~= before.push(persons[i as int]@));
        }
        i += 1;
    }
    assert(persons.deep_view().take(i as int) =~= persons.deep_view());
    selected
}

/// Persons by tenant and local id. Storing a person under a key that is
/// taken replaces the person that had it, in its place.
pub struct PersonCache {
    entries: Vec<PersonInfo>,
}

impl View for PersonCache {
    type V = Seq<PersonInfoView>;

    /// The persons in the order of the walk.
    closed spec fn view(&self) -> Seq<PersonInfoView> {
        self.entries.deep_view()
    }
}

impl PersonCache {
    /// No two cached persons have the same key.
    #[verifier::type_invariant]
    pub open spec fn inv(self) -> bool {
        distinct_keys(self@)
    }

    /// A cache without any person.
    pub fn new() -> (cache: PersonCache)
        ensures
            cache@ == Seq::<PersonInfoView>::empty(),
    {
        let cache = PersonCache { entries: Vec::new() };
        assert(cache.entries.deep_view() =~= Seq::<PersonInfoView>::empty());
        cache
    }

    /// The number of persons, who all differ in their key.
    pub fn len(&self) -> (n: usize)
        ensures
            n == self@.len(),
            distinct_keys(self@),
    {
        proof {
            use_type_invariant(self);
        }
        self.entries.len()
    }

    fn find(&self, company_id: &String, local_id: &String) -> (found: Option<usize>)
        ensures
            match found {
                Some(i) => position(self@, company_id@, local_id@) == Some(i as int) && i
                    < self.entries@.len(),
                None => position(self@, company_id@, local_id@).is_none(),
            },
    {
        let mut i: usize = 0;
        while i < self.entries.len()
            invariant
                i <= self.entries@.len(),
                forall|j: int| 0 <= j < i ==> !has_key(#[trigger] self@[j], company_id@, local_id@),
            decreases self.entries@.len() - i,
        {
            if self.entries[i].company_id == *company_id && self.entries[i].local_id == *local_id {
                proof {
                    lemma_position_is(self@, company_id@, local_id@, i as int);
                }
                return Some(i);
            }
            i += 1;
        }
        proof {
            lemma_position(self@, company_id@, local_id@);
        }
        None
    }

    /// Whether a person with the key is cached.
    pub fn contains(&self, company_id: &str, local_id: &str) -> (r: bool)
        ensures
            r == position(self@, company_id@, local_id@).is_some(),
    {
        let company = company_id.to_owned();
        let local = local_id.to_owned();
        self.find(&company, &local).is_some()
    }

    /// Stores a person under its tenant and local id.
    pub fn insert(&mut self, person: PersonInfo)
        ensures
            final(self)@ == stored(old(self)@, person@),
    {
        proof {
            use_type_invariant(&*self);
            lemma_stored(self@, person@);
        }
        let found = self.find(&person.company_id, &person.local_id);
        let mut entries: Vec<PersonInfo> = Vec::new();
        core::mem::swap(&mut entries, &mut self.entries);
        let ghost before = entries.deep_view();
        match found {
            Some(i) => {
                entries[i] = person;
                assert(entries.deep_view() =~= before.update(i as int, person@));
            },
            None => {
                entries.push(person);
                assert(entries.deep_view() =~= before.push(person@));
            },
        }
        self.entries = entries;
    }

    /// The cached persons of one tenant, in the order of the walk.
    pub fn entries_for(&self, company_id: &str) -> (persons: Vec<PersonInfo>)
        ensures
            persons.deep_view() == of_tenant(self@, company_id@),
    {
        select_tenant(&self.entries, company_id)
    }
}

} // verus!

verus! {

/// The persons of a tenant among the first `i` persons are the first of the
/// tenant's persons among all.
pub proof fn lemma_of_tenant_take(s: Seq<PersonInfoView>, i: int, company_id: Seq<char>)
    requires
        0 <= i <= s.len(),
    ensures
        of_tenant(s.take(i), company_id).len() <= of_tenant(s, company_id).len(),
        of_tenant(s.take(i), company_id) == of_tenant(s, company_id).take(
            of_tenant(s.take(i), company_id).len() as int,
        ),
    decreases s.len(),
{
    if i == s.len() {
        assert(s.take(i) =~= s);
        assert(of_tenant(s, company_id).take(of_tenant(s, company_id).len() as int) =~= of_tenant(
            s,
            company_id,
        ));
    } else {
        let front = s.drop_last();
        assert(front.take(i) =~= s.take(i));
        lemma_of_tenant_take(front, i, company_id);
        let part = of_tenant(s.take(i), company_id);
        assert(of_tenant(s, company_id).take(part.len() as int) =~= of_tenant(
            front,
            company_id,
        ).take(part.len() as int));
    }
}

/// The person at place `i` stands among its tenant's persons after those of
/// the tenant that stand before place `i`.
pub proof fn lemma_of_tenant_at(s: Seq<PersonInfoView>, i: int)
    requires
        0 <= i < s.len(),
    ensures
        of_tenant(s.take(i), s[i].company_id).len() < of_tenant(s, s[i].company_id).len(),
        of_tenant(s, s[i].company_id)[of_tenant(s.take(i), s[i].company_id).len() as int] == s[i],
{
    let company_id = s[i].company_id;
    let upto = s.take(i + 1);
    assert(upto.drop_last() =~= s.take(i));
    assert(upto.last() == s[i]);
    let part = of_tenant(s.take(i), company_id);
    assert(of_tenant(upto, company_id) == part.push(s[i]));
    lemma_of_tenant_take(s, i + 1, company_id);
    assert(of_tenant(s, company_id).take(part.len() as int + 1)[part.len() as int] == s[i]);
}

} // verus!
