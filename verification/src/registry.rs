//! The sources that are being processed.
//!
//! A source is admitted once: while it is active, another attempt to admit
//! it is refused, so that no source ever has two sessions. Releasing a
//! source makes room for it to be admitted again.
//!
//! Every admission starts a session with a number of its own. Whoever ends
//! a session releases the source under that number, which does nothing
//! where the source has been released and admitted anew in the meantime.

use vstd::prelude::*;

verus! {

/// Whether an attempt to admit `id` succeeds: it does when `id` is not
/// active yet.
pub open spec fn admits(active: Map<Seq<char>, u64>, id: Seq<char>) -> bool {
    !active.contains_key(id)
}

/// The active sources after an attempt to admit `id` under the session
/// number `session`: `id` is active either way, under `session` where it
/// was admitted now.
pub open spec fn admitted(active: Map<Seq<char>, u64>, id: Seq<char>, session: u64) -> Map<
    Seq<char>,
    u64,
> {
    if active.contains_key(id) {
        active
    } else {
        active.insert(id, session)
    }
}

/// The active sources after `id` was released.
pub open spec fn released(active: Map<Seq<char>, u64>, id: Seq<char>) -> Map<Seq<char>, u64> {
    active.remove(id)
}

/// The active sources after the session `session` of `id` was released:
/// `id` is released where it is active under that number, and nothing
/// changes where it is not.
pub open spec fn session_released(
    active: Map<Seq<char>, u64>,
    id: Seq<char>,
    session: u64,
) -> Map<Seq<char>, u64> {
    if active.contains_key(id) && active[id] == session {
        active.remove(id)
    } else {
        active
    }
}

/// The number of the session after `session`. The numbers start over once
/// they are used up.
pub open spec fn following(session: u64) -> u64 {
    if session == u64::MAX {
        0
    } else {
        (session + 1) as u64
    }
}

/// One active source.
struct Admission {
    id: String,
    session: u64,
}

/// The sources that are being processed, each with the number of its
/// session.
pub struct ActiveDevices {
    admissions: Vec<Admission>,
    next: u64,
}

/// Where `id` is held among some admissions.
spec fn index_of(admissions: Seq<Admission>, id: Seq<char>) -> int {
    choose|i: int| 0 <= i < admissions.len() && admissions[i].id@ == id
}

/// Whether no identifier is held twice.
spec fn distinct(admissions: Seq<Admission>) -> bool {
    forall|i: int, j: int| 0 <= i < j < admissions.len() ==> admissions[i].id@ != admissions[j].id@
}

/// The sessions by identifier.
spec fn sessions(admissions: Seq<Admission>) -> Map<Seq<char>, u64> {
    Map::new(
        |id: Seq<char>| exists|i: int| 0 <= i < admissions.len() && admissions[i].id@ == id,
        |id: Seq<char>| admissions[index_of(admissions, id)].session,
    )
}

/// An identifier that is held is found where it is held.
proof fn lemma_held(admissions: Seq<Admission>, i: int)
    requires
        distinct(admissions),
        0 <= i < admissions.len(),
    ensures
        sessions(admissions).contains_key(admissions[i].id@),
        sessions(admissions)[admissions[i].id@] == admissions[i].session,
{
    let j = index_of(admissions, admissions[i].id@);
    assert(i == j) by {
        if i < j {
            assert(admissions[i].id@ != admissions[j].id@);
        }
        if j < i {
            assert(admissions[j].id@ != admissions[i].id@);
        }
    }
}

/// Distinct identifiers are as many as the admissions that hold them.
proof fn lemma_distinct_len(admissions: Seq<Admission>)
    requires
        distinct(admissions),
    ensures
        sessions(admissions).dom().finite(),
        sessions(admissions).dom().len() == admissions.len(),
    decreases admissions.len(),
{
    if admissions.len() == 0 {
        assert(sessions(admissions).dom() =~= Set::<Seq<char>>::empty());
    } else {
        let front = admissions.drop_last();
        let last = admissions.last().id@;
        lemma_distinct_len(front);
        assert forall|id: Seq<char>|
            sessions(admissions).dom().contains(id) <==> sessions(front).dom().insert(
                last,
            ).contains(id) by {
            if sessions(admissions).dom().contains(id) {
                let i = index_of(admissions, id);
                if i < front.len() {
                    assert(front[i].id@ == id);
                }
            }
            if sessions(front).dom().contains(id) {
                let i = index_of(front, id);
                assert(admissions[i].id@ == id);
            }
            if id == last {
                assert(admissions[admissions.len() - 1].id@ == id);
            }
        }
        assert(sessions(admissions).dom() =~= sessions(front).dom().insert(last));
        if sessions(front).dom().contains(last) {
            let i = index_of(front, last);
            assert(admissions[i].id@ == admissions[admissions.len() - 1].id@);
        }
    }
}

impl View for ActiveDevices {
    type V = Map<Seq<char>, u64>;

    closed spec fn view(&self) -> Map<Seq<char>, u64> {
        sessions(self.admissions@)
    }
}

impl ActiveDevices {
    /// No identifier is held twice.
    #[verifier::type_invariant]
    spec fn well_formed(self) -> bool {
        distinct(self.admissions@)
    }

    /// The number that the next session gets.
    pub closed spec fn next_session(&self) -> u64 {
        self.next
    }

    /// No source is active.
    pub fn new() -> (active: Self)
        ensures
            active@ == Map::<Seq<char>, u64>::empty(),
            active.next_session() == 0,
    {
        let active = ActiveDevices { admissions: Vec::new(), next: 0 };
        assert(active@ =~= Map::<Seq<char>, u64>::empty());
        active
    }

    /// Where `id` is held, if it is.
    fn position(&self, id: &String) -> (r: Option<usize>)
        ensures
            match r {
                Some(i) => i < self.admissions@.len() && self.admissions@[i as int].id@ == id@
                    && self@.contains_key(id@) && self@[id@] == self.admissions@[i as int].session,
                None => !self@.contains_key(id@),
            },
    {
        proof {
            use_type_invariant(self);
        }
        let mut i: usize = 0;
        while i < self.admissions.len()
            invariant
                i <= self.admissions@.len(),
                distinct(self.admissions@),
                forall|j: int| 0 <= j < i ==> self.admissions@[j].id@ != id@,
            decreases self.admissions@.len() - i,
        {
            if self.admissions[i].id == *id {
                proof {
                    lemma_held(self.admissions@, i as int);
                }
                return Some(i);
            }
            i += 1;
        }
        None
    }

    /// Whether `id` is active.
    pub fn contains(&self, id: &str) -> (r: bool)
        ensures
            r == self@.contains_key(id@),
    {
        let owned = id.to_owned();
        self.position(&owned).is_some()
    }

    /// The number of the session under which `id` is active, if it is.
    pub fn session_of(&self, id: &str) -> (session: Option<u64>)
        ensures
            session == if self@.contains_key(id@) {
                Some(self@[id@])
            } else {
                None
            },
    {
        let owned = id.to_owned();
        match self.position(&owned) {
            Some(i) => Some(self.admissions[i].session),
            None => None,
        }
    }

    /// How many sources are active.
    pub fn len(&self) -> (n: usize)
        ensures
            self@.dom().finite(),
            n == self@.dom().len(),
    {
        proof {
            use_type_invariant(self);
            lemma_distinct_len(self.admissions@);
        }
        self.admissions.len()
    }

    /// Admits `id` unless it is active already, and hands out the number of
    /// the session that starts with the admission.
    pub fn start_session(&mut self, id: &str) -> (session: Option<u64>)
        ensures
            session is Some <==> admits(old(self)@, id@),
            session is Some ==> session->0 == old(self).next_session(),
            final(self)@ == admitted(old(self)@, id@, old(self).next_session()),
            final(self).next_session() == if session is Some {
                following(old(self).next_session())
            } else {
                old(self).next_session()
            },
    {
        proof {
            use_type_invariant(&*self);
        }
        let owned = id.to_owned();
        match self.position(&owned) {
            Some(_) => None,
            None => {
                let session = self.next;
                let next: u64 = if session == u64::MAX {
                    0
                } else {
                    session + 1
                };
                let mut admissions: Vec<Admission> = Vec::new();
                std::mem::swap(&mut self.admissions, &mut admissions);
                let ghost before = admissions@;
                admissions.push(Admission { id: owned, session });
                proof {
                    let after = admissions@;
                    assert(distinct(after)) by {
                        assert forall|i: int, j: int| 0 <= i < j < after.len() implies after[i].id@
                            != after[j].id@ by {
                            if j < before.len() {
                                assert(before[i].id@ != before[j].id@);
                            } else {
                                assert(before[i].id@ != id@) by {
                                    if before[i].id@ == id@ {
                                        lemma_held(before, i);
                                    }
                                }
                            }
                        }
                    }
                    assert forall|x: Seq<char>|
                        sessions(after).contains_key(x) <==> admitted(
                            sessions(before),
                            id@,
                            session,
                        ).contains_key(x) by {
                        if sessions(after).contains_key(x) {
                            let i = index_of(after, x);
                            if i < before.len() {
                                assert(before[i].id@ == x);
                            }
                        }
                        if sessions(before).contains_key(x) {
                            let i = index_of(before, x);
                            assert(after[i].id@ == x);
                        }
                        if x == id@ {
                            assert(after[before.len() as int].id@ == x);
                        }
                    }
                    assert forall|x: Seq<char>| sessions(after).contains_key(x) implies sessions(
                        after,
                    )[x] == admitted(sessions(before), id@, session)[x] by {
                        let i = index_of(after, x);
                        lemma_held(after, i);
                        if i < before.len() {
                            assert(before[i].id@ == x);
                            lemma_held(before, i);
                        }
                    }
                    assert(sessions(after) =~= admitted(sessions(before), id@, session));
                }
                std::mem::swap(&mut self.admissions, &mut admissions);
                self.next = next;
                Some(session)
            },
        }
    }

    /// Admits `id` unless it is active already, and says whether it did.
    pub fn try_admit(&mut self, id: &str) -> (admitted_now: bool)
        ensures
            admitted_now == admits(old(self)@, id@),
            final(self)@ == admitted(old(self)@, id@, old(self).next_session()),
            final(self).next_session() == if admitted_now {
                following(old(self).next_session())
            } else {
                old(self).next_session()
            },
    {
        self.start_session(id).is_some()
    }

    /// Removes the admission at `i`.
    fn remove_at(&mut self, i: usize)
        requires
            i < old(self).admissions@.len(),
        ensures
            final(self)@ == old(self)@.remove(old(self).admissions@[i as int].id@),
            final(self).next_session() == old(self).next_session(),
    {
        proof {
            use_type_invariant(&*self);
        }
        let mut admissions: Vec<Admission> = Vec::new();
        std::mem::swap(&mut self.admissions, &mut admissions);
        let ghost before = admissions@;
        let ghost id = before[i as int].id@;
        admissions.remove(i);
        proof {
            let after = admissions@;
            assert forall|j: int| 0 <= j < after.len() implies after[j] == before[if j < i {
                j
            } else {
                j + 1
            }] by {}
            assert(distinct(after));
            assert forall|x: Seq<char>|
                sessions(after).contains_key(x) <==> sessions(before).remove(id).contains_key(
                    x,
                ) by {
                if sessions(after).contains_key(x) {
                    let j = index_of(after, x);
                    if j < i {
                        assert(before[j].id@ == x);
                    } else {
                        assert(before[j + 1].id@ == x);
                    }
                }
                if sessions(before).remove(id).contains_key(x) {
                    let j = index_of(before, x);
                    if j < i {
                        assert(after[j].id@ == x);
                    } else {
                        assert(after[j - 1].id@ == x);
                    }
                }
            }
            assert forall|x: Seq<char>| sessions(after).contains_key(x) implies sessions(after)[x]
                == sessions(before).remove(id)[x] by {
                let j = index_of(after, x);
                lemma_held(after, j);
                if j < i {
                    lemma_held(before, j);
                } else {
                    lemma_held(before, j + 1);
                }
            }
            assert(sessions(after) =~= sessions(before).remove(id));
        }
        std::mem::swap(&mut self.admissions, &mut admissions);
    }

    /// Releases `id`, whether or not it is active, and whatever its session.
    pub fn release(&mut self, id: &str)
        ensures
            final(self)@ == released(old(self)@, id@),
            final(self).next_session() == old(self).next_session(),
    {
        let owned = id.to_owned();
        match self.position(&owned) {
            Some(i) => {
                self.remove_at(i);
            },
            None => {
                assert(self@ =~= released(old(self)@, id@));
            },
        }
    }

    /// Releases `id` where it is active under the session `session`, and
    /// does nothing where it is not.
    pub fn release_session(&mut self, id: &str, session: u64)
        ensures
            final(self)@ == session_released(old(self)@, id@, session),
            final(self).next_session() == old(self).next_session(),
    {
        let owned = id.to_owned();
        match self.position(&owned) {
            Some(i) => {
                if self.admissions[i].session == session {
                    self.remove_at(i);
                }
            },
            None => {},
        }
    }
}

/// An identifier is admitted the first time and refused the second; once
/// it was released it is admitted again. The first attempt succeeds
/// exactly when the identifier was not active before.
pub proof fn law_admit_then_release(
    active: Map<Seq<char>, u64>,
    id: Seq<char>,
    first: u64,
    second: u64,
)
    ensures
        admits(active, id) == !active.contains_key(id),
        !admits(admitted(active, id, first), id),
        admitted(admitted(active, id, first), id, second) == admitted(active, id, first),
        admits(released(admitted(active, id, first), id), id),
{
}

/// Admitting or releasing one identifier leaves every other one as it was.
pub proof fn law_others_untouched(
    active: Map<Seq<char>, u64>,
    id: Seq<char>,
    session: u64,
    other: Seq<char>,
)
    requires
        other != id,
    ensures
        admitted(active, id, session).contains_key(other) == active.contains_key(other),
        released(active, id).contains_key(other) == active.contains_key(other),
        session_released(active, id, session).contains_key(other) == active.contains_key(other),
        active.contains_key(other) ==> {
            &&& admitted(active, id, session)[other] == active[other]
            &&& released(active, id)[other] == active[other]
            &&& session_released(active, id, session)[other] == active[other]
        },
{
}

/// Releasing is idempotent, and releasing what is not active changes
/// nothing.
pub proof fn law_release_idempotent(active: Map<Seq<char>, u64>, id: Seq<char>, session: u64)
    ensures
        released(released(active, id), id) == released(active, id),
        session_released(session_released(active, id, session), id, session) == session_released(
            active,
            id,
            session,
        ),
        !active.contains_key(id) ==> released(active, id) == active && session_released(
            active,
            id,
            session,
        ) == active,
{
    assert(released(released(active, id), id) =~= released(active, id));
    if !active.contains_key(id) {
        assert(released(active, id) =~= active);
    }
}

/// Two admissions in a row start sessions with different numbers.
pub proof fn law_next_session_differs(session: u64)
    ensures
        following(session) != session,
{
}

/// A session that ends releases its own admission and no later one: where
/// the source was released and admitted anew, under another number, the
/// end of the older session leaves the newer one active.
pub proof fn law_stale_release_spares_new_session(
    active: Map<Seq<char>, u64>,
    id: Seq<char>,
    older: u64,
    newer: u64,
)
    requires
        older != newer,
    ensures
        session_released(admitted(released(active, id), id, newer), id, older) == admitted(
            released(active, id),
            id,
            newer,
        ),
        session_released(admitted(released(active, id), id, newer), id, older).contains_key(id),
        !session_released(admitted(released(active, id), id, older), id, older).contains_key(id),
{
}

} // verus!
