//! Model of the durable store the pipeline writes to.
//!
//! The store holds one table per entity — items, related people, and the
//! roles linking them — plus the day's progress checkpoint row. Items and
//! people are keyed by their remote natural id and upserted: a write with
//! a key already present updates only the mutable fields of the existing
//! record and never adds a row. Role rows carry no such guard and are
//! appended on every write, exactly as the underlying storage behaves.
//! Internal row ids equal the row's position in its table, so they are
//! stable across upserts and usable as foreign keys.

use crate::models::CastMember;
use crate::models::CrewMember;
use crate::models::MovieCreditsResponse;
use crate::models::MovieDetailsResponse;
use vstd::prelude::*;

verus! {

/// Durable record for an item, keyed by `tmdb_id`.
pub struct MovieRecord {
    /// Internal durable id; equals the record's position in the table.
    pub movie_id: u64,
    /// Remote natural key.
    pub tmdb_id: i32,
    pub imdb_id: Option<String>,
    pub title: String,
    pub backdrop_path: Option<String>,
    pub poster_path: Option<String>,
    /// Mutable field: refreshed on every upsert.
    pub popularity: u32,
}

/// Durable record for a related person, keyed by `tmdb_id`.
pub struct PersonRecord {
    /// Internal durable id; equals the record's position in the table.
    pub person_id: u64,
    /// Remote natural key.
    pub tmdb_id: i32,
    /// Mutable field: refreshed on every upsert.
    pub name: String,
    /// Mutable field: refreshed on every upsert.
    pub profile_path: Option<String>,
    /// Mutable field: refreshed on every upsert.
    pub popularity: u32,
}

/// Linking record between an item and a person, with a role label.
/// Inserted unconditionally: it has no idempotency guard.
pub struct RoleRecord {
    /// Internal durable id; equals the record's position in the table.
    pub role_id: u64,
    pub movie_id: u64,
    pub person_id: u64,
    pub character_or_job: String,
}

/// Some record in `s` carries the key `tmdb_id`.
pub open spec fn has_movie(s: Seq<MovieRecord>, tmdb_id: i32) -> bool {
    exists|i: int| 0 <= i < s.len() && s[i].tmdb_id == tmdb_id
}

/// The position of the record carrying `tmdb_id` (unique when the keys
/// are unique).
pub open spec fn movie_index(s: Seq<MovieRecord>, tmdb_id: i32) -> int {
    choose|i: int| 0 <= i < s.len() && s[i].tmdb_id == tmdb_id
}

/// No two records share a key.
pub open spec fn movie_keys_unique(s: Seq<MovieRecord>) -> bool {
    forall|i: int, j: int|
        #![trigger s[i].tmdb_id, s[j].tmdb_id]
        0 <= i < s.len() && 0 <= j < s.len() && i != j ==> s[i].tmdb_id != s[j].tmdb_id
}

/// Number of records in `s` carrying the key `tmdb_id`.
pub open spec fn count_movies_with_key(s: Seq<MovieRecord>, tmdb_id: i32) -> int
    decreases s.len(),
{
    if s.len() == 0 {
        0
    } else {
        count_movies_with_key(s.drop_last(), tmdb_id) + (if s.last().tmdb_id == tmdb_id {
            1int
        } else {
            0int
        })
    }
}

/// Some record in `s` carries the key `tmdb_id`.
pub open spec fn has_person(s: Seq<PersonRecord>, tmdb_id: i32) -> bool {
    exists|i: int| 0 <= i < s.len() && s[i].tmdb_id == tmdb_id
}

/// The position of the record carrying `tmdb_id` (unique when the keys
/// are unique).
pub open spec fn person_index(s: Seq<PersonRecord>, tmdb_id: i32) -> int {
    choose|i: int| 0 <= i < s.len() && s[i].tmdb_id == tmdb_id
}

/// No two records share a key.
pub open spec fn person_keys_unique(s: Seq<PersonRecord>) -> bool {
    forall|i: int, j: int|
        #![trigger s[i].tmdb_id, s[j].tmdb_id]
        0 <= i < s.len() && 0 <= j < s.len() && i != j ==> s[i].tmdb_id != s[j].tmdb_id
}

/// The record `r` with only its mutable field refreshed from `d`.
pub open spec fn merged_movie(r: MovieRecord, d: MovieDetailsResponse) -> MovieRecord {
    MovieRecord { popularity: d.popularity, ..r }
}

/// A fresh movie record for `d`, placed at position `movie_id`.
pub open spec fn new_movie_record(movie_id: u64, d: MovieDetailsResponse) -> MovieRecord {
    MovieRecord {
        movie_id,
        tmdb_id: d.id,
        imdb_id: d.imdb_id,
        title: d.title,
        backdrop_path: d.backdrop_path,
        poster_path: d.poster_path,
        popularity: d.popularity,
    }
}

/// The movie table after upserting payload `d`: an existing record with
/// the payload's key has only its mutable field updated; otherwise a fresh
/// record is appended.
pub open spec fn upsert_movie(s: Seq<MovieRecord>, d: MovieDetailsResponse) -> Seq<MovieRecord> {
    if has_movie(s, d.id) {
        s.update(movie_index(s, d.id), merged_movie(s[movie_index(s, d.id)], d))
    } else {
        s.push(new_movie_record(s.len() as u64, d))
    }
}

/// The durable id an item's upsert yields: the position of the record
/// carrying the payload's key, existing or freshly appended.
pub open spec fn persisted_movie_id(movies: Seq<MovieRecord>, d: MovieDetailsResponse) -> int {
    if has_movie(movies, d.id) {
        movie_index(movies, d.id)
    } else {
        movies.len() as int
    }
}

/// The record `r` with its mutable fields refreshed.
pub open spec fn merged_person(
    r: PersonRecord,
    name: String,
    profile_path: Option<String>,
    popularity: u32,
) -> PersonRecord {
    PersonRecord { name, profile_path, popularity, ..r }
}

/// The person table after upserting one person payload.
pub open spec fn upsert_person(
    s: Seq<PersonRecord>,
    tmdb_id: i32,
    name: String,
    profile_path: Option<String>,
    popularity: u32,
) -> Seq<PersonRecord> {
    if has_person(s, tmdb_id) {
        s.update(
            person_index(s, tmdb_id),
            merged_person(s[person_index(s, tmdb_id)], name, profile_path, popularity),
        )
    } else {
        s.push(
            PersonRecord { person_id: s.len() as u64, tmdb_id, name, profile_path, popularity },
        )
    }
}

/// One credited person as the store ingests them: their key, the mutable
/// payload fields, and the role label linking them to the item.
pub struct PersonPayload {
    pub tmdb_id: i32,
    pub name: String,
    pub profile_path: Option<String>,
    pub popularity: u32,
    pub character_or_job: String,
}

/// The payload a cast member contributes: their character as the label.
pub open spec fn cast_payload(c: CastMember) -> PersonPayload {
    PersonPayload {
        tmdb_id: c.id,
        name: c.name,
        profile_path: c.profile_path,
        popularity: c.popularity,
        character_or_job: c.character,
    }
}

/// The payload a crew member contributes: their job as the label.
pub open spec fn crew_payload(c: CrewMember) -> PersonPayload {
    PersonPayload {
        tmdb_id: c.id,
        name: c.name,
        profile_path: c.profile_path,
        popularity: c.popularity,
        character_or_job: c.job,
    }
}

/// Everybody credited on an item, in persistence order: cast, then crew.
pub open spec fn credits_payloads(credits: MovieCreditsResponse) -> Seq<PersonPayload> {
    credits.cast@.map(|i: int, c: CastMember| cast_payload(c)) + credits.crew@.map(
        |i: int, c: CrewMember| crew_payload(c),
    )
}

/// The person and role tables after ingesting the payloads in order: each
/// payload is upserted by its key, and a fresh role row links the
/// payload's person to the item `movie_id`.
pub open spec fn ingest_people(
    people: Seq<PersonRecord>,
    roles: Seq<RoleRecord>,
    movie_id: u64,
    ps: Seq<PersonPayload>,
) -> (Seq<PersonRecord>, Seq<RoleRecord>)
    decreases ps.len(),
{
    if ps.len() == 0 {
        (people, roles)
    } else {
        let (p1, r1) = ingest_people(people, roles, movie_id, ps.drop_last());
        let last = ps.last();
        let pid = if has_person(p1, last.tmdb_id) {
            person_index(p1, last.tmdb_id)
        } else {
            p1.len() as int
        };
        (
            upsert_person(p1, last.tmdb_id, last.name, last.profile_path, last.popularity),
            r1.push(
                RoleRecord {
                    role_id: r1.len() as u64,
                    movie_id,
                    person_id: pid as u64,
                    character_or_job: last.character_or_job,
                },
            ),
        )
    }
}

/// Position of the record keyed `tmdb_id`, or the table's length when no
/// record carries that key.
fn find_person_index(people: &Vec<PersonRecord>, tmdb_id: i32) -> (r: usize)
    ensures
        r <= people@.len(),
        r < people@.len() ==> people@[r as int].tmdb_id == tmdb_id,
        r == people@.len() ==> !has_person(people@, tmdb_id),
{
    let mut i: usize = 0;
    while i < people.len()
        invariant
            i <= people@.len(),
            forall|j: int| 0 <= j < i ==> people@[j].tmdb_id != tmdb_id,
        decreases people@.len() - i,
    {
        if people[i].tmdb_id == tmdb_id {
            return i;
        }
        i = i + 1;
    }
    i
}

/// An owned copy of an optional string.
fn clone_opt_string(s: &Option<String>) -> (r: Option<String>)
    ensures
        r == *s,
{
    match s {
        Some(x) => Some(x.clone()),
        None => None,
    }
}

/// The durable store: one table per entity and the day's checkpoint row.
pub struct DurableStore {
    pub movies: Vec<MovieRecord>,
    pub people: Vec<PersonRecord>,
    pub roles: Vec<RoleRecord>,
    /// The progress row for the current day's scope: `None` until a run
    /// creates it, then the persisted item count.
    pub checkpoint: Option<u64>,
}

impl DurableStore {
    /// Item keys are unique and internal ids equal positions.
    pub open spec fn movies_wf(self) -> bool {
        &&& movie_keys_unique(self.movies@)
        &&& forall|i: int| 0 <= i < self.movies@.len() ==> self.movies@[i].movie_id == i
    }

    /// Person keys are unique and internal ids equal positions.
    pub open spec fn people_wf(self) -> bool {
        &&& person_keys_unique(self.people@)
        &&& forall|i: int| 0 <= i < self.people@.len() ==> self.people@[i].person_id == i
    }

    /// Role ids equal positions and every role references existing rows.
    pub open spec fn roles_wf(self) -> bool {
        forall|i: int| 0 <= i < self.roles@.len() ==> {
            &&& (#[trigger] self.roles@[i]).role_id == i
            &&& self.roles@[i].movie_id < self.movies@.len()
            &&& self.roles@[i].person_id < self.people@.len()
        }
    }

    /// Well-formedness of the whole store.
    pub open spec fn wf(self) -> bool {
        self.movies_wf() && self.people_wf() && self.roles_wf()
    }

    /// An empty store with no checkpoint row yet.
    pub fn new() -> (s: DurableStore)
        ensures
            s.wf(),
            s.movies@ == Seq::<MovieRecord>::empty(),
            s.people@ == Seq::<PersonRecord>::empty(),
            s.roles@ == Seq::<RoleRecord>::empty(),
            s.checkpoint == None::<u64>,
    {
        DurableStore { movies: Vec::new(), people: Vec::new(), roles: Vec::new(), checkpoint: None }
    }

    /// Upsert the item payload, keyed by its remote id: a present key gets
    /// only its mutable field updated, an absent key gets a fresh record.
    /// Returns the internal durable id of the item's record.
    pub fn write_movie(&mut self, details: MovieDetailsResponse) -> (movie_id: u64)
        requires
            old(self).wf(),
            old(self).movies@.len() < u64::MAX,
        ensures
            final(self).wf(),
            final(self).people@ == old(self).people@,
            final(self).roles@ == old(self).roles@,
            final(self).checkpoint == old(self).checkpoint,
            final(self).movies@ == upsert_movie(old(self).movies@, details),
            movie_id < final(self).movies@.len(),
            final(self).movies@[movie_id as int].tmdb_id == details.id,
            has_movie(old(self).movies@, details.id) ==> {
                &&& final(self).movies@.len() == old(self).movies@.len()
                &&& movie_id == movie_index(old(self).movies@, details.id)
            },
            !has_movie(old(self).movies@, details.id) ==> {
                &&& movie_id == old(self).movies@.len()
                &&& final(self).movies@.len() == old(self).movies@.len() + 1
            },
    {
        let ghost s0 = self.movies@;
        let n = self.movies.len();
        let mut i: usize = 0;
        while i < n
            invariant
                old(self).wf(),
                n == self.movies@.len(),
                *self == *old(self),
                s0 == self.movies@,
                i <= n,
                forall|j: int| 0 <= j < i ==> s0[j].tmdb_id != details.id,
            decreases n - i,
        {
            if self.movies[i].tmdb_id == details.id {
                proof {
                    assert(has_movie(s0, details.id));
                    let j = movie_index(s0, details.id);
                    assert(0 <= j < s0.len() && s0[j].tmdb_id == details.id);
                    if j != i {
                        assert(s0[j].tmdb_id != s0[i as int].tmdb_id);
                    }
                    assert(j == i);
                }
                let mut rec = self.movies.remove(i);
                rec.popularity = details.popularity;
                self.movies.insert(i, rec);
                proof {
                    assert(self.movies@ =~= s0.update(
                        i as int,
                        merged_movie(s0[i as int], details),
                    ));
                    assert(self.movies@ == upsert_movie(s0, details));
                    assert forall|p: int, q: int|
                        0 <= p < self.movies@.len() && 0 <= q < self.movies@.len() && p
                        != q implies (#[trigger] self.movies@[p].tmdb_id) != (
                    #[trigger] self.movies@[q].tmdb_id) by {
                        assert(s0[p].tmdb_id != s0[q].tmdb_id);
                    }
                }
                return i as u64;
            }
            i = i + 1;
        }
        proof {
            assert forall|j: int| 0 <= j < s0.len() implies s0[j].tmdb_id != details.id by {}
            assert(!has_movie(s0, details.id));
        }
        let id = self.movies.len() as u64;
        let rec = MovieRecord {
            movie_id: id,
            tmdb_id: details.id,
            imdb_id: details.imdb_id,
            title: details.title,
            backdrop_path: details.backdrop_path,
            poster_path: details.poster_path,
            popularity: details.popularity,
        };
        self.movies.push(rec);
        proof {
            assert(self.movies@ == upsert_movie(s0, details));
            assert forall|p: int, q: int|
                0 <= p < self.movies@.len() && 0 <= q < self.movies@.len() && p != q implies (
            #[trigger] self.movies@[p].tmdb_id) != (#[trigger] self.movies@[q].tmdb_id) by {
                if p < s0.len() && q < s0.len() {
                    assert(s0[p].tmdb_id != s0[q].tmdb_id);
                } else if q == s0.len() {
                    assert(s0[p].tmdb_id != details.id);
                } else {
                    assert(s0[q].tmdb_id != details.id);
                }
            }
        }
        id
    }

    /// Upsert one person payload (present keys keep their row, with the
    /// mutable fields refreshed) and unconditionally append a role row
    /// linking the person to the item `movie_row_id`. The role insert has
    /// no idempotency guard: replaying it duplicates the linking record.
    /// Returns the internal durable id of the person's record.
    pub fn insert_person(
        &mut self,
        movie_row_id: u64,
        person_tmdb_id: i32,
        name: String,
        profile_path: Option<String>,
        popularity: u32,
        character_or_job: String,
    ) -> (person_id: u64)
        requires
            old(self).wf(),
            movie_row_id < old(self).movies@.len(),
            old(self).people@.len() < u64::MAX,
            old(self).roles@.len() < u64::MAX,
        ensures
            final(self).wf(),
            final(self).movies@ == old(self).movies@,
            final(self).checkpoint == old(self).checkpoint,
            final(self).people@ == upsert_person(
                old(self).people@,
                person_tmdb_id,
                name,
                profile_path,
                popularity,
            ),
            final(self).people@.len() >= old(self).people@.len(),
            forall|k: int|
                0 <= k < old(self).people@.len() ==> (#[trigger] final(self).people@[k]).tmdb_id
                    == old(self).people@[k].tmdb_id,
            person_id < final(self).people@.len(),
            final(self).people@[person_id as int].tmdb_id == person_tmdb_id,
            person_id as int == (if has_person(old(self).people@, person_tmdb_id) {
                person_index(old(self).people@, person_tmdb_id)
            } else {
                old(self).people@.len() as int
            }),
            final(self).roles@ == old(self).roles@.push(
                RoleRecord {
                    role_id: old(self).roles@.len() as u64,
                    movie_id: movie_row_id,
                    person_id,
                    character_or_job,
                },
            ),
    {
        let ghost s0 = self.people@;
        let ghost gname = name;
        let ghost gprofile = profile_path;
        let n = self.people.len();
        let found = find_person_index(&self.people, person_tmdb_id);
        let person_id: u64;
        if found < n {
            proof {
                assert(s0[found as int].tmdb_id == person_tmdb_id);
                assert(has_person(s0, person_tmdb_id));
                let j = person_index(s0, person_tmdb_id);
                assert(0 <= j < s0.len() && s0[j].tmdb_id == person_tmdb_id);
                if j != found {
                    assert(s0[j].tmdb_id != s0[found as int].tmdb_id);
                }
                assert(j == found);
            }
            let mut rec = self.people.remove(found);
            rec.name = name;
            rec.profile_path = profile_path;
            rec.popularity = popularity;
            self.people.insert(found, rec);
            person_id = found as u64;
            proof {
                assert(self.people@ =~= s0.update(
                    found as int,
                    merged_person(s0[found as int], gname, gprofile, popularity),
                ));
                assert forall|p: int, q: int|
                    0 <= p < self.people@.len() && 0 <= q < self.people@.len() && p != q implies (
                #[trigger] self.people@[p].tmdb_id) != (#[trigger] self.people@[q].tmdb_id) by {
                    assert(s0[p].tmdb_id != s0[q].tmdb_id);
                }
            }
        } else {
            proof {
                assert(!has_person(s0, person_tmdb_id));
            }
            person_id = self.people.len() as u64;
            let rec = PersonRecord {
                person_id,
                tmdb_id: person_tmdb_id,
                name,
                profile_path,
                popularity,
            };
            self.people.push(rec);
            proof {
                assert forall|p: int, q: int|
                    0 <= p < self.people@.len() && 0 <= q < self.people@.len() && p != q implies (
                #[trigger] self.people@[p].tmdb_id) != (#[trigger] self.people@[q].tmdb_id) by {
                    if p < s0.len() && q < s0.len() {
                        assert(s0[p].tmdb_id != s0[q].tmdb_id);
                    } else if q == s0.len() {
                        assert(s0[p].tmdb_id != person_tmdb_id);
                    } else {
                        assert(s0[q].tmdb_id != person_tmdb_id);
                    }
                }
            }
        }
        let role = RoleRecord {
            role_id: self.roles.len() as u64,
            movie_id: movie_row_id,
            person_id,
            character_or_job,
        };
        self.roles.push(role);
        person_id
    }

    /// Persist every person credited on an item: each cast member, then
    /// each crew member, is upserted by their remote id and linked to the
    /// item `movie_row_id` by a fresh role row carrying their character or
    /// job label. Role rows are appended in credits order, cast first.
    pub fn write_people(&mut self, movie_row_id: u64, credits: MovieCreditsResponse)
        requires
            old(self).wf(),
            movie_row_id < old(self).movies@.len(),
            old(self).people@.len() + credits.cast@.len() + credits.crew@.len() < u64::MAX,
            old(self).roles@.len() + credits.cast@.len() + credits.crew@.len() < u64::MAX,
        ensures
            final(self).wf(),
            final(self).movies@ == old(self).movies@,
            final(self).checkpoint == old(self).checkpoint,
            final(self).people@ == ingest_people(
                old(self).people@,
                old(self).roles@,
                movie_row_id,
                credits_payloads(credits),
            ).0,
            final(self).roles@ == ingest_people(
                old(self).people@,
                old(self).roles@,
                movie_row_id,
                credits_payloads(credits),
            ).1,
            final(self).people@.len() >= old(self).people@.len(),
            final(self).people@.len() <= old(self).people@.len() + credits.cast@.len()
                + credits.crew@.len(),
            forall|k: int|
                0 <= k < old(self).people@.len() ==> (#[trigger] final(self).people@[k]).tmdb_id
                    == old(self).people@[k].tmdb_id,
            final(self).roles@.len() == old(self).roles@.len() + credits.cast@.len()
                + credits.crew@.len(),
            forall|k: int|
                0 <= k < old(self).roles@.len() ==> final(self).roles@[k] == old(self).roles@[k],
            forall|j: int|
                0 <= j < credits.cast@.len() ==> {
                    let r = #[trigger] final(self).roles@[old(self).roles@.len() + j];
                    &&& r.movie_id == movie_row_id
                    &&& r.character_or_job == credits.cast@[j].character
                    &&& r.person_id < final(self).people@.len()
                    &&& final(self).people@[r.person_id as int].tmdb_id == credits.cast@[j].id
                },
            forall|j: int|
                0 <= j < credits.crew@.len() ==> {
                    let r = #[trigger] final(self).roles@[old(self).roles@.len()
                        + credits.cast@.len() + j];
                    &&& r.movie_id == movie_row_id
                    &&& r.character_or_job == credits.crew@[j].job
                    &&& r.person_id < final(self).people@.len()
                    &&& final(self).people@[r.person_id as int].tmdb_id == credits.crew@[j].id
                },
    {
        let ghost roles0 = self.roles@;
        let ghost people0 = self.people@;
        let ghost ps = credits_payloads(credits);
        let mut i: usize = 0;
        while i < credits.cast.len()
            invariant
                i <= credits.cast@.len(),
                ps == credits_payloads(credits),
                self.people@ == ingest_people(people0, roles0, movie_row_id, ps.take(i as int)).0,
                self.roles@ == ingest_people(people0, roles0, movie_row_id, ps.take(i as int)).1,
                self.wf(),
                movie_row_id < self.movies@.len(),
                self.movies@ == old(self).movies@,
                self.checkpoint == old(self).checkpoint,
                roles0 == old(self).roles@,
                people0 == old(self).people@,
                people0.len() + credits.cast@.len() + credits.crew@.len() < u64::MAX,
                roles0.len() + credits.cast@.len() + credits.crew@.len() < u64::MAX,
                self.people@.len() >= people0.len(),
                self.people@.len() <= people0.len() + i,
                forall|k: int|
                    0 <= k < people0.len() ==> (#[trigger] self.people@[k]).tmdb_id
                        == people0[k].tmdb_id,
                self.roles@.len() == roles0.len() + i,
                forall|k: int| 0 <= k < roles0.len() ==> self.roles@[k] == roles0[k],
                forall|j: int|
                    0 <= j < i ==> {
                        let r = #[trigger] self.roles@[roles0.len() + j];
                        &&& r.movie_id == movie_row_id
                        &&& r.character_or_job == credits.cast@[j].character
                        &&& r.person_id < self.people@.len()
                        &&& self.people@[r.person_id as int].tmdb_id == credits.cast@[j].id
                    },
            decreases credits.cast@.len() - i,
        {
            let member = &credits.cast[i];
            let name = member.name.clone();
            let profile = clone_opt_string(&member.profile_path);
            let character = member.character.clone();
            let _ = self.insert_person(
                movie_row_id,
                member.id,
                name,
                profile,
                member.popularity,
                character,
            );
            proof {
                assert(ps.take(i as int + 1).drop_last() =~= ps.take(i as int));
                assert(ps.take(i as int + 1).last() == ps[i as int]);
                assert(credits.cast@.map(|j: int, c: CastMember| cast_payload(c))[i as int]
                    == cast_payload(credits.cast@[i as int]));
                assert(ps[i as int] == cast_payload(credits.cast@[i as int]));
                assert(self.people@ == ingest_people(
                    people0,
                    roles0,
                    movie_row_id,
                    ps.take(i as int + 1),
                ).0);
                assert(self.roles@ == ingest_people(
                    people0,
                    roles0,
                    movie_row_id,
                    ps.take(i as int + 1),
                ).1);
            }
            i = i + 1;
        }
        let ghost people1 = self.people@;
        let ghost n_people1 = self.people@.len();
        let mut c: usize = 0;
        while c < credits.crew.len()
            invariant
                c <= credits.crew@.len(),
                ps == credits_payloads(credits),
                self.people@ == ingest_people(
                    people0,
                    roles0,
                    movie_row_id,
                    ps.take(credits.cast@.len() + c),
                ).0,
                self.roles@ == ingest_people(
                    people0,
                    roles0,
                    movie_row_id,
                    ps.take(credits.cast@.len() + c),
                ).1,
                self.wf(),
                movie_row_id < self.movies@.len(),
                self.movies@ == old(self).movies@,
                self.checkpoint == old(self).checkpoint,
                roles0 == old(self).roles@,
                people0 == old(self).people@,
                people0.len() + credits.cast@.len() + credits.crew@.len() < u64::MAX,
                roles0.len() + credits.cast@.len() + credits.crew@.len() < u64::MAX,
                n_people1 == people1.len(),
                people1.len() >= people0.len(),
                people1.len() <= people0.len() + credits.cast@.len(),
                self.people@.len() >= people1.len(),
                self.people@.len() <= people1.len() + c,
                forall|k: int|
                    0 <= k < people1.len() ==> (#[trigger] self.people@[k]).tmdb_id
                        == people1[k].tmdb_id,
                forall|k: int|
                    0 <= k < people0.len() ==> (#[trigger] people1[k]).tmdb_id
                        == people0[k].tmdb_id,
                self.roles@.len() == roles0.len() + credits.cast@.len() + c,
                forall|k: int| 0 <= k < roles0.len() ==> self.roles@[k] == roles0[k],
                forall|j: int|
                    0 <= j < credits.cast@.len() ==> {
                        let r = #[trigger] self.roles@[roles0.len() + j];
                        &&& r.movie_id == movie_row_id
                        &&& r.character_or_job == credits.cast@[j].character
                        &&& r.person_id < people1.len()
                        &&& people1[r.person_id as int].tmdb_id == credits.cast@[j].id
                    },
                forall|j: int|
                    0 <= j < c ==> {
                        let r = #[trigger] self.roles@[roles0.len() + credits.cast@.len() + j];
                        &&& r.movie_id == movie_row_id
                        &&& r.character_or_job == credits.crew@[j].job
                        &&& r.person_id < self.people@.len()
                        &&& self.people@[r.person_id as int].tmdb_id == credits.crew@[j].id
                    },
            decreases credits.crew@.len() - c,
        {
            let member = &credits.crew[c];
            let name = member.name.clone();
            let profile = clone_opt_string(&member.profile_path);
            let job = member.job.clone();
            let _ = self.insert_person(
                movie_row_id,
                member.id,
                name,
                profile,
                member.popularity,
                job,
            );
            proof {
                let at = credits.cast@.len() + c;
                assert(ps.take(at + 1).drop_last() =~= ps.take(at as int));
                assert(ps.take(at + 1).last() == ps[at as int]);
                assert(credits.crew@.map(|j: int, m: CrewMember| crew_payload(m))[c as int]
                    == crew_payload(credits.crew@[c as int]));
                assert(ps[at as int] == crew_payload(credits.crew@[c as int]));
                assert(self.people@ == ingest_people(people0, roles0, movie_row_id, ps.take(at + 1)).0);
                assert(self.roles@ == ingest_people(people0, roles0, movie_row_id, ps.take(at + 1)).1);
            }
            c = c + 1;
        }
        proof {
            assert(ps.take(ps.len() as int) =~= ps);
            assert(ps.len() == credits.cast@.len() + credits.crew@.len());
            assert forall|j: int| 0 <= j < credits.cast@.len() implies {
                let r = #[trigger] self.roles@[roles0.len() + j];
                &&& r.movie_id == movie_row_id
                &&& r.character_or_job == credits.cast@[j].character
                &&& r.person_id < self.people@.len()
                &&& self.people@[r.person_id as int].tmdb_id == credits.cast@[j].id
            } by {
                let r = self.roles@[roles0.len() + j];
                assert(r.person_id < people1.len());
                assert(self.people@[r.person_id as int].tmdb_id == people1[r.person_id as int].tmdb_id);
            }
        }
    }

    /// Read the day's checkpoint row, creating it at zero on the first run
    /// of the day, and return the resume offset.
    pub fn fetch_start_index(&mut self) -> (index: u64)
        requires
            old(self).wf(),
        ensures
            final(self).wf(),
            final(self).movies@ == old(self).movies@,
            final(self).people@ == old(self).people@,
            final(self).roles@ == old(self).roles@,
            match old(self).checkpoint {
                Some(v) => index == v && final(self).checkpoint == Some(v),
                None => index == 0 && final(self).checkpoint == Some(0u64),
            },
    {
        match self.checkpoint {
            Some(v) => v,
            None => {
                self.checkpoint = Some(0);
                0
            },
        }
    }

    /// Write `index` to the day's checkpoint row. The underlying statement
    /// is an update: when no row exists for the day, nothing is written.
    pub fn update_progress(&mut self, index: u64)
        requires
            old(self).wf(),
        ensures
            final(self).wf(),
            final(self).movies@ == old(self).movies@,
            final(self).people@ == old(self).people@,
            final(self).roles@ == old(self).roles@,
            final(self).checkpoint == (if old(self).checkpoint is Some {
                Some(index)
            } else {
                None::<u64>
            }),
    {
        if self.checkpoint.is_some() {
            self.checkpoint = Some(index);
        }
    }
}

/// With unique keys, a table holds exactly one record with a present key
/// and none with an absent key.
pub proof fn lemma_movie_count_by_key(s: Seq<MovieRecord>, tmdb_id: i32)
    requires
        movie_keys_unique(s),
    ensures
        count_movies_with_key(s, tmdb_id) == (if has_movie(s, tmdb_id) {
            1int
        } else {
            0int
        }),
    decreases s.len(),
{
    if s.len() > 0 {
        let prefix = s.drop_last();
        assert forall|p: int, q: int|
            0 <= p < prefix.len() && 0 <= q < prefix.len() && p != q implies (
        #[trigger] prefix[p].tmdb_id) != (#[trigger] prefix[q].tmdb_id) by {
            assert(s[p].tmdb_id != s[q].tmdb_id);
        }
        lemma_movie_count_by_key(prefix, tmdb_id);
        if s.last().tmdb_id == tmdb_id {
            assert(has_movie(s, tmdb_id));
            assert forall|i: int| 0 <= i < prefix.len() implies prefix[i].tmdb_id != tmdb_id by {
                assert(s[i].tmdb_id != s[s.len() - 1].tmdb_id);
            }
            assert(!has_movie(prefix, tmdb_id));
        } else {
            if has_movie(s, tmdb_id) {
                let w = choose|i: int| 0 <= i < s.len() && s[i].tmdb_id == tmdb_id;
                assert(w < s.len() - 1);
                assert(prefix[w].tmdb_id == tmdb_id);
                assert(has_movie(prefix, tmdb_id));
            }
            if has_movie(prefix, tmdb_id) {
                let w = choose|i: int| 0 <= i < prefix.len() && prefix[i].tmdb_id == tmdb_id;
                assert(s[w].tmdb_id == tmdb_id);
                assert(has_movie(s, tmdb_id));
            }
        }
    }
}

/// An upsert never removes a record: every key present before is present
/// after, whatever payload was written.
pub proof fn lemma_upsert_preserves_keys(s: Seq<MovieRecord>, d: MovieDetailsResponse, k: i32)
    requires
        has_movie(s, k),
    ensures
        has_movie(upsert_movie(s, d), k),
{
    let w = choose|i: int| 0 <= i < s.len() && s[i].tmdb_id == k;
    assert(upsert_movie(s, d)[w].tmdb_id == k);
}

/// Idempotent-upsert law: upserting an item payload, then upserting a
/// payload with the same key again, leaves exactly one durable record with
/// that key, and the second upsert changes nothing but the record's
/// mutable field. In particular, upserting the very same payload twice
/// leaves the table exactly as after the first upsert.
pub proof fn lemma_upsert_idempotent(
    s: Seq<MovieRecord>,
    d: MovieDetailsResponse,
    d2: MovieDetailsResponse,
)
    requires
        movie_keys_unique(s),
        d2.id == d.id,
    ensures
        count_movies_with_key(upsert_movie(s, d), d.id) == 1,
        upsert_movie(upsert_movie(s, d), d2) == upsert_movie(s, d).update(
            movie_index(upsert_movie(s, d), d.id),
            merged_movie(upsert_movie(s, d)[movie_index(upsert_movie(s, d), d.id)], d2),
        ),
        upsert_movie(upsert_movie(s, d), d2).len() == upsert_movie(s, d).len(),
        d2 == d ==> upsert_movie(upsert_movie(s, d), d2) == upsert_movie(s, d),
{
    let s1 = upsert_movie(s, d);
    // The first upsert leaves the keys unique and the key present.
    if has_movie(s, d.id) {
        let j = movie_index(s, d.id);
        assert(0 <= j < s.len() && s[j].tmdb_id == d.id);
        assert(s1[j].tmdb_id == d.id);
        assert(has_movie(s1, d.id));
        assert forall|p: int, q: int|
            0 <= p < s1.len() && 0 <= q < s1.len() && p != q implies (#[trigger] s1[p].tmdb_id) != (
        #[trigger] s1[q].tmdb_id) by {
            assert(s[p].tmdb_id != s[q].tmdb_id);
        }
    } else {
        assert(s1[s.len() as int].tmdb_id == d.id);
        assert(has_movie(s1, d.id));
        assert forall|p: int, q: int|
            0 <= p < s1.len() && 0 <= q < s1.len() && p != q implies (#[trigger] s1[p].tmdb_id) != (
        #[trigger] s1[q].tmdb_id) by {
            if p < s.len() && q < s.len() {
                assert(s[p].tmdb_id != s[q].tmdb_id);
            } else if q == s.len() {
                assert(!(0 <= p < s.len() && s[p].tmdb_id == d.id));
            } else {
                assert(!(0 <= q < s.len() && s[q].tmdb_id == d.id));
            }
        }
    }
    assert(movie_keys_unique(s1));
    lemma_movie_count_by_key(s1, d.id);
    // The second upsert hits the same record.
    let j2 = movie_index(s1, d.id);
    assert(0 <= j2 < s1.len() && s1[j2].tmdb_id == d.id);
    assert(has_movie(s1, d2.id));
    assert(upsert_movie(s1, d2) == s1.update(j2, merged_movie(s1[j2], d2)));
    if d2 == d {
        if has_movie(s, d.id) {
            let j = movie_index(s, d.id);
            if j2 != j {
                assert(s1[j2].tmdb_id != s1[j].tmdb_id);
            }
            assert(j2 == j);
            assert(merged_movie(s1[j2], d) == s1[j2]);
        } else {
            if j2 != s.len() {
                assert(s1[j2].tmdb_id != s1[s.len() as int].tmdb_id);
            }
            assert(j2 == s.len());
            assert(merged_movie(s1[j2], d) == s1[j2]);
        }
        assert(s1.update(j2, s1[j2]) =~= s1);
    }
}

} // verus!
