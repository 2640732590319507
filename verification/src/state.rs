//! The in-memory user directory application: a visitor counter, the user
//! directory, the `/user/<uuid>` and `/users/<name_grade>` handlers, their
//! plain-text responses and the 404/403 catchers.
use vstd::prelude::*;
use vstd::string::*;
use crate::http::Status;
use crate::name_grade::NameGrade;
use crate::text::{
    contains_str, debug_plain, debug_quoted, debug_str, decimal, join_with, occurs_in, owned,
    push_decimal, quoted, same_text,
};

verus! {

/// Counts the visits to the user routes.
pub struct VisitorCounter {
    pub visitor: u64,
}

/// The line logged after each visit.
pub open spec fn visitor_line(count: u64) -> Seq<char> {
    "The number of visitor is: "@ + decimal(count as nat)
}

impl VisitorCounter {
    /// Adds one visit (wrapping at `u64::MAX`, as `AtomicU64::fetch_add`
    /// does) and returns the log line with the new count.
    pub fn increment_counter(&mut self) -> (line: String)
        ensures
            final(self).visitor == (if old(self).visitor == u64::MAX { 0 } else { (old(self).visitor + 1) as u64 }),
            line@ == visitor_line(final(self).visitor),
    {
        self.visitor = self.visitor.wrapping_add(1);
        let mut line = owned("The number of visitor is: ");
        push_decimal(&mut line, self.visitor);
        line
    }
}

/// A user of the directory.
pub struct User {
    pub uuid: String,
    pub name: String,
    pub age: u8,
    pub grade: u8,
    pub active: bool,
}

pub struct UserView {
    pub uuid: Seq<char>,
    pub name: Seq<char>,
    pub age: u8,
    pub grade: u8,
    pub active: bool,
}

impl View for User {
    type V = UserView;

    open spec fn view(&self) -> UserView {
        UserView {
            uuid: self.uuid@,
            name: self.name@,
            age: self.age,
            grade: self.grade,
            active: self.active,
        }
    }
}

/// The user directory: users under distinct keys, kept in insertion order.
pub struct UserStore {
    entries: Vec<(String, User)>,
}

/// Whether `key` is one of the keys of `entries`.
pub open spec fn has_key(entries: Seq<(Seq<char>, UserView)>, key: Seq<char>) -> bool {
    exists|i: int| 0 <= i < entries.len() && (#[trigger] entries[i]).0 == key
}

/// The keys of `entries` are pairwise distinct.
pub open spec fn keys_distinct(entries: Seq<(Seq<char>, UserView)>) -> bool {
    forall|i: int, j: int|
        0 <= i < entries.len() && 0 <= j < entries.len() && i != j ==> (#[trigger] entries[i]).0
            != (#[trigger] entries[j]).0
}

/// The user filed under `key`, if any.
pub open spec fn lookup(entries: Seq<(Seq<char>, UserView)>, key: Seq<char>) -> Option<UserView>
    decreases entries.len(),
{
    if entries.len() == 0 {
        None
    } else if entries.last().0 == key {
        Some(entries.last().1)
    } else {
        lookup(entries.drop_last(), key)
    }
}

/// `entries` after filing `user` under `key`: the entry under `key` is
/// replaced in place, or the pair is appended when the key is new.
pub open spec fn inserted(entries: Seq<(Seq<char>, UserView)>, key: Seq<char>, user: UserView) -> Seq<
    (Seq<char>, UserView),
> {
    if has_key(entries, key) {
        let i = choose|i: int| 0 <= i < entries.len() && (#[trigger] entries[i]).0 == key;
        entries.update(i, (key, user))
    } else {
        entries.push((key, user))
    }
}

/// The users of `entries`, in order.
pub open spec fn users_of(entries: Seq<(Seq<char>, UserView)>) -> Seq<UserView> {
    entries.map_values(|e: (Seq<char>, UserView)| e.1)
}

/// With distinct keys, `lookup` finds the entry that holds the key.
pub proof fn lemma_lookup_at(entries: Seq<(Seq<char>, UserView)>, i: int)
    requires
        keys_distinct(entries),
        0 <= i < entries.len(),
    ensures
        lookup(entries, entries[i].0) == Some(entries[i].1),
    decreases entries.len(),
{
    if i < entries.len() - 1 {
        assert(entries.last() == entries[entries.len() - 1]);
        assert(entries.drop_last()[i] == entries[i]);
        assert(keys_distinct(entries.drop_last()));
        lemma_lookup_at(entries.drop_last(), i);
    }
}

/// `lookup` finds nothing for a key that is not there.
pub proof fn lemma_lookup_absent(entries: Seq<(Seq<char>, UserView)>, key: Seq<char>)
    requires
        !has_key(entries, key),
    ensures
        lookup(entries, key) is None,
    decreases entries.len(),
{
    if entries.len() > 0 {
        assert(entries.last() == entries[entries.len() - 1]);
        assert forall|i: int| 0 <= i < entries.drop_last().len() implies (
        #[trigger] entries.drop_last()[i]).0 != key by {
            assert(entries.drop_last()[i] == entries[i]);
        }
        lemma_lookup_absent(entries.drop_last(), key);
    }
}

impl View for UserStore {
    type V = Seq<(Seq<char>, UserView)>;

    closed spec fn view(&self) -> Seq<(Seq<char>, UserView)> {
        self.entries@.map_values(|e: (String, User)| (e.0@, e.1@))
    }
}

impl UserStore {
    #[verifier::type_invariant]
    closed spec fn distinct_keys(self) -> bool {
        keys_distinct(self@)
    }

    /// The empty directory.
    pub fn new() -> (s: UserStore)
        ensures
            s@ == Seq::<(Seq<char>, UserView)>::empty(),
    {
        let s = UserStore { entries: Vec::new() };
        assert(s@ =~= Seq::<(Seq<char>, UserView)>::empty());
        s
    }

    /// Files `user` under `key` (`HashMap::insert`).
    pub fn insert(&mut self, key: &str, user: User)
        ensures
            final(self)@ == inserted(old(self)@, key@, user@),
            keys_distinct(final(self)@),
    {
        proof {
            use_type_invariant(&*self);
        }
        let n = self.entries.len();
        let mut i: usize = 0;
        while i < n
            invariant
                i <= n,
                n == self.entries@.len(),
                self@ == self.entries@.map_values(|e: (String, User)| (e.0@, e.1@)),
                self@ == old(self)@,
                keys_distinct(self@),
                forall|k: int| 0 <= k < i ==> self@[k].0 != key@,
            decreases n - i,
        {
            if same_text(self.entries[i].0.as_str(), key) {
                let ghost before = self@;
                assert(before[i as int].0 == key@);
                let ghost j = choose|j: int| 0 <= j < before.len() && (#[trigger] before[j]).0 == key@;
                assert(j == i);
                let mut entries = Vec::new();
                std::mem::swap(&mut entries, &mut self.entries);
                entries.set(i, (owned(key), user));
                assert(entries@.map_values(|e: (String, User)| (e.0@, e.1@)) =~= before.update(
                    i as int,
                    (key@, user@),
                ));
                assert(keys_distinct(before.update(i as int, (key@, user@))));
                self.entries = entries;
                return;
            }
            i = i + 1;
        }
        let ghost before = self@;
        let mut entries = Vec::new();
        std::mem::swap(&mut entries, &mut self.entries);
        entries.push((owned(key), user));
        assert(!has_key(before, key@));
        assert(keys_distinct(before.push((key@, user@))));
        assert(entries@.map_values(|e: (String, User)| (e.0@, e.1@)) =~= before.push((key@, user@)));
        self.entries = entries;
    }

    /// The user filed under `key` (`HashMap::get`).
    pub fn get(&self, key: &str) -> (res: Option<&User>)
        ensures
            match res {
                Some(u) => lookup(self@, key@) == Some(u@),
                None => lookup(self@, key@) is None,
            },
            keys_distinct(self@),
    {
        proof {
            use_type_invariant(self);
        }
        let n = self.entries.len();
        let mut i: usize = 0;
        while i < n
            invariant
                i <= n,
                n == self.entries@.len(),
                self@ == self.entries@.map_values(|e: (String, User)| (e.0@, e.1@)),
                keys_distinct(self@),
                forall|k: int| 0 <= k < i ==> self@[k].0 != key@,
            decreases n - i,
        {
            if same_text(self.entries[i].0.as_str(), key) {
                assert(self@[i as int].0 == key@);
                proof {
                    lemma_lookup_at(self@, i as int);
                }
                return Some(&self.entries[i].1);
            }
            i = i + 1;
        }
        proof {
            lemma_lookup_absent(self@, key@);
        }
        None
    }
}

/// Filing a user and then looking its key up gives that user back; every
/// other key gives what it gave before, and the keys stay distinct.
pub proof fn lemma_get_after_insert(
    entries: Seq<(Seq<char>, UserView)>,
    key: Seq<char>,
    user: UserView,
    other: Seq<char>,
)
    requires
        keys_distinct(entries),
    ensures
        keys_distinct(inserted(entries, key, user)),
        lookup(inserted(entries, key, user), key) == Some(user),
        other != key ==> lookup(inserted(entries, key, user), other) == lookup(entries, other),
{
    let after = inserted(entries, key, user);
    if has_key(entries, key) {
        let i = choose|i: int| 0 <= i < entries.len() && (#[trigger] entries[i]).0 == key;
        assert(keys_distinct(after));
        lemma_lookup_at(after, i);
        if other != key {
            if has_key(entries, other) {
                let j = choose|j: int| 0 <= j < entries.len() && (#[trigger] entries[j]).0 == other;
                lemma_lookup_at(entries, j);
                assert(after[j] == entries[j]);
                lemma_lookup_at(after, j);
            } else {
                lemma_lookup_absent(entries, other);
                assert forall|j: int| 0 <= j < after.len() implies (#[trigger] after[j]).0 != other by {
                    if j != i {
                        assert(after[j] == entries[j]);
                    }
                }
                lemma_lookup_absent(after, other);
            }
        }
    } else {
        assert(keys_distinct(after));
        assert(after.drop_last() =~= entries);
        if other != key {
            assert(after.last().0 == key);
        }
    }
}

/// The `age` and `active` query filters of `/users/<name_grade>`.
#[derive(Clone, Copy, Debug)]
pub struct Filters {
    pub age: u8,
    pub active: bool,
}

/// The `Debug` rendering of a user, as `#[derive(Debug)]` prints a struct
/// named `User` with these fields.
pub open spec fn debug_user(u: UserView) -> Seq<char> {
    "User { uuid: "@ + debug_quoted(u.uuid) + ", name: "@ + debug_quoted(u.name) + ", age: "@
        + decimal(u.age as nat) + ", grade: "@ + decimal(u.grade as nat) + ", active: "@ + (if u.active {
        "true"@
    } else {
        "false"@
    }) + " }"@
}

/// The `Debug` rendering of a user whose uuid and name `Debug` shows
/// unescaped: `User { uuid: "<uuid>", name: "<name>", age: <age>, grade:
/// <grade>, active: <true or false> }`.
pub open spec fn plain_debug_user(u: UserView) -> Seq<char> {
    "User { uuid: "@ + quoted(u.uuid) + ", name: "@ + quoted(u.name) + ", age: "@ + decimal(u.age as nat)
        + ", grade: "@ + decimal(u.grade as nat) + ", active: "@ + (if u.active {
        "true"@
    } else {
        "false"@
    }) + " }"@
}

/// A plain-text response, with the value of its `X-USER-ID` header if it has one.
pub struct TextResponse {
    pub body: String,
    pub user_id: Option<String>,
}

impl User {
    /// Appends the `Debug` rendering of this user to `out`.
    pub fn push_debug(&self, out: &mut String)
        ensures
            final(out)@ == old(out)@ + debug_user(self@),
            debug_plain(self.uuid@) && debug_plain(self.name@) ==> final(out)@ == old(out)@ + plain_debug_user(self@),
    {
        out.append("User { uuid: ");
        let q = debug_str(self.uuid.as_str());
        out.append(q.as_str());
        out.append(", name: ");
        let q = debug_str(self.name.as_str());
        out.append(q.as_str());
        out.append(", age: ");
        push_decimal(out, self.age as u64);
        out.append(", grade: ");
        push_decimal(out, self.grade as u64);
        out.append(", active: ");
        if self.active {
            out.append("true");
        } else {
            out.append("false");
        }
        out.append(" }");
        assert(out@ =~= old(out)@ + debug_user(self@));
        assert(debug_plain(self.uuid@) && debug_plain(self.name@) ==> debug_user(self@) =~= plain_debug_user(self@));
    }

    /// The response for a found user: `Found user: ` and its `Debug`
    /// rendering, with its uuid in the `X-USER-ID` header.
    pub fn respond_to(&self) -> (r: TextResponse)
        ensures
            r.body@ == "Found user: "@ + debug_user(self@),
            debug_plain(self.uuid@) && debug_plain(self.name@) ==> r.body@ == "Found user: "@ + plain_debug_user(self@),
            r.user_id matches Some(id) && id@ == self.uuid@,
    {
        let mut body = owned("Found user: ");
        self.push_debug(&mut body);
        TextResponse { body, user_id: Some(owned(self.uuid.as_str())) }
    }
}

/// The users that a `/users/<name_grade>` query found.
pub struct NewUser<'a>(pub Vec<&'a User>);

impl<'a> NewUser<'a> {
    /// The response listing the found users: their `Debug` renderings joined
    /// with commas.
    pub fn respond_to(&self) -> (r: TextResponse)
        ensures
            r.body@ == join_with(self.0@.map_values(|u: &User| debug_user(u@)), ","@),
            r.user_id is None,
    {
        let ghost pieces = self.0@.map_values(|u: &User| debug_user(u@));
        let mut body = String::new();
        let n = self.0.len();
        let mut i: usize = 0;
        while i < n
            invariant
                i <= n,
                n == self.0@.len(),
                pieces == self.0@.map_values(|u: &User| debug_user(u@)),
                body@ == join_with(pieces.take(i as int), ","@),
            decreases n - i,
        {
            assert(pieces.take(i + 1).drop_last() =~= pieces.take(i as int));
            if i > 0 {
                body.append(",");
            } else {
                assert(pieces.take(0) =~= Seq::<Seq<char>>::empty());
            }
            self.0[i].push_debug(&mut body);
            i = i + 1;
        }
        assert(pieces.take(n as int) =~= pieces);
        TextResponse { body, user_id: None }
    }
}

/// Whether `u` answers a query for `name` (a substring of the user's name),
/// `grade`, and the optional filters.
pub open spec fn user_matches(u: UserView, name: Seq<char>, grade: u8, filters: Option<Filters>) -> bool {
    &&& occurs_in(name, u.name)
    &&& u.grade == grade
    &&& match filters {
        Some(f) => u.age == f.age && u.active == f.active,
        None => true,
    }
}

/// What a user query lists, stated on the listed users themselves: each has
/// a name containing the queried name and the queried grade, and, when
/// filters are given, the filtered age and activity; each comes from the
/// directory; and every user of the directory with all of those is listed.
pub proof fn lemma_user_query(
    entries: Seq<(Seq<char>, UserView)>,
    name: Seq<char>,
    grade: u8,
    filters: Option<Filters>,
)
    ensures
        ({
            let found = users_of(entries).filter(|u: UserView| user_matches(u, name, grade, filters));
            &&& forall|i: int|
                0 <= i < found.len() ==> occurs_in(name, (#[trigger] found[i]).name) && found[i].grade == grade
                    && (filters matches Some(f) ==> found[i].age == f.age && found[i].active == f.active)
                    && users_of(entries).contains(found[i])
            &&& forall|j: int|
                0 <= j < entries.len() && occurs_in(name, (#[trigger] entries[j]).1.name) && entries[j].1.grade == grade
                    && (filters matches Some(f) ==> entries[j].1.age == f.age && entries[j].1.active == f.active)
                    ==> found.contains(entries[j].1)
        }),
{
    let pred = |u: UserView| user_matches(u, name, grade, filters);
    let all = users_of(entries);
    let found = all.filter(pred);
    assert forall|i: int| 0 <= i < found.len() implies occurs_in(name, (#[trigger] found[i]).name) && found[i].grade == grade
        && (filters matches Some(f) ==> found[i].age == f.age && found[i].active == f.active)
        && all.contains(found[i]) by {
        all.lemma_filter_pred(pred, i);
        assert(found.contains(found[i]));
        all.lemma_filter_contains_rev(pred, found[i]);
    }
    assert forall|j: int| 0 <= j < entries.len() && occurs_in(name, (#[trigger] entries[j]).1.name) && entries[j].1.grade == grade
        && (filters matches Some(f) ==> entries[j].1.age == f.age && entries[j].1.active == f.active)
        implies found.contains(entries[j].1) by {
        assert(all[j] == entries[j].1);
        all.lemma_filter_contains(pred, j);
    }
}

/// Handler of `/user/<uuid>`: counts the visit and looks the key up.
/// Returns the log line of the visit and the user found, if any.
pub fn user<'a>(counter: &mut VisitorCounter, store: &'a UserStore, uuid: &str) -> (res: (
    String,
    Option<&'a User>,
))
    ensures
        final(counter).visitor == (if old(counter).visitor == u64::MAX { 0 } else { (old(counter).visitor + 1) as u64 }),
        res.0@ == visitor_line(final(counter).visitor),
        match res.1 {
            Some(u) => lookup(store@, uuid@) == Some(u@),
            None => lookup(store@, uuid@) is None,
        },
{
    let line = counter.increment_counter();
    (line, store.get(uuid))
}

/// Handler of `/users/<name_grade>?<filters..>`: counts the visit and lists,
/// in directory order, the users whose name contains the queried name, whose
/// grade is the queried grade and that pass the filters; when none does the
/// answer is `403 Forbidden`.
pub fn users<'a>(
    counter: &mut VisitorCounter,
    store: &'a UserStore,
    name_grade: &NameGrade,
    filters: Option<Filters>,
) -> (res: (String, Result<NewUser<'a>, Status>))
    ensures
        final(counter).visitor == (if old(counter).visitor == u64::MAX { 0 } else { (old(counter).visitor + 1) as u64 }),
        res.0@ == visitor_line(final(counter).visitor),
        ({
            let found = users_of(store@).filter(
                |u: UserView| user_matches(u, name_grade.name@, name_grade.grade, filters),
            );
            match res.1 {
                Ok(nu) => found.len() > 0 && nu.0@.map_values(|u: &User| u@) == found,
                Err(st) => found.len() == 0 && st == Status::Forbidden,
            }
        }),
        res.1 matches Ok(nu) ==> forall|i: int|
            0 <= i < nu.0@.len() ==> occurs_in(name_grade.name@, (#[trigger] nu.0@[i]).name@) && nu.0@[i].grade == name_grade.grade
                && (filters matches Some(f) ==> nu.0@[i].age == f.age && nu.0@[i].active == f.active),
        forall|j: int|
            0 <= j < store@.len() && occurs_in(name_grade.name@, (#[trigger] store@[j]).1.name) && store@[j].1.grade == name_grade.grade
                && (filters matches Some(f) ==> store@[j].1.age == f.age && store@[j].1.active == f.active)
                ==> (res.1 matches Ok(nu) && nu.0@.map_values(|u: &User| u@).contains(store@[j].1)),
{
    proof {
        lemma_user_query(store@, name_grade.name@, name_grade.grade, filters);
    }
    let line = counter.increment_counter();
    let ghost pred = |u: UserView| user_matches(u, name_grade.name@, name_grade.grade, filters);
    let ghost all = users_of(store@);
    let mut found: Vec<&'a User> = Vec::new();
    let n = store.entries.len();
    let mut i: usize = 0;
    while i < n
        invariant
            i <= n,
            n == store.entries@.len(),
            all == users_of(store@),
            all.len() == n,
            forall|k: int| 0 <= k < n ==> #[trigger] all[k] == store.entries@[k].1@,
            found@.map_values(|u: &User| u@) == all.take(i as int).filter(pred),
            pred == (|u: UserView| user_matches(u, name_grade.name@, name_grade.grade, filters)),
        decreases n - i,
    {
        let u: &'a User = &store.entries[i].1;
        assert(all.take(i + 1).drop_last() =~= all.take(i as int));
        assert(all.take(i + 1).last() == u@);
        reveal(Seq::filter);
        let hit = contains_str(u.name.as_str(), name_grade.name.as_str()) && u.grade
            == name_grade.grade && match filters {
            Some(f) => u.age == f.age && u.active == f.active,
            None => true,
        };
        assert(hit == pred(u@));
        if hit {
            found.push(u);
            assert(found@.map_values(|u: &User| u@) =~= all.take(i as int).filter(pred).push(u@));
        }
        i = i + 1;
    }
    assert(all.take(n as int) =~= all);
    if found.len() == 0 {
        assert(all.filter(pred).len() == 0);
        (line, Err(Status::Forbidden))
    } else {
        proof {
            let listed = all.filter(pred);
            assert forall|i: int| 0 <= i < found@.len() implies occurs_in(name_grade.name@, (#[trigger] found@[i]).name@)
                && found@[i].grade == name_grade.grade && (filters matches Some(f) ==> found@[i].age == f.age
                && found@[i].active == f.active) by {
                assert(found@.map_values(|u: &User| u@)[i] == found@[i]@);
                assert(listed[i] == found@[i]@);
            }
        }
        (line, Ok(NewUser(found)))
    }
}

/// Body of the 404 catcher.
pub fn not_found(uri: &str) -> (res: String)
    ensures
        res@ == "We cannot find this page "@ + uri@ + "."@,
{
    let mut res = owned("We cannot find this page ");
    res.append(uri);
    res.append(".");
    res
}

/// Body of the 403 catcher.
pub fn forbidden(uri: &str) -> (res: String)
    ensures
        res@ == "Access forbidden "@ + uri@ + "."@,
{
    let mut res = owned("Access forbidden ");
    res.append(uri);
    res.append(".");
    res
}

/// The directory the application starts with.
pub open spec fn seed_entries() -> Seq<(Seq<char>, UserView)> {
    seq![
        ("3e3dd4ae-3c37-40c6-aa64-7061f284ce28"@, UserView {
            uuid: "3e3dd4ae-3c37-40c6-aa64-7061f284ce28"@,
            name: "John Doe"@,
            age: 18,
            grade: 1,
            active: true,
        }),
        ("abc123"@, UserView { uuid: "acb123"@, name: "Fabio"@, age: 33, grade: 2, active: true }),
    ]
}

/// Builds the starting directory. The second user is filed under `abc123`
/// although its own uuid reads `acb123`.
pub fn seed_users() -> (s: UserStore)
    ensures
        s@ == seed_entries(),
{
    let mut s = UserStore::new();
    let john = User {
        uuid: owned("3e3dd4ae-3c37-40c6-aa64-7061f284ce28"),
        name: owned("John Doe"),
        age: 18,
        grade: 1,
        active: true,
    };
    s.insert("3e3dd4ae-3c37-40c6-aa64-7061f284ce28", john);
    let fabio = User { uuid: owned("acb123"), name: owned("Fabio"), age: 33, grade: 2, active: true };
    proof {
        reveal_strlit("3e3dd4ae-3c37-40c6-aa64-7061f284ce28");
        reveal_strlit("abc123");
        assert(s@.len() == 1);
        assert(s@[0].0[0] != "abc123"@[0]);
    }
    s.insert("abc123", fabio);
    assert(s@ =~= seed_entries());
    s
}

/// What the application is launched with: the counter it manages, the base
/// its routes are mounted on, its routes, and the statuses it has catchers for.
pub struct Launch {
    pub counter: VisitorCounter,
    pub base: String,
    pub routes: Vec<String>,
    pub catchers: Vec<u16>,
}

/// The launch configuration: a counter at zero, the `user` and `users`
/// routes mounted on `/`, and catchers for 404 and 403.
pub fn rocket() -> (l: Launch)
    ensures
        l.counter.visitor == 0,
        l.base@ == "/"@,
        l.routes@.map_values(|r: String| r@) == seq!["user"@, "users"@],
        l.catchers@ == seq![404u16, 403u16],
{
    let mut routes: Vec<String> = Vec::new();
    routes.push(owned("user"));
    routes.push(owned("users"));
    let mut catchers: Vec<u16> = Vec::new();
    catchers.push(404);
    catchers.push(403);
    assert(routes@.map_values(|r: String| r@) =~= seq!["user"@, "users"@]);
    assert(catchers@ =~= seq![404u16, 403u16]);
    Launch { counter: VisitorCounter { visitor: 0 }, base: owned("/"), routes, catchers }
}

} // verus!
