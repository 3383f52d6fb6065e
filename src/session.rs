use vstd::prelude::*;

verus! {

/// The private cookie that holds the access token.
pub const TOKEN_COOKIE: &'static str = "token";

/// The private cookie that holds the pagination cursor.
pub const PAGE_TOKEN_COOKIE: &'static str = "page_token";

/// The state a browser carries between requests.
pub struct Session {
    pub access_token: String,
    pub pagination_cursor: Option<String>,
}

/// A change to the browser's private cookies. The server sets every cookie
/// signed and encrypted, HTTP-only and `SameSite=Lax`.
pub enum CookieOp {
    /// Sets a cookie; with a `max_age` in seconds it expires then, else it lasts
    /// as long as the browser session.
    Store { name: String, value: String, max_age: Option<i64> },
    /// Removes a cookie.
    Remove { name: String },
}

/// The private cookies of one request/response chain, by name, as the server reads
/// them once they are decrypted.
pub struct SessionCookies {
    entries: Vec<(String, String)>,
}

/// The value of the last entry named `name`.
pub open spec fn lookup(entries: Seq<(Seq<char>, Seq<char>)>, name: Seq<char>) -> Option<
    Seq<char>,
>
    decreases entries.len(),
{
    if entries.len() == 0 {
        None
    } else if entries.last().0 == name {
        Some(entries.last().1)
    } else {
        lookup(entries.drop_last(), name)
    }
}

pub open spec fn entries_view(v: Seq<(String, String)>) -> Seq<(Seq<char>, Seq<char>)> {
    v.map_values(|p: (String, String)| (p.0@, p.1@))
}

pub open spec fn cookie_map(entries: Seq<(Seq<char>, Seq<char>)>) -> Map<Seq<char>, Seq<char>> {
    Map::new(|n: Seq<char>| lookup(entries, n) is Some, |n: Seq<char>| lookup(entries, n)->Some_0)
}

/// What the cookies become once `op` is applied.
pub open spec fn apply_op(m: Map<Seq<char>, Seq<char>>, op: CookieOp) -> Map<Seq<char>, Seq<char>> {
    match op {
        CookieOp::Store { name, value, .. } => m.insert(name@, value@),
        CookieOp::Remove { name } => m.remove(name@),
    }
}

/// `op` sets the cookie `name` to `value`.
pub open spec fn sets_cookie(op: CookieOp, name: Seq<char>, value: Seq<char>) -> bool {
    op matches CookieOp::Store { name: n, value: v, .. } && n@ == name && v@ == value
}

/// `op` removes the cookie `name`.
pub open spec fn removes_cookie(op: CookieOp, name: Seq<char>) -> bool {
    op matches CookieOp::Remove { name: n } && n@ == name
}

/// `r` is the session that cookies `m` carry: one exactly when a token is there.
pub open spec fn session_of(r: Option<Session>, m: Map<Seq<char>, Seq<char>>) -> bool {
    &&& r is Some <==> m.contains_key(TOKEN_COOKIE@)
    &&& r matches Some(s) ==> {
        &&& s.access_token@ == m[TOKEN_COOKIE@]
        &&& s.pagination_cursor is Some <==> m.contains_key(PAGE_TOKEN_COOKIE@)
        &&& s.pagination_cursor matches Some(c) ==> c@ == m[PAGE_TOKEN_COOKIE@]
    }
}

impl View for SessionCookies {
    type V = Map<Seq<char>, Seq<char>>;

    closed spec fn view(&self) -> Map<Seq<char>, Seq<char>> {
        cookie_map(entries_view(self.entries@))
    }
}

proof fn lemma_lookup_push(s: Seq<(Seq<char>, Seq<char>)>, e: (Seq<char>, Seq<char>))
    ensures
        forall|n: Seq<char>|
            #[trigger] lookup(s.push(e), n) == if n == e.0 {
                Some(e.1)
            } else {
                lookup(s, n)
            },
{
    assert(s.push(e).drop_last() =~= s);
}

impl SessionCookies {
    pub fn new() -> (r: SessionCookies)
        ensures
            r@ == Map::<Seq<char>, Seq<char>>::empty(),
    {
        let r = SessionCookies { entries: Vec::new() };
        assert(r@ =~= Map::<Seq<char>, Seq<char>>::empty());
        r
    }

    /// The value of the cookie `name`, if the request carries it.
    pub fn get(&self, name: &str) -> (r: Option<String>)
        ensures
            r is Some <==> self@.contains_key(name@),
            r matches Some(v) ==> v@ == self@[name@],
    {
        let key = name.to_owned();
        assert(key@ == name@);
        let mut i = self.entries.len();
        assert(entries_view(self.entries@).take(i as int) =~= entries_view(self.entries@));
        while i > 0
            invariant
                key@ == name@,
                i <= self.entries@.len(),
                lookup(entries_view(self.entries@), name@) == lookup(
                    entries_view(self.entries@).take(i as int),
                    name@,
                ),
            decreases i,
        {
            let ghost s = entries_view(self.entries@).take(i as int);
            assert(s.drop_last() =~= entries_view(self.entries@).take(i - 1));
            assert(s.last() == (self.entries@[i - 1].0@, self.entries@[i - 1].1@));
            if self.entries[i - 1].0 == key {
                assert(lookup(s, name@) == Some(self.entries@[i - 1].1@));
                assert(self@.contains_key(name@));
                return Some(self.entries[i - 1].1.clone());
            }
            i = i - 1;
        }
        assert(entries_view(self.entries@).take(0) =~= Seq::<(Seq<char>, Seq<char>)>::empty());
        None
    }

    /// Sets the cookie `name` to `value`.
    pub fn insert(&mut self, name: &str, value: &str)
        ensures
            final(self)@ == old(self)@.insert(name@, value@),
    {
        let ghost before = entries_view(self.entries@);
        self.entries.push((name.to_owned(), value.to_owned()));
        assert(entries_view(self.entries@) =~= before.push((name@, value@)));
        proof {
            lemma_lookup_push(before, (name@, value@));
        }
        assert(self@ =~= old(self)@.insert(name@, value@));
    }

    /// Removes the cookie `name`.
    pub fn remove(&mut self, name: &str)
        ensures
            final(self)@ == old(self)@.remove(name@),
    {
        let key = name.to_owned();
        assert(key@ == name@);
        let mut kept: Vec<(String, String)> = Vec::new();
        let mut i: usize = 0;
        let ghost all = entries_view(self.entries@);
        while i < self.entries.len()
            invariant
                key@ == name@,
                i <= self.entries@.len(),
                all == entries_view(self.entries@),
                forall|n: Seq<char>|
                    #[trigger] lookup(entries_view(kept@), n) == if n == name@ {
                        None
                    } else {
                        lookup(all.take(i as int), n)
                    },
            decreases self.entries@.len() - i,
        {
            assert(all.take(i + 1).drop_last() =~= all.take(i as int));
            assert(all.take(i + 1).last() == all[i as int]);
            assert(all[i as int] == (self.entries@[i as int].0@, self.entries@[i as int].1@));
            assert(forall|n: Seq<char>|
                #[trigger] lookup(all.take(i + 1), n) == if all[i as int].0 == n {
                    Some(all[i as int].1)
                } else {
                    lookup(all.take(i as int), n)
                });
            if !(self.entries[i].0 == key) {
                let ghost k = entries_view(kept@);
                kept.push((self.entries[i].0.clone(), self.entries[i].1.clone()));
                assert(entries_view(kept@) =~= k.push(all[i as int]));
                proof {
                    lemma_lookup_push(k, all[i as int]);
                }
            }
            i = i + 1;
        }
        assert(all.take(i as int) =~= all);
        self.entries = kept;
        assert(self@ =~= old(self)@.remove(name@));
    }

    /// Applies one change.
    pub fn apply(&mut self, op: &CookieOp)
        ensures
            final(self)@ == apply_op(old(self)@, *op),
    {
        match op {
            CookieOp::Store { name, value, .. } => self.insert(name.as_str(), value.as_str()),
            CookieOp::Remove { name } => self.remove(name.as_str()),
        }
    }
}

/// The session that the request's cookies carry, if any; never fails.
pub fn read(cookies: &SessionCookies) -> (r: Option<Session>)
    ensures
        session_of(r, cookies@),
{
    match cookies.get(TOKEN_COOKIE) {
        None => None,
        Some(access_token) => Some(
            Session { access_token, pagination_cursor: cookies.get(PAGE_TOKEN_COOKIE) },
        ),
    }
}

/// Stores the access token; with an expiry hint the cookie lasts that long, else
/// as long as the browser session.
pub fn write(token: &str, expiry_hint: Option<i64>) -> (r: CookieOp)
    ensures
        sets_cookie(r, TOKEN_COOKIE@, token@),
        r matches CookieOp::Store { max_age, .. } && max_age == expiry_hint,
{
    CookieOp::Store {
        name: TOKEN_COOKIE.to_owned(),
        value: token.to_owned(),
        max_age: expiry_hint,
    }
}

/// Stores the next pagination cursor, or removes a stale one.
pub fn write_cursor(cursor: Option<String>) -> (r: CookieOp)
    ensures
        cursor matches Some(c) ==> sets_cookie(r, PAGE_TOKEN_COOKIE@, c@),
        cursor is Some ==> (r matches CookieOp::Store { max_age, .. } && max_age is None),
        cursor is None ==> removes_cookie(r, PAGE_TOKEN_COOKIE@),
{
    match cursor {
        Some(c) => CookieOp::Store { name: PAGE_TOKEN_COOKIE.to_owned(), value: c, max_age: None },
        None => CookieOp::Remove { name: PAGE_TOKEN_COOKIE.to_owned() },
    }
}

/// Removes both the token and the cursor.
pub fn clear() -> (r: Vec<CookieOp>)
    ensures
        r@.len() == 2,
        removes_cookie(r@[0], TOKEN_COOKIE@),
        removes_cookie(r@[1], PAGE_TOKEN_COOKIE@),
{
    let mut ops: Vec<CookieOp> = Vec::new();
    ops.push(CookieOp::Remove { name: TOKEN_COOKIE.to_owned() });
    ops.push(CookieOp::Remove { name: PAGE_TOKEN_COOKIE.to_owned() });
    ops
}

/// Writing a token and reading the session back on the same chain gives that
/// token, whatever the cookies held before.
pub proof fn lemma_session_round_trip(
    before: Map<Seq<char>, Seq<char>>,
    op: CookieOp,
    token: Seq<char>,
    r: Option<Session>,
)
    requires
        sets_cookie(op, TOKEN_COOKIE@, token),
        session_of(r, apply_op(before, op)),
    ensures
        r matches Some(s) && s.access_token@ == token,
{
}

} // verus!
