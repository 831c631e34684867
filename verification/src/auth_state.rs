//! Authentication session: one guarded cell holding the signed-in user, a
//! login-attempt counter and the time of the last successful login.

use vstd::prelude::*;

use crate::clock::now_rfc3339;
use crate::events::AppEvent;

verus! {

/// The signed-in user as the session stores it. `token` is an opaque
/// credential; `permissions`, when present, is the set of permission names
/// the user holds.
#[derive(Debug, PartialEq)]
pub struct User {
    pub id: String,
    pub name: String,
    pub email: Option<String>,
    pub department: String,
    pub role: String,
    pub token: String,
    pub permissions: Option<Vec<String>>,
}

fn clone_opt_string(s: &Option<String>) -> (r: Option<String>)
    ensures
        r == s,
{
    match s {
        Option::None => Option::None,
        Option::Some(v) => Option::Some(v.clone()),
    }
}

fn clone_string_vec(v: &Vec<String>) -> (r: Vec<String>)
    ensures
        r@ == v@,
{
    let mut r: Vec<String> = Vec::new();
    let mut i: usize = 0;
    while i < v.len()
        invariant
            i <= v.len(),
            r@ =~= v@.subrange(0, i as int),
        decreases v.len() - i,
    {
        r.push(v[i].clone());
        i += 1;
    }
    proof {
        assert(r@ =~= v@);
    }
    r
}

/// The mathematical value of a [`User`]: every string as its character
/// sequence.
#[verifier::ext_equal]
pub struct UserView {
    pub id: Seq<char>,
    pub name: Seq<char>,
    pub email: Option<Seq<char>>,
    pub department: Seq<char>,
    pub role: Seq<char>,
    pub token: Seq<char>,
    pub permissions: Option<Seq<Seq<char>>>,
}

impl View for User {
    type V = UserView;

    open spec fn view(&self) -> UserView {
        UserView {
            id: self.id@,
            name: self.name@,
            email: match self.email {
                Option::None => Option::None,
                Option::Some(s) => Option::Some(s@),
            },
            department: self.department@,
            role: self.role@,
            token: self.token@,
            permissions: match self.permissions {
                Option::None => Option::None,
                Option::Some(v) => Option::Some(v.deep_view()),
            },
        }
    }
}

/// The views of an optional user record.
pub open spec fn spec_opt_user_view(o: Option<User>) -> Option<UserView> {
    match o {
        Option::None => Option::None,
        Option::Some(u) => Option::Some(u@),
    }
}

/// The non-secret projection of a user record: everything but the opaque
/// credential. Broadcasts and debug output carry this projection, so the
/// token never leaves the cell in full except through the session accessor
/// itself.
#[derive(Debug, PartialEq)]
pub struct UserPublic {
    pub id: String,
    pub name: String,
    pub email: Option<String>,
    pub department: String,
    pub role: String,
    pub permissions: Option<Vec<String>>,
}

/// The mathematical value of a [`UserPublic`].
#[verifier::ext_equal]
pub struct UserPublicView {
    pub id: Seq<char>,
    pub name: Seq<char>,
    pub email: Option<Seq<char>>,
    pub department: Seq<char>,
    pub role: Seq<char>,
    pub permissions: Option<Seq<Seq<char>>>,
}

impl View for UserPublic {
    type V = UserPublicView;

    open spec fn view(&self) -> UserPublicView {
        UserPublicView {
            id: self.id@,
            name: self.name@,
            email: match self.email {
                Option::None => Option::None,
                Option::Some(s) => Option::Some(s@),
            },
            department: self.department@,
            role: self.role@,
            permissions: match self.permissions {
                Option::None => Option::None,
                Option::Some(v) => Option::Some(v.deep_view()),
            },
        }
    }
}

/// What projecting a user's value drops: exactly the token.
pub open spec fn spec_public_view(u: UserView) -> UserPublicView {
    UserPublicView {
        id: u.id,
        name: u.name,
        email: u.email,
        department: u.department,
        role: u.role,
        permissions: u.permissions,
    }
}

/// The projections of an optional projection record.
pub open spec fn spec_opt_public_view(o: Option<UserPublic>) -> Option<UserPublicView> {
    match o {
        Option::None => Option::None,
        Option::Some(p) => Option::Some(p@),
    }
}

/// The projections of an optional full user record.
pub open spec fn spec_opt_public_of(o: Option<User>) -> Option<UserPublicView> {
    match o {
        Option::None => Option::None,
        Option::Some(u) => Option::Some(spec_public_view(u@)),
    }
}

impl Clone for UserPublic {
    fn clone(&self) -> (r: Self)
        ensures
            r@ == self@,
    {
        let r = UserPublic {
            id: self.id.clone(),
            name: self.name.clone(),
            email: clone_opt_string(&self.email),
            department: self.department.clone(),
            role: self.role.clone(),
            permissions: match &self.permissions {
                Option::None => Option::None,
                Option::Some(v) => Option::Some(clone_string_vec(v)),
            },
        };
        proof {
            assert(r@ =~= self@);
        }
        r
    }
}

impl UserPublic {
    /// The token-free projection of `user`; every other field is kept as it
    /// stands.
    pub fn of(user: &User) -> (r: UserPublic)
        ensures
            r@ == spec_public_view(user@),
    {
        let r = UserPublic {
            id: user.id.clone(),
            name: user.name.clone(),
            email: clone_opt_string(&user.email),
            department: user.department.clone(),
            role: user.role.clone(),
            permissions: match &user.permissions {
                Option::None => Option::None,
                Option::Some(v) => Option::Some(clone_string_vec(v)),
            },
        };
        proof {
            assert(r@ =~= spec_public_view(user@));
        }
        r
    }
}

impl Clone for User {
    fn clone(&self) -> (r: Self)
        ensures
            r@ == self@,
    {
        let r = User {
            id: self.id.clone(),
            name: self.name.clone(),
            email: clone_opt_string(&self.email),
            department: self.department.clone(),
            role: self.role.clone(),
            token: self.token.clone(),
            permissions: match &self.permissions {
                Option::None => Option::None,
                Option::Some(v) => Option::Some(clone_string_vec(v)),
            },
        };
        proof {
            assert(r@ =~= self@);
        }
        r
    }
}

/// True iff one of the strings in `ss` reads `p`.
pub open spec fn spec_contains_string(ss: Seq<String>, p: Seq<char>) -> bool {
    exists|i: int| 0 <= i < ss.len() && ss[i]@ == p
}

/// The authentication cell. Invariant kept by every mutation below:
/// `is_authenticated` is set exactly by a wholesale session replacement and
/// cleared by logout, so a session is valid only when both the flag and a
/// user record are present.
pub struct AuthState {
    pub user: Option<User>,
    pub is_authenticated: bool,
    pub login_attempts: u32,
    pub last_login: Option<String>,
}

impl Default for AuthState {
    /// The signed-out state: no user, no attempts recorded.
    fn default() -> (r: Self)
        ensures
            r.user is None,
            !r.is_authenticated,
            r.login_attempts == 0,
            r.last_login is None,
    {
        AuthState { user: Option::None, is_authenticated: false, login_attempts: 0, last_login: Option::None }
    }
}

impl AuthState {
    /// A session is valid only when the flag and a user record agree; the
    /// flag alone is not trusted.
    pub open spec fn spec_valid_session(self) -> bool {
        self.is_authenticated && self.user is Some
    }

    /// Whether the current session grants permission `p`: false without a
    /// session or without a permission set, membership otherwise.
    pub open spec fn spec_has_permission(self, p: Seq<char>) -> bool {
        match self.user {
            Option::None => false,
            Option::Some(u) => match u.permissions {
                Option::None => false,
                Option::Some(ps) => spec_contains_string(ps@, p),
            },
        }
    }

    pub open spec fn spec_role(self) -> Option<String> {
        match self.user {
            Option::None => Option::None,
            Option::Some(u) => Option::Some(u.role),
        }
    }

    pub open spec fn spec_department(self) -> Option<String> {
        match self.user {
            Option::None => Option::None,
            Option::Some(u) => Option::Some(u.department),
        }
    }

    /// Replaces the session wholesale: the user is stored, the session
    /// becomes authenticated, the attempt counter resets and the login time
    /// is stamped with a non-empty clock reading. Returns the event the
    /// caller must broadcast, which carries only the non-secret projection
    /// of the user — never the token.
    pub fn set_user_state(&mut self, user: User) -> (ev: AppEvent)
        ensures
            final(self).user == Some(user),
            final(self).is_authenticated,
            final(self).login_attempts == 0,
            (final(self).last_login matches Some(s) && s@.len() > 0),
            final(self).spec_valid_session(),
            (ev matches AppEvent::UserLoggedIn(p) && p@ == spec_public_view(user@)),
    {
        let ev_user = UserPublic::of(&user);
        self.user = Option::Some(user);
        self.is_authenticated = true;
        self.last_login = Option::Some(now_rfc3339());
        self.login_attempts = 0;
        AppEvent::UserLoggedIn(ev_user)
    }

    /// Alias of `set_user_state` kept for callers of the login command.
    pub fn login_user(&mut self, user: User) -> (ev: AppEvent)
        ensures
            final(self).user == Some(user),
            final(self).is_authenticated,
            final(self).login_attempts == 0,
            (final(self).last_login matches Some(s) && s@.len() > 0),
            (ev matches AppEvent::UserLoggedIn(p) && p@ == spec_public_view(user@)),
    {
        self.set_user_state(user)
    }

    /// A copy of the current session's user, or nothing.
    pub fn get_user_state(&self) -> (r: Option<User>)
        ensures
            spec_opt_user_view(r) == spec_opt_user_view(self.user),
    {
        match &self.user {
            Option::None => Option::None,
            Option::Some(u) => Option::Some(u.clone()),
        }
    }

    /// Alias of `get_user_state`.
    pub fn get_user_info(&self) -> (r: Option<User>)
        ensures
            spec_opt_user_view(r) == spec_opt_user_view(self.user),
    {
        self.get_user_state()
    }

    /// Alias of `get_user_state`.
    pub fn get_user(&self) -> (r: Option<User>)
        ensures
            spec_opt_user_view(r) == spec_opt_user_view(self.user),
    {
        self.get_user_state()
    }

    /// Clears the session and the authenticated flag, whatever the prior
    /// state; the attempt counter and the last-login stamp are left alone.
    /// Returns the event the caller must broadcast.
    pub fn logout_user(&mut self) -> (ev: AppEvent)
        ensures
            final(self).user is None,
            !final(self).is_authenticated,
            !final(self).spec_valid_session(),
            final(self).login_attempts == old(self).login_attempts,
            final(self).last_login == old(self).last_login,
            ev == AppEvent::UserLoggedOut,
    {
        self.user = Option::None;
        self.is_authenticated = false;
        AppEvent::UserLoggedOut
    }

    /// Alias of `logout_user`.
    pub fn clear_user_info(&mut self) -> (ev: AppEvent)
        ensures
            final(self).user is None,
            !final(self).is_authenticated,
            final(self).login_attempts == old(self).login_attempts,
            final(self).last_login == old(self).last_login,
            ev == AppEvent::UserLoggedOut,
    {
        self.logout_user()
    }

    /// True iff the flag is set and a user record is present.
    pub fn is_authenticated(&self) -> (r: bool)
        ensures
            r == self.spec_valid_session(),
    {
        self.is_authenticated && self.user.is_some()
    }

    /// Alias of `is_authenticated`.
    pub fn is_logged_in(&self) -> (r: bool)
        ensures
            r == self.spec_valid_session(),
    {
        self.is_authenticated()
    }

    /// Alias of `is_authenticated`.
    pub fn validate_user_session(&self) -> (r: bool)
        ensures
            r == self.spec_valid_session(),
    {
        self.is_authenticated()
    }

    /// Membership test of `permission` against the session's permission set;
    /// false whenever there is no session or the session carries none.
    pub fn check_permission(&self, permission: String) -> (r: bool)
        ensures
            r == self.spec_has_permission(permission@),
    {
        match &self.user {
            Option::None => false,
            Option::Some(u) => match &u.permissions {
                Option::None => false,
                Option::Some(ps) => {
                    let mut i: usize = 0;
                    let mut found = false;
                    while i < ps.len()
                        invariant
                            i <= ps.len(),
                            found == exists|j: int| 0 <= j < i && ps[j]@ == permission@,
                        decreases ps.len() - i,
                    {
                        if ps[i] == permission {
                            found = true;
                        }
                        i += 1;
                    }
                    found
                },
            },
        }
    }

    pub fn get_user_role(&self) -> (r: Option<String>)
        ensures
            r == self.spec_role(),
    {
        match &self.user {
            Option::None => Option::None,
            Option::Some(u) => Option::Some(u.role.clone()),
        }
    }

    pub fn get_user_department(&self) -> (r: Option<String>)
        ensures
            r == self.spec_department(),
    {
        match &self.user {
            Option::None => Option::None,
            Option::Some(u) => Option::Some(u.department.clone()),
        }
    }

    /// Records one more failed attempt and returns the new count. The
    /// counter lives beside the session, so attempts can be tracked before
    /// any user is present.
    pub fn increment_login_attempts(&mut self) -> (r: u32)
        requires
            old(self).login_attempts < u32::MAX,
        ensures
            final(self).login_attempts == old(self).login_attempts + 1,
            r == final(self).login_attempts,
            final(self).user == old(self).user,
            final(self).is_authenticated == old(self).is_authenticated,
            final(self).last_login == old(self).last_login,
    {
        self.login_attempts = self.login_attempts + 1;
        self.login_attempts
    }

    pub fn get_login_attempts(&self) -> (r: u32)
        ensures
            r == self.login_attempts,
    {
        self.login_attempts
    }

    pub fn reset_login_attempts(&mut self)
        ensures
            final(self).login_attempts == 0,
            final(self).user == old(self).user,
            final(self).is_authenticated == old(self).is_authenticated,
            final(self).last_login == old(self).last_login,
    {
        self.login_attempts = 0;
    }
}

/// A copy of the authentication cell for inspection by the embedding
/// application. The user appears as the non-secret projection: the token is
/// an opaque credential and is never logged in full.
pub struct AuthDebugInfo {
    pub user: Option<UserPublic>,
    pub is_authenticated: bool,
    pub login_attempts: u32,
    pub last_login: Option<String>,
    pub has_valid_session: bool,
}

impl AuthState {
    pub fn get_auth_state_debug(&self) -> (r: AuthDebugInfo)
        ensures
            spec_opt_public_view(r.user) == spec_opt_public_of(self.user),
            r.is_authenticated == self.is_authenticated,
            r.login_attempts == self.login_attempts,
            r.last_login == self.last_login,
            r.has_valid_session == self.spec_valid_session(),
    {
        AuthDebugInfo {
            user: match &self.user {
                Option::None => Option::None,
                Option::Some(u) => Option::Some(UserPublic::of(u)),
            },
            is_authenticated: self.is_authenticated,
            login_attempts: self.login_attempts,
            last_login: clone_opt_string(&self.last_login),
            has_valid_session: self.is_authenticated(),
        }
    }
}

} // verus!
