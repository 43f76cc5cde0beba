//! The session of a single (possibly anonymous) user of a remote wiki-style
//! HTTP API: login identity, a lazily cached user-info document, and
//! permission ("rights") queries over that document.

use vstd::prelude::*;

use crate::json::JsonDoc;
use crate::json::get_field;

verus! {

/// Errors of `User::set_from_login`: a login response claimed success but
/// lacked an identity field.
#[derive(Debug, Clone, Copy, PartialEq, Eq, Structural)]
pub enum LoginError {
    /// The response carried no string `lgusername`.
    MissingUsername,
    /// The response carried no unsigned-integer `lguserid`.
    MissingUserId,
}

impl LoginError {
    /// A human-readable description naming the missing field.
    pub fn message(&self) -> (r: &'static str)
        ensures
            *self == LoginError::MissingUsername ==> r@ == "No lgusername in login result"@,
            *self == LoginError::MissingUserId ==> r@ == "No lguserid in login result"@,
    {
        match self {
            LoginError::MissingUsername => "No lgusername in login result",
            LoginError::MissingUserId => "No lguserid in login result",
        }
    }
}

/// The capability `User::load_user_info` needs: one GET-style API query
/// returning a JSON-like document. Implementations live outside this
/// library (a real HTTP client, or a test double); nothing is assumed of
/// what they return.
pub trait ApiClient {
    /// Issues one API query with the given parameters and HTTP method.
    fn query_api_json(&self, params: &Vec<(String, String)>, method: &str) -> Result<
        JsonDoc,
        String,
    >;
}

/// Whether a login response reports success: its `result` field is the
/// string `"Success"`.
pub open spec fn login_is_success(login: JsonDoc) -> bool {
    match get_field(login, "result"@) {
        JsonDoc::Str(s) => s@ == "Success"@,
        _ => false,
    }
}

/// The user name a login response carries, where its `lgusername` field is a
/// string.
pub open spec fn login_username(login: JsonDoc) -> Option<Seq<char>> {
    match get_field(login, "lgusername"@) {
        JsonDoc::Str(s) => Some(s@),
        _ => None,
    }
}

/// The user id a login response carries, where its `lguserid` field is an
/// unsigned integer.
pub open spec fn login_userid(login: JsonDoc) -> Option<u64> {
    match get_field(login, "lguserid"@) {
        JsonDoc::UInt(u) => Some(u),
        _ => None,
    }
}

/// The string an element of a rights array stands for: its characters where
/// it is a string, the empty string otherwise.
pub open spec fn str_or_empty(v: JsonDoc) -> Seq<char> {
    match v {
        JsonDoc::Str(s) => s@,
        _ => Seq::empty(),
    }
}

/// The rights list of a user-info document: the strings under the path
/// `query.userinfo.rights`. Where that path is missing or not an array, the
/// list is empty — malformed structure is tolerated, not an error.
pub open spec fn rights_of(doc: JsonDoc) -> Seq<Seq<char>> {
    match get_field(get_field(get_field(doc, "query"@), "userinfo"@), "rights"@) {
        JsonDoc::Arr(items) => items@.map_values(|v: JsonDoc| str_or_empty(v)),
        _ => Seq::empty(),
    }
}

/// Whether `right` appears in the rights list of the user-info document
/// `doc` (exact, case-sensitive match).
pub fn rights_contain(doc: &JsonDoc, right: &str) -> (r: bool)
    ensures
        r == rights_of(*doc).contains(right@),
{
    let step = match doc.get("query") {
        Some(v) => v,
        None => {
            return false;
        },
    };
    let step = match step.get("userinfo") {
        Some(v) => v,
        None => {
            return false;
        },
    };
    let rights = match step.get("rights") {
        Some(v) => v,
        None => {
            return false;
        },
    };
    match rights {
        JsonDoc::Arr(items) => {
            proof {
                assert(rights_of(*doc) =~= items@.map_values(|v: JsonDoc| str_or_empty(v)));
            }
            let rk = String::from_str(right);
            let mut i: usize = 0;
            while i < items.len()
                invariant
                    i <= items@.len(),
                    rk@ == right@,
                    rights_of(*doc) == items@.map_values(|v: JsonDoc| str_or_empty(v)),
                    forall|j: int| 0 <= j < i ==> str_or_empty(items@[j]) != right@,
                decreases items@.len() - i,
            {
                let is_match = match &items[i] {
                    JsonDoc::Str(s) => *s == rk,
                    _ => right.is_empty(),
                };
                if is_match {
                    proof {
                        if !(items@[i as int] is Str) {
                            assert(right@ =~= Seq::<char>::empty());
                        }
                        assert(rights_of(*doc)[i as int] == str_or_empty(items@[i as int]));
                        assert(rights_of(*doc)[i as int] == right@);
                    }
                    return true;
                }
                i += 1;
            }
            proof {
                assert forall|j: int|
                    0 <= j < rights_of(*doc).len() implies rights_of(*doc)[j] != right@ by {
                    assert(rights_of(*doc)[j] == str_or_empty(items@[j]));
                }
            }
            false
        },
        _ => false,
    }
}

/// Authentication/authorization state of one API user: identity set by a
/// login response, and a cached user-info document answering rights queries.
#[derive(Debug)]
pub struct User {
    lgusername: Option<String>,
    lguserid: Option<u64>,
    is_logged_in: bool,
    user_info: Option<JsonDoc>,
}

impl User {
    /// The user name the session holds, as characters.
    pub closed spec fn spec_user_name(self) -> Option<Seq<char>> {
        match self.lgusername {
            Some(s) => Some(s@),
            None => None,
        }
    }

    /// The user id the session holds.
    pub closed spec fn spec_user_id(self) -> Option<u64> {
        self.lguserid
    }

    /// Whether the session is logged in.
    pub closed spec fn spec_logged_in(self) -> bool {
        self.is_logged_in
    }

    /// The cached user-info document, absent until the first successful
    /// fetch.
    pub closed spec fn spec_user_info(self) -> Option<JsonDoc> {
        self.user_info
    }

    /// Well-formedness: the identity fields are set together, and a
    /// logged-in session always has them.
    pub open spec fn wf(self) -> bool {
        &&& self.spec_user_name() is Some <==> self.spec_user_id() is Some
        &&& self.spec_logged_in() ==> self.spec_user_name() is Some
    }

    /// The three-valued rights answer the session gives: unknown while no
    /// user-info document is cached, else whether the right appears in it.
    pub open spec fn spec_has_right(self, right: Seq<char>) -> Option<bool> {
        match self.spec_user_info() {
            Some(doc) => Some(rights_of(doc).contains(right)),
            None => None,
        }
    }

    /// Returns a new, blank, not-logged-in user.
    pub fn new() -> (u: User)
        ensures
            !u.spec_logged_in(),
            u.spec_user_name() is None,
            u.spec_user_id() is None,
            u.spec_user_info() is None,
            u.wf(),
    {
        User { lgusername: None, lguserid: None, is_logged_in: false, user_info: None }
    }

    /// Checks if the user is logged in.
    pub fn logged_in(&self) -> (r: bool)
        ensures
            r == self.spec_logged_in(),
    {
        self.is_logged_in
    }

    /// The user name, where a successful login set one.
    pub fn user_name(&self) -> (r: Option<String>)
        ensures
            match r {
                Some(s) => self.spec_user_name() == Some(s@),
                None => self.spec_user_name() is None,
            },
    {
        match &self.lgusername {
            Some(s) => Some(s.clone()),
            None => None,
        }
    }

    /// The user id, where a successful login set one.
    pub fn user_id(&self) -> (r: Option<u64>)
        ensures
            r == self.spec_user_id(),
    {
        self.lguserid
    }

    /// Checks if the user has a specific right (e.g. "bot", "autoconfirmed").
    /// `None` means the user info was never loaded; `Some(b)` answers from
    /// the cached document.
    pub fn has_right(&self, right: &str) -> (r: Option<bool>)
        ensures
            r == self.spec_has_right(right@),
    {
        match &self.user_info {
            Some(ui) => Some(rights_contain(ui, right)),
            None => None,
        }
    }

    /// Checks if the user has a bot flag.
    pub fn is_bot(&self) -> (r: Option<bool>)
        ensures
            r == self.spec_has_right("bot"@),
    {
        self.has_right("bot")
    }

    /// Checks if the user is autoconfirmed.
    pub fn is_autoconfirmed(&self) -> (r: Option<bool>)
        ensures
            r == self.spec_has_right("autoconfirmed"@),
    {
        self.has_right("autoconfirmed")
    }

    /// Checks if the user is allowed to edit.
    pub fn can_edit(&self) -> (r: Option<bool>)
        ensures
            r == self.spec_has_right("edit"@),
    {
        self.has_right("edit")
    }

    /// Checks if the user is allowed to create a page.
    pub fn can_create_page(&self) -> (r: Option<bool>)
        ensures
            r == self.spec_has_right("createpage"@),
    {
        self.has_right("createpage")
    }

    /// Checks if the user is allowed to upload a file.
    pub fn can_upload(&self) -> (r: Option<bool>)
        ensures
            r == self.spec_has_right("upload"@),
    {
        self.has_right("upload")
    }

    /// Checks if the user is allowed to move (rename) a page.
    pub fn can_move(&self) -> (r: Option<bool>)
        ensures
            r == self.spec_has_right("move"@),
    {
        self.has_right("move")
    }

    /// Checks if the user is allowed to patrol edits.
    pub fn can_patrol(&self) -> (r: Option<bool>)
        ensures
            r == self.spec_has_right("patrol"@),
    {
        self.has_right("patrol")
    }

    /// Loads the user info through `api` and caches it; returns `Ok(())` if
    /// successful. A second call is a no-op success: the cache is filled at
    /// most once, and a failed call leaves it absent, so the call may be
    /// retried. Identity fields are never touched.
    pub fn load_user_info<C: ApiClient>(&mut self, api: &C) -> (r: Result<(), String>)
        ensures
            final(self).spec_user_name() == old(self).spec_user_name(),
            final(self).spec_user_id() == old(self).spec_user_id(),
            final(self).spec_logged_in() == old(self).spec_logged_in(),
            old(self).spec_user_info() is Some ==> r is Ok && final(self).spec_user_info()
                == old(self).spec_user_info(),
            r is Ok ==> final(self).spec_user_info() is Some,
            r is Err ==> final(self).spec_user_info() == old(self).spec_user_info(),
            old(self).wf() ==> final(self).wf(),
    {
        if self.user_info.is_some() {
            return Ok(());
        }
        let params = user_info_params();
        match api.query_api_json(&params, "GET") {
            Ok(doc) => {
                self.user_info = Some(doc);
                Ok(())
            },
            Err(e) => Err(e),
        }
    }

    /// Tries to set the user's identity from a login response.
    ///
    /// A response whose `result` is `"Success"` must carry a string
    /// `lgusername` and an unsigned-integer `lguserid`; then both are
    /// stored and the session becomes logged in. Where one is missing the
    /// call fails and the session is left exactly as it was. Any other
    /// `result` merely drives the logged-in flag to false, keeping prior
    /// identity fields, and counts as success.
    pub fn set_from_login(&mut self, login: &JsonDoc) -> (r: Result<(), LoginError>)
        ensures
            login_is_success(*login) ==> match (login_username(*login), login_userid(*login)) {
                (Some(name), Some(id)) => {
                    &&& r is Ok
                    &&& final(self).spec_logged_in()
                    &&& final(self).spec_user_name() == Some(name)
                    &&& final(self).spec_user_id() == Some(id)
                    &&& final(self).spec_user_info() == old(self).spec_user_info()
                },
                (None, _) => {
                    &&& r == Err::<(), LoginError>(LoginError::MissingUsername)
                    &&& *final(self) == *old(self)
                },
                (Some(_), None) => {
                    &&& r == Err::<(), LoginError>(LoginError::MissingUserId)
                    &&& *final(self) == *old(self)
                },
            },
            !login_is_success(*login) ==> {
                &&& r is Ok
                &&& !final(self).spec_logged_in()
                &&& final(self).spec_user_name() == old(self).spec_user_name()
                &&& final(self).spec_user_id() == old(self).spec_user_id()
                &&& final(self).spec_user_info() == old(self).spec_user_info()
            },
            old(self).wf() || (login_is_success(*login) && login_username(*login) is Some
                && login_userid(*login) is Some) ==> final(self).wf(),
    {
        let success = match login.get("result") {
            Some(v) => match v {
                JsonDoc::Str(s) => {
                    let word = String::from_str("Success");
                    *s == word
                },
                _ => false,
            },
            None => false,
        };
        if success {
            let name: String = match login.get("lgusername") {
                Some(v) => match v {
                    JsonDoc::Str(s) => s.clone(),
                    _ => {
                        return Err(LoginError::MissingUsername);
                    },
                },
                None => {
                    return Err(LoginError::MissingUsername);
                },
            };
            let id: u64 = match login.get("lguserid") {
                Some(v) => match v {
                    JsonDoc::UInt(u) => *u,
                    _ => {
                        return Err(LoginError::MissingUserId);
                    },
                },
                None => {
                    return Err(LoginError::MissingUserId);
                },
            };
            self.lgusername = Some(name);
            self.lguserid = Some(id);
            self.is_logged_in = true;
            Ok(())
        } else {
            self.is_logged_in = false;
            Ok(())
        }
    }
}

impl Default for User {
    /// Same blank session as `User::new`.
    fn default() -> (u: User)
        ensures
            !u.spec_logged_in(),
            u.spec_user_name() is None,
            u.spec_user_id() is None,
            u.spec_user_info() is None,
            u.wf(),
    {
        User::new()
    }
}

/// The fixed parameter set of the user-info query: `action=query`,
/// `meta=userinfo`, and the full `uiprop` property list.
pub fn user_info_params() -> (r: Vec<(String, String)>)
    ensures
        r@.len() == 3,
        r@[0].0@ == "action"@,
        r@[0].1@ == "query"@,
        r@[1].0@ == "meta"@,
        r@[1].1@ == "userinfo"@,
        r@[2].0@ == "uiprop"@,
        r@[2].1@
            == "blockinfo|groups|groupmemberships|implicitgroups|rights|options|ratelimits|realname|registrationdate|unreadcount|centralids|hasmsg"@,
{
    let mut r: Vec<(String, String)> = Vec::new();
    r.push((String::from_str("action"), String::from_str("query")));
    r.push((String::from_str("meta"), String::from_str("userinfo")));
    r.push(
        (
            String::from_str("uiprop"),
            String::from_str(
                "blockinfo|groups|groupmemberships|implicitgroups|rights|options|ratelimits|realname|registrationdate|unreadcount|centralids|hasmsg",
            ),
        ),
    );
    r
}

} // verus!
