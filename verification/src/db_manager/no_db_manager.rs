//! The back end that stores nothing: it accepts every write and keeps none,
//! and knows no user, owner or token. What it can answer it reads from the
//! index on disk, whose text its caller hands in.

use crate::error::{Error, ErrorView};
use crate::index::{find_repo_url, found_view, repo_url_in, Entry};
use crate::models::{IndexConfig, Metadata, Query, Search, User};
use crate::text::{chars_of, owned, text_of};
use crate::version::Version;
use vstd::prelude::*;
use vstd::string::StringExecFns;

verus! {

/// The file that holds the index log of the crate `name`, below `root`: two
/// directory levels named by the first two and the next two characters of the
/// name, then the name. A name of fewer than four characters has no such
/// file.
pub open spec fn index_path_of(root: Seq<char>, name: Seq<char>) -> Option<Seq<char>> {
    if name.len() >= 4 {
        Some(
            root + seq!['/'] + name.subrange(0, 2) + seq!['/'] + name.subrange(2, 4) + seq!['/']
                + name,
        )
    } else {
        None
    }
}

/// What the back end answers when asked for the repository of a version: the
/// crate is unknown where it has no index log, else the log is searched.
pub open spec fn repo_url_of(name: Seq<char>, version: crate::version::VersionView, index: Option<
    Seq<char>,
>) -> Result<Option<Seq<char>>, ErrorView> {
    match index {
        None => Err(ErrorView::CrateNotFoundInDb(name)),
        Some(text) => repo_url_in(text, version),
    }
}

#[derive(Debug)]
pub struct NoDbManager {
    path: String,
}

impl NoDbManager {
    /// The directory of the index.
    pub closed spec fn root(&self) -> Seq<char> {
        self.path@
    }

    /// A back end over the index that `config` names.
    pub fn new(config: &IndexConfig) -> (r: Self)
        ensures
            r.root() == config.local_path@,
    {
        NoDbManager { path: config.local_path.clone() }
    }

    pub fn get_login_prefix(&self) -> (r: Result<&'static str, Error>)
        ensures
            r matches Ok(prefix) && prefix@ == "no-db"@,
    {
        Ok("no-db")
    }

    /// Nobody may edit owners here.
    pub fn can_edit_owners(&self, _user_id: u32, _name: &str) -> (r: Result<bool, Error>)
        ensures
            r matches Ok(allowed) && !allowed,
    {
        Ok(false)
    }

    pub fn owners(&self, _name: &str) -> (r: Result<Vec<User>, Error>)
        ensures
            r matches Ok(users) && users@.len() == 0,
    {
        Ok(Vec::new())
    }

    pub fn add_owners(&self, _name: &str, _logins: &[String]) -> (r: Result<(), Error>)
        ensures
            r is Ok,
    {
        Ok(())
    }

    pub fn remove_owners(&self, _name: &str, _logins: &[String]) -> (r: Result<(), Error>)
        ensures
            r is Ok,
    {
        Ok(())
    }

    pub fn last_user_id(&self) -> (r: Result<Option<u32>, Error>)
        ensures
            r matches Ok(id) && id is None,
    {
        Ok(None)
    }

    /// No token is bound to a user here.
    pub fn user_id_for_token(&self, _token: &str) -> (r: Result<u32, Error>)
        ensures
            r matches Err(e) && e@ == ErrorView::TokenNotFound,
    {
        Err(Error::TokenNotFound)
    }

    pub fn token_by_login(&self, _login: &str) -> (r: Result<Option<String>, Error>)
        ensures
            r matches Ok(token) && token is None,
    {
        Ok(None)
    }

    pub fn token_by_username(&self, _name: &str) -> (r: Result<Option<String>, Error>)
        ensures
            r matches Ok(token) && token is None,
    {
        Ok(None)
    }

    pub fn set_token(&self, _user_id: u32, _token: &str) -> (r: Result<(), Error>)
        ensures
            r is Ok,
    {
        Ok(())
    }

    /// No user is known here, whatever the name.
    pub fn user_by_username(&self, name: &str) -> (r: Result<User, Error>)
        ensures
            r matches Err(e) && e@ == ErrorView::UserNotFound(name@),
    {
        Err(Error::UserNotFound(owned(name)))
    }

    /// No user is known here, whatever the login.
    pub fn user_by_login(&self, login: &str) -> (r: Result<User, Error>)
        ensures
            r matches Err(e) && e@ == ErrorView::UserNotFound(login@),
    {
        Err(Error::UserNotFound(owned(login)))
    }

    pub fn add_new_user(&self, _user: User, _password: &str) -> (r: Result<(), Error>)
        ensures
            r is Ok,
    {
        Ok(())
    }

    pub fn verify_password(&self, _user_id: u32, _password: &str) -> (r: Result<bool, Error>)
        ensures
            r matches Ok(valid) && !valid,
    {
        Ok(false)
    }

    pub fn change_password(&self, _user_id: u32, _old: &str, _new: &str) -> (r: Result<
        (),
        Error,
    >)
        ensures
            r is Ok,
    {
        Ok(())
    }

    /// Everybody may publish here: what is published is not kept.
    pub fn can_add_metadata(&self, _user_id: u32, _name: &str, _version: Version) -> (r: Result<
        bool,
        Error,
    >)
        ensures
            r matches Ok(allowed) && allowed,
    {
        Ok(true)
    }

    pub fn add_new_metadata(&self, _user_id: u32, _metadata: Metadata) -> (r: Result<(), Error>)
        ensures
            r is Ok,
    {
        Ok(())
    }

    /// Nobody may edit a package here.
    pub fn can_edit_package(&self, _user_id: u32, _name: &str, _version: Version) -> (r: Result<
        bool,
        Error,
    >)
        ensures
            r matches Ok(allowed) && !allowed,
    {
        Ok(false)
    }

    pub fn yank(&self, _name: &str, _version: Version) -> (r: Result<(), Error>)
        ensures
            r is Ok,
    {
        Ok(())
    }

    pub fn unyank(&self, _name: &str, _version: Version) -> (r: Result<(), Error>)
        ensures
            r is Ok,
    {
        Ok(())
    }

    /// No search finds anything here.
    pub fn search(&self, _queried: &Query) -> (r: Result<Search, Error>)
        ensures
            r matches Err(e) && e@ == ErrorView::CrateNotFoundInDb(Seq::<char>::empty()),
    {
        Err(Error::CrateNotFoundInDb(String::new()))
    }

    /// The file that holds the index log of the crate `name`.
    pub fn index_path(&self, name: &str) -> (r: Option<String>)
        ensures
            crate::text::text_view(r) == index_path_of(self.root(), name@),
    {
        let chars = chars_of(name);
        if chars.len() < 4 {
            return None;
        }
        let mut path = self.path.clone();
        path.append("/");
        path.append(text_of(&chars, 0, 2).as_str());
        path.append("/");
        path.append(text_of(&chars, 2, 4).as_str());
        path.append("/");
        path.append(name);
        proof {
            reveal_strlit("/");
            assert("/"@ =~= seq!['/']);
        }
        Some(path)
    }

    /// The repository that the index names for `version` of the crate
    /// `name`. `index` is the text of the crate's index log, the file at
    /// `index_path`, and `None` where there is no such file.
    pub fn get_repo_url(&self, name: &str, version: Version, index: Option<&str>) -> (r: Result<
        Option<String>,
        Error,
    >)
        ensures
            found_view(r) == repo_url_of(
                name@,
                version@,
                match index {
                    Some(text) => Some(text@),
                    None => None,
                },
            ),
    {
        match index {
            None => Err(Error::CrateNotFoundInDb(owned(name))),
            Some(text) => find_repo_url(text, version),
        }
    }

    pub fn insert_package(&self, _name: &str, _entry: Entry) -> (r: Result<(), Error>)
        ensures
            r is Ok,
    {
        Ok(())
    }
}

} // verus!
