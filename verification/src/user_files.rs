//! Users in the file store: where a user's file lies, and what the requests
//! that read, create and edit such a user answer.

use vstd::prelude::*;
use vstd::string::*;
use crate::text::{is_blank, str_eq};
use crate::user::User;

verus! {

/// The folder under which the file store lies.
pub const DATA_FOLDER: &'static str = "./userdata";

/// The folder of the account files.
pub fn accounts_path() -> (r: String)
    ensures
        r@ == DATA_FOLDER@ + "/accounts"@,
{
    String::from_str(DATA_FOLDER).concat("/accounts")
}

/// The file of one account.
pub fn account_file_path(username: &String) -> (r: String)
    ensures
        r@ == DATA_FOLDER@ + "/accounts/"@ + username@ + ".json"@,
{
    let mut path = String::from_str(DATA_FOLDER);
    path.append("/accounts/");
    path.append(username.as_str());
    path.append(".json");
    path
}

/// The status of a save: 200 where the file was written, 500 where not.
pub fn save_status(written: bool) -> (r: u16)
    ensures
        r == if written {
            200u16
        } else {
            500u16
        },
{
    if written {
        200
    } else {
        500
    }
}

/// What a request on the file store does next.
#[derive(Debug, Clone, PartialEq, Eq)]
pub enum FileAction {
    /// Write the user's file, then answer with the status of the save.
    Save(User),
    /// Answer with this status and user.
    Respond(u16, User),
}

/// The answer for a user that was read: 204 for the empty user, else 200.
pub fn get_user(user: User) -> (r: (u16, User))
    ensures
        r.1 == user,
        r.0 == if user.spec_is_empty() {
            204u16
        } else {
            200u16
        },
{
    if user.is_empty() {
        (204, user)
    } else {
        (200, user)
    }
}

/// First step of an edit: name, field and value must all be there.
pub fn set_user_test_start(username: &String, var: &String, value: &String) -> (r: Option<
    (u16, User),
>)
    ensures
        match r {
            Some(answer) => (username@.len() == 0 || var@.len() == 0 || value@.len() == 0)
                && answer.0 == 400 && answer.1.spec_is_empty(),
            None => username@.len() != 0 && var@.len() != 0 && value@.len() != 0,
        },
{
    if is_blank(username) || is_blank(var) || is_blank(value) {
        Some((400, User::new()))
    } else {
        None
    }
}

/// Second step of an edit, once the user was read: the user with the new
/// Discord or Steam value to save; 204 for the empty user, and 400 for any
/// other field.
pub fn set_user_test(user: User, var: &String, value: String) -> (r: FileAction)
    ensures
        if user.spec_is_empty() {
            r matches FileAction::Respond(status, same) && status == 204 && same == user
        } else if var@ == "discord"@ {
            r matches FileAction::Save(edited) && edited.username@ == user.username@
                && edited.discord@ == value@ && edited.steam@ == user.steam@
                && edited.strike_count == user.strike_count
        } else if var@ == "steam"@ {
            r matches FileAction::Save(edited) && edited.username@ == user.username@
                && edited.discord@ == user.discord@ && edited.steam@ == value@
                && edited.strike_count == user.strike_count
        } else {
            r matches FileAction::Respond(status, empty) && status == 400 && empty.spec_is_empty()
        },
{
    if user.is_empty() {
        return FileAction::Respond(204, user);
    }
    let mut new_user = user;
    if str_eq(var.as_str(), "discord") {
        new_user.discord = value;
    } else if str_eq(var.as_str(), "steam") {
        new_user.steam = value;
    } else {
        return FileAction::Respond(400, User::new());
    }
    FileAction::Save(new_user)
}

/// First step of creating a user: the name must be there.
pub fn create_user_start(username: &String) -> (r: Option<(u16, User)>)
    ensures
        match r {
            Some(answer) => username@.len() == 0 && answer.0 == 400 && answer.1.spec_is_empty(),
            None => username@.len() != 0,
        },
{
    if is_blank(username) {
        Some((400, User::new()))
    } else {
        None
    }
}

/// Second step, once the file of that name was read: a user that exists is
/// not overwritten (403); else the new user to save, without strikes.
pub fn create_user(existing: &User, username: String) -> (r: FileAction)
    ensures
        if !existing.spec_is_empty() {
            r matches FileAction::Respond(status, empty) && status == 403 && empty.spec_is_empty()
        } else {
            r matches FileAction::Save(user) && user.username@ == username@ && user.discord@.len()
                == 0 && user.steam@.len() == 0 && user.strike_count == 0
        },
{
    if !existing.is_empty() {
        return FileAction::Respond(403, User::new());
    }
    FileAction::Save(
        User { username, discord: String::new(), steam: String::new(), strike_count: 0 },
    )
}

/// Last step of creating a user, once the save has answered: the user with
/// 200, or the empty user with 418.
pub fn create_user_finish(user: User, code: u16) -> (r: (u16, User))
    ensures
        if code == 200 {
            r.0 == 200 && r.1 == user
        } else {
            r.0 == 418 && r.1.spec_is_empty()
        },
{
    if code == 200 {
        (200, user)
    } else {
        (418, User::new())
    }
}

} // verus!
