//! What the application asks leave for at the identity provider.

use vstd::prelude::*;

verus! {

/// The scopes as mathematical text: full access to the file store and to
/// the spreadsheets.
pub open spec fn scope_texts() -> Seq<Seq<char>> {
    seq![
        "https://www.googleapis.com/auth/drive"@,
        "https://www.googleapis.com/auth/spreadsheets"@,
    ]
}

/// The scopes that every access token is asked for.
pub fn scopes() -> (list: Vec<&'static str>)
    ensures
        list.deep_view() == scope_texts(),
{
    let mut list: Vec<&'static str> = Vec::new();
    list.push("https://www.googleapis.com/auth/drive");
    list.push("https://www.googleapis.com/auth/spreadsheets");
    proof {
        assert(list.deep_view() =~= scope_texts());
    }
    list
}

/// What the user is told when the identity provider hands out a grant
/// without an access token in it.
pub open spec fn no_token_text() -> Seq<char> {
    "no access token"@
}

/// The access token out of what the identity provider handed out. Fails
/// where it holds none.
pub fn access_token(granted: Option<&str>) -> (token: Result<String, String>)
    ensures
        match granted {
            Some(text) => token matches Ok(t) && t@ == text@,
            None => token matches Err(cause) && cause@ == no_token_text(),
        },
{
    match granted {
        Some(text) => Ok(text.to_owned()),
        None => Err("no access token".to_owned()),
    }
}

} // verus!
