//! The device-code login command: its arguments, and the verification URL
//! that its output carries.
use vstd::prelude::*;

use crate::text::{find_first, occurs_in};

verus! {

/// An output line that holds this word carries the verification URL.
pub const USER_CODE_MARKER: &'static str = "user_code";

pub open spec fn user_code_marker() -> Seq<char> {
    seq!['u', 's', 'e', 'r', '_', 'c', 'o', 'd', 'e']
}

/// The URL that an output line carries: a line that holds the marker is
/// handed on as it stands.
pub open spec fn url_of(line: Seq<char>) -> Option<Seq<char>> {
    if occurs_in(line, user_code_marker()) {
        Some(line)
    } else {
        None
    }
}

/// The URLs that a sequence of output lines carries, one per line that
/// holds the marker, in order.
pub open spec fn urls_of(lines: Seq<Seq<char>>) -> Seq<Seq<char>>
    decreases lines.len(),
{
    if lines.len() == 0 {
        Seq::empty()
    } else {
        let rest = urls_of(lines.drop_last());
        match url_of(lines.last()) {
            Some(u) => rest.push(u),
            None => rest,
        }
    }
}

/// The arguments of the login command for an SSO session: no browser of its
/// own, device-code mode.
pub open spec fn login_args_of(profile: Seq<char>) -> Seq<Seq<char>> {
    seq![
        seq!['s', 's', 'o'],
        seq!['l', 'o', 'g', 'i', 'n'],
        seq!['-', '-', 'n', 'o', '-', 'b', 'r', 'o', 'w', 's', 'e', 'r'],
        seq!['-', '-', 's', 's', 'o', '-', 's', 'e', 's', 's', 'i', 'o', 'n'],
        profile,
    ]
}

/// The arguments to hand to `aws` to start the device-code login of `profile`.
pub fn login_args(profile: &str) -> (r: Vec<String>)
    ensures
        r@.map_values(|s: String| s@) == login_args_of(profile@),
{
    let sso = "sso".to_owned();
    let login = "login".to_owned();
    let no_browser = "--no-browser".to_owned();
    let session = "--sso-session".to_owned();
    proof {
        reveal_strlit("sso");
        reveal_strlit("login");
        reveal_strlit("--no-browser");
        reveal_strlit("--sso-session");
        assert(sso@ =~= login_args_of(profile@)[0]);
        assert(login@ =~= login_args_of(profile@)[1]);
        assert(no_browser@ =~= login_args_of(profile@)[2]);
        assert(session@ =~= login_args_of(profile@)[3]);
    }
    let r = vec![sso, login, no_browser, session, profile.to_owned()];
    assert(r@.map_values(|s: String| s@) =~= login_args_of(profile@));
    r
}

/// The verification URL that one output line of the login command carries,
/// if it holds the marker.
pub fn verification_url(line: &str) -> (r: Option<String>)
    ensures
        match r {
            Some(u) => url_of(line@) == Some(u@),
            None => url_of(line@) is None,
        },
{
    let marker = USER_CODE_MARKER;
    proof {
        reveal_strlit("user_code");
        assert(marker@ =~= user_code_marker());
    }
    match find_first(line, marker) {
        None => None,
        Some(_) => Some(line.to_owned()),
    }
}

proof fn lemma_urls_of_none(lines: Seq<Seq<char>>)
    requires
        forall|i: int| 0 <= i < lines.len() ==> url_of(#[trigger] lines[i]) is None,
    ensures
        urls_of(lines) == Seq::<Seq<char>>::empty(),
    decreases lines.len(),
{
    if lines.len() > 0 {
        let rest = lines.drop_last();
        assert(url_of(lines[lines.len() - 1]) is None);
        assert forall|i: int| 0 <= i < rest.len() implies url_of(#[trigger] rest[i]) is None by {
            assert(rest[i] == lines[i]);
        }
        lemma_urls_of_none(rest);
    }
}

/// When exactly one line of the command's output holds the marker, exactly
/// one URL is taken from the output, that line itself: the lines
/// after it start no second browser login.
pub proof fn lemma_single_marker_line(lines: Seq<Seq<char>>, k: int)
    requires
        0 <= k < lines.len(),
        occurs_in(lines[k], user_code_marker()),
        forall|i: int|
            0 <= i < lines.len() && i != k ==> !occurs_in(#[trigger] lines[i], user_code_marker()),
    ensures
        urls_of(lines) == seq![lines[k]],
    decreases lines.len(),
{
    let rest = lines.drop_last();
    if k == lines.len() - 1 {
        assert forall|i: int| 0 <= i < rest.len() implies url_of(#[trigger] rest[i]) is None by {
            assert(rest[i] == lines[i]);
        }
        lemma_urls_of_none(rest);
        assert(urls_of(lines) =~= seq![lines[k]]);
    } else {
        assert(rest[k] == lines[k]);
        assert forall|i: int|
            0 <= i < rest.len() && i != k implies !occurs_in(
            #[trigger] rest[i],
            user_code_marker(),
        ) by {
            assert(rest[i] == lines[i]);
        }
        lemma_single_marker_line(rest, k);
        assert(!occurs_in(lines[lines.len() - 1], user_code_marker()));
    }
}

} // verus!
