//! Discovery of the SSO sessions named in the AWS configuration file.
use vstd::prelude::*;

use crate::error::LoginError;
use crate::text::{find_first, is_space, is_space_char, occurs_at, second_word, second_word_of};

verus! {

/// Section names that start with this word name an SSO session.
pub const SESSION_MARKER: &'static str = "sso-session";

pub open spec fn session_marker() -> Seq<char> {
    seq!['s', 's', 'o', '-', 's', 'e', 's', 's', 'i', 'o', 'n']
}

/// The set of section names of the INI text `text`.
pub uninterp spec fn ini_section_names(text: Seq<char>) -> Set<Seq<char>>;

/// `text` parses as INI into sections of string values.
pub uninterp spec fn ini_parses(text: Seq<char>) -> bool;

#[verifier::external_type_specification]
#[verifier::external_body]
pub struct ExIniError(serde_ini::de::Error);

/// Relies on `serde_ini::from_str` parsing into a map from section name to
/// the section's keys: whether it succeeds depends on the text alone, and
/// on success the map's keys are the section names, each once.
/// The order in which a `HashMap` hands its keys out is not stated.
#[verifier::external_body]
fn ini_sections(text: &str) -> (r: Result<Vec<String>, serde_ini::de::Error>)
    ensures
        r is Ok <==> ini_parses(text@),
        r matches Ok(v) ==> names_of(v@).no_duplicates() && names_of(v@).to_set()
            == ini_section_names(text@),
{
    let parsed: std::collections::HashMap<String, std::collections::HashMap<String, String>> =
        serde_ini::from_str(text)?;
    Ok(parsed.into_keys().collect())
}

/// The character sequences of a list of strings.
pub open spec fn names_of(v: Seq<String>) -> Seq<Seq<char>> {
    v.map_values(|s: String| s@)
}

/// The profile a section names: its second word, where the section name
/// is the session marker followed by whitespace.
pub open spec fn profile_of(section: Seq<char>) -> Option<Seq<char>> {
    if occurs_at(section, session_marker(), 0) && section.len() > session_marker().len()
        && is_space(section[session_marker().len() as int]) {
        second_word(section)
    } else {
        None
    }
}

/// The profiles that a list of section names holds, in its order.
pub open spec fn profile_names(sections: Seq<Seq<char>>) -> Seq<Seq<char>>
    decreases sections.len(),
{
    if sections.len() == 0 {
        Seq::empty()
    } else {
        let rest = profile_names(sections.drop_last());
        match profile_of(sections.last()) {
            Some(p) => rest.push(p),
            None => rest,
        }
    }
}

/// How the profile to log in with is chosen.
pub enum ProfileChoice {
    /// The configuration names exactly this one profile: no question is asked.
    Only(String),
    /// The user picks one of these profiles.
    Choose(Vec<String>),
}

/// `r` is what `profile_choice` returns for the profile names `names`.
pub open spec fn chosen(r: Result<ProfileChoice, LoginError>, names: Seq<Seq<char>>) -> bool {
    if names.len() == 0 {
        r == Err::<ProfileChoice, LoginError>(LoginError::ConfigNotFound)
    } else if names.len() == 1 {
        r matches Ok(ProfileChoice::Only(p)) && p@ == names[0]
    } else {
        r matches Ok(ProfileChoice::Choose(v)) && names_of(v@) == names
    }
}

/// The profile named by one section name.
pub fn section_profile(section: &str) -> (r: Option<String>)
    ensures
        match r {
            Some(p) => profile_of(section@) == Some(p@),
            None => profile_of(section@) is None,
        },
{
    let marker = SESSION_MARKER;
    proof {
        reveal_strlit("sso-session");
        assert(marker@ =~= session_marker());
    }
    match find_first(section, marker) {
        Some(i) => {
            let mlen = marker.unicode_len();
            if i == 0 && mlen < section.unicode_len() && is_space_char(section.get_char(mlen)) {
                second_word_of(section)
            } else {
                None
            }
        },
        None => None,
    }
}

/// The profiles named by the sections that start with the session marker,
/// in the order of `sections`.
pub fn sso_profiles(sections: &Vec<String>) -> (r: Vec<String>)
    ensures
        names_of(r@) == profile_names(names_of(sections@)),
{
    let mut out: Vec<String> = Vec::new();
    let mut i: usize = 0;
    while i < sections.len()
        invariant
            i <= sections.len(),
            names_of(out@) == profile_names(names_of(sections@).subrange(0, i as int)),
        decreases sections.len() - i,
    {
        let p = section_profile(sections[i].as_str());
        proof {
            let pre = names_of(sections@).subrange(0, i as int + 1);
            assert(pre.drop_last() =~= names_of(sections@).subrange(0, i as int));
            assert(pre.last() == sections@[i as int]@);
        }
        match p {
            Some(name) => {
                out.push(name);
                assert(names_of(out@) =~= profile_names(
                    names_of(sections@).subrange(0, i as int + 1),
                ));
            },
            None => {},
        }
        i = i + 1;
    }
    assert(names_of(sections@).subrange(0, i as int) =~= names_of(sections@));
    out
}

/// Decides how the profile is chosen from the discovered profile names:
/// none is an error, one is taken as it is, several are offered.
pub fn profile_choice(profiles: Vec<String>) -> (r: Result<ProfileChoice, LoginError>)
    ensures
        chosen(r, names_of(profiles@)),
{
    if profiles.len() == 0 {
        Err(LoginError::ConfigNotFound)
    } else if profiles.len() == 1 {
        let only = profiles[0].clone();
        Ok(ProfileChoice::Only(only))
    } else {
        Ok(ProfileChoice::Choose(profiles))
    }
}

/// Reads the SSO profiles out of the AWS configuration text and decides how
/// one is chosen. Invalid INI is a `ConfigParse` error; otherwise the result
/// is `profile_choice` of the profiles of the section names, in the order in
/// which the parsed map hands them out.
pub fn discover_profiles(config_text: &str) -> (r: Result<ProfileChoice, LoginError>)
    ensures
        (r == Err::<ProfileChoice, LoginError>(LoginError::ConfigParse)) <==> !ini_parses(
            config_text@,
        ),
        !ini_parses(config_text@) || exists|
            sections: Seq<Seq<char>>,
        |
            #![auto]
            sections.no_duplicates() && sections.to_set() == ini_section_names(config_text@)
                && chosen(r, profile_names(sections)),
{
    match ini_sections(config_text) {
        Err(_) => Err(LoginError::ConfigParse),
        Ok(sections) => {
            let profiles = sso_profiles(&sections);
            let r = profile_choice(profiles);
            assert(chosen(r, profile_names(names_of(sections@))));
            r
        },
    }
}

proof fn lemma_no_profile_names(sections: Seq<Seq<char>>)
    requires
        forall|i: int| 0 <= i < sections.len() ==> profile_of(#[trigger] sections[i]) is None,
    ensures
        profile_names(sections) == Seq::<Seq<char>>::empty(),
    decreases sections.len(),
{
    if sections.len() > 0 {
        let rest = sections.drop_last();
        assert(profile_of(sections[sections.len() - 1]) is None);
        assert forall|i: int| 0 <= i < rest.len() implies profile_of(#[trigger] rest[i]) is None by {
            assert(rest[i] == sections[i]);
        }
        lemma_no_profile_names(rest);
    }
}

proof fn lemma_single_profile_names(sections: Seq<Seq<char>>, k: int)
    requires
        0 <= k < sections.len(),
        profile_of(sections[k]) is Some,
        forall|i: int|
            0 <= i < sections.len() && i != k ==> profile_of(#[trigger] sections[i]) is None,
    ensures
        profile_names(sections) == seq![profile_of(sections[k])->Some_0],
    decreases sections.len(),
{
    let rest = sections.drop_last();
    if k == sections.len() - 1 {
        assert forall|i: int| 0 <= i < rest.len() implies profile_of(#[trigger] rest[i]) is None by {
            assert(rest[i] == sections[i]);
        }
        lemma_no_profile_names(rest);
        assert(profile_names(sections) =~= seq![profile_of(sections[k])->Some_0]);
    } else {
        assert(rest[k] == sections[k]);
        assert forall|i: int| 0 <= i < rest.len() && i != k implies profile_of(
            #[trigger] rest[i],
        ) is None by {
            assert(rest[i] == sections[i]);
        }
        lemma_single_profile_names(rest, k);
        assert(profile_of(sections[sections.len() - 1]) is None);
    }
}

/// A configuration whose section names name no SSO profile yields no
/// profile, and the choice is then refused as a missing configuration.
pub proof fn lemma_no_profile_is_refused(
    sections: Seq<Seq<char>>,
    r: Result<ProfileChoice, LoginError>,
)
    requires
        forall|i: int| 0 <= i < sections.len() ==> profile_of(#[trigger] sections[i]) is None,
        chosen(r, profile_names(sections)),
    ensures
        profile_names(sections) == Seq::<Seq<char>>::empty(),
        r == Err::<ProfileChoice, LoginError>(LoginError::ConfigNotFound),
{
    lemma_no_profile_names(sections);
}

/// A configuration with exactly one section that names an SSO profile
/// yields that profile alone, and it is taken without asking.
pub proof fn lemma_single_profile_is_taken(
    sections: Seq<Seq<char>>,
    k: int,
    r: Result<ProfileChoice, LoginError>,
)
    requires
        0 <= k < sections.len(),
        profile_of(sections[k]) is Some,
        forall|i: int|
            0 <= i < sections.len() && i != k ==> profile_of(#[trigger] sections[i]) is None,
        chosen(r, profile_names(sections)),
    ensures
        profile_names(sections) == seq![profile_of(sections[k])->Some_0],
        r matches Ok(ProfileChoice::Only(p)) && p@ == profile_of(sections[k])->Some_0,
{
    lemma_single_profile_names(sections, k);
}

} // verus!
