use vstd::prelude::*;
use vstd::string::StringExecFns;
use crate::config::{env_get, env_lookup, starts_with};

verus! {

/// The data of the stand-in profile and content services: token table and
/// the content items that exist.
#[derive(Debug)]
pub struct AppState {
    pub valid_tokens: Vec<(String, String)>,
    pub valid_content: Vec<u128>,
}

impl AppState {
    /// The fixed data of the stand-in services: three users, two content items.
    pub fn new() -> (s: Self)
        ensures
            s.valid_tokens@.len() == 3,
            s.valid_tokens@[0].0@ == "550e8400-e29b-41d4-a716-446655440001"@,
            s.valid_tokens@[0].1@ == "tok_user_1"@,
            s.valid_tokens@[1].0@ == "550e8400-e29b-41d4-a716-446655440002"@,
            s.valid_tokens@[1].1@ == "tok_user_2"@,
            s.valid_tokens@[2].0@ == "550e8400-e29b-41d4-a716-446655440003"@,
            s.valid_tokens@[2].1@ == "tok_user_3"@,
            s.valid_content@ == seq![0x731b0395_4888_4822_b516_05b4b7bf2089u128, 0x11111111_2222_3333_4444_555555555555u128],
    {
        let mut tokens: Vec<(String, String)> = Vec::new();
        tokens.push((String::from_str("550e8400-e29b-41d4-a716-446655440001"), String::from_str("tok_user_1")));
        tokens.push((String::from_str("550e8400-e29b-41d4-a716-446655440002"), String::from_str("tok_user_2")));
        tokens.push((String::from_str("550e8400-e29b-41d4-a716-446655440003"), String::from_str("tok_user_3")));
        let mut content: Vec<u128> = Vec::new();
        content.push(0x731b0395_4888_4822_b516_05b4b7bf2089u128);
        content.push(0x11111111_2222_3333_4444_555555555555u128);
        let s = AppState { valid_tokens: tokens, valid_content: content };
        assert(s.valid_content@ =~= seq![0x731b0395_4888_4822_b516_05b4b7bf2089u128, 0x11111111_2222_3333_4444_555555555555u128]);
        s
    }
}

/// The stand-in content service's answer.
#[derive(Debug, Clone, Copy, PartialEq, Eq, Structural)]
pub struct ContentResponse {
    pub exists: bool,
    pub id: u128,
}

fn contains_id(ids: &Vec<u128>, id: u128) -> (b: bool)
    ensures
        b == ids@.contains(id),
{
    let mut i: usize = 0;
    while i < ids.len()
        invariant
            i <= ids@.len(),
            forall|j: int| 0 <= j < i ==> ids@[j] != id,
        decreases ids@.len() - i,
    {
        if ids[i] == id {
            assert(ids@[i as int] == id);
            return true;
        }
        i = i + 1;
    }
    false
}

/// The stand-in content service: 200 for an existing item, 404 otherwise.
pub fn check_content(id: u128, state: &AppState) -> (r: (u16, ContentResponse))
    ensures
        r.1.id == id,
        r.1.exists == state.valid_content@.contains(id),
        r.0 == (if state.valid_content@.contains(id) { 200u16 } else { 404u16 }),
{
    if contains_id(&state.valid_content, id) {
        (200, ContentResponse { exists: true, id })
    } else {
        (404, ContentResponse { exists: false, id })
    }
}

/// The stand-in profile service's answer.
#[derive(Debug)]
pub struct AuthResponse {
    pub valid: bool,
    pub user_id: Option<String>,
}

/// The token that an `Authorization` header carries after `Bearer `.
pub open spec fn bearer_token_text(header: Option<Seq<char>>) -> Option<Seq<char>> {
    match header {
        Some(h) => if starts_with(h, "Bearer "@) {
            Some(h.subrange("Bearer "@.len() as int, h.len() as int))
        } else {
            None
        },
        None => None,
    }
}

fn strip_bearer<'a>(header: Option<&'a str>) -> (r: Option<&'a str>)
    ensures
        match bearer_token_text(match header { Some(h) => Some(h@), None => None }) {
            Some(t) => r matches Some(x) && x@ == t,
            None => r is None,
        },
{
    match header {
        None => None,
        Some(h) => {
            let n = h.unicode_len();
            let plen = "Bearer ".unicode_len();
            if plen > n {
                return None;
            }
            if !crate::content::str_equal(h.substring_char(0, plen), "Bearer ") {
                return None;
            }
            Some(h.substring_char(plen, n))
        },
    }
}

/// The stand-in profile service: a known bearer token is valid (200) and
/// answers the value the table holds for it; anything else is refused (401).
pub fn validate_token(header: Option<&str>, state: &AppState) -> (r: (u16, AuthResponse))
    ensures
        ({
            let found = match bearer_token_text(match header { Some(h) => Some(h@), None => None }) {
                Some(t) => env_lookup(state.valid_tokens@, t),
                None => None,
            };
            match found {
                Some(u) => r.0 == 200 && r.1.valid && (r.1.user_id matches Some(x) && x@ == u),
                None => r.0 == 401 && !r.1.valid && r.1.user_id is None,
            }
        }),
{
    match strip_bearer(header) {
        Some(token) => match env_get(&state.valid_tokens, token) {
            Some(user_id) => (200, AuthResponse { valid: true, user_id: Some(user_id.clone()) }),
            None => (401, AuthResponse { valid: false, user_id: None }),
        },
        None => (401, AuthResponse { valid: false, user_id: None }),
    }
}

/// The answer of the stand-alone profile stand-in.
#[derive(Debug)]
pub enum ProfileAnswer {
    Valid { user_id: String, display_name: String },
    Invalid { error: String },
}

/// The stand-alone profile stand-in: a known bearer token is valid (200),
/// answered with itself as user and the table's value as display name;
/// anything else is refused (401) as an invalid token.
pub fn validate_profile_token(header: Option<&str>, state: &AppState) -> (r: (u16, ProfileAnswer))
    ensures
        ({
            let tok = bearer_token_text(match header { Some(h) => Some(h@), None => None });
            let found = match tok {
                Some(t) => env_lookup(state.valid_tokens@, t),
                None => None,
            };
            match found {
                Some(d) => r.0 == 200 && (r.1 matches ProfileAnswer::Valid { user_id, display_name }
                    && user_id@ == tok->Some_0 && display_name@ == d),
                None => r.0 == 401 && (r.1 matches ProfileAnswer::Invalid { error } && error@ == "invalid_token"@),
            }
        }),
{
    match strip_bearer(header) {
        Some(token) => match env_get(&state.valid_tokens, token) {
            Some(name) => (200, ProfileAnswer::Valid { user_id: String::from_str(token), display_name: name.clone() }),
            None => (401, ProfileAnswer::Invalid { error: String::from_str("invalid_token") }),
        },
        None => (401, ProfileAnswer::Invalid { error: String::from_str("invalid_token") }),
    }
}

/// The stand-alone content stand-in: an existing item is answered (200)
/// with its identifier and the content type asked for, any other with 404.
pub fn check_typed_content(content_type: &str, id: u128, state: &AppState) -> (r: (u16, Option<(u128, String)>))
    ensures
        state.valid_content@.contains(id) ==> (r.0 == 200 && (r.1 matches Some(p) && p.0 == id && p.1@ == content_type@)),
        !state.valid_content@.contains(id) ==> (r.0 == 404 && r.1 is None),
{
    if contains_id(&state.valid_content, id) {
        (200, Some((id, String::from_str(content_type))))
    } else {
        (404, None)
    }
}

} // verus!
