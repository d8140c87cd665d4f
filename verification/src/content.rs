use vstd::prelude::*;
use crate::ids::{ContentId, UserId};
use vstd::string::StringExecFns;

verus! {

/// What `str::to_lowercase` gives for a text (Unicode lower-case mapping).
pub uninterp spec fn lowercased(s: Seq<char>) -> Seq<char>;

/// What `str::to_uppercase` gives for a text (Unicode upper-case mapping).
pub uninterp spec fn uppercased(s: Seq<char>) -> Seq<char>;

/// Calls `str::to_lowercase`; the result is named `lowercased`.
#[verifier::external_body]
pub(crate) fn to_lowercase(s: &str) -> (r: String)
    ensures
        r@ == lowercased(s@),
{
    s.to_lowercase()
}

/// Calls `str::to_uppercase`; the result is named `uppercased`.
#[verifier::external_body]
pub(crate) fn to_uppercase(s: &str) -> (r: String)
    ensures
        r@ == uppercased(s@),
{
    s.to_uppercase()
}

/// The kind of a content item (`post`, `bonus_hunter`, ...).
#[derive(Debug, Default)]
pub struct ContentType(pub String);

impl View for ContentType {
    type V = Seq<char>;

    open spec fn view(&self) -> Seq<char> {
        self.0@
    }
}

impl Clone for ContentType {
    fn clone(&self) -> (r: Self)
        ensures
            r == *self,
    {
        ContentType(self.0.clone())
    }
}

impl From<String> for ContentType {
    fn from(value: String) -> (r: Self) {
        ContentType(value)
    }
}

impl vstd::std_specs::convert::FromSpecImpl<String> for ContentType {
    open spec fn obeys_from_spec() -> bool {
        true
    }

    open spec fn from_spec(v: String) -> ContentType {
        ContentType(v)
    }
}

impl ContentType {
    /// The content type named by `t`, in lower case.
    pub fn new(t: &str) -> (r: Self)
        ensures
            r@ == lowercased(t@),
    {
        ContentType(to_lowercase(t))
    }

    /// The name of the content type.
    pub fn as_str(&self) -> (s: &str)
        ensures
            s@ == self@,
    {
        self.0.as_str()
    }

    /// The name of the content type, as `Display` writes it.
    pub fn to_text(&self) -> (s: String)
        ensures
            s@ == self@,
    {
        self.0.clone()
    }

    /// Whether two content types have the same name.
    pub fn same_as(&self, other: &ContentType) -> (b: bool)
        ensures
            b == (self@ == other@),
    {
        self.0 == other.0
    }
}

/// A like: a user liked a content item at `created_at` (nanoseconds since the
/// Unix epoch, UTC).
#[derive(Debug, Default)]
pub struct Like {
    pub user_id: UserId,
    pub content_type: ContentType,
    pub content_id: ContentId,
    pub created_at: i64,
}

impl Clone for Like {
    fn clone(&self) -> (r: Self)
        ensures
            r == *self,
    {
        Like {
            user_id: self.user_id,
            content_type: self.content_type.clone(),
            content_id: self.content_id,
            created_at: self.created_at,
        }
    }
}

/// A user as the profile service describes it.
#[derive(Debug)]
pub struct UserProfile {
    pub user_id: UserId,
    pub display_name: String,
}

/// Whether two texts are equal.
pub(crate) fn str_equal(a: &str, b: &str) -> (r: bool)
    ensures
        r == (a@ == b@),
{
    let x = String::from_str(a);
    let y = String::from_str(b);
    x == y
}

} // verus!
