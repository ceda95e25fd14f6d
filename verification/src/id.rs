use vstd::prelude::*;

verus! {

/// The key of a project, a task, a file group or a tag.
///
/// Two identifiers denote the same thing when their characters agree, so
/// every contract speaks of an identifier through its view.
#[derive(Debug, PartialEq, Eq, Hash, PartialOrd, Ord)]
pub struct Id(pub String);

impl View for Id {
    type V = Seq<char>;

    open spec fn view(&self) -> Seq<char> {
        self.0@
    }
}

impl Clone for Id {
    fn clone(&self) -> (copy: Self)
        ensures
            copy == *self,
    {
        Id(self.0.clone())
    }
}

/// Whether `a` comes before `b` in the order of identifiers: character by
/// character, by code point, a proper prefix before what it is a prefix of.
pub open spec fn precedes(a: Seq<char>, b: Seq<char>) -> bool
    decreases a.len(),
{
    if b.len() == 0 {
        false
    } else if a.len() == 0 {
        true
    } else if a[0] != b[0] {
        (a[0] as u32) < (b[0] as u32)
    } else {
        precedes(a.skip(1), b.skip(1))
    }
}

/// Nothing comes before itself.
pub proof fn precedes_is_irreflexive(a: Seq<char>)
    ensures
        !precedes(a, a),
    decreases a.len(),
{
    if a.len() > 0 {
        precedes_is_irreflexive(a.skip(1));
    }
}

/// What comes before something that comes before a third comes before the
/// third.
pub proof fn precedes_is_transitive(a: Seq<char>, b: Seq<char>, c: Seq<char>)
    requires
        precedes(a, b),
        precedes(b, c),
    ensures
        precedes(a, c),
    decreases a.len(),
{
    if a.len() > 0 && b.len() > 0 && c.len() > 0 {
        if a[0] == b[0] && b[0] == c[0] {
            precedes_is_transitive(a.skip(1), b.skip(1), c.skip(1));
        }
    }
}

/// Of two different identifiers one comes before the other.
pub proof fn precedes_is_total(a: Seq<char>, b: Seq<char>)
    ensures
        a == b || precedes(a, b) || precedes(b, a),
    decreases a.len(),
{
    if a.len() == 0 || b.len() == 0 {
        if a.len() == 0 && b.len() == 0 {
            assert(a =~= b);
        }
    } else if a[0] == b[0] {
        precedes_is_total(a.skip(1), b.skip(1));
        if a.skip(1) == b.skip(1) {
            assert(a =~= seq![a[0]] + a.skip(1));
            assert(b =~= seq![b[0]] + b.skip(1));
        }
    } else {
        vstd::utf8::char_u32_cast(a[0], a[0] as u32);
        vstd::utf8::char_u32_cast(b[0], b[0] as u32);
    }
}

/// `<` on `str`. The standard library orders strings lexicographically by
/// their bytes, which in UTF-8 is their order by code points.
#[verifier::external_body]
fn str_precedes(a: &str, b: &str) -> (before: bool)
    ensures
        before == precedes(a@, b@),
{
    a < b
}

impl Id {
    /// Wraps `text` as it stands.
    pub fn raw(text: &str) -> (id: Id)
        ensures
            id@ == text@,
    {
        Id(text.to_owned())
    }

    pub fn as_str(&self) -> (text: &str)
        ensures
            text@ == self@,
    {
        self.0.as_str()
    }

    /// Whether this identifier comes before `other`.
    pub fn precedes(&self, other: &Id) -> (before: bool)
        ensures
            before == precedes(self@, other@),
    {
        str_precedes(self.0.as_str(), other.0.as_str())
    }

    /// Whether both identifiers have the same characters.
    pub fn same_as(&self, other: &Id) -> (same: bool)
        ensures
            same == (self@ == other@),
    {
        self.0 == other.0
    }
}

} // verus!
