//! Unique identifiers of songs, written `<namespace>-<unique string>`.

use vstd::prelude::*;

verus! {

/// The text of the id made of `namespace` and `unique`: the namespace, a hyphen, then the
/// unique string.
pub open spec fn id_text(namespace: Seq<char>, unique: Seq<char>) -> Seq<char> {
    namespace + seq!['-'] + unique
}

/// The namespace of ids generated when no proper id can be had.
pub open spec fn generated_namespace() -> Seq<char> {
    seq!['M', 'o', 'u', 's', 'a', 'i']
}

/// The namespace of ids made for tests.
pub open spec fn test_namespace() -> Seq<char> {
    seq!['T', 'e', 's', 't']
}

/// The unique identifier of a song.
#[derive(Debug, Hash)]
pub struct SongId {
    text: String,
}

impl View for SongId {
    type V = Seq<char>;

    closed spec fn view(&self) -> Seq<char> {
        self.text@
    }
}

impl PartialEq for SongId {
    fn eq(&self, other: &Self) -> (same: bool) {
        self.text == other.text
    }
}

impl Eq for SongId {}

impl vstd::std_specs::cmp::PartialEqSpecImpl for SongId {
    open spec fn obeys_eq_spec() -> bool {
        true
    }

    open spec fn eq_spec(&self, other: &SongId) -> bool {
        self@ == other@
    }
}

impl Clone for SongId {
    fn clone(&self) -> (copy: Self)
        ensures
            copy@ == self@,
    {
        SongId { text: self.text.clone() }
    }
}


/// Draws a fresh random identifier string from `uuid::Uuid::new_v4`, written in the
/// crate's hyphenated lower-case form (`Display`, through `to_string`).
/// Claimed: the string has 36 characters, as that form always has. The value itself is
/// random and nothing more is claimed of it; `new_v4` reads the operating system's
/// random source and panics if that source fails.
#[verifier::external_body]
fn random_unique_string() -> (unique: String)
    ensures
        unique@.len() == 36,
{
    uuid::Uuid::new_v4().to_string()
}

impl SongId {
    /// Makes the id `<namespace>-<unique_str>`. `unique_str` must be unique to each song.
    pub fn from(namespace: &str, unique_str: &str) -> (id: SongId)
        ensures
            id@ == id_text(namespace@, unique_str@),
    {
        let mut text = String::from_str(namespace);
        let hyphen = "-";
        proof {
            reveal_strlit("-");
        }
        text.append(hyphen);
        text.append(unique_str);
        SongId { text }
    }

    /// Makes an id from a generated unique string in the namespace `Mousai`.
    /// It is meant for songs whose id cannot be had otherwise.
    pub fn generate_unique() -> (id: SongId)
        ensures
            exists|unique: Seq<char>|
                unique.len() == 36 && id@ == #[trigger] id_text(generated_namespace(), unique),
    {
        let unique = random_unique_string();
        let id = SongId::from("Mousai", unique.as_str());
        proof {
            reveal_strlit("Mousai");
        }
        assert(id@ == id_text(generated_namespace(), unique@));
        id
    }

    /// Makes an id in the namespace `Test`.
    pub fn for_test(unique_str: &str) -> (id: SongId)
        ensures
            id@ == id_text(test_namespace(), unique_str@),
    {
        let id = SongId::from("Test", unique_str);
        proof {
            reveal_strlit("Test");
        }
        id
    }

    /// Takes a stored id text back as it was written.
    pub fn from_raw_string(text: String) -> (id: SongId)
        ensures
            id@ == text@,
    {
        SongId { text }
    }

    /// The text of the id.
    pub fn as_str(&self) -> (text: &str)
        ensures
            text@ == self@,
    {
        self.text.as_str()
    }
}

/// Two ids of one namespace are equal exactly when their unique strings are equal.
pub proof fn lemma_same_namespace_ids_equal_iff(namespace: Seq<char>, a: Seq<char>, b: Seq<char>)
    ensures
        id_text(namespace, a) == id_text(namespace, b) <==> a == b,
{
    let prefix = namespace + seq!['-'];
    if id_text(namespace, a) == id_text(namespace, b) {
        assert(a =~= id_text(namespace, a).skip(prefix.len() as int));
        assert(b =~= id_text(namespace, b).skip(prefix.len() as int));
    }
}

} // verus!
