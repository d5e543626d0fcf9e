use vstd::prelude::*;
use vstd::std_specs::cmp::PartialEqSpecImpl;

use crate::utils::text::str_equal;

verus! {

/// The key under which a virtual actor of `kind` with `id` is known: the
/// kind, a slash, and the id.
pub open spec fn identity_key(kind: Seq<char>, id: Seq<char>) -> Seq<char> {
    kind + seq!['/'] + id
}

/// The unique name of a virtual actor: its kind and its id.
#[derive(Debug, Clone, Hash)]
pub struct ClusterIdentity {
    kind: String,
    id: String,
}

impl View for ClusterIdentity {
    type V = (Seq<char>, Seq<char>);

    /// The kind and the id.
    closed spec fn view(&self) -> (Seq<char>, Seq<char>) {
        (self.kind@, self.id@)
    }
}

impl ClusterIdentity {
    /// The identity of the actor of `kind` named `id`.
    pub fn new(kind: &str, id: &str) -> (r: Self)
        ensures
            r@ == (kind@, id@),
    {
        ClusterIdentity { kind: String::from_str(kind), id: String::from_str(id) }
    }

    /// The kind.
    pub fn kind(&self) -> (r: &str)
        ensures
            r@ == self@.0,
    {
        self.kind.as_str()
    }

    /// The id.
    pub fn id(&self) -> (r: &str)
        ensures
            r@ == self@.1,
    {
        self.id.as_str()
    }

    /// The key `kind/id`.
    pub fn as_key(&self) -> (r: String)
        ensures
            r@ == identity_key(self@.0, self@.1),
    {
        proof {
            reveal_strlit("/");
        }
        String::from_str(self.kind.as_str()).concat("/").concat(self.id.as_str())
    }

    /// An equal copy.
    pub fn duplicate(&self) -> (r: Self)
        ensures
            r@ == self@,
    {
        ClusterIdentity { kind: self.kind.clone(), id: self.id.clone() }
    }
}

impl PartialEq for ClusterIdentity {
    fn eq(&self, other: &Self) -> (r: bool) {
        str_equal(self.kind.as_str(), other.kind.as_str()) && str_equal(
            self.id.as_str(),
            other.id.as_str(),
        )
    }
}

impl PartialEqSpecImpl for ClusterIdentity {
    open spec fn obeys_eq_spec() -> bool {
        true
    }

    open spec fn eq_spec(&self, other: &Self) -> bool {
        self@ == other@
    }
}

impl Eq for ClusterIdentity {
}

/// Two identities with the same kind and id have the same key, and the key
/// tells the kind and the id apart when the kind holds no slash.
pub proof fn lemma_identity_key_injective(a: ClusterIdentity, b: ClusterIdentity)
    requires
        !a@.0.contains('/'),
        !b@.0.contains('/'),
        identity_key(a@.0, a@.1) == identity_key(b@.0, b@.1),
    ensures
        a@ == b@,
{
    let ka = a@.0;
    let kb = b@.0;
    let key = identity_key(ka, a@.1);
    assert(key[ka.len() as int] == '/');
    assert(identity_key(kb, b@.1)[kb.len() as int] == '/');
    if ka.len() < kb.len() {
        assert(key[ka.len() as int] == kb[ka.len() as int]);
        assert(kb.contains('/'));
    } else if kb.len() < ka.len() {
        assert(identity_key(kb, b@.1)[kb.len() as int] == ka[kb.len() as int]);
        assert(ka.contains('/'));
    }
    assert(ka.len() == kb.len());
    assert(a@.1.len() == b@.1.len()) by {
        assert(key.len() == identity_key(kb, b@.1).len());
    }
    assert(ka =~= kb) by {
        assert forall|i: int| 0 <= i < ka.len() implies ka[i] == kb[i] by {
            assert(key[i] == ka[i]);
            assert(identity_key(kb, b@.1)[i] == kb[i]);
        }
    }
    assert(a@.1 =~= b@.1) by {
        assert forall|i: int| 0 <= i < a@.1.len() implies a@.1[i] == b@.1[i] by {
            assert(key[ka.len() + 1 + i] == a@.1[i]);
            assert(identity_key(kb, b@.1)[ka.len() + 1 + i] == b@.1[i]);
        }
    }
}

} // verus!
