//! Derived account addresses: every record of the platform lives at an
//! address computed from a namespace tag, key material and the owning
//! module's identity.
use anchor_lang::solana_program::pubkey::Pubkey;
use vstd::prelude::*;

verus! {

/// A 32-byte account identity: a wallet, a module, a mint or a derived
/// record address.
#[derive(Clone, Copy, Debug)]
pub struct Address {
    pub bytes: [u8; 32],
}

impl View for Address {
    type V = Seq<u8>;

    open spec fn view(&self) -> Seq<u8> {
        self.bytes@
    }
}

impl Address {
    /// The address made of the given bytes.
    pub fn new(bytes: [u8; 32]) -> (r: Address)
        ensures
            r@ == bytes@,
    {
        Address { bytes }
    }

    /// Whether two addresses hold the same bytes.
    pub fn same_as(&self, other: &Address) -> (r: bool)
        ensures
            r == (self@ == other@),
    {
        let mut i: usize = 0;
        while i < 32
            invariant
                i <= 32,
                self@.len() == 32,
                other@.len() == 32,
                forall|j: int| 0 <= j < i ==> self@[j] == other@[j],
            decreases 32 - i,
        {
            if self.bytes[i] != other.bytes[i] {
                return false;
            }
            i = i + 1;
        }
        assert(self@ =~= other@);
        true
    }
}

impl PartialEq for Address {
    fn eq(&self, other: &Address) -> (r: bool) {
        self.same_as(other)
    }
}

impl vstd::std_specs::cmp::PartialEqSpecImpl for Address {
    open spec fn obeys_eq_spec() -> bool {
        true
    }

    open spec fn eq_spec(&self, other: &Address) -> bool {
        self@ == other@
    }
}

impl Eq for Address {
}

/// The bytes of each seed.
pub open spec fn seed_bytes(seeds: Seq<Vec<u8>>) -> Seq<Seq<u8>> {
    seeds.map_values(|s: Vec<u8>| s@)
}

/// The address and bump that the derivation assigns to a list of seeds under
/// a program identity, or `None` where no bump in the search range yields an
/// address off the curve.
pub uninterp spec fn program_address(seeds: Seq<Seq<u8>>, program: Seq<u8>) -> Option<(Seq<u8>, u8)>;

/// Relies on `Pubkey::try_find_program_address`: the result is a function of
/// the seeds and the program identity alone, so that re-deriving reproduces it.
#[verifier::external_body]
fn find_program_address(seeds: &Vec<Vec<u8>>, program: &Address) -> (r: Option<(Address, u8)>)
    ensures
        match r {
            Some(found) => program_address(seed_bytes(seeds@), program@) == Some((found.0@, found.1)),
            None => program_address(seed_bytes(seeds@), program@) is None,
        },
{
    let parts: Vec<&[u8]> = seeds.iter().map(|s| s.as_slice()).collect();
    let program_id = Pubkey::new_from_array(program.bytes);
    Pubkey::try_find_program_address(&parts, &program_id).map(|(key, bump)| (Address { bytes: key.to_bytes() }, bump))
}

impl Address {
    /// The address's bytes, as a seed.
    pub fn to_seed(&self) -> (r: Vec<u8>)
        ensures
            r@ == self@,
    {
        let mut r: Vec<u8> = Vec::new();
        let mut i: usize = 0;
        while i < 32
            invariant
                i <= 32,
                self@.len() == 32,
                r@ == self@.subrange(0, i as int),
            decreases 32 - i,
        {
            r.push(self.bytes[i]);
            i = i + 1;
        }
        assert(r@ =~= self@);
        r
    }
}

/// The namespace tag that opens the seeds of each kind of record.
#[derive(Clone, Copy, Debug, PartialEq, Eq, Structural)]
pub enum Namespace {
    Admin,
    Marketplace,
    Treasury,
    Authority,
    User,
    Writer,
    Reader,
    Book,
    Chapter,
    Review,
    Exclusive,
}

impl Namespace {
    /// The tag's bytes: the namespace's name in ASCII ("admin", "book", ...).
    pub open spec fn tag(self) -> Seq<u8> {
        match self {
            Namespace::Admin => seq![97u8, 100u8, 109u8, 105u8, 110u8],
            Namespace::Marketplace => seq![109u8, 97u8, 114u8, 107u8, 101u8, 116u8, 112u8, 108u8, 97u8, 99u8, 101u8],
            Namespace::Treasury => seq![116u8, 114u8, 101u8, 97u8, 115u8, 117u8, 114u8, 121u8],
            Namespace::Authority => seq![97u8, 117u8, 116u8, 104u8, 111u8, 114u8, 105u8, 116u8, 121u8],
            Namespace::User => seq![117u8, 115u8, 101u8, 114u8],
            Namespace::Writer => seq![119u8, 114u8, 105u8, 116u8, 101u8, 114u8],
            Namespace::Reader => seq![114u8, 101u8, 97u8, 100u8, 101u8, 114u8],
            Namespace::Book => seq![98u8, 111u8, 111u8, 107u8],
            Namespace::Chapter => seq![99u8, 104u8, 97u8, 112u8, 116u8, 101u8, 114u8],
            Namespace::Review => seq![114u8, 101u8, 118u8, 105u8, 101u8, 119u8],
            Namespace::Exclusive => seq![101u8, 120u8, 99u8, 108u8, 117u8, 115u8, 105u8, 118u8, 101u8],
        }
    }

    /// The tag's bytes.
    pub fn tag_bytes(self) -> (r: Vec<u8>)
        ensures
            r@ == self.tag(),
    {
        let r = match self {
            Namespace::Admin => vec![97u8, 100u8, 109u8, 105u8, 110u8],
            Namespace::Marketplace => vec![109u8, 97u8, 114u8, 107u8, 101u8, 116u8, 112u8, 108u8, 97u8, 99u8, 101u8],
            Namespace::Treasury => vec![116u8, 114u8, 101u8, 97u8, 115u8, 117u8, 114u8, 121u8],
            Namespace::Authority => vec![97u8, 117u8, 116u8, 104u8, 111u8, 114u8, 105u8, 116u8, 121u8],
            Namespace::User => vec![117u8, 115u8, 101u8, 114u8],
            Namespace::Writer => vec![119u8, 114u8, 105u8, 116u8, 101u8, 114u8],
            Namespace::Reader => vec![114u8, 101u8, 97u8, 100u8, 101u8, 114u8],
            Namespace::Book => vec![98u8, 111u8, 111u8, 107u8],
            Namespace::Chapter => vec![99u8, 104u8, 97u8, 112u8, 116u8, 101u8, 114u8],
            Namespace::Review => vec![114u8, 101u8, 118u8, 105u8, 101u8, 119u8],
            Namespace::Exclusive => vec![101u8, 120u8, 99u8, 108u8, 117u8, 115u8, 105u8, 118u8, 101u8],
        };
        assert(r@ =~= self.tag());
        r
    }
}

/// The seeds of a record: its namespace tag, then its key material.
pub open spec fn seeds_of(ns: Namespace, parts: Seq<Seq<u8>>) -> Seq<Seq<u8>> {
    seq![ns.tag()] + parts
}

/// Derives the address and bump of the record in namespace `ns` keyed by
/// `parts` under `program`. The same inputs always give the same outcome.
pub fn derive_seeds(ns: Namespace, parts: Vec<Vec<u8>>, program: &Address) -> (r: Option<(Address, u8)>)
    ensures
        match r {
            Some(found) => program_address(seeds_of(ns, seed_bytes(parts@)), program@) == Some((found.0@, found.1)),
            None => program_address(seeds_of(ns, seed_bytes(parts@)), program@) is None,
        },
{
    let mut seeds: Vec<Vec<u8>> = Vec::new();
    seeds.push(ns.tag_bytes());
    let ghost given = parts@;
    let mut rest = parts;
    seeds.append(&mut rest);
    assert(seed_bytes(seeds@) =~= seeds_of(ns, seed_bytes(given)));
    find_program_address(&seeds, program)
}

/// Derives the address of the record in namespace `ns` keyed by one address.
pub fn derive_by(ns: Namespace, key: &Address, program: &Address) -> (r: Option<(Address, u8)>)
    ensures
        match r {
            Some(found) => program_address(seeds_of(ns, seq![key@]), program@) == Some((found.0@, found.1)),
            None => program_address(seeds_of(ns, seq![key@]), program@) is None,
        },
{
    let mut parts: Vec<Vec<u8>> = Vec::new();
    parts.push(key.to_seed());
    assert(seed_bytes(parts@) =~= seq![key@]);
    derive_seeds(ns, parts, program)
}

/// Derives the address of the record in namespace `ns` keyed by two
/// addresses, in order.
pub fn derive_by_pair(ns: Namespace, first: &Address, second: &Address, program: &Address) -> (r: Option<(Address, u8)>)
    ensures
        match r {
            Some(found) => program_address(seeds_of(ns, seq![first@, second@]), program@) == Some((found.0@, found.1)),
            None => program_address(seeds_of(ns, seq![first@, second@]), program@) is None,
        },
{
    let mut parts: Vec<Vec<u8>> = Vec::new();
    parts.push(first.to_seed());
    parts.push(second.to_seed());
    assert(seed_bytes(parts@) =~= seq![first@, second@]);
    derive_seeds(ns, parts, program)
}

} // verus!
