//! The marketplace module: a named marketplace record and its treasury,
//! created together under addresses derived from the name.
use crate::address::{derive_seeds, derive_by, program_address, seeds_of, Address, Namespace};
use crate::store::Store;
use vstd::prelude::*;
use vstd::utf8::encode_utf8;

verus! {

/// The most bytes a marketplace name may hold.
pub const MAX_NAME_LEN: usize = 32;

/// Why a marketplace could not be created.
#[derive(Clone, Copy, Debug, PartialEq, Eq, Structural)]
pub enum MarketplaceError {
    /// The name is empty or longer than the limit.
    NameTooLong,
    /// No address could be derived for one of the records.
    AddressUnavailable,
    /// A marketplace of that name exists already.
    AlreadyInitialized,
}

/// A marketplace, kept at the address derived from its name.
pub struct Marketplace {
    pub admin: Address,
    pub fee: u16,
    pub name: String,
    pub bump: u8,
    pub treasury_bump: u8,
}

/// A marketplace's treasury, kept at the address derived from the
/// marketplace's address; its balance lives on the ledger.
pub struct Treasury {
    pub marketplace: Address,
    pub bump: u8,
}

/// The marketplace module's identity, and the marketplaces and treasuries it
/// owns.
pub struct MarketplaceProgram {
    pub program_id: Address,
    pub marketplaces: Store<Marketplace>,
    pub treasuries: Store<Treasury>,
}

/// The accounts of a marketplace creation: the wallet that pays for it.
pub struct Initialize {
    pub user: Address,
}

/// The bytes of a name, as a seed.
pub open spec fn name_bytes(name: Seq<char>) -> Seq<u8> {
    encode_utf8(name)
}

/// The addresses that a marketplace named `name` uses under `program`: the
/// admin, the marketplace with its bump, and the treasury with its bump;
/// `None` when one of them cannot be derived.
pub open spec fn marketplace_plan(program: Seq<u8>, name: Seq<char>) -> Option<(Seq<u8>, Seq<u8>, u8, Seq<u8>, u8)> {
    let admin = program_address(seeds_of(Namespace::Admin, seq![]), program);
    let market = program_address(seeds_of(Namespace::Marketplace, seq![name_bytes(name)]), program);
    if admin is None || market is None {
        None
    } else {
        let a = admin->0;
        let m = market->0;
        let treasury = program_address(seeds_of(Namespace::Treasury, seq![m.0]), program);
        if treasury is None {
            None
        } else {
            let t = treasury->0;
            Some((a.0, m.0, m.1, t.0, t.1))
        }
    }
}

/// The error that creating a marketplace named `name` in `m` meets, if any.
pub open spec fn init_error(m: MarketplaceProgram, name: Seq<char>) -> Option<MarketplaceError> {
    let len = name_bytes(name).len();
    let plan = marketplace_plan(m.program_id@, name);
    if len == 0 || len > MAX_NAME_LEN {
        Some(MarketplaceError::NameTooLong)
    } else if plan is None {
        Some(MarketplaceError::AddressUnavailable)
    } else if m.marketplaces.records().contains_key((plan->0).1) || m.treasuries.records().contains_key(
        (plan->0).3,
    ) {
        Some(MarketplaceError::AlreadyInitialized)
    } else {
        None
    }
}

/// `after` is `before` with the marketplace `name`, holding `fee`, and its
/// treasury added together.
pub open spec fn initialized(before: MarketplaceProgram, after: MarketplaceProgram, name: Seq<char>, fee: u16) -> bool {
    let plan = marketplace_plan(before.program_id@, name)->0;
    let market = after.marketplaces.records()[plan.1];
    let treasury = after.treasuries.records()[plan.3];
    &&& marketplace_plan(before.program_id@, name) is Some
    &&& after.program_id == before.program_id
    &&& after.marketplaces.records() == before.marketplaces.records().insert(plan.1, market)
    &&& market.admin@ == plan.0
    &&& market.fee == fee
    &&& market.name@ == name
    &&& market.bump == plan.2
    &&& market.treasury_bump == plan.4
    &&& after.treasuries.records() == before.treasuries.records().insert(plan.3, treasury)
    &&& treasury.marketplace@ == plan.1
    &&& treasury.bump == plan.4
}

impl MarketplaceProgram {
    /// The module's state is well formed.
    pub open spec fn wf(&self) -> bool {
        self.marketplaces.wf() && self.treasuries.wf()
    }

    /// A module with the given identity and no marketplace.
    pub fn new(program_id: Address) -> (r: MarketplaceProgram)
        ensures
            r.wf(),
            r.program_id == program_id,
            r.marketplaces.records() == Map::<Seq<u8>, Marketplace>::empty(),
            r.treasuries.records() == Map::<Seq<u8>, Treasury>::empty(),
    {
        MarketplaceProgram { program_id, marketplaces: Store::new(), treasuries: Store::new() }
    }
}

impl Initialize {
    /// Creates the marketplace `name` with `fee` basis points, and fixes its
    /// treasury's address. Fails, changing nothing, when the name is empty or
    /// too long, when an address cannot be derived, or when the name is taken.
    pub fn init(&self, program: &mut MarketplaceProgram, name: String, fee: u16) -> (r: Result<(), MarketplaceError>)
        requires
            old(program).wf(),
        ensures
            final(program).wf(),
            final(program).program_id == old(program).program_id,
            match init_error(*old(program), name@) {
                Some(e) => r == Err::<(), MarketplaceError>(e) && *final(program) == *old(program),
                None => r is Ok && initialized(*old(program), *final(program), name@, fee),
            },
    {
        let bytes = vstd::slice::slice_to_vec(name.as_str().as_bytes());
        let len = bytes.len();
        if len == 0 || len > MAX_NAME_LEN {
            return Err(MarketplaceError::NameTooLong);
        }
        let no_parts: Vec<Vec<u8>> = Vec::new();
        proof {
            assert(crate::address::seed_bytes(no_parts@) =~= seq![]);
        }
        let admin = match derive_seeds(Namespace::Admin, no_parts, &program.program_id) {
            Some(found) => found.0,
            None => return Err(MarketplaceError::AddressUnavailable),
        };
        let mut parts: Vec<Vec<u8>> = Vec::new();
        parts.push(bytes);
        proof {
            assert(crate::address::seed_bytes(parts@) =~= seq![name_bytes(name@)]);
        }
        let (market, bump) = match derive_seeds(Namespace::Marketplace, parts, &program.program_id) {
            Some(found) => found,
            None => return Err(MarketplaceError::AddressUnavailable),
        };
        let (treasury, treasury_bump) = match derive_by(Namespace::Treasury, &market, &program.program_id) {
            Some(found) => found,
            None => return Err(MarketplaceError::AddressUnavailable),
        };
        if program.marketplaces.contains(&market) || program.treasuries.contains(&treasury) {
            return Err(MarketplaceError::AlreadyInitialized);
        }
        let record = Marketplace { admin, fee, name, bump, treasury_bump };
        program.marketplaces.create(market, record);
        program.treasuries.create(treasury, Treasury { marketplace: market, bump: treasury_bump });
        Ok(())
    }
}

/// Once a marketplace has been created under a name, deriving that name's
/// address again finds the marketplace, with the bump it was stored with, and
/// a second creation under the same name fails because it exists already.
pub proof fn lemma_initialize_once(before: MarketplaceProgram, after: MarketplaceProgram, name: Seq<char>, fee: u16)
    requires
        init_error(before, name) is None,
        initialized(before, after, name, fee),
    ensures
        ({
            let found = program_address(seeds_of(Namespace::Marketplace, seq![name_bytes(name)]), after.program_id@);
            &&& found is Some
            &&& after.marketplaces.records().contains_key((found->0).0)
            &&& after.marketplaces.records()[(found->0).0].bump == (found->0).1
        }),
        init_error(after, name) == Some(MarketplaceError::AlreadyInitialized),
{
}

} // verus!
