//! Addresses, seed lists, and the derivation of program-controlled
//! authorities.
//!
//! An authority is an address for which no private key exists. It is computed
//! from a seed list and the program's own id, and whoever can rebuild the seed
//! list can act as that address. The derivation itself is done by
//! `anchor_lang`; everything around it is verified here.

use vstd::prelude::*;

verus! {

/// A 32-byte account address.
#[derive(Clone, Copy, Debug, PartialEq, Eq)]
pub struct Address {
    pub bytes: [u8; 32],
}

impl View for Address {
    type V = Seq<u8>;

    open spec fn view(&self) -> Seq<u8> {
        self.bytes@
    }
}

impl Address {
    /// The address that has these 32 bytes.
    pub open spec fn of(bytes: Seq<u8>) -> Address {
        choose|a: Address| a@ == bytes
    }

    /// The all-zero address, which stands for "nobody" in a record.
    pub open spec fn spec_unset() -> Address {
        Address::of(Seq::new(32, |i: int| 0u8))
    }

    /// Two addresses with the same bytes are the same address.
    pub proof fn lemma_view_injective(a: Address, b: Address)
        ensures
            (a@ == b@) <==> (a == b),
    {
        if a@ == b@ {
            assert(a.bytes =~= b.bytes);
        }
    }

    /// `Address::of` undoes the view.
    pub proof fn lemma_of_view(a: Address)
        ensures
            Address::of(a@) == a,
    {
        Address::lemma_view_injective(Address::of(a@), a);
    }

    pub fn new(bytes: [u8; 32]) -> (r: Address)
        ensures
            r.bytes == bytes,
    {
        Address { bytes }
    }

    #[verifier::when_used_as_spec(spec_unset)]
    pub fn unset() -> (r: Address)
        ensures
            r == Address::spec_unset(),
    {
        let r = Address { bytes: [0u8;32] };
        proof {
            assert(r@ =~= Seq::new(32, |i: int| 0u8));
            Address::lemma_of_view(r);
        }
        r
    }

    /// Compares two addresses byte by byte.
    pub fn same(&self, other: &Address) -> (r: bool)
        ensures
            r == (*self == *other),
    {
        let mut i: usize = 0;
        while i < 32
            invariant
                i <= 32,
                forall|j: int| 0 <= j < i ==> self.bytes[j] == other.bytes[j],
            decreases 32 - i,
        {
            if self.bytes[i] != other.bytes[i] {
                return false;
            }
            i = i + 1;
        }
        proof {
            assert(self.bytes =~= other.bytes);
        }
        true
    }

    /// The 32 bytes as a seed.
    pub fn to_vec(&self) -> (r: Vec<u8>)
        ensures
            r@ == self@,
    {
        let mut r: Vec<u8> = Vec::new();
        let mut i: usize = 0;
        while i < 32
            invariant
                i <= 32,
                r@ == self@.subrange(0, i as int),
            decreases 32 - i,
        {
            r.push(self.bytes[i]);
            i = i + 1;
        }
        r
    }
}

/// `"collection_pool"`
pub open spec fn tag_collection_pool() -> Seq<u8> {
    seq![0x63u8, 0x6f, 0x6c, 0x6c, 0x65, 0x63, 0x74, 0x69, 0x6f, 0x6e, 0x5f, 0x70, 0x6f, 0x6f, 0x6c]
}

/// `"offer"`
pub open spec fn tag_offer() -> Seq<u8> {
    seq![0x6fu8, 0x66, 0x66, 0x65, 0x72]
}

/// `"offer-token-account"`
pub open spec fn tag_offer_token_account() -> Seq<u8> {
    seq![
        0x6fu8, 0x66, 0x66, 0x65, 0x72, 0x2d, 0x74, 0x6f, 0x6b, 0x65, 0x6e, 0x2d, 0x61, 0x63, 0x63,
        0x6f, 0x75, 0x6e, 0x74,
    ]
}

/// `"offer-asset-account"`
pub open spec fn tag_offer_asset_account() -> Seq<u8> {
    seq![
        0x6fu8, 0x66, 0x66, 0x65, 0x72, 0x2d, 0x61, 0x73, 0x73, 0x65, 0x74, 0x2d, 0x61, 0x63, 0x63,
        0x6f, 0x75, 0x6e, 0x74,
    ]
}

/// `"active-loan"`
pub open spec fn tag_active_loan() -> Seq<u8> {
    seq![0x61u8, 0x63, 0x74, 0x69, 0x76, 0x65, 0x2d, 0x6c, 0x6f, 0x61, 0x6e]
}

/// The decimal digits of `n` in ASCII, most significant first, without
/// leading zeros.
pub open spec fn decimal(n: nat) -> Seq<u8>
    decreases n,
{
    if n < 10 {
        seq![(0x30 + n) as u8]
    } else {
        decimal(n / 10).push((0x30 + n % 10) as u8)
    }
}

/// Writes a counter the way it enters a seed list: as decimal text.
pub fn decimal_bytes(n: u64) -> (r: Vec<u8>)
    ensures
        r@ == decimal(n as nat),
    decreases n,
{
    if n < 10 {
        let d: u8 = 0x30 + (n as u8);
        let r: Vec<u8> = vec![d];
        assert(r@ =~= decimal(n as nat));
        r
    } else {
        let mut r: Vec<u8> = decimal_bytes(n / 10);
        let d: u8 = 0x30 + ((n % 10) as u8);
        r.push(d);
        r
    }
}

/// A seed list of this program, by what it is for.
#[derive(Clone, Copy, Debug, PartialEq, Eq)]
pub enum Seeds {
    /// The pool of a collection: `("collection_pool", collection_id)`.
    Pool { collection_id: Address },
    /// An offer: `("offer", pool, lender, counter)`.
    Offer { pool: Address, lender: Address, counter: u64 },
    /// The vault that holds an offer's principal:
    /// `("offer-token-account", offer)`.
    Vault { offer: Address },
    /// The authority over an offer's vaults:
    /// `("offer-token-account", pool, lender, counter)`.
    VaultAuthority { pool: Address, lender: Address, counter: u64 },
    /// The vault that holds a loan's collateral:
    /// `("offer-asset-account", offer)`.
    Collateral { offer: Address },
    /// A loan: `("active-loan", offer)`.
    Loan { offer: Address },
}

impl Seeds {
    /// The seed list, byte for byte.
    pub open spec fn spec_bytes(self) -> Seq<Seq<u8>> {
        match self {
            Seeds::Pool { collection_id } => seq![tag_collection_pool(), collection_id@],
            Seeds::Offer { pool, lender, counter } => seq![
                tag_offer(),
                pool@,
                lender@,
                decimal(counter as nat),
            ],
            Seeds::Vault { offer } => seq![tag_offer_token_account(), offer@],
            Seeds::VaultAuthority { pool, lender, counter } => seq![
                tag_offer_token_account(),
                pool@,
                lender@,
                decimal(counter as nat),
            ],
            Seeds::Collateral { offer } => seq![tag_offer_asset_account(), offer@],
            Seeds::Loan { offer } => seq![tag_active_loan(), offer@],
        }
    }

    fn tag(&self) -> (r: Vec<u8>)
        ensures
            r@ == self.spec_bytes()[0],
    {
        let r: Vec<u8> = match self {
            Seeds::Pool { .. } => vec![
                0x63u8, 0x6f, 0x6c, 0x6c, 0x65, 0x63, 0x74, 0x69, 0x6f, 0x6e, 0x5f, 0x70, 0x6f, 0x6f,
                0x6c,
            ],
            Seeds::Offer { .. } => vec![0x6fu8, 0x66, 0x66, 0x65, 0x72],
            Seeds::Vault { .. } | Seeds::VaultAuthority { .. } => vec![
                0x6fu8, 0x66, 0x66, 0x65, 0x72, 0x2d, 0x74, 0x6f, 0x6b, 0x65, 0x6e, 0x2d, 0x61, 0x63,
                0x63, 0x6f, 0x75, 0x6e, 0x74,
            ],
            Seeds::Collateral { .. } => vec![
                0x6fu8, 0x66, 0x66, 0x65, 0x72, 0x2d, 0x61, 0x73, 0x73, 0x65, 0x74, 0x2d, 0x61, 0x63,
                0x63, 0x6f, 0x75, 0x6e, 0x74,
            ],
            Seeds::Loan { .. } => vec![
                0x61u8, 0x63, 0x74, 0x69, 0x76, 0x65, 0x2d, 0x6c, 0x6f, 0x61, 0x6e,
            ],
        };
        assert(r@ =~= self.spec_bytes()[0]);
        r
    }

    /// Builds the seed list.
    pub fn bytes(&self) -> (r: Vec<Vec<u8>>)
        ensures
            r.deep_view() == self.spec_bytes(),
    {
        let mut r: Vec<Vec<u8>> = Vec::new();
        r.push(self.tag());
        match self {
            Seeds::Pool { collection_id } => {
                r.push(collection_id.to_vec());
            },
            Seeds::Offer { pool, lender, counter } => {
                r.push(pool.to_vec());
                r.push(lender.to_vec());
                r.push(decimal_bytes(*counter));
            },
            Seeds::Vault { offer } => {
                r.push(offer.to_vec());
            },
            Seeds::VaultAuthority { pool, lender, counter } => {
                r.push(pool.to_vec());
                r.push(lender.to_vec());
                r.push(decimal_bytes(*counter));
            },
            Seeds::Collateral { offer } => {
                r.push(offer.to_vec());
            },
            Seeds::Loan { offer } => {
                r.push(offer.to_vec());
            },
        }
        assert(r.deep_view() =~~= self.spec_bytes());
        r
    }
}

/// A counter's decimal text has at least one digit.
pub proof fn lemma_decimal_nonempty(n: nat)
    ensures
        decimal(n).len() >= 1,
    decreases n,
{
    if n >= 10 {
        lemma_decimal_nonempty(n / 10);
    }
}

/// Two counters with the same decimal text are the same counter.
pub proof fn lemma_decimal_injective(a: nat, b: nat)
    ensures
        decimal(a) == decimal(b) ==> a == b,
    decreases a,
{
    if decimal(a) == decimal(b) {
        if a < 10 {
            if b >= 10 {
                lemma_decimal_nonempty(b / 10);
                assert(decimal(b).len() == decimal(b / 10).len() + 1);
            }
            assert(decimal(a)[0] == decimal(b)[0]);
        } else {
            lemma_decimal_nonempty(a / 10);
            assert(decimal(a).len() == decimal(a / 10).len() + 1);
            assert(b >= 10);
            let x = decimal(a / 10);
            let y = decimal(b / 10);
            let da = (0x30 + a % 10) as u8;
            let db = (0x30 + b % 10) as u8;
            assert(x.push(da).drop_last() =~= x);
            assert(y.push(db).drop_last() =~= y);
            assert(x.push(da).last() == da);
            assert(y.push(db).last() == db);
            lemma_decimal_injective(a / 10, b / 10);
        }
    }
}

/// Two seed lists of this program are the same list only if they are for
/// the same thing and name the same collection, pool, lender, offer and
/// counter.
pub proof fn lemma_seed_lists_distinct(a: Seeds, b: Seeds)
    ensures
        a.spec_bytes() == b.spec_bytes() ==> a == b,
{
    if a.spec_bytes() == b.spec_bytes() {
        let x = a.spec_bytes();
        let y = b.spec_bytes();
        assert(x.len() == y.len());
        assert(x[0] == y[0]);
        assert(x[0].len() == y[0].len());
        assert(tag_offer_token_account()[6] != tag_offer_asset_account()[6]);
        assert(x[1] == y[1]);
        match (a, b) {
            (Seeds::Pool { collection_id: p }, Seeds::Pool { collection_id: q }) => {
                Address::lemma_view_injective(p, q);
            },
            (
                Seeds::Offer { pool: pool_a, lender: lender_a, counter: counter_a },
                Seeds::Offer { pool: pool_b, lender: lender_b, counter: counter_b },
            ) => {
                assert(x[2] == y[2]);
                assert(x[3] == y[3]);
                Address::lemma_view_injective(pool_a, pool_b);
                Address::lemma_view_injective(lender_a, lender_b);
                lemma_decimal_injective(counter_a as nat, counter_b as nat);
            },
            (Seeds::Vault { offer: p }, Seeds::Vault { offer: q }) => {
                Address::lemma_view_injective(p, q);
            },
            (
                Seeds::VaultAuthority { pool: pool_a, lender: lender_a, counter: counter_a },
                Seeds::VaultAuthority { pool: pool_b, lender: lender_b, counter: counter_b },
            ) => {
                assert(x[2] == y[2]);
                assert(x[3] == y[3]);
                Address::lemma_view_injective(pool_a, pool_b);
                Address::lemma_view_injective(lender_a, lender_b);
                lemma_decimal_injective(counter_a as nat, counter_b as nat);
            },
            (Seeds::Collateral { offer: p }, Seeds::Collateral { offer: q }) => {
                Address::lemma_view_injective(p, q);
            },
            (Seeds::Loan { offer: p }, Seeds::Loan { offer: q }) => {
                Address::lemma_view_injective(p, q);
            },
            _ => {
                assert(false);
            },
        }
    }
}

/// What `Pubkey::try_find_program_address` returns for a seed list and a
/// program id: the bytes of the derived address with its bump seed, or `None`.
pub uninterp spec fn program_address(seeds: Seq<Seq<u8>>, program_id: Seq<u8>) -> Option<
    (Seq<u8>, u8),
>;

/// Calls `Pubkey::try_find_program_address` of `anchor_lang`. Trusted: the
/// result depends on the seeds and the program id alone. Nothing is claimed
/// about which address comes out, or when none does.
#[verifier::external_body]
fn try_find_program_address(seeds: &Vec<Vec<u8>>, program_id: &Address) -> (r: Option<(Address, u8)>)
    ensures
        match r {
            Some((address, bump)) => program_address(seeds.deep_view(), program_id@) == Some(
                (address@, bump),
            ),
            None => program_address(seeds.deep_view(), program_id@) is None,
        },
{
    let parts: Vec<&[u8]> = seeds.iter().map(|s| s.as_slice()).collect();
    let id = anchor_lang::prelude::Pubkey::new_from_array(program_id.bytes);
    match anchor_lang::prelude::Pubkey::try_find_program_address(&parts, &id) {
        Some((key, bump)) => Some((Address { bytes: key.to_bytes() }, bump)),
        None => None,
    }
}

/// A derived authority: the address, and the seed list and bump that
/// reproduce it. It is built afresh wherever it is needed and never stored.
#[derive(Clone, Copy, Debug, PartialEq, Eq)]
pub struct Authority {
    pub seeds: Seeds,
    pub bump: u8,
    pub address: Address,
}

impl Authority {
    /// The seed list that signs for this authority: the seeds, then the bump.
    pub open spec fn spec_signer_seeds(self) -> Seq<Seq<u8>> {
        self.seeds.spec_bytes().push(seq![self.bump])
    }

    pub fn signer_seeds(&self) -> (r: Vec<Vec<u8>>)
        ensures
            r.deep_view() == self.spec_signer_seeds(),
    {
        let mut r: Vec<Vec<u8>> = self.seeds.bytes();
        let ghost before = r.deep_view();
        let b: Vec<u8> = vec![self.bump];
        assert(b@ =~= seq![self.bump]);
        r.push(b);
        assert(r.deep_view() =~~= before.push(seq![self.bump]));
        r
    }

    /// Whether this authority is the one that controls what `owner` names:
    /// only then can it sign for a transfer out.
    pub fn controls(&self, owner: &Address) -> (r: bool)
        ensures
            r == (self.address == *owner),
    {
        self.address.same(owner)
    }
}

/// The authority that a seed list yields under a program id, if any.
pub open spec fn derived(seeds: Seeds, program_id: Address) -> Option<Authority> {
    match program_address(seeds.spec_bytes(), program_id@) {
        Some((bytes, bump)) => Some(Authority { seeds, bump, address: Address::of(bytes) }),
        None => None,
    }
}

/// Derives the authority of a seed list.
pub fn derive_authority(seeds: Seeds, program_id: &Address) -> (r: Option<Authority>)
    ensures
        r == derived(seeds, *program_id),
{
    let list: Vec<Vec<u8>> = seeds.bytes();
    match try_find_program_address(&list, program_id) {
        Some((address, bump)) => {
            proof {
                Address::lemma_of_view(address);
            }
            Some(Authority { seeds, bump, address })
        },
        None => None,
    }
}

} // verus!
