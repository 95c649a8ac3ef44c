use vstd::prelude::*;
use vstd::slice::slice_to_vec;
use vstd::utf8::encode_utf8;

verus! {

/// A 32-byte account address or caller identity.
#[derive(Clone, Copy, Debug, PartialEq, Eq)]
pub struct Address {
    pub bytes: [u8; 32],
}

impl View for Address {
    type V = Seq<u8>;

    open spec fn view(&self) -> Seq<u8> {
        self.bytes@
    }
}

impl Address {
    pub fn new(bytes: [u8; 32]) -> (r: Address)
        ensures
            r@ == bytes@,
    {
        Address { bytes }
    }

    /// Byte-wise equality of two addresses.
    pub fn same(&self, other: &Address) -> (r: bool)
        ensures
            r == (self@ == other@),
    {
        let mut i: usize = 0;
        while i < 32
            invariant
                0 <= i <= 32,
                self@.len() == 32,
                other@.len() == 32,
                forall|j: int| 0 <= j < i ==> self@[j] == other@[j],
            decreases 32 - i,
        {
            if self.bytes[i] != other.bytes[i] {
                return false;
            }
            i = i + 1;
        }
        assert(self@ =~= other@);
        true
    }

    /// The address as a seed.
    pub fn to_seed(&self) -> (r: Vec<u8>)
        ensures
            r@ == self@,
    {
        slice_to_vec(self.bytes.as_slice())
    }
}

/// A caller that signed the operation, with its balance.
#[derive(Clone, Copy, Debug, PartialEq, Eq)]
pub struct Signer {
    pub key: Address,
    pub lamports: u64,
}

/// An account: its address, its balance, its allocated size and the record
/// it holds, if any.
#[derive(Clone, Debug, PartialEq, Eq)]
pub struct Account<T> {
    pub key: Address,
    pub lamports: u64,
    pub data_len: usize,
    pub data: Option<T>,
}

/// The address derived from `seeds` under `program_id`, and its bump seed;
/// `None` where none exists.
pub uninterp spec fn program_address(seeds: Seq<Seq<u8>>, program_id: Seq<u8>) -> Option<(Seq<u8>, u8)>;

/// Relies on anchor_lang's `Pubkey::try_find_program_address`: the address and
/// bump seed are a function of the seeds and the program id, and there is none
/// where a seed is longer than 32 bytes.
#[verifier::external_body]
fn try_find_program_address(seeds: &Vec<Vec<u8>>, program_id: &Address) -> (r: Option<(Address, u8)>)
    ensures
        r is Some <==> program_address(seeds.deep_view(), program_id@) is Some,
        r is Some ==> program_address(seeds.deep_view(), program_id@) == Some(((r->0).0@, (r->0).1)),
        (exists|i: int| 0 <= i < seeds@.len() && #[trigger] seeds@[i]@.len() > 32) ==> r is None,
{
    let slices: Vec<&[u8]> = seeds.iter().map(|s| s.as_slice()).collect();
    let id = anchor_lang::prelude::Pubkey::new_from_array(program_id.bytes);
    anchor_lang::prelude::Pubkey::try_find_program_address(&slices, &id).map(
        |(k, b)| (Address { bytes: k.to_bytes() }, b),
    )
}

pub open spec fn user_tag() -> Seq<u8> {
    seq![117u8, 115u8, 101u8, 114u8]
}

pub open spec fn project_tag() -> Seq<u8> {
    seq![112u8, 114u8, 111u8, 106u8, 101u8, 99u8, 116u8]
}

pub open spec fn request_tag() -> Seq<u8> {
    seq![99u8, 111u8, 108u8, 108u8, 97u8, 98u8, 95u8, 114u8, 101u8, 113u8, 117u8, 101u8, 115u8, 116u8]
}

/// Seeds of the user record owned by `owner`.
pub open spec fn user_seeds(owner: Seq<u8>) -> Seq<Seq<u8>> {
    seq![user_tag(), owner]
}

/// Seeds of the project named `name` (as bytes) of `creator`.
pub open spec fn project_seeds(creator: Seq<u8>, name: Seq<u8>) -> Seq<Seq<u8>> {
    seq![project_tag(), creator, name]
}

/// Seeds of the request of `sender` on the project at `project`.
pub open spec fn request_seeds(sender: Seq<u8>, project: Seq<u8>) -> Seq<Seq<u8>> {
    seq![request_tag(), sender, project]
}

/// Whether `key` is the address derived from `seeds`.
pub open spec fn derives(seeds: Seq<Seq<u8>>, program_id: Seq<u8>, key: Seq<u8>) -> bool {
    match program_address(seeds, program_id) {
        Some(p) => p.0 == key,
        None => false,
    }
}

/// Derives the address of the record with the given seeds.
pub fn derive_address(seeds: &Vec<Vec<u8>>, program_id: &Address) -> (r: Option<(Address, u8)>)
    ensures
        r is Some <==> program_address(seeds.deep_view(), program_id@) is Some,
        r is Some ==> program_address(seeds.deep_view(), program_id@) == Some(((r->0).0@, (r->0).1)),
{
    try_find_program_address(seeds, program_id)
}

/// Whether `key` is the address derived from `seeds`, and the bump seed if so.
pub fn verify_address(key: &Address, seeds: &Vec<Vec<u8>>, program_id: &Address) -> (r: Option<u8>)
    ensures
        r is Some <==> derives(seeds.deep_view(), program_id@, key@),
        r is Some ==> (program_address(seeds.deep_view(), program_id@)->0).1 == r->0,
{
    match try_find_program_address(seeds, program_id) {
        Some((a, b)) => {
            if a.same(key) {
                Some(b)
            } else {
                None
            }
        },
        None => None,
    }
}

proof fn lemma_bytes_deep_view(v: &Vec<u8>)
    ensures
        v.deep_view() == v@,
{
    assert(v.deep_view() =~= v@);
}

pub fn user_seeds_of(owner: &Address) -> (r: Vec<Vec<u8>>)
    ensures
        r.deep_view() == user_seeds(owner@),
{
    let t = vec![117u8, 115u8, 101u8, 114u8];
    assert(t@ =~= user_tag());
    let o = owner.to_seed();
    proof {
        lemma_bytes_deep_view(&t);
        lemma_bytes_deep_view(&o);
    }
    let r = vec![t, o];
    assert(r.deep_view() =~= user_seeds(owner@));
    r
}

pub fn project_seeds_of(creator: &Address, name: &String) -> (r: Vec<Vec<u8>>)
    ensures
        r.deep_view() == project_seeds(creator@, encode_utf8(name@)),
{
    let n = slice_to_vec(name.as_str().as_bytes());
    let t = vec![112u8, 114u8, 111u8, 106u8, 101u8, 99u8, 116u8];
    assert(t@ =~= project_tag());
    let c = creator.to_seed();
    proof {
        lemma_bytes_deep_view(&t);
        lemma_bytes_deep_view(&c);
        lemma_bytes_deep_view(&n);
    }
    let r = vec![t, c, n];
    assert(r.deep_view() =~= project_seeds(creator@, encode_utf8(name@)));
    r
}

pub fn request_seeds_of(sender: &Address, project: &Address) -> (r: Vec<Vec<u8>>)
    ensures
        r.deep_view() == request_seeds(sender@, project@),
{
    let t = vec![99u8, 111u8, 108u8, 108u8, 97u8, 98u8, 95u8, 114u8, 101u8, 113u8, 117u8, 101u8, 115u8, 116u8];
    assert(t@ =~= request_tag());
    let a = sender.to_seed();
    let b = project.to_seed();
    proof {
        lemma_bytes_deep_view(&t);
        lemma_bytes_deep_view(&a);
        lemma_bytes_deep_view(&b);
    }
    let r = vec![t, a, b];
    assert(r.deep_view() =~= request_seeds(sender@, project@));
    r
}

} // verus!
