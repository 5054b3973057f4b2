//! Address forms and the key directory.
//!
//! The host ledger distinguishes a displayable address from its canonical
//! byte form.  The two are kept as distinct opaque types, never compared
//! across forms, and converted only through a [`KeyDirectory`], the
//! library's picture of the host's address codec.

use vstd::prelude::*;

verus! {

/// A displayable ledger address, as it appears in inbound messages and in
/// outbound transfers.
#[derive(Debug)]
pub struct HumanAddr(pub String);

/// The canonical byte form of an address: the form under which admins,
/// whitelist entries, listings and viewing keys are recorded.
#[derive(Debug)]
pub struct CanonAddr(pub Vec<u8>);

impl View for HumanAddr {
    type V = Seq<char>;

    open spec fn view(&self) -> Seq<char> {
        self.0@
    }
}

impl View for CanonAddr {
    type V = Seq<u8>;

    open spec fn view(&self) -> Seq<u8> {
        self.0@
    }
}

impl HumanAddr {
    /// An owned copy of this address.
    pub fn dup(&self) -> (r: HumanAddr)
        ensures
            r@ == self@,
    {
        HumanAddr(self.0.clone())
    }

    /// Whether two displayable addresses are the same address.
    pub fn addr_eq(&self, other: &HumanAddr) -> (r: bool)
        ensures
            r == (self@ == other@),
    {
        self.0 == other.0
    }
}

/// An owned copy of a byte string.
pub fn clone_bytes(v: &Vec<u8>) -> (r: Vec<u8>)
    ensures
        r@ == v@,
{
    let r = v.clone();
    proof {
        assert(r@ =~= v@);
    }
    r
}

impl CanonAddr {
    /// An owned copy of this address.
    pub fn dup(&self) -> (r: CanonAddr)
        ensures
            r@ == self@,
    {
        CanonAddr(clone_bytes(&self.0))
    }

    /// Whether two canonical addresses are the same address.
    pub fn addr_eq(&self, other: &CanonAddr) -> (r: bool)
        ensures
            r == (self@ == other@),
    {
        let r = self.0 == other.0;
        proof {
            if r {
                assert(self.0@ =~= other.0@);
            }
        }
        r
    }
}

/// Whether `addrs` holds the canonical address `c`.
pub open spec fn contains_canon(addrs: Seq<CanonAddr>, c: Seq<u8>) -> bool {
    exists|i: int| 0 <= i < addrs.len() && addrs[i]@ == c
}

/// Membership test on a list of canonical addresses.
pub fn canon_list_contains(addrs: &Vec<CanonAddr>, c: &CanonAddr) -> (r: bool)
    ensures
        r == contains_canon(addrs@, c@),
{
    let mut i: usize = 0;
    while i < addrs.len()
        invariant
            i <= addrs@.len(),
            forall|j: int| 0 <= j < i ==> addrs@[j]@ != c@,
        decreases addrs@.len() - i,
    {
        if addrs[i].addr_eq(c) {
            return true;
        }
        i = i + 1;
    }
    false
}

/// The address and code hash of another contract, in displayable form.
#[derive(Debug)]
pub struct ContractInfo {
    pub address: HumanAddr,
    pub code_hash: String,
}

/// The address and code hash of another contract, as recorded in state.
#[derive(Debug)]
pub struct StoreContractInfo {
    pub address: CanonAddr,
    pub code_hash: String,
}

impl ContractInfo {
    /// An owned copy of this descriptor.
    pub fn dup(&self) -> (r: ContractInfo)
        ensures
            r.address@ == self.address@,
            r.code_hash@ == self.code_hash@,
    {
        ContractInfo { address: self.address.dup(), code_hash: self.code_hash.clone() }
    }

    /// The stored form of this descriptor under the directory `dir`.
    pub fn into_stored(self, dir: &KeyDirectory) -> (r: Result<StoreContractInfo, GumballError>)
        ensures
            match r {
                Ok(s) => dir.canon_of(self.address@) == Some(s.address@) && s.code_hash@
                    == self.code_hash@,
                Err(e) => e == GumballError::AddrUnresolved && dir.canon_of(self.address@)
                    is None,
            },
    {
        match dir.canonize(&self.address) {
            Some(c) => Ok(StoreContractInfo { address: c, code_hash: self.code_hash }),
            None => Err(GumballError::AddrUnresolved),
        }
    }
}

impl StoreContractInfo {
    /// The displayable form of this descriptor under the directory `dir`.
    pub fn into_humanized(&self, dir: &KeyDirectory) -> (r: Result<ContractInfo, GumballError>)
        ensures
            match r {
                Ok(h) => dir.human_of(self.address@) == Some(h.address@) && h.code_hash@
                    == self.code_hash@,
                Err(e) => e == GumballError::AddrUnresolved && dir.human_of(self.address@)
                    is None,
            },
    {
        match dir.humanize(&self.address) {
            Some(h) => Ok(ContractInfo { address: h, code_hash: self.code_hash.clone() }),
            None => Err(GumballError::AddrUnresolved),
        }
    }
}

use crate::error::GumballError;

/// What the directory answers for a displayable address: the canonical form
/// of the first matching pair.
pub open spec fn lookup_canon(pairs: Seq<(HumanAddr, CanonAddr)>, h: Seq<char>) -> Option<Seq<u8>>
    decreases pairs.len(),
{
    if pairs.len() == 0 {
        None
    } else if pairs[0].0@ == h {
        Some(pairs[0].1@)
    } else {
        lookup_canon(pairs.drop_first(), h)
    }
}

/// What the directory answers for a canonical address: the displayable form
/// of the first matching pair.
pub open spec fn lookup_human(pairs: Seq<(HumanAddr, CanonAddr)>, c: Seq<u8>) -> Option<Seq<char>>
    decreases pairs.len(),
{
    if pairs.len() == 0 {
        None
    } else if pairs[0].1@ == c {
        Some(pairs[0].0@)
    } else {
        lookup_human(pairs.drop_first(), c)
    }
}

/// A table without a repeated displayable form or a repeated canonical
/// form: the shape of a bijection.
pub open spec fn pairs_wf(pairs: Seq<(HumanAddr, CanonAddr)>) -> bool {
    forall|i: int, j: int|
        0 <= i < j < pairs.len() ==> (#[trigger] pairs[i]).0@ != (#[trigger] pairs[j]).0@
            && pairs[i].1@ != pairs[j].1@
}

/// The library's picture of the host's address codec: a table of
/// displayable/canonical pairs covering every address a transaction touches.
/// The host keeps the two forms in bijection; an address missing from the
/// table stands for one the host could not resolve.
pub struct KeyDirectory {
    pub pairs: Vec<(HumanAddr, CanonAddr)>,
}

/// A successful canonical lookup names a pair of the table.
proof fn lemma_lookup_canon_witness(pairs: Seq<(HumanAddr, CanonAddr)>, h: Seq<char>, c: Seq<u8>)
    requires
        lookup_canon(pairs, h) == Some(c),
    ensures
        exists|i: int| 0 <= i < pairs.len() && (#[trigger] pairs[i]).0@ == h && pairs[i].1@ == c,
    decreases pairs.len(),
{
    if pairs[0].0@ == h {
        assert(pairs[0].1@ == c);
    } else {
        lemma_lookup_canon_witness(pairs.drop_first(), h, c);
        let i = choose|i: int|
            0 <= i < pairs.drop_first().len() && (#[trigger] pairs.drop_first()[i]).0@ == h
                && pairs.drop_first()[i].1@ == c;
        assert(pairs[i + 1].0@ == h && pairs[i + 1].1@ == c);
    }
}

/// Under a bijective table, resolving an address and humanizing the result
/// returns the original address.
proof fn lemma_lookup_round_trip(pairs: Seq<(HumanAddr, CanonAddr)>, h: Seq<char>, c: Seq<u8>)
    requires
        pairs_wf(pairs),
        lookup_canon(pairs, h) == Some(c),
    ensures
        lookup_human(pairs, c) == Some(h),
    decreases pairs.len(),
{
    if pairs[0].0@ == h {
    } else {
        lemma_lookup_canon_witness(pairs.drop_first(), h, c);
        let i = choose|i: int|
            0 <= i < pairs.drop_first().len() && (#[trigger] pairs.drop_first()[i]).0@ == h
                && pairs.drop_first()[i].1@ == c;
        assert(pairs[i + 1].1@ == c);
        assert(pairs[0].1@ != c);
        let rest = pairs.drop_first();
        assert(pairs_wf(rest)) by {
            assert forall|x: int, y: int|
                0 <= x < y < rest.len() implies ((#[trigger] rest[x]).0@ != (#[trigger] rest[y]).0@
                && rest[x].1@ != rest[y].1@) by {
                assert(rest[x] == pairs[x + 1]);
                assert(rest[y] == pairs[y + 1]);
                assert(pairs[x + 1].0@ != pairs[y + 1].0@ && pairs[x + 1].1@ != pairs[y + 1].1@);
            }
        }
        lemma_lookup_round_trip(pairs.drop_first(), h, c);
    }
}

impl KeyDirectory {
    /// Well-formedness: the host's codec is a bijection, so no displayable
    /// form and no canonical form occurs twice.
    pub open spec fn wf(&self) -> bool {
        pairs_wf(self.pairs@)
    }

    /// The round trip law: under a well-formed directory, an address that
    /// resolves to a canonical form humanizes back to itself.
    pub proof fn lemma_round_trip(&self, h: Seq<char>, c: Seq<u8>)
        requires
            self.wf(),
            self.canon_of(h) == Some(c),
        ensures
            self.human_of(c) == Some(h),
    {
        lemma_lookup_round_trip(self.pairs@, h, c);
    }
    /// The canonical form of `h`, if the directory resolves it.
    pub open spec fn canon_of(&self, h: Seq<char>) -> Option<Seq<u8>> {
        lookup_canon(self.pairs@, h)
    }

    /// The displayable form of `c`, if the directory resolves it.
    pub open spec fn human_of(&self, c: Seq<u8>) -> Option<Seq<char>> {
        lookup_human(self.pairs@, c)
    }

    /// Resolves a displayable address to its canonical form.
    pub fn canonize(&self, h: &HumanAddr) -> (r: Option<CanonAddr>)
        ensures
            match r {
                Some(c) => self.canon_of(h@) == Some(c@),
                None => self.canon_of(h@) is None,
            },
    {
        let mut i: usize = 0;
        proof {
            assert(self.pairs@.skip(0) =~= self.pairs@);
        }
        while i < self.pairs.len()
            invariant
                i <= self.pairs@.len(),
                lookup_canon(self.pairs@, h@) == lookup_canon(self.pairs@.skip(i as int), h@),
            decreases self.pairs@.len() - i,
        {
            proof {
                assert(self.pairs@.skip(i as int)[0] == self.pairs@[i as int]);
                assert(self.pairs@.skip(i as int).drop_first() =~= self.pairs@.skip(i + 1));
            }
            if self.pairs[i].0.addr_eq(h) {
                return Some(self.pairs[i].1.dup());
            }
            i = i + 1;
        }
        None
    }

    /// Resolves a canonical address to its displayable form.
    pub fn humanize(&self, c: &CanonAddr) -> (r: Option<HumanAddr>)
        ensures
            match r {
                Some(h) => self.human_of(c@) == Some(h@),
                None => self.human_of(c@) is None,
            },
    {
        let mut i: usize = 0;
        proof {
            assert(self.pairs@.skip(0) =~= self.pairs@);
        }
        while i < self.pairs.len()
            invariant
                i <= self.pairs@.len(),
                lookup_human(self.pairs@, c@) == lookup_human(self.pairs@.skip(i as int), c@),
            decreases self.pairs@.len() - i,
        {
            proof {
                assert(self.pairs@.skip(i as int)[0] == self.pairs@[i as int]);
                assert(self.pairs@.skip(i as int).drop_first() =~= self.pairs@.skip(i + 1));
            }
            if self.pairs[i].1.addr_eq(c) {
                return Some(self.pairs[i].0.dup());
            }
            i = i + 1;
        }
        None
    }
}

} // verus!
