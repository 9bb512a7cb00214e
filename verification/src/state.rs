//! The synthetic ledger: accounts keyed by address.
//!
//! An account holds a nonce, a balance, a storage mapping from 32-byte slot
//! keys to 32-byte values, and code. Storage never records an explicit zero
//! value: a missing key means zero. The store is a snapshot seeded before
//! execution and read back afterwards; an address that was never written maps
//! to the all-zero account.

use vstd::prelude::*;
use crate::bytes::{be_nat, clone_bytes, Address, Word};

verus! {

/// Mathematical model of one account.
#[verifier::ext_equal]
pub struct AccountView {
    pub nonce: nat,
    pub balance: nat,
    pub storage: Map<Seq<u8>, nat>,
    pub code: Seq<u8>,
}

/// The model of an account that was never touched.
pub open spec fn zero_account_view() -> AccountView {
    AccountView { nonce: 0, balance: 0, storage: Map::empty(), code: Seq::empty() }
}

/// One storage slot: a 32-byte key holding a 32-byte value.
pub struct SlotEntry {
    pub key: Word,
    pub value: Word,
}

/// The mapping denoted by a sequence of slot entries; a later entry for the
/// same key overrides an earlier one.
pub open spec fn slots_map(s: Seq<SlotEntry>) -> Map<Seq<u8>, nat>
    decreases s.len(),
{
    if s.len() == 0 {
        Map::empty()
    } else {
        slots_map(s.drop_last()).insert(s.last().key@, be_nat(s.last().value@))
    }
}

/// No two entries share a key.
pub open spec fn slots_unique(s: Seq<SlotEntry>) -> bool {
    forall|i: int, j: int| 0 <= i < j < s.len() ==> s[i].key@ != s[j].key@
}

/// Every entry holds well-formed words and a non-zero value.
pub open spec fn slots_entries_wf(s: Seq<SlotEntry>) -> bool {
    forall|i: int|
        0 <= i < s.len() ==> (#[trigger] s[i]).key.wf() && s[i].value.wf() && be_nat(s[i].value@)
            != 0
}

/// An account's persistent storage.
pub struct Storage {
    pub slots: Vec<SlotEntry>,
}

impl View for Storage {
    type V = Map<Seq<u8>, nat>;

    open spec fn view(&self) -> Map<Seq<u8>, nat> {
        slots_map(self.slots@)
    }
}

proof fn lemma_slots_absent(s: Seq<SlotEntry>, k: Seq<u8>)
    requires
        forall|i: int| 0 <= i < s.len() ==> (#[trigger] s[i]).key@ != k,
    ensures
        !slots_map(s).dom().contains(k),
    decreases s.len(),
{
    if s.len() > 0 {
        lemma_slots_absent(s.drop_last(), k);
    }
}

proof fn lemma_slots_found(s: Seq<SlotEntry>, i: int)
    requires
        slots_unique(s),
        0 <= i < s.len(),
    ensures
        slots_map(s).dom().contains(s[i].key@),
        slots_map(s)[s[i].key@] == be_nat(s[i].value@),
    decreases s.len(),
{
    if i == s.len() - 1 {
    } else {
        lemma_slots_found(s.drop_last(), i);
    }
}

proof fn lemma_slots_remove(s: Seq<SlotEntry>, i: int)
    requires
        slots_unique(s),
        0 <= i < s.len(),
    ensures
        slots_map(s.remove(i)) == slots_map(s).remove(s[i].key@),
    decreases s.len(),
{
    if i == s.len() - 1 {
        assert(s.remove(i) =~= s.drop_last());
        lemma_slots_absent(s.drop_last(), s[i].key@);
        assert(slots_map(s.remove(i)) =~= slots_map(s).remove(s[i].key@));
    } else {
        assert(s.remove(i).drop_last() =~= s.drop_last().remove(i));
        lemma_slots_remove(s.drop_last(), i);
        assert(slots_map(s.remove(i)) =~= slots_map(s).remove(s[i].key@));
    }
}

proof fn lemma_slots_update(s: Seq<SlotEntry>, i: int, e: SlotEntry)
    requires
        slots_unique(s),
        0 <= i < s.len(),
        e.key@ == s[i].key@,
    ensures
        slots_map(s.update(i, e)) == slots_map(s).insert(e.key@, be_nat(e.value@)),
    decreases s.len(),
{
    if i == s.len() - 1 {
        assert(s.update(i, e).drop_last() =~= s.drop_last());
        assert(slots_map(s.update(i, e)) =~= slots_map(s).insert(e.key@, be_nat(e.value@)));
    } else {
        assert(s.update(i, e).drop_last() =~= s.drop_last().update(i, e));
        lemma_slots_update(s.drop_last(), i, e);
        assert(slots_map(s.update(i, e)) =~= slots_map(s).insert(e.key@, be_nat(e.value@)));
    }
}

impl Storage {
    /// Keys are unique, words well-formed, and no explicit zero is recorded.
    pub open spec fn wf(&self) -> bool {
        slots_unique(self.slots@) && slots_entries_wf(self.slots@)
    }

    /// An empty storage mapping.
    pub fn new() -> (r: Storage)
        ensures
            r.wf(),
            r@ == Map::<Seq<u8>, nat>::empty(),
    {
        Storage { slots: Vec::new() }
    }

    /// The value held at `key`; zero if the key is absent.
    pub fn get(&self, key: &Word) -> (r: Word)
        requires
            self.wf(),
            key.wf(),
        ensures
            r.wf(),
            self@.dom().contains(key@) ==> r.value() == self@[key@],
            !self@.dom().contains(key@) ==> r.value() == 0,
    {
        let mut i: usize = 0;
        while i < self.slots.len()
            invariant
                self.wf(),
                key.wf(),
                i <= self.slots@.len(),
                forall|j: int| 0 <= j < i ==> (#[trigger] self.slots@[j]).key@ != key@,
            decreases self.slots@.len() - i,
        {
            if self.slots[i].key.eq_word(key) {
                proof {
                    lemma_slots_found(self.slots@, i as int);
                }
                return self.slots[i].value.duplicate();
            }
            i = i + 1;
        }
        proof {
            lemma_slots_absent(self.slots@, key@);
        }
        Word::zero()
    }

    /// Sets `key` to `value`: a zero value erases the entry, any other value
    /// replaces or adds it.
    pub fn set(&mut self, key: &Word, value: &Word)
        requires
            old(self).wf(),
            key.wf(),
            value.wf(),
        ensures
            final(self).wf(),
            value.value() == 0 ==> final(self)@ == old(self)@.remove(key@),
            value.value() != 0 ==> final(self)@ == old(self)@.insert(key@, value.value()),
    {
        let is_zero = is_zero_word(value);
        let mut i: usize = 0;
        while i < self.slots.len()
            invariant
                self.wf(),
                key.wf(),
                value.wf(),
                is_zero <==> value.value() == 0,
                self == old(self),
                i <= self.slots@.len(),
                forall|j: int| 0 <= j < i ==> (#[trigger] self.slots@[j]).key@ != key@,
            decreases self.slots@.len() - i,
        {
            if self.slots[i].key.eq_word(key) {
                if is_zero {
                    proof {
                        lemma_slots_remove(self.slots@, i as int);
                    }
                    let ghost prev = self.slots@;
                    self.slots.remove(i);
                    proof {
                        assert(forall|a: int|
                            0 <= a < self.slots@.len() ==> #[trigger] self.slots@[a] == if a < i {
                                prev[a]
                            } else {
                                prev[a + 1]
                            });
                        assert(slots_unique(self.slots@));
                        assert(slots_entries_wf(self.slots@));
                    }
                } else {
                    let e = SlotEntry { key: key.duplicate(), value: value.duplicate() };
                    proof {
                        lemma_slots_update(self.slots@, i as int, e);
                    }
                    let ghost prev = self.slots@;
                    self.slots.set(i, e);
                    proof {
                        assert(forall|a: int|
                            0 <= a < self.slots@.len() && a != i ==> #[trigger] self.slots@[a]
                                == prev[a]);
                        assert(slots_unique(self.slots@));
                        assert(slots_entries_wf(self.slots@));
                    }
                }
                return ;
            }
            i = i + 1;
        }
        proof {
            lemma_slots_absent(self.slots@, key@);
            assert(self@.remove(key@) =~= self@);
        }
        if !is_zero {
            self.slots.push(SlotEntry { key: key.duplicate(), value: value.duplicate() });
            proof {
                assert(self.slots@.drop_last() =~= old(self).slots@);
            }
        }
    }

    /// An identical copy of the storage mapping.
    pub fn duplicate(&self) -> (r: Storage)
        requires
            self.wf(),
        ensures
            r.wf(),
            r@ == self@,
    {
        let mut slots: Vec<SlotEntry> = Vec::new();
        let mut i: usize = 0;
        while i < self.slots.len()
            invariant
                self.wf(),
                i <= self.slots@.len(),
                slots@.len() == i,
                forall|j: int|
                    0 <= j < i ==> (#[trigger] slots@[j]).key@ == self.slots@[j].key@
                        && slots@[j].value@ == self.slots@[j].value@,
                slots_map(slots@) == slots_map(self.slots@.take(i as int)),
            decreases self.slots@.len() - i,
        {
            let ghost prev = slots@;
            slots.push(
                SlotEntry {
                    key: self.slots[i].key.duplicate(),
                    value: self.slots[i].value.duplicate(),
                },
            );
            proof {
                assert(slots@.drop_last() =~= prev);
                assert(self.slots@.take(i + 1).drop_last() =~= self.slots@.take(i as int));
                assert(slots_map(slots@) == slots_map(self.slots@.take(i + 1)));
            }
            i = i + 1;
        }
        proof {
            assert(self.slots@.take(self.slots@.len() as int) =~= self.slots@);
        }
        Storage { slots }
    }
}

/// Whether a word's integer value is zero.
pub fn is_zero_word(w: &Word) -> (r: bool)
    requires
        w.wf(),
    ensures
        r <==> w.value() == 0,
{
    let mut i: usize = 0;
    while i < w.bytes.len()
        invariant
            w.wf(),
            i <= w@.len(),
            be_nat(w@.take(i as int)) == 0,
        decreases w@.len() - i,
    {
        if w.bytes[i] != 0 {
            proof {
                lemma_be_nat_nonzero_digit(w@, i as int);
            }
            return false;
        }
        proof {
            assert(w@.take(i + 1).drop_last() =~= w@.take(i as int));
        }
        i = i + 1;
    }
    proof {
        assert(w@.take(w@.len() as int) =~= w@);
    }
    true
}

/// A sequence with a non-zero byte denotes a non-zero integer.
proof fn lemma_be_nat_nonzero_digit(s: Seq<u8>, i: int)
    requires
        0 <= i < s.len(),
        s[i] != 0,
    ensures
        be_nat(s) != 0,
    decreases s.len(),
{
    if i == s.len() - 1 {
    } else {
        lemma_be_nat_nonzero_digit(s.drop_last(), i);
    }
}

/// One account record.
pub struct Account {
    pub nonce: Word,
    pub balance: Word,
    pub storage: Storage,
    pub code: Vec<u8>,
}

impl View for Account {
    type V = AccountView;

    open spec fn view(&self) -> AccountView {
        AccountView {
            nonce: be_nat(self.nonce@),
            balance: be_nat(self.balance@),
            storage: self.storage@,
            code: self.code@,
        }
    }
}

impl Account {
    pub open spec fn wf(&self) -> bool {
        self.nonce.wf() && self.balance.wf() && self.storage.wf()
    }

    /// The account every unseen address holds: zero nonce, zero balance,
    /// empty storage, empty code.
    pub fn zero() -> (r: Account)
        ensures
            r.wf(),
            r@ == zero_account_view(),
    {
        let r = Account {
            nonce: Word::zero(),
            balance: Word::zero(),
            storage: Storage::new(),
            code: Vec::new(),
        };
        proof {
            assert(r@ =~~= zero_account_view());
        }
        r
    }

    /// An identical copy of the account.
    pub fn duplicate(&self) -> (r: Account)
        requires
            self.wf(),
        ensures
            r.wf(),
            r@ == self@,
    {
        let r = Account {
            nonce: self.nonce.duplicate(),
            balance: self.balance.duplicate(),
            storage: self.storage.duplicate(),
            code: clone_bytes(&self.code),
        };
        proof {
            assert(r@ =~~= self@);
        }
        r
    }
}

/// One ledger entry: an address and its account.
pub struct StoreEntry {
    pub addr: Address,
    pub acct: Account,
}

/// The ledger denoted by a sequence of entries; a later entry for the same
/// address overrides an earlier one.
pub open spec fn entries_map(s: Seq<StoreEntry>) -> Map<Seq<u8>, AccountView>
    decreases s.len(),
{
    if s.len() == 0 {
        Map::empty()
    } else {
        entries_map(s.drop_last()).insert(s.last().addr@, s.last().acct@)
    }
}

/// No two entries share an address.
pub open spec fn entries_unique(s: Seq<StoreEntry>) -> bool {
    forall|i: int, j: int| 0 <= i < j < s.len() ==> s[i].addr@ != s[j].addr@
}

/// Every entry holds a well-formed address and account.
pub open spec fn entries_wf(s: Seq<StoreEntry>) -> bool {
    forall|i: int| 0 <= i < s.len() ==> (#[trigger] s[i]).addr.wf() && s[i].acct.wf()
}

proof fn lemma_entries_absent(s: Seq<StoreEntry>, a: Seq<u8>)
    requires
        forall|i: int| 0 <= i < s.len() ==> (#[trigger] s[i]).addr@ != a,
    ensures
        !entries_map(s).dom().contains(a),
    decreases s.len(),
{
    if s.len() > 0 {
        lemma_entries_absent(s.drop_last(), a);
    }
}

proof fn lemma_entries_found(s: Seq<StoreEntry>, i: int)
    requires
        entries_unique(s),
        0 <= i < s.len(),
    ensures
        entries_map(s).dom().contains(s[i].addr@),
        entries_map(s)[s[i].addr@] == s[i].acct@,
    decreases s.len(),
{
    if i == s.len() - 1 {
    } else {
        lemma_entries_found(s.drop_last(), i);
    }
}

proof fn lemma_entries_update(s: Seq<StoreEntry>, i: int, e: StoreEntry)
    requires
        entries_unique(s),
        0 <= i < s.len(),
        e.addr@ == s[i].addr@,
    ensures
        entries_map(s.update(i, e)) == entries_map(s).insert(e.addr@, e.acct@),
    decreases s.len(),
{
    if i == s.len() - 1 {
        assert(s.update(i, e).drop_last() =~= s.drop_last());
        assert(entries_map(s.update(i, e)) =~= entries_map(s).insert(e.addr@, e.acct@));
    } else {
        assert(s.update(i, e).drop_last() =~= s.drop_last().update(i, e));
        lemma_entries_update(s.drop_last(), i, e);
        assert(entries_map(s.update(i, e)) =~= entries_map(s).insert(e.addr@, e.acct@));
    }
}

/// The ledger snapshot: every account that has been seeded or touched.
pub struct Store {
    pub entries: Vec<StoreEntry>,
}

impl View for Store {
    type V = Map<Seq<u8>, AccountView>;

    open spec fn view(&self) -> Map<Seq<u8>, AccountView> {
        entries_map(self.entries@)
    }
}

impl Store {
    /// Addresses are unique and every record well-formed.
    pub open spec fn wf(&self) -> bool {
        entries_unique(self.entries@) && entries_wf(self.entries@)
    }

    /// An empty ledger.
    pub fn new() -> (r: Store)
        ensures
            r.wf(),
            r@ == Map::<Seq<u8>, AccountView>::empty(),
    {
        Store { entries: Vec::new() }
    }

    /// The account recorded at `addr`; the zero account if the address was
    /// never written.
    pub fn get(&self, addr: &Address) -> (r: Account)
        requires
            self.wf(),
            addr.wf(),
        ensures
            r.wf(),
            self@.dom().contains(addr@) ==> r@ == self@[addr@],
            !self@.dom().contains(addr@) ==> r@ == zero_account_view(),
    {
        let mut i: usize = 0;
        while i < self.entries.len()
            invariant
                self.wf(),
                addr.wf(),
                i <= self.entries@.len(),
                forall|j: int| 0 <= j < i ==> (#[trigger] self.entries@[j]).addr@ != addr@,
            decreases self.entries@.len() - i,
        {
            if self.entries[i].addr.eq_address(addr) {
                proof {
                    lemma_entries_found(self.entries@, i as int);
                }
                return self.entries[i].acct.duplicate();
            }
            i = i + 1;
        }
        proof {
            lemma_entries_absent(self.entries@, addr@);
        }
        Account::zero()
    }

    /// Installs `acct` at `addr`, replacing any earlier record.
    pub fn set(&mut self, addr: &Address, acct: Account)
        requires
            old(self).wf(),
            addr.wf(),
            acct.wf(),
        ensures
            final(self).wf(),
            final(self)@ == old(self)@.insert(addr@, acct@),
    {
        let mut i: usize = 0;
        while i < self.entries.len()
            invariant
                self.wf(),
                addr.wf(),
                acct.wf(),
                self == old(self),
                i <= self.entries@.len(),
                forall|j: int| 0 <= j < i ==> (#[trigger] self.entries@[j]).addr@ != addr@,
            decreases self.entries@.len() - i,
        {
            if self.entries[i].addr.eq_address(addr) {
                let e = StoreEntry { addr: addr.duplicate(), acct };
                proof {
                    lemma_entries_update(self.entries@, i as int, e);
                }
                let ghost prev = self.entries@;
                self.entries.set(i, e);
                proof {
                    assert(forall|a: int|
                        0 <= a < self.entries@.len() && a != i ==> #[trigger] self.entries@[a]
                            == prev[a]);
                    assert(entries_unique(self.entries@));
                    assert(entries_wf(self.entries@));
                }
                return ;
            }
            i = i + 1;
        }
        self.entries.push(StoreEntry { addr: addr.duplicate(), acct });
        proof {
            assert(self.entries@.drop_last() =~= old(self).entries@);
        }
    }
}

} // verus!
