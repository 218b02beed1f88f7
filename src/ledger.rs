use vstd::prelude::*;

use crate::state::{Campaign, CampaignModel};

verus! {

/// The engine's whole state, as values.
pub ghost struct LedgerModel {
    pub admin: Seq<char>,
    pub pubkey: Seq<u8>,
    pub nonces: Set<Seq<char>>,
    pub campaigns: Map<Seq<char>, CampaignModel>,
}

/// The admin, the trusted key, the consumed nonces and the campaign records.
/// The operations that apply the escrow's rules to it are in `contract`.
pub struct Ledger {
    admin: String,
    pubkey: Vec<u8>,
    nonce_list: Vec<String>,
    ids: Vec<String>,
    records: Vec<Campaign>,
    used: Ghost<Set<Seq<char>>>,
    book: Ghost<Map<Seq<char>, CampaignModel>>,
}

impl View for Ledger {
    type V = LedgerModel;

    closed spec fn view(&self) -> LedgerModel {
        LedgerModel {
            admin: self.admin@,
            pubkey: self.pubkey@,
            nonces: self.used@,
            campaigns: self.book@,
        }
    }
}

impl Ledger {
    /// The campaign identifiers are distinct, one per record, and hold
    /// exactly the keys of the map.
    closed spec fn campaigns_wf(&self) -> bool {
        &&& self.ids.len() == self.records.len()
        &&& forall|i: int, j: int|
            0 <= i < j < self.ids.len() ==> #[trigger] self.ids@[i]@ != #[trigger] self.ids@[j]@
        &&& forall|i: int|
            0 <= i < self.ids.len() ==> self.book@.contains_key(#[trigger] self.ids@[i]@)
                && self.book@[self.ids@[i]@] == self.records@[i]@
        &&& forall|k: Seq<char>|
            #[trigger] self.book@.contains_key(k) ==> exists|i: int|
                0 <= i < self.ids.len() && #[trigger] self.ids@[i]@ == k
    }

    /// The nonce list holds exactly the consumed nonces.
    closed spec fn nonces_wf(&self) -> bool {
        &&& forall|i: int|
            0 <= i < self.nonce_list.len() ==> self.used@.contains(#[trigger] self.nonce_list@[i]@)
        &&& forall|k: Seq<char>|
            #[trigger] self.used@.contains(k) ==> exists|i: int|
                0 <= i < self.nonce_list.len() && #[trigger] self.nonce_list@[i]@ == k
    }

    pub closed spec fn wf(&self) -> bool {
        self.campaigns_wf() && self.nonces_wf()
    }

    proof fn lemma_nonces_untouched(a: Ledger, b: Ledger)
        requires
            a.nonces_wf(),
            a.nonce_list@ == b.nonce_list@,
            a.used@ == b.used@,
        ensures
            b.nonces_wf(),
    {
        assert forall|k: Seq<char>| #[trigger] b.used@.contains(k) implies exists|i: int|
            0 <= i < b.nonce_list.len() && #[trigger] b.nonce_list@[i]@ == k by {
            let i = choose|i: int| 0 <= i < a.nonce_list.len() && #[trigger] a.nonce_list@[i]@ == k;
            assert(b.nonce_list@[i]@ == k);
        }
    }

    /// A ledger with the given admin and trusted key, no consumed nonce and
    /// no campaign.
    pub fn new(admin: String, pubkey: Vec<u8>) -> (r: Ledger)
        ensures
            r.wf(),
            r@ == (LedgerModel {
                admin: admin@,
                pubkey: pubkey@,
                nonces: Set::empty(),
                campaigns: Map::empty(),
            }),
    {
        Ledger {
            admin,
            pubkey,
            nonce_list: Vec::new(),
            ids: Vec::new(),
            records: Vec::new(),
            used: Ghost(Set::empty()),
            book: Ghost(Map::empty()),
        }
    }

    /// The admin's account.
    pub fn admin(&self) -> (r: &String)
        ensures
            r@ == self@.admin,
    {
        &self.admin
    }

    /// The trusted public key.
    pub fn pubkey(&self) -> (r: &Vec<u8>)
        ensures
            r@ == self@.pubkey,
    {
        &self.pubkey
    }

    /// Replaces the admin's account.
    pub(crate) fn set_admin(&mut self, admin: String)
        requires
            old(self).wf(),
        ensures
            final(self).wf(),
            final(self)@ == (LedgerModel { admin: admin@, ..old(self)@ }),
    {
        self.admin = admin;
        proof {
            Self::lemma_nonces_untouched(*old(self), *self);
        }
    }

    /// Whether `nonce` has been consumed.
    pub fn has_nonce(&self, nonce: &String) -> (r: bool)
        requires
            self.wf(),
        ensures
            r == self@.nonces.contains(nonce@),
    {
        let mut i: usize = 0;
        while i < self.nonce_list.len()
            invariant
                self.wf(),
                i <= self.nonce_list.len(),
                forall|j: int| 0 <= j < i ==> #[trigger] self.nonce_list@[j]@ != nonce@,
            decreases self.nonce_list.len() - i,
        {
            if self.nonce_list[i] == *nonce {
                return true;
            }
            i = i + 1;
        }
        proof {
            if self.used@.contains(nonce@) {
                let j = choose|j: int|
                    0 <= j < self.nonce_list.len() && #[trigger] self.nonce_list@[j]@ == nonce@;
                assert(self.nonce_list@[j]@ != nonce@);
            }
        }
        false
    }

    /// Marks `nonce` as consumed. A host that keeps each nonce in its own
    /// storage slot loads it into the ledger with this.
    pub fn record_nonce(&mut self, nonce: String)
        requires
            old(self).wf(),
        ensures
            final(self).wf(),
            final(self)@ == (LedgerModel { nonces: old(self)@.nonces.insert(nonce@), ..old(self)@ }),
    {
        let ghost k = nonce@;
        self.nonce_list.push(nonce);
        self.used = Ghost(self.used@.insert(k));
        proof {
            let n = self.nonce_list.len() - 1;
            assert(self.nonce_list@[n as int]@ == k);
            assert forall|key: Seq<char>| #[trigger] self.used@.contains(key) implies exists|i: int|
                0 <= i < self.nonce_list.len() && #[trigger] self.nonce_list@[i]@ == key by {
                if key == k {
                    assert(self.nonce_list@[n as int]@ == key);
                } else {
                    assert(old(self).used@.contains(key));
                    let i = choose|i: int|
                        0 <= i < old(self).nonce_list.len() && #[trigger] old(
                            self,
                        ).nonce_list@[i]@ == key;
                    assert(self.nonce_list@[i]@ == key);
                }
            }
        }
    }

    /// The position of campaign `id` among the records, if it is recorded.
    fn find_campaign(&self, id: &String) -> (r: Option<usize>)
        requires
            self.wf(),
        ensures
            match r {
                Some(i) => i < self.ids.len() && self.ids@[i as int]@ == id@
                    && self@.campaigns.contains_key(id@) && self@.campaigns[id@]
                    == self.records@[i as int]@,
                None => !self@.campaigns.contains_key(id@),
            },
    {
        let mut i: usize = 0;
        while i < self.ids.len()
            invariant
                self.wf(),
                i <= self.ids.len(),
                forall|j: int| 0 <= j < i ==> #[trigger] self.ids@[j]@ != id@,
            decreases self.ids.len() - i,
        {
            if self.ids[i] == *id {
                return Some(i);
            }
            i = i + 1;
        }
        proof {
            if self.book@.contains_key(id@) {
                let j = choose|j: int| 0 <= j < self.ids.len() && #[trigger] self.ids@[j]@ == id@;
                assert(self.ids@[j]@ != id@);
            }
        }
        None
    }

    /// The record of campaign `id`, if there is one.
    pub fn campaign(&self, id: &String) -> (r: Option<&Campaign>)
        requires
            self.wf(),
        ensures
            match r {
                Some(c) => self@.campaigns.contains_key(id@) && self@.campaigns[id@] == c@,
                None => !self@.campaigns.contains_key(id@),
            },
    {
        match self.find_campaign(id) {
            Some(i) => Some(&self.records[i]),
            None => None,
        }
    }

    /// Records `campaign` under `id`, replacing any earlier record. A host
    /// that keeps each campaign in its own storage slot loads it with this.
    pub fn put_campaign(&mut self, id: String, campaign: Campaign)
        requires
            old(self).wf(),
        ensures
            final(self).wf(),
            final(self)@ == (LedgerModel {
                campaigns: old(self)@.campaigns.insert(id@, campaign@),
                ..old(self)@
            }),
    {
        let ghost k = id@;
        let ghost v = campaign@;
        match self.find_campaign(&id) {
            Some(i) => {
                self.records.set(i, campaign);
                self.book = Ghost(self.book@.insert(k, v));
                proof {
                    assert forall|j: int| 0 <= j < self.ids.len() implies self.book@.contains_key(
                        #[trigger] self.ids@[j]@,
                    ) && self.book@[self.ids@[j]@] == self.records@[j]@ by {
                        if j != i {
                            assert(old(self).ids@[j]@ != k);
                        }
                    }
                    assert forall|key: Seq<char>| #[trigger] self.book@.contains_key(
                        key,
                    ) implies exists|j: int|
                        0 <= j < self.ids.len() && #[trigger] self.ids@[j]@ == key by {
                        if key == k {
                            assert(self.ids@[i as int]@ == key);
                        } else {
                            assert(old(self).book@.contains_key(key));
                        }
                    }
                    Self::lemma_nonces_untouched(*old(self), *self);
                }
            },
            None => {
                self.ids.push(id);
                self.records.push(campaign);
                self.book = Ghost(self.book@.insert(k, v));
                proof {
                    let n = self.ids.len() - 1;
                    assert(self.ids@[n as int]@ == k);
                    assert forall|a: int, b: int|
                        0 <= a < b < self.ids.len() implies #[trigger] self.ids@[a]@
                        != #[trigger] self.ids@[b]@ by {
                        if b == n {
                            assert(old(self).book@.contains_key(old(self).ids@[a]@));
                        }
                    }
                    assert forall|j: int| 0 <= j < self.ids.len() implies self.book@.contains_key(
                        #[trigger] self.ids@[j]@,
                    ) && self.book@[self.ids@[j]@] == self.records@[j]@ by {
                        if j != n {
                            assert(old(self).book@.contains_key(old(self).ids@[j]@));
                        }
                    }
                    assert forall|key: Seq<char>| #[trigger] self.book@.contains_key(
                        key,
                    ) implies exists|j: int|
                        0 <= j < self.ids.len() && #[trigger] self.ids@[j]@ == key by {
                        if key == k {
                            assert(self.ids@[n as int]@ == key);
                        } else {
                            assert(old(self).book@.contains_key(key));
                            let j = choose|j: int|
                                0 <= j < old(self).ids.len() && #[trigger] old(self).ids@[j]@
                                    == key;
                            assert(self.ids@[j]@ == key);
                        }
                    }
                    Self::lemma_nonces_untouched(*old(self), *self);
                }
            },
        }
    }

    /// Deletes the record of campaign `id`, handing it back if there was one.
    pub(crate) fn remove_campaign(&mut self, id: &String) -> (r: Option<Campaign>)
        requires
            old(self).wf(),
        ensures
            final(self).wf(),
            final(self)@ == (LedgerModel {
                campaigns: old(self)@.campaigns.remove(id@),
                ..old(self)@
            }),
            match r {
                Some(c) => old(self)@.campaigns.contains_key(id@) && old(self)@.campaigns[id@]
                    == c@,
                None => !old(self)@.campaigns.contains_key(id@),
            },
    {
        let ghost k = id@;
        match self.find_campaign(id) {
            Some(i) => {
                let _gone = self.ids.remove(i);
                let c = self.records.remove(i);
                self.book = Ghost(self.book@.remove(k));
                proof {
                    assert forall|a: int, b: int|
                        0 <= a < b < self.ids.len() implies #[trigger] self.ids@[a]@
                        != #[trigger] self.ids@[b]@ by {
                        let oa = if a < i { a } else { a + 1 };
                        let ob = if b < i { b } else { b + 1 };
                        assert(self.ids@[a] == old(self).ids@[oa]);
                        assert(self.ids@[b] == old(self).ids@[ob]);
                    }
                    assert forall|j: int| 0 <= j < self.ids.len() implies self.book@.contains_key(
                        #[trigger] self.ids@[j]@,
                    ) && self.book@[self.ids@[j]@] == self.records@[j]@ by {
                        let oj = if j < i { j } else { j + 1 };
                        assert(self.ids@[j] == old(self).ids@[oj]);
                        assert(self.records@[j] == old(self).records@[oj]);
                        assert(old(self).ids@[oj]@ != old(self).ids@[i as int]@);
                    }
                    assert forall|key: Seq<char>| #[trigger] self.book@.contains_key(
                        key,
                    ) implies exists|j: int|
                        0 <= j < self.ids.len() && #[trigger] self.ids@[j]@ == key by {
                        assert(old(self).book@.contains_key(key));
                        let oj = choose|j: int|
                            0 <= j < old(self).ids.len() && #[trigger] old(self).ids@[j]@ == key;
                        assert(oj != i);
                        if oj < i {
                            assert(self.ids@[oj] == old(self).ids@[oj]);
                        } else {
                            assert(self.ids@[oj - 1] == old(self).ids@[oj]);
                        }
                    }
                    Self::lemma_nonces_untouched(*old(self), *self);
                }
                Some(c)
            },
            None => {
                proof {
                    assert(self.book@.remove(k) =~= self.book@);
                }
                None
            },
        }
    }
}

} // verus!
