//! The contract: a version store, the pointer to the current generation and
//! the owner, with the typed accessors and the migrations. Every operation
//! that fails leaves the state as it was.

use vstd::prelude::*;
use vstd::string::*;
use crate::aux_map::{distinct_keys, keys, AuxMap};
use crate::error::StoreError;
use crate::model::{outcome, text_result, ContractView, SLOT_V1, SLOT_V2, SLOT_V3};
use crate::render::compose_log_line;
use crate::schema::{
    Account, AccountView, AllValues, AllValuesView, Version, Version1, Version1View, Version2,
    Version2View, Version3,
};
use crate::text::split_name;
use crate::version_store::VersionStore;

verus! {

/// A store of schema generations under the control of one owner.
#[derive(Debug)]
pub struct Contract {
    owner: String,
    versions: VersionStore,
    current_version_index: u64,
}

impl View for Contract {
    type V = ContractView;

    closed spec fn view(&self) -> ContractView {
        ContractView {
            owner: self.owner@,
            versions: self.versions@,
            current_version_index: self.current_version_index as nat,
        }
    }
}

impl Contract {
    /// Constructs the contract of `owner`: the store receives its first
    /// record, of the first generation, with `name` and an empty map.
    pub fn new(owner: String, name: String) -> (contract: Contract)
        ensures
            contract@ == ContractView::init(owner@, name@),
            contract@.wf(),
    {
        let initial_version = Version1 { name, map: AuxMap::new() };
        let mut contract = Contract {
            owner,
            versions: VersionStore::new(),
            current_version_index: 0,
        };
        contract.versions.append(Version::V1(initial_version));
        assert(contract@.versions =~= ContractView::init(owner@, name@).versions);
        contract
    }

    /// Puts a contract together from its parts, as they were taken from one
    /// before: `None` where the parts do not meet the invariant of a contract,
    /// as an empty store does not.
    pub fn restore(owner: String, versions: VersionStore, current_version_index: u64) -> (contract:
        Option<Contract>)
        ensures
            match contract {
                Some(c) => c@.wf() && c@ == (ContractView {
                    owner: owner@,
                    versions: versions@,
                    current_version_index: current_version_index as nat,
                }),
                None => !(ContractView {
                    owner: owner@,
                    versions: versions@,
                    current_version_index: current_version_index as nat,
                }).wf(),
            },
    {
        let len = versions.len();
        if current_version_index >= len {
            return None;
        }
        let mut i: u64 = 1;
        while i < len
            invariant
                len == versions@.len(),
                1 <= i,
                forall|j: int| 1 <= j < i && j < len ==> !(#[trigger] versions@[j] is V1),
            decreases len - i,
        {
            match versions.get(i) {
                Some(Version::V1(_)) => {
                    return None;
                },
                _ => {},
            }
            i = i + 1;
        }
        Some(Contract { owner, versions, current_version_index })
    }

    /// The owner.
    pub fn owner(&self) -> (owner: &String)
        ensures
            owner@ == self@.owner,
    {
        &self.owner
    }

    /// The records, by slot.
    pub fn versions(&self) -> (versions: &VersionStore)
        ensures
            versions@ == self@.versions,
    {
        &self.versions
    }

    /// The slot that is reported as current.
    pub fn current_version_index(&self) -> (index: u64)
        ensures
            index == self@.current_version_index,
    {
        self.current_version_index
    }

    /// The owner guard: whether `caller` is the owner.
    fn only_owner(&self, caller: &String) -> (passes: bool)
        ensures
            passes == (caller@ == self@.owner),
    {
        *caller == self.owner
    }

    /// The guard, then the first generation's record, to be rewritten in
    /// place: what the caller leaves in it is what slot 0 holds afterwards,
    /// and nothing else changes.
    fn v1_mut(&mut self, caller: &String) -> (record: Result<&mut Version1, StoreError>)
        ensures
            match record {
                Ok(v1) => old(self)@.write_v1(caller@) == Ok::<Version1View, StoreError>((*v1)@)
                    && final(self)@ == old(self)@.with_v1((*final(v1))@),
                Err(e) => old(self)@.write_v1(caller@) == Err::<Version1View, StoreError>(e)
                    && final(self)@ == old(self)@,
            },
    {
        if !self.only_owner(caller) {
            return Err(StoreError::Unauthorized);
        }
        match self.versions.get(SLOT_V1) {
            None => {
                return Err(StoreError::IndexOutOfRange);
            },
            Some(Version::V1(_)) => {},
            Some(_) => {
                return Err(StoreError::VersionMismatch);
            },
        }
        match self.versions.get_mut(SLOT_V1) {
            Some(Version::V1(v1)) => Ok(v1),
            _ => {
                // Not reached: the lookup above found this generation at the slot.
                assert(false);
                Err(StoreError::VersionMismatch)
            },
        }
    }

    /// The guard, then the second generation's record, to be rewritten in
    /// place: what the caller leaves in it is what slot 1 holds afterwards,
    /// and nothing else changes.
    fn v2_mut(&mut self, caller: &String) -> (record: Result<&mut Version2, StoreError>)
        ensures
            match record {
                Ok(v2) => old(self)@.write_v2(caller@) == Ok::<Version2View, StoreError>((*v2)@)
                    && final(self)@ == old(self)@.with_v2((*final(v2))@),
                Err(e) => old(self)@.write_v2(caller@) == Err::<Version2View, StoreError>(e)
                    && final(self)@ == old(self)@,
            },
    {
        if !self.only_owner(caller) {
            return Err(StoreError::Unauthorized);
        }
        match self.versions.get(SLOT_V2) {
            None => {
                return Err(StoreError::IndexOutOfRange);
            },
            Some(Version::V2(_)) => {},
            Some(_) => {
                return Err(StoreError::VersionMismatch);
            },
        }
        match self.versions.get_mut(SLOT_V2) {
            Some(Version::V2(v2)) => Ok(v2),
            _ => {
                // Not reached: the lookup above found this generation at the slot.
                assert(false);
                Err(StoreError::VersionMismatch)
            },
        }
    }

    /// The label of the generation at the current slot.
    pub fn get_current_version(&self) -> (label: Result<String, StoreError>)
        ensures
            text_result(label) == self@.current_version(),
    {
        match self.versions.get(self.current_version_index) {
            Some(version) => Ok(version.get_version()),
            None => Err(StoreError::IndexOutOfRange),
        }
    }

    /// The log line for the record at `index`. Nothing is changed, whether
    /// the slot exists or not.
    pub fn log_version_data(&self, index: u64) -> (line: Result<String, StoreError>)
        ensures
            text_result(line) == self@.log_record(index as nat),
    {
        match self.versions.get(index) {
            Some(version) => {
                let record = version.debug_text();
                Ok(compose_log_line(index, &record))
            },
            None => Err(StoreError::IndexOutOfRange),
        }
    }

    /// The name, from the first generation's slot.
    pub fn get_name(&self) -> (name: Result<String, StoreError>)
        ensures
            text_result(name) == self@.name(),
    {
        match self.versions.get(SLOT_V1) {
            None => Err(StoreError::IndexOutOfRange),
            Some(Version::V1(v1)) => Ok(v1.name.clone()),
            Some(_) => Err(StoreError::VersionMismatch),
        }
    }

    /// Overwrites the name; the map of the record stays as it is.
    pub fn set_name(&mut self, caller: &String, new_name: String) -> (done: Result<(), StoreError>)
        ensures
            done == outcome(old(self)@.write_v1(caller@)),
            final(self)@ == old(self)@.after_set_name(caller@, new_name@),
            old(self)@.wf() ==> final(self)@.wf(),
    {
        match self.v1_mut(caller) {
            Ok(v1) => {
                v1.name = new_name;
                Ok(())
            },
            Err(e) => Err(e),
        }
    }

    /// The entries of the auxiliary map, in the order in which their keys
    /// first came.
    pub fn get_map(&self) -> (pairs: Result<Vec<(String, String)>, StoreError>)
        ensures
            match pairs {
                Ok(list) => self@.v1() is Ok && list.deep_view() == self@.v1()->Ok_0.map
                    && distinct_keys(list.deep_view()),
                Err(e) => self@.v1() == Err::<Version1View, StoreError>(e),
            },
    {
        match self.versions.get(SLOT_V1) {
            None => Err(StoreError::IndexOutOfRange),
            Some(Version::V1(v1)) => Ok(v1.map.to_vec()),
            Some(_) => Err(StoreError::VersionMismatch),
        }
    }

    /// The number of entries of the auxiliary map.
    pub fn get_map_len(&self) -> (len: Result<u64, StoreError>)
        ensures
            match len {
                Ok(n) => self@.map_len() == Ok::<nat, StoreError>(n as nat) && n == keys(
                    self@.v1()->Ok_0.map,
                ).to_set().len(),
                Err(e) => self@.map_len() == Err::<nat, StoreError>(e),
            },
    {
        match self.versions.get(SLOT_V1) {
            None => Err(StoreError::IndexOutOfRange),
            Some(Version::V1(v1)) => Ok(v1.map.len()),
            Some(_) => Err(StoreError::VersionMismatch),
        }
    }

    /// Upserts the entry of `account` in the auxiliary map.
    pub fn add_to_map(&mut self, caller: &String, account: String, desc: String) -> (done: Result<
        (),
        StoreError,
    >)
        ensures
            done == outcome(old(self)@.write_v1(caller@)),
            final(self)@ == old(self)@.after_add_to_map(caller@, account@, desc@),
            old(self)@.wf() ==> final(self)@.wf(),
    {
        match self.v1_mut(caller) {
            Ok(v1) => {
                v1.map.insert(account, desc);
                Ok(())
            },
            Err(e) => Err(e),
        }
    }

    /// Bulk-loads the auxiliary map with synthetic entries.
    pub fn bloat_map(&mut self, caller: &String) -> (done: Result<(), StoreError>)
        ensures
            done == outcome(old(self)@.write_v1(caller@)),
            final(self)@ == old(self)@.after_bloat_map(caller@),
            old(self)@.wf() ==> final(self)@.wf(),
    {
        match self.v1_mut(caller) {
            Ok(v1) => {
                v1.map.bloat();
                Ok(())
            },
            Err(e) => Err(e),
        }
    }

    /// The migration to the second generation: appends a record with the
    /// given color and no musician, and reports it as current.
    pub fn add_v2_with_color(&mut self, caller: &String, favorite_color: String) -> (done: Result<
        (),
        StoreError,
    >)
        ensures
            done == outcome(old(self)@.guard(caller@)),
            final(self)@ == old(self)@.after_add_v2_with_color(caller@, favorite_color@),
            old(self)@.wf() ==> final(self)@.wf(),
    {
        if !self.only_owner(caller) {
            return Err(StoreError::Unauthorized);
        }
        let v2 = Version2 { favorite_color, favorite_musician: String::new() };
        let len = self.versions.append(Version::V2(v2));
        self.current_version_index = len - 1;
        Ok(())
    }

    /// The favorite color, from the second generation's slot.
    pub fn get_favorite_color(&self) -> (color: Result<String, StoreError>)
        ensures
            text_result(color) == self@.favorite_color(),
    {
        match self.versions.get(SLOT_V2) {
            None => Err(StoreError::IndexOutOfRange),
            Some(Version::V2(v2)) => Ok(v2.favorite_color.clone()),
            Some(_) => Err(StoreError::VersionMismatch),
        }
    }

    /// Overwrites the favorite color; the musician stays as it is.
    pub fn set_favorite_color(&mut self, caller: &String, new_color: String) -> (done: Result<
        (),
        StoreError,
    >)
        ensures
            done == outcome(old(self)@.write_v2(caller@)),
            final(self)@ == old(self)@.after_set_favorite_color(caller@, new_color@),
            old(self)@.wf() ==> final(self)@.wf(),
    {
        match self.v2_mut(caller) {
            Ok(v2) => {
                v2.favorite_color = new_color;
                Ok(())
            },
            Err(e) => Err(e),
        }
    }

    /// The favorite musician, from the second generation's slot.
    pub fn get_favorite_musician(&self) -> (musician: Result<String, StoreError>)
        ensures
            text_result(musician) == self@.favorite_musician(),
    {
        match self.versions.get(SLOT_V2) {
            None => Err(StoreError::IndexOutOfRange),
            Some(Version::V2(v2)) => Ok(v2.favorite_musician.clone()),
            Some(_) => Err(StoreError::VersionMismatch),
        }
    }

    /// Overwrites the favorite musician; the color stays as it is.
    pub fn set_favorite_musician(&mut self, caller: &String, new_musician: String) -> (done:
        Result<(), StoreError>)
        ensures
            done == outcome(old(self)@.write_v2(caller@)),
            final(self)@ == old(self)@.after_set_favorite_musician(caller@, new_musician@),
            old(self)@.wf() ==> final(self)@.wf(),
    {
        match self.v2_mut(caller) {
            Ok(v2) => {
                v2.favorite_musician = new_musician;
                Ok(())
            },
            Err(e) => Err(e),
        }
    }

    /// Overwrites name, color and musician in one step: both slots are
    /// checked before either is written, so a failure writes nothing.
    pub fn set_all(
        &mut self,
        caller: &String,
        new_name: String,
        new_color: String,
        new_musician: String,
    ) -> (done: Result<(), StoreError>)
        ensures
            done == outcome(old(self)@.write_all(caller@)),
            final(self)@ == old(self)@.after_set_all(caller@, new_name@, new_color@, new_musician@),
            old(self)@.wf() ==> final(self)@.wf(),
    {
        if !self.only_owner(caller) {
            return Err(StoreError::Unauthorized);
        }
        match self.versions.get(SLOT_V1) {
            None => {
                return Err(StoreError::IndexOutOfRange);
            },
            Some(Version::V1(_)) => {},
            Some(_) => {
                return Err(StoreError::VersionMismatch);
            },
        }
        match self.versions.get(SLOT_V2) {
            None => {
                return Err(StoreError::IndexOutOfRange);
            },
            Some(Version::V2(_)) => {},
            Some(_) => {
                return Err(StoreError::VersionMismatch);
            },
        }
        match self.versions.get_mut(SLOT_V1) {
            Some(Version::V1(v1)) => {
                v1.name = new_name;
            },
            _ => {},
        }
        match self.versions.get_mut(SLOT_V2) {
            Some(Version::V2(v2)) => {
                v2.favorite_color = new_color;
                v2.favorite_musician = new_musician;
            },
            _ => {},
        }
        Ok(())
    }

    /// Name, color and musician together.
    pub fn get_all(&self) -> (all: Result<AllValues, StoreError>)
        ensures
            match all {
                Ok(values) => self@.all_values() == Ok::<_, StoreError>(values@),
                Err(e) => self@.all_values() == Err::<AllValuesView, StoreError>(e),
            },
    {
        let name = match self.get_name() {
            Ok(name) => name,
            Err(e) => {
                return Err(e);
            },
        };
        let favorite_color = match self.get_favorite_color() {
            Ok(color) => color,
            Err(e) => {
                return Err(e);
            },
        };
        let favorite_musician = match self.get_favorite_musician() {
            Ok(musician) => musician,
            Err(e) => {
                return Err(e);
            },
        };
        Ok(AllValues::new(name, favorite_color, favorite_musician))
    }

    /// The account, from the third generation's slot.
    pub fn get_account(&self) -> (account: Result<Account, StoreError>)
        ensures
            match account {
                Ok(a) => self@.account() == Ok::<_, StoreError>(a@),
                Err(e) => self@.account() == Err::<AccountView, StoreError>(e),
            },
    {
        match self.versions.get(SLOT_V3) {
            None => Err(StoreError::IndexOutOfRange),
            Some(Version::V3(v3)) => Ok(v3.account.clone()),
            Some(_) => Err(StoreError::VersionMismatch),
        }
    }

    /// The migration to the third generation: derives an account from the
    /// name of the first generation, appends it, and reports it as current.
    pub fn add_v3_and_migrate(&mut self, caller: &String) -> (done: Result<(), StoreError>)
        ensures
            done == outcome(old(self)@.write_v1(caller@)),
            final(self)@ == old(self)@.after_add_v3_and_migrate(caller@),
            old(self)@.wf() ==> final(self)@.wf(),
    {
        if !self.only_owner(caller) {
            return Err(StoreError::Unauthorized);
        }
        let (first_name, last_name) = match self.versions.get(SLOT_V1) {
            None => {
                return Err(StoreError::IndexOutOfRange);
            },
            Some(Version::V1(v1)) => split_name(v1.name.as_str()),
            Some(_) => {
                return Err(StoreError::VersionMismatch);
            },
        };
        let v3 = Version3 { account: Account::new(first_name, last_name, String::new()) };
        let len = self.versions.append(Version::V3(v3));
        self.current_version_index = len - 1;
        Ok(())
    }

    /// Removes the record at slot 0 for good, with its auxiliary map: the
    /// record that was last takes the slot, and slot 0 is reported as current.
    /// The only record of a store is not removed: the call is refused with
    /// `IndexOutOfRange`, since no later record is there to take the slot.
    pub fn remove_v1(&mut self, caller: &String) -> (done: Result<(), StoreError>)
        ensures
            done == old(self)@.remove_check(caller@),
            final(self)@ == old(self)@.after_remove_v1(caller@),
            old(self)@.wf() ==> final(self)@.wf(),
    {
        if !self.only_owner(caller) {
            return Err(StoreError::Unauthorized);
        }
        if self.versions.len() <= SLOT_V2 {
            return Err(StoreError::IndexOutOfRange);
        }
        match self.versions.swap_remove(SLOT_V1) {
            Ok(()) => {
                self.current_version_index = 0;
                Ok(())
            },
            Err(e) => Err(e),
        }
    }
}

} // verus!
