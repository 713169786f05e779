//! The mathematical model of a contract: its state as plain values, what
//! each slot lookup yields, and the state that each operation leaves. The
//! contracts of the executable operations and the laws are stated over it.

use vstd::prelude::*;
use crate::aux_map::{bloated, upsert, BLOAT_COUNT};
use crate::error::StoreError;
use crate::render::{log_line, version_text};
use crate::schema::{
    AccountView, AllValuesView, Version1View, Version2View, Version3View, VersionView,
};
use crate::text::{first_component, last_component};
use crate::version_store::swap_removed;

verus! {

/// The slot at which the accessors of the first generation look.
pub const SLOT_V1: u64 = 0;

/// The slot at which the accessors of the second generation look.
pub const SLOT_V2: u64 = 1;

/// The slot at which the accessors of the third generation look.
pub const SLOT_V3: u64 = 2;

/// The state of a contract.
pub struct ContractView {
    /// The one principal that may change the state.
    pub owner: Seq<char>,
    /// The records, by slot.
    pub versions: Seq<VersionView>,
    /// The slot of the record that is reported as current.
    pub current_version_index: nat,
}

impl ContractView {
    /// The state right after construction: one first-generation record with
    /// `name` and an empty map, reported as current.
    pub open spec fn init(owner: Seq<char>, name: Seq<char>) -> ContractView {
        ContractView {
            owner,
            versions: seq![VersionView::V1(Version1View { name, map: Seq::empty() })],
            current_version_index: 0,
        }
    }

    /// What holds of every state that construction and the operations reach:
    /// the store is never empty, the current slot exists, and a
    /// first-generation record stands at slot 0 or nowhere.
    pub open spec fn wf(self) -> bool {
        &&& self.versions.len() >= 1
        &&& self.current_version_index < self.versions.len()
        &&& forall|i: int| 1 <= i < self.versions.len() ==> !(#[trigger] self.versions[i] is V1)
    }

    /// The owner guard: only the owner passes.
    pub open spec fn guard(self, caller: Seq<char>) -> Result<(), StoreError> {
        if caller == self.owner {
            Ok(())
        } else {
            Err(StoreError::Unauthorized)
        }
    }

    /// The first-generation record, looked up at its slot.
    pub open spec fn v1(self) -> Result<Version1View, StoreError> {
        if self.versions.len() <= SLOT_V1 {
            Err(StoreError::IndexOutOfRange)
        } else {
            match self.versions[SLOT_V1 as int] {
                VersionView::V1(v) => Ok(v),
                _ => Err(StoreError::VersionMismatch),
            }
        }
    }

    /// The second-generation record, looked up at its slot.
    pub open spec fn v2(self) -> Result<Version2View, StoreError> {
        if self.versions.len() <= SLOT_V2 {
            Err(StoreError::IndexOutOfRange)
        } else {
            match self.versions[SLOT_V2 as int] {
                VersionView::V2(v) => Ok(v),
                _ => Err(StoreError::VersionMismatch),
            }
        }
    }

    /// The third-generation record, looked up at its slot.
    pub open spec fn v3(self) -> Result<Version3View, StoreError> {
        if self.versions.len() <= SLOT_V3 {
            Err(StoreError::IndexOutOfRange)
        } else {
            match self.versions[SLOT_V3 as int] {
                VersionView::V3(v) => Ok(v),
                _ => Err(StoreError::VersionMismatch),
            }
        }
    }

    /// The name, read from the first generation.
    pub open spec fn name(self) -> Result<Seq<char>, StoreError> {
        match self.v1() {
            Ok(v) => Ok(v.name),
            Err(e) => Err(e),
        }
    }

    /// The number of entries of the auxiliary map.
    pub open spec fn map_len(self) -> Result<nat, StoreError> {
        match self.v1() {
            Ok(v) => Ok(v.map.len()),
            Err(e) => Err(e),
        }
    }

    /// The favorite color, read from the second generation.
    pub open spec fn favorite_color(self) -> Result<Seq<char>, StoreError> {
        match self.v2() {
            Ok(v) => Ok(v.favorite_color),
            Err(e) => Err(e),
        }
    }

    /// The favorite musician, read from the second generation.
    pub open spec fn favorite_musician(self) -> Result<Seq<char>, StoreError> {
        match self.v2() {
            Ok(v) => Ok(v.favorite_musician),
            Err(e) => Err(e),
        }
    }

    /// The account, read from the third generation.
    pub open spec fn account(self) -> Result<AccountView, StoreError> {
        match self.v3() {
            Ok(v) => Ok(v.account),
            Err(e) => Err(e),
        }
    }

    /// The guard, then the first-generation lookup: what a mutating accessor
    /// of the first generation works on.
    pub open spec fn write_v1(self, caller: Seq<char>) -> Result<Version1View, StoreError> {
        if caller != self.owner {
            Err(StoreError::Unauthorized)
        } else {
            self.v1()
        }
    }

    /// The guard, then the second-generation lookup.
    pub open spec fn write_v2(self, caller: Seq<char>) -> Result<Version2View, StoreError> {
        if caller != self.owner {
            Err(StoreError::Unauthorized)
        } else {
            self.v2()
        }
    }

    /// The guard, then both lookups that `set_all` needs, in the order of
    /// its fields.
    pub open spec fn write_all(self, caller: Seq<char>) -> Result<
        (Version1View, Version2View),
        StoreError,
    > {
        if caller != self.owner {
            Err(StoreError::Unauthorized)
        } else {
            match (self.v1(), self.v2()) {
                (Ok(v1), Ok(v2)) => Ok((v1, v2)),
                (Err(e), _) => Err(e),
                (_, Err(e)) => Err(e),
            }
        }
    }

    /// The three fields of `get_all`, looked up in the order of its fields.
    pub open spec fn all_values(self) -> Result<AllValuesView, StoreError> {
        match (self.v1(), self.v2()) {
            (Ok(v1), Ok(v2)) => Ok(
                AllValuesView {
                    name: v1.name,
                    favorite_color: v2.favorite_color,
                    favorite_musician: v2.favorite_musician,
                },
            ),
            (Err(e), _) => Err(e),
            (_, Err(e)) => Err(e),
        }
    }

    /// The label of the record at the current slot.
    pub open spec fn current_version(self) -> Result<Seq<char>, StoreError> {
        if self.current_version_index < self.versions.len() {
            Ok(self.versions[self.current_version_index as int].label())
        } else {
            Err(StoreError::IndexOutOfRange)
        }
    }

    /// The log line for the record at `index`.
    pub open spec fn log_record(self, index: nat) -> Result<Seq<char>, StoreError> {
        if index < self.versions.len() {
            Ok(log_line(index, version_text(self.versions[index as int])))
        } else {
            Err(StoreError::IndexOutOfRange)
        }
    }

    /// The guard, then a check that a later record is there to take slot 0:
    /// what the removal needs. The only record of a store is never removed,
    /// so a store is never left empty.
    pub open spec fn remove_check(self, caller: Seq<char>) -> Result<(), StoreError> {
        if caller != self.owner {
            Err(StoreError::Unauthorized)
        } else if self.versions.len() <= SLOT_V2 {
            Err(StoreError::IndexOutOfRange)
        } else {
            Ok(())
        }
    }

    /// The state with `v` written to the first generation's slot.
    pub open spec fn with_v1(self, v: Version1View) -> ContractView {
        ContractView { versions: self.versions.update(SLOT_V1 as int, VersionView::V1(v)), ..self }
    }

    /// The state with `v` written to the second generation's slot.
    pub open spec fn with_v2(self, v: Version2View) -> ContractView {
        ContractView { versions: self.versions.update(SLOT_V2 as int, VersionView::V2(v)), ..self }
    }

    /// The state with `record` appended and reported as current.
    pub open spec fn appended(self, record: VersionView) -> ContractView {
        ContractView {
            versions: self.versions.push(record),
            current_version_index: self.versions.len(),
            ..self
        }
    }

    /// The state after slot 0 was swap-removed: the record that was last
    /// stands at slot 0, and slot 0 is reported as current.
    pub open spec fn without_first(self) -> ContractView {
        ContractView {
            versions: swap_removed(self.versions, SLOT_V1 as int),
            current_version_index: 0,
            ..self
        }
    }

    /// The state that `set_name` leaves.
    pub open spec fn after_set_name(self, caller: Seq<char>, name: Seq<char>) -> ContractView {
        match self.write_v1(caller) {
            Ok(v1) => self.with_v1(Version1View { name, ..v1 }),
            Err(_) => self,
        }
    }

    /// The state that `add_to_map` leaves.
    pub open spec fn after_add_to_map(
        self,
        caller: Seq<char>,
        key: Seq<char>,
        value: Seq<char>,
    ) -> ContractView {
        match self.write_v1(caller) {
            Ok(v1) => self.with_v1(Version1View { map: upsert(v1.map, key, value), ..v1 }),
            Err(_) => self,
        }
    }

    /// The state that `bloat_map` leaves.
    pub open spec fn after_bloat_map(self, caller: Seq<char>) -> ContractView {
        match self.write_v1(caller) {
            Ok(v1) => self.with_v1(
                Version1View { map: bloated(v1.map, BLOAT_COUNT as nat), ..v1 },
            ),
            Err(_) => self,
        }
    }

    /// The state that `add_v2_with_color` leaves: a second-generation record
    /// with the given color and no musician yet is appended.
    pub open spec fn after_add_v2_with_color(
        self,
        caller: Seq<char>,
        favorite_color: Seq<char>,
    ) -> ContractView {
        match self.guard(caller) {
            Ok(_) => self.appended(
                VersionView::V2(Version2View { favorite_color, favorite_musician: Seq::empty() }),
            ),
            Err(_) => self,
        }
    }

    /// The state that `set_favorite_color` leaves.
    pub open spec fn after_set_favorite_color(
        self,
        caller: Seq<char>,
        favorite_color: Seq<char>,
    ) -> ContractView {
        match self.write_v2(caller) {
            Ok(v2) => self.with_v2(Version2View { favorite_color, ..v2 }),
            Err(_) => self,
        }
    }

    /// The state that `set_favorite_musician` leaves.
    pub open spec fn after_set_favorite_musician(
        self,
        caller: Seq<char>,
        favorite_musician: Seq<char>,
    ) -> ContractView {
        match self.write_v2(caller) {
            Ok(v2) => self.with_v2(Version2View { favorite_musician, ..v2 }),
            Err(_) => self,
        }
    }

    /// The state that `set_all` leaves: all three fields written, or none.
    pub open spec fn after_set_all(
        self,
        caller: Seq<char>,
        name: Seq<char>,
        favorite_color: Seq<char>,
        favorite_musician: Seq<char>,
    ) -> ContractView {
        match self.write_all(caller) {
            Ok((v1, _)) => self.with_v1(Version1View { name, ..v1 }).with_v2(
                Version2View { favorite_color, favorite_musician },
            ),
            Err(_) => self,
        }
    }

    /// The state that `add_v3_and_migrate` leaves: a third-generation record
    /// is appended, whose account is derived from the name.
    pub open spec fn after_add_v3_and_migrate(self, caller: Seq<char>) -> ContractView {
        match self.write_v1(caller) {
            Ok(v1) => self.appended(derived_v3(v1.name)),
            Err(_) => self,
        }
    }

    /// The state that `remove_v1` leaves.
    pub open spec fn after_remove_v1(self, caller: Seq<char>) -> ContractView {
        match self.remove_check(caller) {
            Ok(_) => self.without_first(),
            Err(_) => self,
        }
    }
}

/// The outcome of an operation that returns nothing: success, or the
/// failure of the lookup that it rests on.
pub open spec fn outcome<T>(lookup: Result<T, StoreError>) -> Result<(), StoreError> {
    match lookup {
        Ok(_) => Ok(()),
        Err(e) => Err(e),
    }
}

/// A textual result, by the view of its text.
pub open spec fn text_result(r: Result<String, StoreError>) -> Result<Seq<char>, StoreError> {
    match r {
        Ok(text) => Ok(text@),
        Err(e) => Err(e),
    }
}

/// The third-generation record that the migration derives from `name`: the
/// name is split at its first space, and the pronoun is empty.
pub open spec fn derived_v3(name: Seq<char>) -> VersionView {
    VersionView::V3(
        Version3View {
            account: AccountView {
                first_name: first_component(name),
                last_name: last_component(name),
                pronoun: Seq::empty(),
            },
        },
    )
}

} // verus!
