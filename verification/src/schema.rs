//! The schema generations. Each generation has its own tag and its own
//! fields; a deployed generation never gains a field.

use vstd::prelude::*;
use vstd::string::*;
use crate::aux_map::{AuxMap, Entries};

verus! {

/// The first generation: a name and the auxiliary map.
#[derive(Debug)]
pub struct Version1 {
    pub name: String,
    pub map: AuxMap,
}

/// The model of a first-generation record.
pub struct Version1View {
    pub name: Seq<char>,
    pub map: Entries,
}

impl View for Version1 {
    type V = Version1View;

    open spec fn view(&self) -> Version1View {
        Version1View { name: self.name@, map: self.map@ }
    }
}

/// The second generation: two favorites.
#[derive(Debug)]
pub struct Version2 {
    pub favorite_color: String,
    pub favorite_musician: String,
}

/// The model of a second-generation record.
pub struct Version2View {
    pub favorite_color: Seq<char>,
    pub favorite_musician: Seq<char>,
}

impl View for Version2 {
    type V = Version2View;

    open spec fn view(&self) -> Version2View {
        Version2View {
            favorite_color: self.favorite_color@,
            favorite_musician: self.favorite_musician@,
        }
    }
}

impl Clone for Version2 {
    fn clone(&self) -> (copy: Version2)
        ensures
            copy@ == self@,
    {
        Version2 {
            favorite_color: self.favorite_color.clone(),
            favorite_musician: self.favorite_musician.clone(),
        }
    }
}

/// A person, as the third generation records one.
#[derive(Debug)]
pub struct Account {
    first_name: String,
    last_name: String,
    pronoun: String,
}

/// The model of an account.
pub struct AccountView {
    pub first_name: Seq<char>,
    pub last_name: Seq<char>,
    pub pronoun: Seq<char>,
}

impl View for Account {
    type V = AccountView;

    closed spec fn view(&self) -> AccountView {
        AccountView {
            first_name: self.first_name@,
            last_name: self.last_name@,
            pronoun: self.pronoun@,
        }
    }
}

impl Account {
    /// An account of the three given fields.
    pub fn new(first_name: String, last_name: String, pronoun: String) -> (account: Account)
        ensures
            account@ == (AccountView {
                first_name: first_name@,
                last_name: last_name@,
                pronoun: pronoun@,
            }),
    {
        Account { first_name, last_name, pronoun }
    }

    /// The first name.
    pub fn first_name(&self) -> (text: &String)
        ensures
            text@ == self@.first_name,
    {
        &self.first_name
    }

    /// The last name.
    pub fn last_name(&self) -> (text: &String)
        ensures
            text@ == self@.last_name,
    {
        &self.last_name
    }

    /// The pronoun.
    pub fn pronoun(&self) -> (text: &String)
        ensures
            text@ == self@.pronoun,
    {
        &self.pronoun
    }
}

impl Clone for Account {
    fn clone(&self) -> (copy: Account)
        ensures
            copy@ == self@,
    {
        Account {
            first_name: self.first_name.clone(),
            last_name: self.last_name.clone(),
            pronoun: self.pronoun.clone(),
        }
    }
}

/// The third generation: an account derived from the first generation's name.
#[derive(Debug)]
pub struct Version3 {
    pub account: Account,
}

/// The model of a third-generation record.
pub struct Version3View {
    pub account: AccountView,
}

impl View for Version3 {
    type V = Version3View;

    open spec fn view(&self) -> Version3View {
        Version3View { account: self.account@ }
    }
}

impl Clone for Version3 {
    fn clone(&self) -> (copy: Version3)
        ensures
            copy@ == self@,
    {
        Version3 { account: self.account.clone() }
    }
}

/// A record of the store: one variant per generation.
#[derive(Debug)]
pub enum Version {
    V1(Version1),
    V2(Version2),
    V3(Version3),
}

/// The model of a record.
pub enum VersionView {
    V1(Version1View),
    V2(Version2View),
    V3(Version3View),
}

impl View for Version {
    type V = VersionView;

    open spec fn view(&self) -> VersionView {
        match self {
            Version::V1(v) => VersionView::V1(v@),
            Version::V2(v) => VersionView::V2(v@),
            Version::V3(v) => VersionView::V3(v@),
        }
    }
}

impl VersionView {
    /// The label under which a record's generation is reported.
    pub open spec fn label(self) -> Seq<char> {
        match self {
            VersionView::V1(_) => "gen-1"@,
            VersionView::V2(_) => "gen-2"@,
            VersionView::V3(_) => "gen-3"@,
        }
    }
}

impl Version {
    /// The label of the record's generation.
    pub fn get_version(&self) -> (label: String)
        ensures
            label@ == self@.label(),
    {
        match *self {
            Version::V1(_) => "gen-1".to_owned(),
            Version::V2(_) => "gen-2".to_owned(),
            Version::V3(_) => "gen-3".to_owned(),
        }
    }
}

/// The three fields that `get_all` reports together.
#[derive(Debug)]
pub struct AllValues {
    name: String,
    favorite_color: String,
    favorite_musician: String,
}

/// The model of `AllValues`.
pub struct AllValuesView {
    pub name: Seq<char>,
    pub favorite_color: Seq<char>,
    pub favorite_musician: Seq<char>,
}

impl View for AllValues {
    type V = AllValuesView;

    closed spec fn view(&self) -> AllValuesView {
        AllValuesView {
            name: self.name@,
            favorite_color: self.favorite_color@,
            favorite_musician: self.favorite_musician@,
        }
    }
}

impl AllValues {
    /// The three given fields together.
    pub fn new(name: String, favorite_color: String, favorite_musician: String) -> (all: AllValues)
        ensures
            all@ == (AllValuesView {
                name: name@,
                favorite_color: favorite_color@,
                favorite_musician: favorite_musician@,
            }),
    {
        AllValues { name, favorite_color, favorite_musician }
    }

    /// The name.
    pub fn name(&self) -> (text: &String)
        ensures
            text@ == self@.name,
    {
        &self.name
    }

    /// The favorite color.
    pub fn favorite_color(&self) -> (text: &String)
        ensures
            text@ == self@.favorite_color,
    {
        &self.favorite_color
    }

    /// The favorite musician.
    pub fn favorite_musician(&self) -> (text: &String)
        ensures
            text@ == self@.favorite_musician,
    {
        &self.favorite_musician
    }
}

} // verus!
