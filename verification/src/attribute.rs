//! The attributes and classes of directory entries that the views deal with.
use vstd::prelude::*;

verus! {

/// An attribute of a directory entry.
#[derive(Clone, Copy, Debug, PartialEq, Eq, Structural)]
pub enum Attribute {
    Uuid,
    Class,
    Name,
    DisplayName,
    LegalName,
    Description,
    Spn,
    Mail,
    Member,
    DirectMemberOf,
    EntryManagedBy,
    AccountExpire,
    AccountValidFrom,
    AccountSoftlockExpire,
    SshPublicKey,
    OAuth2RsOriginLanding,
    OAuth2RsOrigin,
    OAuth2RsScopeMap,
    DomainDisplayName,
    DomainLdapBasedn,
    DomainSsid,
    BadlistPassword,
    DeniedName,
}

/// A class of directory entries.
#[derive(Clone, Copy, Debug, PartialEq, Eq, Structural)]
pub enum EntryClass {
    Object,
    Account,
    Person,
    Group,
    OAuth2ResourceServer,
    OAuth2ResourceServerBasic,
    OAuth2ResourceServerPublic,
    DomainInfo,
    SystemConfig,
}

/// A map from attributes to values.
#[derive(Debug)]
pub struct AttrMap<V> {
    entries: Vec<(Attribute, V)>,
}

spec fn keys_distinct<V>(s: Seq<(Attribute, V)>) -> bool {
    forall|i: int, j: int|
        0 <= i < s.len() && 0 <= j < s.len() && #[trigger] s[i].0 == #[trigger] s[j].0 ==> i == j
}

spec fn has_key<V>(s: Seq<(Attribute, V)>, a: Attribute) -> bool {
    exists|i: int| 0 <= i < s.len() && (#[trigger] s[i]).0 == a
}

spec fn key_index<V>(s: Seq<(Attribute, V)>, a: Attribute) -> int {
    choose|i: int| 0 <= i < s.len() && (#[trigger] s[i]).0 == a
}

impl<V: DeepView> View for AttrMap<V> {
    type V = Map<Attribute, V::V>;

    closed spec fn view(&self) -> Map<Attribute, V::V> {
        let s = self.entries@;
        Map::new(|a: Attribute| has_key(s, a), |a: Attribute| s[key_index(s, a)].1.deep_view())
    }
}

impl<V> AttrMap<V> {
    #[verifier::type_invariant]
    spec fn distinct(self) -> bool {
        keys_distinct(self.entries@)
    }
}

impl<V: DeepView> AttrMap<V> {
    /// A map without attributes.
    pub fn new() -> (r: Self)
        ensures
            r@ == Map::<Attribute, V::V>::empty(),
    {
        let r = AttrMap { entries: Vec::new() };
        assert(r@ =~= Map::<Attribute, V::V>::empty());
        r
    }

    /// The map with a value for an attribute, which replaces an earlier one.
    pub fn with(self, attribute: Attribute, value: V) -> (r: Self)
        ensures
            r@ == self@.insert(attribute, value.deep_view()),
    {
        proof {
            use_type_invariant(&self);
        }
        let ghost s = self.entries@;
        let mut entries: Vec<(Attribute, V)> = self.entries;
        let mut i: usize = 0;
        while i < entries.len() && entries[i].0 != attribute
            invariant
                i <= entries@.len(),
                entries@ == s,
                forall|k: int| 0 <= k < i ==> (#[trigger] s[k]).0 != attribute,
            decreases entries@.len() - i,
        {
            i += 1;
        }
        let ghost t = if i < s.len() {
            s.update(i as int, (attribute, value))
        } else {
            s.push((attribute, value))
        };
        if i < entries.len() {
            entries[i] = (attribute, value);
        } else {
            entries.push((attribute, value));
        }
        proof {
            assert(entries@ == t);
            assert(t[i as int].0 == attribute);
            assert(has_key(t, attribute));
            assert forall|a: Attribute| a != attribute implies has_key(t, a) == has_key(s, a) by {
                if has_key(s, a) {
                    let k = key_index(s, a);
                    assert(t[k] == s[k]);
                }
                if has_key(t, a) {
                    let k = key_index(t, a);
                    assert(t[k] == s[k]);
                }
            }
            assert(keys_distinct(t));
            assert forall|a: Attribute| a != attribute && has_key(s, a) implies t[key_index(t, a)]
                == s[key_index(s, a)] by {
                let k = key_index(s, a);
                assert(t[k] == s[k]);
                assert(t[key_index(t, a)].0 == t[k].0);
            }
            assert(t[key_index(t, attribute)].0 == t[i as int].0);
        }
        let r = AttrMap { entries };
        assert(r@ =~= self@.insert(attribute, value.deep_view()));
        r
    }

    /// The value of an attribute.
    pub fn get(&self, attribute: Attribute) -> (r: Option<&V>)
        ensures
            match r {
                Some(v) => self@.dom().contains(attribute) && v.deep_view() == self@[attribute],
                None => !self@.dom().contains(attribute),
            },
    {
        proof {
            use_type_invariant(self);
        }
        let ghost s = self.entries@;
        let mut i: usize = 0;
        while i < self.entries.len()
            invariant
                i <= self.entries@.len(),
                s == self.entries@,
                keys_distinct(s),
                forall|k: int| 0 <= k < i ==> (#[trigger] s[k]).0 != attribute,
            decreases self.entries@.len() - i,
        {
            if self.entries[i].0 == attribute {
                assert(s[i as int].0 == attribute);
                assert(s[key_index(s, attribute)].0 == s[i as int].0);
                return Some(&self.entries[i].1);
            }
            i += 1;
        }
        None
    }

    /// The attributes and their values, each attribute once.
    pub fn into_entries(self) -> (r: Vec<(Attribute, V)>)
        ensures
            forall|i: int, j: int|
                0 <= i < r@.len() && 0 <= j < r@.len() && #[trigger] r@[i].0 == #[trigger] r@[j].0
                    ==> i == j,
            forall|i: int|
                0 <= i < r@.len() ==> self@.dom().contains((#[trigger] r@[i]).0)
                    && self@[r@[i].0] == r@[i].1.deep_view(),
            forall|a: Attribute| #[trigger]
                self@.dom().contains(a) ==> exists|i: int|
                    0 <= i < r@.len() && (#[trigger] r@[i]).0 == a,
    {
        proof {
            use_type_invariant(&self);
            let s = self.entries@;
            assert forall|i: int| 0 <= i < s.len() implies self@.dom().contains(
                (#[trigger] s[i]).0,
            ) && self@[s[i].0] == s[i].1.deep_view() by {
                assert(has_key(s, s[i].0));
                assert(s[key_index(s, s[i].0)].0 == s[i].0);
            }
        }
        self.entries
    }
}

} // verus!
