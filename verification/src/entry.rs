//! Directory entries as the views read them, and what the viewer may do with them.
use crate::attribute::{AttrMap, Attribute};
use vstd::prelude::*;
use vstd::string::*;

verus! {

/// What the viewer may do with an entry.
#[derive(Debug)]
pub struct Access {
    /// Whether the viewer may delete the entry.
    pub delete: bool,
    /// The attributes whose values the viewer may add to.
    pub modify_present: Vec<Attribute>,
}

impl Access {
    /// Whether the viewer may add values to an attribute.
    pub open spec fn can_modify(self, attribute: Attribute) -> bool {
        self.modify_present@.contains(attribute)
    }

    /// Whether the viewer may add values to one of some attributes.
    pub open spec fn can_modify_any(self, attributes: Seq<Attribute>) -> bool {
        exists|i: int| 0 <= i < attributes.len() && self.can_modify(#[trigger] attributes[i])
    }

    /// Whether the viewer may add values to an attribute.
    pub fn check(&self, attribute: Attribute) -> (r: bool)
        ensures
            r == self.can_modify(attribute),
    {
        let mut i: usize = 0;
        while i < self.modify_present.len()
            invariant
                i <= self.modify_present@.len(),
                forall|k: int| 0 <= k < i ==> #[trigger] self.modify_present@[k] != attribute,
            decreases self.modify_present@.len() - i,
        {
            if self.modify_present[i] == attribute {
                return true;
            }
            i += 1;
        }
        false
    }

    /// Whether the viewer may add values to one of some attributes.
    pub fn check_any(&self, attributes: &Vec<Attribute>) -> (r: bool)
        ensures
            r == self.can_modify_any(attributes@),
    {
        let mut i: usize = 0;
        while i < attributes.len()
            invariant
                i <= attributes@.len(),
                forall|k: int| 0 <= k < i ==> !self.can_modify(#[trigger] attributes@[k]),
            decreases attributes@.len() - i,
        {
            if self.check(attributes[i]) {
                assert(self.can_modify(attributes@[i as int]));
                return true;
            }
            i += 1;
        }
        false
    }
}

/// The scopes that members of a group get from an OAuth2 client.
#[derive(Debug)]
pub struct ScopeMap {
    pub group: String,
    pub group_uuid: u128,
    pub scopes: Vec<String>,
}

/// A scope map as a mathematical value.
pub struct ScopeMapView {
    pub group: Seq<char>,
    pub group_uuid: u128,
    pub scopes: Seq<Seq<char>>,
}

impl DeepView for ScopeMap {
    type V = ScopeMapView;

    open spec fn deep_view(&self) -> ScopeMapView {
        ScopeMapView {
            group: self.group@,
            group_uuid: self.group_uuid,
            scopes: self.scopes.deep_view(),
        }
    }
}

/// The value of an attribute.
#[derive(Debug)]
pub enum Value {
    /// One text.
    Text(String),
    /// Several texts.
    Texts(Vec<String>),
    /// References to other entries.
    References(Vec<u128>),
    /// The scope maps of an OAuth2 client.
    ScopeMaps(Vec<ScopeMap>),
    /// A value of another kind, which the views do not read.
    Other,
}

/// The value of an attribute as a mathematical value.
pub enum ValueView {
    Text(Seq<char>),
    Texts(Seq<Seq<char>>),
    References(Seq<u128>),
    ScopeMaps(Seq<ScopeMapView>),
    Other,
}

impl DeepView for Value {
    type V = ValueView;

    open spec fn deep_view(&self) -> ValueView {
        match self {
            Value::Text(s) => ValueView::Text(s@),
            Value::Texts(v) => ValueView::Texts(v.deep_view()),
            Value::References(v) => ValueView::References(v@),
            Value::ScopeMaps(v) => ValueView::ScopeMaps(v.deep_view()),
            Value::Other => ValueView::Other,
        }
    }
}

/// An entry: its identifier and the attributes that were asked for.
#[derive(Debug)]
pub struct Entry {
    pub id: u128,
    pub attrs: AttrMap<Value>,
}

/// An entry as a mathematical value.
pub struct EntryView {
    pub id: u128,
    pub attrs: Map<Attribute, ValueView>,
}

impl View for Entry {
    type V = EntryView;

    open spec fn view(&self) -> EntryView {
        EntryView { id: self.id, attrs: self.attrs@ }
    }
}

impl EntryView {
    /// The text of an attribute that holds one text.
    pub open spec fn text(self, attribute: Attribute) -> Option<Seq<char>> {
        if self.attrs.dom().contains(attribute) {
            match self.attrs[attribute] {
                ValueView::Text(s) => Some(s),
                _ => None,
            }
        } else {
            None
        }
    }

    /// The text of an attribute, empty unless it holds one text.
    pub open spec fn text_or_empty(self, attribute: Attribute) -> Seq<char> {
        match self.text(attribute) {
            Some(s) => s,
            None => Seq::empty(),
        }
    }

    /// The texts of an attribute that holds one or several, none otherwise.
    pub open spec fn texts(self, attribute: Attribute) -> Seq<Seq<char>> {
        if self.attrs.dom().contains(attribute) {
            match self.attrs[attribute] {
                ValueView::Texts(v) => v,
                ValueView::Text(s) => seq![s],
                _ => Seq::empty(),
            }
        } else {
            Seq::empty()
        }
    }

    /// The number of entries that an attribute refers to.
    pub open spec fn reference_count(self, attribute: Attribute) -> nat {
        if self.attrs.dom().contains(attribute) {
            match self.attrs[attribute] {
                ValueView::References(v) => v.len(),
                _ => 0,
            }
        } else {
            0
        }
    }

    /// The scope maps of an attribute that holds some, none otherwise.
    pub open spec fn scope_maps(self, attribute: Attribute) -> Seq<ScopeMapView> {
        if self.attrs.dom().contains(attribute) {
            match self.attrs[attribute] {
                ValueView::ScopeMaps(v) => v,
                _ => Seq::empty(),
            }
        } else {
            Seq::empty()
        }
    }
}

/// Copies a list of texts.
pub fn copy_texts(v: &Vec<String>) -> (r: Vec<String>)
    ensures
        r.deep_view() == v.deep_view(),
{
    let mut out: Vec<String> = Vec::new();
    let mut i: usize = 0;
    while i < v.len()
        invariant
            i <= v@.len(),
            out.deep_view() == v.deep_view().take(i as int),
        decreases v@.len() - i,
    {
        let ghost before = out.deep_view();
        out.push(v[i].clone());
        i += 1;
        assert(out.deep_view() =~= before.push(v.deep_view()[i - 1]));
        assert(out.deep_view() =~= v.deep_view().take(i as int));
    }
    assert(v.deep_view().take(v@.len() as int) =~= v.deep_view());
    out
}

fn copy_scope_maps(v: &Vec<ScopeMap>) -> (r: Vec<ScopeMap>)
    ensures
        r.deep_view() == v.deep_view(),
{
    let mut out: Vec<ScopeMap> = Vec::new();
    let mut i: usize = 0;
    while i < v.len()
        invariant
            i <= v@.len(),
            out.deep_view() == v.deep_view().take(i as int),
        decreases v@.len() - i,
    {
        let ghost before = out.deep_view();
        let map = ScopeMap {
            group: v[i].group.clone(),
            group_uuid: v[i].group_uuid,
            scopes: copy_texts(&v[i].scopes),
        };
        assert(map.deep_view() == v@[i as int].deep_view());
        out.push(map);
        i += 1;
        assert(out.deep_view() =~= before.push(v.deep_view()[i - 1]));
        assert(out.deep_view() =~= v.deep_view().take(i as int));
    }
    assert(v.deep_view().take(v@.len() as int) =~= v.deep_view());
    out
}

/// The text of an attribute that holds one text.
pub fn text_of(entry: &Entry, attribute: Attribute) -> (r: Option<String>)
    ensures
        r.deep_view() == entry@.text(attribute),
{
    match entry.attrs.get(attribute) {
        Some(Value::Text(s)) => Some(s.clone()),
        _ => None,
    }
}

/// The text of an attribute, empty unless it holds one text.
pub fn attr_string(entry: &Entry, attribute: Attribute) -> (r: String)
    ensures
        r@ == entry@.text_or_empty(attribute),
{
    match entry.attrs.get(attribute) {
        Some(Value::Text(s)) => s.clone(),
        _ => String::new(),
    }
}

/// The texts of an attribute that holds one or several, none otherwise.
pub fn attr_strings(entry: &Entry, attribute: Attribute) -> (r: Vec<String>)
    ensures
        r.deep_view() == entry@.texts(attribute),
{
    match entry.attrs.get(attribute) {
        Some(Value::Texts(v)) => copy_texts(v),
        Some(Value::Text(s)) => {
            let mut out: Vec<String> = Vec::new();
            out.push(s.clone());
            assert(out.deep_view() =~= seq![s@]);
            out
        },
        _ => {
            let out: Vec<String> = Vec::new();
            assert(out.deep_view() =~= Seq::<Seq<char>>::empty());
            out
        },
    }
}

/// The number of entries that an attribute refers to.
pub fn reference_count(entry: &Entry, attribute: Attribute) -> (r: usize)
    ensures
        r == entry@.reference_count(attribute),
{
    match entry.attrs.get(attribute) {
        Some(Value::References(v)) => v.len(),
        _ => 0,
    }
}

/// The scope maps of an attribute that holds some, none otherwise.
pub fn attr_scope_maps(entry: &Entry, attribute: Attribute) -> (r: Vec<ScopeMap>)
    ensures
        r.deep_view() == entry@.scope_maps(attribute),
{
    match entry.attrs.get(attribute) {
        Some(Value::ScopeMaps(v)) => copy_scope_maps(v),
        _ => {
            let out: Vec<ScopeMap> = Vec::new();
            assert(out.deep_view() =~= Seq::<ScopeMapView>::empty());
            out
        },
    }
}

/// What is read of an attribute is what the entry holds of it: one text, several texts, references
/// and scope maps are each read as such, and nothing is read of an attribute that the entry lacks.
pub proof fn law_attributes_are_read_as_held(
    e: EntryView,
    a: Attribute,
    s: Seq<char>,
    v: Seq<Seq<char>>,
    refs: Seq<u128>,
    maps: Seq<ScopeMapView>,
)
    ensures
        ({
            let one = EntryView { attrs: e.attrs.insert(a, ValueView::Text(s)), ..e };
            one.text(a) == Some(s) && one.text_or_empty(a) == s && one.texts(a) == seq![s]
                && one.reference_count(a) == 0 && one.scope_maps(a).len() == 0
        }),
        ({
            let several = EntryView { attrs: e.attrs.insert(a, ValueView::Texts(v)), ..e };
            several.text(a) is None && several.text_or_empty(a).len() == 0 && several.texts(a) == v
                && several.reference_count(a) == 0 && several.scope_maps(a).len() == 0
        }),
        ({
            let held = EntryView { attrs: e.attrs.insert(a, ValueView::References(refs)), ..e };
            held.text(a) is None && held.text_or_empty(a).len() == 0 && held.texts(a).len() == 0
                && held.reference_count(a) == refs.len() && held.scope_maps(a).len() == 0
        }),
        ({
            let held = EntryView { attrs: e.attrs.insert(a, ValueView::ScopeMaps(maps)), ..e };
            held.text(a) is None && held.text_or_empty(a).len() == 0 && held.texts(a).len() == 0
                && held.reference_count(a) == 0 && held.scope_maps(a) == maps
        }),
        ({
            let other = EntryView { attrs: e.attrs.insert(a, ValueView::Other), ..e };
            other.text(a) is None && other.text_or_empty(a).len() == 0 && other.texts(a).len() == 0
                && other.reference_count(a) == 0 && other.scope_maps(a).len() == 0
        }),
        ({
            let without = EntryView { attrs: e.attrs.remove(a), ..e };
            without.text(a) is None && without.text_or_empty(a).len() == 0 && without.texts(
                a,
            ).len() == 0 && without.reference_count(a) == 0 && without.scope_maps(a).len() == 0
        }),
{
}

/// What is read of an attribute does not depend on other attributes.
pub proof fn law_attributes_are_read_apart(e: EntryView, a: Attribute, b: Attribute, v: ValueView)
    requires
        a != b,
    ensures
        ({
            let f = EntryView { attrs: e.attrs.insert(b, v), ..e };
            f.text(a) == e.text(a) && f.text_or_empty(a) == e.text_or_empty(a) && f.texts(a)
                == e.texts(a) && f.reference_count(a) == e.reference_count(a) && f.scope_maps(a)
                == e.scope_maps(a)
        }),
{
}

/// The viewer may change one of some attributes exactly if one of those that they may add to is
/// among them.
pub proof fn law_any_right_is_enough(access: Access, attributes: Seq<Attribute>)
    ensures
        access.can_modify_any(attributes) <==> exists|k: int|
            0 <= k < access.modify_present@.len() && attributes.contains(
                #[trigger] access.modify_present@[k],
            ),
{
    let rights = access.modify_present@;
    if access.can_modify_any(attributes) {
        let i = choose|i: int|
            0 <= i < attributes.len() && access.can_modify(#[trigger] attributes[i]);
        let k = choose|k: int| 0 <= k < rights.len() && rights[k] == attributes[i];
        assert(attributes.contains(rights[k]));
    }
    if exists|k: int| 0 <= k < rights.len() && attributes.contains(#[trigger] rights[k]) {
        let k = choose|k: int| 0 <= k < rights.len() && attributes.contains(#[trigger] rights[k]);
        let i = choose|i: int| 0 <= i < attributes.len() && attributes[i] == rights[k];
        assert(rights.contains(attributes[i]));
        assert(access.can_modify(attributes[i]));
    }
}

} // verus!
