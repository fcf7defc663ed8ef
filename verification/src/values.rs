//! Named values for expansion: a store mapping each variable name to a
//! scalar string or an ordered list of strings.  A name with no entry is
//! undefined, which the expansion algorithm distinguishes from a defined but
//! empty scalar.

use vstd::prelude::*;
use vstd::string::StringExecFns;

use crate::template::views_of_strings;

verus! {

/// A value a variable can resolve to: a single string or an ordered list of
/// strings.
pub enum UriTemplateValue {
    Scalar(String),
    List(Vec<String>),
}

/// The mathematical content of a [`UriTemplateValue`].
pub ghost enum UriTemplateValueView {
    Scalar(Seq<char>),
    List(Seq<Seq<char>>),
}

impl View for UriTemplateValue {
    type V = UriTemplateValueView;

    closed spec fn view(&self) -> UriTemplateValueView {
        match self {
            UriTemplateValue::Scalar(s) => UriTemplateValueView::Scalar(s@),
            UriTemplateValue::List(l) => UriTemplateValueView::List(views_of_strings(l@)),
        }
    }
}

/// The map described by a sequence of bindings, later bindings overriding
/// earlier ones.
pub open spec fn entries_map(es: Seq<(String, UriTemplateValue)>) -> Map<
    Seq<char>,
    UriTemplateValueView,
>
    decreases es.len(),
{
    if es.len() == 0 {
        Map::empty()
    } else {
        entries_map(es.drop_last()).insert(es.last().0@, es.last().1@)
    }
}

/// The ordered list of strings a name resolves to: one string for a scalar,
/// the elements for a list, none when the name is undefined.
pub open spec fn spec_resolved(m: Map<Seq<char>, UriTemplateValueView>, name: Seq<char>) -> Seq<
    Seq<char>,
> {
    if m.dom().contains(name) {
        match m[name] {
            UriTemplateValueView::Scalar(s) => seq![s],
            UriTemplateValueView::List(l) => l,
        }
    } else {
        Seq::empty()
    }
}

proof fn lemma_entries_map_last_match(es: Seq<(String, UriTemplateValue)>, i: int)
    requires
        0 <= i < es.len(),
        forall|j: int| i < j < es.len() ==> #[trigger] es[j].0@ != es[i].0@,
    ensures
        entries_map(es).dom().contains(es[i].0@),
        entries_map(es)[es[i].0@] == es[i].1@,
    decreases es.len(),
{
    if i < es.len() - 1 {
        let d = es.drop_last();
        assert(es[es.len() - 1].0@ != es[i].0@);
        assert(d[i] == es[i]);
        assert(forall|j: int| i < j < d.len() ==> #[trigger] d[j].0@ != d[i].0@);
        lemma_entries_map_last_match(d, i);
    }
}

proof fn lemma_entries_map_absent(es: Seq<(String, UriTemplateValue)>, k: Seq<char>)
    requires
        forall|j: int| 0 <= j < es.len() ==> #[trigger] es[j].0@ != k,
    ensures
        !entries_map(es).dom().contains(k),
    decreases es.len(),
{
    if es.len() > 0 {
        lemma_entries_map_absent(es.drop_last(), k);
    }
}

fn clone_strings(v: &Vec<String>) -> (r: Vec<String>)
    ensures
        views_of_strings(r@) == views_of_strings(v@),
{
    let mut r: Vec<String> = Vec::new();
    let mut i: usize = 0;
    while i < v.len()
        invariant
            i <= v@.len(),
            r@.len() == i as int,
            forall|j: int| 0 <= j < i ==> #[trigger] r@[j]@ == v@[j]@,
        decreases v@.len() - i,
    {
        r.push(v[i].clone());
        i = i + 1;
    }
    proof {
        assert(views_of_strings(r@) =~= views_of_strings(v@));
    }
    r
}

/// A store of named values; at the view level a map from name to value,
/// where setting a name again replaces its earlier value.
pub struct UriTemplateValues {
    entries: Vec<(String, UriTemplateValue)>,
}

impl View for UriTemplateValues {
    type V = Map<Seq<char>, UriTemplateValueView>;

    closed spec fn view(&self) -> Map<Seq<char>, UriTemplateValueView> {
        entries_map(self.entries@)
    }
}

impl UriTemplateValues {
    /// An empty store: every name is undefined.
    pub fn new() -> (r: UriTemplateValues)
        ensures
            r@ == Map::<Seq<char>, UriTemplateValueView>::empty(),
    {
        UriTemplateValues { entries: Vec::new() }
    }

    fn set_value(&mut self, name: &str, value: UriTemplateValue)
        ensures
            final(self)@ == old(self)@.insert(name@, value@),
    {
        let ghost v = value@;
        let key = String::from_str(name);
        self.entries.push((key, value));
        proof {
            assert(self.entries@.drop_last() =~= old(self).entries@);
            assert(self.entries@.last().0@ == name@);
            assert(self.entries@.last().1@ == v);
        }
    }

    /// Bind a name to a single string value, replacing any earlier binding.
    pub fn set_string(&mut self, name: &str, value: &str)
        ensures
            final(self)@ == old(self)@.insert(name@, UriTemplateValueView::Scalar(value@)),
    {
        let v = UriTemplateValue::Scalar(String::from_str(value));
        self.set_value(name, v);
    }

    /// Bind a name to an ordered list of strings, replacing any earlier
    /// binding.
    pub fn set_strings(&mut self, name: &str, values: Vec<&str>)
        ensures
            final(self)@ == old(self)@.insert(
                name@,
                UriTemplateValueView::List(values@.map_values(|s: &str| s@)),
            ),
    {
        let mut l: Vec<String> = Vec::new();
        let mut i: usize = 0;
        while i < values.len()
            invariant
                i <= values@.len(),
                l@.len() == i as int,
                forall|j: int| 0 <= j < i ==> #[trigger] l@[j]@ == values@[j]@,
            decreases values@.len() - i,
        {
            l.push(String::from_str(values[i]));
            i = i + 1;
        }
        proof {
            assert(views_of_strings(l@) =~= values@.map_values(|s: &str| s@));
        }
        self.set_value(name, UriTemplateValue::List(l));
    }

    /// Bind a name to any value convertible into a [`UriTemplateValue`],
    /// replacing any earlier binding.
    pub fn set<T>(&mut self, name: &str, value: T) where UriTemplateValue: From<T>
        ensures
            exists|v: UriTemplateValue|
                #[trigger] call_ensures(UriTemplateValue::from, (value,), v) && final(self)@ == old(
                    self,
                )@.insert(name@, v@),
    {
        let v: UriTemplateValue = value.into();
        self.set_value(name, v);
    }

    /// The ordered list of strings a name resolves to.
    pub(crate) fn strings_for_name(&self, name: &String) -> (r: Vec<String>)
        ensures
            views_of_strings(r@) == spec_resolved(self@, name@),
    {
        let n = self.entries.len();
        let mut i: usize = n;
        while i > 0
            invariant
                i <= n,
                n == self.entries@.len(),
                forall|j: int| i <= j < n ==> #[trigger] self.entries@[j].0@ != name@,
            decreases i,
        {
            i = i - 1;
            if self.entries[i].0 == *name {
                proof {
                    lemma_entries_map_last_match(self.entries@, i as int);
                }
                let r = match &self.entries[i].1 {
                    UriTemplateValue::Scalar(s) => {
                        let mut v: Vec<String> = Vec::new();
                        v.push(s.clone());
                        v
                    },
                    UriTemplateValue::List(l) => clone_strings(l),
                };
                proof {
                    assert(views_of_strings(r@) =~= spec_resolved(self@, name@));
                }
                return r;
            }
        }
        proof {
            lemma_entries_map_absent(self.entries@, name@);
            assert(views_of_strings(Seq::<String>::empty()) =~= Seq::<Seq<char>>::empty());
        }
        Vec::new()
    }
}

impl core::str::FromStr for UriTemplateValue {
    type Err = ();

    /// Parsing never fails: the text becomes a scalar value.
    fn from_str(s: &str) -> Result<UriTemplateValue, ()> {
        Ok(UriTemplateValue::Scalar(s.to_owned()))
    }
}

impl<'a> From<&'a str> for UriTemplateValue {
    /// A scalar value holding the given text.
    fn from(s: &'a str) -> (r: UriTemplateValue)
        ensures
            r@ == UriTemplateValueView::Scalar(s@),
    {
        UriTemplateValue::Scalar(String::from_str(s))
    }
}

impl<'a> vstd::std_specs::convert::FromSpecImpl<&'a str> for UriTemplateValue {
    open spec fn obeys_from_spec() -> bool {
        false
    }

    open spec fn from_spec(v: &'a str) -> UriTemplateValue {
        arbitrary()
    }
}

impl From<String> for UriTemplateValue {
    /// A scalar value owning the given text.
    fn from(s: String) -> (r: UriTemplateValue)
        ensures
            r@ == UriTemplateValueView::Scalar(s@),
    {
        UriTemplateValue::Scalar(s)
    }
}

impl vstd::std_specs::convert::FromSpecImpl<String> for UriTemplateValue {
    open spec fn obeys_from_spec() -> bool {
        false
    }

    open spec fn from_spec(v: String) -> UriTemplateValue {
        arbitrary()
    }
}

impl<'a, 'b> From<&'a [&'b str]> for UriTemplateValue {
    /// A list value holding the given strings, in order.
    fn from(l: &'a [&'b str]) -> (r: UriTemplateValue)
        ensures
            r@ == UriTemplateValueView::List(l@.map_values(|s: &str| s@)),
    {
        let mut v: Vec<String> = Vec::new();
        let mut i: usize = 0;
        while i < l.len()
            invariant
                i <= l@.len(),
                v@.len() == i as int,
                forall|j: int| 0 <= j < i ==> #[trigger] v@[j]@ == l@[j]@,
            decreases l@.len() - i,
        {
            v.push(String::from_str(l[i]));
            i = i + 1;
        }
        proof {
            assert(views_of_strings(v@) =~= l@.map_values(|s: &str| s@));
        }
        UriTemplateValue::List(v)
    }
}

impl<'a, 'b> vstd::std_specs::convert::FromSpecImpl<&'a [&'b str]> for UriTemplateValue {
    open spec fn obeys_from_spec() -> bool {
        false
    }

    open spec fn from_spec(v: &'a [&'b str]) -> UriTemplateValue {
        arbitrary()
    }
}

impl From<Vec<String>> for UriTemplateValue {
    /// A list value owning the given strings, in order.
    fn from(v: Vec<String>) -> (r: UriTemplateValue)
        ensures
            r@ == UriTemplateValueView::List(views_of_strings(v@)),
    {
        UriTemplateValue::List(v)
    }
}

impl vstd::std_specs::convert::FromSpecImpl<Vec<String>> for UriTemplateValue {
    open spec fn obeys_from_spec() -> bool {
        false
    }

    open spec fn from_spec(v: Vec<String>) -> UriTemplateValue {
        arbitrary()
    }
}

} // verus!
