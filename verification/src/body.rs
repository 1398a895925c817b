//! The property bag sent as the body of an upstream request: named text
//! fields, each name at most once.

use vstd::prelude::*;

verus! {

/// A field as mathematics sees it: its name and its text.
pub type FieldView = (Seq<char>, Seq<char>);

/// Some field of `fields` is called `name`.
pub open spec fn has_name(fields: Seq<FieldView>, name: Seq<char>) -> bool {
    exists|i: int| 0 <= i < fields.len() && (#[trigger] fields[i]).0 == name
}

/// No two fields share a name.
pub open spec fn distinct_names(fields: Seq<FieldView>) -> bool {
    forall|i: int, j: int|
        0 <= i < j < fields.len() ==> (#[trigger] fields[i]).0 != (#[trigger] fields[j]).0
}

/// The mapping from names to texts that a list of fields stands for.
pub open spec fn fields_map(fields: Seq<FieldView>) -> Map<Seq<char>, Seq<char>> {
    Map::new(
        |name: Seq<char>| has_name(fields, name),
        |name: Seq<char>|
            fields[choose|i: int| 0 <= i < fields.len() && (#[trigger] fields[i]).0 == name].1,
    )
}

/// Where the field called `name` stands.
pub open spec fn name_index(fields: Seq<FieldView>, name: Seq<char>) -> int {
    choose|i: int| 0 <= i < fields.len() && (#[trigger] fields[i]).0 == name
}

/// The fields after `name` was set to `value`: a field of that name keeps
/// its place and takes the new text, a new name goes to the end.
pub open spec fn with_field(fields: Seq<FieldView>, name: Seq<char>, value: Seq<char>) -> Seq<
    FieldView,
> {
    if has_name(fields, name) {
        fields.update(name_index(fields, name), (name, value))
    } else {
        fields.push((name, value))
    }
}

/// With distinct names, each field is found under its own name.
pub proof fn lemma_fields_map_at(fields: Seq<FieldView>, i: int)
    requires
        distinct_names(fields),
        0 <= i < fields.len(),
    ensures
        fields_map(fields).contains_key(fields[i].0),
        fields_map(fields)[fields[i].0] == fields[i].1,
{
    let name = fields[i].0;
    let j = choose|j: int| 0 <= j < fields.len() && (#[trigger] fields[j]).0 == name;
    assert(j == i);
}

/// Replacing the text of the field at `i` is an insertion under its name.
pub proof fn lemma_fields_map_update(fields: Seq<FieldView>, i: int, value: Seq<char>)
    requires
        distinct_names(fields),
        0 <= i < fields.len(),
    ensures
        distinct_names(fields.update(i, (fields[i].0, value))),
        fields_map(fields.update(i, (fields[i].0, value))) == fields_map(fields).insert(
            fields[i].0,
            value,
        ),
{
    let name = fields[i].0;
    let after = fields.update(i, (name, value));
    assert(distinct_names(after)) by {
        assert forall|a: int, b: int| 0 <= a < b < after.len() implies (#[trigger] after[a]).0 != (
        #[trigger] after[b]).0 by {
            assert(after[a].0 == fields[a].0);
            assert(after[b].0 == fields[b].0);
        }
    }
    let lhs = fields_map(after);
    let rhs = fields_map(fields).insert(name, value);
    assert forall|n: Seq<char>| lhs.contains_key(n) <==> rhs.contains_key(n) by {
        if lhs.contains_key(n) {
            let a = choose|a: int| 0 <= a < after.len() && (#[trigger] after[a]).0 == n;
            assert(fields[a].0 == n);
        }
        if rhs.contains_key(n) {
            if n == name {
                assert(after[i].0 == n);
            } else {
                let a = choose|a: int| 0 <= a < fields.len() && (#[trigger] fields[a]).0 == n;
                assert(after[a].0 == n);
            }
        }
    }
    assert forall|n: Seq<char>| lhs.contains_key(n) implies lhs[n] == rhs[n] by {
        let a = choose|a: int| 0 <= a < after.len() && (#[trigger] after[a]).0 == n;
        lemma_fields_map_at(after, a);
        if a != i {
            assert(fields[a].0 == n);
            lemma_fields_map_at(fields, a);
        }
    }
    assert(lhs =~= rhs);
}

/// Appending a field under a new name is an insertion under that name.
pub proof fn lemma_fields_map_push(fields: Seq<FieldView>, name: Seq<char>, value: Seq<char>)
    requires
        distinct_names(fields),
        !has_name(fields, name),
    ensures
        distinct_names(fields.push((name, value))),
        fields_map(fields.push((name, value))) == fields_map(fields).insert(name, value),
{
    let after = fields.push((name, value));
    assert(distinct_names(after)) by {
        assert forall|a: int, b: int| 0 <= a < b < after.len() implies (#[trigger] after[a]).0 != (
        #[trigger] after[b]).0 by {
            assert(after[a] == fields[a]);
            if b < fields.len() {
                assert(after[b] == fields[b]);
            }
        }
    }
    let lhs = fields_map(after);
    let rhs = fields_map(fields).insert(name, value);
    assert forall|n: Seq<char>| lhs.contains_key(n) <==> rhs.contains_key(n) by {
        if lhs.contains_key(n) {
            let a = choose|a: int| 0 <= a < after.len() && (#[trigger] after[a]).0 == n;
            if a < fields.len() {
                assert(fields[a].0 == n);
            }
        }
        if rhs.contains_key(n) {
            if n == name {
                assert(after[fields.len() as int].0 == n);
            } else {
                let a = choose|a: int| 0 <= a < fields.len() && (#[trigger] fields[a]).0 == n;
                assert(after[a].0 == n);
            }
        }
    }
    assert forall|n: Seq<char>| lhs.contains_key(n) implies lhs[n] == rhs[n] by {
        let a = choose|a: int| 0 <= a < after.len() && (#[trigger] after[a]).0 == n;
        lemma_fields_map_at(after, a);
        if a < fields.len() {
            assert(fields[a] == after[a]);
            lemma_fields_map_at(fields, a);
        }
    }
    assert(lhs =~= rhs);
}

/// With distinct names there are as many names as fields.
pub proof fn lemma_fields_map_len(fields: Seq<FieldView>)
    requires
        distinct_names(fields),
    ensures
        fields_map(fields).dom().finite(),
        fields_map(fields).dom().len() == fields.len(),
    decreases fields.len(),
{
    if fields.len() == 0 {
        assert(fields_map(fields).dom() =~= Set::<Seq<char>>::empty());
    } else {
        let front = fields.drop_last();
        let last = fields.last();
        assert(distinct_names(front)) by {
            assert forall|a: int, b: int| 0 <= a < b < front.len() implies (
            #[trigger] front[a]).0 != (#[trigger] front[b]).0 by {
                assert(front[a] == fields[a]);
                assert(front[b] == fields[b]);
            }
        }
        assert(!has_name(front, last.0)) by {
            if has_name(front, last.0) {
                let a = choose|a: int| 0 <= a < front.len() && (#[trigger] front[a]).0 == last.0;
                assert(fields[a] == front[a]);
                assert(fields[fields.len() - 1] == last);
            }
        }
        lemma_fields_map_len(front);
        lemma_fields_map_push(front, last.0, last.1);
        assert(front.push((last.0, last.1)) =~= fields);
        assert(fields_map(fields).dom() =~= fields_map(front).dom().insert(last.0));
    }
}

/// Where the field called `name` stands, if there is one.
fn position(entries: &Vec<(String, String)>, name: &str) -> (found: Option<usize>)
    ensures
        match found {
            Some(i) => i < entries.len() && entries.deep_view()[i as int].0 == name@,
            None => !has_name(entries.deep_view(), name@),
        },
{
    let key = name.to_owned();
    let mut i: usize = 0;
    while i < entries.len()
        invariant
            i <= entries.len(),
            key@ == name@,
            forall|j: int| 0 <= j < i ==> (#[trigger] entries.deep_view()[j]).0 != name@,
        decreases entries.len() - i,
    {
        if entries[i].0 == key {
            return Some(i);
        }
        i += 1;
    }
    None
}

/// The body of an upstream request.
///
/// Its view is the mapping from field names to texts. Inserting under a name
/// that is already present replaces the text, so no name ever occurs twice.
#[derive(Debug)]
pub struct RequestBody {
    entries: Vec<(String, String)>,
}

impl View for RequestBody {
    type V = Map<Seq<char>, Seq<char>>;

    open spec fn view(&self) -> Map<Seq<char>, Seq<char>> {
        fields_map(self.fields())
    }
}

impl RequestBody {
    /// The fields in the order in which their names first came in.
    pub closed spec fn fields(&self) -> Seq<FieldView> {
        self.entries.deep_view()
    }

    #[verifier::type_invariant]
    spec fn names_are_distinct(&self) -> bool {
        distinct_names(self.entries.deep_view())
    }

    /// The body without any field.
    pub fn new() -> (body: Self)
        ensures
            body@ == Map::<Seq<char>, Seq<char>>::empty(),
            body.fields() == Seq::<FieldView>::empty(),
    {
        let body = RequestBody { entries: Vec::new() };
        assert(body.fields() =~= Seq::<FieldView>::empty());
        assert(body@ =~= Map::<Seq<char>, Seq<char>>::empty());
        body
    }

    /// Sets the field `name` to `value` and hands back the text it had
    /// before, if it was there.
    pub fn insert(&mut self, name: &str, value: &str) -> (previous: Option<String>)
        ensures
            final(self)@ == old(self)@.insert(name@, value@),
            final(self).fields() == with_field(old(self).fields(), name@, value@),
            old(self)@.contains_key(name@) ==> previous is Some && previous->0@ == old(self)@[name@],
            !old(self)@.contains_key(name@) ==> previous is None,
    {
        proof {
            use_type_invariant(&*self);
        }
        let ghost before = self.entries.deep_view();
        let at = position(&self.entries, name);
        let mut entries: Vec<(String, String)> = Vec::new();
        assert(entries.deep_view() =~= Seq::<FieldView>::empty());
        core::mem::swap(&mut self.entries, &mut entries);
        let previous = match at {
            Some(i) => {
                let previous = entries[i].1.clone();
                proof {
                    lemma_fields_map_at(before, i as int);
                    lemma_fields_map_update(before, i as int, value@);
                    assert(name_index(before, name@) == i);
                }
                entries.set(i, (name.to_owned(), value.to_owned()));
                assert(entries.deep_view() =~= before.update(i as int, (name@, value@)));
                Some(previous)
            },
            None => {
                proof {
                    lemma_fields_map_push(before, name@, value@);
                }
                entries.push((name.to_owned(), value.to_owned()));
                assert(entries.deep_view() =~= before.push((name@, value@)));
                None
            },
        };
        core::mem::swap(&mut self.entries, &mut entries);
        previous
    }

    /// The text of the field `name`, if the body has one.
    pub fn get(&self, name: &str) -> (found: Option<&String>)
        ensures
            self@.contains_key(name@) ==> found is Some && found->0@ == self@[name@],
            !self@.contains_key(name@) ==> found is None,
    {
        proof {
            use_type_invariant(self);
        }
        match position(&self.entries, name) {
            Some(i) => {
                proof {
                    lemma_fields_map_at(self.entries.deep_view(), i as int);
                }
                Some(&self.entries[i].1)
            },
            None => None,
        }
    }

    /// How many fields the body has.
    pub fn len(&self) -> (count: usize)
        ensures
            self@.dom().finite(),
            count == self@.dom().len(),
    {
        proof {
            use_type_invariant(self);
            lemma_fields_map_len(self.entries.deep_view());
        }
        self.entries.len()
    }

    /// Whether the body has no field at all.
    pub fn is_empty(&self) -> (empty: bool)
        ensures
            empty == (self@ == Map::<Seq<char>, Seq<char>>::empty()),
    {
        proof {
            use_type_invariant(self);
            lemma_fields_map_len(self.entries.deep_view());
            if self.entries.len() == 0 {
                assert(self@ =~= Map::<Seq<char>, Seq<char>>::empty());
            } else {
                lemma_fields_map_at(self.entries.deep_view(), 0);
            }
        }
        self.entries.len() == 0
    }

    /// The fields as pairs of name and text, for whoever writes them out.
    /// Together they are exactly the mapping that the body stands for.
    pub fn entries(&self) -> (pairs: &Vec<(String, String)>)
        ensures
            pairs.deep_view() == self.fields(),
            distinct_names(self.fields()),
            fields_map(pairs.deep_view()) == self@,
    {
        proof {
            use_type_invariant(self);
        }
        &self.entries
    }
}

} // verus!
