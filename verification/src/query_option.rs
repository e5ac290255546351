//! Query options which can be used to customize responses.
//!
//! Some requests do not support all of these parameters, and using them will cause an
//! error.
use vstd::prelude::*;
use crate::api::Pairs;
use crate::decimal::{decimal, push_decimal};
use crate::option::{
    append_comma_prefixed, append_expand_entry, buffer_pairs, buffer_param, comma_buffer,
    comma_prefixed, expand_entry, field_names, lemma_comma_prefixed_append, optional_header, or_else,
    str_views,
};
use crate::resource::ResourceField;
use std::marker::PhantomData;

verus! {

/// What a query object option holds: the select and expand buffers.
pub struct QueryObjectView {
    pub select: Seq<char>,
    pub expand: Seq<char>,
}

/// The query parameters of an object option: `$select`, then `$expand`.
pub open spec fn query_object_params(v: QueryObjectView) -> Pairs {
    buffer_pairs("$select"@, v.select) + buffer_pairs("$expand"@, v.expand)
}

/// An object option after selecting fields with the given names.
pub open spec fn query_select(v: QueryObjectView, names: Seq<Seq<char>>) -> QueryObjectView {
    QueryObjectView { select: v.select + comma_prefixed(names), ..v }
}

/// Selecting fields in two calls selects them all, in order, as one call with both lists
/// does.
pub proof fn lemma_query_select_accumulates(v: QueryObjectView, a: Seq<Seq<char>>, b: Seq<Seq<char>>)
    ensures
        query_select(query_select(v, a), b) == query_select(v, a + b),
{
    lemma_comma_prefixed_append(a, b);
    assert(v.select + comma_prefixed(a) + comma_prefixed(b) =~= v.select + comma_prefixed(a + b));
}

/// Option for a request to resource object.
#[derive(Debug)]
pub struct ObjectOption<Field> {
    select_buf: String,
    expand_buf: String,
    _marker: PhantomData<Field>,
}

impl<Field> View for ObjectOption<Field> {
    type V = QueryObjectView;

    closed spec fn view(&self) -> QueryObjectView {
        QueryObjectView { select: self.select_buf@, expand: self.expand_buf@ }
    }
}

impl<Field> ObjectOption<Field> {
    #[verifier::type_invariant]
    spec fn wf(self) -> bool {
        comma_buffer(self.select_buf@) && comma_buffer(self.expand_buf@)
    }
}

impl<Field: ResourceField> ObjectOption<Field> {
    /// Create an empty (default) option.
    pub fn new() -> (r: Self)
        ensures
            r@ == (QueryObjectView { select: Seq::empty(), expand: Seq::empty() }),
    {
        ObjectOption { select_buf: String::new(), expand_buf: String::new(), _marker: PhantomData }
    }

    /// Select only some fields of the resource object.
    ///
    /// If called more than once, all fields mentioned will be selected.
    pub fn select(self, fields: &[Field]) -> (r: Self)
        ensures
            r@ == query_select(self@, field_names(fields@)),
    {
        let ghost v0 = self@;
        let mut s = self;
        let mut i: usize = 0;
        while i < fields.len()
            invariant
                i <= fields@.len(),
                s@ == query_select(v0, field_names(fields@.take(i as int))),
            decreases fields@.len() - i,
        {
            let name = fields[i].__raw_name();
            let ghost names_i = field_names(fields@.take(i as int));
            assert(field_names(fields@.take(i + 1)) =~= names_i.push(name@));
            let one = vec![name];
            assert(one@ =~= seq![name]);
            s = s.select_raw(one.as_slice());
            proof {
                assert(str_views(seq![name]) =~= seq![name@]);
                assert(seq![name@].drop_last() =~= Seq::<Seq<char>>::empty());
                assert(comma_prefixed(seq![name@]) =~= comma_prefixed(Seq::<Seq<char>>::empty()) + ","@ + name@);
                assert(names_i.push(name@).drop_last() =~= names_i);
                assert(comma_prefixed(names_i.push(name@)) == comma_prefixed(names_i) + ","@ + name@);
                assert(v0.select + comma_prefixed(names_i) + comma_prefixed(seq![name@]) =~= v0.select
                    + comma_prefixed(names_i.push(name@)));
            }
            i = i + 1;
        }
        assert(fields@.take(fields@.len() as int) =~= fields@);
        s
    }

    fn select_raw(self, fields: &[&str]) -> (r: Self)
        ensures
            r@ == query_select(self@, str_views(fields@)),
    {
        proof {
            use_type_invariant(&self);
        }
        let ObjectOption { select_buf, expand_buf, _marker } = self;
        let select_buf = append_comma_prefixed(select_buf, fields);
        ObjectOption { select_buf, expand_buf, _marker }
    }

    /// Expand a field of the resource object.
    ///
    /// If called more than once, all fields mentioned will be expanded.
    pub fn expand(self, field: Field, select_children: Option<&[&str]>) -> (r: Self)
        ensures
            r@ == (QueryObjectView {
                expand: self@.expand + expand_entry(field.raw_name_spec(), match select_children {
                    Some(c) => Some(str_views(c@)),
                    None => None,
                }),
                ..self@
            }),
    {
        self.expand_raw(field.__raw_name(), select_children)
    }

    fn expand_raw(self, field: &str, select_children: Option<&[&str]>) -> (r: Self)
        ensures
            r@ == (QueryObjectView {
                expand: self@.expand + expand_entry(field@, match select_children {
                    Some(c) => Some(str_views(c@)),
                    None => None,
                }),
                ..self@
            }),
    {
        proof {
            use_type_invariant(&self);
        }
        let ObjectOption { select_buf, expand_buf, _marker } = self;
        let expand_buf = append_expand_entry(expand_buf, field, select_children);
        ObjectOption { select_buf, expand_buf, _marker }
    }

    /// The query parameters: `$select`, then `$expand`, each when not empty.
    pub fn params(&self) -> (r: Vec<(String, String)>)
        ensures
            r.deep_view() == query_object_params(self@),
    {
        proof {
            use_type_invariant(self);
        }
        let mut pairs = buffer_param("$select", &self.select_buf);
        let mut more = buffer_param("$expand", &self.expand_buf);
        let ghost p1 = pairs.deep_view();
        let ghost p2 = more.deep_view();
        pairs.append(&mut more);
        assert(pairs.deep_view() =~= p1 + p2);
        pairs
    }
}

impl<Field: ResourceField> Default for ObjectOption<Field> {
    fn default() -> (r: Self)
        ensures
            r@ == (QueryObjectView { select: Seq::empty(), expand: Seq::empty() }),
    {
        Self::new()
    }
}

/// Specify the sorting order.
#[derive(Clone, Copy, Debug, PartialEq, Eq, Structural)]
pub enum Order {
    /// Ascending order.
    Ascending,
    /// Descending order.
    Descending,
}

/// The word for an order in `$orderby`.
pub open spec fn query_order_word(o: Order) -> Seq<char> {
    match o {
        Order::Ascending => "asc"@,
        Order::Descending => "desc"@,
    }
}

/// What a query collection option holds.
pub struct QueryCollectionView {
    pub object: QueryObjectView,
    pub order: Option<Seq<char>>,
    pub page_size: Option<Seq<char>>,
    pub get_count: Option<bool>,
}

/// Ordering by a field is sent as the field's name, a space and the order's word:
/// `asc` for ascending, `desc` for descending. The two orders are never sent alike, and
/// the field's name is read back from the front of the value.
pub proof fn lemma_query_order_values(v: QueryCollectionView, name: Seq<char>, order: Order)
    ensures
        query_order_word(Order::Ascending) == "asc"@,
        query_order_word(Order::Descending) == "desc"@,
        query_order_by(v, name, Order::Ascending).order != query_order_by(v, name, Order::Descending).order,
        query_order_by(v, name, order).order matches Some(o) && o.take(name.len() as int) == name && o[name.len() as int] == ' '
            && o.skip(name.len() + 1int) == query_order_word(order),
{
    reveal_strlit("asc");
    reveal_strlit("desc");
    reveal_strlit(" ");
    let o = name + " "@ + query_order_word(order);
    assert(o.take(name.len() as int) =~= name);
    assert(o.skip(name.len() + 1int) =~= query_order_word(order));
    let a = name + " "@ + query_order_word(Order::Ascending);
    let d = name + " "@ + query_order_word(Order::Descending);
    assert(a.len() != d.len());
}

/// A collection option after ordering by a field.
pub open spec fn query_order_by(v: QueryCollectionView, name: Seq<char>, order: Order) -> QueryCollectionView {
    QueryCollectionView { order: Some(name + " "@ + query_order_word(order)), ..v }
}

/// A collection option after setting the page size.
pub open spec fn query_page_size(v: QueryCollectionView, size: nat) -> QueryCollectionView {
    QueryCollectionView { page_size: Some(decimal(size)), ..v }
}

/// A collection option after setting whether to count.
pub open spec fn query_get_count(v: QueryCollectionView, get_count: bool) -> QueryCollectionView {
    QueryCollectionView { get_count: Some(get_count), ..v }
}

/// Of two orderings, only the last counts.
pub proof fn lemma_query_order_by_last_wins(v: QueryCollectionView, n1: Seq<char>, o1: Order, n2: Seq<char>, o2: Order)
    ensures
        query_order_by(query_order_by(v, n1, o1), n2, o2) == query_order_by(v, n2, o2),
{
}

/// Of two page sizes, only the last counts.
pub proof fn lemma_query_page_size_last_wins(v: QueryCollectionView, s1: nat, s2: nat)
    ensures
        query_page_size(query_page_size(v, s1), s2) == query_page_size(v, s2),
{
}

/// Of two count requests, only the last counts.
pub proof fn lemma_query_get_count_last_wins(v: QueryCollectionView, b1: bool, b2: bool)
    ensures
        query_get_count(query_get_count(v, b1), b2) == query_get_count(v, b2),
{
}

/// The `$count` parameter for a requested count.
pub open spec fn count_param(get_count: Option<bool>) -> Pairs {
    match get_count {
        Some(true) => seq![("$count"@, "true"@)],
        Some(false) => seq![("$count"@, "false"@)],
        None => Seq::empty(),
    }
}

/// The query parameters of a collection option: those of its object option, then
/// `$orderby`, `$top` and `$count`.
pub open spec fn query_collection_params(v: QueryCollectionView) -> Pairs {
    query_object_params(v.object) + optional_header("$orderby"@, v.order) + optional_header(
        "$top"@,
        v.page_size,
    ) + count_param(v.get_count)
}

/// One setter call on a query object option, by what it is given.
pub enum QueryObjectCall {
    /// `select` of fields with these names.
    Select(Seq<Seq<char>>),
    /// `expand` of a field, with the names of the children to select.
    Expand(Seq<char>, Option<Seq<Seq<char>>>),
}

/// A query object option after one setter call.
pub open spec fn query_object_call(v: QueryObjectView, c: QueryObjectCall) -> QueryObjectView {
    match c {
        QueryObjectCall::Select(names) => query_select(v, names),
        QueryObjectCall::Expand(f, children) => QueryObjectView { expand: v.expand + expand_entry(f, children), ..v },
    }
}

/// A query object option after setter calls, in order.
pub open spec fn query_object_calls(v: QueryObjectView, cs: Seq<QueryObjectCall>) -> QueryObjectView
    decreases cs.len(),
{
    if cs.len() == 0 {
        v
    } else {
        query_object_call(query_object_calls(v, cs.drop_last()), cs.last())
    }
}

/// The names of all fields selected by the calls, in order.
pub open spec fn query_all_selected(cs: Seq<QueryObjectCall>) -> Seq<Seq<char>>
    decreases cs.len(),
{
    if cs.len() == 0 {
        Seq::empty()
    } else {
        match cs.last() {
            QueryObjectCall::Select(names) => query_all_selected(cs.drop_last()) + names,
            _ => query_all_selected(cs.drop_last()),
        }
    }
}

/// The entries of all fields expanded by the calls, in order.
pub open spec fn query_all_expanded(cs: Seq<QueryObjectCall>) -> Seq<char>
    decreases cs.len(),
{
    if cs.len() == 0 {
        Seq::empty()
    } else {
        match cs.last() {
            QueryObjectCall::Expand(f, children) => query_all_expanded(cs.drop_last()) + expand_entry(f, children),
            _ => query_all_expanded(cs.drop_last()),
        }
    }
}

/// Whatever setter calls are made on a query object option, in whatever order: every
/// field selected or expanded by any call is selected or expanded, in the order of the
/// calls.
pub proof fn lemma_query_object_calls(v: QueryObjectView, cs: Seq<QueryObjectCall>)
    ensures
        query_object_calls(v, cs).select == v.select + comma_prefixed(query_all_selected(cs)),
        query_object_calls(v, cs).expand == v.expand + query_all_expanded(cs),
    decreases cs.len(),
{
    if cs.len() == 0 {
        assert(comma_prefixed(Seq::<Seq<char>>::empty()) =~= Seq::<char>::empty());
        assert(v.select + Seq::<char>::empty() =~= v.select);
        assert(v.expand + Seq::<char>::empty() =~= v.expand);
    } else {
        let init = cs.drop_last();
        lemma_query_object_calls(v, init);
        match cs.last() {
            QueryObjectCall::Select(names) => {
                lemma_comma_prefixed_append(query_all_selected(init), names);
                assert(v.select + comma_prefixed(query_all_selected(init)) + comma_prefixed(names) =~= v.select
                    + comma_prefixed(query_all_selected(init) + names));
            },
            QueryObjectCall::Expand(f, children) => {
                assert(v.expand + query_all_expanded(init) + expand_entry(f, children) =~= v.expand + (
                query_all_expanded(init) + expand_entry(f, children)));
            },
        }
    }
}

/// One setter call on a query collection option, by what it is given.
pub enum QueryCollectionCall {
    /// A setter of the object option inside.
    Object(QueryObjectCall),
    /// `order_by` a field with this name.
    OrderBy(Seq<char>, Order),
    /// `page_size` with a size.
    PageSize(usize),
    /// `get_count` with a flag.
    GetCount(bool),
}

/// A query collection option after one setter call.
pub open spec fn query_collection_call(v: QueryCollectionView, c: QueryCollectionCall) -> QueryCollectionView {
    match c {
        QueryCollectionCall::Object(o) => QueryCollectionView { object: query_object_call(v.object, o), ..v },
        QueryCollectionCall::OrderBy(name, order) => query_order_by(v, name, order),
        QueryCollectionCall::PageSize(size) => query_page_size(v, size as nat),
        QueryCollectionCall::GetCount(b) => query_get_count(v, b),
    }
}

/// A query collection option after setter calls, in order.
pub open spec fn query_collection_calls(v: QueryCollectionView, cs: Seq<QueryCollectionCall>) -> QueryCollectionView
    decreases cs.len(),
{
    if cs.len() == 0 {
        v
    } else {
        query_collection_call(query_collection_calls(v, cs.drop_last()), cs.last())
    }
}

/// The calls on the object option inside, in order.
pub open spec fn query_object_parts(cs: Seq<QueryCollectionCall>) -> Seq<QueryObjectCall>
    decreases cs.len(),
{
    if cs.len() == 0 {
        Seq::empty()
    } else {
        match cs.last() {
            QueryCollectionCall::Object(o) => query_object_parts(cs.drop_last()).push(o),
            _ => query_object_parts(cs.drop_last()),
        }
    }
}

/// The `$orderby` value of the last `order_by` call, if any.
pub open spec fn query_last_order(cs: Seq<QueryCollectionCall>) -> Option<Seq<char>>
    decreases cs.len(),
{
    if cs.len() == 0 {
        None
    } else {
        match cs.last() {
            QueryCollectionCall::OrderBy(name, order) => Some(name + " "@ + query_order_word(order)),
            _ => query_last_order(cs.drop_last()),
        }
    }
}

/// The `$top` value of the last `page_size` call, if any.
pub open spec fn query_last_page_size(cs: Seq<QueryCollectionCall>) -> Option<Seq<char>>
    decreases cs.len(),
{
    if cs.len() == 0 {
        None
    } else {
        match cs.last() {
            QueryCollectionCall::PageSize(size) => Some(decimal(size as nat)),
            _ => query_last_page_size(cs.drop_last()),
        }
    }
}

/// The flag of the last `get_count` call, if any.
pub open spec fn query_last_get_count(cs: Seq<QueryCollectionCall>) -> Option<bool>
    decreases cs.len(),
{
    if cs.len() == 0 {
        None
    } else {
        match cs.last() {
            QueryCollectionCall::GetCount(b) => Some(b),
            _ => query_last_get_count(cs.drop_last()),
        }
    }
}

/// Whatever setter calls are made on a query collection option, in whatever order: of
/// the calls to `order_by`, `page_size` and `get_count` only the last of each counts, and
/// the calls on the object option inside compose as they do on an object option.
pub proof fn lemma_query_collection_calls(v: QueryCollectionView, cs: Seq<QueryCollectionCall>)
    ensures
        query_collection_calls(v, cs).object == query_object_calls(v.object, query_object_parts(cs)),
        query_collection_calls(v, cs).order == or_else(query_last_order(cs), v.order),
        query_collection_calls(v, cs).page_size == or_else(query_last_page_size(cs), v.page_size),
        query_collection_calls(v, cs).get_count == or_else(query_last_get_count(cs), v.get_count),
    decreases cs.len(),
{
    if cs.len() > 0 {
        lemma_query_collection_calls(v, cs.drop_last());
        match cs.last() {
            QueryCollectionCall::Object(o) => {
                let parts = query_object_parts(cs.drop_last()).push(o);
                assert(parts.drop_last() =~= query_object_parts(cs.drop_last()));
            },
            _ => {},
        }
    }
}

/// The parameters of a query collection option hold a `$count` pair exactly when
/// `get_count` was called, then as their last pair with the value `true` or `false` as
/// given; no other pair is named `$count`.
pub proof fn lemma_query_count_param(v: QueryCollectionView)
    ensures
        v.get_count is Some ==> query_collection_params(v).len() > 0 && query_collection_params(v).last() == (
        "$count"@,
        if v.get_count == Some(true) {
            "true"@
        } else {
            "false"@
        },
        ),
        forall|i: int|
            0 <= i < query_collection_params(v).len() && #[trigger] query_collection_params(v)[i].0 == "$count"@
                ==> v.get_count is Some && i == query_collection_params(v).len() - 1,
{
    reveal_strlit("$count");
    reveal_strlit("$select");
    reveal_strlit("$expand");
    reveal_strlit("$orderby");
    reveal_strlit("$top");
    let a = query_object_params(v.object);
    let b = optional_header("$orderby"@, v.order);
    let c = optional_header("$top"@, v.page_size);
    let d = count_param(v.get_count);
    let q = query_collection_params(v);
    assert(q == a + b + c + d);
    assert forall|i: int| 0 <= i < a.len() implies a[i].0 != "$count"@ by {
        let s = buffer_pairs("$select"@, v.object.select);
        let e = buffer_pairs("$expand"@, v.object.expand);
        assert(a == s + e);
        if i < s.len() {
            assert(a[i] == s[i]);
            assert(a[i].0[1] != "$count"@[1]);
        } else {
            assert(a[i] == e[i - s.len()]);
            assert(a[i].0[1] != "$count"@[1]);
        }
    }
    assert forall|i: int| 0 <= i < q.len() && #[trigger] q[i].0 == "$count"@ implies v.get_count is Some && i == q.len() - 1 by {
        if i < a.len() {
            assert(q[i] == a[i]);
        } else if i < a.len() + b.len() {
            assert(q[i] == b[i - a.len()]);
            assert(q[i].0[1] != "$count"@[1]);
        } else if i < a.len() + b.len() + c.len() {
            assert(q[i] == c[i - a.len() - b.len()]);
            assert(q[i].0.len() != "$count"@.len());
        } else {
            assert(q[i] == d[i - a.len() - b.len() - c.len()]);
        }
    }
}

/// Option for the request to a collection of resource objects.
#[derive(Debug)]
pub struct CollectionOption<Field> {
    q: ObjectOption<Field>,
    order_buf: Option<String>,
    page_size_buf: Option<String>,
    get_count_buf: Option<bool>,
}

impl<Field> View for CollectionOption<Field> {
    type V = QueryCollectionView;

    closed spec fn view(&self) -> QueryCollectionView {
        QueryCollectionView {
            object: self.q@,
            order: self.order_buf.deep_view(),
            page_size: self.page_size_buf.deep_view(),
            get_count: self.get_count_buf,
        }
    }
}

impl<Field: ResourceField> CollectionOption<Field> {
    /// Create an empty (default) option.
    pub fn new() -> (r: Self)
        ensures
            r@ == (QueryCollectionView {
                object: QueryObjectView { select: Seq::empty(), expand: Seq::empty() },
                order: None,
                page_size: None,
                get_count: None,
            }),
    {
        CollectionOption { q: ObjectOption::new(), order_buf: None, page_size_buf: None, get_count_buf: None }
    }

    /// Select only some fields of the resource object.
    pub fn select(self, fields: &[Field]) -> (r: Self)
        ensures
            r@ == (QueryCollectionView {
                object: QueryObjectView {
                    select: self@.object.select + comma_prefixed(field_names(fields@)),
                    ..self@.object
                },
                ..self@
            }),
    {
        let mut s = self;
        s.q = s.q.select(fields);
        s
    }

    /// Expand a field of the resource object.
    pub fn expand(self, field: Field, select_children: Option<&[&str]>) -> (r: Self)
        ensures
            r@ == (QueryCollectionView {
                object: QueryObjectView {
                    expand: self@.object.expand + expand_entry(field.raw_name_spec(), match select_children {
                        Some(c) => Some(str_views(c@)),
                        None => None,
                    }),
                    ..self@.object
                },
                ..self@
            }),
    {
        let mut s = self;
        s.q = s.q.expand(field, select_children);
        s
    }

    /// Specify the sort order of the items responsed.
    ///
    /// If called more than once, only the last call make sense.
    pub fn order_by(self, field: Field, order: Order) -> (r: Self)
        ensures
            r@ == query_order_by(self@, field.raw_name_spec(), order),
    {
        let word = match order {
            Order::Ascending => "asc",
            Order::Descending => "desc",
        };
        let mut buf = field.__raw_name().to_owned();
        buf.append(" ");
        buf.append(word);
        let mut s = self;
        s.order_buf = Some(buf);
        s
    }

    /// Specify the number of items per page.
    ///
    /// If called more than once, only the last call make sense.
    pub fn page_size(self, size: usize) -> (r: Self)
        ensures
            r@ == query_page_size(self@, size as nat),
    {
        let mut buf = String::new();
        push_decimal(&mut buf, size as u64);
        assert(buf@ =~= decimal(size as nat));
        let mut s = self;
        s.page_size_buf = Some(buf);
        s
    }

    /// Specify to get the number of all items.
    ///
    /// If called more than once, only the last call make sense. Setting it when calling
    /// an unsupported API will cause HTTP 400 Client Error.
    pub fn get_count(self, get_count: bool) -> (r: Self)
        ensures
            r@ == query_get_count(self@, get_count),
    {
        let mut s = self;
        s.get_count_buf = Some(get_count);
        s
    }

    /// The query parameters: those of the object option, then `$orderby`, `$top` and
    /// `$count`.
    pub fn params(&self) -> (r: Vec<(String, String)>)
        ensures
            r.deep_view() == query_collection_params(self@),
    {
        let mut pairs = self.q.params();
        let ghost p0 = pairs.deep_view();
        let ghost v = self@;
        if let Some(s) = &self.order_buf {
            pairs.push(("$orderby".to_owned(), s.clone()));
        }
        if let Some(s) = &self.page_size_buf {
            pairs.push(("$top".to_owned(), s.clone()));
        }
        match self.get_count_buf {
            Some(true) => pairs.push(("$count".to_owned(), "true".to_owned())),
            Some(false) => pairs.push(("$count".to_owned(), "false".to_owned())),
            None => {},
        }
        assert(pairs.deep_view() =~= query_collection_params(v));
        pairs
    }
}

impl<Field: ResourceField> Default for CollectionOption<Field> {
    fn default() -> (r: Self)
        ensures
            r@ == (QueryCollectionView {
                object: QueryObjectView { select: Seq::empty(), expand: Seq::empty() },
                order: None,
                page_size: None,
                get_count: None,
            }),
    {
        Self::new()
    }
}

} // verus!
