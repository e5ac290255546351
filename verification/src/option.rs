//! Configurable options which can be used to customize API behaviors or responses.
//!
//! Some requests do not support all of these parameters, and using them will cause an
//! error.
use vstd::prelude::*;
use crate::api::{Pairs, RequestBuilder, with_headers, with_query};
use crate::decimal::{decimal, push_decimal};
use crate::resource::{ResourceField, Tag};
use crate::util::ConflictBehavior;
use std::marker::PhantomData;

verus! {

/// The names of fields, in order.
pub open spec fn field_names<F: ResourceField>(fields: Seq<F>) -> Seq<Seq<char>> {
    fields.map_values(|f: F| f.raw_name_spec())
}

/// The views of strings, in order.
pub open spec fn str_views(s: Seq<&str>) -> Seq<Seq<char>> {
    s.map_values(|x: &str| x@)
}

/// Each name preceded by a comma: `,a,b`.
pub open spec fn comma_prefixed(names: Seq<Seq<char>>) -> Seq<char>
    decreases names.len(),
{
    if names.len() == 0 {
        Seq::empty()
    } else {
        comma_prefixed(names.drop_last()) + ","@ + names.last()
    }
}

/// Each name followed by a comma: `a,b,`.
pub open spec fn comma_suffixed(names: Seq<Seq<char>>) -> Seq<char>
    decreases names.len(),
{
    if names.len() == 0 {
        Seq::empty()
    } else {
        comma_suffixed(names.drop_last()) + names.last() + ","@
    }
}

/// The entry that expanding `field` adds to the expand buffer: `,field`, followed by
/// `($select=a,b,)` when children are selected.
pub open spec fn expand_entry(field: Seq<char>, children: Option<Seq<Seq<char>>>) -> Seq<char> {
    match children {
        None => ","@ + field,
        Some(c) => ","@ + field + "($select="@ + comma_suffixed(c) + ")"@,
    }
}

/// A buffer of comma-prefixed entries.
pub open spec fn comma_buffer(buf: Seq<char>) -> bool {
    buf.len() == 0 || buf[0] == ','
}

/// The query pair for a comma-prefixed buffer: none when it is empty, else its text
/// after the leading comma.
pub open spec fn buffer_pairs(key: Seq<char>, buf: Seq<char>) -> Pairs {
    if buf.len() > 0 {
        seq![(key, buf.drop_first())]
    } else {
        Seq::empty()
    }
}

/// A header pair when the value is present.
pub open spec fn optional_header(name: Seq<char>, value: Option<Seq<char>>) -> Pairs {
    match value {
        Some(v) => seq![(name, v)],
        None => Seq::empty(),
    }
}

/// Precondition tags of a request.
pub struct AccessView {
    pub if_match: Option<Seq<char>>,
    pub if_none_match: Option<Seq<char>>,
}

/// The headers for precondition tags: `if-match`, then `if-none-match`.
pub open spec fn access_headers(a: AccessView) -> Pairs {
    optional_header("if-match"@, a.if_match) + optional_header("if-none-match"@, a.if_none_match)
}

pub(crate) proof fn lemma_comma_prefixed_append(a: Seq<Seq<char>>, b: Seq<Seq<char>>)
    ensures
        comma_prefixed(a + b) == comma_prefixed(a) + comma_prefixed(b),
    decreases b.len(),
{
    if b.len() == 0 {
        assert(a + b =~= a);
        assert(comma_prefixed(b) =~= Seq::<char>::empty());
        assert(comma_prefixed(a) + comma_prefixed(b) =~= comma_prefixed(a));
    } else {
        lemma_comma_prefixed_append(a, b.drop_last());
        assert((a + b).drop_last() =~= a + b.drop_last());
        assert((a + b).last() == b.last());
        assert(comma_prefixed(a + b) =~= comma_prefixed(a) + comma_prefixed(b));
    }
}

#[derive(Debug, Default)]
struct AccessOption {
    if_match: Option<String>,
    if_none_match: Option<String>,
}

impl View for AccessOption {
    type V = AccessView;

    closed spec fn view(&self) -> AccessView {
        AccessView { if_match: self.if_match.deep_view(), if_none_match: self.if_none_match.deep_view() }
    }
}

impl AccessOption {
    fn new() -> (r: Self)
        ensures
            r@ == (AccessView { if_match: None, if_none_match: None }),
    {
        AccessOption { if_match: None, if_none_match: None }
    }

    fn if_match(self, tag: &Tag) -> (r: Self)
        ensures
            r@ == (AccessView { if_match: Some(tag@), ..self@ }),
    {
        let mut s = self;
        s.if_match = Some(tag.0.clone());
        s
    }

    fn if_none_match(self, tag: &Tag) -> (r: Self)
        ensures
            r@ == (AccessView { if_none_match: Some(tag@), ..self@ }),
    {
        let mut s = self;
        s.if_none_match = Some(tag.0.clone());
        s
    }

    fn trans(self, req: RequestBuilder) -> (r: RequestBuilder)
        ensures
            r@ == with_headers(req@, access_headers(self@)),
    {
        let ghost a = self@;
        let mut pairs: Vec<(String, String)> = Vec::new();
        if let Some(v) = self.if_match {
            pairs.push(("if-match".to_owned(), v));
        }
        if let Some(v) = self.if_none_match {
            pairs.push(("if-none-match".to_owned(), v));
        }
        assert(pairs.deep_view() =~= access_headers(a));
        req.headers(pairs)
    }
}

/// What an object option holds: precondition tags and the select and expand buffers.
pub struct ObjectOptionView {
    pub access: AccessView,
    pub select: Seq<char>,
    pub expand: Seq<char>,
}

/// The query pairs of an object option: `$select`, then `$expand`.
pub open spec fn object_query(v: ObjectOptionView) -> Pairs {
    buffer_pairs("$select"@, v.select) + buffer_pairs("$expand"@, v.expand)
}

/// The empty object option.
pub open spec fn empty_object_option() -> ObjectOptionView {
    ObjectOptionView {
        access: AccessView { if_match: None, if_none_match: None },
        select: Seq::empty(),
        expand: Seq::empty(),
    }
}

/// An object option after selecting fields with the given names.
pub open spec fn object_select(v: ObjectOptionView, names: Seq<Seq<char>>) -> ObjectOptionView {
    ObjectOptionView { select: v.select + comma_prefixed(names), ..v }
}

/// An object option after expanding a field.
pub open spec fn object_expand(v: ObjectOptionView, field: Seq<char>, children: Option<Seq<Seq<char>>>) -> ObjectOptionView {
    ObjectOptionView { expand: v.expand + expand_entry(field, children), ..v }
}

/// Option for GET-like requests to one resource object.
#[derive(Debug)]
pub struct ObjectOption<Field> {
    access_opt: AccessOption,
    select_buf: String,
    expand_buf: String,
    _marker: PhantomData<Field>,
}

impl<Field> View for ObjectOption<Field> {
    type V = ObjectOptionView;

    closed spec fn view(&self) -> ObjectOptionView {
        ObjectOptionView { access: self.access_opt@, select: self.select_buf@, expand: self.expand_buf@ }
    }
}

impl<Field> ObjectOption<Field> {
    #[verifier::type_invariant]
    spec fn wf(self) -> bool {
        comma_buffer(self.select_buf@) && comma_buffer(self.expand_buf@)
    }
}

impl<Field: ResourceField> ObjectOption<Field> {
    /// Create an empty (default) option.
    pub fn new() -> (r: Self)
        ensures
            r@ == empty_object_option(),
    {
        ObjectOption {
            access_opt: AccessOption::new(),
            select_buf: String::new(),
            expand_buf: String::new(),
            _marker: PhantomData,
        }
    }

    /// Only response if the object matches the `tag`.
    ///
    /// Will cause HTTP 412 Precondition Failed otherwise. It will add `If-Match` to the
    /// request header.
    pub fn if_match(self, tag: &Tag) -> (r: Self)
        ensures
            r@ == (ObjectOptionView {
                access: AccessView { if_match: Some(tag@), ..self@.access },
                ..self@
            }),
    {
        proof {
            use_type_invariant(&self);
        }
        let mut s = self;
        s.access_opt = s.access_opt.if_match(tag);
        s
    }

    /// Only response if the object does not match the `tag`.
    ///
    /// Will cause the relative API returns `None` otherwise. This will add
    /// `If-None-Match` to the request header.
    pub fn if_none_match(self, tag: &Tag) -> (r: Self)
        ensures
            r@ == (ObjectOptionView {
                access: AccessView { if_none_match: Some(tag@), ..self@.access },
                ..self@
            }),
    {
        proof {
            use_type_invariant(&self);
        }
        let mut s = self;
        s.access_opt = s.access_opt.if_none_match(tag);
        s
    }

    /// Select only some fields of the resource object.
    ///
    /// If called more than once, all fields mentioned will be selected.
    pub fn select(self, fields: &[Field]) -> (r: Self)
        ensures
            r@ == object_select(self@, field_names(fields@)),
    {
        let ghost v0 = self@;
        let mut s = self;
        let mut i: usize = 0;
        while i < fields.len()
            invariant
                i <= fields@.len(),
                s@ == object_select(v0, field_names(fields@.take(i as int))),
            decreases fields@.len() - i,
        {
            let name = fields[i].__raw_name();
            let ghost names_i = field_names(fields@.take(i as int));
            assert(field_names(fields@.take(i + 1)) =~= names_i.push(name@));
            let one = vec![name];
            assert(one@ =~= seq![name]);
            s = s.select_raw(one.as_slice());
            proof {
                assert(str_views(seq![name]) =~= seq![name@]);
                assert(seq![name@].drop_last() =~= Seq::<Seq<char>>::empty());
                assert(comma_prefixed(seq![name@]) =~= comma_prefixed(Seq::<Seq<char>>::empty()) + ","@ + name@);
                assert(names_i.push(name@).drop_last() =~= names_i);
                assert(comma_prefixed(names_i.push(name@)) == comma_prefixed(names_i) + ","@ + name@);
                assert(v0.select + comma_prefixed(names_i) + comma_prefixed(seq![name@]) =~= v0.select
                    + comma_prefixed(names_i.push(name@)));
            }
            i = i + 1;
        }
        assert(fields@.take(fields@.len() as int) =~= fields@);
        s
    }

    fn select_raw(self, fields: &[&str]) -> (r: Self)
        ensures
            r@ == object_select(self@, str_views(fields@)),
    {
        proof {
            use_type_invariant(&self);
        }
        let ObjectOption { access_opt, select_buf, expand_buf, _marker } = self;
        let select_buf = append_comma_prefixed(select_buf, fields);
        ObjectOption { access_opt, select_buf, expand_buf, _marker }
    }

    /// Expand a field of the resource object.
    ///
    /// If called more than once, all fields mentioned will be expanded.
    /// `select_children` should be raw camelCase field names.
    pub fn expand(self, field: Field, select_children: Option<&[&str]>) -> (r: Self)
        ensures
            r@ == object_expand(self@, field.raw_name_spec(), match select_children {
                Some(c) => Some(str_views(c@)),
                None => None,
            }),
    {
        self.expand_raw(field.__raw_name(), select_children)
    }

    fn expand_raw(self, field: &str, select_children: Option<&[&str]>) -> (r: Self)
        ensures
            r@ == object_expand(self@, field@, match select_children {
                Some(c) => Some(str_views(c@)),
                None => None,
            }),
    {
        proof {
            use_type_invariant(&self);
        }
        let ObjectOption { access_opt, select_buf, expand_buf, _marker } = self;
        let expand_buf = append_expand_entry(expand_buf, field, select_children);
        ObjectOption { access_opt, select_buf, expand_buf, _marker }
    }

    /// Apply the option to a request: precondition headers, then the `$select` and
    /// `$expand` query pairs.
    pub fn trans(self, req: RequestBuilder) -> (r: RequestBuilder)
        ensures
            r@ == with_query(with_headers(req@, access_headers(self@.access)), object_query(self@)),
    {
        proof {
            use_type_invariant(&self);
        }
        let ghost v = self@;
        let req = self.access_opt.trans(req);
        let pairs = buffer_param("$select", &self.select_buf);
        let mut more = buffer_param("$expand", &self.expand_buf);
        let mut pairs = pairs;
        let ghost p1 = pairs.deep_view();
        let ghost p2 = more.deep_view();
        pairs.append(&mut more);
        assert(pairs.deep_view() =~= p1 + p2);
        req.query(pairs)
    }
}

/// Appends `,name` for each name to a comma-prefixed buffer.
pub(crate) fn append_comma_prefixed(buf: String, names: &[&str]) -> (r: String)
    requires
        comma_buffer(buf@),
    ensures
        r@ == buf@ + comma_prefixed(str_views(names@)),
        comma_buffer(r@),
{
    let ghost b0 = buf@;
    let mut buf = buf;
    let mut i: usize = 0;
    while i < names.len()
        invariant
            i <= names@.len(),
            buf@ == b0 + comma_prefixed(str_views(names@.take(i as int))),
            comma_buffer(buf@),
        decreases names@.len() - i,
    {
        let ghost names_i = str_views(names@.take(i as int));
        assert(str_views(names@.take(i + 1)) =~= names_i.push(names@[i as int]@));
        assert(names_i.push(names@[i as int]@).drop_last() =~= names_i);
        let ghost old_buf = buf@;
        buf.append(",");
        buf.append(names[i]);
        proof {
            reveal_strlit(",");
            assert(buf@ == old_buf + ","@ + names@[i as int]@);
            if old_buf.len() > 0 {
                assert(buf@[0] == old_buf[0]);
            } else {
                assert(buf@[0] == ","@[0]);
            }
            assert(buf@ =~= b0 + comma_prefixed(names_i.push(names@[i as int]@)));
        }
        i = i + 1;
    }
    assert(names@.take(names@.len() as int) =~= names@);
    buf
}

/// Appends the expand entry of `field` to a comma-prefixed buffer.
pub(crate) fn append_expand_entry(buf: String, field: &str, select_children: Option<&[&str]>) -> (r: String)
    requires
        comma_buffer(buf@),
    ensures
        r@ == buf@ + expand_entry(field@, match select_children {
            Some(c) => Some(str_views(c@)),
            None => None,
        }),
        comma_buffer(r@),
{
    proof {
        reveal_strlit(",");
    }
    let ghost b0 = buf@;
    let mut buf = buf;
    buf.append(",");
    buf.append(field);
    let ghost first = buf@[0];
    assert(first == ',') by {
        assert(buf@ == b0 + ","@ + field@);
        if b0.len() > 0 {
            assert(buf@[0] == b0[0]);
        } else {
            assert(buf@[0] == ","@[0]);
        }
    }
    if let Some(children) = select_children {
        let ghost head = buf@;
        buf.append("($select=");
        let mut i: usize = 0;
        while i < children.len()
            invariant
                i <= children@.len(),
                buf@ == head + "($select="@ + comma_suffixed(str_views(children@.take(i as int))),
                head.len() > 0,
                head[0] == first,
            decreases children@.len() - i,
        {
            let ghost names_i = str_views(children@.take(i as int));
            assert(str_views(children@.take(i + 1)) =~= names_i.push(children@[i as int]@));
            assert(names_i.push(children@[i as int]@).drop_last() =~= names_i);
            buf.append(children[i]);
            buf.append(",");
            assert(buf@ =~= head + "($select="@ + comma_suffixed(names_i.push(children@[i as int]@)));
            i = i + 1;
        }
        buf.append(")");
        assert(children@.take(children@.len() as int) =~= children@);
        assert(buf@ =~= b0 + expand_entry(field@, Some(str_views(children@))));
        assert(buf@[0] == head[0]);
    } else {
        assert(buf@ =~= b0 + expand_entry(field@, None));
    }
    buf
}

/// The query pair for a comma-prefixed buffer.
pub(crate) fn buffer_param(key: &str, buf: &String) -> (r: Vec<(String, String)>)
    requires
        comma_buffer(buf@),
    ensures
        r.deep_view() == buffer_pairs(key@, buf@),
{
    let n = buf.as_str().unicode_len();
    if n > 0 {
        let rest = buf.as_str().substring_char(1, n);
        let r = vec![(key.to_owned(), rest.to_owned())];
        assert(rest@ =~= buf@.drop_first());
        assert(r.deep_view() =~= buffer_pairs(key@, buf@));
        r
    } else {
        let r: Vec<(String, String)> = Vec::new();
        assert(r.deep_view() =~= buffer_pairs(key@, buf@));
        r
    }
}

impl<Field: ResourceField> Default for ObjectOption<Field> {
    fn default() -> (r: Self)
        ensures
            r@ == empty_object_option(),
    {
        Self::new()
    }
}

/// Specify the sorting order.
#[derive(Clone, Copy, Debug, PartialEq, Eq, Structural)]
pub enum Order {
    /// Ascending order.
    Ascending,
    /// Descending order.
    Descending,
}

/// The word for an order in `$orderby`.
pub open spec fn order_word(o: Order) -> Seq<char> {
    match o {
        Order::Ascending => "asc"@,
        Order::Descending => "desc"@,
    }
}

/// What a collection option holds.
pub struct CollectionOptionView {
    pub object: ObjectOptionView,
    pub order: Option<Seq<char>>,
    pub page_size: Option<Seq<char>>,
    pub get_count: bool,
}

/// The empty collection option.
pub open spec fn empty_collection_option() -> CollectionOptionView {
    CollectionOptionView { object: empty_object_option(), order: None, page_size: None, get_count: false }
}

/// The `$orderby` value for a field name and an order.
pub open spec fn order_value(name: Seq<char>, order: Order) -> Seq<char> {
    name + " "@ + order_word(order)
}

/// Ordering by a field is sent as the field's name, a space and the order's word:
/// `asc` for ascending, `desc` for descending. The two orders are never sent alike, and
/// the field's name is read back from the front of the value.
pub proof fn lemma_order_values(name: Seq<char>, order: Order)
    ensures
        order_word(Order::Ascending) == "asc"@,
        order_word(Order::Descending) == "desc"@,
        order_value(name, Order::Ascending) != order_value(name, Order::Descending),
        order_value(name, order).take(name.len() as int) == name,
        order_value(name, order)[name.len() as int] == ' ',
        order_value(name, order).skip(name.len() + 1int) == order_word(order),
{
    reveal_strlit("asc");
    reveal_strlit("desc");
    reveal_strlit(" ");
    let v = order_value(name, order);
    assert(v.take(name.len() as int) =~= name);
    assert(v.skip(name.len() + 1int) =~= order_word(order));
    assert(order_value(name, Order::Ascending).len() != order_value(name, Order::Descending).len());
}

/// A collection option after ordering by a field.
pub open spec fn collection_order_by(v: CollectionOptionView, name: Seq<char>, order: Order) -> CollectionOptionView {
    CollectionOptionView { order: Some(order_value(name, order)), ..v }
}

/// A collection option after setting the page size.
pub open spec fn collection_page_size(v: CollectionOptionView, size: nat) -> CollectionOptionView {
    CollectionOptionView { page_size: Some(decimal(size)), ..v }
}

/// A collection option after setting whether to count.
pub open spec fn collection_get_count(v: CollectionOptionView, get_count: bool) -> CollectionOptionView {
    CollectionOptionView { get_count, ..v }
}

/// Selecting fields in two calls selects them all, in order, as one call with both lists
/// does.
pub proof fn lemma_select_accumulates(v: ObjectOptionView, a: Seq<Seq<char>>, b: Seq<Seq<char>>)
    ensures
        object_select(object_select(v, a), b) == object_select(v, a + b),
{
    lemma_comma_prefixed_append(a, b);
    assert(v.select + comma_prefixed(a) + comma_prefixed(b) =~= v.select + comma_prefixed(a + b));
}

/// Expanding fields in two calls expands them both, in order.
pub proof fn lemma_expand_accumulates(
    v: ObjectOptionView,
    f1: Seq<char>,
    c1: Option<Seq<Seq<char>>>,
    f2: Seq<char>,
    c2: Option<Seq<Seq<char>>>,
)
    ensures
        object_expand(object_expand(v, f1, c1), f2, c2).expand == v.expand + expand_entry(f1, c1)
            + expand_entry(f2, c2),
{
}

/// The names separated by commas: `a,b`.
pub open spec fn comma_joined(names: Seq<Seq<char>>) -> Seq<char>
    decreases names.len(),
{
    if names.len() <= 1 {
        if names.len() == 1 {
            names[0]
        } else {
            Seq::empty()
        }
    } else {
        comma_joined(names.drop_last()) + ","@ + names.last()
    }
}

proof fn lemma_comma_prefixed_joined(names: Seq<Seq<char>>)
    requires
        names.len() > 0,
    ensures
        comma_prefixed(names).len() > 0,
        comma_prefixed(names).drop_first() == comma_joined(names),
    decreases names.len(),
{
    reveal_strlit(",");
    let init = names.drop_last();
    if init.len() == 0 {
        assert(comma_prefixed(init) =~= Seq::<char>::empty());
        assert(comma_prefixed(names).drop_first() =~= names.last());
        assert(names.last() == names[0]);
    } else {
        lemma_comma_prefixed_joined(init);
        let x = comma_prefixed(init);
        assert((x + ","@ + names.last()).drop_first() =~= x.drop_first() + ","@ + names.last());
    }
}

/// Fields selected on an empty option are sent as one `$select` pair listing their names
/// separated by commas.
pub proof fn lemma_select_query(names: Seq<Seq<char>>)
    requires
        names.len() > 0,
    ensures
        object_query(object_select(empty_object_option(), names)) == seq![("$select"@, comma_joined(names))],
{
    lemma_comma_prefixed_joined(names);
    let v = object_select(empty_object_option(), names);
    assert(v.select =~= comma_prefixed(names));
    assert(buffer_pairs("$expand"@, v.expand) =~= Seq::<(Seq<char>, Seq<char>)>::empty());
    assert(object_query(v) =~= seq![("$select"@, comma_joined(names))]);
}

/// Of two orderings, only the last counts.
pub proof fn lemma_order_by_last_wins(v: CollectionOptionView, n1: Seq<char>, o1: Order, n2: Seq<char>, o2: Order)
    ensures
        collection_order_by(collection_order_by(v, n1, o1), n2, o2) == collection_order_by(v, n2, o2),
{
}

/// Of two page sizes, only the last counts.
pub proof fn lemma_page_size_last_wins(v: CollectionOptionView, s1: nat, s2: nat)
    ensures
        collection_page_size(collection_page_size(v, s1), s2) == collection_page_size(v, s2),
{
}

/// Of two count requests, only the last counts.
pub proof fn lemma_get_count_last_wins(v: CollectionOptionView, b1: bool, b2: bool)
    ensures
        collection_get_count(collection_get_count(v, b1), b2) == collection_get_count(v, b2),
{
}

/// The query pairs of a collection option: those of its object option, then `$orderby`,
/// `$top` and `$count`.
pub open spec fn collection_query(v: CollectionOptionView) -> Pairs {
    object_query(v.object) + optional_header("$orderby"@, v.order) + optional_header("$top"@, v.page_size)
        + (if v.get_count {
        seq![("$count"@, "true"@)]
    } else {
        Seq::empty()
    })
}

/// One setter call on an object option, by what it is given.
pub enum ObjectCall {
    /// `if_match` with a tag.
    IfMatch(Seq<char>),
    /// `if_none_match` with a tag.
    IfNoneMatch(Seq<char>),
    /// `select` of fields with these names.
    Select(Seq<Seq<char>>),
    /// `expand` of a field, with the names of the children to select.
    Expand(Seq<char>, Option<Seq<Seq<char>>>),
}

/// An object option after one setter call.
pub open spec fn object_call(v: ObjectOptionView, c: ObjectCall) -> ObjectOptionView {
    match c {
        ObjectCall::IfMatch(t) => ObjectOptionView { access: AccessView { if_match: Some(t), ..v.access }, ..v },
        ObjectCall::IfNoneMatch(t) => ObjectOptionView { access: AccessView { if_none_match: Some(t), ..v.access }, ..v },
        ObjectCall::Select(names) => object_select(v, names),
        ObjectCall::Expand(f, children) => object_expand(v, f, children),
    }
}

/// An object option after setter calls, in order.
pub open spec fn object_calls(v: ObjectOptionView, cs: Seq<ObjectCall>) -> ObjectOptionView
    decreases cs.len(),
{
    if cs.len() == 0 {
        v
    } else {
        object_call(object_calls(v, cs.drop_last()), cs.last())
    }
}

/// `first` when it is present, else `fallback`.
pub open spec fn or_else<T>(first: Option<T>, fallback: Option<T>) -> Option<T> {
    match first {
        Some(x) => Some(x),
        None => fallback,
    }
}

/// The tag of the last `if_match` call, if any.
pub open spec fn last_if_match(cs: Seq<ObjectCall>) -> Option<Seq<char>>
    decreases cs.len(),
{
    if cs.len() == 0 {
        None
    } else {
        match cs.last() {
            ObjectCall::IfMatch(t) => Some(t),
            _ => last_if_match(cs.drop_last()),
        }
    }
}

/// The tag of the last `if_none_match` call, if any.
pub open spec fn last_if_none_match(cs: Seq<ObjectCall>) -> Option<Seq<char>>
    decreases cs.len(),
{
    if cs.len() == 0 {
        None
    } else {
        match cs.last() {
            ObjectCall::IfNoneMatch(t) => Some(t),
            _ => last_if_none_match(cs.drop_last()),
        }
    }
}

/// The names of all fields selected by the calls, in order.
pub open spec fn all_selected(cs: Seq<ObjectCall>) -> Seq<Seq<char>>
    decreases cs.len(),
{
    if cs.len() == 0 {
        Seq::empty()
    } else {
        match cs.last() {
            ObjectCall::Select(names) => all_selected(cs.drop_last()) + names,
            _ => all_selected(cs.drop_last()),
        }
    }
}

/// The entries of all fields expanded by the calls, in order.
pub open spec fn all_expanded(cs: Seq<ObjectCall>) -> Seq<char>
    decreases cs.len(),
{
    if cs.len() == 0 {
        Seq::empty()
    } else {
        match cs.last() {
            ObjectCall::Expand(f, children) => all_expanded(cs.drop_last()) + expand_entry(f, children),
            _ => all_expanded(cs.drop_last()),
        }
    }
}

/// Whatever setter calls are made on an object option, in whatever order: the last
/// `if_match` and the last `if_none_match` count, and every field selected or expanded
/// by any call is selected or expanded, in the order of the calls.
pub proof fn lemma_object_calls(v: ObjectOptionView, cs: Seq<ObjectCall>)
    ensures
        object_calls(v, cs).access.if_match == or_else(last_if_match(cs), v.access.if_match),
        object_calls(v, cs).access.if_none_match == or_else(last_if_none_match(cs), v.access.if_none_match),
        object_calls(v, cs).select == v.select + comma_prefixed(all_selected(cs)),
        object_calls(v, cs).expand == v.expand + all_expanded(cs),
    decreases cs.len(),
{
    if cs.len() == 0 {
        assert(comma_prefixed(Seq::<Seq<char>>::empty()) =~= Seq::<char>::empty());
        assert(v.select + Seq::<char>::empty() =~= v.select);
        assert(v.expand + Seq::<char>::empty() =~= v.expand);
    } else {
        let init = cs.drop_last();
        lemma_object_calls(v, init);
        let w = object_calls(v, init);
        match cs.last() {
            ObjectCall::Select(names) => {
                lemma_comma_prefixed_append(all_selected(init), names);
                assert(v.select + comma_prefixed(all_selected(init)) + comma_prefixed(names) =~= v.select
                    + comma_prefixed(all_selected(init) + names));
            },
            ObjectCall::Expand(f, children) => {
                assert(v.expand + all_expanded(init) + expand_entry(f, children) =~= v.expand + (all_expanded(init)
                    + expand_entry(f, children)));
            },
            _ => {},
        }
    }
}

/// One setter call on a collection option, by what it is given.
pub enum CollectionCall {
    /// A setter of the object option inside.
    Object(ObjectCall),
    /// `order_by` a field with this name.
    OrderBy(Seq<char>, Order),
    /// `page_size` with a size.
    PageSize(usize),
    /// `get_count` with a flag.
    GetCount(bool),
}

/// A collection option after one setter call.
pub open spec fn collection_call(v: CollectionOptionView, c: CollectionCall) -> CollectionOptionView {
    match c {
        CollectionCall::Object(o) => CollectionOptionView { object: object_call(v.object, o), ..v },
        CollectionCall::OrderBy(name, order) => collection_order_by(v, name, order),
        CollectionCall::PageSize(size) => collection_page_size(v, size as nat),
        CollectionCall::GetCount(b) => collection_get_count(v, b),
    }
}

/// A collection option after setter calls, in order.
pub open spec fn collection_calls(v: CollectionOptionView, cs: Seq<CollectionCall>) -> CollectionOptionView
    decreases cs.len(),
{
    if cs.len() == 0 {
        v
    } else {
        collection_call(collection_calls(v, cs.drop_last()), cs.last())
    }
}

/// The calls on the object option inside, in order.
pub open spec fn object_parts(cs: Seq<CollectionCall>) -> Seq<ObjectCall>
    decreases cs.len(),
{
    if cs.len() == 0 {
        Seq::empty()
    } else {
        match cs.last() {
            CollectionCall::Object(o) => object_parts(cs.drop_last()).push(o),
            _ => object_parts(cs.drop_last()),
        }
    }
}

/// The `$orderby` value of the last `order_by` call, if any.
pub open spec fn last_order(cs: Seq<CollectionCall>) -> Option<Seq<char>>
    decreases cs.len(),
{
    if cs.len() == 0 {
        None
    } else {
        match cs.last() {
            CollectionCall::OrderBy(name, order) => Some(order_value(name, order)),
            _ => last_order(cs.drop_last()),
        }
    }
}

/// The `$top` value of the last `page_size` call, if any.
pub open spec fn last_page_size(cs: Seq<CollectionCall>) -> Option<Seq<char>>
    decreases cs.len(),
{
    if cs.len() == 0 {
        None
    } else {
        match cs.last() {
            CollectionCall::PageSize(size) => Some(decimal(size as nat)),
            _ => last_page_size(cs.drop_last()),
        }
    }
}

/// The flag of the last `get_count` call, if any.
pub open spec fn last_get_count(cs: Seq<CollectionCall>) -> Option<bool>
    decreases cs.len(),
{
    if cs.len() == 0 {
        None
    } else {
        match cs.last() {
            CollectionCall::GetCount(b) => Some(b),
            _ => last_get_count(cs.drop_last()),
        }
    }
}

/// Whatever setter calls are made on a collection option, in whatever order: of the
/// calls to `order_by`, `page_size` and `get_count` only the last of each counts, and the
/// calls on the object option inside compose as they do on an object option.
pub proof fn lemma_collection_calls(v: CollectionOptionView, cs: Seq<CollectionCall>)
    ensures
        collection_calls(v, cs).object == object_calls(v.object, object_parts(cs)),
        collection_calls(v, cs).order == or_else(last_order(cs), v.order),
        collection_calls(v, cs).page_size == or_else(last_page_size(cs), v.page_size),
        collection_calls(v, cs).get_count == (match last_get_count(cs) {
            Some(b) => b,
            None => v.get_count,
        }),
    decreases cs.len(),
{
    if cs.len() > 0 {
        lemma_collection_calls(v, cs.drop_last());
        match cs.last() {
            CollectionCall::Object(o) => {
                let parts = object_parts(cs.drop_last()).push(o);
                assert(parts.drop_last() =~= object_parts(cs.drop_last()));
            },
            _ => {},
        }
    }
}

/// The query of a collection option holds a `$count` pair exactly when the count is
/// requested, then as its last pair with the value `true`; no other pair is named
/// `$count`.
pub proof fn lemma_collection_count_pair(v: CollectionOptionView)
    ensures
        v.get_count ==> collection_query(v).len() > 0 && collection_query(v).last() == ("$count"@, "true"@),
        forall|i: int|
            0 <= i < collection_query(v).len() && #[trigger] collection_query(v)[i].0 == "$count"@
                ==> v.get_count && i == collection_query(v).len() - 1,
{
    reveal_strlit("$count");
    reveal_strlit("$select");
    reveal_strlit("$expand");
    reveal_strlit("$orderby");
    reveal_strlit("$top");
    reveal_strlit("true");
    let a = object_query(v.object);
    let b = optional_header("$orderby"@, v.order);
    let c = optional_header("$top"@, v.page_size);
    let d: Pairs = if v.get_count {
        seq![("$count"@, "true"@)]
    } else {
        Seq::empty()
    };
    let q = collection_query(v);
    assert(q == a + b + c + d);
    assert forall|i: int| 0 <= i < a.len() implies a[i].0 != "$count"@ by {
        let s = buffer_pairs("$select"@, v.object.select);
        let e = buffer_pairs("$expand"@, v.object.expand);
        assert(a == s + e);
        if i < s.len() {
            assert(a[i] == s[i]);
            assert(a[i].0[1] != "$count"@[1]);
        } else {
            assert(a[i] == e[i - s.len()]);
            assert(a[i].0[1] != "$count"@[1]);
        }
    }
    assert forall|i: int| 0 <= i < q.len() && #[trigger] q[i].0 == "$count"@ implies v.get_count && i == q.len() - 1 by {
        if i < a.len() {
            assert(q[i] == a[i]);
        } else if i < a.len() + b.len() {
            assert(q[i] == b[i - a.len()]);
            assert(q[i].0[1] != "$count"@[1]);
        } else if i < a.len() + b.len() + c.len() {
            assert(q[i] == c[i - a.len() - b.len()]);
            assert(q[i].0.len() != "$count"@.len());
        } else {
            assert(q[i] == d[i - a.len() - b.len() - c.len()]);
        }
    }
}

/// Option for GET-like requests for a collection of resource objects.
#[derive(Debug)]
pub struct CollectionOption<Field> {
    obj_option: ObjectOption<Field>,
    order_buf: Option<String>,
    page_size_buf: Option<String>,
    get_count_buf: bool,
}

impl<Field> View for CollectionOption<Field> {
    type V = CollectionOptionView;

    closed spec fn view(&self) -> CollectionOptionView {
        CollectionOptionView {
            object: self.obj_option@,
            order: self.order_buf.deep_view(),
            page_size: self.page_size_buf.deep_view(),
            get_count: self.get_count_buf,
        }
    }
}

impl<Field: ResourceField> CollectionOption<Field> {
    /// Create an empty (default) option.
    pub fn new() -> (r: Self)
        ensures
            r@ == empty_collection_option(),
    {
        CollectionOption { obj_option: ObjectOption::new(), order_buf: None, page_size_buf: None, get_count_buf: false }
    }

    /// Only response if the object matches the `tag`.
    pub fn if_match(self, tag: &Tag) -> (r: Self)
        ensures
            r@ == (CollectionOptionView {
                object: ObjectOptionView {
                    access: AccessView { if_match: Some(tag@), ..self@.object.access },
                    ..self@.object
                },
                ..self@
            }),
    {
        let mut s = self;
        s.obj_option = s.obj_option.if_match(tag);
        s
    }

    /// Only response if the object does not match the `tag`.
    pub fn if_none_match(self, tag: &Tag) -> (r: Self)
        ensures
            r@ == (CollectionOptionView {
                object: ObjectOptionView {
                    access: AccessView { if_none_match: Some(tag@), ..self@.object.access },
                    ..self@.object
                },
                ..self@
            }),
    {
        let mut s = self;
        s.obj_option = s.obj_option.if_none_match(tag);
        s
    }

    /// Select only some fields of the resource object.
    pub fn select(self, fields: &[Field]) -> (r: Self)
        ensures
            r@ == (CollectionOptionView { object: object_select(self@.object, field_names(fields@)), ..self@ }),
    {
        let mut s = self;
        s.obj_option = s.obj_option.select(fields);
        s
    }

    /// Expand a field of the resource object.
    pub fn expand(self, field: Field, select_children: Option<&[&str]>) -> (r: Self)
        ensures
            r@ == (CollectionOptionView {
                object: object_expand(self@.object, field.raw_name_spec(), match select_children {
                    Some(c) => Some(str_views(c@)),
                    None => None,
                }),
                ..self@
            }),
    {
        let mut s = self;
        s.obj_option = s.obj_option.expand(field, select_children);
        s
    }

    /// Specify the sort order of the items responsed.
    ///
    /// If called more than once, only the last call make sense.
    pub fn order_by(self, field: Field, order: Order) -> (r: Self)
        ensures
            r@ == collection_order_by(self@, field.raw_name_spec(), order),
    {
        let word = match order {
            Order::Ascending => "asc",
            Order::Descending => "desc",
        };
        let mut buf = field.__raw_name().to_owned();
        buf.append(" ");
        buf.append(word);
        let mut s = self;
        s.order_buf = Some(buf);
        s
    }

    /// Specify the number of items per page.
    ///
    /// If called more than once, only the last call make sense.
    pub fn page_size(self, size: usize) -> (r: Self)
        ensures
            r@ == collection_page_size(self@, size as nat),
    {
        let mut buf = String::new();
        push_decimal(&mut buf, size as u64);
        assert(buf@ =~= decimal(size as nat));
        let mut s = self;
        s.page_size_buf = Some(buf);
        s
    }

    /// Specify to get the number of all items.
    ///
    /// If called more than once, only the last call make sense. Track Changes API does
    /// not support this.
    pub fn get_count(self, get_count: bool) -> (r: Self)
        ensures
            r@ == collection_get_count(self@, get_count),
    {
        let mut s = self;
        s.get_count_buf = get_count;
        s
    }

    /// Whether `$count` is requested.
    pub fn has_get_count(&self) -> (r: bool)
        ensures
            r == self@.get_count,
    {
        self.get_count_buf
    }

    /// Apply the option to a request: those of its object option, then `$orderby`,
    /// `$top` and `$count`.
    pub fn trans(self, req: RequestBuilder) -> (r: RequestBuilder)
        ensures
            r@ == with_query(with_headers(req@, access_headers(self@.object.access)), collection_query(self@)),
    {
        let ghost v = self@;
        let ghost req0 = req@;
        let req = self.obj_option.trans(req);
        let mut pairs: Vec<(String, String)> = Vec::new();
        if let Some(s) = self.order_buf {
            pairs.push(("$orderby".to_owned(), s));
        }
        if let Some(s) = self.page_size_buf {
            pairs.push(("$top".to_owned(), s));
        }
        if self.get_count_buf {
            pairs.push(("$count".to_owned(), "true".to_owned()));
        }
        let ghost rest = optional_header("$orderby"@, v.order) + optional_header("$top"@, v.page_size) + (if v.get_count {
            seq![("$count"@, "true"@)]
        } else {
            Seq::empty()
        });
        assert(pairs.deep_view() =~= rest);
        let r = req.query(pairs);
        assert(r@.query =~= req0.query + collection_query(v));
        r
    }
}

impl<Field: ResourceField> Default for CollectionOption<Field> {
    fn default() -> (r: Self)
        ensures
            r@ == empty_collection_option(),
    {
        Self::new()
    }
}

/// What a PUT-like option holds.
pub struct PutOptionView {
    pub access: AccessView,
    pub conflict_behavior: Option<ConflictBehavior>,
}

/// Option for PUT-like requests of `DriveItem`.
#[derive(Debug, Default)]
pub struct DriveItemPutOption {
    access_opt: AccessOption,
    conflict_behavior: Option<ConflictBehavior>,
}

impl View for DriveItemPutOption {
    type V = PutOptionView;

    closed spec fn view(&self) -> PutOptionView {
        PutOptionView { access: self.access_opt@, conflict_behavior: self.conflict_behavior }
    }
}

impl DriveItemPutOption {
    /// Create an empty (default) option.
    pub fn new() -> (r: Self)
        ensures
            r@ == (PutOptionView { access: AccessView { if_match: None, if_none_match: None }, conflict_behavior: None }),
    {
        DriveItemPutOption { access_opt: AccessOption::new(), conflict_behavior: None }
    }

    /// Only response if the object matches the `tag`.
    pub fn if_match(self, tag: &Tag) -> (r: Self)
        ensures
            r@ == (PutOptionView { access: AccessView { if_match: Some(tag@), ..self@.access }, ..self@ }),
    {
        let mut s = self;
        s.access_opt = s.access_opt.if_match(tag);
        s
    }

    /// Specify the behavior if the target item already exists.
    pub fn conflict_behavior(self, conflict_behavior: ConflictBehavior) -> (r: Self)
        ensures
            r@ == (PutOptionView { conflict_behavior: Some(conflict_behavior), ..self@ }),
    {
        let mut s = self;
        s.conflict_behavior = Some(conflict_behavior);
        s
    }

    /// The conflict behavior, if specified.
    pub fn get_conflict_behavior(&self) -> (r: Option<ConflictBehavior>)
        ensures
            r == self@.conflict_behavior,
    {
        self.conflict_behavior
    }

    /// Apply the option to a request: its precondition header.
    pub fn trans(self, req: RequestBuilder) -> (r: RequestBuilder)
        ensures
            r@ == with_headers(req@, access_headers(self@.access)),
    {
        self.access_opt.trans(req)
    }
}

} // verus!
