//! Locations of drives and items, file names, and the path segments of API URLs.
use vstd::prelude::*;
use crate::resource::{DriveId, ItemId};
use crate::urls::{append_path_segments, url_with_path_segments};
use crate::decimal::{all_digits, decimal, is_digit, lemma_decimal_digits, lemma_parse_decimal, parse_u64, parse_u64_spec};

verus! {

/// The root of every API URL: Microsoft Graph, version 1.0.
pub const GRAPH_API_BASE: &'static str = "https://graph.microsoft.com/v1.0";

/// The base against which bare API paths are rendered.
pub const PATH_ONLY_BASE: &'static str = "path://";

/// Characters that OneDrive refuses in a file or folder name.
pub open spec fn is_reserved_name_char(c: char) -> bool {
    c == '"' || c == '*' || c == ':' || c == '<' || c == '>' || c == '?' || c == '/' || c == '\\'
        || c == '|'
}

/// A valid name of a file or a folder: not empty, and none of the reserved characters.
pub open spec fn valid_file_name(s: Seq<char>) -> bool {
    s.len() > 0 && forall|i: int| 0 <= i < s.len() ==> !is_reserved_name_char(#[trigger] s[i])
}

/// `s` without one trailing `/`, if it has one.
pub open spec fn without_trailing_slash(s: Seq<char>) -> Seq<char> {
    if s.len() > 0 && s.last() == '/' {
        s.drop_last()
    } else {
        s
    }
}

/// A non-empty `/`-separated list of valid file names: it neither starts nor ends with
/// `/`, holds no two consecutive `/`, and no reserved character other than `/`.
pub open spec fn valid_components(r: Seq<char>) -> bool {
    &&& r.len() > 0
    &&& r[0] != '/'
    &&& r.last() != '/'
    &&& forall|i: int| 0 <= i < r.len() && r[i] != '/' ==> !is_reserved_name_char(#[trigger] r[i])
    &&& forall|i: int| 0 <= i < r.len() - 1 && #[trigger] r[i] == '/' ==> r[i + 1] != '/'
}

/// A UNIX-like `/`-started absolute path in a drive: either `/` itself, or `/` followed by
/// valid file names separated by `/`, with an optional trailing `/`.
pub open spec fn valid_item_path(p: Seq<char>) -> bool {
    p == seq!['/'] || (p.len() > 0 && p[0] == '/' && valid_components(
        without_trailing_slash(p.drop_first()),
    ))
}

/// The pieces of `s` between the separator `sep`: one more piece than separators, each
/// possibly empty.
pub open spec fn split_on(s: Seq<char>, sep: char) -> Seq<Seq<char>>
    decreases s.len(),
{
    if s.len() == 0 {
        seq![Seq::empty()]
    } else if s.last() == sep {
        split_on(s.drop_last(), sep).push(Seq::empty())
    } else {
        let p = split_on(s.drop_last(), sep);
        p.update(p.len() - 1, p.last().push(s.last()))
    }
}

/// There is always at least one piece.
pub proof fn lemma_split_on_nonempty(s: Seq<char>, sep: char)
    ensures
        split_on(s, sep).len() > 0,
    decreases s.len(),
{
    if s.len() > 0 {
        lemma_split_on_nonempty(s.drop_last(), sep);
    }
}


/// The names joined by `/`.
pub open spec fn join_names(names: Seq<Seq<char>>) -> Seq<char>
    decreases names.len(),
{
    if names.len() == 0 {
        Seq::empty()
    } else if names.len() == 1 {
        names[0]
    } else {
        join_names(names.drop_last()) + seq!['/'] + names.last()
    }
}

/// Every name is a valid file name.
pub open spec fn all_valid_names(names: Seq<Seq<char>>) -> bool {
    forall|i: int| 0 <= i < names.len() ==> valid_file_name(#[trigger] names[i])
}

proof fn lemma_join_valid(names: Seq<Seq<char>>)
    requires
        names.len() > 0,
        all_valid_names(names),
    ensures
        valid_components(join_names(names)),
    decreases names.len(),
{
    if names.len() == 1 {
        let n = names[0];
        assert(valid_file_name(n));
        assert(n[0] != '/');
        assert(n[n.len() - 1] != '/');
        assert forall|i: int| 0 <= i < n.len() - 1 && #[trigger] n[i] == '/' implies n[i + 1] != '/' by {
            assert(!is_reserved_name_char(n[i]));
        }
    } else {
        let init = names.drop_last();
        let last = names.last();
        assert(all_valid_names(init)) by {
            assert forall|i: int| 0 <= i < init.len() implies valid_file_name(#[trigger] init[i]) by {
                assert(init[i] == names[i]);
            }
        }
        assert(valid_file_name(last)) by {
            assert(last == names[names.len() - 1]);
        }
        lemma_join_valid(init);
        let j = join_names(init);
        let r = j + seq!['/'] + last;
        assert(join_names(names) == r);
        let lj = j.len();
        assert(r[0] == j[0]);
        assert(r[r.len() - 1] == last[last.len() - 1]);
        assert forall|i: int| 0 <= i < r.len() && r[i] != '/' implies !is_reserved_name_char(#[trigger] r[i]) by {
            if i < lj {
                assert(r[i] == j[i]);
            } else if i > lj {
                assert(r[i] == last[i - lj - 1]);
            }
        }
        assert forall|i: int| 0 <= i < r.len() - 1 && #[trigger] r[i] == '/' implies r[i + 1] != '/' by {
            if i < lj - 1 {
                assert(r[i] == j[i]);
                assert(r[i + 1] == j[i + 1]);
            } else if i == lj - 1 {
                assert(r[i] == j[lj - 1]);
            } else if i == lj {
                assert(r[i + 1] == last[0]);
            } else {
                assert(r[i] == last[i - lj - 1]);
                assert(!is_reserved_name_char(last[i - lj - 1]));
            }
        }
    }
}

/// A `/` followed by valid names joined by `/`, with or without a trailing `/`, is a valid
/// item path.
pub proof fn lemma_joined_names_are_valid_path(names: Seq<Seq<char>>)
    requires
        names.len() > 0,
        all_valid_names(names),
    ensures
        valid_item_path(seq!['/'] + join_names(names)),
        valid_item_path(seq!['/'] + join_names(names) + seq!['/']),
{
    lemma_join_valid(names);
    let j = join_names(names);
    let p1 = seq!['/'] + j;
    let p2 = seq!['/'] + j + seq!['/'];
    assert(p1.drop_first() =~= j);
    assert(without_trailing_slash(j) == j);
    assert(p1.len() > 1);
    assert(p1 != seq!['/']);
    assert(p2.drop_first() =~= j + seq!['/']);
    assert((j + seq!['/']).drop_last() =~= j);
    assert(without_trailing_slash(p2.drop_first()) == j);
    assert(p2 != seq!['/']) by {
        assert(p2.len() > 1);
    }
}

proof fn lemma_join_split(r: Seq<char>)
    ensures
        join_names(split_on(r, '/')) == r,
    decreases r.len(),
{
    if r.len() == 0 {
        assert(split_on(r, '/') =~= seq![Seq::<char>::empty()]);
        assert(r =~= Seq::<char>::empty());
    } else {
        let r0 = r.drop_last();
        let c = r.last();
        lemma_join_split(r0);
        lemma_split_on_nonempty(r0, '/');
        let s0 = split_on(r0, '/');
        if c == '/' {
            let s = s0.push(Seq::<char>::empty());
            assert(s.drop_last() =~= s0);
            assert(join_names(s) == join_names(s0) + seq!['/'] + Seq::<char>::empty());
            assert(r =~= r0 + seq!['/'] + Seq::<char>::empty());
        } else {
            let k = s0.len() - 1;
            let s = s0.update(k, s0.last().push(c));
            assert(split_on(r, '/') == s);
            if s0.len() == 1 {
                assert(join_names(s) == s[0]);
                assert(join_names(s0) == s0[0]);
                assert(r =~= r0.push(c));
            } else {
                assert(s.drop_last() =~= s0.drop_last());
                assert(join_names(s) == join_names(s0.drop_last()) + seq!['/'] + s0.last().push(c));
                assert(join_names(s0) == join_names(s0.drop_last()) + seq!['/'] + s0.last());
                assert(r =~= r0.push(c));
                assert(join_names(s) =~= join_names(s0).push(c));
            }
        }
    }
}

/// Holds no reserved character.
pub open spec fn no_reserved(s: Seq<char>) -> bool {
    forall|j: int| 0 <= j < s.len() ==> !is_reserved_name_char(#[trigger] s[j])
}

proof fn lemma_split_pieces(r: Seq<char>)
    requires
        forall|i: int| 0 <= i < r.len() && r[i] != '/' ==> !is_reserved_name_char(#[trigger] r[i]),
        forall|i: int| 0 <= i < r.len() - 1 && #[trigger] r[i] == '/' ==> r[i + 1] != '/',
        r.len() > 0 ==> r[0] != '/',
    ensures
        forall|i: int| 0 <= i < split_on(r, '/').len() - 1 ==> valid_file_name(#[trigger] split_on(r, '/')[i]),
        no_reserved(split_on(r, '/').last()),
        split_on(r, '/').last().len() > 0 <==> (r.len() > 0 && r.last() != '/'),
    decreases r.len(),
{
    lemma_split_on_nonempty(r, '/');
    if r.len() > 0 {
        let r0 = r.drop_last();
        let c = r.last();
        assert forall|i: int| 0 <= i < r0.len() && r0[i] != '/' implies !is_reserved_name_char(#[trigger] r0[i]) by {
            assert(r0[i] == r[i]);
        }
        assert forall|i: int| 0 <= i < r0.len() - 1 && #[trigger] r0[i] == '/' implies r0[i + 1] != '/' by {
            assert(r0[i] == r[i]);
            assert(r0[i + 1] == r[i + 1]);
        }
        if r0.len() > 0 {
            assert(r0[0] == r[0]);
        }
        lemma_split_pieces(r0);
        lemma_split_on_nonempty(r0, '/');
        let s0 = split_on(r0, '/');
        let k = s0.len() - 1;
        if c == '/' {
            let s = s0.push(Seq::<char>::empty());
            assert(split_on(r, '/') == s);
            assert(r0.len() > 0) by {
                if r0.len() == 0 {
                    assert(r[0] == c);
                }
            }
            assert(r0.last() != '/') by {
                assert(r[r.len() - 2] == r0.last());
            }
            assert(valid_file_name(s0.last()));
            assert forall|i: int| 0 <= i < s.len() - 1 implies valid_file_name(#[trigger] s[i]) by {
                if i < k {
                    assert(s[i] == s0[i]);
                } else {
                    assert(s[i] == s0.last());
                }
            }
        } else {
            let s = s0.update(k, s0.last().push(c));
            assert(split_on(r, '/') == s);
            assert(!is_reserved_name_char(c)) by {
                assert(r[r.len() - 1] == c);
            }
            assert forall|i: int| 0 <= i < s.len() - 1 implies valid_file_name(#[trigger] s[i]) by {
                assert(s[i] == s0[i]);
            }
            let l = s0.last().push(c);
            assert(s.last() == l);
            assert forall|j: int| 0 <= j < l.len() implies !is_reserved_name_char(#[trigger] l[j]) by {
                if j < l.len() - 1 {
                    assert(l[j] == s0.last()[j]);
                }
            }
        }
    }
}

/// A valid item path other than `/` is a `/` followed by valid names joined by `/`, with
/// or without a trailing `/`.
pub proof fn lemma_valid_path_is_joined_names(p: Seq<char>)
    requires
        valid_item_path(p),
        p != seq!['/'],
    ensures
        exists|names: Seq<Seq<char>>|
            names.len() > 0 && all_valid_names(names) && (p == seq!['/'] + join_names(names) || p
                == seq!['/'] + join_names(names) + seq!['/']),
{
    let r = without_trailing_slash(p.drop_first());
    assert(valid_components(r));
    lemma_split_pieces(r);
    lemma_join_split(r);
    lemma_split_on_nonempty(r, '/');
    let names = split_on(r, '/');
    assert(all_valid_names(names)) by {
        assert forall|i: int| 0 <= i < names.len() implies valid_file_name(#[trigger] names[i]) by {
            if i == names.len() - 1 {
                assert(names[i] == names.last());
            }
        }
    }
    let d = p.drop_first();
    if d.len() > 0 && d.last() == '/' {
        assert(p =~= seq!['/'] + join_names(names) + seq!['/']);
    } else {
        assert(p =~= seq!['/'] + join_names(names));
    }
}

fn is_reserved_char(c: char) -> (r: bool)
    ensures
        r == is_reserved_name_char(c),
{
    c == '"' || c == '*' || c == ':' || c == '<' || c == '>' || c == '?' || c == '/' || c == '\\'
        || c == '|'
}

/// A valid name for a file or a directory in OneDrive.
#[derive(Debug, PartialEq, Eq, Hash)]
pub struct FileName(String);

impl Clone for FileName {
    fn clone(&self) -> (r: Self)
        ensures
            r@ == self@,
    {
        proof {
            use_type_invariant(self);
        }
        FileName(self.0.clone())
    }
}

impl View for FileName {
    type V = Seq<char>;

    closed spec fn view(&self) -> Seq<char> {
        self.0@
    }
}

impl FileName {
    #[verifier::type_invariant]
    spec fn wf(self) -> bool {
        valid_file_name(self.0@)
    }

    /// Check and wrap the name for a file or a directory in OneDrive.
    ///
    /// Returns `None` if the name is empty or contains one of `"*:<>?/\|`.
    pub fn new(name: &str) -> (r: Option<FileName>)
        ensures
            r is Some <==> valid_file_name(name@),
            r matches Some(f) ==> f@ == name@,
    {
        let n = name.unicode_len();
        if n == 0 {
            return None;
        }
        let mut i: usize = 0;
        while i < n
            invariant
                i <= n,
                n == name@.len(),
                forall|j: int| 0 <= j < i ==> !is_reserved_name_char(#[trigger] name@[j]),
            decreases n - i,
        {
            if is_reserved_char(name.get_char(i)) {
                return None;
            }
            i = i + 1;
        }
        Some(FileName(name.to_owned()))
    }

    /// View as str.
    pub fn as_str(&self) -> (r: &str)
        ensures
            r@ == self@,
            valid_file_name(r@),
    {
        proof {
            use_type_invariant(self);
        }
        self.0.as_str()
    }
}

/// What an `ItemLocation` designates.
pub enum ItemLocationView {
    /// An absolute path in the drive.
    Path(Seq<char>),
    /// An item by its identifier.
    Id(Seq<char>),
    /// A child by name under the item with the given identifier.
    ChildOfId(Seq<char>, Seq<char>),
}

#[derive(Clone, Copy, Debug)]
enum ItemLocationEnum<'a> {
    Path(&'a str),
    Id(&'a str),
    ChildOfId { parent_id: &'a str, child_name: &'a str },
}

/// Reference to a `DriveItem` in a drive: by path, by identifier, or by name under a
/// parent identifier.
#[derive(Clone, Copy, Debug)]
pub struct ItemLocation<'a> {
    inner: ItemLocationEnum<'a>,
}

impl<'a> View for ItemLocation<'a> {
    type V = ItemLocationView;

    closed spec fn view(&self) -> ItemLocationView {
        match self.inner {
            ItemLocationEnum::Path(p) => ItemLocationView::Path(p@),
            ItemLocationEnum::Id(id) => ItemLocationView::Id(id@),
            ItemLocationEnum::ChildOfId { parent_id, child_name } => ItemLocationView::ChildOfId(
                parent_id@,
                child_name@,
            ),
        }
    }
}

/// Every path location holds a valid path, and every child location a valid name.
pub open spec fn item_location_wf(l: ItemLocationView) -> bool {
    match l {
        ItemLocationView::Path(p) => valid_item_path(p),
        ItemLocationView::Id(_) => true,
        ItemLocationView::ChildOfId(_, c) => valid_file_name(c),
    }
}

/// The path segments that designate an item inside a drive.
pub open spec fn item_segments(l: ItemLocationView) -> Seq<Seq<char>> {
    match l {
        ItemLocationView::Path(p) => if p == seq!['/'] {
            seq!["root"@]
        } else {
            seq!["root:"@ + p + ":"@]
        },
        ItemLocationView::Id(id) => seq!["items"@, id],
        ItemLocationView::ChildOfId(parent, child) => seq!["items"@, parent, "children"@, child],
    }
}

impl<'a> ItemLocation<'a> {
    #[verifier::type_invariant]
    spec fn wf(self) -> bool {
        item_location_wf(self@)
    }

    /// A UNIX-like `/`-started absolute path to a file or directory in the drive.
    ///
    /// Returns `None` if `path` is not `/`-started or holds an invalid file name.
    /// The trailing `/` is optional.
    pub fn from_path(path: &'a str) -> (r: Option<Self>)
        ensures
            r is Some <==> valid_item_path(path@),
            r matches Some(l) ==> l@ == ItemLocationView::Path(path@),
    {
        proof {
            reveal_strlit("/");
        }
        let n = path.unicode_len();
        if n == 1 && path.get_char(0) == '/' {
            assert(path@ =~= seq!['/']);
            assert("/"@ =~= seq!['/']);
            return Some(Self::root());
        }
        if n == 0 || path.get_char(0) != '/' {
            return None;
        }
        let end: usize = if path.get_char(n - 1) == '/' {
            n - 1
        } else {
            n
        };
        let ghost r = path@.subrange(1, end as int);
        assert(r =~= without_trailing_slash(path@.drop_first()));
        if end <= 1 {
            return None;
        }
        let mut prev_slash = true;
        let mut i: usize = 1;
        while i < end
            invariant
                1 <= i <= end <= n,
                n == path@.len(),
                r == path@.subrange(1, end as int),
                r == without_trailing_slash(path@.drop_first()),
                path@ != seq!['/'],
                path@[0] == '/',
                r.len() > 0,
                prev_slash == (i == 1 || r[i - 2] == '/'),
                i > 1 ==> r[0] != '/',
                forall|j: int| 0 <= j < i - 1 && r[j] != '/' ==> !is_reserved_name_char(#[trigger] r[j]),
                forall|j: int| 0 <= j < i - 2 && #[trigger] r[j] == '/' ==> r[j + 1] != '/',
            decreases end - i,
        {
            let c = path.get_char(i);
            assert(c == r[i - 1]);
            if c == '/' {
                if prev_slash {
                    proof {
                        if i > 1 {
                            assert(r[i - 2] == '/');
                        }
                    }
                    return None;
                }
                prev_slash = true;
            } else {
                if is_reserved_char(c) {
                    return None;
                }
                prev_slash = false;
            }
            i = i + 1;
        }
        if prev_slash {
            return None;
        }
        assert(valid_components(r));
        Some(ItemLocation { inner: ItemLocationEnum::Path(path) })
    }

    /// The root directory item.
    pub fn root() -> (r: Self)
        ensures
            r@ == ItemLocationView::Path("/"@),
    {
        proof {
            reveal_strlit("/");
            assert("/"@ =~= seq!['/']);
        }
        ItemLocation { inner: ItemLocationEnum::Path("/") }
    }

    /// The item with a known identifier.
    pub fn from_id(item_id: &'a ItemId) -> (r: Self)
        ensures
            r@ == ItemLocationView::Id(item_id@),
    {
        ItemLocation { inner: ItemLocationEnum::Id(item_id.as_str()) }
    }

    /// The child named `child_name` under the item with identifier `parent_id`.
    pub fn child_of_id(parent_id: &'a ItemId, child_name: &'a FileName) -> (r: Self)
        ensures
            r@ == ItemLocationView::ChildOfId(parent_id@, child_name@),
    {
        ItemLocation {
            inner: ItemLocationEnum::ChildOfId {
                parent_id: parent_id.as_str(),
                child_name: child_name.as_str(),
            },
        }
    }

    /// The path segments designating this item inside a drive.
    pub fn path_segments(&self) -> (r: Vec<String>)
        ensures
            r.deep_view() == item_segments(self@),
    {
        proof {
            reveal_strlit("/");
        }
        let r = match self.inner {
            ItemLocationEnum::Path(p) => {
                if p.unicode_len() == 1 && p.get_char(0) == '/' {
                    assert(p@ =~= seq!['/']);
                    vec!["root".to_owned()]
                } else {
                    proof {
                        if p@ == seq!['/'] {
                            assert(p@[0] == '/');
                        }
                    }
                    let mut s = "root:".to_owned();
                    s.append(p);
                    s.append(":");
                    vec![s]
                }
            },
            ItemLocationEnum::Id(id) => vec!["items".to_owned(), id.to_owned()],
            ItemLocationEnum::ChildOfId { parent_id, child_name } => vec![
                "items".to_owned(),
                parent_id.to_owned(),
                "children".to_owned(),
                child_name.to_owned(),
            ],
        };
        assert(r.deep_view() =~= item_segments(self@));
        r
    }
}

/// What a `DriveLocation` designates.
pub enum DriveLocationView {
    /// The drive of the signed-in user.
    Me,
    /// The drive of a user, by identifier or principal name.
    User(Seq<char>),
    /// The drive of a group.
    Group(Seq<char>),
    /// The drive of a site.
    Site(Seq<char>),
    /// A drive by its identifier.
    Id(Seq<char>),
}

#[derive(Clone, Debug)]
enum DriveLocationEnum {
    Me,
    User(String),
    Group(String),
    Site(String),
    Id(DriveId),
}

/// Specify the location of a `Drive` resource.
#[derive(Clone, Debug)]
pub struct DriveLocation {
    inner: DriveLocationEnum,
}

impl View for DriveLocation {
    type V = DriveLocationView;

    closed spec fn view(&self) -> DriveLocationView {
        match self.inner {
            DriveLocationEnum::Me => DriveLocationView::Me,
            DriveLocationEnum::User(s) => DriveLocationView::User(s@),
            DriveLocationEnum::Group(s) => DriveLocationView::Group(s@),
            DriveLocationEnum::Site(s) => DriveLocationView::Site(s@),
            DriveLocationEnum::Id(id) => DriveLocationView::Id(id@),
        }
    }
}

/// The path segments that designate a drive.
pub open spec fn drive_segments(d: DriveLocationView) -> Seq<Seq<char>> {
    match d {
        DriveLocationView::Me => seq!["drive"@],
        DriveLocationView::User(u) => seq!["users"@, u, "drive"@],
        DriveLocationView::Group(g) => seq!["groups"@, g, "drive"@],
        DriveLocationView::Site(s) => seq!["sites"@, s, "drive"@],
        DriveLocationView::Id(id) => seq!["drives"@, id],
    }
}

impl DriveLocation {
    /// Current drive of the signed-in user.
    pub fn me() -> (r: Self)
        ensures
            r@ == DriveLocationView::Me,
    {
        DriveLocation { inner: DriveLocationEnum::Me }
    }

    /// The drive of a user, by identifier or user principal name.
    pub fn from_user(id_or_principal_name: String) -> (r: Self)
        ensures
            r@ == DriveLocationView::User(id_or_principal_name@),
    {
        DriveLocation { inner: DriveLocationEnum::User(id_or_principal_name) }
    }

    /// The document library of a group.
    pub fn from_group(group_id: String) -> (r: Self)
        ensures
            r@ == DriveLocationView::Group(group_id@),
    {
        DriveLocation { inner: DriveLocationEnum::Group(group_id) }
    }

    /// The document library of a site.
    pub fn from_site(site_id: String) -> (r: Self)
        ensures
            r@ == DriveLocationView::Site(site_id@),
    {
        DriveLocation { inner: DriveLocationEnum::Site(site_id) }
    }

    /// A drive by its identifier.
    pub fn from_id(drive_id: DriveId) -> (r: Self)
        ensures
            r@ == DriveLocationView::Id(drive_id@),
    {
        DriveLocation { inner: DriveLocationEnum::Id(drive_id) }
    }

    /// The path segments designating this drive.
    pub fn path_segments(&self) -> (r: Vec<String>)
        ensures
            r.deep_view() == drive_segments(self@),
    {
        let r = match &self.inner {
            DriveLocationEnum::Me => vec!["drive".to_owned()],
            DriveLocationEnum::User(s) => vec!["users".to_owned(), s.clone(), "drive".to_owned()],
            DriveLocationEnum::Group(s) => vec!["groups".to_owned(), s.clone(), "drive".to_owned()],
            DriveLocationEnum::Site(s) => vec!["sites".to_owned(), s.clone(), "drive".to_owned()],
            DriveLocationEnum::Id(id) => vec!["drives".to_owned(), id.as_str().to_owned()],
        };
        assert(r.deep_view() =~= drive_segments(self@));
        r
    }
}

/// The serialization of an API URL under Microsoft Graph with the given path segments.
pub open spec fn api_url_spec(segments: Seq<Seq<char>>) -> Option<Seq<char>> {
    match url_with_path_segments(GRAPH_API_BASE@, segments) {
        Some(p) => Some(p.0),
        None => None,
    }
}

/// The bare path made of the given segments.
pub open spec fn api_path_spec(segments: Seq<Seq<char>>) -> Option<Seq<char>> {
    match url_with_path_segments(PATH_ONLY_BASE@, segments) {
        Some(p) => Some(p.1),
        None => None,
    }
}

/// The URL of the API endpoint with the given path segments, each percent-encoded.
pub fn api_url(segments: &Vec<String>) -> (r: Option<String>)
    ensures
        (match r {
            Some(s) => Some(s@),
            None => None,
        }) == api_url_spec(segments.deep_view()),
{
    match append_path_segments(GRAPH_API_BASE, segments) {
        Some(p) => Some(p.0),
        None => None,
    }
}

/// The percent-encoded path made of the given segments, as used in item references.
pub fn api_path(segments: &Vec<String>) -> (r: Option<String>)
    ensures
        (match r {
            Some(s) => Some(s@),
            None => None,
        }) == api_path_spec(segments.deep_view()),
{
    match append_path_segments(PATH_ONLY_BASE, segments) {
        Some(p) => Some(p.1),
        None => None,
    }
}

/// Appends the segments of `tail` to `head`.
pub fn concat_segments(head: Vec<String>, tail: Vec<String>) -> (r: Vec<String>)
    ensures
        r.deep_view() == head.deep_view() + tail.deep_view(),
{
    let mut head = head;
    let mut tail = tail;
    let ghost h = head.deep_view();
    let ghost t = tail.deep_view();
    head.append(&mut tail);
    assert(head.deep_view() =~= h + t);
    head
}

/// The path segments of an item inside a drive: the drive's, then the item's.
pub fn drive_item_segments(drive: &DriveLocation, item: &ItemLocation) -> (r: Vec<String>)
    ensures
        r.deep_view() == drive_segments(drive@) + item_segments(item@),
{
    concat_segments(drive.path_segments(), item.path_segments())
}

/// The conflict resolution behavior for actions that create a new item.
#[derive(Clone, Copy, Debug, PartialEq, Eq, Hash)]
pub enum ConflictBehavior {
    /// Make the request fail. Usually the default.
    Fail,
    /// Replace the existing item.
    Replace,
    /// Rename the newly created item to another name.
    Rename,
}

/// The value of `@microsoft.graph.conflictBehavior` for a behavior.
pub open spec fn conflict_behavior_name(b: ConflictBehavior) -> Seq<char> {
    match b {
        ConflictBehavior::Fail => "fail"@,
        ConflictBehavior::Replace => "replace"@,
        ConflictBehavior::Rename => "rename"@,
    }
}

/// Each conflict behavior is sent as its own word, which the API reads back to the same
/// behavior: `fail` makes the request fail, `replace` replaces the existing item and
/// `rename` gives the new item another name. Different behaviors are never sent as the
/// same word.
pub proof fn lemma_conflict_behavior_names(a: ConflictBehavior, b: ConflictBehavior)
    ensures
        conflict_behavior_name(ConflictBehavior::Fail) == "fail"@,
        conflict_behavior_name(ConflictBehavior::Replace) == "replace"@,
        conflict_behavior_name(ConflictBehavior::Rename) == "rename"@,
        conflict_behavior_name(a) == conflict_behavior_name(b) ==> a == b,
{
    reveal_strlit("fail");
    reveal_strlit("replace");
    reveal_strlit("rename");
    if conflict_behavior_name(a) == conflict_behavior_name(b) && a != b {
        let x = conflict_behavior_name(a);
        let y = conflict_behavior_name(b);
        assert(x.len() == y.len());
        assert(x[2] == y[2]);
    }
}

impl ConflictBehavior {
    /// The camelCase name used in requests.
    pub fn as_str(&self) -> (r: &'static str)
        ensures
            r@ == conflict_behavior_name(*self),
    {
        match self {
            ConflictBehavior::Fail => "fail",
            ConflictBehavior::Replace => "replace",
            ConflictBehavior::Rename => "rename",
        }
    }
}

/// A range of bytes that the server expects in an upload session: `start` inclusive,
/// `end` exclusive, or open-ended when `end` is `None`.
#[derive(Clone, Copy, Debug, PartialEq, Eq, Structural)]
pub struct ExpectRange {
    pub start: u64,
    pub end: Option<u64>,
}

/// Whether `s` holds no `-`.
pub open spec fn no_dash(s: Seq<char>) -> bool {
    forall|i: int| 0 <= i < s.len() ==> #[trigger] s[i] != '-'
}

/// Whether `s` holds exactly one `-`, at index `k`.
pub open spec fn single_dash_at(s: Seq<char>, k: int) -> bool {
    0 <= k < s.len() && s[k] == '-' && no_dash(s.take(k)) && no_dash(s.skip(k + 1))
}

/// The expected range written `lower-` or `lower-upper` (both inclusive, in decimal);
/// `None` for any other text, or when `upper` is below `lower` or the exclusive end
/// overflows.
pub open spec fn parse_expect_range_spec(s: Seq<char>) -> Option<ExpectRange> {
    if exists|k: int| single_dash_at(s, k) {
        let k = choose|k: int| single_dash_at(s, k);
        let hi = s.skip(k + 1);
        match parse_u64_spec(s.take(k)) {
            None => None,
            Some(start) => if hi.len() == 0 {
                Some(ExpectRange { start, end: None })
            } else {
                match parse_u64_spec(hi) {
                    None => None,
                    Some(upper) => if upper == u64::MAX || upper + 1 <= start {
                        None
                    } else {
                        Some(ExpectRange { start, end: Some((upper + 1) as u64) })
                    },
                }
            },
        }
    } else {
        None
    }
}

proof fn lemma_single_dash_unique(s: Seq<char>, k: int)
    requires
        single_dash_at(s, k),
    ensures
        forall|k2: int| single_dash_at(s, k2) ==> k2 == k,
{
    assert forall|k2: int| single_dash_at(s, k2) implies k2 == k by {
        if k2 < k {
            assert(s.take(k)[k2] == s[k2]);
        } else if k2 > k {
            assert(s.take(k2)[k] == s[k]);
        }
    }
}

proof fn lemma_digits_no_dash(d: Seq<char>)
    requires
        all_digits(d),
    ensures
        no_dash(d),
{
    assert forall|i: int| 0 <= i < d.len() implies #[trigger] d[i] != '-' by {
        assert(is_digit(d[i]));
    }
}

/// A range written `{lower}-{upper}` in decimal parses back to `lower` with the exclusive
/// end `upper + 1`, and one written `{lower}-` to the open-ended range from `lower`.
pub proof fn lemma_parse_written_range(lower: u64, upper: u64)
    requires
        lower <= upper < u64::MAX,
    ensures
        parse_expect_range_spec(decimal(lower as nat) + seq!['-'] + decimal(upper as nat)) == Some(
            ExpectRange { start: lower, end: Some((upper + 1) as u64) },
        ),
        parse_expect_range_spec(decimal(lower as nat) + seq!['-']) == Some(
            ExpectRange { start: lower, end: None },
        ),
{
    let a = decimal(lower as nat);
    let b = decimal(upper as nat);
    lemma_decimal_digits(lower as nat);
    lemma_decimal_digits(upper as nat);
    lemma_parse_decimal(lower);
    lemma_parse_decimal(upper);
    lemma_digits_no_dash(a);
    lemma_digits_no_dash(b);
    let k = a.len() as int;
    let s1 = a + seq!['-'] + b;
    assert(s1.take(k) =~= a);
    assert(s1.skip(k + 1) =~= b);
    assert(single_dash_at(s1, k));
    lemma_single_dash_unique(s1, k);
    let s2 = a + seq!['-'];
    assert(s2.take(k) =~= a);
    assert(s2.skip(k + 1) =~= Seq::<char>::empty());
    assert(single_dash_at(s2, k));
    lemma_single_dash_unique(s2, k);
}

impl ExpectRange {
    /// Parses a range from the text `{lower}-` or `{lower}-{upper}` used by the server.
    pub fn parse(s: &str) -> (r: Option<ExpectRange>)
        ensures
            r == parse_expect_range_spec(s@),
    {
        let n = s.unicode_len();
        let mut k: usize = 0;
        while k < n && s.get_char(k) != '-'
            invariant
                k <= n,
                n == s@.len(),
                forall|j: int| 0 <= j < k ==> s@[j] != '-',
            decreases n - k,
        {
            k = k + 1;
        }
        if k == n {
            proof {
                assert forall|k2: int| !single_dash_at(s@, k2) by {
                    if 0 <= k2 < s@.len() {
                        assert(s@[k2] != '-');
                    }
                }
            }
            return None;
        }
        let mut j: usize = k + 1;
        while j < n
            invariant
                k < j <= n,
                n == s@.len(),
                s@[k as int] == '-',
                forall|i: int| 0 <= i < k ==> s@[i] != '-',
                forall|i: int| k < i < j ==> s@[i] != '-',
            decreases n - j,
        {
            if s.get_char(j) == '-' {
                proof {
                    assert forall|k2: int| !single_dash_at(s@, k2) by {
                        if single_dash_at(s@, k2) {
                            if k2 < k {
                                assert(s@[k2] != '-');
                            } else if k2 > k {
                                assert(s@.take(k2)[k as int] == s@[k as int]);
                            } else {
                                assert(s@.skip(k2 + 1)[j - k2 - 1] == s@[j as int]);
                            }
                        }
                    }
                }
                return None;
            }
            j = j + 1;
        }
        let ghost sv = s@;
        proof {
            assert(single_dash_at(sv, k as int)) by {
                assert forall|i: int| 0 <= i < sv.take(k as int).len() implies #[trigger] sv.take(k as int)[i] != '-' by {
                    assert(sv.take(k as int)[i] == sv[i]);
                }
                assert forall|i: int| 0 <= i < sv.skip(k + 1).len() implies #[trigger] sv.skip(k + 1)[i] != '-' by {
                    assert(sv.skip(k + 1)[i] == sv[k + 1 + i]);
                }
            }
            let k2 = choose|k2: int| single_dash_at(sv, k2);
            if k2 < k {
                assert(sv.take(k as int)[k2] == sv[k2]);
            } else if k2 > k {
                assert(sv.take(k2)[k as int] == sv[k as int]);
            }
            assert(k2 == k);
        }
        let lo = s.substring_char(0, k);
        let hi = s.substring_char(k + 1, n);
        assert(lo@ =~= sv.take(k as int));
        assert(hi@ =~= sv.skip(k + 1));
        let start = match parse_u64(lo) {
            None => return None,
            Some(v) => v,
        };
        if k + 1 == n {
            return Some(ExpectRange { start, end: None });
        }
        let upper = match parse_u64(hi) {
            None => return None,
            Some(v) => v,
        };
        if upper == u64::MAX || upper + 1 <= start {
            return None;
        }
        Some(ExpectRange { start, end: Some(upper + 1) })
    }
}

} // verus!
