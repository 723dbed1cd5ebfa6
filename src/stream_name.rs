use vstd::prelude::*;
use vstd::string::*;
use crate::text::{
    all_free_of, join_seq, join_text, lemma_flatten_free, lemma_join_free, lemma_split_around,
    lemma_split_free, lemma_split_join, lemma_split_nonempty, lemma_split_pieces_free, split_seq,
    split_text,
};

verus! {

/// Separates a category from the id of one of its streams.
pub const ID_SEPARATOR: char = '-';

/// Separates an entity id from the types of its category.
pub const CATEGORY_TYPE_SEPARATOR: char = ':';

/// Separates the parts of a compound id or of a compound category type.
pub const COMPOUND_SEPARATOR: char = '+';

/// The view of an optional name.
pub open spec fn view_of<V: View>(o: Option<V>) -> Option<V::V> {
    match o {
        Some(v) => Some(v@),
        None => None,
    }
}

/// The head of `s`: what comes before its first `sep`, or all of it.
pub open spec fn head_of(s: Seq<char>, sep: char) -> Seq<char> {
    split_seq(s, sep)[0]
}

/// The tail of `s`: what follows its first `sep`, with every later `sep` taken
/// out; none where `s` holds no `sep`.
pub open spec fn tail_of(s: Seq<char>, sep: char) -> Option<Seq<char>> {
    let pieces = split_seq(s, sep);
    if pieces.len() > 1 {
        Some(pieces.subrange(1, pieces.len() as int).flatten())
    } else {
        None
    }
}

/// The compound parts of an optional tail, none where there is no tail.
pub open spec fn parts_of(tail: Option<Seq<char>>) -> Seq<Seq<char>> {
    match tail {
        Some(t) => split_seq(t, COMPOUND_SEPARATOR),
        None => Seq::empty(),
    }
}

/// `a`, the separator, then `b`.
pub open spec fn compose(a: Seq<char>, sep: char, b: Seq<char>) -> Seq<char> {
    a.push(sep) + b
}

/// The name after `add` appended one more compound part to its tail.
pub open spec fn with_part(s: Seq<char>, sep: char, part: Seq<char>) -> Seq<char> {
    match tail_of(s, sep) {
        Some(t) => compose(
            head_of(s, sep),
            sep,
            join_seq(split_seq(t, COMPOUND_SEPARATOR).push(part), COMPOUND_SEPARATOR),
        ),
        None => compose(head_of(s, sep), sep, part),
    }
}

/// A head and a tail that hold no separator come back apart from their composition.
pub proof fn lemma_compose_split(head: Seq<char>, sep: char, tail: Seq<char>)
    requires
        !head.contains(sep),
        !tail.contains(sep),
    ensures
        head_of(compose(head, sep, tail), sep) == head,
        tail_of(compose(head, sep, tail), sep) == Some(tail),
{
    lemma_split_around(head, tail, sep);
    lemma_split_free(head, sep);
    lemma_split_free(tail, sep);
    let pieces = split_seq(compose(head, sep, tail), sep);
    assert(pieces =~= seq![head, tail]);
    assert(pieces.subrange(1, 2) =~= seq![tail]);
    seq![tail].lemma_flatten_one_element();
}

/// The head of a name and its tail hold no separator.
pub proof fn lemma_head_tail_free(s: Seq<char>, sep: char)
    ensures
        !head_of(s, sep).contains(sep),
        tail_of(s, sep) matches Some(t) ==> !t.contains(sep),
{
    lemma_split_pieces_free(s, sep);
    lemma_split_nonempty(s, sep);
    let pieces = split_seq(s, sep);
    assert(!pieces[0].contains(sep));
    if pieces.len() > 1 {
        let rest = pieces.subrange(1, pieces.len() as int);
        assert(all_free_of(rest, sep)) by {
            assert forall|i: int| 0 <= i < rest.len() implies !(#[trigger] rest[i]).contains(
                sep,
            ) by {
                assert(rest[i] == pieces[i + 1]);
            }
        }
        lemma_flatten_free(rest, sep);
    }
}

/// Adding a part keeps the head and adds the part as the last compound part of the tail.
pub proof fn lemma_with_part(s: Seq<char>, sep: char, part: Seq<char>)
    requires
        sep != COMPOUND_SEPARATOR,
        !part.contains(sep),
        !part.contains(COMPOUND_SEPARATOR),
    ensures
        head_of(with_part(s, sep, part), sep) == head_of(s, sep),
        parts_of(tail_of(with_part(s, sep, part), sep)) =~= parts_of(tail_of(s, sep)).push(part),
{
    lemma_head_tail_free(s, sep);
    let head = head_of(s, sep);
    match tail_of(s, sep) {
        Some(t) => {
            let parts = split_seq(t, COMPOUND_SEPARATOR).push(part);
            lemma_split_pieces_free(t, COMPOUND_SEPARATOR);
            assert(all_free_of(parts, COMPOUND_SEPARATOR)) by {
                assert forall|i: int| 0 <= i < parts.len() implies !(
                #[trigger] parts[i]).contains(COMPOUND_SEPARATOR) by {
                    if i < parts.len() - 1 {
                        assert(parts[i] == split_seq(t, COMPOUND_SEPARATOR)[i]);
                    }
                }
            }
            lemma_split_pieces_free(t, sep);
            assert(all_free_of(parts, sep)) by {
                assert forall|i: int| 0 <= i < parts.len() implies !(#[trigger] parts[i]).contains(
                    sep,
                ) by {
                    if i < parts.len() - 1 {
                        assert(parts[i] == split_seq(t, COMPOUND_SEPARATOR)[i]);
                        lemma_split_parts_keep_free(t, COMPOUND_SEPARATOR, sep, i);
                    }
                }
            }
            let joined = join_seq(parts, COMPOUND_SEPARATOR);
            lemma_join_free(parts, COMPOUND_SEPARATOR, sep);
            lemma_compose_split(head, sep, joined);
            lemma_split_join(parts, COMPOUND_SEPARATOR);
        },
        None => {
            lemma_compose_split(head, sep, part);
            lemma_split_free(part, COMPOUND_SEPARATOR);
            assert(Seq::<Seq<char>>::empty().push(part) =~= seq![part]);
        },
    }
}

/// A piece of `s` holds no character that `s` lacks.
pub proof fn lemma_split_parts_keep_free(s: Seq<char>, sep: char, c: char, i: int)
    requires
        !s.contains(c),
        0 <= i < split_seq(s, sep).len(),
    ensures
        !split_seq(s, sep)[i].contains(c),
    decreases s.len(),
{
    if s.len() > 0 {
        let init = s.drop_last();
        assert(!init.contains(c)) by {
            if init.contains(c) {
                let j = choose|j: int| 0 <= j < init.len() && init[j] == c;
                assert(s[j] == c);
            }
        }
        lemma_split_nonempty(init, sep);
        let pieces = split_seq(init, sep);
        assert(s.last() != c) by {
            assert(s[s.len() - 1] == s.last());
        }
        if s.last() == sep {
            if i < pieces.len() {
                lemma_split_parts_keep_free(init, sep, c, i);
            } else {
                assert(split_seq(s, sep)[i] =~= Seq::<char>::empty());
            }
        } else {
            if i < pieces.len() - 1 {
                lemma_split_parts_keep_free(init, sep, c, i);
            } else {
                lemma_split_parts_keep_free(init, sep, c, pieces.len() - 1);
                let p = pieces.last().push(s.last());
                assert(split_seq(s, sep)[i] == p);
                if p.contains(c) {
                    let j = choose|j: int| 0 <= j < p.len() && p[j] == c;
                    if j < pieces.last().len() {
                        assert(pieces.last()[j] == c);
                        assert(pieces[pieces.len() - 1].contains(c));
                    }
                }
            }
        }
    } else {
        assert(split_seq(s, sep)[i] =~= Seq::<char>::empty());
    }
}

/// Splitting the name composed of a category and an id gives back the category and
/// the id, where neither holds the id separator.
pub proof fn lemma_stream_name_round_trip(category: Category, id: StreamID)
    requires
        !category@.contains(ID_SEPARATOR),
        !id@.contains(ID_SEPARATOR),
    ensures
        head_of(compose(category@, ID_SEPARATOR, id@), ID_SEPARATOR) == category@,
        tail_of(compose(category@, ID_SEPARATOR, id@), ID_SEPARATOR) == Some(id@),
{
    lemma_compose_split(category@, ID_SEPARATOR, id@);
}

/// Splitting the category composed of an entity id and a category type gives them
/// back, where neither holds the type separator.
pub proof fn lemma_category_round_trip(entity_id: EntityID, category_type: CategoryType)
    requires
        !entity_id@.contains(CATEGORY_TYPE_SEPARATOR),
        !category_type@.contains(CATEGORY_TYPE_SEPARATOR),
    ensures
        head_of(compose(entity_id@, CATEGORY_TYPE_SEPARATOR, category_type@), CATEGORY_TYPE_SEPARATOR)
            == entity_id@,
        tail_of(compose(entity_id@, CATEGORY_TYPE_SEPARATOR, category_type@), CATEGORY_TYPE_SEPARATOR)
            == Some(category_type@),
{
    lemma_compose_split(entity_id@, CATEGORY_TYPE_SEPARATOR, category_type@);
}

/// Adding an id to a stream name keeps its category and makes the new id the last
/// of its ids.
pub proof fn lemma_add_id(stream_name: StreamName, new_id: StreamID)
    requires
        !new_id@.contains(ID_SEPARATOR),
        !new_id@.contains(COMPOUND_SEPARATOR),
    ensures
        head_of(with_part(stream_name@, ID_SEPARATOR, new_id@), ID_SEPARATOR) == head_of(
            stream_name@,
            ID_SEPARATOR,
        ),
        parts_of(tail_of(with_part(stream_name@, ID_SEPARATOR, new_id@), ID_SEPARATOR))
            =~= parts_of(tail_of(stream_name@, ID_SEPARATOR)).push(new_id@),
{
    lemma_with_part(stream_name@, ID_SEPARATOR, new_id@);
}

/// Adding a type to a category keeps its entity id and makes the new type the last
/// of its types.
pub proof fn lemma_add_type(category: Category, new_type: CategoryType)
    requires
        !new_type@.contains(CATEGORY_TYPE_SEPARATOR),
        !new_type@.contains(COMPOUND_SEPARATOR),
    ensures
        head_of(with_part(category@, CATEGORY_TYPE_SEPARATOR, new_type@), CATEGORY_TYPE_SEPARATOR)
            == head_of(category@, CATEGORY_TYPE_SEPARATOR),
        parts_of(
            tail_of(with_part(category@, CATEGORY_TYPE_SEPARATOR, new_type@), CATEGORY_TYPE_SEPARATOR),
        ) =~= parts_of(tail_of(category@, CATEGORY_TYPE_SEPARATOR)).push(new_type@),
{
    lemma_with_part(category@, CATEGORY_TYPE_SEPARATOR, new_type@);
}

/// Joining the compound parts of an id gives the id back; splitting joined parts that
/// hold no `+` gives the parts back.
pub proof fn lemma_compound_round_trip(s: Seq<char>, parts: Seq<Seq<char>>)
    requires
        parts.len() >= 1,
        all_free_of(parts, COMPOUND_SEPARATOR),
    ensures
        join_seq(split_seq(s, COMPOUND_SEPARATOR), COMPOUND_SEPARATOR) == s,
        split_seq(join_seq(parts, COMPOUND_SEPARATOR), COMPOUND_SEPARATOR) == parts,
{
    crate::text::lemma_join_split(s, COMPOUND_SEPARATOR);
    lemma_split_join(parts, COMPOUND_SEPARATOR);
}

/// Splits `s` into its head and its optional tail.
fn split_head(s: &String, sep: char) -> (r: (String, Option<String>))
    ensures
        r.0@ == head_of(s@, sep),
        view_of(r.1) == tail_of(s@, sep),
{
    let pieces = split_text(s.as_str(), sep);
    let ghost views = pieces@.map_values(|p: String| p@);
    proof {
        lemma_split_nonempty(s@, sep);
    }
    let head = pieces[0].clone();
    if pieces.len() > 1 {
        let mut tail = String::new();
        let mut k: usize = 1;
        assert(views.subrange(1, 1) =~= Seq::<Seq<char>>::empty());
        while k < pieces.len()
            invariant
                1 <= k <= pieces.len(),
                views == pieces@.map_values(|p: String| p@),
                tail@ == views.subrange(1, k as int).flatten(),
            decreases pieces.len() - k,
        {
            tail.append(pieces[k].as_str());
            proof {
                views.subrange(1, k as int).lemma_flatten_push(views[k as int]);
                assert(views.subrange(1, k + 1) =~= views.subrange(1, k as int).push(
                    views[k as int],
                ));
            }
            k = k + 1;
        }
        (head, Some(tail))
    } else {
        (head, None)
    }
}

/// Splits `s` into its compound parts.
fn compound_parts(s: &String) -> (r: Vec<String>)
    ensures
        r@.map_values(|p: String| p@) =~= split_seq(s@, COMPOUND_SEPARATOR),
{
    split_text(s.as_str(), COMPOUND_SEPARATOR)
}

/// Whether `s` holds `c`.
fn contains_char(s: &String, c: char) -> (r: bool)
    ensures
        r == s@.contains(c),
{
    let n = s.as_str().unicode_len();
    let mut i: usize = 0;
    while i < n
        invariant
            n == s@.len(),
            i <= n,
            forall|j: int| 0 <= j < i ==> s@[j] != c,
        decreases n - i,
    {
        if s.as_str().get_char(i) == c {
            return true;
        }
        i = i + 1;
    }
    false
}

/// `a`, the separator, then `b`, as a new string.
fn compose_text(a: &str, sep: &str, b: &str) -> (r: String)
    ensures
        r@ == a@ + sep@ + b@,
{
    let mut r = String::from_str(a);
    r.append(sep);
    r.append(b);
    r
}

/// The full name of a stream, or of a category where it holds no id.
#[derive(Clone, Debug, PartialEq, Eq, Hash)]
pub struct StreamName(pub String);

/// The id of one stream of a category; compound where it holds `+`.
#[derive(Clone, Debug)]
pub struct StreamID(pub String);

/// A category: an entity id, with optional category types after `:`.
#[derive(Clone, Debug)]
pub struct Category(pub String);

/// The part of a category before its types.
#[derive(Clone, Debug)]
pub struct EntityID(pub String);

/// The type part of a category; compound where it holds `+`.
#[derive(Clone, Debug)]
pub struct CategoryType(pub String);

impl View for StreamName {
    type V = Seq<char>;

    open spec fn view(&self) -> Seq<char> {
        self.0@
    }
}

impl View for StreamID {
    type V = Seq<char>;

    open spec fn view(&self) -> Seq<char> {
        self.0@
    }
}

impl View for Category {
    type V = Seq<char>;

    open spec fn view(&self) -> Seq<char> {
        self.0@
    }
}

impl View for EntityID {
    type V = Seq<char>;

    open spec fn view(&self) -> Seq<char> {
        self.0@
    }
}

impl View for CategoryType {
    type V = Seq<char>;

    open spec fn view(&self) -> Seq<char> {
        self.0@
    }
}

impl StreamName {
    pub fn new(stream_name: &str) -> (r: Self)
        ensures
            r@ == stream_name@,
    {
        StreamName(String::from_str(stream_name))
    }

    /// `category-id`.
    pub fn from_parts(category: Category, id: StreamID) -> (r: Self)
        ensures
            r@ == compose(category@, ID_SEPARATOR, id@),
    {
        proof {
            reveal_strlit("-");
        }
        StreamName(compose_text(category.0.as_str(), "-", id.0.as_str()))
    }

    pub fn has_id(&self) -> (r: bool)
        ensures
            r == self@.contains(ID_SEPARATOR),
    {
        contains_char(&self.0, ID_SEPARATOR)
    }

    pub fn category(&self) -> (r: Category)
        ensures
            r@ == head_of(self@, ID_SEPARATOR),
    {
        let (category, _) = self.split();
        category
    }

    pub fn id(&self) -> (r: Option<StreamID>)
        ensures
            view_of(r) == tail_of(self@, ID_SEPARATOR),
    {
        let (_, id) = self.split();
        id
    }

    pub fn ids(&self) -> (r: Vec<StreamID>)
        ensures
            r@.map_values(|i: StreamID| i@) =~= parts_of(tail_of(self@, ID_SEPARATOR)),
    {
        let (_, id) = self.split();
        match id {
            Some(id) => id.split(),
            None => Vec::new(),
        }
    }

    /// Appends `new_id` to the compound id, or gives the stream its first id.
    pub fn add_id(&self, new_id: StreamID) -> (r: Self)
        ensures
            r@ == with_part(self@, ID_SEPARATOR, new_id@),
    {
        let (category, id) = self.split();
        match id {
            Some(id) => {
                let mut ids = id.split();
                ids.push(new_id);
                let joined_id = StreamID::join(&ids);
                proof {
                    assert(ids@.map_values(|i: StreamID| i@) =~= split_seq(
                        tail_of(self@, ID_SEPARATOR).unwrap(),
                        COMPOUND_SEPARATOR,
                    ).push(new_id@));
                }
                Self::from_parts(category, joined_id)
            },
            None => Self::from_parts(category, new_id),
        }
    }

    /// The first part of the compound id.
    pub fn cardinal_id(&self) -> (r: Option<StreamID>)
        ensures
            view_of(r) == match tail_of(self@, ID_SEPARATOR) {
                Some(t) => Some(split_seq(t, COMPOUND_SEPARATOR)[0]),
                None => None,
            },
    {
        let (_, id) = self.split();
        match id {
            Some(id) => {
                let ids = id.split();
                proof {
                    lemma_split_nonempty(id@, COMPOUND_SEPARATOR);
                }
                assert(ids@.map_values(|i: StreamID| i@)[0] == ids@[0]@);
                Some(StreamID(ids[0].0.clone()))
            },
            None => None,
        }
    }

    pub fn split(&self) -> (r: (Category, Option<StreamID>))
        ensures
            r.0@ == head_of(self@, ID_SEPARATOR),
            view_of(r.1) == tail_of(self@, ID_SEPARATOR),
    {
        let (head, tail) = split_head(&self.0, ID_SEPARATOR);
        let id = match tail {
            Some(t) => Some(StreamID(t)),
            None => None,
        };
        (Category(head), id)
    }
}

impl StreamID {
    pub fn new(stream_id: &str) -> (r: Self)
        ensures
            r@ == stream_id@,
    {
        StreamID(String::from_str(stream_id))
    }

    pub fn split(&self) -> (r: Vec<StreamID>)
        ensures
            r@.map_values(|i: StreamID| i@) =~= split_seq(self@, COMPOUND_SEPARATOR),
    {
        let parts = compound_parts(&self.0);
        let ghost views = parts@.map_values(|p: String| p@);
        let mut r: Vec<StreamID> = Vec::new();
        let mut k: usize = 0;
        while k < parts.len()
            invariant
                k <= parts.len(),
                views == parts@.map_values(|p: String| p@),
                r.len() == k,
                r@.map_values(|i: StreamID| i@) =~= views.subrange(0, k as int),
            decreases parts.len() - k,
        {
            let ghost before = r@;
            r.push(StreamID(parts[k].clone()));
            assert(r@ == before.push(r@[k as int]));
            assert(r@[k as int]@ == views[k as int]);
            assert(r@.map_values(|i: StreamID| i@) =~= views.subrange(0, k + 1));
            k = k + 1;
        }
        assert(views.subrange(0, parts.len() as int) =~= views);
        r
    }

    pub fn join(ids: &Vec<Self>) -> (r: Self)
        ensures
            r@ == join_seq(ids@.map_values(|i: StreamID| i@), COMPOUND_SEPARATOR),
    {
        let ghost views = ids@.map_values(|i: StreamID| i@);
        let mut parts: Vec<String> = Vec::new();
        let mut k: usize = 0;
        while k < ids.len()
            invariant
                k <= ids.len(),
                views == ids@.map_values(|i: StreamID| i@),
                parts.len() == k,
                parts@.map_values(|p: String| p@) =~= views.subrange(0, k as int),
            decreases ids.len() - k,
        {
            let ghost before = parts@;
            parts.push(ids[k].0.clone());
            assert(parts@ == before.push(parts@[k as int]));
            assert(parts@[k as int]@ == views[k as int]);
            assert(parts@.map_values(|p: String| p@) =~= views.subrange(0, k + 1));
            k = k + 1;
        }
        assert(views.subrange(0, ids.len() as int) =~= views);
        proof {
            reveal_strlit("+");
        }
        StreamID(join_text(&parts, "+"))
    }
}

impl Category {
    pub fn new(category: &str) -> (r: Self)
        ensures
            r@ == category@,
    {
        Category(String::from_str(category))
    }

    /// `entity_id:category_type`.
    pub fn from_parts(entity_id: EntityID, category_type: CategoryType) -> (r: Self)
        ensures
            r@ == compose(entity_id@, CATEGORY_TYPE_SEPARATOR, category_type@),
    {
        proof {
            reveal_strlit(":");
        }
        Category(compose_text(entity_id.0.as_str(), ":", category_type.0.as_str()))
    }

    /// The category `category:command`, or `category` with `command` added to its types.
    pub fn new_command(category: &str) -> (r: Self)
        ensures
            r@ == with_part(category@, CATEGORY_TYPE_SEPARATOR, "command"@),
    {
        let category_type = CategoryType::new("command");
        Self::new(category).add_type(category_type)
    }

    pub fn split(&self) -> (r: (EntityID, Option<CategoryType>))
        ensures
            r.0@ == head_of(self@, CATEGORY_TYPE_SEPARATOR),
            view_of(r.1) == tail_of(self@, CATEGORY_TYPE_SEPARATOR),
    {
        let (head, tail) = split_head(&self.0, CATEGORY_TYPE_SEPARATOR);
        let category_type = match tail {
            Some(t) => Some(CategoryType(t)),
            None => None,
        };
        (EntityID(head), category_type)
    }

    pub fn entity_id(&self) -> (r: EntityID)
        ensures
            r@ == head_of(self@, CATEGORY_TYPE_SEPARATOR),
    {
        let (entity_id, _) = self.split();
        entity_id
    }

    pub fn category_type(&self) -> (r: Option<CategoryType>)
        ensures
            view_of(r) == tail_of(self@, CATEGORY_TYPE_SEPARATOR),
    {
        let (_, category_type) = self.split();
        category_type
    }

    pub fn category_types(&self) -> (r: Vec<CategoryType>)
        ensures
            r@.map_values(|t: CategoryType| t@) =~= parts_of(
                tail_of(self@, CATEGORY_TYPE_SEPARATOR),
            ),
    {
        let (_, category_type) = self.split();
        match category_type {
            Some(category_type) => category_type.split(),
            None => Vec::new(),
        }
    }

    pub fn has_type(&self) -> (r: bool)
        ensures
            r == self@.contains(CATEGORY_TYPE_SEPARATOR),
    {
        contains_char(&self.0, CATEGORY_TYPE_SEPARATOR)
    }

    /// Appends `new_type` to the compound category type, or gives the category its
    /// first type.
    pub fn add_type(&self, new_type: CategoryType) -> (r: Self)
        ensures
            r@ == with_part(self@, CATEGORY_TYPE_SEPARATOR, new_type@),
    {
        let (entity_id, category_type) = self.split();
        match category_type {
            Some(category_type) => {
                let mut types = category_type.split();
                types.push(new_type);
                let joined_type = CategoryType::join(&types);
                proof {
                    assert(types@.map_values(|t: CategoryType| t@) =~= split_seq(
                        tail_of(self@, CATEGORY_TYPE_SEPARATOR).unwrap(),
                        COMPOUND_SEPARATOR,
                    ).push(new_type@));
                }
                Self::from_parts(entity_id, joined_type)
            },
            None => Self::from_parts(entity_id, new_type),
        }
    }

    /// The stream of this category with the given id.
    pub fn stream_name(&self, id: StreamID) -> (r: StreamName)
        ensures
            r@ == compose(self@, ID_SEPARATOR, id@),
    {
        StreamName::from_parts(Category(self.0.clone()), id)
    }
}

impl EntityID {
    pub fn new(entity_id: &str) -> (r: Self)
        ensures
            r@ == entity_id@,
    {
        EntityID(String::from_str(entity_id))
    }
}

impl CategoryType {
    pub fn new(category_type: &str) -> (r: Self)
        ensures
            r@ == category_type@,
    {
        CategoryType(String::from_str(category_type))
    }

    pub fn split(&self) -> (r: Vec<CategoryType>)
        ensures
            r@.map_values(|t: CategoryType| t@) =~= split_seq(self@, COMPOUND_SEPARATOR),
    {
        let parts = compound_parts(&self.0);
        let ghost views = parts@.map_values(|p: String| p@);
        let mut r: Vec<CategoryType> = Vec::new();
        let mut k: usize = 0;
        while k < parts.len()
            invariant
                k <= parts.len(),
                views == parts@.map_values(|p: String| p@),
                r.len() == k,
                r@.map_values(|t: CategoryType| t@) =~= views.subrange(0, k as int),
            decreases parts.len() - k,
        {
            let ghost before = r@;
            r.push(CategoryType(parts[k].clone()));
            assert(r@ == before.push(r@[k as int]));
            assert(r@[k as int]@ == views[k as int]);
            assert(r@.map_values(|t: CategoryType| t@) =~= views.subrange(0, k + 1));
            k = k + 1;
        }
        assert(views.subrange(0, parts.len() as int) =~= views);
        r
    }

    pub fn join(types: &Vec<Self>) -> (r: Self)
        ensures
            r@ == join_seq(types@.map_values(|t: CategoryType| t@), COMPOUND_SEPARATOR),
    {
        let ghost views = types@.map_values(|t: CategoryType| t@);
        let mut parts: Vec<String> = Vec::new();
        let mut k: usize = 0;
        while k < types.len()
            invariant
                k <= types.len(),
                views == types@.map_values(|t: CategoryType| t@),
                parts.len() == k,
                parts@.map_values(|p: String| p@) =~= views.subrange(0, k as int),
            decreases types.len() - k,
        {
            let ghost before = parts@;
            parts.push(types[k].0.clone());
            assert(parts@ == before.push(parts@[k as int]));
            assert(parts@[k as int]@ == views[k as int]);
            assert(parts@.map_values(|p: String| p@) =~= views.subrange(0, k + 1));
            k = k + 1;
        }
        assert(views.subrange(0, types.len() as int) =~= views);
        proof {
            reveal_strlit("+");
        }
        CategoryType(join_text(&parts, "+"))
    }
}

} // verus!
