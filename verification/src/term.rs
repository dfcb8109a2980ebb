use vstd::prelude::*;
use vstd::string::StringExecFns;
use crate::context::resource::Handle;
use crate::error::BridgeError;
use crate::keys::KeyResource;

verus! {

/// A value of the host runtime, as the bridge reads and writes it.
///
/// Booleans are the atoms `true` and `false`, the null value is the atom
/// `nil`. A record is a named structure whose fields keep the order in which
/// they were put.
#[derive(Debug, PartialEq, Eq)]
pub enum Term {
    Atom(String),
    Integer(i128),
    Text(String),
    Tuple(Vec<Term>),
    List(Vec<Term>),
    Record(String, Vec<(String, Term)>),
    Context(Handle),
    Key(KeyResource),
}

/// The mathematical value of a [`Term`].
pub enum TermView {
    Atom(Seq<char>),
    Integer(i128),
    Text(Seq<char>),
    Tuple(Seq<TermView>),
    List(Seq<TermView>),
    Record(Seq<char>, Seq<(Seq<char>, TermView)>),
    Context(Handle),
    Key(KeyResource),
}

/// The value of a term: the same shape, with texts and sequences as the
/// mathematical ones.
pub open spec fn term_view(t: Term) -> TermView
    decreases t,
{
    match t {
        Term::Atom(name) => TermView::Atom(name@),
        Term::Integer(n) => TermView::Integer(n),
        Term::Text(s) => TermView::Text(s@),
        Term::Tuple(items) => TermView::Tuple(
            Seq::new(
                items@.len(),
                |i: int|
                    if 0 <= i < items@.len() {
                        term_view(items@[i])
                    } else {
                        TermView::Integer(0)
                    },
            ),
        ),
        Term::List(items) => TermView::List(
            Seq::new(
                items@.len(),
                |i: int|
                    if 0 <= i < items@.len() {
                        term_view(items@[i])
                    } else {
                        TermView::Integer(0)
                    },
            ),
        ),
        Term::Record(name, fields) => TermView::Record(
            name@,
            Seq::new(
                fields@.len(),
                |i: int|
                    if 0 <= i < fields@.len() {
                        (fields@[i].0@, term_view(fields@[i].1))
                    } else {
                        (Seq::<char>::empty(), TermView::Integer(0))
                    },
            ),
        ),
        Term::Context(handle) => TermView::Context(handle),
        Term::Key(key) => TermView::Key(key),
    }
}

impl View for Term {
    type V = TermView;

    open spec fn view(&self) -> TermView {
        term_view(*self)
    }
}

/// The values of a sequence of terms, in order.
pub open spec fn views(items: Seq<Term>) -> Seq<TermView> {
    Seq::new(items.len(), |i: int| term_view(items[i]))
}

/// The values of a record's fields, in order.
pub open spec fn field_views(fields: Seq<(String, Term)>) -> Seq<(Seq<char>, TermView)> {
    Seq::new(fields.len(), |i: int| (fields[i].0@, term_view(fields[i].1)))
}

/// The value of a term, one level deep.
pub proof fn lemma_term_view(t: Term)
    ensures
        t@ == (match t {
            Term::Atom(name) => TermView::Atom(name@),
            Term::Integer(n) => TermView::Integer(n),
            Term::Text(s) => TermView::Text(s@),
            Term::Tuple(items) => TermView::Tuple(views(items@)),
            Term::List(items) => TermView::List(views(items@)),
            Term::Record(name, fields) => TermView::Record(name@, field_views(fields@)),
            Term::Context(handle) => TermView::Context(handle),
            Term::Key(key) => TermView::Key(key),
        }),
{
    match t {
        Term::Tuple(items) => {
            assert(term_view(t)->Tuple_0 =~= views(items@));
        },
        Term::List(items) => {
            assert(term_view(t)->List_0 =~= views(items@));
        },
        Term::Record(name, fields) => {
            assert(term_view(t)->Record_1 =~= field_views(fields@));
        },
        _ => {},
    }
}

/// The value of the boolean `b`.
pub open spec fn bool_view(b: bool) -> TermView {
    if b {
        TermView::Atom("true"@)
    } else {
        TermView::Atom("false"@)
    }
}

/// The value of the host's null.
pub open spec fn nil_view() -> TermView {
    TermView::Atom("nil"@)
}

/// The value of a pair led by the atom `tag`.
pub open spec fn tagged_view(tag: Seq<char>, payload: TermView) -> TermView {
    TermView::Tuple(seq![TermView::Atom(tag), payload])
}

/// The value of the pair `(other, code)`, which stands for an engine value
/// outside the named vocabulary.
pub open spec fn other_view(code: u32) -> TermView {
    tagged_view("other"@, TermView::Integer(code as i128))
}

/// The code carried by a pair `(other, code)`, for any other value none.
pub open spec fn other_code(t: TermView) -> Option<u32> {
    match t {
        TermView::Tuple(items) => {
            if items.len() == 2 && items[0] == TermView::Atom("other"@) {
                match items[1] {
                    TermView::Integer(n) => if 0 <= n <= u32::MAX {
                        Some(n as u32)
                    } else {
                        None
                    },
                    _ => None,
                }
            } else {
                None
            }
        },
        _ => None,
    }
}

/// The boolean that a value stands for, if it is one.
pub open spec fn bool_of(t: TermView) -> Option<bool> {
    if t == TermView::Atom("true"@) {
        Some(true)
    } else if t == TermView::Atom("false"@) {
        Some(false)
    } else {
        None
    }
}

/// The pair `(other, code)` carries `code`.
pub proof fn lemma_other_code(code: u32)
    ensures
        other_code(other_view(code)) == Some(code),
{
    let items = seq![TermView::Atom("other"@), TermView::Integer(code as i128)];
    assert(items.len() == 2);
    assert(items[0] == TermView::Atom("other"@));
    assert(items[1] == TermView::Integer(code as i128));
}

/// The atoms `true` and `false` stand for the two booleans.
pub proof fn lemma_bool_of(b: bool)
    ensures
        bool_of(bool_view(b)) == Some(b),
{
    reveal_strlit("true");
    reveal_strlit("false");
    assert("true"@.len() == 4);
    assert("false"@.len() == 5);
}

/// Whether `name` reads as `tag`.
pub fn is_tag(name: &String, tag: &str) -> (r: bool)
    ensures
        r == (name@ == tag@),
{
    let wanted = String::from_str(tag);
    *name == wanted
}

/// Appends the field `key` with `value` to the fields of a record under
/// construction.
pub fn put_field(fields: &mut Vec<(String, Term)>, key: &str, value: Term)
    ensures
        field_views(final(fields)@) == field_views(old(fields)@).push((key@, value@)),
{
    fields.push((String::from_str(key), value));
    assert(field_views(fields@) =~= field_views(old(fields)@).push((key@, value@)));
}

/// Appends `item` to the items of a list or tuple under construction.
pub fn put_item(items: &mut Vec<Term>, item: Term)
    ensures
        views(final(items)@) == views(old(items)@).push(item@),
{
    items.push(item);
    assert(views(items@) =~= views(old(items)@).push(item@));
}

impl Term {
    /// The atom `name`.
    pub fn atom(name: &str) -> (r: Term)
        ensures
            r@ == TermView::Atom(name@),
    {
        Term::Atom(String::from_str(name))
    }

    /// The integer `n`.
    pub fn integer(n: i128) -> (r: Term)
        ensures
            r@ == TermView::Integer(n),
    {
        Term::Integer(n)
    }

    /// The text `s`.
    pub fn text(s: String) -> (r: Term)
        ensures
            r@ == TermView::Text(s@),
    {
        Term::Text(s)
    }

    /// The text that a literal spells.
    pub fn literal(s: &str) -> (r: Term)
        ensures
            r@ == TermView::Text(s@),
    {
        Term::Text(String::from_str(s))
    }

    /// The boolean `b`: the atom `true` or the atom `false`.
    pub fn boolean(b: bool) -> (r: Term)
        ensures
            r@ == bool_view(b),
    {
        if b {
            Term::atom("true")
        } else {
            Term::atom("false")
        }
    }

    /// The host's null: the atom `nil`.
    pub fn nil() -> (r: Term)
        ensures
            r@ == nil_view(),
    {
        Term::atom("nil")
    }

    /// The list of `items`, in their order.
    pub fn list(items: Vec<Term>) -> (r: Term)
        ensures
            r@ == TermView::List(views(items@)),
    {
        let r = Term::List(items);
        proof {
            lemma_term_view(r);
        }
        r
    }

    /// The record `name` with `fields`, in their order.
    pub fn record(name: &str, fields: Vec<(String, Term)>) -> (r: Term)
        ensures
            r@ == TermView::Record(name@, field_views(fields@)),
    {
        let r = Term::Record(String::from_str(name), fields);
        proof {
            lemma_term_view(r);
        }
        r
    }

    /// The pair `(tag, payload)`.
    pub fn tagged(tag: &str, payload: Term) -> (r: Term)
        ensures
            r@ == tagged_view(tag@, payload@),
    {
        let ghost payload_view = payload@;
        let mut items: Vec<Term> = Vec::new();
        assert(views(items@) =~= Seq::<TermView>::empty());
        put_item(&mut items, Term::atom(tag));
        put_item(&mut items, payload);
        let r = Term::Tuple(items);
        proof {
            lemma_term_view(r);
            assert(views(items@) =~= seq![TermView::Atom(tag@), payload_view]);
        }
        r
    }

    /// The pair `(other, code)`.
    pub fn other(code: u32) -> (r: Term)
        ensures
            r@ == other_view(code),
    {
        Term::tagged("other", Term::Integer(code as i128))
    }

    /// The name of an atom; any other value is a bad argument.
    pub fn atom_to_string(&self) -> (r: Result<&String, BridgeError>)
        ensures
            match self@ {
                TermView::Atom(name) => r is Ok && r->Ok_0@ == name,
                _ => r == Err::<&String, BridgeError>(BridgeError::BadArgument),
            },
    {
        match self {
            Term::Atom(name) => Ok(name),
            _ => Err(BridgeError::BadArgument),
        }
    }

    /// The code of a pair `(other, code)`; any other value is a bad argument.
    pub fn decode_other(&self) -> (r: Result<u32, BridgeError>)
        ensures
            r == (match other_code(self@) {
                Some(code) => Ok::<u32, BridgeError>(code),
                None => Err::<u32, BridgeError>(BridgeError::BadArgument),
            }),
    {
        proof {
            lemma_term_view(*self);
        }
        match self {
            Term::Tuple(items) => {
                if items.len() != 2 {
                    return Err(BridgeError::BadArgument);
                }
                proof {
                    lemma_term_view(items@[0]);
                    lemma_term_view(items@[1]);
                }
                match &items[0] {
                    Term::Atom(name) => {
                        if !is_tag(name, "other") {
                            return Err(BridgeError::BadArgument);
                        }
                    },
                    _ => {
                        return Err(BridgeError::BadArgument);
                    },
                }
                match &items[1] {
                    Term::Integer(n) => {
                        if 0 <= *n && *n <= 0xffff_ffff {
                            Ok(*n as u32)
                        } else {
                            Err(BridgeError::BadArgument)
                        }
                    },
                    _ => Err(BridgeError::BadArgument),
                }
            },
            _ => Err(BridgeError::BadArgument),
        }
    }

    /// The boolean that the term stands for; any other value is a bad
    /// argument.
    pub fn decode_bool(&self) -> (r: Result<bool, BridgeError>)
        ensures
            r == (match bool_of(self@) {
                Some(b) => Ok::<bool, BridgeError>(b),
                None => Err::<bool, BridgeError>(BridgeError::BadArgument),
            }),
    {
        match self {
            Term::Atom(name) => {
                if is_tag(name, "true") {
                    Ok(true)
                } else if is_tag(name, "false") {
                    Ok(false)
                } else {
                    Err(BridgeError::BadArgument)
                }
            },
            _ => Err(BridgeError::BadArgument),
        }
    }

    /// A copy of the text that the term holds; any other value is a bad
    /// argument.
    pub fn decode_text(&self) -> (r: Result<String, BridgeError>)
        ensures
            match self@ {
                TermView::Text(s) => r is Ok && r->Ok_0@ == s,
                _ => r == Err::<String, BridgeError>(BridgeError::BadArgument),
            },
    {
        match self {
            Term::Text(s) => Ok(s.clone()),
            _ => Err(BridgeError::BadArgument),
        }
    }

    /// The items of a list; any other value is a bad argument.
    pub fn decode_list(&self) -> (r: Result<&Vec<Term>, BridgeError>)
        ensures
            match self@ {
                TermView::List(items) => r is Ok && views(r->Ok_0@) == items,
                _ => r == Err::<&Vec<Term>, BridgeError>(BridgeError::BadArgument),
            },
    {
        proof {
            lemma_term_view(*self);
        }
        match self {
            Term::List(items) => Ok(items),
            _ => Err(BridgeError::BadArgument),
        }
    }

    /// The context handle that the term carries; any other value is a bad
    /// argument.
    pub fn decode_context(&self) -> (r: Result<Handle, BridgeError>)
        ensures
            r == (match self@ {
                TermView::Context(handle) => Ok::<Handle, BridgeError>(handle),
                _ => Err::<Handle, BridgeError>(BridgeError::BadArgument),
            }),
    {
        match self {
            Term::Context(handle) => Ok(*handle),
            _ => Err(BridgeError::BadArgument),
        }
    }

    /// The key resource that the term carries; any other value is a bad
    /// argument.
    pub fn decode_key(&self) -> (r: Result<KeyResource, BridgeError>)
        ensures
            r == (match self@ {
                TermView::Key(key) => Ok::<KeyResource, BridgeError>(key),
                _ => Err::<KeyResource, BridgeError>(BridgeError::BadArgument),
            }),
    {
        match self {
            Term::Key(key) => Ok(*key),
            _ => Err(BridgeError::BadArgument),
        }
    }
}

} // verus!
