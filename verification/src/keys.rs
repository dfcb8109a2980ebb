use vstd::prelude::*;
use crate::error::BridgeError;
use crate::term::{lemma_term_view, views, Term, TermView};

verus! {

/// An engine-managed key, known to the bridge only by the identity the
/// engine gave it. Nothing of the key itself is held here.
#[derive(Clone, Copy, Debug, PartialEq, Eq, Structural)]
pub struct Key {
    pub id: u64,
}

/// What a key handle refers to. Immutable once made.
#[derive(Clone, Copy, Debug, PartialEq, Eq, Structural)]
pub struct KeyResource {
    pub key: Key,
}

/// Makes the resource that a key handle carries.
pub fn wrap_key(key: Key) -> (r: KeyResource)
    ensures
        r == (KeyResource { key }),
{
    KeyResource { key }
}

/// A recipient list must name at least one key.
pub fn keys_not_empty(key_length: usize) -> (r: Result<(), BridgeError>)
    ensures
        key_length >= 1 ==> r == Ok::<(), BridgeError>(()),
        key_length < 1 ==> r == Err::<(), BridgeError>(BridgeError::BadArgument),
{
    if key_length < 1 {
        Err(BridgeError::BadArgument)
    } else {
        Ok(())
    }
}

/// The key resource that a host value carries, if it is a key handle.
pub open spec fn term_key(t: TermView) -> Option<KeyResource> {
    match t {
        TermView::Key(key) => Some(key),
        _ => None,
    }
}

/// The key resources that a sequence of host values carries, in the same
/// order. There is none if any item is not a key handle.
pub open spec fn keys_of(items: Seq<TermView>) -> Option<Seq<KeyResource>>
    decreases items.len(),
{
    if items.len() == 0 {
        Some(Seq::empty())
    } else {
        match (keys_of(items.drop_last()), term_key(items.last())) {
            (Some(keys), Some(key)) => Some(keys.push(key)),
            _ => None,
        }
    }
}

/// A sequence with a beginning that holds something else than key handles
/// is no sequence of key handles.
pub proof fn lemma_keys_of_prefix(items: Seq<TermView>, n: int)
    requires
        0 <= n <= items.len(),
        keys_of(items.take(n)) is None,
    ensures
        keys_of(items) is None,
    decreases items.len() - n,
{
    if n == items.len() {
        assert(items.take(n) =~= items);
    } else {
        assert(items.take(n + 1).drop_last() =~= items.take(n));
        lemma_keys_of_prefix(items, n + 1);
    }
}

/// The key resources that a host list of key handles carries.
pub open spec fn key_list(t: TermView) -> Option<Seq<KeyResource>> {
    match t {
        TermView::List(items) => keys_of(items),
        _ => None,
    }
}

/// Reads a list of key handles. Whatever is not a list, or holds something
/// else than key handles, is a bad argument.
pub fn unpack_key_list(arg: &Term) -> (r: Result<Vec<KeyResource>, BridgeError>)
    ensures
        match key_list(arg@) {
            Some(keys) => r is Ok && r->Ok_0@ == keys,
            None => r == Err::<Vec<KeyResource>, BridgeError>(BridgeError::BadArgument),
        },
{
    let items = match arg.decode_list() {
        Ok(items) => items,
        Err(_) => {
            return Err(BridgeError::BadArgument);
        },
    };
    let ghost all = views(items@);
    let mut keys: Vec<KeyResource> = Vec::new();
    let mut i: usize = 0;
    assert(all.take(0) =~= Seq::<TermView>::empty());
    while i < items.len()
        invariant
            0 <= i <= items.len(),
            all == views(items@),
            arg@ == TermView::List(all),
            keys_of(all.take(i as int)) == Some(keys@),
        decreases items.len() - i,
    {
        proof {
            lemma_term_view(items@[i as int]);
            assert(all.take(i + 1).drop_last() =~= all.take(i as int));
            assert(all.take(i + 1).last() == items@[i as int]@);
        }
        match items[i].decode_key() {
            Ok(key) => {
                keys.push(key);
            },
            Err(_) => {
                proof {
                    lemma_keys_of_prefix(all, i + 1);
                }
                return Err(BridgeError::BadArgument);
            },
        }
        i = i + 1;
    }
    assert(all.take(i as int) =~= all);
    Ok(keys)
}

} // verus!
