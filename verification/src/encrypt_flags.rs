use vstd::prelude::*;
use crate::error::BridgeError;
use crate::term::{is_tag, lemma_term_view, views, Term, TermView};

verus! {

/// One option of an encryption.
#[derive(Clone, Copy, Debug, PartialEq, Eq, Structural)]
pub enum EncryptFlag {
    AlwaysTrust,
    ExpectSign,
    NoCompress,
    NoEncryptTo,
    Prepare,
    Symmetric,
    ThrowKeyids,
    Wrap,
}

/// A set of encryption options. Each field says whether its option is in
/// the set.
#[derive(Clone, Copy, Debug, PartialEq, Eq, Structural)]
pub struct EncryptFlags {
    pub always_trust: bool,
    pub expect_sign: bool,
    pub no_compress: bool,
    pub no_encrypt_to: bool,
    pub prepare: bool,
    pub symmetric: bool,
    pub throw_keyids: bool,
    pub wrap: bool,
}

impl View for EncryptFlags {
    type V = Set<EncryptFlag>;

    open spec fn view(&self) -> Set<EncryptFlag> {
        Set::new(|flag: EncryptFlag| self.has(flag))
    }
}

impl EncryptFlags {
    /// Whether `flag` is in the set.
    pub open spec fn has(self, flag: EncryptFlag) -> bool {
        match flag {
            EncryptFlag::AlwaysTrust => self.always_trust,
            EncryptFlag::ExpectSign => self.expect_sign,
            EncryptFlag::NoCompress => self.no_compress,
            EncryptFlag::NoEncryptTo => self.no_encrypt_to,
            EncryptFlag::Prepare => self.prepare,
            EncryptFlag::Symmetric => self.symmetric,
            EncryptFlag::ThrowKeyids => self.throw_keyids,
            EncryptFlag::Wrap => self.wrap,
        }
    }

    /// The set without any option.
    pub fn empty() -> (r: EncryptFlags)
        ensures
            r@ == Set::<EncryptFlag>::empty(),
    {
        let r = EncryptFlags {
            always_trust: false,
            expect_sign: false,
            no_compress: false,
            no_encrypt_to: false,
            prepare: false,
            symmetric: false,
            throw_keyids: false,
            wrap: false,
        };
        assert(r@ =~= Set::<EncryptFlag>::empty());
        r
    }

    /// The set that holds `flag` and nothing else.
    pub fn only(flag: EncryptFlag) -> (r: EncryptFlags)
        ensures
            r@ == Set::<EncryptFlag>::empty().insert(flag),
    {
        let r = EncryptFlags {
            always_trust: matches!(flag, EncryptFlag::AlwaysTrust),
            expect_sign: matches!(flag, EncryptFlag::ExpectSign),
            no_compress: matches!(flag, EncryptFlag::NoCompress),
            no_encrypt_to: matches!(flag, EncryptFlag::NoEncryptTo),
            prepare: matches!(flag, EncryptFlag::Prepare),
            symmetric: matches!(flag, EncryptFlag::Symmetric),
            throw_keyids: matches!(flag, EncryptFlag::ThrowKeyids),
            wrap: matches!(flag, EncryptFlag::Wrap),
        };
        assert(r@ =~= Set::<EncryptFlag>::empty().insert(flag));
        r
    }

    /// Whether `flag` is in the set.
    pub fn contains(&self, flag: EncryptFlag) -> (r: bool)
        ensures
            r == self@.contains(flag),
    {
        match flag {
            EncryptFlag::AlwaysTrust => self.always_trust,
            EncryptFlag::ExpectSign => self.expect_sign,
            EncryptFlag::NoCompress => self.no_compress,
            EncryptFlag::NoEncryptTo => self.no_encrypt_to,
            EncryptFlag::Prepare => self.prepare,
            EncryptFlag::Symmetric => self.symmetric,
            EncryptFlag::ThrowKeyids => self.throw_keyids,
            EncryptFlag::Wrap => self.wrap,
        }
    }

    /// Adds the options of `other` to the set.
    pub fn insert(&mut self, other: EncryptFlags)
        ensures
            final(self)@ == old(self)@.union(other@),
    {
        self.always_trust = self.always_trust || other.always_trust;
        self.expect_sign = self.expect_sign || other.expect_sign;
        self.no_compress = self.no_compress || other.no_compress;
        self.no_encrypt_to = self.no_encrypt_to || other.no_encrypt_to;
        self.prepare = self.prepare || other.prepare;
        self.symmetric = self.symmetric || other.symmetric;
        self.throw_keyids = self.throw_keyids || other.throw_keyids;
        self.wrap = self.wrap || other.wrap;
        assert(self@ =~= old(self)@.union(other@));
    }
}

/// The option that an atom names, if any. The first name that fits wins.
pub open spec fn flag_of_tag(name: Seq<char>) -> Option<EncryptFlag> {
    if name == "always_trust"@ {
        Some(EncryptFlag::AlwaysTrust)
    } else if name == "expect_sign"@ {
        Some(EncryptFlag::ExpectSign)
    } else if name == "no_compress"@ {
        Some(EncryptFlag::NoCompress)
    } else if name == "no_encrypt_to"@ {
        Some(EncryptFlag::NoEncryptTo)
    } else if name == "prepare"@ {
        Some(EncryptFlag::Prepare)
    } else if name == "symmetric"@ {
        Some(EncryptFlag::Symmetric)
    } else if name == "throw_keyids"@ {
        Some(EncryptFlag::ThrowKeyids)
    } else if name == "wrap"@ {
        Some(EncryptFlag::Wrap)
    } else {
        None
    }
}

/// The option that a host value stands for, if any: an atom of the
/// vocabulary.
pub open spec fn term_flag(t: TermView) -> Option<EncryptFlag> {
    match t {
        TermView::Atom(name) => flag_of_tag(name),
        _ => None,
    }
}

/// The set that a sequence of host values stands for: the options that its
/// items name. There is none if any item is not an option's atom. The empty
/// sequence stands for the empty set.
pub open spec fn flag_set(items: Seq<TermView>) -> Option<Set<EncryptFlag>>
    decreases items.len(),
{
    if items.len() == 0 {
        Some(Set::empty())
    } else {
        match (flag_set(items.drop_last()), term_flag(items.last())) {
            (Some(flags), Some(flag)) => Some(flags.insert(flag)),
            _ => None,
        }
    }
}

/// A sequence with a beginning that stands for no set stands for none
/// itself.
pub proof fn lemma_flag_set_prefix(items: Seq<TermView>, n: int)
    requires
        0 <= n <= items.len(),
        flag_set(items.take(n)) is None,
    ensures
        flag_set(items) is None,
    decreases items.len() - n,
{
    if n == items.len() {
        assert(items.take(n) =~= items);
    } else {
        assert(items.take(n + 1).drop_last() =~= items.take(n));
        lemma_flag_set_prefix(items, n + 1);
    }
}

/// What a sequence of host values stands for, spelled out: a set exactly
/// when each item names an option, and then the set of the options named.
pub proof fn lemma_flag_set_members(items: Seq<TermView>)
    ensures
        flag_set(items) is Some <==> (forall|i: int|
            0 <= i < items.len() ==> (#[trigger] term_flag(items[i])) is Some),
        flag_set(items) is Some ==> (forall|flag: EncryptFlag|
            #[trigger] flag_set(items)->Some_0.contains(flag) <==> (exists|i: int|
                0 <= i < items.len() && #[trigger] term_flag(items[i]) == Some(flag))),
    decreases items.len(),
{
    if items.len() > 0 {
        let front = items.drop_last();
        lemma_flag_set_members(front);
        assert(forall|i: int| 0 <= i < front.len() ==> front[i] == items[i]);
        if flag_set(items) is Some {
            assert forall|i: int| 0 <= i < items.len() implies (#[trigger] term_flag(
                items[i],
            )) is Some by {
                if i < front.len() {
                    assert(term_flag(front[i]) is Some);
                }
            }
            assert forall|flag: EncryptFlag| #[trigger]
                flag_set(items)->Some_0.contains(flag) <==> (exists|i: int|
                    0 <= i < items.len() && #[trigger] term_flag(items[i]) == Some(flag)) by {
                if flag_set(front)->Some_0.contains(flag) {
                    let i = choose|i: int|
                        0 <= i < front.len() && #[trigger] term_flag(front[i]) == Some(flag);
                    assert(term_flag(items[i]) == Some(flag));
                }
                if term_flag(items.last()) == Some(flag) {
                    assert(term_flag(items[items.len() - 1]) == Some(flag));
                }
                if exists|i: int|
                    0 <= i < items.len() && #[trigger] term_flag(items[i]) == Some(flag) {
                    let i = choose|i: int|
                        0 <= i < items.len() && #[trigger] term_flag(items[i]) == Some(flag);
                    if i < front.len() {
                        assert(term_flag(front[i]) == Some(flag));
                    }
                }
            }
        } else {
            if forall|i: int| 0 <= i < items.len() ==> (#[trigger] term_flag(items[i])) is Some {
                assert(term_flag(items[items.len() - 1]) is Some);
                assert forall|i: int| 0 <= i < front.len() implies (#[trigger] term_flag(
                    front[i],
                )) is Some by {
                    assert(term_flag(items[i]) is Some);
                }
            }
        }
    }
}

/// The empty sequence stands for the empty set: it is no error.
pub proof fn lemma_empty_list_is_empty_set()
    ensures
        flag_set(Seq::<TermView>::empty()) == Some(Set::<EncryptFlag>::empty()),
{
}

/// An atom that is none of the vocabulary names no option.
pub proof fn lemma_flag_unknown_tag(name: Seq<char>)
    requires
        name != "always_trust"@,
        name != "expect_sign"@,
        name != "no_compress"@,
        name != "no_encrypt_to"@,
        name != "prepare"@,
        name != "symmetric"@,
        name != "throw_keyids"@,
        name != "wrap"@,
    ensures
        term_flag(TermView::Atom(name)) is None,
{
}

/// One item that names no option leaves the whole sequence without a set:
/// reading it is a bad argument, whatever the other items are.
pub proof fn lemma_unknown_item_fails(items: Seq<TermView>, i: int)
    requires
        0 <= i < items.len(),
        term_flag(items[i]) is None,
    ensures
        flag_set(items) is None,
{
    lemma_flag_set_members(items);
}

/// Reads one option from its name. A name outside the vocabulary is a bad
/// argument.
pub fn string_to_flag(name: String) -> (r: Result<EncryptFlags, BridgeError>)
    ensures
        match flag_of_tag(name@) {
            Some(flag) => r is Ok && r->Ok_0@ == Set::<EncryptFlag>::empty().insert(flag),
            None => r == Err::<EncryptFlags, BridgeError>(BridgeError::BadArgument),
        },
{
    if is_tag(&name, "always_trust") {
        Ok(EncryptFlags::only(EncryptFlag::AlwaysTrust))
    } else if is_tag(&name, "expect_sign") {
        Ok(EncryptFlags::only(EncryptFlag::ExpectSign))
    } else if is_tag(&name, "no_compress") {
        Ok(EncryptFlags::only(EncryptFlag::NoCompress))
    } else if is_tag(&name, "no_encrypt_to") {
        Ok(EncryptFlags::only(EncryptFlag::NoEncryptTo))
    } else if is_tag(&name, "prepare") {
        Ok(EncryptFlags::only(EncryptFlag::Prepare))
    } else if is_tag(&name, "symmetric") {
        Ok(EncryptFlags::only(EncryptFlag::Symmetric))
    } else if is_tag(&name, "throw_keyids") {
        Ok(EncryptFlags::only(EncryptFlag::ThrowKeyids))
    } else if is_tag(&name, "wrap") {
        Ok(EncryptFlags::only(EncryptFlag::Wrap))
    } else {
        Err(BridgeError::BadArgument)
    }
}

/// Reads a set of options from the items of a host list. An item that names
/// no option is a bad argument; an empty list gives the empty set.
pub fn arg_to_protocol(atoms: &Vec<Term>) -> (r: Result<EncryptFlags, BridgeError>)
    ensures
        match flag_set(views(atoms@)) {
            Some(flags) => r is Ok && r->Ok_0@ == flags,
            None => r == Err::<EncryptFlags, BridgeError>(BridgeError::BadArgument),
        },
{
    let ghost items = views(atoms@);
    let mut flags = EncryptFlags::empty();
    let mut i: usize = 0;
    assert(items.take(0) =~= Seq::<TermView>::empty());
    while i < atoms.len()
        invariant
            0 <= i <= atoms.len(),
            items == views(atoms@),
            flag_set(items.take(i as int)) == Some(flags@),
        decreases atoms.len() - i,
    {
        proof {
            lemma_term_view(atoms@[i as int]);
            assert(items.take(i + 1).drop_last() =~= items.take(i as int));
            assert(items.take(i + 1).last() == atoms@[i as int]@);
        }
        let flag = match &atoms[i] {
            Term::Atom(name) => string_to_flag(name.clone()),
            _ => Err(BridgeError::BadArgument),
        };
        match flag {
            Ok(flag) => {
                let ghost before = flags@;
                flags.insert(flag);
                assert(flags@ =~= before.insert(term_flag(items[i as int])->Some_0));
            },
            Err(_) => {
                proof {
                    lemma_flag_set_prefix(items, i + 1);
                }
                return Err(BridgeError::BadArgument);
            },
        }
        i = i + 1;
    }
    assert(items.take(i as int) =~= items);
    Ok(flags)
}

} // verus!
