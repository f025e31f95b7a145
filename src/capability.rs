//! Reads the `#[com(...)]` attribute: a list of the words `send`, `sync` and
//! `debug`, each at most once.
use vstd::prelude::*;
use crate::syntax::{is_word, AttributeSyntax, ExpandError, MetaSyntax, NestedMetaSyntax};

verus! {

/// The implementations asked for besides the wrapper itself.
#[derive(Clone, Copy, Debug, PartialEq, Eq, Structural)]
pub struct Capabilities {
    pub send: bool,
    pub sync: bool,
    pub debug: bool,
}

/// No capability at all: what a declaration without a `com` attribute gets.
pub open spec fn no_capabilities() -> Capabilities {
    Capabilities { send: false, sync: false, debug: false }
}

/// Whether an attribute is the `com` attribute: its path is the one identifier `com`.
pub open spec fn is_com(attr: AttributeSyntax) -> bool {
    attr.path@.len() == 1 && attr.path@[0]@ == "com"@
}

/// The first `com` attribute among `attrs`.
pub open spec fn first_com(attrs: Seq<AttributeSyntax>) -> Option<AttributeSyntax>
    decreases attrs.len(),
{
    if attrs.len() == 0 {
        None
    } else if is_com(attrs[0]) {
        Some(attrs[0])
    } else {
        first_com(attrs.drop_first())
    }
}

/// Whether `item` is the bare word `w`.
pub open spec fn is_word_item(item: NestedMetaSyntax, w: Seq<char>) -> bool {
    match item {
        NestedMetaSyntax::Word(s) => s@ == w,
        NestedMetaSyntax::Other => false,
    }
}

/// Whether `item` is one of the three capability words.
pub open spec fn is_known_item(item: NestedMetaSyntax) -> bool {
    is_word_item(item, "send"@) || is_word_item(item, "sync"@) || is_word_item(item, "debug"@)
}

/// Adds one list item to the capabilities read so far.
pub open spec fn add_item(acc: Capabilities, item: NestedMetaSyntax) -> Result<Capabilities, ExpandError> {
    if is_word_item(item, "send"@) {
        if acc.send { Err(ExpandError::DuplicateParams) } else { Ok(Capabilities { send: true, ..acc }) }
    } else if is_word_item(item, "sync"@) {
        if acc.sync { Err(ExpandError::DuplicateParams) } else { Ok(Capabilities { sync: true, ..acc }) }
    } else if is_word_item(item, "debug"@) {
        if acc.debug { Err(ExpandError::DuplicateParams) } else { Ok(Capabilities { debug: true, ..acc }) }
    } else {
        Err(ExpandError::InvalidParams)
    }
}

/// The capabilities that a list of items names, read from the left; the first
/// item that is not a capability word, or that repeats one, decides the error.
pub open spec fn read_items(items: Seq<NestedMetaSyntax>) -> Result<Capabilities, ExpandError>
    decreases items.len(),
{
    if items.len() == 0 {
        Ok(no_capabilities())
    } else {
        match read_items(items.drop_last()) {
            Ok(acc) => add_item(acc, items.last()),
            Err(e) => Err(e),
        }
    }
}

/// Once a prefix of the items is refused, the whole list is refused with the same error.
proof fn lemma_error_stays(items: Seq<NestedMetaSyntax>, k: int)
    requires
        0 <= k <= items.len(),
        read_items(items.take(k)) is Err,
    ensures
        read_items(items) == read_items(items.take(k)),
    decreases items.len() - k,
{
    if k == items.len() {
        assert(items.take(k) =~= items);
    } else {
        assert(items.take(k + 1).drop_last() =~= items.take(k));
        lemma_error_stays(items, k + 1);
    }
}

/// Whether two list items are the same bare word.
pub open spec fn same_word(a: NestedMetaSyntax, b: NestedMetaSyntax) -> bool {
    match (a, b) {
        (NestedMetaSyntax::Word(x), NestedMetaSyntax::Word(y)) => x@ == y@,
        _ => false,
    }
}

/// Whether some word occurs twice among `items`.
pub open spec fn repeats_word(items: Seq<NestedMetaSyntax>) -> bool {
    exists|i: int, j: int| 0 <= i < j < items.len() && same_word(items[i], items[j])
}

/// Whether the word `w` occurs among `items`.
pub open spec fn names_word(items: Seq<NestedMetaSyntax>, w: Seq<char>) -> bool {
    exists|k: int| 0 <= k < items.len() && is_word_item(#[trigger] items[k], w)
}

/// The capabilities whose words occur among `items`.
pub open spec fn named_capabilities(items: Seq<NestedMetaSyntax>) -> Capabilities {
    Capabilities {
        send: names_word(items, "send"@),
        sync: names_word(items, "sync"@),
        debug: names_word(items, "debug"@),
    }
}

/// A list of capability words is refused as a repeat exactly when some word
/// occurs twice; otherwise each capability is set exactly when its word
/// occurs, so the order of the words does not matter.
pub proof fn lemma_capability_words(items: Seq<NestedMetaSyntax>)
    requires
        forall|k: int| 0 <= k < items.len() ==> is_known_item(#[trigger] items[k]),
    ensures
        repeats_word(items) ==> read_items(items) == Err::<Capabilities, ExpandError>(
            ExpandError::DuplicateParams,
        ),
        !repeats_word(items) ==> read_items(items) == Ok::<Capabilities, ExpandError>(
            named_capabilities(items),
        ),
    decreases items.len(),
{
    reveal_strlit("send");
    reveal_strlit("sync");
    reveal_strlit("debug");
    assert("send"@ != "sync"@ && "send"@ != "debug"@ && "sync"@ != "debug"@) by {
        assert("send"@[1] != "sync"@[1]);
        assert("send"@.len() != "debug"@.len());
        assert("sync"@.len() != "debug"@.len());
    }
    if items.len() == 0 {
        assert(named_capabilities(items) == no_capabilities());
    } else {
        let init = items.drop_last();
        let n = items.len() - 1;
        assert forall|k: int| 0 <= k < init.len() implies is_known_item(#[trigger] init[k]) by {
            assert(init[k] == items[k]);
        }
        lemma_capability_words(init);
        let last = items.last();
        assert(last == items[n]);
        if repeats_word(init) {
            let (i, j) = choose|i: int, j: int| 0 <= i < j < init.len() && same_word(init[i], init[j]);
            assert(same_word(items[i], items[j]));
        } else {
            let acc = named_capabilities(init);
            // Each capability word stands for the item it matches.
            assert forall|k: int, w: Seq<char>| 0 <= k < n && #[trigger] is_word_item(items[k], w)
                implies names_word(init, w) by {
                assert(init[k] == items[k]);
            }
            assert forall|w: Seq<char>| names_word(init, w) implies names_word(items, w) by {
                let k = choose|k: int| 0 <= k < init.len() && is_word_item(#[trigger] init[k], w);
                assert(items[k] == init[k]);
            }
            if repeats_word(items) {
                let (i, j) = choose|i: int, j: int| 0 <= i < j < items.len() && same_word(items[i], items[j]);
                if j < n {
                    assert(init[i] == items[i] && init[j] == items[j]);
                    assert(same_word(init[i], init[j]));
                } else {
                    assert(is_known_item(items[i]));
                    if is_word_item(last, "send"@) {
                        assert(is_word_item(items[i], "send"@));
                        assert(acc.send);
                    } else if is_word_item(last, "sync"@) {
                        assert(is_word_item(items[i], "sync"@));
                        assert(acc.sync);
                    } else {
                        assert(is_word_item(items[i], "debug"@));
                        assert(acc.debug);
                    }
                }
            } else {
                assert forall|w: Seq<char>| names_word(items, w) && !is_word_item(last, w)
                    implies names_word(init, w) by {
                    let k = choose|k: int| 0 <= k < items.len() && is_word_item(#[trigger] items[k], w);
                    assert(k != n);
                }
                if is_word_item(last, "send"@) {
                    if acc.send {
                        let k = choose|k: int| 0 <= k < init.len() && is_word_item(#[trigger] init[k], "send"@);
                        assert(same_word(items[k], items[n]));
                    }
                    assert(!is_word_item(last, "sync"@) && !is_word_item(last, "debug"@));
                } else if is_word_item(last, "sync"@) {
                    if acc.sync {
                        let k = choose|k: int| 0 <= k < init.len() && is_word_item(#[trigger] init[k], "sync"@);
                        assert(same_word(items[k], items[n]));
                    }
                    assert(!is_word_item(last, "debug"@));
                } else {
                    if acc.debug {
                        let k = choose|k: int| 0 <= k < init.len() && is_word_item(#[trigger] init[k], "debug"@);
                        assert(same_word(items[k], items[n]));
                    }
                }
                assert(read_items(items) == add_item(acc, last));
            }
        }
    }
}

/// The capabilities that an attribute payload names.
pub open spec fn read_meta(meta: MetaSyntax) -> Result<Capabilities, ExpandError> {
    match meta {
        MetaSyntax::List(items) => read_items(items@),
        _ => Err(ExpandError::InvalidParams),
    }
}

/// The capabilities of a declaration with attributes `attrs`: those of its
/// first `com` attribute, or none where it has no such attribute.
pub open spec fn capabilities_of(attrs: Seq<AttributeSyntax>) -> Result<Capabilities, ExpandError> {
    match first_com(attrs) {
        None => Ok(no_capabilities()),
        Some(a) => read_meta(a.meta),
    }
}

/// Whether `attr` is the `com` attribute.
pub fn is_com_attr(attr: &AttributeSyntax) -> (r: bool)
    ensures
        r == is_com(*attr),
{
    attr.path.len() == 1 && is_word(&attr.path[0], "com")
}

/// The capabilities named by the first `com` attribute among `attrs`.
pub fn parse_attr(attrs: &Vec<AttributeSyntax>) -> (r: Result<Capabilities, ExpandError>)
    ensures
        r == capabilities_of(attrs@),
{
    let mut i: usize = 0;
    assert(attrs@.subrange(0, attrs@.len() as int) =~= attrs@);
    while i < attrs.len() && !is_com_attr(&attrs[i])
        invariant
            0 <= i <= attrs@.len(),
            first_com(attrs@) == first_com(attrs@.subrange(i as int, attrs@.len() as int)),
        decreases attrs@.len() - i,
    {
        assert(attrs@.subrange(i as int, attrs@.len() as int).drop_first()
            =~= attrs@.subrange(i + 1, attrs@.len() as int));
        i = i + 1;
    }
    if i == attrs.len() {
        return Ok(Capabilities { send: false, sync: false, debug: false });
    }
    let com_attr = &attrs[i];
    assert(attrs@.subrange(i as int, attrs@.len() as int)[0] == attrs@[i as int]);
    assert(first_com(attrs@) == Some(attrs@[i as int]));
    let items = match &com_attr.meta {
        MetaSyntax::List(items) => items,
        _ => return Err(ExpandError::InvalidParams),
    };
    let mut send = false;
    let mut sync = false;
    let mut debug = false;
    let mut j: usize = 0;
    while j < items.len()
        invariant
            0 <= j <= items@.len(),
            read_items(items@.take(j as int)) == Ok::<Capabilities, ExpandError>(
                Capabilities { send, sync, debug },
            ),
            capabilities_of(attrs@) == read_items(items@),
        decreases items@.len() - j,
    {
        assert(items@.take(j + 1).drop_last() =~= items@.take(j as int));
        assert(items@.take(j + 1).last() == items@[j as int]);
        let ident = match &items[j] {
            NestedMetaSyntax::Word(ident) => ident,
            NestedMetaSyntax::Other => {
                proof {
                    lemma_error_stays(items@, j + 1);

                }
                return Err(ExpandError::InvalidParams);
            },
        };
        if is_word(ident, "send") {
            if send {
                proof {
                    lemma_error_stays(items@, j + 1);
                }
                return Err(ExpandError::DuplicateParams);
            }
            send = true;
        } else if is_word(ident, "sync") {
            if sync {
                proof {
                    lemma_error_stays(items@, j + 1);
                }
                return Err(ExpandError::DuplicateParams);
            }
            sync = true;
        } else if is_word(ident, "debug") {
            if debug {
                proof {
                    lemma_error_stays(items@, j + 1);
                }
                return Err(ExpandError::DuplicateParams);
            }
            debug = true;
        } else {
            proof {
                lemma_error_stays(items@, j + 1);
            }
            return Err(ExpandError::InvalidParams);
        }
        j = j + 1;
    }
    assert(items@.take(j as int) =~= items@);
    Ok(Capabilities { send, sync, debug })
}


/// Whether the first `com` attribute among `attrs` is the list `items`.
pub open spec fn com_list_is(attrs: Seq<AttributeSyntax>, items: Seq<NestedMetaSyntax>) -> bool {
    match first_com(attrs) {
        Some(a) => match a.meta {
            MetaSyntax::List(v) => v@ == items,
            _ => false,
        },
        None => false,
    }
}

/// A `com` attribute that lists only capability words, one of them twice, is
/// refused as a repeat, and no capability is read from it.
pub proof fn lemma_duplicate_rejected(attrs: Seq<AttributeSyntax>, items: Seq<NestedMetaSyntax>)
    requires
        com_list_is(attrs, items),
        forall|k: int| 0 <= k < items.len() ==> is_known_item(#[trigger] items[k]),
        repeats_word(items),
    ensures
        capabilities_of(attrs) == Err::<Capabilities, ExpandError>(ExpandError::DuplicateParams),
{
    lemma_capability_words(items);
}

/// A `com` attribute that holds an item other than a capability word is
/// refused as invalid, where no word repeats before the first such item.
pub proof fn lemma_unknown_rejected(
    attrs: Seq<AttributeSyntax>,
    items: Seq<NestedMetaSyntax>,
    u: int,
)
    requires
        com_list_is(attrs, items),
        0 <= u < items.len(),
        !is_known_item(items[u]),
        forall|k: int| 0 <= k < u ==> is_known_item(#[trigger] items[k]),
        !repeats_word(items.take(u)),
    ensures
        capabilities_of(attrs) == Err::<Capabilities, ExpandError>(ExpandError::InvalidParams),
{
    let head = items.take(u);
    assert forall|k: int| 0 <= k < head.len() implies is_known_item(#[trigger] head[k]) by {
        assert(head[k] == items[k]);
    }
    lemma_capability_words(head);
    assert(items.take(u + 1).drop_last() =~= head);
    assert(items.take(u + 1).last() == items[u]);
    lemma_error_stays(items, u + 1);
}

/// A `com` attribute whose payload is not a parenthesized list, or cannot be
/// read at all, is refused as invalid.
pub proof fn lemma_non_list_rejected(attrs: Seq<AttributeSyntax>)
    requires
        first_com(attrs) matches Some(a) && !(a.meta is List),
    ensures
        capabilities_of(attrs) == Err::<Capabilities, ExpandError>(ExpandError::InvalidParams),
{
}

/// A declaration without a `com` attribute gets no capability.
pub proof fn lemma_no_com_attribute(attrs: Seq<AttributeSyntax>)
    requires
        forall|k: int| 0 <= k < attrs.len() ==> !is_com(#[trigger] attrs[k]),
    ensures
        capabilities_of(attrs) == Ok::<Capabilities, ExpandError>(no_capabilities()),
    decreases attrs.len(),
{
    if attrs.len() > 0 {
        let rest = attrs.drop_first();
        assert(!is_com(attrs[0]));
        assert forall|k: int| 0 <= k < rest.len() implies !is_com(#[trigger] rest[k]) by {
            assert(rest[k] == attrs[k + 1]);
        }
        lemma_no_com_attribute(rest);
    }
}

} // verus!
