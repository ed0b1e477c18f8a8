//! The guarantees of the store's semantics, stated over the mathematical
//! model and proved once for all contents, keys and values.

use vstd::prelude::*;

use crate::command::{lemma_tokens_of_pair, parse_spec, tokens_of, CommandView};
use crate::executor::{response_of, store_after};
use crate::server::{line_response, line_store_after};
use crate::wire::KvErrorView;

verus! {

/// A key never inserted is not found: against contents without `k`,
/// `GET k` fails with `NotFound` and leaves the store as it was.
pub proof fn lemma_get_absent(m: Map<Seq<char>, Seq<char>>, k: Seq<char>)
    requires
        !m.dom().contains(k),
    ensures
        response_of(CommandView::Get { key: k }, m) == Err::<Option<Seq<char>>, KvErrorView>(
            KvErrorView::NotFound { key: k },
        ),
        store_after(CommandView::Get { key: k }, m) == m,
{
}

/// A fresh insert succeeds with no prior value, and a get right after
/// returns the value just inserted.
pub proof fn lemma_insert_then_get(m: Map<Seq<char>, Seq<char>>, k: Seq<char>, v: Seq<char>)
    requires
        !m.dom().contains(k),
    ensures
        response_of(CommandView::Insert { key: k, value: v }, m) == Ok::<
            Option<Seq<char>>,
            KvErrorView,
        >(None),
        response_of(CommandView::Get { key: k }, store_after(CommandView::Insert { key: k, value: v }, m))
            == Ok::<Option<Seq<char>>, KvErrorView>(Some(v)),
{
}

/// Last writer wins per key: a second insert under the same key reports
/// the first value as the prior one, and a get afterwards returns the
/// second value.
pub proof fn lemma_insert_twice(
    m: Map<Seq<char>, Seq<char>>,
    k: Seq<char>,
    v1: Seq<char>,
    v2: Seq<char>,
)
    ensures
        ({
            let m1 = store_after(CommandView::Insert { key: k, value: v1 }, m);
            let m2 = store_after(CommandView::Insert { key: k, value: v2 }, m1);
            &&& response_of(CommandView::Insert { key: k, value: v2 }, m1) == Ok::<
                Option<Seq<char>>,
                KvErrorView,
            >(Some(v1))
            &&& response_of(CommandView::Get { key: k }, m2) == Ok::<
                Option<Seq<char>>,
                KvErrorView,
            >(Some(v2))
        }),
{
}

/// A remove after an insert reports the inserted value; a get after the
/// remove fails with `NotFound`, and so does removing the key again.
pub proof fn lemma_insert_then_remove(m: Map<Seq<char>, Seq<char>>, k: Seq<char>, v: Seq<char>)
    ensures
        ({
            let m1 = store_after(CommandView::Insert { key: k, value: v }, m);
            let m2 = store_after(CommandView::Remove { key: k }, m1);
            &&& response_of(CommandView::Remove { key: k }, m1) == Ok::<
                Option<Seq<char>>,
                KvErrorView,
            >(Some(v))
            &&& response_of(CommandView::Get { key: k }, m2) == Err::<
                Option<Seq<char>>,
                KvErrorView,
            >(KvErrorView::NotFound { key: k })
            &&& response_of(CommandView::Remove { key: k }, m2) == Err::<
                Option<Seq<char>>,
                KvErrorView,
            >(KvErrorView::NotFound { key: k })
        }),
{
}

/// `CONTAINS` answers `FALSE` before an insertion and `TRUE` after it,
/// whatever the value inserted, and never changes the store.
pub proof fn lemma_contains(m: Map<Seq<char>, Seq<char>>, k: Seq<char>, v: Seq<char>)
    requires
        !m.dom().contains(k),
    ensures
        response_of(CommandView::Contains { key: k }, m) == Ok::<Option<Seq<char>>, KvErrorView>(
            Some("FALSE"@),
        ),
        response_of(
            CommandView::Contains { key: k },
            store_after(CommandView::Insert { key: k, value: v }, m),
        ) == Ok::<Option<Seq<char>>, KvErrorView>(Some("TRUE"@)),
        store_after(CommandView::Contains { key: k }, m) == m,
{
}

/// `CLEAR` empties the store: it always succeeds with no payload, and a
/// get of any key afterwards — inserted before or not — fails with
/// `NotFound`.
pub proof fn lemma_clear(m: Map<Seq<char>, Seq<char>>, k: Seq<char>)
    ensures
        response_of(CommandView::Clear, m) == Ok::<Option<Seq<char>>, KvErrorView>(None),
        response_of(CommandView::Get { key: k }, store_after(CommandView::Clear, m)) == Err::<
            Option<Seq<char>>,
            KvErrorView,
        >(KvErrorView::NotFound { key: k }),
{
}

/// `CONTAINS`, taken through the parser: for any key, the request line
/// `CONTAINS<sep><key>` parses, never fails, answers `TRUE` exactly when
/// the key is present and `FALSE` when it is not — whatever value is
/// stored — and leaves the store unchanged. The key, like the keyword,
/// must hold no separator character: the protocol offers no escaping,
/// a limitation it accepts.
pub proof fn lemma_contains_line(k: Seq<char>, sep: char, m: Map<Seq<char>, Seq<char>>)
    requires
        !k.contains(sep),
        !"CONTAINS"@.contains(sep),
    ensures
        line_store_after("CONTAINS"@ + seq![sep] + k, sep, m) == m,
        line_response("CONTAINS"@ + seq![sep] + k, sep, m) == Ok::<Option<Seq<char>>, KvErrorView>(
            Some(
                if m.dom().contains(k) {
                    "TRUE"@
                } else {
                    "FALSE"@
                },
            ),
        ),
{
    lemma_tokens_of_pair("CONTAINS"@, k, sep);
    let toks = tokens_of("CONTAINS"@ + seq![sep] + k, sep);
    assert(toks == seq!["CONTAINS"@, k]);
    assert(toks.len() == 2);
    assert(toks[0] == "CONTAINS"@);
    assert(toks[1] == k);
    reveal_strlit("CONTAINS");
    reveal_strlit("GET");
    reveal_strlit("INSERT");
    reveal_strlit("REMOVE");
    assert(parse_spec(toks) == Some(CommandView::Contains { key: k }));
}

/// The same, at the protocol's configured separator: the unit separator
/// occurs in no keyword, so only the key needs to be free of it.
pub proof fn lemma_contains_line_at_sep(k: Seq<char>, m: Map<Seq<char>, Seq<char>>)
    requires
        !k.contains(crate::SEP),
    ensures
        line_store_after("CONTAINS"@ + seq![crate::SEP] + k, crate::SEP, m) == m,
        line_response("CONTAINS"@ + seq![crate::SEP] + k, crate::SEP, m) == Ok::<
            Option<Seq<char>>,
            KvErrorView,
        >(
            Some(
                if m.dom().contains(k) {
                    "TRUE"@
                } else {
                    "FALSE"@
                },
            ),
        ),
{
    reveal_strlit("CONTAINS");
    assert(!"CONTAINS"@.contains(crate::SEP));
    lemma_contains_line(k, crate::SEP, m);
}

/// A request line the grammar does not recognize — wrong token count,
/// unknown keyword, the empty line — fails with the parse error and
/// never mutates the store.
pub proof fn lemma_malformed_line(line: Seq<char>, sep: char, m: Map<Seq<char>, Seq<char>>)
    requires
        parse_spec(tokens_of(line, sep)) is None,
    ensures
        line_store_after(line, sep, m) == m,
        line_response(line, sep, m) == Err::<Option<Seq<char>>, KvErrorView>(KvErrorView::Parse),
{
}

} // verus!
