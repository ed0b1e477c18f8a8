//! The executor: applying a parsed command to the store.
//!
//! Every command either succeeds with an optional payload or fails with
//! `NotFound`; no command fails on store access itself, the store being
//! in memory only.

use vstd::prelude::*;

use crate::command::{Command, CommandView};
use crate::store::Store;
use crate::wire::{response_view, KvError, KvErrorView, Response};

verus! {

/// The store contents after a command runs against contents `m`:
/// `INSERT` upserts, `REMOVE` deletes, `CLEAR` empties, and the reading
/// commands leave the store as it was.
pub open spec fn store_after(c: CommandView, m: Map<Seq<char>, Seq<char>>) -> Map<
    Seq<char>,
    Seq<char>,
> {
    match c {
        CommandView::Get { key } => m,
        CommandView::Insert { key, value } => m.insert(key, value),
        CommandView::Remove { key } => m.remove(key),
        CommandView::Contains { key } => m,
        CommandView::Clear => Map::empty(),
    }
}

/// The response a command produces against store contents `m`: `GET` and
/// `REMOVE` report the value under the key or fail with `NotFound`;
/// `INSERT` reports the prior value, if any; `CONTAINS` always succeeds
/// with `TRUE` or `FALSE`; `CLEAR` always succeeds with no payload.
pub open spec fn response_of(c: CommandView, m: Map<Seq<char>, Seq<char>>) -> Result<
    Option<Seq<char>>,
    KvErrorView,
> {
    match c {
        CommandView::Get { key } => if m.dom().contains(key) {
            Ok(Some(m[key]))
        } else {
            Err(KvErrorView::NotFound { key })
        },
        CommandView::Insert { key, value } => if m.dom().contains(key) {
            Ok(Some(m[key]))
        } else {
            Ok(None)
        },
        CommandView::Remove { key } => if m.dom().contains(key) {
            Ok(Some(m[key]))
        } else {
            Err(KvErrorView::NotFound { key })
        },
        CommandView::Contains { key } => if m.dom().contains(key) {
            Ok(Some("TRUE"@))
        } else {
            Ok(Some("FALSE"@))
        },
        CommandView::Clear => Ok(None),
    }
}

/// Apply one command to the store and report its outcome.
pub fn execute(command: Command, store: &mut Store) -> (r: Response)
    ensures
        final(store)@ == store_after(command@, old(store)@),
        response_view(r) == response_of(command@, old(store)@),
{
    match command {
        Command::Get { key } => {
            match store.get(key.as_str()) {
                Some(v) => Ok(Some(v)),
                None => Err(KvError::NotFound { key }),
            }
        },
        Command::Insert { key, value } => {
            match store.insert(key, value) {
                Some(prior) => Ok(Some(prior)),
                None => Ok(None),
            }
        },
        Command::Remove { key } => {
            match store.remove(key.as_str()) {
                Some(prior) => Ok(Some(prior)),
                None => Err(KvError::NotFound { key }),
            }
        },
        Command::Contains { key } => {
            if store.contains_key(key.as_str()) {
                Ok(Some(String::from_str("TRUE")))
            } else {
                Ok(Some(String::from_str("FALSE")))
            }
        },
        Command::Clear => {
            store.clear();
            Ok(None)
        },
    }
}

} // verus!
