//! The body of one job: handling a single request line end to end.
//!
//! The surrounding process reads the raw request from the socket and
//! writes the returned wire string back; everything in between — padding
//! removal, parsing, execution, serialization — happens here. A line
//! that does not parse never touches the store.

use vstd::prelude::*;

use crate::command::{parse_command, parse_spec, tokens_of};
use crate::executor::{execute, response_of, store_after};
use crate::store::Store;
use crate::wire::{response_view, serialize, wire_of, KvErrorView, Response};

verus! {

/// The line with every trailing `pad` character removed.
pub open spec fn trimmed(s: Seq<char>, pad: char) -> Seq<char>
    decreases s.len(),
{
    if s.len() > 0 && s.last() == pad {
        trimmed(s.drop_last(), pad)
    } else {
        s
    }
}

/// Remove every trailing `pad` character from a line, as left behind by
/// a fixed-size read buffer.
pub fn trim_trailing(s: &str, pad: char) -> (r: String)
    ensures
        r@ == trimmed(s@, pad),
{
    let n = s.unicode_len();
    let mut end = n;
    proof {
        assert(s@.subrange(0, n as int) =~= s@);
    }
    while end > 0 && s.get_char(end - 1) == pad
        invariant
            end <= n,
            n == s@.len(),
            trimmed(s@, pad) == trimmed(s@.subrange(0, end as int), pad),
        decreases end,
    {
        proof {
            let part = s@.subrange(0, end as int);
            assert(part.last() == s@[end - 1]);
            assert(part.drop_last() =~= s@.subrange(0, end - 1));
        }
        end = end - 1;
    }
    proof {
        assert(s@.subrange(0, end as int).len() == end);
        if end > 0 {
            assert(s@.subrange(0, end as int).last() == s@[end - 1]);
        }
    }
    String::from_str(s.substring_char(0, end))
}

/// The store contents after one request line is handled against
/// contents `m`: the effect of its command, or `m` itself when the line
/// does not parse.
pub open spec fn line_store_after(line: Seq<char>, sep: char, m: Map<Seq<char>, Seq<char>>) -> Map<
    Seq<char>,
    Seq<char>,
> {
    match parse_spec(tokens_of(line, sep)) {
        Some(c) => store_after(c, m),
        None => m,
    }
}

/// The response for one request line against store contents `m`: the
/// response of its command, or the parse error when the line does not
/// parse.
pub open spec fn line_response(line: Seq<char>, sep: char, m: Map<Seq<char>, Seq<char>>) -> Result<
    Option<Seq<char>>,
    KvErrorView,
> {
    match parse_spec(tokens_of(line, sep)) {
        Some(c) => response_of(c, m),
        None => Err(KvErrorView::Parse),
    }
}

/// Parse one request line and, when it parses, run its command against
/// the store.
pub fn handle_request(line: &str, sep: char, store: &mut Store) -> (r: Response)
    ensures
        final(store)@ == line_store_after(line@, sep, old(store)@),
        response_view(r) == line_response(line@, sep, old(store)@),
{
    match parse_command(line, sep) {
        Ok(command) => execute(command, store),
        Err(e) => Err(e),
    }
}

/// Handle one raw request as read from the socket: strip the trailing
/// NUL padding of the read buffer, parse, execute, and serialize the
/// outcome onto the wire.
pub fn handle_line(raw: &str, sep: char, store: &mut Store) -> (out: String)
    ensures
        final(store)@ == line_store_after(trimmed(raw@, '\0'), sep, old(store)@),
        out@ == wire_of(line_response(trimmed(raw@, '\0'), sep, old(store)@), sep),
{
    let line = trim_trailing(raw, '\0');
    let response = handle_request(line.as_str(), sep, store);
    serialize(response, sep)
}

} // verus!
