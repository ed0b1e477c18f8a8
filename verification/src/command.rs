//! The command grammar and its parser.
//!
//! A request line is split on the configured separator character into
//! tokens; the first token picks the keyword and the rest are its
//! arguments, with a fixed arity per keyword. Any mismatch — wrong token
//! count, unrecognized keyword, empty line — is a parse failure carrying
//! no further detail. Tokens are used verbatim: no trimming, no escaping.

use vstd::prelude::*;

use crate::wire::KvError;

verus! {

/// A validated request: the only values the executor accepts.
pub enum Command {
    /// Look a key up.
    Get { key: String },
    /// Insert a value under a key, replacing any prior value.
    Insert { key: String, value: String },
    /// Delete a key and its value.
    Remove { key: String },
    /// Ask whether a key is present.
    Contains { key: String },
    /// Empty the store.
    Clear,
}

/// The mathematical counterpart of [`Command`], over sequences of characters.
pub enum CommandView {
    Get { key: Seq<char> },
    Insert { key: Seq<char>, value: Seq<char> },
    Remove { key: Seq<char> },
    Contains { key: Seq<char> },
    Clear,
}

impl View for Command {
    type V = CommandView;

    open spec fn view(&self) -> CommandView {
        match self {
            Command::Get { key } => CommandView::Get { key: key@ },
            Command::Insert { key, value } => CommandView::Insert { key: key@, value: value@ },
            Command::Remove { key } => CommandView::Remove { key: key@ },
            Command::Contains { key } => CommandView::Contains { key: key@ },
            Command::Clear => CommandView::Clear,
        }
    }
}

/// The tokens of `s` once `cur` holds the characters of the current token
/// read so far: each occurrence of `sep` ends a token, and the end of the
/// line ends the last one. Splitting always yields at least one token.
pub open spec fn split_from(s: Seq<char>, sep: char, cur: Seq<char>) -> Seq<Seq<char>>
    decreases s.len(),
{
    if s.len() == 0 {
        seq![cur]
    } else if s[0] == sep {
        seq![cur] + split_from(s.drop_first(), sep, Seq::empty())
    } else {
        split_from(s.drop_first(), sep, cur.push(s[0]))
    }
}

/// The tokens of a request line, split on `sep`.
pub open spec fn tokens_of(s: Seq<char>, sep: char) -> Seq<Seq<char>> {
    split_from(s, sep, Seq::empty())
}

/// The grammar: which token sequences form a command, and which command.
/// The first token is matched case-sensitively against the keyword set,
/// and each keyword fixes the token count, keyword included.
pub open spec fn parse_spec(toks: Seq<Seq<char>>) -> Option<CommandView> {
    if toks.len() == 0 {
        None
    } else if toks[0] == "GET"@ {
        if toks.len() == 2 {
            Some(CommandView::Get { key: toks[1] })
        } else {
            None
        }
    } else if toks[0] == "INSERT"@ {
        if toks.len() == 3 {
            Some(CommandView::Insert { key: toks[1], value: toks[2] })
        } else {
            None
        }
    } else if toks[0] == "REMOVE"@ {
        if toks.len() == 2 {
            Some(CommandView::Remove { key: toks[1] })
        } else {
            None
        }
    } else if toks[0] == "CONTAINS"@ {
        if toks.len() == 2 {
            Some(CommandView::Contains { key: toks[1] })
        } else {
            None
        }
    } else if toks[0] == "CLEAR"@ {
        if toks.len() == 1 {
            Some(CommandView::Clear)
        } else {
            None
        }
    } else {
        None
    }
}

/// Separator-free characters extend the token under construction:
/// splitting `u + s` is splitting `s` with `u` appended to the current
/// token, when `u` holds no separator.
pub proof fn lemma_split_from_no_sep(u: Seq<char>, s: Seq<char>, sep: char, cur: Seq<char>)
    requires
        !u.contains(sep),
    ensures
        split_from(u + s, sep, cur) == split_from(s, sep, cur + u),
    decreases u.len(),
{
    if u.len() == 0 {
        assert(u + s =~= s);
        assert(cur + u =~= cur);
    } else {
        assert(u[0] != sep) by {
            if u[0] == sep {
                assert(u.contains(sep));
            }
        }
        assert((u + s)[0] == u[0]);
        assert((u + s).drop_first() =~= u.drop_first() + s);
        assert(!u.drop_first().contains(sep)) by {
            if u.drop_first().contains(sep) {
                let i = choose|i: int| 0 <= i < u.drop_first().len() && u.drop_first()[i] == sep;
                assert(u[i + 1] == sep);
                assert(u.contains(sep));
            }
        }
        lemma_split_from_no_sep(u.drop_first(), s, sep, cur.push(u[0]));
        assert(cur.push(u[0]) + u.drop_first() =~= cur + u);
    }
}

/// A line of one token, the separator, and a second token splits back
/// into exactly those two tokens, when neither holds the separator.
pub proof fn lemma_tokens_of_pair(a: Seq<char>, b: Seq<char>, sep: char)
    requires
        !a.contains(sep),
        !b.contains(sep),
    ensures
        tokens_of(a + seq![sep] + b, sep) == seq![a, b],
{
    assert(a + seq![sep] + b =~= a + (seq![sep] + b));
    lemma_split_from_no_sep(a, seq![sep] + b, sep, Seq::empty());
    assert(Seq::<char>::empty() + a =~= a);
    assert((seq![sep] + b)[0] == sep);
    assert((seq![sep] + b).drop_first() =~= b);
    lemma_split_from_no_sep(b, Seq::empty(), sep, Seq::empty());
    assert(b + Seq::<char>::empty() =~= b);
    assert(Seq::<char>::empty() + b =~= b);
    assert(split_from(Seq::<char>::empty(), sep, b) == seq![b]);
    assert(seq![a] + seq![b] =~= seq![a, b]);
}

/// Split a request line on `sep` into its tokens, verbatim.
pub fn split_line(s: &str, sep: char) -> (toks: Vec<String>)
    ensures
        toks.deep_view() == tokens_of(s@, sep),
        toks.len() >= 1,
{
    let n = s.unicode_len();
    let mut toks: Vec<String> = Vec::new();
    let mut start: usize = 0;
    let mut i: usize = 0;
    proof {
        assert(s@.skip(0) =~= s@);
        assert(s@.subrange(0, 0) =~= Seq::<char>::empty());
        assert(toks.deep_view() =~= Seq::<Seq<char>>::empty());
        assert(toks.deep_view() + split_from(s@, sep, Seq::empty()) =~= split_from(
            s@,
            sep,
            Seq::empty(),
        ));
    }
    while i < n
        invariant
            start <= i <= n,
            n == s@.len(),
            tokens_of(s@, sep) == toks.deep_view() + split_from(
                s@.skip(i as int),
                sep,
                s@.subrange(start as int, i as int),
            ),
        decreases n - i,
    {
        let c = s.get_char(i);
        proof {
            assert(s@.skip(i as int).drop_first() =~= s@.skip(i + 1));
            assert(s@.skip(i as int)[0] == s@[i as int]);
        }
        if c == sep {
            let tok = String::from_str(s.substring_char(start, i));
            let ghost old_toks = toks.deep_view();
            let ghost cur = s@.subrange(start as int, i as int);
            toks.push(tok);
            proof {
                let rest = split_from(s@.skip(i + 1), sep, Seq::empty());
                assert(split_from(s@.skip(i as int), sep, cur) == seq![cur] + rest);
                assert(toks.deep_view() =~= old_toks.push(cur));
                assert(old_toks + (seq![cur] + rest) =~= old_toks.push(cur) + rest);
            }
            start = i + 1;
            proof {
                assert(s@.subrange(start as int, start as int) =~= Seq::<char>::empty());
            }
        } else {
            proof {
                assert(s@.subrange(start as int, i + 1) =~= s@.subrange(start as int, i as int)
                    .push(s@[i as int]));
            }
        }
        i = i + 1;
    }
    let tok = String::from_str(s.substring_char(start, n));
    let ghost old_toks = toks.deep_view();
    let ghost cur = s@.subrange(start as int, n as int);
    toks.push(tok);
    proof {
        assert(s@.skip(n as int) =~= Seq::<char>::empty());
        assert(split_from(s@.skip(n as int), sep, cur) == seq![cur]);
        assert(toks.deep_view() =~= old_toks.push(cur));
        assert(old_toks + seq![cur] =~= old_toks.push(cur));
    }
    toks
}

/// Parse one request line, split on `sep`, into a command; any line the
/// grammar does not recognize fails with the parse error.
pub fn parse_command(line: &str, sep: char) -> (r: Result<Command, KvError>)
    ensures
        match r {
            Ok(cmd) => parse_spec(tokens_of(line@, sep)) == Some(cmd@),
            Err(e) => parse_spec(tokens_of(line@, sep)) is None && e@ is Parse,
        },
{
    let toks = split_line(line, sep);
    let ghost toks_v = toks.deep_view();
    let kw = &toks[0];
    proof {
        assert(toks_v[0] == toks@[0]@);
    }
    if *kw == String::from_str("GET") {
        if toks.len() == 2 {
            Ok(Command::Get { key: toks[1].clone() })
        } else {
            Err(KvError::Parse)
        }
    } else if *kw == String::from_str("INSERT") {
        if toks.len() == 3 {
            Ok(Command::Insert { key: toks[1].clone(), value: toks[2].clone() })
        } else {
            Err(KvError::Parse)
        }
    } else if *kw == String::from_str("REMOVE") {
        if toks.len() == 2 {
            Ok(Command::Remove { key: toks[1].clone() })
        } else {
            Err(KvError::Parse)
        }
    } else if *kw == String::from_str("CONTAINS") {
        if toks.len() == 2 {
            Ok(Command::Contains { key: toks[1].clone() })
        } else {
            Err(KvError::Parse)
        }
    } else if *kw == String::from_str("CLEAR") {
        if toks.len() == 1 {
            Ok(Command::Clear)
        } else {
            Err(KvError::Parse)
        }
    } else {
        Err(KvError::Parse)
    }
}

} // verus!
