//! How the arguments of a tool call become a query.
//!
//! An argument arrives as a JSON value; what the rules below read of it is
//! held in an [`ArgValue`].

use vstd::prelude::*;
use crate::number::{parse_u64, parse_unsigned};
use crate::query::{QueryModel, QueryOptions};
use crate::text::{
    buffers, chars_of, extend, same_text, split, split_on, string_of, texts, trim, trimmed,
};

verus! {

/// What the rules read of an argument.
#[derive(Debug, Clone)]
pub enum ArgValue {
    /// A number that is an integer of 64 bits.
    Integer(i64),
    /// A string.
    Text(String),
    /// A boolean.
    Flag(bool),
    /// Anything else.
    Other,
}

/// The page size where the caller names none.
pub const DEFAULT_TOP: usize = 50;

/// The largest page size.
pub const MAX_TOP: usize = 1000;

/// The view of an optional argument as a text, where it is one.
pub open spec fn text_arg_of(arg: Option<ArgValue>) -> Option<Seq<char>> {
    match arg {
        Some(ArgValue::Text(t)) => Some(t@),
        _ => None,
    }
}

/// A count: an integer, cut to the machine word, or a text that is an
/// unsigned decimal fitting the machine word.
pub open spec fn number_arg_of(arg: Option<ArgValue>) -> Option<nat> {
    match arg {
        Some(ArgValue::Integer(n)) => Some((n as usize) as nat),
        Some(ArgValue::Text(t)) => parse_unsigned(t@, usize::MAX as nat),
        _ => None,
    }
}

/// A flag: a boolean, or a text, which counts as set when it is `true`.
pub open spec fn flag_arg_of(arg: Option<ArgValue>) -> bool {
    match arg {
        Some(ArgValue::Text(t)) => t@ == "true"@,
        Some(ArgValue::Flag(b)) => b,
        _ => false,
    }
}

/// The names in a comma-separated list, each without its outer white space.
pub open spec fn names_in(text: Seq<char>) -> Seq<Seq<char>> {
    split(text, ',').map_values(|piece: Seq<char>| trim(piece))
}

/// A list of names: a text, split at its commas.
pub open spec fn list_arg_of(arg: Option<ArgValue>) -> Option<Seq<Seq<char>>> {
    match arg {
        Some(ArgValue::Text(t)) => Some(names_in(t@)),
        _ => None,
    }
}

/// The page size: what the caller asked for, 50 where it named none, and
/// never more than 1000.
pub open spec fn page_limit_of(top: Option<nat>) -> nat {
    let asked = match top {
        Some(n) => n,
        None => DEFAULT_TOP as nat,
    };
    if asked < MAX_TOP {
        asked
    } else {
        MAX_TOP as nat
    }
}

/// The key of a record as it goes into an address: an identifier with a
/// hyphen that is not already quoted goes between single quotes.
pub open spec fn key_of(id: Seq<char>) -> Seq<char> {
    if id.contains('-') && !(id.len() > 0 && id[0] == '\'') {
        "'"@ + id + "'"@
    } else {
        id
    }
}

/// The arguments of a query, as they arrived.
#[derive(Debug, Clone)]
pub struct QueryArgs {
    pub select: Option<ArgValue>,
    pub filter: Option<ArgValue>,
    pub orderby: Option<ArgValue>,
    pub top: Option<ArgValue>,
    pub skip: Option<ArgValue>,
    pub expand: Option<ArgValue>,
    pub cross_company: Option<ArgValue>,
    pub count: Option<ArgValue>,
}

/// The query that a set of arguments asks for.
pub open spec fn options_of(args: QueryArgs) -> QueryModel {
    QueryModel {
        select: list_arg_of(args.select),
        filter: text_arg_of(args.filter),
        top: Some(page_limit_of(number_arg_of(args.top))),
        skip: number_arg_of(args.skip),
        orderby: text_arg_of(args.orderby),
        expand: list_arg_of(args.expand),
        cross_company: flag_arg_of(args.cross_company),
        count: flag_arg_of(args.count),
    }
}

/// The count that an argument gives.
pub fn number_arg(arg: &Option<ArgValue>) -> (r: Option<usize>)
    ensures
        match r {
            Some(n) => number_arg_of(*arg) == Some(n as nat),
            None => number_arg_of(*arg) is None,
        },
{
    match arg {
        Some(ArgValue::Integer(n)) => Some(#[verifier::truncate] (*n as usize)),
        Some(ArgValue::Text(t)) => match parse_u64(&chars_of(t.as_str())) {
            Some(v) => {
                if v <= usize::MAX as u64 {
                    Some(v as usize)
                } else {
                    None
                }
            },
            None => None,
        },
        _ => None,
    }
}

/// Whether an argument sets a flag.
pub fn flag_arg(arg: &Option<ArgValue>) -> (r: bool)
    ensures
        r == flag_arg_of(*arg),
{
    match arg {
        Some(ArgValue::Text(t)) => {
            same_text(&chars_of(t.as_str()), &chars_of("true"))
        },
        Some(ArgValue::Flag(b)) => *b,
        _ => false,
    }
}

/// The text that an argument gives.
pub fn text_arg(arg: &Option<ArgValue>) -> (r: Option<String>)
    ensures
        match r {
            Some(t) => text_arg_of(*arg) == Some(t@),
            None => text_arg_of(*arg) is None,
        },
{
    match arg {
        Some(ArgValue::Text(t)) => Some(t.clone()),
        _ => None,
    }
}

/// The names in a comma-separated list.
pub fn name_list(text: &str) -> (r: Vec<String>)
    ensures
        texts(r@) == names_in(text@),
{
    let pieces = split_on(&chars_of(text), ',');
    let mut names: Vec<String> = Vec::new();
    let mut i: usize = 0;
    while i < pieces.len()
        invariant
            i <= pieces.len(),
            buffers(pieces@) == split(text@, ','),
            names.len() == i,
            forall|j: int| 0 <= j < i ==> (#[trigger] names@[j])@ == trim(pieces@[j]@),
        decreases pieces.len() - i,
    {
        names.push(string_of(&trimmed(&pieces[i])));
        i += 1;
    }
    assert(texts(names@) =~= names_in(text@)) by {
        assert forall|j: int| 0 <= j < names.len() implies texts(names@)[j]
            == names_in(text@)[j] by {
            assert(buffers(pieces@)[j] == pieces@[j]@);
        }
    }
    names
}

/// The list of names that an argument gives.
pub fn list_arg(arg: &Option<ArgValue>) -> (r: Option<Vec<String>>)
    ensures
        match r {
            Some(names) => list_arg_of(*arg) == Some(texts(names@)),
            None => list_arg_of(*arg) is None,
        },
{
    match arg {
        Some(ArgValue::Text(t)) => Some(name_list(t.as_str())),
        _ => None,
    }
}

/// The page size for what the caller asked.
pub fn page_limit(top: Option<usize>) -> (r: usize)
    ensures
        r == page_limit_of(
            match top {
                Some(n) => Some(n as nat),
                None => None,
            },
        ),
{
    let asked: usize = match top {
        Some(n) => n,
        None => DEFAULT_TOP,
    };
    if asked < MAX_TOP {
        asked
    } else {
        MAX_TOP
    }
}

/// The key of the record `id` as it goes into an address.
pub fn format_key(id: &str) -> (r: String)
    ensures
        r@ == key_of(id@),
{
    let chars = chars_of(id);
    let mut hyphen = false;
    let mut i: usize = 0;
    while i < chars.len()
        invariant
            i <= chars.len(),
            hyphen == chars@.subrange(0, i as int).contains('-'),
        decreases chars.len() - i,
    {
        let ghost seen = chars@.subrange(0, i as int);
        let ghost next = chars@.subrange(0, i + 1);
        assert(next =~= seen.push(chars@[i as int]));
        if chars[i] == '-' {
            assert(next[i as int] == '-');
            hyphen = true;
        } else {
            assert(next.contains('-') == seen.contains('-')) by {
                if next.contains('-') {
                    let k = choose|k: int| 0 <= k < next.len() && next[k] == '-';
                    assert(seen[k] == '-');
                }
                if seen.contains('-') {
                    let k = choose|k: int| 0 <= k < seen.len() && seen[k] == '-';
                    assert(next[k] == '-');
                }
            }
        }
        i += 1;
    }
    assert(chars@.subrange(0, chars.len() as int) =~= chars@);
    let quoted = chars.len() > 0 && chars[0] == '\'';
    if hyphen && !quoted {
        let mut out = chars_of("'");
        extend(&mut out, &chars);
        extend(&mut out, &chars_of("'"));
        string_of(&out)
    } else {
        string_of(&chars)
    }
}

impl QueryArgs {
    /// The query that these arguments ask for.
    pub fn to_options(&self) -> (o: QueryOptions)
        ensures
            o@ == options_of(*self),
    {
        let o = QueryOptions {
            select: list_arg(&self.select),
            filter: text_arg(&self.filter),
            top: Some(page_limit(number_arg(&self.top))),
            skip: number_arg(&self.skip),
            orderby: text_arg(&self.orderby),
            expand: list_arg(&self.expand),
            cross_company: flag_arg(&self.cross_company),
            count: flag_arg(&self.count),
        };
        o
    }
}

} // verus!
