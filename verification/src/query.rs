//! OData query options and the canonical query string built from them.

use vstd::prelude::*;
use crate::number::{decimal, decimal_of};
use crate::text::{buffers, chars_of, extend, join, joined, string_of, texts, with_entry};

verus! {

/// The product behind the service root.
#[derive(Debug, Clone, Copy, PartialEq, Eq, Structural)]
pub enum ProductType {
    Dataverse,
    Finops,
}

/// What a request asks of an entity set.
#[derive(Debug, Clone)]
pub struct QueryOptions {
    /// Fields to return, in the caller's order.
    pub select: Option<Vec<String>>,
    /// A filter expression in OData syntax, sent as it is.
    pub filter: Option<String>,
    /// The most records to return.
    pub top: Option<usize>,
    /// Records to pass over.
    pub skip: Option<usize>,
    /// The sort order.
    pub orderby: Option<String>,
    /// Navigation properties to expand, in the caller's order.
    pub expand: Option<Vec<String>>,
    /// Ask across companies; honoured by Finance & Operations only.
    pub cross_company: bool,
    /// Ask for the total count of matching records.
    pub count: bool,
}

/// The mathematical content of a `QueryOptions`.
pub struct QueryModel {
    pub select: Option<Seq<Seq<char>>>,
    pub filter: Option<Seq<char>>,
    pub top: Option<nat>,
    pub skip: Option<nat>,
    pub orderby: Option<Seq<char>>,
    pub expand: Option<Seq<Seq<char>>>,
    pub cross_company: bool,
    pub count: bool,
}

/// The views of an optional list of names.
pub open spec fn names_view(names: Option<Vec<String>>) -> Option<Seq<Seq<char>>> {
    match names {
        Some(v) => Some(texts(v@)),
        None => None,
    }
}

/// The view of an optional text.
pub open spec fn text_view(text: Option<String>) -> Option<Seq<char>> {
    match text {
        Some(t) => Some(t@),
        None => None,
    }
}

/// The value of an optional count.
pub open spec fn number_view(n: Option<usize>) -> Option<nat> {
    match n {
        Some(k) => Some(k as nat),
        None => None,
    }
}

impl View for QueryOptions {
    type V = QueryModel;

    open spec fn view(&self) -> QueryModel {
        QueryModel {
            select: names_view(self.select),
            filter: text_view(self.filter),
            top: number_view(self.top),
            skip: number_view(self.skip),
            orderby: text_view(self.orderby),
            expand: names_view(self.expand),
            cross_company: self.cross_company,
            count: self.count,
        }
    }
}

/// The options with every field unset.
pub open spec fn unset() -> QueryModel {
    QueryModel {
        select: None,
        filter: None,
        top: None,
        skip: None,
        orderby: None,
        expand: None,
        cross_company: false,
        count: false,
    }
}

/// The text that opens the parameter of each kind, in canonical order.
pub open spec fn slot_key(i: int) -> Seq<char> {
    if i == 0 {
        "$select="@
    } else if i == 1 {
        "$filter="@
    } else if i == 2 {
        "$top="@
    } else if i == 3 {
        "$skip="@
    } else if i == 4 {
        "$orderby="@
    } else if i == 5 {
        "$expand="@
    } else if i == 6 {
        "$count="@
    } else {
        "cross-company="@
    }
}

/// A list-valued parameter: the names joined by commas. A list without
/// names contributes nothing.
pub open spec fn list_param(key: Seq<char>, names: Option<Seq<Seq<char>>>) -> Option<Seq<char>> {
    match names {
        Some(ns) => if ns.len() > 0 {
            Some(key + join(ns, ','))
        } else {
            None
        },
        None => None,
    }
}

/// A text-valued parameter, sent without encoding. An empty text
/// contributes nothing.
pub open spec fn text_param(key: Seq<char>, text: Option<Seq<char>>) -> Option<Seq<char>> {
    match text {
        Some(t) => if t.len() > 0 {
            Some(key + t)
        } else {
            None
        },
        None => None,
    }
}

/// A numeric parameter, in decimal.
pub open spec fn number_param(key: Seq<char>, n: Option<nat>) -> Option<Seq<char>> {
    match n {
        Some(k) => Some(key + decimal(k)),
        None => None,
    }
}

/// A parameter that is either `key` followed by `true`, or absent.
pub open spec fn flag_param(key: Seq<char>, on: bool) -> Option<Seq<char>> {
    if on {
        Some(key + "true"@)
    } else {
        None
    }
}

/// Whether the cross-company flag goes out: it must be set, and the product
/// must be Finance & Operations.
pub open spec fn cross_company_applies(q: QueryModel, product: ProductType) -> bool {
    q.cross_company && product == ProductType::Finops
}

/// The parameter of kind `i` for these options, if they give one.
pub open spec fn slot(q: QueryModel, product: ProductType, i: int) -> Option<Seq<char>> {
    if i == 0 {
        list_param(slot_key(0), q.select)
    } else if i == 1 {
        text_param(slot_key(1), q.filter)
    } else if i == 2 {
        number_param(slot_key(2), q.top)
    } else if i == 3 {
        number_param(slot_key(3), q.skip)
    } else if i == 4 {
        text_param(slot_key(4), q.orderby)
    } else if i == 5 {
        list_param(slot_key(5), q.expand)
    } else if i == 6 {
        flag_param(slot_key(6), q.count)
    } else {
        flag_param(slot_key(7), cross_company_applies(q, product))
    }
}

/// The parameters of the first `n` kinds that are present, in canonical order.
pub open spec fn params_upto(q: QueryModel, product: ProductType, n: nat) -> Seq<Seq<char>>
    decreases n,
{
    if n == 0 {
        Seq::empty()
    } else {
        with_entry(params_upto(q, product, (n - 1) as nat), slot(q, product, n - 1))
    }
}

/// The parameters that go out, in canonical order.
pub open spec fn query_params(q: QueryModel, product: ProductType) -> Seq<Seq<char>> {
    params_upto(q, product, 8)
}

/// The query string: empty when no parameter goes out, else `?` and the
/// parameters joined by `&`.
pub open spec fn query_string(q: QueryModel, product: ProductType) -> Seq<char> {
    let params = query_params(q, product);
    if params.len() == 0 {
        Seq::empty()
    } else {
        "?"@ + join(params, '&')
    }
}

impl Default for QueryOptions {
    fn default() -> (o: QueryOptions)
        ensures
            o@ == unset(),
    {
        QueryOptions {
            select: None,
            filter: None,
            top: None,
            skip: None,
            orderby: None,
            expand: None,
            cross_company: false,
            count: false,
        }
    }
}

/// `key` followed by the names joined by commas, where there are names.
fn push_list(params: &mut Vec<Vec<char>>, key: &str, names: &Option<Vec<String>>)
    ensures
        buffers(final(params)@) == with_entry(
            buffers(old(params)@),
            list_param(key@, names_view(*names)),
        ),
{
    match names {
        Some(list) => {
            if list.len() > 0 {
                let mut parts: Vec<Vec<char>> = Vec::new();
                let mut i: usize = 0;
                while i < list.len()
                    invariant
                        i <= list.len(),
                        buffers(parts@) == texts(list@).subrange(0, i as int),
                    decreases list.len() - i,
                {
                    let ghost before = buffers(parts@);
                    parts.push(chars_of(list[i].as_str()));
                    assert(buffers(parts@) =~= before.push(list@[i as int]@));
                    assert(before.push(list@[i as int]@) =~= texts(list@).subrange(0, i + 1));
                    i += 1;
                }
                assert(buffers(parts@) =~= texts(list@));
                let mut param = chars_of(key);
                extend(&mut param, &joined(&parts, ','));
                params.push(param);
                assert(buffers(params@) =~= buffers(old(params)@).push(param@));
            }
        },
        None => {},
    }
}

/// `key` followed by the text, where the text is not empty.
fn push_text(params: &mut Vec<Vec<char>>, key: &str, text: &Option<String>)
    ensures
        buffers(final(params)@) == with_entry(
            buffers(old(params)@),
            text_param(key@, text_view(*text)),
        ),
{
    match text {
        Some(t) => {
            let value = chars_of(t.as_str());
            if value.len() > 0 {
                let mut param = chars_of(key);
                extend(&mut param, &value);
                params.push(param);
                assert(buffers(params@) =~= buffers(old(params)@).push(param@));
            }
        },
        None => {},
    }
}

/// `key` followed by the number in decimal.
fn push_number(params: &mut Vec<Vec<char>>, key: &str, n: Option<usize>)
    ensures
        buffers(final(params)@) == with_entry(
            buffers(old(params)@),
            number_param(key@, number_view(n)),
        ),
{
    match n {
        Some(k) => {
            let mut param = chars_of(key);
            extend(&mut param, &decimal_of(k as u64));
            params.push(param);
            assert(buffers(params@) =~= buffers(old(params)@).push(param@));
        },
        None => {},
    }
}

/// `key` followed by `true`, where the flag is on.
fn push_flag(params: &mut Vec<Vec<char>>, key: &str, on: bool)
    ensures
        buffers(final(params)@) == with_entry(buffers(old(params)@), flag_param(key@, on)),
{
    if on {
        let mut param = chars_of(key);
        extend(&mut param, &chars_of("true"));
        params.push(param);
        assert(buffers(params@) =~= buffers(old(params)@).push(param@));
    }
}

impl QueryOptions {
    /// Builds the query string for these options. The parameters come in the
    /// order `$select`, `$filter`, `$top`, `$skip`, `$orderby`, `$expand`,
    /// `$count`, `cross-company`; nothing is URL-encoded.
    pub fn to_query_string(&self, product: &ProductType) -> (r: String)
        ensures
            r@ == query_string(self@, *product),
    {
        let ghost q = self@;
        let ghost p = *product;
        let mut params: Vec<Vec<char>> = Vec::new();
        assert(buffers(params@) =~= params_upto(q, p, 0));
        push_list(&mut params, "$select=", &self.select);
        assert(buffers(params@) == params_upto(q, p, 1));
        push_text(&mut params, "$filter=", &self.filter);
        assert(buffers(params@) == params_upto(q, p, 2));
        push_number(&mut params, "$top=", self.top);
        assert(buffers(params@) == params_upto(q, p, 3));
        push_number(&mut params, "$skip=", self.skip);
        assert(buffers(params@) == params_upto(q, p, 4));
        push_text(&mut params, "$orderby=", &self.orderby);
        assert(buffers(params@) == params_upto(q, p, 5));
        push_list(&mut params, "$expand=", &self.expand);
        assert(buffers(params@) == params_upto(q, p, 6));
        push_flag(&mut params, "$count=", self.count);
        assert(buffers(params@) == params_upto(q, p, 7));
        let finops = match product {
            ProductType::Finops => true,
            ProductType::Dataverse => false,
        };
        push_flag(&mut params, "cross-company=", self.cross_company && finops);
        assert(buffers(params@) == params_upto(q, p, 8));
        if params.len() == 0 {
            String::new()
        } else {
            let mut out = chars_of("?");
            extend(&mut out, &joined(&params, '&'));
            string_of(&out)
        }
    }
}

} // verus!
