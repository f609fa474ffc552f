//! What holds of every query string.

use vstd::prelude::*;
use crate::number::{decimal, digit};
use crate::query::{
    params_upto, query_params, query_string, slot, slot_key, ProductType, QueryModel,
};
use crate::text::{
    contains, join, lemma_contains_inside, lemma_join_ends_with_last, lemma_join_holds_in_piece,
    lemma_occurrence_around, lemma_occurs_after_prefix, lemma_piece_holds_in_join, occurs_at,
    starts_with, with_entry,
};

verus! {

/// The kind of a parameter: the place in the canonical order of the key
/// that opens it, or 8 where no key does.
pub open spec fn kind_of(param: Seq<char>) -> int {
    if starts_with(param, slot_key(0)) {
        0
    } else if starts_with(param, slot_key(1)) {
        1
    } else if starts_with(param, slot_key(2)) {
        2
    } else if starts_with(param, slot_key(3)) {
        3
    } else if starts_with(param, slot_key(4)) {
        4
    } else if starts_with(param, slot_key(5)) {
        5
    } else if starts_with(param, slot_key(6)) {
        6
    } else if starts_with(param, slot_key(7)) {
        7
    } else {
        8
    }
}

/// The options as they are but for the cross-company flag, which is off.
pub open spec fn without_cross_company(q: QueryModel) -> QueryModel {
    QueryModel { cross_company: false, ..q }
}

/// A text that begins with the key of one kind begins with the key of no
/// other.
proof fn lemma_keys_apart(param: Seq<char>, i: int)
    requires
        0 <= i < 8,
        starts_with(param, slot_key(i)),
    ensures
        kind_of(param) == i,
{
    reveal_strlit("$select=");
    reveal_strlit("$filter=");
    reveal_strlit("$top=");
    reveal_strlit("$skip=");
    reveal_strlit("$orderby=");
    reveal_strlit("$expand=");
    reveal_strlit("$count=");
    reveal_strlit("cross-company=");
    let own = slot_key(i);
    assert(param.subrange(0, own.len() as int) == own);
    assert(own[0] == param[0] && own[1] == param[1] && own[2] == param[2]) by {
        assert(param.subrange(0, own.len() as int)[0] == param[0]);
        assert(param.subrange(0, own.len() as int)[1] == param[1]);
        assert(param.subrange(0, own.len() as int)[2] == param[2]);
    }
    assert forall|m: int| 0 <= m < 8 && m != i implies !starts_with(param, slot_key(m)) by {
        let other = slot_key(m);
        if starts_with(param, other) {
            assert(param.subrange(0, other.len() as int)[0] == param[0]);
            assert(param.subrange(0, other.len() as int)[1] == param[1]);
            assert(param.subrange(0, other.len() as int)[2] == param[2]);
            assert(false);
        }
    }
    assert(!starts_with(param, slot_key(0)) || i == 0);
    assert(!starts_with(param, slot_key(1)) || i == 1);
    assert(!starts_with(param, slot_key(2)) || i == 2);
    assert(!starts_with(param, slot_key(3)) || i == 3);
    assert(!starts_with(param, slot_key(4)) || i == 4);
    assert(!starts_with(param, slot_key(5)) || i == 5);
    assert(!starts_with(param, slot_key(6)) || i == 6);
}

/// A parameter of kind `i` begins with the key of that kind.
proof fn lemma_slot_kind(q: QueryModel, product: ProductType, i: int)
    requires
        0 <= i < 8,
        slot(q, product, i) is Some,
    ensures
        kind_of(slot(q, product, i)->0) == i,
{
    let param = slot(q, product, i)->0;
    let key = slot_key(i);
    assert(param.subrange(0, key.len() as int) =~= key);
    lemma_keys_apart(param, i);
}

/// The parameters of the first `n` kinds are of those kinds, each kind
/// after the ones before it.
proof fn lemma_params_ordered(q: QueryModel, product: ProductType, n: nat)
    requires
        n <= 8,
    ensures
        forall|i: int|
            0 <= i < params_upto(q, product, n).len() ==> 0 <= #[trigger] kind_of(
                params_upto(q, product, n)[i],
            ) < n,
        forall|i: int, j: int|
            0 <= i < j < params_upto(q, product, n).len() ==> kind_of(
                #[trigger] params_upto(q, product, n)[i],
            ) < kind_of(#[trigger] params_upto(q, product, n)[j]),
    decreases n,
{
    if n > 0 {
        let before = params_upto(q, product, (n - 1) as nat);
        let now = params_upto(q, product, n);
        lemma_params_ordered(q, product, (n - 1) as nat);
        match slot(q, product, n - 1) {
            Some(param) => {
                lemma_slot_kind(q, product, n - 1);
                assert(now == before.push(param));
                assert forall|i: int| 0 <= i < now.len() implies 0 <= #[trigger] kind_of(now[i])
                    < n by {
                    if i < before.len() {
                        assert(now[i] == before[i]);
                        assert(kind_of(before[i]) < n - 1);
                    }
                }
                assert forall|i: int, j: int| 0 <= i < j < now.len() implies kind_of(
                    #[trigger] now[i],
                ) < kind_of(#[trigger] now[j]) by {
                    assert(now[i] == before[i]);
                    assert(kind_of(before[i]) < n - 1);
                    if j < before.len() {
                        assert(now[j] == before[j]);
                    }
                }
            },
            None => {
                assert(now == before);
            },
        }
    }
}

/// The parameters of a query string come in the canonical order, whichever
/// of them are present: `$select`, `$filter`, `$top`, `$skip`, `$orderby`,
/// `$expand`, `$count`, `cross-company`. No kind comes twice.
pub proof fn params_in_canonical_order(q: QueryModel, product: ProductType)
    ensures
        forall|i: int|
            0 <= i < query_params(q, product).len() ==> 0 <= #[trigger] kind_of(
                query_params(q, product)[i],
            ) < 8,
        forall|i: int, j: int|
            0 <= i < j < query_params(q, product).len() ==> kind_of(
                #[trigger] query_params(q, product)[i],
            ) < kind_of(#[trigger] query_params(q, product)[j]),
{
    lemma_params_ordered(q, product, 8);
}

/// Options with every field unset give the empty query string, for either
/// product.
pub proof fn unset_options_give_empty_string(q: QueryModel, product: ProductType)
    requires
        q.select is None,
        q.filter is None,
        q.top is None,
        q.skip is None,
        q.orderby is None,
        q.expand is None,
        !q.cross_company,
        !q.count,
    ensures
        query_string(q, product) == Seq::<char>::empty(),
{
    reveal_with_fuel(params_upto, 9);
}

/// With the cross-company flag set, the parameter `cross-company=true` is
/// among the parameters exactly for Finance & Operations, where it is the
/// last one; for any other product the query string is what it would be
/// without the flag.
pub proof fn cross_company_param_iff_finops(q: QueryModel, product: ProductType)
    requires
        q.cross_company,
    ensures
        query_params(q, product).contains("cross-company=true"@) <==> product
            == ProductType::Finops,
        product == ProductType::Finops ==> query_params(q, product).last()
            == "cross-company=true"@,
        product != ProductType::Finops ==> query_string(q, product) == query_string(
            without_cross_company(q),
            product,
        ),
{
    reveal_strlit("cross-company=true");
    reveal_strlit("cross-company=");
    reveal_strlit("true");
    let flag = "cross-company=true"@;
    assert(slot_key(7) + "true"@ =~= flag);
    let params = query_params(q, product);
    let before = params_upto(q, product, 7);
    assert(params == with_entry(before, slot(q, product, 7)));
    lemma_params_ordered(q, product, 7);
    assert(flag.subrange(0, slot_key(7).len() as int) =~= slot_key(7));
    lemma_keys_apart(flag, 7);
    assert forall|i: int| 0 <= i < before.len() implies before[i] != flag by {
        assert(kind_of(before[i]) < 7);
    }
    if product == ProductType::Finops {
        assert(params.last() == flag);
        assert(params[params.len() - 1] == flag);
    } else {
        assert(params == before);
        lemma_same_without_flag(q, product, 8);
    }
}

/// For a product other than Finance & Operations the cross-company flag
/// changes no parameter.
proof fn lemma_same_without_flag(q: QueryModel, product: ProductType, n: nat)
    requires
        product != ProductType::Finops,
        n <= 8,
    ensures
        params_upto(q, product, n) == params_upto(without_cross_company(q), product, n),
    decreases n,
{
    if n > 0 {
        lemma_same_without_flag(q, product, (n - 1) as nat);
    }
}

/// Some name of the list holds `pat`.
pub open spec fn list_spells(names: Option<Seq<Seq<char>>>, pat: Seq<char>) -> bool {
    match names {
        Some(ns) => exists|k: int| 0 <= k < ns.len() && contains(#[trigger] ns[k], pat),
        None => false,
    }
}

/// The text holds `pat`.
pub open spec fn text_spells(text: Option<Seq<char>>, pat: Seq<char>) -> bool {
    match text {
        Some(t) => contains(t, pat),
        None => false,
    }
}

/// One of the texts that the caller supplied holds `pat`: a name to select
/// or to expand, the filter, or the sort order.
pub open spec fn spelled_by_caller(q: QueryModel, pat: Seq<char>) -> bool {
    ||| list_spells(q.select, pat)
    ||| text_spells(q.filter, pat)
    ||| text_spells(q.orderby, pat)
    ||| list_spells(q.expand, pat)
}

/// Every character of a decimal numeral is a digit.
proof fn lemma_decimal_is_digits(n: nat)
    ensures
        forall|i: int|
            0 <= i < decimal(n).len() ==> exists|d: nat| d < 10 && #[trigger] decimal(n)[i]
                == digit(d),
    decreases n,
{
    if n < 10 {
        assert(decimal(n)[0] == digit(n));
    } else {
        lemma_decimal_is_digits(n / 10);
        assert forall|i: int| 0 <= i < decimal(n).len() implies exists|d: nat|
            d < 10 && #[trigger] decimal(n)[i] == digit(d) by {
            if i < decimal(n / 10).len() {
                assert(decimal(n)[i] == decimal(n / 10)[i]);
            } else {
                assert(decimal(n)[i] == digit(n % 10));
            }
        }
    }
}

/// Every parameter is the parameter of one of the kinds.
proof fn lemma_params_are_slots(q: QueryModel, product: ProductType, n: nat)
    requires
        n <= 8,
    ensures
        forall|k: int|
            0 <= k < params_upto(q, product, n).len() ==> exists|j: int|
                0 <= j < n && slot(q, product, j) == Some(#[trigger] params_upto(q, product, n)[k]),
    decreases n,
{
    if n > 0 {
        let before = params_upto(q, product, (n - 1) as nat);
        let now = params_upto(q, product, n);
        lemma_params_are_slots(q, product, (n - 1) as nat);
        assert forall|k: int| 0 <= k < now.len() implies exists|j: int|
            0 <= j < n && slot(q, product, j) == Some(#[trigger] now[k]) by {
            if k < before.len() {
                assert(now[k] == before[k]);
                let j = choose|j: int| 0 <= j < n - 1 && slot(q, product, j) == Some(before[k]);
                assert(slot(q, product, j) == Some(now[k]));
            } else {
                assert(slot(q, product, n - 1) == Some(now[k]));
            }
        }
    }
}

/// The text `cross-company=true` in a parameter of one of the first seven
/// kinds lies in what the caller supplied for it.
proof fn lemma_flag_text_in_param(q: QueryModel, product: ProductType, j: int)
    requires
        0 <= j < 7,
        slot(q, product, j) is Some,
        contains(slot(q, product, j)->0, "cross-company=true"@),
    ensures
        spelled_by_caller(q, "cross-company=true"@),
{
    reveal_strlit("cross-company=true");
    reveal_strlit("$select=");
    reveal_strlit("$filter=");
    reveal_strlit("$top=");
    reveal_strlit("$skip=");
    reveal_strlit("$orderby=");
    reveal_strlit("$expand=");
    reveal_strlit("$count=");
    reveal_strlit("true");
    let flag = "cross-company=true"@;
    let param = slot(q, product, j)->0;
    let key = slot_key(j);
    let stem = key.drop_last();
    let value = param.skip(key.len() as int);
    assert(key =~= stem.push('='));
    assert(param =~= stem.push('=') + value);
    let i = choose|i: int| occurs_at(param, flag, i);
    lemma_occurrence_around(stem, '=', value, flag, i);
    assert(!occurs_at(stem, flag, i));
    if i <= stem.len() < i + flag.len() && flag[stem.len() - i] == '=' {
        assert(stem.len() - i == 13);
        assert(false);
    }
    assert(contains(value, flag));
    if j == 0 || j == 5 {
        let names = if j == 0 {
            q.select->0
        } else {
            q.expand->0
        };
        assert(value =~= join(names, ','));
        assert(!flag.contains(','));
        lemma_join_holds_in_piece(names, ',', flag);
    } else if j == 1 || j == 4 {
        let text = if j == 1 {
            q.filter->0
        } else {
            q.orderby->0
        };
        assert(value =~= text);
    } else if j == 2 || j == 3 {
        let n = if j == 2 {
            q.top->0
        } else {
            q.skip->0
        };
        assert(value =~= decimal(n));
        let at = choose|at: int| occurs_at(value, flag, at);
        lemma_decimal_is_digits(n);
        assert(value.subrange(at, at + flag.len())[0] == value[at]);
        assert(value[at] == 'c');
        assert(false);
    } else {
        assert(value =~= "true"@);
        let at = choose|at: int| occurs_at(value, flag, at);
        assert(false);
    }
}

/// The shape of the flag's text: its length, and that it holds none of the
/// characters that join the parts of a query string.
proof fn lemma_flag_shape()
    ensures
        "cross-company=true"@.len() == 18,
        !"cross-company=true"@.contains('&'),
        !"cross-company=true"@.contains('?'),
{
    reveal_strlit("cross-company=true");
}

/// For Finance & Operations the flag's text ends the query string.
proof fn lemma_finops_has_flag_text(q: QueryModel, product: ProductType)
    requires
        q.cross_company,
        product == ProductType::Finops,
    ensures
        contains(query_string(q, product), "cross-company=true"@),
{
    let flag = "cross-company=true"@;
    let params = query_params(q, product);
    let body = join(params, '&');
    cross_company_param_iff_finops(q, product);
    assert(params.contains(flag));
    assert(params.len() > 0);
    lemma_join_ends_with_last(params, '&');
    lemma_occurs_after_prefix("?"@, body, flag, body.len() - flag.len());
    assert(occurs_at(query_string(q, product), flag, "?"@.len() + body.len() - flag.len()));
}

/// Where a query string for another product holds the flag's text, one of
/// its parameters holds it.
proof fn lemma_flag_text_in_some_param(q: QueryModel, product: ProductType) -> (k: int)
    requires
        contains(query_string(q, product), "cross-company=true"@),
    ensures
        0 <= k < query_params(q, product).len(),
        contains(query_params(q, product)[k], "cross-company=true"@),
{
    reveal_strlit("?");
    lemma_flag_shape();
    let flag = "cross-company=true"@;
    let params = query_params(q, product);
    let body = join(params, '&');
    let whole = query_string(q, product);
    let i = choose|i: int| occurs_at(whole, flag, i);
    assert(occurs_at(whole, flag, i));
    assert(params.len() > 0);
    assert(whole =~= Seq::<char>::empty().push('?') + body);
    lemma_occurrence_around(Seq::<char>::empty(), '?', body, flag, i);
    if i <= 0 < i + flag.len() && flag[0 - i] == '?' {
        assert(flag.contains(flag[0 - i]));
    }
    assert(contains(body, flag));
    lemma_join_holds_in_piece(params, '&', flag);
    choose|k: int| 0 <= k < params.len() && contains(#[trigger] params[k], flag)
}

/// A parameter that the options give is among those that go out.
proof fn lemma_slot_goes_out(q: QueryModel, product: ProductType, j: int, n: nat) -> (k: int)
    requires
        0 <= j < n <= 8,
        slot(q, product, j) is Some,
    ensures
        0 <= k < params_upto(q, product, n).len(),
        params_upto(q, product, n)[k] == slot(q, product, j)->0,
    decreases n,
{
    let before = params_upto(q, product, (n - 1) as nat);
    if j == n - 1 {
        before.len() as int
    } else {
        let k = lemma_slot_goes_out(q, product, j, (n - 1) as nat);
        assert(params_upto(q, product, n)[k] == before[k]);
        k
    }
}

/// What a parameter holds, the query string holds.
proof fn lemma_param_text_goes_out(q: QueryModel, product: ProductType, j: int, pat: Seq<char>)
    requires
        0 <= j < 8,
        slot(q, product, j) is Some,
        contains(slot(q, product, j)->0, pat),
    ensures
        contains(query_string(q, product), pat),
{
    let params = query_params(q, product);
    let k = lemma_slot_goes_out(q, product, j, 8);
    lemma_piece_holds_in_join(params, '&', k, pat);
    let none = Seq::<char>::empty();
    lemma_contains_inside("?"@, join(params, '&'), none, pat);
    assert("?"@ + join(params, '&') + none =~= query_string(q, product));
}

/// The texts that the caller supplies go out as they are: what one of them
/// holds, the query string holds, for either product.
pub proof fn caller_text_goes_out(q: QueryModel, product: ProductType, pat: Seq<char>)
    requires
        pat.len() > 0,
        spelled_by_caller(q, pat),
    ensures
        contains(query_string(q, product), pat),
{
    let none = Seq::<char>::empty();
    if list_spells(q.select, pat) {
        let names = q.select->0;
        let k = choose|k: int| 0 <= k < names.len() && contains(#[trigger] names[k], pat);
        lemma_piece_holds_in_join(names, ',', k, pat);
        lemma_contains_inside(slot_key(0), join(names, ','), none, pat);
        assert(slot_key(0) + join(names, ',') + none =~= slot(q, product, 0)->0);
        lemma_param_text_goes_out(q, product, 0, pat);
    } else if text_spells(q.filter, pat) {
        let text = q.filter->0;
        assert(text.len() > 0) by {
            let i = choose|i: int| occurs_at(text, pat, i);
        }
        lemma_contains_inside(slot_key(1), text, none, pat);
        assert(slot_key(1) + text + none =~= slot(q, product, 1)->0);
        lemma_param_text_goes_out(q, product, 1, pat);
    } else if text_spells(q.orderby, pat) {
        let text = q.orderby->0;
        assert(text.len() > 0) by {
            let i = choose|i: int| occurs_at(text, pat, i);
        }
        lemma_contains_inside(slot_key(4), text, none, pat);
        assert(slot_key(4) + text + none =~= slot(q, product, 4)->0);
        lemma_param_text_goes_out(q, product, 4, pat);
    } else {
        let names = q.expand->0;
        let k = choose|k: int| 0 <= k < names.len() && contains(#[trigger] names[k], pat);
        lemma_piece_holds_in_join(names, ',', k, pat);
        lemma_contains_inside(slot_key(5), join(names, ','), none, pat);
        assert(slot_key(5) + join(names, ',') + none =~= slot(q, product, 5)->0);
        lemma_param_text_goes_out(q, product, 5, pat);
    }
}

/// With the cross-company flag set, the query string holds the text
/// `cross-company=true` exactly when the product is Finance & Operations or
/// the caller's own texts spell it.
pub proof fn cross_company_text_in_query(q: QueryModel, product: ProductType)
    requires
        q.cross_company,
    ensures
        contains(query_string(q, product), "cross-company=true"@) <==> (product
            == ProductType::Finops || spelled_by_caller(q, "cross-company=true"@)),
{
    let flag = "cross-company=true"@;
    if product == ProductType::Finops {
        lemma_finops_has_flag_text(q, product);
    } else if spelled_by_caller(q, flag) {
        lemma_flag_shape();
        caller_text_goes_out(q, product, flag);
    } else if contains(query_string(q, product), flag) {
        let params = query_params(q, product);
        let k = lemma_flag_text_in_some_param(q, product);
        lemma_params_are_slots(q, product, 8);
        let j = choose|j: int| 0 <= j < 8 && slot(q, product, j) == Some(params[k]);
        assert(slot(q, product, 7) is None);
        lemma_flag_text_in_param(q, product, j);
    }
}

/// With the cross-company flag set, the query string holds the text
/// `cross-company=true` exactly for Finance & Operations. Left out are the
/// options in which the caller's own texts spell it, for a product that
/// does not take the flag: there it goes out as the caller wrote it.
pub proof fn cross_company_text_iff_finops(q: QueryModel, product: ProductType)
    requires
        q.cross_company,
        product == ProductType::Finops || !spelled_by_caller(q, "cross-company=true"@),
    ensures
        contains(query_string(q, product), "cross-company=true"@) <==> product
            == ProductType::Finops,
{
    cross_company_text_in_query(q, product);
}

} // verus!
