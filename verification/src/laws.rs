//! Properties that tie several operations of the library together.
use vstd::prelude::*;
use crate::commands::{did_you_mean_each, page_actions, page_command, prev_offset, sat_sub, status_names};
use crate::commands::collection::{combined_warning, present};
use crate::commands::pokemon::distinct;
use crate::db::db_path_spec;
use crate::db::queries::{dedup_methods_spec, method_key, percentage_hundredths_spec};
use crate::output::{act, ActionView};
use crate::db::csv_rows::{first_index, level_range_spec};
use crate::text::{
    all_digits, decimal, digits_value, is_digit, lemma_decimal_digits, leading_ws, parse_i64_spec, signed_decimal, trim_end_spec,
    trim_spec, white_space,
};

verus! {

/// A number written out in decimal reads back as the same number: the ids
/// put into command lines are the ids those commands look up.
pub proof fn law_decimal_round_trip(n: i64)
    ensures
        parse_i64_spec(signed_decimal(n as int)) == Some(n),
{
    if n < 0 {
        let m = (-(n as int)) as nat;
        lemma_decimal_digits(m);
        let s = signed_decimal(n as int);
        assert(s == seq!['-'] + decimal(m));
        assert(s.drop_first() =~= decimal(m));
        assert(s[0] == '-');
    } else {
        lemma_decimal_digits(n as nat);
        let s = signed_decimal(n as int);
        assert(is_digit(s[0]));
        assert(s[0] != '-' && s[0] != '+');
    }
}

/// From the next page, the previous-page action leads back to the page one
/// started from.
pub proof fn law_next_then_prev(cmd: Seq<char>, limit: u64, offset: u64, total: u64, clamp: bool)
    requires
        offset + limit < total,
        limit > 0,
    ensures
        page_actions(cmd, limit, offset, total, clamp)[0] == act(
            "next_page"@,
            page_command(cmd, limit, (offset + limit) as u64),
        ),
        page_actions(cmd, limit, (offset + limit) as u64, total, clamp).contains(
            act("prev_page"@, page_command(cmd, limit, offset)),
        ),
{
    let next = (offset + limit) as u64;
    assert(prev_offset(limit, next, total, clamp) == offset);
    let p = page_actions(cmd, limit, next, total, clamp);
    let k = p.len() - 1;
    assert(p[k] == act("prev_page"@, page_command(cmd, limit, offset)));
}

/// The previous page never starts after the current one, and there is a
/// previous page exactly when the current one does not start at zero.
pub proof fn law_prev_page_bounds(cmd: Seq<char>, limit: u64, offset: u64, total: u64, clamp: bool)
    ensures
        prev_offset(limit, offset, total, clamp) <= offset,
        page_actions(cmd, limit, offset, total, clamp).contains(
            act("prev_page"@, page_command(cmd, limit, prev_offset(limit, offset, total, clamp))),
        ) <==> offset > 0,
{
    let p = page_actions(cmd, limit, offset, total, clamp);
    let a = act("prev_page"@, page_command(cmd, limit, prev_offset(limit, offset, total, clamp)));
    if offset > 0 {
        assert(p[p.len() - 1] == a);
    } else {
        if p.contains(a) {
            let i = choose|i: int| 0 <= i < p.len() && p[i] == a;
            assert(p[i].0 == "next_page"@);
            assert("next_page"@[0] != "prev_page"@[0]) by {
                reveal_strlit("next_page");
                reveal_strlit("prev_page");
            }
        }
    }
}

/// A database path given in the environment is used as it is, whatever the
/// home directory.
pub proof fn law_env_path_wins(env: Seq<char>, home1: Option<Seq<char>>, home2: Option<Seq<char>>)
    ensures
        db_path_spec(Some(env), home1) == env,
        db_path_spec(Some(env), home1) == db_path_spec(Some(env), home2),
{
}

/// A completion percentage lies between none and all, is none of nothing,
/// and is all when everything is caught.
pub proof fn law_percentage_bounds(caught: int, total: int)
    requires
        0 <= caught <= total,
    ensures
        0 <= percentage_hundredths_spec(caught, total) <= 10000,
        caught == 0 ==> percentage_hundredths_spec(caught, total) == 0,
        caught == total && total > 0 ==> percentage_hundredths_spec(caught, total) == 10000,
{
    if total > 0 {
        assert(0 <= (caught * 20000 + total) / (2 * total) <= 10000) by (nonlinear_arith)
            requires
                0 <= caught <= total,
                total > 0,
        ;
        if caught == 0 {
            assert(total / (2 * total) == 0) by (nonlinear_arith)
                requires
                    total > 0,
            ;
        }
        if caught == total {
            assert((total * 20000 + total) / (2 * total) == 10000) by (nonlinear_arith)
                requires
                    total > 0,
            ;
        }
    }
}

/// The distinct strings of a list hold no string twice, and every string of
/// the list: one game filter per game, none repeated.
pub proof fn law_distinct(s: Seq<Seq<char>>)
    ensures
        forall|i: int, j: int| 0 <= i < j < distinct(s).len() ==> distinct(s)[i] != distinct(s)[j],
        forall|i: int| 0 <= i < s.len() ==> distinct(s).contains(#[trigger] s[i]),
        forall|i: int| 0 <= i < distinct(s).len() ==> s.contains(#[trigger] distinct(s)[i]),
    decreases s.len(),
{
    if s.len() > 0 {
        law_distinct(s.drop_last());
        let d0 = distinct(s.drop_last());
        let d = distinct(s);
        assert forall|i: int| 0 <= i < s.len() implies d.contains(#[trigger] s[i]) by {
            if i < s.len() - 1 {
                assert(s.drop_last()[i] == s[i]);
                assert(d0.contains(s[i]));
                let k = choose|k: int| 0 <= k < d0.len() && d0[k] == s[i];
                assert(d[k] == s[i]);
            } else {
                if !d0.contains(s.last()) {
                    assert(d[d.len() - 1] == s.last());
                }
            }
        }
        assert forall|i: int| 0 <= i < d.len() implies s.contains(#[trigger] d[i]) by {
            if i < d0.len() {
                assert(d[i] == d0[i]);
                assert(s.drop_last().contains(d0[i]));
                let k = choose|k: int| 0 <= k < s.drop_last().len() && s.drop_last()[k] == d0[i];
                assert(s[k] == d[i]);
            } else {
                assert(s[s.len() - 1] == d[i]);
            }
        }
    }
}

/// Warnings combine into none only where none is present.
pub proof fn law_combined_warning_none(e: Option<Seq<char>>, a: Option<Seq<char>>, h: Option<Seq<char>>)
    ensures
        combined_warning(e, a, h) is None <==> e is None && a is None && h is None,
{
    let ws = seq![e, a, h];
    lemma_present_empty(ws);
    if combined_warning(e, a, h) is None {
        assert(ws[0] is None && ws[1] is None && ws[2] is None);
    }
}

proof fn lemma_present_empty(ws: Seq<Option<Seq<char>>>)
    ensures
        present(ws).len() == 0 <==> forall|i: int| 0 <= i < ws.len() ==> (#[trigger] ws[i]) is None,
    decreases ws.len(),
{
    if ws.len() > 0 {
        lemma_present_empty(ws.drop_last());
        if present(ws).len() == 0 {
            assert forall|i: int| 0 <= i < ws.len() implies (#[trigger] ws[i]) is None by {
                if i < ws.len() - 1 {
                    assert(ws.drop_last()[i] == ws[i]);
                }
            }
        }
        if forall|i: int| 0 <= i < ws.len() ==> (#[trigger] ws[i]) is None {
            assert forall|i: int| 0 <= i < ws.drop_last().len() implies (#[trigger] ws.drop_last()[i]) is None by {
                assert(ws.drop_last()[i] == ws[i]);
            }
            assert(ws[ws.len() - 1] is None);
        }
    }
}

/// Every suggestion offered for a wrong status repeats the command with an
/// accepted status.
pub proof fn law_status_suggestions_are_valid(prefix: Seq<char>, i: int)
    requires
        0 <= i < did_you_mean_each(prefix, status_names()).len(),
    ensures
        did_you_mean_each(prefix, status_names())[i].1 == prefix + status_names()[i],
        status_names().contains(status_names()[i]),
{
}

/// After removing repeated evolution methods, no two remaining methods
/// share a trigger and detail.
pub proof fn law_dedup_methods_unique(ms: Seq<crate::db::models::EvolutionMethod>)
    ensures
        forall|i: int, j: int|
            0 <= i < j < dedup_methods_spec(ms).len() ==> method_key(#[trigger] dedup_methods_spec(ms)[i]) != method_key(
                #[trigger] dedup_methods_spec(ms)[j],
            ),
    decreases ms.len(),
{
    if ms.len() > 0 {
        law_dedup_methods_unique(ms.drop_last());
        lemma_dedup_items(ms.drop_last());
        let r0 = dedup_methods_spec(ms.drop_last());
        let r = dedup_methods_spec(ms);
        assert forall|i: int, j: int| 0 <= i < j < r.len() implies method_key(#[trigger] r[i]) != method_key(
            #[trigger] r[j],
        ) by {
            if j < r0.len() {
                assert(r[i] == r0[i] && r[j] == r0[j]);
            } else {
                assert(r[j] == ms.last());
                assert(r[i] == r0[i]);
                let k = choose|k: int| 0 <= k < ms.drop_last().len() && ms.drop_last()[k] == r0[i];
                assert(ms[k] == r0[i]);
                if method_key(r[i]) == method_key(r[j]) {
                    assert(method_key(ms[k]) == method_key(ms.last()));
                }
            }
        }
    }
}

proof fn lemma_dedup_items(ms: Seq<crate::db::models::EvolutionMethod>)
    ensures
        forall|i: int| 0 <= i < dedup_methods_spec(ms).len() ==> ms.contains(#[trigger] dedup_methods_spec(ms)[i]),
    decreases ms.len(),
{
    if ms.len() > 0 {
        lemma_dedup_items(ms.drop_last());
        let r0 = dedup_methods_spec(ms.drop_last());
        let r = dedup_methods_spec(ms);
        assert forall|i: int| 0 <= i < r.len() implies ms.contains(#[trigger] r[i]) by {
            if i < r0.len() {
                assert(r[i] == r0[i]);
                let k = choose|k: int| 0 <= k < ms.drop_last().len() && ms.drop_last()[k] == r0[i];
                assert(ms[k] == r[i]);
            } else {
                assert(ms[ms.len() - 1] == r[i]);
            }
        }
    }
}

/// A digit is not white space.
proof fn lemma_digit_not_space(c: char)
    requires
        is_digit(c),
    ensures
        !white_space(c),
{
    assert(48 <= c as u32 <= 57);
}

/// A number written out with optional single spaces around it trims back to
/// its digits.
proof fn lemma_trim_padded(m: Seq<char>, lead: bool, trail: bool)
    requires
        m.len() > 0,
        all_digits(m),
    ensures
        trim_spec((if lead { seq![' '] } else { seq![] }) + m + (if trail { seq![' '] } else { seq![] })) == m,
{
    let pre: Seq<char> = if lead { seq![' '] } else { seq![] };
    let post: Seq<char> = if trail { seq![' '] } else { seq![] };
    let s = pre + m + post;
    lemma_digit_not_space(m[0]);
    lemma_digit_not_space(m.last());
    assert(white_space(' '));
    if lead {
        assert(s.drop_first() =~= m + post);
        assert(s.drop_first()[0] == m[0]);
        assert(leading_ws(s.drop_first()) == 0);
        assert(leading_ws(s) == 1);
    } else {
        assert(s[0] == m[0]);
        assert(leading_ws(s) == 0);
    }
    let rest = s.subrange(leading_ws(s) as int, s.len() as int);
    assert(rest =~= m + post);
    if trail {
        assert(rest.last() == ' ');
        assert(rest.drop_last() =~= m);
    } else {
        assert(rest =~= m);
    }
    assert(trim_end_spec(m) == m);
}

/// The first `-` of `a`, the pad, `-`, the pad and `b` stands right after `a`
/// and the pad, where `a` holds digits only.
proof fn lemma_dash_index(a: Seq<char>, pad: Seq<char>, b: Seq<char>)
    requires
        all_digits(a),
        forall|i: int| 0 <= i < pad.len() ==> pad[i] == ' ',
    ensures
        first_index(a + pad + seq!['-'] + b, '-') == Some((a.len() + pad.len()) as int),
{
    let s = a + pad + seq!['-'] + b;
    let k = (a.len() + pad.len()) as int;
    assert(s[k] == '-');
    assert forall|j: int| 0 <= j < k implies s[j] != '-' by {
        if j < a.len() {
            assert(s[j] == a[j]);
            assert(is_digit(a[j]));
        } else {
            assert(s[j] == pad[j - a.len()]);
        }
    }
    let i = choose|i: int| 0 <= i < s.len() && s[i] == '-' && forall|j: int| 0 <= j < i ==> s[j] != '-';
    assert(i == k);
}

/// Digits, a separator and digits trim to themselves.
proof fn lemma_trim_framed(da: Seq<char>, mid: Seq<char>, db: Seq<char>)
    requires
        da.len() > 0,
        db.len() > 0,
        all_digits(da),
        all_digits(db),
    ensures
        trim_spec(da + mid + db) == da + mid + db,
{
    let s = da + mid + db;
    assert(s[0] == da[0]);
    lemma_digit_not_space(da[0]);
    assert(s.last() == db.last());
    lemma_digit_not_space(db.last());
    assert(leading_ws(s) == 0);
    assert(s.subrange(0, s.len() as int) =~= s);
}

proof fn lemma_range_plain(a: i64, b: i64)
    requires
        a >= 0,
        b >= 0,
    ensures
        level_range_spec(decimal(a as nat) + seq!['-'] + decimal(b as nat)) == (a, b),
{
    let da = decimal(a as nat);
    let db = decimal(b as nat);
    lemma_decimal_digits(a as nat);
    lemma_decimal_digits(b as nat);
    law_decimal_round_trip(a);
    law_decimal_round_trip(b);
    let s = da + seq!['-'] + db;
    lemma_trim_framed(da, seq!['-'], db);
    lemma_dash_index(da, seq![], db);
    assert(da + Seq::<char>::empty() + seq!['-'] + db =~= s);
    assert(s.subrange(0, da.len() as int) =~= Seq::<char>::empty() + da + Seq::<char>::empty());
    assert(s.subrange(da.len() as int + 1, s.len() as int) =~= Seq::<char>::empty() + db + Seq::<char>::empty());
    lemma_trim_padded(da, false, false);
    lemma_trim_padded(db, false, false);
}

proof fn lemma_range_spaced(a: i64, b: i64)
    requires
        a >= 0,
        b >= 0,
    ensures
        level_range_spec(decimal(a as nat) + seq![' ', '-', ' '] + decimal(b as nat)) == (a, b),
{
    let da = decimal(a as nat);
    let db = decimal(b as nat);
    lemma_decimal_digits(a as nat);
    lemma_decimal_digits(b as nat);
    law_decimal_round_trip(a);
    law_decimal_round_trip(b);
    let s = da + seq![' ', '-', ' '] + db;
    lemma_trim_framed(da, seq![' ', '-', ' '], db);
    lemma_dash_index(da, seq![' '], seq![' '] + db);
    assert(da + seq![' '] + seq!['-'] + (seq![' '] + db) =~= s);
    assert(s.subrange(0, da.len() as int + 1) =~= Seq::<char>::empty() + da + seq![' ']);
    assert(s.subrange(da.len() as int + 2, s.len() as int) =~= seq![' '] + db + Seq::<char>::empty());
    lemma_trim_padded(da, false, true);
    lemma_trim_padded(db, true, false);
}

proof fn lemma_single_padded(a: i64)
    requires
        a >= 0,
    ensures
        level_range_spec(seq![' '] + decimal(a as nat) + seq![' ']) == (a, a),
{
    let da = decimal(a as nat);
    lemma_decimal_digits(a as nat);
    law_decimal_round_trip(a);
    lemma_trim_padded(da, true, true);
    if first_index(da, '-') is Some {
        let i = choose|i: int| 0 <= i < da.len() && da[i] == '-';
        assert(is_digit(da[i]));
    }
}

/// Level fields read back: `"a-b"` and `"a - b"` give `(a, b)`, and `" a "`
/// gives `(a, a)`.
pub proof fn law_level_range_reads_back(a: i64, b: i64)
    requires
        a >= 0,
        b >= 0,
    ensures
        level_range_spec(decimal(a as nat) + seq!['-'] + decimal(b as nat)) == (a, b),
        level_range_spec(decimal(a as nat) + seq![' ', '-', ' '] + decimal(b as nat)) == (a, b),
        level_range_spec(seq![' '] + decimal(a as nat) + seq![' ']) == (a, a),
{
    lemma_range_plain(a, b);
    lemma_range_spaced(a, b);
    lemma_single_padded(a);
}

} // verus!
