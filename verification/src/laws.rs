//! General properties of the language, stated and proved against the
//! grammar in [`crate::grammar`]. Because every executable parser is proved
//! to return exactly what the grammar says, each law here holds of the
//! executable parsers as well.

use vstd::prelude::*;
use crate::ast::{
    SpecIdent, SpecExpr, SpecCaseArg, SpecTestCase, SpecValueList, SpecMatrixItem,
    SpecParametrizeItem, SpecParametrizeInfo, SpecMatrixInfo, SpecRsTestInfo, SpecFixtureInfo,
    spec_parametrize_info_default, spec_matrix_info_default, spec_rstest_info_default,
    spec_fixture_info_default,
};
use crate::error::{ErrorKind, SpecError, err_at};
use crate::grammar::{
    is_comma, scan_close, scan_comma, sp_ident, sp_expr, sp_case_arg, sp_case_args, sp_expr_list,
    sp_group, sp_fixture, sp_case, sp_value_list, sp_parametrize_item, sp_matrix_item,
    sp_parametrize_items, sp_parametrize_items_rest, sp_matrix_items, sp_matrix_items_rest,
    sp_parametrize_data, sp_matrix_data, sp_parametrize_info, sp_matrix_info, sp_rstest_info,
    sp_fixture_info, unwrap_shape,
};
use crate::host::is_rust_expr;
use crate::token::{Delim, Tok, render_at};

verus! {

// ---------------------------------------------------------------------------
// Round trip of the empty input.
// ---------------------------------------------------------------------------
/// An empty input parses to the all-default parametrize directive: no items
/// and no modifiers.
pub proof fn lemma_empty_parametrize_default()
    ensures
        sp_parametrize_info(Seq::<Tok>::empty()) == Ok::<SpecParametrizeInfo, SpecError>(
            spec_parametrize_info_default(),
        ),
{
}

/// An empty input parses to the all-default matrix directive.
pub proof fn lemma_empty_matrix_default()
    ensures
        sp_matrix_info(Seq::<Tok>::empty()) == Ok::<SpecMatrixInfo, SpecError>(
            spec_matrix_info_default(),
        ),
{
}

/// An empty input parses to the all-default rstest directive.
pub proof fn lemma_empty_rstest_default()
    ensures
        sp_rstest_info(Seq::<Tok>::empty()) == Ok::<SpecRsTestInfo, SpecError>(
            spec_rstest_info_default(),
        ),
{
}

/// An empty input parses to the all-default fixture directive.
pub proof fn lemma_empty_fixture_default()
    ensures
        sp_fixture_info(Seq::<Tok>::empty()) == Ok::<SpecFixtureInfo, SpecError>(
            spec_fixture_info_default(),
        ),
{
}

// ---------------------------------------------------------------------------
// The empty value list.
// ---------------------------------------------------------------------------
/// `name => []` fails with the empty-list error, positioned at the bracket
/// group, whatever the name is.
pub proof fn lemma_empty_value_list_rejected(name: Seq<char>)
    ensures
        ({
            let s = seq![
                Tok::Ident { text: name },
                Tok::FatArrow,
                Tok::Open { d: Delim::Bracket },
                Tok::Close { d: Delim::Bracket },
            ];
            sp_value_list(s, 0, 4) == Err::<(SpecValueList, int), SpecError>(
                err_at(2, ErrorKind::EmptyValueList),
            )
        }),
{
    let s = seq![
        Tok::Ident { text: name },
        Tok::FatArrow,
        Tok::Open { d: Delim::Bracket },
        Tok::Close { d: Delim::Bracket },
    ];
    assert(sp_group(s, 2, 4, Delim::Bracket) == Ok::<int, SpecError>(3));
    assert(sp_case_args(s, 4, 3) == Ok::<(Seq<SpecCaseArg>, int), SpecError>((Seq::empty(), 3)));
}

// ---------------------------------------------------------------------------
// Matrix classification by the arrow.
// ---------------------------------------------------------------------------
/// A matrix slot whose second token is the arrow `=>` is classified as a
/// value list — its result is exactly the value-list parse, never a fixture,
/// even when the slot's name would also fit a fixture-style call.
pub proof fn lemma_matrix_arrow_is_value_list(s: Seq<Tok>, i: int, hi: int)
    requires
        0 <= i,
        i + 1 < hi,
        s[i + 1] matches Tok::FatArrow,
    ensures
        sp_matrix_item(s, i, hi) == (match sp_value_list(s, i, hi) {
            Ok((v, j)) => Ok::<(SpecMatrixItem, int), SpecError>((SpecMatrixItem::ValueList(v), j)),
            Err(e) => Err::<(SpecMatrixItem, int), SpecError>(e),
        }),
{
}

// ---------------------------------------------------------------------------
// Bare argument names.
// ---------------------------------------------------------------------------
/// A parametrize slot holding a bare identifier — one not followed by a
/// parenthesis group or a `::` — is classified as an argument name and
/// consumes exactly that one token, so it never takes a following sibling's
/// parenthesis. This holds for the identifier `case` itself.
pub proof fn lemma_bare_name_slot(s: Seq<Tok>, i: int, hi: int, t: Seq<char>)
    requires
        0 <= i < hi,
        s[i] == (Tok::Ident { text: t }),
        i + 1 < hi ==> !(s[i + 1] == (Tok::Open { d: Delim::Paren })) && !(s[i
            + 1] matches Tok::PathSep),
    ensures
        sp_parametrize_item(s, i, hi) == Ok::<(SpecParametrizeItem, int), SpecError>(
            (SpecParametrizeItem::CaseArgName(SpecIdent { text: t, pos: i }), i + 1),
        ),
{
    assert(sp_case(s, i, hi) is Err);
}

// ---------------------------------------------------------------------------
// Case arguments, run by run.
// ---------------------------------------------------------------------------
/// A case written `case ( … )`, with no description, parses to a node whose
/// description is `None` and whose arguments are exactly those of the
/// argument-list grammar over the group's region.
pub proof fn lemma_case_no_description(s: Seq<Tok>, i: int, hi: int, c: int)
    requires
        0 <= i,
        i + 1 < hi,
        s[i] == (Tok::Ident { text: "case"@ }),
        sp_group(s, i + 1, hi, Delim::Paren) == Ok::<int, SpecError>(c),
    ensures
        sp_case(s, i, hi) == (match sp_case_args(s, i + 2, c) {
            Ok((args, _)) => Ok::<(SpecTestCase, int), SpecError>(
                (SpecTestCase { args, description: None }, c + 1),
            ),
            Err(e) => Err::<(SpecTestCase, int), SpecError>(e),
        }),
{
    assert(s[i + 1] == (Tok::Open { d: Delim::Paren }));
}

/// The shape of an argument region split into expression runs: each run is
/// a non-empty token range ending at the next comma at group depth zero (or
/// at the region's end), is not the wrapped form, and reads as one complete
/// expression; after an inner run its comma follows, and a trailing comma is
/// covered by a last run that ends before `hi`.
pub open spec fn runs_ok(s: Seq<Tok>, i: int, hi: int, runs: Seq<(int, int)>) -> bool
    decreases runs.len(),
{
    if runs.len() == 0 {
        i >= hi
    } else {
        let (a, b) = runs[0];
        a == i && i < b <= hi && unwrap_shape(s, i, hi) is None && scan_comma(s, i, hi, 0) == b
            && is_rust_expr(render_at(s, i, b)) && if b == hi {
            runs.len() == 1
        } else {
            is_comma(s[b]) && runs_ok(s, b + 1, hi, runs.drop_first())
        }
    }
}

/// The argument a run denotes: its text and its starting position.
pub open spec fn run_arg(s: Seq<Tok>, r: (int, int)) -> SpecCaseArg {
    SpecCaseArg { expr: SpecExpr { text: render_at(s, r.0, r.1), pos: r.0 } }
}

/// An argument region made of expression runs parses to exactly one argument
/// per run, in order, each textually equal to its run.
pub proof fn lemma_case_args_of_runs(s: Seq<Tok>, i: int, hi: int, runs: Seq<(int, int)>)
    requires
        0 <= i,
        runs_ok(s, i, hi, runs),
    ensures
        sp_case_args(s, i, hi) == Ok::<(Seq<SpecCaseArg>, int), SpecError>(
            (runs.map_values(|r: (int, int)| run_arg(s, r)), hi),
        ),
    decreases runs.len(),
{
    if runs.len() == 0 {
        assert(runs.map_values(|r: (int, int)| run_arg(s, r)) =~= Seq::<SpecCaseArg>::empty());
    } else {
        let (a, b) = runs[0];
        assert(sp_expr(s, i, hi) == Ok::<(SpecExpr, int), SpecError>(
            (SpecExpr { text: render_at(s, i, b), pos: i }, b),
        ));
        assert(sp_case_arg(s, i, hi) == Ok::<(SpecCaseArg, int), SpecError>(
            (run_arg(s, runs[0]), b),
        ));
        if b == hi {
            assert(runs.map_values(|r: (int, int)| run_arg(s, r)) =~= seq![run_arg(s, runs[0])]);
        } else {
            lemma_case_args_of_runs(s, b + 1, hi, runs.drop_first());
            assert(runs.map_values(|r: (int, int)| run_arg(s, r)) =~= seq![run_arg(s, runs[0])]
                + runs.drop_first().map_values(|r: (int, int)| run_arg(s, r)));
        }
    }
}

/// For every input of the form `case(E1, …, En)` — the keyword, no
/// description, and a parenthesized region made of `n` expression runs — the
/// parsed node has exactly `n` arguments, the `k`-th textually equal to
/// `Ek`, and no description.
pub proof fn lemma_case_parses_each_run(s: Seq<Tok>, i: int, hi: int, c: int, runs: Seq<
    (int, int),
>)
    requires
        0 <= i,
        i + 1 < hi,
        s[i] == (Tok::Ident { text: "case"@ }),
        sp_group(s, i + 1, hi, Delim::Paren) == Ok::<int, SpecError>(c),
        runs_ok(s, i + 2, c, runs),
    ensures
        sp_case(s, i, hi) == Ok::<(SpecTestCase, int), SpecError>(
            (
                SpecTestCase {
                    args: runs.map_values(|r: (int, int)| run_arg(s, r)),
                    description: None,
                },
                c + 1,
            ),
        ),
        sp_case(s, i, hi)->Ok_0.0.args.len() == runs.len(),
{
    lemma_case_no_description(s, i, hi, c);
    lemma_case_args_of_runs(s, i + 2, c, runs);
}

// ---------------------------------------------------------------------------
// A trailing comma is idempotent.
//
// The lemmas below show that appending one comma to a whole parametrize item
// list changes nothing: a parse that consumed everything consumes the comma
// as a trailing separator and yields the same items. The private lemmas are
// of two shapes: frame lemmas say a region-bounded parse ignores a token
// appended beyond every region it touches, and extension lemmas carry each
// parse step from the given input to the extended one.
// ---------------------------------------------------------------------------
proof fn lemma_scan_close_frame(s: Seq<Tok>, x: Tok, i: int, hi: int, d: int)
    requires
        hi <= s.len(),
    ensures
        scan_close(s.push(x), i, hi, d) == scan_close(s, i, hi, d),
    decreases hi - i,
{
    if 0 <= i < hi {
        assert(s.push(x)[i] == s[i]);
        match s[i] {
            Tok::Close { d: _ } => {
                if d != 0 {
                    lemma_scan_close_frame(s, x, i + 1, hi, d - 1);
                }
            },
            Tok::Open { d: _ } => {
                lemma_scan_close_frame(s, x, i + 1, hi, d + 1);
            },
            _ => {
                lemma_scan_close_frame(s, x, i + 1, hi, d);
            },
        }
    }
}

proof fn lemma_scan_comma_frame(s: Seq<Tok>, x: Tok, i: int, hi: int, d: int)
    requires
        hi <= s.len(),
    ensures
        scan_comma(s.push(x), i, hi, d) == scan_comma(s, i, hi, d),
    decreases hi - i,
{
    if 0 <= i < hi {
        assert(s.push(x)[i] == s[i]);
        match s[i] {
            Tok::Punct { ch: ',', joint: _ } => {
                if d != 0 {
                    lemma_scan_comma_frame(s, x, i + 1, hi, d);
                }
            },
            Tok::Open { d: _ } => {
                lemma_scan_comma_frame(s, x, i + 1, hi, d + 1);
            },
            Tok::Close { d: _ } => {
                lemma_scan_comma_frame(s, x, i + 1, hi, d - 1);
            },
            _ => {
                lemma_scan_comma_frame(s, x, i + 1, hi, d);
            },
        }
    }
}

proof fn lemma_render_frame(s: Seq<Tok>, x: Tok, i: int, hi: int)
    requires
        hi <= s.len(),
    ensures
        render_at(s.push(x), i, hi) == render_at(s, i, hi),
    decreases hi - i,
{
    if 0 <= i < hi {
        assert(s.push(x)[i] == s[i]);
        if i + 1 < hi {
            lemma_render_frame(s, x, i + 1, hi);
        }
    }
}

proof fn lemma_expr_frame(s: Seq<Tok>, x: Tok, i: int, hi: int)
    requires
        hi <= s.len(),
    ensures
        sp_expr(s.push(x), i, hi) == sp_expr(s, i, hi),
{
    lemma_scan_comma_frame(s, x, i, hi, 0);
    let end = scan_comma(s, i, hi, 0);
    if 0 <= i < end && end <= hi {
        lemma_render_frame(s, x, i, end);
    }
}

proof fn lemma_unwrap_frame(s: Seq<Tok>, x: Tok, i: int, hi: int)
    requires
        hi <= s.len(),
    ensures
        unwrap_shape(s.push(x), i, hi) == unwrap_shape(s, i, hi),
{
    if 0 <= i && i + 1 < hi {
        assert(s.push(x)[i] == s[i]);
        assert(s.push(x)[i + 1] == s[i + 1]);
        lemma_scan_close_frame(s, x, i + 2, hi, 0);
        match scan_close(s, i + 2, hi, 0) {
            Some(c) => {
                if i + 2 <= c < hi {
                    assert(s.push(x)[c] == s[c]);
                    assert(s.push(x)[i + 2] == s[i + 2]);
                    if c == i + 4 {
                        assert(s.push(x)[i + 3] == s[i + 3]);
                    }
                }
            },
            None => {},
        }
    }
}

proof fn lemma_case_arg_frame(s: Seq<Tok>, x: Tok, i: int, hi: int)
    requires
        hi <= s.len(),
    ensures
        sp_case_arg(s.push(x), i, hi) == sp_case_arg(s, i, hi),
{
    lemma_unwrap_frame(s, x, i, hi);
    lemma_expr_frame(s, x, i, hi);
}

proof fn lemma_expr_list_frame(s: Seq<Tok>, x: Tok, i: int, hi: int)
    requires
        hi <= s.len(),
    ensures
        sp_expr_list(s.push(x), i, hi) == sp_expr_list(s, i, hi),
    decreases hi - i,
{
    if i < hi {
        lemma_expr_frame(s, x, i, hi);
        match sp_expr(s, i, hi) {
            Ok((_, j)) => {
                if j < hi {
                    assert(s.push(x)[j] == s[j]);
                    if is_comma(s[j]) {
                        lemma_expr_list_frame(s, x, j + 1, hi);
                    }
                }
            },
            Err(_) => {},
        }
    }
}

proof fn lemma_case_args_frame(s: Seq<Tok>, x: Tok, i: int, hi: int)
    requires
        hi <= s.len(),
    ensures
        sp_case_args(s.push(x), i, hi) == sp_case_args(s, i, hi),
    decreases hi - i,
{
    if i < hi {
        lemma_case_arg_frame(s, x, i, hi);
        match sp_case_arg(s, i, hi) {
            Ok((_, j)) => {
                if j < hi {
                    assert(s.push(x)[j] == s[j]);
                    if is_comma(s[j]) {
                        lemma_case_args_frame(s, x, j + 1, hi);
                    }
                }
            },
            Err(_) => {},
        }
    }
}

proof fn lemma_scan_close_ext(s: Seq<Tok>, cm: Tok, i: int, d: int)
    requires
        is_comma(cm),
        0 <= i <= s.len(),
    ensures
        scan_close(s.push(cm), i, s.len() as int + 1, d) == scan_close(s, i, s.len() as int, d),
    decreases s.len() - i,
{
    let n = s.len() as int;
    if i < n {
        assert(s.push(cm)[i] == s[i]);
        match s[i] {
            Tok::Close { d: _ } => {
                if d != 0 {
                    lemma_scan_close_ext(s, cm, i + 1, d - 1);
                }
            },
            Tok::Open { d: _ } => {
                lemma_scan_close_ext(s, cm, i + 1, d + 1);
            },
            _ => {
                lemma_scan_close_ext(s, cm, i + 1, d);
            },
        }
    } else {
        assert(s.push(cm)[n] == cm);
        assert(scan_close(s.push(cm), n + 1, n + 1, d) is None);
    }
}

proof fn lemma_ident_ext(s: Seq<Tok>, cm: Tok, i: int)
    requires
        is_comma(cm),
        0 <= i <= s.len(),
    ensures
        sp_ident(s.push(cm), i, s.len() as int + 1) == sp_ident(s, i, s.len() as int),
{
    let n = s.len() as int;
    if i < n {
        assert(s.push(cm)[i] == s[i]);
    } else {
        assert(s.push(cm)[n] == cm);
    }
}

proof fn lemma_group_ext(s: Seq<Tok>, cm: Tok, j: int, d: Delim)
    requires
        is_comma(cm),
        0 <= j <= s.len(),
    ensures
        sp_group(s.push(cm), j, s.len() as int + 1, d) == sp_group(s, j, s.len() as int, d),
{
    let n = s.len() as int;
    if j < n {
        assert(s.push(cm)[j] == s[j]);
        if s[j] == (Tok::Open { d }) {
            lemma_scan_close_ext(s, cm, j + 1, 0);
            match scan_close(s, j + 1, n, 0) {
                Some(c) => {
                    if j + 1 <= c < n {
                        assert(s.push(cm)[c] == s[c]);
                    }
                },
                None => {},
            }
        }
    } else {
        assert(s.push(cm)[n] == cm);
    }
}

proof fn lemma_fixture_ext(s: Seq<Tok>, cm: Tok, i: int)
    requires
        is_comma(cm),
        0 <= i <= s.len(),
    ensures
        sp_fixture(s.push(cm), i, s.len() as int + 1) == sp_fixture(s, i, s.len() as int),
{
    let n = s.len() as int;
    lemma_ident_ext(s, cm, i);
    match sp_ident(s, i, n) {
        Ok((_, j)) => {
            lemma_group_ext(s, cm, j, Delim::Paren);
            match sp_group(s, j, n, Delim::Paren) {
                Ok(c) => {
                    lemma_expr_list_frame(s, cm, j + 1, c);
                },
                Err(_) => {},
            }
        },
        Err(_) => {},
    }
}

proof fn lemma_case_ext(s: Seq<Tok>, cm: Tok, i: int)
    requires
        is_comma(cm),
        0 <= i <= s.len(),
    ensures
        sp_case(s.push(cm), i, s.len() as int + 1) == sp_case(s, i, s.len() as int),
{
    let n = s.len() as int;
    let s2 = s.push(cm);
    lemma_ident_ext(s, cm, i);
    match sp_ident(s, i, n) {
        Ok((kw, j0)) => {
            if kw.text == "case"@ {
                if j0 < n {
                    assert(s2[j0] == s[j0]);
                } else {
                    assert(s2[j0] == cm);
                }
                let desc = j0 < n && (s[j0] matches Tok::PathSep);
                assert(desc == (j0 < n + 1 && (s2[j0] matches Tok::PathSep)));
                let j = if desc {
                    lemma_ident_ext(s, cm, j0 + 1);
                    match sp_ident(s, j0 + 1, n) {
                        Ok((_, j1)) => j1,
                        Err(_) => n + 2,
                    }
                } else {
                    j0
                };
                if j <= n + 1 {
                    lemma_group_ext(s, cm, j, Delim::Paren);
                    match sp_group(s, j, n, Delim::Paren) {
                        Ok(c) => {
                            lemma_case_args_frame(s, cm, j + 1, c);
                        },
                        Err(_) => {},
                    }
                }
            }
        },
        Err(_) => {},
    }
}

proof fn lemma_parametrize_item_ext(s: Seq<Tok>, cm: Tok, i: int)
    requires
        is_comma(cm),
        0 <= i <= s.len(),
    ensures
        sp_parametrize_item(s.push(cm), i, s.len() as int + 1) == sp_parametrize_item(
            s,
            i,
            s.len() as int,
        ),
{
    lemma_case_ext(s, cm, i);
    lemma_fixture_ext(s, cm, i);
    lemma_ident_ext(s, cm, i);
}

proof fn lemma_parametrize_items_rest_le(s: Seq<Tok>, i: int, hi: int)
    requires
        0 <= i <= hi,
    ensures
        sp_parametrize_items_rest(s, i, hi) matches Ok((v, k)) ==> i <= k <= hi,
    decreases hi - i,
{
    if i < hi && is_comma(s[i]) {
        if i + 1 < hi {
            if is_comma(s[i + 1]) {
                lemma_parametrize_items_rest_le(s, i + 1, hi);
            } else {
                match sp_parametrize_item(s, i + 1, hi) {
                    Ok((_, j)) => {
                        lemma_parametrize_items_rest_le(s, j, hi);
                    },
                    Err(_) => {},
                }
            }
        }
    }
}

proof fn lemma_parametrize_items_rest_ext(s: Seq<Tok>, cm: Tok, i: int, its: Seq<
    SpecParametrizeItem,
>)
    requires
        is_comma(cm),
        0 <= i <= s.len(),
        sp_parametrize_items_rest(s, i, s.len() as int) == Ok::<
            (Seq<SpecParametrizeItem>, int),
            SpecError,
        >((its, s.len() as int)),
    ensures
        sp_parametrize_items_rest(s.push(cm), i, s.len() as int + 1) == Ok::<
            (Seq<SpecParametrizeItem>, int),
            SpecError,
        >((its, s.len() as int + 1)),
    decreases s.len() - i,
{
    let n = s.len() as int;
    let s2 = s.push(cm);
    if i >= n {
        assert(s2[n] == cm);
    } else {
        assert(s2[i] == s[i]);
        if is_comma(s[i]) {
            if i + 1 >= n {
                assert(s2[i + 1] == cm);
                assert(sp_parametrize_items_rest(s2, i + 1, n + 1) == Ok::<
                    (Seq<SpecParametrizeItem>, int),
                    SpecError,
                >((Seq::empty(), n + 1)));
            } else {
                assert(s2[i + 1] == s[i + 1]);
                if is_comma(s[i + 1]) {
                    lemma_parametrize_items_rest_ext(s, cm, i + 1, its);
                } else {
                    lemma_parametrize_item_ext(s, cm, i + 1);
                    match sp_parametrize_item(s, i + 1, n) {
                        Ok((it, j)) => {
                            match sp_parametrize_items_rest(s, j, n) {
                                Ok((rest, _)) => {
                                    lemma_parametrize_items_rest_ext(s, cm, j, rest);
                                },
                                Err(_) => {},
                            }
                        },
                        Err(_) => {},
                    }
                }
            }
        }
    }
}

/// A trailing comma is idempotent: when a whole input parses as a
/// parametrize item list, the same input with one comma appended parses to
/// the identical item list. The one exclusion is the empty input, whose
/// appended comma is an unclassifiable first slot, not a trailing separator.
pub proof fn lemma_trailing_comma_parametrize(s: Seq<Tok>, cm: Tok)
    requires
        is_comma(cm),
        s.len() > 0,
        sp_parametrize_data(s) is Ok,
    ensures
        sp_parametrize_data(s.push(cm)) == sp_parametrize_data(s),
{
    let n = s.len() as int;
    let s2 = s.push(cm);
    lemma_parametrize_item_ext(s, cm, 0);
    match sp_parametrize_items(s, 0, n) {
        Ok((its, k)) => {
            match sp_parametrize_item(s, 0, n) {
                Ok((it, j)) => {
                    lemma_parametrize_items_rest_le(s, j, n);
                    match sp_parametrize_items_rest(s, j, n) {
                        Ok((rest, _)) => {
                            lemma_parametrize_items_rest_ext(s, cm, j, rest);
                        },
                        Err(_) => {},
                    }
                },
                Err(_) => {},
            }
        },
        Err(_) => {},
    }
}

proof fn lemma_value_list_ext(s: Seq<Tok>, cm: Tok, i: int)
    requires
        is_comma(cm),
        0 <= i <= s.len(),
    ensures
        sp_value_list(s.push(cm), i, s.len() as int + 1) == sp_value_list(s, i, s.len() as int),
{
    let n = s.len() as int;
    let s2 = s.push(cm);
    lemma_ident_ext(s, cm, i);
    match sp_ident(s, i, n) {
        Ok((_, j)) => {
            if j < n {
                assert(s2[j] == s[j]);
            } else {
                assert(s2[j] == cm);
            }
            if j < n && (s[j] matches Tok::FatArrow) {
                lemma_group_ext(s, cm, j + 1, Delim::Bracket);
                match sp_group(s, j + 1, n, Delim::Bracket) {
                    Ok(c) => {
                        lemma_case_args_frame(s, cm, j + 2, c);
                    },
                    Err(_) => {},
                }
            }
        },
        Err(_) => {},
    }
}

proof fn lemma_matrix_item_ext(s: Seq<Tok>, cm: Tok, i: int)
    requires
        is_comma(cm),
        0 <= i <= s.len(),
    ensures
        sp_matrix_item(s.push(cm), i, s.len() as int + 1) == sp_matrix_item(s, i, s.len() as int),
{
    let n = s.len() as int;
    let s2 = s.push(cm);
    if i + 1 < n {
        assert(s2[i + 1] == s[i + 1]);
    } else if i + 1 == n {
        assert(s2[i + 1] == cm);
    }
    lemma_value_list_ext(s, cm, i);
    lemma_fixture_ext(s, cm, i);
}

proof fn lemma_matrix_items_rest_le(s: Seq<Tok>, i: int, hi: int)
    requires
        0 <= i <= hi,
    ensures
        sp_matrix_items_rest(s, i, hi) matches Ok((v, k)) ==> i <= k <= hi,
    decreases hi - i,
{
    if i < hi && is_comma(s[i]) {
        if i + 1 < hi {
            if is_comma(s[i + 1]) {
                lemma_matrix_items_rest_le(s, i + 1, hi);
            } else {
                match sp_matrix_item(s, i + 1, hi) {
                    Ok((_, j)) => {
                        lemma_matrix_items_rest_le(s, j, hi);
                    },
                    Err(_) => {},
                }
            }
        }
    }
}

proof fn lemma_matrix_items_rest_ext(s: Seq<Tok>, cm: Tok, i: int, its: Seq<SpecMatrixItem>)
    requires
        is_comma(cm),
        0 <= i <= s.len(),
        sp_matrix_items_rest(s, i, s.len() as int) == Ok::<(Seq<SpecMatrixItem>, int), SpecError>(
            (its, s.len() as int),
        ),
    ensures
        sp_matrix_items_rest(s.push(cm), i, s.len() as int + 1) == Ok::<
            (Seq<SpecMatrixItem>, int),
            SpecError,
        >((its, s.len() as int + 1)),
    decreases s.len() - i,
{
    let n = s.len() as int;
    let s2 = s.push(cm);
    if i >= n {
        assert(s2[n] == cm);
    } else {
        assert(s2[i] == s[i]);
        if is_comma(s[i]) {
            if i + 1 >= n {
                assert(s2[i + 1] == cm);
                assert(sp_matrix_items_rest(s2, i + 1, n + 1) == Ok::<
                    (Seq<SpecMatrixItem>, int),
                    SpecError,
                >((Seq::empty(), n + 1)));
            } else {
                assert(s2[i + 1] == s[i + 1]);
                if is_comma(s[i + 1]) {
                    lemma_matrix_items_rest_ext(s, cm, i + 1, its);
                } else {
                    lemma_matrix_item_ext(s, cm, i + 1);
                    match sp_matrix_item(s, i + 1, n) {
                        Ok((it, j)) => {
                            match sp_matrix_items_rest(s, j, n) {
                                Ok((rest, _)) => {
                                    lemma_matrix_items_rest_ext(s, cm, j, rest);
                                },
                                Err(_) => {},
                            }
                        },
                        Err(_) => {},
                    }
                }
            }
        }
    }
}

/// A trailing comma is idempotent for a matrix item list as well, with the
/// same exclusion of the empty input.
pub proof fn lemma_trailing_comma_matrix(s: Seq<Tok>, cm: Tok)
    requires
        is_comma(cm),
        s.len() > 0,
        sp_matrix_data(s) is Ok,
    ensures
        sp_matrix_data(s.push(cm)) == sp_matrix_data(s),
{
    let n = s.len() as int;
    lemma_matrix_item_ext(s, cm, 0);
    match sp_matrix_items(s, 0, n) {
        Ok((its, k)) => {
            match sp_matrix_item(s, 0, n) {
                Ok((it, j)) => {
                    lemma_matrix_items_rest_le(s, j, n);
                    match sp_matrix_items_rest(s, j, n) {
                        Ok((rest, _)) => {
                            lemma_matrix_items_rest_ext(s, cm, j, rest);
                        },
                        Err(_) => {},
                    }
                },
                Err(_) => {},
            }
        },
        Err(_) => {},
    }
}

} // verus!
