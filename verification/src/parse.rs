//! The executable parsers, each proved to return exactly what the
//! corresponding specification function in [`crate::grammar`] says.
//!
//! A parser works on a borrowed token sequence and a position; speculation is
//! a call whose returned position is dropped when the result is an error, so
//! a failed trial leaves the caller's position untouched. Parsers that can
//! meet the deprecated wrapped argument form take a notice sink — a vector of
//! positions — and only ever append to it; the caller surfaces the notices.

use vstd::prelude::*;
use vstd::string::{StringExecFns, StrSliceExecFns};
use crate::ast::{
    Ident, Expr, TypeExpr, CaseArg, TestCase, Fixture, ValueList, RsTestAttribute, Modifiers,
    ParametrizeItem, ParametrizeData, ParametrizeInfo, MatrixItem, MatrixValues, MatrixInfo,
    RsTestItem, RsTestData, RsTestModifiers, RsTestInfo, FixtureItem, FixtureData,
    FixtureModifiers, FixtureInfo, SpecIdent, SpecExpr, SpecCaseArg, SpecTestCase, SpecFixture,
    SpecValueList, SpecAttr, SpecModifiers, SpecParametrizeItem, SpecParametrizeData,
    SpecParametrizeInfo, SpecMatrixItem, SpecMatrixInfo, SpecRsTestItem,
    SpecRsTestData, SpecRsTestInfo, SpecFixtureItem, SpecFixtureData,
    SpecFixtureInfo, case_args_model, exprs_model, idents_model,
    attrs_model, pitems_model, mitems_model, rs_items_model, fx_items_model,
};
use crate::error::{ErrorKind, ParseError, SpecError};
use crate::grammar::{
    scan_close, scan_comma, scan_gt, sp_ident, sp_expr, sp_expr_list, unwrap_shape, sp_case_arg,
    sp_case_arg_notice, sp_case_args, sp_group, sp_fixture, sp_case, sp_value_list,
    sp_inner_idents, sp_modifier, sp_modifiers, sp_parametrize_item, sp_matrix_item,
    sp_parametrize_items, sp_parametrize_items_rest, sp_matrix_items, sp_matrix_items_rest,
    sp_fixture_slots, sp_fixture_slots_rest, sp_test_case_full, sp_fixture_full,
    sp_value_list_full, sp_modifiers_full, sp_parametrize_data, sp_parametrize_info,
    sp_matrix_info, sp_rstest_info, sp_fixture_info, wrap_rstest_items, wrap_fixture_items,
};
use crate::host::{accepts_expr, accepts_type, str_eq};
use crate::token::{Delim, Token, Tok, toks_model, render};

verus! {

/// The notice sink was only appended to: everything already recorded stays,
/// in place.
pub open spec fn notes_extend(new: Seq<usize>, prev: Seq<usize>) -> bool {
    new.len() >= prev.len() && (forall|k: int| 0 <= k < prev.len() ==> new[k] == prev[k])
}

// ---------------------------------------------------------------------------
// Scans.
// ---------------------------------------------------------------------------
fn find_close(toks: &Vec<Token>, i: usize, hi: usize) -> (r: Option<usize>)
    requires
        i <= hi <= toks.len(),
    ensures
        match r {
            Some(c) => scan_close(toks_model(toks@), i as int, hi as int, 0) == Some(c as int) && i
                <= c < hi,
            None => scan_close(toks_model(toks@), i as int, hi as int, 0) is None,
        },
{
    let ghost m = toks_model(toks@);
    let mut k: usize = i;
    let mut depth: u64 = 0;
    while k < hi
        invariant
            i <= k <= hi <= toks.len(),
            depth <= k - i,
            m == toks_model(toks@),
            scan_close(m, i as int, hi as int, 0) == scan_close(
                m,
                k as int,
                hi as int,
                depth as int,
            ),
        decreases hi - k,
    {
        proof {
            assert(m[k as int] == toks@[k as int]@);
        }
        match &toks[k] {
            Token::Close(_) => {
                if depth == 0 {
                    return Some(k);
                } else {
                    depth = depth - 1;
                }
            },
            Token::Open(_) => {
                depth = depth + 1;
            },
            _ => {},
        }
        k = k + 1;
    }
    None
}

fn find_comma(toks: &Vec<Token>, i: usize, hi: usize) -> (r: usize)
    requires
        i <= hi <= toks.len(),
    ensures
        scan_comma(toks_model(toks@), i as int, hi as int, 0) == r as int,
        i <= r <= hi,
{
    let ghost m = toks_model(toks@);
    let mut k: usize = i;
    let mut depth: i128 = 0;
    while k < hi
        invariant
            i <= k <= hi <= toks.len(),
            -(k as int) <= depth as int <= k as int,
            m == toks_model(toks@),
            scan_comma(m, i as int, hi as int, 0) == scan_comma(
                m,
                k as int,
                hi as int,
                depth as int,
            ),
        decreases hi - k,
    {
        proof {
            assert(m[k as int] == toks@[k as int]@);
        }
        match &toks[k] {
            Token::Punct(c, _) => {
                if *c == ',' && depth == 0 {
                    return k;
                }
            },
            Token::Open(_) => {
                depth = depth + 1;
            },
            Token::Close(_) => {
                depth = depth - 1;
            },
            _ => {},
        }
        k = k + 1;
    }
    hi
}

fn find_gt(toks: &Vec<Token>, i: usize, hi: usize) -> (r: Option<usize>)
    requires
        i <= hi <= toks.len(),
    ensures
        match r {
            Some(g) => scan_gt(toks_model(toks@), i as int, hi as int, 0, 0) == Some(g as int) && i
                <= g < hi,
            None => scan_gt(toks_model(toks@), i as int, hi as int, 0, 0) is None,
        },
{
    let ghost m = toks_model(toks@);
    let mut k: usize = i;
    let mut gdepth: i128 = 0;
    let mut adepth: i128 = 0;
    while k < hi
        invariant
            i <= k <= hi <= toks.len(),
            -(k as int) <= gdepth as int <= k as int,
            -(k as int) <= adepth as int <= k as int,
            m == toks_model(toks@),
            scan_gt(m, i as int, hi as int, 0, 0) == scan_gt(
                m,
                k as int,
                hi as int,
                gdepth as int,
                adepth as int,
            ),
        decreases hi - k,
    {
        proof {
            assert(m[k as int] == toks@[k as int]@);
        }
        match &toks[k] {
            Token::Open(_) => {
                gdepth = gdepth + 1;
            },
            Token::Close(_) => {
                gdepth = gdepth - 1;
            },
            Token::Punct(c, _) => {
                if *c == '<' {
                    if gdepth == 0 {
                        adepth = adepth + 1;
                    }
                } else if *c == '>' {
                    if gdepth == 0 {
                        if adepth == 0 {
                            return Some(k);
                        } else {
                            adepth = adepth - 1;
                        }
                    }
                }
            },
            _ => {},
        }
        k = k + 1;
    }
    None
}

// ---------------------------------------------------------------------------
// Primitives.
// ---------------------------------------------------------------------------
fn parse_ident(toks: &Vec<Token>, i: usize, hi: usize) -> (r: Result<(Ident, usize), ParseError>)
    requires
        i <= hi <= toks.len(),
    ensures
        match r {
            Ok((v, j)) => sp_ident(toks_model(toks@), i as int, hi as int) == Ok::<
                (SpecIdent, int),
                SpecError,
            >((v@, j as int)) && i < j <= hi,
            Err(e) => sp_ident(toks_model(toks@), i as int, hi as int) == Err::<
                (SpecIdent, int),
                SpecError,
            >(e@),
        },
{
    if i < hi {
        proof {
            assert(toks_model(toks@)[i as int] == toks@[i as int]@);
        }
        match &toks[i] {
            Token::Ident(s) => Ok((Ident { text: s.clone(), pos: i }, i + 1)),
            _ => Err(ParseError { pos: i, kind: ErrorKind::ExpectedIdent }),
        }
    } else {
        Err(ParseError { pos: i, kind: ErrorKind::ExpectedIdent })
    }
}

fn parse_expr(toks: &Vec<Token>, i: usize, hi: usize) -> (r: Result<(Expr, usize), ParseError>)
    requires
        i <= hi <= toks.len(),
    ensures
        match r {
            Ok((v, j)) => sp_expr(toks_model(toks@), i as int, hi as int) == Ok::<
                (SpecExpr, int),
                SpecError,
            >((v@, j as int)) && i < j <= hi,
            Err(e) => sp_expr(toks_model(toks@), i as int, hi as int) == Err::<
                (SpecExpr, int),
                SpecError,
            >(e@),
        },
{
    let end = find_comma(toks, i, hi);
    if i < end {
        let text = render(toks, i, end);
        if accepts_expr(text.as_str()) {
            Ok((Expr { text, pos: i }, end))
        } else {
            Err(ParseError { pos: i, kind: ErrorKind::CannotParseExpression })
        }
    } else {
        Err(ParseError { pos: i, kind: ErrorKind::CannotParseExpression })
    }
}

fn parse_expr_list(toks: &Vec<Token>, i: usize, hi: usize) -> (r: Result<
    (Vec<Expr>, usize),
    ParseError,
>)
    requires
        i <= hi <= toks.len(),
    ensures
        match r {
            Ok((v, j)) => sp_expr_list(toks_model(toks@), i as int, hi as int) == Ok::<
                (Seq<SpecExpr>, int),
                SpecError,
            >((exprs_model(v@), j as int)) && i <= j <= hi,
            Err(e) => sp_expr_list(toks_model(toks@), i as int, hi as int) == Err::<
                (Seq<SpecExpr>, int),
                SpecError,
            >(e@),
        },
    decreases hi - i,
{
    let ghost m = toks_model(toks@);
    if i >= hi {
        let v: Vec<Expr> = Vec::new();
        proof {
            assert(exprs_model(v@) =~= Seq::<SpecExpr>::empty());
        }
        Ok((v, hi))
    } else {
        match parse_expr(toks, i, hi) {
            Err(e) => Err(e),
            Ok((x, j)) => {
                if j >= hi {
                    let mut v: Vec<Expr> = Vec::new();
                    let ghost xm = x@;
                    v.push(x);
                    proof {
                        assert(exprs_model(v@) =~= seq![xm]);
                    }
                    Ok((v, hi))
                } else {
                    proof {
                        assert(m[j as int] == toks@[j as int]@);
                    }
                    let comma: bool = match &toks[j] {
                        Token::Punct(c, _) => *c == ',',
                        _ => false,
                    };
                    if comma {
                        match parse_expr_list(toks, j + 1, hi) {
                            Err(e) => Err(e),
                            Ok((rest, k)) => {
                                let ghost rest_model = exprs_model(rest@);
                                let ghost xm = x@;
                                let mut rest = rest;
                                rest.insert(0, x);
                                proof {
                                    assert(exprs_model(rest@) =~= seq![xm] + rest_model);
                                }
                                Ok((rest, k))
                            },
                        }
                    } else {
                        Err(ParseError { pos: j, kind: ErrorKind::UnexpectedToken })
                    }
                }
            },
        }
    }
}

// ---------------------------------------------------------------------------
// Case arguments.
// ---------------------------------------------------------------------------
/// Recognize the deprecated wrapped argument form and hand back the
/// literal's contents and the position past the call.
fn check_unwrap(toks: &Vec<Token>, i: usize, hi: usize) -> (r: Option<(String, usize)>)
    requires
        i <= hi <= toks.len(),
    ensures
        match r {
            Some((txt, nxt)) => unwrap_shape(toks_model(toks@), i as int, hi as int) == Some(
                (txt@, i + 2 as int, nxt as int),
            ) && i < nxt <= hi,
            None => unwrap_shape(toks_model(toks@), i as int, hi as int) is None,
        },
{
    let ghost m = toks_model(toks@);
    if hi - i < 2 {
        return None;
    }
    proof {
        assert(m[i as int] == toks@[i as int]@);
        assert(m[i + 1 as int] == toks@[i + 1 as int]@);
    }
    let kw_ok: bool = match &toks[i] {
        Token::Ident(s) => str_eq(s.as_str(), "Unwrap"),
        _ => false,
    };
    let open_ok: bool = match &toks[i + 1] {
        Token::Open(d) => matches!(d, Delim::Paren),
        _ => false,
    };
    if !(kw_ok && open_ok) {
        return None;
    }
    match find_close(toks, i + 2, hi) {
        None => None,
        Some(c) => {
            proof {
                assert(m[c as int] == toks@[c as int]@);
            }
            let close_ok: bool = match &toks[c] {
                Token::Close(d) => matches!(d, Delim::Paren),
                _ => false,
            };
            if !close_ok {
                return None;
            }
            let arity_ok: bool = if c - i == 3 {
                true
            } else if c - i == 4 {
                proof {
                    assert(m[i + 3 as int] == toks@[i + 3 as int]@);
                }
                match &toks[i + 3] {
                    Token::Punct(ch, _) => *ch == ',',
                    _ => false,
                }
            } else {
                false
            };
            if !arity_ok {
                return None;
            }
            proof {
                assert(m[i + 2 as int] == toks@[i + 2 as int]@);
            }
            match &toks[i + 2] {
                Token::Literal(t) => {
                    let n = t.as_str().unicode_len();
                    if n >= 2 && t.as_str().get_char(0) == '"' && t.as_str().get_char(n - 1) == '"'
                    {
                        let content = t.as_str().substring_char(1, n - 1).to_owned();
                        Some((content, c + 1))
                    } else {
                        None
                    }
                },
                _ => None,
            }
        },
    }
}

fn parse_case_arg(toks: &Vec<Token>, i: usize, hi: usize, notices: &mut Vec<usize>) -> (r: Result<
    (CaseArg, usize),
    ParseError,
>)
    requires
        i <= hi <= toks.len(),
    ensures
        match r {
            Ok((v, j)) => sp_case_arg(toks_model(toks@), i as int, hi as int) == Ok::<
                (SpecCaseArg, int),
                SpecError,
            >((v@, j as int)) && i < j <= hi,
            Err(e) => sp_case_arg(toks_model(toks@), i as int, hi as int) == Err::<
                (SpecCaseArg, int),
                SpecError,
            >(e@),
        },
        sp_case_arg_notice(toks_model(toks@), i as int, hi as int) is Some ==> final(notices)@
            == old(notices)@.push(i),
        sp_case_arg_notice(toks_model(toks@), i as int, hi as int) is None ==> final(notices)@
            == old(notices)@,
{
    match check_unwrap(toks, i, hi) {
        Some((content, nxt)) => {
            notices.push(i);
            if accepts_expr(content.as_str()) {
                Ok((CaseArg { expr: Expr { text: content, pos: i + 2 } }, nxt))
            } else {
                Err(ParseError { pos: i + 2, kind: ErrorKind::CannotParseExpression })
            }
        },
        None => match parse_expr(toks, i, hi) {
            Ok((e, j)) => Ok((CaseArg { expr: e }, j)),
            Err(e) => Err(e),
        },
    }
}

fn parse_case_args(toks: &Vec<Token>, i: usize, hi: usize, notices: &mut Vec<usize>) -> (r: Result<
    (Vec<CaseArg>, usize),
    ParseError,
>)
    requires
        i <= hi <= toks.len(),
    ensures
        match r {
            Ok((v, j)) => sp_case_args(toks_model(toks@), i as int, hi as int) == Ok::<
                (Seq<SpecCaseArg>, int),
                SpecError,
            >((case_args_model(v@), j as int)) && i <= j <= hi,
            Err(e) => sp_case_args(toks_model(toks@), i as int, hi as int) == Err::<
                (Seq<SpecCaseArg>, int),
                SpecError,
            >(e@),
        },
        notes_extend(final(notices)@, old(notices)@),
    decreases hi - i,
{
    let ghost m = toks_model(toks@);
    if i >= hi {
        let v: Vec<CaseArg> = Vec::new();
        proof {
            assert(case_args_model(v@) =~= Seq::<SpecCaseArg>::empty());
        }
        Ok((v, hi))
    } else {
        match parse_case_arg(toks, i, hi, notices) {
            Err(e) => Err(e),
            Ok((x, j)) => {
                if j >= hi {
                    let mut v: Vec<CaseArg> = Vec::new();
                    let ghost xm = x@;
                    v.push(x);
                    proof {
                        assert(case_args_model(v@) =~= seq![xm]);
                    }
                    Ok((v, hi))
                } else {
                    proof {
                        assert(m[j as int] == toks@[j as int]@);
                    }
                    let comma: bool = match &toks[j] {
                        Token::Punct(c, _) => *c == ',',
                        _ => false,
                    };
                    if comma {
                        match parse_case_args(toks, j + 1, hi, notices) {
                            Err(e) => Err(e),
                            Ok((rest, k)) => {
                                let ghost rest_model = case_args_model(rest@);
                                let ghost xm = x@;
                                let mut rest = rest;
                                rest.insert(0, x);
                                proof {
                                    assert(case_args_model(rest@) =~= seq![xm] + rest_model);
                                }
                                Ok((rest, k))
                            },
                        }
                    } else {
                        Err(ParseError { pos: j, kind: ErrorKind::UnexpectedToken })
                    }
                }
            },
        }
    }
}

// ---------------------------------------------------------------------------
// Groups and nodes.
// ---------------------------------------------------------------------------
fn parse_group(toks: &Vec<Token>, j: usize, hi: usize, want: Delim) -> (r: Result<
    usize,
    ParseError,
>)
    requires
        j <= hi <= toks.len(),
    ensures
        match r {
            Ok(c) => sp_group(toks_model(toks@), j as int, hi as int, want) == Ok::<
                int,
                SpecError,
            >(c as int) && j < c < hi,
            Err(e) => sp_group(toks_model(toks@), j as int, hi as int, want) == Err::<
                int,
                SpecError,
            >(e@),
        },
{
    let ghost m = toks_model(toks@);
    let open_ok: bool = if j < hi {
        proof {
            assert(m[j as int] == toks@[j as int]@);
        }
        match &toks[j] {
            Token::Open(d) => *d == want,
            _ => false,
        }
    } else {
        false
    };
    if !open_ok {
        return Err(ParseError { pos: j, kind: ErrorKind::ExpectedGroup(want) });
    }
    match find_close(toks, j + 1, hi) {
        None => Err(ParseError { pos: j, kind: ErrorKind::UnclosedGroup }),
        Some(c) => {
            proof {
                assert(m[c as int] == toks@[c as int]@);
            }
            let close_ok: bool = match &toks[c] {
                Token::Close(d) => *d == want,
                _ => false,
            };
            if close_ok {
                Ok(c)
            } else {
                Err(ParseError { pos: j, kind: ErrorKind::UnclosedGroup })
            }
        },
    }
}

fn parse_fixture(toks: &Vec<Token>, i: usize, hi: usize) -> (r: Result<
    (Fixture, usize),
    ParseError,
>)
    requires
        i <= hi <= toks.len(),
    ensures
        match r {
            Ok((v, j)) => sp_fixture(toks_model(toks@), i as int, hi as int) == Ok::<
                (SpecFixture, int),
                SpecError,
            >((v@, j as int)) && i < j <= hi,
            Err(e) => sp_fixture(toks_model(toks@), i as int, hi as int) == Err::<
                (SpecFixture, int),
                SpecError,
            >(e@),
        },
{
    let (name, j) = match parse_ident(toks, i, hi) {
        Ok(v) => v,
        Err(e) => {
            return Err(e);
        },
    };
    let c = match parse_group(toks, j, hi, Delim::Paren) {
        Ok(c) => c,
        Err(e) => {
            return Err(e);
        },
    };
    let (positional, _) = match parse_expr_list(toks, j + 1, c) {
        Ok(v) => v,
        Err(e) => {
            return Err(e);
        },
    };
    Ok((Fixture { name, positional }, c + 1))
}

fn parse_case(toks: &Vec<Token>, i: usize, hi: usize, notices: &mut Vec<usize>) -> (r: Result<
    (TestCase, usize),
    ParseError,
>)
    requires
        i <= hi <= toks.len(),
    ensures
        match r {
            Ok((v, j)) => sp_case(toks_model(toks@), i as int, hi as int) == Ok::<
                (SpecTestCase, int),
                SpecError,
            >((v@, j as int)) && i < j <= hi,
            Err(e) => sp_case(toks_model(toks@), i as int, hi as int) == Err::<
                (SpecTestCase, int),
                SpecError,
            >(e@),
        },
        notes_extend(final(notices)@, old(notices)@),
{
    let ghost m = toks_model(toks@);
    let (kw, j0) = match parse_ident(toks, i, hi) {
        Ok(v) => v,
        Err(e) => {
            return Err(e);
        },
    };
    if !str_eq(kw.text.as_str(), "case") {
        return Err(ParseError { pos: i, kind: ErrorKind::ExpectedTestCase });
    }
    let pathsep: bool = if j0 < hi {
        proof {
            assert(m[j0 as int] == toks@[j0 as int]@);
        }
        match &toks[j0] {
            Token::PathSep => true,
            _ => false,
        }
    } else {
        false
    };
    let (description, j) = if pathsep {
        match parse_ident(toks, j0 + 1, hi) {
            Ok((d, j1)) => (Some(d), j1),
            Err(e) => {
                return Err(e);
            },
        }
    } else {
        (None, j0)
    };
    let c = match parse_group(toks, j, hi, Delim::Paren) {
        Ok(c) => c,
        Err(e) => {
            return Err(e);
        },
    };
    let (args, _) = match parse_case_args(toks, j + 1, c, notices) {
        Ok(v) => v,
        Err(e) => {
            return Err(e);
        },
    };
    Ok((TestCase { args, description }, c + 1))
}

fn parse_value_list(toks: &Vec<Token>, i: usize, hi: usize, notices: &mut Vec<usize>) -> (r:
    Result<(ValueList, usize), ParseError>)
    requires
        i <= hi <= toks.len(),
    ensures
        match r {
            Ok((v, j)) => sp_value_list(toks_model(toks@), i as int, hi as int) == Ok::<
                (SpecValueList, int),
                SpecError,
            >((v@, j as int)) && i < j <= hi,
            Err(e) => sp_value_list(toks_model(toks@), i as int, hi as int) == Err::<
                (SpecValueList, int),
                SpecError,
            >(e@),
        },
        notes_extend(final(notices)@, old(notices)@),
{
    let ghost m = toks_model(toks@);
    let (arg, j) = match parse_ident(toks, i, hi) {
        Ok(v) => v,
        Err(e) => {
            return Err(e);
        },
    };
    let arrow: bool = if j < hi {
        proof {
            assert(m[j as int] == toks@[j as int]@);
        }
        match &toks[j] {
            Token::FatArrow => true,
            _ => false,
        }
    } else {
        false
    };
    if !arrow {
        return Err(ParseError { pos: j, kind: ErrorKind::ExpectedArrow });
    }
    let c = match parse_group(toks, j + 1, hi, Delim::Bracket) {
        Ok(c) => c,
        Err(e) => {
            return Err(e);
        },
    };
    let (values, _) = match parse_case_args(toks, j + 2, c, notices) {
        Ok(v) => v,
        Err(e) => {
            return Err(e);
        },
    };
    if values.len() == 0 {
        Err(ParseError { pos: j + 1, kind: ErrorKind::EmptyValueList })
    } else {
        Ok((ValueList { arg, values }, c + 1))
    }
}

// ---------------------------------------------------------------------------
// Modifiers.
// ---------------------------------------------------------------------------
fn parse_inner_idents(toks: &Vec<Token>, i: usize, hi: usize) -> (r: Result<
    (Vec<Ident>, usize),
    ParseError,
>)
    requires
        i <= hi <= toks.len(),
    ensures
        match r {
            Ok((v, j)) => sp_inner_idents(toks_model(toks@), i as int, hi as int) == Ok::<
                (Seq<SpecIdent>, int),
                SpecError,
            >((idents_model(v@), j as int)) && i <= j <= hi,
            Err(e) => sp_inner_idents(toks_model(toks@), i as int, hi as int) == Err::<
                (Seq<SpecIdent>, int),
                SpecError,
            >(e@),
        },
    decreases hi - i,
{
    let ghost m = toks_model(toks@);
    if i >= hi {
        let v: Vec<Ident> = Vec::new();
        proof {
            assert(idents_model(v@) =~= Seq::<SpecIdent>::empty());
        }
        Ok((v, hi))
    } else {
        proof {
            assert(m[i as int] == toks@[i as int]@);
        }
        match &toks[i] {
            Token::Literal(_) => Err(ParseError { pos: i, kind: ErrorKind::UnexpectedLiteral }),
            Token::Ident(s) => {
                let id = Ident { text: s.clone(), pos: i };
                let ghost idm = id@;
                if hi - i < 2 {
                    let mut v: Vec<Ident> = Vec::new();
                    v.push(id);
                    proof {
                        assert(idents_model(v@) =~= seq![idm]);
                    }
                    Ok((v, hi))
                } else {
                    proof {
                        assert(m[i + 1 as int] == toks@[i + 1 as int]@);
                    }
                    let comma: bool = match &toks[i + 1] {
                        Token::Punct(c, _) => *c == ',',
                        _ => false,
                    };
                    if comma {
                        match parse_inner_idents(toks, i + 2, hi) {
                            Err(e) => Err(e),
                            Ok((rest, k)) => {
                                let ghost rest_model = idents_model(rest@);
                                let mut rest = rest;
                                rest.insert(0, id);
                                proof {
                                    assert(idents_model(rest@) =~= seq![idm] + rest_model);
                                }
                                Ok((rest, k))
                            },
                        }
                    } else {
                        Err(ParseError { pos: i, kind: ErrorKind::ShouldBeIdent })
                    }
                }
            },
            _ => Err(ParseError { pos: i, kind: ErrorKind::ExpectedIdent }),
        }
    }
}

fn parse_modifier(toks: &Vec<Token>, i: usize, hi: usize) -> (r: Result<
    (RsTestAttribute, usize),
    ParseError,
>)
    requires
        i <= hi <= toks.len(),
    ensures
        match r {
            Ok((v, j)) => sp_modifier(toks_model(toks@), i as int, hi as int) == Ok::<
                (SpecAttr, int),
                SpecError,
            >((v@, j as int)) && i < j <= hi,
            Err(e) => sp_modifier(toks_model(toks@), i as int, hi as int) == Err::<
                (SpecAttr, int),
                SpecError,
            >(e@),
        },
{
    let ghost m = toks_model(toks@);
    let lt2: bool = if hi - i >= 2 {
        proof {
            assert(m[i + 1 as int] == toks@[i + 1 as int]@);
        }
        match &toks[i + 1] {
            Token::Punct(c, _) => *c == '<',
            _ => false,
        }
    } else {
        false
    };
    if lt2 {
        let (tag, j) = match parse_ident(toks, i, hi) {
            Ok(v) => v,
            Err(e) => {
                return Err(e);
            },
        };
        match find_gt(toks, j + 1, hi) {
            None => Err(ParseError { pos: j, kind: ErrorKind::UnclosedAngle }),
            Some(g) => {
                if g - j == 1 {
                    Err(ParseError { pos: j + 1, kind: ErrorKind::CannotParseType })
                } else {
                    let text = render(toks, j + 1, g);
                    if accepts_type(text.as_str()) {
                        Ok((RsTestAttribute::Type(tag, TypeExpr { text, pos: j + 1 }), g + 1))
                    } else {
                        Err(ParseError { pos: j + 1, kind: ErrorKind::CannotParseType })
                    }
                }
            },
        }
    } else if i >= hi {
        Err(ParseError { pos: i, kind: ErrorKind::ExpectedIdent })
    } else {
        proof {
            assert(m[i as int] == toks@[i as int]@);
        }
        match &toks[i] {
            Token::Literal(_) => Err(ParseError { pos: i, kind: ErrorKind::UnexpectedLiteral }),
            Token::Ident(s) => {
                let tag = Ident { text: s.clone(), pos: i };
                let paren: bool = if hi - i >= 2 {
                    proof {
                        assert(m[i + 1 as int] == toks@[i + 1 as int]@);
                    }
                    match &toks[i + 1] {
                        Token::Open(d) => matches!(d, Delim::Paren),
                        _ => false,
                    }
                } else {
                    false
                };
                if paren {
                    let c = match parse_group(toks, i + 1, hi, Delim::Paren) {
                        Ok(c) => c,
                        Err(e) => {
                            return Err(e);
                        },
                    };
                    let (ids, _) = match parse_inner_idents(toks, i + 2, c) {
                        Ok(v) => v,
                        Err(e) => {
                            return Err(e);
                        },
                    };
                    Ok((RsTestAttribute::Tagged(tag, ids), c + 1))
                } else {
                    let eq_next: bool = if hi - i >= 2 {
                        match &toks[i + 1] {
                            Token::Punct(c, _) => *c == '=',
                            _ => false,
                        }
                    } else {
                        false
                    };
                    if eq_next {
                        Err(ParseError { pos: i, kind: ErrorKind::InvalidAttribute })
                    } else {
                        Ok((RsTestAttribute::Attr(tag), i + 1))
                    }
                }
            },
            _ => Err(ParseError { pos: i, kind: ErrorKind::ExpectedIdent }),
        }
    }
}

fn parse_modifier_chain(toks: &Vec<Token>, i: usize, hi: usize) -> (r: Result<
    (Vec<RsTestAttribute>, usize),
    ParseError,
>)
    requires
        i <= hi <= toks.len(),
    ensures
        match r {
            Ok((v, j)) => sp_modifiers(toks_model(toks@), i as int, hi as int) == Ok::<
                (Seq<SpecAttr>, int),
                SpecError,
            >((attrs_model(v@), j as int)) && i <= j <= hi,
            Err(e) => sp_modifiers(toks_model(toks@), i as int, hi as int) == Err::<
                (Seq<SpecAttr>, int),
                SpecError,
            >(e@),
        },
    decreases hi - i,
{
    let ghost m = toks_model(toks@);
    if i >= hi {
        let v: Vec<RsTestAttribute> = Vec::new();
        proof {
            assert(attrs_model(v@) =~= Seq::<SpecAttr>::empty());
        }
        Ok((v, hi))
    } else {
        match parse_modifier(toks, i, hi) {
            Err(e) => Err(e),
            Ok((a, j)) => {
                if j >= hi {
                    let mut v: Vec<RsTestAttribute> = Vec::new();
                    let ghost am = a@;
                    v.push(a);
                    proof {
                        assert(attrs_model(v@) =~= seq![am]);
                    }
                    Ok((v, hi))
                } else {
                    proof {
                        assert(m[j as int] == toks@[j as int]@);
                    }
                    let sep: bool = match &toks[j] {
                        Token::PathSep => true,
                        _ => false,
                    };
                    if sep {
                        match parse_modifier_chain(toks, j + 1, hi) {
                            Err(e) => Err(e),
                            Ok((rest, k)) => {
                                let ghost rest_model = attrs_model(rest@);
                                let ghost am = a@;
                                let mut rest = rest;
                                rest.insert(0, a);
                                proof {
                                    assert(attrs_model(rest@) =~= seq![am] + rest_model);
                                }
                                Ok((rest, k))
                            },
                        }
                    } else {
                        Err(ParseError { pos: j, kind: ErrorKind::UnexpectedToken })
                    }
                }
            },
        }
    }
}

// ---------------------------------------------------------------------------
// Slot classification.
// ---------------------------------------------------------------------------
fn parse_parametrize_item(toks: &Vec<Token>, i: usize, hi: usize, notices: &mut Vec<usize>) -> (r:
    Result<(ParametrizeItem, usize), ParseError>)
    requires
        i <= hi <= toks.len(),
    ensures
        match r {
            Ok((v, j)) => sp_parametrize_item(toks_model(toks@), i as int, hi as int) == Ok::<
                (SpecParametrizeItem, int),
                SpecError,
            >((v@, j as int)) && i < j <= hi,
            Err(e) => sp_parametrize_item(toks_model(toks@), i as int, hi as int) == Err::<
                (SpecParametrizeItem, int),
                SpecError,
            >(e@),
        },
        notes_extend(final(notices)@, old(notices)@),
{
    match parse_case(toks, i, hi, notices) {
        Ok((c, j)) => Ok((ParametrizeItem::TestCase(c), j)),
        Err(_) => match parse_fixture(toks, i, hi) {
            Ok((f, j)) => Ok((ParametrizeItem::Fixture(f), j)),
            Err(_) => match parse_ident(toks, i, hi) {
                Ok((id, j)) => Ok((ParametrizeItem::CaseArgName(id), j)),
                Err(_) => Err(
                    ParseError { pos: i, kind: ErrorKind::CannotParseParametrizeItem },
                ),
            },
        },
    }
}

fn parse_matrix_item(toks: &Vec<Token>, i: usize, hi: usize, notices: &mut Vec<usize>) -> (r:
    Result<(MatrixItem, usize), ParseError>)
    requires
        i <= hi <= toks.len(),
    ensures
        match r {
            Ok((v, j)) => sp_matrix_item(toks_model(toks@), i as int, hi as int) == Ok::<
                (SpecMatrixItem, int),
                SpecError,
            >((v@, j as int)) && i < j <= hi,
            Err(e) => sp_matrix_item(toks_model(toks@), i as int, hi as int) == Err::<
                (SpecMatrixItem, int),
                SpecError,
            >(e@),
        },
        notes_extend(final(notices)@, old(notices)@),
{
    let ghost m = toks_model(toks@);
    let arrow2: bool = if hi - i >= 2 {
        proof {
            assert(m[i + 1 as int] == toks@[i + 1 as int]@);
        }
        match &toks[i + 1] {
            Token::FatArrow => true,
            _ => false,
        }
    } else {
        false
    };
    if arrow2 {
        match parse_value_list(toks, i, hi, notices) {
            Ok((v, j)) => Ok((MatrixItem::ValueList(v), j)),
            Err(e) => Err(e),
        }
    } else {
        match parse_fixture(toks, i, hi) {
            Ok((f, j)) => Ok((MatrixItem::Fixture(f), j)),
            Err(_) => Err(ParseError { pos: i, kind: ErrorKind::CannotParseMatrixItem }),
        }
    }
}

// ---------------------------------------------------------------------------
// Item lists with trailing-separator tolerance.
// ---------------------------------------------------------------------------
/// Whether the token at `i` — which must exist — is a comma.
fn comma_at(toks: &Vec<Token>, i: usize) -> (r: bool)
    requires
        i < toks.len(),
    ensures
        r == crate::grammar::is_comma(toks_model(toks@)[i as int]),
{
    proof {
        assert(toks_model(toks@)[i as int] == toks@[i as int]@);
    }
    match &toks[i] {
        Token::Punct(c, _) => *c == ',',
        _ => false,
    }
}

fn parse_parametrize_items_rest(
    toks: &Vec<Token>,
    i: usize,
    hi: usize,
    notices: &mut Vec<usize>,
) -> (r: Result<(Vec<ParametrizeItem>, usize), ParseError>)
    requires
        i <= hi <= toks.len(),
    ensures
        match r {
            Ok((v, j)) => sp_parametrize_items_rest(toks_model(toks@), i as int, hi as int) == Ok::<
                (Seq<SpecParametrizeItem>, int),
                SpecError,
            >((pitems_model(v@), j as int)) && i <= j <= hi,
            Err(e) => sp_parametrize_items_rest(toks_model(toks@), i as int, hi as int) == Err::<
                (Seq<SpecParametrizeItem>, int),
                SpecError,
            >(e@),
        },
        notes_extend(final(notices)@, old(notices)@),
    decreases hi - i,
{
    if i >= hi || !comma_at(toks, i) {
        let v: Vec<ParametrizeItem> = Vec::new();
        proof {
            assert(pitems_model(v@) =~= Seq::<SpecParametrizeItem>::empty());
        }
        Ok((v, i))
    } else if hi - i < 2 {
        let v: Vec<ParametrizeItem> = Vec::new();
        proof {
            assert(pitems_model(v@) =~= Seq::<SpecParametrizeItem>::empty());
        }
        Ok((v, i + 1))
    } else if comma_at(toks, i + 1) {
        parse_parametrize_items_rest(toks, i + 1, hi, notices)
    } else {
        match parse_parametrize_item(toks, i + 1, hi, notices) {
            Err(e) => Err(e),
            Ok((it, j)) => match parse_parametrize_items_rest(toks, j, hi, notices) {
                Err(e) => Err(e),
                Ok((rest, k)) => {
                    let ghost rest_model = pitems_model(rest@);
                    let ghost itm = it@;
                    let mut rest = rest;
                    rest.insert(0, it);
                    proof {
                        assert(pitems_model(rest@) =~= seq![itm] + rest_model);
                    }
                    Ok((rest, k))
                },
            },
        }
    }
}

fn parse_parametrize_items(toks: &Vec<Token>, i: usize, hi: usize, notices: &mut Vec<usize>) -> (r:
    Result<(Vec<ParametrizeItem>, usize), ParseError>)
    requires
        i <= hi <= toks.len(),
    ensures
        match r {
            Ok((v, j)) => sp_parametrize_items(toks_model(toks@), i as int, hi as int) == Ok::<
                (Seq<SpecParametrizeItem>, int),
                SpecError,
            >((pitems_model(v@), j as int)) && i <= j <= hi,
            Err(e) => sp_parametrize_items(toks_model(toks@), i as int, hi as int) == Err::<
                (Seq<SpecParametrizeItem>, int),
                SpecError,
            >(e@),
        },
        notes_extend(final(notices)@, old(notices)@),
{
    if i >= hi {
        let v: Vec<ParametrizeItem> = Vec::new();
        proof {
            assert(pitems_model(v@) =~= Seq::<SpecParametrizeItem>::empty());
        }
        Ok((v, i))
    } else {
        match parse_parametrize_item(toks, i, hi, notices) {
            Err(e) => Err(e),
            Ok((it, j)) => match parse_parametrize_items_rest(toks, j, hi, notices) {
                Err(e) => Err(e),
                Ok((rest, k)) => {
                    let ghost rest_model = pitems_model(rest@);
                    let ghost itm = it@;
                    let mut rest = rest;
                    rest.insert(0, it);
                    proof {
                        assert(pitems_model(rest@) =~= seq![itm] + rest_model);
                    }
                    Ok((rest, k))
                },
            },
        }
    }
}

fn parse_matrix_items_rest(toks: &Vec<Token>, i: usize, hi: usize, notices: &mut Vec<usize>) -> (r:
    Result<(Vec<MatrixItem>, usize), ParseError>)
    requires
        i <= hi <= toks.len(),
    ensures
        match r {
            Ok((v, j)) => sp_matrix_items_rest(toks_model(toks@), i as int, hi as int) == Ok::<
                (Seq<SpecMatrixItem>, int),
                SpecError,
            >((mitems_model(v@), j as int)) && i <= j <= hi,
            Err(e) => sp_matrix_items_rest(toks_model(toks@), i as int, hi as int) == Err::<
                (Seq<SpecMatrixItem>, int),
                SpecError,
            >(e@),
        },
        notes_extend(final(notices)@, old(notices)@),
    decreases hi - i,
{
    if i >= hi || !comma_at(toks, i) {
        let v: Vec<MatrixItem> = Vec::new();
        proof {
            assert(mitems_model(v@) =~= Seq::<SpecMatrixItem>::empty());
        }
        Ok((v, i))
    } else if hi - i < 2 {
        let v: Vec<MatrixItem> = Vec::new();
        proof {
            assert(mitems_model(v@) =~= Seq::<SpecMatrixItem>::empty());
        }
        Ok((v, i + 1))
    } else if comma_at(toks, i + 1) {
        parse_matrix_items_rest(toks, i + 1, hi, notices)
    } else {
        match parse_matrix_item(toks, i + 1, hi, notices) {
            Err(e) => Err(e),
            Ok((it, j)) => match parse_matrix_items_rest(toks, j, hi, notices) {
                Err(e) => Err(e),
                Ok((rest, k)) => {
                    let ghost rest_model = mitems_model(rest@);
                    let ghost itm = it@;
                    let mut rest = rest;
                    rest.insert(0, it);
                    proof {
                        assert(mitems_model(rest@) =~= seq![itm] + rest_model);
                    }
                    Ok((rest, k))
                },
            },
        }
    }
}

fn parse_matrix_items(toks: &Vec<Token>, i: usize, hi: usize, notices: &mut Vec<usize>) -> (r:
    Result<(Vec<MatrixItem>, usize), ParseError>)
    requires
        i <= hi <= toks.len(),
    ensures
        match r {
            Ok((v, j)) => sp_matrix_items(toks_model(toks@), i as int, hi as int) == Ok::<
                (Seq<SpecMatrixItem>, int),
                SpecError,
            >((mitems_model(v@), j as int)) && i <= j <= hi,
            Err(e) => sp_matrix_items(toks_model(toks@), i as int, hi as int) == Err::<
                (Seq<SpecMatrixItem>, int),
                SpecError,
            >(e@),
        },
        notes_extend(final(notices)@, old(notices)@),
{
    if i >= hi {
        let v: Vec<MatrixItem> = Vec::new();
        proof {
            assert(mitems_model(v@) =~= Seq::<SpecMatrixItem>::empty());
        }
        Ok((v, i))
    } else {
        match parse_matrix_item(toks, i, hi, notices) {
            Err(e) => Err(e),
            Ok((it, j)) => match parse_matrix_items_rest(toks, j, hi, notices) {
                Err(e) => Err(e),
                Ok((rest, k)) => {
                    let ghost rest_model = mitems_model(rest@);
                    let ghost itm = it@;
                    let mut rest = rest;
                    rest.insert(0, it);
                    proof {
                        assert(mitems_model(rest@) =~= seq![itm] + rest_model);
                    }
                    Ok((rest, k))
                },
            },
        }
    }
}

fn parse_fixture_slots_rest(toks: &Vec<Token>, i: usize, hi: usize) -> (r: Result<
    (Vec<Fixture>, usize),
    ParseError,
>)
    requires
        i <= hi <= toks.len(),
    ensures
        match r {
            Ok((v, j)) => sp_fixture_slots_rest(toks_model(toks@), i as int, hi as int) == Ok::<
                (Seq<SpecFixture>, int),
                SpecError,
            >((crate::ast::fixtures_model(v@), j as int)) && i <= j <= hi,
            Err(e) => sp_fixture_slots_rest(toks_model(toks@), i as int, hi as int) == Err::<
                (Seq<SpecFixture>, int),
                SpecError,
            >(e@),
        },
    decreases hi - i,
{
    if i >= hi || !comma_at(toks, i) {
        let v: Vec<Fixture> = Vec::new();
        proof {
            assert(crate::ast::fixtures_model(v@) =~= Seq::<SpecFixture>::empty());
        }
        Ok((v, i))
    } else if hi - i < 2 {
        let v: Vec<Fixture> = Vec::new();
        proof {
            assert(crate::ast::fixtures_model(v@) =~= Seq::<SpecFixture>::empty());
        }
        Ok((v, i + 1))
    } else if comma_at(toks, i + 1) {
        parse_fixture_slots_rest(toks, i + 1, hi)
    } else {
        match parse_fixture(toks, i + 1, hi) {
            Err(e) => Err(e),
            Ok((it, j)) => match parse_fixture_slots_rest(toks, j, hi) {
                Err(e) => Err(e),
                Ok((rest, k)) => {
                    let ghost rest_model = crate::ast::fixtures_model(rest@);
                    let ghost itm = it@;
                    let mut rest = rest;
                    rest.insert(0, it);
                    proof {
                        assert(crate::ast::fixtures_model(rest@) =~= seq![itm] + rest_model);
                    }
                    Ok((rest, k))
                },
            },
        }
    }
}

fn parse_fixture_slots(toks: &Vec<Token>, i: usize, hi: usize) -> (r: Result<
    (Vec<Fixture>, usize),
    ParseError,
>)
    requires
        i <= hi <= toks.len(),
    ensures
        match r {
            Ok((v, j)) => sp_fixture_slots(toks_model(toks@), i as int, hi as int) == Ok::<
                (Seq<SpecFixture>, int),
                SpecError,
            >((crate::ast::fixtures_model(v@), j as int)) && i <= j <= hi,
            Err(e) => sp_fixture_slots(toks_model(toks@), i as int, hi as int) == Err::<
                (Seq<SpecFixture>, int),
                SpecError,
            >(e@),
        },
{
    if i >= hi {
        let v: Vec<Fixture> = Vec::new();
        proof {
            assert(crate::ast::fixtures_model(v@) =~= Seq::<SpecFixture>::empty());
        }
        Ok((v, i))
    } else {
        match parse_fixture(toks, i, hi) {
            Err(e) => Err(e),
            Ok((it, j)) => match parse_fixture_slots_rest(toks, j, hi) {
                Err(e) => Err(e),
                Ok((rest, k)) => {
                    let ghost rest_model = crate::ast::fixtures_model(rest@);
                    let ghost itm = it@;
                    let mut rest = rest;
                    rest.insert(0, it);
                    proof {
                        assert(crate::ast::fixtures_model(rest@) =~= seq![itm] + rest_model);
                    }
                    Ok((rest, k))
                },
            },
        }
    }
}

// ---------------------------------------------------------------------------
// Wrapping fixture slots into directive items.
// ---------------------------------------------------------------------------
fn wrap_rstest(v: Vec<Fixture>) -> (r: Vec<RsTestItem>)
    ensures
        rs_items_model(r@) == wrap_rstest_items(crate::ast::fixtures_model(v@)),
    decreases v.len(),
{
    let ghost vm = crate::ast::fixtures_model(v@);
    let mut v = v;
    if v.len() == 0 {
        let r: Vec<RsTestItem> = Vec::new();
        proof {
            assert(rs_items_model(r@) =~= wrap_rstest_items(vm));
        }
        r
    } else {
        let f = v.remove(0);
        let ghost fm = f@;
        let ghost tail = crate::ast::fixtures_model(v@);
        let mut rest = wrap_rstest(v);
        let ghost rest_model = rs_items_model(rest@);
        rest.insert(0, RsTestItem::Fixture(f));
        proof {
            assert(vm =~= seq![fm] + tail);
            assert(rs_items_model(rest@) =~= seq![SpecRsTestItem::Fixture(fm)] + rest_model);
            assert(wrap_rstest_items(seq![fm] + tail) =~= seq![SpecRsTestItem::Fixture(fm)]
                + wrap_rstest_items(tail));
        }
        rest
    }
}

fn wrap_fixture(v: Vec<Fixture>) -> (r: Vec<FixtureItem>)
    ensures
        fx_items_model(r@) == wrap_fixture_items(crate::ast::fixtures_model(v@)),
    decreases v.len(),
{
    let ghost vm = crate::ast::fixtures_model(v@);
    let mut v = v;
    if v.len() == 0 {
        let r: Vec<FixtureItem> = Vec::new();
        proof {
            assert(fx_items_model(r@) =~= wrap_fixture_items(vm));
        }
        r
    } else {
        let f = v.remove(0);
        let ghost fm = f@;
        let ghost tail = crate::ast::fixtures_model(v@);
        let mut rest = wrap_fixture(v);
        let ghost rest_model = fx_items_model(rest@);
        rest.insert(0, FixtureItem::Fixture(f));
        proof {
            assert(vm =~= seq![fm] + tail);
            assert(fx_items_model(rest@) =~= seq![SpecFixtureItem::Fixture(fm)] + rest_model);
            assert(wrap_fixture_items(seq![fm] + tail) =~= seq![SpecFixtureItem::Fixture(fm)]
                + wrap_fixture_items(tail));
        }
        rest
    }
}

/// Whether the token at `i` — which must exist — is the `::` separator.
fn pathsep_at(toks: &Vec<Token>, i: usize) -> (r: bool)
    requires
        i < toks.len(),
    ensures
        r == (toks_model(toks@)[i as int] matches Tok::PathSep),
{
    proof {
        assert(toks_model(toks@)[i as int] == toks@[i as int]@);
    }
    match &toks[i] {
        Token::PathSep => true,
        _ => false,
    }
}

// ---------------------------------------------------------------------------
// Whole inputs.
// ---------------------------------------------------------------------------
impl TestCase {
    /// Parse a whole token sequence as one test case, with nothing left
    /// over. Deprecation notice positions are appended to `notices`.
    pub fn parse(toks: &Vec<Token>, notices: &mut Vec<usize>) -> (r: Result<TestCase, ParseError>)
        ensures
            match r {
                Ok(c) => sp_test_case_full(toks_model(toks@)) == Ok::<SpecTestCase, SpecError>(c@),
                Err(e) => sp_test_case_full(toks_model(toks@)) == Err::<SpecTestCase, SpecError>(
                    e@,
                ),
            },
            notes_extend(final(notices)@, old(notices)@),
    {
        let hi = toks.len();
        match parse_case(toks, 0, hi, notices) {
            Err(e) => Err(e),
            Ok((c, j)) => if j >= hi {
                Ok(c)
            } else {
                Err(ParseError { pos: j, kind: ErrorKind::UnexpectedToken })
            },
        }
    }
}

impl Fixture {
    /// Parse a whole token sequence as one fixture, with nothing left over.
    pub fn parse(toks: &Vec<Token>) -> (r: Result<Fixture, ParseError>)
        ensures
            match r {
                Ok(f) => sp_fixture_full(toks_model(toks@)) == Ok::<SpecFixture, SpecError>(f@),
                Err(e) => sp_fixture_full(toks_model(toks@)) == Err::<SpecFixture, SpecError>(e@),
            },
    {
        let hi = toks.len();
        match parse_fixture(toks, 0, hi) {
            Err(e) => Err(e),
            Ok((f, j)) => if j >= hi {
                Ok(f)
            } else {
                Err(ParseError { pos: j, kind: ErrorKind::UnexpectedToken })
            },
        }
    }
}

impl ValueList {
    /// Parse a whole token sequence as one value list, with nothing left
    /// over. Deprecation notice positions are appended to `notices`.
    pub fn parse(toks: &Vec<Token>, notices: &mut Vec<usize>) -> (r: Result<ValueList, ParseError>)
        ensures
            match r {
                Ok(v) => sp_value_list_full(toks_model(toks@)) == Ok::<SpecValueList, SpecError>(
                    v@,
                ),
                Err(e) => sp_value_list_full(toks_model(toks@)) == Err::<SpecValueList, SpecError>(
                    e@,
                ),
            },
            notes_extend(final(notices)@, old(notices)@),
    {
        let hi = toks.len();
        match parse_value_list(toks, 0, hi, notices) {
            Err(e) => Err(e),
            Ok((v, j)) => if j >= hi {
                Ok(v)
            } else {
                Err(ParseError { pos: j, kind: ErrorKind::UnexpectedToken })
            },
        }
    }
}

impl Modifiers {
    /// Parse a whole token sequence as a modifier chain.
    pub fn parse(toks: &Vec<Token>) -> (r: Result<Modifiers, ParseError>)
        ensures
            match r {
                Ok(ms) => sp_modifiers_full(toks_model(toks@)) == Ok::<SpecModifiers, SpecError>(
                    ms@,
                ),
                Err(e) => sp_modifiers_full(toks_model(toks@)) == Err::<SpecModifiers, SpecError>(
                    e@,
                ),
            },
    {
        let hi = toks.len();
        match parse_modifier_chain(toks, 0, hi) {
            Err(e) => Err(e),
            Ok((ms, _)) => Ok(Modifiers { modifiers: ms }),
        }
    }
}

impl ParametrizeData {
    /// Parse a whole token sequence as a parametrize item list, with nothing
    /// left over. Deprecation notice positions are appended to `notices`.
    pub fn parse(toks: &Vec<Token>, notices: &mut Vec<usize>) -> (r: Result<
        ParametrizeData,
        ParseError,
    >)
        ensures
            match r {
                Ok(d) => sp_parametrize_data(toks_model(toks@)) == Ok::<
                    SpecParametrizeData,
                    SpecError,
                >(d@),
                Err(e) => sp_parametrize_data(toks_model(toks@)) == Err::<
                    SpecParametrizeData,
                    SpecError,
                >(e@),
            },
            notes_extend(final(notices)@, old(notices)@),
    {
        let hi = toks.len();
        match parse_parametrize_items(toks, 0, hi, notices) {
            Err(e) => Err(e),
            Ok((its, k)) => if k >= hi {
                Ok(ParametrizeData { data: its })
            } else {
                Err(ParseError { pos: k, kind: ErrorKind::UnexpectedToken })
            },
        }
    }
}

impl ParametrizeInfo {
    /// Parse a whole token sequence as a parametrize directive: empty input
    /// is the all-default instance; input that begins with `::` holds only a
    /// modifier chain; otherwise the item list, then an optional `::` and the
    /// chain. Deprecation notice positions are appended to `notices`.
    pub fn parse(toks: &Vec<Token>, notices: &mut Vec<usize>) -> (r: Result<
        ParametrizeInfo,
        ParseError,
    >)
        ensures
            match r {
                Ok(info) => sp_parametrize_info(toks_model(toks@)) == Ok::<
                    SpecParametrizeInfo,
                    SpecError,
                >(info@),
                Err(e) => sp_parametrize_info(toks_model(toks@)) == Err::<
                    SpecParametrizeInfo,
                    SpecError,
                >(e@),
            },
            notes_extend(final(notices)@, old(notices)@),
    {
        let hi = toks.len();
        if hi == 0 {
            Ok(ParametrizeInfo::default())
        } else if pathsep_at(toks, 0) {
            match parse_modifier_chain(toks, 1, hi) {
                Err(e) => Err(e),
                Ok((ms, _)) => Ok(
                    ParametrizeInfo {
                        data: ParametrizeData::default(),
                        modifiers: Modifiers { modifiers: ms },
                    },
                ),
            }
        } else {
            match parse_parametrize_items(toks, 0, hi, notices) {
                Err(e) => Err(e),
                Ok((its, k)) => if k >= hi {
                    Ok(
                        ParametrizeInfo {
                            data: ParametrizeData { data: its },
                            modifiers: Modifiers::default(),
                        },
                    )
                } else if pathsep_at(toks, k) {
                    match parse_modifier_chain(toks, k + 1, hi) {
                        Err(e) => Err(e),
                        Ok((ms, _)) => Ok(
                            ParametrizeInfo {
                                data: ParametrizeData { data: its },
                                modifiers: Modifiers { modifiers: ms },
                            },
                        ),
                    }
                } else {
                    Err(ParseError { pos: k, kind: ErrorKind::UnexpectedToken })
                },
            }
        }
    }
}

impl MatrixInfo {
    /// Parse a whole token sequence as a matrix directive, shaped as the
    /// parametrize one. Deprecation notice positions are appended to
    /// `notices`.
    pub fn parse(toks: &Vec<Token>, notices: &mut Vec<usize>) -> (r: Result<
        MatrixInfo,
        ParseError,
    >)
        ensures
            match r {
                Ok(info) => sp_matrix_info(toks_model(toks@)) == Ok::<SpecMatrixInfo, SpecError>(
                    info@,
                ),
                Err(e) => sp_matrix_info(toks_model(toks@)) == Err::<SpecMatrixInfo, SpecError>(
                    e@,
                ),
            },
            notes_extend(final(notices)@, old(notices)@),
    {
        let hi = toks.len();
        if hi == 0 {
            Ok(MatrixInfo::default())
        } else if pathsep_at(toks, 0) {
            match parse_modifier_chain(toks, 1, hi) {
                Err(e) => Err(e),
                Ok((ms, _)) => Ok(
                    MatrixInfo {
                        args: MatrixValues::default(),
                        modifiers: Modifiers { modifiers: ms },
                    },
                ),
            }
        } else {
            match parse_matrix_items(toks, 0, hi, notices) {
                Err(e) => Err(e),
                Ok((its, k)) => if k >= hi {
                    Ok(MatrixInfo { args: MatrixValues(its), modifiers: Modifiers::default() })
                } else if pathsep_at(toks, k) {
                    match parse_modifier_chain(toks, k + 1, hi) {
                        Err(e) => Err(e),
                        Ok((ms, _)) => Ok(
                            MatrixInfo {
                                args: MatrixValues(its),
                                modifiers: Modifiers { modifiers: ms },
                            },
                        ),
                    }
                } else {
                    Err(ParseError { pos: k, kind: ErrorKind::UnexpectedToken })
                },
            }
        }
    }
}

impl RsTestData {
    /// Parse a whole token sequence as an rstest item list, with nothing
    /// left over.
    pub fn parse(toks: &Vec<Token>) -> (r: Result<RsTestData, ParseError>)
        ensures
            match r {
                Ok(d) => crate::grammar::sp_rstest_data(toks_model(toks@)) == Ok::<
                    SpecRsTestData,
                    SpecError,
                >(d@),
                Err(e) => crate::grammar::sp_rstest_data(toks_model(toks@)) == Err::<
                    SpecRsTestData,
                    SpecError,
                >(e@),
            },
    {
        let hi = toks.len();
        if hi > 0 && pathsep_at(toks, 0) {
            return Err(ParseError { pos: 0, kind: ErrorKind::UnexpectedToken });
        }
        match parse_fixture_slots(toks, 0, hi) {
            Err(e) => Err(e),
            Ok((fs, k)) => if k >= hi {
                Ok(RsTestData { items: wrap_rstest(fs) })
            } else {
                Err(ParseError { pos: k, kind: ErrorKind::UnexpectedToken })
            },
        }
    }
}

impl RsTestInfo {
    /// Parse a whole token sequence as an rstest directive, shaped as the
    /// parametrize one.
    pub fn parse(toks: &Vec<Token>) -> (r: Result<RsTestInfo, ParseError>)
        ensures
            match r {
                Ok(info) => sp_rstest_info(toks_model(toks@)) == Ok::<SpecRsTestInfo, SpecError>(
                    info@,
                ),
                Err(e) => sp_rstest_info(toks_model(toks@)) == Err::<SpecRsTestInfo, SpecError>(
                    e@,
                ),
            },
    {
        let hi = toks.len();
        if hi == 0 {
            Ok(RsTestInfo::default())
        } else if pathsep_at(toks, 0) {
            match parse_modifier_chain(toks, 1, hi) {
                Err(e) => Err(e),
                Ok((ms, _)) => Ok(
                    RsTestInfo {
                        data: RsTestData::default(),
                        modifiers: RsTestModifiers { modifiers: Modifiers { modifiers: ms } },
                    },
                ),
            }
        } else {
            match parse_fixture_slots(toks, 0, hi) {
                Err(e) => Err(e),
                Ok((fs, k)) => if k >= hi {
                    Ok(
                        RsTestInfo {
                            data: RsTestData { items: wrap_rstest(fs) },
                            modifiers: RsTestModifiers::default(),
                        },
                    )
                } else if pathsep_at(toks, k) {
                    match parse_modifier_chain(toks, k + 1, hi) {
                        Err(e) => Err(e),
                        Ok((ms, _)) => Ok(
                            RsTestInfo {
                                data: RsTestData { items: wrap_rstest(fs) },
                                modifiers: RsTestModifiers {
                                    modifiers: Modifiers { modifiers: ms },
                                },
                            },
                        ),
                    }
                } else {
                    Err(ParseError { pos: k, kind: ErrorKind::UnexpectedToken })
                },
            }
        }
    }
}

impl FixtureData {
    /// Parse a whole token sequence as a fixture-directive item list, with
    /// nothing left over.
    pub fn parse(toks: &Vec<Token>) -> (r: Result<FixtureData, ParseError>)
        ensures
            match r {
                Ok(d) => crate::grammar::sp_fixture_data(toks_model(toks@)) == Ok::<
                    SpecFixtureData,
                    SpecError,
                >(d@),
                Err(e) => crate::grammar::sp_fixture_data(toks_model(toks@)) == Err::<
                    SpecFixtureData,
                    SpecError,
                >(e@),
            },
    {
        let hi = toks.len();
        if hi > 0 && pathsep_at(toks, 0) {
            return Err(ParseError { pos: 0, kind: ErrorKind::UnexpectedToken });
        }
        match parse_fixture_slots(toks, 0, hi) {
            Err(e) => Err(e),
            Ok((fs, k)) => if k >= hi {
                Ok(FixtureData { items: wrap_fixture(fs) })
            } else {
                Err(ParseError { pos: k, kind: ErrorKind::UnexpectedToken })
            },
        }
    }
}

impl FixtureInfo {
    /// Parse a whole token sequence as a fixture directive, shaped as the
    /// parametrize one.
    pub fn parse(toks: &Vec<Token>) -> (r: Result<FixtureInfo, ParseError>)
        ensures
            match r {
                Ok(info) => sp_fixture_info(toks_model(toks@)) == Ok::<SpecFixtureInfo, SpecError>(
                    info@,
                ),
                Err(e) => sp_fixture_info(toks_model(toks@)) == Err::<SpecFixtureInfo, SpecError>(
                    e@,
                ),
            },
    {
        let hi = toks.len();
        if hi == 0 {
            Ok(FixtureInfo::default())
        } else if pathsep_at(toks, 0) {
            match parse_modifier_chain(toks, 1, hi) {
                Err(e) => Err(e),
                Ok((ms, _)) => Ok(
                    FixtureInfo {
                        data: FixtureData::default(),
                        modifiers: FixtureModifiers { modifiers: Modifiers { modifiers: ms } },
                    },
                ),
            }
        } else {
            match parse_fixture_slots(toks, 0, hi) {
                Err(e) => Err(e),
                Ok((fs, k)) => if k >= hi {
                    Ok(
                        FixtureInfo {
                            data: FixtureData { items: wrap_fixture(fs) },
                            modifiers: FixtureModifiers::default(),
                        },
                    )
                } else if pathsep_at(toks, k) {
                    match parse_modifier_chain(toks, k + 1, hi) {
                        Err(e) => Err(e),
                        Ok((ms, _)) => Ok(
                            FixtureInfo {
                                data: FixtureData { items: wrap_fixture(fs) },
                                modifiers: FixtureModifiers {
                                    modifiers: Modifiers { modifiers: ms },
                                },
                            },
                        ),
                    }
                } else {
                    Err(ParseError { pos: k, kind: ErrorKind::UnexpectedToken })
                },
            }
        }
    }
}

} // verus!
