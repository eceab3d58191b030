//! The annotation language itself, as specification functions.
//!
//! Each function here consumes the token sequence `s` from position `i`
//! within the region `[i, hi)` and yields either a node's mathematical value
//! together with the position just past it, or a positioned error. The
//! executable parsers are proved to return exactly these values, so these
//! functions — not the executable code — are the definition of the language,
//! including the fixed priority order in which ambiguous slots are
//! classified.

use vstd::prelude::*;
use crate::ast::{
    SpecIdent, SpecExpr, SpecTypeExpr, SpecCaseArg, SpecTestCase, SpecFixture, SpecValueList,
    SpecAttr, SpecModifiers, SpecParametrizeItem, SpecParametrizeData, SpecParametrizeInfo,
    SpecMatrixItem, SpecMatrixValues, SpecMatrixInfo, SpecRsTestItem, SpecRsTestData,
    SpecRsTestModifiers, SpecRsTestInfo, SpecFixtureItem, SpecFixtureData, SpecFixtureModifiers,
    SpecFixtureInfo, spec_modifiers_default, spec_parametrize_data_default,
    spec_parametrize_info_default, spec_matrix_values_default, spec_matrix_info_default,
    spec_rstest_data_default, spec_rstest_info_default, spec_fixture_data_default,
    spec_fixture_info_default,
};
use crate::error::{ErrorKind, SpecError, err_at};
use crate::host::{is_rust_expr, is_rust_type};
use crate::token::{Delim, Tok, render_at};

verus! {

/// The result of one specification-level parse step: a value and the
/// position just past it, or a positioned error.
pub type PRes<T> = Result<(T, int), SpecError>;

// ---------------------------------------------------------------------------
// Token classification.
// ---------------------------------------------------------------------------
/// Whether a token is the comma separator.
pub open spec fn is_comma(t: Tok) -> bool {
    t matches Tok::Punct { ch: ',', joint: _ }
}

/// Whether a token is an opening angle bracket.
pub open spec fn is_lt(t: Tok) -> bool {
    t matches Tok::Punct { ch: '<', joint: _ }
}

/// Whether a token is a closing angle bracket.
pub open spec fn is_gt(t: Tok) -> bool {
    t matches Tok::Punct { ch: '>', joint: _ }
}

/// Whether a token is the equals sign of a `name = value` shape.
pub open spec fn is_eq_sign(t: Tok) -> bool {
    t matches Tok::Punct { ch: '=', joint: _ }
}

// ---------------------------------------------------------------------------
// Scans.
// ---------------------------------------------------------------------------
/// The first closing delimiter at group depth zero in `[i, hi)`, if any.
pub open spec fn scan_close(s: Seq<Tok>, i: int, hi: int, depth: int) -> Option<int>
    decreases hi - i,
{
    if i < 0 || i >= hi {
        None
    } else {
        match s[i] {
            Tok::Close { d: _ } => if depth == 0 {
                Some(i)
            } else {
                scan_close(s, i + 1, hi, depth - 1)
            },
            Tok::Open { d: _ } => scan_close(s, i + 1, hi, depth + 1),
            _ => scan_close(s, i + 1, hi, depth),
        }
    }
}

/// The first comma at group depth zero in `[i, hi)`, or `hi` when there is
/// none.
pub open spec fn scan_comma(s: Seq<Tok>, i: int, hi: int, depth: int) -> int
    decreases hi - i,
{
    if i < 0 || i >= hi {
        hi
    } else {
        match s[i] {
            Tok::Punct { ch: ',', joint: _ } => if depth == 0 {
                i
            } else {
                scan_comma(s, i + 1, hi, depth)
            },
            Tok::Open { d: _ } => scan_comma(s, i + 1, hi, depth + 1),
            Tok::Close { d: _ } => scan_comma(s, i + 1, hi, depth - 1),
            _ => scan_comma(s, i + 1, hi, depth),
        }
    }
}

/// The closing `>` that matches an already-consumed `<`: the first `>` at
/// angle depth zero, looking only at group depth zero, in `[i, hi)`.
pub open spec fn scan_gt(s: Seq<Tok>, i: int, hi: int, gdepth: int, adepth: int) -> Option<int>
    decreases hi - i,
{
    if i < 0 || i >= hi {
        None
    } else {
        match s[i] {
            Tok::Open { d: _ } => scan_gt(s, i + 1, hi, gdepth + 1, adepth),
            Tok::Close { d: _ } => scan_gt(s, i + 1, hi, gdepth - 1, adepth),
            Tok::Punct { ch: '<', joint: _ } => if gdepth == 0 {
                scan_gt(s, i + 1, hi, gdepth, adepth + 1)
            } else {
                scan_gt(s, i + 1, hi, gdepth, adepth)
            },
            Tok::Punct { ch: '>', joint: _ } => if gdepth == 0 {
                if adepth == 0 {
                    Some(i)
                } else {
                    scan_gt(s, i + 1, hi, gdepth, adepth - 1)
                }
            } else {
                scan_gt(s, i + 1, hi, gdepth, adepth)
            },
            _ => scan_gt(s, i + 1, hi, gdepth, adepth),
        }
    }
}

// ---------------------------------------------------------------------------
// The primitive grammar: identifiers and captured expressions.
// ---------------------------------------------------------------------------
/// Parse one identifier.
pub open spec fn sp_ident(s: Seq<Tok>, i: int, hi: int) -> PRes<SpecIdent> {
    if 0 <= i < hi {
        match s[i] {
            Tok::Ident { text } => Ok((SpecIdent { text, pos: i }, i + 1)),
            _ => Err(err_at(i, ErrorKind::ExpectedIdent)),
        }
    } else {
        Err(err_at(i, ErrorKind::ExpectedIdent))
    }
}

/// Capture one expression: the token run up to the next comma at group depth
/// zero or the region's end, which must be non-empty and form one complete
/// host-language expression.
pub open spec fn sp_expr(s: Seq<Tok>, i: int, hi: int) -> PRes<SpecExpr> {
    let end = scan_comma(s, i, hi, 0);
    if 0 <= i < end && end <= hi {
        let text = render_at(s, i, end);
        if is_rust_expr(text) {
            Ok((SpecExpr { text, pos: i }, end))
        } else {
            Err(err_at(i, ErrorKind::CannotParseExpression))
        }
    } else {
        Err(err_at(i, ErrorKind::CannotParseExpression))
    }
}

/// A comma-separated, possibly empty expression list filling the whole
/// region `[i, hi)`; a single trailing comma is accepted.
pub open spec fn sp_expr_list(s: Seq<Tok>, i: int, hi: int) -> PRes<Seq<SpecExpr>>
    decreases hi - i,
{
    if i >= hi {
        Ok((Seq::empty(), hi))
    } else {
        match sp_expr(s, i, hi) {
            Err(e) => Err(e),
            Ok((x, j)) => if j >= hi {
                Ok((seq![x], hi))
            } else if is_comma(s[j]) {
                match sp_expr_list(s, j + 1, hi) {
                    Err(e) => Err(e),
                    Ok((rest, k)) => Ok((seq![x] + rest, k)),
                }
            } else {
                Err(err_at(j, ErrorKind::UnexpectedToken))
            },
        }
    }
}

// ---------------------------------------------------------------------------
// Case arguments, with the deprecated wrapped form.
// ---------------------------------------------------------------------------
/// Whether a literal's text is a plain double-quoted string literal.
pub open spec fn is_plain_str(t: Seq<char>) -> bool {
    t.len() >= 2 && t[0] == '"' && t[t.len() - 1] == '"'
}

/// The contents of a plain double-quoted string literal.
pub open spec fn strip_quotes(t: Seq<char>) -> Seq<char> {
    t.subrange(1, t.len() - 1)
}

/// The deprecated wrapped argument form: a call of the fixed keyword
/// `Unwrap` whose sole argument is a plain string literal. Yields the
/// literal's contents, the literal's position and the position past the
/// call.
pub open spec fn unwrap_shape(s: Seq<Tok>, i: int, hi: int) -> Option<(Seq<char>, int, int)> {
    if 0 <= i && i + 1 < hi && (s[i] matches Tok::Ident { text } && text == "Unwrap"@) && s[i
        + 1] == (Tok::Open { d: Delim::Paren }) {
        match scan_close(s, i + 2, hi, 0) {
            Some(c) => if i + 2 <= c < hi && s[c] == (Tok::Close { d: Delim::Paren }) && (c == i + 3
                || (c == i + 4 && is_comma(s[i + 3]))) {
                match s[i + 2] {
                    Tok::Literal { text: t } => if is_plain_str(t) {
                        Some((strip_quotes(t), i + 2, c + 1))
                    } else {
                        None
                    },
                    _ => None,
                }
            } else {
                None
            },
            None => None,
        }
    } else {
        None
    }
}

/// Parse one case argument: the wrapped form when its shape matches, the
/// directly captured expression otherwise. The wrapped form's contents must
/// themselves form one complete expression.
pub open spec fn sp_case_arg(s: Seq<Tok>, i: int, hi: int) -> PRes<SpecCaseArg> {
    match unwrap_shape(s, i, hi) {
        Some((content, lit_pos, nxt)) => if is_rust_expr(content) {
            Ok((SpecCaseArg { expr: SpecExpr { text: content, pos: lit_pos } }, nxt))
        } else {
            Err(err_at(lit_pos, ErrorKind::CannotParseExpression))
        },
        None => match sp_expr(s, i, hi) {
            Ok((e, j)) => Ok((SpecCaseArg { expr: e }, j)),
            Err(e) => Err(e),
        },
    }
}

/// The position of the deprecation notice that parsing one case argument
/// surfaces, if any: the start of a wrapped-form argument.
pub open spec fn sp_case_arg_notice(s: Seq<Tok>, i: int, hi: int) -> Option<int> {
    if unwrap_shape(s, i, hi) is Some {
        Some(i)
    } else {
        None
    }
}

/// A comma-separated, possibly empty case-argument list filling the whole
/// region `[i, hi)`; a single trailing comma is accepted.
pub open spec fn sp_case_args(s: Seq<Tok>, i: int, hi: int) -> PRes<Seq<SpecCaseArg>>
    decreases hi - i,
{
    if i >= hi {
        Ok((Seq::empty(), hi))
    } else {
        match sp_case_arg(s, i, hi) {
            Err(e) => Err(e),
            Ok((x, j)) => if j >= hi {
                Ok((seq![x], hi))
            } else if is_comma(s[j]) {
                match sp_case_args(s, j + 1, hi) {
                    Err(e) => Err(e),
                    Ok((rest, k)) => Ok((seq![x] + rest, k)),
                }
            } else {
                Err(err_at(j, ErrorKind::UnexpectedToken))
            },
        }
    }
}

// ---------------------------------------------------------------------------
// Groups.
// ---------------------------------------------------------------------------
/// Require an opening delimiter of kind `d` at `j` and find its matching
/// closing delimiter; yields the closing delimiter's position.
pub open spec fn sp_group(s: Seq<Tok>, j: int, hi: int, d: Delim) -> Result<int, SpecError> {
    if !(0 <= j < hi && s[j] == (Tok::Open { d })) {
        Err(err_at(j, ErrorKind::ExpectedGroup(d)))
    } else {
        match scan_close(s, j + 1, hi, 0) {
            Some(c) => if j + 1 <= c < hi && s[c] == (Tok::Close { d }) {
                Ok(c)
            } else {
                Err(err_at(j, ErrorKind::UnclosedGroup))
            },
            None => Err(err_at(j, ErrorKind::UnclosedGroup)),
        }
    }
}

// ---------------------------------------------------------------------------
// Nodes: fixtures, test cases, value lists.
// ---------------------------------------------------------------------------
/// Parse one fixture: an identifier and a required parenthesized expression
/// list.
pub open spec fn sp_fixture(s: Seq<Tok>, i: int, hi: int) -> PRes<SpecFixture> {
    match sp_ident(s, i, hi) {
        Err(e) => Err(e),
        Ok((name, j)) => match sp_group(s, j, hi, Delim::Paren) {
            Err(e) => Err(e),
            Ok(c) => match sp_expr_list(s, j + 1, c) {
                Err(e) => Err(e),
                Ok((es, _)) => Ok((SpecFixture { name, positional: es }, c + 1)),
            },
        },
    }
}

/// The tail of a test case after its keyword and optional description: the
/// required parenthesized case-argument list.
pub open spec fn sp_case_tail(s: Seq<Tok>, j: int, hi: int, description: Option<SpecIdent>) -> PRes<
    SpecTestCase,
> {
    match sp_group(s, j, hi, Delim::Paren) {
        Err(e) => Err(e),
        Ok(c) => match sp_case_args(s, j + 1, c) {
            Err(e) => Err(e),
            Ok((args, _)) => Ok((SpecTestCase { args, description }, c + 1)),
        },
    }
}

/// Parse one test case: the keyword `case`, an optional `:: description`,
/// and a parenthesized case-argument list. Any identifier other than `case`
/// is a keyword mismatch at that identifier's position.
pub open spec fn sp_case(s: Seq<Tok>, i: int, hi: int) -> PRes<SpecTestCase> {
    match sp_ident(s, i, hi) {
        Err(e) => Err(e),
        Ok((kw, j0)) => if kw.text != "case"@ {
            Err(err_at(i, ErrorKind::ExpectedTestCase))
        } else if j0 < hi && (s[j0] matches Tok::PathSep) {
            match sp_ident(s, j0 + 1, hi) {
                Err(e) => Err(e),
                Ok((d, j1)) => sp_case_tail(s, j1, hi, Some(d)),
            }
        } else {
            sp_case_tail(s, j0, hi, None)
        },
    }
}

/// Parse one value list: an identifier, the arrow `=>`, and a required
/// bracketed case-argument list, which must not be empty.
pub open spec fn sp_value_list(s: Seq<Tok>, i: int, hi: int) -> PRes<SpecValueList> {
    match sp_ident(s, i, hi) {
        Err(e) => Err(e),
        Ok((arg, j)) => if !(j < hi && s[j] matches Tok::FatArrow) {
            Err(err_at(j, ErrorKind::ExpectedArrow))
        } else {
            match sp_group(s, j + 1, hi, Delim::Bracket) {
                Err(e) => Err(e),
                Ok(c) => match sp_case_args(s, j + 2, c) {
                    Err(e) => Err(e),
                    Ok((values, _)) => if values.len() == 0 {
                        Err(err_at(j + 1, ErrorKind::EmptyValueList))
                    } else {
                        Ok((SpecValueList { arg, values }, c + 1))
                    },
                },
            }
        },
    }
}

// ---------------------------------------------------------------------------
// Modifiers.
// ---------------------------------------------------------------------------
/// The inner identifiers of a tagged modifier group: every comma-separated
/// item must be a bare identifier; a single trailing comma is accepted.
pub open spec fn sp_inner_idents(s: Seq<Tok>, i: int, hi: int) -> PRes<Seq<SpecIdent>>
    decreases hi - i,
{
    if i >= hi {
        Ok((Seq::empty(), hi))
    } else {
        match s[i] {
            Tok::Literal { text: _ } => Err(err_at(i, ErrorKind::UnexpectedLiteral)),
            Tok::Ident { text } => {
                let id = SpecIdent { text, pos: i };
                if i + 1 >= hi {
                    Ok((seq![id], hi))
                } else if is_comma(s[i + 1]) {
                    match sp_inner_idents(s, i + 2, hi) {
                        Err(e) => Err(e),
                        Ok((rest, k)) => Ok((seq![id] + rest, k)),
                    }
                } else {
                    Err(err_at(i, ErrorKind::ShouldBeIdent))
                }
            },
            _ => Err(err_at(i, ErrorKind::ExpectedIdent)),
        }
    }
}

/// Parse one modifier entry. When the token two positions ahead is an
/// opening angle bracket the entry is a type binding; otherwise a bare
/// identifier is a flag, an identifier with a parenthesized group is a
/// tagged group, an identifier with an equals sign is rejected, and a
/// literal is rejected.
pub open spec fn sp_modifier(s: Seq<Tok>, i: int, hi: int) -> PRes<SpecAttr> {
    if 0 <= i && i + 1 < hi && is_lt(s[i + 1]) {
        match sp_ident(s, i, hi) {
            Err(e) => Err(e),
            Ok((tag, j)) => match scan_gt(s, j + 1, hi, 0, 0) {
                None => Err(err_at(j, ErrorKind::UnclosedAngle)),
                Some(g) => if j + 1 <= g < hi {
                    if g == j + 1 {
                        Err(err_at(j + 1, ErrorKind::CannotParseType))
                    } else {
                        let text = render_at(s, j + 1, g);
                        if is_rust_type(text) {
                            Ok((SpecAttr::Type(tag, SpecTypeExpr { text, pos: j + 1 }), g + 1))
                        } else {
                            Err(err_at(j + 1, ErrorKind::CannotParseType))
                        }
                    }
                } else {
                    Err(err_at(j, ErrorKind::UnclosedAngle))
                },
            },
        }
    } else if !(0 <= i < hi) {
        Err(err_at(i, ErrorKind::ExpectedIdent))
    } else {
        match s[i] {
            Tok::Literal { text: _ } => Err(err_at(i, ErrorKind::UnexpectedLiteral)),
            Tok::Ident { text } => {
                let tag = SpecIdent { text, pos: i };
                if i + 1 < hi && s[i + 1] == (Tok::Open { d: Delim::Paren }) {
                    match sp_group(s, i + 1, hi, Delim::Paren) {
                        Err(e) => Err(e),
                        Ok(c) => match sp_inner_idents(s, i + 2, c) {
                            Err(e) => Err(e),
                            Ok((ids, _)) => Ok((SpecAttr::Tagged(tag, ids), c + 1)),
                        },
                    }
                } else if i + 1 < hi && is_eq_sign(s[i + 1]) {
                    Err(err_at(i, ErrorKind::InvalidAttribute))
                } else {
                    Ok((SpecAttr::Attr(tag), i + 1))
                }
            },
            _ => Err(err_at(i, ErrorKind::ExpectedIdent)),
        }
    }
}

/// A modifier chain: entries separated by `::`, consuming the whole region;
/// a single trailing `::` is accepted, and an empty region yields the empty
/// chain.
pub open spec fn sp_modifiers(s: Seq<Tok>, i: int, hi: int) -> PRes<Seq<SpecAttr>>
    decreases hi - i,
{
    if i >= hi {
        Ok((Seq::empty(), hi))
    } else {
        match sp_modifier(s, i, hi) {
            Err(e) => Err(e),
            Ok((a, j)) => if j >= hi {
                Ok((seq![a], hi))
            } else if (s[j] matches Tok::PathSep) {
                match sp_modifiers(s, j + 1, hi) {
                    Err(e) => Err(e),
                    Ok((rest, k)) => Ok((seq![a] + rest, k)),
                }
            } else {
                Err(err_at(j, ErrorKind::UnexpectedToken))
            },
        }
    }
}

// ---------------------------------------------------------------------------
// Slot classification.
// ---------------------------------------------------------------------------
/// Classify one parametrize slot, trying each alternative on a speculative
/// trial in this fixed order: test case, then fixture, then bare argument
/// name. When none matches structurally, the error is the generic one at the
/// slot's position.
pub open spec fn sp_parametrize_item(s: Seq<Tok>, i: int, hi: int) -> PRes<SpecParametrizeItem> {
    match sp_case(s, i, hi) {
        Ok((c, j)) => Ok((SpecParametrizeItem::TestCase(c), j)),
        Err(_) => match sp_fixture(s, i, hi) {
            Ok((f, j)) => Ok((SpecParametrizeItem::Fixture(f), j)),
            Err(_) => match sp_ident(s, i, hi) {
                Ok((id, j)) => Ok((SpecParametrizeItem::CaseArgName(id), j)),
                Err(_) => Err(err_at(i, ErrorKind::CannotParseParametrizeItem)),
            },
        },
    }
}

/// Classify one matrix slot: a slot whose second token is the arrow `=>` is
/// a value list — and a value list's own errors surface unchanged — and
/// otherwise a fixture is tried; when neither matches, the error is the
/// generic one at the slot's position.
pub open spec fn sp_matrix_item(s: Seq<Tok>, i: int, hi: int) -> PRes<SpecMatrixItem> {
    if 0 <= i && i + 1 < hi && (s[i + 1] matches Tok::FatArrow) {
        match sp_value_list(s, i, hi) {
            Ok((v, j)) => Ok((SpecMatrixItem::ValueList(v), j)),
            Err(e) => Err(e),
        }
    } else {
        match sp_fixture(s, i, hi) {
            Ok((f, j)) => Ok((SpecMatrixItem::Fixture(f), j)),
            Err(_) => Err(err_at(i, ErrorKind::CannotParseMatrixItem)),
        }
    }
}

/// Classify one rstest slot: today always a fixture.
pub open spec fn sp_rstest_item(s: Seq<Tok>, i: int, hi: int) -> PRes<SpecRsTestItem> {
    match sp_fixture(s, i, hi) {
        Ok((f, j)) => Ok((SpecRsTestItem::Fixture(f), j)),
        Err(e) => Err(e),
    }
}

/// Classify one fixture-directive slot: today always a fixture.
pub open spec fn sp_fixture_item(s: Seq<Tok>, i: int, hi: int) -> PRes<SpecFixtureItem> {
    match sp_fixture(s, i, hi) {
        Ok((f, j)) => Ok((SpecFixtureItem::Fixture(f), j)),
        Err(e) => Err(e),
    }
}

// ---------------------------------------------------------------------------
// Item lists with trailing-separator tolerance.
// ---------------------------------------------------------------------------
/// After one parametrize item: zero or more comma-led slots. An empty slot —
/// a doubled separator, or a trailing separator at the end of the input — is
/// dropped; the list stops before the first token that is not a comma.
pub open spec fn sp_parametrize_items_rest(s: Seq<Tok>, i: int, hi: int) -> PRes<
    Seq<SpecParametrizeItem>,
>
    decreases hi - i,
{
    if i >= hi || !is_comma(s[i]) {
        Ok((Seq::empty(), i))
    } else if i + 1 >= hi {
        Ok((Seq::empty(), i + 1))
    } else if is_comma(s[i + 1]) {
        sp_parametrize_items_rest(s, i + 1, hi)
    } else {
        match sp_parametrize_item(s, i + 1, hi) {
            Err(e) => Err(e),
            Ok((it, j)) => match sp_parametrize_items_rest(s, j, hi) {
                Err(e) => Err(e),
                Ok((rest, k)) => Ok((seq![it] + rest, k)),
            },
        }
    }
}

/// A parametrize item list: empty, or one item followed by comma-led slots.
pub open spec fn sp_parametrize_items(s: Seq<Tok>, i: int, hi: int) -> PRes<
    Seq<SpecParametrizeItem>,
> {
    if i >= hi {
        Ok((Seq::empty(), i))
    } else {
        match sp_parametrize_item(s, i, hi) {
            Err(e) => Err(e),
            Ok((it, j)) => match sp_parametrize_items_rest(s, j, hi) {
                Err(e) => Err(e),
                Ok((rest, k)) => Ok((seq![it] + rest, k)),
            },
        }
    }
}

/// After one matrix item: zero or more comma-led slots, as for parametrize.
pub open spec fn sp_matrix_items_rest(s: Seq<Tok>, i: int, hi: int) -> PRes<Seq<SpecMatrixItem>>
    decreases hi - i,
{
    if i >= hi || !is_comma(s[i]) {
        Ok((Seq::empty(), i))
    } else if i + 1 >= hi {
        Ok((Seq::empty(), i + 1))
    } else if is_comma(s[i + 1]) {
        sp_matrix_items_rest(s, i + 1, hi)
    } else {
        match sp_matrix_item(s, i + 1, hi) {
            Err(e) => Err(e),
            Ok((it, j)) => match sp_matrix_items_rest(s, j, hi) {
                Err(e) => Err(e),
                Ok((rest, k)) => Ok((seq![it] + rest, k)),
            },
        }
    }
}

/// A matrix item list: empty, or one item followed by comma-led slots.
pub open spec fn sp_matrix_items(s: Seq<Tok>, i: int, hi: int) -> PRes<Seq<SpecMatrixItem>> {
    if i >= hi {
        Ok((Seq::empty(), i))
    } else {
        match sp_matrix_item(s, i, hi) {
            Err(e) => Err(e),
            Ok((it, j)) => match sp_matrix_items_rest(s, j, hi) {
                Err(e) => Err(e),
                Ok((rest, k)) => Ok((seq![it] + rest, k)),
            },
        }
    }
}

/// After one fixture slot: zero or more comma-led slots, as for parametrize.
pub open spec fn sp_fixture_slots_rest(s: Seq<Tok>, i: int, hi: int) -> PRes<Seq<SpecFixture>>
    decreases hi - i,
{
    if i >= hi || !is_comma(s[i]) {
        Ok((Seq::empty(), i))
    } else if i + 1 >= hi {
        Ok((Seq::empty(), i + 1))
    } else if is_comma(s[i + 1]) {
        sp_fixture_slots_rest(s, i + 1, hi)
    } else {
        match sp_fixture(s, i + 1, hi) {
            Err(e) => Err(e),
            Ok((it, j)) => match sp_fixture_slots_rest(s, j, hi) {
                Err(e) => Err(e),
                Ok((rest, k)) => Ok((seq![it] + rest, k)),
            },
        }
    }
}

/// A fixture slot list — the item list shared by the rstest and fixture
/// directives: empty, or one fixture followed by comma-led slots.
pub open spec fn sp_fixture_slots(s: Seq<Tok>, i: int, hi: int) -> PRes<Seq<SpecFixture>> {
    if i >= hi {
        Ok((Seq::empty(), i))
    } else {
        match sp_fixture(s, i, hi) {
            Err(e) => Err(e),
            Ok((it, j)) => match sp_fixture_slots_rest(s, j, hi) {
                Err(e) => Err(e),
                Ok((rest, k)) => Ok((seq![it] + rest, k)),
            },
        }
    }
}

// ---------------------------------------------------------------------------
// Whole inputs.
// ---------------------------------------------------------------------------
/// Parse a whole input as a test case: the node, with nothing left over.
pub open spec fn sp_test_case_full(s: Seq<Tok>) -> Result<SpecTestCase, SpecError> {
    match sp_case(s, 0, s.len() as int) {
        Err(e) => Err(e),
        Ok((c, j)) => if j >= s.len() {
            Ok(c)
        } else {
            Err(err_at(j, ErrorKind::UnexpectedToken))
        },
    }
}

/// Parse a whole input as a fixture: the node, with nothing left over.
pub open spec fn sp_fixture_full(s: Seq<Tok>) -> Result<SpecFixture, SpecError> {
    match sp_fixture(s, 0, s.len() as int) {
        Err(e) => Err(e),
        Ok((f, j)) => if j >= s.len() {
            Ok(f)
        } else {
            Err(err_at(j, ErrorKind::UnexpectedToken))
        },
    }
}

/// Parse a whole input as a value list: the node, with nothing left over.
pub open spec fn sp_value_list_full(s: Seq<Tok>) -> Result<SpecValueList, SpecError> {
    match sp_value_list(s, 0, s.len() as int) {
        Err(e) => Err(e),
        Ok((v, j)) => if j >= s.len() {
            Ok(v)
        } else {
            Err(err_at(j, ErrorKind::UnexpectedToken))
        },
    }
}

/// Parse a whole input as a modifier chain.
pub open spec fn sp_modifiers_full(s: Seq<Tok>) -> Result<SpecModifiers, SpecError> {
    match sp_modifiers(s, 0, s.len() as int) {
        Err(e) => Err(e),
        Ok((ms, _)) => Ok(SpecModifiers { modifiers: ms }),
    }
}

/// Parse a whole input as a parametrize item list, with nothing left over.
pub open spec fn sp_parametrize_data(s: Seq<Tok>) -> Result<SpecParametrizeData, SpecError> {
    match sp_parametrize_items(s, 0, s.len() as int) {
        Err(e) => Err(e),
        Ok((its, k)) => if k >= s.len() {
            Ok(SpecParametrizeData { data: its })
        } else {
            Err(err_at(k, ErrorKind::UnexpectedToken))
        },
    }
}

/// Parse a whole input as a matrix item list, with nothing left over.
pub open spec fn sp_matrix_data(s: Seq<Tok>) -> Result<SpecMatrixValues, SpecError> {
    match sp_matrix_items(s, 0, s.len() as int) {
        Err(e) => Err(e),
        Ok((its, k)) => if k >= s.len() {
            Ok(SpecMatrixValues { items: its })
        } else {
            Err(err_at(k, ErrorKind::UnexpectedToken))
        },
    }
}

/// Parse a whole input as a parametrize directive: empty input is the
/// all-default instance; input that begins with `::` holds only a modifier
/// chain; otherwise the item list, then an optional `::` and the chain,
/// which must consume the rest.
pub open spec fn sp_parametrize_info(s: Seq<Tok>) -> Result<SpecParametrizeInfo, SpecError> {
    let hi = s.len() as int;
    if hi == 0 {
        Ok(spec_parametrize_info_default())
    } else if (s[0] matches Tok::PathSep) {
        match sp_modifiers(s, 1, hi) {
            Err(e) => Err(e),
            Ok((ms, _)) => Ok(
                SpecParametrizeInfo {
                    data: spec_parametrize_data_default(),
                    modifiers: SpecModifiers { modifiers: ms },
                },
            ),
        }
    } else {
        match sp_parametrize_items(s, 0, hi) {
            Err(e) => Err(e),
            Ok((its, k)) => if k >= hi {
                Ok(
                    SpecParametrizeInfo {
                        data: SpecParametrizeData { data: its },
                        modifiers: spec_modifiers_default(),
                    },
                )
            } else if (s[k] matches Tok::PathSep) {
                match sp_modifiers(s, k + 1, hi) {
                    Err(e) => Err(e),
                    Ok((ms, _)) => Ok(
                        SpecParametrizeInfo {
                            data: SpecParametrizeData { data: its },
                            modifiers: SpecModifiers { modifiers: ms },
                        },
                    ),
                }
            } else {
                Err(err_at(k, ErrorKind::UnexpectedToken))
            },
        }
    }
}

/// Parse a whole input as a matrix directive, shaped as the parametrize one.
pub open spec fn sp_matrix_info(s: Seq<Tok>) -> Result<SpecMatrixInfo, SpecError> {
    let hi = s.len() as int;
    if hi == 0 {
        Ok(spec_matrix_info_default())
    } else if (s[0] matches Tok::PathSep) {
        match sp_modifiers(s, 1, hi) {
            Err(e) => Err(e),
            Ok((ms, _)) => Ok(
                SpecMatrixInfo {
                    args: spec_matrix_values_default(),
                    modifiers: SpecModifiers { modifiers: ms },
                },
            ),
        }
    } else {
        match sp_matrix_items(s, 0, hi) {
            Err(e) => Err(e),
            Ok((its, k)) => if k >= hi {
                Ok(
                    SpecMatrixInfo {
                        args: SpecMatrixValues { items: its },
                        modifiers: spec_modifiers_default(),
                    },
                )
            } else if (s[k] matches Tok::PathSep) {
                match sp_modifiers(s, k + 1, hi) {
                    Err(e) => Err(e),
                    Ok((ms, _)) => Ok(
                        SpecMatrixInfo {
                            args: SpecMatrixValues { items: its },
                            modifiers: SpecModifiers { modifiers: ms },
                        },
                    ),
                }
            } else {
                Err(err_at(k, ErrorKind::UnexpectedToken))
            },
        }
    }
}

/// The fixtures of an rstest directive's item list, wrapped as its slots.
pub open spec fn wrap_rstest_items(fs: Seq<SpecFixture>) -> Seq<SpecRsTestItem> {
    fs.map_values(|f: SpecFixture| SpecRsTestItem::Fixture(f))
}

/// The fixtures of a fixture directive's item list, wrapped as its slots.
pub open spec fn wrap_fixture_items(fs: Seq<SpecFixture>) -> Seq<SpecFixtureItem> {
    fs.map_values(|f: SpecFixture| SpecFixtureItem::Fixture(f))
}

/// Parse a whole input as an rstest directive, shaped as the parametrize
/// one.
pub open spec fn sp_rstest_info(s: Seq<Tok>) -> Result<SpecRsTestInfo, SpecError> {
    let hi = s.len() as int;
    if hi == 0 {
        Ok(spec_rstest_info_default())
    } else if (s[0] matches Tok::PathSep) {
        match sp_modifiers(s, 1, hi) {
            Err(e) => Err(e),
            Ok((ms, _)) => Ok(
                SpecRsTestInfo {
                    data: spec_rstest_data_default(),
                    modifiers: SpecRsTestModifiers { modifiers: SpecModifiers { modifiers: ms } },
                },
            ),
        }
    } else {
        match sp_fixture_slots(s, 0, hi) {
            Err(e) => Err(e),
            Ok((fs, k)) => if k >= hi {
                Ok(
                    SpecRsTestInfo {
                        data: SpecRsTestData { items: wrap_rstest_items(fs) },
                        modifiers: SpecRsTestModifiers { modifiers: spec_modifiers_default() },
                    },
                )
            } else if (s[k] matches Tok::PathSep) {
                match sp_modifiers(s, k + 1, hi) {
                    Err(e) => Err(e),
                    Ok((ms, _)) => Ok(
                        SpecRsTestInfo {
                            data: SpecRsTestData { items: wrap_rstest_items(fs) },
                            modifiers: SpecRsTestModifiers {
                                modifiers: SpecModifiers { modifiers: ms },
                            },
                        },
                    ),
                }
            } else {
                Err(err_at(k, ErrorKind::UnexpectedToken))
            },
        }
    }
}

/// Parse a whole input as a fixture directive, shaped as the parametrize
/// one.
pub open spec fn sp_fixture_info(s: Seq<Tok>) -> Result<SpecFixtureInfo, SpecError> {
    let hi = s.len() as int;
    if hi == 0 {
        Ok(spec_fixture_info_default())
    } else if (s[0] matches Tok::PathSep) {
        match sp_modifiers(s, 1, hi) {
            Err(e) => Err(e),
            Ok((ms, _)) => Ok(
                SpecFixtureInfo {
                    data: spec_fixture_data_default(),
                    modifiers: SpecFixtureModifiers { modifiers: SpecModifiers { modifiers: ms } },
                },
            ),
        }
    } else {
        match sp_fixture_slots(s, 0, hi) {
            Err(e) => Err(e),
            Ok((fs, k)) => if k >= hi {
                Ok(
                    SpecFixtureInfo {
                        data: SpecFixtureData { items: wrap_fixture_items(fs) },
                        modifiers: SpecFixtureModifiers { modifiers: spec_modifiers_default() },
                    },
                )
            } else if (s[k] matches Tok::PathSep) {
                match sp_modifiers(s, k + 1, hi) {
                    Err(e) => Err(e),
                    Ok((ms, _)) => Ok(
                        SpecFixtureInfo {
                            data: SpecFixtureData { items: wrap_fixture_items(fs) },
                            modifiers: SpecFixtureModifiers {
                                modifiers: SpecModifiers { modifiers: ms },
                            },
                        },
                    ),
                }
            } else {
                Err(err_at(k, ErrorKind::UnexpectedToken))
            },
        }
    }
}

/// The item list of an rstest or fixture directive parsed on its own: input
/// that begins with `::` holds no items and is not an item list; otherwise
/// the slots, with nothing left over.
pub open spec fn sp_fixture_slots_full(s: Seq<Tok>) -> Result<Seq<SpecFixture>, SpecError> {
    let hi = s.len() as int;
    if hi > 0 && (s[0] matches Tok::PathSep) {
        Err(err_at(0, ErrorKind::UnexpectedToken))
    } else {
        match sp_fixture_slots(s, 0, hi) {
            Err(e) => Err(e),
            Ok((fs, k)) => if k >= hi {
                Ok(fs)
            } else {
                Err(err_at(k, ErrorKind::UnexpectedToken))
            },
        }
    }
}

/// Parse a whole input as an rstest item list, with nothing left over.
pub open spec fn sp_rstest_data(s: Seq<Tok>) -> Result<SpecRsTestData, SpecError> {
    match sp_fixture_slots_full(s) {
        Err(e) => Err(e),
        Ok(fs) => Ok(SpecRsTestData { items: wrap_rstest_items(fs) }),
    }
}

/// Parse a whole input as a fixture-directive item list, with nothing left
/// over.
pub open spec fn sp_fixture_data(s: Seq<Tok>) -> Result<SpecFixtureData, SpecError> {
    match sp_fixture_slots_full(s) {
        Err(e) => Err(e),
        Ok(fs) => Ok(SpecFixtureData { items: wrap_fixture_items(fs) }),
    }
}

} // verus!
