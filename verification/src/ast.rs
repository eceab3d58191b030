//! The directive tree that a parse yields.
//!
//! Every node owns its children; no node is shared or mutated after
//! construction. Each executable type has a mathematical model (its view):
//! identifiers, expressions and types carry their text and the position —
//! a token index — at which they started.

use vstd::prelude::*;

verus! {

// ---------------------------------------------------------------------------
// Leaves: identifiers, expressions, types.
// ---------------------------------------------------------------------------
/// Mathematical value of an identifier.
pub struct SpecIdent {
    pub text: Seq<char>,
    pub pos: int,
}

/// An identifier with the position of its token.
#[derive(Debug)]
pub struct Ident {
    pub text: String,
    pub pos: usize,
}

impl View for Ident {
    type V = SpecIdent;

    open spec fn view(&self) -> SpecIdent {
        SpecIdent { text: self.text@, pos: self.pos as int }
    }
}

impl Clone for Ident {
    fn clone(&self) -> (r: Self)
        ensures
            r@ == self@,
    {
        Ident { text: self.text.clone(), pos: self.pos }
    }
}

/// Mathematical value of a captured expression.
pub struct SpecExpr {
    pub text: Seq<char>,
    pub pos: int,
}

/// A host-language expression, captured as its text, with the position of
/// its first token.
#[derive(Debug)]
pub struct Expr {
    pub text: String,
    pub pos: usize,
}

impl View for Expr {
    type V = SpecExpr;

    open spec fn view(&self) -> SpecExpr {
        SpecExpr { text: self.text@, pos: self.pos as int }
    }
}

impl Clone for Expr {
    fn clone(&self) -> (r: Self)
        ensures
            r@ == self@,
    {
        Expr { text: self.text.clone(), pos: self.pos }
    }
}

/// Mathematical value of a captured type.
pub struct SpecTypeExpr {
    pub text: Seq<char>,
    pub pos: int,
}

/// A host-language type, captured as its text, with the position of its
/// first token.
#[derive(Debug)]
pub struct TypeExpr {
    pub text: String,
    pub pos: usize,
}

impl View for TypeExpr {
    type V = SpecTypeExpr;

    open spec fn view(&self) -> SpecTypeExpr {
        SpecTypeExpr { text: self.text@, pos: self.pos as int }
    }
}

impl Clone for TypeExpr {
    fn clone(&self) -> (r: Self)
        ensures
            r@ == self@,
    {
        TypeExpr { text: self.text.clone(), pos: self.pos }
    }
}

// ---------------------------------------------------------------------------
// Case arguments and test cases.
// ---------------------------------------------------------------------------
/// Mathematical value of a case argument.
pub struct SpecCaseArg {
    pub expr: SpecExpr,
}

/// A test case's argument: an expression that can be assigned.
#[derive(Debug)]
pub struct CaseArg {
    pub expr: Expr,
}

impl View for CaseArg {
    type V = SpecCaseArg;

    open spec fn view(&self) -> SpecCaseArg {
        SpecCaseArg { expr: self.expr@ }
    }
}

impl Clone for CaseArg {
    fn clone(&self) -> (r: Self)
        ensures
            r@ == self@,
    {
        CaseArg { expr: self.expr.clone() }
    }
}

impl CaseArg {
    /// Wrap an expression as a case argument.
    pub fn new(expr: Expr) -> (r: Self)
        ensures
            r@ == (SpecCaseArg { expr: expr@ }),
    {
        CaseArg { expr }
    }
}

impl From<Expr> for CaseArg {
    fn from(expr: Expr) -> (r: Self) {
        CaseArg { expr }
    }
}

impl vstd::std_specs::convert::FromSpecImpl<Expr> for CaseArg {
    open spec fn obeys_from_spec() -> bool {
        true
    }

    open spec fn from_spec(expr: Expr) -> CaseArg {
        CaseArg { expr }
    }
}

/// The models of a sequence of case arguments.
pub open spec fn case_args_model(s: Seq<CaseArg>) -> Seq<SpecCaseArg> {
    s.map_values(|a: CaseArg| a@)
}

/// Mathematical value of a test case.
pub struct SpecTestCase {
    pub args: Seq<SpecCaseArg>,
    pub description: Option<SpecIdent>,
}

/// One test case: an ordered list of arguments and an optional description.
#[derive(Debug)]
pub struct TestCase {
    pub args: Vec<CaseArg>,
    pub description: Option<Ident>,
}

impl View for TestCase {
    type V = SpecTestCase;

    open spec fn view(&self) -> SpecTestCase {
        SpecTestCase {
            args: case_args_model(self.args@),
            description: match self.description {
                Some(d) => Some(d@),
                None => None,
            },
        }
    }
}

/// The position a test case's span starts at: its first argument's position,
/// or the default position when it has no arguments.
pub open spec fn spec_span_start(c: SpecTestCase) -> int {
    if c.args.len() == 0 {
        0
    } else {
        c.args[0].expr.pos
    }
}

/// The position a test case's span ends at: its last argument's position,
/// or the default position when it has no arguments.
pub open spec fn spec_span_end(c: SpecTestCase) -> int {
    if c.args.len() == 0 {
        0
    } else {
        c.args[c.args.len() - 1].expr.pos
    }
}

impl TestCase {
    /// Where this case's span starts.
    pub fn span_start(&self) -> (r: usize)
        ensures
            r as int == spec_span_start(self@),
    {
        if self.args.len() == 0 {
            0
        } else {
            self.args[0].expr.pos
        }
    }

    /// Where this case's span ends.
    pub fn span_end(&self) -> (r: usize)
        ensures
            r as int == spec_span_end(self@),
    {
        if self.args.len() == 0 {
            0
        } else {
            self.args[self.args.len() - 1].expr.pos
        }
    }
}

// ---------------------------------------------------------------------------
// Fixtures and value lists.
// ---------------------------------------------------------------------------
/// Mathematical value of a fixture.
pub struct SpecFixture {
    pub name: SpecIdent,
    pub positional: Seq<SpecExpr>,
}

/// A named fixture reference with its positional construction arguments.
#[derive(Debug)]
pub struct Fixture {
    pub name: Ident,
    pub positional: Vec<Expr>,
}

/// The models of a sequence of expressions.
pub open spec fn exprs_model(s: Seq<Expr>) -> Seq<SpecExpr> {
    s.map_values(|e: Expr| e@)
}

/// The models of a sequence of fixtures.
pub open spec fn fixtures_model(s: Seq<Fixture>) -> Seq<SpecFixture> {
    s.map_values(|f: Fixture| f@)
}

impl View for Fixture {
    type V = SpecFixture;

    open spec fn view(&self) -> SpecFixture {
        SpecFixture { name: self.name@, positional: exprs_model(self.positional@) }
    }
}

impl Fixture {
    /// Build a fixture from its name and positional arguments.
    pub fn new(name: Ident, positional: Vec<Expr>) -> (r: Self)
        ensures
            r@ == (SpecFixture { name: name@, positional: exprs_model(positional@) }),
    {
        Fixture { name, positional }
    }
}

/// Mathematical value of a value list.
pub struct SpecValueList {
    pub arg: SpecIdent,
    pub values: Seq<SpecCaseArg>,
}

/// A named, never-empty list of candidate values for one argument.
#[derive(Debug)]
pub struct ValueList {
    pub arg: Ident,
    pub values: Vec<CaseArg>,
}

impl View for ValueList {
    type V = SpecValueList;

    open spec fn view(&self) -> SpecValueList {
        SpecValueList { arg: self.arg@, values: case_args_model(self.values@) }
    }
}

// ---------------------------------------------------------------------------
// Modifiers.
// ---------------------------------------------------------------------------
/// Mathematical value of one modifier entry.
pub enum SpecAttr {
    Attr(SpecIdent),
    Tagged(SpecIdent, Seq<SpecIdent>),
    Type(SpecIdent, SpecTypeExpr),
}

/// One modifier entry: a bare flag, a named group of flags, or a named type
/// binding.
#[derive(Debug)]
pub enum RsTestAttribute {
    Attr(Ident),
    Tagged(Ident, Vec<Ident>),
    Type(Ident, TypeExpr),
}

/// The models of a sequence of identifiers.
pub open spec fn idents_model(s: Seq<Ident>) -> Seq<SpecIdent> {
    s.map_values(|x: Ident| x@)
}

impl View for RsTestAttribute {
    type V = SpecAttr;

    open spec fn view(&self) -> SpecAttr {
        match self {
            RsTestAttribute::Attr(i) => SpecAttr::Attr(i@),
            RsTestAttribute::Tagged(i, v) => SpecAttr::Tagged(i@, idents_model(v@)),
            RsTestAttribute::Type(i, t) => SpecAttr::Type(i@, t@),
        }
    }
}

/// Mathematical value of a modifier chain.
pub struct SpecModifiers {
    pub modifiers: Seq<SpecAttr>,
}

/// A modifier chain, in source order; later entries do not override earlier
/// ones.
#[derive(Debug)]
pub struct Modifiers {
    pub modifiers: Vec<RsTestAttribute>,
}

/// The models of a sequence of modifier entries.
pub open spec fn attrs_model(s: Seq<RsTestAttribute>) -> Seq<SpecAttr> {
    s.map_values(|a: RsTestAttribute| a@)
}

impl View for Modifiers {
    type V = SpecModifiers;

    open spec fn view(&self) -> SpecModifiers {
        SpecModifiers { modifiers: attrs_model(self.modifiers@) }
    }
}

/// The all-default modifier chain: no entries.
pub open spec fn spec_modifiers_default() -> SpecModifiers {
    SpecModifiers { modifiers: Seq::empty() }
}

impl Default for Modifiers {
    fn default() -> (r: Self)
        ensures
            r@ == spec_modifiers_default(),
    {
        let r = Modifiers { modifiers: Vec::new() };
        proof {
            assert(r@.modifiers =~= Seq::<SpecAttr>::empty());
        }
        r
    }
}

// ---------------------------------------------------------------------------
// Parametrize directive.
// ---------------------------------------------------------------------------
/// Mathematical value of one parametrize slot.
pub enum SpecParametrizeItem {
    Fixture(SpecFixture),
    CaseArgName(SpecIdent),
    TestCase(SpecTestCase),
}

/// One slot of a parametrize item list.
#[derive(Debug)]
pub enum ParametrizeItem {
    Fixture(Fixture),
    CaseArgName(Ident),
    TestCase(TestCase),
}

impl View for ParametrizeItem {
    type V = SpecParametrizeItem;

    open spec fn view(&self) -> SpecParametrizeItem {
        match self {
            ParametrizeItem::Fixture(f) => SpecParametrizeItem::Fixture(f@),
            ParametrizeItem::CaseArgName(i) => SpecParametrizeItem::CaseArgName(i@),
            ParametrizeItem::TestCase(c) => SpecParametrizeItem::TestCase(c@),
        }
    }
}

/// The models of a sequence of parametrize slots.
pub open spec fn pitems_model(s: Seq<ParametrizeItem>) -> Seq<SpecParametrizeItem> {
    s.map_values(|x: ParametrizeItem| x@)
}

/// Mathematical value of a parametrize item list.
pub struct SpecParametrizeData {
    pub data: Seq<SpecParametrizeItem>,
}

/// The item list of a parametrize directive.
#[derive(Debug)]
pub struct ParametrizeData {
    pub data: Vec<ParametrizeItem>,
}

impl View for ParametrizeData {
    type V = SpecParametrizeData;

    open spec fn view(&self) -> SpecParametrizeData {
        SpecParametrizeData { data: pitems_model(self.data@) }
    }
}

/// The empty parametrize item list.
pub open spec fn spec_parametrize_data_default() -> SpecParametrizeData {
    SpecParametrizeData { data: Seq::empty() }
}

impl Default for ParametrizeData {
    fn default() -> (r: Self)
        ensures
            r@ == spec_parametrize_data_default(),
    {
        let r = ParametrizeData { data: Vec::new() };
        proof {
            assert(r@.data =~= Seq::<SpecParametrizeItem>::empty());
        }
        r
    }
}

/// The argument names among a parametrize item list, in order, from slot `i`
/// on.
pub open spec fn spec_param_args(items: Seq<SpecParametrizeItem>, i: int) -> Seq<SpecIdent>
    decreases items.len() - i,
{
    if i < 0 || i >= items.len() {
        Seq::empty()
    } else {
        match items[i] {
            SpecParametrizeItem::CaseArgName(id) => seq![id] + spec_param_args(items, i + 1),
            _ => spec_param_args(items, i + 1),
        }
    }
}

/// The test cases among a parametrize item list, in order, from slot `i` on.
pub open spec fn spec_param_cases(items: Seq<SpecParametrizeItem>, i: int) -> Seq<SpecTestCase>
    decreases items.len() - i,
{
    if i < 0 || i >= items.len() {
        Seq::empty()
    } else {
        match items[i] {
            SpecParametrizeItem::TestCase(c) => seq![c] + spec_param_cases(items, i + 1),
            _ => spec_param_cases(items, i + 1),
        }
    }
}

/// The fixtures among a parametrize item list, in order, from slot `i` on.
pub open spec fn spec_param_fixtures(items: Seq<SpecParametrizeItem>, i: int) -> Seq<SpecFixture>
    decreases items.len() - i,
{
    if i < 0 || i >= items.len() {
        Seq::empty()
    } else {
        match items[i] {
            SpecParametrizeItem::Fixture(f) => seq![f] + spec_param_fixtures(items, i + 1),
            _ => spec_param_fixtures(items, i + 1),
        }
    }
}

/// The models of a sequence of borrowed identifiers.
pub open spec fn ident_refs_model(s: Seq<&Ident>) -> Seq<SpecIdent> {
    s.map_values(|x: &Ident| x@)
}

/// The models of a sequence of borrowed test cases.
pub open spec fn case_refs_model(s: Seq<&TestCase>) -> Seq<SpecTestCase> {
    s.map_values(|x: &TestCase| x@)
}

/// The models of a sequence of borrowed fixtures.
pub open spec fn fixture_refs_model(s: Seq<&Fixture>) -> Seq<SpecFixture> {
    s.map_values(|x: &Fixture| x@)
}

/// The models of a sequence of borrowed value lists.
pub open spec fn value_list_refs_model(s: Seq<&ValueList>) -> Seq<SpecValueList> {
    s.map_values(|x: &ValueList| x@)
}

fn param_args_from<'a>(v: &'a Vec<ParametrizeItem>, i: usize) -> (r: Vec<&'a Ident>)
    requires
        i <= v.len(),
    ensures
        ident_refs_model(r@) == spec_param_args(pitems_model(v@), i as int),
    decreases v.len() - i,
{
    proof {
        assert(pitems_model(v@).len() == v@.len());
    }
    if i >= v.len() {
        let r: Vec<&'a Ident> = Vec::new();
        proof {
            assert(ident_refs_model(r@) =~= spec_param_args(pitems_model(v@), i as int));
        }
        r
    } else {
        let rest = param_args_from(v, i + 1);
        proof {
            assert(pitems_model(v@)[i as int] == v@[i as int]@);
        }
        match &v[i] {
            ParametrizeItem::CaseArgName(id) => {
                let ghost rest_model = ident_refs_model(rest@);
                let mut rest = rest;
                rest.insert(0, id);
                proof {
                    assert(ident_refs_model(rest@) =~= seq![id@] + rest_model);
                }
                rest
            },
            _ => rest,
        }
    }
}

fn param_cases_from<'a>(v: &'a Vec<ParametrizeItem>, i: usize) -> (r: Vec<&'a TestCase>)
    requires
        i <= v.len(),
    ensures
        case_refs_model(r@) == spec_param_cases(pitems_model(v@), i as int),
    decreases v.len() - i,
{
    proof {
        assert(pitems_model(v@).len() == v@.len());
    }
    if i >= v.len() {
        let r: Vec<&'a TestCase> = Vec::new();
        proof {
            assert(case_refs_model(r@) =~= spec_param_cases(pitems_model(v@), i as int));
        }
        r
    } else {
        let rest = param_cases_from(v, i + 1);
        proof {
            assert(pitems_model(v@)[i as int] == v@[i as int]@);
        }
        match &v[i] {
            ParametrizeItem::TestCase(c) => {
                let ghost rest_model = case_refs_model(rest@);
                let mut rest = rest;
                rest.insert(0, c);
                proof {
                    assert(case_refs_model(rest@) =~= seq![c@] + rest_model);
                }
                rest
            },
            _ => rest,
        }
    }
}

fn param_fixtures_from<'a>(v: &'a Vec<ParametrizeItem>, i: usize) -> (r: Vec<&'a Fixture>)
    requires
        i <= v.len(),
    ensures
        fixture_refs_model(r@) == spec_param_fixtures(pitems_model(v@), i as int),
    decreases v.len() - i,
{
    proof {
        assert(pitems_model(v@).len() == v@.len());
    }
    if i >= v.len() {
        let r: Vec<&'a Fixture> = Vec::new();
        proof {
            assert(fixture_refs_model(r@) =~= spec_param_fixtures(pitems_model(v@), i as int));
        }
        r
    } else {
        let rest = param_fixtures_from(v, i + 1);
        proof {
            assert(pitems_model(v@)[i as int] == v@[i as int]@);
        }
        match &v[i] {
            ParametrizeItem::Fixture(f) => {
                let ghost rest_model = fixture_refs_model(rest@);
                let mut rest = rest;
                rest.insert(0, f);
                proof {
                    assert(fixture_refs_model(rest@) =~= seq![f@] + rest_model);
                }
                rest
            },
            _ => rest,
        }
    }
}

impl ParametrizeData {
    /// The argument names among the items, in order.
    pub fn args(&self) -> (r: Vec<&Ident>)
        ensures
            ident_refs_model(r@) == spec_param_args(self@.data, 0),
    {
        param_args_from(&self.data, 0)
    }

    /// The test cases among the items, in order.
    pub fn cases(&self) -> (r: Vec<&TestCase>)
        ensures
            case_refs_model(r@) == spec_param_cases(self@.data, 0),
    {
        param_cases_from(&self.data, 0)
    }

    /// The fixtures among the items, in order.
    pub fn fixtures(&self) -> (r: Vec<&Fixture>)
        ensures
            fixture_refs_model(r@) == spec_param_fixtures(self@.data, 0),
    {
        param_fixtures_from(&self.data, 0)
    }
}

/// Mathematical value of a parametrize directive.
pub struct SpecParametrizeInfo {
    pub data: SpecParametrizeData,
    pub modifiers: SpecModifiers,
}

/// A parsed parametrize directive: its item list and its modifier chain.
#[derive(Debug)]
pub struct ParametrizeInfo {
    pub data: ParametrizeData,
    pub modifiers: Modifiers,
}

impl View for ParametrizeInfo {
    type V = SpecParametrizeInfo;

    open spec fn view(&self) -> SpecParametrizeInfo {
        SpecParametrizeInfo { data: self.data@, modifiers: self.modifiers@ }
    }
}

/// The all-default parametrize directive: no items, no modifiers.
pub open spec fn spec_parametrize_info_default() -> SpecParametrizeInfo {
    SpecParametrizeInfo {
        data: spec_parametrize_data_default(),
        modifiers: spec_modifiers_default(),
    }
}

impl Default for ParametrizeInfo {
    fn default() -> (r: Self)
        ensures
            r@ == spec_parametrize_info_default(),
    {
        ParametrizeInfo { data: ParametrizeData::default(), modifiers: Modifiers::default() }
    }
}

// ---------------------------------------------------------------------------
// Matrix directive.
// ---------------------------------------------------------------------------
/// Mathematical value of one matrix slot.
pub enum SpecMatrixItem {
    ValueList(SpecValueList),
    Fixture(SpecFixture),
}

/// One slot of a matrix item list.
#[derive(Debug)]
pub enum MatrixItem {
    ValueList(ValueList),
    Fixture(Fixture),
}

impl View for MatrixItem {
    type V = SpecMatrixItem;

    open spec fn view(&self) -> SpecMatrixItem {
        match self {
            MatrixItem::ValueList(v) => SpecMatrixItem::ValueList(v@),
            MatrixItem::Fixture(f) => SpecMatrixItem::Fixture(f@),
        }
    }
}

impl From<ValueList> for MatrixItem {
    fn from(value_list: ValueList) -> (r: Self) {
        MatrixItem::ValueList(value_list)
    }
}

impl vstd::std_specs::convert::FromSpecImpl<ValueList> for MatrixItem {
    open spec fn obeys_from_spec() -> bool {
        true
    }

    open spec fn from_spec(value_list: ValueList) -> MatrixItem {
        MatrixItem::ValueList(value_list)
    }
}

impl From<Fixture> for MatrixItem {
    fn from(fixture: Fixture) -> (r: Self) {
        MatrixItem::Fixture(fixture)
    }
}

impl vstd::std_specs::convert::FromSpecImpl<Fixture> for MatrixItem {
    open spec fn obeys_from_spec() -> bool {
        true
    }

    open spec fn from_spec(fixture: Fixture) -> MatrixItem {
        MatrixItem::Fixture(fixture)
    }
}

/// The models of a sequence of matrix slots.
pub open spec fn mitems_model(s: Seq<MatrixItem>) -> Seq<SpecMatrixItem> {
    s.map_values(|x: MatrixItem| x@)
}

/// Mathematical value of a matrix item list.
pub struct SpecMatrixValues {
    pub items: Seq<SpecMatrixItem>,
}

/// The item list of a matrix directive.
#[derive(Debug)]
pub struct MatrixValues(pub Vec<MatrixItem>);

impl View for MatrixValues {
    type V = SpecMatrixValues;

    open spec fn view(&self) -> SpecMatrixValues {
        SpecMatrixValues { items: mitems_model(self.0@) }
    }
}

/// The empty matrix item list.
pub open spec fn spec_matrix_values_default() -> SpecMatrixValues {
    SpecMatrixValues { items: Seq::empty() }
}

impl Default for MatrixValues {
    fn default() -> (r: Self)
        ensures
            r@ == spec_matrix_values_default(),
    {
        let r = MatrixValues(Vec::new());
        proof {
            assert(r@.items =~= Seq::<SpecMatrixItem>::empty());
        }
        r
    }
}

/// The value lists among a matrix item list, in order, from slot `i` on.
pub open spec fn spec_matrix_lists(items: Seq<SpecMatrixItem>, i: int) -> Seq<SpecValueList>
    decreases items.len() - i,
{
    if i < 0 || i >= items.len() {
        Seq::empty()
    } else {
        match items[i] {
            SpecMatrixItem::ValueList(v) => seq![v] + spec_matrix_lists(items, i + 1),
            _ => spec_matrix_lists(items, i + 1),
        }
    }
}

/// The fixtures among a matrix item list, in order, from slot `i` on.
pub open spec fn spec_matrix_fixtures(items: Seq<SpecMatrixItem>, i: int) -> Seq<SpecFixture>
    decreases items.len() - i,
{
    if i < 0 || i >= items.len() {
        Seq::empty()
    } else {
        match items[i] {
            SpecMatrixItem::Fixture(f) => seq![f] + spec_matrix_fixtures(items, i + 1),
            _ => spec_matrix_fixtures(items, i + 1),
        }
    }
}

fn matrix_lists_from<'a>(v: &'a Vec<MatrixItem>, i: usize) -> (r: Vec<&'a ValueList>)
    requires
        i <= v.len(),
    ensures
        value_list_refs_model(r@) == spec_matrix_lists(mitems_model(v@), i as int),
    decreases v.len() - i,
{
    proof {
        assert(mitems_model(v@).len() == v@.len());
    }
    if i >= v.len() {
        let r: Vec<&'a ValueList> = Vec::new();
        proof {
            assert(value_list_refs_model(r@) =~= spec_matrix_lists(mitems_model(v@), i as int));
        }
        r
    } else {
        let rest = matrix_lists_from(v, i + 1);
        proof {
            assert(mitems_model(v@)[i as int] == v@[i as int]@);
        }
        match &v[i] {
            MatrixItem::ValueList(x) => {
                let ghost rest_model = value_list_refs_model(rest@);
                let mut rest = rest;
                rest.insert(0, x);
                proof {
                    assert(value_list_refs_model(rest@) =~= seq![x@] + rest_model);
                }
                rest
            },
            _ => rest,
        }
    }
}

fn matrix_fixtures_from<'a>(v: &'a Vec<MatrixItem>, i: usize) -> (r: Vec<&'a Fixture>)
    requires
        i <= v.len(),
    ensures
        fixture_refs_model(r@) == spec_matrix_fixtures(mitems_model(v@), i as int),
    decreases v.len() - i,
{
    proof {
        assert(mitems_model(v@).len() == v@.len());
    }
    if i >= v.len() {
        let r: Vec<&'a Fixture> = Vec::new();
        proof {
            assert(fixture_refs_model(r@) =~= spec_matrix_fixtures(mitems_model(v@), i as int));
        }
        r
    } else {
        let rest = matrix_fixtures_from(v, i + 1);
        proof {
            assert(mitems_model(v@)[i as int] == v@[i as int]@);
        }
        match &v[i] {
            MatrixItem::Fixture(f) => {
                let ghost rest_model = fixture_refs_model(rest@);
                let mut rest = rest;
                rest.insert(0, f);
                proof {
                    assert(fixture_refs_model(rest@) =~= seq![f@] + rest_model);
                }
                rest
            },
            _ => rest,
        }
    }
}

impl MatrixValues {
    /// The value lists among the items, in order.
    pub fn list_values(&self) -> (r: Vec<&ValueList>)
        ensures
            value_list_refs_model(r@) == spec_matrix_lists(self@.items, 0),
    {
        matrix_lists_from(&self.0, 0)
    }

    /// The fixtures among the items, in order.
    pub fn fixtures(&self) -> (r: Vec<&Fixture>)
        ensures
            fixture_refs_model(r@) == spec_matrix_fixtures(self@.items, 0),
    {
        matrix_fixtures_from(&self.0, 0)
    }
}

/// Mathematical value of a matrix directive.
pub struct SpecMatrixInfo {
    pub args: SpecMatrixValues,
    pub modifiers: SpecModifiers,
}

/// A parsed matrix directive: its item list and its modifier chain.
#[derive(Debug)]
pub struct MatrixInfo {
    pub args: MatrixValues,
    pub modifiers: Modifiers,
}

impl View for MatrixInfo {
    type V = SpecMatrixInfo;

    open spec fn view(&self) -> SpecMatrixInfo {
        SpecMatrixInfo { args: self.args@, modifiers: self.modifiers@ }
    }
}

/// The all-default matrix directive: no items, no modifiers.
pub open spec fn spec_matrix_info_default() -> SpecMatrixInfo {
    SpecMatrixInfo { args: spec_matrix_values_default(), modifiers: spec_modifiers_default() }
}

impl Default for MatrixInfo {
    fn default() -> (r: Self)
        ensures
            r@ == spec_matrix_info_default(),
    {
        MatrixInfo { args: MatrixValues::default(), modifiers: Modifiers::default() }
    }
}

// ---------------------------------------------------------------------------
// RsTest directive.
// ---------------------------------------------------------------------------
/// Mathematical value of one rstest slot.
pub enum SpecRsTestItem {
    Fixture(SpecFixture),
}

/// One slot of an rstest item list; kept open for future variants.
#[derive(Debug)]
pub enum RsTestItem {
    Fixture(Fixture),
}

impl View for RsTestItem {
    type V = SpecRsTestItem;

    open spec fn view(&self) -> SpecRsTestItem {
        match self {
            RsTestItem::Fixture(f) => SpecRsTestItem::Fixture(f@),
        }
    }
}

/// The name of an rstest slot.
pub open spec fn spec_rstest_item_name(it: SpecRsTestItem) -> SpecIdent {
    match it {
        SpecRsTestItem::Fixture(f) => f.name,
    }
}

impl RsTestItem {
    /// The slot's name.
    pub fn name(&self) -> (r: &Ident)
        ensures
            r@ == spec_rstest_item_name(self@),
    {
        match self {
            RsTestItem::Fixture(f) => &f.name,
        }
    }
}

impl From<Fixture> for RsTestItem {
    fn from(f: Fixture) -> (r: Self) {
        RsTestItem::Fixture(f)
    }
}

impl vstd::std_specs::convert::FromSpecImpl<Fixture> for RsTestItem {
    open spec fn obeys_from_spec() -> bool {
        true
    }

    open spec fn from_spec(f: Fixture) -> RsTestItem {
        RsTestItem::Fixture(f)
    }
}

/// The models of a sequence of rstest slots.
pub open spec fn rs_items_model(s: Seq<RsTestItem>) -> Seq<SpecRsTestItem> {
    s.map_values(|x: RsTestItem| x@)
}

/// Mathematical value of an rstest item list.
pub struct SpecRsTestData {
    pub items: Seq<SpecRsTestItem>,
}

/// The item list of an rstest directive.
#[derive(Debug)]
pub struct RsTestData {
    pub items: Vec<RsTestItem>,
}

impl View for RsTestData {
    type V = SpecRsTestData;

    open spec fn view(&self) -> SpecRsTestData {
        SpecRsTestData { items: rs_items_model(self.items@) }
    }
}

/// The empty rstest item list.
pub open spec fn spec_rstest_data_default() -> SpecRsTestData {
    SpecRsTestData { items: Seq::empty() }
}

impl Default for RsTestData {
    fn default() -> (r: Self)
        ensures
            r@ == spec_rstest_data_default(),
    {
        let r = RsTestData { items: Vec::new() };
        proof {
            assert(r@.items =~= Seq::<SpecRsTestItem>::empty());
        }
        r
    }
}

/// The fixtures among an rstest item list, in order, from slot `i` on.
pub open spec fn spec_rstest_fixtures(items: Seq<SpecRsTestItem>, i: int) -> Seq<SpecFixture>
    decreases items.len() - i,
{
    if i < 0 || i >= items.len() {
        Seq::empty()
    } else {
        match items[i] {
            SpecRsTestItem::Fixture(f) => seq![f] + spec_rstest_fixtures(items, i + 1),
        }
    }
}

fn rstest_fixtures_from<'a>(v: &'a Vec<RsTestItem>, i: usize) -> (r: Vec<&'a Fixture>)
    requires
        i <= v.len(),
    ensures
        fixture_refs_model(r@) == spec_rstest_fixtures(rs_items_model(v@), i as int),
    decreases v.len() - i,
{
    proof {
        assert(rs_items_model(v@).len() == v@.len());
    }
    if i >= v.len() {
        let r: Vec<&'a Fixture> = Vec::new();
        proof {
            assert(fixture_refs_model(r@) =~= spec_rstest_fixtures(rs_items_model(v@), i as int));
        }
        r
    } else {
        let rest = rstest_fixtures_from(v, i + 1);
        proof {
            assert(rs_items_model(v@)[i as int] == v@[i as int]@);
        }
        match &v[i] {
            RsTestItem::Fixture(f) => {
                let ghost rest_model = fixture_refs_model(rest@);
                let mut rest = rest;
                rest.insert(0, f);
                proof {
                    assert(fixture_refs_model(rest@) =~= seq![f@] + rest_model);
                }
                rest
            },
        }
    }
}

impl RsTestData {
    /// The fixtures among the items, in order.
    pub fn fixtures(&self) -> (r: Vec<&Fixture>)
        ensures
            fixture_refs_model(r@) == spec_rstest_fixtures(self@.items, 0),
    {
        rstest_fixtures_from(&self.items, 0)
    }
}

/// Mathematical value of an rstest directive's modifiers.
pub struct SpecRsTestModifiers {
    pub modifiers: SpecModifiers,
}

/// The modifiers of an rstest directive.
#[derive(Debug)]
pub struct RsTestModifiers {
    pub modifiers: Modifiers,
}

impl View for RsTestModifiers {
    type V = SpecRsTestModifiers;

    open spec fn view(&self) -> SpecRsTestModifiers {
        SpecRsTestModifiers { modifiers: self.modifiers@ }
    }
}

impl From<Modifiers> for RsTestModifiers {
    fn from(modifiers: Modifiers) -> (r: Self) {
        RsTestModifiers { modifiers }
    }
}

impl vstd::std_specs::convert::FromSpecImpl<Modifiers> for RsTestModifiers {
    open spec fn obeys_from_spec() -> bool {
        true
    }

    open spec fn from_spec(modifiers: Modifiers) -> RsTestModifiers {
        RsTestModifiers { modifiers }
    }
}

impl Default for RsTestModifiers {
    fn default() -> (r: Self)
        ensures
            r@ == (SpecRsTestModifiers { modifiers: spec_modifiers_default() }),
    {
        RsTestModifiers { modifiers: Modifiers::default() }
    }
}

/// Mathematical value of an rstest directive.
pub struct SpecRsTestInfo {
    pub data: SpecRsTestData,
    pub modifiers: SpecRsTestModifiers,
}

/// A parsed rstest directive: its item list and its modifier chain.
#[derive(Debug)]
pub struct RsTestInfo {
    pub data: RsTestData,
    pub modifiers: RsTestModifiers,
}

impl View for RsTestInfo {
    type V = SpecRsTestInfo;

    open spec fn view(&self) -> SpecRsTestInfo {
        SpecRsTestInfo { data: self.data@, modifiers: self.modifiers@ }
    }
}

/// The all-default rstest directive: no items, no modifiers.
pub open spec fn spec_rstest_info_default() -> SpecRsTestInfo {
    SpecRsTestInfo {
        data: spec_rstest_data_default(),
        modifiers: SpecRsTestModifiers { modifiers: spec_modifiers_default() },
    }
}

impl Default for RsTestInfo {
    fn default() -> (r: Self)
        ensures
            r@ == spec_rstest_info_default(),
    {
        RsTestInfo { data: RsTestData::default(), modifiers: RsTestModifiers::default() }
    }
}

// ---------------------------------------------------------------------------
// Fixture directive.
// ---------------------------------------------------------------------------
/// Mathematical value of one fixture-directive slot.
pub enum SpecFixtureItem {
    Fixture(SpecFixture),
}

/// One slot of a fixture-directive item list; kept open for future variants.
#[derive(Debug)]
pub enum FixtureItem {
    Fixture(Fixture),
}

impl View for FixtureItem {
    type V = SpecFixtureItem;

    open spec fn view(&self) -> SpecFixtureItem {
        match self {
            FixtureItem::Fixture(f) => SpecFixtureItem::Fixture(f@),
        }
    }
}

/// The name of a fixture-directive slot.
pub open spec fn spec_fixture_item_name(it: SpecFixtureItem) -> SpecIdent {
    match it {
        SpecFixtureItem::Fixture(f) => f.name,
    }
}

impl FixtureItem {
    /// The slot's name.
    pub fn name(&self) -> (r: &Ident)
        ensures
            r@ == spec_fixture_item_name(self@),
    {
        match self {
            FixtureItem::Fixture(f) => &f.name,
        }
    }
}

impl From<Fixture> for FixtureItem {
    fn from(f: Fixture) -> (r: Self) {
        FixtureItem::Fixture(f)
    }
}

impl vstd::std_specs::convert::FromSpecImpl<Fixture> for FixtureItem {
    open spec fn obeys_from_spec() -> bool {
        true
    }

    open spec fn from_spec(f: Fixture) -> FixtureItem {
        FixtureItem::Fixture(f)
    }
}

/// The models of a sequence of fixture-directive slots.
pub open spec fn fx_items_model(s: Seq<FixtureItem>) -> Seq<SpecFixtureItem> {
    s.map_values(|x: FixtureItem| x@)
}

/// Mathematical value of a fixture-directive item list.
pub struct SpecFixtureData {
    pub items: Seq<SpecFixtureItem>,
}

/// The item list of a fixture directive.
#[derive(Debug)]
pub struct FixtureData {
    pub items: Vec<FixtureItem>,
}

impl View for FixtureData {
    type V = SpecFixtureData;

    open spec fn view(&self) -> SpecFixtureData {
        SpecFixtureData { items: fx_items_model(self.items@) }
    }
}

/// The empty fixture-directive item list.
pub open spec fn spec_fixture_data_default() -> SpecFixtureData {
    SpecFixtureData { items: Seq::empty() }
}

impl Default for FixtureData {
    fn default() -> (r: Self)
        ensures
            r@ == spec_fixture_data_default(),
    {
        let r = FixtureData { items: Vec::new() };
        proof {
            assert(r@.items =~= Seq::<SpecFixtureItem>::empty());
        }
        r
    }
}

/// The fixtures among a fixture-directive item list, in order, from slot `i`
/// on.
pub open spec fn spec_fixture_fixtures(items: Seq<SpecFixtureItem>, i: int) -> Seq<SpecFixture>
    decreases items.len() - i,
{
    if i < 0 || i >= items.len() {
        Seq::empty()
    } else {
        match items[i] {
            SpecFixtureItem::Fixture(f) => seq![f] + spec_fixture_fixtures(items, i + 1),
        }
    }
}

fn fixture_fixtures_from<'a>(v: &'a Vec<FixtureItem>, i: usize) -> (r: Vec<&'a Fixture>)
    requires
        i <= v.len(),
    ensures
        fixture_refs_model(r@) == spec_fixture_fixtures(fx_items_model(v@), i as int),
    decreases v.len() - i,
{
    proof {
        assert(fx_items_model(v@).len() == v@.len());
    }
    if i >= v.len() {
        let r: Vec<&'a Fixture> = Vec::new();
        proof {
            assert(fixture_refs_model(r@) =~= spec_fixture_fixtures(fx_items_model(v@), i as int));
        }
        r
    } else {
        let rest = fixture_fixtures_from(v, i + 1);
        proof {
            assert(fx_items_model(v@)[i as int] == v@[i as int]@);
        }
        match &v[i] {
            FixtureItem::Fixture(f) => {
                let ghost rest_model = fixture_refs_model(rest@);
                let mut rest = rest;
                rest.insert(0, f);
                proof {
                    assert(fixture_refs_model(rest@) =~= seq![f@] + rest_model);
                }
                rest
            },
        }
    }
}

impl FixtureData {
    /// The fixtures among the items, in order.
    pub fn fixtures(&self) -> (r: Vec<&Fixture>)
        ensures
            fixture_refs_model(r@) == spec_fixture_fixtures(self@.items, 0),
    {
        fixture_fixtures_from(&self.items, 0)
    }
}

/// Mathematical value of a fixture directive's modifiers.
pub struct SpecFixtureModifiers {
    pub modifiers: SpecModifiers,
}

/// The modifiers of a fixture directive.
#[derive(Debug)]
pub struct FixtureModifiers {
    pub modifiers: Modifiers,
}

impl View for FixtureModifiers {
    type V = SpecFixtureModifiers;

    open spec fn view(&self) -> SpecFixtureModifiers {
        SpecFixtureModifiers { modifiers: self.modifiers@ }
    }
}

impl From<Modifiers> for FixtureModifiers {
    fn from(modifiers: Modifiers) -> (r: Self) {
        FixtureModifiers { modifiers }
    }
}

impl vstd::std_specs::convert::FromSpecImpl<Modifiers> for FixtureModifiers {
    open spec fn obeys_from_spec() -> bool {
        true
    }

    open spec fn from_spec(modifiers: Modifiers) -> FixtureModifiers {
        FixtureModifiers { modifiers }
    }
}

impl Default for FixtureModifiers {
    fn default() -> (r: Self)
        ensures
            r@ == (SpecFixtureModifiers { modifiers: spec_modifiers_default() }),
    {
        FixtureModifiers { modifiers: Modifiers::default() }
    }
}

/// Mathematical value of a fixture directive.
pub struct SpecFixtureInfo {
    pub data: SpecFixtureData,
    pub modifiers: SpecFixtureModifiers,
}

/// A parsed fixture directive: its item list and its modifier chain.
#[derive(Debug)]
pub struct FixtureInfo {
    pub data: FixtureData,
    pub modifiers: FixtureModifiers,
}

impl View for FixtureInfo {
    type V = SpecFixtureInfo;

    open spec fn view(&self) -> SpecFixtureInfo {
        SpecFixtureInfo { data: self.data@, modifiers: self.modifiers@ }
    }
}

/// The all-default fixture directive: no items, no modifiers.
pub open spec fn spec_fixture_info_default() -> SpecFixtureInfo {
    SpecFixtureInfo {
        data: spec_fixture_data_default(),
        modifiers: SpecFixtureModifiers { modifiers: spec_modifiers_default() },
    }
}

impl Default for FixtureInfo {
    fn default() -> (r: Self)
        ensures
            r@ == spec_fixture_info_default(),
    {
        FixtureInfo { data: FixtureData::default(), modifiers: FixtureModifiers::default() }
    }
}

} // verus!
