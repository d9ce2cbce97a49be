//! The SELECT statement IR: identifiers, expressions, table references and
//! query nodes, with their canonical SQL text.

use vstd::prelude::*;
use vstd::string::StringExecFns;
use crate::values::{Value, ValueView, Values, render_value, render_values};
use crate::render::{
    SqlText, comma_join, comma_join_upto, dec_int, i64_to_string, join_comma_separated,
};

verus! {

/// A bare identifier for a table, column or constraint name, rendered
/// verbatim.
#[derive(Debug, PartialEq, Clone)]
pub struct Ident {
    /// The identifier's text, without quotes.
    pub value: String,
}

impl View for Ident {
    type V = Seq<char>;

    open spec fn view(&self) -> Seq<char> {
        self.value@
    }
}

impl SqlText for Ident {
    open spec fn sql_view(&self) -> Seq<char> {
        self@
    }

    fn to_sql_string(&self) -> (r: String)
        ensures
            r@ == self.sql_view(),
    {
        self.value.clone()
    }
}

/// A possibly qualified object name: a sequence of identifiers.
#[derive(Debug, PartialEq, Clone)]
pub struct ObjectName(pub Vec<Ident>);

impl View for ObjectName {
    type V = Seq<Seq<char>>;

    open spec fn view(&self) -> Seq<Seq<char>> {
        self.0@.map_values(|i: Ident| i@)
    }
}

/// The canonical SQL text of an object name: its parts joined with `", "`.
pub open spec fn render_object_name(n: Seq<Seq<char>>) -> Seq<char> {
    comma_join(n)
}

impl SqlText for ObjectName {
    open spec fn sql_view(&self) -> Seq<char> {
        render_object_name(self@)
    }

    fn to_sql_string(&self) -> (r: String)
        ensures
            r@ == self.sql_view(),
    {
        let r = join_comma_separated(&self.0);
        proof {
            assert(self.0@.map_values(|t: Ident| t.sql_view()) =~= self@);
        }
        r
    }
}

/// A projection item of a SELECT statement.
#[derive(Debug, PartialEq, Clone)]
pub enum SelectItem {
    Wildcard,
}

/// The canonical SQL text of a projection item.
pub open spec fn render_select_item(it: SelectItem) -> Seq<char> {
    match it {
        SelectItem::Wildcard => "*"@,
    }
}

impl SqlText for SelectItem {
    open spec fn sql_view(&self) -> Seq<char> {
        render_select_item(*self)
    }

    fn to_sql_string(&self) -> (r: String)
        ensures
            r@ == self.sql_view(),
    {
        match self {
            SelectItem::Wildcard => "*".to_owned(),
        }
    }
}

/// A table reference in a FROM list.
#[derive(Debug, PartialEq, Clone)]
pub enum TableFactor {
    Table { name: ObjectName },
}

/// The mathematical model of a [`TableFactor`].
#[verifier::ext_equal]
pub enum TableFactorView {
    Table { name: Seq<Seq<char>> },
}

impl View for TableFactor {
    type V = TableFactorView;

    open spec fn view(&self) -> TableFactorView {
        match self {
            TableFactor::Table { name } => TableFactorView::Table { name: name@ },
        }
    }
}

/// The canonical SQL text of a table reference.
pub open spec fn render_table_factor(t: TableFactorView) -> Seq<char> {
    match t {
        TableFactorView::Table { name } => render_object_name(name),
    }
}

impl SqlText for TableFactor {
    open spec fn sql_view(&self) -> Seq<char> {
        render_table_factor(self@)
    }

    fn to_sql_string(&self) -> (r: String)
        ensures
            r@ == self.sql_view(),
    {
        match self {
            TableFactor::Table { name } => name.to_sql_string(),
        }
    }
}

/// A FROM-list entry; joins are not supported, so it wraps one relation.
#[derive(Debug, PartialEq, Clone)]
pub struct TableWithJoins {
    pub relation: TableFactor,
}

/// The mathematical model of a [`TableWithJoins`].
#[verifier::ext_equal]
pub struct TableWithJoinsView {
    pub relation: TableFactorView,
}

impl View for TableWithJoins {
    type V = TableWithJoinsView;

    open spec fn view(&self) -> TableWithJoinsView {
        TableWithJoinsView { relation: self.relation@ }
    }
}

/// The canonical SQL text of a FROM-list entry.
pub open spec fn render_table_with_joins(t: TableWithJoinsView) -> Seq<char> {
    render_table_factor(t.relation)
}

impl SqlText for TableWithJoins {
    open spec fn sql_view(&self) -> Seq<char> {
        render_table_with_joins(self@)
    }

    fn to_sql_string(&self) -> (r: String)
        ensures
            r@ == self.sql_view(),
    {
        self.relation.to_sql_string()
    }
}

impl TableFactor {
    /// A copy of this table reference with the same model.
    pub fn duplicate(&self) -> (r: TableFactor)
        ensures
            r@ == self@,
    {
        match self {
            TableFactor::Table { name } => TableFactor::Table { name: name.duplicate() },
        }
    }
}

impl TableWithJoins {
    /// A copy of this FROM-list entry with the same model.
    pub fn duplicate(&self) -> (r: TableWithJoins)
        ensures
            r@ == self@,
    {
        TableWithJoins { relation: self.relation.duplicate() }
    }
}

/// An expression usable as a predicate or a literal list element.
#[derive(Debug, PartialEq)]
pub enum Expr {
    Value(Value),
    Identifier(Ident),
    InList { expr: Box<Expr>, list: Vec<Expr>, negated: bool },
}

/// The mathematical model of an [`Expr`].
#[verifier::ext_equal]
pub enum ExprView {
    Value(ValueView),
    Identifier(Seq<char>),
    InList { expr: Box<ExprView>, list: Seq<ExprView>, negated: bool },
}

/// The model of the first `i` elements of an expression list.
pub open spec fn exprs_view_upto(l: Vec<Expr>, i: int) -> Seq<ExprView>
    decreases l, i,
{
    if i <= 0 || i > l@.len() {
        Seq::<ExprView>::empty()
    } else {
        exprs_view_upto(l, i - 1).push(expr_view(l[i - 1]))
    }
}

/// The mathematical model of an expression.
pub open spec fn expr_view(e: Expr) -> ExprView
    decreases e, 0int,
{
    match e {
        Expr::Value(v) => ExprView::Value(v@),
        Expr::Identifier(i) => ExprView::Identifier(i@),
        Expr::InList { expr, list, negated } => ExprView::InList {
            expr: Box::new(expr_view(*expr)),
            list: exprs_view_upto(list, list@.len() as int),
            negated,
        },
    }
}

/// The model of a whole expression list.
pub open spec fn exprs_view(l: Vec<Expr>) -> Seq<ExprView> {
    exprs_view_upto(l, l@.len() as int)
}

/// The model of an optional expression.
pub open spec fn option_expr_view(o: Option<Expr>) -> Option<ExprView> {
    match o {
        Some(e) => Some(expr_view(e)),
        None => None,
    }
}

impl View for Expr {
    type V = ExprView;

    open spec fn view(&self) -> ExprView {
        expr_view(*self)
    }
}

pub proof fn lemma_exprs_view_upto(l: Vec<Expr>, n: int)
    requires
        0 <= n <= l@.len(),
    ensures
        exprs_view_upto(l, n).len() == n,
        forall|k: int| 0 <= k < n ==> exprs_view_upto(l, n)[k] == expr_view(l[k]),
    decreases n,
{
    if n > 0 {
        lemma_exprs_view_upto(l, n - 1);
    }
}

/// The canonical SQL text of the first `i` rendered elements of an
/// expression list.
pub open spec fn rendered_exprs_upto(l: Seq<ExprView>, i: int) -> Seq<Seq<char>>
    decreases l, i,
{
    if i <= 0 || i > l.len() {
        Seq::<Seq<char>>::empty()
    } else {
        rendered_exprs_upto(l, i - 1).push(render_expr(l[i - 1]))
    }
}

/// The canonical SQL text of an expression: a literal, a verbatim
/// identifier, or `<expr> [NOT] IN (<list>)` with the list comma-joined.
pub open spec fn render_expr(e: ExprView) -> Seq<char>
    decreases e, 0int,
{
    match e {
        ExprView::Value(v) => render_value(v),
        ExprView::Identifier(s) => s,
        ExprView::InList { expr, list, negated } => (if negated {
            "NOT "@
        } else {
            Seq::<char>::empty()
        }) + render_expr(*expr) + " IN ("@ + comma_join(
            rendered_exprs_upto(list, list.len() as int),
        ) + ")"@,
    }
}

pub proof fn lemma_rendered_exprs_upto(l: Seq<ExprView>, n: int)
    requires
        0 <= n <= l.len(),
    ensures
        rendered_exprs_upto(l, n).len() == n,
        forall|k: int| 0 <= k < n ==> rendered_exprs_upto(l, n)[k] == render_expr(l[k]),
    decreases n,
{
    if n > 0 {
        lemma_rendered_exprs_upto(l, n - 1);
    }
}

/// The canonical SQL text of an expression list joined with `", "`.
pub open spec fn render_expr_list(l: Seq<ExprView>) -> Seq<char> {
    comma_join(rendered_exprs_upto(l, l.len() as int))
}

/// Renders every expression of `list` and joins the results with `", "`.
#[verifier::loop_isolation(false)]
pub fn exprs_to_comma_string(list: &Vec<Expr>) -> (r: String)
    ensures
        r@ == render_expr_list(exprs_view(*list)),
    decreases list,
{
    let ghost lv = exprs_view(*list);
    let ghost items = rendered_exprs_upto(lv, lv.len() as int);
    proof {
        lemma_exprs_view_upto(*list, list@.len() as int);
        lemma_rendered_exprs_upto(lv, lv.len() as int);
    }
    let mut out = String::new();
    let mut j: usize = 0;
    while j < list.len()
        invariant
            j <= list@.len(),
            out@ == comma_join_upto(items, j as int),
        decreases list@.len() - j,
    {
        if j > 0 {
            out.append(", ");
        }
        let piece = list[j].to_string();
        out.append(piece.as_str());
        proof {
            assert(out@ =~= comma_join_upto(items, j as int + 1));
        }
        j += 1;
    }
    out
}

impl Expr {
    /// Renders this expression in its canonical SQL form.
    pub fn to_string(&self) -> (r: String)
        ensures
            r@ == render_expr(self@),
        decreases self,
    {
        match self {
            Expr::Value(v) => v.to_string(),
            Expr::Identifier(i) => i.value.clone(),
            Expr::InList { expr, list, negated } => {
                let mut out: String = if *negated {
                    "NOT ".to_owned()
                } else {
                    String::new()
                };
                let head = expr.to_string();
                out.append(head.as_str());
                out.append(" IN (");
                let joined = exprs_to_comma_string(list);
                out.append(joined.as_str());
                out.append(")");
                proof {
                    assert(out@ =~= render_expr(self@));
                }
                out
            },
        }
    }
}

impl SqlText for Expr {
    open spec fn sql_view(&self) -> Seq<char> {
        render_expr(self@)
    }

    fn to_sql_string(&self) -> (r: String)
        ensures
            r@ == self.sql_view(),
    {
        self.to_string()
    }
}

/// The body of a SELECT statement: projection, FROM list and the optional
/// WHERE / GROUP BY / HAVING clauses.
#[derive(Debug, PartialEq)]
pub struct Select {
    pub projection: Vec<SelectItem>,
    pub from: Vec<TableWithJoins>,
    pub selection: Option<Expr>,
    pub group_by: Option<String>,
    pub sort_by: Vec<Expr>,
    pub having: Option<Expr>,
}

/// The mathematical model of a [`Select`].
#[verifier::ext_equal]
pub struct SelectView {
    pub projection: Seq<SelectItem>,
    pub from: Seq<TableWithJoinsView>,
    pub selection: Option<ExprView>,
    pub group_by: Option<Seq<char>>,
    pub sort_by: Seq<ExprView>,
    pub having: Option<ExprView>,
}

impl View for Select {
    type V = SelectView;

    open spec fn view(&self) -> SelectView {
        SelectView {
            projection: self.projection@,
            from: self.from@.map_values(|t: TableWithJoins| t@),
            selection: match self.selection {
                Some(e) => Some(expr_view(e)),
                None => None,
            },
            group_by: match self.group_by {
                Some(s) => Some(s@),
                None => None,
            },
            sort_by: exprs_view(self.sort_by),
            having: match self.having {
                Some(e) => Some(expr_view(e)),
                None => None,
            },
        }
    }
}

/// The canonical SQL text of a SELECT body: `SELECT <projection> FROM
/// <tables>`, then ` WHERE <expr>`, ` GROUP BY <col>` and ` HAVING <expr>`
/// in that fixed order, each only when present. The sort-by list is not
/// rendered.
pub open spec fn render_select(s: SelectView) -> Seq<char> {
    "SELECT "@ + comma_join(s.projection.map_values(|it: SelectItem| render_select_item(it)))
        + " FROM "@ + comma_join(s.from.map_values(|t: TableWithJoinsView| render_table_with_joins(t)))
        + (match s.selection {
        Some(e) => " WHERE "@ + render_expr(e),
        None => Seq::<char>::empty(),
    }) + (match s.group_by {
        Some(g) => " GROUP BY "@ + g,
        None => Seq::<char>::empty(),
    }) + (match s.having {
        Some(h) => " HAVING "@ + render_expr(h),
        None => Seq::<char>::empty(),
    })
}

impl SqlText for Select {
    open spec fn sql_view(&self) -> Seq<char> {
        render_select(self@)
    }

    fn to_sql_string(&self) -> (r: String)
        ensures
            r@ == self.sql_view(),
    {
        let mut out = "SELECT ".to_owned();
        let p = join_comma_separated(&self.projection);
        out.append(p.as_str());
        out.append(" FROM ");
        let f = join_comma_separated(&self.from);
        out.append(f.as_str());
        match &self.selection {
            Some(e) => {
                out.append(" WHERE ");
                let es = e.to_string();
                out.append(es.as_str());
            },
            None => {},
        }
        match &self.group_by {
            Some(g) => {
                out.append(" GROUP BY ");
                out.append(g.as_str());
            },
            None => {},
        }
        match &self.having {
            Some(h) => {
                out.append(" HAVING ");
                let hs = h.to_string();
                out.append(hs.as_str());
            },
            None => {},
        }
        proof {
            assert(self.projection@.map_values(|t: SelectItem| t.sql_view()) =~= self@.projection.map_values(
                |it: SelectItem| render_select_item(it),
            ));
            assert(self.from@.map_values(|t: TableWithJoins| t.sql_view()) =~= self@.from.map_values(
                |t: TableWithJoinsView| render_table_with_joins(t),
            ));
            assert(out@ =~= render_select(self@));
        }
        out
    }
}

/// The body of a query: a SELECT, or a VALUES row list.
#[derive(Debug, PartialEq)]
pub enum SetExpr {
    Select(Box<Select>),
    Values(Values),
}

/// The mathematical model of a [`SetExpr`].
#[verifier::ext_equal]
pub enum SetExprView {
    Select(SelectView),
    Values(Seq<Seq<ExprView>>),
}

impl View for SetExpr {
    type V = SetExprView;

    open spec fn view(&self) -> SetExprView {
        match self {
            SetExpr::Select(s) => SetExprView::Select((**s)@),
            SetExpr::Values(v) => SetExprView::Values(v@),
        }
    }
}

/// The canonical SQL text of a query body.
pub open spec fn render_set_expr(b: SetExprView) -> Seq<char> {
    match b {
        SetExprView::Select(s) => render_select(s),
        SetExprView::Values(v) => render_values(v),
    }
}

impl SqlText for SetExpr {
    open spec fn sql_view(&self) -> Seq<char> {
        render_set_expr(self@)
    }

    fn to_sql_string(&self) -> (r: String)
        ensures
            r@ == self.sql_view(),
    {
        match self {
            SetExpr::Select(s) => s.to_sql_string(),
            SetExpr::Values(v) => v.to_sql_string(),
        }
    }
}

/// A full query statement: a body with optional ORDER BY and LIMIT.
#[derive(Debug, PartialEq)]
pub struct QueryStmt {
    pub body: SetExpr,
    pub order_by: Option<String>,
    pub limit: Option<i64>,
}

/// The mathematical model of a [`QueryStmt`].
#[verifier::ext_equal]
pub struct QueryStmtView {
    pub body: SetExprView,
    pub order_by: Option<Seq<char>>,
    pub limit: Option<i64>,
}

impl View for QueryStmt {
    type V = QueryStmtView;

    open spec fn view(&self) -> QueryStmtView {
        QueryStmtView {
            body: self.body@,
            order_by: match self.order_by {
                Some(s) => Some(s@),
                None => None,
            },
            limit: self.limit,
        }
    }
}

/// The canonical SQL text of a query statement: its body, then
/// ` ORDER BY <col>` and ` LIMIT <n>`, each only when present.
pub open spec fn render_query(q: QueryStmtView) -> Seq<char> {
    render_set_expr(q.body) + (match q.order_by {
        Some(ob) => " ORDER BY "@ + ob,
        None => Seq::<char>::empty(),
    }) + (match q.limit {
        Some(l) => " LIMIT "@ + dec_int(l as int),
        None => Seq::<char>::empty(),
    })
}

impl SqlText for QueryStmt {
    open spec fn sql_view(&self) -> Seq<char> {
        render_query(self@)
    }

    fn to_sql_string(&self) -> (r: String)
        ensures
            r@ == self.sql_view(),
    {
        let mut out = self.body.to_sql_string();
        match &self.order_by {
            Some(ob) => {
                out.append(" ORDER BY ");
                out.append(ob.as_str());
            },
            None => {},
        }
        match &self.limit {
            Some(l) => {
                out.append(" LIMIT ");
                let ls = i64_to_string(*l);
                out.append(ls.as_str());
            },
            None => {},
        }
        proof {
            assert(out@ =~= render_query(self@));
        }
        out
    }
}

impl Ident {
    /// An equal copy of this identifier.
    pub fn duplicate(&self) -> (r: Ident)
        ensures
            r == *self,
    {
        Ident { value: self.value.clone() }
    }
}

impl ObjectName {
    /// A copy of this object name with the same model.
    pub fn duplicate(&self) -> (r: ObjectName)
        ensures
            r@ == self@,
    {
        let mut parts: Vec<Ident> = Vec::new();
        let mut i: usize = 0;
        while i < self.0.len()
            invariant
                i <= self.0@.len(),
                parts@.len() == i,
                forall|k: int| 0 <= k < i ==> parts@[k] == self.0@[k],
            decreases self.0@.len() - i,
        {
            parts.push(self.0[i].duplicate());
            i += 1;
        }
        let r = ObjectName(parts);
        proof {
            assert(r@ =~= self@);
        }
        r
    }
}

/// An elementwise copy of an expression list, with the same models.
pub fn duplicate_exprs(list: &Vec<Expr>) -> (r: Vec<Expr>)
    ensures
        r@.len() == list@.len(),
        forall|k: int| 0 <= k < list@.len() ==> r@[k]@ == list@[k]@,
    decreases list,
{
    let mut elems: Vec<Expr> = Vec::new();
    let mut i: usize = 0;
    while i < list.len()
        invariant
            i <= list@.len(),
            elems@.len() == i,
            forall|k: int| 0 <= k < i ==> elems@[k]@ == list@[k]@,
        decreases list@.len() - i,
    {
        let e = list[i].duplicate();
        elems.push(e);
        i += 1;
    }
    elems
}

impl Expr {
    /// A copy of this expression with the same model.
    pub fn duplicate(&self) -> (r: Expr)
        ensures
            r@ == self@,
        decreases self,
    {
        match self {
            Expr::Value(v) => Expr::Value(v.duplicate()),
            Expr::Identifier(i) => Expr::Identifier(i.duplicate()),
            Expr::InList { expr, list, negated } => {
                let head = Box::new(expr.duplicate());
                let elems = duplicate_exprs(list);
                proof {
                    lemma_exprs_view_upto(elems, elems@.len() as int);
                    lemma_exprs_view_upto(*list, list@.len() as int);
                }
                let r = Expr::InList { expr: head, list: elems, negated: *negated };
                proof {
                    assert(exprs_view_upto(elems, elems@.len() as int) =~= exprs_view_upto(
                        *list,
                        list@.len() as int,
                    ));
                    assert(r@ =~= (*self)@);
                }
                r
            },
        }
    }
}

impl QueryStmt {
    /// Renders this query in its canonical SQL form.
    pub fn to_string(&self) -> (r: String)
        ensures
            r@ == render_query(self@),
    {
        self.to_sql_string()
    }
}

} // verus!
