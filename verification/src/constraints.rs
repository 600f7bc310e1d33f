//! Table constraints: the record kept of each, the relationships that a foreign
//! key gives, and the key flags of the columns it names.

use vstd::prelude::*;
use vstd::string::*;
use crate::analyzer::SQLAnalyzer;
use crate::ast::{Expr, ExprView, TableConstraint, TableConstraintView};
use crate::lists::{append_items, push_item, rewrite_by};
use crate::model::{
    ColumnInfo,
    ColumnView,
    ConstraintInfo,
    ConstraintView,
    ParsedSchema,
    Relationship,
    RelationshipView,
    SchemaView,
};
use crate::text::{copy_texts, holds_text};

verus! {

/// The name given, or the placeholder where none is given.
pub open spec fn name_or(name: Option<Seq<char>>, placeholder: Seq<char>) -> Seq<char> {
    match name {
        Some(name) => name,
        None => placeholder,
    }
}

/// The clause for a referential action, empty where none is given.
pub open spec fn action_clause(lead: Seq<char>, action: Option<Seq<char>>) -> Seq<char> {
    match action {
        Some(action) => lead + action,
        None => Seq::empty(),
    }
}

/// The type text of a foreign key: the keyword, then the actions that are given.
pub open spec fn foreign_key_type(on_delete: Option<Seq<char>>, on_update: Option<Seq<char>>) -> Seq<
    char,
> {
    "FOREIGN KEY"@ + action_clause(" ON DELETE "@, on_delete) + action_clause(
        " ON UPDATE "@,
        on_update,
    )
}

/// The column names found in an expression: identifiers, the last part of qualified
/// names, and what the operands of binary operators and expressions in parentheses
/// give, from left to right. Function calls give none.
pub open spec fn expr_columns(e: ExprView) -> Seq<Seq<char>>
    decreases e,
{
    match e {
        ExprView::Identifier(name) => seq![name],
        ExprView::CompoundIdentifier(parts) => if parts.len() > 0 {
            seq![parts.last()]
        } else {
            Seq::empty()
        },
        ExprView::BinaryOp { left, right } => expr_columns(*left) + expr_columns(*right),
        ExprView::Nested(inner) => expr_columns(*inner),
        ExprView::Function => Seq::empty(),
        ExprView::Other => Seq::empty(),
    }
}

/// The record kept of a constraint on `table`; none for a constraint of another kind.
pub open spec fn constraint_record(table: Seq<char>, c: TableConstraintView) -> Option<
    ConstraintView,
> {
    match c {
        TableConstraintView::ForeignKey {
            name,
            columns,
            foreign_table,
            referred_columns,
            on_delete,
            on_update,
        } => Some(
            ConstraintView {
                name: name_or(name, "unnamed_fk"@),
                table,
                constraint_type: foreign_key_type(on_delete, on_update),
                columns,
                reference_table: Some(foreign_table),
                reference_columns: Some(referred_columns),
            },
        ),
        TableConstraintView::Unique { name, columns, is_primary } => Some(
            ConstraintView {
                name: name_or(
                    name,
                    if is_primary {
                        "unnamed_pk"@
                    } else {
                        "unnamed_unique"@
                    },
                ),
                table,
                constraint_type: if is_primary {
                    "PRIMARY KEY"@
                } else {
                    "UNIQUE"@
                },
                columns,
                reference_table: None,
                reference_columns: None,
            },
        ),
        TableConstraintView::Check { name, expr } => Some(
            ConstraintView {
                name: name_or(name, "unnamed_check"@),
                table,
                constraint_type: "CHECK"@,
                columns: expr_columns(expr),
                reference_table: None,
                reference_columns: None,
            },
        ),
        TableConstraintView::Other => None,
    }
}

/// The first `n` pairs of a local column and the referenced column at the same place,
/// each as a relationship from `table` to `foreign_table`.
pub open spec fn paired_relationships(
    table: Seq<char>,
    columns: Seq<Seq<char>>,
    foreign_table: Seq<char>,
    referred_columns: Seq<Seq<char>>,
    n: nat,
) -> Seq<RelationshipView> {
    Seq::new(
        n,
        |i: int|
            RelationshipView {
                from_table: table,
                from_column: columns[i],
                to_table: foreign_table,
                to_column: referred_columns[i],
                relationship_type: "FOREIGN_KEY"@,
            },
    )
}

/// The smaller of two lengths.
pub open spec fn shorter(a: nat, b: nat) -> nat {
    if a <= b {
        a
    } else {
        b
    }
}

/// The relationships that a constraint on `table` gives: for a foreign key one for
/// each place that both column lists have, for any other constraint none.
pub open spec fn constraint_relationships(table: Seq<char>, c: TableConstraintView) -> Seq<
    RelationshipView,
> {
    match c {
        TableConstraintView::ForeignKey {
            columns,
            foreign_table,
            referred_columns,
            ..
        } => paired_relationships(
            table,
            columns,
            foreign_table,
            referred_columns,
            shorter(columns.len(), referred_columns.len()),
        ),
        _ => Seq::empty(),
    }
}

/// What a column flagged by a foreign key points at: the foreign table, a dot, and
/// the first referenced column, or nothing after the dot where none is listed.
pub open spec fn reference_text(foreign_table: Seq<char>, referred_columns: Seq<Seq<char>>) -> Seq<
    char,
> {
    foreign_table + seq!['.'] + if referred_columns.len() > 0 {
        referred_columns[0]
    } else {
        Seq::empty()
    }
}

/// Whether a constraint sets a key flag on the columns that it names.
pub open spec fn flags_columns(c: TableConstraintView) -> bool {
    match c {
        TableConstraintView::ForeignKey { .. } => true,
        TableConstraintView::Unique { is_primary, .. } => is_primary,
        _ => false,
    }
}

/// A column after a constraint on its table: a foreign key flags each column that
/// it names and points it at the first referenced column, a primary key flags each
/// column that it names.
pub open spec fn flag_column(col: ColumnView, c: TableConstraintView) -> ColumnView {
    match c {
        TableConstraintView::ForeignKey { columns, foreign_table, referred_columns, .. } => {
            if columns.contains(col.name) {
                ColumnView {
                    is_foreign_key: true,
                    references: Some(reference_text(foreign_table, referred_columns)),
                    ..col
                }
            } else {
                col
            }
        },
        TableConstraintView::Unique { columns, is_primary, .. } => {
            if is_primary && columns.contains(col.name) {
                ColumnView { is_primary_key: true, ..col }
            } else {
                col
            }
        },
        _ => col,
    }
}

/// The column lists after a constraint on `table`.
pub open spec fn flag_columns(
    columns: Map<Seq<char>, Seq<ColumnView>>,
    table: Seq<char>,
    c: TableConstraintView,
) -> Map<Seq<char>, Seq<ColumnView>> {
    if flags_columns(c) && columns.contains_key(table) {
        columns.insert(table, columns[table].map_values(|col: ColumnView| flag_column(col, c)))
    } else {
        columns
    }
}

/// The schema after a constraint on `table` is added.
pub open spec fn add_constraint(s: SchemaView, table: Seq<char>, c: TableConstraintView) -> SchemaView {
    SchemaView {
        constraints: match constraint_record(table, c) {
            Some(record) => s.constraints.push(record),
            None => s.constraints,
        },
        relationships: s.relationships + constraint_relationships(table, c),
        columns: flag_columns(s.columns, table, c),
        ..s
    }
}

fn name_or_placeholder(name: &Option<String>, placeholder: &str) -> (r: String)
    ensures
        r@ == name_or(name.deep_view(), placeholder@),
{
    match name {
        Some(name) => name.clone(),
        None => placeholder.to_owned(),
    }
}

fn push_action(out: &mut String, lead: &str, action: &Option<String>)
    ensures
        final(out)@ == old(out)@ + action_clause(lead@, action.deep_view()),
{
    match action {
        Some(action) => {
            out.append(lead);
            out.append(action.as_str());
            assert(out@ =~= old(out)@ + (lead@ + action@));
        },
        None => {
            assert(out@ =~= old(out)@ + Seq::<char>::empty());
        },
    }
}

fn pair_columns(
    table: &str,
    columns: &Vec<String>,
    foreign_table: &String,
    referred_columns: &Vec<String>,
) -> (r: Vec<Relationship>)
    ensures
        r.deep_view() == paired_relationships(
            table@,
            columns.deep_view(),
            foreign_table@,
            referred_columns.deep_view(),
            shorter(columns@.len(), referred_columns@.len()),
        ),
{
    let n = if columns.len() <= referred_columns.len() {
        columns.len()
    } else {
        referred_columns.len()
    };
    let mut out: Vec<Relationship> = Vec::new();
    let mut i: usize = 0;
    while i < n
        invariant
            i <= n,
            n == shorter(columns@.len(), referred_columns@.len()),
            out.deep_view() == paired_relationships(
                table@,
                columns.deep_view(),
                foreign_table@,
                referred_columns.deep_view(),
                i as nat,
            ),
        decreases n - i,
    {
        push_item(
            &mut out,
            Relationship {
                from_table: table.to_owned(),
                from_column: columns[i].clone(),
                to_table: foreign_table.clone(),
                to_column: referred_columns[i].clone(),
                relationship_type: "FOREIGN_KEY".to_owned(),
            },
        );
        i += 1;
        assert(out.deep_view() =~= paired_relationships(
            table@,
            columns.deep_view(),
            foreign_table@,
            referred_columns.deep_view(),
            i as nat,
        ));
    }
    out
}

fn reference_of(foreign_table: &String, referred_columns: &Vec<String>) -> (r: String)
    ensures
        r@ == reference_text(foreign_table@, referred_columns.deep_view()),
{
    let mut out = foreign_table.clone();
    out.push('.');
    if referred_columns.len() > 0 {
        out.append(referred_columns[0].as_str());
    }
    assert(out@ =~= reference_text(foreign_table@, referred_columns.deep_view()));
    out
}

impl SQLAnalyzer {
    /// The column names found in an expression, or `None` where it holds none.
    pub fn extract_columns_from_expr(&self, expr: &Expr) -> (r: Option<Vec<String>>)
        ensures
            match r {
                Some(cols) => cols.deep_view() == expr_columns(expr.deep_view()) && cols@.len() > 0,
                None => expr_columns(expr.deep_view()).len() == 0,
            },
        decreases expr,
    {
        let mut columns: Vec<String> = Vec::new();
        assert(columns.deep_view() =~= Seq::empty());
        match expr {
            Expr::Identifier(name) => {
                columns.push(name.clone());
                assert(columns.deep_view() =~= seq![name@]);
            },
            Expr::CompoundIdentifier(parts) => {
                if parts.len() > 0 {
                    columns.push(parts[parts.len() - 1].clone());
                    assert(columns.deep_view() =~= seq![parts.deep_view().last()]);
                }
            },
            Expr::BinaryOp { left, right } => {
                if let Some(found) = self.extract_columns_from_expr(left) {
                    append_items(&mut columns, found);
                }
                let ghost from_left = columns.deep_view();
                assert(from_left =~= expr_columns(left.deep_view()));
                if let Some(found) = self.extract_columns_from_expr(right) {
                    append_items(&mut columns, found);
                }
                assert(columns.deep_view() =~= from_left + expr_columns(right.deep_view()));
            },
            Expr::Nested(inner) => {
                if let Some(found) = self.extract_columns_from_expr(inner) {
                    append_items(&mut columns, found);
                }
                assert(columns.deep_view() =~= expr_columns(inner.deep_view()));
            },
            Expr::Function => {},
            Expr::Other => {},
        }
        if columns.len() > 0 {
            Some(columns)
        } else {
            None
        }
    }

    /// Adds a constraint on `table_name` to the schema: its record, for a foreign key
    /// the relationships of its column pairs, and the key flags of the columns that it
    /// names, where the table's column list is known.
    pub fn process_table_constraint(
        &self,
        constraint: &TableConstraint,
        table_name: &str,
        schema: &mut ParsedSchema,
    )
        ensures
            final(schema).deep_view() == add_constraint(
                old(schema).deep_view(),
                table_name@,
                constraint.deep_view(),
            ),
    {
        let ghost c = constraint.deep_view();
        let ghost before = schema.columns.deep_view();
        match constraint {
            TableConstraint::ForeignKey {
                name,
                columns,
                foreign_table,
                referred_columns,
                on_delete,
                on_update,
            } => {
                let mut constraint_type = "FOREIGN KEY".to_owned();
                push_action(&mut constraint_type, " ON DELETE ", on_delete);
                push_action(&mut constraint_type, " ON UPDATE ", on_update);
                push_item(
                    &mut schema.constraints,
                    ConstraintInfo {
                        name: name_or_placeholder(name, "unnamed_fk"),
                        table: table_name.to_owned(),
                        constraint_type,
                        columns: copy_texts(columns),
                        reference_table: Some(foreign_table.clone()),
                        reference_columns: Some(copy_texts(referred_columns)),
                    },
                );
                let pairs = pair_columns(table_name, columns, foreign_table, referred_columns);
                append_items(&mut schema.relationships, pairs);
                match schema.columns.take(table_name) {
                    Some(cols) => {
                        let reference = reference_of(foreign_table, referred_columns);
                        let mark = |col: ColumnInfo| -> (r: ColumnInfo)
                            ensures
                                r.deep_view() == flag_column(col.deep_view(), constraint.deep_view()),
                            {
                                if holds_text(columns, &col.name) {
                                    ColumnInfo {
                                        is_foreign_key: true,
                                        references: Some(reference.clone()),
                                        ..col
                                    }
                                } else {
                                    col
                                }
                            };
                        let marked = rewrite_by(cols, mark, Ghost(|col: ColumnView| flag_column(col, c)));
                        schema.columns.insert(table_name.to_owned(), marked);
                        assert(schema.columns.deep_view() =~= flag_columns(before, table_name@, c));
                    },
                    None => {
                        assert(schema.columns.deep_view() =~= before);
                    },
                }
            },
            TableConstraint::Unique { name, columns, is_primary } => {
                let placeholder = if *is_primary {
                    "unnamed_pk"
                } else {
                    "unnamed_unique"
                };
                let constraint_type = if *is_primary {
                    "PRIMARY KEY"
                } else {
                    "UNIQUE"
                };
                push_item(
                    &mut schema.constraints,
                    ConstraintInfo {
                        name: name_or_placeholder(name, placeholder),
                        table: table_name.to_owned(),
                        constraint_type: constraint_type.to_owned(),
                        columns: copy_texts(columns),
                        reference_table: None,
                        reference_columns: None,
                    },
                );
                assert(schema.relationships.deep_view() =~= old(schema).relationships.deep_view()
                    + constraint_relationships(table_name@, c));
                if *is_primary {
                    match schema.columns.take(table_name) {
                        Some(cols) => {
                            let mark = |col: ColumnInfo| -> (r: ColumnInfo)
                                ensures
                                    r.deep_view() == flag_column(col.deep_view(), constraint.deep_view()),
                                {
                                    if holds_text(columns, &col.name) {
                                        ColumnInfo { is_primary_key: true, ..col }
                                    } else {
                                        col
                                    }
                                };
                            let marked = rewrite_by(
                                cols,
                                mark,
                                Ghost(|col: ColumnView| flag_column(col, c)),
                            );
                            schema.columns.insert(table_name.to_owned(), marked);
                            assert(schema.columns.deep_view() =~= flag_columns(before, table_name@, c));
                        },
                        None => {
                            assert(schema.columns.deep_view() =~= before);
                        },
                    }
                }
            },
            TableConstraint::Check { name, expr } => {
                let columns = match self.extract_columns_from_expr(expr) {
                    Some(found) => found,
                    None => Vec::new(),
                };
                assert(columns.deep_view() =~= expr_columns(expr.deep_view()));
                push_item(
                    &mut schema.constraints,
                    ConstraintInfo {
                        name: name_or_placeholder(name, "unnamed_check"),
                        table: table_name.to_owned(),
                        constraint_type: "CHECK".to_owned(),
                        columns,
                        reference_table: None,
                        reference_columns: None,
                    },
                );
                assert(schema.relationships.deep_view() =~= old(schema).relationships.deep_view()
                    + constraint_relationships(table_name@, c));
            },
            TableConstraint::Other => {
                assert(schema.relationships.deep_view() =~= old(schema).relationships.deep_view()
                    + constraint_relationships(table_name@, c));
            },
        }
    }
}

} // verus!
