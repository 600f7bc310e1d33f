//! The effect of one statement on the schema.

use vstd::prelude::*;
use crate::alter::apply_alter_ops;
use crate::analyzer::SQLAnalyzer;
use crate::ast::{
    ColumnDef,
    ColumnDefView,
    ObjectType,
    Statement,
    StatementView,
    TableConstraint,
    TableConstraintView,
};
use crate::columns::{column_of, view_column};
use crate::constraints::{add_constraint, name_or};
use crate::lists::{push_item, retain_by, rewrite_by, rewrite_first, rewrite_first_by, take_all};
use crate::model::{
    ColumnInfo,
    ConstraintInfo,
    ConstraintView,
    IndexInfo,
    IndexView,
    ParsedSchema,
    Relationship,
    RelationshipView,
    SchemaView,
    TableInfo,
    TableView,
};
use crate::text::copy_texts;

verus! {

/// A table as it is first recorded: no schema, no row estimate.
pub open spec fn new_table(name: Seq<char>, table_type: Seq<char>) -> TableView {
    TableView { name, schema: None, table_type, estimated_rows: None }
}

/// The schema after the constraints on `table` are added, one after the other.
pub open spec fn add_constraints(s: SchemaView, table: Seq<char>, cs: Seq<TableConstraintView>) -> SchemaView
    decreases cs.len(),
{
    if cs.len() == 0 {
        s
    } else {
        add_constraint(add_constraints(s, table, cs.drop_last()), table, cs.last())
    }
}

/// The schema after a table is created: the table is added, its column list is
/// registered under its name in place of any earlier one, and its constraints are
/// added.
pub open spec fn create_table(
    s: SchemaView,
    name: Seq<char>,
    columns: Seq<ColumnDefView>,
    constraints: Seq<TableConstraintView>,
) -> SchemaView {
    add_constraints(
        SchemaView {
            tables: s.tables.push(new_table(name, "TABLE"@)),
            columns: s.columns.insert(name, columns.map_values(|d: ColumnDefView| column_of(d))),
            ..s
        },
        name,
        constraints,
    )
}

/// The record kept of an index.
pub open spec fn index_record(
    name: Option<Seq<char>>,
    table: Seq<char>,
    columns: Seq<Seq<char>>,
    unique: bool,
) -> IndexView {
    IndexView { name: name_or(name, "unnamed_index"@), table, columns, unique, index_type: "BTREE"@ }
}

/// The type text of a view.
pub open spec fn view_type(materialized: bool) -> Seq<char> {
    if materialized {
        "MATERIALIZED VIEW"@
    } else {
        "VIEW"@
    }
}

/// The schema after a view is created.
pub open spec fn create_view(
    s: SchemaView,
    name: Seq<char>,
    columns: Seq<Seq<char>>,
    materialized: bool,
) -> SchemaView {
    SchemaView {
        tables: s.tables.push(new_table(name, view_type(materialized))),
        columns: s.columns.insert(name, columns.map_values(|n: Seq<char>| view_column(n))),
        ..s
    }
}

/// The tables but those called `name`.
pub open spec fn tables_without(ts: Seq<TableView>, name: Seq<char>) -> Seq<TableView> {
    ts.filter(|t: TableView| t.name != name)
}

/// The relationships that neither start nor end at the table `name`.
pub open spec fn relationships_without(rs: Seq<RelationshipView>, name: Seq<char>) -> Seq<
    RelationshipView,
> {
    rs.filter(|r: RelationshipView| r.from_table != name && r.to_table != name)
}

/// The indexes but those on the table `name`.
pub open spec fn indexes_without(is: Seq<IndexView>, name: Seq<char>) -> Seq<IndexView> {
    is.filter(|i: IndexView| i.table != name)
}

/// The constraints but those on the table `name`.
pub open spec fn constraints_without(cs: Seq<ConstraintView>, name: Seq<char>) -> Seq<ConstraintView> {
    cs.filter(|c: ConstraintView| c.table != name)
}

/// The schema after the table `name` is dropped: the table, its column list, each
/// relationship from or to it, each index and each constraint on it are gone.
pub open spec fn drop_table(s: SchemaView, name: Seq<char>) -> SchemaView {
    SchemaView {
        tables: tables_without(s.tables, name),
        columns: s.columns.remove(name),
        relationships: relationships_without(s.relationships, name),
        indexes: indexes_without(s.indexes, name),
        constraints: constraints_without(s.constraints, name),
    }
}

/// The schema after the view `name` is dropped: the view and its column list are gone.
pub open spec fn drop_view(s: SchemaView, name: Seq<char>) -> SchemaView {
    SchemaView { tables: tables_without(s.tables, name), columns: s.columns.remove(name), ..s }
}

/// The schema after an object of the given kind is dropped.
pub open spec fn drop_object(s: SchemaView, object_type: ObjectType, name: Seq<char>) -> SchemaView {
    match object_type {
        ObjectType::Table => drop_table(s, name),
        ObjectType::View => drop_view(s, name),
        ObjectType::Other => s,
    }
}

/// The schema after the named objects are dropped, one after the other.
pub open spec fn drop_objects(s: SchemaView, object_type: ObjectType, names: Seq<Seq<char>>) -> SchemaView
    decreases names.len(),
{
    if names.len() == 0 {
        s
    } else {
        drop_object(drop_objects(s, object_type, names.drop_last()), object_type, names.last())
    }
}

/// The schema after the table `name` is truncated: the first table of that name is
/// estimated to hold no rows.
pub open spec fn truncate_table(s: SchemaView, name: Seq<char>) -> SchemaView {
    SchemaView {
        tables: rewrite_first(
            s.tables,
            |t: TableView| t.name == name,
            |t: TableView| TableView { estimated_rows: Some(0i64), ..t },
        ),
        ..s
    }
}

/// A table after a schema is created: it joins the schema unless it has one.
pub open spec fn join_schema(t: TableView, schema_name: Seq<char>) -> TableView {
    if t.schema is None {
        TableView { schema: Some(schema_name), ..t }
    } else {
        t
    }
}

/// The schema after a schema is created: each table without one joins it.
pub open spec fn create_schema(s: SchemaView, schema_name: Seq<char>) -> SchemaView {
    SchemaView { tables: s.tables.map_values(|t: TableView| join_schema(t, schema_name)), ..s }
}

/// The schema after one statement.
pub open spec fn apply_statement(s: SchemaView, statement: StatementView) -> SchemaView {
    match statement {
        StatementView::CreateTable { name, columns, constraints } => create_table(
            s,
            name,
            columns,
            constraints,
        ),
        StatementView::CreateIndex { name, table_name, columns, unique } => SchemaView {
            indexes: s.indexes.push(index_record(name, table_name, columns, unique)),
            ..s
        },
        StatementView::AlterTable { name, operations } => apply_alter_ops(s, name, operations),
        StatementView::CreateView { name, columns, materialized } => create_view(
            s,
            name,
            columns,
            materialized,
        ),
        StatementView::Drop { object_type, names } => drop_objects(s, object_type, names),
        StatementView::Truncate { table_name } => truncate_table(s, table_name),
        StatementView::CreateSchema { schema_name } => create_schema(s, schema_name),
        StatementView::Other => s,
    }
}

/// The schema after the statements, one after the other.
pub open spec fn apply_statements(s: SchemaView, statements: Seq<StatementView>) -> SchemaView
    decreases statements.len(),
{
    if statements.len() == 0 {
        s
    } else {
        apply_statement(apply_statements(s, statements.drop_last()), statements.last())
    }
}

fn view_columns(names: &Vec<String>) -> (r: Vec<ColumnInfo>)
    ensures
        r.deep_view() == names.deep_view().map_values(|n: Seq<char>| view_column(n)),
{
    let mut out: Vec<ColumnInfo> = Vec::new();
    let mut i: usize = 0;
    while i < names.len()
        invariant
            i <= names@.len(),
            out@.len() == i,
            forall|j: int| 0 <= j < i ==> out@[j].deep_view() == view_column(names@[j]@),
        decreases names@.len() - i,
    {
        out.push(
            ColumnInfo {
                name: names[i].clone(),
                data_type: "UNKNOWN".to_owned(),
                nullable: true,
                default_value: None,
                is_primary_key: false,
                is_foreign_key: false,
                references: None,
            },
        );
        i += 1;
    }
    assert(out.deep_view() =~= names.deep_view().map_values(|n: Seq<char>| view_column(n)));
    out
}

fn drop_named_table(schema: &mut ParsedSchema, name: &String)
    ensures
        final(schema).deep_view() == drop_view(old(schema).deep_view(), name@),
{
    let tables = take_all(&mut schema.tables);
    let keep = |t: &TableInfo| -> (b: bool)
        ensures
            b == (t.name@ != name@),
        { t.name != *name };
    schema.tables = retain_by(tables, keep, Ghost(|t: TableView| t.name != name@));
    assert(schema.tables.deep_view() == tables_without(old(schema).tables.deep_view(), name@));
    schema.columns.remove(name.as_str());
}

fn drop_table_parts(schema: &mut ParsedSchema, name: &String)
    ensures
        final(schema).deep_view() == (SchemaView {
            relationships: relationships_without(old(schema).relationships.deep_view(), name@),
            indexes: indexes_without(old(schema).indexes.deep_view(), name@),
            constraints: constraints_without(old(schema).constraints.deep_view(), name@),
            ..old(schema).deep_view()
        }),
{
    let relationships = take_all(&mut schema.relationships);
    let keep = |r: &Relationship| -> (b: bool)
        ensures
            b == (r.from_table@ != name@ && r.to_table@ != name@),
        { r.from_table != *name && r.to_table != *name };
    schema.relationships = retain_by(
        relationships,
        keep,
        Ghost(|r: RelationshipView| r.from_table != name@ && r.to_table != name@),
    );
    assert(schema.relationships.deep_view() == relationships_without(
        old(schema).relationships.deep_view(),
        name@,
    ));
    let indexes = take_all(&mut schema.indexes);
    let keep = |i: &IndexInfo| -> (b: bool)
        ensures
            b == (i.table@ != name@),
        { i.table != *name };
    schema.indexes = retain_by(indexes, keep, Ghost(|i: IndexView| i.table != name@));
    assert(schema.indexes.deep_view() == indexes_without(old(schema).indexes.deep_view(), name@));
    let constraints = take_all(&mut schema.constraints);
    let keep = |c: &ConstraintInfo| -> (b: bool)
        ensures
            b == (c.table@ != name@),
        { c.table != *name };
    schema.constraints = retain_by(constraints, keep, Ghost(|c: ConstraintView| c.table != name@));
    assert(schema.constraints.deep_view() == constraints_without(
        old(schema).constraints.deep_view(),
        name@,
    ));
}

impl SQLAnalyzer {
    fn create_table_in(
        &self,
        name: &String,
        columns: &Vec<ColumnDef>,
        constraints: &Vec<TableConstraint>,
        schema: &mut ParsedSchema,
    )
        ensures
            final(schema).deep_view() == create_table(
                old(schema).deep_view(),
                name@,
                columns.deep_view(),
                constraints.deep_view(),
            ),
    {
        push_item(
            &mut schema.tables,
            TableInfo {
                name: name.clone(),
                schema: None,
                table_type: "TABLE".to_owned(),
                estimated_rows: None,
            },
        );
        let mut cols: Vec<ColumnInfo> = Vec::new();
        let mut i: usize = 0;
        while i < columns.len()
            invariant
                i <= columns@.len(),
                cols@.len() == i,
                forall|j: int| 0 <= j < i ==> cols@[j].deep_view() == column_of(columns@[j].deep_view()),
            decreases columns@.len() - i,
        {
            cols.push(self.column_from_def(&columns[i]));
            i += 1;
        }
        assert(cols.deep_view() =~= columns.deep_view().map_values(|d: ColumnDefView| column_of(d)));
        schema.columns.insert(name.clone(), cols);
        let ghost base = schema.deep_view();
        let ghost cs = constraints.deep_view();
        let mut k: usize = 0;
        while k < constraints.len()
            invariant
                k <= constraints@.len(),
                cs == constraints.deep_view(),
                schema.deep_view() == add_constraints(base, name@, cs.take(k as int)),
            decreases constraints@.len() - k,
        {
            proof {
                assert(cs.take(k + 1).drop_last() =~= cs.take(k as int));
            }
            self.process_table_constraint(&constraints[k], name.as_str(), schema);
            k += 1;
        }
        assert(cs.take(cs.len() as int) =~= cs);
    }

    /// Applies one statement to the schema. A statement of a kind that the model does
    /// not follow leaves the schema as it is.
    pub fn process_statement(&self, statement: &Statement, schema: &mut ParsedSchema)
        ensures
            final(schema).deep_view() == apply_statement(
                old(schema).deep_view(),
                statement.deep_view(),
            ),
    {
        match statement {
            Statement::CreateTable { name, columns, constraints } => {
                self.create_table_in(name, columns, constraints, schema);
            },
            Statement::CreateIndex { name, table_name, columns, unique } => {
                let index_name = match name {
                    Some(name) => name.clone(),
                    None => "unnamed_index".to_owned(),
                };
                push_item(
                    &mut schema.indexes,
                    IndexInfo {
                        name: index_name,
                        table: table_name.clone(),
                        columns: copy_texts(columns),
                        unique: *unique,
                        index_type: "BTREE".to_owned(),
                    },
                );
            },
            Statement::AlterTable { name, operations } => {
                let ops = operations.as_slice();
                assert(ops.deep_view() =~= operations.deep_view());
                self.process_alter_table(name.as_str(), ops, schema);
            },
            Statement::CreateView { name, columns, materialized } => {
                let table_type = if *materialized {
                    "MATERIALIZED VIEW"
                } else {
                    "VIEW"
                };
                push_item(
                    &mut schema.tables,
                    TableInfo {
                        name: name.clone(),
                        schema: None,
                        table_type: table_type.to_owned(),
                        estimated_rows: None,
                    },
                );
                schema.columns.insert(name.clone(), view_columns(columns));
            },
            Statement::Drop { object_type, names } => {
                let ghost all = names.deep_view();
                let mut i: usize = 0;
                while i < names.len()
                    invariant
                        i <= names@.len(),
                        all == names.deep_view(),
                        schema.deep_view() == drop_objects(
                            old(schema).deep_view(),
                            *object_type,
                            all.take(i as int),
                        ),
                    decreases names@.len() - i,
                {
                    proof {
                        assert(all.take(i + 1).drop_last() =~= all.take(i as int));
                    }
                    match object_type {
                        ObjectType::Table => {
                            drop_named_table(schema, &names[i]);
                            drop_table_parts(schema, &names[i]);
                        },
                        ObjectType::View => {
                            drop_named_table(schema, &names[i]);
                        },
                        ObjectType::Other => {},
                    }
                    i += 1;
                }
                assert(all.take(all.len() as int) =~= all);
            },
            Statement::Truncate { table_name } => {
                let tables = take_all(&mut schema.tables);
                let test = |t: &TableInfo| -> (b: bool)
                    ensures
                        b == (t.name@ == table_name@),
                    { t.name == *table_name };
                let change = |t: TableInfo| -> (r: TableInfo)
                    ensures
                        r.deep_view() == (TableView { estimated_rows: Some(0i64), ..t.deep_view() }),
                    { TableInfo { estimated_rows: Some(0), ..t } };
                schema.tables = rewrite_first_by(
                    tables,
                    test,
                    change,
                    Ghost(|t: TableView| t.name == table_name@),
                    Ghost(|t: TableView| TableView { estimated_rows: Some(0i64), ..t }),
                );
            },
            Statement::CreateSchema { schema_name } => {
                let tables = take_all(&mut schema.tables);
                let change = |t: TableInfo| -> (r: TableInfo)
                    ensures
                        r.deep_view() == join_schema(t.deep_view(), schema_name@),
                    {
                        if t.schema.is_none() {
                            TableInfo { schema: Some(schema_name.clone()), ..t }
                        } else {
                            t
                        }
                    };
                schema.tables = rewrite_by(
                    tables,
                    change,
                    Ghost(|t: TableView| join_schema(t, schema_name@)),
                );
            },
            Statement::Other => {},
        }
    }

    /// Applies the statements to the schema, in the order given.
    pub fn process_statements(&self, statements: &Vec<Statement>, schema: &mut ParsedSchema)
        ensures
            final(schema).deep_view() == apply_statements(
                old(schema).deep_view(),
                statements.deep_view(),
            ),
    {
        let ghost all = statements.deep_view();
        let mut i: usize = 0;
        while i < statements.len()
            invariant
                i <= statements@.len(),
                all == statements.deep_view(),
                schema.deep_view() == apply_statements(old(schema).deep_view(), all.take(i as int)),
            decreases statements@.len() - i,
        {
            proof {
                assert(all.take(i + 1).drop_last() =~= all.take(i as int));
            }
            self.process_statement(&statements[i], schema);
            i += 1;
        }
        assert(all.take(all.len() as int) =~= all);
    }
}

} // verus!
