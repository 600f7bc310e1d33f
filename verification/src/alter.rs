//! The operations of `ALTER TABLE`, each keeping constraints, relationships and
//! indexes in step with the columns.

use vstd::prelude::*;
use crate::analyzer::SQLAnalyzer;
use crate::ast::{
    AlterColumnOperation,
    AlterColumnOperationView,
    AlterTableOperation,
    AlterTableOperationView,
};
use crate::columns::column_of;
use crate::constraints::add_constraint;
use crate::lists::{push_item, retain_by, rewrite_by, rewrite_first, rewrite_first_by, take_all};
use crate::model::{
    ColumnInfo,
    ColumnView,
    ConstraintInfo,
    ConstraintView,
    IndexInfo,
    IndexView,
    ParsedSchema,
    Relationship,
    RelationshipView,
    SchemaView,
};
use crate::text::{chars_of, has_prefix, holds_text};

verus! {

/// Whether a constraint type is that of a foreign key, with or without actions.
pub open spec fn is_foreign_key_type(t: Seq<char>) -> bool {
    "FOREIGN KEY"@.is_prefix_of(t)
}

/// Whether a constraint type is that of a primary key.
pub open spec fn is_primary_key_type(t: Seq<char>) -> bool {
    t == "PRIMARY KEY"@
}

/// Whether a constraint type is of the kind asked for.
pub open spec fn is_key_type(t: Seq<char>, foreign: bool) -> bool {
    if foreign {
        is_foreign_key_type(t)
    } else {
        is_primary_key_type(t)
    }
}

/// Whether a key constraint of the kind asked for, on `table`, names `column`.
pub open spec fn key_names(
    cs: Seq<ConstraintView>,
    table: Seq<char>,
    column: Seq<char>,
    foreign: bool,
) -> bool {
    exists|i: int|
        0 <= i < cs.len() && cs[i].table == table && cs[i].columns.contains(column) && is_key_type(
            cs[i].constraint_type,
            foreign,
        )
}

/// A column of `table` after a constraint is gone, `cs` being those that are left:
/// it stays a foreign key only while a foreign key names it, and a primary key only
/// while a primary key names it.
pub open spec fn rederive_flags(col: ColumnView, cs: Seq<ConstraintView>, table: Seq<char>) -> ColumnView {
    let lost = col.references is Some && !key_names(cs, table, col.name, true);
    ColumnView {
        is_foreign_key: col.is_foreign_key && !lost,
        references: if lost {
            None
        } else {
            col.references
        },
        is_primary_key: col.is_primary_key && key_names(cs, table, col.name, false),
        ..col
    }
}

/// The constraints but the one on `table` called `name`.
pub open spec fn without_constraint(cs: Seq<ConstraintView>, table: Seq<char>, name: Seq<char>) -> Seq<
    ConstraintView,
> {
    cs.filter(|c: ConstraintView| !(c.table == table && c.name == name))
}

/// The column lists with that of `table`, if it is known, replaced by `columns`.
pub open spec fn with_columns(
    lists: Map<Seq<char>, Seq<ColumnView>>,
    table: Seq<char>,
    columns: Seq<ColumnView>,
) -> Map<Seq<char>, Seq<ColumnView>> {
    if lists.contains_key(table) {
        lists.insert(table, columns)
    } else {
        lists
    }
}

/// The schema after the constraint on `table` called `name` is dropped.
pub open spec fn drop_constraint(s: SchemaView, table: Seq<char>, name: Seq<char>) -> SchemaView {
    let left = without_constraint(s.constraints, table, name);
    SchemaView {
        constraints: left,
        columns: with_columns(
            s.columns,
            table,
            s.columns[table].map_values(|col: ColumnView| rederive_flags(col, left, table)),
        ),
        ..s
    }
}

/// The schema after a column is added to `table`.
pub open spec fn add_column(s: SchemaView, table: Seq<char>, col: ColumnView) -> SchemaView {
    SchemaView { columns: with_columns(s.columns, table, s.columns[table].push(col)), ..s }
}

/// The columns but those called `name`.
pub open spec fn without_column(cols: Seq<ColumnView>, name: Seq<char>) -> Seq<ColumnView> {
    cols.filter(|col: ColumnView| col.name != name)
}

/// The constraints but those on `table` that name `column`.
pub open spec fn constraints_without_column(
    cs: Seq<ConstraintView>,
    table: Seq<char>,
    column: Seq<char>,
) -> Seq<ConstraintView> {
    cs.filter(|c: ConstraintView| !(c.table == table && c.columns.contains(column)))
}

/// Whether a relationship starts or ends at `column` of `table`.
pub open spec fn touches_column(r: RelationshipView, table: Seq<char>, column: Seq<char>) -> bool {
    (r.from_table == table && r.from_column == column) || (r.to_table == table && r.to_column
        == column)
}

/// The relationships but those that start or end at `column` of `table`.
pub open spec fn relationships_without_column(
    rs: Seq<RelationshipView>,
    table: Seq<char>,
    column: Seq<char>,
) -> Seq<RelationshipView> {
    rs.filter(|r: RelationshipView| !touches_column(r, table, column))
}

/// The indexes but those on `table` that list `column`.
pub open spec fn indexes_without_column(
    is: Seq<IndexView>,
    table: Seq<char>,
    column: Seq<char>,
) -> Seq<IndexView> {
    is.filter(|i: IndexView| !(i.table == table && i.columns.contains(column)))
}

/// The schema after `column` of `table` is dropped.
pub open spec fn drop_column(s: SchemaView, table: Seq<char>, column: Seq<char>) -> SchemaView {
    SchemaView {
        columns: with_columns(s.columns, table, without_column(s.columns[table], column)),
        constraints: constraints_without_column(s.constraints, table, column),
        relationships: relationships_without_column(s.relationships, table, column),
        indexes: indexes_without_column(s.indexes, table, column),
        ..s
    }
}

/// A name after a renaming: the new name in place of the old, any other unchanged.
pub open spec fn renamed(name: Seq<char>, old_name: Seq<char>, new_name: Seq<char>) -> Seq<char> {
    if name == old_name {
        new_name
    } else {
        name
    }
}

/// A list of names after a renaming.
pub open spec fn renamed_all(names: Seq<Seq<char>>, old_name: Seq<char>, new_name: Seq<char>) -> Seq<
    Seq<char>,
> {
    names.map_values(|n: Seq<char>| renamed(n, old_name, new_name))
}

/// The columns with the first one called `old_name` renamed.
pub open spec fn rename_in_columns(
    cols: Seq<ColumnView>,
    old_name: Seq<char>,
    new_name: Seq<char>,
) -> Seq<ColumnView> {
    rewrite_first(
        cols,
        |col: ColumnView| col.name == old_name,
        |col: ColumnView| ColumnView { name: new_name, ..col },
    )
}

/// A constraint after a column of `table` is renamed.
pub open spec fn rename_in_constraint(
    c: ConstraintView,
    table: Seq<char>,
    old_name: Seq<char>,
    new_name: Seq<char>,
) -> ConstraintView {
    if c.table == table {
        ConstraintView { columns: renamed_all(c.columns, old_name, new_name), ..c }
    } else {
        c
    }
}

/// A relationship after a column of `table` is renamed.
pub open spec fn rename_in_relationship(
    r: RelationshipView,
    table: Seq<char>,
    old_name: Seq<char>,
    new_name: Seq<char>,
) -> RelationshipView {
    RelationshipView {
        from_column: if r.from_table == table {
            renamed(r.from_column, old_name, new_name)
        } else {
            r.from_column
        },
        to_column: if r.to_table == table {
            renamed(r.to_column, old_name, new_name)
        } else {
            r.to_column
        },
        ..r
    }
}

/// An index after a column of `table` is renamed.
pub open spec fn rename_in_index(
    i: IndexView,
    table: Seq<char>,
    old_name: Seq<char>,
    new_name: Seq<char>,
) -> IndexView {
    if i.table == table {
        IndexView { columns: renamed_all(i.columns, old_name, new_name), ..i }
    } else {
        i
    }
}

/// The schema after a column of `table` is renamed.
pub open spec fn rename_column(
    s: SchemaView,
    table: Seq<char>,
    old_name: Seq<char>,
    new_name: Seq<char>,
) -> SchemaView {
    SchemaView {
        columns: with_columns(
            s.columns,
            table,
            rename_in_columns(s.columns[table], old_name, new_name),
        ),
        constraints: s.constraints.map_values(
            |c: ConstraintView| rename_in_constraint(c, table, old_name, new_name),
        ),
        relationships: s.relationships.map_values(
            |r: RelationshipView| rename_in_relationship(r, table, old_name, new_name),
        ),
        indexes: s.indexes.map_values(|i: IndexView| rename_in_index(i, table, old_name, new_name)),
        ..s
    }
}

/// A column after a change to it.
pub open spec fn change_column(col: ColumnView, op: AlterColumnOperationView) -> ColumnView {
    match op {
        AlterColumnOperationView::SetNotNull => ColumnView { nullable: false, ..col },
        AlterColumnOperationView::DropNotNull => ColumnView { nullable: true, ..col },
        AlterColumnOperationView::SetDefault { value } => ColumnView {
            default_value: Some(value),
            ..col
        },
        AlterColumnOperationView::DropDefault => ColumnView { default_value: None, ..col },
        AlterColumnOperationView::Other => col,
    }
}

/// The columns with the first one called `name` changed.
pub open spec fn change_in_columns(
    cols: Seq<ColumnView>,
    name: Seq<char>,
    op: AlterColumnOperationView,
) -> Seq<ColumnView> {
    rewrite_first(
        cols,
        |col: ColumnView| col.name == name,
        |col: ColumnView| change_column(col, op),
    )
}

/// The schema after a column of `table` is changed.
pub open spec fn alter_column(
    s: SchemaView,
    table: Seq<char>,
    name: Seq<char>,
    op: AlterColumnOperationView,
) -> SchemaView {
    SchemaView {
        columns: with_columns(s.columns, table, change_in_columns(s.columns[table], name, op)),
        ..s
    }
}

/// Whether one of the columns is called `name`.
pub open spec fn has_column(cols: Seq<ColumnView>, name: Seq<char>) -> bool {
    exists|i: int| 0 <= i < cols.len() && (#[trigger] cols[i]).name == name
}

/// The schema after one operation on `table`. Where the schema holds no column
/// list under `table`, and where the operation drops or renames a column that the
/// list does not hold, nothing changes.
pub open spec fn apply_alter_op(s: SchemaView, table: Seq<char>, op: AlterTableOperationView) -> SchemaView {
    if !s.columns.contains_key(table) {
        s
    } else {
        match op {
            AlterTableOperationView::AddConstraint(c) => add_constraint(s, table, c),
            AlterTableOperationView::DropConstraint { name } => drop_constraint(s, table, name),
            AlterTableOperationView::AddColumn { column_def } => add_column(
                s,
                table,
                column_of(column_def),
            ),
            AlterTableOperationView::DropColumn { column_name } => if has_column(
                s.columns[table],
                column_name,
            ) {
                drop_column(s, table, column_name)
            } else {
                s
            },
            AlterTableOperationView::RenameColumn { old_column_name, new_column_name } => if has_column(
                s.columns[table],
                old_column_name,
            ) {
                rename_column(s, table, old_column_name, new_column_name)
            } else {
                s
            },
            AlterTableOperationView::AlterColumn { column_name, op } => alter_column(
                s,
                table,
                column_name,
                op,
            ),
            AlterTableOperationView::Other => s,
        }
    }
}

/// The schema after the operations on `table`, one after the other.
pub open spec fn apply_alter_ops(s: SchemaView, table: Seq<char>, ops: Seq<AlterTableOperationView>) -> SchemaView
    decreases ops.len(),
{
    if ops.len() == 0 {
        s
    } else {
        apply_alter_op(apply_alter_ops(s, table, ops.drop_last()), table, ops.last())
    }
}

fn is_key_text(t: &String, foreign: bool) -> (r: bool)
    ensures
        r == is_key_type(t@, foreign),
{
    if foreign {
        has_prefix(&chars_of(t.as_str()), &chars_of("FOREIGN KEY"))
    } else {
        "PRIMARY KEY".to_owned() == *t
    }
}

fn key_names_column(cs: &Vec<ConstraintInfo>, table: &String, column: &String, foreign: bool) -> (r: bool)
    ensures
        r == key_names(cs.deep_view(), table@, column@, foreign),
{
    let mut i: usize = 0;
    while i < cs.len()
        invariant
            i <= cs@.len(),
            forall|j: int|
                0 <= j < i ==> !(cs.deep_view()[j].table == table@ && cs.deep_view()[j].columns.contains(
                    column@,
                ) && is_key_type(cs.deep_view()[j].constraint_type, foreign)),
        decreases cs@.len() - i,
    {
        let c = &cs[i];
        assert(cs.deep_view()[i as int] == c.deep_view());
        if c.table == *table && holds_text(&c.columns, column) && is_key_text(
            &c.constraint_type,
            foreign,
        ) {
            return true;
        }
        i += 1;
    }
    false
}

fn rename_all(names: Vec<String>, old_name: &String, new_name: &String) -> (r: Vec<String>)
    ensures
        r.deep_view() == renamed_all(names.deep_view(), old_name@, new_name@),
{
    let change = |n: String| -> (r: String)
        ensures
            r@ == renamed(n@, old_name@, new_name@),
        {
            if n == *old_name {
                new_name.clone()
            } else {
                n
            }
        };
    rewrite_by(names, change, Ghost(|n: Seq<char>| renamed(n, old_name@, new_name@)))
}

fn drop_constraint_from(schema: &mut ParsedSchema, table: &String, name: &String)
    ensures
        final(schema).deep_view() == drop_constraint(old(schema).deep_view(), table@, name@),
{
    let ghost before = schema.columns.deep_view();
    let taken = take_all(&mut schema.constraints);
    let keep = |c: &ConstraintInfo| -> (b: bool)
        ensures
            b == !(c.table@ == table@ && c.name@ == name@),
        { !(c.table == *table && c.name == *name) };
    schema.constraints = retain_by(
        taken,
        keep,
        Ghost(|c: ConstraintView| !(c.table == table@ && c.name == name@)),
    );
    let ghost left = schema.constraints.deep_view();
    assert(left == without_constraint(old(schema).constraints.deep_view(), table@, name@));
    match schema.columns.take(table.as_str()) {
        Some(cols) => {
            let constraints = &schema.constraints;
            let fix = |col: ColumnInfo| -> (r: ColumnInfo)
                ensures
                    r.deep_view() == rederive_flags(col.deep_view(), constraints.deep_view(), table@),
                {
                    let lost = col.references.is_some() && !key_names_column(
                        constraints,
                        table,
                        &col.name,
                        true,
                    );
                    let primary = col.is_primary_key && key_names_column(
                        constraints,
                        table,
                        &col.name,
                        false,
                    );
                    if lost {
                        ColumnInfo {
                            is_foreign_key: false,
                            references: None,
                            is_primary_key: primary,
                            ..col
                        }
                    } else {
                        ColumnInfo { is_primary_key: primary, ..col }
                    }
                };
            let fixed = rewrite_by(cols, fix, Ghost(|col: ColumnView| rederive_flags(col, left, table@)));
            schema.columns.insert(table.clone(), fixed);
            assert(schema.columns.deep_view() =~= drop_constraint(
                old(schema).deep_view(),
                table@,
                name@,
            ).columns);
        },
        None => {
            assert(schema.columns.deep_view() =~= before);
        },
    }
}

fn add_column_to(schema: &mut ParsedSchema, table: &String, col: ColumnInfo)
    ensures
        final(schema).deep_view() == add_column(old(schema).deep_view(), table@, col.deep_view()),
{
    let ghost before = schema.columns.deep_view();
    match schema.columns.take(table.as_str()) {
        Some(cols) => {
            let mut cols = cols;
            push_item(&mut cols, col);
            schema.columns.insert(table.clone(), cols);
            assert(schema.columns.deep_view() =~= with_columns(
                before,
                table@,
                before[table@].push(col.deep_view()),
            ));
        },
        None => {
            assert(schema.columns.deep_view() =~= before);
        },
    }
}

fn drop_column_from(schema: &mut ParsedSchema, table: &String, column: &String)
    ensures
        final(schema).deep_view() == drop_column(old(schema).deep_view(), table@, column@),
{
    let ghost before = schema.columns.deep_view();
    match schema.columns.take(table.as_str()) {
        Some(cols) => {
            let keep = |col: &ColumnInfo| -> (b: bool)
                ensures
                    b == (col.name@ != column@),
                { col.name != *column };
            let kept = retain_by(cols, keep, Ghost(|col: ColumnView| col.name != column@));
            assert(kept.deep_view() == without_column(before[table@], column@));
            schema.columns.insert(table.clone(), kept);
            assert(schema.columns.deep_view() =~= with_columns(
                before,
                table@,
                without_column(before[table@], column@),
            ));
        },
        None => {
            assert(schema.columns.deep_view() =~= before);
        },
    }
    let constraints = take_all(&mut schema.constraints);
    let keep = |c: &ConstraintInfo| -> (b: bool)
        ensures
            b == !(c.table@ == table@ && c.columns.deep_view().contains(column@)),
        { !(c.table == *table && holds_text(&c.columns, column)) };
    schema.constraints = retain_by(
        constraints,
        keep,
        Ghost(|c: ConstraintView| !(c.table == table@ && c.columns.contains(column@))),
    );
    assert(schema.constraints.deep_view() == constraints_without_column(
        old(schema).constraints.deep_view(),
        table@,
        column@,
    ));
    let relationships = take_all(&mut schema.relationships);
    let keep = |r: &Relationship| -> (b: bool)
        ensures
            b == !touches_column(r.deep_view(), table@, column@),
        {
            !(r.from_table == *table && r.from_column == *column) && !(r.to_table == *table
                && r.to_column == *column)
        };
    schema.relationships = retain_by(
        relationships,
        keep,
        Ghost(|r: RelationshipView| !touches_column(r, table@, column@)),
    );
    assert(schema.relationships.deep_view() == relationships_without_column(
        old(schema).relationships.deep_view(),
        table@,
        column@,
    ));
    let indexes = take_all(&mut schema.indexes);
    let keep = |i: &IndexInfo| -> (b: bool)
        ensures
            b == !(i.table@ == table@ && i.columns.deep_view().contains(column@)),
        { !(i.table == *table && holds_text(&i.columns, column)) };
    schema.indexes = retain_by(
        indexes,
        keep,
        Ghost(|i: IndexView| !(i.table == table@ && i.columns.contains(column@))),
    );
    assert(schema.indexes.deep_view() == indexes_without_column(
        old(schema).indexes.deep_view(),
        table@,
        column@,
    ));
}

fn rename_column_in(schema: &mut ParsedSchema, table: &String, old_name: &String, new_name: &String)
    ensures
        final(schema).deep_view() == rename_column(
            old(schema).deep_view(),
            table@,
            old_name@,
            new_name@,
        ),
{
    let ghost before = schema.columns.deep_view();
    match schema.columns.take(table.as_str()) {
        Some(cols) => {
            let test = |col: &ColumnInfo| -> (b: bool)
                ensures
                    b == (col.name@ == old_name@),
                { col.name == *old_name };
            let change = |col: ColumnInfo| -> (r: ColumnInfo)
                ensures
                    r.deep_view() == (ColumnView { name: new_name@, ..col.deep_view() }),
                { ColumnInfo { name: new_name.clone(), ..col } };
            let changed = rewrite_first_by(
                cols,
                test,
                change,
                Ghost(|col: ColumnView| col.name == old_name@),
                Ghost(|col: ColumnView| ColumnView { name: new_name@, ..col }),
            );
            assert(changed.deep_view() == rename_in_columns(before[table@], old_name@, new_name@));
            schema.columns.insert(table.clone(), changed);
            assert(schema.columns.deep_view() =~= with_columns(
                before,
                table@,
                rename_in_columns(before[table@], old_name@, new_name@),
            ));
        },
        None => {
            assert(schema.columns.deep_view() =~= before);
        },
    }
    let constraints = take_all(&mut schema.constraints);
    let change = |c: ConstraintInfo| -> (r: ConstraintInfo)
        ensures
            r.deep_view() == rename_in_constraint(c.deep_view(), table@, old_name@, new_name@),
        {
            if c.table == *table {
                let mut c = c;
                c.columns = rename_all(take_all(&mut c.columns), old_name, new_name);
                c
            } else {
                c
            }
        };
    schema.constraints = rewrite_by(
        constraints,
        change,
        Ghost(|c: ConstraintView| rename_in_constraint(c, table@, old_name@, new_name@)),
    );
    let relationships = take_all(&mut schema.relationships);
    let change = |r: Relationship| -> (out: Relationship)
        ensures
            out.deep_view() == rename_in_relationship(r.deep_view(), table@, old_name@, new_name@),
        {
            let mut r = r;
            if r.from_table == *table && r.from_column == *old_name {
                r.from_column = new_name.clone();
            }
            if r.to_table == *table && r.to_column == *old_name {
                r.to_column = new_name.clone();
            }
            r
        };
    schema.relationships = rewrite_by(
        relationships,
        change,
        Ghost(|r: RelationshipView| rename_in_relationship(r, table@, old_name@, new_name@)),
    );
    let indexes = take_all(&mut schema.indexes);
    let change = |i: IndexInfo| -> (r: IndexInfo)
        ensures
            r.deep_view() == rename_in_index(i.deep_view(), table@, old_name@, new_name@),
        {
            if i.table == *table {
                let mut i = i;
                i.columns = rename_all(take_all(&mut i.columns), old_name, new_name);
                i
            } else {
                i
            }
        };
    schema.indexes = rewrite_by(
        indexes,
        change,
        Ghost(|i: IndexView| rename_in_index(i, table@, old_name@, new_name@)),
    );
}

fn alter_column_in(schema: &mut ParsedSchema, table: &String, name: &String, op: &AlterColumnOperation)
    ensures
        final(schema).deep_view() == alter_column(
            old(schema).deep_view(),
            table@,
            name@,
            op.deep_view(),
        ),
{
    let ghost before = schema.columns.deep_view();
    match schema.columns.take(table.as_str()) {
        Some(cols) => {
            let test = |col: &ColumnInfo| -> (b: bool)
                ensures
                    b == (col.name@ == name@),
                { col.name == *name };
            let change = |col: ColumnInfo| -> (r: ColumnInfo)
                ensures
                    r.deep_view() == change_column(col.deep_view(), op.deep_view()),
                {
                    match op {
                        AlterColumnOperation::SetNotNull => ColumnInfo { nullable: false, ..col },
                        AlterColumnOperation::DropNotNull => ColumnInfo { nullable: true, ..col },
                        AlterColumnOperation::SetDefault { value } => ColumnInfo {
                            default_value: Some(value.clone()),
                            ..col
                        },
                        AlterColumnOperation::DropDefault => ColumnInfo { default_value: None, ..col },
                        AlterColumnOperation::Other => col,
                    }
                };
            let changed = rewrite_first_by(
                cols,
                test,
                change,
                Ghost(|col: ColumnView| col.name == name@),
                Ghost(|col: ColumnView| change_column(col, op.deep_view())),
            );
            assert(changed.deep_view() == change_in_columns(before[table@], name@, op.deep_view()));
            schema.columns.insert(table.clone(), changed);
            assert(schema.columns.deep_view() =~= with_columns(
                before,
                table@,
                change_in_columns(before[table@], name@, op.deep_view()),
            ));
        },
        None => {
            assert(schema.columns.deep_view() =~= before);
        },
    }
}

fn knows_column(schema: &ParsedSchema, table: &str, column: &String) -> (r: bool)
    ensures
        r == (schema.columns.deep_view().contains_key(table@) && has_column(
            schema.columns.deep_view()[table@],
            column@,
        )),
{
    match schema.columns.get(table) {
        Some(cols) => {
            let mut i: usize = 0;
            while i < cols.len()
                invariant
                    i <= cols@.len(),
                    schema.columns.deep_view().contains_key(table@),
                    cols.deep_view() == schema.columns.deep_view()[table@],
                    forall|j: int| 0 <= j < i ==> (#[trigger] cols.deep_view()[j]).name != column@,
                decreases cols@.len() - i,
            {
                if cols[i].name == *column {
                    assert(cols.deep_view()[i as int].name == column@);
                    assert(has_column(cols.deep_view(), column@));
                    return true;
                }
                i += 1;
            }
            false
        },
        None => false,
    }
}

impl SQLAnalyzer {
    /// Applies one operation of an `ALTER TABLE` statement on the table `name`. An
    /// operation on a table whose column list the schema does not hold changes
    /// nothing, and neither does dropping or renaming a column that the list does
    /// not hold.
    pub fn apply_alter_operation(
        &self,
        name: &str,
        operation: &AlterTableOperation,
        schema: &mut ParsedSchema,
    )
        ensures
            final(schema).deep_view() == apply_alter_op(
                old(schema).deep_view(),
                name@,
                operation.deep_view(),
            ),
    {
        if !schema.columns.contains(name) {
            return ;
        }
        let table = name.to_owned();
        match operation {
            AlterTableOperation::AddConstraint(constraint) => {
                self.process_table_constraint(constraint, name, schema);
            },
            AlterTableOperation::DropConstraint { name } => {
                drop_constraint_from(schema, &table, name);
            },
            AlterTableOperation::AddColumn { column_def } => {
                let col = self.column_from_def(column_def);
                add_column_to(schema, &table, col);
            },
            AlterTableOperation::DropColumn { column_name } => {
                if knows_column(schema, name, column_name) {
                    drop_column_from(schema, &table, column_name);
                }
            },
            AlterTableOperation::RenameColumn { old_column_name, new_column_name } => {
                if knows_column(schema, name, old_column_name) {
                    rename_column_in(schema, &table, old_column_name, new_column_name);
                }
            },
            AlterTableOperation::AlterColumn { column_name, op } => {
                alter_column_in(schema, &table, column_name, op);
            },
            AlterTableOperation::Other => {},
        }
    }

    /// Applies the operations of an `ALTER TABLE` statement on the table `name`, in
    /// the order given. An operation on a table or a column that the schema does not
    /// know changes nothing.
    pub fn process_alter_table(
        &self,
        name: &str,
        operations: &[AlterTableOperation],
        schema: &mut ParsedSchema,
    )
        ensures
            final(schema).deep_view() == apply_alter_ops(
                old(schema).deep_view(),
                name@,
                operations.deep_view(),
            ),
    {
        let ghost ops = operations.deep_view();
        let mut i: usize = 0;
        while i < operations.len()
            invariant
                i <= operations@.len(),
                ops == operations.deep_view(),
                schema.deep_view() == apply_alter_ops(old(schema).deep_view(), name@, ops.take(i as int)),
            decreases operations@.len() - i,
        {
            proof {
                assert(ops.take(i + 1).drop_last() =~= ops.take(i as int));
            }
            self.apply_alter_operation(name, &operations[i], schema);
            i += 1;
        }
        assert(ops.take(ops.len() as int) =~= ops);
    }
}

} // verus!
