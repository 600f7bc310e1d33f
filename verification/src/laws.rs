//! What holds of the schema model whatever the input is.

use vstd::prelude::*;
use crate::alter::{
    apply_alter_op,
    apply_alter_ops,
    change_in_columns,
    has_column,
    rename_column,
    rename_in_columns,
    renamed_all,
    touches_column,
    without_column,
};
use crate::analyzer::{answers_segment, answers_to, apply_batches, batch_of, schema_of};
use crate::ast::{
    AlterTableOperationView,
    CharacterLength,
    ColumnDefView,
    DataType,
    DataTypeView,
    ObjectType,
    Statement,
    StatementView,
    TableConstraintView,
};
use crate::columns::column_of;
use crate::constraints::{add_constraint, constraint_record};
use crate::datatype::{
    canonical_type,
    length_text,
    precision_of,
    scale_of,
    unit_suffix,
    width_or,
};
use crate::infer::{
    first_primary_key,
    infer,
    inferred_for_column,
    inferred_for_columns,
    inferred_for_table,
    inferred_for_tables,
    inferred_target,
    names_match,
};
use crate::lists::is_first;
use crate::model::{
    empty_schema,
    ColumnView,
    ConstraintView,
    IndexView,
    RelationshipView,
    SchemaView,
    TableView,
};
use crate::splitter::{split_flush, split_scan, split_step, split_text, SplitState};
use crate::statement::{
    add_constraints,
    apply_statement,
    apply_statements,
    drop_objects,
    drop_table,
    index_record,
    new_table,
};
use crate::text::{decimal, has_id_suffix};

verus! {

/// Whether nothing of the schema belongs to the table `name`.
pub open spec fn nothing_of(s: SchemaView, name: Seq<char>) -> bool {
    &&& forall|i: int| 0 <= i < s.tables.len() ==> (#[trigger] s.tables[i]).name != name
    &&& !s.columns.contains_key(name)
    &&& forall|i: int|
        0 <= i < s.relationships.len() ==> (#[trigger] s.relationships[i]).from_table != name
            && s.relationships[i].to_table != name
    &&& forall|i: int| 0 <= i < s.indexes.len() ==> (#[trigger] s.indexes[i]).table != name
    &&& forall|i: int| 0 <= i < s.constraints.len() ==> (#[trigger] s.constraints[i]).table != name
}

/// A semicolon inside a quoted string or a quoted identifier, or behind a
/// backslash, ends no statement: the statements so far stay as they are, and the
/// semicolon is gathered.
pub proof fn semicolon_in_quotes_splits_nothing(s: SplitState)
    requires
        s.in_quote || s.in_identifier || s.escape,
    ensures
        split_step(s, ';').statements == s.statements,
        split_step(s, ';').current.len() > s.current.len(),
        split_step(s, ';').current.last() == ';',
        split_step(s, ';').in_quote == s.in_quote,
        split_step(s, ';').in_identifier == s.in_identifier,
{
}

proof fn lemma_scan_holds_no_empty_statement(text: Seq<char>)
    ensures
        forall|i: int|
            0 <= i < split_scan(text).statements.len() ==> (#[trigger] split_scan(
                text,
            ).statements[i]).len() > 0,
    decreases text.len(),
{
    if text.len() > 0 {
        lemma_scan_holds_no_empty_statement(text.drop_last());
        let before = split_scan(text.drop_last());
        let after = split_scan(text);
        assert forall|i: int| 0 <= i < after.statements.len() implies (#[trigger] after.statements[i]).len()
            > 0 by {
            if i < before.statements.len() {
                assert(after.statements[i] == before.statements[i]);
            }
        }
    }
}

/// No statement that the splitter gives is empty.
pub proof fn no_statement_is_empty(text: Seq<char>)
    ensures
        forall|i: int| 0 <= i < split_text(text).len() ==> (#[trigger] split_text(text)[i]).len() > 0,
{
    lemma_scan_holds_no_empty_statement(text);
    let scanned = split_scan(text);
    assert forall|i: int| 0 <= i < split_text(text).len() implies (#[trigger] split_text(text)[i]).len()
        > 0 by {
        if i < scanned.statements.len() {
            assert(split_flush(scanned)[i] == scanned.statements[i]);
        }
    }
}

/// The number of semicolons of a text that end a statement: those that stand
/// outside quoted strings and quoted identifiers and are not escaped.
pub open spec fn ending_semicolons(text: Seq<char>) -> nat
    decreases text.len(),
{
    if text.len() == 0 {
        0
    } else {
        let before = split_scan(text.drop_last());
        let here: nat = if text.last() == ';' && !before.escape && !before.in_quote
            && !before.in_identifier {
            1
        } else {
            0
        };
        ending_semicolons(text.drop_last()) + here
    }
}

proof fn lemma_scan_is_bounded_by_semicolons(text: Seq<char>)
    ensures
        split_scan(text).statements.len() <= ending_semicolons(text),
    decreases text.len(),
{
    if text.len() > 0 {
        lemma_scan_is_bounded_by_semicolons(text.drop_last());
    }
}

/// The splitter gives at most one statement for each semicolon that ends one, and
/// one more for what follows the last of them: a semicolon inside quotes or behind
/// a backslash adds none.
pub proof fn statements_are_bounded_by_semicolons(text: Seq<char>)
    ensures
        split_text(text).len() <= ending_semicolons(text) + 1,
{
    lemma_scan_is_bounded_by_semicolons(text);
}

/// Equal types have equal canonical names: two calls of the normalizer on types
/// with the same contents give the same text.
pub proof fn equal_types_have_equal_names(a: DataType, b: DataType, name_a: String, name_b: String)
    requires
        a.deep_view() == b.deep_view(),
        name_a@ == canonical_type(a.deep_view()),
        name_b@ == canonical_type(b.deep_view()),
    ensures
        name_a@ == name_b@,
{
}

/// A constraint without a name is recorded under the placeholder of its kind, and
/// an index without a name under `unnamed_index`; none of these is empty.
pub proof fn unnamed_entities_get_placeholders(
    table: Seq<char>,
    c: TableConstraintView,
    columns: Seq<Seq<char>>,
    unique: bool,
)
    ensures
        index_record(None, table, columns, unique).name == "unnamed_index"@,
        index_record(None, table, columns, unique).name.len() > 0,
        match c {
            TableConstraintView::ForeignKey { name, .. } => name is None ==> constraint_record(
                table,
                c,
            ).unwrap().name == "unnamed_fk"@,
            TableConstraintView::Unique { name, is_primary, .. } => name is None ==> constraint_record(
                table,
                c,
            ).unwrap().name == if is_primary {
                "unnamed_pk"@
            } else {
                "unnamed_unique"@
            },
            TableConstraintView::Check { name, .. } => name is None ==> constraint_record(
                table,
                c,
            ).unwrap().name == "unnamed_check"@,
            TableConstraintView::Other => constraint_record(table, c) is None,
        },
        "unnamed_fk"@.len() > 0,
        "unnamed_pk"@.len() > 0,
        "unnamed_unique"@.len() > 0,
        "unnamed_check"@.len() > 0,
{
    reveal_strlit("unnamed_index");
    reveal_strlit("unnamed_fk");
    reveal_strlit("unnamed_pk");
    reveal_strlit("unnamed_unique");
    reveal_strlit("unnamed_check");
}

/// After a table is dropped nothing of it is left: no table of that name, no column
/// list under it, no relationship from or to it, no index and no constraint on it.
pub proof fn drop_table_leaves_nothing(s: SchemaView, name: Seq<char>)
    ensures
        nothing_of(drop_table(s, name), name),
        apply_statement(s, StatementView::Drop { object_type: ObjectType::Table, names: seq![name] })
            == drop_table(s, name),
{
    let r = drop_table(s, name);
    assert forall|i: int| 0 <= i < r.tables.len() implies (#[trigger] r.tables[i]).name != name by {
        s.tables.lemma_filter_pred(|t: TableView| t.name != name, i);
    }
    assert forall|i: int| 0 <= i < r.relationships.len() implies (#[trigger] r.relationships[i]).from_table
        != name && r.relationships[i].to_table != name by {
        s.relationships.lemma_filter_pred(
            |x: RelationshipView| x.from_table != name && x.to_table != name,
            i,
        );
    }
    assert forall|i: int| 0 <= i < r.indexes.len() implies (#[trigger] r.indexes[i]).table != name by {
        s.indexes.lemma_filter_pred(|x: IndexView| x.table != name, i);
    }
    assert forall|i: int| 0 <= i < r.constraints.len() implies (#[trigger] r.constraints[i]).table
        != name by {
        s.constraints.lemma_filter_pred(|c: ConstraintView| c.table != name, i);
    }
    let names = seq![name];
    assert(names.drop_last() =~= Seq::<Seq<char>>::empty());
    assert(drop_objects(s, ObjectType::Table, names.drop_last()) == s);
    assert(names.last() == name);
}

/// An operation of `ALTER TABLE` on a table whose column list the schema does not
/// hold changes nothing.
pub proof fn alter_of_unknown_table_changes_nothing(
    s: SchemaView,
    name: Seq<char>,
    op: AlterTableOperationView,
)
    requires
        !s.columns.contains_key(name),
    ensures
        apply_alter_op(s, name, op) == s,
{
}

/// After a table is dropped, the operations of an `ALTER TABLE` on it change
/// nothing.
pub proof fn alter_after_drop_changes_nothing(
    s: SchemaView,
    name: Seq<char>,
    ops: Seq<AlterTableOperationView>,
)
    ensures
        apply_alter_ops(drop_table(s, name), name, ops) == drop_table(s, name),
    decreases ops.len(),
{
    if ops.len() > 0 {
        alter_after_drop_changes_nothing(s, name, ops.drop_last());
        alter_of_unknown_table_changes_nothing(drop_table(s, name), name, ops.last());
    }
}

/// Whether an operation names a column that the table's column list does not hold.
pub open spec fn names_unknown_column(
    s: SchemaView,
    table: Seq<char>,
    op: AlterTableOperationView,
) -> bool {
    match op {
        AlterTableOperationView::DropColumn { column_name } => !has_column(
            s.columns[table],
            column_name,
        ),
        AlterTableOperationView::RenameColumn { old_column_name, .. } => !has_column(
            s.columns[table],
            old_column_name,
        ),
        AlterTableOperationView::AlterColumn { column_name, .. } => !has_column(
            s.columns[table],
            column_name,
        ),
        _ => false,
    }
}

/// Dropping, renaming or changing a column that the table's column list does not
/// hold changes nothing.
pub proof fn alter_of_unknown_column_changes_nothing(
    s: SchemaView,
    table: Seq<char>,
    op: AlterTableOperationView,
)
    requires
        names_unknown_column(s, table, op),
    ensures
        apply_alter_op(s, table, op) == s,
{
    if s.columns.contains_key(table) {
        match op {
            AlterTableOperationView::AlterColumn { column_name, op: change } => {
                let cols = s.columns[table];
                let after = change_in_columns(cols, column_name, change);
                assert forall|i: int| 0 <= i < cols.len() implies after[i] == cols[i] by {
                    if cols[i].name == column_name {
                        assert(has_column(cols, column_name));
                    }
                }
                assert(after =~= cols);
                assert(s.columns.insert(table, after) =~= s.columns);
            },
            _ => {},
        }
    }
}

/// The operation that renames a column.
pub open spec fn rename_op(old_name: Seq<char>, new_name: Seq<char>) -> AlterTableOperationView {
    AlterTableOperationView::RenameColumn { old_column_name: old_name, new_column_name: new_name }
}

/// Whether at most one of the columns is called `name`.
pub open spec fn named_once(cols: Seq<ColumnView>, name: Seq<char>) -> bool {
    forall|i: int, j: int|
        0 <= i < cols.len() && 0 <= j < cols.len() && (#[trigger] cols[i]).name == name && (
        #[trigger] cols[j]).name == name ==> i == j
}

/// Whether no constraint, relationship or index of the schema speaks of `column`
/// of `table`.
pub open spec fn column_unmentioned(s: SchemaView, table: Seq<char>, column: Seq<char>) -> bool {
    &&& forall|i: int|
        0 <= i < s.constraints.len() && (#[trigger] s.constraints[i]).table == table
            ==> !s.constraints[i].columns.contains(column)
    &&& forall|i: int|
        0 <= i < s.relationships.len() ==> !touches_column(
            #[trigger] s.relationships[i],
            table,
            column,
        )
    &&& forall|i: int|
        0 <= i < s.indexes.len() && (#[trigger] s.indexes[i]).table == table
            ==> !s.indexes[i].columns.contains(column)
}

/// After a column that the table holds is renamed to another name, no constraint
/// or index on its table lists the old name, no relationship starts or ends at it, and what spoke of the old name
/// speaks of the new one at the same place. The column itself carries the new
/// name, and none carries the old one, where the old name was that of one column
/// only.
pub proof fn rename_leaves_no_old_name(
    s: SchemaView,
    table: Seq<char>,
    old_name: Seq<char>,
    new_name: Seq<char>,
)
    requires
        s.columns.contains_key(table),
        has_column(s.columns[table], old_name),
        old_name != new_name,
    ensures
        column_unmentioned(apply_alter_op(s, table, rename_op(old_name, new_name)), table, old_name),
        apply_alter_op(s, table, rename_op(old_name, new_name)).constraints.len() == s.constraints.len(),
        apply_alter_op(s, table, rename_op(old_name, new_name)).relationships.len() == s.relationships.len(),
        apply_alter_op(s, table, rename_op(old_name, new_name)).indexes.len() == s.indexes.len(),
        forall|i: int, j: int|
            0 <= i < s.constraints.len() && s.constraints[i].table == table && 0 <= j
                < s.constraints[i].columns.len() && #[trigger] s.constraints[i].columns[j] == old_name
                ==> apply_alter_op(s, table, rename_op(old_name, new_name)).constraints[i].columns[j] == new_name,
        forall|i: int, j: int|
            0 <= i < s.indexes.len() && s.indexes[i].table == table && 0 <= j
                < s.indexes[i].columns.len() && #[trigger] s.indexes[i].columns[j] == old_name
                ==> apply_alter_op(s, table, rename_op(old_name, new_name)).indexes[i].columns[j] == new_name,
        forall|i: int|
            0 <= i < s.relationships.len() && (#[trigger] s.relationships[i]).from_table == table
                && s.relationships[i].from_column == old_name ==> apply_alter_op(s, table, rename_op(old_name, new_name)).relationships[i].from_column == new_name,
        forall|i: int|
            0 <= i < s.relationships.len() && (#[trigger] s.relationships[i]).to_table == table
                && s.relationships[i].to_column == old_name ==> apply_alter_op(s, table, rename_op(old_name, new_name)).relationships[i].to_column == new_name,
        ({
            let before = s.columns[table];
            let after = apply_alter_op(s, table, rename_op(old_name, new_name)).columns[table];
            &&& after.len() == before.len()
            &&& forall|i: int|
                is_first(before, i, |col: ColumnView| col.name == old_name) ==> (#[trigger] after[i]).name
                    == new_name
            &&& named_once(before, old_name) ==> forall|i: int|
                0 <= i < after.len() ==> (#[trigger] after[i]).name != old_name
        }),
{
    let r = apply_alter_op(s, table, rename_op(old_name, new_name));
    assert(r == rename_column(s, table, old_name, new_name));
    assert forall|i: int|
        0 <= i < r.constraints.len() && (#[trigger] r.constraints[i]).table
            == table implies !r.constraints[i].columns.contains(old_name) by {
        let cols = s.constraints[i].columns;
        assert(r.constraints[i].columns == renamed_all(cols, old_name, new_name));
        assert forall|j: int| 0 <= j < cols.len() implies renamed_all(cols, old_name, new_name)[j]
            != old_name by {}
    }
    assert forall|i: int|
        0 <= i < r.indexes.len() && (#[trigger] r.indexes[i]).table == table implies !r.indexes[i].columns.contains(
        old_name,
    ) by {
        let cols = s.indexes[i].columns;
        assert(r.indexes[i].columns == renamed_all(cols, old_name, new_name));
        assert forall|j: int| 0 <= j < cols.len() implies renamed_all(cols, old_name, new_name)[j]
            != old_name by {}
    }
    if s.columns.contains_key(table) {
        let before = s.columns[table];
        let after = r.columns[table];
        assert(after == rename_in_columns(before, old_name, new_name));
        if named_once(before, old_name) {
            assert forall|i: int| 0 <= i < after.len() implies (#[trigger] after[i]).name
                != old_name by {
                if before[i].name == old_name && !is_first(
                    before,
                    i,
                    |col: ColumnView| col.name == old_name,
                ) {
                    let j = choose|j: int| 0 <= j < i && before[j].name == old_name;
                    assert(before[j].name == old_name);
                }
            }
        }
    }
}

/// Whether `r` is a relationship that the names in the schema suggest: it runs
/// from a column whose name ends in `_id` and that is not flagged as a foreign key,
/// to a primary key column of a table whose name fits what stands before the `_id`.
pub open spec fn is_suggested(s: SchemaView, r: RelationshipView) -> bool {
    &&& r.relationship_type == "INFERRED_FK"@
    &&& has_id_suffix(r.from_column)
    &&& s.columns.contains_key(r.from_table)
    &&& exists|i: int|
        0 <= i < s.columns[r.from_table].len() && (#[trigger] s.columns[r.from_table][i]).name
            == r.from_column && !s.columns[r.from_table][i].is_foreign_key
    &&& names_match(r.to_table, r.from_column.take(r.from_column.len() - 3))
    &&& exists|i: int| 0 <= i < s.tables.len() && (#[trigger] s.tables[i]).name == r.to_table
    &&& s.columns.contains_key(r.to_table)
    &&& exists|i: int|
        0 <= i < s.columns[r.to_table].len() && (#[trigger] s.columns[r.to_table][i]).name
            == r.to_column && s.columns[r.to_table][i].is_primary_key
}

proof fn lemma_first_primary_key(cols: Seq<ColumnView>)
    ensures
        match first_primary_key(cols) {
            Some(name) => exists|i: int|
                0 <= i < cols.len() && (#[trigger] cols[i]).name == name && cols[i].is_primary_key,
            None => forall|i: int| 0 <= i < cols.len() ==> !(#[trigger] cols[i]).is_primary_key,
        },
    decreases cols.len(),
{
    if cols.len() > 0 {
        lemma_first_primary_key(cols.drop_last());
        match first_primary_key(cols.drop_last()) {
            Some(name) => {
                let i = choose|i: int|
                    0 <= i < cols.drop_last().len() && (#[trigger] cols.drop_last()[i]).name == name
                        && cols.drop_last()[i].is_primary_key;
                assert(cols[i].name == name && cols[i].is_primary_key);
            },
            None => {
                if cols.last().is_primary_key {
                    assert(cols[cols.len() - 1].name == cols.last().name);
                } else {
                    assert forall|i: int| 0 <= i < cols.len() implies !(#[trigger] cols[i]).is_primary_key by {
                        if i < cols.len() - 1 {
                            assert(!cols.drop_last()[i].is_primary_key);
                        }
                    }
                }
            },
        }
    }
}

proof fn lemma_inferred_target(s: SchemaView, tables: Seq<TableView>, base: Seq<char>)
    ensures
        match inferred_target(s, tables, base) {
            Some((table, key)) => {
                &&& names_match(table, base)
                &&& exists|i: int| 0 <= i < tables.len() && (#[trigger] tables[i]).name == table
                &&& s.columns.contains_key(table)
                &&& exists|i: int|
                    0 <= i < s.columns[table].len() && (#[trigger] s.columns[table][i]).name == key
                        && s.columns[table][i].is_primary_key
            },
            None => forall|i: int|
                0 <= i < tables.len() && names_match((#[trigger] tables[i]).name, base)
                    && s.columns.contains_key(tables[i].name) ==> first_primary_key(
                    s.columns[tables[i].name],
                ) is None,
        },
    decreases tables.len(),
{
    if tables.len() > 0 {
        lemma_inferred_target(s, tables.drop_last(), base);
        match inferred_target(s, tables.drop_last(), base) {
            Some((table, key)) => {
                let i = choose|i: int|
                    0 <= i < tables.drop_last().len() && (#[trigger] tables.drop_last()[i]).name
                        == table;
                assert(tables[i].name == table);
            },
            None => {
                let last = tables.last().name;
                if names_match(last, base) && s.columns.contains_key(last) {
                    lemma_first_primary_key(s.columns[last]);
                }
                if inferred_target(s, tables, base) is Some {
                    assert(tables[tables.len() - 1].name == last);
                } else {
                    assert forall|i: int|
                        0 <= i < tables.len() && names_match((#[trigger] tables[i]).name, base)
                            && s.columns.contains_key(tables[i].name) implies first_primary_key(
                        s.columns[tables[i].name],
                    ) is None by {
                        if i < tables.len() - 1 {
                            assert(tables.drop_last()[i] == tables[i]);
                        }
                    }
                }
            },
        }
    }
}

proof fn lemma_inferred_for_columns(s: SchemaView, table: Seq<char>, cols: Seq<ColumnView>, k: int)
    requires
        s.columns.contains_key(table),
        0 <= k <= s.columns[table].len(),
        cols == s.columns[table].take(k),
    ensures
        forall|i: int|
            0 <= i < inferred_for_columns(s, table, cols).len() ==> is_suggested(
                s,
                #[trigger] inferred_for_columns(s, table, cols)[i],
            ),
    decreases k,
{
    if k > 0 {
        let all = s.columns[table];
        assert(cols.drop_last() =~= all.take(k - 1));
        lemma_inferred_for_columns(s, table, cols.drop_last(), k - 1);
        let col = cols.last();
        assert(col == all[k - 1]);
        let more = inferred_for_column(s, table, col);
        if more.len() > 0 {
            lemma_inferred_target(s, s.tables, col.name.take(col.name.len() - 3));
            assert(is_suggested(s, more[0]));
        }
        let before = inferred_for_columns(s, table, cols.drop_last());
        let both = inferred_for_columns(s, table, cols);
        assert forall|i: int| 0 <= i < both.len() implies is_suggested(s, #[trigger] both[i]) by {
            if i < before.len() {
                assert(both[i] == before[i]);
            } else {
                assert(both[i] == more[i - before.len()]);
            }
        }
    }
}

proof fn lemma_inferred_for_tables(s: SchemaView, tables: Seq<TableView>)
    ensures
        forall|i: int|
            0 <= i < inferred_for_tables(s, tables).len() ==> is_suggested(
                s,
                #[trigger] inferred_for_tables(s, tables)[i],
            ),
    decreases tables.len(),
{
    if tables.len() > 0 {
        lemma_inferred_for_tables(s, tables.drop_last());
        let table = tables.last().name;
        if s.columns.contains_key(table) {
            let cols = s.columns[table];
            assert(cols.take(cols.len() as int) =~= cols);
            lemma_inferred_for_columns(s, table, cols, cols.len() as int);
        }
        let before = inferred_for_tables(s, tables.drop_last());
        let more = inferred_for_table(s, table);
        let both = inferred_for_tables(s, tables);
        assert forall|i: int| 0 <= i < both.len() implies is_suggested(s, #[trigger] both[i]) by {
            if i < before.len() {
                assert(both[i] == before[i]);
            } else {
                assert(both[i] == more[i - before.len()]);
            }
        }
    }
}

/// Inference only adds relationships, behind those that the schema had, and each
/// one it adds is suggested by the names in the schema. Tables, columns, indexes
/// and constraints stay as they are: no column is flagged.
pub proof fn inference_only_adds_suggested_relationships(s: SchemaView)
    ensures
        infer(s).tables == s.tables,
        infer(s).columns == s.columns,
        infer(s).indexes == s.indexes,
        infer(s).constraints == s.constraints,
        infer(s).relationships.len() >= s.relationships.len(),
        infer(s).relationships.take(s.relationships.len() as int) == s.relationships,
        forall|i: int|
            s.relationships.len() <= i < infer(s).relationships.len() ==> is_suggested(
                s,
                #[trigger] infer(s).relationships[i],
            ),
{
    lemma_inferred_for_tables(s, s.tables);
    let added = inferred_for_tables(s, s.tables);
    assert((s.relationships + added).take(s.relationships.len() as int) =~= s.relationships);
    assert forall|i: int| s.relationships.len() <= i < infer(s).relationships.len() implies is_suggested(
        s,
        #[trigger] infer(s).relationships[i],
    ) by {
        assert(infer(s).relationships[i] == added[i - s.relationships.len()]);
    }
}

/// A column that is flagged as a foreign key, or whose name does not end in `_id`,
/// or for which no table fits, gets no inferred relationship.
pub proof fn no_inference_without_cause(s: SchemaView, table: Seq<char>, col: ColumnView)
    requires
        col.is_foreign_key || !has_id_suffix(col.name) || forall|i: int|
            0 <= i < s.tables.len() ==> !names_match(
                (#[trigger] s.tables[i]).name,
                col.name.take(col.name.len() - 3),
            ),
    ensures
        inferred_for_column(s, table, col).len() == 0,
{
    if !col.is_foreign_key && has_id_suffix(col.name) {
        lemma_inferred_target(s, s.tables, col.name.take(col.name.len() - 3));
    }
}

/// Whether a column that holds a reference is flagged as a foreign key.
pub open spec fn reference_is_flagged(col: ColumnView) -> bool {
    col.references is Some ==> col.is_foreign_key
}

/// Whether each column that holds a reference is flagged as a foreign key.
pub open spec fn references_are_flagged(s: SchemaView) -> bool {
    forall|table: Seq<char>, i: int|
        s.columns.contains_key(table) && 0 <= i < s.columns[table].len() ==> reference_is_flagged(
            #[trigger] s.columns[table][i],
        )
}

proof fn lemma_constraint_keeps_references_flagged(
    s: SchemaView,
    table: Seq<char>,
    c: TableConstraintView,
)
    requires
        references_are_flagged(s),
    ensures
        references_are_flagged(add_constraint(s, table, c)),
{
    let r = add_constraint(s, table, c);
    assert forall|t: Seq<char>, i: int|
        r.columns.contains_key(t) && 0 <= i < r.columns[t].len() implies reference_is_flagged(#[trigger] r.columns[t][i]) by {
        if s.columns.contains_key(t) {
            let before = s.columns[t][i];
            assert(reference_is_flagged(before));
        }
    }
}

proof fn lemma_constraints_keep_references_flagged(
    s: SchemaView,
    table: Seq<char>,
    cs: Seq<TableConstraintView>,
)
    requires
        references_are_flagged(s),
    ensures
        references_are_flagged(add_constraints(s, table, cs)),
    decreases cs.len(),
{
    if cs.len() > 0 {
        lemma_constraints_keep_references_flagged(s, table, cs.drop_last());
        lemma_constraint_keeps_references_flagged(
            add_constraints(s, table, cs.drop_last()),
            table,
            cs.last(),
        );
    }
}

proof fn lemma_alter_keeps_references_flagged(
    s: SchemaView,
    table: Seq<char>,
    op: AlterTableOperationView,
)
    requires
        references_are_flagged(s),
    ensures
        references_are_flagged(apply_alter_op(s, table, op)),
{
    let r = apply_alter_op(s, table, op);
    if r == s {
        return ;
    }
    match op {
        AlterTableOperationView::AddConstraint(c) => {
            lemma_constraint_keeps_references_flagged(s, table, c);
        },
        _ => {
            assert forall|t: Seq<char>, i: int|
                r.columns.contains_key(t) && 0 <= i < r.columns[t].len() implies reference_is_flagged(#[trigger] r.columns[t][i]) by {
                assert(s.columns.contains_key(t));
                if t == table {
                    let before = s.columns[t];
                    let after = r.columns[t];
                    match op {
                        AlterTableOperationView::DropColumn { column_name } => {
                            assert(after == without_column(before, column_name));
                            assert(after.contains(after[i]));
                            before.lemma_filter_contains_rev(
                                |col: ColumnView| col.name != column_name,
                                after[i],
                            );
                            let j = choose|j: int| 0 <= j < before.len() && before[j] == after[i];
                            assert(reference_is_flagged(before[j]));
                        },
                        AlterTableOperationView::AddColumn { column_def } => {
                            if i < before.len() {
                                assert(reference_is_flagged(before[i]));
                            }
                        },
                        _ => {
                            assert(reference_is_flagged(before[i]));
                        },
                    }
                } else {
                    let same = s.columns[t][i];
                    assert(reference_is_flagged(same));
                }
            }
        },
    }
}

proof fn lemma_alters_keep_references_flagged(
    s: SchemaView,
    table: Seq<char>,
    ops: Seq<AlterTableOperationView>,
)
    requires
        references_are_flagged(s),
    ensures
        references_are_flagged(apply_alter_ops(s, table, ops)),
    decreases ops.len(),
{
    if ops.len() > 0 {
        lemma_alters_keep_references_flagged(s, table, ops.drop_last());
        lemma_alter_keeps_references_flagged(
            apply_alter_ops(s, table, ops.drop_last()),
            table,
            ops.last(),
        );
    }
}

proof fn lemma_drops_keep_references_flagged(
    s: SchemaView,
    object_type: ObjectType,
    names: Seq<Seq<char>>,
)
    requires
        references_are_flagged(s),
    ensures
        references_are_flagged(drop_objects(s, object_type, names)),
    decreases names.len(),
{
    if names.len() > 0 {
        lemma_drops_keep_references_flagged(s, object_type, names.drop_last());
        let before = drop_objects(s, object_type, names.drop_last());
        let r = drop_objects(s, object_type, names);
        assert forall|t: Seq<char>, i: int|
            r.columns.contains_key(t) && 0 <= i < r.columns[t].len() implies reference_is_flagged(#[trigger] r.columns[t][i]) by {
            let same = before.columns[t][i];
            assert(reference_is_flagged(same));
        }
    }
}

/// After a statement, each column that holds a reference is still flagged as a
/// foreign key.
pub proof fn statement_keeps_references_flagged(s: SchemaView, statement: StatementView)
    requires
        references_are_flagged(s),
    ensures
        references_are_flagged(apply_statement(s, statement)),
{
    let r = apply_statement(s, statement);
    match statement {
        StatementView::CreateTable { name, columns, constraints } => {
            let base = SchemaView {
                tables: s.tables.push(new_table(name, "TABLE"@)),
                columns: s.columns.insert(
                    name,
                    columns.map_values(|d: ColumnDefView| column_of(d)),
                ),
                ..s
            };
            assert forall|t: Seq<char>, i: int|
                base.columns.contains_key(t) && 0 <= i < base.columns[t].len() implies reference_is_flagged(#[trigger] base.columns[t][i]) by {
                if t != name {
                    let same = s.columns[t][i];
                    assert(reference_is_flagged(same));
                }
            }
            lemma_constraints_keep_references_flagged(base, name, constraints);
        },
        StatementView::AlterTable { name, operations } => {
            lemma_alters_keep_references_flagged(s, name, operations);
        },
        StatementView::CreateView { name, columns, materialized } => {
            assert forall|t: Seq<char>, i: int|
                r.columns.contains_key(t) && 0 <= i < r.columns[t].len() implies reference_is_flagged(#[trigger] r.columns[t][i]) by {
                if t != name {
                    let same = s.columns[t][i];
                    assert(reference_is_flagged(same));
                }
            }
        },
        StatementView::Drop { object_type, names } => {
            lemma_drops_keep_references_flagged(s, object_type, names);
        },
        _ => {
            assert(r.columns == s.columns);
        },
    }
}

proof fn lemma_statements_keep_references_flagged(s: SchemaView, statements: Seq<StatementView>)
    requires
        references_are_flagged(s),
    ensures
        references_are_flagged(apply_statements(s, statements)),
    decreases statements.len(),
{
    if statements.len() > 0 {
        lemma_statements_keep_references_flagged(s, statements.drop_last());
        statement_keeps_references_flagged(
            apply_statements(s, statements.drop_last()),
            statements.last(),
        );
    }
}

proof fn lemma_batches_keep_references_flagged(s: SchemaView, batches: Seq<Seq<StatementView>>)
    requires
        references_are_flagged(s),
    ensures
        references_are_flagged(apply_batches(s, batches)),
    decreases batches.len(),
{
    if batches.len() > 0 {
        lemma_batches_keep_references_flagged(s, batches.drop_last());
        lemma_statements_keep_references_flagged(
            apply_batches(s, batches.drop_last()),
            batches.last(),
        );
    }
}

/// In the schema that a body of SQL gives, whatever the grammar answers, each
/// column that holds a reference is flagged as a foreign key.
pub proof fn analysis_keeps_references_flagged(answers: Seq<Option<Vec<Statement>>>)
    ensures
        references_are_flagged(schema_of(answers)),
{
    lemma_batches_keep_references_flagged(
        empty_schema(),
        answers.map_values(|a: Option<Vec<Statement>>| batch_of(a)),
    );
}

/// The schema that a body of SQL gives under a grammar that is a function: `g`
/// gives the statements of each segment, none for a segment that it rejects.
pub open spec fn schema_of_text(sql: Seq<char>, g: spec_fn(Seq<char>) -> Seq<StatementView>) -> SchemaView {
    infer(apply_batches(empty_schema(), split_text(sql).map_values(g)))
}

/// Where the grammar's answer to a text is a function of the text, the schema
/// that a body of SQL gives is fixed by the text alone.
pub proof fn grammar_as_function_fixes_schema<G: Fn(&str) -> Option<Vec<Statement>>>(
    grammar: G,
    g: spec_fn(Seq<char>) -> Seq<StatementView>,
    sql: Seq<char>,
    answers: Seq<Option<Vec<Statement>>>,
)
    requires
        forall|text: &str, answer: Option<Vec<Statement>>| #[trigger]
            grammar.ensures((text,), answer) ==> batch_of(answer) == g(text@),
        answers_to(grammar, split_text(sql), answers),
    ensures
        schema_of(answers) == schema_of_text(sql, g),
{
    let segments = split_text(sql);
    let batches = answers.map_values(|a: Option<Vec<Statement>>| batch_of(a));
    assert forall|i: int| 0 <= i < batches.len() implies batches[i] == segments.map_values(g)[i] by {
        assert(answers_segment(grammar, segments[i], answers[i]));
    }
    assert(batches =~= segments.map_values(g));
}

/// Whether a character may stand in the canonical name of a type: an upper-case
/// letter, a digit, a parenthesis, a comma or a space.
pub open spec fn is_type_name_char(c: char) -> bool {
    ('A' <= c && c <= 'Z') || ('0' <= c && c <= '9') || c == '(' || c == ')' || c == ',' || c == ' '
}

/// Whether a text is made of the characters of canonical type names.
pub open spec fn is_type_name_text(s: Seq<char>) -> bool {
    forall|i: int| 0 <= i < s.len() ==> is_type_name_char(#[trigger] s[i])
}

/// The keyword with which the canonical name of a type begins.
pub open spec fn type_keyword(t: DataTypeView) -> Seq<char> {
    match t {
        DataTypeView::Char(_) => "CHAR"@,
        DataTypeView::Varchar(_) => "VARCHAR"@,
        DataTypeView::Text => "TEXT"@,
        DataTypeView::Int(_) => "INT"@,
        DataTypeView::BigInt(_) => "BIGINT"@,
        DataTypeView::SmallInt(_) => "SMALLINT"@,
        DataTypeView::Float(_) => "FLOAT"@,
        DataTypeView::Double => "DOUBLE"@,
        DataTypeView::Decimal(_) => "DECIMAL"@,
        DataTypeView::Boolean => "BOOLEAN"@,
        DataTypeView::Date => "DATE"@,
        DataTypeView::Time(_, _) => "TIME"@,
        DataTypeView::Timestamp(_, _) => "TIMESTAMP"@,
        DataTypeView::Datetime(_) => "DATETIME"@,
        DataTypeView::JSON => "JSON"@,
        DataTypeView::Uuid => "UUID"@,
        DataTypeView::Other => "UNKNOWN"@,
    }
}

proof fn lemma_decimal_is_type_name_text(n: nat)
    ensures
        is_type_name_text(decimal(n)),
        decimal(n).len() > 0,
    decreases n,
{
    if n >= 10 {
        lemma_decimal_is_type_name_text(n / 10);
    }
}

proof fn lemma_keyword_is_type_name_text(t: DataTypeView)
    ensures
        is_type_name_text(type_keyword(t)),
        type_keyword(t).len() > 0,
{
    reveal_strlit("CHAR");
    reveal_strlit("VARCHAR");
    reveal_strlit("TEXT");
    reveal_strlit("INT");
    reveal_strlit("BIGINT");
    reveal_strlit("SMALLINT");
    reveal_strlit("FLOAT");
    reveal_strlit("DOUBLE");
    reveal_strlit("DECIMAL");
    reveal_strlit("BOOLEAN");
    reveal_strlit("DATE");
    reveal_strlit("TIME");
    reveal_strlit("TIMESTAMP");
    reveal_strlit("DATETIME");
    reveal_strlit("JSON");
    reveal_strlit("UUID");
    reveal_strlit("UNKNOWN");
}

proof fn lemma_length_is_type_name_text(length: CharacterLength)
    ensures
        is_type_name_text(length_text(length)),
{
    reveal_strlit(" CHARACTERS");
    reveal_strlit(" OCTETS");
    reveal_strlit("MAX");
    match length {
        CharacterLength::IntegerLength { length, unit } => {
            lemma_decimal_is_type_name_text(length as nat);
            assert(is_type_name_text(unit_suffix(unit)));
        },
        CharacterLength::Max => {},
    }
}

/// The canonical name of a type begins with the type's keyword, and holds nothing
/// but upper-case letters, digits, parentheses, commas and spaces: no lower-case
/// letter stands in it.
pub proof fn canonical_type_is_upper_case(t: DataTypeView)
    ensures
        type_keyword(t).len() > 0,
        type_keyword(t).is_prefix_of(canonical_type(t)),
        is_type_name_text(canonical_type(t)),
{
    lemma_keyword_is_type_name_text(t);
    let keyword = type_keyword(t);
    let name = canonical_type(t);
    reveal_strlit(" WITH TIME ZONE");
    match t {
        DataTypeView::Char(Some(length)) => {
            lemma_length_is_type_name_text(length);
        },
        DataTypeView::Varchar(Some(length)) => {
            lemma_length_is_type_name_text(length);
        },
        DataTypeView::Int(n) => {
            lemma_decimal_is_type_name_text(width_or(n, 11));
        },
        DataTypeView::BigInt(n) => {
            lemma_decimal_is_type_name_text(width_or(n, 20));
        },
        DataTypeView::SmallInt(n) => {
            lemma_decimal_is_type_name_text(width_or(n, 6));
        },
        DataTypeView::Float(n) => {
            lemma_decimal_is_type_name_text(width_or(n, 24));
        },
        DataTypeView::Decimal(info) => {
            lemma_decimal_is_type_name_text(precision_of(info));
            lemma_decimal_is_type_name_text(scale_of(info));
        },
        DataTypeView::Time(Some(n), _) => {
            lemma_decimal_is_type_name_text(n as nat);
        },
        DataTypeView::Timestamp(Some(n), _) => {
            lemma_decimal_is_type_name_text(n as nat);
        },
        DataTypeView::Datetime(Some(n)) => {
            lemma_decimal_is_type_name_text(n as nat);
        },
        _ => {},
    }
    assert(keyword =~= name.subrange(0, keyword.len() as int));
}

} // verus!
