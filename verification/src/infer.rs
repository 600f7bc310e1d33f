//! Relationships inferred from the names of columns.

use vstd::prelude::*;
use crate::analyzer::SQLAnalyzer;
use crate::lists::{append_items, push_item};
use crate::model::{
    ColumnInfo,
    ColumnView,
    ParsedSchema,
    Relationship,
    RelationshipView,
    SchemaView,
    TableView,
};
use crate::text::{has_id_suffix, lowercase, strip_id_suffix};

verus! {

/// Whether the name of a table fits the name that a column points at: in lower
/// case they are the same, or the table's name has one more `s` or `es`.
pub open spec fn names_match(target: Seq<char>, base: Seq<char>) -> bool {
    let t = lowercase(target);
    let b = lowercase(base);
    t == b || t == b.push('s') || t == b.push('e').push('s')
}

/// The name of the first column that is flagged as a primary key.
pub open spec fn first_primary_key(cols: Seq<ColumnView>) -> Option<Seq<char>>
    decreases cols.len(),
{
    if cols.len() == 0 {
        None
    } else {
        match first_primary_key(cols.drop_last()) {
            Some(name) => Some(name),
            None => if cols.last().is_primary_key {
                Some(cols.last().name)
            } else {
                None
            },
        }
    }
}

/// The primary key column of the table `target`, if the table's name fits `base`
/// and its column list is known.
pub open spec fn target_key(s: SchemaView, target: Seq<char>, base: Seq<char>) -> Option<Seq<char>> {
    if names_match(target, base) && s.columns.contains_key(target) {
        first_primary_key(s.columns[target])
    } else {
        None
    }
}

/// The first of `tables` whose name fits `base` and that has a primary key, with
/// the name of that key column.
pub open spec fn inferred_target(s: SchemaView, tables: Seq<TableView>, base: Seq<char>) -> Option<
    (Seq<char>, Seq<char>),
>
    decreases tables.len(),
{
    if tables.len() == 0 {
        None
    } else {
        match inferred_target(s, tables.drop_last(), base) {
            Some(found) => Some(found),
            None => match target_key(s, tables.last().name, base) {
                Some(key) => Some((tables.last().name, key)),
                None => None,
            },
        }
    }
}

/// The relationship inferred for a column of `table`: one, if its name ends in
/// `_id`, it is not a foreign key, and a table fits what stands before the `_id`;
/// none otherwise.
pub open spec fn inferred_for_column(s: SchemaView, table: Seq<char>, col: ColumnView) -> Seq<
    RelationshipView,
> {
    if has_id_suffix(col.name) && !col.is_foreign_key {
        match inferred_target(s, s.tables, col.name.take(col.name.len() - 3)) {
            Some((to_table, to_column)) => seq![
                RelationshipView {
                    from_table: table,
                    from_column: col.name,
                    to_table,
                    to_column,
                    relationship_type: "INFERRED_FK"@,
                },
            ],
            None => Seq::empty(),
        }
    } else {
        Seq::empty()
    }
}

/// The relationships inferred for some columns of `table`, in their order.
pub open spec fn inferred_for_columns(s: SchemaView, table: Seq<char>, cols: Seq<ColumnView>) -> Seq<
    RelationshipView,
>
    decreases cols.len(),
{
    if cols.len() == 0 {
        Seq::empty()
    } else {
        inferred_for_columns(s, table, cols.drop_last()) + inferred_for_column(s, table, cols.last())
    }
}

/// The relationships inferred for the columns of `table`, none if its column list
/// is not known.
pub open spec fn inferred_for_table(s: SchemaView, table: Seq<char>) -> Seq<RelationshipView> {
    if s.columns.contains_key(table) {
        inferred_for_columns(s, table, s.columns[table])
    } else {
        Seq::empty()
    }
}

/// The relationships inferred for some tables, in their order.
pub open spec fn inferred_for_tables(s: SchemaView, tables: Seq<TableView>) -> Seq<RelationshipView>
    decreases tables.len(),
{
    if tables.len() == 0 {
        Seq::empty()
    } else {
        inferred_for_tables(s, tables.drop_last()) + inferred_for_table(s, tables.last().name)
    }
}

/// The schema after inference: the inferred relationships follow those it had.
/// Nothing else changes; no column is flagged.
pub open spec fn infer(s: SchemaView) -> SchemaView {
    SchemaView { relationships: s.relationships + inferred_for_tables(s, s.tables), ..s }
}

fn primary_key_of(cols: &Vec<ColumnInfo>) -> (r: Option<String>)
    ensures
        r.deep_view() == first_primary_key(cols.deep_view()),
{
    let ghost all = cols.deep_view();
    let mut found: Option<String> = None;
    let mut i: usize = 0;
    while i < cols.len()
        invariant
            i <= cols@.len(),
            all == cols.deep_view(),
            found.deep_view() == first_primary_key(all.take(i as int)),
        decreases cols@.len() - i,
    {
        proof {
            assert(all.take(i + 1).drop_last() =~= all.take(i as int));
            assert(all[i as int] == cols@[i as int].deep_view());
        }
        if found.is_none() && cols[i].is_primary_key {
            found = Some(cols[i].name.clone());
        }
        i += 1;
    }
    assert(all.take(all.len() as int) =~= all);
    found
}

fn find_target(schema: &ParsedSchema, base: &String) -> (r: Option<(String, String)>)
    ensures
        r.deep_view() == inferred_target(schema.deep_view(), schema.tables.deep_view(), base@),
{
    let ghost s = schema.deep_view();
    let ghost tables = schema.tables.deep_view();
    let lower = base.as_str().to_lowercase();
    let mut plural = lower.clone();
    plural.push('s');
    let mut long_plural = lower.clone();
    long_plural.push('e');
    long_plural.push('s');
    let mut found: Option<(String, String)> = None;
    let mut i: usize = 0;
    while i < schema.tables.len()
        invariant
            i <= schema.tables@.len(),
            s == schema.deep_view(),
            tables == schema.tables.deep_view(),
            lower@ == lowercase(base@),
            plural@ == lowercase(base@).push('s'),
            long_plural@ == lowercase(base@).push('e').push('s'),
            found.deep_view() == inferred_target(s, tables.take(i as int), base@),
        decreases schema.tables@.len() - i,
    {
        proof {
            assert(tables.take(i + 1).drop_last() =~= tables.take(i as int));
            assert(tables[i as int] == schema.tables@[i as int].deep_view());
        }
        if found.is_none() {
            let target = &schema.tables[i].name;
            let name = target.as_str().to_lowercase();
            if name == lower || name == plural || name == long_plural {
                if let Some(cols) = schema.columns.get(target.as_str()) {
                    if let Some(key) = primary_key_of(cols) {
                        found = Some((target.clone(), key));
                    }
                }
            }
        }
        i += 1;
    }
    assert(tables.take(tables.len() as int) =~= tables);
    found
}

fn infer_for_columns(schema: &ParsedSchema, table: &String, cols: &Vec<ColumnInfo>) -> (r: Vec<
    Relationship,
>)
    ensures
        r.deep_view() == inferred_for_columns(schema.deep_view(), table@, cols.deep_view()),
{
    let ghost s = schema.deep_view();
    let ghost all = cols.deep_view();
    let mut out: Vec<Relationship> = Vec::new();
    assert(out.deep_view() =~= Seq::empty());
    let mut i: usize = 0;
    while i < cols.len()
        invariant
            i <= cols@.len(),
            s == schema.deep_view(),
            all == cols.deep_view(),
            out.deep_view() == inferred_for_columns(s, table@, all.take(i as int)),
        decreases cols@.len() - i,
    {
        let ghost before = out.deep_view();
        proof {
            assert(all.take(i + 1).drop_last() =~= all.take(i as int));
            assert(all[i as int] == cols@[i as int].deep_view());
        }
        let col = &cols[i];
        if !col.is_foreign_key {
            if let Some(base) = strip_id_suffix(&col.name) {
                if let Some((to_table, to_column)) = find_target(schema, &base) {
                    push_item(
                        &mut out,
                        Relationship {
                            from_table: table.clone(),
                            from_column: col.name.clone(),
                            to_table,
                            to_column,
                            relationship_type: "INFERRED_FK".to_owned(),
                        },
                    );
                }
            }
        }
        assert(out.deep_view() =~= before + inferred_for_column(s, table@, all[i as int]));
        i += 1;
    }
    assert(all.take(all.len() as int) =~= all);
    out
}

impl SQLAnalyzer {
    /// Adds the relationships that column names suggest: for each column, in the
    /// order of the tables and of their columns, whose name ends in `_id` and that is
    /// not a foreign key, a relationship to the primary key of the first table whose
    /// name fits and that has one.
    pub fn infer_relationships(&self, schema: &mut ParsedSchema)
        ensures
            final(schema).deep_view() == infer(old(schema).deep_view()),
    {
        let ghost s = schema.deep_view();
        let ghost tables = schema.tables.deep_view();
        let mut found: Vec<Relationship> = Vec::new();
        assert(found.deep_view() =~= Seq::empty());
        let mut i: usize = 0;
        while i < schema.tables.len()
            invariant
                i <= schema.tables@.len(),
                s == schema.deep_view(),
                *schema == *old(schema),
                tables == schema.tables.deep_view(),
                found.deep_view() == inferred_for_tables(s, tables.take(i as int)),
            decreases schema.tables@.len() - i,
        {
            proof {
                assert(tables.take(i + 1).drop_last() =~= tables.take(i as int));
                assert(tables[i as int] == schema.tables@[i as int].deep_view());
            }
            let ghost before = found.deep_view();
            let table = &schema.tables[i].name;
            if let Some(cols) = schema.columns.get(table.as_str()) {
                let more = infer_for_columns(schema, table, cols);
                append_items(&mut found, more);
            } else {
                assert(found.deep_view() =~= before + Seq::<RelationshipView>::empty());
            }
            i += 1;
        }
        assert(tables.take(tables.len() as int) =~= tables);
        append_items(&mut schema.relationships, found);
    }
}

} // verus!
