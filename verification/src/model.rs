//! The schema model: tables, their columns, relationships, indexes and constraints.

use vstd::prelude::*;
use crate::lists::{lemma_filter_step, retain_by, take_all};
use crate::text::holds_text;

verus! {

/// A table or view of the schema.
#[derive(Debug, Clone, PartialEq, Eq)]
pub struct TableInfo {
    pub name: String,
    pub schema: Option<String>,
    pub table_type: String,
    pub estimated_rows: Option<i64>,
}

/// What a `TableInfo` holds.
pub struct TableView {
    pub name: Seq<char>,
    pub schema: Option<Seq<char>>,
    pub table_type: Seq<char>,
    pub estimated_rows: Option<i64>,
}

impl DeepView for TableInfo {
    type V = TableView;

    open spec fn deep_view(&self) -> TableView {
        TableView {
            name: self.name@,
            schema: self.schema.deep_view(),
            table_type: self.table_type@,
            estimated_rows: self.estimated_rows,
        }
    }
}

/// A column of a table.
#[derive(Debug, Clone, PartialEq, Eq)]
pub struct ColumnInfo {
    pub name: String,
    pub data_type: String,
    pub nullable: bool,
    pub default_value: Option<String>,
    pub is_primary_key: bool,
    pub is_foreign_key: bool,
    pub references: Option<String>,
}

/// What a `ColumnInfo` holds.
pub struct ColumnView {
    pub name: Seq<char>,
    pub data_type: Seq<char>,
    pub nullable: bool,
    pub default_value: Option<Seq<char>>,
    pub is_primary_key: bool,
    pub is_foreign_key: bool,
    pub references: Option<Seq<char>>,
}

impl DeepView for ColumnInfo {
    type V = ColumnView;

    open spec fn deep_view(&self) -> ColumnView {
        ColumnView {
            name: self.name@,
            data_type: self.data_type@,
            nullable: self.nullable,
            default_value: self.default_value.deep_view(),
            is_primary_key: self.is_primary_key,
            is_foreign_key: self.is_foreign_key,
            references: self.references.deep_view(),
        }
    }
}

/// A directed edge from a column of one table to a column of another.
#[derive(Debug, Clone, PartialEq, Eq)]
pub struct Relationship {
    pub from_table: String,
    pub from_column: String,
    pub to_table: String,
    pub to_column: String,
    pub relationship_type: String,
}

/// What a `Relationship` holds.
pub struct RelationshipView {
    pub from_table: Seq<char>,
    pub from_column: Seq<char>,
    pub to_table: Seq<char>,
    pub to_column: Seq<char>,
    pub relationship_type: Seq<char>,
}

impl DeepView for Relationship {
    type V = RelationshipView;

    open spec fn deep_view(&self) -> RelationshipView {
        RelationshipView {
            from_table: self.from_table@,
            from_column: self.from_column@,
            to_table: self.to_table@,
            to_column: self.to_column@,
            relationship_type: self.relationship_type@,
        }
    }
}

/// An index on columns of a table.
#[derive(Debug, Clone, PartialEq, Eq)]
pub struct IndexInfo {
    pub name: String,
    pub table: String,
    pub columns: Vec<String>,
    pub unique: bool,
    pub index_type: String,
}

/// What an `IndexInfo` holds.
pub struct IndexView {
    pub name: Seq<char>,
    pub table: Seq<char>,
    pub columns: Seq<Seq<char>>,
    pub unique: bool,
    pub index_type: Seq<char>,
}

impl DeepView for IndexInfo {
    type V = IndexView;

    open spec fn deep_view(&self) -> IndexView {
        IndexView {
            name: self.name@,
            table: self.table@,
            columns: self.columns.deep_view(),
            unique: self.unique,
            index_type: self.index_type@,
        }
    }
}

/// A constraint on a table.
#[derive(Debug, Clone, PartialEq, Eq)]
pub struct ConstraintInfo {
    pub name: String,
    pub table: String,
    pub constraint_type: String,
    pub columns: Vec<String>,
    pub reference_table: Option<String>,
    pub reference_columns: Option<Vec<String>>,
}

/// What a `ConstraintInfo` holds.
pub struct ConstraintView {
    pub name: Seq<char>,
    pub table: Seq<char>,
    pub constraint_type: Seq<char>,
    pub columns: Seq<Seq<char>>,
    pub reference_table: Option<Seq<char>>,
    pub reference_columns: Option<Seq<Seq<char>>>,
}

impl DeepView for ConstraintInfo {
    type V = ConstraintView;

    open spec fn deep_view(&self) -> ConstraintView {
        ConstraintView {
            name: self.name@,
            table: self.table@,
            constraint_type: self.constraint_type@,
            columns: self.columns.deep_view(),
            reference_table: self.reference_table.deep_view(),
            reference_columns: self.reference_columns.deep_view(),
        }
    }
}

/// The column list registered under one table name.
#[derive(Debug, Clone, PartialEq, Eq)]
pub struct TableColumns {
    pub table: String,
    pub columns: Vec<ColumnInfo>,
}

impl DeepView for TableColumns {
    type V = (Seq<char>, Seq<ColumnView>);

    open spec fn deep_view(&self) -> (Seq<char>, Seq<ColumnView>) {
        (self.table@, self.columns.deep_view())
    }
}

/// The mapping that a list of registrations stands for: a later registration of a
/// name replaces an earlier one.
pub open spec fn entries_map(e: Seq<(Seq<char>, Seq<ColumnView>)>) -> Map<Seq<char>, Seq<ColumnView>>
    decreases e.len(),
{
    if e.len() == 0 {
        Map::empty()
    } else {
        entries_map(e.drop_last()).insert(e.last().0, e.last().1)
    }
}

proof fn lemma_entries_tail(e: Seq<(Seq<char>, Seq<ColumnView>)>, n: int, k: Seq<char>)
    requires
        0 <= n <= e.len(),
        forall|j: int| n <= j < e.len() ==> e[j].0 != k,
    ensures
        entries_map(e).contains_key(k) == entries_map(e.take(n)).contains_key(k),
        entries_map(e).contains_key(k) ==> entries_map(e)[k] == entries_map(e.take(n))[k],
    decreases e.len() - n,
{
    if n < e.len() {
        assert(e.drop_last().take(n) =~= e.take(n));
        lemma_entries_tail(e.drop_last(), n, k);
    } else {
        assert(e.take(n) =~= e);
    }
}

/// The registrations under names other than `k`.
pub open spec fn entries_without(e: Seq<(Seq<char>, Seq<ColumnView>)>, k: Seq<char>) -> Seq<
    (Seq<char>, Seq<ColumnView>),
> {
    e.filter(|x: (Seq<char>, Seq<ColumnView>)| x.0 != k)
}

proof fn lemma_entries_without(e: Seq<(Seq<char>, Seq<ColumnView>)>, k: Seq<char>)
    ensures
        entries_map(entries_without(e, k)) == entries_map(e).remove(k),
    decreases e.len(),
{
    reveal(Seq::filter);
    if e.len() == 0 {
        assert(entries_map(e).remove(k) =~= Map::empty());
    } else {
        lemma_entries_without(e.drop_last(), k);
        let f = entries_without(e.drop_last(), k);
        if e.last().0 != k {
            assert(entries_without(e, k) == f.push(e.last()));
            assert(f.push(e.last()).drop_last() =~= f);
            assert(entries_map(f.push(e.last())) =~= entries_map(e).remove(k));
        } else {
            assert(entries_without(e, k) == f);
            assert(entries_map(f) =~= entries_map(e).remove(k));
        }
    }
}

proof fn lemma_entries_keys(e: Seq<(Seq<char>, Seq<ColumnView>)>, k: Seq<char>)
    ensures
        entries_map(e).contains_key(k) <==> exists|i: int| 0 <= i < e.len() && e[i].0 == k,
    decreases e.len(),
{
    if e.len() > 0 {
        lemma_entries_keys(e.drop_last(), k);
        if entries_map(e).contains_key(k) {
            if e.last().0 == k {
                assert(e[e.len() - 1].0 == k);
            } else {
                let i = choose|i: int| 0 <= i < e.drop_last().len() && e.drop_last()[i].0 == k;
                assert(e[i].0 == k);
            }
        }
        if exists|i: int| 0 <= i < e.len() && e[i].0 == k {
            let i = choose|i: int| 0 <= i < e.len() && e[i].0 == k;
            if i < e.len() - 1 {
                assert(e.drop_last()[i].0 == k);
            }
        }
    }
}

/// The column lists of the schema, one under each table name.
#[derive(Debug, Clone)]
pub struct ColumnStore {
    entries: Vec<TableColumns>,
}

impl DeepView for ColumnStore {
    type V = Map<Seq<char>, Seq<ColumnView>>;

    closed spec fn deep_view(&self) -> Map<Seq<char>, Seq<ColumnView>> {
        entries_map(self.entries.deep_view())
    }
}

impl ColumnStore {
    /// A store without any table.
    pub fn new() -> (r: ColumnStore)
        ensures
            r.deep_view() == Map::<Seq<char>, Seq<ColumnView>>::empty(),
    {
        let r = ColumnStore { entries: Vec::new() };
        assert(r.entries.deep_view() =~= Seq::empty());
        r
    }

    /// The column list registered under `table`, if there is one.
    pub fn get(&self, table: &str) -> (r: Option<&Vec<ColumnInfo>>)
        ensures
            match r {
                Some(cols) => self.deep_view().contains_key(table@) && cols.deep_view()
                    == self.deep_view()[table@],
                None => !self.deep_view().contains_key(table@),
            },
    {
        let key = table.to_owned();
        let ghost e = self.entries.deep_view();
        let mut i: usize = self.entries.len();
        while i > 0
            invariant
                i <= self.entries@.len(),
                e == self.entries.deep_view(),
                key@ == table@,
                forall|j: int| i <= j < e.len() ==> e[j].0 != table@,
            decreases i,
        {
            i -= 1;
            if self.entries[i].table == key {
                proof {
                    lemma_entries_tail(e, i + 1, table@);
                    assert(e.take(i + 1).drop_last() =~= e.take(i as int));
                }
                return Some(&self.entries[i].columns);
            }
        }
        proof {
            lemma_entries_tail(e, 0, table@);
        }
        None
    }

    /// Whether a column list is registered under `table`.
    pub fn contains(&self, table: &str) -> (r: bool)
        ensures
            r == self.deep_view().contains_key(table@),
    {
        self.get(table).is_some()
    }

    /// Takes out the column list registered under `table`, if there is one.
    pub fn take(&mut self, table: &str) -> (r: Option<Vec<ColumnInfo>>)
        ensures
            final(self).deep_view() == old(self).deep_view().remove(table@),
            match r {
                Some(cols) => old(self).deep_view().contains_key(table@) && cols.deep_view() == old(
                    self,
                ).deep_view()[table@],
                None => !old(self).deep_view().contains_key(table@),
            },
    {
        let key = table.to_owned();
        let taken = take_all(&mut self.entries);
        let ghost e = taken.deep_view();
        let mut found: Option<Vec<ColumnInfo>> = None;
        let mut out: Vec<TableColumns> = Vec::new();
        proof {
            reveal(Seq::filter);
            assert(out.deep_view() =~= entries_without(e.take(0), table@));
        }
        for x in it: taken
            invariant
                it.seq() == taken@,
                e == taken.deep_view(),
                key@ == table@,
                out.deep_view() == entries_without(e.take(it.index()), table@),
                entries_map(e.take(it.index())).contains_key(table@) <==> found is Some,
                found is Some ==> found.unwrap().deep_view() == entries_map(e.take(it.index()))[table@],
        {
            proof {
                lemma_filter_step(e, |x: (Seq<char>, Seq<ColumnView>)| x.0 != table@, it.index());
                assert(e.take(it.index() + 1).drop_last() =~= e.take(it.index()));
                assert(e[it.index()] == x.deep_view());
            }
            let ghost before = out.deep_view();
            if x.table == key {
                found = Some(x.columns);
            } else {
                out.push(x);
                assert(out.deep_view() =~= before.push(x.deep_view()));
            }
        }
        proof {
            assert(e.take(e.len() as int) =~= e);
            lemma_entries_without(e, table@);
        }
        self.entries = out;
        found
    }

    /// Takes away the column list registered under `table`, if there is one.
    pub fn remove(&mut self, table: &str)
        ensures
            final(self).deep_view() == old(self).deep_view().remove(table@),
    {
        let key = table.to_owned();
        let mut taken: Vec<TableColumns> = Vec::new();
        core::mem::swap(&mut taken, &mut self.entries);
        proof {
            lemma_entries_without(taken.deep_view(), table@);
        }
        let keep = |x: &TableColumns| -> (b: bool)
            ensures
                b == (x.table@ != key@),
            { x.table != key };
        self.entries = retain_by(taken, keep, Ghost(|x: (Seq<char>, Seq<ColumnView>)| x.0 != table@));
        assert(self.entries.deep_view() == entries_without(taken.deep_view(), table@));
    }

    /// Registers `columns` under `table`, in place of what was registered there.
    pub fn insert(&mut self, table: String, columns: Vec<ColumnInfo>)
        ensures
            final(self).deep_view() == old(self).deep_view().insert(table@, columns.deep_view()),
    {
        self.remove(table.as_str());
        let ghost before = self.entries.deep_view();
        self.entries.push(TableColumns { table, columns });
        proof {
            assert(self.entries.deep_view().drop_last() =~= before);
            assert(self.deep_view() =~= old(self).deep_view().insert(table@, columns.deep_view()));
        }
    }

    /// The names under which a column list is registered, each of them once.
    pub fn table_names(&self) -> (r: Vec<String>)
        ensures
            r.deep_view().no_duplicates(),
            forall|k: Seq<char>| self.deep_view().contains_key(k) <==> r.deep_view().contains(k),
    {
        let mut out: Vec<String> = Vec::new();
        let ghost e = self.entries.deep_view();
        let mut i: usize = 0;
        while i < self.entries.len()
            invariant
                i <= self.entries@.len(),
                e == self.entries.deep_view(),
                out.deep_view().no_duplicates(),
                forall|k: Seq<char>|
                    out.deep_view().contains(k) <==> exists|j: int| 0 <= j < i && e[j].0 == k,
            decreases self.entries@.len() - i,
        {
            let name = &self.entries[i].table;
            let ghost before = out.deep_view();
            assert(e[i as int].0 == name@);
            if !holds_text(&out, name) {
                out.push(name.clone());
                assert(out.deep_view() =~= before.push(name@));
            }
            proof {
                let after = out.deep_view();
                assert forall|k: Seq<char>| after.contains(k) <==> exists|j: int|
                    0 <= j < i + 1 && e[j].0 == k by {
                    if after.contains(k) {
                        let p = choose|p: int| 0 <= p < after.len() && after[p] == k;
                        if p < before.len() {
                            assert(before[p] == k);
                            assert(before.contains(k));
                            let j = choose|j: int| 0 <= j < i && e[j].0 == k;
                            assert(0 <= j < i + 1 && e[j].0 == k);
                        } else {
                            assert(e[i as int].0 == k);
                        }
                    }
                    if exists|j: int| 0 <= j < i + 1 && e[j].0 == k {
                        let j = choose|j: int| 0 <= j < i + 1 && e[j].0 == k;
                        if j < i {
                            assert(before.contains(k));
                            let p = choose|p: int| 0 <= p < before.len() && before[p] == k;
                            assert(after[p] == k);
                        } else if before.contains(name@) {
                            let p = choose|p: int| 0 <= p < before.len() && before[p] == name@;
                            assert(after[p] == k);
                        } else {
                            assert(after[after.len() - 1] == k);
                        }
                    }
                }
            }
            i += 1;
        }
        proof {
            let names = out.deep_view();
            assert forall|k: Seq<char>| self.deep_view().contains_key(k) <==> names.contains(k) by {
                lemma_entries_keys(e, k);
            }
        }
        out
    }
}

/// The whole schema: the result of reading a body of SQL.
#[derive(Debug, Clone)]
pub struct ParsedSchema {
    pub tables: Vec<TableInfo>,
    pub columns: ColumnStore,
    pub relationships: Vec<Relationship>,
    pub indexes: Vec<IndexInfo>,
    pub constraints: Vec<ConstraintInfo>,
}

/// What a `ParsedSchema` holds.
pub struct SchemaView {
    pub tables: Seq<TableView>,
    pub columns: Map<Seq<char>, Seq<ColumnView>>,
    pub relationships: Seq<RelationshipView>,
    pub indexes: Seq<IndexView>,
    pub constraints: Seq<ConstraintView>,
}

impl DeepView for ParsedSchema {
    type V = SchemaView;

    open spec fn deep_view(&self) -> SchemaView {
        SchemaView {
            tables: self.tables.deep_view(),
            columns: self.columns.deep_view(),
            relationships: self.relationships.deep_view(),
            indexes: self.indexes.deep_view(),
            constraints: self.constraints.deep_view(),
        }
    }
}

/// The schema that holds nothing.
pub open spec fn empty_schema() -> SchemaView {
    SchemaView {
        tables: Seq::empty(),
        columns: Map::empty(),
        relationships: Seq::empty(),
        indexes: Seq::empty(),
        constraints: Seq::empty(),
    }
}

impl ParsedSchema {
    /// A schema that holds nothing.
    pub fn new() -> (r: ParsedSchema)
        ensures
            r.deep_view() == empty_schema(),
    {
        let r = ParsedSchema {
            tables: Vec::new(),
            columns: ColumnStore::new(),
            relationships: Vec::new(),
            indexes: Vec::new(),
            constraints: Vec::new(),
        };
        assert(r.tables.deep_view() =~= Seq::empty());
        assert(r.relationships.deep_view() =~= Seq::empty());
        assert(r.indexes.deep_view() =~= Seq::empty());
        assert(r.constraints.deep_view() =~= Seq::empty());
        r
    }
}

} // verus!
