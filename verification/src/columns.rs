//! The column record that a column definition gives.

use vstd::prelude::*;
use crate::analyzer::SQLAnalyzer;
use crate::ast::{ColumnDef, ColumnDefView, ColumnOption, ColumnOptionView};
use crate::datatype::canonical_type;
use crate::model::{ColumnInfo, ColumnView};

verus! {

/// Whether one of the options is `NOT NULL`.
pub open spec fn has_not_null(options: Seq<ColumnOptionView>) -> bool {
    exists|i: int| 0 <= i < options.len() && options[i] is NotNull
}

/// Whether an option is a plain `PRIMARY KEY`, without constraint characteristics.
pub open spec fn marks_primary_key(option: ColumnOptionView) -> bool {
    match option {
        ColumnOptionView::Unique { is_primary, has_characteristics } => is_primary
            && !has_characteristics,
        _ => false,
    }
}

/// Whether one of the options is a plain `PRIMARY KEY`.
pub open spec fn has_primary_key(options: Seq<ColumnOptionView>) -> bool {
    exists|i: int| 0 <= i < options.len() && marks_primary_key(options[i])
}

/// The text of the first default value among the options.
pub open spec fn first_default(options: Seq<ColumnOptionView>) -> Option<Seq<char>>
    decreases options.len(),
{
    if options.len() == 0 {
        None
    } else {
        match first_default(options.drop_last()) {
            Some(text) => Some(text),
            None => match options.last() {
                ColumnOptionView::Default(text) => Some(text),
                _ => None,
            },
        }
    }
}

/// The column that a definition gives: nullable unless it says `NOT NULL`, a primary
/// key if it says so plainly, never a foreign key.
pub open spec fn column_of(def: ColumnDefView) -> ColumnView {
    ColumnView {
        name: def.name,
        data_type: canonical_type(def.data_type),
        nullable: !has_not_null(def.options),
        default_value: first_default(def.options),
        is_primary_key: has_primary_key(def.options),
        is_foreign_key: false,
        references: None,
    }
}

/// The column of a view: only its name is known.
pub open spec fn view_column(name: Seq<char>) -> ColumnView {
    ColumnView {
        name,
        data_type: "UNKNOWN"@,
        nullable: true,
        default_value: None,
        is_primary_key: false,
        is_foreign_key: false,
        references: None,
    }
}

impl SQLAnalyzer {
    /// The column record for a column definition.
    pub fn column_from_def(&self, def: &ColumnDef) -> (r: ColumnInfo)
        ensures
            r.deep_view() == column_of(def.deep_view()),
    {
        let ghost options = def.options.deep_view();
        let mut not_null = false;
        let mut primary = false;
        let mut default_value: Option<String> = None;
        let mut i: usize = 0;
        while i < def.options.len()
            invariant
                i <= def.options@.len(),
                options == def.options.deep_view(),
                not_null == has_not_null(options.take(i as int)),
                primary == has_primary_key(options.take(i as int)),
                default_value.deep_view() == first_default(options.take(i as int)),
            decreases def.options@.len() - i,
        {
            let ghost seen = options.take(i as int);
            let ghost next = options.take(i + 1);
            proof {
                assert(next.drop_last() =~= seen);
                assert(next.last() == options[i as int]);
                assert(options[i as int] == def.options@[i as int].deep_view());
                if has_not_null(seen) {
                    let j = choose|j: int| 0 <= j < seen.len() && seen[j] is NotNull;
                    assert(next[j] is NotNull);
                }
                if has_primary_key(seen) {
                    let j = choose|j: int| 0 <= j < seen.len() && marks_primary_key(seen[j]);
                    assert(marks_primary_key(next[j]));
                }
                if has_not_null(next) && !(options[i as int] is NotNull) {
                    let j = choose|j: int| 0 <= j < next.len() && next[j] is NotNull;
                    assert(seen[j] is NotNull);
                }
                if has_primary_key(next) && !marks_primary_key(options[i as int]) {
                    let j = choose|j: int| 0 <= j < next.len() && marks_primary_key(next[j]);
                    assert(marks_primary_key(seen[j]));
                }
            }
            match &def.options[i] {
                ColumnOption::NotNull => {
                    not_null = true;
                    assert(next[i as int] is NotNull);
                },
                ColumnOption::Default(text) => {
                    if default_value.is_none() {
                        default_value = Some(text.clone());
                    }
                },
                ColumnOption::Unique { is_primary, has_characteristics } => {
                    if *is_primary && !*has_characteristics {
                        primary = true;
                        assert(marks_primary_key(next[i as int]));
                    }
                },
                ColumnOption::Other => {},
            }
            i += 1;
        }
        assert(options.take(options.len() as int) =~= options);
        ColumnInfo {
            name: def.name.clone(),
            data_type: self.data_type_to_string(&def.data_type),
            nullable: !not_null,
            default_value,
            is_primary_key: primary,
            is_foreign_key: false,
            references: None,
        }
    }
}

} // verus!
