//! The statements that the schema model reads, as plain values: what a grammar
//! parser hands over for each statement of the input.

use vstd::prelude::*;

verus! {

/// Precision and scale of an exact number type.
#[derive(Debug, Clone, Copy, PartialEq, Eq)]
pub enum ExactNumberInfo {
    /// Neither is given.
    Unspecified,
    /// Only the precision is given.
    Precision(u64),
    /// Both are given.
    PrecisionAndScale(u64, u64),
}

/// How a time type speaks of time zones.
#[derive(Debug, Clone, Copy, PartialEq, Eq)]
pub enum TimezoneInfo {
    /// Nothing is said.
    Unspecified,
    /// `WITH TIME ZONE` is written out.
    WithTimeZone,
    /// `WITHOUT TIME ZONE` is written out.
    WithoutTimeZone,
    /// The type is written in its short zoned form, such as `TIMESTAMPTZ`.
    Tz,
}

/// The unit in which the length of a character type is counted.
#[derive(Debug, Clone, Copy, PartialEq, Eq)]
pub enum CharLengthUnits {
    Characters,
    Octets,
}

/// The length of a character type.
#[derive(Debug, Clone, Copy, PartialEq, Eq)]
pub enum CharacterLength {
    /// A number, with its unit if one is written.
    IntegerLength { length: u64, unit: Option<CharLengthUnits> },
    /// The keyword `MAX`.
    Max,
}

/// The type of a column.
#[derive(Debug, Clone, Copy, PartialEq, Eq)]
pub enum DataType {
    /// Fixed-length text, with its length if one is given.
    Char(Option<CharacterLength>),
    /// Variable-length text, with its length if one is given.
    Varchar(Option<CharacterLength>),
    Text,
    Int(Option<u64>),
    BigInt(Option<u64>),
    SmallInt(Option<u64>),
    Float(Option<u64>),
    Double,
    Decimal(ExactNumberInfo),
    Boolean,
    Date,
    Time(Option<u64>, TimezoneInfo),
    Timestamp(Option<u64>, TimezoneInfo),
    Datetime(Option<u64>),
    JSON,
    Uuid,
    /// Any type that the model does not tell apart.
    Other,
}

/// What a `DataType` holds.
pub enum DataTypeView {
    Char(Option<CharacterLength>),
    Varchar(Option<CharacterLength>),
    Text,
    Int(Option<u64>),
    BigInt(Option<u64>),
    SmallInt(Option<u64>),
    Float(Option<u64>),
    Double,
    Decimal(ExactNumberInfo),
    Boolean,
    Date,
    Time(Option<u64>, TimezoneInfo),
    Timestamp(Option<u64>, TimezoneInfo),
    Datetime(Option<u64>),
    JSON,
    Uuid,
    Other,
}

impl DeepView for DataType {
    type V = DataTypeView;

    open spec fn deep_view(&self) -> DataTypeView {
        match self {
            DataType::Char(n) => DataTypeView::Char(*n),
            DataType::Varchar(n) => DataTypeView::Varchar(*n),
            DataType::Text => DataTypeView::Text,
            DataType::Int(n) => DataTypeView::Int(*n),
            DataType::BigInt(n) => DataTypeView::BigInt(*n),
            DataType::SmallInt(n) => DataTypeView::SmallInt(*n),
            DataType::Float(n) => DataTypeView::Float(*n),
            DataType::Double => DataTypeView::Double,
            DataType::Decimal(info) => DataTypeView::Decimal(*info),
            DataType::Boolean => DataTypeView::Boolean,
            DataType::Date => DataTypeView::Date,
            DataType::Time(n, tz) => DataTypeView::Time(*n, *tz),
            DataType::Timestamp(n, tz) => DataTypeView::Timestamp(*n, *tz),
            DataType::Datetime(n) => DataTypeView::Datetime(*n),
            DataType::JSON => DataTypeView::JSON,
            DataType::Uuid => DataTypeView::Uuid,
            DataType::Other => DataTypeView::Other,
        }
    }
}

/// An option written after a column's type.
#[derive(Debug, Clone, PartialEq, Eq)]
pub enum ColumnOption {
    NotNull,
    /// A default value, with the text of its expression.
    Default(String),
    /// `UNIQUE` or `PRIMARY KEY`, and whether constraint characteristics follow it.
    Unique { is_primary: bool, has_characteristics: bool },
    /// Any other option.
    Other,
}

/// What a `ColumnOption` holds.
pub enum ColumnOptionView {
    NotNull,
    Default(Seq<char>),
    Unique { is_primary: bool, has_characteristics: bool },
    Other,
}

impl DeepView for ColumnOption {
    type V = ColumnOptionView;

    open spec fn deep_view(&self) -> ColumnOptionView {
        match self {
            ColumnOption::NotNull => ColumnOptionView::NotNull,
            ColumnOption::Default(text) => ColumnOptionView::Default(text@),
            ColumnOption::Unique { is_primary, has_characteristics } => ColumnOptionView::Unique {
                is_primary: *is_primary,
                has_characteristics: *has_characteristics,
            },
            ColumnOption::Other => ColumnOptionView::Other,
        }
    }
}

/// The definition of one column.
#[derive(Debug, Clone, PartialEq, Eq)]
pub struct ColumnDef {
    pub name: String,
    pub data_type: DataType,
    pub options: Vec<ColumnOption>,
}

/// What a `ColumnDef` holds.
pub struct ColumnDefView {
    pub name: Seq<char>,
    pub data_type: DataTypeView,
    pub options: Seq<ColumnOptionView>,
}

impl DeepView for ColumnDef {
    type V = ColumnDefView;

    open spec fn deep_view(&self) -> ColumnDefView {
        ColumnDefView {
            name: self.name@,
            data_type: self.data_type.deep_view(),
            options: self.options.deep_view(),
        }
    }
}

/// An expression, as far as column names are looked for in it.
#[derive(Debug, PartialEq, Eq)]
#[allow(inconsistent_fields)]
pub enum Expr {
    Identifier(String),
    /// A qualified name, one part after the other.
    CompoundIdentifier(Vec<String>),
    BinaryOp { left: Box<Expr>, right: Box<Expr> },
    /// An expression in parentheses.
    Nested(Box<Expr>),
    /// A function call; its arguments are not kept.
    Function,
    /// Any other expression.
    Other,
}

/// What an `Expr` holds.
#[allow(inconsistent_fields)]
pub enum ExprView {
    Identifier(Seq<char>),
    CompoundIdentifier(Seq<Seq<char>>),
    BinaryOp { left: Box<ExprView>, right: Box<ExprView> },
    Nested(Box<ExprView>),
    Function,
    Other,
}

/// What an expression holds, branch by branch.
pub open spec fn expr_view(e: Expr) -> ExprView
    decreases e,
{
    match e {
        Expr::Identifier(name) => ExprView::Identifier(name@),
        Expr::CompoundIdentifier(parts) => ExprView::CompoundIdentifier(parts.deep_view()),
        Expr::BinaryOp { left, right } => ExprView::BinaryOp {
            left: Box::new(expr_view(*left)),
            right: Box::new(expr_view(*right)),
        },
        Expr::Nested(inner) => ExprView::Nested(Box::new(expr_view(*inner))),
        Expr::Function => ExprView::Function,
        Expr::Other => ExprView::Other,
    }
}

impl DeepView for Expr {
    type V = ExprView;

    open spec fn deep_view(&self) -> ExprView {
        expr_view(*self)
    }
}

/// A constraint written at the level of a table.
#[derive(Debug, PartialEq, Eq)]
#[allow(inconsistent_fields)]
pub enum TableConstraint {
    ForeignKey {
        name: Option<String>,
        columns: Vec<String>,
        foreign_table: String,
        referred_columns: Vec<String>,
        /// The text of the action on delete, if one is given.
        on_delete: Option<String>,
        /// The text of the action on update, if one is given.
        on_update: Option<String>,
    },
    Unique { name: Option<String>, columns: Vec<String>, is_primary: bool },
    Check { name: Option<String>, expr: Expr },
    /// Any other constraint.
    Other,
}

/// What a `TableConstraint` holds.
#[allow(inconsistent_fields)]
pub enum TableConstraintView {
    ForeignKey {
        name: Option<Seq<char>>,
        columns: Seq<Seq<char>>,
        foreign_table: Seq<char>,
        referred_columns: Seq<Seq<char>>,
        on_delete: Option<Seq<char>>,
        on_update: Option<Seq<char>>,
    },
    Unique { name: Option<Seq<char>>, columns: Seq<Seq<char>>, is_primary: bool },
    Check { name: Option<Seq<char>>, expr: ExprView },
    Other,
}

impl DeepView for TableConstraint {
    type V = TableConstraintView;

    open spec fn deep_view(&self) -> TableConstraintView {
        match self {
            TableConstraint::ForeignKey {
                name,
                columns,
                foreign_table,
                referred_columns,
                on_delete,
                on_update,
            } => TableConstraintView::ForeignKey {
                name: name.deep_view(),
                columns: columns.deep_view(),
                foreign_table: foreign_table@,
                referred_columns: referred_columns.deep_view(),
                on_delete: on_delete.deep_view(),
                on_update: on_update.deep_view(),
            },
            TableConstraint::Unique { name, columns, is_primary } => TableConstraintView::Unique {
                name: name.deep_view(),
                columns: columns.deep_view(),
                is_primary: *is_primary,
            },
            TableConstraint::Check { name, expr } => TableConstraintView::Check {
                name: name.deep_view(),
                expr: expr.deep_view(),
            },
            TableConstraint::Other => TableConstraintView::Other,
        }
    }
}

/// A change to one column.
#[derive(Debug, Clone, PartialEq, Eq)]
pub enum AlterColumnOperation {
    SetNotNull,
    DropNotNull,
    /// A new default value, with the text of its expression.
    SetDefault { value: String },
    DropDefault,
    /// Any other change.
    Other,
}

/// What an `AlterColumnOperation` holds.
pub enum AlterColumnOperationView {
    SetNotNull,
    DropNotNull,
    SetDefault { value: Seq<char> },
    DropDefault,
    Other,
}

impl DeepView for AlterColumnOperation {
    type V = AlterColumnOperationView;

    open spec fn deep_view(&self) -> AlterColumnOperationView {
        match self {
            AlterColumnOperation::SetNotNull => AlterColumnOperationView::SetNotNull,
            AlterColumnOperation::DropNotNull => AlterColumnOperationView::DropNotNull,
            AlterColumnOperation::SetDefault { value } => AlterColumnOperationView::SetDefault {
                value: value@,
            },
            AlterColumnOperation::DropDefault => AlterColumnOperationView::DropDefault,
            AlterColumnOperation::Other => AlterColumnOperationView::Other,
        }
    }
}

/// One operation of an `ALTER TABLE` statement.
#[derive(Debug, PartialEq, Eq)]
#[allow(inconsistent_fields)]
pub enum AlterTableOperation {
    AddConstraint(TableConstraint),
    DropConstraint { name: String },
    AddColumn { column_def: ColumnDef },
    DropColumn { column_name: String },
    RenameColumn { old_column_name: String, new_column_name: String },
    AlterColumn { column_name: String, op: AlterColumnOperation },
    /// Any other operation.
    Other,
}

/// What an `AlterTableOperation` holds.
#[allow(inconsistent_fields)]
pub enum AlterTableOperationView {
    AddConstraint(TableConstraintView),
    DropConstraint { name: Seq<char> },
    AddColumn { column_def: ColumnDefView },
    DropColumn { column_name: Seq<char> },
    RenameColumn { old_column_name: Seq<char>, new_column_name: Seq<char> },
    AlterColumn { column_name: Seq<char>, op: AlterColumnOperationView },
    Other,
}

impl DeepView for AlterTableOperation {
    type V = AlterTableOperationView;

    open spec fn deep_view(&self) -> AlterTableOperationView {
        match self {
            AlterTableOperation::AddConstraint(c) => AlterTableOperationView::AddConstraint(
                c.deep_view(),
            ),
            AlterTableOperation::DropConstraint { name } => AlterTableOperationView::DropConstraint {
                name: name@,
            },
            AlterTableOperation::AddColumn { column_def } => AlterTableOperationView::AddColumn {
                column_def: column_def.deep_view(),
            },
            AlterTableOperation::DropColumn { column_name } => AlterTableOperationView::DropColumn {
                column_name: column_name@,
            },
            AlterTableOperation::RenameColumn {
                old_column_name,
                new_column_name,
            } => AlterTableOperationView::RenameColumn {
                old_column_name: old_column_name@,
                new_column_name: new_column_name@,
            },
            AlterTableOperation::AlterColumn { column_name, op } => AlterTableOperationView::AlterColumn {
                column_name: column_name@,
                op: op.deep_view(),
            },
            AlterTableOperation::Other => AlterTableOperationView::Other,
        }
    }
}

/// The kind of object that a `DROP` statement names.
#[derive(Debug, Clone, Copy, PartialEq, Eq)]
pub enum ObjectType {
    Table,
    View,
    /// Any other kind.
    Other,
}

/// One statement of the input.
#[derive(Debug, PartialEq, Eq)]
#[allow(inconsistent_fields)]
pub enum Statement {
    CreateTable { name: String, columns: Vec<ColumnDef>, constraints: Vec<TableConstraint> },
    CreateIndex { name: Option<String>, table_name: String, columns: Vec<String>, unique: bool },
    AlterTable { name: String, operations: Vec<AlterTableOperation> },
    /// A view, with the names of the columns that it declares.
    CreateView { name: String, columns: Vec<String>, materialized: bool },
    Drop { object_type: ObjectType, names: Vec<String> },
    Truncate { table_name: String },
    CreateSchema { schema_name: String },
    /// Any statement that leaves the schema as it is.
    Other,
}

/// What a `Statement` holds.
#[allow(inconsistent_fields)]
pub enum StatementView {
    CreateTable {
        name: Seq<char>,
        columns: Seq<ColumnDefView>,
        constraints: Seq<TableConstraintView>,
    },
    CreateIndex { name: Option<Seq<char>>, table_name: Seq<char>, columns: Seq<Seq<char>>, unique: bool },
    AlterTable { name: Seq<char>, operations: Seq<AlterTableOperationView> },
    CreateView { name: Seq<char>, columns: Seq<Seq<char>>, materialized: bool },
    Drop { object_type: ObjectType, names: Seq<Seq<char>> },
    Truncate { table_name: Seq<char> },
    CreateSchema { schema_name: Seq<char> },
    Other,
}

impl DeepView for Statement {
    type V = StatementView;

    open spec fn deep_view(&self) -> StatementView {
        match self {
            Statement::CreateTable { name, columns, constraints } => StatementView::CreateTable {
                name: name@,
                columns: columns.deep_view(),
                constraints: constraints.deep_view(),
            },
            Statement::CreateIndex { name, table_name, columns, unique } => StatementView::CreateIndex {
                name: name.deep_view(),
                table_name: table_name@,
                columns: columns.deep_view(),
                unique: *unique,
            },
            Statement::AlterTable { name, operations } => StatementView::AlterTable {
                name: name@,
                operations: operations.deep_view(),
            },
            Statement::CreateView { name, columns, materialized } => StatementView::CreateView {
                name: name@,
                columns: columns.deep_view(),
                materialized: *materialized,
            },
            Statement::Drop { object_type, names } => StatementView::Drop {
                object_type: *object_type,
                names: names.deep_view(),
            },
            Statement::Truncate { table_name } => StatementView::Truncate { table_name: table_name@ },
            Statement::CreateSchema { schema_name } => StatementView::CreateSchema {
                schema_name: schema_name@,
            },
            Statement::Other => StatementView::Other,
        }
    }
}

} // verus!
