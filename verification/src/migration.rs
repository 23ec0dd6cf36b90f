//! The schema of the store, and how it is made and undone.
use vstd::prelude::*;

verus! {

/// The kind of a column.
#[derive(Clone, Copy, PartialEq, Eq, Structural, Debug)]
pub enum ColumnKind {
    /// A number that the store counts up, which tells rows apart.
    PrimaryKey,
    /// A text, which no row may lack.
    Text,
    /// A text, or nothing.
    OptionalText,
}

/// A column of a table.
#[derive(Clone, Copy)]
pub struct ColumnDef {
    pub name: &'static str,
    pub kind: ColumnKind,
}

/// A change of the schema.
pub enum SchemaStep {
    /// Makes a table, unless it is there.
    CreateTable { table: &'static str, columns: Vec<ColumnDef> },
    /// Makes an index of a column.
    CreateIndex { index: &'static str, table: &'static str, column: &'static str },
    /// Drops an index, if it is there.
    DropIndex { index: &'static str, table: &'static str },
    /// Drops a table, if it is there.
    DropTable { table: &'static str },
}

/// What a `SchemaStep` says.
pub enum SchemaStepView {
    CreateTable { table: Seq<char>, columns: Seq<(Seq<char>, ColumnKind)> },
    CreateIndex { index: Seq<char>, table: Seq<char>, column: Seq<char> },
    DropIndex { index: Seq<char>, table: Seq<char> },
    DropTable { table: Seq<char> },
}

/// The views of columns.
pub open spec fn column_views(columns: Seq<ColumnDef>) -> Seq<(Seq<char>, ColumnKind)> {
    columns.map_values(|c: ColumnDef| (c.name@, c.kind))
}

impl View for SchemaStep {
    type V = SchemaStepView;

    open spec fn view(&self) -> SchemaStepView {
        match self {
            SchemaStep::CreateTable { table, columns } => SchemaStepView::CreateTable {
                table: table@,
                columns: column_views(columns@),
            },
            SchemaStep::CreateIndex { index, table, column } => SchemaStepView::CreateIndex {
                index: index@,
                table: table@,
                column: column@,
            },
            SchemaStep::DropIndex { index, table } => SchemaStepView::DropIndex {
                index: index@,
                table: table@,
            },
            SchemaStep::DropTable { table } => SchemaStepView::DropTable { table: table@ },
        }
    }
}

/// The views of steps.
pub open spec fn step_views(steps: Seq<SchemaStep>) -> Seq<SchemaStepView> {
    steps.map_values(|s: SchemaStep| s@)
}

/// The tables of a store with their columns, and its indexes with the table and the column of
/// each.
#[verifier::ext_equal]
pub struct Schema {
    pub tables: Map<Seq<char>, Seq<(Seq<char>, ColumnKind)>>,
    pub indexes: Map<Seq<char>, (Seq<char>, Seq<char>)>,
}

impl Schema {
    /// The schema after a step.
    pub open spec fn after_step(self, step: SchemaStepView) -> Schema {
        match step {
            SchemaStepView::CreateTable { table, columns } => if self.tables.contains_key(table) {
                self
            } else {
                Schema { tables: self.tables.insert(table, columns), ..self }
            },
            SchemaStepView::CreateIndex { index, table, column } => Schema {
                indexes: self.indexes.insert(index, (table, column)),
                ..self
            },
            SchemaStepView::DropIndex { index, .. } => Schema {
                indexes: self.indexes.remove(index),
                ..self
            },
            SchemaStepView::DropTable { table } => Schema {
                tables: self.tables.remove(table),
                ..self
            },
        }
    }

    /// The schema after a series of steps.
    pub open spec fn after(self, steps: Seq<SchemaStepView>) -> Schema
        decreases steps.len(),
    {
        if steps.len() == 0 {
            self
        } else {
            self.after(steps.drop_last()).after_step(steps.last())
        }
    }
}

/// The columns of the table of applications.
pub open spec fn application_columns() -> Seq<(Seq<char>, ColumnKind)> {
    seq![
        ("id"@, ColumnKind::PrimaryKey),
        ("username"@, ColumnKind::Text),
        ("token"@, ColumnKind::Text),
        ("address"@, ColumnKind::OptionalText),
    ]
}

/// The steps that make the table of applications and its indexes.
pub open spec fn up_steps() -> Seq<SchemaStepView> {
    seq![
        SchemaStepView::CreateTable { table: "application"@, columns: application_columns() },
        SchemaStepView::CreateIndex {
            index: "application_token"@,
            table: "application"@,
            column: "token"@,
        },
        SchemaStepView::CreateIndex {
            index: "application_username"@,
            table: "application"@,
            column: "username"@,
        },
    ]
}

/// The steps that undo them.
pub open spec fn down_steps() -> Seq<SchemaStepView> {
    seq![
        SchemaStepView::DropIndex { index: "application_username"@, table: "application"@ },
        SchemaStepView::DropIndex { index: "application_token"@, table: "application"@ },
        SchemaStepView::DropTable { table: "application"@ },
    ]
}

/// The migration that makes the table of applications.
pub struct Migration;

impl Migration {
    /// The steps that make the table of applications and its indexes.
    pub fn up(&self) -> (res: Vec<SchemaStep>)
        ensures
            step_views(res@) == up_steps(),
    {
        let mut columns: Vec<ColumnDef> = Vec::new();
        columns.push(ColumnDef { name: "id", kind: ColumnKind::PrimaryKey });
        columns.push(ColumnDef { name: "username", kind: ColumnKind::Text });
        columns.push(ColumnDef { name: "token", kind: ColumnKind::Text });
        columns.push(ColumnDef { name: "address", kind: ColumnKind::OptionalText });
        assert(column_views(columns@) =~= application_columns());
        let mut steps: Vec<SchemaStep> = Vec::new();
        steps.push(SchemaStep::CreateTable { table: "application", columns });
        steps.push(
            SchemaStep::CreateIndex {
                index: "application_token",
                table: "application",
                column: "token",
            },
        );
        steps.push(
            SchemaStep::CreateIndex {
                index: "application_username",
                table: "application",
                column: "username",
            },
        );
        assert(step_views(steps@) =~= up_steps());
        steps
    }

    /// The steps that undo the migration.
    pub fn down(&self) -> (res: Vec<SchemaStep>)
        ensures
            step_views(res@) == down_steps(),
    {
        let mut steps: Vec<SchemaStep> = Vec::new();
        steps.push(SchemaStep::DropIndex { index: "application_username", table: "application" });
        steps.push(SchemaStep::DropIndex { index: "application_token", table: "application" });
        steps.push(SchemaStep::DropTable { table: "application" });
        assert(step_views(steps@) =~= down_steps());
        steps
    }
}

/// Undoing the migration leaves the schema as it was, where it did not have the table or the
/// indexes before.
pub proof fn law_down_undoes_up(schema: Schema)
    requires
        !schema.tables.contains_key("application"@),
        !schema.indexes.contains_key("application_token"@),
        !schema.indexes.contains_key("application_username"@),
    ensures
        schema.after(up_steps()).after(down_steps()) == schema,
{
    lemma_three_steps(schema, up_steps());
    lemma_three_steps(schema.after(up_steps()), down_steps());
    assert(schema.after(up_steps()).after(down_steps()) =~= schema);
}

/// The migration makes the table, with its columns, and both indexes.
pub proof fn law_up_makes_the_table(schema: Schema)
    requires
        !schema.tables.contains_key("application"@),
    ensures
        ({
            let after = schema.after(up_steps());
            &&& after.tables == schema.tables.insert("application"@, application_columns())
            &&& after.indexes.contains_pair(
                "application_token"@,
                ("application"@, "token"@),
            )
            &&& after.indexes.contains_pair(
                "application_username"@,
                ("application"@, "username"@),
            )
        }),
{
    lemma_three_steps(schema, up_steps());
    reveal_strlit("application_token");
    reveal_strlit("application_username");
    assert("application_token"@.len() != "application_username"@.len());
}

proof fn lemma_three_steps(schema: Schema, steps: Seq<SchemaStepView>)
    requires
        steps.len() == 3,
    ensures
        schema.after(steps) == schema.after_step(steps[0]).after_step(steps[1]).after_step(
            steps[2],
        ),
{
    reveal_with_fuel(Schema::after, 4);
    assert(steps.drop_last().drop_last().drop_last() =~= seq![]);
    assert(steps.drop_last().drop_last().last() == steps[0]);
    assert(steps.drop_last().last() == steps[1]);
}

} // verus!
