//! The analyzer: the entry point that turns SQL text into a schema.

use vstd::prelude::*;
use crate::ast::{Statement, StatementView};
use crate::infer::infer;
use crate::model::{empty_schema, ParsedSchema, SchemaView};
use crate::splitter::split_text;
use crate::statement::apply_statements;

verus! {

/// Reads SQL text into a schema model. It holds no state: each call builds a
/// schema of its own.
#[derive(Debug, Clone, Copy)]
pub struct SQLAnalyzer {}

/// The statements that an answer of the grammar holds: none where it rejects the
/// text.
pub open spec fn batch_of(answer: Option<Vec<Statement>>) -> Seq<StatementView> {
    match answer {
        Some(statements) => statements.deep_view(),
        None => Seq::empty(),
    }
}

/// The schema after the batches of statements, one after the other.
pub open spec fn apply_batches(s: SchemaView, batches: Seq<Seq<StatementView>>) -> SchemaView
    decreases batches.len(),
{
    if batches.len() == 0 {
        s
    } else {
        apply_statements(apply_batches(s, batches.drop_last()), batches.last())
    }
}

/// The schema that a body of SQL gives when the grammar answers its segments, in
/// their order, with `answers`: the statements are applied to the empty schema,
/// then the relationships are inferred.
pub open spec fn schema_of(answers: Seq<Option<Vec<Statement>>>) -> SchemaView {
    infer(
        apply_batches(empty_schema(), answers.map_values(|a: Option<Vec<Statement>>| batch_of(a))),
    )
}

/// Whether `answer` is an answer of the grammar to the segment.
pub open spec fn answers_segment<G: Fn(&str) -> Option<Vec<Statement>>>(
    grammar: G,
    segment: Seq<char>,
    answer: Option<Vec<Statement>>,
) -> bool {
    exists|text: &str| text@ == segment && #[trigger] grammar.ensures((text,), answer)
}

/// Whether `answers` are answers of the grammar to the segments, one for each and
/// in their order.
pub open spec fn answers_to<G: Fn(&str) -> Option<Vec<Statement>>>(
    grammar: G,
    segments: Seq<Seq<char>>,
    answers: Seq<Option<Vec<Statement>>>,
) -> bool {
    &&& answers.len() == segments.len()
    &&& forall|i: int|
        0 <= i < answers.len() ==> #[trigger] answers_segment(grammar, segments[i], answers[i])
}

impl SQLAnalyzer {
    /// A new analyzer.
    pub fn new() -> (r: SQLAnalyzer) {
        SQLAnalyzer {  }
    }

    /// Reads a body of SQL into a schema. The text is cut into segments, `grammar`
    /// is asked for the statements of each segment in turn, and what it gives is
    /// applied to a schema that starts empty; a segment that it rejects is passed
    /// over. The relationships are inferred at the end.
    pub fn parse_sql<G: Fn(&str) -> Option<Vec<Statement>>>(&self, sql: &str, grammar: G) -> (r:
        ParsedSchema)
        requires
            forall|text: &str| #[trigger] grammar.requires((text,)),
        ensures
            exists|answers: Seq<Option<Vec<Statement>>>| #[trigger]
                answers_to(grammar, split_text(sql@), answers) && r.deep_view() == schema_of(answers),
    {
        let mut schema = ParsedSchema::new();
        let segments = self.split_statements(sql);
        let ghost texts = segments.deep_view();
        let ghost mut answers: Seq<Option<Vec<Statement>>> = Seq::empty();
        let mut i: usize = 0;
        while i < segments.len()
            invariant
                i <= segments@.len(),
                texts == segments.deep_view(),
                forall|text: &str| #[trigger] grammar.requires((text,)),
                answers_to(grammar, texts.take(i as int), answers),
                schema.deep_view() == apply_batches(
                    empty_schema(),
                    answers.map_values(|a: Option<Vec<Statement>>| batch_of(a)),
                ),
            decreases segments@.len() - i,
        {
            let text = segments[i].as_str();
            let answer = grammar(text);
            let ghost before = answers;
            proof {
                answers = answers.push(answer);
                let batches = answers.map_values(|a: Option<Vec<Statement>>| batch_of(a));
                assert(batches.drop_last() =~= before.map_values(
                    |a: Option<Vec<Statement>>| batch_of(a),
                ));
                assert(batches.last() == batch_of(answer));
                assert forall|j: int| 0 <= j < answers.len() implies #[trigger] answers_segment(
                    grammar,
                    texts.take(i + 1)[j],
                    answers[j],
                ) by {
                    if j < i {
                        assert(answers_segment(grammar, texts.take(i as int)[j], before[j]));
                    } else {
                        assert(text@ == texts.take(i + 1)[j] && grammar.ensures((text,), answers[j]));
                    }
                }
            }
            match &answer {
                Some(statements) => {
                    self.process_statements(statements, &mut schema);
                },
                None => {},
            }
            i += 1;
        }
        assert(texts.take(texts.len() as int) =~= texts);
        self.infer_relationships(&mut schema);
        assert(answers_to(grammar, split_text(sql@), answers) && schema.deep_view() == schema_of(
            answers,
        ));
        schema
    }
}

} // verus!
