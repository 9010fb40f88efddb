//! Chat-style prompt templates for reranking models: a classifier that
//! decides, by model name, whether the structured Qwen3 prompt applies, and
//! the formatter that renders it.

use vstd::prelude::*;
use vstd::string::StringExecFns;
use crate::substring::contains_substr;
use crate::substring::lemma_substr_at_extend_left;
use crate::substring::lemma_substr_at_extend_right;
use crate::substring::lemma_substr_at_self;
use crate::substring::str_contains;
use crate::substring::substr_at;

verus! {

/// The instruction substituted whenever a call supplies none.
pub open spec fn default_instruction_text() -> Seq<char> {
    "Given a web search query, retrieve relevant passages that answer the query"@
}

/// The fixed system block: opening marker, judge instruction, closing marker.
pub open spec fn system_block() -> Seq<char> {
    "<|im_start|>system\n"@
        + "Judge whether the Document meets the requirements based on the Query and the Instruct provided. Note that the answer can only be \"yes\" or \"no\".<|im_end|>\n"@
}

/// The user block: instruction, query and document, each behind its marker.
pub open spec fn user_block(instruction: Seq<char>, query: Seq<char>, document: Seq<char>) -> Seq<
    char,
> {
    "<|im_start|>user\n"@ + "<Instruct>: "@ + instruction + "\n"@ + "<Query>: "@ + query + "\n"@
        + "<Document>: "@ + document + "<|im_end|>\n"@
}

/// The assistant block: an opening marker left deliberately unclosed, so the
/// model continues generation from there.
pub open spec fn assistant_block() -> Seq<char> {
    "<|im_start|>assistant\n"@
}

/// The whole rendered prompt: system block, then user block, then assistant
/// block, in this order and nothing else.
pub open spec fn rendered_prompt(instruction: Seq<char>, query: Seq<char>, document: Seq<
    char,
>) -> Seq<char> {
    system_block() + user_block(instruction, query, document) + assistant_block()
}

/// The instruction a call formats with: the supplied one when present, the
/// default otherwise.
pub open spec fn effective_instruction(
    default_instruction: Seq<char>,
    instruction: Option<Seq<char>>,
) -> Seq<char> {
    match instruction {
        Some(text) => text,
        None => default_instruction,
    }
}

/// Template formatter for models that require structured prompts.
pub trait TemplateFormatter {
    /// The prompt this formatter renders, as a function of the query, the
    /// document, and the optional instruction alone.
    spec fn spec_format(
        &self,
        query: Seq<char>,
        document: Seq<char>,
        instruction: Option<Seq<char>>,
    ) -> Seq<char>;

    /// Format a query-document pair for reranking.
    fn format_rerank(&self, query: &str, document: &str, instruction: Option<&str>) -> (r: String)
        ensures
            r@ == self.spec_format(query@, document@, instruction.deep_view()),
    ;
}

/// Qwen3 reranker template formatter.
pub struct Qwen3RerankerTemplate {
    default_instruction: String,
}

impl Qwen3RerankerTemplate {
    /// The default instruction held by this instance.
    pub closed spec fn default_instruction_view(&self) -> Seq<char> {
        self.default_instruction@
    }

    pub fn new() -> (r: Self)
        ensures
            r.default_instruction_view() == default_instruction_text(),
    {
        Qwen3RerankerTemplate {
            default_instruction:
                "Given a web search query, retrieve relevant passages that answer the query".to_owned(),
        }
    }
}

impl TemplateFormatter for Qwen3RerankerTemplate {
    open spec fn spec_format(
        &self,
        query: Seq<char>,
        document: Seq<char>,
        instruction: Option<Seq<char>>,
    ) -> Seq<char> {
        rendered_prompt(
            effective_instruction(self.default_instruction_view(), instruction),
            query,
            document,
        )
    }

    fn format_rerank(&self, query: &str, document: &str, instruction: Option<&str>) -> (r: String)
    {
        let instruction_text: &str = match instruction {
            Some(text) => text,
            None => self.default_instruction.as_str(),
        };
        let mut result = String::new();
        result.append("<|im_start|>system\n");
        result.append(
            "Judge whether the Document meets the requirements based on the Query and the Instruct provided. Note that the answer can only be \"yes\" or \"no\".<|im_end|>\n",
        );
        result.append("<|im_start|>user\n");
        result.append("<Instruct>: ");
        result.append(instruction_text);
        result.append("\n");
        result.append("<Query>: ");
        result.append(query);
        result.append("\n");
        result.append("<Document>: ");
        result.append(document);
        result.append("<|im_end|>\n");
        result.append("<|im_start|>assistant\n");
        proof {
            assert(result@ =~= self.spec_format(query@, document@, instruction.deep_view()));
        }
        result
    }
}

/// Whether `model_name` names a model that requires template formatting:
/// it contains `Qwen3` and also `Reranker` or `seq-cls`.
pub open spec fn spec_requires_template(model_name: Seq<char>) -> bool {
    contains_substr(model_name, "Qwen3"@) && (contains_substr(model_name, "Reranker"@)
        || contains_substr(model_name, "seq-cls"@))
}

/// Check if a model requires template formatting.
pub fn requires_template(model_name: &str) -> (r: bool)
    ensures
        r == spec_requires_template(model_name@),
{
    str_contains(model_name, "Qwen3") && (str_contains(model_name, "Reranker") || str_contains(
        model_name,
        "seq-cls",
    ))
}

/// Get the appropriate template formatter for a model: a fresh Qwen3
/// template exactly when the classifier accepts the name, absent otherwise.
pub fn get_template_formatter(model_name: &str) -> (r: Option<Qwen3RerankerTemplate>)
    ensures
        r is Some <==> spec_requires_template(model_name@),
        r matches Some(t) ==> t.default_instruction_view() == default_instruction_text(),
{
    if requires_template(model_name) {
        Some(Qwen3RerankerTemplate::new())
    } else {
        None
    }
}

/// Law: every rendered prompt carries its instruction verbatim, immediately
/// after the `<Instruct>: ` marker.
pub proof fn lemma_prompt_instruction_after_marker(
    instruction: Seq<char>,
    query: Seq<char>,
    document: Seq<char>,
) -> (i: int)
    ensures
        substr_at(rendered_prompt(instruction, query, document), i, "<Instruct>: "@ + instruction),
{
    let u1 = "<|im_start|>user\n"@;
    let m1 = "<Instruct>: "@;
    let nl = "\n"@;
    let m2 = "<Query>: "@;
    let m3 = "<Document>: "@;
    let m4 = "<|im_end|>\n"@;
    let marked = m1 + instruction;
    let a0 = u1 + m1 + instruction;
    assert(a0.subrange(u1.len() as int, u1.len() + marked.len() as int) =~= marked);
    lemma_substr_at_extend_right(a0, nl, u1.len() as int, marked);
    lemma_substr_at_extend_right(a0 + nl, m2, u1.len() as int, marked);
    lemma_substr_at_extend_right(a0 + nl + m2, query, u1.len() as int, marked);
    lemma_substr_at_extend_right(a0 + nl + m2 + query, nl, u1.len() as int, marked);
    lemma_substr_at_extend_right(a0 + nl + m2 + query + nl, m3, u1.len() as int, marked);
    lemma_substr_at_extend_right(a0 + nl + m2 + query + nl + m3, document, u1.len() as int, marked);
    lemma_substr_at_extend_right(
        a0 + nl + m2 + query + nl + m3 + document,
        m4,
        u1.len() as int,
        marked,
    );
    lemma_substr_at_extend_left(
        system_block(),
        user_block(instruction, query, document),
        u1.len() as int,
        marked,
    );
    lemma_substr_at_extend_right(
        system_block() + user_block(instruction, query, document),
        assistant_block(),
        (system_block().len() + u1.len()) as int,
        marked,
    );
    system_block().len() + u1.len() as int
}

/// Law: a formatter holding the default instruction renders, when no
/// instruction is supplied, a prompt carrying the default instruction
/// immediately after the `<Instruct>: ` marker.
pub proof fn lemma_default_instruction_used_when_absent(
    formatter: &Qwen3RerankerTemplate,
    query: Seq<char>,
    document: Seq<char>,
) -> (i: int)
    requires
        formatter.default_instruction_view() == default_instruction_text(),
    ensures
        substr_at(
            formatter.spec_format(query, document, None),
            i,
            "<Instruct>: "@ + default_instruction_text(),
        ),
{
    lemma_prompt_instruction_after_marker(default_instruction_text(), query, document)
}

/// Law: when an instruction is supplied, the rendered prompt carries that
/// instruction immediately after the `<Instruct>: ` marker.
pub proof fn lemma_supplied_instruction_used(
    formatter: &Qwen3RerankerTemplate,
    query: Seq<char>,
    document: Seq<char>,
    instruction: Seq<char>,
) -> (i: int)
    ensures
        substr_at(
            formatter.spec_format(query, document, Some(instruction)),
            i,
            "<Instruct>: "@ + instruction,
        ),
{
    lemma_prompt_instruction_after_marker(instruction, query, document)
}

/// Law: the blocks of every rendered prompt stand in order: the system
/// marker, then the query marker, then the document marker, then the
/// assistant marker.
pub proof fn lemma_prompt_segment_order(
    instruction: Seq<char>,
    query: Seq<char>,
    document: Seq<char>,
) -> (idx: (int, int, int, int))
    ensures
        0 <= idx.0 < idx.1 < idx.2 < idx.3,
        substr_at(rendered_prompt(instruction, query, document), idx.0, "<|im_start|>system"@),
        substr_at(rendered_prompt(instruction, query, document), idx.1, "<Query>: "@),
        substr_at(rendered_prompt(instruction, query, document), idx.2, "<Document>: "@),
        substr_at(rendered_prompt(instruction, query, document), idx.3, "<|im_start|>assistant"@),
{
    reveal_strlit("<|im_start|>system");
    reveal_strlit("<|im_start|>system\n");
    reveal_strlit("<|im_start|>assistant");
    reveal_strlit("<|im_start|>assistant\n");
    reveal_strlit("<|im_start|>user\n");
    reveal_strlit("<Instruct>: ");
    reveal_strlit("\n");
    reveal_strlit("<Query>: ");
    reveal_strlit("<Document>: ");
    reveal_strlit("<|im_end|>\n");
    let s1 = "<|im_start|>system\n"@;
    let s2 =
        "Judge whether the Document meets the requirements based on the Query and the Instruct provided. Note that the answer can only be \"yes\" or \"no\".<|im_end|>\n"@;
    let u1 = "<|im_start|>user\n"@;
    let m1 = "<Instruct>: "@;
    let nl = "\n"@;
    let m2 = "<Query>: "@;
    let m3 = "<Document>: "@;
    let m4 = "<|im_end|>\n"@;
    let a1 = "<|im_start|>assistant\n"@;
    let sys_marker = "<|im_start|>system"@;
    let asst_marker = "<|im_start|>assistant"@;
    let user = user_block(instruction, query, document);

    // The system marker opens the prompt.
    assert(s1.subrange(0, sys_marker.len() as int) =~= sys_marker);
    lemma_substr_at_extend_right(s1, s2, 0, sys_marker);
    lemma_substr_at_extend_right(system_block(), user, 0, sys_marker);
    lemma_substr_at_extend_right(system_block() + user, assistant_block(), 0, sys_marker);

    // The query marker follows the instruction line of the user block.
    let a = u1 + m1 + instruction + nl;
    lemma_substr_at_self(m2);
    lemma_substr_at_extend_left(a, m2, 0, m2);
    lemma_substr_at_extend_right(a + m2, query, a.len() as int, m2);
    lemma_substr_at_extend_right(a + m2 + query, nl, a.len() as int, m2);
    lemma_substr_at_extend_right(a + m2 + query + nl, m3, a.len() as int, m2);
    lemma_substr_at_extend_right(a + m2 + query + nl + m3, document, a.len() as int, m2);
    lemma_substr_at_extend_right(a + m2 + query + nl + m3 + document, m4, a.len() as int, m2);
    lemma_substr_at_extend_left(system_block(), user, a.len() as int, m2);
    lemma_substr_at_extend_right(
        system_block() + user,
        assistant_block(),
        (system_block().len() + a.len()) as int,
        m2,
    );

    // The document marker follows the query line of the user block.
    let b = u1 + m1 + instruction + nl + m2 + query + nl;
    lemma_substr_at_self(m3);
    lemma_substr_at_extend_left(b, m3, 0, m3);
    lemma_substr_at_extend_right(b + m3, document, b.len() as int, m3);
    lemma_substr_at_extend_right(b + m3 + document, m4, b.len() as int, m3);
    lemma_substr_at_extend_left(system_block(), user, b.len() as int, m3);
    lemma_substr_at_extend_right(
        system_block() + user,
        assistant_block(),
        (system_block().len() + b.len()) as int,
        m3,
    );

    // The assistant marker closes the prompt.
    assert(a1.subrange(0, asst_marker.len() as int) =~= asst_marker);
    lemma_substr_at_extend_left(system_block() + user, assistant_block(), 0, asst_marker);

    (
        0,
        system_block().len() + a.len() as int,
        system_block().len() + b.len() as int,
        system_block().len() + user.len() as int,
    )
}

/// Law: formatting is deterministic — two formatters holding the same
/// default instruction render identical prompts from identical query,
/// document and instruction arguments.
pub proof fn lemma_format_deterministic(
    first: &Qwen3RerankerTemplate,
    second: &Qwen3RerankerTemplate,
    query: Seq<char>,
    document: Seq<char>,
    instruction: Option<Seq<char>>,
    r1: Seq<char>,
    r2: Seq<char>,
)
    requires
        first.default_instruction_view() == second.default_instruction_view(),
        r1 == first.spec_format(query, document, instruction),
        r2 == second.spec_format(query, document, instruction),
    ensures
        r1 == r2,
{
}

} // verus!
