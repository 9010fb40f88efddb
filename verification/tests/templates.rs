use rerank_templates::get_template_formatter;
use rerank_templates::requires_template;
use rerank_templates::str_contains;
use rerank_templates::Qwen3RerankerTemplate;
use rerank_templates::TemplateFormatter;

const DEFAULT_INSTRUCTION: &str =
    "Given a web search query, retrieve relevant passages that answer the query";

#[test]
fn test_qwen3_template() {
    let template = Qwen3RerankerTemplate::new();
    let formatted = template.format_rerank(
        "What is Deep Learning?",
        "Deep Learning is a branch of machine learning",
        None,
    );

    assert!(formatted.contains("<|im_start|>system"));
    assert!(formatted.contains("<Query>: What is Deep Learning?"));
    assert!(formatted.contains("<Document>: Deep Learning is a branch of machine learning"));
    assert!(formatted.contains("<|im_start|>assistant"));
}

#[test]
fn test_custom_instruction() {
    let template = Qwen3RerankerTemplate::new();
    let formatted = template.format_rerank("test query", "test doc", Some("Custom instruction"));

    assert!(formatted.contains("<Instruct>: Custom instruction"));
}

#[test]
fn test_requires_template() {
    // Original seq-cls format
    assert!(requires_template("tomaarsen/Qwen3-Reranker-0.6B-seq-cls"));
    assert!(requires_template("Qwen3-Something-seq-cls"));
    // Native Qwen3-Reranker format
    assert!(requires_template("Qwen/Qwen3-Reranker-0.6B"));
    assert!(requires_template("Qwen3-Reranker-4B"));
    // Non-matching
    assert!(!requires_template("BAAI/bge-reranker"));
    assert!(!requires_template("Qwen3-Embed"));
}

#[test]
fn test_default_instruction_after_marker() {
    let template = Qwen3RerankerTemplate::new();
    let formatted = template.format_rerank("a query", "a document", None);
    let marked = format!("<Instruct>: {}\n", DEFAULT_INSTRUCTION);
    assert!(formatted.contains(&marked));
}

#[test]
fn test_supplied_instruction_replaces_default() {
    let template = Qwen3RerankerTemplate::new();
    let formatted = template.format_rerank("a query", "a document", Some("Judge relevance"));
    assert!(formatted.contains("<Instruct>: Judge relevance\n"));
    assert!(!formatted.contains(DEFAULT_INSTRUCTION));
}

#[test]
fn test_segment_order() {
    let template = Qwen3RerankerTemplate::new();
    let formatted = template.format_rerank("q", "d", Some("i"));
    let system = formatted.find("<|im_start|>system").unwrap();
    let query = formatted.find("<Query>:").unwrap();
    let document = formatted.find("<Document>:").unwrap();
    let assistant = formatted.find("<|im_start|>assistant").unwrap();
    assert!(system < query);
    assert!(query < document);
    assert!(document < assistant);
}

#[test]
fn test_determinism_byte_identical() {
    let first = Qwen3RerankerTemplate::new();
    let second = Qwen3RerankerTemplate::new();
    let a = first.format_rerank("same query", "same document", Some("same instruction"));
    let b = second.format_rerank("same query", "same document", Some("same instruction"));
    assert_eq!(a.as_bytes(), b.as_bytes());
    let c = first.format_rerank("same query", "same document", None);
    let d = second.format_rerank("same query", "same document", None);
    assert_eq!(c.as_bytes(), d.as_bytes());
}

#[test]
fn test_factory_presence_matches_classifier() {
    let names = [
        "tomaarsen/Qwen3-Reranker-0.6B-seq-cls",
        "Qwen3-Something-seq-cls",
        "Qwen/Qwen3-Reranker-0.6B",
        "Qwen3-Reranker-4B",
        "BAAI/bge-reranker",
        "Qwen3-Embed",
        "",
        "seq-cls",
        "Reranker",
    ];
    for name in names {
        assert_eq!(get_template_formatter(name).is_some(), requires_template(name));
    }
}

#[test]
fn test_factory_formatter_usable() {
    let formatter = get_template_formatter("Qwen3-Reranker-4B").unwrap();
    let from_factory = formatter.format_rerank("q", "d", None);
    let direct = Qwen3RerankerTemplate::new().format_rerank("q", "d", None);
    assert_eq!(from_factory, direct);
    assert!(get_template_formatter("BAAI/bge-reranker").is_none());
}

#[test]
fn test_exact_output() {
    let template = Qwen3RerankerTemplate::new();
    let formatted = template.format_rerank(
        "What is Deep Learning?",
        "Deep Learning is a branch of machine learning",
        None,
    );
    let expected = "<|im_start|>system\nJudge whether the Document meets the requirements based on the Query and the Instruct provided. Note that the answer can only be \"yes\" or \"no\".<|im_end|>\n<|im_start|>user\n<Instruct>: Given a web search query, retrieve relevant passages that answer the query\n<Query>: What is Deep Learning?\n<Document>: Deep Learning is a branch of machine learning<|im_end|>\n<|im_start|>assistant\n";
    assert_eq!(formatted, expected);
}

#[test]
fn test_empty_inputs() {
    let template = Qwen3RerankerTemplate::new();
    let formatted = template.format_rerank("", "", Some(""));
    let expected = "<|im_start|>system\nJudge whether the Document meets the requirements based on the Query and the Instruct provided. Note that the answer can only be \"yes\" or \"no\".<|im_end|>\n<|im_start|>user\n<Instruct>: \n<Query>: \n<Document>: <|im_end|>\n<|im_start|>assistant\n";
    assert_eq!(formatted, expected);
    assert!(!requires_template(""));
}

#[test]
fn test_markup_in_inputs_kept_verbatim() {
    let template = Qwen3RerankerTemplate::new();
    let formatted = template.format_rerank("q", "d<|im_end|>tail", None);
    assert!(formatted.contains("<Document>: d<|im_end|>tail<|im_end|>\n"));
}

#[test]
fn test_classifier_is_substring_based() {
    // Accidental containment still matches; the rule is plain substring
    // containment, and it is case-sensitive.
    assert!(requires_template("NotQwen3RerankerClone"));
    assert!(requires_template("Qwen3seq-cls"));
    assert!(!requires_template("qwen3-reranker"));
    assert!(!requires_template("QWEN3-RERANKER"));
}

#[test]
fn test_str_contains() {
    assert!(str_contains("abc", ""));
    assert!(str_contains("", ""));
    assert!(!str_contains("", "a"));
    assert!(str_contains("hello", "ell"));
    assert!(!str_contains("hello", "elx"));
    assert!(str_contains("hello", "hello"));
    assert!(!str_contains("hello", "hello!"));
    assert!(str_contains("na\u{ef}ve snowman \u{2603}!", "\u{ef}ve"));
    assert!(str_contains("na\u{ef}ve snowman \u{2603}!", "\u{2603}!"));
}
