use elixir_ls::{
    ByteRange, CodeLabel, CodeLabelSpan, Completion, CompletionKind, ElixirLs, LabelStyle, Symbol,
    SymbolKind,
};

fn completion(label: &str, kind: Option<CompletionKind>) -> Option<CodeLabel> {
    ElixirLs::new().label_for_completion(Completion { label: label.to_string(), kind })
}

fn symbol(name: &str, kind: SymbolKind) -> Option<CodeLabel> {
    ElixirLs::new().label_for_symbol(Symbol { name: name.to_string(), kind })
}

fn displayed(label: &CodeLabel) -> &[u8] {
    assert_eq!(label.spans.len(), 1);
    let CodeLabelSpan::CodeRange(span) = label.spans[0];
    &label.code.as_bytes()[span.start..span.end]
}

#[test]
fn module_completion_is_a_defmodule() {
    let label = completion("Foo", Some(CompletionKind::Module)).unwrap();
    assert_eq!(label.code, "defmodule Foo");
    assert_eq!(label.spans, vec![CodeLabelSpan::CodeRange(ByteRange { start: 10, end: 13 })]);
    assert_eq!(label.filter_range, ByteRange { start: 0, end: 3 });
}

#[test]
fn function_completion_is_a_def() {
    let label = completion("bar", Some(CompletionKind::Function)).unwrap();
    assert_eq!(label.code, "def bar");
    assert_eq!(label.spans, vec![CodeLabelSpan::CodeRange(ByteRange { start: 4, end: 7 })]);
    assert_eq!(label.filter_range, ByteRange { start: 0, end: 3 });
}

#[test]
fn operator_completion_stands_between_two_arguments() {
    let label = completion("+", Some(CompletionKind::Operator)).unwrap();
    assert_eq!(label.code, "def a + b");
    assert_eq!(label.spans, vec![CodeLabelSpan::CodeRange(ByteRange { start: 6, end: 7 })]);
    assert_eq!(label.filter_range, ByteRange { start: 0, end: 1 });
}

#[test]
fn module_like_completion_kinds_share_one_label() {
    for kind in [
        CompletionKind::Module,
        CompletionKind::Class,
        CompletionKind::Interface,
        CompletionKind::Struct,
    ] {
        let label = completion("Enum", Some(kind)).unwrap();
        assert_eq!(label.code, "defmodule Enum");
        assert_eq!(displayed(&label), b"Enum");
    }
    for kind in [CompletionKind::Function, CompletionKind::Constant] {
        let label = completion("map", Some(kind)).unwrap();
        assert_eq!(label.code, "def map");
        assert_eq!(displayed(&label), b"map");
    }
}

#[test]
fn symbol_labels_follow_the_completion_labels() {
    for kind in
        [SymbolKind::Module, SymbolKind::Class, SymbolKind::Interface, SymbolKind::Struct]
    {
        let label = symbol("Foo", kind).unwrap();
        assert_eq!(label.code, "defmodule Foo");
        assert_eq!(label.spans, vec![CodeLabelSpan::CodeRange(ByteRange { start: 10, end: 13 })]);
        assert_eq!(label.filter_range, ByteRange { start: 0, end: 3 });
    }
    for kind in [SymbolKind::Function, SymbolKind::Constant] {
        let label = symbol("bar", kind).unwrap();
        assert_eq!(label.code, "def bar");
        assert_eq!(label.spans, vec![CodeLabelSpan::CodeRange(ByteRange { start: 4, end: 7 })]);
        assert_eq!(label.filter_range, ByteRange { start: 0, end: 3 });
    }
}

#[test]
fn other_completion_kinds_have_no_label() {
    assert!(completion("x", None).is_none());
    for kind in [
        CompletionKind::Text,
        CompletionKind::Method,
        CompletionKind::Constructor,
        CompletionKind::Field,
        CompletionKind::Variable,
        CompletionKind::Property,
        CompletionKind::Unit,
        CompletionKind::Value,
        CompletionKind::Enum,
        CompletionKind::Keyword,
        CompletionKind::Snippet,
        CompletionKind::Color,
        CompletionKind::File,
        CompletionKind::Reference,
        CompletionKind::Folder,
        CompletionKind::EnumMember,
        CompletionKind::Event,
        CompletionKind::TypeParameter,
        CompletionKind::Other(99),
    ] {
        assert!(completion("x", Some(kind)).is_none());
    }
}

#[test]
fn other_symbol_kinds_have_no_label() {
    for kind in [
        SymbolKind::File,
        SymbolKind::Namespace,
        SymbolKind::Package,
        SymbolKind::Method,
        SymbolKind::Property,
        SymbolKind::Field,
        SymbolKind::Constructor,
        SymbolKind::Enum,
        SymbolKind::Variable,
        SymbolKind::String,
        SymbolKind::Number,
        SymbolKind::Boolean,
        SymbolKind::Array,
        SymbolKind::Object,
        SymbolKind::Key,
        SymbolKind::Null,
        SymbolKind::EnumMember,
        SymbolKind::Event,
        SymbolKind::Operator,
        SymbolKind::TypeParameter,
        SymbolKind::Other(-1),
    ] {
        assert!(symbol("x", kind).is_none());
    }
}

#[test]
fn spans_count_bytes_not_characters() {
    let name = "größe_π";
    for (style, prefix) in [
        (LabelStyle::Module, "defmodule "),
        (LabelStyle::Function, "def "),
        (LabelStyle::Operator, "def a "),
    ] {
        let label = style.label(name);
        assert!(label.code.starts_with(prefix));
        assert_eq!(displayed(&label), name.as_bytes());
        assert_eq!(label.filter_range, ByteRange { start: 0, end: name.len() });
        assert_eq!(
            label.spans,
            vec![CodeLabelSpan::CodeRange(ByteRange {
                start: prefix.len(),
                end: prefix.len() + name.len()
            })]
        );
    }
    assert_eq!(LabelStyle::Module.label(name).code, format!("defmodule {}", name));
    assert_eq!(LabelStyle::Function.label(name).code, format!("def {}", name));
    assert_eq!(LabelStyle::Operator.label(name).code, format!("def a {} b", name));
}

#[test]
fn an_empty_name_gives_an_empty_span() {
    let label = completion("", Some(CompletionKind::Operator)).unwrap();
    assert_eq!(label.code, "def a  b");
    assert_eq!(label.spans, vec![CodeLabelSpan::CodeRange(ByteRange { start: 6, end: 6 })]);
    assert_eq!(label.filter_range, ByteRange { start: 0, end: 0 });
}

#[test]
fn styles_of_kinds() {
    assert_eq!(LabelStyle::of_completion(Some(CompletionKind::Struct)), Some(LabelStyle::Module));
    assert_eq!(
        LabelStyle::of_completion(Some(CompletionKind::Constant)),
        Some(LabelStyle::Function)
    );
    assert_eq!(
        LabelStyle::of_completion(Some(CompletionKind::Operator)),
        Some(LabelStyle::Operator)
    );
    assert_eq!(LabelStyle::of_completion(None), None);
    assert_eq!(LabelStyle::of_symbol(SymbolKind::Interface), Some(LabelStyle::Module));
    assert_eq!(LabelStyle::of_symbol(SymbolKind::Function), Some(LabelStyle::Function));
    assert_eq!(LabelStyle::of_symbol(SymbolKind::Operator), None);
}
