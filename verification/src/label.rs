//! Code labels: a completion or symbol entry rendered as a small Elixir
//! fragment, with the byte spans an editor highlights and filters by.

use crate::provisioner::ElixirLs;
use crate::text::{byte_len, joined, lemma_utf8_concat};
use vstd::prelude::*;
use vstd::string::*;
use vstd::utf8::*;

verus! {

/// The kind of a completion entry, as the language-server protocol numbers
/// them; `Other` carries a number outside the protocol's list.
#[derive(Clone, Copy, Debug, PartialEq, Eq, Structural)]
pub enum CompletionKind {
    Text,
    Method,
    Function,
    Constructor,
    Field,
    Variable,
    Class,
    Interface,
    Module,
    Property,
    Unit,
    Value,
    Enum,
    Keyword,
    Snippet,
    Color,
    File,
    Reference,
    Folder,
    EnumMember,
    Constant,
    Struct,
    Event,
    Operator,
    TypeParameter,
    Other(i32),
}

/// The kind of a symbol entry.
#[derive(Clone, Copy, Debug, PartialEq, Eq, Structural)]
pub enum SymbolKind {
    File,
    Module,
    Namespace,
    Package,
    Class,
    Method,
    Property,
    Field,
    Constructor,
    Enum,
    Interface,
    Function,
    Variable,
    Constant,
    String,
    Number,
    Boolean,
    Array,
    Object,
    Key,
    Null,
    EnumMember,
    Struct,
    Event,
    Operator,
    TypeParameter,
    Other(i32),
}

/// A completion entry: its label and, where the server gave one, its kind.
#[derive(Clone, Debug)]
pub struct Completion {
    pub label: String,
    pub kind: Option<CompletionKind>,
}

/// A symbol entry.
#[derive(Clone, Debug)]
pub struct Symbol {
    pub kind: SymbolKind,
    pub name: String,
}

/// A half-open range of byte offsets, `[start, end)`.
#[derive(Clone, Copy, Debug, PartialEq, Eq, Structural)]
pub struct ByteRange {
    pub start: usize,
    pub end: usize,
}

/// A span of a label that is displayed.
#[derive(Clone, Copy, Debug, PartialEq, Eq, Structural)]
pub enum CodeLabelSpan {
    /// A range of bytes of the label's code.
    CodeRange(ByteRange),
}

/// A code fragment standing for an entry.
///
/// `spans` index into the UTF-8 bytes of `code`; `filter_range` indexes into
/// the bytes of the entry's bare name.
#[derive(Clone, Debug)]
pub struct CodeLabel {
    pub code: String,
    pub spans: Vec<CodeLabelSpan>,
    pub filter_range: ByteRange,
}

/// The three shapes of fragment.
#[derive(Clone, Copy, Debug, PartialEq, Eq, Structural)]
pub enum LabelStyle {
    /// `defmodule NAME`
    Module,
    /// `def NAME`
    Function,
    /// `def a NAME b`
    Operator,
}

impl LabelStyle {
    /// What stands before the name.
    pub open spec fn spec_prefix(self) -> Seq<char> {
        match self {
            LabelStyle::Module => "defmodule "@,
            LabelStyle::Function => "def "@,
            LabelStyle::Operator => "def a "@,
        }
    }

    /// What stands behind the name.
    pub open spec fn spec_suffix(self) -> Seq<char> {
        match self {
            LabelStyle::Operator => " b"@,
            _ => Seq::<char>::empty(),
        }
    }

    /// The number of bytes of the prefix.
    pub open spec fn spec_prefix_len(self) -> nat {
        match self {
            LabelStyle::Module => 10,
            LabelStyle::Function => 4,
            LabelStyle::Operator => 6,
        }
    }

    /// The style of a completion of the given kind, if it gets a label.
    pub open spec fn spec_of_completion(kind: Option<CompletionKind>) -> Option<LabelStyle> {
        match kind {
            Some(CompletionKind::Module)
            | Some(CompletionKind::Class)
            | Some(CompletionKind::Interface)
            | Some(CompletionKind::Struct) => Some(LabelStyle::Module),
            Some(CompletionKind::Function) | Some(CompletionKind::Constant) => Some(
                LabelStyle::Function,
            ),
            Some(CompletionKind::Operator) => Some(LabelStyle::Operator),
            _ => None,
        }
    }

    /// The style of a symbol of the given kind, if it gets a label.
    pub open spec fn spec_of_symbol(kind: SymbolKind) -> Option<LabelStyle> {
        match kind {
            SymbolKind::Module
            | SymbolKind::Class
            | SymbolKind::Interface
            | SymbolKind::Struct => Some(LabelStyle::Module),
            SymbolKind::Function | SymbolKind::Constant => Some(LabelStyle::Function),
            _ => None,
        }
    }

    /// The prefix is plain ASCII, one byte for each character.
    pub proof fn lemma_prefix_len(self)
        ensures
            encode_utf8(self.spec_prefix()).len() == self.spec_prefix_len(),
            self.spec_prefix().len() == self.spec_prefix_len(),
    {
        reveal_strlit("defmodule ");
        reveal_strlit("def ");
        reveal_strlit("def a ");
        let p = self.spec_prefix();
        assert(is_ascii_chars(p));
        is_ascii_chars_encode_utf8(p);
    }

    #[verifier::when_used_as_spec(spec_of_completion)]
    pub fn of_completion(kind: Option<CompletionKind>) -> (style: Option<LabelStyle>)
        ensures
            style == Self::spec_of_completion(kind),
    {
        match kind {
            Some(CompletionKind::Module)
            | Some(CompletionKind::Class)
            | Some(CompletionKind::Interface)
            | Some(CompletionKind::Struct) => Some(LabelStyle::Module),
            Some(CompletionKind::Function) | Some(CompletionKind::Constant) => Some(
                LabelStyle::Function,
            ),
            Some(CompletionKind::Operator) => Some(LabelStyle::Operator),
            _ => None,
        }
    }

    #[verifier::when_used_as_spec(spec_of_symbol)]
    pub fn of_symbol(kind: SymbolKind) -> (style: Option<LabelStyle>)
        ensures
            style == Self::spec_of_symbol(kind),
    {
        match kind {
            SymbolKind::Module
            | SymbolKind::Class
            | SymbolKind::Interface
            | SymbolKind::Struct => Some(LabelStyle::Module),
            SymbolKind::Function | SymbolKind::Constant => Some(LabelStyle::Function),
            _ => None,
        }
    }

    /// The fragment of this style for `name`.
    pub fn label(self, name: &str) -> (label: CodeLabel)
        ensures
            label.is_label_of(self, name@),
    {
        let (prefix, suffix) = match self {
            LabelStyle::Module => ("defmodule ", ""),
            LabelStyle::Function => ("def ", ""),
            LabelStyle::Operator => ("def a ", " b"),
        };
        proof {
            reveal_strlit("");
            reveal_strlit(" b");
            assert(suffix@ =~= self.spec_suffix());
            self.lemma_prefix_len();
        }
        let mut code = joined(prefix, name);
        code.append(suffix);
        let start = byte_len(prefix);
        let name_len = byte_len(name);
        let code_len = byte_len(code.as_str());
        proof {
            lemma_utf8_concat(prefix@ + name@, suffix@);
            lemma_utf8_concat(prefix@, name@);
            assert(code_len == start + name_len + encode_utf8(suffix@).len());
        }
        let end = start + name_len;
        let spans = vec![CodeLabelSpan::CodeRange(ByteRange { start, end })];
        proof {
            assert(prefix@ == self.spec_prefix());
            assert(code@ == self.spec_prefix() + name@ + self.spec_suffix());
            assert(spans@ =~= seq![CodeLabelSpan::CodeRange(ByteRange { start, end })]);
        }
        CodeLabel { code, spans, filter_range: ByteRange { start: 0, end: name_len } }
    }
}

impl CodeLabel {
    /// The bytes of the code.
    pub open spec fn spec_code_bytes(&self) -> Seq<u8> {
        encode_utf8(self.code@)
    }

    /// This label is the fragment of the given style for `name`: the code is
    /// prefix, name and suffix; the one displayed span covers the bytes of
    /// the name inside the code; the filter range covers the bare name from
    /// its first byte.
    pub open spec fn is_label_of(&self, style: LabelStyle, name: Seq<char>) -> bool {
        &&& self.code@ == style.spec_prefix() + name + style.spec_suffix()
        &&& self.spans@ == seq![
            CodeLabelSpan::CodeRange(
                ByteRange {
                    start: style.spec_prefix_len() as usize,
                    end: (style.spec_prefix_len() + encode_utf8(name).len()) as usize,
                },
            ),
        ]
        &&& style.spec_prefix_len() + encode_utf8(name).len() <= usize::MAX
        &&& self.filter_range == ByteRange { start: 0, end: encode_utf8(name).len() as usize }
    }

    /// The displayed span of a label selects, among the bytes of its code,
    /// exactly the bytes of the name, and lies inside the code; the filter
    /// range is as long as the name.
    pub proof fn lemma_display_span_selects_name(&self, style: LabelStyle, name: Seq<char>)
        requires
            self.is_label_of(style, name),
        ensures
            self.spans@.len() == 1,
            self.spans@[0] matches CodeLabelSpan::CodeRange(span) && {
                &&& 0 <= span.start <= span.end <= self.spec_code_bytes().len()
                &&& self.spec_code_bytes().subrange(span.start as int, span.end as int)
                    == encode_utf8(name)
            },
            self.filter_range.start == 0,
            self.filter_range.end - self.filter_range.start == encode_utf8(name).len(),
            style != LabelStyle::Operator ==> self.code@ == style.spec_prefix() + name,
    {
        style.lemma_prefix_len();
        let p = style.spec_prefix();
        let s = style.spec_suffix();
        lemma_utf8_concat(p + name, s);
        lemma_utf8_concat(p, name);
        let bytes = self.spec_code_bytes();
        assert(bytes == encode_utf8(p) + encode_utf8(name) + encode_utf8(s));
        let start = encode_utf8(p).len() as int;
        let end = start + encode_utf8(name).len();
        assert(bytes.subrange(start, end) =~= encode_utf8(name));
        if style != LabelStyle::Operator {
            assert(p + name + s =~= p + name);
        }
    }
}

impl ElixirLs {
    /// The label of a completion entry: `Some` exactly for the kinds that
    /// have a style, and then the fragment of that style for the entry's
    /// label.
    pub fn label_for_completion(&self, completion: Completion) -> (label: Option<CodeLabel>)
        ensures
            match LabelStyle::spec_of_completion(completion.kind) {
                Some(style) => label.is_some() && label.unwrap().is_label_of(
                    style,
                    completion.label@,
                ),
                None => label.is_none(),
            },
    {
        match LabelStyle::of_completion(completion.kind) {
            Some(style) => Some(style.label(completion.label.as_str())),
            None => None,
        }
    }

    /// The label of a symbol entry: `Some` exactly for the kinds that have a
    /// style, and then the fragment of that style for the symbol's name.
    pub fn label_for_symbol(&self, symbol: Symbol) -> (label: Option<CodeLabel>)
        ensures
            match LabelStyle::spec_of_symbol(symbol.kind) {
                Some(style) => label.is_some() && label.unwrap().is_label_of(style, symbol.name@),
                None => label.is_none(),
            },
    {
        match LabelStyle::of_symbol(symbol.kind) {
            Some(style) => Some(style.label(symbol.name.as_str())),
            None => None,
        }
    }
}

} // verus!
