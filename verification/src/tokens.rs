//! The token model: what the operator search reads of each token tree.

use proc_macro2::{Spacing, TokenTree};
use vstd::prelude::*;

verus! {

/// The declaration that lets `proc_macro2::TokenStream` stand in signatures.
#[verifier::external_type_specification]
#[verifier::external_body]
pub struct ExTokenStream(proc_macro2::TokenStream);

/// The declaration that lets `proc_macro2::TokenTree` stand in signatures.
#[verifier::external_type_specification]
#[verifier::external_body]
pub struct ExTokenTree(proc_macro2::TokenTree);

/// What the operator search reads of one token tree: for a punctuation
/// character, the character and whether it is immediately followed (no
/// whitespace) by another punctuation character; for anything else, nothing.
#[derive(Clone, Copy, Debug, PartialEq, Eq, Structural)]
pub enum TokenKind {
    Punct { ch: char, joint: bool },
    Other,
}

impl TokenKind {
    pub open spec fn spec_is_plus(self) -> bool {
        self matches TokenKind::Punct { ch, .. } && ch == '+'
    }

    pub open spec fn spec_is_minus(self) -> bool {
        self matches TokenKind::Punct { ch, .. } && ch == '-'
    }

    pub open spec fn spec_is_joint(self) -> bool {
        self matches TokenKind::Punct { joint, .. } && joint
    }

    /// `true` when the token is a `+` punctuation character.
    pub fn is_plus(&self) -> (r: bool)
        ensures
            r == self.spec_is_plus(),
    {
        match self {
            TokenKind::Punct { ch, .. } => *ch == '+',
            TokenKind::Other => false,
        }
    }

    /// `true` when the token is a `-` punctuation character.
    pub fn is_minus(&self) -> (r: bool)
        ensures
            r == self.spec_is_minus(),
    {
        match self {
            TokenKind::Punct { ch, .. } => *ch == '-',
            TokenKind::Other => false,
        }
    }

    /// `true` when the token is a punctuation character with joint spacing,
    /// which tells `++` apart from `+ +`.
    pub fn is_joint(&self) -> (r: bool)
        ensures
            r == self.spec_is_joint(),
    {
        match self {
            TokenKind::Punct { joint, .. } => *joint,
            TokenKind::Other => false,
        }
    }
}

/// One token tree of the macro input together with what the search reads of it.
pub struct Token {
    kind: TokenKind,
    tree: proc_macro2::TokenTree,
}

impl Token {
    pub closed spec fn spec_kind(self) -> TokenKind {
        self.kind
    }

    pub closed spec fn spec_tree(self) -> TokenTree {
        self.tree
    }

    /// The stream the token delimits, if it is a group.
    pub(crate) fn inner_stream(&self) -> (r: Option<proc_macro2::TokenStream>)
        ensures
            r == group_stream(self.spec_tree()),
    {
        group_inner(&self.tree)
    }

    pub fn kind(&self) -> (k: TokenKind)
        ensures
            k == self.spec_kind(),
    {
        self.kind
    }
}

/// The kinds of the top-level token trees that a stream holds, in order.
pub uninterp spec fn stream_kinds(s: proc_macro2::TokenStream) -> Seq<TokenKind>;

/// The top-level token trees that a stream holds, in order.
pub uninterp spec fn stream_trees(s: proc_macro2::TokenStream) -> Seq<TokenTree>;

/// The stream that gathering these trees, in order, gives.
pub uninterp spec fn stream_from(trees: Seq<TokenTree>) -> proc_macro2::TokenStream;

/// The stream that a tree delimits (`Group::stream`), for a group; `None`
/// for a punctuation character, an identifier or a literal.
pub uninterp spec fn group_stream(t: TokenTree) -> Option<proc_macro2::TokenStream>;

/// How deeply groups nest in a stream: 0 for a stream of no group, else one
/// more than the deepest stream that one of its groups delimits.
pub uninterp spec fn stream_depth(s: proc_macro2::TokenStream) -> nat;

/// Every group among `trees` delimits a stream nested less deeply than `depth`.
pub open spec fn groups_below(trees: Seq<TokenTree>, depth: nat) -> bool {
    forall|i: int|
        0 <= i < trees.len() ==> (#[trigger] group_stream(trees[i]) matches Some(g) ==> stream_depth(g) < depth)
}

/// The trees of a sequence of tokens.
pub open spec fn trees_of(tokens: Seq<Token>) -> Seq<TokenTree> {
    tokens.map_values(|t: Token| t.spec_tree())
}

/// The kinds of a sequence of tokens.
pub open spec fn kinds_of(tokens: Seq<Token>) -> Seq<TokenKind> {
    tokens.map_values(|t: Token| t.spec_kind())
}

/// Splits a stream into its top-level token trees (`IntoIterator` for
/// `proc_macro2::TokenStream`), recording for each tree its punctuation
/// character (`Punct::as_char`) and spacing (`Punct::spacing`).
/// Claimed: the tokens hold the stream's trees, in order, and their kinds
/// are the kinds of those trees; each group among them delimits a stream
/// nested less deeply than the stream it stands in.
#[verifier::external_body]
pub(crate) fn tokens_of(input: proc_macro2::TokenStream) -> (tokens: Vec<Token>)
    ensures
        trees_of(tokens@) == stream_trees(input),
        kinds_of(tokens@) == stream_kinds(input),
        groups_below(trees_of(tokens@), stream_depth(input)),
{
    input.into_iter().map(|tree| {
        let kind = match &tree {
            TokenTree::Punct(p) => TokenKind::Punct {
                ch: p.as_char(),
                joint: match p.spacing() {
                    Spacing::Joint => true,
                    Spacing::Alone => false,
                },
            },
            TokenTree::Group(_) | TokenTree::Ident(_) | TokenTree::Literal(_) => TokenKind::Other,
        };
        Token { kind, tree }
    }).collect()
}

/// Gathers the tokens' trees into a stream (`FromIterator<TokenTree>` for
/// `proc_macro2::TokenStream`).  Claimed: the result is the stream that
/// gathering those trees gives.
#[verifier::external_body]
pub(crate) fn stream_of(tokens: Vec<Token>) -> (s: proc_macro2::TokenStream)
    ensures
        s == stream_from(trees_of(tokens@)),
{
    tokens.into_iter().map(|t| t.tree).collect()
}

/// The stream a group delimits (`Group::stream`, which clones it), or `None`
/// for a tree that is not a group.  Claimed: it is `group_stream` of the tree.
#[verifier::external_body]
fn group_inner(tree: &TokenTree) -> (r: Option<proc_macro2::TokenStream>)
    ensures
        r == group_stream(*tree),
{
    match tree {
        TokenTree::Group(g) => Some(g.stream()),
        TokenTree::Ident(_) | TokenTree::Punct(_) | TokenTree::Literal(_) => None,
    }
}

} // verus!
