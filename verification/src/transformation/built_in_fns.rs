//! Built-in transformation helpers: projection expressions, neighbor
//! sampling specifications, aggregators and random-walk paths.

use crate::feature::FeatureValueType;
use crate::GfsError;
use vstd::prelude::*;
use vstd::string::*;

verus! {

pub open spec fn is_alpha(c: char) -> bool {
    ('a' <= c && c <= 'z') || ('A' <= c && c <= 'Z')
}

pub open spec fn is_digit_ch(c: char) -> bool {
    '0' <= c && c <= '9'
}

pub open spec fn is_ident_char(c: char) -> bool {
    is_alpha(c) || is_digit_ch(c) || c == '_'
}

/// A bare column identifier: a letter or underscore followed by letters,
/// digits or underscores.
pub open spec fn is_identifier(s: Seq<char>) -> bool {
    s.len() > 0 && (is_alpha(s[0]) || s[0] == '_') && forall|i: int|
        0 <= i < s.len() ==> is_ident_char(#[trigger] s[i])
}

/// A numeric literal: digits only.
pub open spec fn is_numeral(s: Seq<char>) -> bool {
    s.len() > 0 && forall|i: int| 0 <= i < s.len() ==> is_digit_ch(#[trigger] s[i])
}

/// Parenthesis balance of `s`: opens minus closes.
pub open spec fn paren_score(s: Seq<char>) -> int
    decreases s.len(),
{
    if s.len() == 0 {
        0
    } else {
        paren_score(s.drop_last()) + (if s.last() == '(' {
            1int
        } else if s.last() == ')' {
            -1int
        } else {
            0int
        })
    }
}

/// A well-formed expression: non-empty, with balanced parentheses and no
/// prefix that closes more than it opened.
pub open spec fn expr_well_formed(s: Seq<char>) -> bool {
    s.len() > 0 && paren_score(s) == 0 && forall|k: int|
        0 <= k <= s.len() ==> paren_score(#[trigger] s.subrange(0, k)) >= 0
}

/// The result type inferred for an expression: a numeric literal is an
/// `Int`, a bare identifier keeps its source column's text form (`String`),
/// and any compound expression is treated as a numeric feature (`Float`).
pub open spec fn spec_infer_type(s: Seq<char>) -> FeatureValueType {
    if is_numeral(s) {
        FeatureValueType::Int
    } else if is_identifier(s) {
        FeatureValueType::String
    } else {
        FeatureValueType::Float
    }
}

/// The output column name derived from an expression: the expression itself
/// when it is a bare identifier, absent otherwise (callers then use a
/// positional default).
pub open spec fn spec_col_name(s: Seq<char>) -> Option<Seq<char>> {
    if is_identifier(s) {
        Some(s)
    } else {
        None
    }
}

fn is_alpha_char(c: char) -> (b: bool)
    ensures
        b == is_alpha(c),
{
    ('a' <= c && c <= 'z') || ('A' <= c && c <= 'Z')
}

fn is_digit_char2(c: char) -> (b: bool)
    ensures
        b == is_digit_ch(c),
{
    '0' <= c && c <= '9'
}

fn is_ident_char_exec(c: char) -> (b: bool)
    ensures
        b == is_ident_char(c),
{
    is_alpha_char(c) || is_digit_char2(c) || c == '_'
}

/// Executable mirror of [`is_identifier`].
pub fn check_identifier(s: &str) -> (b: bool)
    ensures
        b == is_identifier(s@),
{
    let n = s.unicode_len();
    if n == 0 {
        return false;
    }
    let c0 = s.get_char(0);
    if !(is_alpha_char(c0) || c0 == '_') {
        return false;
    }
    let mut i: usize = 0;
    while i < n
        invariant
            i <= n,
            n == s@.len(),
            forall|j: int| 0 <= j < i ==> is_ident_char(#[trigger] s@[j]),
        decreases n - i,
    {
        if !is_ident_char_exec(s.get_char(i)) {
            return false;
        }
        i = i + 1;
    }
    true
}

/// Executable mirror of [`is_numeral`].
pub fn check_numeral(s: &str) -> (b: bool)
    ensures
        b == is_numeral(s@),
{
    let n = s.unicode_len();
    if n == 0 {
        return false;
    }
    let mut i: usize = 0;
    while i < n
        invariant
            i <= n,
            n == s@.len(),
            forall|j: int| 0 <= j < i ==> is_digit_ch(#[trigger] s@[j]),
        decreases n - i,
    {
        if !is_digit_char2(s.get_char(i)) {
            return false;
        }
        i = i + 1;
    }
    true
}

/// Executable mirror of [`expr_well_formed`].
pub fn check_well_formed(s: &str) -> (b: bool)
    ensures
        b == expr_well_formed(s@),
{
    let n = s.unicode_len();
    if n == 0 {
        return false;
    }
    let mut i: usize = 0;
    let mut score: i128 = 0;
    while i < n
        invariant
            i <= n,
            n == s@.len(),
            score == paren_score(s@.subrange(0, i as int)),
            -(i as int) <= score <= i as int,
            forall|k: int| 0 <= k <= i ==> paren_score(#[trigger] s@.subrange(0, k)) >= 0,
        decreases n - i,
    {
        let c = s.get_char(i);
        proof {
            let prev = s@.subrange(0, i as int);
            let cur = s@.subrange(0, i + 1);
            assert(cur.drop_last() =~= prev);
            assert(cur.last() == s@[i as int]);
            assert(cur.len() == i + 1);
        }
        if c == '(' {
            score = score + 1;
        } else if c == ')' {
            score = score - 1;
            if score < 0 {
                return false;
            }
        }
        i = i + 1;
    }
    proof {
        assert(s@.subrange(0, n as int) =~= s@);
        if score == 0 {
            assert forall|k: int| 0 <= k <= s@.len() implies paren_score(
                #[trigger] s@.subrange(0, k),
            ) >= 0 by {}
        } else {
            assert(paren_score(s@) != 0);
        }
    }
    score == 0
}

/// A compiled projection expression: the source text and the result type
/// inferred for it.
#[derive(Debug)]
pub struct Expression {
    pub text: String,
    pub value_type: FeatureValueType,
}

pub ghost struct ExpressionView {
    pub text: Seq<char>,
    pub value_type: FeatureValueType,
}

impl View for Expression {
    type V = ExpressionView;

    open spec fn view(&self) -> ExpressionView {
        ExpressionView { text: self.text@, value_type: self.value_type }
    }
}

impl DeepView for Expression {
    type V = ExpressionView;

    open spec fn deep_view(&self) -> ExpressionView {
        self.view()
    }
}

impl Expression {
    /// Compiles an expression; a malformed expression (empty, or with
    /// unbalanced parentheses) is a `ValidationError`.
    pub fn new(text: &str) -> (r: Result<Expression, GfsError>)
        ensures
            match r {
                Ok(e) => expr_well_formed(text@) && e@.text == text@ && e@.value_type
                    == spec_infer_type(text@),
                Err(e) => e == GfsError::ValidationError && !expr_well_formed(text@),
            },
    {
        if !check_well_formed(text) {
            return Err(GfsError::ValidationError);
        }
        let value_type = if check_numeral(text) {
            FeatureValueType::Int
        } else if check_identifier(text) {
            FeatureValueType::String
        } else {
            FeatureValueType::Float
        };
        Ok(Expression { text: String::from_str(text), value_type })
    }

    /// The inferred result type.
    pub fn get_type(&self) -> (t: FeatureValueType)
        ensures
            t == self@.value_type,
    {
        self.value_type.duplicate()
    }

    /// The output column name derived from the expression, if any.
    pub fn get_col_name(&self) -> (r: Option<String>)
        ensures
            r.deep_view() == spec_col_name(self@.text),
    {
        if check_identifier(self.text.as_str()) {
            Some(self.text.clone())
        } else {
            None
        }
    }

    /// A structural copy whose equality with the original is known to
    /// verified callers.
    pub fn duplicate(&self) -> (r: Self)
        ensures
            r@ == self@,
    {
        Expression { text: self.text.clone(), value_type: self.value_type.duplicate() }
    }

    /// The expression's source text.
    pub fn text_string(&self) -> (r: String)
        ensures
            r@ == self@.text,
    {
        self.text.clone()
    }
}

/// How neighbors are drawn by a sampling node.
#[derive(Debug)]
pub enum SamplingSpec {
    /// One-hop neighbor sampling.
    Neighbor { fanout: u32, edge_type: Option<String>, replace: bool },
    /// k-hop neighbor sampling with per-hop fanouts and edge types (already
    /// broadcast to one entry per hop; the edge-type list is empty when all
    /// edge types are traversed).
    KHopNeighbor { fanouts: Vec<u32>, edge_types: Vec<String>, replace: bool },
}

pub ghost enum SamplingSpecView {
    Neighbor { fanout: u32, edge_type: Option<Seq<char>>, replace: bool },
    KHopNeighbor { fanouts: Seq<u32>, edge_types: Seq<Seq<char>>, replace: bool },
}

impl View for SamplingSpec {
    type V = SamplingSpecView;

    open spec fn view(&self) -> SamplingSpecView {
        match self {
            SamplingSpec::Neighbor { fanout, edge_type, replace } => SamplingSpecView::Neighbor {
                fanout: *fanout,
                edge_type: edge_type.deep_view(),
                replace: *replace,
            },
            SamplingSpec::KHopNeighbor { fanouts, edge_types, replace } => {
                SamplingSpecView::KHopNeighbor {
                    fanouts: fanouts.deep_view(),
                    edge_types: edge_types.deep_view(),
                    replace: *replace,
                }
            },
        }
    }
}

/// How neighbor features are combined by an aggregation node.
#[derive(Debug, Clone, Copy, PartialEq, Eq, Structural)]
pub enum Aggregator {
    Mean,
    Sum,
    Min,
    Max,
    Concat,
}

impl Aggregator {
    /// A structural copy whose equality with the original is known to
    /// verified callers.
    pub fn duplicate(&self) -> (r: Self)
        ensures
            r == *self,
    {
        match self {
            Aggregator::Mean => Aggregator::Mean,
            Aggregator::Sum => Aggregator::Sum,
            Aggregator::Min => Aggregator::Min,
            Aggregator::Max => Aggregator::Max,
            Aggregator::Concat => Aggregator::Concat,
        }
    }
}

/// The hop count and shape of a random walk.
#[derive(Debug, Clone, Copy, PartialEq, Eq, Structural)]
pub struct RandomWalkPath {
    /// Number of transitions from each start vertex.
    pub length: u32,
}

} // verus!
