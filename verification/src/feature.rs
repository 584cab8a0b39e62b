//! The resource model: identity and serialized shape of every registrable
//! definition.

use crate::identity::two_slashes;
use crate::GfsError;
use crate::ResourceId;
use vstd::prelude::*;
use vstd::string::*;

mod entity;
mod feature_view;
mod field;
mod graph;
mod transformation;

pub use entity::{
    lemma_entity_round_trip, rd_entity, spec_entity_id, spec_entity_tokens, Entity, EntityType,
    EntityTypeView, EntityView,
};
pub use feature_view::{
    lemma_table_view_round_trip, lemma_topology_view_round_trip, rd_table_view, rd_topology_view,
    read_topology_type, spec_table_view_id, spec_table_view_tokens, spec_topology_view_id,
    spec_topology_view_tokens, toks_opt_topology_type, write_opt_topology_type, FeatureView,
    FeatureViewView, TableFeatureView, TableFeatureViewView, TopologyFeatureView,
    TopologyFeatureViewView, TopologyType,
};
pub use field::{
    dup_fields, lemma_field_round_trip, rd_field, spec_field_id, spec_field_tokens, Field,
    FieldView,
};
pub use graph::{
    lemma_graph_round_trip, lemma_topology_round_trip, rd_graph, rd_topology, spec_graph_id,
    spec_graph_tokens, spec_topology_id, spec_topology_tokens, Graph, GraphView, Topology,
    TopologyView,
};
pub use transformation::{
    lemma_transformation_round_trip, rd_transformation, spec_transformation_id,
    spec_transformation_tokens, Transformation, TransformationType, TransformationView,
};

verus! {

/// A registrable resource: it formats a deterministic id and serializes to a
/// flat token list.
pub trait ResourceOp: Sized + View {
    /// Inputs on which the resource's id can be formatted at all.
    spec fn id_wf(&self) -> bool;

    /// The id the resource formats to.
    spec fn spec_id(&self) -> Seq<char>;

    /// The token list the resource serializes to.
    spec fn spec_tokens(&self) -> Seq<Seq<char>>;

    /// How this kind reads a name back out of one of its ids.
    spec fn spec_id_to_name(id: Seq<char>) -> Seq<char>;

    /// Formats the resource's id.
    fn resource_id(&self) -> (r: ResourceId)
        requires
            self.id_wf(),
        ensures
            r@ == self.spec_id(),
    ;

    /// Serializes the resource to its token list.
    fn to_tokens(&self) -> (toks: Vec<String>)
        ensures
            toks.deep_view() == self.spec_tokens(),
    ;

    /// Extracts the name segment from an id of this kind.
    fn id_to_name(id: &str) -> (r: String)
        requires
            two_slashes(id@),
        ensures
            r@ == Self::spec_id_to_name(id@),
    ;
}

/// The closed set of field value types, plus arrays over them.
#[derive(Debug, PartialEq, Eq)]
pub enum FeatureValueType {
    String,
    Int,
    Float,
    Boolean,
    Date,
    Time,
    DateTime,
    Duration,
    Topology,
    Array(Box<FeatureValueType>),
}

impl FeatureValueType {
    /// A structural copy (written out so that verified callers know the
    /// copy equals the original).
    pub fn duplicate(&self) -> (r: Self)
        ensures
            r == *self,
        decreases self,
    {
        match self {
            FeatureValueType::String => FeatureValueType::String,
            FeatureValueType::Int => FeatureValueType::Int,
            FeatureValueType::Float => FeatureValueType::Float,
            FeatureValueType::Boolean => FeatureValueType::Boolean,
            FeatureValueType::Date => FeatureValueType::Date,
            FeatureValueType::Time => FeatureValueType::Time,
            FeatureValueType::DateTime => FeatureValueType::DateTime,
            FeatureValueType::Duration => FeatureValueType::Duration,
            FeatureValueType::Topology => FeatureValueType::Topology,
            FeatureValueType::Array(t) => FeatureValueType::Array(Box::new(t.duplicate())),
        }
    }
}

/// Tokens of a value type: a one-letter tag, and for arrays the element
/// type's tokens after an `a` tag.
pub open spec fn toks_value_type(t: FeatureValueType) -> Seq<Seq<char>>
    decreases t,
{
    match t {
        FeatureValueType::String => seq![seq!['s']],
        FeatureValueType::Int => seq![seq!['i']],
        FeatureValueType::Float => seq![seq!['f']],
        FeatureValueType::Boolean => seq![seq!['b']],
        FeatureValueType::Date => seq![seq!['d']],
        FeatureValueType::Time => seq![seq!['t']],
        FeatureValueType::DateTime => seq![seq!['h']],
        FeatureValueType::Duration => seq![seq!['u']],
        FeatureValueType::Topology => seq![seq!['y']],
        FeatureValueType::Array(inner) => seq![seq!['a']] + toks_value_type(*inner),
    }
}

/// A copy of an optional string whose equality with the original is known
/// to verified callers.
pub fn dup_opt_string(v: &Option<String>) -> (r: Option<String>)
    ensures
        r.deep_view() == v.deep_view(),
{
    match v {
        None => None,
        Some(s) => Some(s.clone()),
    }
}

/// A copy of a string list whose equality with the original is known to
/// verified callers.
pub fn dup_strings(v: &Vec<String>) -> (r: Vec<String>)
    ensures
        r.deep_view() == v.deep_view(),
{
    let mut out: Vec<String> = Vec::new();
    let mut i: usize = 0;
    while i < v.len()
        invariant
            i <= v.len(),
            out.deep_view() == v.deep_view().subrange(0, i as int),
        decreases v.len() - i,
    {
        let ghost prev = out.deep_view();
        out.push(v[i].clone());
        proof {
            assert(out.deep_view() =~= prev.push(v@[i as int]@));
            assert(out.deep_view() =~= v.deep_view().subrange(0, i + 1));
        }
        i = i + 1;
    }
    proof {
        assert(v.deep_view().subrange(0, v.len() as int) =~= v.deep_view());
    }
    out
}

/// A copy of a tag list whose equality with the original is known to
/// verified callers.
pub fn dup_pairs(v: &Vec<(String, String)>) -> (r: Vec<(String, String)>)
    ensures
        r.deep_view() == v.deep_view(),
{
    let mut out: Vec<(String, String)> = Vec::new();
    let mut i: usize = 0;
    while i < v.len()
        invariant
            i <= v.len(),
            out.deep_view() == v.deep_view().subrange(0, i as int),
        decreases v.len() - i,
    {
        let ghost prev = out.deep_view();
        out.push((v[i].0.clone(), v[i].1.clone()));
        proof {
            assert(out.deep_view() =~= prev.push((v@[i as int].0@, v@[i as int].1@)));
            assert(out.deep_view() =~= v.deep_view().subrange(0, i + 1));
        }
        i = i + 1;
    }
    proof {
        assert(v.deep_view().subrange(0, v.len() as int) =~= v.deep_view());
    }
    out
}

pub open spec fn rd_value_type(ts: Seq<Seq<char>>, pos: int) -> Option<(FeatureValueType, int)>
    decreases ts.len() - pos,
{
    if 0 <= pos < ts.len() {
        let t = ts[pos];
        if t.len() == 1 && t[0] == 's' {
            Some((FeatureValueType::String, pos + 1))
        } else if t.len() == 1 && t[0] == 'i' {
            Some((FeatureValueType::Int, pos + 1))
        } else if t.len() == 1 && t[0] == 'f' {
            Some((FeatureValueType::Float, pos + 1))
        } else if t.len() == 1 && t[0] == 'b' {
            Some((FeatureValueType::Boolean, pos + 1))
        } else if t.len() == 1 && t[0] == 'd' {
            Some((FeatureValueType::Date, pos + 1))
        } else if t.len() == 1 && t[0] == 't' {
            Some((FeatureValueType::Time, pos + 1))
        } else if t.len() == 1 && t[0] == 'h' {
            Some((FeatureValueType::DateTime, pos + 1))
        } else if t.len() == 1 && t[0] == 'u' {
            Some((FeatureValueType::Duration, pos + 1))
        } else if t.len() == 1 && t[0] == 'y' {
            Some((FeatureValueType::Topology, pos + 1))
        } else if t.len() == 1 && t[0] == 'a' {
            match rd_value_type(ts, pos + 1) {
                Some((inner, p)) => Some((FeatureValueType::Array(Box::new(inner)), p)),
                None => None,
            }
        } else {
            None
        }
    } else {
        None
    }
}

/// Reading value-type tokens laid down mid-stream recovers the type.
pub proof fn lemma_rd_value_type(ts: Seq<Seq<char>>, pos: int, t: FeatureValueType)
    requires
        0 <= pos,
        pos + toks_value_type(t).len() <= ts.len(),
        forall|i: int|
            0 <= i < toks_value_type(t).len() ==> ts[pos + i] == #[trigger] toks_value_type(t)[i],
    ensures
        rd_value_type(ts, pos) == Some((t, pos + toks_value_type(t).len())),
    decreases t,
{
    lemma_value_type_tags_distinct(t);
    match t {
        FeatureValueType::Array(inner) => {
            assert(toks_value_type(t)[0] == seq!['a']);
            assert(ts[pos] == seq!['a']);
            assert forall|i: int|
                0 <= i < toks_value_type(*inner).len() implies ts[pos + 1 + i] == #[trigger]
            toks_value_type(*inner)[i] by {
                assert(toks_value_type(t)[1 + i] == toks_value_type(*inner)[i]);
            }
            lemma_rd_value_type(ts, pos + 1, *inner);
        },
        _ => {
            assert(toks_value_type(t).len() == 1);
            assert(ts[pos] == toks_value_type(t)[0]);
        },
    }
}

/// Every value-type token list starts with its own tag, and the tags of
/// distinct heads differ.
proof fn lemma_value_type_tags_distinct(t: FeatureValueType)
    ensures
        toks_value_type(t).len() >= 1,
{
}

pub fn write_value_type(out: &mut Vec<String>, t: &FeatureValueType)
    ensures
        final(out).deep_view() == old(out).deep_view() + toks_value_type(*t),
    decreases t,
{
    proof {
        reveal_strlit("s");
        reveal_strlit("i");
        reveal_strlit("f");
        reveal_strlit("b");
        reveal_strlit("d");
        reveal_strlit("t");
        reveal_strlit("h");
        reveal_strlit("u");
        reveal_strlit("y");
        reveal_strlit("a");
    }
    match t {
        FeatureValueType::String => {
            out.push(String::from_str("s"));
            proof {
                assert("s"@ =~= seq!['s']);
                assert(out.deep_view() =~= old(out).deep_view() + toks_value_type(*t));
            }
        },
        FeatureValueType::Int => {
            out.push(String::from_str("i"));
            proof {
                assert("i"@ =~= seq!['i']);
                assert(out.deep_view() =~= old(out).deep_view() + toks_value_type(*t));
            }
        },
        FeatureValueType::Float => {
            out.push(String::from_str("f"));
            proof {
                assert("f"@ =~= seq!['f']);
                assert(out.deep_view() =~= old(out).deep_view() + toks_value_type(*t));
            }
        },
        FeatureValueType::Boolean => {
            out.push(String::from_str("b"));
            proof {
                assert("b"@ =~= seq!['b']);
                assert(out.deep_view() =~= old(out).deep_view() + toks_value_type(*t));
            }
        },
        FeatureValueType::Date => {
            out.push(String::from_str("d"));
            proof {
                assert("d"@ =~= seq!['d']);
                assert(out.deep_view() =~= old(out).deep_view() + toks_value_type(*t));
            }
        },
        FeatureValueType::Time => {
            out.push(String::from_str("t"));
            proof {
                assert("t"@ =~= seq!['t']);
                assert(out.deep_view() =~= old(out).deep_view() + toks_value_type(*t));
            }
        },
        FeatureValueType::DateTime => {
            out.push(String::from_str("h"));
            proof {
                assert("h"@ =~= seq!['h']);
                assert(out.deep_view() =~= old(out).deep_view() + toks_value_type(*t));
            }
        },
        FeatureValueType::Duration => {
            out.push(String::from_str("u"));
            proof {
                assert("u"@ =~= seq!['u']);
                assert(out.deep_view() =~= old(out).deep_view() + toks_value_type(*t));
            }
        },
        FeatureValueType::Topology => {
            out.push(String::from_str("y"));
            proof {
                assert("y"@ =~= seq!['y']);
                assert(out.deep_view() =~= old(out).deep_view() + toks_value_type(*t));
            }
        },
        FeatureValueType::Array(inner) => {
            out.push(String::from_str("a"));
            let ghost mid = out.deep_view();
            proof {
                assert("a"@ =~= seq!['a']);
                assert(mid =~= old(out).deep_view() + seq![seq!['a']]);
            }
            write_value_type(out, inner);
            proof {
                assert(old(out).deep_view() + seq![seq!['a']] + toks_value_type(**inner) =~= old(
                    out,
                ).deep_view() + toks_value_type(*t));
            }
        },
    }
}

pub fn read_value_type(ts: &Vec<String>, pos: usize) -> (r: Result<
    (FeatureValueType, usize),
    GfsError,
>)
    ensures
        match r {
            Ok((t, p)) => rd_value_type(ts.deep_view(), pos as int) == Some((t, p as int)),
            Err(e) => e == GfsError::DecodeError && rd_value_type(ts.deep_view(), pos as int)
                == None::<(FeatureValueType, int)>,
        },
    decreases ts.len() - pos,
{
    if pos >= ts.len() {
        return Err(GfsError::DecodeError);
    }
    let t = ts[pos].as_str();
    let ghost tv = ts.deep_view()[pos as int];
    proof {
        reveal_strlit("s");
        reveal_strlit("i");
        reveal_strlit("f");
        reveal_strlit("b");
        reveal_strlit("d");
        reveal_strlit("t");
        reveal_strlit("h");
        reveal_strlit("u");
        reveal_strlit("y");
        reveal_strlit("a");
    }
    if t.unicode_len() != 1 {
        return Err(GfsError::DecodeError);
    }
    let c = t.get_char(0);
    proof {
        assert(tv =~= seq![tv[0]]);
    }
    if c == 's' {
        proof {
            assert(tv =~= "s"@);
        }
        Ok((FeatureValueType::String, pos + 1))
    } else if c == 'i' {
        proof {
            assert(tv =~= "i"@);
        }
        Ok((FeatureValueType::Int, pos + 1))
    } else if c == 'f' {
        proof {
            assert(tv =~= "f"@);
        }
        Ok((FeatureValueType::Float, pos + 1))
    } else if c == 'b' {
        proof {
            assert(tv =~= "b"@);
        }
        Ok((FeatureValueType::Boolean, pos + 1))
    } else if c == 'd' {
        proof {
            assert(tv =~= "d"@);
        }
        Ok((FeatureValueType::Date, pos + 1))
    } else if c == 't' {
        proof {
            assert(tv =~= "t"@);
        }
        Ok((FeatureValueType::Time, pos + 1))
    } else if c == 'h' {
        proof {
            assert(tv =~= "h"@);
        }
        Ok((FeatureValueType::DateTime, pos + 1))
    } else if c == 'u' {
        proof {
            assert(tv =~= "u"@);
        }
        Ok((FeatureValueType::Duration, pos + 1))
    } else if c == 'y' {
        proof {
            assert(tv =~= "y"@);
        }
        Ok((FeatureValueType::Topology, pos + 1))
    } else if c == 'a' {
        proof {
            assert(tv =~= "a"@);
        }
        let (inner, p) = read_value_type(ts, pos + 1)?;
        Ok((FeatureValueType::Array(Box::new(inner)), p))
    } else {
        Err(GfsError::DecodeError)
    }
}

// ---------------------------------------------------------------------------
// Id round trip: extracting the name from a resource's id recovers it
// ---------------------------------------------------------------------------
/// For an entity whose name and variant hold no '/', the name segment of
/// its id is its name — and the trailing-segment extraction used for field
/// ids recovers it as well.
pub proof fn lemma_entity_id_to_name(v: EntityView)
    requires
        crate::identity::slash_free(v.name),
        crate::identity::slash_free(crate::identity::opt_view(v.variant)),
    ensures
        two_slashes(spec_entity_id(v)),
        crate::identity::spec_name_in_id(spec_entity_id(v)) == v.name,
        crate::identity::spec_name_before_last(spec_entity_id(v)) == v.name,
{
    reveal_strlit("Entity");
    assert(crate::identity::slash_free("Entity"@));
    crate::identity::lemma_name_in_resource_id(
        "Entity"@,
        v.name,
        crate::identity::opt_view(v.variant),
    );
    crate::identity::lemma_name_before_last_in_id(
        "Entity"@,
        v.name,
        crate::identity::opt_view(v.variant),
    );
}

/// For a field whose name and variant hold no '/', the trailing-segment
/// extraction on its id recovers its name, whatever the entity segment
/// holds.
pub proof fn lemma_field_id_to_name(v: FieldView)
    requires
        crate::identity::slash_free(v.name),
        crate::identity::slash_free(crate::identity::opt_view(v.variant)),
    ensures
        two_slashes(spec_field_id(v)),
        crate::identity::spec_name_before_last(spec_field_id(v)) == v.name,
{
    crate::identity::lemma_name_before_last_in_id(
        "Field/"@ + crate::identity::spec_name_before_last(v.entity_id),
        v.name,
        crate::identity::opt_view(v.variant),
    );
}

/// Name round trip for table view ids.
pub proof fn lemma_table_view_id_to_name(v: TableFeatureViewView)
    requires
        crate::identity::slash_free(v.name),
        crate::identity::slash_free(crate::identity::opt_view(v.variant)),
    ensures
        two_slashes(spec_table_view_id(v)),
        crate::identity::spec_name_in_id(spec_table_view_id(v)) == v.name,
{
    reveal_strlit("TableFeatureView");
    assert(crate::identity::slash_free("TableFeatureView"@));
    crate::identity::lemma_name_in_resource_id(
        "TableFeatureView"@,
        v.name,
        crate::identity::opt_view(v.variant),
    );
}

/// Name round trip for topology view ids.
pub proof fn lemma_topology_view_id_to_name(v: TopologyFeatureViewView)
    requires
        crate::identity::slash_free(v.name),
        crate::identity::slash_free(crate::identity::opt_view(v.variant)),
    ensures
        two_slashes(spec_topology_view_id(v)),
        crate::identity::spec_name_in_id(spec_topology_view_id(v)) == v.name,
{
    reveal_strlit("TopologyFeatureView");
    assert(crate::identity::slash_free("TopologyFeatureView"@));
    crate::identity::lemma_name_in_resource_id(
        "TopologyFeatureView"@,
        v.name,
        crate::identity::opt_view(v.variant),
    );
}

/// Name round trip for transformation ids.
pub proof fn lemma_transformation_id_to_name(v: TransformationView)
    requires
        crate::identity::slash_free(v.name),
        crate::identity::slash_free(crate::identity::opt_view(v.variant)),
    ensures
        two_slashes(spec_transformation_id(v)),
        crate::identity::spec_name_in_id(spec_transformation_id(v)) == v.name,
{
    reveal_strlit("Transformation");
    assert(crate::identity::slash_free("Transformation"@));
    crate::identity::lemma_name_in_resource_id(
        "Transformation"@,
        v.name,
        crate::identity::opt_view(v.variant),
    );
}

/// Name round trip for graph ids.
pub proof fn lemma_graph_id_to_name(v: GraphView)
    requires
        crate::identity::slash_free(v.name),
        crate::identity::slash_free(crate::identity::opt_view(v.variant)),
    ensures
        two_slashes(spec_graph_id(v)),
        crate::identity::spec_name_in_id(spec_graph_id(v)) == v.name,
{
    reveal_strlit("Graph");
    assert(crate::identity::slash_free("Graph"@));
    crate::identity::lemma_name_in_resource_id(
        "Graph"@,
        v.name,
        crate::identity::opt_view(v.variant),
    );
}

/// Name round trip for topology ids.
pub proof fn lemma_topology_id_to_name(v: TopologyView)
    requires
        crate::identity::slash_free(v.name),
        crate::identity::slash_free(crate::identity::opt_view(v.variant)),
    ensures
        two_slashes(spec_topology_id(v)),
        crate::identity::spec_name_in_id(spec_topology_id(v)) == v.name,
{
    reveal_strlit("Topology");
    assert(crate::identity::slash_free("Topology"@));
    crate::identity::lemma_name_in_resource_id(
        "Topology"@,
        v.name,
        crate::identity::opt_view(v.variant),
    );
}

/// A dataset description handed to graph construction: the feature views of
/// one logical graph.
#[derive(Debug)]
pub enum GraphDataset {
    SingleGraphDataset {
        name: String,
        description: Option<String>,
        feature_views: Vec<FeatureView>,
    },
    MultipleGraphsDataset {
        name: String,
        description: Option<String>,
        feature_views: Vec<FeatureView>,
    },
}

pub ghost enum GraphDatasetView {
    SingleGraphDataset {
        name: Seq<char>,
        description: Option<Seq<char>>,
        feature_views: Seq<FeatureViewView>,
    },
    MultipleGraphsDataset {
        name: Seq<char>,
        description: Option<Seq<char>>,
        feature_views: Seq<FeatureViewView>,
    },
}

impl View for GraphDataset {
    type V = GraphDatasetView;

    open spec fn view(&self) -> GraphDatasetView {
        match self {
            GraphDataset::SingleGraphDataset { name, description, feature_views } => {
                GraphDatasetView::SingleGraphDataset {
                    name: name@,
                    description: description.deep_view(),
                    feature_views: feature_views.deep_view(),
                }
            },
            GraphDataset::MultipleGraphsDataset { name, description, feature_views } => {
                GraphDatasetView::MultipleGraphsDataset {
                    name: name@,
                    description: description.deep_view(),
                    feature_views: feature_views.deep_view(),
                }
            },
        }
    }
}

} // verus!
