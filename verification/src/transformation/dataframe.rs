//! Tabular nodes: ordered, named, typed columns over one origin node.

use crate::feature::{dup_opt_string, dup_strings, Field, ResourceOp};
use crate::identity::two_slashes;
use crate::transformation::built_in_fns::{
    spec_col_name, spec_infer_type, Expression, ExpressionView,
};
use crate::transformation::transformation_context::{
    DataNode, DataNodeView, DataTransformationContext, TransformationContext,
};
use crate::transformation::DataIdT;
use crate::GfsError;
use vstd::prelude::*;
use vstd::seq_lib::*;
use vstd::string::*;

verus! {

/// One column: its origin node, the expression that computed it (if any),
/// the compiled evaluator (if any), and its value type.
#[derive(Debug)]
pub struct Column {
    pub origin: DataIdT,
    pub expr: Option<String>,
    pub encoder: Option<Expression>,
    pub value_type: crate::FeatureValueType,
}

pub ghost struct ColumnView {
    pub origin: DataIdT,
    pub expr: Option<Seq<char>>,
    pub encoder: Option<ExpressionView>,
    pub value_type: crate::FeatureValueType,
}

impl View for Column {
    type V = ColumnView;

    open spec fn view(&self) -> ColumnView {
        ColumnView {
            origin: self.origin,
            expr: self.expr.deep_view(),
            encoder: match &self.encoder {
                Some(e) => Some(e@),
                None => None,
            },
            value_type: self.value_type,
        }
    }
}

impl DeepView for Column {
    type V = ColumnView;

    open spec fn deep_view(&self) -> ColumnView {
        self.view()
    }
}

impl Column {
    /// A plain column of the given origin and type, with no expression and
    /// no evaluator.
    pub fn new(origin: DataIdT, value_type: crate::FeatureValueType) -> (c: Column)
        ensures
            c@.origin == origin,
            c@.expr is None,
            c@.encoder is None,
            c@.value_type == value_type,
    {
        Column { origin, expr: None, encoder: None, value_type }
    }

    /// A structural copy whose equality (by view) with the original is
    /// known to verified callers.
    pub fn duplicate(&self) -> (r: Column)
        ensures
            r@ == self@,
    {
        Column {
            origin: self.origin,
            expr: dup_opt_string(&self.expr),
            encoder: match &self.encoder {
                Some(e) => Some(e.duplicate()),
                None => None,
            },
            value_type: self.value_type.duplicate(),
        }
    }

    /// Converts the column to a field named `name`, stamped with the given
    /// transformation id.  Entity attribution comes from the owning
    /// dataframe where known; otherwise a placeholder entity id is used —
    /// the open attribution question is preserved, not guessed away.
    pub fn to_field(&self, name: &str, transformation_id: String, entity_id: &Option<String>) -> (f:
        Field)
        ensures
            f@.name == name@,
            f@.variant is None,
            f@.value_type == self@.value_type,
            f@.entity_id == spec_field_entity_attribution(entity_id.deep_view()),
            f@.transformation_id == Some(transformation_id@),
            f@.description is None,
            f@.tags.len() == 0,
            f@.owners.len() == 0,
    {
        let eid = match entity_id {
            Some(e) => e.clone(),
            None => String::from_str("Entity/entity_name/"),
        };
        Field {
            name: String::from_str(name),
            variant: None,
            value_type: self.value_type.duplicate(),
            entity_id: eid,
            transformation_id: Some(transformation_id),
            description: None,
            tags: Vec::new(),
            owners: Vec::new(),
        }
    }
}

/// The entity id stamped on an exported column: the owning dataframe's
/// entity where known, else the unresolved placeholder.
pub open spec fn spec_field_entity_attribution(entity_id: Option<Seq<char>>) -> Seq<char> {
    match entity_id {
        Some(e) => e,
        None => "Entity/entity_name/"@,
    }
}

/// A tabular node, initialized from fields or derived by projection.
#[derive(Debug)]
pub struct DataFrame {
    pub context: DataTransformationContext,
    pub name: String,
    /// The entity the frame's columns belong to, where known.
    pub entity_id: Option<String>,
    pub schema: Vec<Column>,
    pub col_names: Vec<String>,
}

pub ghost struct DataFrameView {
    pub id: DataIdT,
    pub name: Seq<char>,
    pub entity_id: Option<Seq<char>>,
    pub schema: Seq<ColumnView>,
    pub col_names: Seq<Seq<char>>,
}

impl View for DataFrame {
    type V = DataFrameView;

    open spec fn view(&self) -> DataFrameView {
        DataFrameView {
            id: self.context.id,
            name: self.name@,
            entity_id: self.entity_id.deep_view(),
            schema: self.schema.deep_view(),
            col_names: self.col_names.deep_view(),
        }
    }
}

impl DeepView for DataFrame {
    type V = DataFrameView;

    open spec fn deep_view(&self) -> DataFrameView {
        self.view()
    }
}

impl DataFrame {
    /// One name per column.
    pub open spec fn wf(&self) -> bool {
        self@.schema.len() == self@.col_names.len()
    }

    /// A structural copy whose equality (by view) with the original is
    /// known to verified callers.
    pub fn duplicate(&self) -> (r: DataFrame)
        ensures
            r@ == self@,
    {
        let mut schema: Vec<Column> = Vec::new();
        let mut i: usize = 0;
        while i < self.schema.len()
            invariant
                i <= self.schema@.len(),
                schema.deep_view() == self.schema.deep_view().subrange(0, i as int),
            decreases self.schema@.len() - i,
        {
            let ghost prev = schema.deep_view();
            let c = self.schema[i].duplicate();
            let ghost cv = c@;
            schema.push(c);
            proof {
                assert(schema.deep_view() =~= prev.push(cv));
                assert(schema.deep_view() =~= self.schema.deep_view().subrange(0, i + 1));
            }
            i = i + 1;
        }
        proof {
            assert(self.schema.deep_view().subrange(0, self.schema@.len() as int)
                =~= self.schema.deep_view());
        }
        DataFrame {
            context: DataTransformationContext { id: self.context.id },
            name: self.name.clone(),
            entity_id: dup_opt_string(&self.entity_id),
            schema,
            col_names: dup_strings(&self.col_names),
        }
    }

    /// A new dataframe over the given source fields: one column per field,
    /// each recording the field's name as its expression.  The node is
    /// appended to the owning context.  Entity attribution is taken from
    /// the first field, pending a resolution of multi-entity frames.
    pub fn new(ctx: &mut TransformationContext, name: &str, schema: Vec<&Field>) -> (df: DataFrame)
        requires
            old(ctx).next_data_id < DataIdT::MAX,
        ensures
            df.wf(),
            df@.id == old(ctx).next_data_id,
            df@.name == name@,
            df@.entity_id == (if schema@.len() > 0 {
                Some(schema@[0]@.entity_id)
            } else {
                None::<Seq<char>>
            }),
            df@.schema.len() == schema@.len(),
            forall|i: int|
                0 <= i < schema@.len() ==> {
                    let c = #[trigger] df@.schema[i];
                    &&& c.origin == df@.id
                    &&& c.expr == Some(schema@[i]@.name)
                    &&& c.encoder is None
                    &&& c.value_type == schema@[i]@.value_type
                },
            df@.col_names == Seq::new(schema@.len(), |i: int| schema@[i]@.name),
            final(ctx).next_data_id == old(ctx).next_data_id + 1,
            final(ctx).data_vec.deep_view() == old(ctx).data_vec.deep_view().push(
                DataNodeView::DataFrame(df@),
            ),
            final(ctx).transformation == old(ctx).transformation,
    {
        let id = ctx.new_data_id();
        let mut cols: Vec<Column> = Vec::new();
        let mut names: Vec<String> = Vec::new();
        let mut i: usize = 0;
        while i < schema.len()
            invariant
                i <= schema@.len(),
                cols.deep_view().len() == i,
                names.deep_view() == Seq::new(i as nat, |k: int| schema@[k]@.name),
                forall|k: int|
                    0 <= k < i ==> {
                        let c = #[trigger] cols.deep_view()[k];
                        &&& c.origin == id
                        &&& c.expr == Some(schema@[k]@.name)
                        &&& c.encoder is None
                        &&& c.value_type == schema@[k]@.value_type
                    },
            decreases schema@.len() - i,
        {
            let f = schema[i];
            let ghost prevc = cols.deep_view();
            let ghost prevn = names.deep_view();
            let c = Column {
                origin: id,
                expr: Some(f.name.clone()),
                encoder: None,
                value_type: f.value_type.duplicate(),
            };
            let ghost cv = c@;
            cols.push(c);
            names.push(f.name.clone());
            proof {
                assert(cols.deep_view() =~= prevc.push(cv));
                assert(names.deep_view() =~= prevn.push(schema@[i as int]@.name));
                assert(names.deep_view() =~= Seq::new((i + 1) as nat, |k: int| schema@[k]@.name));
            }
            i = i + 1;
        }
        let entity_id = if schema.len() > 0 {
            Some(schema[0].entity_id.clone())
        } else {
            None
        };
        let df = DataFrame {
            context: DataTransformationContext { id },
            name: String::from_str(name),
            entity_id,
            schema: cols,
            col_names: names,
        };
        let node = df.duplicate();
        ctx.add_data(DataNode::DataFrame(node));
        df
    }

    /// A single-column dataframe over one source field.
    pub fn from_field(ctx: &mut TransformationContext, field: &Field) -> (df: DataFrame)
        requires
            old(ctx).next_data_id < DataIdT::MAX,
        ensures
            df.wf(),
            df@.id == old(ctx).next_data_id,
            df@.name == field@.name,
            df@.entity_id == Some(field@.entity_id),
            df@.schema.len() == 1,
            df@.schema[0].origin == df@.id,
            df@.schema[0].expr == Some(field@.name),
            df@.schema[0].encoder is None,
            df@.schema[0].value_type == field@.value_type,
            df@.col_names == seq![field@.name],
            final(ctx).next_data_id == old(ctx).next_data_id + 1,
            final(ctx).data_vec.deep_view() == old(ctx).data_vec.deep_view().push(
                DataNodeView::DataFrame(df@),
            ),
            final(ctx).transformation == old(ctx).transformation,
    {
        let name = field.name.clone();
        let fields: Vec<&Field> = vec![field];
        let df = DataFrame::new(ctx, name.as_str(), fields);
        proof {
            assert(df@.col_names =~= seq![field@.name]);
        }
        df
    }

    /// Projects the frame through the given expression strings, one output
    /// column per expression, evaluated independently.  A malformed
    /// expression rejects the whole call with `ValidationError` and leaves
    /// the context untouched.  An output column is named after its
    /// expression when that is a bare identifier, positionally otherwise.
    pub fn select(&self, ctx: &mut TransformationContext, expr: Vec<String>) -> (r: Result<
        DataFrame,
        GfsError,
    >)
        requires
            old(ctx).next_data_id < DataIdT::MAX,
        ensures
            match r {
                Ok(df) => {
                    &&& (forall|i: int|
                        0 <= i < expr@.len() ==> crate::transformation::built_in_fns::expr_well_formed(
                            #[trigger] expr@[i]@,
                        ))
                    &&& df.wf()
                    &&& df@.id == old(ctx).next_data_id
                    &&& df@.name == self@.name
                    &&& df@.entity_id == self@.entity_id
                    &&& df@.schema.len() == expr@.len()
                    &&& (forall|i: int|
                        0 <= i < expr@.len() ==> {
                            let c = #[trigger] df@.schema[i];
                            &&& c.origin == self@.id
                            &&& c.expr == Some(expr@[i]@)
                            &&& c.encoder == Some(
                                ExpressionView {
                                    text: expr@[i]@,
                                    value_type: spec_infer_type(expr@[i]@),
                                },
                            )
                            &&& c.value_type == spec_infer_type(expr@[i]@)
                        })
                    &&& df@.col_names == Seq::new(
                        expr@.len() as nat,
                        |i: int| spec_select_col_name(expr@[i]@, i),
                    )
                    &&& final(ctx).next_data_id == old(ctx).next_data_id + 1
                    &&& final(ctx).data_vec.deep_view() == old(ctx).data_vec.deep_view().push(
                        DataNodeView::DataFrame(df@),
                    )
                    &&& final(ctx).transformation == old(ctx).transformation
                },
                Err(e) => {
                    &&& e == GfsError::ValidationError
                    &&& (exists|i: int|
                        0 <= i < expr@.len()
                            && !crate::transformation::built_in_fns::expr_well_formed(
                            #[trigger] expr@[i]@,
                        ))
                    &&& final(ctx).next_data_id == old(ctx).next_data_id
                    &&& final(ctx).data_vec == old(ctx).data_vec
                    &&& final(ctx).transformation == old(ctx).transformation
                },
            },
    {
        // compile every expression before touching the context
        let mut cols: Vec<Column> = Vec::new();
        let mut names: Vec<String> = Vec::new();
        let mut i: usize = 0;
        while i < expr.len()
            invariant
                i <= expr@.len(),
                old(ctx).next_data_id < DataIdT::MAX,
                ctx.next_data_id == old(ctx).next_data_id,
                ctx.data_vec == old(ctx).data_vec,
                ctx.transformation == old(ctx).transformation,
                cols.deep_view().len() == i,
                names.deep_view() == Seq::new(
                    i as nat,
                    |k: int| spec_select_col_name(expr@[k]@, k),
                ),
                forall|k: int|
                    0 <= k < i ==> crate::transformation::built_in_fns::expr_well_formed(
                        #[trigger] expr@[k]@,
                    ),
                forall|k: int|
                    0 <= k < i ==> {
                        let c = #[trigger] cols.deep_view()[k];
                        &&& c.origin == self@.id
                        &&& c.expr == Some(expr@[k]@)
                        &&& c.encoder == Some(
                            ExpressionView {
                                text: expr@[k]@,
                                value_type: spec_infer_type(expr@[k]@),
                            },
                        )
                        &&& c.value_type == spec_infer_type(expr@[k]@)
                    },
            decreases expr@.len() - i,
        {
            let e = expr[i].as_str();
            let encoder = match Expression::new(e) {
                Ok(enc) => enc,
                Err(err) => {
                    return Err(err);
                },
            };
            let name = match encoder.get_col_name() {
                Some(n) => n,
                None => {
                    let mut n = String::from_str("col");
                    let num = crate::codec::fmt_u64(i as u64);
                    n.append(num.as_str());
                    proof {
                        reveal_strlit("col");
                        assert(n@ =~= "col"@ + crate::codec::dec_digits(i as nat));
                    }
                    n
                },
            };
            let ghost prevc = cols.deep_view();
            let ghost prevn = names.deep_view();
            let vt = encoder.get_type();
            let c = Column { origin: self.context.id, expr: Some(String::from_str(e)), encoder: Some(encoder), value_type: vt };
            let ghost cv = c@;
            let ghost nv = name@;
            cols.push(c);
            names.push(name);
            proof {
                assert(cols.deep_view() =~= prevc.push(cv));
                assert(names.deep_view() =~= prevn.push(nv));
                assert(nv == spec_select_col_name(expr@[i as int]@, i as int));
                assert(names.deep_view() =~= Seq::new(
                    (i + 1) as nat,
                    |k: int| spec_select_col_name(expr@[k]@, k),
                ));
            }
            i = i + 1;
        }
        let id = ctx.new_data_id();
        let df = DataFrame {
            context: DataTransformationContext { id },
            name: self.name.clone(),
            entity_id: dup_opt_string(&self.entity_id),
            schema: cols,
            col_names: names,
        };
        let node = df.duplicate();
        ctx.add_data(DataNode::DataFrame(node));
        Ok(df)
    }

    /// A frame one column wider: the given column appended under `colname`.
    /// Row alignment between the two origins is a caller-enforced
    /// precondition of the plan, not checked here.
    pub fn with_column(&self, ctx: &mut TransformationContext, colname: &str, col: Column) -> (df:
        DataFrame)
        requires
            old(ctx).next_data_id < DataIdT::MAX,
            self.wf(),
        ensures
            df.wf(),
            df@.id == old(ctx).next_data_id,
            df@.name == self@.name,
            df@.entity_id == self@.entity_id,
            df@.schema == self@.schema.push(col@),
            df@.col_names == self@.col_names.push(colname@),
            final(ctx).next_data_id == old(ctx).next_data_id + 1,
            final(ctx).data_vec.deep_view() == old(ctx).data_vec.deep_view().push(
                DataNodeView::DataFrame(df@),
            ),
            final(ctx).transformation == old(ctx).transformation,
    {
        let id = ctx.new_data_id();
        let base = self.duplicate();
        let mut schema = base.schema;
        let mut col_names = base.col_names;
        let ghost prevc = schema.deep_view();
        let ghost prevn = col_names.deep_view();
        let ghost cv = col@;
        schema.push(col);
        col_names.push(String::from_str(colname));
        proof {
            assert(schema.deep_view() =~= self@.schema.push(cv));
            assert(col_names.deep_view() =~= self@.col_names.push(colname@));
        }
        let df = DataFrame {
            context: DataTransformationContext { id },
            name: self.name.clone(),
            entity_id: dup_opt_string(&self.entity_id),
            schema,
            col_names,
        };
        let node = df.duplicate();
        ctx.add_data(DataNode::DataFrame(node));
        df
    }

    /// The column stored under `colname`, by its most recent occurrence
    /// (mirroring overwrite-on-insert name lookup); absent if no column has
    /// that name.
    pub fn col(&self, colname: &str) -> (r: Option<Column>)
        requires
            self.wf(),
        ensures
            match r {
                Some(c) => self@.col_names.index_of_last(colname@) is Some && c@
                    == self@.schema[self@.col_names.index_of_last(colname@).unwrap()],
                None => !self@.col_names.contains(colname@),
            },
    {
        let n = self.col_names.len();
        let mut i: usize = n;
        proof {
            self@.col_names.index_of_last_ensures(colname@);
        }
        while i > 0
            invariant
                i <= n,
                n == self@.col_names.len(),
                self.wf(),
                forall|j: int| i <= j < n ==> self@.col_names[j] != colname@,
            decreases i,
        {
            i = i - 1;
            if crate::storage::str_eq(self.col_names[i].as_str(), colname) {
                proof {
                    self@.col_names.index_of_last_ensures(colname@);
                    assert(self@.col_names.contains(colname@)) by {
                        assert(self@.col_names[i as int] == colname@);
                    }
                    let l0 = self@.col_names.index_of_last(colname@).unwrap();
                    if l0 < i {
                        assert(self@.col_names[i as int] != colname@);
                    }
                    if l0 > i {
                        assert(self@.col_names[l0] != colname@);
                    }
                }
                return Some(self.schema[i].duplicate());
            }
        }
        proof {
            if self@.col_names.contains(colname@) {
                let w = choose|w: int|
                    0 <= w < self@.col_names.len() && self@.col_names[w] == colname@;
                assert(self@.col_names[w] != colname@);
            }
        }
        None
    }

    /// Converts every column to a field stamped with the owning context's
    /// in-progress transformation id and records one export entry per
    /// column.  Exported fields reuse the frame's entity attribution.
    pub fn export(&self, ctx: &mut TransformationContext) -> (r: Vec<Field>)
        requires
            self.wf(),
            self@.entity_id matches Some(e) ==> two_slashes(e),
        ensures
            r.deep_view().len() == self@.schema.len(),
            final(ctx).transformation matches Some(t) && {
                let t = final(ctx).transformation.unwrap()@;
                let tid = crate::feature::spec_transformation_id(t);
                &&& (forall|i: int|
                    0 <= i < r.deep_view().len() ==> {
                        let f = #[trigger] r.deep_view()[i];
                        &&& f.name == self@.col_names[i]
                        &&& f.variant is None
                        &&& f.value_type == self@.schema[i].value_type
                        &&& f.entity_id == spec_field_entity_attribution(self@.entity_id)
                        &&& f.transformation_id == Some(tid)
                        &&& f.description is None
                        &&& f.tags.len() == 0
                        &&& f.owners.len() == 0
                    })
                &&& t.export_resources
                    == crate::transformation::transformation_context::spec_old_exports(
                    old(ctx).transformation,
                ) + Seq::new(
                    r.deep_view().len(),
                    |i: int| (self@.id, crate::feature::spec_field_id(r.deep_view()[i])),
                )
            },
            final(ctx).next_data_id == old(ctx).next_data_id,
            final(ctx).data_vec == old(ctx).data_vec,
    {
        let tid = self.context.get_transformation_id(ctx);
        let ghost t_after = ctx.transformation.unwrap()@;
        let ghost base_exports =
            crate::transformation::transformation_context::spec_old_exports(
            old(ctx).transformation,
        );
        let mut out: Vec<Field> = Vec::new();
        let mut i: usize = 0;
        while i < self.schema.len()
            invariant
                i <= self@.schema.len(),
                self.wf(),
                self@.entity_id matches Some(e) ==> two_slashes(e),
                ctx.transformation matches Some(t) && {
                    let t = ctx.transformation.unwrap()@;
                    &&& crate::feature::spec_transformation_id(t) == tid@
                    &&& t.export_resources == base_exports + Seq::new(
                        i as nat,
                        |k: int| (self@.id, crate::feature::spec_field_id(out.deep_view()[k])),
                    )
                    &&& t.name == t_after.name
                    &&& t.variant == t_after.variant
                    &&& t.source_field_ids == t_after.source_field_ids
                    &&& t.dest_type == t_after.dest_type
                    &&& t.transformation_type == t_after.transformation_type
                    &&& t.body == t_after.body
                    &&& t.description == t_after.description
                    &&& t.tags == t_after.tags
                    &&& t.owners == t_after.owners
                },
                ctx.next_data_id == old(ctx).next_data_id,
                ctx.data_vec == old(ctx).data_vec,
                out.deep_view().len() == i,
                forall|k: int|
                    0 <= k < i ==> {
                        let f = #[trigger] out.deep_view()[k];
                        &&& f.name == self@.col_names[k]
                        &&& f.variant is None
                        &&& f.value_type == self@.schema[k].value_type
                        &&& f.entity_id == spec_field_entity_attribution(self@.entity_id)
                        &&& f.transformation_id == Some(tid@)
                        &&& f.description is None
                        &&& f.tags.len() == 0
                        &&& f.owners.len() == 0
                    },
            decreases self@.schema.len() - i,
        {
            let f = self.schema[i].to_field(
                self.col_names[i].as_str(),
                tid.clone(),
                &self.entity_id,
            );
            proof {
                reveal_strlit("Entity/entity_name/");
                match self@.entity_id {
                    Some(e) => {},
                    None => {
                        assert(two_slashes("Entity/entity_name/"@)) by {
                            assert("Entity/entity_name/"@[6] == '/');
                            assert("Entity/entity_name/"@[18] == '/');
                        }
                    },
                }
            }
            let rid = f.resource_id();
            self.context.export_resource(ctx, self.context.id, rid);
            let ghost prevo = out.deep_view();
            let ghost fv = f@;
            out.push(f);
            proof {
                assert(out.deep_view() =~= prevo.push(fv));
                let t = ctx.transformation.unwrap()@;
                assert(t.export_resources =~= base_exports + Seq::new(
                    (i + 1) as nat,
                    |k: int| (self@.id, crate::feature::spec_field_id(out.deep_view()[k])),
                ));
            }
            i = i + 1;
        }
        out
    }
}

/// The name a `select` output column gets: the expression when it is a bare
/// identifier, else `col{index}`.
pub open spec fn spec_select_col_name(e: Seq<char>, idx: int) -> Seq<char> {
    match spec_col_name(e) {
        Some(n) => n,
        None => "col"@ + crate::codec::dec_digits(idx as nat),
    }
}

} // verus!
