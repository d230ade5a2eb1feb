//! Joining declared parameters with documented ones, and the enumeration list.

use vstd::prelude::*;
use crate::grammar::{Stream, StreamView, streams_view};
use crate::model::{EnumField, Method, Param, ParamView, params_view};
use crate::text::{decimal, decimal_string};

verus! {

/// The description of the first documented parameter at or after `j` named `name`;
/// empty where there is none.
pub open spec fn desc_from(docs: Seq<ParamView>, name: Seq<char>, j: int) -> Seq<char>
    decreases docs.len() - j,
{
    if j < 0 || j >= docs.len() {
        Seq::empty()
    } else if docs[j].name == name {
        docs[j].desc
    } else {
        desc_from(docs, name, j + 1)
    }
}

/// The documented description of the parameter named `name`.
pub open spec fn documented_desc(docs: Seq<ParamView>, name: Seq<char>) -> Seq<char> {
    desc_from(docs, name, 0)
}

/// Each declared parameter, with its type and name kept and its description taken
/// from the documentation.
pub open spec fn reconciled(decl: Seq<ParamView>, docs: Seq<ParamView>) -> Seq<ParamView> {
    decl.map_values(
        |p: ParamView| ParamView { var_type: p.var_type, name: p.name, desc: documented_desc(docs, p.name) },
    )
}

/// Merges the parameters declared by `method` with the documented ones, by name.
pub fn match_params(method: &Method, jparams: &Vec<Param>) -> (r: Vec<Param>)
    ensures
        params_view(r@) == reconciled(params_view(method.parameters@), params_view(jparams@)),
{
    let ghost docs = params_view(jparams@);
    let mut new_param: Vec<Param> = Vec::new();
    let n = method.parameters.len();
    let mut i: usize = 0;
    while i < n
        invariant
            n == method.parameters@.len(),
            0 <= i <= n,
            docs == params_view(jparams@),
            params_view(new_param@) == reconciled(params_view(method.parameters@), docs).subrange(0, i as int),
        decreases n - i,
    {
        let param = &method.parameters[i];
        let mut desc = String::new();
        let mut found = false;
        let mut j: usize = 0;
        while j < jparams.len() && !found
            invariant
                0 <= j <= jparams@.len(),
                docs == params_view(jparams@),
                !found ==> desc@.len() == 0 && desc_from(docs, param.name@, 0) == desc_from(
                    docs,
                    param.name@,
                    j as int,
                ),
                found ==> desc@ == desc_from(docs, param.name@, 0),
            decreases jparams@.len() - j + if found { 0int } else { 1int },
        {
            if param.name == jparams[j].name {
                desc = jparams[j].desc.clone();
                found = true;
            } else {
                j = j + 1;
            }
        }
        assert(desc@ == documented_desc(docs, param.name@));
        let ghost prev = new_param@;
        let p = Param { name: param.name.clone(), var_type: param.var_type.clone(), desc };
        assert(p@ == reconciled(params_view(method.parameters@), docs)[i as int]);
        new_param.push(p);
        assert(params_view(new_param@) =~= params_view(prev).push(p@));
        i = i + 1;
        assert(params_view(new_param@) =~= reconciled(params_view(method.parameters@), docs).subrange(0, i as int));
    }
    assert(reconciled(params_view(method.parameters@), docs).subrange(0, n as int)
        =~= reconciled(params_view(method.parameters@), docs));
    new_param
}

/// Reconciling keeps one parameter per declared parameter, with its name and type;
/// a documented description is adopted only from a documented parameter of the same
/// name, and without one the description is empty; documented parameters that match
/// no declared one leave no trace.
pub proof fn reconcile_law(decl: Seq<ParamView>, docs: Seq<ParamView>)
    ensures
        reconciled(decl, docs).len() == decl.len(),
        forall|i: int|
            0 <= i < decl.len() ==> {
                let r = #[trigger] reconciled(decl, docs)[i];
                &&& r.name == decl[i].name
                &&& r.var_type == decl[i].var_type
                &&& (exists|j: int| 0 <= j < docs.len() && docs[j].name == decl[i].name
                    && r.desc == docs[j].desc)
                    || (r.desc.len() == 0 && forall|j: int|
                        0 <= j < docs.len() ==> docs[j].name != decl[i].name)
            },
{
    assert forall|i: int| 0 <= i < decl.len() implies {
        let r = #[trigger] reconciled(decl, docs)[i];
        (exists|j: int| 0 <= j < docs.len() && docs[j].name == decl[i].name && r.desc == docs[j].desc)
            || (r.desc.len() == 0 && forall|j: int| 0 <= j < docs.len() ==> docs[j].name != decl[i].name)
    } by {
        desc_from_found(docs, decl[i].name, 0);
    }
}

/// A documented parameter whose name no declared parameter has is absent from the
/// result: no reconciled parameter carries its name.
pub proof fn undeclared_docs_are_dropped(decl: Seq<ParamView>, docs: Seq<ParamView>)
    ensures
        forall|j: int| #![trigger docs[j]]
            0 <= j < docs.len() && (forall|k: int| 0 <= k < decl.len() ==> decl[k].name != docs[j].name)
                ==> forall|i: int|
                0 <= i < reconciled(decl, docs).len() ==> #[trigger] reconciled(decl, docs)[i].name
                    != docs[j].name,
{
    let r = reconciled(decl, docs);
    assert(r.len() == decl.len());
    assert forall|j: int| #![trigger docs[j]]
        0 <= j < docs.len() && (forall|k: int| 0 <= k < decl.len() ==> decl[k].name != docs[j].name)
            implies forall|i: int| 0 <= i < r.len() ==> #[trigger] r[i].name != docs[j].name by {
        assert forall|i: int| 0 <= i < r.len() implies #[trigger] r[i].name != docs[j].name by {
            assert(r[i].name == decl[i].name);
            assert(decl[i].name != docs[j].name);
        }
    }
}

proof fn desc_from_found(docs: Seq<ParamView>, name: Seq<char>, j: int)
    requires
        0 <= j,
    ensures
        (exists|k: int| j <= k < docs.len() && docs[k].name == name && desc_from(docs, name, j) == docs[k].desc)
            || (desc_from(docs, name, j).len() == 0 && forall|k: int| j <= k < docs.len() ==> docs[k].name != name),
    decreases docs.len() - j,
{
    if j < docs.len() && docs[j].name != name {
        desc_from_found(docs, name, j + 1);
    }
}

/// The identifiers of an enumeration's constant list, in order.
pub open spec fn variable_names(parts: Seq<StreamView>) -> Seq<Seq<char>>
    decreases parts.len(),
{
    if parts.len() == 0 {
        Seq::empty()
    } else {
        let rest = variable_names(parts.drop_last());
        match parts.last() {
            StreamView::Variable(v) => rest.push(v),
            _ => rest,
        }
    }
}

/// One constant per identifier of the list, valued by its position in it.
pub fn get_enum_fields(gram_parts: &Vec<Stream>) -> (r: Vec<EnumField>)
    ensures
        r@.len() == variable_names(streams_view(gram_parts@)).len(),
        forall|i: int|
            0 <= i < r@.len() ==> (#[trigger] r@[i]).name@ == variable_names(streams_view(gram_parts@))[i]
                && r@[i].value@ == decimal(i as nat),
{
    let mut fields: Vec<EnumField> = Vec::new();
    let mut i: usize = 0;
    while i < gram_parts.len()
        invariant
            0 <= i <= gram_parts@.len(),
            fields@.len() == variable_names(streams_view(gram_parts@).subrange(0, i as int)).len(),
            forall|k: int|
                0 <= k < fields@.len() ==> (#[trigger] fields@[k]).name@ == variable_names(
                    streams_view(gram_parts@).subrange(0, i as int),
                )[k] && fields@[k].value@ == decimal(k as nat),
        decreases gram_parts@.len() - i,
    {
        let ghost pre = streams_view(gram_parts@).subrange(0, i as int);
        let ghost now = streams_view(gram_parts@).subrange(0, i + 1 as int);
        assert(now.drop_last() =~= pre);
        match &gram_parts[i] {
            Stream::Variable(var) => {
                let value = decimal_string(fields.len());
                fields.push(EnumField { name: var.clone(), value });
            },
            _ => {},
        }
        i = i + 1;
    }
    assert(streams_view(gram_parts@).subrange(0, gram_parts@.len() as int) =~= streams_view(gram_parts@));
    fields
}

} // verus!
