use vstd::prelude::*;

use crate::ctf::{c_type_of, ctf_field_c_type, is_sequence_type};
use crate::schema::{fields_model, Field, FieldModel};

verus! {

/// The value token of a field: `<c_type> <name>_arg` when typed, `<name>_arg` when bare.
pub open spec fn value_token(f: FieldModel, typed: bool) -> Seq<char> {
    if typed {
        c_type_of(f.ctf_type) + " "@ + f.name + "_arg"@
    } else {
        f.name + "_arg"@
    }
}

/// The length token of a field: `size_t <name>_len` when typed, `<name>_len` when bare.
pub open spec fn length_token(f: FieldModel, typed: bool) -> Seq<char> {
    if typed {
        "size_t "@ + f.name + "_len"@
    } else {
        f.name + "_len"@
    }
}

/// The parameter slots of one field: its value, then its length if it is a sequence.
pub open spec fn field_tokens(f: FieldModel, typed: bool) -> Seq<Seq<char>> {
    if is_sequence_type(f.ctf_type) {
        seq![value_token(f, typed), length_token(f, typed)]
    } else {
        seq![value_token(f, typed)]
    }
}

/// The parameter slots of a field list, in field order.
pub open spec fn arg_tokens(fields: Seq<FieldModel>, typed: bool) -> Seq<Seq<char>> {
    fields.map_values(|f: FieldModel| field_tokens(f, typed)).flatten()
}

/// Tokens separated by `", "`, with nothing before the first or after the last.
pub open spec fn join_commas(tokens: Seq<Seq<char>>) -> Seq<char>
    decreases tokens.len(),
{
    if tokens.len() == 0 {
        Seq::empty()
    } else if tokens.len() == 1 {
        tokens[0]
    } else {
        join_commas(tokens.drop_last()) + ", "@ + tokens.last()
    }
}

/// The rendered parameter list (typed) or argument list (bare) of a field list.
pub open spec fn render_args(fields: Seq<FieldModel>, typed: bool) -> Seq<char> {
    join_commas(arg_tokens(fields, typed))
}

pub proof fn lemma_join_push(tokens: Seq<Seq<char>>, t: Seq<char>)
    ensures
        join_commas(tokens.push(t)) == if tokens.len() == 0 {
            t
        } else {
            join_commas(tokens) + ", "@ + t
        },
{
    assert(tokens.push(t).drop_last() =~= tokens);
}

pub proof fn lemma_arg_tokens_push(fields: Seq<FieldModel>, f: FieldModel, typed: bool)
    ensures
        arg_tokens(fields.push(f), typed) == arg_tokens(fields, typed) + field_tokens(f, typed),
{
    let g = |x: FieldModel| field_tokens(x, typed);
    assert(fields.push(f).map_values(g) =~= fields.map_values(g).push(field_tokens(f, typed)));
    fields.map_values(g).lemma_flatten_push(field_tokens(f, typed));
}

pub proof fn lemma_arg_tokens_concat(a: Seq<FieldModel>, b: Seq<FieldModel>, typed: bool)
    ensures
        arg_tokens(a + b, typed) == arg_tokens(a, typed) + arg_tokens(b, typed),
{
    let g = |x: FieldModel| field_tokens(x, typed);
    assert((a + b).map_values(g) =~= a.map_values(g) + b.map_values(g));
    vstd::seq_lib::lemma_flatten_concat(a.map_values(g), b.map_values(g));
}

/// The typed and bare renderings have the same number of slots, at least one per field.
pub proof fn lemma_arg_tokens_len(fields: Seq<FieldModel>)
    ensures
        arg_tokens(fields, true).len() == arg_tokens(fields, false).len(),
        arg_tokens(fields, true).len() >= fields.len(),
        fields.len() == 0 ==> arg_tokens(fields, true).len() == 0,
    decreases fields.len(),
{
    if fields.len() == 0 {
        assert(fields.map_values(|f: FieldModel| field_tokens(f, true)) =~= Seq::empty());
        assert(fields.map_values(|f: FieldModel| field_tokens(f, false)) =~= Seq::empty());
    } else {
        let init = fields.drop_last();
        assert(init.push(fields.last()) =~= fields);
        lemma_arg_tokens_len(init);
        lemma_arg_tokens_push(init, fields.last(), true);
        lemma_arg_tokens_push(init, fields.last(), false);
    }
}

/// Joining two non-empty runs of tokens puts one separator between them.
pub proof fn lemma_join_concat(x: Seq<Seq<char>>, y: Seq<Seq<char>>)
    requires
        x.len() > 0,
    ensures
        join_commas(x + y) == if y.len() == 0 {
            join_commas(x)
        } else {
            join_commas(x) + ", "@ + join_commas(y)
        },
    decreases y.len(),
{
    if y.len() == 0 {
        assert(x + y =~= x);
    } else {
        let init = y.drop_last();
        let l = y.last();
        assert(x + y =~= (x + init).push(l));
        assert(y =~= init.push(l));
        lemma_join_push(x + init, l);
        lemma_join_push(init, l);
        lemma_join_concat(x, init);
        if init.len() == 0 {
            assert(x + init =~= x);
        } else {
            assert(join_commas(x) + ", "@ + join_commas(init) + ", "@ + l =~= join_commas(x)
                + ", "@ + (join_commas(init) + ", "@ + l));
        }
    }
}

/// A sequence field and its length stay paired in both renderings: the
/// field's value slot sits at the same index in the typed and bare slot
/// lists, and its length slot comes right after it in each.
pub proof fn lemma_length_follows_sequence_field(fields: Seq<FieldModel>, k: int)
    requires
        0 <= k < fields.len(),
        is_sequence_type(fields[k].ctf_type),
    ensures
        ({
            let j = arg_tokens(fields.take(k), true).len() as int;
            let f = fields[k];
            &&& j == arg_tokens(fields.take(k), false).len()
            &&& j + 1 < arg_tokens(fields, true).len()
            &&& j + 1 < arg_tokens(fields, false).len()
            &&& arg_tokens(fields, true)[j] == c_type_of(f.ctf_type) + " "@ + f.name + "_arg"@
            &&& arg_tokens(fields, true)[j + 1] == "size_t "@ + f.name + "_len"@
            &&& arg_tokens(fields, false)[j] == f.name + "_arg"@
            &&& arg_tokens(fields, false)[j + 1] == f.name + "_len"@
        }),
{
    let f = fields[k];
    let pre = fields.take(k);
    let post = fields.subrange(k + 1, fields.len() as int);
    assert(fields =~= pre.push(f) + post);
    lemma_arg_tokens_len(pre);
    lemma_arg_tokens_push(pre, f, true);
    lemma_arg_tokens_push(pre, f, false);
    lemma_arg_tokens_concat(pre.push(f), post, true);
    lemma_arg_tokens_concat(pre.push(f), post, false);
}

/// Renders a field list as a C parameter list (`include_type`) or as the
/// matching argument list, a sequence field followed by its length.
pub fn generate_c_args(fields: &[Field], include_type: bool) -> (r: String)
    ensures
        r@ == render_args(fields_model(fields@), include_type),
{
    let ghost model = fields_model(fields@);
    let mut out = String::new();
    let mut i: usize = 0;
    while i < fields.len()
        invariant
            0 <= i <= fields@.len(),
            model == fields_model(fields@),
            out@ == render_args(model.take(i as int), include_type),
            i > 0 ==> arg_tokens(model.take(i as int), include_type).len() > 0,
        decreases fields@.len() - i,
    {
        let field = &fields[i];
        let ghost f = field@;
        let ghost before = arg_tokens(model.take(i as int), include_type);
        proof {
            assert(model.take(i as int + 1) =~= model.take(i as int).push(f));
            lemma_arg_tokens_push(model.take(i as int), f, include_type);
            lemma_join_push(before, value_token(f, include_type));
        }
        let mut value = String::new();
        if include_type {
            value.append(ctf_field_c_type(field.ctf_type));
            value.append(" ");
        }
        value.append(field.name.as_str());
        value.append("_arg");
        assert(value@ =~= value_token(f, include_type));
        if i > 0 {
            out.append(", ");
        }
        out.append(value.as_str());
        assert(out@ =~= join_commas(before.push(value_token(f, include_type))));
        if field.ctf_type.is_sequence() {
            let mut len = String::new();
            if include_type {
                len.append("size_t ");
            }
            len.append(field.name.as_str());
            len.append("_len");
            assert(len@ =~= length_token(f, include_type));
            proof {
                lemma_join_push(
                    before.push(value_token(f, include_type)),
                    length_token(f, include_type),
                );
                assert(field_tokens(f, include_type) =~= seq![
                    value_token(f, include_type),
                    length_token(f, include_type),
                ]);
                assert(before + field_tokens(f, include_type) =~= before.push(
                    value_token(f, include_type),
                ).push(length_token(f, include_type)));
            }
            out.append(", ");
            out.append(len.as_str());
            assert(out@ =~= join_commas(before + field_tokens(f, include_type)));
        } else {
            assert(before + field_tokens(f, include_type) =~= before.push(
                value_token(f, include_type),
            ));
        }
        i = i + 1;
    }
    assert(model.take(fields@.len() as int) =~= model);
    out
}

} // verus!
