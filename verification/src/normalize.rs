//! Row Normalizer: flattens one tabular record into a single line of text,
//! ready to be embedded.
//!
//! Every field is rendered to text (strings unchanged, integers in decimal,
//! nulls as the literal `null`, anything else as a fixed placeholder) and the
//! renderings are joined with `", "`. Normalization is total: no input is
//! rejected, so ingestion of a large file never stops on an odd field.

use vstd::prelude::*;
use crate::text::{push_dec_i64, spec_dec_int};
use vstd::string::StringExecFns;

verus! {

/// One field of a source record: text, an integer, a null, or a value of a
/// kind the pipeline does not understand.
#[derive(Debug)]
pub enum FieldValue {
    Text(String),
    Int(i64),
    Null,
    Other,
}

/// The textual rendering of one field.
pub open spec fn spec_render_field(f: FieldValue) -> Seq<char> {
    match f {
        FieldValue::Text(s) => s@,
        FieldValue::Int(n) => spec_dec_int(n as int),
        FieldValue::Null => "null"@,
        FieldValue::Other => "unsupported"@,
    }
}

/// The normalized text of a whole record: field renderings joined by `", "`.
pub open spec fn spec_normalize(fields: Seq<FieldValue>) -> Seq<char>
    decreases fields.len(),
{
    if fields.len() == 0 {
        Seq::empty()
    } else if fields.len() == 1 {
        spec_render_field(fields[0])
    } else {
        spec_render_field(fields[0]) + ", "@ + spec_normalize(fields.drop_first())
    }
}

/// Appends the rendering of one field to `s`.
fn push_field(s: &mut String, f: &FieldValue)
    ensures
        final(s)@ == old(s)@ + spec_render_field(*f),
{
    match f {
        FieldValue::Text(t) => {
            s.append(t.as_str());
        },
        FieldValue::Int(n) => {
            push_dec_i64(s, *n);
        },
        FieldValue::Null => {
            s.append("null");
        },
        FieldValue::Other => {
            s.append("unsupported");
        },
    }
}

fn normalize_from(fields: &Vec<FieldValue>, i: usize, s: &mut String)
    requires
        i <= fields.len(),
    ensures
        final(s)@ == old(s)@ + spec_normalize(fields@.skip(i as int)),
    decreases fields.len() - i,
{
    if i < fields.len() {
        push_field(s, &fields[i]);
        if i + 1 < fields.len() {
            s.append(", ");
        }
        normalize_from(fields, i + 1, s);
        proof {
            assert(fields@.skip(i as int)[0] == fields@[i as int]);
            assert(fields@.skip(i as int).drop_first() =~= fields@.skip(i + 1));
            assert(final(s)@ == old(s)@ + spec_normalize(fields@.skip(i as int)));
        }
    } else {
        assert(fields@.skip(i as int) =~= Seq::<FieldValue>::empty());
    }
}

/// Produces the one normalized text of a record. Total over every record:
/// the result is entirely determined by the fields, so running it again on
/// the same record yields the same text.
pub fn normalize(fields: &Vec<FieldValue>) -> (r: String)
    ensures
        r@ == spec_normalize(fields@),
{
    let mut s = String::new();
    normalize_from(fields, 0, &mut s);
    proof {
        assert(fields@.skip(0) =~= fields@);
    }
    s
}

} // verus!
